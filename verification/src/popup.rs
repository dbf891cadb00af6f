//! The overlay popups: which one shows, what opens it and what closes it.

use crate::timer::{lemma_countdown, tick, ticks, Timer, TimerState};
use vstd::prelude::*;

verus! {

/// The popup on show, if any.
#[derive(Debug, PartialEq, Eq, Clone)]
pub enum PopupState {
    /// The key bindings. Stays until toggled away.
    Help,
    /// The users in the room. Stays until toggled away.
    List,
    /// Notice that the named user was banned. Goes when time has passed.
    Banned(String),
    /// Notice that the named user joined (`true`) or left (`false`). Goes
    /// when time has passed.
    JoinedLeft(String, bool),
    /// No popup.
    Hidden,
}

/// The mathematical value of a [`PopupState`].
pub enum Popup {
    Help,
    List,
    Banned(Seq<char>),
    JoinedLeft(Seq<char>, bool),
    Hidden,
}

impl View for PopupState {
    type V = Popup;

    open spec fn view(&self) -> Popup {
        match self {
            PopupState::Help => Popup::Help,
            PopupState::List => Popup::List,
            PopupState::Banned(user) => Popup::Banned(user@),
            PopupState::JoinedLeft(user, joined) => Popup::JoinedLeft(user@, *joined),
            PopupState::Hidden => Popup::Hidden,
        }
    }
}

/// Whether `popup` is a notice, which only time takes away.
pub open spec fn is_notice(popup: Popup) -> bool {
    popup is Banned || popup is JoinedLeft
}

/// The mathematical state of a [`PopupController`].
pub struct ControllerState {
    pub popup: Popup,
    pub timer: TimerState,
}

/// The state after the user asked for `wanted`, the help or the user list:
/// asking for what shows closes it, asking for anything else opens it in
/// place of whatever shows. A notice that is pushed aside stops the timer.
pub open spec fn toggled(s: ControllerState, wanted: Popup) -> ControllerState {
    ControllerState {
        popup: if s.popup == wanted { Popup::Hidden } else { wanted },
        timer: if is_notice(s.popup) { TimerState { running: false, ..s.timer } } else { s.timer },
    }
}

/// The state after `notice` arrived: it shows in place of whatever showed,
/// and the timer runs.
pub open spec fn notified(s: ControllerState, notice: Popup) -> ControllerState {
    ControllerState { popup: notice, timer: TimerState { running: true, ..s.timer } }
}

/// The state after one tick of the loop.
pub open spec fn ticked(s: ControllerState) -> ControllerState {
    ControllerState { popup: s.popup, timer: tick(s.timer) }
}

/// The state after a frame was drawn: a notice whose time has passed is gone.
pub open spec fn expired(s: ControllerState) -> ControllerState {
    ControllerState {
        popup: if is_notice(s.popup) && s.timer.counter == 0 { Popup::Hidden } else { s.popup },
        timer: s.timer,
    }
}

/// The state after `n` rounds of the loop, each a tick and then a frame.
pub open spec fn rounds(s: ControllerState, n: nat) -> ControllerState
    decreases n,
{
    if n == 0 {
        s
    } else {
        expired(ticked(rounds(s, (n - 1) as nat)))
    }
}

/// A notice that arrives while the timer stands at zero shows for one round
/// more than the timer's threshold, the last of them being the one in which
/// it is taken away.
pub proof fn lemma_notice_lasts_its_ticks(s: ControllerState, notice: Popup, n: nat)
    requires
        is_notice(notice),
        s.timer.counter == 0,
        1 <= n <= s.timer.threshold + 1,
    ensures
        rounds(notified(s, notice), n).popup == (if n <= s.timer.threshold {
            notice
        } else {
            Popup::Hidden
        }),
        rounds(notified(s, notice), n).timer == ticks(notified(s, notice).timer, n),
    decreases n,
{
    let start = notified(s, notice);
    if n > 1 {
        lemma_notice_lasts_its_ticks(s, notice, (n - 1) as nat);
    } else {
        assert(rounds(start, 0) == start);
        assert(ticks(start.timer, 0) == start.timer);
    }
    lemma_countdown(start.timer, n);
}

/// The help and the user list outlast any number of rounds, and so does an
/// empty screen.
pub proof fn lemma_only_notices_expire(s: ControllerState, n: nat)
    requires
        !is_notice(s.popup),
    ensures
        rounds(s, n).popup == s.popup,
    decreases n,
{
    if n > 0 {
        lemma_only_notices_expire(s, (n - 1) as nat);
    }
}

/// A toggle has its way over whatever shows: asking for the help or the user
/// list while a notice shows opens what was asked for and stops the timer,
/// and asking for it again leaves nothing on show.
pub proof fn lemma_toggle_takes_precedence(s: ControllerState, wanted: Popup)
    requires
        wanted is Help || wanted is List,
        s.popup != wanted,
    ensures
        toggled(s, wanted).popup == wanted,
        is_notice(s.popup) ==> !toggled(s, wanted).timer.running,
        toggled(toggled(s, wanted), wanted).popup is Hidden,
{
}

/// Holds the popup on show and the timer that takes notices away.
#[derive(Debug)]
pub struct PopupController {
    pub current_popup: PopupState,
    pub popup_display_timer: Timer,
}

impl View for PopupController {
    type V = ControllerState;

    open spec fn view(&self) -> ControllerState {
        ControllerState { popup: self.current_popup@, timer: self.popup_display_timer@ }
    }
}

impl PopupController {
    /// The state of a new controller: nothing shows, and the timer is stopped
    /// at zero.
    pub open spec fn new_spec(threshold: usize) -> ControllerState {
        ControllerState {
            popup: Popup::Hidden,
            timer: TimerState { threshold: threshold as nat, counter: 0, running: false },
        }
    }

    /// A controller that shows nothing, with a stopped timer of the given
    /// threshold to take notices away.
    pub fn new(threshold: usize) -> (controller: PopupController)
        ensures
            controller@ == Self::new_spec(threshold),
    {
        PopupController {
            current_popup: PopupState::Hidden,
            popup_display_timer: Timer::new(threshold),
        }
    }

    /// Whether a notice shows.
    fn shows_notice(&self) -> (notice: bool)
        ensures
            notice == is_notice(self@.popup),
    {
        match &self.current_popup {
            PopupState::Banned(_) => true,
            PopupState::JoinedLeft(_, _) => true,
            _ => false,
        }
    }

    /// Opens the help, or closes it where it shows.
    pub fn toggle_help(&mut self)
        ensures
            final(self)@ == toggled(old(self)@, Popup::Help),
    {
        if self.shows_notice() {
            self.popup_display_timer.lock();
        }
        let shows: bool = match &self.current_popup {
            PopupState::Help => true,
            _ => false,
        };
        self.current_popup = if shows { PopupState::Hidden } else { PopupState::Help };
    }

    /// Opens the user list, or closes it where it shows.
    pub fn toggle_list(&mut self)
        ensures
            final(self)@ == toggled(old(self)@, Popup::List),
    {
        if self.shows_notice() {
            self.popup_display_timer.lock();
        }
        let shows: bool = match &self.current_popup {
            PopupState::List => true,
            _ => false,
        };
        self.current_popup = if shows { PopupState::Hidden } else { PopupState::List };
    }

    /// Shows the notice that `user` was banned.
    pub fn user_banned(&mut self, user: String)
        ensures
            final(self)@ == notified(old(self)@, Popup::Banned(user@)),
    {
        self.current_popup = PopupState::Banned(user);
        self.popup_display_timer.unlock();
    }

    /// Shows the notice that `user` joined.
    pub fn user_joined(&mut self, user: String)
        ensures
            final(self)@ == notified(old(self)@, Popup::JoinedLeft(user@, true)),
    {
        self.current_popup = PopupState::JoinedLeft(user, true);
        self.popup_display_timer.unlock();
    }

    /// Shows the notice that `user` left.
    pub fn user_left(&mut self, user: String)
        ensures
            final(self)@ == notified(old(self)@, Popup::JoinedLeft(user@, false)),
    {
        self.current_popup = PopupState::JoinedLeft(user, false);
        self.popup_display_timer.unlock();
    }

    /// Advances the timer by one tick.
    pub fn tick(&mut self)
        ensures
            final(self)@ == ticked(old(self)@),
    {
        self.popup_display_timer.dec();
    }

    /// Takes away a notice whose time has passed. To be called once a frame,
    /// after the frame was drawn.
    pub fn expire(&mut self)
        ensures
            final(self)@ == expired(old(self)@),
    {
        if self.shows_notice() && self.popup_display_timer.has_time_passed() {
            self.current_popup = PopupState::Hidden;
        }
    }
}

} // verus!
