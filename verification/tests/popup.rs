use kioto::popup::{PopupController, PopupState};

#[test]
fn new_controller_shows_nothing() {
    let controller = PopupController::new(3);
    assert_eq!(controller.current_popup, PopupState::Hidden);
    assert!(controller.popup_display_timer.has_time_passed());
}

#[test]
fn help_toggles_on_and_off() {
    let mut controller = PopupController::new(3);
    controller.toggle_help();
    assert_eq!(controller.current_popup, PopupState::Help);
    controller.toggle_help();
    assert_eq!(controller.current_popup, PopupState::Hidden);
}

#[test]
fn user_list_toggles_on_and_off() {
    let mut controller = PopupController::new(3);
    controller.toggle_list();
    assert_eq!(controller.current_popup, PopupState::List);
    controller.toggle_list();
    assert_eq!(controller.current_popup, PopupState::Hidden);
}

#[test]
fn one_toggle_replaces_the_other() {
    let mut controller = PopupController::new(3);
    controller.toggle_help();
    controller.toggle_list();
    assert_eq!(controller.current_popup, PopupState::List);
    controller.toggle_help();
    assert_eq!(controller.current_popup, PopupState::Help);
}

#[test]
fn help_and_user_list_do_not_expire() {
    let mut controller = PopupController::new(2);
    controller.toggle_help();
    for _ in 0..10 {
        controller.tick();
        controller.expire();
        assert_eq!(controller.current_popup, PopupState::Help);
    }
}

#[test]
fn banned_notice_goes_when_its_time_has_passed() {
    let mut controller = PopupController::new(3);
    controller.user_banned("alice".to_string());
    assert_eq!(controller.current_popup, PopupState::Banned("alice".to_string()));
    for _ in 0..3 {
        controller.tick();
        controller.expire();
        assert_eq!(controller.current_popup, PopupState::Banned("alice".to_string()));
    }
    controller.tick();
    controller.expire();
    assert_eq!(controller.current_popup, PopupState::Hidden);
}

#[test]
fn joined_and_left_notices_name_the_user() {
    let mut controller = PopupController::new(1);
    controller.user_joined("bob".to_string());
    assert_eq!(controller.current_popup, PopupState::JoinedLeft("bob".to_string(), true));
    controller.user_left("bob".to_string());
    assert_eq!(controller.current_popup, PopupState::JoinedLeft("bob".to_string(), false));
    controller.tick();
    controller.expire();
    assert_eq!(controller.current_popup, PopupState::JoinedLeft("bob".to_string(), false));
    controller.tick();
    controller.expire();
    assert_eq!(controller.current_popup, PopupState::Hidden);
}

#[test]
fn later_notice_replaces_the_earlier() {
    let mut controller = PopupController::new(5);
    controller.user_banned("alice".to_string());
    controller.tick();
    controller.user_joined("carol".to_string());
    assert_eq!(controller.current_popup, PopupState::JoinedLeft("carol".to_string(), true));
}

#[test]
fn help_takes_precedence_over_a_notice() {
    let mut controller = PopupController::new(3);
    controller.user_banned("alice".to_string());
    controller.tick();
    controller.toggle_help();
    assert_eq!(controller.current_popup, PopupState::Help);
    for _ in 0..5 {
        controller.tick();
        controller.expire();
    }
    assert_eq!(controller.current_popup, PopupState::Help);
    assert!(!controller.popup_display_timer.has_time_passed());
}

#[test]
fn notice_without_a_tick_goes_with_the_first_frame() {
    let mut controller = PopupController::new(3);
    controller.user_banned("alice".to_string());
    controller.expire();
    assert_eq!(controller.current_popup, PopupState::Hidden);
}
