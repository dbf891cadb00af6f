//! The rooms and settings that the program keeps between runs, as they stand
//! in memory.

use crate::style::Color;
use crate::text::{line_views, str_equal};
use vstd::prelude::*;
use vstd::string::*;

verus! {

/// The address that a new installation listens on.
pub const DEFAULT_ADDR: &'static str = "127.0.0.1:12345";

/// A chat room that this installation knows.
#[derive(Debug, Clone, PartialEq, Eq)]
pub struct Room {
    pub id: String,
    pub addr: String,
    pub passwd: Option<String>,
    pub banned_addrs: Vec<String>,
    pub is_owner: bool,
}

/// The mathematical value of a [`Room`].
pub struct RoomRecord {
    pub id: Seq<char>,
    pub addr: Seq<char>,
    pub passwd: Option<Seq<char>>,
    pub banned_addrs: Seq<Seq<char>>,
    pub is_owner: bool,
}

impl View for Room {
    type V = RoomRecord;

    open spec fn view(&self) -> RoomRecord {
        RoomRecord {
            id: self.id@,
            addr: self.addr@,
            passwd: match self.passwd {
                Some(passwd) => Some(passwd@),
                None => None,
            },
            banned_addrs: line_views(self.banned_addrs@),
            is_owner: self.is_owner,
        }
    }
}

impl Room {
    /// A copy of this room.
    pub fn duplicate(&self) -> (copy: Room)
        ensures
            copy@ == self@,
    {
        let mut banned: Vec<String> = Vec::new();
        let mut i: usize = 0;
        while i < self.banned_addrs.len()
            invariant
                i <= self.banned_addrs.len(),
                banned@.len() == i,
                forall|k: int| 0 <= k < i ==> (#[trigger] banned@[k])@ == self.banned_addrs@[k]@,
            decreases self.banned_addrs.len() - i,
        {
            banned.push(self.banned_addrs[i].clone());
            i = i + 1;
        }
        assert(line_views(banned@) =~= line_views(self.banned_addrs@));
        Room {
            id: self.id.clone(),
            addr: self.addr.clone(),
            passwd: match &self.passwd {
                Some(passwd) => Some(passwd.clone()),
                None => None,
            },
            banned_addrs: banned,
            is_owner: self.is_owner,
        }
    }
}

/// The settings of this installation.
#[derive(Debug, Clone, PartialEq, Eq)]
pub struct LocalData {
    pub addr: String,
    pub username: String,
    pub color: Color,
    pub remember_passwords: bool,
    pub light_mode: bool,
}

/// The mathematical value of a [`LocalData`].
pub struct Settings {
    pub addr: Seq<char>,
    pub username: Seq<char>,
    pub color: Color,
    pub remember_passwords: bool,
    pub light_mode: bool,
}

impl View for LocalData {
    type V = Settings;

    open spec fn view(&self) -> Settings {
        Settings {
            addr: self.addr@,
            username: self.username@,
            color: self.color,
            remember_passwords: self.remember_passwords,
            light_mode: self.light_mode,
        }
    }
}

/// The settings of a new installation whose user is called `username`.
pub open spec fn default_settings(username: Seq<char>) -> Settings {
    Settings {
        addr: DEFAULT_ADDR@,
        username,
        color: Color::White,
        remember_passwords: false,
        light_mode: false,
    }
}

/// The store: the rooms in the order in which they were added, and the
/// settings, of which the first entry counts.
#[derive(Debug, Clone, PartialEq, Eq)]
pub struct DbRepo {
    pub rooms: Vec<Room>,
    pub local_data: Vec<LocalData>,
}

/// The mathematical value of a [`DbRepo`].
pub struct Store {
    pub rooms: Seq<RoomRecord>,
    pub local_data: Seq<Settings>,
}

/// The values of the given rooms.
pub open spec fn room_views(rooms: Seq<Room>) -> Seq<RoomRecord> {
    rooms.map_values(|room: Room| room@)
}

/// The values of the given settings.
pub open spec fn settings_views(entries: Seq<LocalData>) -> Seq<Settings> {
    entries.map_values(|entry: LocalData| entry@)
}

impl View for DbRepo {
    type V = Store;

    open spec fn view(&self) -> Store {
        Store { rooms: room_views(self.rooms@), local_data: settings_views(self.local_data@) }
    }
}

/// Whether `at` is the place of the first of `rooms` that is called `id`.
pub open spec fn is_first_called(rooms: Seq<RoomRecord>, id: Seq<char>, at: int) -> bool {
    &&& 0 <= at < rooms.len()
    &&& rooms[at].id == id
    &&& forall|k: int| 0 <= k < at ==> (#[trigger] rooms[k]).id != id
}

/// Whether one of `rooms` is called `id`.
pub open spec fn has_room(rooms: Seq<RoomRecord>, id: Seq<char>) -> bool {
    exists|at: int| 0 <= at < rooms.len() && (#[trigger] rooms[at]).id == id
}

/// The place of the first of `rooms` that is called `id`, where there is one.
pub open spec fn place_of(rooms: Seq<RoomRecord>, id: Seq<char>) -> int {
    choose|at: int| is_first_called(rooms, id, at)
}

/// A room that is first of its name stands where `place_of` says.
pub proof fn lemma_first_is_place(rooms: Seq<RoomRecord>, id: Seq<char>, at: int)
    requires
        is_first_called(rooms, id, at),
    ensures
        has_room(rooms, id),
        place_of(rooms, id) == at,
{
    let chosen = place_of(rooms, id);
    assert(is_first_called(rooms, id, chosen));
    if chosen < at {
        assert(rooms[chosen].id != id);
    }
    if at < chosen {
        assert(rooms[at].id != id);
    }
}

/// The store after a room called `id` was deleted: the first room of that
/// name is gone, if there was any.
pub open spec fn without_room(s: Store, id: Seq<char>) -> Store {
    if has_room(s.rooms, id) {
        Store { rooms: s.rooms.remove(place_of(s.rooms, id)), ..s }
    } else {
        s
    }
}

/// The store when it is opened, from what was kept, if anything was: where
/// it has no settings yet, it gets those of a new installation.
pub open spec fn opened(kept: Option<Store>, username: Seq<char>) -> Store {
    let rooms = match kept {
        Some(store) => store.rooms,
        None => Seq::empty(),
    };
    let local_data = match kept {
        Some(store) => store.local_data,
        None => Seq::empty(),
    };
    Store {
        rooms,
        local_data: if local_data.len() == 0 {
            seq![default_settings(username)]
        } else {
            local_data
        },
    }
}

impl DbRepo {
    /// Finds the first room called `id`.
    pub fn find_room(&self, id: &str) -> (found: Option<usize>)
        ensures
            match found {
                Some(at) => is_first_called(self@.rooms, id@, at as int),
                None => !has_room(self@.rooms, id@),
            },
    {
        let mut i: usize = 0;
        while i < self.rooms.len()
            invariant
                i <= self.rooms.len(),
                forall|k: int| 0 <= k < i ==> (#[trigger] self@.rooms[k]).id != id@,
            decreases self.rooms.len() - i,
        {
            let same: bool = str_equal(self.rooms[i].id.as_str(), id);
            if same {
                return Some(i);
            }
            i = i + 1;
        }
        None
    }

    /// Adds `room` behind the rooms there are.
    pub fn insert_room(&mut self, room: Room)
        ensures
            final(self)@ == (Store { rooms: old(self)@.rooms.push(room@), ..old(self)@ }),
    {
        self.rooms.push(room);
        assert(room_views(self.rooms@) =~= room_views(old(self).rooms@).push(room@));
    }

    /// Deletes the first room called `id`, if there is one.
    pub fn delete_room(&mut self, id: &str)
        ensures
            final(self)@ == without_room(old(self)@, id@),
    {
        match self.find_room(id) {
            Some(at) => {
                proof {
                    lemma_first_is_place(self@.rooms, id@, at as int);
                }
                self.rooms.remove(at);
                assert(room_views(self.rooms@) =~= room_views(old(self).rooms@).remove(at as int));
            },
            None => {},
        }
    }
}

/// Opens the store from what was kept of it, if anything was. A store
/// without settings gets those of a new installation, whose user is called
/// `username`.
pub fn db_init(kept: Option<DbRepo>, username: String) -> (db: DbRepo)
    ensures
        db@ == opened(
            match kept {
                Some(repo) => Some(repo@),
                None => None,
            },
            username@,
        ),
{
    let mut db: DbRepo = match kept {
        Some(repo) => repo,
        None => DbRepo { rooms: Vec::new(), local_data: Vec::new() },
    };
    assert(kept is None ==> db@.rooms =~= Seq::<RoomRecord>::empty() && db@.local_data
        =~= Seq::<Settings>::empty());
    if db.local_data.len() == 0 {
        let entry: LocalData = LocalData {
            addr: String::from_str(DEFAULT_ADDR),
            username,
            color: Color::White,
            remember_passwords: false,
            light_mode: false,
        };
        db.local_data.push(entry);
        assert(settings_views(db.local_data@) =~= seq![default_settings(username@)]);
    }
    db
}

} // verus!
