//! The commands of the program, and what each of them does to the store.
//!
//! Nothing here reads a password or touches a file. A command is decided on
//! the store as it stands in memory; what it changes there is also handed
//! back, as the step that brings a store kept elsewhere up to date.

use crate::address::{is_ipv4, is_ipv4_address};
use crate::error::AppError;
use crate::store::{
    db_init, has_room, lemma_first_is_place, opened, place_of, without_room, DbRepo, Room,
    RoomRecord, Store,
};
use crate::style::Color;
use crate::text::str_equal;
use vstd::prelude::*;
use vstd::string::*;

verus! {

/// What names a room to join: its id, or the address it is served at.
#[derive(Debug, Clone, PartialEq, Eq)]
pub enum IdOrAddr {
    Id(String),
    Addr(String),
}

impl IdOrAddr {
    /// Reads `text` as what names a room: as an address where it is an IPv4
    /// address, as an id where it is anything else.
    pub fn from_text(text: String) -> (named: IdOrAddr)
        ensures
            named == (if is_ipv4(text@) { IdOrAddr::Addr(text) } else { IdOrAddr::Id(text) }),
    {
        if is_ipv4_address(text.as_str()) {
            IdOrAddr::Addr(text)
        } else {
            IdOrAddr::Id(text)
        }
    }
}

/// A command as the user gave it.
#[derive(Debug, Clone, PartialEq, Eq)]
pub enum CommandRequest {
    Create { room_id: String, ip: Option<String>, password: bool },
    Join { id_or_address: IdOrAddr, username: Option<String>, color: Option<Color> },
    Delete { room_id: String },
    List,
    SetOption { option: String, value: String },
    Invalid,
}

/// What a command does to the store, or has shown of it.
#[derive(Debug, Clone, PartialEq, Eq)]
pub enum StoreAction {
    /// The room is added.
    InsertRoom(Room),
    /// The first room of this id is deleted.
    DeleteRoom(String),
    /// The record is shown, and the line below it.
    Show { record: Room, line: String },
    /// The store is asked to set the option to the value.
    UpdateLocalData { option: String, value: String },
}

/// The mathematical value of a [`StoreAction`].
pub enum Step {
    InsertRoom(RoomRecord),
    DeleteRoom(Seq<char>),
    Show { record: RoomRecord, line: Seq<char> },
    UpdateLocalData { option: Seq<char>, value: Seq<char> },
}

impl View for StoreAction {
    type V = Step;

    open spec fn view(&self) -> Step {
        match self {
            StoreAction::InsertRoom(room) => Step::InsertRoom(room@),
            StoreAction::DeleteRoom(id) => Step::DeleteRoom(id@),
            StoreAction::Show { record, line } => Step::Show { record: record@, line: line@ },
            StoreAction::UpdateLocalData { option, value } => Step::UpdateLocalData {
                option: option@,
                value: value@,
            },
        }
    }
}

/// What creating a room called `id` comes to.
///
/// It fails where a room of that id exists, and where no address is given
/// and the store has no settings to take one from. Else the room is added
/// with this installation as its owner and nobody banned, at the address
/// given or at that of the settings, and with the typed password if one was
/// asked for.
pub open spec fn creation(
    store: Store,
    id: Seq<char>,
    ip: Option<Seq<char>>,
    password: bool,
    typed: Seq<char>,
) -> Result<Step, AppError> {
    if has_room(store.rooms, id) {
        Err(AppError::AlreadyExistingId)
    } else if ip is None && store.local_data.len() == 0 {
        Err(AppError::DataNotFound)
    } else {
        Ok(
            Step::InsertRoom(
                RoomRecord {
                    id,
                    addr: match ip {
                        Some(addr) => addr,
                        None => store.local_data[0].addr,
                    },
                    passwd: if password { Some(typed) } else { None },
                    banned_addrs: Seq::empty(),
                    is_owner: true,
                },
            ),
        )
    }
}

/// Whether deleting `room` takes the password: it does where this
/// installation owns the room and the room has one.
pub open spec fn is_guarded(room: RoomRecord) -> bool {
    room.is_owner && room.passwd is Some
}

/// What deleting the room called `id` comes to.
///
/// It fails where no room of that id exists, and where the room is guarded
/// and the typed password is not the room's.
pub open spec fn deletion(store: Store, id: Seq<char>, typed: Seq<char>) -> Result<Step, AppError> {
    if !has_room(store.rooms, id) {
        Err(AppError::NotExistingId)
    } else {
        let room = store.rooms[place_of(store.rooms, id)];
        if is_guarded(room) && room.passwd != Some(typed) {
            Err(AppError::InvalidPassword)
        } else {
            Ok(Step::DeleteRoom(id))
        }
    }
}

/// What listing comes to: the first room is shown as a record, and its id
/// and address on a line of their own. It fails where there is no room.
pub open spec fn listing(store: Store) -> Result<Step, AppError> {
    if store.rooms.len() == 0 {
        Err(AppError::DataNotFound)
    } else {
        Ok(
            Step::Show {
                record: store.rooms[0],
                line: store.rooms[0].id + ": "@ + store.rooms[0].addr,
            },
        )
    }
}

/// The values of a command's parts that are texts, where it has them.
pub open spec fn text_of(text: Option<String>) -> Option<Seq<char>> {
    match text {
        Some(text) => Some(text@),
        None => None,
    }
}

/// What `command` comes to on `store` when `typed` is the password that the
/// user typed. Joining is not among the commands that can be carried out.
pub open spec fn outcome(command: CommandRequest, store: Store, typed: Seq<char>) -> Result<
    Step,
    AppError,
> {
    match command {
        CommandRequest::Create { room_id, ip, password } => creation(
            store,
            room_id@,
            text_of(ip),
            password,
            typed,
        ),
        CommandRequest::Delete { room_id } => deletion(store, room_id@, typed),
        CommandRequest::List => listing(store),
        CommandRequest::SetOption { option, value } => Ok(
            Step::UpdateLocalData { option: option@, value: value@ },
        ),
        _ => Err(AppError::InvalidCommand),
    }
}

/// Whether `command` needs a password typed before it can be decided.
pub open spec fn asks_password(command: CommandRequest, store: Store) -> bool {
    match command {
        CommandRequest::Create { room_id, ip, password } => password && creation(
            store,
            room_id@,
            text_of(ip),
            password,
            Seq::empty(),
        ) is Ok,
        CommandRequest::Delete { room_id } => has_room(store.rooms, room_id@) && is_guarded(
            store.rooms[place_of(store.rooms, room_id@)],
        ),
        _ => false,
    }
}

/// The store after `step` was taken.
pub open spec fn after_step(store: Store, step: Step) -> Store {
    match step {
        Step::InsertRoom(room) => Store { rooms: store.rooms.push(room), ..store },
        Step::DeleteRoom(id) => without_room(store, id),
        _ => store,
    }
}

/// The store after a command came to `result`: a command that failed
/// changes nothing.
pub open spec fn after_outcome(store: Store, result: Result<Step, AppError>) -> Store {
    match result {
        Ok(step) => after_step(store, step),
        Err(_) => store,
    }
}

/// Whether `result` is what `wanted` says, value for value.
pub open spec fn is_outcome(result: Result<StoreAction, AppError>, wanted: Result<Step, AppError>) -> bool {
    match result {
        Ok(action) => wanted == Ok::<Step, AppError>(action@),
        Err(error) => wanted == Err::<Step, AppError>(error),
    }
}

/// Decides the creation of a room. See [`creation`].
pub fn create_room(
    db: &DbRepo,
    room_id: &str,
    room_ip: Option<String>,
    password: bool,
    typed: &str,
) -> (result: Result<StoreAction, AppError>)
    ensures
        is_outcome(result, creation(db@, room_id@, text_of(room_ip), password, typed@)),
{
    if db.find_room(room_id).is_some() {
        return Err(AppError::AlreadyExistingId);
    }
    let addr: String = match room_ip {
        Some(ip) => ip,
        None => {
            if db.local_data.len() == 0 {
                return Err(AppError::DataNotFound);
            }
            db.local_data[0].addr.clone()
        },
    };
    let passwd: Option<String> = if password { Some(String::from_str(typed)) } else { None };
    let room: Room = Room {
        id: String::from_str(room_id),
        addr,
        passwd,
        banned_addrs: Vec::new(),
        is_owner: true,
    };
    assert(room@.banned_addrs =~= Seq::<Seq<char>>::empty());
    Ok(StoreAction::InsertRoom(room))
}

/// Decides the deletion of a room. See [`deletion`].
pub fn delete_room(db: &DbRepo, room_id: &str, typed: &str) -> (result: Result<
    StoreAction,
    AppError,
>)
    ensures
        is_outcome(result, deletion(db@, room_id@, typed@)),
{
    match db.find_room(room_id) {
        Some(at) => {
            proof {
                lemma_first_is_place(db@.rooms, room_id@, at as int);
            }
            let room: &Room = &db.rooms[at];
            if room.is_owner {
                if let Some(passwd) = &room.passwd {
                    if !str_equal(passwd.as_str(), typed) {
                        return Err(AppError::InvalidPassword);
                    }
                }
            }
            Ok(StoreAction::DeleteRoom(String::from_str(room_id)))
        },
        None => Err(AppError::NotExistingId),
    }
}

/// Decides what a listing shows. See [`listing`].
pub fn list_rooms_and_local_data(db: &DbRepo) -> (result: Result<StoreAction, AppError>)
    ensures
        is_outcome(result, listing(db@)),
{
    if db.rooms.len() == 0 {
        return Err(AppError::DataNotFound);
    }
    let record: Room = db.rooms[0].duplicate();
    let mut line: String = record.id.clone();
    line.append(": ");
    line.append(record.addr.as_str());
    Ok(StoreAction::Show { record, line })
}

/// Turns a request to set an option into the step that asks the store for it.
pub fn set_local_data(option: &str, value: &str) -> (action: StoreAction)
    ensures
        action@ == (Step::UpdateLocalData { option: option@, value: value@ }),
{
    StoreAction::UpdateLocalData {
        option: String::from_str(option),
        value: String::from_str(value),
    }
}

/// Tells whether `command` needs a password typed before it is run.
pub fn wants_password(command: &CommandRequest, db: &DbRepo) -> (wanted: bool)
    ensures
        wanted == asks_password(*command, db@),
{
    match command {
        CommandRequest::Create { room_id, ip, password } => {
            if !*password {
                return false;
            }
            if db.find_room(room_id.as_str()).is_some() {
                return false;
            }
            ip.is_some() || db.local_data.len() > 0
        },
        CommandRequest::Delete { room_id } => {
            match db.find_room(room_id.as_str()) {
                Some(at) => {
                    proof {
                        lemma_first_is_place(db@.rooms, room_id@, at as int);
                    }
                    db.rooms[at].is_owner && db.rooms[at].passwd.is_some()
                },
                None => false,
            }
        },
        _ => false,
    }
}

/// Carries out `cmd_req` on the store in memory, with `typed` for the
/// password where one is needed, and hands back the step that was taken.
pub fn run_option(cmd_req: CommandRequest, db: &mut DbRepo, typed: &str) -> (result: Result<
    StoreAction,
    AppError,
>)
    requires
        !(cmd_req is Join),
    ensures
        is_outcome(result, outcome(cmd_req, old(db)@, typed@)),
        final(db)@ == after_outcome(old(db)@, outcome(cmd_req, old(db)@, typed@)),
{
    let result: Result<StoreAction, AppError> = match cmd_req {
        CommandRequest::Create { room_id, ip, password } => create_room(
            db,
            room_id.as_str(),
            ip,
            password,
            typed,
        ),
        CommandRequest::Delete { room_id } => delete_room(db, room_id.as_str(), typed),
        CommandRequest::List => list_rooms_and_local_data(db),
        CommandRequest::SetOption { option, value } => Ok(
            set_local_data(option.as_str(), value.as_str()),
        ),
        _ => Err(AppError::InvalidCommand),
    };
    match &result {
        Ok(StoreAction::InsertRoom(room)) => {
            db.insert_room(room.duplicate());
        },
        Ok(StoreAction::DeleteRoom(id)) => {
            db.delete_room(id.as_str());
        },
        _ => {},
    }
    result
}

/// Opens the store and carries out `cmd_req` on it.
///
/// With `open_memory`, the store starts empty; else it starts from `kept`.
/// The opened store is handed back as the command left it, together with
/// the step that was taken.
pub fn run(
    cmd_req: CommandRequest,
    open_memory: bool,
    kept: DbRepo,
    username: String,
    typed: &str,
) -> (done: (DbRepo, Result<StoreAction, AppError>))
    requires
        !(cmd_req is Join),
    ensures
        ({
            let start = opened(if open_memory { None } else { Some(kept@) }, username@);
            &&& is_outcome(done.1, outcome(cmd_req, start, typed@))
            &&& done.0@ == after_outcome(start, outcome(cmd_req, start, typed@))
        }),
{
    let mut db: DbRepo = db_init(if open_memory { None } else { Some(kept) }, username);
    let result: Result<StoreAction, AppError> = run_option(cmd_req, &mut db, typed);
    (db, result)
}

} // verus!
