use kioto::command::{
    create_room, delete_room, list_rooms_and_local_data, run, run_option, set_local_data,
    wants_password, CommandRequest, IdOrAddr, StoreAction,
};
use kioto::error::AppError;
use kioto::store::{db_init, DbRepo, LocalData, Room, DEFAULT_ADDR};
use kioto::style::Color;

fn find(db: &DbRepo, id: &str) -> Option<Room> {
    db.find_room(id).map(|at| db.rooms[at].clone())
}

fn fresh() -> DbRepo {
    db_init(None, "someone".to_string())
}

#[test]
fn new_room_creation() {
    let mut db = fresh();

    let room_with_custom_values = Room {
        id: "someroom".into(),
        addr: "192.168.0.2:12345".into(),
        passwd: None,
        banned_addrs: vec![],
        is_owner: true,
    };

    run_option(
        CommandRequest::Create {
            room_id: room_with_custom_values.id.clone(),
            ip: Some(room_with_custom_values.addr.clone()),
            password: false,
        },
        &mut db,
        "",
    )
    .unwrap();

    assert_eq!(find(&db, "someroom").unwrap(), room_with_custom_values);

    let room_with_default_values = Room {
        id: "anotheroom".into(),
        addr: "127.0.0.1:12345".into(),
        passwd: None,
        banned_addrs: vec![],
        is_owner: true,
    };

    run_option(
        CommandRequest::Create {
            room_id: room_with_default_values.id.clone(),
            ip: None,
            password: false,
        },
        &mut db,
        "",
    )
    .unwrap();

    assert_eq!(find(&db, "anotheroom").unwrap(), room_with_default_values);
}

#[test]
fn room_deletion() {
    let mut db = fresh();

    let room = Room {
        id: "someroom".into(),
        addr: "192.168.0.2:12345".into(),
        passwd: None,
        banned_addrs: vec![],
        is_owner: true,
    };

    run_option(
        CommandRequest::Create {
            room_id: room.id.clone(),
            ip: Some(room.addr.clone()),
            password: false,
        },
        &mut db,
        "",
    )
    .unwrap();

    assert_eq!(find(&db, "someroom").unwrap(), room);

    run_option(
        CommandRequest::Delete {
            room_id: "someroom".into(),
        },
        &mut db,
        "",
    )
    .unwrap();

    assert_eq!(find(&db, "someroom"), None);
}

#[test]
fn local_data_update() {
    let mut db = fresh();

    let _local_data = LocalData {
        addr: "127.0.0.1:12345".into(),
        username: "*".into(),
        color: Color::White,
        remember_passwords: false,
        light_mode: false,
    };

    assert!(run_option(CommandRequest::Invalid, &mut db, "").is_err());

    let local_data_from_db = db.local_data.first().cloned().unwrap();

    assert_eq!(local_data_from_db.addr, local_data_from_db.addr);
    assert_eq!(local_data_from_db.color, local_data_from_db.color);
    assert_eq!(
        local_data_from_db.remember_passwords,
        local_data_from_db.remember_passwords
    );
    assert_eq!(local_data_from_db.light_mode, local_data_from_db.light_mode);
}

#[test]
fn room_joining() {}

#[test]
fn opened_store_has_the_settings_of_a_new_installation() {
    let db = db_init(None, "u-1".to_string());
    assert!(db.rooms.is_empty());
    assert_eq!(
        db.local_data,
        vec![LocalData {
            addr: "127.0.0.1:12345".into(),
            username: "u-1".into(),
            color: Color::White,
            remember_passwords: false,
            light_mode: false,
        }]
    );
    assert_eq!(DEFAULT_ADDR, "127.0.0.1:12345");
}

#[test]
fn kept_store_keeps_its_settings() {
    let kept = DbRepo {
        rooms: vec![],
        local_data: vec![LocalData {
            addr: "10.0.0.1:1".into(),
            username: "old".into(),
            color: Color::Red,
            remember_passwords: true,
            light_mode: true,
        }],
    };
    let db = db_init(Some(kept.clone()), "new".to_string());
    assert_eq!(db, kept);
    let seeded = db_init(Some(DbRepo { rooms: vec![], local_data: vec![] }), "new".to_string());
    assert_eq!(seeded.local_data[0].username, "new");
}

#[test]
fn invalid_command_is_refused() {
    let mut db = fresh();
    let before = db.clone();
    assert_eq!(run_option(CommandRequest::Invalid, &mut db, ""), Err(AppError::InvalidCommand));
    assert_eq!(db, before);
}

#[test]
fn existing_id_is_refused() {
    let mut db = fresh();
    let create = || CommandRequest::Create { room_id: "r".into(), ip: None, password: false };
    assert!(run_option(create(), &mut db, "").is_ok());
    assert_eq!(run_option(create(), &mut db, ""), Err(AppError::AlreadyExistingId));
    assert_eq!(db.rooms.len(), 1);
}

#[test]
fn room_without_address_needs_settings() {
    let db = DbRepo { rooms: vec![], local_data: vec![] };
    assert_eq!(create_room(&db, "r", None, false, ""), Err(AppError::DataNotFound));
    assert!(create_room(&db, "r", Some("1.2.3.4:5".into()), false, "").is_ok());
}

#[test]
fn created_room_takes_the_typed_password() {
    let db = fresh();
    let action = create_room(&db, "r", None, true, "secret").unwrap();
    assert_eq!(
        action,
        StoreAction::InsertRoom(Room {
            id: "r".into(),
            addr: "127.0.0.1:12345".into(),
            passwd: Some("secret".into()),
            banned_addrs: vec![],
            is_owner: true,
        })
    );
}

#[test]
fn unknown_room_cannot_be_deleted() {
    let mut db = fresh();
    assert_eq!(
        run_option(CommandRequest::Delete { room_id: "r".into() }, &mut db, ""),
        Err(AppError::NotExistingId)
    );
}

#[test]
fn guarded_room_needs_its_password() {
    let mut db = fresh();
    run_option(
        CommandRequest::Create { room_id: "r".into(), ip: None, password: true },
        &mut db,
        "secret",
    )
    .unwrap();
    assert_eq!(delete_room(&db, "r", "wrong"), Err(AppError::InvalidPassword));
    assert_eq!(
        run_option(CommandRequest::Delete { room_id: "r".into() }, &mut db, "wrong"),
        Err(AppError::InvalidPassword)
    );
    assert_eq!(db.rooms.len(), 1);
    assert_eq!(
        run_option(CommandRequest::Delete { room_id: "r".into() }, &mut db, "secret"),
        Ok(StoreAction::DeleteRoom("r".into()))
    );
    assert!(db.rooms.is_empty());
}

#[test]
fn room_of_another_owner_needs_no_password() {
    let mut db = fresh();
    db.insert_room(Room {
        id: "r".into(),
        addr: "a".into(),
        passwd: Some("secret".into()),
        banned_addrs: vec!["b".into()],
        is_owner: false,
    });
    assert_eq!(delete_room(&db, "r", ""), Ok(StoreAction::DeleteRoom("r".into())));
}

#[test]
fn only_the_first_room_of_an_id_is_deleted() {
    let mut db = fresh();
    for addr in ["a", "b"] {
        db.insert_room(Room {
            id: "r".into(),
            addr: addr.into(),
            passwd: None,
            banned_addrs: vec![],
            is_owner: true,
        });
    }
    db.delete_room("r");
    assert_eq!(db.rooms.len(), 1);
    assert_eq!(db.rooms[0].addr, "b");
    db.delete_room("none");
    assert_eq!(db.rooms.len(), 1);
}

#[test]
fn listing_shows_the_first_room() {
    let mut db = fresh();
    assert_eq!(list_rooms_and_local_data(&db), Err(AppError::DataNotFound));
    run_option(
        CommandRequest::Create { room_id: "r".into(), ip: Some("1.2.3.4:5".into()), password: false },
        &mut db,
        "",
    )
    .unwrap();
    run_option(
        CommandRequest::Create { room_id: "s".into(), ip: None, password: false },
        &mut db,
        "",
    )
    .unwrap();
    let before = db.clone();
    let shown = run_option(CommandRequest::List, &mut db, "").unwrap();
    assert_eq!(
        shown,
        StoreAction::Show { record: before.rooms[0].clone(), line: "r: 1.2.3.4:5".to_string() }
    );
    assert_eq!(db, before);
}

#[test]
fn setting_an_option_is_left_to_the_store() {
    let mut db = fresh();
    let before = db.clone();
    let action = run_option(
        CommandRequest::SetOption { option: "light_mode".into(), value: "true".into() },
        &mut db,
        "",
    );
    assert_eq!(
        action,
        Ok(StoreAction::UpdateLocalData { option: "light_mode".into(), value: "true".into() })
    );
    assert_eq!(set_local_data("a", "b"), StoreAction::UpdateLocalData {
        option: "a".into(),
        value: "b".into()
    });
    assert_eq!(db, before);
}

#[test]
fn password_is_asked_for_only_where_it_is_used() {
    let mut db = fresh();
    let create = |password| CommandRequest::Create { room_id: "r".into(), ip: None, password };
    assert!(wants_password(&create(true), &db));
    assert!(!wants_password(&create(false), &db));
    assert!(!wants_password(&CommandRequest::List, &db));
    assert!(!wants_password(&CommandRequest::Delete { room_id: "r".into() }, &db));
    run_option(create(true), &mut db, "pw").unwrap();
    assert!(!wants_password(&create(true), &db));
    assert!(wants_password(&CommandRequest::Delete { room_id: "r".into() }, &db));
    let bare = DbRepo { rooms: vec![], local_data: vec![] };
    assert!(!wants_password(&create(true), &bare));
}

#[test]
fn run_opens_the_store_first() {
    let kept = DbRepo {
        rooms: vec![Room {
            id: "old".into(),
            addr: "a".into(),
            passwd: None,
            banned_addrs: vec![],
            is_owner: true,
        }],
        local_data: vec![],
    };
    let create = || CommandRequest::Create { room_id: "old".into(), ip: None, password: false };
    let (db, result) = run(create(), false, kept.clone(), "me".into(), "");
    assert_eq!(result, Err(AppError::AlreadyExistingId));
    assert_eq!(db.local_data[0].username, "me");
    let (db, result) = run(create(), true, kept, "me".into(), "");
    assert!(result.is_ok());
    assert_eq!(db.rooms.len(), 1);
    assert_eq!(db.rooms[0].addr, "127.0.0.1:12345");
}

#[test]
fn address_is_told_from_id() {
    assert_eq!(IdOrAddr::from_text("192.168.0.2".into()), IdOrAddr::Addr("192.168.0.2".into()));
    assert_eq!(IdOrAddr::from_text("someroom".into()), IdOrAddr::Id("someroom".into()));
    assert_eq!(
        IdOrAddr::from_text("192.168.0.2:12345".into()),
        IdOrAddr::Id("192.168.0.2:12345".into())
    );
}

#[test]
fn errors_have_their_messages() {
    assert_eq!(AppError::PdbError("store broke".into()).message(), "store broke");
    assert_eq!(AppError::IoError("disk broke".into()).message(), "disk broke");
    assert_eq!(AppError::AlreadyExistingId.message(), "This id already exists.");
    assert_eq!(AppError::DataNotFound.message(), "Data not found in database.");
    assert_eq!(AppError::InvalidPassword.message(), "Invalid password.");
    assert_eq!(AppError::NotExistingId.message(), "No such room");
    assert_eq!(AppError::NoAnyRoom.message(), "There is no any room yet");
    assert_eq!(AppError::InvalidCommand.message(), "Invalid command.");
}

#[test]
fn colours_go_by_their_names() {
    assert_eq!(Color::from_name("white"), Some(Color::White));
    assert_eq!(Color::from_name("black"), Some(Color::Black));
    assert_eq!(Color::from_name("red"), Some(Color::Red));
    assert_eq!(Color::from_name("green"), Some(Color::Green));
    assert_eq!(Color::from_name("yellow"), Some(Color::Yellow));
    assert_eq!(Color::from_name("blue"), Some(Color::Blue));
    assert_eq!(Color::from_name("magenta"), Some(Color::Magenta));
    assert_eq!(Color::from_name("cyan"), Some(Color::Cyan));
    assert_eq!(Color::from_name("gray"), Some(Color::Gray));
    assert_eq!(Color::from_name("White"), None);
    assert_eq!(Color::from_name(""), None);
}
