use platform2c::events::{EventFilters, EventService, StreamType};
use platform2c::messaging::MessagingService;
use platform2c::numbering::{format_number, sequence_key, NumberingService, UpdateNumberFormatInput};
use platform2c::person::{CreatePersonInput, Person, PersonService, UpdatePersonInput};
use platform2c::platform::PlatformError;
use platform2c::session::{
    disconnected_diagnostics, prepare_saved_connection, remove_connection, resolve_connection, upsert_connection,
    ConnectInput, SavedConnection,
};

#[test]
fn stream_types_round_trip() {
    for t in [StreamType::Object, StreamType::User, StreamType::Module, StreamType::Device] {
        assert_eq!(StreamType::parse(t.as_str()).unwrap(), t);
    }
    assert!(matches!(StreamType::parse("file"), Err(PlatformError::Validation(m)) if m == "Неизвестный stream_type: file"));
}

#[test]
fn stream_versions_count_up() {
    assert_eq!(EventService::next_version(None), 1);
    assert_eq!(EventService::next_version(Some(41)), 42);
    let mut f = EventFilters {
        stream_type: None, stream_id: None, event_type: None, company_id: None, correlation_id: None,
        date_from: None, date_to: None, limit: None, after: None,
    };
    assert_eq!(EventService::page_limit(&f), 50);
    f.limit = Some(1000);
    assert_eq!(EventService::page_limit(&f), 200);
}

#[test]
fn document_numbers() {
    assert_eq!(sequence_key("c1", "t1"), "c1:t1");
    assert_eq!(format_number("INV-", 42, 6, "/24"), "INV-000042/24");
    assert_eq!(format_number("", 1234567, 3, ""), "1234567");
    let (s1, n1) = NumberingService::next_number(None, "c1", "t1", "Счёт", 5);
    assert_eq!(n1, "000001");
    assert_eq!(s1.current_value, 1);
    let (s2, n2) = NumberingService::next_number(Some(s1), "c1", "t1", "Счёт", 6);
    assert_eq!(n2, "000002");
    let s3 = NumberingService::update_format(Some(s2), "c1", "t1", "Счёт",
        UpdateNumberFormatInput { prefix: Some("A".into()), padding: Some(2), suffix: None }, 7);
    let (_, n3) = NumberingService::next_number(Some(s3), "c1", "t1", "Счёт", 8);
    assert_eq!(n3, "A03");
    let reset = NumberingService::reset_sequence(None, "c1", "t1", None, 9);
    assert_eq!(reset.current_value, 0);
    assert_eq!(reset.id, "c1:t1");
}

fn conn(id: &str, name: &str) -> SavedConnection {
    SavedConnection { id: id.into(), name: name.into(), uri: "mongodb://h".into(), db_name: "db".into() }
}

#[test]
fn connections() {
    let r = resolve_connection(ConnectInput { uri: Some(String::new()), db_name: None }, Some("mongodb://env".into()), None).unwrap();
    assert_eq!(r, ("mongodb://env".to_string(), "2c_platform".to_string()));
    assert!(resolve_connection(ConnectInput { uri: None, db_name: None }, None, None).is_err());
    let p = prepare_saved_connection(SavedConnection { id: String::new(), name: "Prod".into(), uri: "u".into(), db_name: " ".into() }, "n1".into()).unwrap();
    assert_eq!((p.id.as_str(), p.db_name.as_str()), ("n1", "2c_platform"));
    assert_eq!(prepare_saved_connection(conn("x", " "), "n".into()).err().unwrap(), "Укажите имя подключения");
    let list = upsert_connection(vec![conn("a", "A"), conn("b", "B")], conn("a", "A2"));
    assert_eq!(list.len(), 2);
    assert_eq!(list[0].name, "A2");
    let list = upsert_connection(list, conn("c", "C"));
    assert_eq!(list.len(), 3);
    let list = remove_connection(list, "b");
    assert!(list.iter().all(|c| c.id != "b"));
    assert_eq!(list.len(), 2);
    let d = disconnected_diagnostics();
    assert!(!d.connected && !d.ok);
    assert_eq!(d.host, "не подключено");
}

#[test]
fn persons_and_messages() {
    let p = Person::new(CreatePersonInput { last_name: "Иванов".into(), first_name: "Иван".into(), middle_name: Some("Иванович".into()), display_name: None }, "p1".into(), 1);
    assert_eq!(p.display_name, "Иванов Иван Иванович");
    let p = PersonService::apply_update(p, UpdatePersonInput { last_name: None, first_name: Some("Пётр".into()), middle_name: None, display_name: None }, 2);
    assert_eq!(p.first_name, "Пётр");
    assert_eq!(p.display_name, "Иванов Иван Иванович");
    assert_eq!(p.updated_at, 2);
    assert!(matches!(MessagingService::new_message("m".into(), "c".into(), "r", "u", "  ", None, 0),
        Err(PlatformError::Validation(m)) if m == "Пустое сообщение"));
    let m = MessagingService::new_message("m".into(), "c".into(), "r", "u", "привет", Some("m0"), 3).unwrap();
    assert_eq!(m.reply_to.as_deref(), Some("m0"));
    assert_eq!(MessagingService::message_limit(0), 1);
    assert_eq!(MessagingService::message_limit(1000), 500);
    assert_eq!(MessagingService::document_room_title("Счёт 5"), "Обсуждение: Счёт 5");
    let room = MessagingService::direct_room("r".into(), "c".into(), "u1", "u2", 4);
    assert_eq!(room.members, vec!["u1".to_string(), "u2".to_string()]);
}

#[test]
fn saved_connection_is_found_by_id() {
    let list = upsert_connection(vec![conn("a", "A"), conn("b", "B")], conn("b", "B2"));
    let found: Vec<&SavedConnection> = list.iter().filter(|c| c.id == "b").collect();
    assert_eq!(found.len(), 1);
    assert_eq!(found[0].name, "B2");
    let list = upsert_connection(list, conn("z", "Z"));
    assert_eq!(list.iter().position(|c| c.id == "z"), Some(2));
}
