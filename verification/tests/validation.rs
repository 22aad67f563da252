use platform2c::json::{JsonNumber, JsonValue};
use platform2c::platform::{FieldKind, PlatformError};
use platform2c::validation::{float_parses, validate_data, validate_field_value, EntityField, FieldValidationError};

fn field(code: &str, name: &str, kind: FieldKind) -> EntityField {
    EntityField {
        id: "f".into(),
        entity_type_id: "t".into(),
        code: code.into(),
        name: name.into(),
        field_kind: kind,
        is_required: false,
        is_readonly: false,
        default_value: None,
        enum_values: None,
        reference_entity: None,
        order: 0,
        group_name: None,
        created_at: 0,
        updated_at: 0,
    }
}

fn obj(members: Vec<(&str, JsonValue)>) -> JsonValue {
    JsonValue::Object(members.into_iter().map(|(k, v)| (k.to_string(), v)).collect())
}

fn s(t: &str) -> JsonValue {
    JsonValue::String(t.to_string())
}

fn message(r: Result<(), PlatformError>) -> String {
    match r {
        Err(PlatformError::Validation(m)) => m,
        _ => panic!("expected a validation error"),
    }
}

#[test]
fn data_must_be_an_object() {
    assert_eq!(message(validate_data(&JsonValue::Null, &[], false)), "Data должен быть объектом");
}

#[test]
fn required_and_readonly_fields() {
    let mut a = field("a", "Имя", FieldKind::String);
    a.is_required = true;
    let mut b = field("b", "Код", FieldKind::String);
    b.is_readonly = true;
    let fields = vec![a, b];
    let data = obj(vec![("b", s("x"))]);
    assert_eq!(message(validate_data(&data, &fields, false)), "Поле 'Имя': обязательное поле");
    assert_eq!(
        message(validate_data(&data, &fields, true)),
        "Поле 'Имя': обязательное поле; Поле 'Код': поле только для чтения"
    );
    let data = obj(vec![("a", s("x"))]);
    assert!(validate_data(&data, &fields, true).is_ok());
    let data = obj(vec![("a", JsonValue::Null)]);
    assert_eq!(message(validate_data(&data, &fields, false)), "Поле 'Имя': обязательное поле");
}

#[test]
fn values_are_checked_by_kind() {
    let f = field("n", "N", FieldKind::Integer);
    assert!(validate_field_value(&s("42"), &f).is_ok());
    assert_eq!(validate_field_value(&s("4x"), &f).err().unwrap(), "ожидается целое число");
    assert!(validate_field_value(&JsonValue::Number(JsonNumber::NegInt(-3)), &f).is_ok());
    let f = field("m", "M", FieldKind::Money);
    assert!(validate_field_value(&s("12.50"), &f).is_ok());
    assert_eq!(validate_field_value(&s("12,50"), &f).err().unwrap(), "невалидное денежное значение");
    assert_eq!(validate_field_value(&JsonValue::Bool(true), &f).err().unwrap(), "ожидается денежная сумма (число или строка)");
    let f = field("d", "D", FieldKind::Date);
    assert!(validate_field_value(&s("2024-02-29"), &f).is_ok());
    assert_eq!(validate_field_value(&s("2023-02-29"), &f).err().unwrap(), "невалидная дата");
    assert_eq!(validate_field_value(&s("2024/02/29"), &f).err().unwrap(), "ожидается формат даты YYYY-MM-DD");
    let f = field("t", "T", FieldKind::DateTime);
    assert!(validate_field_value(&s("2024-01-01T10:00:00Z"), &f).is_ok());
    assert_eq!(validate_field_value(&s("yesterday"), &f).err().unwrap(), "ожидается формат ISO 8601 (DateTime)");
    let f = field("r", "R", FieldKind::Reference);
    assert!(validate_field_value(&s("67e55044-10b1-426f-9247-bb680e5fe0c8"), &f).is_ok());
    assert_eq!(validate_field_value(&s("x"), &f).err().unwrap(), "ожидается UUID ссылки");
    assert_eq!(validate_field_value(&JsonValue::Bool(false), &f).err().unwrap(), "ожидается UUID или null");
}

#[test]
fn enums_and_tables() {
    let mut f = field("e", "E", FieldKind::Enum);
    f.enum_values = Some(vec!["red".into(), "green".into()]);
    assert!(validate_field_value(&s("red"), &f).is_ok());
    assert_eq!(validate_field_value(&s("blue"), &f).err().unwrap(), "допустимые значения: red, green");
    let f = field("t", "T", FieldKind::Table);
    let rows = JsonValue::Array(vec![obj(vec![]), s("x")]);
    assert_eq!(validate_field_value(&rows, &f).err().unwrap(), "таблица: строка 2 — ожидается объект");
    assert_eq!(validate_field_value(&s("x"), &f).err().unwrap(), "ожидается массив объектов (таблица)");
}

#[test]
fn float_syntax_follows_rust() {
    assert!(float_parses("1e5"));
    assert!(float_parses("-.5"));
    assert!(float_parses("inf"));
    assert!(float_parses("NaN"));
    assert!(!float_parses("1e"));
    assert!(!float_parses("."));
    assert!(!float_parses(""));
    assert_eq!(float_parses("1.5E-3"), "1.5E-3".parse::<f64>().is_ok());
}

#[test]
fn field_error_line_format() {
    let e = FieldValidationError { field_code: "a".into(), field_name: "Имя".into(), message: "плохо".into() };
    assert_eq!(e.to_line(), "Поле 'Имя': плохо");
}

#[test]
fn date_shape_counts_bytes() {
    let f = field("d", "D", FieldKind::Date);
    // ten characters, eleven bytes: the shape is wrong
    assert_eq!(validate_field_value(&JsonValue::String("2024-01-1é".to_string()), &f).err().unwrap(), "ожидается формат даты YYYY-MM-DD");
    // nine characters, ten bytes: the shape passes, the date does not
    assert_eq!(validate_field_value(&JsonValue::String("2024-01-é".to_string()), &f).err().unwrap(), "невалидная дата");
}
