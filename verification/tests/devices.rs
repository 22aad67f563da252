use platform2c::devices::{
    scale_test_reading, scale_weight_text, scanner_friendly_error, system_actor, ConnectionKind, DeviceConfig, DeviceConfigInput, DeviceEvent, DeviceKind,
    DeviceService, DriverPlan, LineBuffer, ScaleReadings, ScaleUnit, SerialScale, SerialScanner,
};
use platform2c::json::JsonValue;
use platform2c::platform::PlatformError;

fn cfg(kind: DeviceKind, connection: ConnectionKind, settings: JsonValue) -> DeviceConfig {
    DeviceConfig {
        id: "d1".into(),
        company_id: "c1".into(),
        kind,
        name: "Сканер".into(),
        connection,
        settings,
        is_active: true,
        created_at: 1,
        updated_at: 1,
    }
}

#[test]
fn kinds_read_both_spellings() {
    assert_eq!(DeviceKind::from_code("barcode_scanner"), Some(DeviceKind::BarcodeScanner));
    assert_eq!(DeviceKind::from_code("LabelPrinter"), Some(DeviceKind::LabelPrinter));
    assert_eq!(DeviceKind::from_code("printer"), None);
    assert_eq!(DeviceKind::FiscalPrinter.code(), "fiscal_printer");
}

#[test]
fn scanner_lines_become_codes() {
    let mut buf = LineBuffer::new();
    let events = SerialScanner::feed_chunk(&mut buf, "/dev/ttyUSB0", b"  4600\r\n12\nABCD");
    assert_eq!(events.len(), 1);
    match &events[0] {
        DeviceEvent::Scanned { device_id, code } => {
            assert_eq!(device_id, "/dev/ttyUSB0");
            assert_eq!(code, "4600");
        },
        _ => panic!(),
    }
    assert_eq!(buf.line, b"ABCD".to_vec());
    let events = SerialScanner::feed_chunk(&mut buf, "p", b"\n");
    assert_eq!(events.len(), 1);
    assert_eq!(events[0].event_type(), "device.scanned");
    assert_eq!(events[0].device_id(), "p");
}

#[test]
fn scale_readings_become_stable_on_repeat() {
    let mut r = ScaleReadings { last_grams: 0, same_count: 0 };
    let e = SerialScale::weigh(&mut r, "s", 1200).unwrap();
    assert!(matches!(e, DeviceEvent::Weighed { grams: 1200, stable: false, .. }));
    let e = SerialScale::weigh(&mut r, "s", 1200).unwrap();
    assert!(matches!(e, DeviceEvent::Weighed { grams: 1200, stable: true, .. }));
    assert!(SerialScale::weigh(&mut r, "s", 0).is_none());
    let e = SerialScale::weigh(&mut r, "s", 1300).unwrap();
    assert!(matches!(e, DeviceEvent::Weighed { stable: false, .. }));
}

#[test]
fn scale_settings() {
    let s = SerialScale::new("p".into(), 9600, None, Some("g")).unwrap();
    assert_eq!(s.unit, ScaleUnit::Grams);
    assert_eq!(s.pattern, "^.*?([0-9]+\\.?[0-9]*)\\s*(kg|г|g)");
    let s = SerialScale::new("p".into(), 9600, Some("x"), None).unwrap();
    assert_eq!(s.unit, ScaleUnit::Kilograms);
    let e = SerialScale::new("p".into(), 9600, Some("(("), None).err().unwrap();
    assert!(e.starts_with("Невалидный pattern '((': "));
}

#[test]
fn drivers_for_configurations() {
    let c = cfg(DeviceKind::BarcodeScanner, ConnectionKind::Serial { port: "p".into(), baud: 9600 }, JsonValue::Null);
    assert!(matches!(DeviceService::build_driver(&c), Ok(DriverPlan::Scanner(_))));
    let c = cfg(DeviceKind::Scale, ConnectionKind::KeyboardWedge, JsonValue::Null);
    assert_eq!(DeviceService::build_driver(&c).err().unwrap(), "KeyboardWedge не требует подключения (слушает фронтенд)");
    let c = cfg(DeviceKind::Scale, ConnectionKind::Tcp { host: "h".into(), port: 1 }, JsonValue::Null);
    assert_eq!(DeviceService::build_driver(&c).err().unwrap(), "TCP-подключения пока не поддерживаются");
    let c = cfg(DeviceKind::FiscalPrinter, ConnectionKind::Serial { port: "p".into(), baud: 1 }, JsonValue::Null);
    assert_eq!(DeviceService::build_driver(&c).err().unwrap(), "Такое сочетание типа устройства и подключения не поддерживается");
    assert!(matches!(DeviceService::test_plan(&c), Err(m) if m == "Тест для этого сочетания не поддерживается"));
    let c = cfg(DeviceKind::FiscalPrinter, ConnectionKind::KeyboardWedge, JsonValue::Null);
    assert!(matches!(DeviceService::test_plan(&c), Ok(None)));
}

#[test]
fn saving_configurations() {
    let input = DeviceConfigInput {
        kind: DeviceKind::Scale,
        name: "  ".into(),
        connection: ConnectionKind::KeyboardWedge,
        settings: JsonValue::Null,
        is_active: true,
    };
    match DeviceService::apply_save(None, "c1", input, "new".into(), 5) {
        Err(PlatformError::Validation(m)) => assert_eq!(m, "Укажите название устройства"),
        _ => panic!(),
    }
    let input = DeviceConfigInput {
        kind: DeviceKind::Scale,
        name: "Весы".into(),
        connection: ConnectionKind::KeyboardWedge,
        settings: JsonValue::Null,
        is_active: false,
    };
    let existing = cfg(DeviceKind::BarcodeScanner, ConnectionKind::KeyboardWedge, JsonValue::Null);
    match DeviceService::apply_save(Some(existing), "c2", input, "new".into(), 5) {
        Err(PlatformError::PermissionDenied(m)) => assert_eq!(m, "Устройство другой компании"),
        _ => panic!(),
    }
    let input = DeviceConfigInput {
        kind: DeviceKind::Scale,
        name: "Весы".into(),
        connection: ConnectionKind::KeyboardWedge,
        settings: JsonValue::Null,
        is_active: false,
    };
    let c = DeviceService::apply_save(None, "c1", input, "new".into(), 5).unwrap();
    assert_eq!(c.id, "new");
    assert_eq!(c.created_at, 5);
    assert!(!c.is_active);
}

#[test]
fn friendly_errors() {
    assert_eq!(
        scanner_friendly_error("/dev/ttyS0", "Permission denied (os error 13)"),
        "/dev/ttyS0: доступ запрещён. Пользователь не в группе dialout.\nВыполните: sudo usermod -aG dialout $USER — и перелогиньтесь."
    );
    assert_eq!(scanner_friendly_error("p", "No such file or directory"), "p: порт не найден. Переподключите устройство и обновите список портов.");
    assert_eq!(scanner_friendly_error("p", "Device or resource busy"), "p: занят другим процессом (например, модемным менеджером).");
    assert_eq!(scanner_friendly_error("p", "boom"), "p: boom");
    let a = system_actor("c1".into());
    assert_eq!(a.login, "device");
}

#[test]
fn scale_line_weight_text() {
    let pat = "^.*?([0-9]+\\.?[0-9]*)\\s*(kg|г|g)";
    assert_eq!(scale_weight_text(pat, b"  ST,GS   1.250 kg\r").as_deref(), Some("1.250"));
    assert_eq!(scale_weight_text(pat, "вес 350 г".as_bytes()).as_deref(), Some("350"));
    assert_eq!(scale_weight_text(pat, b"no weight here"), None);
    // a decimal comma is read as a point
    assert_eq!(scale_weight_text("^W:([0-9]+,[0-9]+)$", b" W:1,5 ").as_deref(), Some("1.5"));
}

#[test]
fn scale_test_reads_untrimmed_bytes() {
    let pat = "^W:([0-9]+,?[0-9]*)";
    let (c, overflow) = scale_test_reading(pat, b"W:2,5\r\n");
    assert_eq!(c.as_deref(), Some("2,5"));
    assert!(!overflow);
    let (c, _) = scale_test_reading(pat, b" W:2");
    assert_eq!(c, None);
    let long = vec![b'x'; 513];
    let (c, overflow) = scale_test_reading(pat, &long);
    assert_eq!(c, None);
    assert!(overflow);
}

#[test]
fn scale_pattern_that_does_not_compile_finds_nothing() {
    assert_eq!(scale_weight_text("([0-9]", b"12 kg"), None);
    assert_eq!(scale_test_reading("([0-9]", b"12 kg").0, None);
}
