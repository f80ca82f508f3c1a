use energy_gateway::config::OmsConfig;
use energy_gateway::mbus_records::parse_payload;
use energy_gateway::oms::{add_crc, get_device_medium, get_ident_no, get_manufacturer, parse_oms_telegram,
    remove_oms_filler, verifiy_crc, OmsParseError};
use energy_gateway::models::DeviceProtocol;
use energy_gateway::value::{Scalar, Value};

fn annex_n_telegram() -> Vec<u8> {
    vec![
        0x2E, 0x44, 0x93, 0x15, 0x78, 0x56, 0x34, 0x12, 0x33, 0x03, 0x33, 0x63,
        0x7A, 0x2A, 0x00, 0x20, 0x25, 0x59, 0x23, 0xC9, 0x5A, 0xAA, 0x26, 0xD1, 0xB2, 0xE7, 0x49, 0x3B, 0xC2, 0xAD,
        0x01, 0x3E, 0xC4, 0xA6, 0xF6, 0xD3, 0x52, 0x9B, 0x52, 0x0E, 0xDF, 0xF0, 0xEA, 0x6D, 0xEF, 0xC9, 0x55, 0xB2,
        0x9D, 0x6D, 0x69, 0xEB, 0xF3, 0xEC, 0x8A,
    ]
}

fn annex_n_sensor() -> Vec<OmsConfig> {
    vec![OmsConfig {
        name: "3ELS3312345678".to_string(),
        id: "3ELS3312345678".to_string(),
        key: "0102030405060708090A0B0C0D0E0F11".to_string(),
    }]
}

#[test]
fn get_mr() {
    let data = annex_n_telegram();

    let test = verifiy_crc(&data);
    assert_eq!(test.is_err(), false);
    let new_data = test.unwrap();
    assert_eq!(data.len() - 8, new_data.len());

    assert_eq!(get_manufacturer(&data), "ELS");
    assert_eq!(get_ident_no(&data), "12345678");

    let result = parse_oms_telegram(&data, true, &annex_n_sensor());
    assert_eq!(result.is_err(), false);
    let result = result.unwrap();
    assert_eq!(result.meter_name, "3ELS3312345678");
}

#[test]
fn annex_n_record_fields() {
    let record = parse_oms_telegram(&annex_n_telegram(), true, &annex_n_sensor()).unwrap();
    assert_eq!(record.protocol, DeviceProtocol::OMS);
    match record.metered_values.get("payload") {
        Some(Value::Scalar(Scalar::Text(t))) => assert!(!t.is_empty()),
        _ => panic!("payload missing"),
    }
    match record.metered_values.get("proto") {
        Some(Value::Object(p)) => {
            assert!(matches!(p.get("manufacturer"), Some(Scalar::Text(t)) if t == "ELS"));
            assert!(matches!(p.get("ci_field"), Some(Scalar::Text(t)) if t == "short"));
            assert!(matches!(p.get("transmission_counter"), Some(Scalar::Int(0x2A))));
            assert!(matches!(p.get("security_mode"), Some(Scalar::Int(5))));
            assert!(matches!(p.get("din_addr_meter"), Some(Scalar::Text(t)) if t == "3ELS3312345678"));
        },
        _ => panic!("proto missing"),
    }
}

#[test]
fn crc_strip_and_reframe_round_trip() {
    let data = annex_n_telegram();
    let body = verifiy_crc(&data).unwrap();
    assert_eq!(add_crc(&body), data);
    let body12: Vec<u8> = (1..=12).collect();
    let framed = add_crc(&body12);
    assert_eq!(framed.len(), 16);
    assert_eq!(verifiy_crc(&framed).unwrap(), body12);
    let short_first = add_crc(&vec![1, 2, 3]);
    assert!(matches!(verifiy_crc(&short_first), Err(OmsParseError::CRCMissMatch)));
    assert!(matches!(verifiy_crc(&Vec::new()), Err(OmsParseError::CRCMissMatch)));
    let mut bad = data.clone();
    bad[3] ^= 0x01;
    assert!(matches!(verifiy_crc(&bad), Err(OmsParseError::CRCMissMatch)));
}

#[test]
fn oms_telegram_errors() {
    let data = annex_n_telegram();
    let body = verifiy_crc(&data).unwrap();
    assert!(matches!(parse_oms_telegram(&data, true, &Vec::new()), Err(OmsParseError::SensorNotConfigured)));
    assert!(matches!(parse_oms_telegram(&vec![0x01, 0x44], false, &annex_n_sensor()), Err(OmsParseError::TelegramTooShort)));
    let mut wrong_c = body.clone();
    wrong_c[1] = 0x46;
    assert!(matches!(parse_oms_telegram(&wrong_c, false, &annex_n_sensor()), Err(OmsParseError::UnsupportedTelegramType)));
    let mut wired = body.clone();
    wired[10] = 0x72;
    assert!(matches!(parse_oms_telegram(&wired, false, &annex_n_sensor()), Err(OmsParseError::SecurityCiTypeNotSupported)));
    wired[10] = 0x70;
    assert!(matches!(parse_oms_telegram(&wired, false, &annex_n_sensor()), Err(OmsParseError::WiredProtocolNotSupported)));
    let mut mode = body.clone();
    mode[14] = 0x27;
    assert!(matches!(parse_oms_telegram(&mode, false, &annex_n_sensor()), Err(OmsParseError::SecurityModeNotSupported)));
    let wrong_key = vec![OmsConfig {
        name: "x".to_string(),
        id: "3ELS3312345678".to_string(),
        key: "00000000000000000000000000000000".to_string(),
    }];
    assert!(matches!(parse_oms_telegram(&body, false, &wrong_key), Err(OmsParseError::DecryptionFailed)));
    let mut long = body.clone();
    long.resize(300, 0);
    assert!(matches!(parse_oms_telegram(&long, false, &annex_n_sensor()), Err(OmsParseError::TelegramTooLong)));
}

#[test]
fn filler_and_medium() {
    assert_eq!(remove_oms_filler(&vec![0x2F, 0x2F, 0x01, 0x02, 0x2F, 0x2F]), vec![0x01, 0x02]);
    assert_eq!(remove_oms_filler(&vec![0x2F, 0x2F]), Vec::<u8>::new());
    assert_eq!(get_device_medium(&"7".to_string()), "Water (cold)");
    assert_eq!(get_device_medium(&"99".to_string()), "unknown");
}

fn int_field(m: &energy_gateway::value::ValueMap, k: &str) -> Option<i128> {
    match m.get(k) {
        Some(Value::Scalar(Scalar::Int(i))) => Some(*i),
        _ => None,
    }
}

fn text_field(m: &energy_gateway::value::ValueMap, k: &str) -> Option<String> {
    match m.get(k) {
        Some(Value::Scalar(Scalar::Text(t))) => Some(t.clone()),
        _ => None,
    }
}

#[test]
fn on_time_record_in_seconds() {
    let m = parse_payload(&vec![0x02, 0x22, 0x02, 0x00]);
    assert_eq!(int_field(&m, "on_time"), Some(7200));
    assert_eq!(text_field(&m, "on_time_unit"), Some("s".to_string()));
}

#[test]
fn dif_sizes_little_endian_and_bcd() {
    // VIF 0x6E: dimensionless units, no scaling
    let cases: Vec<(Vec<u8>, i128)> = vec![
        (vec![0x01, 0x6E, 0x12], 0x12),
        (vec![0x02, 0x6E, 0x34, 0x12], 0x1234),
        (vec![0x03, 0x6E, 0x56, 0x34, 0x12], 0x123456),
        (vec![0x04, 0x6E, 0x78, 0x56, 0x34, 0x12], 0x12345678),
        (vec![0x06, 0x6E, 1, 2, 3, 4, 5, 6], 0x060504030201),
        (vec![0x07, 0x6E, 1, 2, 3, 4, 5, 6, 7, 8], 0x0807060504030201),
        (vec![0x0C, 0x6E, 0x78, 0x56, 0x34, 0x12], 12345678),
        (vec![0xF0, 0x6E, 0x21, 0x43, 0x65, 0x87], 87654321),
    ];
    for (payload, expected) in cases {
        let m = parse_payload(&payload);
        assert_eq!(int_field(&m, "hca_units"), Some(expected));
    }
}

#[test]
fn scaled_and_special_records() {
    let m = parse_payload(&vec![0x04, 0x13, 0x10, 0x00, 0x00, 0x00]);
    assert!(matches!(m.get("volume"), Some(Value::Scalar(Scalar::Scaled(16, -3)))));
    assert_eq!(text_field(&m, "volume_unit"), Some("m³".to_string()));
    let t = parse_payload(&vec![0x04, 0x6D, 0x1E, 0x0C, 0x6F, 0x15]);
    assert_eq!(text_field(&t, "time_of_readout"), Some("15.05.2011 12:30".to_string()));
    let e = parse_payload(&vec![0x01, 0xFD, 0x17, 0xAB]);
    assert_eq!(text_field(&e, "error_flags"), Some("AB".to_string()));
    let u = parse_payload(&vec![0x01, 0x7F, 0x05]);
    assert_eq!(int_field(&u, "unknown_at_1_7f"), Some(5));
    let real = parse_payload(&vec![0x05, 0x13, 0x00, 0x00, 0x80, 0x3F, 0x01, 0x6E, 0x07]);
    assert!(real.get("volume").is_none());
    assert_eq!(int_field(&real, "hca_units"), Some(7));
    let skip = parse_payload(&vec![0x2F, 0x2F, 0x00, 0x09]);
    assert_eq!(skip.len(), 0);
    let truncated = parse_payload(&vec![0x04, 0x13, 0x01]);
    assert_eq!(truncated.len(), 0);
}

#[test]
fn mode5_decrypts_to_check_bytes() {
    let body = verifiy_crc(&annex_n_telegram()).unwrap();
    let key: Vec<u8> = vec![0x01, 0x02, 0x03, 0x04, 0x05, 0x06, 0x07, 0x08, 0x09, 0x0A, 0x0B, 0x0C, 0x0D, 0x0E, 0x0F, 0x11];
    let plain = energy_gateway::oms::decrypt_mode5(&body, body[11], 15, &key);
    assert_eq!(plain.len(), body.len() - 15);
    assert_eq!(&plain[..2], &[0x2F, 0x2F]);
    let short = energy_gateway::oms::decrypt_mode5(&body, body[11], 16, &key);
    assert!(short.is_empty());
}

#[test]
fn hex_messages() {
    let text = "2E44931578563412330333637A2A0020255923C95AAA26D1B2E7493BC2AD013EC4A6F6D3529B520EDFF0EA6DEFC955B29D6D69EBF3EC8A";
    let decoded = energy_gateway::oms::decode_oms_message(text, &annex_n_sensor());
    assert!(matches!(decoded, Some(Ok(_))));
    assert!(energy_gateway::oms::decode_oms_message("zz", &annex_n_sensor()).is_none());
    assert!(energy_gateway::oms::decode_oms_message("abc", &annex_n_sensor()).is_none());
}
