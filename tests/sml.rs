use energy_gateway::sml::{find_sml_end, find_sml_start, get_sml_unit_name, parse_sml_message, MeterType, SmlObisCode,
    SmlValue};
use energy_gateway::sml_meters::{get_all_supported_obis_codes, get_meter_by_manufacturer, get_supported_meters};
use energy_gateway::sml_parser::SmlParser;
use energy_gateway::sml_utils::{apply_scaler_and_unit, calculate_crc16, format_obis_code,
    identify_manufacturer_from_server_id, parse_sml_value, validate_sml_checksum, extract_server_id_info,
    format_timestamp};

#[test]
fn test_get_supported_meters() {
    let meters = get_supported_meters();
    assert!(!meters.is_empty());
    assert!(meters.contains_key("EMH"));
    assert!(meters.contains_key("Iskraemeco"));
    assert!(meters.contains_key("Generic"));
}

#[test]
fn test_meter_definitions() {
    let meters = get_supported_meters();
    let emh = meters.get("EMH").unwrap();

    assert_eq!(emh.meter_type, MeterType::EMH);
    assert!(!emh.supported_obis_codes.is_empty());
    assert!(!emh.obis_mapping.is_empty());
    assert!(emh.obis_mapping.contains_key("1-0:1.8.0"));
}

#[test]
fn test_get_meter_by_manufacturer() {
    let meter = get_meter_by_manufacturer("EMH");
    assert!(meter.is_some());
    assert_eq!(meter.unwrap().meter_type, MeterType::EMH);

    let unknown = get_meter_by_manufacturer("UNKNOWN");
    assert!(unknown.is_none());
}

#[test]
fn test_get_all_supported_obis_codes() {
    let codes = get_all_supported_obis_codes();
    assert!(!codes.is_empty());
    assert!(codes.contains(&"1-0:1.8.0".to_string()));
    assert!(codes.contains(&"1-0:16.7.0".to_string()));
}

#[test]
fn test_find_sml_boundaries() {
    let data = [
        0x1B, 0x1B, 0x1B, 0x1B,
        0x01, 0x01, 0x01, 0x01,
        0x76, 0x05, 0x04, 0x03,
        0x1B, 0x1B, 0x1B, 0x1A,
    ];

    assert_eq!(find_sml_start(&data).unwrap(), 0);
    assert_eq!(find_sml_end(&data, 0).unwrap(), 12);
}

#[test]
fn test_sml_obis_code() {
    let bytes = [0x01, 0x00, 0x01, 0x08, 0x00, 0xFF];
    let obis = SmlObisCode::from_bytes(&bytes).unwrap();
    assert_eq!(obis.to_string(), "1-0:1.8.0.255");
}

#[test]
fn test_parse_type_length() {
    let data = [0x72, 0x05];
    let mut parser = SmlParser::new(&data);
    let (type_field, length) = parser.parse_type_length().unwrap();
    assert_eq!(type_field, 7);
    assert_eq!(length, 2);
}

#[test]
fn test_format_obis_code() {
    let obis_bytes = [0x01, 0x00, 0x01, 0x08, 0x00, 0xFF];
    let formatted = format_obis_code(&obis_bytes);
    assert_eq!(formatted, "1-0:1.8.0.255");
}

#[test]
fn test_parse_sml_value() {
    let value = SmlValue::UInt32(12345);
    let (value_str, unit) = parse_sml_value(&value);
    assert_eq!(value_str, "12345");
    assert_eq!(unit, None);
}

#[test]
fn test_apply_scaler_and_unit() {
    let (result, unit) = apply_scaler_and_unit("12345", Some(-2), Some(30));
    assert_eq!(result, "123.45");
    assert_eq!(unit, Some("W".to_string()));
}

#[test]
fn test_identify_manufacturer() {
    assert_eq!(identify_manufacturer_from_server_id("EMH12345"), "EMH");
    assert_eq!(identify_manufacturer_from_server_id("ISK67890"), "Iskraemeco");
    assert_eq!(identify_manufacturer_from_server_id("1E2D3F4A567890"), "EMH");
    assert_eq!(identify_manufacturer_from_server_id("UNKNOWN"), "Unknown");
}

#[test]
fn test_crc16_calculation() {
    let data = [0x1B, 0x1B, 0x1B, 0x1B, 0x01, 0x01, 0x01, 0x01];
    let crc = calculate_crc16(&data);
    assert_ne!(crc, 0);
}

#[test]
fn octet_string_and_obis_scenario() {
    let data = [0x05, 0x01, 0x02, 0x03, 0x04];
    let mut parser = SmlParser::new(&data);
    let v = parser.parse_octet_string().unwrap();
    assert_eq!(v, Some(vec![0x01, 0x02, 0x03, 0x04]));
    assert_eq!(parser.pos, 5);
    let absent = [0x01];
    let mut p2 = SmlParser::new(&absent);
    assert_eq!(p2.parse_octet_string().unwrap(), None);
    assert_eq!(format_obis_code(&[0x01, 0x00, 0x01, 0x08, 0x00, 0xFF]), "1-0:1.8.0.255");
    assert_eq!(format_obis_code(&[0xAB, 0x01]), "ab01");
}

#[test]
fn numbers_and_values() {
    let data = [0x62, 0x05, 0x63, 0x01, 0x02, 0x52, 0xFF, 0x65, 0x00, 0x00, 0x01, 0x00];
    let mut p = SmlParser::new(&data);
    assert_eq!(p.parse_unsigned8().unwrap(), 5);
    assert_eq!(p.parse_unsigned16().unwrap(), 0x0102);
    assert_eq!(p.parse_signed8().unwrap(), -1);
    assert_eq!(p.parse_unsigned32().unwrap(), 256);
    let bad = [0x63, 0x01];
    let mut q = SmlParser::new(&bad);
    assert!(q.parse_unsigned16().is_err());
    let vals = [0x62, 0xFE, 0x42, 0x01, 0x09, 0x00, 0x00, 0x00, 0x00, 0x00, 0x00, 0x01, 0x00];
    let mut r = SmlParser::new(&vals);
    assert!(matches!(r.parse_optional_value().unwrap(), Some(SmlValue::Int8(-2))));
    assert!(matches!(r.parse_optional_value().unwrap(), Some(SmlValue::OctetString(_))));
    assert!(matches!(r.parse_optional_value().unwrap(), Some(SmlValue::UInt64(256))));
}

#[test]
fn scaler_rendering() {
    assert_eq!(apply_scaler_and_unit("12345", Some(2), None).0, "1234500");
    assert_eq!(apply_scaler_and_unit("-5", Some(-1), Some(28)), ("-0.5".to_string(), Some("kWh".to_string())));
    assert_eq!(apply_scaler_and_unit("100", Some(-2), None).0, "1");
    assert_eq!(apply_scaler_and_unit("1", Some(-8), None).0, "0");
    assert_eq!(apply_scaler_and_unit("123456789", Some(-8), None).0, "1.234568");
    assert_eq!(apply_scaler_and_unit("abc", Some(-1), Some(200)), ("abc".to_string(), None));
    assert_eq!(get_sml_unit_name(48), Some("Hz".to_string()));
    assert_eq!(get_sml_unit_name(0), None);
}

#[test]
fn frame_checks_and_ids() {
    assert!(!validate_sml_checksum(&[0x01, 0x02, 0x03]));
    let mut frame = vec![0x10, 0x20, 0x30];
    let crc = calculate_crc16(&frame);
    frame.push((crc >> 8) as u8);
    frame.push((crc & 0xFF) as u8);
    frame.extend_from_slice(&[0x1B, 0x1B, 0x1B, 0x1A]);
    assert!(validate_sml_checksum(&frame));
    assert_eq!(calculate_crc16(b"123456789"), 0x29B1);
    let info = extract_server_id_info(&[0x0A, 0x01]);
    assert_eq!(info.hex_id, "0a01");
    assert_eq!(info.manufacturer, "Unknown");
    assert_eq!(format_timestamp(Some(0)), Some("1970-01-01 00:00:00 UTC".to_string()));
    assert_eq!(format_timestamp(None), None);
}

#[test]
fn whole_frame_with_list_response() {
    let mut frame: Vec<u8> = vec![0x1B, 0x1B, 0x1B, 0x1B, 0x01, 0x01, 0x01, 0x01];
    frame.extend_from_slice(&[
        0x02, 0x01,             // transaction id
        0x62, 0x00,             // group
        0x62, 0x00,             // abort on error
        0x63, 0x07, 0x01,       // message type 0x701
        0x01, 0x01, 0x01,       // client, server, list name absent
        0x01,                   // sensor time absent
        0x71,                   // value list of one entry
        0x07, 0x01, 0x00, 0x01, 0x08, 0x00, 0xFF, // obis
        0x01, 0x01,             // status, time absent
        0x62, 0x1E,             // unit 30
        0x52, 0xFF,             // scaler -1
        0x03, 0x30, 0x39,       // value 12345
        0x01,                   // signature absent
        0x01,                   // list signature absent
        0x01,                   // gateway time absent
        0x01,                   // crc absent
        0x62, 0x00,             // end of message
        0x00,
    ]);
    frame.extend_from_slice(&[0x1B, 0x1B, 0x1B, 0x1A]);
    let file = parse_sml_message(&frame).unwrap();
    assert_eq!(file.messages.len(), 1);
    let body = &file.messages[0].message_body;
    assert_eq!(body.msg_type, 0x701);
    let list = body.get_list_response.as_ref().unwrap();
    assert_eq!(list.val_list.len(), 1);
    let entry = &list.val_list[0];
    assert_eq!(entry.unit, Some(30));
    assert_eq!(entry.scaler, Some(-1));
    assert!(matches!(entry.value, Some(SmlValue::UInt16(12345))));
    assert!(parse_sml_message(&[0x00, 0x01]).is_err());
}

#[test]
fn octet_values_as_text_or_hex() {
    assert_eq!(parse_sml_value(&SmlValue::OctetString(b"EMH 1".to_vec())).0, "EMH 1");
    assert_eq!(parse_sml_value(&SmlValue::OctetString(vec![0x00, 0xFF])).0, "00ff");
    assert_eq!(parse_sml_value(&SmlValue::Int16(-300)).0, "-300");
    assert_eq!(parse_sml_value(&SmlValue::Bool(true)).0, "true");
    assert_eq!(parse_sml_value(&SmlValue::List(vec![SmlValue::UInt8(1), SmlValue::Bool(false)])).0, "[1, false]");
}
