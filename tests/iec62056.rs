use energy_gateway::iec62056::{
    calculate_checksum, create_example_telegrams, extract_unit, get_ebz_definition, get_easymeter_definition,
    get_meter_definition_by_manufacturer, get_meter_type_from_manufacturer, get_obis_description,
    normalize_obis_code, parse_iec62056_telegram, parse_identification_line, parse_obis_line, validate_obis_code,
    verify_checksum, Iec62056ParseError, MeterType, ProtocolMode,
};
use energy_gateway::models::DeviceProtocol;
use energy_gateway::value::{Scalar, Value};

#[test]
fn test_easymeter_definition() {
    let definition = get_easymeter_definition();
    assert_eq!(definition.meter_type, MeterType::EasyMeter);
    assert_eq!(definition.manufacturer_code, "ESY");
    assert_eq!(definition.default_baud_rate, 9600);
    assert!(definition.obis_mapping.contains_key("1-0:1.8.0"));
    assert!(definition.supported_modes.contains(&ProtocolMode::ModeD));
}

#[test]
fn test_ebz_definition() {
    let definition = get_ebz_definition();
    assert_eq!(definition.meter_type, MeterType::EBZ);
    assert_eq!(definition.manufacturer_code, "EBZ");
    assert_eq!(definition.default_baud_rate, 9600);
    assert!(definition.obis_mapping.contains_key("1-0:16.7.0"));
    assert!(definition.supported_modes.contains(&ProtocolMode::ModeC));
}

#[test]
fn test_get_meter_definition_by_manufacturer() {
    assert!(get_meter_definition_by_manufacturer("ESY").is_some());
    assert!(get_meter_definition_by_manufacturer("EBZ").is_some());
    assert!(get_meter_definition_by_manufacturer("UNKNOWN").is_none());
}

#[test]
fn test_example_telegrams() {
    let examples = create_example_telegrams();
    assert!(examples.contains_key("EasyMeter_Q3D"));
    assert!(examples.contains_key("EBZ_DD3"));

    let easymeter_example = examples.get("EasyMeter_Q3D").unwrap();
    assert!(easymeter_example.contains("/ESY5Q3D"));
    assert!(easymeter_example.contains("1-0:1.8.0"));

    let ebz_example = examples.get("EBZ_DD3").unwrap();
    assert!(ebz_example.contains("/EBZ5DD3BL10-112"));
    assert!(ebz_example.contains("1-0:16.7.0"));
}

#[test]
fn test_parse_obis_line() {
    let line = "1-0:1.8.1(000123.456*kWh)";
    let result = parse_obis_line(line);
    assert!(result.is_ok());
    let obis_data = result.unwrap();
    assert_eq!(obis_data.code, "1-0:1.8.1");
    assert_eq!(obis_data.value, "000123.456*kWh");
    assert_eq!(obis_data.unit, Some("kWh".to_string()));
}

#[test]
fn obis_parser_test_validate_obis_code() {
    assert!(validate_obis_code("1-0:1.8.1"));
    assert!(validate_obis_code("0-0:1.0.0"));
    assert!(validate_obis_code("1-0:15.7.0"));
    assert!(!validate_obis_code("invalid"));
    assert!(!validate_obis_code("1:2.3.4"));
    assert!(!validate_obis_code("1-0:1.8"));
}

#[test]
fn obis_parser_test_get_obis_description() {
    assert_eq!(get_obis_description("1-0:1.8.1"), Some("Active energy + (tariff 1)".to_string()));
    assert_eq!(get_obis_description("1-0:15.7.0"), Some("Absolute active instantaneous power".to_string()));
    assert_eq!(get_obis_description("nonexistent"), None);
}

#[test]
fn test_parse_identification_line() {
    let line = "/ELS5\\@V5.3";
    let result = parse_identification_line(line);
    assert!(result.is_ok());
    let device_info = result.unwrap();
    assert_eq!(device_info.manufacturer, "ELS");
    assert_eq!(device_info.mode, "C");
}

#[test]
fn utils_test_extract_unit() {
    assert_eq!(extract_unit("123.456*kWh"), Some("kWh".to_string()));
    assert_eq!(extract_unit("123.456*V"), Some("V".to_string()));
    assert_eq!(extract_unit("123.456"), None);
}

#[test]
fn utils_test_normalize_obis_code() {
    assert_eq!(normalize_obis_code("1-0:1.8.1"), "1-0:1.8.1");
    assert_eq!(normalize_obis_code(" 1-0:1.8.1 "), "1-0:1.8.1");
}

#[test]
fn test_parse_basic_telegram() {
    let telegram = "/ELS5\\@V5.3\n1-0:1.8.1(000123.456*kWh)\n1-0:1.8.2(000234.567*kWh)\n1-0:15.7.0(001.234*kW)\n!";
    let result = parse_iec62056_telegram(telegram);
    assert!(result.is_ok());
    let metering_data = result.unwrap();
    assert_eq!(metering_data.protocol, DeviceProtocol::IEC62056);
}

#[test]
fn test_parse_invalid_telegram() {
    let telegram = "invalid telegram format";
    let result = parse_iec62056_telegram(telegram);
    assert!(result.is_err());
}

fn text_of(v: Option<&Value>) -> Option<String> {
    match v {
        Some(Value::Scalar(Scalar::Text(t))) => Some(t.clone()),
        _ => None,
    }
}

#[test]
fn minimal_telegram_record() {
    let telegram = "/ELS5\\@V5.3\n1-0:1.8.1(000123.456*kWh)\n1-0:15.7.0(001.234*kW)\n!";
    let record = parse_iec62056_telegram(telegram).unwrap();
    let values = &record.metered_values;
    assert_eq!(text_of(values.get("1-0:1.8.1")), Some("000123.456*kWh".to_string()));
    assert_eq!(text_of(values.get("1-0:1.8.1_unit")), Some("kWh".to_string()));
    assert_eq!(text_of(values.get("1-0:15.7.0_unit")), Some("kW".to_string()));
    match values.get("proto") {
        Some(Value::Object(p)) => {
            match p.get("manufacturer") {
                Some(Scalar::Text(t)) => assert_eq!(t, "ELS"),
                _ => panic!("manufacturer missing"),
            }
            match p.get("mode") {
                Some(Scalar::Text(t)) => assert_eq!(t, "C"),
                _ => panic!("mode missing"),
            }
        },
        _ => panic!("proto missing"),
    }
    assert_eq!(record.meter_name, "ELSELS5\\@V5.3");
}

#[test]
fn telegram_with_crlf_blank_lines_and_bad_line() {
    let telegram = "/EBZ5DD3BL10-112\r\n\r\n1-0:16.7.0(001.500*kW)\r\ngarbage\r\n!\r\n1-0:1.8.0(1*kWh)\r\n";
    let record = parse_iec62056_telegram(telegram).unwrap();
    let values = &record.metered_values;
    assert_eq!(text_of(values.get("1-0:16.7.0")), Some("001.500*kW".to_string()));
    assert!(values.get("1-0:1.8.0").is_none());
    assert_eq!(values.len(), 3);
}

#[test]
fn iec_telegram_errors() {
    assert!(matches!(parse_iec62056_telegram(""), Err(Iec62056ParseError::InvalidFormat)));
    assert!(matches!(parse_iec62056_telegram("1-0:1.8.0(1)"), Err(Iec62056ParseError::MissingIdentification)));
    assert!(matches!(parse_iec62056_telegram("/AB\n"), Err(Iec62056ParseError::InvalidFormat)));
    assert!(matches!(parse_obis_line("1-0:1.8.0)1("), Err(Iec62056ParseError::InvalidDataLine)));
    assert!(matches!(parse_obis_line("no parens"), Err(Iec62056ParseError::InvalidDataLine)));
}

#[test]
fn identification_modes() {
    assert_eq!(parse_identification_line("/ISK5MT382-1000").unwrap().mode, "D");
    assert_eq!(parse_identification_line("/ABC5").unwrap().mode, "A");
    assert_eq!(parse_identification_line("/ABC5").unwrap().full_id, "ABCABC5");
}

#[test]
fn checksum_and_meter_types() {
    assert_eq!(calculate_checksum("AB"), "03");
    assert!(verify_checksum("AB", "03"));
    assert!(!verify_checksum("AB", "04"));
    assert_eq!(calculate_checksum(""), "00");
    assert_eq!(get_meter_type_from_manufacturer("esy"), MeterType::EasyMeter);
    assert_eq!(get_meter_type_from_manufacturer("ebz"), MeterType::EBZ);
    assert_eq!(get_meter_type_from_manufacturer("XYZ"), MeterType::Generic);
    assert_eq!(normalize_obis_code(" 1-0: 1.8.1 "), "1-0:1.8.1");
    assert_eq!(extract_unit("12*kWh)x"), Some("kWh".to_string()));
    assert_eq!(extract_unit("1*m3/h"), Some("m".to_string()));
}

#[test]
fn block_check_character() {
    let body = "/ABC5\n1-0:1.8.0(1*kWh)\n!";
    let bcc = body.bytes().skip(1).fold(0u8, |acc, b| acc ^ b);
    let good = format!("{}{}", body, bcc as char);
    assert!(parse_iec62056_telegram(&good).is_ok());
    let bad = format!("{}{}", body, (bcc ^ 0x01) as char);
    assert!(matches!(parse_iec62056_telegram(&bad), Err(Iec62056ParseError::ChecksumFailed)));
    assert!(parse_iec62056_telegram(body).is_ok());
}
