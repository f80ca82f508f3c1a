use energy_gateway::obis::{extract_unit, get_obis_description, normalize_obis_code, validate_obis_code};

#[test]
fn mod_test_validate_obis_code() {
    assert!(validate_obis_code("1-0:1.8.1"));
    assert!(validate_obis_code("0-0:1.0.0"));
    assert!(validate_obis_code("1-0:15.7.0"));
    assert!(!validate_obis_code("invalid"));
    assert!(!validate_obis_code("1:2.3.4"));
    assert!(!validate_obis_code("1-0:1.8"));
}

#[test]
fn mod_test_get_obis_description() {
    assert_eq!(get_obis_description("1-0:1.8.1"), Some("Active energy + (tariff 1)".to_string()));
    assert_eq!(get_obis_description("1-0:15.7.0"), Some("Absolute active instantaneous power".to_string()));
    assert_eq!(get_obis_description("nonexistent"), None);
}

#[test]
fn mod_test_extract_unit() {
    assert_eq!(extract_unit("123.456*kWh"), Some("kWh".to_string()));
    assert_eq!(extract_unit("1.234*kW"), Some("kW".to_string()));
    assert_eq!(extract_unit("123456"), None);
    assert_eq!(extract_unit("123*"), None);
}

#[test]
fn mod_test_normalize_obis_code() {
    assert_eq!(normalize_obis_code("  1-0:1.8.1  "), "1-0:1.8.1");
    assert_eq!(normalize_obis_code("1-0:15.7.0"), "1-0:15.7.0");
}

#[test]
fn obis_storage_field_and_limits() {
    assert!(validate_obis_code("1-0:1.8.0*255"));
    assert!(validate_obis_code("255-255:255.255.255"));
    assert!(!validate_obis_code("256-0:1.8.0"));
    assert!(!validate_obis_code("1-0:1.8.x"));
    assert!(!validate_obis_code("1-0-0:1.8.0"));
    assert!(!validate_obis_code(""));
    assert!(!validate_obis_code("1-0:1.8.1*x"));
    assert!(!validate_obis_code("1-0:1.8.1*256"));
    assert!(!validate_obis_code("1-0:1.8.1*1*2"));
    assert_eq!(extract_unit("1*2"), None);
    assert_eq!(extract_unit("000123.456*kWh"), Some("kWh".to_string()));
    assert_eq!(extract_unit("5*m3/h"), Some("m".to_string()));
}

#[test]
fn obis_normalize_then_validate_round_trip() {
    for code in ["1-0:1.8.1", "0-0:1.0.0", "1-0:15.7.0", "6-0:2.3.4", "1-0:1.8.0*255"] {
        assert!(validate_obis_code(code));
        let n = normalize_obis_code(code);
        assert_eq!(n, code);
        assert!(validate_obis_code(&n));
        assert_eq!(normalize_obis_code(&n), n);
    }
    assert_eq!(normalize_obis_code("\t1-0:1.8.1\n"), "1-0:1.8.1");
}
