use energy_gateway::config::{httpd_default, httpd_port_default, ConfigBases, ConfigOperation, ConfigState, Config,
    HttpdConfig, MqttConfig, DatabaseConfig, ModbusConfig, db_default, mqtt_client_name_default};
use energy_gateway::ha::{is_none_str, HAPlatform, HaComponent, HaDiscover};
use energy_gateway::models::{DeviceProtocol, DeviceStatus, DeviceType, MeteringData};

#[test]
fn protocol_names_round_trip() {
    for p in [DeviceProtocol::ModbusTCP, DeviceProtocol::OMS, DeviceProtocol::IEC62056, DeviceProtocol::SML,
        DeviceProtocol::MBUS, DeviceProtocol::KNX] {
        assert_eq!(DeviceProtocol::from_str(&p.to_string()), Some(p));
    }
    assert_eq!(DeviceProtocol::IEC62056.to_string(), "IEC 62056-21");
    assert_eq!(DeviceProtocol::from_str("nonsense"), Some(DeviceProtocol::Unknown));
    assert_eq!(DeviceType::from_str("ModbusRtuOverTcp"), Some(DeviceType::ModbusRtu));
    assert_eq!(DeviceType::from_str("x"), None);
    assert_eq!(DeviceStatus::from_str("Online"), Some(DeviceStatus::Online));
    assert_eq!(DeviceStatus::Maintenance.to_string(), "Maintenance");
}

#[test]
fn new_record_is_empty() {
    let r = MeteringData::new();
    assert_eq!(r.protocol, DeviceProtocol::Unknown);
    assert_eq!(r.metered_values.len(), 0);
    assert_eq!(r.transmission_time, 0);
}

#[test]
fn components_and_discovery() {
    let c = HaComponent::new(HAPlatform::BinarySensor, "Dev One".to_string(), "restart".to_string(),
        "NONE".to_string(), "Modbus".to_string(), "My Reg".to_string(), "measurement".to_string());
    assert_eq!(c.p, "binary_sensor");
    assert_eq!(c.unique_id, "e2m_modbus_dev one_my_reg");
    assert_eq!(c.object_id, "dev one_my_reg");
    assert_eq!(c.payload_on, Some(true));
    assert_eq!(c.payload_press, Some("restart".to_string()));
    let e = HaComponent::new_energy("d".to_string(), "kWh".to_string(), "p".to_string(), "E".to_string(), "k".to_string());
    assert_eq!(e.state_class, "total_increasing");
    assert_eq!(e.value_template, "{{ value_json.k }}");
    assert!(is_none_str(&"NONE".to_string()));
    assert!(is_none_str(&String::new()));
    assert!(!is_none_str(&"W".to_string()));
    let d = HaDiscover::new("n".to_string(), "m".to_string(), "x".to_string(), "OMS".to_string());
    assert_eq!(d.state_topic, "energy2mqtt/devs/OMS/n");
    assert_eq!(d.get_dev_id(), "e2m_OMS_n");
}

#[test]
fn config_update_marks_dirty() {
    let mut state = ConfigState {
        config: Config {
            httpd: httpd_default(),
            mqtt: MqttConfig {
                host: "h".to_string(),
                port: 1883,
                user: "u".to_string(),
                pass: "p".to_string(),
                ha_enabled: true,
                client_name: mqtt_client_name_default(),
            },
            db: db_default(),
            modbus: ModbusConfig { hubs: Vec::new() },
            tibber: Vec::new(),
            oms: Vec::new(),
            victron: Vec::new(),
            knx: Vec::new(),
        },
        dirty: false,
    };
    assert!(!state.is_dirty());
    let change = state.update_config(ConfigOperation::CHANGE, ConfigBases::Httpd(HttpdConfig { enabled: false, port: 1 }));
    assert!(state.is_dirty());
    assert_eq!(change.base, "httpd");
    assert_eq!(state.config.httpd.port, 1);
    assert_eq!(httpd_port_default(), 8240);
    let _ = DatabaseConfig { dbtype: String::new(), uri: String::new() };
}

#[test]
fn ids_uptime_and_registry() {
    let id = energy_gateway::models::get_id("modbus", &"meter".to_string(), 1700000000);
    assert_eq!(id, "modbus-meter-1700000000");
    let status = energy_gateway::dispatch::AppStatus::new(100);
    assert_eq!(status.uptime_seconds(160), 60);
    assert_eq!(status.uptime_seconds(50), 0);
    let mut reg: energy_gateway::dispatch::Callbacks<u32> = energy_gateway::dispatch::Callbacks::new();
    reg.insert("a".to_string(), 1);
    reg.insert("b".to_string(), 2);
    reg.insert("a".to_string(), 3);
    assert_eq!(reg.targets("a"), Some(&vec![1, 3]));
    assert_eq!(reg.targets("c"), None);
    assert_eq!(reg.get_topics(), vec!["a".to_string(), "b".to_string()]);
    assert_eq!(energy_gateway::dispatch::namespaced_topic("oms_input"), "energy2mqtt/oms_input");
    assert_eq!(energy_gateway::dispatch::protocol_count_message("modbus", 3).topic, "energy2mqtt/mgt/modbus/count");
}
