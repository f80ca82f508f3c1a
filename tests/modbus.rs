use energy_gateway::modbus_frames::{build_read_request, decode_response, framing_of, response_length, Framing};
use energy_gateway::config::{ModbusDeviceConfig, ModbusHubConfig, ModbusProtoConfig};
use energy_gateway::ha::HAPlatform;
use energy_gateway::modbus::{apply_mappings, compose_value, decode_register, device_discovery, hub_tick, plan_hub,
    scale_value, template_context, tick_device, waits_till_read, Mapping, ModbusDevice, ModbusHub, ModbusRegister,
    ModbusRegisterFormat, ModbusRegisterType, Register, Scaler, TemplateRegister};
use energy_gateway::value::Scalar;

fn device(name: &str, interval: u32) -> ModbusDevice {
    ModbusDevice {
        config: ModbusDeviceConfig { name: name.to_string(), meter: "m".to_string(), slave_id: 1, read_interval: interval },
        waits_till_read: 1,
        cur_waits: 0,
        registers: Vec::new(),
    }
}

fn register(name: &str, format: ModbusRegisterFormat, scaler: Scaler, mappings: Vec<Mapping>) -> ModbusRegister {
    ModbusRegister {
        name: name.to_string(),
        input_type: ModbusRegisterType::Holding,
        register: 0,
        length: 2,
        format,
        scaler,
        unit_of_measurement: "W".to_string(),
        device_class: "power".to_string(),
        state_class: "measurement".to_string(),
        platform: HAPlatform::Sensor,
        mappings,
    }
}

#[test]
fn cadence_tick_and_rounding() {
    assert_eq!(hub_tick(&vec![30, 45, 90]), 30);
    assert_eq!(hub_tick(&vec![120, 300]), 60);
    assert_eq!(hub_tick(&vec![]), 60);
    assert_eq!(waits_till_read(45, 30), 2);
    assert_eq!(waits_till_read(90, 30), 3);
    assert_eq!(waits_till_read(10, 30), 1);
    let mut hub = ModbusHub {
        config: ModbusHubConfig {
            name: "h".to_string(),
            host: "localhost".to_string(),
            port: 502,
            proto: ModbusProtoConfig::TCP,
            devices: Vec::new(),
        },
        devices: vec![device("a", 30), device("b", 45), device("c", 200)],
    };
    let tick = plan_hub(&mut hub);
    assert_eq!(tick, 30);
    assert_eq!(hub.devices[0].waits_till_read, 1);
    assert_eq!(hub.devices[1].waits_till_read, 2);
    assert_eq!(hub.devices[2].waits_till_read, 7);
    let mut reads = Vec::new();
    for _ in 0..4 {
        reads.push(tick_device(&mut hub.devices[1]));
    }
    assert_eq!(reads, vec![false, true, false, true]);
}

#[test]
fn int32_endianness() {
    assert_eq!(compose_value(&vec![0x0001, 0x2345], ModbusRegisterFormat::Int32), Some(0x00012345));
    assert_eq!(compose_value(&vec![0x0001, 0x2345], ModbusRegisterFormat::Int16), Some(0x0001));
    assert_eq!(compose_value(&vec![0x0001], ModbusRegisterFormat::Int32), None);
}

#[test]
fn int32_read_scaled() {
    let reg = register("p", ModbusRegisterFormat::Int32, Scaler { mantissa: 1, exponent: -1 }, Vec::new());
    let (value, num) = decode_register(&reg, &vec![0x0000, 0x02BC]).unwrap();
    assert_eq!(num, 70);
    assert!(matches!(value, Scalar::Int(70)));
    assert_eq!(scale_value(5, Scaler { mantissa: 1, exponent: -1 }), 1);
    assert_eq!(scale_value(4, Scaler { mantissa: 1, exponent: -1 }), 0);
    assert_eq!(scale_value(3, Scaler { mantissa: -5, exponent: -1 }), -2);
    assert_eq!(scale_value(7, Scaler { mantissa: 3, exponent: 2 }), 2100);
}

#[test]
fn value_mapping_precedence() {
    let mappings = vec![
        Mapping { data: "1".to_string(), mapping: Scalar::Text("on".to_string()) },
        Mapping { data: "_".to_string(), mapping: Scalar::Text("unknown".to_string()) },
    ];
    assert!(matches!(apply_mappings(1, &mappings), Scalar::Text(t) if t == "on"));
    assert!(matches!(apply_mappings(5, &mappings), Scalar::Text(t) if t == "unknown"));
    let only_exact = vec![Mapping { data: "-3".to_string(), mapping: Scalar::Bool(true) }];
    assert!(matches!(apply_mappings(-3, &only_exact), Scalar::Bool(true)));
    assert!(matches!(apply_mappings(4, &only_exact), Scalar::Int(4)));
}

#[test]
fn templates_see_physical_registers_only() {
    let regs = vec![
        Register::Modbus(register("a", ModbusRegisterFormat::Int16, Scaler::one(), Vec::new())),
        Register::Template(TemplateRegister {
            name: "t".to_string(),
            value: "a * 2".to_string(),
            unit_of_measurement: "W".to_string(),
            device_class: "power".to_string(),
            state_class: "measurement".to_string(),
            platform: HAPlatform::Sensor,
        }),
        Register::Modbus(register("b", ModbusRegisterFormat::Int16, Scaler::one(), Vec::new())),
        Register::Modbus(register("c", ModbusRegisterFormat::Int16, Scaler::one(), Vec::new())),
    ];
    let ctx = template_context(&regs, &vec![Some(3), Some(99), None, Some(-4)]);
    assert_eq!(ctx, vec![("a".to_string(), 3), ("c".to_string(), -4)]);
    let d = device_discovery(&"meter1".to_string(), "ACME".to_string(), "X1".to_string(), &regs);
    assert_eq!(d.cmps.len(), 4);
    assert_eq!(d.cmps[1].0, "t");
    assert_eq!(d.cmps[1].1.value_template, "{{ value_json.t }}");
    assert_eq!(d.cmps[0].1.unique_id, "e2m_modbustcp_meter1_a");
    assert_eq!(d.discover_topic, "homeassistant/device/e2m_ModbusTCP-meter1/config");
}

#[test]
fn frames_for_a_register() {
    assert_eq!(framing_of(ModbusProtoConfig::TCP), Some(Framing::TcpUdp));
    assert_eq!(framing_of(ModbusProtoConfig::RTU), None);
    let reg = register("p", ModbusRegisterFormat::Int32, Scaler::one(), Vec::new());
    let frame = build_read_request(1, Framing::TcpUdp, &reg);
    assert_eq!(frame, vec![0, 1, 0, 0, 0, 6, 1, 3, 0, 0, 0, 2]);
    let response = vec![0, 1, 0, 0, 0, 7, 1, 3, 4, 0x00, 0x00, 0x02, 0xBC];
    let (value, num) = decode_response(1, Framing::TcpUdp, &reg, &response).unwrap();
    assert_eq!(num, 700);
    assert!(matches!(value, Scalar::Int(700)));
    assert!(decode_response(2, Framing::TcpUdp, &reg, &response).is_none());
    assert!(decode_response(1, Framing::TcpUdp, &reg, &vec![0, 1, 0, 0, 0, 3, 1, 3, 0]).is_none());
    assert_eq!(response_length(&vec![0, 1, 0, 0, 0xFF, 0xFA], Framing::TcpUdp), None);
    assert_eq!(response_length(&vec![1, 3, 4, 0, 0, 0], Framing::Rtu), Some(9));
    let rtu = build_read_request(1, Framing::Rtu, &reg);
    assert_eq!(rtu.len(), 8);
    assert_eq!(response_length(&vec![0, 1, 0, 0, 0, 7], Framing::TcpUdp), Some(13));
    assert_eq!(response_length(&vec![0, 1], Framing::TcpUdp), None);
}
