//! Device and protocol enumerations and the uniform measurement record.
use vstd::prelude::*;
use crate::text::{str_eq, lit};
use crate::value::{ValueMap, MapView, keys_unique};

verus! {

/// The kind of a managed device.
#[derive(Debug, Clone, Copy, PartialEq, Eq, Structural)]
pub enum DeviceType {
    Sensor,
    Actuator,
    Gateway,
    Controller,
    ModbusTcp,
    ModbusRtu,
    ModbusRtuOverTcp,
}

/// The name under which a device type is rendered.
pub open spec fn device_type_name(x: DeviceType) -> Seq<char> {
    match x {
        DeviceType::Sensor => "Sensor"@,
        DeviceType::Actuator => "Actuator"@,
        DeviceType::Gateway => "Gateway"@,
        DeviceType::Controller => "Controller"@,
        DeviceType::ModbusTcp => "ModbusTcp"@,
        DeviceType::ModbusRtu => "ModbusRtu"@,
        DeviceType::ModbusRtuOverTcp => "ModbusRtuOverTcp"@,
    }
}

/// The device type that a name selects.
pub open spec fn device_type_of_name(s: Seq<char>) -> Option<DeviceType> {
    if s == "Sensor"@ {
        Some(DeviceType::Sensor)
    } else if s == "Actuator"@ {
        Some(DeviceType::Actuator)
    } else if s == "Gateway"@ {
        Some(DeviceType::Gateway)
    } else if s == "Controller"@ {
        Some(DeviceType::Controller)
    } else if s == "ModbusTcp"@ {
        Some(DeviceType::ModbusTcp)
    } else if s == "ModbusRtu"@ {
        Some(DeviceType::ModbusRtu)
    } else if s == "ModbusRtuOverTcp"@ {
        Some(DeviceType::ModbusRtu)
    } else {
        None
    }
}

impl DeviceType {
    pub fn from_str(s: &str) -> (r: Option<DeviceType>)
        ensures
            r == device_type_of_name(s@),
    {
        if str_eq(s, "Sensor") {
            Some(DeviceType::Sensor)
        } else if str_eq(s, "Actuator") {
            Some(DeviceType::Actuator)
        } else if str_eq(s, "Gateway") {
            Some(DeviceType::Gateway)
        } else if str_eq(s, "Controller") {
            Some(DeviceType::Controller)
        } else if str_eq(s, "ModbusTcp") {
            Some(DeviceType::ModbusTcp)
        } else if str_eq(s, "ModbusRtu") {
            Some(DeviceType::ModbusRtu)
        } else if str_eq(s, "ModbusRtuOverTcp") {
            Some(DeviceType::ModbusRtu)
        } else {
            None
        }
    }

    pub fn to_string(&self) -> (r: String)
        ensures
            r@ == device_type_name(*self),
    {
        match self {
            DeviceType::Sensor => lit("Sensor"),
            DeviceType::Actuator => lit("Actuator"),
            DeviceType::Gateway => lit("Gateway"),
            DeviceType::Controller => lit("Controller"),
            DeviceType::ModbusTcp => lit("ModbusTcp"),
            DeviceType::ModbusRtu => lit("ModbusRtu"),
            DeviceType::ModbusRtuOverTcp => lit("ModbusRtuOverTcp"),
        }
    }
}

/// The reachability of a managed device.
#[derive(Debug, Clone, Copy, PartialEq, Eq, Structural)]
pub enum DeviceStatus {
    Online,
    Offline,
    Maintenance,
    Unknown,
}

/// The name under which a device status is rendered.
pub open spec fn device_status_name(x: DeviceStatus) -> Seq<char> {
    match x {
        DeviceStatus::Online => "Online"@,
        DeviceStatus::Offline => "Offline"@,
        DeviceStatus::Maintenance => "Maintenance"@,
        DeviceStatus::Unknown => "Unknown"@,
    }
}

/// The device status that a name selects.
pub open spec fn device_status_of_name(s: Seq<char>) -> Option<DeviceStatus> {
    if s == "Online"@ {
        Some(DeviceStatus::Online)
    } else if s == "Offline"@ {
        Some(DeviceStatus::Offline)
    } else if s == "Maintenance"@ {
        Some(DeviceStatus::Maintenance)
    } else if s == "Unknown"@ {
        Some(DeviceStatus::Unknown)
    } else {
        None
    }
}

impl DeviceStatus {
    pub fn from_str(s: &str) -> (r: Option<DeviceStatus>)
        ensures
            r == device_status_of_name(s@),
    {
        if str_eq(s, "Online") {
            Some(DeviceStatus::Online)
        } else if str_eq(s, "Offline") {
            Some(DeviceStatus::Offline)
        } else if str_eq(s, "Maintenance") {
            Some(DeviceStatus::Maintenance)
        } else if str_eq(s, "Unknown") {
            Some(DeviceStatus::Unknown)
        } else {
            None
        }
    }

    pub fn to_string(&self) -> (r: String)
        ensures
            r@ == device_status_name(*self),
    {
        match self {
            DeviceStatus::Online => lit("Online"),
            DeviceStatus::Offline => lit("Offline"),
            DeviceStatus::Maintenance => lit("Maintenance"),
            DeviceStatus::Unknown => lit("Unknown"),
        }
    }
}

/// The wire protocol a record was decoded from.
#[derive(Debug, Clone, Copy, PartialEq, Eq, Structural)]
pub enum DeviceProtocol {
    Unknown,
    ModbusTCP,
    ModbusRTU,
    OMS,
    MBUS,
    LoRaWAN,
    NBIoT,
    Tibber,
    IEC62056,
    SML,
    Victron,
    KNX,
}

/// The name under which a protocol is rendered.
pub open spec fn protocol_name(x: DeviceProtocol) -> Seq<char> {
    match x {
        DeviceProtocol::ModbusTCP => "Modbus TCP"@,
        DeviceProtocol::ModbusRTU => "Modbus RTU"@,
        DeviceProtocol::OMS => "OMS"@,
        DeviceProtocol::MBUS => "M-Bus"@,
        DeviceProtocol::LoRaWAN => "LoRaWAN"@,
        DeviceProtocol::NBIoT => "NBIoT"@,
        DeviceProtocol::Unknown => "Unknown"@,
        DeviceProtocol::Tibber => "Tibber"@,
        DeviceProtocol::IEC62056 => "IEC 62056-21"@,
        DeviceProtocol::SML => "SML"@,
        DeviceProtocol::Victron => "Victron"@,
        DeviceProtocol::KNX => "KNX"@,
    }
}

/// The protocol that a name selects.
pub open spec fn protocol_of_name(s: Seq<char>) -> Option<DeviceProtocol> {
    if s == "Modbus TCP"@ {
        Some(DeviceProtocol::ModbusTCP)
    } else if s == "Modbus RTU"@ {
        Some(DeviceProtocol::ModbusRTU)
    } else if s == "OMS"@ {
        Some(DeviceProtocol::OMS)
    } else if s == "M-Bus"@ {
        Some(DeviceProtocol::MBUS)
    } else if s == "LoRaWAN"@ {
        Some(DeviceProtocol::LoRaWAN)
    } else if s == "NBIoT"@ {
        Some(DeviceProtocol::NBIoT)
    } else if s == "Tibber"@ {
        Some(DeviceProtocol::Tibber)
    } else if s == "IEC 62056-21"@ {
        Some(DeviceProtocol::IEC62056)
    } else if s == "SML"@ {
        Some(DeviceProtocol::SML)
    } else if s == "Victron"@ {
        Some(DeviceProtocol::Victron)
    } else if s == "KNX"@ {
        Some(DeviceProtocol::KNX)
    } else {
        Some(DeviceProtocol::Unknown)
    }
}

impl DeviceProtocol {
    pub fn from_str(s: &str) -> (r: Option<DeviceProtocol>)
        ensures
            r == protocol_of_name(s@),
    {
        if str_eq(s, "Modbus TCP") {
            Some(DeviceProtocol::ModbusTCP)
        } else if str_eq(s, "Modbus RTU") {
            Some(DeviceProtocol::ModbusRTU)
        } else if str_eq(s, "OMS") {
            Some(DeviceProtocol::OMS)
        } else if str_eq(s, "M-Bus") {
            Some(DeviceProtocol::MBUS)
        } else if str_eq(s, "LoRaWAN") {
            Some(DeviceProtocol::LoRaWAN)
        } else if str_eq(s, "NBIoT") {
            Some(DeviceProtocol::NBIoT)
        } else if str_eq(s, "Tibber") {
            Some(DeviceProtocol::Tibber)
        } else if str_eq(s, "IEC 62056-21") {
            Some(DeviceProtocol::IEC62056)
        } else if str_eq(s, "SML") {
            Some(DeviceProtocol::SML)
        } else if str_eq(s, "Victron") {
            Some(DeviceProtocol::Victron)
        } else if str_eq(s, "KNX") {
            Some(DeviceProtocol::KNX)
        } else {
            Some(DeviceProtocol::Unknown)
        }
    }

    pub fn to_string(&self) -> (r: String)
        ensures
            r@ == protocol_name(*self),
    {
        match self {
            DeviceProtocol::ModbusTCP => lit("Modbus TCP"),
            DeviceProtocol::ModbusRTU => lit("Modbus RTU"),
            DeviceProtocol::OMS => lit("OMS"),
            DeviceProtocol::MBUS => lit("M-Bus"),
            DeviceProtocol::LoRaWAN => lit("LoRaWAN"),
            DeviceProtocol::NBIoT => lit("NBIoT"),
            DeviceProtocol::Unknown => lit("Unknown"),
            DeviceProtocol::Tibber => lit("Tibber"),
            DeviceProtocol::IEC62056 => lit("IEC 62056-21"),
            DeviceProtocol::SML => lit("SML"),
            DeviceProtocol::Victron => lit("Victron"),
            DeviceProtocol::KNX => lit("KNX"),
        }
    }
}

/// How the values of a record were sampled.
#[derive(Debug, Clone, Copy, PartialEq, Eq, Structural)]
pub enum TranmissionValueType {
    Now,
    Daily,
    Hourly,
    Monthly,
    KeyValue,
}

/// The uniform measurement record produced by every decoder.
pub struct MeteringData {
    pub id: String,
    pub meter_name: String,
    pub tenant: String,
    pub protocol: DeviceProtocol,
    pub transmission_time: u64,
    pub transmission_type: TranmissionValueType,
    pub metered_time: u64,
    pub metered_values: ValueMap,
}

impl MeteringData {
    /// Whether the record is consistent: metered no later than transmitted,
    /// and each field name present at most once.
    pub open spec fn wf(&self) -> bool {
        &&& self.metered_time <= self.transmission_time
        &&& keys_unique(self.metered_values@)
    }

    /// An empty record of unknown protocol, sampled now, at time zero.
    pub fn new() -> (r: MeteringData)
        ensures
            r.wf(),
            r.id@.len() == 0,
            r.meter_name@.len() == 0,
            r.tenant@.len() == 0,
            r.protocol == DeviceProtocol::Unknown,
            r.transmission_time == 0,
            r.metered_time == 0,
            r.transmission_type == TranmissionValueType::Now,
            r.metered_values@.len() == 0,
    {
        MeteringData {
            id: String::new(),
            meter_name: String::new(),
            tenant: String::new(),
            protocol: DeviceProtocol::Unknown,
            transmission_time: 0,
            transmission_type: TranmissionValueType::Now,
            metered_time: 0,
            metered_values: ValueMap::new(),
        }
    }
}

/// The identifier of a reading: `<protocol>-<meter name>-<time>`.
pub fn get_id(protocol: &str, meter_name: &String, now: u64) -> (r: String)
    ensures
        r@ == protocol@ + "-"@ + meter_name@ + "-"@ + crate::text::dec_str(now as nat),
{
    let mut v = crate::text::chars_of(protocol);
    crate::text::append_chars(&mut v, "-");
    crate::text::append_chars(&mut v, meter_name.as_str());
    crate::text::append_chars(&mut v, "-");
    crate::text::push_dec(&mut v, now);
    crate::text::string_of(&v)
}

} // verus!
