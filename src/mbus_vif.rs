//! The VIF tables of M-Bus data records: field name, power-of-ten exponent,
//! unit and post-processing for each value information field.
use vstd::prelude::*;
use crate::text::lit;

verus! {

/// How a decoded number is post-processed.
#[derive(Debug, Clone, Copy, PartialEq, Eq, Structural)]
pub enum VifFunc {
    /// Scaled by the power of ten.
    Plain,
    /// A duration whose unit the low two VIF bits select, converted to seconds.
    Duration,
    /// A date (type G) or date and time (type F).
    TimePoint,
    /// Rendered as upper-case hexadecimal.
    Binary,
}

/// One row of a VIF table.
pub struct VifEntry {
    pub name: String,
    pub exponent: i32,
    pub unit: String,
    pub func: VifFunc,
}

/// Abstract form of a VIF table row: name, exponent, unit, post-processing.
pub type VifRow = (Seq<char>, int, Seq<char>, VifFunc);

impl VifEntry {
    pub open spec fn row(&self) -> VifRow {
        (self.name@, self.exponent as int, self.unit@, self.func)
    }
}

fn entry(name: &str, exponent: i32, unit: &str, func: VifFunc) -> (r: VifEntry)
    ensures
        r.row() == (name@, exponent as int, unit@, func),
{
    VifEntry { name: lit(name), exponent, unit: lit(unit), func }
}

/// The primary VIF table, keyed by the VIF without its extension bit.
pub open spec fn vif_primary(v: u8) -> Option<VifRow> {
    let x = v & 0x7Fu8;
    if 0 <= x && x <= 7 {
        Some(("energy"@, ((x & 0x7u8) as int) - 3, "Wh"@, VifFunc::Plain))
    } else if 8 <= x && x <= 15 {
        Some(("energy"@, ((x & 0x7u8) as int) - 3, "J"@, VifFunc::Plain))
    } else if 16 <= x && x <= 23 {
        Some(("volume"@, ((x & 0x7u8) as int) - 6, "m³"@, VifFunc::Plain))
    } else if 24 <= x && x <= 31 {
        Some(("mass"@, ((x & 0x7u8) as int) - 3, "kg"@, VifFunc::Plain))
    } else if 32 <= x && x <= 35 {
        Some(("on_time"@, 0, "s"@, VifFunc::Duration))
    } else if 36 <= x && x <= 39 {
        Some(("operation_time"@, 0, "s"@, VifFunc::Duration))
    } else if 40 <= x && x <= 47 {
        Some(("power"@, ((x & 0x7u8) as int) - 3, "W"@, VifFunc::Plain))
    } else if 48 <= x && x <= 55 {
        Some(("power"@, ((x & 0x7u8) as int), "J/h"@, VifFunc::Plain))
    } else if 56 <= x && x <= 63 {
        Some(("volume_flow"@, ((x & 0x7u8) as int) - 6, "m³/h"@, VifFunc::Plain))
    } else if 64 <= x && x <= 71 {
        Some(("volume_flow_ext"@, ((x & 0x7u8) as int) - 7, "m³/min"@, VifFunc::Plain))
    } else if 72 <= x && x <= 79 {
        Some(("volume_flow_ext"@, ((x & 0x7u8) as int) - 9, "m³/s"@, VifFunc::Plain))
    } else if 80 <= x && x <= 87 {
        Some(("mass_flow"@, ((x & 0x7u8) as int) - 3, "kg/h"@, VifFunc::Plain))
    } else if 88 <= x && x <= 91 {
        Some(("flow_temperature"@, ((x & 0x3u8) as int) - 3, "°C"@, VifFunc::Plain))
    } else if 92 <= x && x <= 95 {
        Some(("return_temperature"@, ((x & 0x3u8) as int) - 3, "°C"@, VifFunc::Plain))
    } else if 96 <= x && x <= 99 {
        Some(("temperature_difference"@, ((x & 0x3u8) as int) - 3, "K"@, VifFunc::Plain))
    } else if 100 <= x && x <= 103 {
        Some(("external_temperature"@, ((x & 0x3u8) as int) - 3, "°C"@, VifFunc::Plain))
    } else if 104 <= x && x <= 107 {
        Some(("pressure"@, ((x & 0x3u8) as int) - 3, "bar"@, VifFunc::Plain))
    } else if 108 <= x && x <= 109 {
        Some(("time_of_readout"@, 0, ""@, VifFunc::TimePoint))
    } else if x == 110 {
        Some(("hca_units"@, 0, ""@, VifFunc::Plain))
    } else if 112 <= x && x <= 115 {
        Some(("averaging_duration"@, 0, "s"@, VifFunc::Duration))
    } else if 116 <= x && x <= 119 {
        Some(("actuality_duration"@, 0, "s"@, VifFunc::Duration))
    } else {
        None
    }
}

pub fn vif_primary_lookup(v: u8) -> (r: Option<VifEntry>)
    ensures
        match r {
            Some(e) => vif_primary(v) == Some(e.row()),
            None => vif_primary(v) is None,
        },
{
    let x = v & 0x7Fu8;
    if 0 <= x && x <= 7 {
        Some(entry("energy", ((x & 0x7u8) as i32) - 3, "Wh", VifFunc::Plain))
    } else if 8 <= x && x <= 15 {
        Some(entry("energy", ((x & 0x7u8) as i32) - 3, "J", VifFunc::Plain))
    } else if 16 <= x && x <= 23 {
        Some(entry("volume", ((x & 0x7u8) as i32) - 6, "m³", VifFunc::Plain))
    } else if 24 <= x && x <= 31 {
        Some(entry("mass", ((x & 0x7u8) as i32) - 3, "kg", VifFunc::Plain))
    } else if 32 <= x && x <= 35 {
        Some(entry("on_time", 0, "s", VifFunc::Duration))
    } else if 36 <= x && x <= 39 {
        Some(entry("operation_time", 0, "s", VifFunc::Duration))
    } else if 40 <= x && x <= 47 {
        Some(entry("power", ((x & 0x7u8) as i32) - 3, "W", VifFunc::Plain))
    } else if 48 <= x && x <= 55 {
        Some(entry("power", ((x & 0x7u8) as i32), "J/h", VifFunc::Plain))
    } else if 56 <= x && x <= 63 {
        Some(entry("volume_flow", ((x & 0x7u8) as i32) - 6, "m³/h", VifFunc::Plain))
    } else if 64 <= x && x <= 71 {
        Some(entry("volume_flow_ext", ((x & 0x7u8) as i32) - 7, "m³/min", VifFunc::Plain))
    } else if 72 <= x && x <= 79 {
        Some(entry("volume_flow_ext", ((x & 0x7u8) as i32) - 9, "m³/s", VifFunc::Plain))
    } else if 80 <= x && x <= 87 {
        Some(entry("mass_flow", ((x & 0x7u8) as i32) - 3, "kg/h", VifFunc::Plain))
    } else if 88 <= x && x <= 91 {
        Some(entry("flow_temperature", ((x & 0x3u8) as i32) - 3, "°C", VifFunc::Plain))
    } else if 92 <= x && x <= 95 {
        Some(entry("return_temperature", ((x & 0x3u8) as i32) - 3, "°C", VifFunc::Plain))
    } else if 96 <= x && x <= 99 {
        Some(entry("temperature_difference", ((x & 0x3u8) as i32) - 3, "K", VifFunc::Plain))
    } else if 100 <= x && x <= 103 {
        Some(entry("external_temperature", ((x & 0x3u8) as i32) - 3, "°C", VifFunc::Plain))
    } else if 104 <= x && x <= 107 {
        Some(entry("pressure", ((x & 0x3u8) as i32) - 3, "bar", VifFunc::Plain))
    } else if 108 <= x && x <= 109 {
        Some(entry("time_of_readout", 0, "", VifFunc::TimePoint))
    } else if x == 110 {
        Some(entry("hca_units", 0, "", VifFunc::Plain))
    } else if 112 <= x && x <= 115 {
        Some(entry("averaging_duration", 0, "s", VifFunc::Duration))
    } else if 116 <= x && x <= 119 {
        Some(entry("actuality_duration", 0, "s", VifFunc::Duration))
    } else {
        None
    }
}

/// The 0xFB extension VIF table, keyed by the VIF without its extension bit.
pub open spec fn vif_fb(v: u8) -> Option<VifRow> {
    let x = v & 0x7Fu8;
    if 0 <= x && x <= 1 {
        Some(("energy"@, ((x & 0x1u8) as int) - 1, "MWh"@, VifFunc::Plain))
    } else if 8 <= x && x <= 9 {
        Some(("energy"@, ((x & 0x1u8) as int) - 1, "GJ"@, VifFunc::Plain))
    } else if 16 <= x && x <= 17 {
        Some(("volume"@, ((x & 0x1u8) as int) + 2, "m³"@, VifFunc::Plain))
    } else if 24 <= x && x <= 25 {
        Some(("mass"@, ((x & 0x1u8) as int) + 2, "t"@, VifFunc::Plain))
    } else if x == 33 {
        Some(("volume"@, -1, "feet³"@, VifFunc::Plain))
    } else if x == 34 {
        Some(("volume"@, -1, "american_gallon"@, VifFunc::Plain))
    } else if x == 35 {
        Some(("volume"@, 0, "american_gallon"@, VifFunc::Plain))
    } else if x == 36 {
        Some(("volume_flow"@, -3, "american_gallon/min"@, VifFunc::Plain))
    } else if x == 37 {
        Some(("volume_flow"@, 0, "american_gallon/min"@, VifFunc::Plain))
    } else if x == 38 {
        Some(("volume_flow"@, 0, "american_gallon/h"@, VifFunc::Plain))
    } else if 40 <= x && x <= 41 {
        Some(("power"@, ((x & 0x1u8) as int) - 1, "MW"@, VifFunc::Plain))
    } else if 48 <= x && x <= 49 {
        Some(("power"@, ((x & 0x1u8) as int) - 1, "GJ/h"@, VifFunc::Plain))
    } else if 88 <= x && x <= 91 {
        Some(("flow_temperature"@, ((x & 0x3u8) as int) - 3, "°F"@, VifFunc::Plain))
    } else if 92 <= x && x <= 95 {
        Some(("return_temperature"@, ((x & 0x3u8) as int) - 3, "°F"@, VifFunc::Plain))
    } else if 96 <= x && x <= 99 {
        Some(("temperature_difference"@, ((x & 0x3u8) as int) - 3, "°F"@, VifFunc::Plain))
    } else if 100 <= x && x <= 103 {
        Some(("external_temperature"@, ((x & 0x3u8) as int) - 3, "°F"@, VifFunc::Plain))
    } else if 112 <= x && x <= 115 {
        Some(("cold_warm_temperature_limit"@, ((x & 0x3u8) as int) - 3, "°F"@, VifFunc::Plain))
    } else if 116 <= x && x <= 119 {
        Some(("cold_warm_temperature_limit"@, ((x & 0x3u8) as int) - 3, "°C"@, VifFunc::Plain))
    } else if 120 <= x && x <= 127 {
        Some(("cumul_count_max_power"@, ((x & 0x7u8) as int) - 3, "W"@, VifFunc::Plain))
    } else {
        None
    }
}

pub fn vif_fb_lookup(v: u8) -> (r: Option<VifEntry>)
    ensures
        match r {
            Some(e) => vif_fb(v) == Some(e.row()),
            None => vif_fb(v) is None,
        },
{
    let x = v & 0x7Fu8;
    if 0 <= x && x <= 1 {
        Some(entry("energy", ((x & 0x1u8) as i32) - 1, "MWh", VifFunc::Plain))
    } else if 8 <= x && x <= 9 {
        Some(entry("energy", ((x & 0x1u8) as i32) - 1, "GJ", VifFunc::Plain))
    } else if 16 <= x && x <= 17 {
        Some(entry("volume", ((x & 0x1u8) as i32) + 2, "m³", VifFunc::Plain))
    } else if 24 <= x && x <= 25 {
        Some(entry("mass", ((x & 0x1u8) as i32) + 2, "t", VifFunc::Plain))
    } else if x == 33 {
        Some(entry("volume", -1, "feet³", VifFunc::Plain))
    } else if x == 34 {
        Some(entry("volume", -1, "american_gallon", VifFunc::Plain))
    } else if x == 35 {
        Some(entry("volume", 0, "american_gallon", VifFunc::Plain))
    } else if x == 36 {
        Some(entry("volume_flow", -3, "american_gallon/min", VifFunc::Plain))
    } else if x == 37 {
        Some(entry("volume_flow", 0, "american_gallon/min", VifFunc::Plain))
    } else if x == 38 {
        Some(entry("volume_flow", 0, "american_gallon/h", VifFunc::Plain))
    } else if 40 <= x && x <= 41 {
        Some(entry("power", ((x & 0x1u8) as i32) - 1, "MW", VifFunc::Plain))
    } else if 48 <= x && x <= 49 {
        Some(entry("power", ((x & 0x1u8) as i32) - 1, "GJ/h", VifFunc::Plain))
    } else if 88 <= x && x <= 91 {
        Some(entry("flow_temperature", ((x & 0x3u8) as i32) - 3, "°F", VifFunc::Plain))
    } else if 92 <= x && x <= 95 {
        Some(entry("return_temperature", ((x & 0x3u8) as i32) - 3, "°F", VifFunc::Plain))
    } else if 96 <= x && x <= 99 {
        Some(entry("temperature_difference", ((x & 0x3u8) as i32) - 3, "°F", VifFunc::Plain))
    } else if 100 <= x && x <= 103 {
        Some(entry("external_temperature", ((x & 0x3u8) as i32) - 3, "°F", VifFunc::Plain))
    } else if 112 <= x && x <= 115 {
        Some(entry("cold_warm_temperature_limit", ((x & 0x3u8) as i32) - 3, "°F", VifFunc::Plain))
    } else if 116 <= x && x <= 119 {
        Some(entry("cold_warm_temperature_limit", ((x & 0x3u8) as i32) - 3, "°C", VifFunc::Plain))
    } else if 120 <= x && x <= 127 {
        Some(entry("cumul_count_max_power", ((x & 0x7u8) as i32) - 3, "W", VifFunc::Plain))
    } else {
        None
    }
}

/// The 0xFD extension VIF table, keyed by the VIF without its extension bit.
pub open spec fn vif_fd(v: u8) -> Option<VifRow> {
    let x = v & 0x7Fu8;
    if 0 <= x && x <= 3 {
        Some(("credit"@, ((x & 0x3u8) as int) - 3, "currency_units"@, VifFunc::Plain))
    } else if 4 <= x && x <= 7 {
        Some(("debit"@, ((x & 0x3u8) as int) - 3, "currency_units"@, VifFunc::Plain))
    } else if x == 8 {
        Some(("access_number"@, 0, "count"@, VifFunc::Plain))
    } else if x == 9 {
        Some(("medium"@, 0, ""@, VifFunc::Plain))
    } else if x == 10 {
        Some(("manufacturer"@, 0, ""@, VifFunc::Plain))
    } else if x == 11 {
        Some(("parameter_set_identification"@, 0, ""@, VifFunc::Plain))
    } else if x == 12 {
        Some(("model_version"@, 0, ""@, VifFunc::Plain))
    } else if x == 13 {
        Some(("hardware_version"@, 0, ""@, VifFunc::Plain))
    } else if x == 14 {
        Some(("firmware_version"@, 0, ""@, VifFunc::Plain))
    } else if x == 15 {
        Some(("software_version"@, 0, ""@, VifFunc::Plain))
    } else if x == 16 {
        Some(("customer_location"@, 0, ""@, VifFunc::Plain))
    } else if x == 17 {
        Some(("customer"@, 0, ""@, VifFunc::Plain))
    } else if x == 18 {
        Some(("access_code_user"@, 0, ""@, VifFunc::Plain))
    } else if x == 19 {
        Some(("access_code_operator"@, 0, ""@, VifFunc::Plain))
    } else if x == 20 {
        Some(("access_code_system_operator"@, 0, ""@, VifFunc::Plain))
    } else if x == 21 {
        Some(("access_code_developer"@, 0, ""@, VifFunc::Plain))
    } else if x == 22 {
        Some(("password"@, 0, ""@, VifFunc::Plain))
    } else if x == 23 {
        Some(("error_flags"@, 0, ""@, VifFunc::Binary))
    } else if x == 24 {
        Some(("error_mask"@, 0, ""@, VifFunc::Plain))
    } else if x == 25 {
        Some(("reserved_0x19"@, 0, ""@, VifFunc::Plain))
    } else if x == 26 {
        Some(("digital_output"@, 0, ""@, VifFunc::Binary))
    } else if x == 27 {
        Some(("digital_input"@, 0, ""@, VifFunc::Binary))
    } else if x == 28 {
        Some(("baudrate"@, 0, "Baud"@, VifFunc::Plain))
    } else if x == 29 {
        Some(("response_delay_time"@, 0, "bittimes"@, VifFunc::Plain))
    } else if x == 30 {
        Some(("retry"@, 0, ""@, VifFunc::Plain))
    } else if x == 31 {
        Some(("reserved_0x1f"@, 0, ""@, VifFunc::Plain))
    } else if x == 32 {
        Some(("first_storage_for_cyclic_storage"@, 0, ""@, VifFunc::Plain))
    } else if x == 33 {
        Some(("last_storage_for_cyclic_storage"@, 0, ""@, VifFunc::Plain))
    } else if x == 34 {
        Some(("size_of_storage_block"@, 0, ""@, VifFunc::Plain))
    } else if x == 35 {
        Some(("reserved_0x23"@, 0, ""@, VifFunc::Plain))
    } else if 36 <= x && x <= 39 {
        Some(("storage_interval"@, 0, "time"@, VifFunc::Plain))
    } else if x == 40 {
        Some(("storage_interval_months"@, 0, "months"@, VifFunc::Plain))
    } else if x == 41 {
        Some(("storage_interval_years"@, 0, "years"@, VifFunc::Plain))
    } else if x == 42 {
        Some(("reserved_0x2a"@, 0, ""@, VifFunc::Plain))
    } else if x == 43 {
        Some(("reserved_0x2b"@, 0, ""@, VifFunc::Plain))
    } else if 44 <= x && x <= 47 {
        Some(("duration_since_last_readout"@, 0, "time"@, VifFunc::Plain))
    } else if x == 48 {
        Some(("start_of_tariff"@, 0, "datetime"@, VifFunc::Plain))
    } else if 49 <= x && x <= 51 {
        Some(("duration_of_tariff"@, 0, "time"@, VifFunc::Plain))
    } else if 52 <= x && x <= 55 {
        Some(("period_of_tariff"@, 0, "time"@, VifFunc::Plain))
    } else if x == 56 {
        Some(("period_of_tariff_months"@, 0, "months"@, VifFunc::Plain))
    } else if x == 57 {
        Some(("period_of_tariff_years"@, 0, "years"@, VifFunc::Plain))
    } else if x == 58 {
        Some(("dimensionless"@, 0, ""@, VifFunc::Plain))
    } else if x == 59 {
        Some(("reserved_0x3b"@, 0, ""@, VifFunc::Plain))
    } else if 60 <= x && x <= 63 {
        Some(("reserved_0x3c_0x3f"@, 0, ""@, VifFunc::Plain))
    } else if 64 <= x && x <= 79 {
        Some(("voltage"@, ((x & 0xFu8) as int) - 9, "V"@, VifFunc::Plain))
    } else if 80 <= x && x <= 95 {
        Some(("current"@, ((x & 0xFu8) as int) - 12, "A"@, VifFunc::Plain))
    } else {
        None
    }
}

pub fn vif_fd_lookup(v: u8) -> (r: Option<VifEntry>)
    ensures
        match r {
            Some(e) => vif_fd(v) == Some(e.row()),
            None => vif_fd(v) is None,
        },
{
    let x = v & 0x7Fu8;
    if 0 <= x && x <= 3 {
        Some(entry("credit", ((x & 0x3u8) as i32) - 3, "currency_units", VifFunc::Plain))
    } else if 4 <= x && x <= 7 {
        Some(entry("debit", ((x & 0x3u8) as i32) - 3, "currency_units", VifFunc::Plain))
    } else if x == 8 {
        Some(entry("access_number", 0, "count", VifFunc::Plain))
    } else if x == 9 {
        Some(entry("medium", 0, "", VifFunc::Plain))
    } else if x == 10 {
        Some(entry("manufacturer", 0, "", VifFunc::Plain))
    } else if x == 11 {
        Some(entry("parameter_set_identification", 0, "", VifFunc::Plain))
    } else if x == 12 {
        Some(entry("model_version", 0, "", VifFunc::Plain))
    } else if x == 13 {
        Some(entry("hardware_version", 0, "", VifFunc::Plain))
    } else if x == 14 {
        Some(entry("firmware_version", 0, "", VifFunc::Plain))
    } else if x == 15 {
        Some(entry("software_version", 0, "", VifFunc::Plain))
    } else if x == 16 {
        Some(entry("customer_location", 0, "", VifFunc::Plain))
    } else if x == 17 {
        Some(entry("customer", 0, "", VifFunc::Plain))
    } else if x == 18 {
        Some(entry("access_code_user", 0, "", VifFunc::Plain))
    } else if x == 19 {
        Some(entry("access_code_operator", 0, "", VifFunc::Plain))
    } else if x == 20 {
        Some(entry("access_code_system_operator", 0, "", VifFunc::Plain))
    } else if x == 21 {
        Some(entry("access_code_developer", 0, "", VifFunc::Plain))
    } else if x == 22 {
        Some(entry("password", 0, "", VifFunc::Plain))
    } else if x == 23 {
        Some(entry("error_flags", 0, "", VifFunc::Binary))
    } else if x == 24 {
        Some(entry("error_mask", 0, "", VifFunc::Plain))
    } else if x == 25 {
        Some(entry("reserved_0x19", 0, "", VifFunc::Plain))
    } else if x == 26 {
        Some(entry("digital_output", 0, "", VifFunc::Binary))
    } else if x == 27 {
        Some(entry("digital_input", 0, "", VifFunc::Binary))
    } else if x == 28 {
        Some(entry("baudrate", 0, "Baud", VifFunc::Plain))
    } else if x == 29 {
        Some(entry("response_delay_time", 0, "bittimes", VifFunc::Plain))
    } else if x == 30 {
        Some(entry("retry", 0, "", VifFunc::Plain))
    } else if x == 31 {
        Some(entry("reserved_0x1f", 0, "", VifFunc::Plain))
    } else if x == 32 {
        Some(entry("first_storage_for_cyclic_storage", 0, "", VifFunc::Plain))
    } else if x == 33 {
        Some(entry("last_storage_for_cyclic_storage", 0, "", VifFunc::Plain))
    } else if x == 34 {
        Some(entry("size_of_storage_block", 0, "", VifFunc::Plain))
    } else if x == 35 {
        Some(entry("reserved_0x23", 0, "", VifFunc::Plain))
    } else if 36 <= x && x <= 39 {
        Some(entry("storage_interval", 0, "time", VifFunc::Plain))
    } else if x == 40 {
        Some(entry("storage_interval_months", 0, "months", VifFunc::Plain))
    } else if x == 41 {
        Some(entry("storage_interval_years", 0, "years", VifFunc::Plain))
    } else if x == 42 {
        Some(entry("reserved_0x2a", 0, "", VifFunc::Plain))
    } else if x == 43 {
        Some(entry("reserved_0x2b", 0, "", VifFunc::Plain))
    } else if 44 <= x && x <= 47 {
        Some(entry("duration_since_last_readout", 0, "time", VifFunc::Plain))
    } else if x == 48 {
        Some(entry("start_of_tariff", 0, "datetime", VifFunc::Plain))
    } else if 49 <= x && x <= 51 {
        Some(entry("duration_of_tariff", 0, "time", VifFunc::Plain))
    } else if 52 <= x && x <= 55 {
        Some(entry("period_of_tariff", 0, "time", VifFunc::Plain))
    } else if x == 56 {
        Some(entry("period_of_tariff_months", 0, "months", VifFunc::Plain))
    } else if x == 57 {
        Some(entry("period_of_tariff_years", 0, "years", VifFunc::Plain))
    } else if x == 58 {
        Some(entry("dimensionless", 0, "", VifFunc::Plain))
    } else if x == 59 {
        Some(entry("reserved_0x3b", 0, "", VifFunc::Plain))
    } else if 60 <= x && x <= 63 {
        Some(entry("reserved_0x3c_0x3f", 0, "", VifFunc::Plain))
    } else if 64 <= x && x <= 79 {
        Some(entry("voltage", ((x & 0xFu8) as i32) - 9, "V", VifFunc::Plain))
    } else if 80 <= x && x <= 95 {
        Some(entry("current", ((x & 0xFu8) as i32) - 12, "A", VifFunc::Plain))
    } else {
        None
    }
}

} // verus!
