//! The fixed OBIS code tables, each as a specification and as a builder.
use vstd::prelude::*;
use crate::table::{StrTable, TableView};

verus! {

/// The standard OBIS codes and their descriptions.
pub open spec fn standard_descriptions() -> TableView {
    seq![
        ("1-0:1.8.0"@, "Active energy + (total)"@),
        ("1-0:1.8.1"@, "Active energy + (tariff 1)"@),
        ("1-0:1.8.2"@, "Active energy + (tariff 2)"@),
        ("1-0:2.8.0"@, "Active energy - (total)"@),
        ("1-0:2.8.1"@, "Active energy - (tariff 1)"@),
        ("1-0:2.8.2"@, "Active energy - (tariff 2)"@),
        ("1-0:15.8.0"@, "Absolute active energy total"@),
        ("1-0:1.7.0"@, "Active power + (total)"@),
        ("1-0:2.7.0"@, "Active power - (total)"@),
        ("1-0:15.7.0"@, "Absolute active instantaneous power"@),
        ("1-0:21.7.0"@, "Active power + (L1)"@),
        ("1-0:41.7.0"@, "Active power + (L2)"@),
        ("1-0:61.7.0"@, "Active power + (L3)"@),
        ("1-0:32.7.0"@, "Voltage (L1)"@),
        ("1-0:52.7.0"@, "Voltage (L2)"@),
        ("1-0:72.7.0"@, "Voltage (L3)"@),
        ("1-0:31.7.0"@, "Current (L1)"@),
        ("1-0:51.7.0"@, "Current (L2)"@),
        ("1-0:71.7.0"@, "Current (L3)"@),
        ("1-0:3.8.0"@, "Reactive energy + (total)"@),
        ("1-0:4.8.0"@, "Reactive energy - (total)"@),
        ("1-0:3.7.0"@, "Reactive power + (total)"@),
        ("1-0:4.7.0"@, "Reactive power - (total)"@),
        ("0-0:1.0.0"@, "Date and time"@),
        ("0-0:0.0.0"@, "Device ID"@),
        ("0-0:0.0.1"@, "Device ID 1"@),
        ("0-0:0.2.0"@, "Firmware version"@),
        ("1-0:14.7.0"@, "Supply frequency"@),
        ("1-0:0.0.0"@, "Equipment identifier"@),
        ("1-0:0.0.9"@, "Date and time"@),
        ("1-0:32.32.0"@, "Number of voltage sags (L1)"@),
        ("1-0:52.32.0"@, "Number of voltage sags (L2)"@),
        ("1-0:72.32.0"@, "Number of voltage sags (L3)"@),
        ("1-0:16.7.0"@, "Sum active instantaneous power"@),
        ("1-0:36.7.0"@, "Sum reactive instantaneous power"@),
        ("1-0:13.7.0"@, "Power factor"@),
    ]
}

pub fn build_standard_descriptions() -> (r: StrTable)
    ensures
        r@ == standard_descriptions(),
{
    let mut t = StrTable::new();
    t.entry("1-0:1.8.0", "Active energy + (total)");
    t.entry("1-0:1.8.1", "Active energy + (tariff 1)");
    t.entry("1-0:1.8.2", "Active energy + (tariff 2)");
    t.entry("1-0:2.8.0", "Active energy - (total)");
    t.entry("1-0:2.8.1", "Active energy - (tariff 1)");
    t.entry("1-0:2.8.2", "Active energy - (tariff 2)");
    t.entry("1-0:15.8.0", "Absolute active energy total");
    t.entry("1-0:1.7.0", "Active power + (total)");
    t.entry("1-0:2.7.0", "Active power - (total)");
    t.entry("1-0:15.7.0", "Absolute active instantaneous power");
    t.entry("1-0:21.7.0", "Active power + (L1)");
    t.entry("1-0:41.7.0", "Active power + (L2)");
    t.entry("1-0:61.7.0", "Active power + (L3)");
    t.entry("1-0:32.7.0", "Voltage (L1)");
    t.entry("1-0:52.7.0", "Voltage (L2)");
    t.entry("1-0:72.7.0", "Voltage (L3)");
    t.entry("1-0:31.7.0", "Current (L1)");
    t.entry("1-0:51.7.0", "Current (L2)");
    t.entry("1-0:71.7.0", "Current (L3)");
    t.entry("1-0:3.8.0", "Reactive energy + (total)");
    t.entry("1-0:4.8.0", "Reactive energy - (total)");
    t.entry("1-0:3.7.0", "Reactive power + (total)");
    t.entry("1-0:4.7.0", "Reactive power - (total)");
    t.entry("0-0:1.0.0", "Date and time");
    t.entry("0-0:0.0.0", "Device ID");
    t.entry("0-0:0.0.1", "Device ID 1");
    t.entry("0-0:0.2.0", "Firmware version");
    t.entry("1-0:14.7.0", "Supply frequency");
    t.entry("1-0:0.0.0", "Equipment identifier");
    t.entry("1-0:0.0.9", "Date and time");
    t.entry("1-0:32.32.0", "Number of voltage sags (L1)");
    t.entry("1-0:52.32.0", "Number of voltage sags (L2)");
    t.entry("1-0:72.32.0", "Number of voltage sags (L3)");
    t.entry("1-0:16.7.0", "Sum active instantaneous power");
    t.entry("1-0:36.7.0", "Sum reactive instantaneous power");
    t.entry("1-0:13.7.0", "Power factor");
    assert(t@ =~= standard_descriptions());
    t
}

/// EasyMeter Q3D codes and the field names they are published under.
pub open spec fn easymeter_names() -> TableView {
    seq![
        ("1-0:1.8.0"@, "total_energy_consumed"@),
        ("1-0:2.8.0"@, "total_energy_delivered"@),
        ("1-0:15.7.0"@, "current_power"@),
        ("1-0:32.7.0"@, "voltage_l1"@),
        ("1-0:52.7.0"@, "voltage_l2"@),
        ("1-0:72.7.0"@, "voltage_l3"@),
        ("1-0:31.7.0"@, "current_l1"@),
        ("1-0:51.7.0"@, "current_l2"@),
        ("1-0:71.7.0"@, "current_l3"@),
        ("0-0:1.0.0"@, "timestamp"@),
    ]
}

pub fn build_easymeter_names() -> (r: StrTable)
    ensures
        r@ == easymeter_names(),
{
    let mut t = StrTable::new();
    t.entry("1-0:1.8.0", "total_energy_consumed");
    t.entry("1-0:2.8.0", "total_energy_delivered");
    t.entry("1-0:15.7.0", "current_power");
    t.entry("1-0:32.7.0", "voltage_l1");
    t.entry("1-0:52.7.0", "voltage_l2");
    t.entry("1-0:72.7.0", "voltage_l3");
    t.entry("1-0:31.7.0", "current_l1");
    t.entry("1-0:51.7.0", "current_l2");
    t.entry("1-0:71.7.0", "current_l3");
    t.entry("0-0:1.0.0", "timestamp");
    assert(t@ =~= easymeter_names());
    t
}

/// EBZ DD3 codes and the field names they are published under.
pub open spec fn ebz_names() -> TableView {
    seq![
        ("1-0:1.8.1"@, "energy_consumed_t1"@),
        ("1-0:1.8.2"@, "energy_consumed_t2"@),
        ("1-0:2.8.1"@, "energy_delivered_t1"@),
        ("1-0:2.8.2"@, "energy_delivered_t2"@),
        ("1-0:16.7.0"@, "sum_active_power"@),
        ("1-0:36.7.0"@, "sum_reactive_power"@),
        ("1-0:21.7.0"@, "active_power_l1"@),
        ("1-0:41.7.0"@, "active_power_l2"@),
        ("1-0:61.7.0"@, "active_power_l3"@),
        ("1-0:32.7.0"@, "voltage_l1"@),
        ("1-0:52.7.0"@, "voltage_l2"@),
        ("1-0:72.7.0"@, "voltage_l3"@),
        ("1-0:31.7.0"@, "current_l1"@),
        ("1-0:51.7.0"@, "current_l2"@),
        ("1-0:71.7.0"@, "current_l3"@),
        ("1-0:13.7.0"@, "power_factor"@),
        ("1-0:14.7.0"@, "frequency"@),
        ("0-0:1.0.0"@, "timestamp"@),
    ]
}

pub fn build_ebz_names() -> (r: StrTable)
    ensures
        r@ == ebz_names(),
{
    let mut t = StrTable::new();
    t.entry("1-0:1.8.1", "energy_consumed_t1");
    t.entry("1-0:1.8.2", "energy_consumed_t2");
    t.entry("1-0:2.8.1", "energy_delivered_t1");
    t.entry("1-0:2.8.2", "energy_delivered_t2");
    t.entry("1-0:16.7.0", "sum_active_power");
    t.entry("1-0:36.7.0", "sum_reactive_power");
    t.entry("1-0:21.7.0", "active_power_l1");
    t.entry("1-0:41.7.0", "active_power_l2");
    t.entry("1-0:61.7.0", "active_power_l3");
    t.entry("1-0:32.7.0", "voltage_l1");
    t.entry("1-0:52.7.0", "voltage_l2");
    t.entry("1-0:72.7.0", "voltage_l3");
    t.entry("1-0:31.7.0", "current_l1");
    t.entry("1-0:51.7.0", "current_l2");
    t.entry("1-0:71.7.0", "current_l3");
    t.entry("1-0:13.7.0", "power_factor");
    t.entry("1-0:14.7.0", "frequency");
    t.entry("0-0:1.0.0", "timestamp");
    assert(t@ =~= ebz_names());
    t
}

/// Field names of the EasyMeter IEC 62056-21 meter definition.
pub open spec fn iec_easymeter_names() -> TableView {
    seq![
        ("1-0:1.8.0"@, "total_energy_consumed"@),
        ("1-0:2.8.0"@, "total_energy_delivered"@),
        ("1-0:1.8.1"@, "energy_consumed_t1"@),
        ("1-0:1.8.2"@, "energy_consumed_t2"@),
        ("1-0:2.8.1"@, "energy_delivered_t1"@),
        ("1-0:2.8.2"@, "energy_delivered_t2"@),
        ("1-0:15.7.0"@, "current_power"@),
        ("1-0:32.7.0"@, "voltage_l1"@),
        ("1-0:52.7.0"@, "voltage_l2"@),
        ("1-0:72.7.0"@, "voltage_l3"@),
        ("1-0:31.7.0"@, "current_l1"@),
        ("1-0:51.7.0"@, "current_l2"@),
        ("1-0:71.7.0"@, "current_l3"@),
        ("1-0:14.7.0"@, "frequency"@),
        ("0-0:1.0.0"@, "timestamp"@),
        ("1-0:0.0.0"@, "equipment_identifier"@),
        ("1-0:32.32.0"@, "voltage_sags_l1"@),
        ("1-0:52.32.0"@, "voltage_sags_l2"@),
        ("1-0:72.32.0"@, "voltage_sags_l3"@),
    ]
}

pub fn build_iec_easymeter_names() -> (r: StrTable)
    ensures
        r@ == iec_easymeter_names(),
{
    let mut t = StrTable::new();
    t.entry("1-0:1.8.0", "total_energy_consumed");
    t.entry("1-0:2.8.0", "total_energy_delivered");
    t.entry("1-0:1.8.1", "energy_consumed_t1");
    t.entry("1-0:1.8.2", "energy_consumed_t2");
    t.entry("1-0:2.8.1", "energy_delivered_t1");
    t.entry("1-0:2.8.2", "energy_delivered_t2");
    t.entry("1-0:15.7.0", "current_power");
    t.entry("1-0:32.7.0", "voltage_l1");
    t.entry("1-0:52.7.0", "voltage_l2");
    t.entry("1-0:72.7.0", "voltage_l3");
    t.entry("1-0:31.7.0", "current_l1");
    t.entry("1-0:51.7.0", "current_l2");
    t.entry("1-0:71.7.0", "current_l3");
    t.entry("1-0:14.7.0", "frequency");
    t.entry("0-0:1.0.0", "timestamp");
    t.entry("1-0:0.0.0", "equipment_identifier");
    t.entry("1-0:32.32.0", "voltage_sags_l1");
    t.entry("1-0:52.32.0", "voltage_sags_l2");
    t.entry("1-0:72.32.0", "voltage_sags_l3");
    assert(t@ =~= iec_easymeter_names());
    t
}

/// Field names of the EBZ IEC 62056-21 meter definition.
pub open spec fn iec_ebz_names() -> TableView {
    seq![
        ("1-0:1.8.1"@, "energy_consumed_t1"@),
        ("1-0:1.8.2"@, "energy_consumed_t2"@),
        ("1-0:2.8.1"@, "energy_delivered_t1"@),
        ("1-0:2.8.2"@, "energy_delivered_t2"@),
        ("1-0:15.8.0"@, "absolute_energy_total"@),
        ("1-0:16.7.0"@, "sum_active_power"@),
        ("1-0:36.7.0"@, "sum_reactive_power"@),
        ("1-0:21.7.0"@, "active_power_l1"@),
        ("1-0:41.7.0"@, "active_power_l2"@),
        ("1-0:61.7.0"@, "active_power_l3"@),
        ("1-0:32.7.0"@, "voltage_l1"@),
        ("1-0:52.7.0"@, "voltage_l2"@),
        ("1-0:72.7.0"@, "voltage_l3"@),
        ("1-0:31.7.0"@, "current_l1"@),
        ("1-0:51.7.0"@, "current_l2"@),
        ("1-0:71.7.0"@, "current_l3"@),
        ("1-0:13.7.0"@, "power_factor"@),
        ("1-0:14.7.0"@, "frequency"@),
        ("0-0:1.0.0"@, "timestamp"@),
        ("0-0:0.0.0"@, "device_id"@),
    ]
}

pub fn build_iec_ebz_names() -> (r: StrTable)
    ensures
        r@ == iec_ebz_names(),
{
    let mut t = StrTable::new();
    t.entry("1-0:1.8.1", "energy_consumed_t1");
    t.entry("1-0:1.8.2", "energy_consumed_t2");
    t.entry("1-0:2.8.1", "energy_delivered_t1");
    t.entry("1-0:2.8.2", "energy_delivered_t2");
    t.entry("1-0:15.8.0", "absolute_energy_total");
    t.entry("1-0:16.7.0", "sum_active_power");
    t.entry("1-0:36.7.0", "sum_reactive_power");
    t.entry("1-0:21.7.0", "active_power_l1");
    t.entry("1-0:41.7.0", "active_power_l2");
    t.entry("1-0:61.7.0", "active_power_l3");
    t.entry("1-0:32.7.0", "voltage_l1");
    t.entry("1-0:52.7.0", "voltage_l2");
    t.entry("1-0:72.7.0", "voltage_l3");
    t.entry("1-0:31.7.0", "current_l1");
    t.entry("1-0:51.7.0", "current_l2");
    t.entry("1-0:71.7.0", "current_l3");
    t.entry("1-0:13.7.0", "power_factor");
    t.entry("1-0:14.7.0", "frequency");
    t.entry("0-0:1.0.0", "timestamp");
    t.entry("0-0:0.0.0", "device_id");
    assert(t@ =~= iec_ebz_names());
    t
}

/// Field names of EMH SML meters.
pub open spec fn sml_emh_names() -> TableView {
    seq![
        ("1-0:1.8.0"@, "total_energy_consumed"@),
        ("1-0:2.8.0"@, "total_energy_delivered"@),
        ("1-0:16.7.0"@, "current_power"@),
        ("1-0:21.7.0"@, "active_power_l1"@),
        ("1-0:41.7.0"@, "active_power_l2"@),
        ("1-0:61.7.0"@, "active_power_l3"@),
        ("1-0:32.7.0"@, "voltage_l1"@),
        ("1-0:52.7.0"@, "voltage_l2"@),
        ("1-0:72.7.0"@, "voltage_l3"@),
        ("1-0:31.7.0"@, "current_l1"@),
        ("1-0:51.7.0"@, "current_l2"@),
        ("1-0:71.7.0"@, "current_l3"@),
        ("1-0:14.7.0"@, "frequency"@),
        ("129-129:199.130.3"@, "manufacturer"@),
        ("1-0:0.0.0"@, "device_id"@),
        ("1-0:0.0.9"@, "timestamp"@),
    ]
}

pub fn build_sml_emh_names() -> (r: StrTable)
    ensures
        r@ == sml_emh_names(),
{
    let mut t = StrTable::new();
    t.entry("1-0:1.8.0", "total_energy_consumed");
    t.entry("1-0:2.8.0", "total_energy_delivered");
    t.entry("1-0:16.7.0", "current_power");
    t.entry("1-0:21.7.0", "active_power_l1");
    t.entry("1-0:41.7.0", "active_power_l2");
    t.entry("1-0:61.7.0", "active_power_l3");
    t.entry("1-0:32.7.0", "voltage_l1");
    t.entry("1-0:52.7.0", "voltage_l2");
    t.entry("1-0:72.7.0", "voltage_l3");
    t.entry("1-0:31.7.0", "current_l1");
    t.entry("1-0:51.7.0", "current_l2");
    t.entry("1-0:71.7.0", "current_l3");
    t.entry("1-0:14.7.0", "frequency");
    t.entry("129-129:199.130.3", "manufacturer");
    t.entry("1-0:0.0.0", "device_id");
    t.entry("1-0:0.0.9", "timestamp");
    assert(t@ =~= sml_emh_names());
    t
}

/// Field names of Iskraemeco SML meters.
pub open spec fn sml_iskraemeco_names() -> TableView {
    seq![
        ("1-0:1.8.0"@, "total_energy_consumed"@),
        ("1-0:1.8.1"@, "energy_consumed_t1"@),
        ("1-0:1.8.2"@, "energy_consumed_t2"@),
        ("1-0:2.8.0"@, "total_energy_delivered"@),
        ("1-0:2.8.1"@, "energy_delivered_t1"@),
        ("1-0:2.8.2"@, "energy_delivered_t2"@),
        ("1-0:16.7.0"@, "current_power"@),
        ("1-0:36.7.0"@, "reactive_power"@),
        ("1-0:21.7.0"@, "active_power_l1"@),
        ("1-0:41.7.0"@, "active_power_l2"@),
        ("1-0:61.7.0"@, "active_power_l3"@),
        ("1-0:32.7.0"@, "voltage_l1"@),
        ("1-0:52.7.0"@, "voltage_l2"@),
        ("1-0:72.7.0"@, "voltage_l3"@),
        ("1-0:31.7.0"@, "current_l1"@),
        ("1-0:51.7.0"@, "current_l2"@),
        ("1-0:71.7.0"@, "current_l3"@),
        ("1-0:13.7.0"@, "power_factor"@),
        ("1-0:14.7.0"@, "frequency"@),
        ("1-0:0.0.0"@, "device_id"@),
        ("1-0:0.0.9"@, "timestamp"@),
    ]
}

pub fn build_sml_iskraemeco_names() -> (r: StrTable)
    ensures
        r@ == sml_iskraemeco_names(),
{
    let mut t = StrTable::new();
    t.entry("1-0:1.8.0", "total_energy_consumed");
    t.entry("1-0:1.8.1", "energy_consumed_t1");
    t.entry("1-0:1.8.2", "energy_consumed_t2");
    t.entry("1-0:2.8.0", "total_energy_delivered");
    t.entry("1-0:2.8.1", "energy_delivered_t1");
    t.entry("1-0:2.8.2", "energy_delivered_t2");
    t.entry("1-0:16.7.0", "current_power");
    t.entry("1-0:36.7.0", "reactive_power");
    t.entry("1-0:21.7.0", "active_power_l1");
    t.entry("1-0:41.7.0", "active_power_l2");
    t.entry("1-0:61.7.0", "active_power_l3");
    t.entry("1-0:32.7.0", "voltage_l1");
    t.entry("1-0:52.7.0", "voltage_l2");
    t.entry("1-0:72.7.0", "voltage_l3");
    t.entry("1-0:31.7.0", "current_l1");
    t.entry("1-0:51.7.0", "current_l2");
    t.entry("1-0:71.7.0", "current_l3");
    t.entry("1-0:13.7.0", "power_factor");
    t.entry("1-0:14.7.0", "frequency");
    t.entry("1-0:0.0.0", "device_id");
    t.entry("1-0:0.0.9", "timestamp");
    assert(t@ =~= sml_iskraemeco_names());
    t
}

/// Field names of Itron SML meters.
pub open spec fn sml_itron_names() -> TableView {
    seq![
        ("1-0:1.8.0"@, "total_energy_consumed"@),
        ("1-0:2.8.0"@, "total_energy_delivered"@),
        ("1-0:3.8.0"@, "reactive_energy_consumed"@),
        ("1-0:4.8.0"@, "reactive_energy_delivered"@),
        ("1-0:9.8.0"@, "apparent_energy_consumed"@),
        ("1-0:10.8.0"@, "apparent_energy_delivered"@),
        ("1-0:16.7.0"@, "current_power"@),
        ("1-0:36.7.0"@, "reactive_power"@),
        ("1-0:21.7.0"@, "active_power_l1"@),
        ("1-0:41.7.0"@, "active_power_l2"@),
        ("1-0:61.7.0"@, "active_power_l3"@),
        ("1-0:32.7.0"@, "voltage_l1"@),
        ("1-0:52.7.0"@, "voltage_l2"@),
        ("1-0:72.7.0"@, "voltage_l3"@),
        ("1-0:31.7.0"@, "current_l1"@),
        ("1-0:51.7.0"@, "current_l2"@),
        ("1-0:71.7.0"@, "current_l3"@),
        ("1-0:14.7.0"@, "frequency"@),
        ("1-0:0.0.0"@, "device_id"@),
    ]
}

pub fn build_sml_itron_names() -> (r: StrTable)
    ensures
        r@ == sml_itron_names(),
{
    let mut t = StrTable::new();
    t.entry("1-0:1.8.0", "total_energy_consumed");
    t.entry("1-0:2.8.0", "total_energy_delivered");
    t.entry("1-0:3.8.0", "reactive_energy_consumed");
    t.entry("1-0:4.8.0", "reactive_energy_delivered");
    t.entry("1-0:9.8.0", "apparent_energy_consumed");
    t.entry("1-0:10.8.0", "apparent_energy_delivered");
    t.entry("1-0:16.7.0", "current_power");
    t.entry("1-0:36.7.0", "reactive_power");
    t.entry("1-0:21.7.0", "active_power_l1");
    t.entry("1-0:41.7.0", "active_power_l2");
    t.entry("1-0:61.7.0", "active_power_l3");
    t.entry("1-0:32.7.0", "voltage_l1");
    t.entry("1-0:52.7.0", "voltage_l2");
    t.entry("1-0:72.7.0", "voltage_l3");
    t.entry("1-0:31.7.0", "current_l1");
    t.entry("1-0:51.7.0", "current_l2");
    t.entry("1-0:71.7.0", "current_l3");
    t.entry("1-0:14.7.0", "frequency");
    t.entry("1-0:0.0.0", "device_id");
    assert(t@ =~= sml_itron_names());
    t
}

/// Field names of EasyMeter SML meters.
pub open spec fn sml_easymeter_names() -> TableView {
    seq![
        ("1-0:1.8.0"@, "total_energy_consumed"@),
        ("1-0:2.8.0"@, "total_energy_delivered"@),
        ("1-0:16.7.0"@, "current_power"@),
        ("1-0:32.7.0"@, "voltage_l1"@),
        ("1-0:52.7.0"@, "voltage_l2"@),
        ("1-0:72.7.0"@, "voltage_l3"@),
        ("1-0:31.7.0"@, "current_l1"@),
        ("1-0:51.7.0"@, "current_l2"@),
        ("1-0:71.7.0"@, "current_l3"@),
        ("1-0:14.7.0"@, "frequency"@),
        ("1-0:0.0.0"@, "device_id"@),
        ("1-0:0.0.9"@, "timestamp"@),
    ]
}

pub fn build_sml_easymeter_names() -> (r: StrTable)
    ensures
        r@ == sml_easymeter_names(),
{
    let mut t = StrTable::new();
    t.entry("1-0:1.8.0", "total_energy_consumed");
    t.entry("1-0:2.8.0", "total_energy_delivered");
    t.entry("1-0:16.7.0", "current_power");
    t.entry("1-0:32.7.0", "voltage_l1");
    t.entry("1-0:52.7.0", "voltage_l2");
    t.entry("1-0:72.7.0", "voltage_l3");
    t.entry("1-0:31.7.0", "current_l1");
    t.entry("1-0:51.7.0", "current_l2");
    t.entry("1-0:71.7.0", "current_l3");
    t.entry("1-0:14.7.0", "frequency");
    t.entry("1-0:0.0.0", "device_id");
    t.entry("1-0:0.0.9", "timestamp");
    assert(t@ =~= sml_easymeter_names());
    t
}

/// Field names of generic SML meters.
pub open spec fn sml_generic_names() -> TableView {
    seq![
        ("1-0:1.8.0"@, "total_energy_consumed"@),
        ("1-0:2.8.0"@, "total_energy_delivered"@),
        ("1-0:16.7.0"@, "current_power"@),
        ("1-0:0.0.0"@, "device_id"@),
    ]
}

pub fn build_sml_generic_names() -> (r: StrTable)
    ensures
        r@ == sml_generic_names(),
{
    let mut t = StrTable::new();
    t.entry("1-0:1.8.0", "total_energy_consumed");
    t.entry("1-0:2.8.0", "total_energy_delivered");
    t.entry("1-0:16.7.0", "current_power");
    t.entry("1-0:0.0.0", "device_id");
    assert(t@ =~= sml_generic_names());
    t
}

/// Field names of the OBIS codes commonly found in SML.
pub open spec fn sml_common_names() -> TableView {
    seq![
        ("1-0:1.8.0"@, "total_energy_consumed"@),
        ("1-0:1.8.1"@, "energy_consumed_t1"@),
        ("1-0:1.8.2"@, "energy_consumed_t2"@),
        ("1-0:2.8.0"@, "total_energy_delivered"@),
        ("1-0:2.8.1"@, "energy_delivered_t1"@),
        ("1-0:2.8.2"@, "energy_delivered_t2"@),
        ("1-0:16.7.0"@, "current_power"@),
        ("1-0:36.7.0"@, "reactive_power"@),
        ("1-0:21.7.0"@, "active_power_l1"@),
        ("1-0:41.7.0"@, "active_power_l2"@),
        ("1-0:61.7.0"@, "active_power_l3"@),
        ("1-0:32.7.0"@, "voltage_l1"@),
        ("1-0:52.7.0"@, "voltage_l2"@),
        ("1-0:72.7.0"@, "voltage_l3"@),
        ("1-0:31.7.0"@, "current_l1"@),
        ("1-0:51.7.0"@, "current_l2"@),
        ("1-0:71.7.0"@, "current_l3"@),
        ("1-0:14.7.0"@, "frequency"@),
        ("1-0:13.7.0"@, "power_factor"@),
        ("129-129:199.130.3"@, "manufacturer"@),
        ("1-0:0.0.0"@, "device_id"@),
        ("1-0:0.0.9"@, "timestamp"@),
    ]
}

pub fn build_sml_common_names() -> (r: StrTable)
    ensures
        r@ == sml_common_names(),
{
    let mut t = StrTable::new();
    t.entry("1-0:1.8.0", "total_energy_consumed");
    t.entry("1-0:1.8.1", "energy_consumed_t1");
    t.entry("1-0:1.8.2", "energy_consumed_t2");
    t.entry("1-0:2.8.0", "total_energy_delivered");
    t.entry("1-0:2.8.1", "energy_delivered_t1");
    t.entry("1-0:2.8.2", "energy_delivered_t2");
    t.entry("1-0:16.7.0", "current_power");
    t.entry("1-0:36.7.0", "reactive_power");
    t.entry("1-0:21.7.0", "active_power_l1");
    t.entry("1-0:41.7.0", "active_power_l2");
    t.entry("1-0:61.7.0", "active_power_l3");
    t.entry("1-0:32.7.0", "voltage_l1");
    t.entry("1-0:52.7.0", "voltage_l2");
    t.entry("1-0:72.7.0", "voltage_l3");
    t.entry("1-0:31.7.0", "current_l1");
    t.entry("1-0:51.7.0", "current_l2");
    t.entry("1-0:71.7.0", "current_l3");
    t.entry("1-0:14.7.0", "frequency");
    t.entry("1-0:13.7.0", "power_factor");
    t.entry("129-129:199.130.3", "manufacturer");
    t.entry("1-0:0.0.0", "device_id");
    t.entry("1-0:0.0.9", "timestamp");
    assert(t@ =~= sml_common_names());
    t
}

} // verus!
