//! The configuration document: its sections, their defaults, and how an
//! update of one section is applied and announced.
use vstd::prelude::*;
use crate::text::lit;

verus! {

pub struct HttpdConfig {
    pub enabled: bool,
    pub port: u16,
}

pub struct MqttConfig {
    pub host: String,
    pub port: u16,
    pub user: String,
    pub pass: String,
    pub ha_enabled: bool,
    pub client_name: String,
}

pub struct DatabaseConfig {
    pub dbtype: String,
    pub uri: String,
}

/// One Modbus device on a hub.
pub struct ModbusDeviceConfig {
    pub name: String,
    pub meter: String,
    pub slave_id: u8,
    pub read_interval: u32,
}

/// Framing of a Modbus hub.
#[derive(Debug, Clone, Copy, PartialEq, Eq, Structural)]
pub enum ModbusProtoConfig {
    TCP,
    RTU,
    RTUoverTCP,
}

/// A Modbus gateway and the devices behind it.
pub struct ModbusHubConfig {
    pub name: String,
    pub host: String,
    pub port: u16,
    pub proto: ModbusProtoConfig,
    pub devices: Vec<ModbusDeviceConfig>,
}

pub struct ModbusConfig {
    pub hubs: Vec<ModbusHubConfig>,
}

/// The kind of a configuration change.
#[derive(Debug, Clone, Copy, PartialEq, Eq, Structural)]
pub enum ConfigOperation {
    ADD,
    DELETE,
    CHANGE,
}

/// A change of one configuration section, named by `base`.
pub struct ConfigChange {
    pub operation: ConfigOperation,
    pub base: String,
}

pub struct TibberConfig {
    pub name: String,
    pub account_token: String,
}

/// A secured OMS meter: logical name, DIN address and AES key in hexadecimal.
pub struct OmsConfig {
    pub name: String,
    pub id: String,
    pub key: String,
}

pub struct VictronConfig {
    pub name: String,
    pub client_name: String,
    pub broker_host: String,
    pub broker_port: u16,
    pub update_interval: u64,
    pub enabled: bool,
}

#[derive(Debug, Clone, Copy, PartialEq, Eq, Structural)]
pub enum KnxConnectionType {
    TcpDirect,
    UdpTunneling,
}

#[derive(Debug, Clone, Copy, PartialEq, Eq, Structural)]
pub enum KnxDatapointType {
    ActiveEnergyWh,
    ActiveEnergyKwh,
    ReactiveEnergyVah,
    ReactiveEnergyKvarh,
    ApparentEnergyKvah,
    VoltageV,
    CurrentA,
    PowerW,
    PowerKw,
    PowerDensityWm2,
    Switch,
}

pub struct KnxPhaseConfig {
    pub name: String,
    pub voltage_ga: Option<String>,
    pub current_ga: Option<String>,
    pub power_ga: Option<String>,
    pub energy_ga: Option<String>,
    pub energy_type: KnxDatapointType,
    pub power_type: KnxDatapointType,
    pub voltage_type: KnxDatapointType,
    pub current_type: KnxDatapointType,
}

pub struct KnxMeterConfig {
    pub name: String,
    pub enabled: bool,
    pub read_interval: u64,
    pub phases: Vec<KnxPhaseConfig>,
    pub total_energy_ga: Option<String>,
    pub total_power_ga: Option<String>,
}

pub struct KnxSwitchConfig {
    pub name: String,
    pub enabled: bool,
    pub group_address: String,
    pub state_address: Option<String>,
    pub expose_to_ha: bool,
}

pub struct KnxAdapterConfig {
    pub name: String,
    pub host: String,
    pub port: u16,
    pub enabled: bool,
    pub connection_type: KnxConnectionType,
    pub connection_timeout: u64,
    pub read_timeout: u64,
    pub meters: Vec<KnxMeterConfig>,
    pub switches: Vec<KnxSwitchConfig>,
}

/// The whole configuration document.
pub struct Config {
    pub httpd: HttpdConfig,
    pub mqtt: MqttConfig,
    pub db: DatabaseConfig,
    pub modbus: ModbusConfig,
    pub tibber: Vec<TibberConfig>,
    pub oms: Vec<OmsConfig>,
    pub victron: Vec<VictronConfig>,
    pub knx: Vec<KnxAdapterConfig>,
}

/// A new value for one section of the document.
pub enum ConfigBases {
    Httpd(HttpdConfig),
    Mqtt(MqttConfig),
    Modbus(ModbusConfig),
    Tibber(Vec<TibberConfig>),
    Oms(Vec<OmsConfig>),
    Victron(Vec<VictronConfig>),
    Knx(Vec<KnxAdapterConfig>),
}

pub fn httpd_enabled_default() -> (r: bool)
    ensures
        r,
{
    true
}

pub fn httpd_port_default() -> (r: u16)
    ensures
        r == 8240,
{
    8240
}

pub fn mqtt_client_name_default() -> (r: String)
    ensures
        r@ == "energy2mqtt"@,
{
    lit("energy2mqtt")
}

pub fn db_dbtype_default() -> (r: String)
    ensures
        r@ == "sqlite"@,
{
    lit("sqlite")
}

pub fn db_uri_default() -> (r: String)
    ensures
        r@ == "devices.db"@,
{
    lit("devices.db")
}

pub fn modbus_hubs_devices_default() -> (r: Vec<ModbusDeviceConfig>)
    ensures
        r@.len() == 0,
{
    Vec::new()
}

pub fn modbus_hubs_default() -> (r: Vec<ModbusHubConfig>)
    ensures
        r@.len() == 0,
{
    Vec::new()
}

pub fn victron_client_name_default() -> (r: String)
    ensures
        r@ == "energy2mqtt"@,
{
    lit("energy2mqtt")
}

pub fn knx_phase_energy_type_default() -> (r: KnxDatapointType)
    ensures
        r == KnxDatapointType::ActiveEnergyKwh,
{
    KnxDatapointType::ActiveEnergyKwh
}

pub fn knx_phase_power_type_default() -> (r: KnxDatapointType)
    ensures
        r == KnxDatapointType::PowerW,
{
    KnxDatapointType::PowerW
}

pub fn knx_phase_voltage_type_default() -> (r: KnxDatapointType)
    ensures
        r == KnxDatapointType::VoltageV,
{
    KnxDatapointType::VoltageV
}

pub fn knx_phase_current_type_default() -> (r: KnxDatapointType)
    ensures
        r == KnxDatapointType::CurrentA,
{
    KnxDatapointType::CurrentA
}

pub fn knx_meter_enabled_default() -> (r: bool)
    ensures
        r,
{
    true
}

pub fn knx_meter_read_interval_default() -> (r: u64)
    ensures
        r == 60,
{
    60
}

pub fn knx_meter_phases_default() -> (r: Vec<KnxPhaseConfig>)
    ensures
        r@.len() == 0,
{
    Vec::new()
}

pub fn knx_switch_enabled_default() -> (r: bool)
    ensures
        r,
{
    true
}

pub fn knx_switch_expose_to_ha_default() -> (r: bool)
    ensures
        r,
{
    true
}

pub fn knx_adapter_port_default() -> (r: u16)
    ensures
        r == 3671,
{
    3671
}

pub fn knx_adapter_enabled_default() -> (r: bool)
    ensures
        r,
{
    true
}

pub fn knx_adapter_connection_timeout_default() -> (r: u64)
    ensures
        r == 10,
{
    10
}

pub fn knx_adapter_read_timeout_default() -> (r: u64)
    ensures
        r == 5,
{
    5
}

pub fn knx_adapter_meters_default() -> (r: Vec<KnxMeterConfig>)
    ensures
        r@.len() == 0,
{
    Vec::new()
}

pub fn knx_adapter_switches_default() -> (r: Vec<KnxSwitchConfig>)
    ensures
        r@.len() == 0,
{
    Vec::new()
}

pub fn knx_adapter_connection_type_default() -> (r: KnxConnectionType)
    ensures
        r == KnxConnectionType::TcpDirect,
{
    KnxConnectionType::TcpDirect
}

pub fn httpd_default() -> (r: HttpdConfig)
    ensures
        r.enabled,
        r.port == 8240,
{
    HttpdConfig { enabled: httpd_enabled_default(), port: httpd_port_default() }
}

pub fn db_default() -> (r: DatabaseConfig)
    ensures
        r.dbtype@ == "sqlite"@,
        r.uri@ == "devices.db"@,
{
    DatabaseConfig { dbtype: db_dbtype_default(), uri: db_uri_default() }
}

pub fn modbus_default() -> (r: ModbusConfig)
    ensures
        r.hubs@.len() == 0,
{
    ModbusConfig { hubs: Vec::new() }
}

pub fn tibber_default() -> (r: Vec<TibberConfig>)
    ensures
        r@.len() == 0,
{
    Vec::new()
}

pub fn oms_default() -> (r: Vec<OmsConfig>)
    ensures
        r@.len() == 0,
{
    Vec::new()
}

pub fn victron_default() -> (r: Vec<VictronConfig>)
    ensures
        r@.len() == 0,
{
    Vec::new()
}

pub fn knx_default() -> (r: Vec<KnxAdapterConfig>)
    ensures
        r@.len() == 0,
{
    Vec::new()
}

/// The name of the section that a new value replaces.
pub open spec fn base_name(data: &ConfigBases) -> Seq<char> {
    match data {
        ConfigBases::Httpd(_) => "httpd"@,
        ConfigBases::Mqtt(_) => "mqtt"@,
        ConfigBases::Modbus(_) => "modbus"@,
        ConfigBases::Tibber(_) => "tibber"@,
        ConfigBases::Oms(_) => "oms"@,
        ConfigBases::Victron(_) => "victron"@,
        ConfigBases::Knx(_) => "knx"@,
    }
}

/// The configuration document and whether it differs from what is on disk.
pub struct ConfigState {
    pub config: Config,
    pub dirty: bool,
}

impl ConfigState {
    pub fn is_dirty(&self) -> (r: bool)
        ensures
            r == self.dirty,
    {
        self.dirty
    }

    /// Replaces one section, marks the document dirty, and returns the change
    /// to announce to the workers.
    pub fn update_config(&mut self, operation: ConfigOperation, new_data: ConfigBases) -> (r: ConfigChange)
        ensures
            final(self).dirty,
            r.operation == operation,
            r.base@ == base_name(&new_data),
            match new_data {
                ConfigBases::Httpd(c) => final(self).config.httpd == c,
                ConfigBases::Mqtt(c) => final(self).config.mqtt == c,
                ConfigBases::Modbus(c) => final(self).config.modbus == c,
                ConfigBases::Tibber(c) => final(self).config.tibber == c,
                ConfigBases::Oms(c) => final(self).config.oms == c,
                ConfigBases::Victron(c) => final(self).config.victron == c,
                ConfigBases::Knx(c) => final(self).config.knx == c,
            },
            !(new_data is Httpd) ==> final(self).config.httpd == old(self).config.httpd,
            !(new_data is Mqtt) ==> final(self).config.mqtt == old(self).config.mqtt,
            !(new_data is Modbus) ==> final(self).config.modbus == old(self).config.modbus,
            !(new_data is Tibber) ==> final(self).config.tibber == old(self).config.tibber,
            !(new_data is Oms) ==> final(self).config.oms == old(self).config.oms,
            !(new_data is Victron) ==> final(self).config.victron == old(self).config.victron,
            !(new_data is Knx) ==> final(self).config.knx == old(self).config.knx,
    {
        let ghost data = new_data;
        let base = match new_data {
            ConfigBases::Httpd(c) => {
                self.config.httpd = c;
                lit("httpd")
            },
            ConfigBases::Mqtt(c) => {
                self.config.mqtt = c;
                lit("mqtt")
            },
            ConfigBases::Modbus(c) => {
                self.config.modbus = c;
                lit("modbus")
            },
            ConfigBases::Tibber(c) => {
                self.config.tibber = c;
                lit("tibber")
            },
            ConfigBases::Oms(c) => {
                self.config.oms = c;
                lit("oms")
            },
            ConfigBases::Victron(c) => {
                self.config.victron = c;
                lit("victron")
            },
            ConfigBases::Knx(c) => {
                self.config.knx = c;
                lit("knx")
            },
        };
        self.dirty = true;
        ConfigChange { operation, base }
    }
}

} // verus!
