//! Decoding and acquisition logic of a multi-protocol energy-meter gateway.
//!
//! - `obis`, `iec62056`: OBIS identifiers and IEC 62056-21 ASCII telegrams.
//! - `sml`, `sml_parser`, `sml_utils`, `sml_meters`, `sml_records`: SML frames,
//!   their TLV grammar, value rendering, meter families and records.
//! - `oms`, `mbus_vif`, `mbus_records`: wireless M-Bus / OMS telegrams (CRC
//!   blocks, mode-5 decryption) and their DIF/VIF data records.
//! - `modbus`, `modbus_frames`: register maps, read cadence, value decoding and
//!   request/response frames of the Modbus poller.
//! - `models`, `value`, `table`, `text`: the uniform record and its values.
//! - `config`, `ha`, `dispatch`, `victron`: configuration, discovery records,
//!   topic registry and bridge bookkeeping.

pub mod text;
pub mod table;
pub mod obis_tables;
pub mod obis;
pub mod value;
pub mod models;
pub mod config;
pub mod iec62056;
pub mod sml;
pub mod sml_parser;
pub mod sml_utils;
pub mod sml_meters;
pub mod sml_records;
pub mod oms;
pub mod mbus_vif;
pub mod mbus_records;
pub mod ha;
pub mod modbus;
pub mod modbus_frames;
pub mod dispatch;
pub mod victron;
