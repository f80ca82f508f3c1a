//! Modbus request and response frames, built and read by `rmodbus`, and the
//! decoding of a register's response.
use vstd::prelude::*;
use rmodbus::client::ModbusRequest;
use rmodbus::consts::ModbusFunction;
use crate::config::ModbusProtoConfig;
use crate::modbus::{ModbusRegister, ModbusRegisterType, composed, scaled_round, mapped_value, mappings_view,
    decode_register};
use crate::value::Scalar;

verus! {

/// How frames are delimited on the connection.
#[derive(Debug, Clone, Copy, PartialEq, Eq, Structural)]
pub enum Framing {
    TcpUdp,
    Rtu,
}

/// The framing used for a hub: TCP framing for `TCP`, RTU framing for RTU over
/// TCP; none for serial RTU, which this gateway does not drive.
pub fn framing_of(proto: ModbusProtoConfig) -> (r: Option<Framing>)
    ensures
        proto == ModbusProtoConfig::TCP ==> r == Some(Framing::TcpUdp),
        proto == ModbusProtoConfig::RTUoverTCP ==> r == Some(Framing::Rtu),
        proto == ModbusProtoConfig::RTU ==> r is None,
{
    match proto {
        ModbusProtoConfig::TCP => Some(Framing::TcpUdp),
        ModbusProtoConfig::RTUoverTCP => Some(Framing::Rtu),
        ModbusProtoConfig::RTU => None,
    }
}

/// The function code that reads a register table.
pub open spec fn function_code(kind: ModbusRegisterType) -> u8 {
    match kind {
        ModbusRegisterType::Coil => 1,
        ModbusRegisterType::Holding => 3,
        ModbusRegisterType::Input => 4,
    }
}

/// What `rmodbus` computes as the CRC of an RTU frame body.
pub uninterp spec fn modbus_rtu_crc(body: Seq<u8>) -> u16;

/// The protocol data of a read request: unit, function, first register, count.
pub open spec fn read_pdu(unit: u8, fc: u8, reg: u16, count: u16) -> Seq<u8> {
    seq![unit, fc, (reg / 256) as u8, (reg % 256) as u8, (count / 256) as u8, (count % 256) as u8]
}

/// The frame of a read request of a fresh request builder (transaction 1):
/// for TCP the header `0 1 0 0 0 6` before the protocol data, for RTU the
/// protocol data followed by its CRC, low byte first.
pub open spec fn read_frame(unit: u8, framing: Framing, fc: u8, reg: u16, count: u16) -> Seq<u8> {
    let pdu = read_pdu(unit, fc, reg, count);
    match framing {
        Framing::TcpUdp => seq![0u8, 1u8, 0u8, 0u8, 0u8, 6u8] + pdu,
        Framing::Rtu => pdu + seq![(modbus_rtu_crc(pdu) % 256) as u8, (modbus_rtu_crc(pdu) / 256) as u8],
    }
}

/// Relies on `ModbusRequest::generate_get_holdings` (with `generate`), for a
/// builder with transaction id 1: the frame never fails for a read.
#[verifier::external_body]
fn generate_holdings(unit_id: u8, framing: Framing, reg: u16, count: u16) -> (r: Vec<u8>)
    ensures
        r@ == read_frame(unit_id, framing, 3, reg, count),
        framing == Framing::Rtu ==> r@.len() == 8 && r@[6] == (modbus_rtu_crc(r@.subrange(0, 6)) % 256) as u8
            && r@[7] == (modbus_rtu_crc(r@.subrange(0, 6)) / 256) as u8,
{
    let proto = match framing {
        Framing::TcpUdp => rmodbus::ModbusProto::TcpUdp,
        Framing::Rtu => rmodbus::ModbusProto::Rtu,
    };
    let mut req = ModbusRequest { tr_id: 1, unit_id, func: ModbusFunction::GetHoldings, reg: 0, count: 0, proto };
    let mut frame = Vec::new();
    let _ = req.generate_get_holdings(reg, count, &mut frame);
    frame
}

/// Relies on `ModbusRequest::generate_get_inputs` (with `generate`), for a
/// builder with transaction id 1: the frame never fails for a read.
#[verifier::external_body]
fn generate_inputs(unit_id: u8, framing: Framing, reg: u16, count: u16) -> (r: Vec<u8>)
    ensures
        r@ == read_frame(unit_id, framing, 4, reg, count),
        framing == Framing::Rtu ==> r@.len() == 8 && r@[6] == (modbus_rtu_crc(r@.subrange(0, 6)) % 256) as u8
            && r@[7] == (modbus_rtu_crc(r@.subrange(0, 6)) / 256) as u8,
{
    let proto = match framing {
        Framing::TcpUdp => rmodbus::ModbusProto::TcpUdp,
        Framing::Rtu => rmodbus::ModbusProto::Rtu,
    };
    let mut req = ModbusRequest { tr_id: 1, unit_id, func: ModbusFunction::GetInputs, reg: 0, count: 0, proto };
    let mut frame = Vec::new();
    let _ = req.generate_get_inputs(reg, count, &mut frame);
    frame
}

/// Relies on `ModbusRequest::generate_get_coils` (with `generate`), for a
/// builder with transaction id 1: the frame never fails for a read.
#[verifier::external_body]
fn generate_coils(unit_id: u8, framing: Framing, reg: u16, count: u16) -> (r: Vec<u8>)
    ensures
        r@ == read_frame(unit_id, framing, 1, reg, count),
        framing == Framing::Rtu ==> r@.len() == 8 && r@[6] == (modbus_rtu_crc(r@.subrange(0, 6)) % 256) as u8
            && r@[7] == (modbus_rtu_crc(r@.subrange(0, 6)) / 256) as u8,
{
    let proto = match framing {
        Framing::TcpUdp => rmodbus::ModbusProto::TcpUdp,
        Framing::Rtu => rmodbus::ModbusProto::Rtu,
    };
    let mut req = ModbusRequest { tr_id: 1, unit_id, func: ModbusFunction::GetCoils, reg: 0, count: 0, proto };
    let mut frame = Vec::new();
    let _ = req.generate_get_coils(reg, count, &mut frame);
    frame
}

/// The frame that reads a register from a unit.
pub fn build_read_request(unit_id: u8, framing: Framing, reg: &ModbusRegister) -> (r: Vec<u8>)
    ensures
        r@ == read_frame(unit_id, framing, function_code(reg.input_type), reg.register, reg.length),
{
    match reg.input_type {
        ModbusRegisterType::Holding => generate_holdings(unit_id, framing, reg.register, reg.length),
        ModbusRegisterType::Input => generate_inputs(unit_id, framing, reg.register, reg.length),
        ModbusRegisterType::Coil => generate_coils(unit_id, framing, reg.register, reg.length),
    }
}

/// Where the data of a response lies: from the header's end to the end of the
/// frame (before the CRC for RTU); none for a frame that does not answer a read
/// of `count` words with function `fc` by `unit`.
pub open spec fn response_data(framing: Framing, unit: u8, fc: u8, buf: Seq<u8>) -> Option<(int, int)> {
    let bounds: Option<(int, int)> = match framing {
        Framing::TcpUdp => if buf.len() < 9 || buf[0] != 0 || buf[1] != 1 || buf[2] != 0 || buf[3] != 0 {
            None
        } else {
            Some((6int, buf.len() as int))
        },
        Framing::Rtu => if buf.len() < 5 || buf.len() - 2 > 255 {
            None
        } else {
            let l = buf.len() - 2;
            if modbus_rtu_crc(buf.subrange(0, l)) as nat != buf[l] as nat + 256 * buf[l + 1] as nat {
                None
            } else {
                Some((0int, l))
            }
        },
    };
    match bounds {
        Some((s, e)) => if buf[s] != unit || buf[s + 1] != fc || (buf[s + 2] as int) * 2 < e - s - 3 {
            None
        } else {
            Some((s + 3, e))
        },
        None => None,
    }
}

/// The 16-bit words of a response to a read of `count` words: big-endian
/// pairs of its data, at most `count` of them.
pub open spec fn u16_words_of(framing: Framing, unit: u8, fc: u8, count: u16, buf: Seq<u8>) -> Option<Seq<u16>> {
    match response_data(framing, unit, fc, buf) {
        Some((s, e)) => {
            let n = if (count as int) < (e - s) / 2 { count as int } else { (e - s) / 2 };
            Some(Seq::new(n as nat, |i: int| (buf[s + 2 * i] as nat * 256 + buf[s + 2 * i + 1] as nat) as u16))
        },
        None => None,
    }
}

/// Relies on `ModbusRequest::parse_u16`, for a builder with transaction id 1
/// that read `count` words: the words of a matching response, none for an
/// error response or a broken frame. Frames too short to hold data are left out,
/// as the call does not return on them.
#[verifier::external_body]
fn parse_words(unit_id: u8, framing: Framing, kind: ModbusRegisterType, reg: u16, count: u16, response: &Vec<u8>)
    -> (r: Option<Vec<u16>>)
    requires
        framing == Framing::TcpUdp ==> response@.len() >= 10,
        framing == Framing::Rtu ==> response@.len() >= 6,
    ensures
        match u16_words_of(framing, unit_id, function_code(kind), count, response@) {
            Some(w) => r matches Some(v) && v@ == w,
            None => r is None,
        },
{
    let proto = match framing {
        Framing::TcpUdp => rmodbus::ModbusProto::TcpUdp,
        Framing::Rtu => rmodbus::ModbusProto::Rtu,
    };
    let func = match kind {
        ModbusRegisterType::Holding => ModbusFunction::GetHoldings,
        ModbusRegisterType::Input => ModbusFunction::GetInputs,
        ModbusRegisterType::Coil => ModbusFunction::GetCoils,
    };
    let req = ModbusRequest { tr_id: 1, unit_id, func, reg, count, proto };
    let mut words = Vec::new();
    match req.parse_u16(response, &mut words) {
        Ok(()) => Some(words),
        Err(_) => None,
    }
}

/// The length of a whole response frame, judged from its first six bytes as
/// `rmodbus::guess_response_frame_len` does; none when it cannot be sized or
/// exceeds 255.
pub open spec fn frame_len_of(h: Seq<u8>, framing: Framing) -> Option<nat> {
    match framing {
        Framing::TcpUdp => if h[2] == 0 && h[3] == 0 {
            let len = h[4] as nat * 256 + h[5] as nat + 6;
            if len > 255 { None } else { Some(len) }
        } else {
            None
        },
        Framing::Rtu => {
            let f = h[1];
            if f < 0x80 {
                if 1 <= f && f <= 4 {
                    let len = h[2] as nat + 3 + 2;
                    if len > 255 { None } else { Some(len) }
                } else if f == 5 || f == 6 || f == 15 || f == 16 {
                    Some(8)
                } else {
                    None
                }
            } else {
                Some(5)
            }
        },
    }
}

/// The length of a whole response frame from its first six bytes.
pub fn response_length(header: &Vec<u8>, framing: Framing) -> (r: Option<usize>)
    ensures
        header@.len() < 6 ==> r is None,
        header@.len() >= 6 ==> match frame_len_of(header@.subrange(0, 6), framing) {
            Some(n) => r == Some(n as usize),
            None => r is None,
        },
{
    if header.len() < 6 {
        return None;
    }
    let ghost h = header@.subrange(0, 6);
    assert(h[1] == header@[1] && h[2] == header@[2] && h[3] == header@[3] && h[4] == header@[4] && h[5] == header@[5]);
    match framing {
        Framing::TcpUdp => {
            if header[2] == 0 && header[3] == 0 {
                let len = header[4] as usize * 256 + header[5] as usize + 6;
                assert(len as nat == h[4] as nat * 256 + h[5] as nat + 6);
                if len > 255 {
                    assert(frame_len_of(h, framing) is None);
                    None
                } else {
                    assert(frame_len_of(h, framing) == Some(len as nat));
                    Some(len)
                }
            } else {
                assert(frame_len_of(h, framing) is None);
                None
            }
        },
        Framing::Rtu => {
            let f = header[1];
            if f < 0x80 {
                if 1 <= f && f <= 4 {
                    let len = header[2] as usize + 5;
                    if len > 255 { None } else { Some(len) }
                } else if f == 5 || f == 6 || f == 15 || f == 16 {
                    Some(8)
                } else {
                    None
                }
            } else {
                Some(5)
            }
        },
    }
}

/// The reading of a register from the response to its read request: the
/// response's words composed, scaled, rounded and mapped; none for a response
/// that does not answer the request or carries too few words.
pub fn decode_response(unit_id: u8, framing: Framing, reg: &ModbusRegister, response: &Vec<u8>) -> (r: Option<(Scalar, i128)>)
    requires
        reg.scaler.wf(),
    ensures
        match u16_words_of(framing, unit_id, function_code(reg.input_type), reg.length, response@) {
            Some(w) => match composed(w, reg.format) {
                Some(v) => r matches Some((value, num)) && num as int == scaled_round(v, reg.scaler)
                    && value@ == mapped_value(num as int, mappings_view(reg.mappings@)),
                None => r is None,
            },
            None => r is None,
        },
{
    let too_short = match framing {
        Framing::TcpUdp => response.len() < 10,
        Framing::Rtu => response.len() < 6,
    };
    if too_short {
        proof { lemma_short_response(framing, unit_id, function_code(reg.input_type), reg.length, response@); }
        return None;
    }
    match parse_words(unit_id, framing, reg.input_type, reg.register, reg.length, response) {
        Some(words) => decode_register(reg, &words),
        None => None,
    }
}

/// A response without data bytes yields no word, hence no value.
proof fn lemma_short_response(framing: Framing, unit: u8, fc: u8, count: u16, buf: Seq<u8>)
    requires
        framing == Framing::TcpUdp ==> buf.len() < 10,
        framing == Framing::Rtu ==> buf.len() < 6,
    ensures
        match u16_words_of(framing, unit, fc, count, buf) {
            Some(w) => w.len() == 0,
            None => true,
        },
{
}

} // verus!
