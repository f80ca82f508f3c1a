//! Modbus register maps and the decisions of the poller: read cadence,
//! composition of register words, scaling, value mappings and the variables
//! that template registers see.
use vstd::prelude::*;
use crate::text::{lit, str_eq, chars_of, string_of};
use crate::value::{Scalar, ScalarView};
use crate::config::{ModbusDeviceConfig, ModbusHubConfig};
use crate::ha::{HAPlatform, HaComponent, HaDiscover, platform_name, value_template_of};
use crate::sml_utils::{int_text, push_dec_u128, pow10, lemma_pow10_mono};

verus! {

/// Which register table a read addresses.
#[derive(Debug, Clone, Copy, PartialEq, Eq, Structural)]
pub enum ModbusRegisterType {
    Holding,
    Input,
    Coil,
}

/// How the words of a register compose a value.
#[derive(Debug, Clone, Copy, PartialEq, Eq, Structural)]
pub enum ModbusRegisterFormat {
    Int16,
    Int32,
}

/// A decimal factor `mantissa * 10^exponent`.
#[derive(Debug, Clone, Copy, PartialEq, Eq, Structural)]
pub struct Scaler {
    pub mantissa: i32,
    pub exponent: i8,
}

impl Scaler {
    /// Whether the exponent is within the supported range.
    pub open spec fn wf(&self) -> bool {
        -9 <= self.exponent <= 9
    }

    /// The factor 1.
    pub fn one() -> (r: Scaler)
        ensures
            r.mantissa == 1,
            r.exponent == 0,
            r.wf(),
    {
        Scaler { mantissa: 1, exponent: 0 }
    }
}

/// A value mapping: a raw value's decimal text (or `_` for any) and its replacement.
pub struct Mapping {
    pub data: String,
    pub mapping: Scalar,
}

/// A physical register of a register map.
pub struct ModbusRegister {
    pub name: String,
    pub input_type: ModbusRegisterType,
    pub register: u16,
    pub length: u16,
    pub format: ModbusRegisterFormat,
    pub scaler: Scaler,
    pub unit_of_measurement: String,
    pub device_class: String,
    pub state_class: String,
    pub platform: HAPlatform,
    pub mappings: Vec<Mapping>,
}

/// A derived register: an expression over physical register names.
pub struct TemplateRegister {
    pub name: String,
    pub value: String,
    pub unit_of_measurement: String,
    pub device_class: String,
    pub state_class: String,
    pub platform: HAPlatform,
}

pub enum Register {
    Template(TemplateRegister),
    Modbus(ModbusRegister),
}

/// A loaded register map.
pub struct ModbusRegisterFile {
    pub manufacturer: String,
    pub model: String,
    pub registers: Vec<ModbusRegister>,
    pub templates: Vec<TemplateRegister>,
}

/// A device with its read counter.
pub struct ModbusDevice {
    pub config: ModbusDeviceConfig,
    pub waits_till_read: u32,
    pub cur_waits: u32,
    pub registers: Vec<Register>,
}

/// A hub with its devices.
pub struct ModbusHub {
    pub config: ModbusHubConfig,
    pub devices: Vec<ModbusDevice>,
}

/// The presentation attribute of a register map that names none.
pub fn default_none_str() -> (r: String)
    ensures
        r@ == "NONE"@,
{
    lit("NONE")
}

/// The upper bound of a hub's tick, in seconds.
pub const MAX_HUB_TICK: u32 = 60;

/// The smallest of `v` and `cap`.
pub open spec fn seq_min(v: Seq<u32>, cap: nat) -> nat
    decreases v.len(),
{
    if v.len() == 0 {
        cap
    } else {
        let m = seq_min(v.drop_last(), cap);
        if (v.last() as nat) < m { v.last() as nat } else { m }
    }
}

proof fn lemma_seq_min_pos(v: Seq<u32>, cap: nat)
    requires
        cap > 0,
        forall|i: int| 0 <= i < v.len() ==> v[i] > 0,
    ensures
        seq_min(v, cap) > 0,
    decreases v.len(),
{
    if v.len() > 0 {
        lemma_seq_min_pos(v.drop_last(), cap);
        assert(v.last() == v[v.len() - 1]);
    }
}

/// The tick of a hub: the smallest read interval of its devices, at most 60 seconds.
pub fn hub_tick(intervals: &Vec<u32>) -> (r: u32)
    ensures
        r == seq_min(intervals@, 60),
        r <= 60,
        forall|i: int| 0 <= i < intervals@.len() ==> r <= intervals@[i],
{
    let mut m: u32 = MAX_HUB_TICK;
    let mut i: usize = 0;
    while i < intervals.len()
        invariant
            i <= intervals@.len(),
            m == seq_min(intervals@.subrange(0, i as int), 60),
            m <= 60,
            forall|k: int| 0 <= k < i ==> m <= intervals@[k],
        decreases intervals.len() - i,
    {
        assert(intervals@.subrange(0, i + 1).drop_last() =~= intervals@.subrange(0, i as int));
        if intervals[i] < m {
            m = intervals[i];
        }
        i = i + 1;
    }
    assert(intervals@.subrange(0, intervals@.len() as int) =~= intervals@);
    m
}

/// Ticks between reads of a device: the read interval divided by the tick, rounded up.
pub fn waits_till_read(read_interval: u32, tick: u32) -> (r: u32)
    requires
        tick > 0,
    ensures
        r as int * tick >= read_interval,
        (r as int - 1) * tick < read_interval,
        r as int == (read_interval as int + tick - 1) / tick as int,
{
    let q = read_interval / tick;
    if read_interval % tick != 0 {
        assert(q < 0xFFFF_FFFFu32) by (nonlinear_arith)
            requires
                q == read_interval / tick,
                read_interval % tick != 0,
                tick > 0,
        {
        }
    }
    let r = if read_interval % tick == 0 { q } else { q + 1 };
    assert(r as int == (read_interval as int + tick - 1) / tick as int) by (nonlinear_arith)
        requires
            q == read_interval / tick,
            tick > 0,
            r == if read_interval % tick == 0 { q as int } else { q + 1 },
    {
    }
    assert(r as int * tick >= read_interval && (r as int - 1) * tick < read_interval) by (nonlinear_arith)
        requires
            q == read_interval / tick,
            tick > 0,
            r == if read_interval % tick == 0 { q as int } else { q + 1 },
    {
    }
    r
}

/// The read intervals of a hub's devices.
pub open spec fn device_intervals(devices: Seq<ModbusDevice>) -> Seq<u32> {
    devices.map_values(|d: ModbusDevice| d.config.read_interval)
}

/// Sets up the read cadence of a hub: computes its tick and each device's
/// ticks between reads, and resets the counters.
pub fn plan_hub(hub: &mut ModbusHub) -> (tick: u32)
    requires
        forall|i: int| 0 <= i < old(hub).devices@.len() ==> old(hub).devices@[i].config.read_interval > 0,
    ensures
        tick == seq_min(device_intervals(old(hub).devices@), 60),
        tick > 0,
        final(hub).devices@.len() == old(hub).devices@.len(),
        forall|i: int| 0 <= i < final(hub).devices@.len() ==> {
            let d = #[trigger] final(hub).devices@[i];
            &&& d.config == old(hub).devices@[i].config
            &&& d.cur_waits == 0
            &&& d.waits_till_read as int * tick >= d.config.read_interval
            &&& (d.waits_till_read as int - 1) * tick < d.config.read_interval
        },
{
    let mut intervals: Vec<u32> = Vec::new();
    let mut i: usize = 0;
    while i < hub.devices.len()
        invariant
            i <= hub.devices@.len(),
            intervals@ == device_intervals(hub.devices@.subrange(0, i as int)),
        decreases hub.devices.len() - i,
    {
        intervals.push(hub.devices[i].config.read_interval);
        i = i + 1;
        assert(intervals@ =~= device_intervals(hub.devices@.subrange(0, i as int)));
    }
    assert(hub.devices@.subrange(0, hub.devices@.len() as int) =~= hub.devices@);
    assert forall|j: int| 0 <= j < intervals@.len() implies intervals@[j] > 0 by {
        assert(intervals@[j] == hub.devices@[j].config.read_interval);
    }
    let tick = hub_tick(&intervals);
    proof { lemma_seq_min_pos(intervals@, 60); }
    if hub.devices.len() > 0 {
        assert(tick <= intervals@[0]);
    }
    let ghost old_devices = hub.devices@;
    let mut devices: Vec<ModbusDevice> = Vec::new();
    std::mem::swap(&mut devices, &mut hub.devices);
    let n = devices.len();
    let mut out: Vec<ModbusDevice> = Vec::new();
    let mut k: usize = 0;
    while k < n
        invariant
            n == old_devices.len(),
            k <= n,
            tick > 0,
            tick == seq_min(device_intervals(old_devices), 60),
            devices@ == old_devices.subrange(k as int, n as int),
            out@.len() == k,
            forall|i: int| 0 <= i < k ==> {
                let d = #[trigger] out@[i];
                &&& d.config == old_devices[i].config
                &&& d.cur_waits == 0
                &&& d.waits_till_read as int * tick >= d.config.read_interval
                &&& (d.waits_till_read as int - 1) * tick < d.config.read_interval
            },
        decreases n - k,
    {
        let mut d = devices.remove(0);
        assert(d == old_devices[k as int]);
        d.waits_till_read = waits_till_read(d.config.read_interval, tick);
        d.cur_waits = 0;
        out.push(d);
        assert(devices@ =~= old_devices.subrange(k + 1, n as int));
        k = k + 1;
    }
    hub.devices = out;
    tick
}

/// Advances a device's counter by one tick; tells whether the device is read now.
pub fn tick_device(device: &mut ModbusDevice) -> (read: bool)
    requires
        old(device).waits_till_read > 0,
        old(device).cur_waits < old(device).waits_till_read,
    ensures
        read == (old(device).cur_waits + 1 == old(device).waits_till_read),
        final(device).cur_waits == if read { 0 } else { old(device).cur_waits + 1 },
        final(device).cur_waits < final(device).waits_till_read,
        final(device).waits_till_read == old(device).waits_till_read,
        final(device).config == old(device).config,
{
    device.cur_waits = device.cur_waits + 1;
    if device.cur_waits == device.waits_till_read {
        device.cur_waits = 0;
        true
    } else {
        false
    }
}

/// The counter of a device after `k` ticks from `c`, and whether the last tick read it.
pub open spec fn counter_after(c: nat, w: nat, k: nat) -> nat
    decreases k,
{
    if k == 0 { c } else {
        let prev = counter_after(c, w, (k - 1) as nat);
        if prev + 1 == w { 0 } else { prev + 1 }
    }
}

/// From a reset counter, a device is read exactly on every `w`-th tick: the
/// counter after `k` ticks is `k mod w`, so reads happen at multiples of `w`
/// ticks, that is every `w * tick` seconds, the read interval rounded up to a
/// multiple of the hub's tick.
pub proof fn lemma_read_cadence(w: nat, k: nat)
    requires
        w > 0,
    ensures
        counter_after(0, w, k) == k % w,
    decreases k,
{
    if k == 0 {
        assert(0nat % w == 0) by (nonlinear_arith) requires w > 0 {}
    } else {
        lemma_read_cadence(w, (k - 1) as nat);
        let prev = ((k - 1) as nat) % w;
        assert(counter_after(0, w, k) == if prev + 1 == w { 0nat } else { prev + 1 });
        assert(prev < w) by (nonlinear_arith) requires w > 0, prev == ((k - 1) as nat) % w {}
        if prev + 1 == w {
            assert(k % w == 0) by (nonlinear_arith) requires w > 0, prev == ((k - 1) as nat) % w, prev + 1 == w, k > 0 {}
        } else {
            assert(k % w == prev + 1) by (nonlinear_arith) requires w > 0, prev == ((k - 1) as nat) % w, prev + 1 < w, k > 0 {}
        }
    }
}

/// The hub tick is the smaller of 60 seconds and the smallest read interval,
/// and each device's ticks between reads round its interval up to a multiple of the tick.
pub proof fn lemma_cadence(intervals: Seq<u32>, i: int, tick: nat, w: nat)
    requires
        0 <= i < intervals.len(),
        tick == seq_min(intervals, 60),
        tick > 0,
        w as int == (intervals[i] as int + tick as int - 1) / (tick as int),
    ensures
        tick <= 60,
        tick <= intervals[i],
        w * tick >= intervals[i],
        w * tick < intervals[i] + tick,
        (exists|j: int| 0 <= j < intervals.len() && intervals[j] == tick) || tick == 60,
{
    lemma_seq_min_props(intervals, 60);
    let x = intervals[i] as nat;
    assert(w * tick >= x && w * tick < x + tick) by (nonlinear_arith)
        requires
            tick > 0,
            w as int == (x as int + tick as int - 1) / (tick as int),
    {
    }
}

proof fn lemma_seq_min_props(v: Seq<u32>, cap: nat)
    ensures
        seq_min(v, cap) <= cap,
        forall|i: int| 0 <= i < v.len() ==> seq_min(v, cap) <= v[i],
        (exists|j: int| 0 <= j < v.len() && v[j] == seq_min(v, cap)) || seq_min(v, cap) == cap,
    decreases v.len(),
{
    if v.len() > 0 {
        let d = v.drop_last();
        lemma_seq_min_props(d, cap);
        assert forall|i: int| 0 <= i < v.len() implies seq_min(v, cap) <= v[i] by {
            if i < v.len() - 1 {
                assert(d[i] == v[i]);
            }
        }
        if seq_min(v, cap) != cap {
            if v.last() as nat == seq_min(v, cap) {
                assert(v[v.len() - 1] == seq_min(v, cap));
            } else {
                let j = choose|j: int| 0 <= j < d.len() && d[j] == seq_min(d, cap);
                assert(v[j] == d[j]);
            }
        }
    }
}

/// The value composed from register words: the first word for `Int16`, the
/// first word as high half and the second as low half for `Int32`.
pub open spec fn composed(words: Seq<u16>, format: ModbusRegisterFormat) -> Option<nat> {
    match format {
        ModbusRegisterFormat::Int16 => if words.len() >= 1 { Some(words[0] as nat) } else { None },
        ModbusRegisterFormat::Int32 => if words.len() >= 2 { Some(words[0] as nat * 65536 + words[1] as nat) } else { None },
    }
}

/// Composes the words of a register; none when too few words came back.
pub fn compose_value(words: &Vec<u16>, format: ModbusRegisterFormat) -> (r: Option<u32>)
    ensures
        match composed(words@, format) {
            Some(v) => r == Some(v as u32) && v < 0x1_0000_0000,
            None => r is None,
        },
{
    match format {
        ModbusRegisterFormat::Int16 => if words.len() >= 1 { Some(words[0] as u32) } else { None },
        ModbusRegisterFormat::Int32 => if words.len() >= 2 {
            let hi = words[0] as u32;
            let lo = words[1] as u32;
            assert((hi << 16u32) | lo == hi * 65536 + lo) by (bit_vector)
                requires hi < 65536, lo < 65536;
            Some((hi << 16u32) | lo)
        } else {
            None
        },
    }
}

/// `v * mantissa * 10^exponent`, rounded to the nearest integer, halves away from zero.
pub open spec fn scaled_round(v: nat, s: Scaler) -> int {
    let q = v as int * s.mantissa as int;
    if s.exponent >= 0 {
        q * pow10(s.exponent as nat) as int
    } else {
        let d = pow10((-s.exponent) as nat) as int;
        if q >= 0 { (q + d / 2) / d } else { -((-q + d / 2) / d) }
    }
}

fn pow10_i128(n: u32) -> (r: i128)
    requires
        n <= 9,
    ensures
        r as int == pow10(n as nat),
        1 <= r <= 1_000_000_000,
{
    proof {
        reveal_with_fuel(pow10, 10);
        lemma_pow10_mono(n as nat, 9);
    }
    let mut r: i128 = 1;
    let mut i: u32 = 0;
    while i < n
        invariant
            i <= n <= 9,
            r as int == pow10(i as nat),
            pow10(9) == 1_000_000_000,
            pow10(n as nat) <= 1_000_000_000,
        decreases n - i,
    {
        proof { lemma_pow10_mono((i + 1) as nat, n as nat); }
        r = r * 10;
        i = i + 1;
    }
    proof { lemma_pow10_mono(0, n as nat); }
    r
}

/// Scales a composed value and rounds it.
pub fn scale_value(v: u32, scaler: Scaler) -> (r: i128)
    requires
        scaler.wf(),
    ensures
        r as int == scaled_round(v as nat, scaler),
        r > i128::MIN,
{
    let a = v as i128;
    let b = scaler.mantissa as i128;
    assert(-0x1_0000_0000 * 0x8000_0000 <= a * b <= 0x1_0000_0000 * 0x8000_0000) by (nonlinear_arith)
        requires 0 <= a < 0x1_0000_0000, -0x8000_0000 <= b < 0x8000_0000,
    {
    }
    let q: i128 = a * b;
    if scaler.exponent >= 0 {
        let f = pow10_i128(scaler.exponent as u32);
        assert(-0x1_0000_0000 * 0x8000_0000 * 1_000_000_000 <= q * f <= 0x1_0000_0000 * 0x8000_0000 * 1_000_000_000) by (nonlinear_arith)
            requires -0x1_0000_0000 * 0x8000_0000 <= q <= 0x1_0000_0000 * 0x8000_0000, 1 <= f <= 1_000_000_000,
        {
        }
        q * f
    } else {
        let d = pow10_i128((-(scaler.exponent as i32)) as u32);
        if q >= 0 {
            (q + d / 2) / d
        } else {
            let t = (-q + d / 2) / d;
            let ghost nn: int = (-q) as int + (d as int) / 2;
            assert(t as int <= nn) by (nonlinear_arith)
                requires t as int == nn / (d as int), d as int >= 1, nn >= 0,
            {
            }
            -t
        }
    }
}

/// The published value of a scaled reading under value mappings: the first
/// mapping whose text is the reading's decimal text, else the first `_`
/// mapping, else the reading itself.
pub open spec fn mapped_value(scaled: int, mappings: Seq<(Seq<char>, ScalarView)>) -> ScalarView {
    if exists|i: int| 0 <= i < mappings.len() && mappings[i].0 == int_text(scaled) {
        let i = choose|i: int| 0 <= i < mappings.len() && mappings[i].0 == int_text(scaled)
            && forall|j: int| 0 <= j < i ==> mappings[j].0 != int_text(scaled);
        mappings[i].1
    } else if exists|i: int| 0 <= i < mappings.len() && mappings[i].0 == "_"@ {
        let i = choose|i: int| 0 <= i < mappings.len() && mappings[i].0 == "_"@
            && forall|j: int| 0 <= j < i ==> mappings[j].0 != "_"@;
        mappings[i].1
    } else {
        ScalarView::Int(scaled)
    }
}

/// Abstract form of a list of mappings.
pub open spec fn mappings_view(m: Seq<Mapping>) -> Seq<(Seq<char>, ScalarView)> {
    m.map_values(|x: Mapping| (x.data@, x.mapping@))
}

/// An exact match wins over the wildcard, and without either the reading stays.
pub proof fn lemma_mapping_precedence(scaled: int, mappings: Seq<(Seq<char>, ScalarView)>, i: int, w: int)
    requires
        0 <= i < mappings.len(),
        mappings[i].0 == int_text(scaled),
        forall|j: int| 0 <= j < i ==> mappings[j].0 != int_text(scaled),
        0 <= w < mappings.len(),
        mappings[w].0 == "_"@,
    ensures
        mapped_value(scaled, mappings) == mappings[i].1,
        (forall|j: int| 0 <= j < mappings.len() ==> mappings[j].0 != int_text(scaled) && mappings[j].0 != "_"@)
            ==> mapped_value(scaled, mappings) == ScalarView::Int(scaled),
{
    let k = choose|k: int| 0 <= k < mappings.len() && mappings[k].0 == int_text(scaled)
        && forall|j: int| 0 <= j < k ==> mappings[j].0 != int_text(scaled);
    assert(k == i) by {
        if k < i { assert(mappings[k].0 != int_text(scaled)); }
        if k > i { assert(mappings[i].0 != int_text(scaled)); }
    }
}

fn clone_scalar(s: &Scalar) -> (r: Scalar)
    ensures
        r@ == s@,
{
    match s {
        Scalar::Null => Scalar::Null,
        Scalar::Bool(b) => Scalar::Bool(*b),
        Scalar::Int(i) => Scalar::Int(*i),
        Scalar::Scaled(m, e) => Scalar::Scaled(*m, *e),
        Scalar::Text(t) => Scalar::Text(t.clone()),
    }
}

/// Applies the value mappings of a register to a scaled reading.
pub fn apply_mappings(scaled: i128, mappings: &Vec<Mapping>) -> (r: Scalar)
    requires
        scaled > i128::MIN,
    ensures
        r@ == mapped_value(scaled as int, mappings_view(mappings@)),
{
    let ghost ms = mappings_view(mappings@);
    let mut text: Vec<char> = Vec::new();
    push_int_text(&mut text, scaled);
    let mut i: usize = 0;
    while i < mappings.len()
        invariant
            i <= mappings@.len(),
            ms == mappings_view(mappings@),
            text@ == int_text(scaled as int),
            forall|j: int| 0 <= j < i ==> ms[j].0 != int_text(scaled as int),
        decreases mappings.len() - i,
    {
        let d = chars_of(mappings[i].data.as_str());
        if crate::text::chars_eq(&d, &text) {
            proof {
                assert(ms[i as int].0 == int_text(scaled as int));
                lemma_first_match(ms, int_text(scaled as int), i as int);
            }
            return clone_scalar(&mappings[i].mapping);
        }
        i = i + 1;
    }
    let mut k: usize = 0;
    while k < mappings.len()
        invariant
            k <= mappings@.len(),
            ms == mappings_view(mappings@),
            forall|j: int| 0 <= j < mappings@.len() ==> ms[j].0 != int_text(scaled as int),
            forall|j: int| 0 <= j < k ==> ms[j].0 != "_"@,
        decreases mappings.len() - k,
    {
        if str_eq(mappings[k].data.as_str(), "_") {
            proof {
                assert(ms[k as int].0 == "_"@);
                lemma_first_match(ms, "_"@, k as int);
            }
            return clone_scalar(&mappings[k].mapping);
        }
        k = k + 1;
    }
    Scalar::Int(scaled)
}

proof fn lemma_first_match(ms: Seq<(Seq<char>, ScalarView)>, t: Seq<char>, i: int)
    requires
        0 <= i < ms.len(),
        ms[i].0 == t,
        forall|j: int| 0 <= j < i ==> ms[j].0 != t,
    ensures
        (choose|k: int| 0 <= k < ms.len() && ms[k].0 == t && forall|j: int| 0 <= j < k ==> ms[j].0 != t) == i,
{
    let k = choose|k: int| 0 <= k < ms.len() && ms[k].0 == t && forall|j: int| 0 <= j < k ==> ms[j].0 != t;
    assert(k == i) by {
        if k < i { assert(ms[k].0 != t); }
        if k > i { assert(ms[i].0 != t); }
    }
}

fn push_int_text(out: &mut Vec<char>, v: i128)
    requires
        v > i128::MIN,
    ensures
        final(out)@ == old(out)@ + int_text(v as int),
{
    proof { reveal_strlit("-"); }
    if v < 0 {
        out.push('-');
        push_dec_u128(out, (-v) as u128);
        assert(final(out)@ =~= old(out)@ + int_text(v as int));
    } else {
        push_dec_u128(out, v as u128);
    }
}

/// The reading of a physical register from its words: composed, scaled and
/// rounded, then mapped; also the number that templates see.
pub fn decode_register(reg: &ModbusRegister, words: &Vec<u16>) -> (r: Option<(Scalar, i128)>)
    requires
        reg.scaler.wf(),
    ensures
        match composed(words@, reg.format) {
            Some(v) => r matches Some((value, num)) && num as int == scaled_round(v, reg.scaler)
                && value@ == mapped_value(num as int, mappings_view(reg.mappings@)),
            None => r is None,
        },
{
    match compose_value(words, reg.format) {
        Some(v) => {
            let num = scale_value(v, reg.scaler);
            let value = apply_mappings(num, &reg.mappings);
            Some((value, num))
        },
        None => None,
    }
}

/// The name of a register of either kind.
pub open spec fn register_name(r: Register) -> Seq<char> {
    match r {
        Register::Template(t) => t.name@,
        Register::Modbus(m) => m.name@,
    }
}

/// The variables that template expressions see: each physical register that
/// was read, under its name, with its scaled reading, in register order.
pub open spec fn context_of(regs: Seq<Register>, readings: Seq<Option<i128>>) -> Seq<(Seq<char>, int)>
    decreases regs.len(),
{
    if regs.len() == 0 || readings.len() == 0 {
        Seq::empty()
    } else {
        let prev = context_of(regs.drop_last(), readings.drop_last());
        match (regs.last(), readings.last()) {
            (Register::Modbus(m), Some(v)) => prev.push((m.name@, v as int)),
            _ => prev,
        }
    }
}

/// Builds the variables for the template expressions of a device from the
/// readings of its registers (`None` for a register not read).
pub fn template_context(registers: &Vec<Register>, readings: &Vec<Option<i128>>) -> (r: Vec<(String, i128)>)
    requires
        readings@.len() == registers@.len(),
    ensures
        r@.map_values(|e: (String, i128)| (e.0@, e.1 as int)) == context_of(registers@, readings@),
{
    let mut out: Vec<(String, i128)> = Vec::new();
    let mut i: usize = 0;
    while i < registers.len()
        invariant
            readings@.len() == registers@.len(),
            i <= registers@.len(),
            out@.map_values(|e: (String, i128)| (e.0@, e.1 as int))
                == context_of(registers@.subrange(0, i as int), readings@.subrange(0, i as int)),
        decreases registers.len() - i,
    {
        let ghost before = out@.map_values(|e: (String, i128)| (e.0@, e.1 as int));
        proof {
            assert(registers@.subrange(0, i + 1).drop_last() =~= registers@.subrange(0, i as int));
            assert(readings@.subrange(0, i + 1).drop_last() =~= readings@.subrange(0, i as int));
        }
        match (&registers[i], readings[i]) {
            (Register::Modbus(m), Some(v)) => {
                let name = m.name.clone();
                let ghost nv = (name@, v as int);
                out.push((name, v));
                assert(out@.map_values(|e: (String, i128)| (e.0@, e.1 as int)) =~= before.push(nv));
            },
            _ => {},
        }
        i = i + 1;
    }
    assert(registers@.subrange(0, registers@.len() as int) =~= registers@);
    assert(readings@.subrange(0, readings@.len() as int) =~= readings@);
    out
}

/// Templates see only physical-register values: every variable is named
/// after a physical register; so when register names are unique, no
/// template's name is bound and a template naming another template finds
/// no value.
pub proof fn lemma_templates_see_physical_only(regs: Seq<Register>, readings: Seq<Option<i128>>)
    requires
        readings.len() == regs.len(),
    ensures
        forall|k: int| 0 <= k < context_of(regs, readings).len() ==> exists|i: int| 0 <= i < regs.len()
            && #[trigger] regs[i] is Modbus && register_name(regs[i]) == (#[trigger] context_of(regs, readings)[k]).0,
        (forall|a: int, b: int| 0 <= a < b < regs.len() ==> register_name(regs[a]) != register_name(regs[b]))
            ==> forall|t: int, k: int| 0 <= t < regs.len() && (#[trigger] regs[t]) is Template
                && 0 <= k < context_of(regs, readings).len() ==> (#[trigger] context_of(regs, readings)[k]).0 != register_name(regs[t]),
    decreases regs.len(),
{
    let c = context_of(regs, readings);
    if regs.len() > 0 {
        let dr = regs.drop_last();
        let dd = readings.drop_last();
        lemma_templates_see_physical_only(dr, dd);
        let pc = context_of(dr, dd);
        assert forall|k: int| 0 <= k < c.len() implies exists|i: int| 0 <= i < regs.len()
            && #[trigger] regs[i] is Modbus && register_name(regs[i]) == (#[trigger] c[k]).0 by {
            if k < pc.len() {
                assert(c[k] == pc[k]);
                assert(pc[k] == pc[k]);
                let i = choose|i: int| 0 <= i < dr.len() && #[trigger] dr[i] is Modbus && register_name(dr[i]) == pc[k].0;
                assert(regs[i] == dr[i]);
            } else {
                assert(regs[regs.len() - 1] is Modbus);
            }
        }
        if forall|a: int, b: int| 0 <= a < b < regs.len() ==> register_name(regs[a]) != register_name(regs[b]) {
            assert forall|t: int, k: int| 0 <= t < regs.len() && (#[trigger] regs[t]) is Template && 0 <= k < c.len()
                implies (#[trigger] c[k]).0 != register_name(regs[t]) by {
                assert(c[k] == c[k]);
                let i = choose|i: int| 0 <= i < regs.len() && #[trigger] regs[i] is Modbus && register_name(regs[i]) == c[k].0;
                assert(i != t);
            }
        }
    }
}

/// The presentation attributes of a register: platform, name, device class, unit, state class.
pub open spec fn presentation(r: Register) -> (HAPlatform, Seq<char>, Seq<char>, Seq<char>, Seq<char>) {
    match r {
        Register::Template(t) => (t.platform, t.name@, t.device_class@, t.unit_of_measurement@, t.state_class@),
        Register::Modbus(m) => (m.platform, m.name@, m.device_class@, m.unit_of_measurement@, m.state_class@),
    }
}

/// The discovery record of a Modbus device: one component per register,
/// keyed by the register's name and reading that key of the published record.
pub fn device_discovery(dev_name: &String, manu: String, model: String, registers: &Vec<Register>) -> (r: HaDiscover)
    ensures
        r.dev.name@ == dev_name@,
        r.dev.manufacturer@ == manu@,
        r.dev.model@ == model@,
        r.cmps@.len() == registers@.len(),
        forall|i: int| 0 <= i < registers@.len() ==> {
            let (platform, name, dclass, unit, state_class) = presentation(#[trigger] registers@[i]);
            &&& r.cmps@[i].0@ == name
            &&& r.cmps@[i].1.p@ == platform_name(platform)
            &&& r.cmps@[i].1.name@ == name
            &&& r.cmps@[i].1.device_class@ == dclass
            &&& r.cmps@[i].1.unit_of_measurement@ == unit
            &&& r.cmps@[i].1.state_class@ == state_class
            &&& r.cmps@[i].1.value_template@ == value_template_of(name)
        },
{
    let mut d = HaDiscover::new(dev_name.clone(), manu, model, lit("ModbusTCP"));
    let mut i: usize = 0;
    while i < registers.len()
        invariant
            i <= registers@.len(),
            d.dev.name@ == dev_name@,
            d.dev.manufacturer@ == manu@,
            d.dev.model@ == model@,
            d.cmps@.len() == i,
            forall|k: int| 0 <= k < i ==> {
                let (platform, name, dclass, unit, state_class) = presentation(#[trigger] registers@[k]);
                &&& d.cmps@[k].0@ == name
                &&& d.cmps@[k].1.p@ == platform_name(platform)
                &&& d.cmps@[k].1.name@ == name
                &&& d.cmps@[k].1.device_class@ == dclass
                &&& d.cmps@[k].1.unit_of_measurement@ == unit
                &&& d.cmps@[k].1.state_class@ == state_class
                &&& d.cmps@[k].1.value_template@ == value_template_of(name)
            },
        decreases registers.len() - i,
    {
        let (platform, name, dclass, unit, state_class) = match &registers[i] {
            Register::Template(t) => (t.platform, t.name.clone(), t.device_class.clone(), t.unit_of_measurement.clone(),
                t.state_class.clone()),
            Register::Modbus(m) => (m.platform, m.name.clone(), m.device_class.clone(), m.unit_of_measurement.clone(),
                m.state_class.clone()),
        };
        let key = name.clone();
        let cmp = HaComponent::new(platform, dev_name.clone(), dclass, unit, lit("ModbusTCP"), name, state_class);
        d.cmps.push((key, cmp));
        i = i + 1;
    }
    d
}

} // verus!
