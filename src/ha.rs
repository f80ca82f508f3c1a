//! Discovery records for the home-automation controller: devices and the
//! components (sensors, switches, buttons) they expose.
use vstd::prelude::*;
use crate::text::{lit, str_eq, chars_of, string_of, append_chars};

verus! {

/// Identity of a device in a discovery record.
pub struct HaDevice {
    pub ids: String,
    pub name: String,
    pub manufacturer: String,
    pub model: String,
}

/// The software that publishes the discovery records.
pub struct HaOrigin {
    pub name: String,
    pub sw_version: String,
    pub support_url: String,
}

/// Whether a presentation attribute is unset (empty or `NONE`).
pub open spec fn none_text(s: Seq<char>) -> bool {
    s.len() == 0 || s == "NONE"@
}

/// Whether a presentation attribute is unset, so that it is left out of a record.
pub fn is_none_str(value: &String) -> (r: bool)
    ensures
        r == none_text(value@),
{
    chars_of(value.as_str()).len() == 0 || str_eq(value.as_str(), "NONE")
}

/// The kind of a discovered component.
#[derive(Debug, Clone, Copy, PartialEq, Eq, Structural)]
pub enum HAPlatform {
    Sensor,
    BinarySensor,
    Button,
}

/// The platform name of a component kind.
pub open spec fn platform_name(p: HAPlatform) -> Seq<char> {
    match p {
        HAPlatform::Sensor => "sensor"@,
        HAPlatform::BinarySensor => "binary_sensor"@,
        HAPlatform::Button => "button"@,
    }
}

impl HAPlatform {
    pub fn to_string(&self) -> (r: String)
        ensures
            r@ == platform_name(*self),
    {
        match self {
            HAPlatform::Sensor => lit("sensor"),
            HAPlatform::BinarySensor => lit("binary_sensor"),
            HAPlatform::Button => lit("button"),
        }
    }

    /// The kind used when a register map names none.
    pub fn default() -> (r: HAPlatform)
        ensures
            r == HAPlatform::Sensor,
    {
        HAPlatform::Sensor
    }
}

/// One component of a discovered device.
pub struct HaComponent {
    pub p: String,
    pub name: String,
    pub device_class: String,
    pub unit_of_measurement: String,
    pub value_template: String,
    pub unique_id: String,
    pub object_id: String,
    pub via_device: String,
    pub state_class: String,
    pub payload_on: Option<bool>,
    pub payload_off: Option<bool>,
    pub payload_press: Option<String>,
}

/// What `str::to_lowercase` returns for the characters `s`.
pub uninterp spec fn lower_of(s: Seq<char>) -> Seq<char>;

/// Relies on `str::to_lowercase`: the Unicode lower-case mapping of the text.
#[verifier::external_body]
fn to_lower(s: &str) -> (r: String)
    ensures
        r@ == lower_of(s@),
{
    s.to_lowercase()
}

/// `s` with every space replaced by `_`.
pub open spec fn underscored(s: Seq<char>) -> Seq<char> {
    s.map_values(|c: char| if c == ' ' { '_' } else { c })
}

fn underscore(s: &str) -> (r: Vec<char>)
    ensures
        r@ == underscored(s@),
{
    let v = chars_of(s);
    let mut out: Vec<char> = Vec::new();
    let mut i: usize = 0;
    while i < v.len()
        invariant
            v@ == s@,
            i <= v@.len(),
            out@ == underscored(v@.subrange(0, i as int)),
        decreases v.len() - i,
    {
        out.push(if v[i] == ' ' { '_' } else { v[i] });
        i = i + 1;
        assert(out@ =~= underscored(v@.subrange(0, i as int)));
    }
    assert(v@.subrange(0, v@.len() as int) =~= v@);
    out
}

/// The value template that reads key `k` of a published record.
pub open spec fn value_template_of(k: Seq<char>) -> Seq<char> {
    "{{ value_json."@ + k + " }}"@
}

fn value_template(k: &str) -> (r: String)
    ensures
        r@ == value_template_of(k@),
{
    let mut v: Vec<char> = Vec::new();
    append_chars(&mut v, "{{ value_json.");
    append_chars(&mut v, k);
    append_chars(&mut v, " }}");
    string_of(&v)
}

/// The unique id of a component: `e2m_<proto>_<device>_<name>` in lower case.
pub open spec fn unique_id_of(proto: Seq<char>, device: Seq<char>, name: Seq<char>) -> Seq<char> {
    lower_of("e2m_"@ + proto + "_"@ + device + "_"@ + underscored(name))
}

/// The object id of a component: `<device>_<name>` in lower case.
pub open spec fn object_id_of(device: Seq<char>, name: Seq<char>) -> Seq<char> {
    lower_of(device + "_"@ + underscored(name))
}

fn ids_of(device: &str, proto: &str, name: &str) -> (r: (String, String))
    ensures
        r.0@ == unique_id_of(proto@, device@, name@),
        r.1@ == object_id_of(device@, name@),
{
    let safe = underscore(name);
    let mut u: Vec<char> = Vec::new();
    append_chars(&mut u, "e2m_");
    append_chars(&mut u, proto);
    append_chars(&mut u, "_");
    append_chars(&mut u, device);
    append_chars(&mut u, "_");
    let mut s1 = safe.clone();
    u.append(&mut s1);
    let mut o: Vec<char> = chars_of(device);
    append_chars(&mut o, "_");
    let mut s2 = safe.clone();
    o.append(&mut s2);
    let us = string_of(&u);
    let os = string_of(&o);
    (to_lower(us.as_str()), to_lower(os.as_str()))
}

/// Whether `c` is a sensor component with the given attributes.
pub open spec fn sensor_with(c: HaComponent, name: Seq<char>, dclass: Seq<char>, unit: Seq<char>, key: Seq<char>,
    unique_id: Seq<char>, object_id: Seq<char>, state_class: Seq<char>) -> bool {
    &&& c.p@ == "sensor"@
    &&& c.name@ == name
    &&& c.device_class@ == dclass
    &&& c.unit_of_measurement@ == unit
    &&& c.value_template@ == value_template_of(key)
    &&& c.unique_id@ == unique_id
    &&& c.object_id@ == object_id
    &&& c.state_class@ == state_class
    &&& c.via_device@ == "e2m_management"@
    &&& c.payload_on is None
    &&& c.payload_off is None
    &&& c.payload_press is None
}

fn sensor(device: &str, proto: &str, name: String, json_key: &str, dclass: String, unit: String, state_class: &str) -> (r: HaComponent)
    ensures
        sensor_with(r, name@, dclass@, unit@, json_key@, unique_id_of(proto@, device@, name@),
            object_id_of(device@, name@), state_class@),
{
    let (unique_id, object_id) = ids_of(device, proto, name.as_str());
    HaComponent {
        p: lit("sensor"),
        name,
        device_class: dclass,
        unit_of_measurement: unit,
        value_template: value_template(json_key),
        unique_id,
        object_id,
        state_class: lit(state_class),
        payload_on: None,
        payload_off: None,
        payload_press: None,
        via_device: lit("e2m_management"),
    }
}

impl HaComponent {
    /// A component for a register: its platform, presentation attributes and
    /// the record key it reads (the register's name).
    pub fn new(platform: HAPlatform, device: String, dclass: String, uof: String, proto: String, name: String,
        state_class: String) -> (r: HaComponent)
        ensures
            r.p@ == platform_name(platform),
            r.name@ == name@,
            r.device_class@ == dclass@,
            r.unit_of_measurement@ == uof@,
            r.value_template@ == value_template_of(name@),
            r.unique_id@ == unique_id_of(proto@, device@, name@),
            r.object_id@ == object_id_of(device@, name@),
            r.state_class@ == state_class@,
            r.via_device@ == "e2m_management"@,
            r.payload_on == (if platform == HAPlatform::BinarySensor { Some(true) } else { None }),
            r.payload_off == (if platform == HAPlatform::BinarySensor { Some(false) } else { None }),
            match r.payload_press {
                Some(s) => dclass@ == "restart"@ && s@ == "restart"@,
                None => dclass@ != "restart"@,
            },
    {
        let (unique_id, object_id) = ids_of(device.as_str(), proto.as_str(), name.as_str());
        let binary = platform == HAPlatform::BinarySensor;
        let p_press = if str_eq(dclass.as_str(), "restart") { Some(lit("restart")) } else { None };
        let template = value_template(name.as_str());
        HaComponent {
            p: platform.to_string(),
            name,
            device_class: dclass,
            unit_of_measurement: uof,
            value_template: template,
            unique_id,
            object_id,
            state_class,
            payload_on: if binary { Some(true) } else { None },
            payload_off: if binary { Some(false) } else { None },
            payload_press: p_press,
            via_device: lit("e2m_management"),
        }
    }

    /// An energy sensor in `uof`, totalled over time.
    pub fn new_energy(device: String, uof: String, proto: String, name: String, json_key: String) -> (r: HaComponent)
        ensures
            sensor_with(r, name@, "energy"@, uof@, json_key@, unique_id_of(proto@, device@, name@),
                object_id_of(device@, name@), "total_increasing"@),
    {
        sensor(device.as_str(), proto.as_str(), name, json_key.as_str(), lit("energy"), uof, "total_increasing")
    }

    /// A frequency sensor in Hz.
    pub fn new_freq(device: String, proto: String, name: String, json_key: String) -> (r: HaComponent)
        ensures
            sensor_with(r, name@, "frequency"@, "Hz"@, json_key@, unique_id_of(proto@, device@, name@),
                object_id_of(device@, name@), "measurement"@),
    {
        sensor(device.as_str(), proto.as_str(), name, json_key.as_str(), lit("frequency"), lit("Hz"), "measurement")
    }

    /// A current sensor in A.
    pub fn new_current(device: String, proto: String, name: String, json_key: String) -> (r: HaComponent)
        ensures
            sensor_with(r, name@, "current"@, "A"@, json_key@, unique_id_of(proto@, device@, name@),
                object_id_of(device@, name@), "measurement"@),
    {
        sensor(device.as_str(), proto.as_str(), name, json_key.as_str(), lit("current"), lit("A"), "measurement")
    }

    /// A power sensor in W.
    pub fn new_power(device: String, proto: String, name: String, json_key: String) -> (r: HaComponent)
        ensures
            sensor_with(r, name@, "power"@, "W"@, json_key@, unique_id_of(proto@, device@, name@),
                object_id_of(device@, name@), "measurement"@),
    {
        sensor(device.as_str(), proto.as_str(), name, json_key.as_str(), lit("power"), lit("W"), "measurement")
    }

    /// A voltage sensor in V.
    pub fn new_voltage(device: String, proto: String, name: String, json_key: String) -> (r: HaComponent)
        ensures
            sensor_with(r, name@, "voltage"@, "V"@, json_key@, unique_id_of(proto@, device@, name@),
                object_id_of(device@, name@), "measurement"@),
    {
        sensor(device.as_str(), proto.as_str(), name, json_key.as_str(), lit("voltage"), lit("V"), "measurement")
    }

    /// A percentage sensor of the given class.
    pub fn new_percent(device: String, dclass: String, proto: String, name: String, json_key: String) -> (r: HaComponent)
        ensures
            sensor_with(r, name@, dclass@, "%"@, json_key@, unique_id_of(proto@, device@, name@),
                object_id_of(device@, name@), "measurement"@),
    {
        sensor(device.as_str(), proto.as_str(), name, json_key.as_str(), dclass, lit("%"), "measurement")
    }

    /// Routes the component through another device.
    pub fn set_via(&mut self, via: String)
        ensures
            final(self).via_device@ == via@,
            final(self).name == old(self).name,
            final(self).unique_id == old(self).unique_id,
    {
        self.via_device = via;
    }

    /// A measurement sensor whose ids are given.
    pub fn new_full_sensor(name: String, device_class: String, unit: String, json_key: String, object_id: String,
        unique_id: String) -> (r: HaComponent)
        ensures
            sensor_with(r, name@, device_class@, unit@, json_key@, unique_id@, object_id@, "measurement"@),
    {
        HaComponent {
            p: lit("sensor"),
            name,
            device_class,
            unit_of_measurement: unit,
            value_template: value_template(json_key.as_str()),
            unique_id,
            object_id,
            state_class: lit("measurement"),
            payload_on: None,
            payload_off: None,
            payload_press: None,
            via_device: lit("e2m_management"),
        }
    }
}

/// A discovery record: the device, its origin, its components by key, and topics.
pub struct HaDiscover {
    pub dev: HaDevice,
    pub o: HaOrigin,
    pub cmps: Vec<(String, HaComponent)>,
    pub state_topic: String,
    pub qos: u32,
    pub discover_topic: String,
}

impl HaDiscover {
    /// The discovery record of a device whose state topic is named after the device.
    pub fn new(name: String, manu: String, model: String, proto: String) -> (r: HaDiscover)
        ensures
            r.discover_topic@ == "homeassistant/device/e2m_"@ + proto@ + "-"@ + name@ + "/config"@,
            r.dev.ids@ == "e2m_"@ + proto@ + "_"@ + name@,
            r.dev.name@ == name@,
            r.dev.manufacturer@ == manu@,
            r.dev.model@ == model@,
            r.o.name@ == "energy2mqtt"@,
            r.cmps@.len() == 0,
            r.state_topic@ == "energy2mqtt/devs/"@ + proto@ + "/"@ + name@,
            r.qos == 2,
    {
        let topic = name.clone();
        Self::new_with_topic_from_name(name, manu, model, proto, topic)
    }

    /// The discovery record of a device with a state topic of its own.
    pub fn new_with_topic_from_name(name: String, manu: String, model: String, proto: String, topic: String) -> (r: HaDiscover)
        ensures
            r.discover_topic@ == "homeassistant/device/e2m_"@ + proto@ + "-"@ + name@ + "/config"@,
            r.dev.ids@ == "e2m_"@ + proto@ + "_"@ + name@,
            r.dev.name@ == name@,
            r.dev.manufacturer@ == manu@,
            r.dev.model@ == model@,
            r.o.name@ == "energy2mqtt"@,
            r.cmps@.len() == 0,
            r.state_topic@ == "energy2mqtt/devs/"@ + proto@ + "/"@ + topic@,
            r.qos == 2,
    {
        let mut dt: Vec<char> = Vec::new();
        append_chars(&mut dt, "homeassistant/device/e2m_");
        append_chars(&mut dt, proto.as_str());
        append_chars(&mut dt, "-");
        append_chars(&mut dt, name.as_str());
        append_chars(&mut dt, "/config");
        let mut ids: Vec<char> = Vec::new();
        append_chars(&mut ids, "e2m_");
        append_chars(&mut ids, proto.as_str());
        append_chars(&mut ids, "_");
        append_chars(&mut ids, name.as_str());
        let mut st: Vec<char> = Vec::new();
        append_chars(&mut st, "energy2mqtt/devs/");
        append_chars(&mut st, proto.as_str());
        append_chars(&mut st, "/");
        append_chars(&mut st, topic.as_str());
        HaDiscover {
            discover_topic: string_of(&dt),
            dev: HaDevice { ids: string_of(&ids), name, manufacturer: manu, model },
            o: HaOrigin {
                name: lit("energy2mqtt"),
                sw_version: lit("0.1.1"),
                support_url: lit("https://energy2mqtt.org"),
            },
            cmps: Vec::new(),
            state_topic: string_of(&st),
            qos: 2,
        }
    }

    /// The identity of the device.
    pub fn get_dev_id(&self) -> (r: String)
        ensures
            r@ == self.dev.ids@,
    {
        self.dev.ids.clone()
    }
}

} // verus!
