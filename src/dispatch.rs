//! The dispatch bridge's bookkeeping: which delivery channels listen on
//! which bus topic, and the names of the topics the gateway publishes on.
use vstd::prelude::*;
use crate::text::{lit, chars_of, string_of, append_chars, str_eq};
use crate::models::MeteringData;
use crate::ha::HaDiscover;

verus! {

/// The delivery channels registered on a topic, in registration order (none when unknown).
pub open spec fn listeners<S>(calls: Seq<(String, Vec<S>)>, topic: Seq<char>) -> Seq<S>
    decreases calls.len(),
{
    if calls.len() == 0 {
        Seq::empty()
    } else if calls.last().0@ == topic {
        calls.last().1@
    } else {
        listeners(calls.drop_last(), topic)
    }
}

/// Whether every topic is listed at most once.
pub open spec fn topics_unique<S>(calls: Seq<(String, Vec<S>)>) -> bool {
    forall|i: int, j: int| 0 <= i < j < calls.len() ==> calls[i].0@ != calls[j].0@
}

/// Delivery channels by topic, each topic with a non-empty list.
pub struct Callbacks<S> {
    pub calls: Vec<(String, Vec<S>)>,
}

proof fn lemma_listeners_at<S>(calls: Seq<(String, Vec<S>)>, i: int)
    requires
        topics_unique(calls),
        0 <= i < calls.len(),
    ensures
        listeners(calls, calls[i].0@) == calls[i].1@,
    decreases calls.len(),
{
    if i < calls.len() - 1 {
        assert(calls.last().0@ != calls[i].0@);
        assert(calls.drop_last()[i] == calls[i]);
        lemma_listeners_at(calls.drop_last(), i);
    }
}

proof fn lemma_listeners_absent<S>(calls: Seq<(String, Vec<S>)>, t: Seq<char>)
    requires
        forall|i: int| 0 <= i < calls.len() ==> calls[i].0@ != t,
    ensures
        listeners(calls, t) == Seq::<S>::empty(),
    decreases calls.len(),
{
    if calls.len() > 0 {
        assert(calls.last().0@ != t) by { assert(calls[calls.len() - 1].0@ != t); }
        assert forall|i: int| 0 <= i < calls.len() - 1 implies calls.drop_last()[i].0@ != t by {
            assert(calls.drop_last()[i] == calls[i]);
        }
        lemma_listeners_absent(calls.drop_last(), t);
    }
}

impl<S> Callbacks<S> {
    /// Whether each topic appears once.
    pub open spec fn wf(&self) -> bool {
        topics_unique(self.calls@)
    }

    /// A registry without topics.
    pub fn new() -> (r: Callbacks<S>)
        ensures
            r.wf(),
            r.calls@.len() == 0,
    {
        Callbacks { calls: Vec::new() }
    }

    fn position(&self, topic: &str) -> (r: Option<usize>)
        ensures
            match r {
                Some(i) => i < self.calls@.len() && self.calls@[i as int].0@ == topic@,
                None => forall|j: int| 0 <= j < self.calls@.len() ==> self.calls@[j].0@ != topic@,
            },
    {
        let mut i: usize = 0;
        while i < self.calls.len()
            invariant
                i <= self.calls@.len(),
                forall|j: int| 0 <= j < i ==> self.calls@[j].0@ != topic@,
            decreases self.calls.len() - i,
        {
            if str_eq(self.calls[i].0.as_str(), topic) {
                return Some(i);
            }
            i = i + 1;
        }
        None
    }

    /// Registers a delivery channel on a topic, after those already there.
    pub fn insert(&mut self, topic: String, callback: S)
        requires
            old(self).wf(),
        ensures
            final(self).wf(),
            listeners(final(self).calls@, topic@) == listeners(old(self).calls@, topic@).push(callback),
            forall|t: Seq<char>| t != topic@ ==> listeners(final(self).calls@, t) == listeners(old(self).calls@, t),
    {
        let ghost old_calls = self.calls@;
        match self.position(topic.as_str()) {
            Some(i) => {
                proof { lemma_listeners_at(old_calls, i as int); }
                let (t, mut list) = self.calls.remove(i);
                let ghost old_list = list@;
                list.push(callback);
                self.calls.insert(i, (t, list));
                proof {
                    let c = self.calls@;
                    assert(c.len() == old_calls.len());
                    assert forall|k: int| 0 <= k < c.len() && k != i implies c[k] == old_calls[k] by {}
                    assert(topics_unique(c)) by {
                        assert forall|a: int, b: int| 0 <= a < b < c.len() implies c[a].0@ != c[b].0@ by {
                            assert(c[a].0@ == old_calls[a].0@);
                            assert(c[b].0@ == old_calls[b].0@);
                        }
                    }
                    lemma_listeners_at(c, i as int);
                    assert forall|t: Seq<char>| t != topic@ implies listeners(c, t) == listeners(old_calls, t) by {
                        if exists|k: int| 0 <= k < c.len() && c[k].0@ == t {
                            let k = choose|k: int| 0 <= k < c.len() && c[k].0@ == t;
                            lemma_listeners_at(c, k);
                            lemma_listeners_at(old_calls, k);
                        } else {
                            lemma_listeners_absent(c, t);
                            assert forall|k: int| 0 <= k < old_calls.len() implies old_calls[k].0@ != t by {
                                assert(c[k].0@ == old_calls[k].0@);
                            }
                            lemma_listeners_absent(old_calls, t);
                        }
                    }
                }
            },
            None => {
                proof { lemma_listeners_absent(old_calls, topic@); }
                let ghost tv = topic@;
                let mut list: Vec<S> = Vec::new();
                list.push(callback);
                self.calls.push((topic, list));
                proof {
                    let c = self.calls@;
                    assert(c.drop_last() =~= old_calls);
                    assert(topics_unique(c)) by {
                        assert forall|a: int, b: int| 0 <= a < b < c.len() implies c[a].0@ != c[b].0@ by {
                            if b == c.len() - 1 {
                                assert(c[a] == old_calls[a]);
                            } else {
                                assert(c[a] == old_calls[a] && c[b] == old_calls[b]);
                            }
                        }
                    }
                    assert(listeners(c, tv) =~= Seq::<S>::empty().push(callback));
                }
            },
        }
    }

    /// The delivery channels of a topic, in registration order.
    pub fn targets(&self, topic: &str) -> (r: Option<&Vec<S>>)
        requires
            self.wf(),
        ensures
            match r {
                Some(v) => v@ == listeners(self.calls@, topic@),
                None => listeners(self.calls@, topic@).len() == 0,
            },
    {
        match self.position(topic) {
            Some(i) => {
                proof { lemma_listeners_at(self.calls@, i as int); }
                Some(&self.calls[i].1)
            },
            None => {
                proof { lemma_listeners_absent(self.calls@, topic@); }
                None
            },
        }
    }

    /// The registered topics.
    pub fn get_topics(&self) -> (r: Vec<String>)
        ensures
            r@.len() == self.calls@.len(),
            forall|i: int| 0 <= i < r@.len() ==> r@[i]@ == self.calls@[i].0@,
    {
        let mut d: Vec<String> = Vec::new();
        let mut i: usize = 0;
        while i < self.calls.len()
            invariant
                i <= self.calls@.len(),
                d@.len() == i,
                forall|k: int| 0 <= k < i ==> d@[k]@ == self.calls@[k].0@,
            decreases self.calls.len() - i,
        {
            d.push(self.calls[i].0.clone());
            i = i + 1;
        }
        d
    }
}

/// The bus topic of a subscription: the topic in the gateway's namespace.
pub fn namespaced_topic(topic: &str) -> (r: String)
    ensures
        r@ == "energy2mqtt/"@ + topic@,
{
    let mut v = chars_of("energy2mqtt/");
    append_chars(&mut v, topic);
    string_of(&v)
}

/// The topic of the latest values of a meter.
pub fn device_topic(protocol: &str, meter_name: &str) -> (r: String)
    ensures
        r@ == "energy2mqtt/devs/"@ + protocol@ + "/"@ + meter_name@,
{
    let mut v = chars_of("energy2mqtt/devs/");
    append_chars(&mut v, protocol);
    append_chars(&mut v, "/");
    append_chars(&mut v, meter_name);
    string_of(&v)
}

/// The retained topic of the number of configured devices of a protocol.
pub fn count_topic(protocol: &str) -> (r: String)
    ensures
        r@ == "energy2mqtt/mgt/"@ + protocol@ + "/count"@,
{
    let mut v = chars_of("energy2mqtt/mgt/");
    append_chars(&mut v, protocol);
    append_chars(&mut v, "/count");
    string_of(&v)
}

/// A message to publish on the bus.
pub struct PublishData {
    pub topic: String,
    pub payload: String,
    pub qos: u8,
    pub retain: bool,
}

/// A command to forward.
pub struct CommandData {
    pub topic: String,
    pub value: String,
    pub retain: bool,
}

/// Devices configured per protocol.
pub struct MeterCounts {
    pub modbus: u32,
    pub knx: u32,
    pub victron: u32,
}

/// Health data of the gateway.
pub struct ManagementData {
    pub uptime_seconds: u64,
    pub meter_counts: MeterCounts,
    pub timestamp: u64,
}

/// The retained message that announces how many devices a protocol has.
pub fn protocol_count_message(protocol: &str, count: u32) -> (r: PublishData)
    ensures
        r.topic@ == "energy2mqtt/mgt/"@ + protocol@ + "/count"@,
        r.payload@ == crate::text::dec_str(count as nat),
        r.retain,
{
    let mut p: Vec<char> = Vec::new();
    crate::text::push_dec(&mut p, count as u64);
    PublishData { topic: count_topic(protocol), payload: string_of(&p), qos: 1, retain: true }
}

/// The retained message that announces the uptime in seconds.
pub fn uptime_message(uptime_seconds: u64) -> (r: PublishData)
    ensures
        r.topic@ == "energy2mqtt/mgt/uptime"@,
        r.payload@ == crate::text::dec_str(uptime_seconds as nat),
        r.retain,
{
    let mut p: Vec<char> = Vec::new();
    crate::text::push_dec(&mut p, uptime_seconds);
    PublishData { topic: lit("energy2mqtt/mgt/uptime"), payload: string_of(&p), qos: 1, retain: true }
}

/// What producers hand to the dispatch bridge.
pub enum Transmission<S> {
    Metering(MeteringData),
    AutoDiscovery(HaDiscover),
    Command(CommandData),
    Subscribe(String, S),
    Publish(PublishData),
}

/// State of the connection to the message bus.
pub enum MqttConnectionStatus {
    Connected,
    Disconnected,
    Reconnecting,
    Error(String),
}

/// Health of the bus connection; times are Unix seconds.
pub struct MqttHealthStatus {
    pub status: MqttConnectionStatus,
    pub last_connected: Option<u64>,
    pub last_message_sent: Option<u64>,
    pub last_message_received: Option<u64>,
    pub connection_attempts: u64,
}

impl MqttHealthStatus {
    /// A connection that has not been made yet.
    pub fn new() -> (r: MqttHealthStatus)
        ensures
            r.status is Disconnected,
            r.last_connected is None,
            r.last_message_sent is None,
            r.last_message_received is None,
            r.connection_attempts == 0,
    {
        MqttHealthStatus {
            status: MqttConnectionStatus::Disconnected,
            last_connected: None,
            last_message_sent: None,
            last_message_received: None,
            connection_attempts: 0,
        }
    }
}

/// Status of the gateway: when it started (Unix seconds) and its bus health.
pub struct AppStatus {
    pub start_time: u64,
    pub mqtt_health: MqttHealthStatus,
}

impl AppStatus {
    /// The status of a gateway started at `now`.
    pub fn new(now: u64) -> (r: AppStatus)
        ensures
            r.start_time == now,
            r.mqtt_health.status is Disconnected,
            r.mqtt_health.connection_attempts == 0,
    {
        AppStatus { start_time: now, mqtt_health: MqttHealthStatus::new() }
    }

    /// Seconds since the start, at time `now` (zero if the clock went back).
    pub fn uptime_seconds(&self, now: u64) -> (r: u64)
        ensures
            r == if now >= self.start_time { now - self.start_time } else { 0 },
    {
        if now >= self.start_time { now - self.start_time } else { 0 }
    }
}

} // verus!
