//! Topic bookkeeping of the Victron bridge: the latest payload per topic and
//! the read requests to send.
use vstd::prelude::*;
use crate::text::{lit, chars_of, string_of, str_eq};
use crate::config::VictronConfig;

verus! {

/// The latest payload of a topic, when it came, and the record key it feeds.
pub struct Topic {
    pub payload: String,
    pub updated: u64,
    pub json_key: String,
    pub need_read: bool,
}

impl Topic {
    /// A topic whose payload arrived at `now`.
    pub fn new(payload: String, now: u64) -> (r: Topic)
        ensures
            r.payload == payload,
            r.updated == now,
            r.json_key@.len() == 0,
            r.need_read,
    {
        Topic { payload, updated: now, json_key: String::new(), need_read: true }
    }

    /// A topic feeding record key `key`, whose payload arrived at `now`.
    pub fn new_with_key(payload: String, key: String, now: u64) -> (r: Topic)
        ensures
            r.payload == payload,
            r.updated == now,
            r.json_key == key,
            r.need_read,
    {
        Topic { payload, updated: now, json_key: key, need_read: true }
    }

    /// A new payload for a known topic, keeping its record key.
    pub fn create_from(old: &Topic, payload: String, now: u64) -> (r: Topic)
        ensures
            r.payload == payload,
            r.updated == now,
            r.json_key@ == old.json_key@,
            r.need_read,
    {
        Topic { payload, updated: now, json_key: old.json_key.clone(), need_read: true }
    }

    /// A topic that has not been received yet.
    pub fn empty() -> (r: Topic)
        ensures
            r.payload@.len() == 0,
            r.updated == 0,
            r.json_key@.len() == 0,
            r.need_read,
    {
        Topic { payload: String::new(), updated: 0, json_key: String::new(), need_read: true }
    }
}

/// The state of one Victron installation.
pub struct VictronData {
    pub portal_id: String,
    pub read_topics: Vec<String>,
    pub topic_mapping: Vec<(String, Option<Topic>)>,
    pub conf: VictronConfig,
}

/// Whether `N/` stands at position `i` of `s`.
pub open spec fn nslash_at(s: Seq<char>, i: int) -> bool {
    0 <= i && i + 1 < s.len() && s[i] == 'N' && s[i + 1] == '/'
}

/// `s` with its first `N/` replaced by `R/`.
pub open spec fn read_request_topic(s: Seq<char>) -> Seq<char> {
    if exists|i: int| #[trigger] nslash_at(s, i) {
        let i = choose|i: int| #[trigger] nslash_at(s, i) && forall|j: int| 0 <= j < i ==> !nslash_at(s, j);
        s.update(i, 'R')
    } else {
        s
    }
}

fn to_read_request(t: &String) -> (r: String)
    ensures
        r@ == read_request_topic(t@),
{
    let mut v = chars_of(t.as_str());
    let n = v.len();
    let mut i: usize = 0;
    while n > 0 && i < n - 1
        invariant
            n == v@.len(),
            v@ == t@,
            forall|j: int| 0 <= j < i ==> !nslash_at(t@, j),
        decreases n - i,
    {
        if v[i] == 'N' && v[i + 1] == '/' {
            proof {
                let s = t@;
                assert(nslash_at(s, i as int));
                let k = choose|k: int| #[trigger] nslash_at(s, k) && forall|j: int| 0 <= j < k ==> !nslash_at(s, j);
                assert(k == i as int) by {
                    if k < i { assert(!nslash_at(s, k)); }
                    if k > i { assert(!nslash_at(s, i as int)); }
                }
            }
            v.set(i, 'R');
            return string_of(&v);
        }
        i = i + 1;
    }
    proof {
        assert forall|j: int| !nslash_at(t@, j) by {
            if nslash_at(t@, j) {
                assert(j < i);
            }
        }
    }
    string_of(&v)
}

impl VictronData {
    /// The state of an installation not heard from yet.
    pub fn new(conf: VictronConfig) -> (r: VictronData)
        ensures
            r.portal_id@.len() == 0,
            r.read_topics@.len() == 0,
            r.topic_mapping@.len() == 0,
            r.conf == conf,
    {
        VictronData { portal_id: String::new(), read_topics: Vec::new(), topic_mapping: Vec::new(), conf }
    }

    pub fn set_portal(&mut self, portal: String)
        ensures
            final(self).portal_id == portal,
            final(self).read_topics == old(self).read_topics,
            final(self).topic_mapping == old(self).topic_mapping,
            final(self).conf == old(self).conf,
    {
        self.portal_id = portal;
    }

    /// Records the read request of a notification topic (`N/` becomes `R/`), once.
    pub fn add_read_topic(&mut self, topic: String)
        ensures
            final(self).portal_id == old(self).portal_id,
            final(self).topic_mapping == old(self).topic_mapping,
            final(self).conf == old(self).conf,
            exists|i: int| 0 <= i < final(self).read_topics@.len()
                && #[trigger] final(self).read_topics@[i]@ == read_request_topic(topic@),
            (exists|i: int| 0 <= i < old(self).read_topics@.len()
                && #[trigger] old(self).read_topics@[i]@ == read_request_topic(topic@))
                ==> final(self).read_topics@ == old(self).read_topics@,
            !(exists|i: int| 0 <= i < old(self).read_topics@.len()
                && #[trigger] old(self).read_topics@[i]@ == read_request_topic(topic@))
                ==> final(self).read_topics@.len() == old(self).read_topics@.len() + 1
                && forall|i: int| 0 <= i < old(self).read_topics@.len()
                    ==> #[trigger] final(self).read_topics@[i] == old(self).read_topics@[i],
    {
        let t = to_read_request(&topic);
        let mut i: usize = 0;
        while i < self.read_topics.len()
            invariant
                i <= self.read_topics@.len(),
                t@ == read_request_topic(topic@),
                forall|j: int| 0 <= j < i ==> self.read_topics@[j]@ != t@,
            decreases self.read_topics.len() - i,
        {
            if str_eq(self.read_topics[i].as_str(), t.as_str()) {
                return;
            }
            i = i + 1;
        }
        let ghost n = self.read_topics@.len();
        self.read_topics.push(t);
        assert(self.read_topics@[n as int]@ == read_request_topic(topic@));
    }
}

} // verus!
