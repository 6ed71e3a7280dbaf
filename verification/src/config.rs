//! The queue-client configuration: an ordered list of key/value options
//! where a later entry overrides an earlier one with the same key, plus the
//! forced client identity, the broker list and the destination topic.

use vstd::prelude::*;
use vstd::string::StringExecFns;

use crate::options::KafkaOption;

verus! {

/// The fixed client-identity value stamped into every configuration.
pub open spec fn spec_client_id() -> Seq<char> {
    "pcapstreamer"@
}

/// The value that an ordered option list gives to `key`: the value of the
/// last entry with that key, or `None` where no entry has it.
pub open spec fn spec_lookup(entries: Seq<KafkaOption>, key: Seq<char>) -> Option<Seq<char>>
    decreases entries.len(),
{
    if entries.len() == 0 {
        None
    } else if entries.last().key@ == key {
        Some(entries.last().value@)
    } else {
        spec_lookup(entries.drop_last(), key)
    }
}

/// Later duplicates override earlier ones: an entry that no later entry
/// shadows decides its key's effective value.
pub proof fn lemma_lookup_last_wins(entries: Seq<KafkaOption>, i: int)
    requires
        0 <= i < entries.len(),
        forall|j: int| i < j < entries.len() ==> entries[j].key@ != entries[i].key@,
    ensures
        spec_lookup(entries, entries[i].key@) == Some(entries[i].value@),
    decreases entries.len(),
{
    if i == entries.len() - 1 {
    } else {
        assert(entries.drop_last()[i] == entries[i]);
        lemma_lookup_last_wins(entries.drop_last(), i);
    }
}

/// The immutable queue-client configuration, built once before any record
/// is sent.
pub struct QueueConfig {
    /// The option entries in the order they apply; the forced client
    /// identity and broker list stand last, so they override any
    /// caller-supplied entry with the same key.
    pub entries: Vec<KafkaOption>,
    /// The comma-separated broker address list.
    pub servers: String,
    /// The destination topic; the broker assigns partitions.
    pub topic: String,
}

impl QueueConfig {
    /// Builds the configuration: the supplied options in order, then the
    /// forced client identity and the broker list.
    pub fn new(options: Vec<KafkaOption>, servers: String, topic: String) -> (c: QueueConfig)
        requires
            servers@.len() > 0,
            topic@.len() > 0,
        ensures
            c.servers == servers,
            c.topic == topic,
            c.entries@.len() == options@.len() + 2,
            forall|i: int| 0 <= i < options@.len() ==> c.entries@[i] == options@[i],
            c.entries@[options@.len() as int].key@ == "client.id"@,
            c.entries@[options@.len() as int].value@ == spec_client_id(),
            c.entries@[options@.len() as int + 1].key@ == "bootstrap.servers"@,
            c.entries@[options@.len() as int + 1].value@ == servers@,
    {
        let mut entries = options;
        entries.push(KafkaOption {
            key: "client.id".to_owned(),
            value: "pcapstreamer".to_owned(),
        });
        entries.push(KafkaOption { key: "bootstrap.servers".to_owned(), value: servers.clone() });
        QueueConfig { entries, servers, topic }
    }

    /// The effective value of `key`: the last entry wins.
    pub fn effective_value(&self, key: &str) -> (r: Option<String>)
        ensures
            match r {
                Some(v) => spec_lookup(self.entries@, key@) == Some(v@),
                None => spec_lookup(self.entries@, key@) is None,
            },
    {
        let k = key.to_owned();
        let mut i = self.entries.len();
        proof {
            assert(self.entries@.subrange(0, i as int) =~= self.entries@);
        }
        while i > 0
            invariant
                i <= self.entries@.len(),
                spec_lookup(self.entries@, key@) == spec_lookup(
                    self.entries@.subrange(0, i as int),
                    key@,
                ),
                k@ == key@,
            decreases i,
        {
            i -= 1;
            let e = &self.entries[i];
            let ghost prefix = self.entries@.subrange(0, i + 1);
            proof {
                assert(prefix.last() == self.entries@[i as int]);
                assert(prefix.drop_last() =~= self.entries@.subrange(0, i as int));
            }
            if e.key.eq(&k) {
                return Some(e.value.clone());
            }
        }
        None
    }
}

} // verus!
