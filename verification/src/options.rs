//! Queue-client options, given as `key=value` strings and split at the
//! first `=`. A string without `=` fails configuration parsing.

use vstd::prelude::*;
use vstd::string::StrSliceExecFns;

use crate::errors::BridgeError;

verus! {

/// One key/value option for the queue client.
#[derive(Debug, Clone, PartialEq, Eq)]
pub struct KafkaOption {
    /// The part before the first `=`.
    pub key: String,
    /// The part after the first `=`.
    pub value: String,
}

/// Holds when `i` is the position of the first `=` in `s`.
pub open spec fn is_first_eq(s: Seq<char>, i: int) -> bool {
    &&& 0 <= i < s.len()
    &&& s[i] == '='
    &&& forall|j: int| 0 <= j < i ==> s[j] != '='
}

impl KafkaOption {
    /// Splits an option string at its first `=` into a key/value pair.
    /// Succeeds exactly when the string holds an `=`; otherwise the input
    /// is malformed and configuration parsing fails.
    pub fn from_str(s: &str) -> (r: Result<KafkaOption, BridgeError>)
        ensures
            match r {
                Ok(o) => exists|i: int|
                    {
                        &&& is_first_eq(s@, i)
                        &&& o.key@ == s@.subrange(0, i)
                        &&& o.value@ == s@.subrange(i + 1, s@.len() as int)
                    },
                Err(e) => {
                    &&& forall|i: int| 0 <= i < s@.len() ==> s@[i] != '='
                    &&& e matches BridgeError::InvalidOption(m) && m@ == s@
                },
            },
    {
        let n = s.unicode_len();
        let mut i: usize = 0;
        while i < n
            invariant
                i <= n,
                n == s@.len(),
                forall|j: int| 0 <= j < i ==> s@[j] != '=',
            decreases n - i,
        {
            if s.get_char(i) == '=' {
                let key = s.substring_char(0, i).to_owned();
                let value = s.substring_char(i + 1, n).to_owned();
                proof {
                    assert(is_first_eq(s@, i as int));
                }
                return Ok(KafkaOption { key, value });
            }
            i += 1;
        }
        Err(BridgeError::InvalidOption(s.to_owned()))
    }
}

} // verus!
