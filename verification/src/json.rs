//! A structured settings value, as the configuration forwarder reads it.
//!
//! The host hands workspace settings over as a nested key/value document; the
//! forwarder only tests one top-level key and wraps the whole value, so the
//! model keeps every leaf opaque. Numbers are carried as their literal text:
//! nothing in this crate reads them.

use vstd::prelude::*;
use vstd::string::StringExecFns;

verus! {

/// A JSON-like settings document.
pub enum Json {
    Null,
    Bool(bool),
    Number(String),
    Text(String),
    Array(Vec<Json>),
    Object(Vec<(String, Json)>),
}

/// `j` is an object with a member named `key`; a non-object has no members.
pub open spec fn obj_has_key(j: Json, key: Seq<char>) -> bool {
    j matches Json::Object(members) && exists|i: int|
        0 <= i < members@.len() && (#[trigger] members@[i]).0@ == key
}

impl Json {
    /// Whether this value is an object with a member named `key`.
    pub fn has_key(&self, key: &str) -> (r: bool)
        ensures
            r == obj_has_key(*self, key@),
    {
        let key_owned = String::from_str(key);
        match self {
            Json::Object(members) => {
                let n = members.len();
                let mut i: usize = 0;
                while i < n
                    invariant
                        n == members@.len(),
                        i <= n,
                        key_owned@ == key@,
                        *self == Json::Object(*members),
                        forall|k: int| 0 <= k < i ==> members@[k].0@ != key@,
                    decreases n - i,
                {
                    if members[i].0 == key_owned {
                        proof {
                            assert(0 <= i < members@.len() && (members@[i as int]).0@ == key@);
                            assert(*self matches Json::Object(mm) && mm == *members);
                            assert(exists|k: int|
                                0 <= k < members@.len() && (#[trigger] members@[k]).0@ == key@);
                        }
                        return true;
                    }
                    i += 1;
                }
                false
            },
            _ => false,
        }
    }
}

} // verus!
