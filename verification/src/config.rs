//! Forwarding workspace settings into the shape the server expects.
//!
//! The host reads the workspace's language-server settings; this module only
//! reshapes them. The server wants its configuration nested under the
//! `unocss` namespace key, while users author settings either already
//! namespaced or flat; the forwarder accommodates both styles.

use crate::json::{obj_has_key, Json};
use vstd::prelude::*;
use vstd::string::StringExecFns;

verus! {

/// The top-level settings key under which the server expects its
/// configuration.
pub open spec fn spec_namespace_key() -> Seq<char> {
    "unocss"@
}

pub fn namespace_key() -> (r: &'static str)
    ensures
        r@ == spec_namespace_key(),
{
    "unocss"
}

/// `r` is an object whose sole member, named with the namespace key, holds
/// `s`.
pub open spec fn wrapped_under_namespace(s: Json, r: Json) -> bool {
    r matches Json::Object(members) && members@.len() == 1 && members@[0].0@
        == spec_namespace_key() && members@[0].1 == s
}

/// Pass the workspace's configured initialization options through unchanged
/// (absent when none are configured).
pub fn initialization_options(options: Option<Json>) -> (r: Option<Json>)
    ensures
        r == options,
{
    options
}

/// Reshape the workspace's settings for the server: absent settings yield no
/// configuration; settings already carrying the namespace key pass through
/// unchanged; any other settings value is wrapped whole as the sole member of
/// an object under that key.
pub fn workspace_configuration(settings: Option<Json>) -> (r: Option<Json>)
    ensures
        (match settings {
            None => r is None,
            Some(s) => if obj_has_key(s, spec_namespace_key()) {
                r == Some(s)
            } else {
                r matches Some(w) && wrapped_under_namespace(s, w)
            },
        }),
{
    match settings {
        None => None,
        Some(s) => {
            if s.has_key(namespace_key()) {
                Some(s)
            } else {
                let mut members: Vec<(String, Json)> = Vec::new();
                members.push((String::from_str(namespace_key()), s));
                Some(Json::Object(members))
            }
        },
    }
}

} // verus!
