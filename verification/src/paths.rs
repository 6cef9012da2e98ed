//! Turning the entry script's package-relative path into an absolute one.
//!
//! The working directory itself comes from the host process; this module only
//! performs the join and phrases the error used when that lookup fails.

use vstd::prelude::*;
use vstd::string::StringExecFns;

verus! {

/// The path that joining relative path `rel` onto working directory `cwd`
/// yields: the two concatenated with a single separator, none added when
/// `cwd` is empty or already ends with one.
pub open spec fn spec_joined_path(cwd: Seq<char>, rel: Seq<char>) -> Seq<char> {
    if cwd.len() == 0 {
        rel
    } else if cwd.last() == '/' {
        cwd + rel
    } else {
        cwd + seq!['/'] + rel
    }
}

/// Prefix of the error reported when the working directory cannot be
/// determined.
pub open spec fn spec_cwd_error_prefix() -> Seq<char> {
    "failed to get extension cwd: "@
}

/// Join a relative path onto the working directory.
pub fn join_path(cwd: &str, rel: &str) -> (r: String)
    ensures
        r@ == spec_joined_path(cwd@, rel@),
{
    let n = cwd.unicode_len();
    if n == 0 {
        return String::from_str(rel);
    }
    let last = cwd.get_char(n - 1);
    let mut out = String::from_str(cwd);
    if last != '/' {
        proof {
            reveal_strlit("/");
        }
        out.append("/");
        proof {
            assert(out@ =~= cwd@ + seq!['/']);
        }
    }
    out.append(rel);
    out
}

/// The error reported when the working-directory lookup fails, wrapping the
/// underlying cause.
pub fn cwd_error_message(cause: &str) -> (r: String)
    ensures
        r@ == spec_cwd_error_prefix() + cause@,
{
    let mut out = String::from_str("failed to get extension cwd: ");
    out.append(cause);
    out
}

} // verus!
