//! How a user's optional details are shown.

use vstd::prelude::*;
use vstd::string::StringExecFns;

verus! {

/// An optional detail as it is shown: its value, or `null`.
pub open spec fn shown(detail: Option<String>) -> Seq<char> {
    match detail {
        Some(value) => value@,
        None => "null"@,
    }
}

/// Renders an optional detail, a missing one as `null`.
pub fn or_null(detail: Option<String>) -> (s: String)
    ensures
        s@ == shown(detail),
{
    match detail {
        Some(value) => value,
        None => String::from_str("null"),
    }
}

} // verus!
