//! Release-channel detection: an explicit override from the build environment
//! wins; otherwise the detector falls back to the development channel.

use vstd::prelude::*;
use vstd::string::StringExecFns;

verus! {

/// The best-available release channel. An explicit override value is returned
/// verbatim; without one the fallback is `nightly`. The result is always
/// present.
pub fn channel_from_override(override_value: Option<String>) -> (r: Option<String>)
    ensures
        r is Some,
        override_value is Some ==> r == override_value,
        override_value is None ==> (r->0)@ == "nightly"@,
{
    match override_value {
        Some(channel) => Some(channel),
        None => Some(String::from_str("nightly")),
    }
}

} // verus!
