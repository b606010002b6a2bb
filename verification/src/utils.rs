//! Host-platform naming and small shared predicates.

use vstd::prelude::*;
use vstd::string::StringExecFns;
use crate::text::str_eq;

verus! {

/// The platform name used by manifest rules and natives classifiers, derived
/// from a host OS tag (`win32`, `linux`, `darwin`).
pub open spec fn platform_name_spec(os: Seq<char>) -> Seq<char> {
    if os == "win32"@ {
        "windows"@
    } else if os == "linux"@ {
        "linux"@
    } else if os == "darwin"@ {
        "osx"@
    } else {
        "unknown"@
    }
}

/// Maps a host OS tag to the platform name the manifest speaks of.
pub fn get_os_type(os: &str) -> (r: String)
    ensures
        r@ == platform_name_spec(os@),
{
    if str_eq(os, "win32") {
        String::from_str("windows")
    } else if str_eq(os, "linux") {
        String::from_str("linux")
    } else if str_eq(os, "darwin") {
        String::from_str("osx")
    } else {
        String::from_str("unknown")
    }
}

} // verus!
