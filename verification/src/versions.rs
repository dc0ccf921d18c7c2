//! The game versions a datapack can be generated for.

use vstd::prelude::*;
use crate::text::str_eq;

verus! {

/// Whether `version` names one of the supported game versions.
pub open spec fn is_supported(version: Seq<char>) -> bool {
    ||| version == "1.16.5"@
    ||| version == "1.17.1"@
    ||| version == "1.18.2"@
    ||| version == "1.19.2"@
    ||| version == "1.19.3"@
    ||| version == "1.19.4"@
    ||| version == "1.20.4"@
}

/// The pack format that the game expects of a datapack for `version`.
pub open spec fn pack_format(version: Seq<char>) -> u8 {
    if version == "1.16.5"@ {
        6
    } else if version == "1.17.1"@ {
        7
    } else if version == "1.18.2"@ {
        9
    } else if version == "1.19.2"@ || version == "1.19.3"@ {
        10
    } else if version == "1.19.4"@ {
        12
    } else {
        26
    }
}

/// Tells whether the game version is supported.
pub fn check_version(version: &str) -> (supported: bool)
    ensures
        supported == is_supported(version@),
{
    str_eq(version, "1.16.5") || str_eq(version, "1.17.1") || str_eq(version, "1.18.2") || str_eq(
        version,
        "1.19.2",
    ) || str_eq(version, "1.19.3") || str_eq(version, "1.19.4") || str_eq(version, "1.20.4")
}

/// The pack format for a supported game version.
pub fn get_datapack_version(version: &str) -> (format: u8)
    requires
        is_supported(version@),
    ensures
        format == pack_format(version@),
{
    if str_eq(version, "1.16.5") {
        6
    } else if str_eq(version, "1.17.1") {
        7
    } else if str_eq(version, "1.18.2") {
        9
    } else if str_eq(version, "1.19.2") || str_eq(version, "1.19.3") {
        10
    } else if str_eq(version, "1.19.4") {
        12
    } else {
        26
    }
}

} // verus!
