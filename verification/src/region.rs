//! Region name resolver: maps a locale-style region code to a short display
//! label, with a fixed "Unknown" fallback for unmapped codes.

use vstd::prelude::*;

use crate::strutil::str_eq;

verus! {

/// The display label for a region code: "EU" for "en-gb", "US" for "en-us",
/// and "Unknown" for every other code.
pub open spec fn region_label_spec(region: Seq<char>) -> Seq<char> {
    if region == "en-gb"@ {
        "EU"@
    } else if region == "en-us"@ {
        "US"@
    } else {
        "Unknown"@
    }
}

/// Resolves a region code to its display label. Total: unmapped codes
/// resolve to "Unknown" rather than failing.
pub fn region_name(region: &str) -> (r: String)
    ensures
        r@ == region_label_spec(region@),
{
    if str_eq(region, "en-gb") {
        String::from_str("EU")
    } else if str_eq(region, "en-us") {
        String::from_str("US")
    } else {
        String::from_str("Unknown")
    }
}

/// The display label for a region code, lower-cased for use as a URL path
/// segment: "eu" for "en-gb", "us" for "en-us", "unknown" otherwise.
pub open spec fn region_label_lower_spec(region: Seq<char>) -> Seq<char> {
    if region == "en-gb"@ {
        "eu"@
    } else if region == "en-us"@ {
        "us"@
    } else {
        "unknown"@
    }
}

/// The lower-case of an ASCII character, other characters unchanged.
pub open spec fn lower_char(c: char) -> char {
    if 65 <= c as u32 && c as u32 <= 90 {
        ((c as u32 + 32) as char)
    } else {
        c
    }
}

/// A sequence of characters lower-cased character by character.
pub open spec fn lower_seq(s: Seq<char>) -> Seq<char> {
    Seq::new(s.len(), |i: int| lower_char(s[i]))
}

/// Resolves a region code to the URL path segment for its activity page:
/// the display label, lower-cased.
pub fn region_path_segment(region: &str) -> (r: String)
    ensures
        r@ == region_label_lower_spec(region@),
{
    if str_eq(region, "en-gb") {
        String::from_str("eu")
    } else if str_eq(region, "en-us") {
        String::from_str("us")
    } else {
        String::from_str("unknown")
    }
}

/// The path segment is exactly the display label lower-cased, character by
/// character, for every region code.
pub proof fn lemma_path_segment_is_lowered_label(region: Seq<char>)
    ensures
        region_label_lower_spec(region) == lower_seq(region_label_spec(region)),
{
    reveal_strlit("EU");
    reveal_strlit("eu");
    reveal_strlit("US");
    reveal_strlit("us");
    reveal_strlit("Unknown");
    reveal_strlit("unknown");
    if region == "en-gb"@ {
        assert(region_label_lower_spec(region) =~= lower_seq(region_label_spec(region)));
    } else if region == "en-us"@ {
        assert(region_label_lower_spec(region) =~= lower_seq(region_label_spec(region)));
    } else {
        assert(region_label_lower_spec(region) =~= lower_seq(region_label_spec(region)));
    }
}

} // verus!
