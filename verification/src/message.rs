//! Notifier, formatting side: building the alert message for a stale
//! region/bracket pair. Delivery is performed by the caller.

use vstd::prelude::*;

use crate::region::{region_label_lower_spec, region_label_spec, region_name, region_path_segment};
use crate::strutil::{dec_seq, u64_to_string};

verus! {

/// The alert message for a pair that has been stale for `elapsed` minutes:
/// hours and minutes, the display label and bracket, and a markdown-style
/// link to the activity page, whose path holds the lower-cased label.
pub open spec fn message_spec(
    elapsed: int,
    label: Seq<char>,
    label_lower: Seq<char>,
    bracket: Seq<char>,
) -> Seq<char> {
    "No updates for `"@ + dec_seq((elapsed / 60) as nat) + " hours` and `"@ + dec_seq(
        (elapsed % 60) as nat,
    ) + " minutes` in "@ + label + " "@ + bracket + " on pvpq\\.net: ["@ + label
        + " activity in "@ + bracket + "](https://pvpq.net/"@ + label_lower + "/activity/"@
        + bracket + ")"@
}

/// Builds the alert message from the elapsed minutes, the display label, its
/// lower-cased form, and the bracket name.
pub fn build_message(elapsed: i64, label: &str, label_lower: &str, bracket: &str) -> (r: String)
    requires
        0 <= elapsed,
    ensures
        r@ == message_spec(elapsed as int, label@, label_lower@, bracket@),
{
    let e: u64 = elapsed as u64;
    let hours = u64_to_string(e / 60);
    let minutes = u64_to_string(e % 60);
    let mut r = String::from_str("No updates for `");
    r.append(hours.as_str());
    r.append(" hours` and `");
    r.append(minutes.as_str());
    r.append(" minutes` in ");
    r.append(label);
    r.append(" ");
    r.append(bracket);
    r.append(" on pvpq\\.net: [");
    r.append(label);
    r.append(" activity in ");
    r.append(bracket);
    r.append("](https://pvpq.net/");
    r.append(label_lower);
    r.append("/activity/");
    r.append(bracket);
    r.append(")");
    proof {
        assert(r@ =~= message_spec(elapsed as int, label@, label_lower@, bracket@));
    }
    r
}

/// Builds the alert message for a region code directly: the label and its
/// lower-cased form are resolved from the code.
pub fn alert_message(elapsed: i64, region: &str, bracket: &str) -> (r: String)
    requires
        0 <= elapsed,
    ensures
        r@ == message_spec(
            elapsed as int,
            region_label_spec(region@),
            region_label_lower_spec(region@),
            bracket@,
        ),
{
    let label = region_name(region);
    let label_lower = region_path_segment(region);
    build_message(elapsed, label.as_str(), label_lower.as_str(), bracket)
}

} // verus!
