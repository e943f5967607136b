//! Health-check notifier library: staleness detection for region/bracket
//! activity feeds and formatting of the alert messages that report them.
//!
//! The library holds the decision logic: resolving a region code to a display
//! label, extracting the last-update timestamp from a fetched status body,
//! computing how many minutes have elapsed, deciding staleness against a
//! threshold, and building the alert message and request URLs. The
//! surrounding program performs the HTTP calls and hands the results in as
//! plain values.

pub mod fetch;
pub mod message;
pub mod notify;
pub mod orchestrate;
pub mod region;
pub mod staleness;
pub mod strutil;
