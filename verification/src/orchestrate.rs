//! Orchestrator, compute side: the configured region/bracket pairs, the
//! per-pair decision (stale, fresh, or failed) from the fetched body and the
//! current time, and the aggregation of per-pair results into an overall
//! verdict. The caller drives the loop, performing one fetch and at most one
//! delivery per pair.

use vstd::prelude::*;

use crate::fetch::{extract_spec, extract_timestamp, FetchError};
use crate::message::{alert_message, message_spec};
use crate::notify::NotifyError;
use crate::region::{region_label_lower_spec, region_label_spec};
use crate::staleness::{
    elapsed_minutes, elapsed_minutes_spec, is_stale, is_stale_spec, DEFAULT_THRESHOLD_MINUTES,
};

verus! {

/// The configuration of one run: the region codes and bracket names to
/// monitor, and the staleness threshold in minutes.
pub struct Config {
    pub regions: Vec<String>,
    pub brackets: Vec<String>,
    pub threshold_minutes: i64,
}

impl Config {
    /// A well-formed configuration has a nonnegative threshold.
    pub open spec fn wf(self) -> bool {
        0 <= self.threshold_minutes
    }
}

/// The default configuration: regions "en-gb" and "en-us", bracket
/// "shuffle", threshold 210 minutes.
pub fn default_config() -> (c: Config)
    ensures
        c.wf(),
        c.regions@.len() == 2,
        c.regions@[0]@ == "en-gb"@,
        c.regions@[1]@ == "en-us"@,
        c.brackets@.len() == 1,
        c.brackets@[0]@ == "shuffle"@,
        c.threshold_minutes == DEFAULT_THRESHOLD_MINUTES,
{
    let mut regions: Vec<String> = Vec::new();
    regions.push(String::from_str("en-gb"));
    regions.push(String::from_str("en-us"));
    let mut brackets: Vec<String> = Vec::new();
    brackets.push(String::from_str("shuffle"));
    Config { regions, brackets, threshold_minutes: DEFAULT_THRESHOLD_MINUTES }
}

/// Builds the cross product of the configured regions and brackets, region
/// by region: the pair at flat index `k` holds region `k / brackets.len()`
/// and bracket `k % brackets.len()`.
pub fn combinations(config: &Config) -> (r: Vec<(String, String)>)
    ensures
        r@.len() == config.regions@.len() * config.brackets@.len(),
        forall|k: int|
            0 <= k < r@.len() ==> {
                &&& (#[trigger] r@[k]).0@ == config.regions@[k / config.brackets@.len() as int]@
                &&& r@[k].1@ == config.brackets@[k % config.brackets@.len() as int]@
            },
{
    let n = config.regions.len();
    let m = config.brackets.len();
    let mut r: Vec<(String, String)> = Vec::new();
    let mut i: usize = 0;
    while i < n
        invariant
            i <= n,
            n == config.regions@.len(),
            m == config.brackets@.len(),
            r@.len() == i * m,
            forall|k: int|
                0 <= k < r@.len() ==> {
                    &&& (#[trigger] r@[k]).0@ == config.regions@[k / m as int]@
                    &&& r@[k].1@ == config.brackets@[k % m as int]@
                },
        decreases n - i,
    {
        let mut j: usize = 0;
        while j < m
            invariant
                i < n,
                j <= m,
                n == config.regions@.len(),
                m == config.brackets@.len(),
                r@.len() == i * m + j,
                forall|k: int|
                    0 <= k < r@.len() ==> {
                        &&& (#[trigger] r@[k]).0@ == config.regions@[k / m as int]@
                        &&& r@[k].1@ == config.brackets@[k % m as int]@
                    },
            decreases m - j,
        {
            let region = config.regions[i].clone();
            let bracket = config.brackets[j].clone();
            r.push((region, bracket));
            proof {
                vstd::arithmetic::div_mod::lemma_fundamental_div_mod_converse(
                    i * m + j,
                    m as int,
                    i as int,
                    j as int,
                );
            }
            j = j + 1;
        }
        proof {
            assert((i + 1) * m == i * m + m) by (nonlinear_arith);
        }
        i = i + 1;
    }
    r
}

/// What one evaluation cycle decided for a pair: deliver an alert with the
/// given message, do nothing because the pair is fresh, or report a fetch
/// error.
#[derive(Debug, PartialEq, Eq)]
pub enum PairOutcome {
    /// The pair is stale; the alert message to deliver.
    Stale(String),
    /// The pair is fresh; no notification is due.
    Fresh,
    /// The body could not be evaluated.
    Failed(FetchError),
}

/// Evaluates one region/bracket pair from the fetched status body and the
/// current time: extracts the timestamp, computes the elapsed minutes, and
/// decides between an alert (with its exact message), no action, and a fetch
/// error.
pub fn process_body(region: &str, bracket: &str, body: &str, now_ms: i64, threshold: i64) -> (r:
    PairOutcome)
    requires
        0 <= threshold,
    ensures
        extract_spec(body@) matches Err(e) ==> (r matches PairOutcome::Failed(f) && f == e),
        extract_spec(body@) matches Ok(t) ==> {
            let elapsed = elapsed_minutes_spec(t as int, now_ms as int);
            &&& is_stale_spec(elapsed, threshold as int) ==> (r matches PairOutcome::Stale(msg)
                && msg@ == message_spec(
                    elapsed,
                    region_label_spec(region@),
                    region_label_lower_spec(region@),
                    bracket@,
                ))
            &&& !is_stale_spec(elapsed, threshold as int) ==> r is Fresh
        },
{
    match extract_timestamp(body) {
        Err(e) => PairOutcome::Failed(e),
        Ok(ts) => {
            let elapsed = elapsed_minutes(ts.millis, now_ms);
            if is_stale(elapsed, threshold) {
                PairOutcome::Stale(alert_message(elapsed, region, bracket))
            } else {
                PairOutcome::Fresh
            }
        },
    }
}

/// What one pair contributed to the run, delivery included.
#[derive(Clone, Copy, Debug, PartialEq, Eq, Structural)]
pub enum PairReport {
    /// The pair was fresh; nothing was sent.
    Fresh,
    /// The pair was stale and the alert was delivered.
    Notified,
    /// The pair could not be evaluated.
    FetchFailed(FetchError),
    /// The pair was stale but the alert could not be delivered.
    NotifyFailed(NotifyError),
}

/// Whether a pair's report counts as a failure of the run.
pub open spec fn report_is_failure(r: PairReport) -> bool {
    r is FetchFailed || r is NotifyFailed
}

/// Decides the overall verdict of a run from the per-pair reports: the run
/// failed exactly when at least one pair could not be evaluated or notified.
pub fn any_failure(reports: &Vec<PairReport>) -> (r: bool)
    ensures
        r == exists|k: int| 0 <= k < reports@.len() && report_is_failure(#[trigger] reports@[k]),
{
    let mut i: usize = 0;
    while i < reports.len()
        invariant
            i <= reports@.len(),
            forall|k: int| 0 <= k < i ==> !report_is_failure(#[trigger] reports@[k]),
        decreases reports@.len() - i,
    {
        let failed = match reports[i] {
            PairReport::FetchFailed(_) => true,
            PairReport::NotifyFailed(_) => true,
            _ => false,
        };
        if failed {
            proof {
                assert(report_is_failure(reports@[i as int]));
            }
            return true;
        }
        i = i + 1;
    }
    false
}

} // verus!
