// End-to-end evaluation cycles on mocked status bodies, the configured
// pairs, the delivery decision, and result aggregation.

use health_check::fetch::FetchError;
use health_check::notify::{delivery_outcome, NotifyError};
use health_check::orchestrate::{
    any_failure, combinations, default_config, process_body, PairOutcome, PairReport,
};

const NOW_MS: i64 = 1_700_000_000_000;

#[test]
fn stale_pair_produces_one_alert() {
    // Mocked API timestamp four hours before "now": stale, and the alert
    // message reports 4 hours and 0 minutes.
    let fetched = NOW_MS - 4 * 60 * 60_000;
    let body = format!("{{\"timestamp\": {}}}", fetched);
    let outcome = process_body("en-gb", "shuffle", &body, NOW_MS, 210);
    match outcome {
        PairOutcome::Stale(msg) => {
            assert!(msg.contains("4 hours"));
            assert!(msg.contains("0 minutes"));
            assert_eq!(
                msg,
                "No updates for `4 hours` and `0 minutes` in EU shuffle on pvpq\\.net: \
                 [EU activity in shuffle](https://pvpq.net/eu/activity/shuffle)"
            );
        },
        other => panic!("expected a stale outcome, got {:?}", other),
    }
}

#[test]
fn fresh_pair_produces_no_alert() {
    // Mocked API timestamp one hour before "now": not stale, nothing to send.
    let fetched = NOW_MS - 60 * 60_000;
    let body = format!("{{\"timestamp\": {}}}", fetched);
    let outcome = process_body("en-us", "rbg", &body, NOW_MS, 210);
    assert_eq!(outcome, PairOutcome::Fresh);
}

#[test]
fn evaluation_is_idempotent() {
    let fetched = NOW_MS - 4 * 60 * 60_000;
    let body = format!("{{\"timestamp\": {}}}", fetched);
    let first = process_body("en-gb", "shuffle", &body, NOW_MS, 210);
    let second = process_body("en-gb", "shuffle", &body, NOW_MS, 210);
    assert_eq!(first, second);
}

#[test]
fn boundary_not_stale_at_threshold() {
    let fetched = NOW_MS - 210 * 60_000;
    let body = format!("{{\"timestamp\": {}}}", fetched);
    assert_eq!(process_body("en-gb", "shuffle", &body, NOW_MS, 210), PairOutcome::Fresh);
}

#[test]
fn boundary_stale_past_threshold() {
    let fetched = NOW_MS - 211 * 60_000;
    let body = format!("{{\"timestamp\": {}}}", fetched);
    assert!(matches!(
        process_body("en-gb", "shuffle", &body, NOW_MS, 210),
        PairOutcome::Stale(_)
    ));
}

#[test]
fn bad_body_reports_fetch_error() {
    assert_eq!(
        process_body("en-gb", "shuffle", "oops", NOW_MS, 210),
        PairOutcome::Failed(FetchError::ParseError)
    );
    assert_eq!(
        process_body("en-gb", "shuffle", "{}", NOW_MS, 210),
        PairOutcome::Failed(FetchError::SchemaError)
    );
}

#[test]
fn default_pairs_cover_both_regions() {
    let config = default_config();
    assert_eq!(config.threshold_minutes, 210);
    let pairs = combinations(&config);
    assert_eq!(pairs.len(), 2);
    assert_eq!(pairs[0].0, "en-gb");
    assert_eq!(pairs[0].1, "shuffle");
    assert_eq!(pairs[1].0, "en-us");
    assert_eq!(pairs[1].1, "shuffle");
}

#[test]
fn delivery_statuses() {
    assert_eq!(delivery_outcome(200), Ok(()));
    assert_eq!(delivery_outcome(204), Ok(()));
    assert_eq!(delivery_outcome(299), Ok(()));
    assert_eq!(delivery_outcome(199), Err(NotifyError::DeliveryError));
    assert_eq!(delivery_outcome(300), Err(NotifyError::DeliveryError));
    assert_eq!(delivery_outcome(404), Err(NotifyError::DeliveryError));
    assert_eq!(delivery_outcome(500), Err(NotifyError::DeliveryError));
}

#[test]
fn run_verdict_aggregates_failures() {
    assert!(!any_failure(&vec![]));
    assert!(!any_failure(&vec![PairReport::Fresh, PairReport::Notified]));
    assert!(any_failure(&vec![
        PairReport::Fresh,
        PairReport::FetchFailed(FetchError::NetworkError)
    ]));
    assert!(any_failure(&vec![
        PairReport::Notified,
        PairReport::NotifyFailed(NotifyError::TransportError)
    ]));
    assert!(any_failure(&vec![PairReport::NotifyFailed(NotifyError::DeliveryError)]));
}
