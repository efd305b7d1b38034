use cargo_manager::dispatcher::Dispatcher;
use cargo_manager::registry::{outcome_of_reply, Record, ResultSet, SearchOutcome};

fn record(name: &str) -> Record {
    Record {
        name: String::from(name),
        description: String::from("a package"),
        latest_version: String::from("1.0.0"),
    }
}

#[test]
fn submit_then_poll_returns_nothing() {
    let mut d = Dispatcher::new();
    let _job = d.submit(String::from("serde"));
    assert!(d.poll().is_none());
    assert!(d.poll().is_none());
}

#[test]
fn completed_search_polled_exactly_once() {
    let mut d = Dispatcher::new();
    let job = d.submit(String::from("serde"));
    let outcome = outcome_of_reply(Ok(vec![record("serde")]));
    assert!(d.deliver(job.seq, outcome));
    match d.poll() {
        Some(SearchOutcome::Results(rs)) => {
            assert_eq!(rs.len(), 1);
            assert_eq!(rs.record_at(0).name, "serde");
        }
        other => panic!("expected the result set, got {:?}", other),
    }
    assert!(d.poll().is_none());
}

#[test]
fn stale_worker_cannot_overwrite_newest() {
    // "foo" is submitted, then "bar"; "foo"'s worker finishes after
    // "bar"'s.  The poll must expose "bar"'s result as authoritative.
    let mut d = Dispatcher::new();
    let foo = d.submit(String::from("foo"));
    let bar = d.submit(String::from("bar"));
    assert!(d.deliver(bar.seq, outcome_of_reply(Ok(vec![record("bar-result")]))));
    assert!(!d.deliver(foo.seq, outcome_of_reply(Ok(vec![record("foo-result")]))));
    match d.poll() {
        Some(SearchOutcome::Results(rs)) => {
            assert_eq!(rs.record_at(0).name, "bar-result");
        }
        other => panic!("expected bar's result set, got {:?}", other),
    }
    assert!(d.poll().is_none());
}

#[test]
fn stale_worker_finishing_first_is_also_discarded() {
    // The other interleaving: "foo"'s worker straggles in before "bar"'s.
    let mut d = Dispatcher::new();
    let foo = d.submit(String::from("foo"));
    let bar = d.submit(String::from("bar"));
    assert!(!d.deliver(foo.seq, outcome_of_reply(Ok(vec![record("foo-result")]))));
    assert!(d.deliver(bar.seq, outcome_of_reply(Ok(vec![record("bar-result")]))));
    match d.poll() {
        Some(SearchOutcome::Results(rs)) => {
            assert_eq!(rs.record_at(0).name, "bar-result");
        }
        other => panic!("expected bar's result set, got {:?}", other),
    }
}

#[test]
fn empty_search_yields_empty_result_set() {
    let mut d = Dispatcher::new();
    let job = d.submit(String::from("no-such-package-name"));
    assert!(d.deliver(job.seq, outcome_of_reply(Ok(Vec::new()))));
    match d.poll() {
        Some(SearchOutcome::Results(rs)) => {
            assert!(rs.is_empty());
            assert_eq!(rs.len(), 0);
        }
        other => panic!("expected an empty result set, not an error: {:?}", other),
    }
}

#[test]
fn registry_failure_surfaces_through_poll() {
    let mut d = Dispatcher::new();
    let job = d.submit(String::from("serde"));
    let outcome = outcome_of_reply(Err(String::from("registry unreachable")));
    assert!(d.deliver(job.seq, outcome));
    match d.poll() {
        Some(SearchOutcome::Failed(e)) => {
            assert_eq!(e.message, "registry unreachable");
        }
        other => panic!("expected the typed failure, got {:?}", other),
    }
    assert!(d.poll().is_none());
}

#[test]
fn repeated_completion_for_one_submission_is_rejected() {
    let mut d = Dispatcher::new();
    let job = d.submit(String::from("serde"));
    assert!(d.deliver(job.seq, outcome_of_reply(Ok(Vec::new()))));
    assert!(!d.deliver(job.seq, outcome_of_reply(Ok(vec![record("late")]))));
    assert!(matches!(d.poll(), Some(SearchOutcome::Results(rs)) if rs.is_empty()));
    assert!(d.poll().is_none());
}

#[test]
fn completion_with_unknown_sequence_is_rejected() {
    let mut d = Dispatcher::new();
    assert!(!d.deliver(7, outcome_of_reply(Ok(Vec::new()))));
    assert!(d.poll().is_none());
    let job = d.submit(String::from("serde"));
    assert!(!d.deliver(job.seq + 1, outcome_of_reply(Ok(Vec::new()))));
    assert!(d.poll().is_none());
}

#[test]
fn empty_query_is_a_valid_search_term() {
    let mut d = Dispatcher::new();
    let job = d.submit(String::new());
    assert_eq!(job.query, "");
    assert!(d.deliver(job.seq, outcome_of_reply(Ok(vec![record("everything")]))));
    assert!(matches!(d.poll(), Some(SearchOutcome::Results(rs)) if rs.len() == 1));
}

#[test]
fn fifty_rapid_submissions_never_overdeliver() {
    let mut d = Dispatcher::new();
    let mut jobs = Vec::new();
    for i in 0..50 {
        jobs.push(d.submit(format!("query {}", i)));
    }
    // Every worker eventually completes, in submission order; only the
    // newest submission's outcome may be accepted.
    let mut accepted = 0;
    for job in &jobs {
        if d.deliver(job.seq, outcome_of_reply(Ok(vec![record("r")]))) {
            accepted += 1;
        }
    }
    let mut seen = 0;
    while d.poll().is_some() {
        seen += 1;
    }
    assert_eq!(accepted, 1);
    assert_eq!(seen, 1);
    assert!(seen <= 50);
}

#[test]
fn polling_interleaved_with_submissions_stays_bounded() {
    let mut d = Dispatcher::new();
    let mut seen = 0;
    let mut submitted = 0;
    for round in 0..50 {
        let job = d.submit(format!("query {}", round));
        submitted += 1;
        if round % 3 == 0 {
            d.deliver(job.seq, outcome_of_reply(Ok(Vec::new())));
        }
        if d.poll().is_some() {
            seen += 1;
        }
    }
    assert!(seen <= submitted);
}
