use cargo_manager::online_search::{OnlineSearchPage, TickAction};
use cargo_manager::registry::{outcome_of_reply, Record};

fn record(name: &str) -> Record {
    Record {
        name: String::from(name),
        description: String::from("a package"),
        latest_version: String::from("1.0.0"),
    }
}

#[test]
fn a_fresh_page_shows_an_empty_table() {
    let mut page = OnlineSearchPage::new();
    assert!(page.results.is_empty());
    assert!(matches!(page.update(), TickAction::Idle));
}

#[test]
fn a_successful_search_replaces_the_table_in_full() {
    let mut page = OnlineSearchPage::new();
    let first = page.dispatcher.submit(String::from("foo"));
    page.dispatcher
        .deliver(first.seq, outcome_of_reply(Ok(vec![record("one"), record("two")])));
    assert!(matches!(page.update(), TickAction::Refresh));
    assert_eq!(page.results.len(), 2);

    let second = page.dispatcher.submit(String::from("bar"));
    page.dispatcher
        .deliver(second.seq, outcome_of_reply(Ok(vec![record("three")])));
    assert!(matches!(page.update(), TickAction::Refresh));
    assert_eq!(page.results.len(), 1);
    assert_eq!(page.selected_name(0), "three");
}

#[test]
fn a_failure_is_reported_and_the_table_keeps_its_records() {
    let mut page = OnlineSearchPage::new();
    let first = page.dispatcher.submit(String::from("foo"));
    page.dispatcher
        .deliver(first.seq, outcome_of_reply(Ok(vec![record("one")])));
    assert!(matches!(page.update(), TickAction::Refresh));

    let second = page.dispatcher.submit(String::from("bar"));
    page.dispatcher
        .deliver(second.seq, outcome_of_reply(Err(String::from("registry unreachable"))));
    match page.update() {
        TickAction::Report(e) => assert_eq!(e.message, "registry unreachable"),
        other => panic!("expected the reported failure, got {:?}", other),
    }
    assert_eq!(page.results.len(), 1);
    assert_eq!(page.selected_name(0), "one");
}

#[test]
fn an_idle_tick_changes_nothing() {
    let mut page = OnlineSearchPage::new();
    let job = page.dispatcher.submit(String::from("foo"));
    page.dispatcher
        .deliver(job.seq, outcome_of_reply(Ok(vec![record("one")])));
    assert!(matches!(page.update(), TickAction::Refresh));
    for _ in 0..10 {
        assert!(matches!(page.update(), TickAction::Idle));
        assert_eq!(page.results.len(), 1);
    }
}

#[test]
fn the_stale_worker_never_reaches_the_table() {
    let mut page = OnlineSearchPage::new();
    let foo = page.dispatcher.submit(String::from("foo"));
    let bar = page.dispatcher.submit(String::from("bar"));
    page.dispatcher
        .deliver(bar.seq, outcome_of_reply(Ok(vec![record("bar-result")])));
    page.dispatcher
        .deliver(foo.seq, outcome_of_reply(Ok(vec![record("foo-result")])));
    assert!(matches!(page.update(), TickAction::Refresh));
    assert_eq!(page.selected_name(0), "bar-result");
    assert!(matches!(page.update(), TickAction::Idle));
}
