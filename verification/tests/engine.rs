use opsgenie_notifier::alert::{Alert, AlertRecord};
use opsgenie_notifier::config::{
    Config, DEFAULT_HISTORY_DAYS, DEFAULT_REQUEST_LIMIT, DEFAULT_UPDATE_INTERVAL,
};
use opsgenie_notifier::dispatch::{Decision, Dispatch, Urgency};
use opsgenie_notifier::opsgenie::{Event, FetchError, Next, OpsGenieInterface, Outcome, Report};
use opsgenie_notifier::paging::{Page, PageRequest};
use opsgenie_notifier::time::Timestamp;

const NOW: Timestamp = Timestamp { secs: 1_700_000_000, nanos: 0 };

const FIRST_QUERY: &str = "status: open OR updatedAt >= 1699395200";

fn engine(request_limit: u8) -> OpsGenieInterface {
    let mut config = Config::with_defaults("secret".to_string());
    config.request_limit = request_limit;
    OpsGenieInterface::new_with_config(config)
}

/// An engine whose first poll is under way, with its first request sent.
fn polling(request_limit: u8) -> OpsGenieInterface {
    let mut engine = engine(request_limit);
    assert_eq!(engine.run(Event::TimerFired), nothing(Next::ReadClock));
    assert_eq!(
        engine.run(Event::ClockRead(NOW)),
        nothing(Next::Fetch {
            request: request(FIRST_QUERY, 0, i32::from(request_limit)),
            delay_secs: 0,
        })
    );
    engine
}

fn alert(status: &str, acknowledged: bool, priority: &str, message: &str, updated: i64) -> Alert {
    Alert {
        tiny_id: None,
        alias: None,
        message: Some(message.to_string()),
        status: Some(status.to_string()),
        acknowledged: Some(acknowledged),
        tags: None,
        created_at: None,
        updated_at: Some(Timestamp { secs: updated, nanos: 0 }),
        priority: Some(priority.to_string()),
    }
}

fn record(id: &str, a: Alert) -> AlertRecord {
    AlertRecord { id: id.to_string(), alert: a }
}

fn request(query: &str, offset: i32, limit: i32) -> PageRequest {
    PageRequest {
        query: query.to_string(),
        offset,
        limit,
        sort: "created_at".to_string(),
        order: "asc".to_string(),
    }
}

fn page(records: Vec<AlertRecord>, has_next: bool) -> Event {
    Event::PageReceived(Page { data: Some(records), has_next })
}

fn nothing(next: Next) -> Outcome {
    Outcome { report: Report::Nothing, next }
}

fn notify(id: &str, summary: &str, urgency: Urgency) -> Dispatch {
    Dispatch {
        id: id.to_string(),
        decision: Decision::Notify { summary: summary.to_string(), urgency },
    }
}

fn skip(id: &str) -> Dispatch {
    Dispatch { id: id.to_string(), decision: Decision::Skip }
}

#[test]
fn defaults() {
    let config = Config::with_defaults("k".to_string());
    assert_eq!(config.api_key, "k");
    assert_eq!(config.history_days, 7);
    assert_eq!(config.update_interval, 60);
    assert_eq!(config.request_limit, 100);
    assert_eq!(config.base_path, "https://api.opsgenie.com");
    assert_eq!(DEFAULT_HISTORY_DAYS, 7);
    assert_eq!(DEFAULT_UPDATE_INTERVAL, 60);
    assert_eq!(DEFAULT_REQUEST_LIMIT, 100);
}

#[test]
fn new_engine_is_idle_and_empty() {
    let config = Config {
        api_key: "abc".to_string(),
        history_days: 3,
        update_interval: 30,
        request_limit: 50,
        base_path: "https://example.org/".to_string(),
    };
    let engine = OpsGenieInterface::new_with_config(config);
    assert!(engine.alerts().is_empty());
    assert!(!engine.is_running());
    assert!(!engine.is_stopped());
    assert_eq!(engine.update_interval(), 30);
    assert_eq!(engine.history_days(), 3);
    assert_eq!(engine.api().key_prefix, "GenieKey");
    assert_eq!(engine.api().key, "abc");
    assert_eq!(engine.api().base_path, "https://example.org/");
    assert_eq!(engine.get_latest_update(), None);
    assert_eq!(
        engine.get_query(Timestamp { secs: 3 * 86_400, nanos: 9 }),
        "status: open OR updatedAt >= 0"
    );
}

#[test]
fn first_poll_asks_for_the_clock_and_reaches_back_seven_days() {
    let mut engine = engine(100);
    assert_eq!(engine.run(Event::TimerFired), nothing(Next::ReadClock));
    assert!(engine.is_running());
    assert_eq!(
        engine.run(Event::ClockRead(NOW)),
        nothing(Next::Fetch { request: request(FIRST_QUERY, 0, 100), delay_secs: 0 })
    );
    assert!(engine.is_running());
}

#[test]
fn end_to_end_one_new_critical_alert() {
    let mut engine = polling(100);
    let a1 = alert("open", false, "P1", "disk full", 1_699_999_000);
    let outcome = engine.run(page(vec![record("A1", a1.clone())], false));
    assert_eq!(
        outcome,
        Outcome {
            report: Report::Synced(vec![notify("A1", "disk full", Urgency::Critical)]),
            next: Next::Wait,
        }
    );
    assert!(!engine.is_running());
    assert_eq!(engine.alerts().get(&"A1".to_string()), Some(&a1));
}

#[test]
fn update_alerts_then_handle_new_alerts() {
    let mut engine = engine(100);
    let a1 = alert("open", false, "P1", "disk full", 5);
    let new_alerts = engine.update_alerts(vec![record("A1", a1)]);
    assert_eq!(new_alerts, vec!["A1".to_string()]);
    let dispatches = engine.handle_new_alerts(new_alerts);
    assert_eq!(dispatches, vec![notify("A1", "disk full", Urgency::Critical)]);
    assert_eq!(engine.get_latest_update(), Some(Timestamp { secs: 5, nanos: 0 }));
}

#[test]
fn second_poll_of_unchanged_remote_finds_nothing_new() {
    let mut engine = polling(100);
    let remote = vec![
        record("A1", alert("open", false, "P3", "one", 1_699_999_000)),
        record("A2", alert("open", false, "P5", "two", 1_699_999_500)),
    ];
    let first = engine.run(page(remote.clone(), false));
    assert_eq!(
        first,
        Outcome {
            report: Report::Synced(vec![
                notify("A1", "one", Urgency::Normal),
                notify("A2", "two", Urgency::Low),
            ]),
            next: Next::Wait,
        }
    );
    // the second poll asks from the newest update on, without a look at the clock
    assert_eq!(
        engine.run(Event::TimerFired),
        nothing(Next::Fetch {
            request: request("status: open OR updatedAt >= 1699999500", 0, 100),
            delay_secs: 0,
        })
    );
    assert_eq!(
        engine.run(page(remote, false)),
        Outcome { report: Report::Synced(Vec::new()), next: Next::Wait }
    );
    assert_eq!(engine.alerts().len(), 2);
}

#[test]
fn changed_known_alert_is_updated_but_not_new() {
    let mut engine = polling(100);
    engine.run(page(vec![record("A1", alert("open", false, "P1", "m", 100))], false));
    engine.run(Event::TimerFired);
    let closed = alert("closed", false, "P1", "m", 200);
    let outcome = engine.run(page(vec![record("A1", closed.clone())], false));
    assert_eq!(outcome, Outcome { report: Report::Synced(Vec::new()), next: Next::Wait });
    assert_eq!(engine.alerts().get(&"A1".to_string()), Some(&closed));
    assert_eq!(engine.get_latest_update(), Some(Timestamp { secs: 200, nanos: 0 }));
}

#[test]
fn pages_are_fetched_with_delay_and_merged_at_the_end() {
    let mut engine = polling(2);
    let first = vec![
        record("A1", alert("open", false, "P1", "one", 1)),
        record("A2", alert("open", true, "P1", "two", 2)),
    ];
    assert_eq!(
        engine.run(page(first, true)),
        nothing(Next::Fetch { request: request(FIRST_QUERY, 2, 2), delay_secs: 1 })
    );
    // nothing is merged before the last page
    assert!(engine.alerts().is_empty());
    assert!(engine.is_running());
    let second = vec![
        record("A3", alert("closed", false, "P1", "three", 3)),
        record("A4", alert("open", false, "P4", "four", 4)),
    ];
    assert_eq!(
        engine.run(page(second, true)),
        nothing(Next::Fetch { request: request(FIRST_QUERY, 4, 2), delay_secs: 1 })
    );
    let third = vec![record("A5", alert("open", false, "P9", "five", 5))];
    assert_eq!(
        engine.run(page(third, false)),
        Outcome {
            report: Report::Synced(vec![
                notify("A1", "one", Urgency::Critical),
                skip("A2"),
                skip("A3"),
                notify("A4", "four", Urgency::Normal),
                notify("A5", "five", Urgency::Low),
            ]),
            next: Next::Wait,
        }
    );
    assert_eq!(engine.alerts().len(), 5);
}

#[test]
fn failed_request_abandons_the_poll_and_keeps_the_store() {
    let mut engine = polling(1);
    engine.run(page(vec![record("A1", alert("open", false, "P1", "m", 1))], true));
    assert_eq!(
        engine.run(Event::FetchFailed),
        Outcome { report: Report::Abandoned(FetchError::Service), next: Next::Wait }
    );
    assert!(engine.alerts().is_empty());
    assert!(!engine.is_running());
    // the next tick polls again from the start
    assert_eq!(engine.run(Event::TimerFired), nothing(Next::ReadClock));
    let later = Timestamp { secs: NOW.secs + 60, nanos: 0 };
    assert_eq!(
        engine.run(Event::ClockRead(later)),
        nothing(Next::Fetch {
            request: request("status: open OR updatedAt >= 1699395260", 0, 1),
            delay_secs: 0,
        })
    );
}

#[test]
fn cancel_while_idle_stops_for_good() {
    let mut engine = engine(100);
    assert_eq!(engine.run(Event::CancelRequested), nothing(Next::Stop));
    assert!(engine.is_stopped());
    assert_eq!(engine.run(Event::TimerFired), nothing(Next::Stop));
    assert_eq!(engine.run(Event::ClockRead(NOW)), nothing(Next::Stop));
    assert_eq!(engine.run(page(Vec::new(), false)), nothing(Next::Stop));
    assert_eq!(engine.run(Event::FetchFailed), nothing(Next::Stop));
    assert_eq!(engine.run(Event::CancelRequested), nothing(Next::Stop));
    assert!(engine.is_stopped());
}

#[test]
fn cancel_during_a_poll_is_obeyed_when_the_poll_ends() {
    let mut engine = polling(1);
    assert_eq!(engine.run(Event::CancelRequested), nothing(Next::Pending));
    assert!(engine.is_running());
    // the poll goes on, delay and all
    assert_eq!(
        engine.run(page(vec![record("A0", alert("open", true, "P2", "m", 1))], true)),
        nothing(Next::Fetch { request: request(FIRST_QUERY, 1, 1), delay_secs: 1 })
    );
    let outcome = engine.run(page(vec![record("A1", alert("open", false, "P2", "m", 1))], false));
    assert_eq!(
        outcome,
        Outcome {
            report: Report::Synced(vec![skip("A0"), notify("A1", "m", Urgency::Critical)]),
            next: Next::Stop,
        }
    );
    assert!(engine.is_stopped());
    assert_eq!(engine.alerts().len(), 2);
}

#[test]
fn cancel_while_the_clock_is_read_is_obeyed_when_the_poll_ends() {
    let mut engine = engine(100);
    engine.run(Event::TimerFired);
    assert_eq!(engine.run(Event::CancelRequested), nothing(Next::Pending));
    assert_eq!(engine.run(Event::TimerFired), nothing(Next::Pending));
    assert_eq!(
        engine.run(Event::ClockRead(NOW)),
        nothing(Next::Fetch { request: request(FIRST_QUERY, 0, 100), delay_secs: 0 })
    );
    assert_eq!(
        engine.run(page(Vec::new(), false)),
        Outcome { report: Report::Synced(Vec::new()), next: Next::Stop }
    );
    assert!(engine.is_stopped());
}

#[test]
fn ticks_missed_during_a_poll_start_one_poll_at_its_end() {
    let mut engine = polling(100);
    assert_eq!(engine.run(Event::TimerFired), nothing(Next::Pending));
    assert_eq!(engine.run(Event::TimerFired), nothing(Next::Pending));
    let outcome = engine.run(page(vec![record("A1", alert("open", true, "P2", "m", 77))], false));
    assert_eq!(
        outcome,
        Outcome {
            report: Report::Synced(vec![skip("A1")]),
            next: Next::Fetch {
                request: request("status: open OR updatedAt >= 77", 0, 100),
                delay_secs: 0,
            },
        }
    );
    assert!(engine.is_running());
    // the missed ticks are spent: the poll that they started ends in a wait
    assert_eq!(
        engine.run(page(Vec::new(), false)),
        Outcome { report: Report::Synced(Vec::new()), next: Next::Wait }
    );
}

#[test]
fn missed_tick_after_an_empty_poll_asks_for_the_clock_again() {
    let mut engine = polling(100);
    engine.run(Event::TimerFired);
    assert_eq!(
        engine.run(page(Vec::new(), false)),
        Outcome { report: Report::Synced(Vec::new()), next: Next::ReadClock }
    );
    assert!(engine.is_running());
    assert_eq!(
        engine.run(Event::ClockRead(NOW)),
        nothing(Next::Fetch { request: request(FIRST_QUERY, 0, 100), delay_secs: 0 })
    );
}

#[test]
fn cancel_wins_over_missed_ticks_and_over_failure() {
    let mut engine = polling(100);
    engine.run(Event::TimerFired);
    engine.run(Event::CancelRequested);
    assert_eq!(
        engine.run(Event::FetchFailed),
        Outcome { report: Report::Abandoned(FetchError::Service), next: Next::Stop }
    );
    assert!(engine.is_stopped());
}

#[test]
fn stray_results_on_an_idle_engine_change_nothing() {
    let mut engine = engine(100);
    let stray = page(vec![record("A1", alert("open", false, "P1", "m", 1))], true);
    assert_eq!(engine.run(stray), nothing(Next::Wait));
    assert_eq!(engine.run(Event::FetchFailed), nothing(Next::Wait));
    assert_eq!(engine.run(Event::ClockRead(NOW)), nothing(Next::Wait));
    assert!(engine.alerts().is_empty());
    assert!(!engine.is_running());
}

#[test]
fn stray_events_during_a_poll_change_nothing() {
    let mut engine = engine(100);
    engine.run(Event::TimerFired);
    // the clock is awaited: pages and failures are not
    assert_eq!(engine.run(page(Vec::new(), false)), nothing(Next::Pending));
    assert_eq!(engine.run(Event::FetchFailed), nothing(Next::Pending));
    engine.run(Event::ClockRead(NOW));
    // a page is awaited: a second reading of the clock is not
    let other = Timestamp { secs: 5, nanos: 0 };
    assert_eq!(engine.run(Event::ClockRead(other)), nothing(Next::Pending));
    assert_eq!(
        engine.run(page(vec![record("A1", alert("open", true, "P1", "m", 1))], true)),
        nothing(Next::Fetch { request: request(FIRST_QUERY, 100, 100), delay_secs: 1 })
    );
}

#[test]
fn page_without_data_ends_the_poll() {
    let mut engine = polling(100);
    let outcome = engine.run(Event::PageReceived(Page { data: None, has_next: true }));
    assert_eq!(outcome, Outcome { report: Report::Synced(Vec::new()), next: Next::Wait });
}
