use chuck_norust::controller::{AppAction, AppEvent, ChuckFact, Controller, FetchDecision};
use chuck_norust::settings::{write_notification_interval, SettingsStore};

fn fact(text: &str) -> Option<ChuckFact> {
    Some(ChuckFact { value: text.to_string() })
}

#[test]
fn fresh_store_starts_with_defaults() {
    let ctrl = Controller::new(SettingsStore::new());
    assert_eq!(ctrl.interval_ms, 10000);
    assert!(!ctrl.repeat_enabled);
    assert!(ctrl.last_quote.is_none());
    assert!(ctrl.timer_running);
    assert!(!ctrl.settings_visible);
    assert!(ctrl.running);
}

#[test]
fn startup_uses_persisted_interval() {
    let mut store = SettingsStore::new();
    write_notification_interval(&mut store, 900000);
    let ctrl = Controller::new(store);
    assert_eq!(ctrl.interval_ms, 900000);
}

#[test]
fn selecting_every_minute_persists_and_restarts_timer() {
    let mut ctrl = Controller::new(SettingsStore::new());
    let action = ctrl.handle_event(AppEvent::IntervalChanged(Some(5)));
    assert!(matches!(action, AppAction::Nothing));
    assert_eq!(ctrl.store.interval_entry, Some(60000));
    assert_eq!(ctrl.interval_ms, 60000);
    assert!(ctrl.timer_running);
}

#[test]
fn selecting_out_of_range_index_changes_nothing() {
    let mut ctrl = Controller::new(SettingsStore::new());
    ctrl.handle_event(AppEvent::IntervalChanged(Some(14)));
    ctrl.handle_event(AppEvent::IntervalChanged(None));
    assert_eq!(ctrl.store.interval_entry, None);
    assert_eq!(ctrl.interval_ms, 10000);
}

#[test]
fn short_joke_is_shown_and_stored() {
    let mut ctrl = Controller::new(SettingsStore::new());
    let action = ctrl.handle_event(AppEvent::NextQuoteRequested);
    assert!(matches!(action, AppAction::Fetch));
    assert!(!ctrl.timer_running);
    let action = ctrl.handle_event(AppEvent::FetchResult(fact("Short joke.")));
    match action {
        AppAction::ShowNotification(text) => assert_eq!(text, "Short joke."),
        other => panic!("expected a notification, got {}", describe(&other)),
    }
    assert_eq!(ctrl.last_quote.as_deref(), Some("Short joke."));
    assert!(ctrl.repeat_enabled);
    assert!(ctrl.timer_running);
}

#[test]
fn two_hundred_char_joke_is_retried_and_never_stored() {
    let mut ctrl = Controller::new(SettingsStore::new());
    ctrl.handle_event(AppEvent::NextQuoteRequested);
    let long = "a".repeat(200);
    let action = ctrl.handle_event(AppEvent::FetchResult(fact(&long)));
    assert!(matches!(action, AppAction::Fetch));
    assert!(ctrl.last_quote.is_none());
    assert!(!ctrl.repeat_enabled);
}

#[test]
fn length_boundary_at_150_characters() {
    let mut ctrl = Controller::new(SettingsStore::new());
    ctrl.handle_event(AppEvent::NextQuoteRequested);
    let at_limit = "b".repeat(150);
    let action = ctrl.handle_event(AppEvent::FetchResult(fact(&at_limit)));
    assert!(matches!(action, AppAction::ShowNotification(_)));
    assert_eq!(ctrl.last_quote.as_deref(), Some(at_limit.as_str()));

    let mut ctrl2 = Controller::new(SettingsStore::new());
    ctrl2.handle_event(AppEvent::NextQuoteRequested);
    let over_limit = "b".repeat(151);
    let action = ctrl2.handle_event(AppEvent::FetchResult(fact(&over_limit)));
    assert!(matches!(action, AppAction::Fetch));
    assert!(ctrl2.last_quote.is_none());
}

#[test]
fn retry_budget_runs_out_and_cycle_is_skipped() {
    let mut ctrl = Controller::new(SettingsStore::new());
    ctrl.handle_event(AppEvent::NextQuoteRequested);
    let long = "c".repeat(151);
    let mut fetches: usize = 0;
    loop {
        let action = ctrl.handle_event(AppEvent::FetchResult(fact(&long)));
        match action {
            AppAction::Fetch => {
                fetches += 1;
                assert!(fetches < 100, "retrying must stop");
            }
            AppAction::Nothing => break,
            other => panic!("unexpected action {}", describe(&other)),
        }
    }
    assert!(ctrl.timer_running);
    assert!(ctrl.last_quote.is_none());
}

#[test]
fn failed_fetch_shows_nothing_but_restarts_timer() {
    let mut ctrl = Controller::new(SettingsStore::new());
    ctrl.handle_event(AppEvent::NextQuoteRequested);
    let action = ctrl.handle_event(AppEvent::FetchResult(None));
    assert!(matches!(action, AppAction::Nothing));
    assert!(ctrl.timer_running);
    assert!(ctrl.last_quote.is_none());
}

#[test]
fn repeat_stays_enabled_across_later_failures() {
    let mut ctrl = Controller::new(SettingsStore::new());
    ctrl.handle_event(AppEvent::NextQuoteRequested);
    ctrl.handle_event(AppEvent::FetchResult(fact("First joke.")));
    assert!(ctrl.repeat_enabled);

    ctrl.handle_event(AppEvent::NextQuoteRequested);
    ctrl.handle_event(AppEvent::FetchResult(None));
    assert!(ctrl.repeat_enabled);

    ctrl.handle_event(AppEvent::NextQuoteRequested);
    ctrl.handle_event(AppEvent::FetchResult(fact(&"d".repeat(200))));
    assert!(ctrl.repeat_enabled);

    let action = ctrl.handle_event(AppEvent::RepeatSelected);
    match action {
        AppAction::ShowNotification(text) => assert_eq!(text, "First joke."),
        other => panic!("expected a notification, got {}", describe(&other)),
    }
    assert!(ctrl.timer_running);
}

#[test]
fn repeat_before_any_fetch_shows_nothing() {
    let mut ctrl = Controller::new(SettingsStore::new());
    let action = ctrl.handle_event(AppEvent::RepeatSelected);
    assert!(matches!(action, AppAction::Nothing));
    assert!(ctrl.timer_running);
}

#[test]
fn next_quote_decisions_match_fetch_outcomes() {
    let mut ctrl = Controller::new(SettingsStore::new());
    ctrl.begin_fetch_cycle();
    assert!(matches!(ctrl.next_quote(None), FetchDecision::Skip));
    assert!(matches!(
        ctrl.next_quote(fact(&"e".repeat(151))),
        FetchDecision::Retry
    ));
    match ctrl.next_quote(fact("Fits fine.")) {
        FetchDecision::Accept(text) => assert_eq!(text, "Fits fine."),
        _ => panic!("a short quote must be accepted"),
    }
}

#[test]
fn window_toggles_and_buttons() {
    let mut ctrl = Controller::new(SettingsStore::new());
    ctrl.handle_event(AppEvent::TrayLeftClick);
    assert!(ctrl.settings_visible);
    ctrl.handle_event(AppEvent::TrayLeftClick);
    assert!(!ctrl.settings_visible);
    ctrl.handle_event(AppEvent::SettingsSelected);
    assert!(ctrl.settings_visible);
    ctrl.handle_event(AppEvent::OkSelected);
    assert!(!ctrl.settings_visible);
}

#[test]
fn exit_stops_the_dispatch_loop() {
    let mut ctrl = Controller::new(SettingsStore::new());
    let action = ctrl.handle_event(AppEvent::ExitSelected);
    assert!(matches!(action, AppAction::StopDispatch));
    assert!(!ctrl.running);
}

fn describe(action: &AppAction) -> &'static str {
    match action {
        AppAction::Nothing => "nothing",
        AppAction::Fetch => "a fetch",
        AppAction::ShowNotification(_) => "a notification",
        AppAction::StopDispatch => "a stop",
    }
}
