use openebs_upgrade::controller::{
    classify_upgrade_event, controller_initial, controller_next, latest_upgrade_event_index,
    upgrade_status_note, ControllerAction, ControllerInput, ControllerOutcome, ControllerPhase,
    EventDecision, EventError, EventSummary, MAX_POLL_ATTEMPTS,
};

fn event(
    reason: Option<&str>,
    action: Option<&str>,
    note: Option<&str>,
    event_time: Option<i64>,
) -> EventSummary {
    EventSummary {
        reason: reason.map(|s| s.to_string()),
        action: action.map(|s| s.to_string()),
        note: note.map(|s| s.to_string()),
        event_time,
    }
}

#[test]
fn latest_event_is_picked_by_time() {
    let events = vec![
        event(Some("OpenebsUpgrade"), Some("old"), None, Some(100)),
        event(Some("SomethingElse"), Some("noise"), None, Some(999)),
        event(Some("OpenebsUpgrade"), Some("new"), None, Some(200)),
    ];
    let i = latest_upgrade_event_index(&events).expect("events match");
    assert_eq!(i, 2);
}

#[test]
fn latest_event_tie_goes_to_the_last_listed() {
    let events = vec![
        event(Some("OpenebsUpgrade"), Some("first"), None, Some(100)),
        event(Some("OpenebsUpgrade"), Some("second"), None, Some(100)),
    ];
    let i = latest_upgrade_event_index(&events).expect("events match");
    assert_eq!(i, 1);
}

#[test]
fn absent_time_sorts_below_any_time() {
    let events = vec![
        event(Some("OpenebsUpgrade"), Some("timed"), None, Some(1)),
        event(Some("OpenebsUpgrade"), Some("timeless"), None, None),
    ];
    let i = latest_upgrade_event_index(&events).expect("events match");
    assert_eq!(i, 0);
}

#[test]
fn no_matching_reason_means_no_event() {
    let events = vec![event(Some("SomethingElse"), None, None, Some(1)), event(None, None, None, None)];
    assert!(latest_upgrade_event_index(&events).is_none());
}

#[test]
fn classification_follows_the_action_tag() {
    let e = event(Some("OpenebsUpgrade"), Some("Validation Failed"), Some("{}"), None);
    assert!(matches!(classify_upgrade_event(&e), EventDecision::Rollback));

    let e = event(Some("OpenebsUpgrade"), Some("Validation Failed"), None, None);
    assert!(matches!(classify_upgrade_event(&e), EventDecision::NoteMissing));

    let e = event(Some("OpenebsUpgrade"), Some("Upgrading"), None, None);
    assert!(matches!(classify_upgrade_event(&e), EventDecision::Started));

    let e = event(Some("OpenebsUpgrade"), None, None, None);
    assert!(matches!(classify_upgrade_event(&e), EventDecision::Ignore));
}

#[test]
fn status_query_reads_the_latest_note() {
    let events = vec![
        event(Some("OpenebsUpgrade"), None, Some("older"), Some(5)),
        event(Some("OpenebsUpgrade"), None, Some("newest"), Some(9)),
    ];
    assert_eq!(upgrade_status_note(&events).unwrap(), "newest");
}

#[test]
fn status_query_names_its_failures() {
    let r = upgrade_status_note(&vec![event(Some("Other"), None, None, None)]);
    assert!(matches!(r, Err(EventError::NoUpgradeEvent)));

    let r = upgrade_status_note(&vec![event(Some("OpenebsUpgrade"), None, None, None)]);
    assert!(matches!(r, Err(EventError::NoteMissing)));
}

#[test]
fn controller_starts_by_purging() {
    let (phase, action) = controller_initial();
    assert!(matches!(phase, ControllerPhase::Start));
    assert!(matches!(action, ControllerAction::PurgeStaleEvents));
}

#[test]
fn controller_provisions_then_polls() {
    let (phase, action) = controller_next(ControllerPhase::Start, ControllerInput::PurgeDone);
    assert!(matches!(phase, ControllerPhase::Provisioning));
    assert!(matches!(action, ControllerAction::CreateBundle));

    let (phase, action) = controller_next(phase, ControllerInput::ProvisionDone);
    assert!(matches!(phase, ControllerPhase::Polling(0)));
    assert!(matches!(action, ControllerAction::WaitThenPoll));
}

#[test]
fn controller_times_out_after_the_poll_budget() {
    let mut phase = ControllerPhase::Polling(0);
    for k in 0..MAX_POLL_ATTEMPTS - 1 {
        let (next, action) = controller_next(phase, ControllerInput::Polled(None));
        assert!(matches!(next, ControllerPhase::Polling(n) if n == k + 1));
        assert!(matches!(action, ControllerAction::WaitThenPoll));
        phase = next;
    }
    let (next, action) = controller_next(phase, ControllerInput::Polled(None));
    assert!(matches!(
        next,
        ControllerPhase::Done(ControllerOutcome::TimedOut)
    ));
    assert!(matches!(action, ControllerAction::Finish));
}

#[test]
fn controller_rolls_back_on_validation_failure() {
    let (phase, action) = controller_next(
        ControllerPhase::Polling(2),
        ControllerInput::Polled(Some(EventDecision::Rollback)),
    );
    assert!(matches!(
        phase,
        ControllerPhase::Done(ControllerOutcome::RolledBack)
    ));
    assert!(matches!(action, ControllerAction::DeleteBundle));
}

#[test]
fn controller_stops_on_a_started_event() {
    let (phase, action) = controller_next(
        ControllerPhase::Polling(0),
        ControllerInput::Polled(Some(EventDecision::Started)),
    );
    assert!(matches!(
        phase,
        ControllerPhase::Done(ControllerOutcome::Started)
    ));
    assert!(matches!(action, ControllerAction::Finish));
}
