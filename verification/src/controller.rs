//! The orchestration protocol around the remote upgrade job.
//!
//! One attempt purges stale status events, provisions the resource bundle,
//! and then polls the job's event stream a bounded number of times. The
//! latest event by event time is authoritative; a validation failure
//! reported by the job rolls the whole bundle back, any other event means
//! the upgrade is under way and continues remotely, and a poll window that
//! ends without an event leaves the resources in place for a later status
//! query.

use crate::text::str_eq;
use vstd::prelude::*;
use vstd::string::*;

verus! {

/// How many times one attempt polls for a status event.
pub const MAX_POLL_ATTEMPTS: u8 = 6;

/// How many seconds lie between two polls.
pub const POLL_INTERVAL_SECONDS: u64 = 10;

/// One cluster event, reduced to what the controller reads. The event
/// time is the event's microsecond timestamp, absent when the cluster
/// reported none.
pub struct EventSummary {
    pub reason: Option<String>,
    pub action: Option<String>,
    pub note: Option<String>,
    pub event_time: Option<i64>,
}

/// The mathematical value of an event.
pub struct EventView {
    pub reason: Option<Seq<char>>,
    pub action: Option<Seq<char>>,
    pub note: Option<Seq<char>>,
    pub event_time: Option<i64>,
}

/// The value of one event.
pub open spec fn event_view(e: EventSummary) -> EventView {
    EventView {
        reason: crate::image::opt_string_view(e.reason),
        action: crate::image::opt_string_view(e.action),
        note: crate::image::opt_string_view(e.note),
        event_time: e.event_time,
    }
}

/// How reading the job's status can fail.
#[derive(Debug)]
pub enum EventError {
    /// No event of the upgrade job is present yet.
    NoUpgradeEvent,
    /// The authoritative event carries no message payload.
    NoteMissing,
}

/// The message payload of one upgrade status event.
pub struct UpgradeEvent {
    pub from_version: String,
    pub to_version: String,
    pub message: String,
}

/// True iff the event was posted by the upgrade job.
pub open spec fn upgrade_reason(e: EventSummary) -> bool {
    e.reason matches Some(r) && r@ == "OpenebsUpgrade"@
}

/// The ordering of optional event times: an absent time sorts below every
/// present one.
pub open spec fn time_le(a: Option<i64>, b: Option<i64>) -> bool {
    match a {
        None => true,
        Some(x) => match b {
            None => false,
            Some(y) => x <= y,
        },
    }
}

fn time_le_exec(a: &Option<i64>, b: &Option<i64>) -> (r: bool)
    ensures
        r == time_le(*a, *b),
{
    match a {
        None => true,
        Some(x) => match b {
            None => false,
            Some(y) => *x <= *y,
        },
    }
}

/// True iff the event at `i` is authoritative among `events`: it has the
/// upgrade reason, no event with that reason has a later time, and among
/// those sharing its time it is the last listed.
pub open spec fn authoritative_at(events: Seq<EventSummary>, i: int) -> bool {
    &&& 0 <= i < events.len()
    &&& upgrade_reason(events[i])
    &&& forall|j: int|
        0 <= j < events.len() && upgrade_reason(#[trigger] events[j]) ==> time_le(
            events[j].event_time,
            events[i].event_time,
        )
    &&& forall|j: int|
        i < j < events.len() && upgrade_reason(#[trigger] events[j]) ==> !time_le(
            events[i].event_time,
            events[j].event_time,
        )
}

/// The position of the authoritative upgrade event, if any event carries
/// the upgrade reason: the latest by event time, ties resolved towards the
/// last listed.
pub fn latest_upgrade_event_index(events: &Vec<EventSummary>) -> (r: Option<usize>)
    ensures
        match r {
            Some(i) => authoritative_at(events@, i as int),
            None => forall|j: int| 0 <= j < events@.len() ==> !upgrade_reason(events@[j]),
        },
{
    let mut best: Option<usize> = None;
    let mut i: usize = 0;
    while i < events.len()
        invariant
            i <= events@.len(),
            match best {
                Some(b) => {
                    &&& b < i
                    &&& upgrade_reason(events@[b as int])
                    &&& forall|j: int|
                        0 <= j < i && upgrade_reason(#[trigger] events@[j]) ==> time_le(
                            events@[j].event_time,
                            events@[b as int].event_time,
                        )
                    &&& forall|j: int|
                        b < j < i && upgrade_reason(#[trigger] events@[j]) ==> !time_le(
                            events@[b as int].event_time,
                            events@[j].event_time,
                        )
                },
                None => forall|j: int| 0 <= j < i ==> !upgrade_reason(events@[j]),
            },
        decreases events@.len() - i,
    {
        let is_upgrade = match &events[i].reason {
            Some(s) => str_eq(s.as_str(), "OpenebsUpgrade"),
            None => false,
        };
        if is_upgrade {
            match best {
                Some(b) => {
                    if time_le_exec(&events[b].event_time, &events[i].event_time) {
                        best = Some(i);
                    }
                },
                None => {
                    best = Some(i);
                },
            }
        }
        i = i + 1;
    }
    best
}

/// What the authoritative event tells the controller to do.
pub enum EventDecision {
    /// The job reported a validation failure with a payload: surface it
    /// and roll the bundle back.
    Rollback,
    /// The job reported a validation failure but carried no payload.
    NoteMissing,
    /// The job reported anything else by name: the upgrade has started.
    Started,
    /// The event carries no action at all.
    Ignore,
}

/// The decision an event's action and payload lead to: a validation
/// failure rolls back when its payload is present and is malformed
/// without one; any other named action means the upgrade started; an
/// actionless event says nothing.
pub open spec fn spec_event_decision(action: Option<Seq<char>>, note_present: bool) -> EventDecision {
    match action {
        Some(a) => if a == "Validation Failed"@ {
            if note_present {
                EventDecision::Rollback
            } else {
                EventDecision::NoteMissing
            }
        } else {
            EventDecision::Started
        },
        None => EventDecision::Ignore,
    }
}

/// Classifies one event as [`spec_event_decision`] describes.
pub fn classify_upgrade_event(e: &EventSummary) -> (r: EventDecision)
    ensures
        r == spec_event_decision(event_view(*e).action, e.note is Some),
{
    match &e.action {
        Some(a) => {
            if str_eq(a.as_str(), "Validation Failed") {
                if e.note.is_some() {
                    EventDecision::Rollback
                } else {
                    EventDecision::NoteMissing
                }
            } else {
                EventDecision::Started
            }
        },
        None => EventDecision::Ignore,
    }
}

/// The stateless status query: the note of the authoritative event, for a
/// user checking on a long-running upgrade.
pub fn upgrade_status_note(events: &Vec<EventSummary>) -> (r: Result<String, EventError>)
    ensures
        match r {
            Ok(note) => exists|i: int|
                authoritative_at(events@, i) && event_view(#[trigger] events@[i]).note == Some(
                    note@,
                ),
            Err(e) => match e {
                EventError::NoUpgradeEvent => forall|j: int|
                    0 <= j < events@.len() ==> !upgrade_reason(events@[j]),
                EventError::NoteMissing => exists|i: int|
                    authoritative_at(events@, i) && event_view(#[trigger] events@[i]).note
                        is None,
            },
        },
{
    match latest_upgrade_event_index(events) {
        Some(i) => match &events[i].note {
            Some(n) => {
                let note = crate::release::clone_string(n);
                proof {
                    assert(authoritative_at(events@, i as int) && event_view(events@[i as int]).note
                        == Some(note@));
                }
                Ok(note)
            },
            None => {
                proof {
                    assert(authoritative_at(events@, i as int) && event_view(events@[i as int]).note
                        is None);
                }
                Err(EventError::NoteMissing)
            },
        },
        None => Err(EventError::NoUpgradeEvent),
    }
}

/// How one attempt ends.
pub enum ControllerOutcome {
    /// The job reported progress by name; the bundle stays.
    Started,
    /// An actionless event was seen; the bundle stays.
    Ignored,
    /// The job reported a validation failure; the bundle was ordered
    /// deleted.
    RolledBack,
    /// The job reported a validation failure without a payload.
    NoteMissing,
    /// The poll window closed without any event; the bundle stays and a
    /// later status query can still observe the job.
    TimedOut,
}

/// Where one attempt stands.
pub enum ControllerPhase {
    /// Nothing has happened; stale events must be purged first.
    Start,
    /// Stale events are gone; the bundle is being created.
    Provisioning,
    /// The bundle exists; the count is how many polls have finished.
    Polling(u8),
    /// The attempt is over.
    Done(ControllerOutcome),
}

/// What the world reports back to the controller.
pub enum ControllerInput {
    /// The stale events of this job name are gone.
    PurgeDone,
    /// All five bundle objects exist.
    ProvisionDone,
    /// One poll finished: either no event with the upgrade reason exists
    /// yet, or the authoritative event was classified.
    Polled(Option<EventDecision>),
}

/// What the controller asks for next.
pub enum ControllerAction {
    /// Delete the stale events behind the job's field selector.
    PurgeStaleEvents,
    /// Create the five bundle objects.
    CreateBundle,
    /// Wait one poll interval, list the job's events, classify.
    WaitThenPoll,
    /// Delete the five bundle objects.
    DeleteBundle,
    /// Stop; the phase holds the outcome.
    Finish,
}

/// True iff the input is one the phase can receive.
pub open spec fn input_fits(phase: ControllerPhase, input: ControllerInput) -> bool {
    match phase {
        ControllerPhase::Start => input is PurgeDone,
        ControllerPhase::Provisioning => input is ProvisionDone,
        ControllerPhase::Polling(k) => k < MAX_POLL_ATTEMPTS && input is Polled,
        ControllerPhase::Done(_) => false,
    }
}

/// The transition of one attempt: purge, then provision, then poll up to
/// the attempt bound, stopping at the first event seen. A reported
/// validation failure is the one path that orders the bundle deleted.
pub open spec fn spec_controller_next(phase: ControllerPhase, input: ControllerInput) -> (
    ControllerPhase,
    ControllerAction,
) {
    match (phase, input) {
        (ControllerPhase::Start, _) => (
            ControllerPhase::Provisioning,
            ControllerAction::CreateBundle,
        ),
        (ControllerPhase::Provisioning, _) => (
            ControllerPhase::Polling(0),
            ControllerAction::WaitThenPoll,
        ),
        (ControllerPhase::Polling(k), ControllerInput::Polled(out)) => match out {
            None => if k + 1 < MAX_POLL_ATTEMPTS {
                (ControllerPhase::Polling((k + 1) as u8), ControllerAction::WaitThenPoll)
            } else {
                (
                    ControllerPhase::Done(ControllerOutcome::TimedOut),
                    ControllerAction::Finish,
                )
            },
            Some(EventDecision::Rollback) => (
                ControllerPhase::Done(ControllerOutcome::RolledBack),
                ControllerAction::DeleteBundle,
            ),
            Some(EventDecision::NoteMissing) => (
                ControllerPhase::Done(ControllerOutcome::NoteMissing),
                ControllerAction::Finish,
            ),
            Some(EventDecision::Started) => (
                ControllerPhase::Done(ControllerOutcome::Started),
                ControllerAction::Finish,
            ),
            Some(EventDecision::Ignore) => (
                ControllerPhase::Done(ControllerOutcome::Ignored),
                ControllerAction::Finish,
            ),
        },
        _ => (phase, ControllerAction::Finish),
    }
}

/// The first step of an attempt: at the start, purge stale events.
pub fn controller_initial() -> (r: (ControllerPhase, ControllerAction))
    ensures
        r.0 == ControllerPhase::Start,
        r.1 == ControllerAction::PurgeStaleEvents,
{
    (ControllerPhase::Start, ControllerAction::PurgeStaleEvents)
}

/// Advances one attempt by one input, as [`spec_controller_next`]
/// describes.
pub fn controller_next(phase: ControllerPhase, input: ControllerInput) -> (r: (
    ControllerPhase,
    ControllerAction,
))
    requires
        input_fits(phase, input),
    ensures
        r == spec_controller_next(phase, input),
{
    match (phase, input) {
        (ControllerPhase::Start, _) => (
            ControllerPhase::Provisioning,
            ControllerAction::CreateBundle,
        ),
        (ControllerPhase::Provisioning, _) => (
            ControllerPhase::Polling(0),
            ControllerAction::WaitThenPoll,
        ),
        (ControllerPhase::Polling(k), ControllerInput::Polled(out)) => match out {
            None => {
                if k + 1 < MAX_POLL_ATTEMPTS {
                    (ControllerPhase::Polling(k + 1), ControllerAction::WaitThenPoll)
                } else {
                    (
                        ControllerPhase::Done(ControllerOutcome::TimedOut),
                        ControllerAction::Finish,
                    )
                }
            },
            Some(EventDecision::Rollback) => (
                ControllerPhase::Done(ControllerOutcome::RolledBack),
                ControllerAction::DeleteBundle,
            ),
            Some(EventDecision::NoteMissing) => (
                ControllerPhase::Done(ControllerOutcome::NoteMissing),
                ControllerAction::Finish,
            ),
            Some(EventDecision::Started) => (
                ControllerPhase::Done(ControllerOutcome::Started),
                ControllerAction::Finish,
            ),
            Some(EventDecision::Ignore) => (
                ControllerPhase::Done(ControllerOutcome::Ignored),
                ControllerAction::Finish,
            ),
        },
        (p, _) => (p, ControllerAction::Finish),
    }
}

} // verus!
