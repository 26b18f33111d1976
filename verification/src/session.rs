//! Session protocol: the decision logic of the bus client.
//!
//! Every bus interaction (issuing a transport command, reading a
//! property, waiting for a property-change notification) suspends, so
//! the client is modelled as an explicit state machine: the caller
//! performs the returned action, hands the resulting event back, and
//! the machine decides the next step. The machine itself never touches
//! the bus, which keeps the whole protocol verifiable.
//!
//! The composite `advance` operation (skip to the next or previous
//! track and report the resulting one) issues the transport command
//! first, then collects every metadata notification that arrives within
//! a bounded window; the chronologically last one wins. If none arrived
//! the machine falls back to a fresh synchronous read of the metadata
//! property, so the operation always produces a defined result.

use vstd::prelude::*;

use crate::decode::{
    decode_item_post, decode_playback_item, fields_ok, FieldValue, RemotePropertyValue,
};
use crate::domain::{DecodeError, SongType};

verus! {

/// How long `advance` keeps draining notifications after its command.
pub const ADVANCE_WINDOW_MILLIS: u64 = 100;

/// The two skip directions of the composite `advance` operation.
#[derive(Debug, Clone, Copy, PartialEq, Eq, Structural)]
pub enum Direction {
    Next,
    Previous,
}

/// A playback-control verb sent as a one-way remote call.
#[derive(Debug, Clone, Copy, PartialEq, Eq, Structural)]
pub enum TransportCommand {
    Next,
    Previous,
    Play,
    Pause,
    Toggle,
}

/// The remote method name of a transport command.
pub open spec fn spec_method_name(cmd: TransportCommand) -> Seq<char> {
    match cmd {
        TransportCommand::Next => "Next"@,
        TransportCommand::Previous => "Previous"@,
        TransportCommand::Play => "Play"@,
        TransportCommand::Pause => "Pause"@,
        TransportCommand::Toggle => "PlayPause"@,
    }
}

/// The remote method name a transport command is sent under; the
/// toggle verb maps to the interface's combined play/pause method.
pub fn method_name(cmd: TransportCommand) -> (r: String)
    ensures
        r@ == spec_method_name(cmd),
{
    match cmd {
        TransportCommand::Next => "Next".to_owned(),
        TransportCommand::Previous => "Previous".to_owned(),
        TransportCommand::Play => "Play".to_owned(),
        TransportCommand::Pause => "Pause".to_owned(),
        TransportCommand::Toggle => "PlayPause".to_owned(),
    }
}

/// The transport command that performs a skip in `direction`.
pub open spec fn direction_command(direction: Direction) -> TransportCommand {
    match direction {
        Direction::Next => TransportCommand::Next,
        Direction::Previous => TransportCommand::Previous,
    }
}

/// State of one run of the `advance` protocol.
#[derive(Debug)]
pub enum AdvanceState {
    /// Nothing has happened yet; the command is about to be issued.
    Start { direction: Direction },
    /// The command went out; notifications are being collected.
    Draining { seen: Vec<SongType> },
    /// The window elapsed with no notification; a fresh property read
    /// is in flight.
    ReadingBack,
    /// The protocol finished with the item that is now playing.
    Done { result: SongType },
}

/// What the driver of the protocol must do next.
#[derive(Debug)]
pub enum AdvanceAction {
    /// Issue the one-way transport call for `command`.
    IssueCommand { command: TransportCommand },
    /// Wait, within the bounded window, for the next metadata
    /// notification or for the window to elapse, whichever comes first.
    AwaitWindow,
    /// Read the metadata property synchronously.
    ReadProperty,
    /// The run is over; take the result out of the state.
    Stop,
}

/// What the driver observed while performing the previous action.
#[derive(Debug)]
pub enum AdvanceEvent {
    /// The transport call returned.
    CommandSent,
    /// A metadata notification arrived within the window.
    Notification { payload: RemotePropertyValue },
    /// The window elapsed before any further notification.
    WindowElapsed,
    /// The synchronous property read returned.
    PropertyRead { payload: RemotePropertyValue },
}

/// `item` is a correct decoding of the well-formed payload `fs`.
pub open spec fn item_of(fs: Seq<(String, FieldValue)>, item: SongType) -> bool {
    fields_ok(fs) && decode_item_post(fs, Ok(item))
}

/// The events each state can observe: a command acknowledgement only at
/// the start, notifications and window expiry only while draining, a
/// property read only during the fallback.
pub open spec fn advance_event_fits(s: AdvanceState, e: AdvanceEvent) -> bool {
    match (s, e) {
        (AdvanceState::Start { .. }, AdvanceEvent::CommandSent) => true,
        (AdvanceState::Draining { .. }, AdvanceEvent::Notification { .. }) => true,
        (AdvanceState::Draining { .. }, AdvanceEvent::WindowElapsed) => true,
        (AdvanceState::ReadingBack, AdvanceEvent::PropertyRead { .. }) => true,
        _ => false,
    }
}

/// Whether `e` is an event the `advance` protocol can observe in state
/// `s`; drivers check this before stepping.
pub fn advance_event_check(s: &AdvanceState, e: &AdvanceEvent) -> (r: bool)
    ensures
        r == advance_event_fits(*s, *e),
{
    match (s, e) {
        (AdvanceState::Start { .. }, AdvanceEvent::CommandSent) => true,
        (AdvanceState::Draining { .. }, AdvanceEvent::Notification { .. }) => true,
        (AdvanceState::Draining { .. }, AdvanceEvent::WindowElapsed) => true,
        (AdvanceState::ReadingBack, AdvanceEvent::PropertyRead { .. }) => true,
        _ => false,
    }
}

/// The full transition relation of the `advance` protocol: what
/// [`advance_step`] returns for every state and fitting event.
pub open spec fn advance_step_rel(
    s: AdvanceState,
    e: AdvanceEvent,
    r: Result<(AdvanceState, AdvanceAction), DecodeError>,
) -> bool {
    match (s, e) {
        (AdvanceState::Start { direction: _ }, AdvanceEvent::CommandSent) => {
            &&& r matches Ok((s2, a2))
            &&& s2 matches AdvanceState::Draining { seen } && seen@ == Seq::<SongType>::empty()
            &&& a2 matches AdvanceAction::AwaitWindow
        },
        (AdvanceState::Draining { seen }, AdvanceEvent::Notification { payload }) => {
            &&& fields_ok(payload.fields@) ==> {
                &&& r matches Ok((s2, a2))
                &&& s2 matches AdvanceState::Draining { seen: seen2 }
                &&& seen2@.len() == seen@.len() + 1
                &&& seen2@.take(seen@.len() as int) == seen@
                &&& item_of(payload.fields@, seen2@.last())
                &&& a2 matches AdvanceAction::AwaitWindow
            }
            &&& !fields_ok(payload.fields@) ==> (r matches Err(err) && decode_item_post(
                payload.fields@,
                Err(err),
            ))
        },
        (AdvanceState::Draining { seen }, AdvanceEvent::WindowElapsed) => {
            if seen@.len() > 0 {
                &&& r matches Ok((s2, a2))
                &&& s2 matches AdvanceState::Done { result } && result == seen@.last()
                &&& a2 matches AdvanceAction::Stop
            } else {
                &&& r matches Ok((s2, a2))
                &&& s2 matches AdvanceState::ReadingBack
                &&& a2 matches AdvanceAction::ReadProperty
            }
        },
        (AdvanceState::ReadingBack, AdvanceEvent::PropertyRead { payload }) => {
            &&& fields_ok(payload.fields@) ==> {
                &&& r matches Ok((s2, a2))
                &&& s2 matches AdvanceState::Done { result }
                &&& item_of(payload.fields@, result)
                &&& a2 matches AdvanceAction::Stop
            }
            &&& !fields_ok(payload.fields@) ==> (r matches Err(err) && decode_item_post(
                payload.fields@,
                Err(err),
            ))
        },
        _ => false,
    }
}

/// Begin an `advance` run: the very first action is to issue the
/// transport command for `direction`; nothing is observed before it.
pub fn advance_start(direction: Direction) -> (r: (AdvanceState, AdvanceAction))
    ensures
        r.0 == (AdvanceState::Start { direction }),
        r.1 == (AdvanceAction::IssueCommand { command: direction_command(direction) }),
{
    let command = match direction {
        Direction::Next => TransportCommand::Next,
        Direction::Previous => TransportCommand::Previous,
    };
    (AdvanceState::Start { direction }, AdvanceAction::IssueCommand { command })
}

/// One step of the `advance` protocol: consume the observed event and
/// decide the next state and action, decoding notification payloads as
/// they arrive. A decode failure ends the run with that error.
pub fn advance_step(s: AdvanceState, e: AdvanceEvent) -> (r: Result<
    (AdvanceState, AdvanceAction),
    DecodeError,
>)
    requires
        advance_event_fits(s, e),
    ensures
        advance_step_rel(s, e, r),
{
    match (s, e) {
        (AdvanceState::Start { direction: _ }, AdvanceEvent::CommandSent) => Ok(
            (AdvanceState::Draining { seen: Vec::new() }, AdvanceAction::AwaitWindow),
        ),
        (AdvanceState::Draining { seen }, AdvanceEvent::Notification { payload }) => {
            let mut seen = seen;
            match decode_playback_item(&payload) {
                Ok(item) => {
                    let ghost seen0 = seen@;
                    seen.push(item);
                    proof {
                        assert(seen@.take(seen0.len() as int) =~= seen0);
                    }
                    Ok((AdvanceState::Draining { seen }, AdvanceAction::AwaitWindow))
                },
                Err(err) => Err(err),
            }
        },
        (AdvanceState::Draining { seen }, AdvanceEvent::WindowElapsed) => {
            let mut seen = seen;
            if seen.len() > 0 {
                let result = seen.pop().unwrap();
                Ok((AdvanceState::Done { result }, AdvanceAction::Stop))
            } else {
                Ok((AdvanceState::ReadingBack, AdvanceAction::ReadProperty))
            }
        },
        (AdvanceState::ReadingBack, AdvanceEvent::PropertyRead { payload }) => {
            match decode_playback_item(&payload) {
                Ok(result) => Ok((AdvanceState::Done { result }, AdvanceAction::Stop)),
                Err(err) => Err(err),
            }
        },
        _ => vstd::pervasive::unreached(),
    }
}

/// A complete or partial run of the `advance` protocol: `states[0]` is
/// the start state with the command as its first action, and every
/// later state and action comes from a successful step on a fitting
/// event.
pub open spec fn is_advance_run(
    states: Seq<AdvanceState>,
    actions: Seq<AdvanceAction>,
    events: Seq<AdvanceEvent>,
) -> bool {
    &&& states.len() >= 1
    &&& actions.len() == states.len()
    &&& events.len() == states.len() - 1
    &&& states[0] matches AdvanceState::Start { .. }
    &&& actions[0] matches AdvanceAction::IssueCommand { .. }
    &&& forall|i: int|
        0 <= i < events.len() ==> advance_event_fits(#[trigger] states[i], events[i])
    &&& forall|i: int|
        0 <= i < events.len() ==> advance_step_rel(
            states[i],
            #[trigger] events[i],
            Ok((states[i + 1], actions[i + 1])),
        )
}

/// The transport command comes first and exactly once: in every run of
/// the `advance` protocol the first action issues the command, no later
/// action issues one, and every notification is observed in the
/// draining state, i.e. strictly after the command went out.
pub proof fn lemma_advance_command_first(
    states: Seq<AdvanceState>,
    actions: Seq<AdvanceAction>,
    events: Seq<AdvanceEvent>,
)
    requires
        is_advance_run(states, actions, events),
    ensures
        actions[0] matches AdvanceAction::IssueCommand { .. },
        forall|i: int|
            1 <= i < actions.len() ==> !(#[trigger] actions[i] matches AdvanceAction::IssueCommand {
                ..
            }),
        forall|i: int|
            (0 <= i < events.len() && #[trigger] events[i] matches AdvanceEvent::Notification {
                ..
            }) ==> (1 <= i && states[i] matches AdvanceState::Draining { .. }),
{
    assert forall|i: int|
        1 <= i < actions.len() implies !(#[trigger] actions[i]
        matches AdvanceAction::IssueCommand { .. }) by {
        assert(advance_step_rel(states[i - 1], events[i - 1], Ok((states[i], actions[i]))));
    }
    assert forall|i: int|
        0 <= i < events.len() && #[trigger] events[i] matches AdvanceEvent::Notification {
            ..
        } implies 1 <= i && states[i] matches AdvanceState::Draining { .. } by {
        assert(advance_event_fits(states[i], events[i]));
        if i >= 1 {
            assert(advance_step_rel(states[i - 1], events[i - 1], Ok((states[i], actions[i]))));
        }
    }
}

/// An empty window is a defined outcome, not a fault: when the window
/// elapses with no notification collected, the protocol falls back to a
/// fresh synchronous read of the metadata property.
pub proof fn lemma_advance_empty_window_falls_back(
    s: AdvanceState,
    r: Result<(AdvanceState, AdvanceAction), DecodeError>,
)
    requires
        s matches AdvanceState::Draining { seen } && seen@.len() == 0,
        advance_step_rel(s, AdvanceEvent::WindowElapsed, r),
    ensures
        r matches Ok((s2, a2)) && s2 matches AdvanceState::ReadingBack && a2
            matches AdvanceAction::ReadProperty,
{
}

/// Later notifications supersede earlier ones: a run that observes two
/// notifications within the window finishes with the item decoded from
/// the second, chronologically later, one.
pub proof fn lemma_advance_two_notifications(
    states: Seq<AdvanceState>,
    actions: Seq<AdvanceAction>,
    events: Seq<AdvanceEvent>,
    first: RemotePropertyValue,
    second: RemotePropertyValue,
)
    requires
        is_advance_run(states, actions, events),
        states.len() == 5,
        events[0] matches AdvanceEvent::CommandSent,
        events[1] matches AdvanceEvent::Notification { payload } && payload == first,
        events[2] matches AdvanceEvent::Notification { payload } && payload == second,
        events[3] matches AdvanceEvent::WindowElapsed,
        fields_ok(first.fields@),
        fields_ok(second.fields@),
    ensures
        states[4] matches AdvanceState::Done { result } && item_of(second.fields@, result),
{
    assert(advance_step_rel(states[0], events[0], Ok((states[1], actions[1]))));
    assert(advance_step_rel(states[1], events[1], Ok((states[2], actions[2]))));
    assert(advance_step_rel(states[2], events[2], Ok((states[3], actions[3]))));
    assert(advance_step_rel(states[3], events[3], Ok((states[4], actions[4]))));
}

/// The payloads of the notifications among `events`, in arrival order.
pub open spec fn observed_payloads(events: Seq<AdvanceEvent>) -> Seq<RemotePropertyValue>
    decreases events.len(),
{
    if events.len() == 0 {
        Seq::empty()
    } else {
        observed_payloads(events.drop_last()) + (match events.last() {
            AdvanceEvent::Notification { payload } => seq![payload],
            _ => Seq::empty(),
        })
    }
}

/// While draining, the collected items are exactly the decodings of the
/// notifications observed so far, in arrival order.
pub proof fn lemma_advance_seen_tracks_notifications(
    states: Seq<AdvanceState>,
    actions: Seq<AdvanceAction>,
    events: Seq<AdvanceEvent>,
    i: int,
)
    requires
        is_advance_run(states, actions, events),
        0 <= i < states.len(),
    ensures
        states[i] matches AdvanceState::Draining { seen } ==> {
            &&& seen@.len() == observed_payloads(events.take(i)).len()
            &&& forall|j: int|
                0 <= j < seen@.len() ==> item_of(
                    #[trigger] observed_payloads(events.take(i))[j].fields@,
                    seen@[j],
                )
        },
    decreases i,
{
    if i == 0 {
        return ;
    }
    lemma_advance_seen_tracks_notifications(states, actions, events, i - 1);
    assert(advance_event_fits(states[i - 1], events[i - 1]));
    assert(advance_step_rel(states[i - 1], events[i - 1], Ok((states[i], actions[i]))));
    assert(events.take(i).drop_last() =~= events.take(i - 1));
    assert(events.take(i).last() == events[i - 1]);
    if states[i] matches AdvanceState::Draining { .. } {
        let seen = states[i]->seen;
        match (states[i - 1], events[i - 1]) {
            (AdvanceState::Start { .. }, AdvanceEvent::CommandSent) => {
                if i >= 2 {
                    assert(advance_step_rel(
                        states[i - 2],
                        events[i - 2],
                        Ok((states[i - 1], actions[i - 1])),
                    ));
                    assert(false);
                }
                assert(events.take(0) =~= Seq::<AdvanceEvent>::empty());
                assert(observed_payloads(Seq::<AdvanceEvent>::empty()) =~= Seq::<
                    RemotePropertyValue,
                >::empty());
                assert(observed_payloads(events.take(i)).len() == 0);
            },
            (AdvanceState::Draining { seen: seen_prev }, AdvanceEvent::Notification {
                payload,
            }) => {
                let obs_prev = observed_payloads(events.take(i - 1));
                let obs = observed_payloads(events.take(i));
                assert(obs =~= obs_prev + seq![payload]);
                assert forall|j: int| 0 <= j < seen@.len() implies item_of(
                    #[trigger] obs[j].fields@,
                    seen@[j],
                ) by {
                    if j < seen_prev@.len() {
                        assert(seen@.take(seen_prev@.len() as int)[j] == seen@[j]);
                        assert(obs[j] == obs_prev[j]);
                    } else {
                        assert(seen@[j] == seen@.last());
                        assert(obs[j] == payload);
                    }
                }
            },
            _ => {
                assert(false);
            },
        }
    }
}

/// The chronologically last notification wins, however many arrived: a
/// run that collected at least one notification and then saw the window
/// elapse finishes with the item decoded from the last notification
/// observed.
pub proof fn lemma_advance_last_notification_wins(
    states: Seq<AdvanceState>,
    actions: Seq<AdvanceAction>,
    events: Seq<AdvanceEvent>,
)
    requires
        is_advance_run(states, actions, events),
        states.len() >= 2,
        events.last() matches AdvanceEvent::WindowElapsed,
        observed_payloads(events).len() > 0,
    ensures
        states.last() matches AdvanceState::Done { result } && item_of(
            observed_payloads(events).last().fields@,
            result,
        ),
{
    let n = states.len() - 1;
    assert(advance_event_fits(states[n - 1], events[n - 1]));
    assert(advance_step_rel(states[n - 1], events[n - 1], Ok((states[n], actions[n]))));
    lemma_advance_seen_tracks_notifications(states, actions, events, n - 1);
    assert(events.take(n - 1) =~= events.drop_last());
    assert(observed_payloads(events) =~= observed_payloads(events.drop_last()));
    if states[n - 1] matches AdvanceState::Draining { .. } {
        let seen = states[n - 1]->seen;
        assert(seen@.len() == observed_payloads(events).len());
        assert(item_of(
            observed_payloads(events.take(n - 1))[seen@.len() - 1].fields@,
            seen@[seen@.len() - 1],
        ));
    }
}

/// State of one indefinite wait for a single property-change
/// notification (the `listen` operations).
#[derive(Debug)]
pub enum ListenState {
    /// Blocked until a notification arrives; there is no timeout.
    Waiting,
    /// The one notification arrived and decoded to `result`.
    Finished { result: SongType },
}

/// The only event an indefinite wait can observe is a notification,
/// and only while it is still waiting.
pub open spec fn listen_event_fits(s: ListenState, e: AdvanceEvent) -> bool {
    s matches ListenState::Waiting && e matches AdvanceEvent::Notification { .. }
}

/// Whether `e` is an event the indefinite wait can observe in state
/// `s`; drivers check this before stepping.
pub fn listen_event_check(s: &ListenState, e: &AdvanceEvent) -> (r: bool)
    ensures
        r == listen_event_fits(*s, *e),
{
    match (s, e) {
        (ListenState::Waiting, AdvanceEvent::Notification { .. }) => true,
        _ => false,
    }
}

/// The transition relation of the indefinite wait: the one notification
/// decodes to the result, or decoding fails with its exact error.
pub open spec fn listen_step_rel(
    s: ListenState,
    e: AdvanceEvent,
    r: Result<ListenState, DecodeError>,
) -> bool {
    match (s, e) {
        (ListenState::Waiting, AdvanceEvent::Notification { payload }) => {
            &&& fields_ok(payload.fields@) ==> (r matches Ok(s2) && s2
                matches ListenState::Finished { result } && item_of(payload.fields@, result))
            &&& !fields_ok(payload.fields@) ==> (r matches Err(err) && decode_item_post(
                payload.fields@,
                Err(err),
            ))
        },
        _ => false,
    }
}

/// Consume the one notification an indefinite wait was blocked on and
/// decode it. The wait cannot finish any other way: no other event fits
/// the waiting state, so the operation never returns before a
/// notification has been delivered, and returns after exactly one.
pub fn listen_step(s: ListenState, e: AdvanceEvent) -> (r: Result<ListenState, DecodeError>)
    requires
        listen_event_fits(s, e),
    ensures
        listen_step_rel(s, e, r),
{
    match (s, e) {
        (ListenState::Waiting, AdvanceEvent::Notification { payload }) => {
            match decode_playback_item(&payload) {
                Ok(result) => Ok(ListenState::Finished { result }),
                Err(err) => Err(err),
            }
        },
        _ => vstd::pervasive::unreached(),
    }
}

/// A run of the indefinite wait, from the waiting state through the
/// steps taken on the observed events.
pub open spec fn is_listen_run(states: Seq<ListenState>, events: Seq<AdvanceEvent>) -> bool {
    &&& states.len() >= 1
    &&& events.len() == states.len() - 1
    &&& states[0] matches ListenState::Waiting
    &&& forall|i: int|
        0 <= i < events.len() ==> listen_event_fits(#[trigger] states[i], events[i])
    &&& forall|i: int|
        0 <= i < events.len() ==> listen_step_rel(states[i], #[trigger] events[i], Ok(states[i + 1]))
}

/// An indefinite wait never finishes before a notification has been
/// delivered, and finishes after exactly one: a run that reaches the
/// finished state observed exactly one event, a notification, and the
/// result is its decoding.
pub proof fn lemma_listen_exactly_one_notification(
    states: Seq<ListenState>,
    events: Seq<AdvanceEvent>,
)
    requires
        is_listen_run(states, events),
        states.last() matches ListenState::Finished { .. },
    ensures
        events.len() == 1,
        events[0] matches AdvanceEvent::Notification { payload } && (states.last()
            matches ListenState::Finished { result } && item_of(payload.fields@, result)),
{
    let n = states.len() - 1;
    if n == 0 {
        assert(states.last() matches ListenState::Waiting);
        assert(false);
    }
    if n >= 2 {
        assert(listen_step_rel(states[n - 2], events[n - 2], Ok(states[n - 1])));
        assert(listen_event_fits(states[n - 1], events[n - 1]));
        assert(false);
    }
    assert(listen_event_fits(states[0], events[0]));
    assert(listen_step_rel(states[0], events[0], Ok(states[1])));
}

} // verus!
