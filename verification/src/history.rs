//! Whole runs: what holds of every sequence of events, whatever the driver
//! reports.

use crate::calendar::UtcDateTime;
use crate::encoder::payload_of;
use crate::model::{
    lemma_next_keeps_invariant, lemma_session_closes_with_disconnect,
    lemma_session_opens_on_confirmation, lemma_step_makes_progress,
    lemma_transfers_stay_in_session, SyncModel,
};
use crate::protocol::{Action, Event, Output, SyncConfig};
use vstd::prelude::*;

verus! {

/// An event together with the instant at which the driver reported it.
pub struct Stamped {
    pub event: Event,
    pub now: UtcDateTime,
}

/// The state of a run before its step number `step`, the first step being
/// number 0.
pub open spec fn state_before(config: SyncConfig, history: Seq<Stamped>, step: int) -> SyncModel
    decreases step,
{
    if step <= 0 {
        SyncModel::initial(config)
    } else {
        state_before(config, history, step - 1).next(
            history[step - 1].event,
            history[step - 1].now,
        ).0
    }
}

/// What step number `step` of a run asks the driver to do.
pub open spec fn output_of(config: SyncConfig, history: Seq<Stamped>, step: int) -> Output {
    state_before(config, history, step).next(history[step].event, history[step].now).1
}

/// Step `confirmed` found the connection to `peripheral` confirmed and asked
/// for the discovery of its services.
pub open spec fn confirms(
    config: SyncConfig,
    history: Seq<Stamped>,
    confirmed: int,
    peripheral: usize,
) -> bool {
    &&& 0 <= confirmed < history.len()
    &&& history[confirmed].event == Event::ConnectionState(true)
    &&& output_of(config, history, confirmed).action == (Action::Discover { peripheral })
}

/// No step after `from` and before `until` asks to disconnect.
pub open spec fn stays_connected(
    config: SyncConfig,
    history: Seq<Stamped>,
    from: int,
    until: int,
) -> bool {
    forall|step: int|
        from < step < until ==> !(#[trigger] output_of(config, history, step).action is Disconnect)
}

/// Step `discovered` took in a discovery that found the time characteristic
/// at place `characteristic`.
pub open spec fn locates(history: Seq<Stamped>, discovered: int, characteristic: usize) -> bool {
    &&& 0 <= discovered < history.len()
    &&& history[discovered].event matches Event::Characteristics(found)
    &&& characteristic < found@.len()
    &&& found@[characteristic as int].keeps_time()
}

/// Every state of a run keeps the invariant.
pub proof fn theorem_every_state_keeps_invariant(
    config: SyncConfig,
    history: Seq<Stamped>,
    step: int,
)
    ensures
        state_before(config, history, step).inv(),
    decreases step,
{
    if step > 0 {
        theorem_every_state_keeps_invariant(config, history, step - 1);
        lemma_next_keeps_invariant(
            state_before(config, history, step - 1),
            history[step - 1].event,
            history[step - 1].now,
        );
    }
}

/// Behind every state in a session stand the step that confirmed the
/// connection to the session's peripheral and, once a characteristic is in
/// hand, the step that took in the discovery; no step in between asked to
/// disconnect.
proof fn lemma_session_has_witnesses(config: SyncConfig, history: Seq<Stamped>, step: int) -> (at:
    (int, int))
    requires
        0 <= step <= history.len(),
        state_before(config, history, step).phase.in_session(),
    ensures
        ({
            let state = state_before(config, history, step);
            let (confirmed, discovered) = at;
            &&& confirmed < step
            &&& confirms(config, history, confirmed, state.peripheral as usize)
            &&& stays_connected(config, history, confirmed, step)
            &&& state.phase.serving() ==> {
                &&& confirmed < discovered < step
                &&& history[discovered].event matches Event::Characteristics(found)
                &&& found@ == state.characteristics
            }
        }),
    decreases step,
{
    let before = state_before(config, history, step - 1);
    let event = history[step - 1].event;
    let now = history[step - 1].now;
    theorem_every_state_keeps_invariant(config, history, step - 1);
    if before.phase.in_session() {
        let (confirmed, discovered) = lemma_session_has_witnesses(config, history, step - 1);
        lemma_session_closes_with_disconnect(before, event, now);
        assert(output_of(config, history, step - 1) == before.next(event, now).1);
        if before.phase.serving() {
            (confirmed, discovered)
        } else {
            (confirmed, step - 1)
        }
    } else {
        lemma_session_opens_on_confirmation(before, event, now);
        assert(output_of(config, history, step - 1) == before.next(event, now).1);
        (step - 1, step - 1)
    }
}

/// A peripheral is written to only after its connection was confirmed and
/// after discovery found the time characteristic at the place written to,
/// with no disconnect in between; and what is written is the payload of the
/// instant at which the write is asked for.
pub proof fn theorem_write_follows_confirmation_and_discovery(
    config: SyncConfig,
    history: Seq<Stamped>,
    step: int,
)
    requires
        0 <= step < history.len(),
        output_of(config, history, step).action is Write,
    ensures
        output_of(config, history, step).action matches Action::Write {
            peripheral,
            characteristic,
            payload,
        } && payload == payload_of(history[step].now) && exists|confirmed: int, discovered: int|
            {
                &&& confirmed < discovered <= step
                &&& #[trigger] confirms(config, history, confirmed, peripheral)
                &&& #[trigger] locates(history, discovered, characteristic)
                &&& stays_connected(config, history, confirmed, step + 1)
            },
{
    let before = state_before(config, history, step);
    let after = state_before(config, history, step + 1);
    theorem_every_state_keeps_invariant(config, history, step);
    lemma_transfers_stay_in_session(before, history[step].event, history[step].now);
    let (confirmed, discovered) = lemma_session_has_witnesses(config, history, step + 1);
    match output_of(config, history, step).action {
        Action::Write { peripheral, characteristic, payload } => {
            assert(confirms(config, history, confirmed, peripheral));
            assert(locates(history, discovered, characteristic));
        },
        _ => {},
    }
}

/// A characteristic is read only after the connection to its peripheral was
/// confirmed and after discovery found it to be the time characteristic, with
/// no disconnect in between.
pub proof fn theorem_read_follows_confirmation_and_discovery(
    config: SyncConfig,
    history: Seq<Stamped>,
    step: int,
)
    requires
        0 <= step < history.len(),
        output_of(config, history, step).action is Read,
    ensures
        output_of(config, history, step).action matches Action::Read { peripheral, characteristic }
            && exists|confirmed: int, discovered: int|
            {
                &&& confirmed < discovered <= step
                &&& #[trigger] confirms(config, history, confirmed, peripheral)
                &&& #[trigger] locates(history, discovered, characteristic)
                &&& stays_connected(config, history, confirmed, step + 1)
            },
{
    let before = state_before(config, history, step);
    theorem_every_state_keeps_invariant(config, history, step);
    lemma_transfers_stay_in_session(before, history[step].event, history[step].now);
    let (confirmed, discovered) = lemma_session_has_witnesses(config, history, step + 1);
    match output_of(config, history, step).action {
        Action::Read { peripheral, characteristic } => {
            assert(confirms(config, history, confirmed, peripheral));
            assert(locates(history, discovered, characteristic));
        },
        _ => {},
    }
}

/// Cleanup is unconditional: once a connection is confirmed, the session is
/// either still open on the same peripheral or a later step has asked to
/// disconnect that peripheral.
pub proof fn theorem_confirmed_connection_is_disconnected(
    config: SyncConfig,
    history: Seq<Stamped>,
    confirmed: int,
    peripheral: usize,
    step: int,
)
    requires
        confirms(config, history, confirmed, peripheral),
        confirmed < step <= history.len(),
    ensures
        ({
            let state = state_before(config, history, step);
            ||| state.phase.in_session() && state.peripheral == peripheral
            ||| exists|closed: int|
                {
                    &&& confirmed < closed < step
                    &&& #[trigger] output_of(config, history, closed).action == (Action::Disconnect {
                        peripheral,
                    })
                }
        }),
    decreases step,
{
    theorem_every_state_keeps_invariant(config, history, confirmed);
    if step > confirmed + 1 {
        theorem_confirmed_connection_is_disconnected(
            config,
            history,
            confirmed,
            peripheral,
            step - 1,
        );
        let before = state_before(config, history, step - 1);
        if before.phase.in_session() && before.peripheral == peripheral {
            theorem_every_state_keeps_invariant(config, history, step - 1);
            lemma_session_closes_with_disconnect(
                before,
                history[step - 1].event,
                history[step - 1].now,
            );
            if !state_before(config, history, step).phase.in_session() {
                assert(output_of(config, history, step - 1).action == (Action::Disconnect {
                    peripheral,
                }));
            }
        }
    }
}

/// A run that has ended has asked to disconnect every peripheral whose
/// connection it found confirmed.
pub proof fn theorem_ended_run_left_no_session_open(
    config: SyncConfig,
    history: Seq<Stamped>,
    confirmed: int,
    peripheral: usize,
)
    requires
        confirms(config, history, confirmed, peripheral),
        state_before(config, history, history.len() as int).phase.ended(),
    ensures
        exists|closed: int|
            {
                &&& confirmed < closed < history.len()
                &&& #[trigger] output_of(config, history, closed).action == (Action::Disconnect {
                    peripheral,
                })
            },
{
    theorem_confirmed_connection_is_disconnected(
        config,
        history,
        confirmed,
        peripheral,
        history.len() as int,
    );
}

/// The state before a step depends only on the events before that step.
proof fn lemma_state_depends_on_past(
    config: SyncConfig,
    first: Seq<Stamped>,
    second: Seq<Stamped>,
    step: int,
)
    requires
        forall|i: int| 0 <= i < step ==> first[i] == second[i],
    ensures
        state_before(config, first, step) == state_before(config, second, step),
    decreases step,
{
    if step > 0 {
        lemma_state_depends_on_past(config, first, second, step - 1);
    }
}

/// The run on an endless stream of reports ends at some step at or after
/// `from`.
proof fn lemma_run_ends_from(config: SyncConfig, stream: spec_fn(int) -> Stamped, from: nat) -> (steps:
    nat)
    ensures
        state_before(config, Seq::new(steps, stream), steps as int).phase.ended(),
    decreases
        state_before(config, Seq::new(from, stream), from as int).rank().0,
        state_before(config, Seq::new(from, stream), from as int).rank().1,
        state_before(config, Seq::new(from, stream), from as int).rank().2,
        state_before(config, Seq::new(from, stream), from as int).rank().3,
        state_before(config, Seq::new(from, stream), from as int).rank().4,
        state_before(config, Seq::new(from, stream), from as int).rank().5,
        state_before(config, Seq::new(from, stream), from as int).rank().6,
{
    let history = Seq::new(from, stream);
    let state = state_before(config, history, from as int);
    if state.phase.ended() {
        from
    } else {
        let longer = Seq::new(from + 1, stream);
        lemma_state_depends_on_past(config, history, longer, from as int);
        theorem_every_state_keeps_invariant(config, history, from as int);
        lemma_step_makes_progress(state, stream(from as int).event, stream(from as int).now);
        assert(longer[from as int] == stream(from as int));
        lemma_run_ends_from(config, stream, from + 1)
    }
}

/// Every run ends: whatever the driver reports, and however long it goes on
/// reporting, the machine finishes or gives up after finitely many steps.
pub proof fn theorem_every_run_ends(config: SyncConfig, stream: spec_fn(int) -> Stamped) -> (steps:
    nat)
    ensures
        state_before(config, Seq::new(steps, stream), steps as int).phase.ended(),
{
    lemma_run_ends_from(config, stream, 0)
}

} // verus!
