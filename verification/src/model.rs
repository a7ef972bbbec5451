//! The synchronisation run as mathematics: its states, and the state and
//! output that follow each event.

use crate::calendar::UtcDateTime;
use crate::encoder::payload_of;
use crate::gatt::{
    first_time_characteristic, lemma_first_time_characteristic_is_least, CharacteristicDescriptor,
};
use crate::protocol::{Action, ErrorKind, Event, Notice, Output, Phase, SyncConfig};
use crate::scanner::{first_match, lemma_first_match_is_least, PeripheralRecord};
use vstd::prelude::*;

verus! {

/// The machine's state as mathematics.
pub struct SyncModel {
    pub config: SyncConfig,
    pub phase: Phase,
    /// Number of adapters the host reported.
    pub adapters: nat,
    /// The adapter in use.
    pub adapter: nat,
    /// What the adapter in use has seen.
    pub peripherals: Seq<PeripheralRecord>,
    /// The chosen peripheral.
    pub peripheral: nat,
    /// What discovery found on the chosen peripheral.
    pub characteristics: Seq<CharacteristicDescriptor>,
    /// The characteristic being read or written.
    pub characteristic: nat,
}

impl SyncModel {
    /// The state before anything has happened.
    pub open spec fn initial(config: SyncConfig) -> SyncModel {
        SyncModel {
            config,
            phase: Phase::Idle,
            adapters: 0,
            adapter: 0,
            peripherals: Seq::empty(),
            peripheral: 0,
            characteristics: Seq::empty(),
            characteristic: 0,
        }
    }

    /// What holds of every state a run can reach: the adapter in use exists,
    /// the chosen peripheral was seen and is eligible, the characteristic in
    /// hand was discovered and keeps the time, and a run is given up only for
    /// a fatal error.
    pub open spec fn inv(self) -> bool {
        &&& self.adapters <= usize::MAX
        &&& self.peripherals.len() <= usize::MAX
        &&& self.characteristics.len() <= usize::MAX
        &&& self.phase.scanning() ==> self.adapter < self.adapters
        &&& self.phase.engaged() ==> {
            &&& self.peripheral < self.peripherals.len()
            &&& self.config.filter.accepts(self.peripherals[self.peripheral as int].name)
        }
        &&& self.phase.serving() ==> {
            &&& self.characteristic < self.characteristics.len()
            &&& self.characteristics[self.characteristic as int].keeps_time()
        }
        &&& self.phase is Reading ==> self.characteristics[self.characteristic as int].readable()
        &&& self.phase matches Phase::Aborting(kind) ==> kind.fatal()
        &&& self.phase matches Phase::Aborted(kind) ==> kind.fatal()
    }

    /// `peripheral` is the chosen peripheral: the scan saw it and the filter
    /// accepts its name.
    pub open spec fn has_chosen(self, peripheral: usize) -> bool {
        &&& self.phase.engaged()
        &&& peripheral == self.peripheral
        &&& peripheral < self.peripherals.len()
        &&& self.config.filter.accepts(self.peripherals[peripheral as int].name)
    }

    /// How much of the run is left at most, as a tuple that is compared
    /// place by place from the left: the steps before the first scan, the
    /// adapters not yet done with, the steps before the adapter's peripherals
    /// are known, the peripherals not yet done with, the steps left with the
    /// chosen peripheral, the characteristics not yet done with, and the read
    /// that goes before a write.
    pub open spec fn rank(self) -> (nat, nat, nat, nat, nat, nat, nat) {
        (
            match self.phase {
                Phase::Idle => 2,
                Phase::ListingAdapters => 1,
                _ => 0,
            },
            if self.phase.scanning() {
                (self.adapters - self.adapter) as nat
            } else {
                0
            },
            match self.phase {
                Phase::StartingScan => 3,
                Phase::Settling => 2,
                Phase::ListingPeripherals => 1,
                _ => 0,
            },
            if self.phase.engaged() {
                (self.peripherals.len() - self.peripheral) as nat
            } else {
                0
            },
            match self.phase {
                Phase::Connecting => 5,
                Phase::CheckingConnection => 4,
                Phase::Discovering => 3,
                Phase::Reading => 2,
                Phase::Writing => 2,
                Phase::Disconnecting => 1,
                _ => 0,
            },
            if self.phase.serving() {
                (self.characteristics.len() - self.characteristic) as nat
            } else {
                0
            },
            match self.phase {
                Phase::Reading => 1,
                _ => 0,
            },
        )
    }

    /// The same state in another phase.
    pub open spec fn at(self, phase: Phase) -> SyncModel {
        SyncModel { phase, ..self }
    }

    /// Gives the run up at once.
    pub open spec fn abort(self, kind: ErrorKind) -> (SyncModel, Output) {
        (self.at(Phase::Aborted(kind)), Output { action: Action::Abort(kind), notice: None })
    }

    /// Gives the run up after disconnecting the chosen peripheral.
    pub open spec fn hang_up(self, kind: ErrorKind) -> (SyncModel, Output) {
        (
            self.at(Phase::Aborting(kind)),
            Output {
                action: Action::Disconnect { peripheral: self.peripheral as usize },
                notice: None,
            },
        )
    }

    /// Starts a scan on `adapter`, or finishes the run where the host has no
    /// such adapter.
    pub open spec fn scan_from(self, adapter: nat, notice: Option<Notice>) -> (SyncModel, Output) {
        if adapter < self.adapters {
            (
                SyncModel { phase: Phase::StartingScan, adapter, ..self },
                Output { action: Action::StartScan { adapter: adapter as usize }, notice },
            )
        } else {
            (self.at(Phase::Finished), Output { action: Action::Finish, notice })
        }
    }

    /// Turns to the first eligible peripheral at or after `from`: checks its
    /// connection where it was listed as connected, connects otherwise. Where
    /// none is left, moves on to the next adapter.
    pub open spec fn engage_from(self, from: nat, notice: Option<Notice>) -> (SyncModel, Output) {
        match first_match(self.config.filter, self.peripherals, from) {
            Some(peripheral) => if self.peripherals[peripheral as int].connected {
                (
                    SyncModel { phase: Phase::CheckingConnection, peripheral, ..self },
                    Output {
                        action: Action::CheckConnection { peripheral: peripheral as usize },
                        notice,
                    },
                )
            } else {
                (
                    SyncModel { phase: Phase::Connecting, peripheral, ..self },
                    Output { action: Action::Connect { peripheral: peripheral as usize }, notice },
                )
            },
            None => self.scan_from(self.adapter + 1, notice),
        }
    }

    /// Writes the instant `now` to `characteristic`.
    pub open spec fn write_to(self, characteristic: nat, now: UtcDateTime, notice: Option<Notice>) -> (
        SyncModel,
        Output,
    ) {
        (
            SyncModel { phase: Phase::Writing, characteristic, ..self },
            Output {
                action: Action::Write {
                    peripheral: self.peripheral as usize,
                    characteristic: characteristic as usize,
                    payload: payload_of(now),
                },
                notice,
            },
        )
    }

    /// Turns to the first time characteristic at or after `from`: reads it
    /// where it is readable, writes it otherwise. Where none is left,
    /// disconnects.
    pub open spec fn serve_from(self, from: nat, now: UtcDateTime, notice: Option<Notice>) -> (
        SyncModel,
        Output,
    ) {
        match first_time_characteristic(self.characteristics, from) {
            Some(characteristic) => if self.characteristics[characteristic as int].readable() {
                (
                    SyncModel { phase: Phase::Reading, characteristic, ..self },
                    Output {
                        action: Action::Read {
                            peripheral: self.peripheral as usize,
                            characteristic: characteristic as usize,
                        },
                        notice,
                    },
                )
            } else {
                self.write_to(characteristic, now, notice)
            },
            None => (
                self.at(Phase::Disconnecting),
                Output {
                    action: Action::Disconnect { peripheral: self.peripheral as usize },
                    notice,
                },
            ),
        }
    }

    /// The state and the output that follow when `event` arrives at the
    /// instant `now`.
    pub open spec fn next(self, event: Event, now: UtcDateTime) -> (SyncModel, Output) {
        match self.phase {
            Phase::Idle => match event {
                Event::Start => (
                    self.at(Phase::ListingAdapters),
                    Output { action: Action::ListAdapters, notice: None },
                ),
                _ => self.abort(ErrorKind::UnexpectedEvent),
            },
            Phase::ListingAdapters => match event {
                Event::Adapters(count) => SyncModel { adapters: count as nat, ..self }.scan_from(
                    0,
                    if count == 0 {
                        Some(Notice::NoAdapters)
                    } else {
                        None
                    },
                ),
                Event::Failed => self.abort(ErrorKind::TransportUnavailable),
                _ => self.abort(ErrorKind::UnexpectedEvent),
            },
            Phase::StartingScan => match event {
                Event::Done => (
                    self.at(Phase::Settling),
                    Output {
                        action: Action::Settle { seconds: self.config.settle_seconds },
                        notice: None,
                    },
                ),
                Event::Failed => self.scan_from(
                    self.adapter + 1,
                    Some(Notice::Failed(ErrorKind::ScanStartFailed)),
                ),
                _ => self.abort(ErrorKind::UnexpectedEvent),
            },
            Phase::Settling => match event {
                Event::Done => (
                    self.at(Phase::ListingPeripherals),
                    Output {
                        action: Action::ListPeripherals { adapter: self.adapter as usize },
                        notice: None,
                    },
                ),
                _ => self.abort(ErrorKind::UnexpectedEvent),
            },
            Phase::ListingPeripherals => match event {
                Event::Peripherals(records) => SyncModel {
                    peripherals: records@,
                    ..self
                }.engage_from(
                    0,
                    if records@.len() == 0 {
                        Some(Notice::NoPeripherals)
                    } else {
                        None
                    },
                ),
                Event::Failed => self.abort(ErrorKind::DiscoveryFailed),
                _ => self.abort(ErrorKind::UnexpectedEvent),
            },
            Phase::Connecting => match event {
                Event::Done => (
                    self.at(Phase::CheckingConnection),
                    Output {
                        action: Action::CheckConnection { peripheral: self.peripheral as usize },
                        notice: None,
                    },
                ),
                Event::Failed => self.engage_from(
                    self.peripheral + 1,
                    Some(Notice::Failed(ErrorKind::ConnectFailed)),
                ),
                _ => self.abort(ErrorKind::UnexpectedEvent),
            },
            Phase::CheckingConnection => match event {
                Event::ConnectionState(connected) => if connected {
                    (
                        self.at(Phase::Discovering),
                        Output {
                            action: Action::Discover { peripheral: self.peripheral as usize },
                            notice: None,
                        },
                    )
                } else {
                    self.engage_from(self.peripheral + 1, Some(Notice::NotConnected))
                },
                Event::Failed => self.abort(ErrorKind::DiscoveryFailed),
                _ => self.abort(ErrorKind::UnexpectedEvent),
            },
            Phase::Discovering => match event {
                Event::Characteristics(found) => SyncModel {
                    characteristics: found@,
                    ..self
                }.serve_from(0, now, None),
                Event::Failed => self.hang_up(ErrorKind::DiscoveryFailed),
                _ => self.hang_up(ErrorKind::UnexpectedEvent),
            },
            Phase::Reading => match event {
                Event::Done => self.write_to(self.characteristic, now, None),
                Event::Failed => self.write_to(
                    self.characteristic,
                    now,
                    Some(Notice::Failed(ErrorKind::ReadFailed)),
                ),
                _ => self.hang_up(ErrorKind::UnexpectedEvent),
            },
            Phase::Writing => match event {
                Event::Done => self.serve_from(self.characteristic + 1, now, None),
                Event::Failed => self.serve_from(
                    self.characteristic + 1,
                    now,
                    Some(Notice::Failed(ErrorKind::WriteFailed)),
                ),
                _ => self.hang_up(ErrorKind::UnexpectedEvent),
            },
            Phase::Disconnecting => match event {
                Event::Done => self.engage_from(self.peripheral + 1, None),
                Event::Failed => self.engage_from(
                    self.peripheral + 1,
                    Some(Notice::Failed(ErrorKind::DisconnectFailed)),
                ),
                _ => self.abort(ErrorKind::UnexpectedEvent),
            },
            Phase::Aborting(kind) => self.abort(kind),
            Phase::Finished => (self, Output { action: Action::Finish, notice: None }),
            Phase::Aborted(kind) => (self, Output { action: Action::Abort(kind), notice: None }),
        }
    }
}

/// Every step keeps the invariant.
pub proof fn lemma_next_keeps_invariant(state: SyncModel, event: Event, now: UtcDateTime)
    requires
        state.inv(),
    ensures
        state.next(event, now).0.inv(),
{
    let filter = state.config.filter;
    lemma_first_match_is_least(filter, state.peripherals, state.peripheral + 1);
    lemma_first_time_characteristic_is_least(state.characteristics, state.characteristic + 1);
    match event {
        Event::Adapters(count) => {},
        Event::Peripherals(records) => {
            assert(records@.len() == records.len());
            lemma_first_match_is_least(filter, records@, 0);
        },
        Event::Characteristics(found) => {
            assert(found@.len() == found.len());
            lemma_first_time_characteristic_is_least(found@, 0);
        },
        _ => {},
    }
}

/// A run is given up only for a fatal error, and an error that is merely
/// noticed is never fatal.
pub proof fn lemma_only_fatal_errors_abort(state: SyncModel, event: Event, now: UtcDateTime)
    requires
        state.inv(),
    ensures
        state.next(event, now).1.action matches Action::Abort(kind) ==> kind.fatal(),
        state.next(event, now).1.notice matches Some(Notice::Failed(kind)) ==> !kind.fatal(),
{
}

/// A run that is finished or given up stays so: every further event gets the
/// same answer and changes nothing.
pub proof fn lemma_ended_run_stays_ended(state: SyncModel, event: Event, now: UtcDateTime)
    requires
        state.phase.ended(),
    ensures
        state.next(event, now).0 == state,
        state.phase is Finished ==> state.next(event, now).1.action == Action::Finish,
        state.phase matches Phase::Aborted(kind) ==> state.next(event, now).1.action
            == Action::Abort(kind),
{
}

/// Only an eligible peripheral of the current scan is connected to, checked
/// or searched for services.
pub proof fn lemma_only_eligible_peripherals_are_engaged(
    state: SyncModel,
    event: Event,
    now: UtcDateTime,
)
    requires
        state.inv(),
    ensures
        ({
            let (after, output) = state.next(event, now);
            &&& output.action matches Action::Connect { peripheral } ==> after.has_chosen(peripheral)
            &&& output.action matches Action::CheckConnection { peripheral } ==> after.has_chosen(
                peripheral,
            )
            &&& output.action matches Action::Discover { peripheral } ==> after.has_chosen(peripheral)
        }),
{
    lemma_next_keeps_invariant(state, event, now);
}

/// A session opens only when the chosen peripheral's connection is confirmed,
/// and it opens with the discovery of that peripheral's services.
pub proof fn lemma_session_opens_on_confirmation(state: SyncModel, event: Event, now: UtcDateTime)
    requires
        state.inv(),
        !state.phase.in_session(),
        state.next(event, now).0.phase.in_session(),
    ensures
        state.phase is CheckingConnection,
        event == Event::ConnectionState(true),
        state.next(event, now).0 == state.at(Phase::Discovering),
        state.next(event, now).1.action == (Action::Discover {
            peripheral: state.peripheral as usize,
        }),
{
    lemma_first_match_is_least(state.config.filter, state.peripherals, state.peripheral + 1);
    match event {
        Event::Peripherals(records) => {
            lemma_first_match_is_least(state.config.filter, records@, 0);
        },
        _ => {},
    }
}

/// While a session lasts the peripheral stays the same, and the session ends
/// only with the request to disconnect that peripheral.
pub proof fn lemma_session_closes_with_disconnect(state: SyncModel, event: Event, now: UtcDateTime)
    requires
        state.inv(),
        state.phase.in_session(),
    ensures
        ({
            let (after, output) = state.next(event, now);
            &&& after.peripheral == state.peripheral
            &&& after.peripherals == state.peripherals
            &&& after.phase.in_session() ==> output.action is Read || output.action is Write
            &&& !after.phase.in_session() ==> {
                &&& after.phase is Disconnecting || after.phase is Aborting
                &&& output.action == (Action::Disconnect { peripheral: state.peripheral as usize })
            }
        }),
{
}

/// A characteristic is read or written only within a session, on the
/// session's peripheral, and only where discovery found it to be the time
/// characteristic; it is read only where it is readable; and what is written
/// is the payload of the instant at which the step is made.
pub proof fn lemma_transfers_stay_in_session(state: SyncModel, event: Event, now: UtcDateTime)
    requires
        state.inv(),
    ensures
        ({
            let (after, output) = state.next(event, now);
            &&& output.action matches Action::Read { peripheral, characteristic } ==> {
                &&& state.phase.in_session()
                &&& after.phase is Reading
                &&& peripheral == state.peripheral
                &&& characteristic == after.characteristic
                &&& characteristic < after.characteristics.len()
                &&& after.characteristics[characteristic as int].keeps_time()
                &&& after.characteristics[characteristic as int].readable()
            }
            &&& output.action matches Action::Write { peripheral, characteristic, payload } ==> {
                &&& state.phase.in_session()
                &&& after.phase is Writing
                &&& peripheral == state.peripheral
                &&& characteristic == after.characteristic
                &&& characteristic < after.characteristics.len()
                &&& after.characteristics[characteristic as int].keeps_time()
                &&& payload == payload_of(now)
            }
        }),
{
    lemma_next_keeps_invariant(state, event, now);
}

/// A session takes the time characteristics in the order of discovery and
/// leaves none out: after a write it turns to the next time characteristic
/// behind the one written, and disconnects only where there is none.
pub proof fn lemma_session_visits_every_time_characteristic(
    state: SyncModel,
    event: Event,
    now: UtcDateTime,
)
    requires
        state.inv(),
        state.phase is Writing,
        event is Done || event is Failed,
    ensures
        ({
            let (after, output) = state.next(event, now);
            &&& after.characteristics == state.characteristics
            &&& after.phase.serving() ==> {
                &&& state.characteristic < after.characteristic
                &&& forall|i: int|
                    state.characteristic < i < after.characteristic ==> !(
                    #[trigger] state.characteristics[i]).keeps_time()
            }
            &&& !after.phase.serving() ==> {
                &&& after.phase is Disconnecting
                &&& forall|i: int|
                    state.characteristic < i < state.characteristics.len() ==> !(
                    #[trigger] state.characteristics[i]).keeps_time()
            }
        }),
{
    lemma_first_time_characteristic_is_least(state.characteristics, state.characteristic + 1);
}

/// `a` comes before `b` when the two are compared place by place from the
/// left.
pub open spec fn below(
    a: (nat, nat, nat, nat, nat, nat, nat),
    b: (nat, nat, nat, nat, nat, nat, nat),
) -> bool {
    ||| a.0 < b.0
    ||| a.0 == b.0 && a.1 < b.1
    ||| a.0 == b.0 && a.1 == b.1 && a.2 < b.2
    ||| a.0 == b.0 && a.1 == b.1 && a.2 == b.2 && a.3 < b.3
    ||| a.0 == b.0 && a.1 == b.1 && a.2 == b.2 && a.3 == b.3 && a.4 < b.4
    ||| a.0 == b.0 && a.1 == b.1 && a.2 == b.2 && a.3 == b.3 && a.4 == b.4 && a.5 < b.5
    ||| a.0 == b.0 && a.1 == b.1 && a.2 == b.2 && a.3 == b.3 && a.4 == b.4 && a.5 == b.5 && a.6
        < b.6
}

/// Every step of a run that has not ended brings it nearer to its end,
/// whatever the driver reports.
pub proof fn lemma_step_makes_progress(state: SyncModel, event: Event, now: UtcDateTime)
    requires
        state.inv(),
        !state.phase.ended(),
    ensures
        below(state.next(event, now).0.rank(), state.rank()),
{
    let filter = state.config.filter;
    lemma_first_match_is_least(filter, state.peripherals, state.peripheral + 1);
    lemma_first_time_characteristic_is_least(state.characteristics, state.characteristic + 1);
    match event {
        Event::Peripherals(records) => {
            lemma_first_match_is_least(filter, records@, 0);
        },
        Event::Characteristics(found) => {
            lemma_first_time_characteristic_is_least(found@, 0);
        },
        _ => {},
    }
}

} // verus!
