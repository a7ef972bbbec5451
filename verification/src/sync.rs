//! The synchronisation run as a state machine.
//!
//! The machine decides; a driver acts. The driver starts from
//! [`SyncState::new`], hands in [`Event::Start`], performs the [`Action`] that
//! comes back and hands in the [`Event`] that tells how it went, until the
//! action is [`Action::Finish`] or [`Action::Abort`].

use crate::calendar::{utc_calendar, utc_fields, UtcDateTime};
use crate::encoder::encode;
use crate::gatt::{
    find_time_characteristic, lemma_first_time_characteristic_is_least, CharacteristicDescriptor,
};
use crate::model::{lemma_next_keeps_invariant, SyncModel};
use crate::protocol::{Action, ErrorKind, Event, Notice, Output, Phase, SyncConfig};
use crate::scanner::{find_match, lemma_first_match_is_least, PeripheralRecord};
use vstd::prelude::*;

verus! {

/// The state of a run.
pub struct SyncState {
    config: SyncConfig,
    phase: Phase,
    adapters: usize,
    adapter: usize,
    peripherals: Vec<PeripheralRecord>,
    peripheral: usize,
    characteristics: Vec<CharacteristicDescriptor>,
    characteristic: usize,
}

impl View for SyncState {
    type V = SyncModel;

    closed spec fn view(&self) -> SyncModel {
        SyncModel {
            config: self.config,
            phase: self.phase,
            adapters: self.adapters as nat,
            adapter: self.adapter as nat,
            peripherals: self.peripherals@,
            peripheral: self.peripheral as nat,
            characteristics: self.characteristics@,
            characteristic: self.characteristic as nat,
        }
    }
}

impl SyncState {
    #[verifier::type_invariant]
    spec fn well_formed(self) -> bool {
        self@.inv()
    }

    /// The state of a run that has not begun.
    pub fn new(config: SyncConfig) -> (state: SyncState)
        ensures
            state@ == SyncModel::initial(config),
            state@.inv(),
    {
        SyncState {
            config,
            phase: Phase::Idle,
            adapters: 0,
            adapter: 0,
            peripherals: Vec::new(),
            peripheral: 0,
            characteristics: Vec::new(),
            characteristic: 0,
        }
    }

    /// Where the run stands.
    pub fn phase(&self) -> (phase: Phase)
        ensures
            phase == self@.phase,
    {
        self.phase
    }

    /// Moves to `phase` and asks for `action`.
    fn at(self, phase: Phase, action: Action) -> (r: (SyncState, Output))
        requires
            self@.at(phase).inv(),
        ensures
            r.0@ == self@.at(phase),
            r.1 == (Output { action, notice: None }),
    {
        (SyncState { phase, ..self }, Output { action, notice: None })
    }

    /// Gives the run up at once.
    fn abort(self, kind: ErrorKind) -> (r: (SyncState, Output))
        requires
            kind.fatal(),
        ensures
            (r.0@, r.1) == self@.abort(kind),
    {
        proof {
            use_type_invariant(&self);
        }
        self.at(Phase::Aborted(kind), Action::Abort(kind))
    }

    /// Gives the run up after disconnecting the chosen peripheral.
    fn hang_up(self, kind: ErrorKind) -> (r: (SyncState, Output))
        requires
            kind.fatal(),
            self@.phase.in_session(),
        ensures
            (r.0@, r.1) == self@.hang_up(kind),
    {
        proof {
            use_type_invariant(&self);
        }
        let peripheral = self.peripheral;
        self.at(Phase::Aborting(kind), Action::Disconnect { peripheral })
    }

    /// Starts a scan on `adapter`, or finishes the run where there is no such
    /// adapter.
    fn scan_from(self, adapter: usize, notice: Option<Notice>) -> (r: (SyncState, Output))
        ensures
            (r.0@, r.1) == self@.scan_from(adapter as nat, notice),
    {
        proof {
            use_type_invariant(&self);
        }
        if adapter < self.adapters {
            (
                SyncState { phase: Phase::StartingScan, adapter, ..self },
                Output { action: Action::StartScan { adapter }, notice },
            )
        } else {
            (SyncState { phase: Phase::Finished, ..self }, Output { action: Action::Finish, notice })
        }
    }

    /// Turns to the first eligible peripheral at or after `from`, or to the
    /// next adapter where none is left.
    fn engage_from(self, from: usize, notice: Option<Notice>) -> (r: (SyncState, Output))
        requires
            self@.phase.scanning(),
        ensures
            (r.0@, r.1) == self@.engage_from(from as nat, notice),
    {
        proof {
            use_type_invariant(&self);
            lemma_first_match_is_least(self.config.filter, self.peripherals@, from as nat);
        }
        match find_match(&self.config.filter, &self.peripherals, from) {
            Some(peripheral) => {
                if self.peripherals[peripheral].connected {
                    (
                        SyncState { phase: Phase::CheckingConnection, peripheral, ..self },
                        Output { action: Action::CheckConnection { peripheral }, notice },
                    )
                } else {
                    (
                        SyncState { phase: Phase::Connecting, peripheral, ..self },
                        Output { action: Action::Connect { peripheral }, notice },
                    )
                }
            },
            None => {
                let following = self.adapter + 1;
                self.scan_from(following, notice)
            },
        }
    }

    /// Writes the instant `now` to `characteristic`.
    fn write_to(self, characteristic: usize, now: &UtcDateTime, notice: Option<Notice>) -> (r: (
        SyncState,
        Output,
    ))
        requires
            now.valid(),
            self@.phase.in_session(),
            characteristic < self@.characteristics.len(),
            self@.characteristics[characteristic as int].keeps_time(),
        ensures
            (r.0@, r.1) == self@.write_to(characteristic as nat, *now, notice),
    {
        proof {
            use_type_invariant(&self);
        }
        let peripheral = self.peripheral;
        (
            SyncState { phase: Phase::Writing, characteristic, ..self },
            Output {
                action: Action::Write { peripheral, characteristic, payload: encode(now) },
                notice,
            },
        )
    }

    /// Turns to the first time characteristic at or after `from`, or
    /// disconnects where none is left.
    fn serve_from(self, from: usize, now: &UtcDateTime, notice: Option<Notice>) -> (r: (
        SyncState,
        Output,
    ))
        requires
            now.valid(),
            self@.phase.in_session(),
        ensures
            (r.0@, r.1) == self@.serve_from(from as nat, *now, notice),
    {
        proof {
            use_type_invariant(&self);
            lemma_first_time_characteristic_is_least(self.characteristics@, from as nat);
        }
        match find_time_characteristic(&self.characteristics, from) {
            Some(characteristic) => {
                if self.characteristics[characteristic].is_readable() {
                    let peripheral = self.peripheral;
                    (
                        SyncState { phase: Phase::Reading, characteristic, ..self },
                        Output { action: Action::Read { peripheral, characteristic }, notice },
                    )
                } else {
                    self.write_to(characteristic, now, notice)
                }
            },
            None => {
                let peripheral = self.peripheral;
                (
                    SyncState { phase: Phase::Disconnecting, ..self },
                    Output { action: Action::Disconnect { peripheral }, notice },
                )
            },
        }
    }

    /// Takes in what the driver reports `secs` seconds after the Unix epoch and
    /// says what to do next. Where the calendar cannot hold that instant, no
    /// step is made and the state comes back unchanged.
    pub fn step_at(self, event: Event, secs: i64) -> (r: Result<(SyncState, Output), SyncState>)
        ensures
            match utc_calendar(secs) {
                Some(now) => r matches Ok(step) && (step.0@, step.1) == self@.next(event, now)
                    && step.0@.inv(),
                None => r matches Err(state) && state@ == self@,
            },
    {
        match utc_fields(secs) {
            Some(now) => Ok(self.step(event, &now)),
            None => Err(self),
        }
    }

    /// Takes in what the driver reports at the instant `now` and says what to
    /// do next.
    pub fn step(self, event: Event, now: &UtcDateTime) -> (r: (SyncState, Output))
        requires
            now.valid(),
        ensures
            (r.0@, r.1) == self@.next(event, *now),
            r.0@.inv(),
    {
        proof {
            use_type_invariant(&self);
            lemma_next_keeps_invariant(self@, event, *now);
        }
        match self.phase {
            Phase::Idle => match event {
                Event::Start => self.at(Phase::ListingAdapters, Action::ListAdapters),
                _ => self.abort(ErrorKind::UnexpectedEvent),
            },
            Phase::ListingAdapters => match event {
                Event::Adapters(count) => {
                    let notice = if count == 0 {
                        Some(Notice::NoAdapters)
                    } else {
                        None
                    };
                    SyncState { adapters: count, ..self }.scan_from(0, notice)
                },
                Event::Failed => self.abort(ErrorKind::TransportUnavailable),
                _ => self.abort(ErrorKind::UnexpectedEvent),
            },
            Phase::StartingScan => match event {
                Event::Done => {
                    let seconds = self.config.settle_seconds;
                    self.at(Phase::Settling, Action::Settle { seconds })
                },
                Event::Failed => {
                    let following = self.adapter + 1;
                    self.scan_from(following, Some(Notice::Failed(ErrorKind::ScanStartFailed)))
                },
                _ => self.abort(ErrorKind::UnexpectedEvent),
            },
            Phase::Settling => match event {
                Event::Done => {
                    let adapter = self.adapter;
                    self.at(Phase::ListingPeripherals, Action::ListPeripherals { adapter })
                },
                _ => self.abort(ErrorKind::UnexpectedEvent),
            },
            Phase::ListingPeripherals => match event {
                Event::Peripherals(records) => {
                    let notice = if records.len() == 0 {
                        Some(Notice::NoPeripherals)
                    } else {
                        None
                    };
                    SyncState { peripherals: records, ..self }.engage_from(0, notice)
                },
                Event::Failed => self.abort(ErrorKind::DiscoveryFailed),
                _ => self.abort(ErrorKind::UnexpectedEvent),
            },
            Phase::Connecting => match event {
                Event::Done => {
                    let peripheral = self.peripheral;
                    self.at(Phase::CheckingConnection, Action::CheckConnection { peripheral })
                },
                Event::Failed => {
                    let following = self.peripheral + 1;
                    self.engage_from(following, Some(Notice::Failed(ErrorKind::ConnectFailed)))
                },
                _ => self.abort(ErrorKind::UnexpectedEvent),
            },
            Phase::CheckingConnection => match event {
                Event::ConnectionState(connected) => {
                    if connected {
                        let peripheral = self.peripheral;
                        self.at(Phase::Discovering, Action::Discover { peripheral })
                    } else {
                        let following = self.peripheral + 1;
                        self.engage_from(following, Some(Notice::NotConnected))
                    }
                },
                Event::Failed => self.abort(ErrorKind::DiscoveryFailed),
                _ => self.abort(ErrorKind::UnexpectedEvent),
            },
            Phase::Discovering => match event {
                Event::Characteristics(found) => {
                    assert(found@.len() == found.len());
                    SyncState { characteristics: found, ..self }.serve_from(0, now, None)
                },
                Event::Failed => self.hang_up(ErrorKind::DiscoveryFailed),
                _ => self.hang_up(ErrorKind::UnexpectedEvent),
            },
            Phase::Reading => match event {
                Event::Done => {
                    let characteristic = self.characteristic;
                    self.write_to(characteristic, now, None)
                },
                Event::Failed => {
                    let characteristic = self.characteristic;
                    self.write_to(
                        characteristic,
                        now,
                        Some(Notice::Failed(ErrorKind::ReadFailed)),
                    )
                },
                _ => self.hang_up(ErrorKind::UnexpectedEvent),
            },
            Phase::Writing => match event {
                Event::Done => {
                    let following = self.characteristic + 1;
                    self.serve_from(following, now, None)
                },
                Event::Failed => {
                    let following = self.characteristic + 1;
                    self.serve_from(following, now, Some(Notice::Failed(ErrorKind::WriteFailed)))
                },
                _ => self.hang_up(ErrorKind::UnexpectedEvent),
            },
            Phase::Disconnecting => match event {
                Event::Done => {
                    let following = self.peripheral + 1;
                    self.engage_from(following, None)
                },
                Event::Failed => {
                    let following = self.peripheral + 1;
                    self.engage_from(following, Some(Notice::Failed(ErrorKind::DisconnectFailed)))
                },
                _ => self.abort(ErrorKind::UnexpectedEvent),
            },
            Phase::Aborting(kind) => self.abort(kind),
            Phase::Finished => (self, Output { action: Action::Finish, notice: None }),
            Phase::Aborted(kind) => (self, Output { action: Action::Abort(kind), notice: None }),
        }
    }
}

} // verus!
