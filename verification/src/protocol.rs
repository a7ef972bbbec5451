//! What passes between the state machine and its driver.

use crate::encoder::TimePayload;
use crate::gatt::CharacteristicDescriptor;
use crate::matcher::{MatchFilter, DEFAULT_NAME_FILTER};
use crate::scanner::PeripheralRecord;
use vstd::prelude::*;

verus! {

/// Seconds a standard run waits between starting a scan and listing what it
/// found.
pub const DEFAULT_SETTLE_SECONDS: u64 = 2;

/// What can go wrong in a run.
#[derive(Clone, Copy, Debug, PartialEq, Eq, Structural)]
pub enum ErrorKind {
    /// The host's adapters could not be listed.
    TransportUnavailable,
    /// An adapter refused to start scanning.
    ScanStartFailed,
    /// A peripheral refused the connection.
    ConnectFailed,
    /// A characteristic could not be read.
    ReadFailed,
    /// A characteristic did not acknowledge a write.
    WriteFailed,
    /// A peripheral could not be disconnected.
    DisconnectFailed,
    /// An adapter's peripherals, a peripheral's connection state or its
    /// characteristics could not be found out.
    DiscoveryFailed,
    /// The driver reported an event that answers no action of the machine.
    UnexpectedEvent,
}

impl ErrorKind {
    /// The error ends the run. Every other error costs only the adapter, the
    /// peripheral or the operation it struck.
    pub open spec fn fatal(self) -> bool {
        self is TransportUnavailable || self is DiscoveryFailed || self is UnexpectedEvent
    }
}

/// What the driver is to tell the operator besides performing the action.
#[derive(Clone, Copy, Debug, PartialEq, Eq, Structural)]
pub enum Notice {
    /// The host has no adapter.
    NoAdapters,
    /// The scan saw no peripheral.
    NoPeripherals,
    /// The peripheral is not connected though the connect request went
    /// through; it is passed over.
    NotConnected,
    /// An operation failed and the run goes on without it.
    Failed(ErrorKind),
}

/// What the driver is to do next.
#[derive(Clone, Copy, Debug, PartialEq, Eq)]
pub enum Action {
    /// List the host's adapters; answer with `Adapters`.
    ListAdapters,
    /// Start an unfiltered scan on the adapter.
    StartScan { adapter: usize },
    /// Wait for advertisements to come in.
    Settle { seconds: u64 },
    /// List every peripheral the adapter has seen; answer with `Peripherals`.
    ListPeripherals { adapter: usize },
    /// Connect to the peripheral.
    Connect { peripheral: usize },
    /// Read the peripheral's connection state; answer with `ConnectionState`.
    CheckConnection { peripheral: usize },
    /// Discover the peripheral's services; answer with `Characteristics`.
    Discover { peripheral: usize },
    /// Read the characteristic and show its value.
    Read { peripheral: usize, characteristic: usize },
    /// Write the payload to the characteristic and wait for the response.
    Write { peripheral: usize, characteristic: usize, payload: TimePayload },
    /// Disconnect from the peripheral.
    Disconnect { peripheral: usize },
    /// The run is complete.
    Finish,
    /// The run is given up.
    Abort(ErrorKind),
}

/// The outcome of one step: the next action, and a notice where there is one.
#[derive(Clone, Copy, Debug, PartialEq, Eq)]
pub struct Output {
    pub action: Action,
    pub notice: Option<Notice>,
}

/// What the driver reports back.
#[derive(Clone, Debug, PartialEq, Eq)]
pub enum Event {
    /// The run begins.
    Start,
    /// The host has this many adapters.
    Adapters(usize),
    /// The adapter has seen these peripherals.
    Peripherals(Vec<PeripheralRecord>),
    /// The peripheral is connected, or is not.
    ConnectionState(bool),
    /// The peripheral's services hold these characteristics.
    Characteristics(Vec<CharacteristicDescriptor>),
    /// The action succeeded and has nothing to report.
    Done,
    /// The action failed.
    Failed,
}

/// Where a run stands: which answer the machine waits for.
#[derive(Clone, Copy, Debug, PartialEq, Eq, Structural)]
pub enum Phase {
    /// Nothing has been asked for yet.
    Idle,
    /// The adapters are being listed.
    ListingAdapters,
    /// A scan is being started.
    StartingScan,
    /// The scan is settling.
    Settling,
    /// The peripherals are being listed.
    ListingPeripherals,
    /// A connection is being made.
    Connecting,
    /// The connection state is being read.
    CheckingConnection,
    /// Services are being discovered on a confirmed connection.
    Discovering,
    /// The time characteristic is being read.
    Reading,
    /// The time characteristic is being written.
    Writing,
    /// The peripheral is being disconnected, and the run goes on.
    Disconnecting,
    /// The peripheral is being disconnected, and the run is then given up.
    Aborting(ErrorKind),
    /// The run is complete.
    Finished,
    /// The run was given up.
    Aborted(ErrorKind),
}

impl Phase {
    /// An adapter is in use.
    pub open spec fn scanning(self) -> bool {
        self is StartingScan || self is Settling || self is ListingPeripherals || self.engaged()
    }

    /// A peripheral has been chosen.
    pub open spec fn engaged(self) -> bool {
        self is Connecting || self is CheckingConnection || self is Disconnecting
            || self is Aborting || self.in_session()
    }

    /// The connection to the chosen peripheral is confirmed and still in use.
    pub open spec fn in_session(self) -> bool {
        self is Discovering || self.serving()
    }

    /// A time characteristic has been located and is being read or written.
    pub open spec fn serving(self) -> bool {
        self is Reading || self is Writing
    }

    /// The run is over.
    pub open spec fn ended(self) -> bool {
        self is Finished || self is Aborted
    }
}

/// What a run is set up with.
#[derive(Clone, Debug, PartialEq, Eq)]
pub struct SyncConfig {
    /// Which peripherals are eligible.
    pub filter: MatchFilter,
    /// How long a scan settles before its peripherals are listed.
    pub settle_seconds: u64,
}

impl SyncConfig {
    /// The configuration of a standard run.
    pub fn standard() -> (config: SyncConfig)
        ensures
            config.filter.needle@ == DEFAULT_NAME_FILTER@,
            config.settle_seconds == DEFAULT_SETTLE_SECONDS,
    {
        SyncConfig {
            filter: MatchFilter::new(DEFAULT_NAME_FILTER),
            settle_seconds: DEFAULT_SETTLE_SECONDS,
        }
    }
}

} // verus!
