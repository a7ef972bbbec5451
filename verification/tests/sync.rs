use ble_time_sync::calendar::UtcDateTime;
use ble_time_sync::encoder::TimePayload;
use ble_time_sync::gatt::{
    CharacteristicDescriptor, NOTIFY_CHARACTERISTIC_UUID, PROPERTY_NOTIFY, PROPERTY_READ,
    PROPERTY_WRITE, TIME_CHARACTERISTIC_UUID,
};
use ble_time_sync::matcher::MatchFilter;
use ble_time_sync::protocol::{
    Action, ErrorKind, Event, Notice, Output, Phase, SyncConfig, DEFAULT_SETTLE_SECONDS,
};
use ble_time_sync::scanner::PeripheralRecord;
use ble_time_sync::sync::SyncState;

/// 2024-03-10 12:34:56 UTC, a Sunday.
const NOW: i64 = 1_710_074_096;

/// A peripheral as the mock radio plays it.
#[derive(Clone)]
struct Device {
    name: Option<&'static str>,
    connected: bool,
    accepts_connection: bool,
    connected_after_connect: bool,
    state_readable: bool,
    characteristics: Option<Vec<CharacteristicDescriptor>>,
    reads: bool,
    writes: bool,
    disconnects: bool,
}

/// An adapter as the mock radio plays it.
#[derive(Clone)]
struct Radio {
    scans: bool,
    devices: Option<Vec<Device>>,
}

/// What the driver did during a run.
#[derive(Default)]
struct Journal {
    scans: Vec<usize>,
    settles: Vec<u64>,
    listings: Vec<usize>,
    connects: Vec<usize>,
    checks: Vec<usize>,
    discoveries: Vec<usize>,
    reads: Vec<(usize, usize)>,
    writes: Vec<(usize, usize, TimePayload)>,
    disconnects: Vec<usize>,
    notices: Vec<Notice>,
    trail: Vec<&'static str>,
    end: Option<Action>,
}

fn time_characteristic(properties: u8) -> CharacteristicDescriptor {
    CharacteristicDescriptor { uuid: TIME_CHARACTERISTIC_UUID, properties }
}

fn other_characteristic() -> CharacteristicDescriptor {
    CharacteristicDescriptor { uuid: NOTIFY_CHARACTERISTIC_UUID, properties: PROPERTY_NOTIFY }
}

fn watch() -> Device {
    Device {
        name: Some("Amazfit GTS 4 Mini Pro"),
        connected: false,
        accepts_connection: true,
        connected_after_connect: true,
        state_readable: true,
        characteristics: Some(vec![time_characteristic(PROPERTY_READ | PROPERTY_WRITE)]),
        reads: true,
        writes: true,
        disconnects: true,
    }
}

fn stranger(name: Option<&'static str>) -> Device {
    Device { name, ..watch() }
}

fn radio(devices: Vec<Device>) -> Radio {
    Radio { scans: true, devices: Some(devices) }
}

fn answer(good: bool) -> Event {
    if good {
        Event::Done
    } else {
        Event::Failed
    }
}

/// Runs the machine against the mock radios until it finishes or aborts.
fn run_with(config: SyncConfig, radios: Option<Vec<Radio>>) -> Journal {
    let mut journal = Journal::default();
    let mut state = SyncState::new(config);
    let mut event = Event::Start;
    let mut radio = 0;
    for _ in 0..10_000 {
        let (next, output) = state.step_at(event, NOW).ok().unwrap();
        state = next;
        if let Some(notice) = output.notice {
            journal.notices.push(notice);
        }
        event = match output.action {
            Action::ListAdapters => match &radios {
                Some(list) => Event::Adapters(list.len()),
                None => Event::Failed,
            },
            Action::StartScan { adapter } => {
                radio = adapter;
                journal.scans.push(adapter);
                journal.trail.push("scan");
                answer(radios.as_ref().unwrap()[adapter].scans)
            }
            Action::Settle { seconds } => {
                journal.settles.push(seconds);
                journal.trail.push("settle");
                Event::Done
            }
            Action::ListPeripherals { adapter } => {
                journal.listings.push(adapter);
                journal.trail.push("list");
                match &radios.as_ref().unwrap()[adapter].devices {
                    Some(devices) => Event::Peripherals(
                        devices
                            .iter()
                            .map(|d| PeripheralRecord {
                                name: d.name.map(|n| n.to_string()),
                                connected: d.connected,
                            })
                            .collect(),
                    ),
                    None => Event::Failed,
                }
            }
            Action::Connect { peripheral } => {
                journal.connects.push(peripheral);
                journal.trail.push("connect");
                answer(device(&radios, radio, peripheral).accepts_connection)
            }
            Action::CheckConnection { peripheral } => {
                journal.checks.push(peripheral);
                journal.trail.push("check");
                let d = device(&radios, radio, peripheral);
                if d.state_readable {
                    Event::ConnectionState(d.connected || d.connected_after_connect)
                } else {
                    Event::Failed
                }
            }
            Action::Discover { peripheral } => {
                journal.discoveries.push(peripheral);
                journal.trail.push("discover");
                match &device(&radios, radio, peripheral).characteristics {
                    Some(found) => Event::Characteristics(found.clone()),
                    None => Event::Failed,
                }
            }
            Action::Read { peripheral, characteristic } => {
                journal.reads.push((peripheral, characteristic));
                journal.trail.push("read");
                answer(device(&radios, radio, peripheral).reads)
            }
            Action::Write { peripheral, characteristic, payload } => {
                journal.writes.push((peripheral, characteristic, payload));
                journal.trail.push("write");
                answer(device(&radios, radio, peripheral).writes)
            }
            Action::Disconnect { peripheral } => {
                journal.disconnects.push(peripheral);
                journal.trail.push("disconnect");
                answer(device(&radios, radio, peripheral).disconnects)
            }
            Action::Finish | Action::Abort(_) => {
                journal.end = Some(output.action);
                return journal;
            }
        };
    }
    panic!("the run did not end");
}

fn device(radios: &Option<Vec<Radio>>, radio: usize, peripheral: usize) -> &Device {
    &radios.as_ref().unwrap()[radio].devices.as_ref().unwrap()[peripheral]
}

fn run(radios: Option<Vec<Radio>>) -> Journal {
    run_with(SyncConfig::standard(), radios)
}

fn step(state: SyncState, event: Event) -> (SyncState, Output) {
    state.step_at(event, NOW).ok().unwrap()
}

/// A state that waits for the answer to `Discover` on peripheral 0.
fn discovering() -> SyncState {
    let state = SyncState::new(SyncConfig::standard());
    let (state, _) = step(state, Event::Start);
    let (state, _) = step(state, Event::Adapters(1));
    let (state, _) = step(state, Event::Done);
    let (state, _) = step(state, Event::Done);
    let seen = vec![PeripheralRecord { name: Some("Amazfit GTS 4 Mini".to_string()), connected: true }];
    let (state, _) = step(state, Event::Peripherals(seen));
    let (state, output) = step(state, Event::ConnectionState(true));
    assert_eq!(output.action, Action::Discover { peripheral: 0 });
    state
}

#[test]
fn standard_configuration() {
    let config = SyncConfig::standard();
    assert_eq!(config.filter, MatchFilter::new("Amazfit GTS 4 Mini"));
    assert_eq!(config.settle_seconds, 2);
    assert_eq!(DEFAULT_SETTLE_SECONDS, 2);
}

#[test]
fn a_new_run_is_idle_and_starts_by_listing_adapters() {
    let state = SyncState::new(SyncConfig::standard());
    assert_eq!(state.phase(), Phase::Idle);
    let (state, output) = step(state, Event::Start);
    assert_eq!(output, Output { action: Action::ListAdapters, notice: None });
    assert_eq!(state.phase(), Phase::ListingAdapters);
}

#[test]
fn one_matching_peripheral_is_synchronised() {
    let journal = run(Some(vec![radio(vec![watch()])]));
    assert_eq!(journal.end, Some(Action::Finish));
    assert_eq!(journal.connects, vec![0]);
    assert_eq!(journal.discoveries, vec![0]);
    assert_eq!(journal.reads, vec![(0, 0)]);
    assert_eq!(journal.disconnects, vec![0]);
    assert_eq!(journal.writes.len(), 1);
    let (peripheral, characteristic, payload) = journal.writes[0];
    assert_eq!((peripheral, characteristic), (0, 0));
    assert_eq!(payload.bytes.len(), 11);
    let bytes = payload.bytes;
    assert_eq!((bytes[0] as u32) | ((bytes[1] as u32) << 8), 2024);
    assert_eq!(&bytes[2..7], &[3, 10, 12, 34, 56]);
    assert_eq!(bytes, [0xE8, 0x07, 3, 10, 12, 34, 56, 0, 0, 0, 1]);
    assert!(journal.notices.is_empty());
}

#[test]
fn a_session_runs_in_order() {
    let journal = run(Some(vec![radio(vec![watch()])]));
    assert_eq!(
        journal.trail,
        vec!["scan", "settle", "list", "connect", "check", "discover", "read", "write", "disconnect"]
    );
    assert_eq!(journal.settles, vec![2]);
}

#[test]
fn write_follows_the_instant_of_the_step() {
    let state = discovering();
    let found = vec![time_characteristic(PROPERTY_WRITE)];
    let now = UtcDateTime { year: 1999, month: 12, day: 31, hour: 23, minute: 59, second: 58, weekday: 5 };
    let (_, output) = state.step(Event::Characteristics(found), &now);
    match output.action {
        Action::Write { peripheral: 0, characteristic: 0, payload } => {
            assert_eq!(payload.bytes, [0xCF, 0x07, 12, 31, 23, 59, 58, 5, 0, 0, 1]);
        }
        other => panic!("unexpected action {:?}", other),
    }
}

#[test]
fn no_adapter_ends_the_run_with_a_notice() {
    let journal = run(Some(Vec::new()));
    assert_eq!(journal.end, Some(Action::Finish));
    assert_eq!(journal.notices, vec![Notice::NoAdapters]);
    assert!(journal.scans.is_empty());
    assert!(journal.connects.is_empty());
}

#[test]
fn transport_failure_aborts_the_run() {
    let journal = run(None);
    assert_eq!(journal.end, Some(Action::Abort(ErrorKind::TransportUnavailable)));
    assert!(journal.scans.is_empty());
}

#[test]
fn adapter_without_peripherals_completes_without_connecting() {
    let journal = run(Some(vec![radio(Vec::new())]));
    assert_eq!(journal.end, Some(Action::Finish));
    assert_eq!(journal.notices, vec![Notice::NoPeripherals]);
    assert_eq!(journal.scans, vec![0]);
    assert_eq!(journal.listings, vec![0]);
    assert!(journal.connects.is_empty());
    assert!(journal.checks.is_empty());
    assert!(journal.writes.is_empty());
    assert!(journal.disconnects.is_empty());
}

#[test]
fn failed_connect_is_noticed_and_the_run_completes() {
    let refusing = Device { accepts_connection: false, ..watch() };
    let journal = run(Some(vec![radio(vec![refusing])]));
    assert_eq!(journal.end, Some(Action::Finish));
    assert_eq!(journal.notices, vec![Notice::Failed(ErrorKind::ConnectFailed)]);
    assert_eq!(journal.connects, vec![0]);
    assert!(journal.checks.is_empty());
    assert!(journal.discoveries.is_empty());
    assert!(journal.reads.is_empty());
    assert!(journal.writes.is_empty());
    assert!(journal.disconnects.is_empty());
}

#[test]
fn failed_connect_does_not_cost_the_next_peripheral() {
    let refusing = Device { accepts_connection: false, ..watch() };
    let journal = run(Some(vec![radio(vec![refusing, watch()])]));
    assert_eq!(journal.end, Some(Action::Finish));
    assert_eq!(journal.connects, vec![0, 1]);
    assert_eq!(journal.discoveries, vec![1]);
    assert_eq!(journal.writes.len(), 1);
    assert_eq!(journal.writes[0].0, 1);
    assert_eq!(journal.disconnects, vec![1]);
}

#[test]
fn peripheral_without_time_characteristic_is_only_disconnected() {
    let plain = Device { characteristics: Some(vec![other_characteristic()]), ..watch() };
    let journal = run(Some(vec![radio(vec![plain])]));
    assert_eq!(journal.end, Some(Action::Finish));
    assert_eq!(journal.connects, vec![0]);
    assert_eq!(journal.discoveries, vec![0]);
    assert!(journal.reads.is_empty());
    assert!(journal.writes.is_empty());
    assert_eq!(journal.disconnects, vec![0]);
}

#[test]
fn peripheral_without_characteristics_is_only_disconnected() {
    let bare = Device { characteristics: Some(Vec::new()), ..watch() };
    let journal = run(Some(vec![radio(vec![bare])]));
    assert_eq!(journal.end, Some(Action::Finish));
    assert!(journal.reads.is_empty());
    assert!(journal.writes.is_empty());
    assert_eq!(journal.disconnects, vec![0]);
}

#[test]
fn unnamed_and_foreign_peripherals_are_passed_over() {
    let journal = run(Some(vec![radio(vec![
        stranger(None),
        stranger(Some("Kettle")),
        stranger(Some("amazfit gts 4 mini")),
        stranger(Some("(peripheral name unknown)")),
    ])]));
    assert_eq!(journal.end, Some(Action::Finish));
    assert!(journal.connects.is_empty());
    assert!(journal.checks.is_empty());
    assert!(journal.notices.is_empty());
}

#[test]
fn unnamed_peripheral_is_passed_over_even_by_the_empty_filter() {
    let config = SyncConfig { filter: MatchFilter::new(""), settle_seconds: 0 };
    let journal = run_with(config, Some(vec![radio(vec![stranger(None), stranger(Some("Kettle"))])]));
    assert_eq!(journal.connects, vec![1]);
    assert_eq!(journal.settles, vec![0]);
}

#[test]
fn the_peripheral_handle_is_its_place_in_the_scan() {
    let journal = run(Some(vec![radio(vec![stranger(Some("Kettle")), stranger(None), watch()])]));
    assert_eq!(journal.connects, vec![2]);
    assert_eq!(journal.checks, vec![2]);
    assert_eq!(journal.discoveries, vec![2]);
    assert_eq!(journal.reads, vec![(2, 0)]);
    assert_eq!(journal.writes[0].0, 2);
    assert_eq!(journal.disconnects, vec![2]);
}

#[test]
fn connected_peripheral_is_not_connected_again() {
    let held = Device { connected: true, ..watch() };
    let journal = run(Some(vec![radio(vec![held])]));
    assert_eq!(journal.end, Some(Action::Finish));
    assert!(journal.connects.is_empty());
    assert_eq!(journal.checks, vec![0]);
    assert_eq!(journal.writes.len(), 1);
    assert_eq!(journal.disconnects, vec![0]);
}

#[test]
fn unconfirmed_connection_is_passed_over() {
    let flaky = Device { connected_after_connect: false, ..watch() };
    let journal = run(Some(vec![radio(vec![flaky, watch()])]));
    assert_eq!(journal.end, Some(Action::Finish));
    assert_eq!(journal.notices, vec![Notice::NotConnected]);
    assert_eq!(journal.connects, vec![0, 1]);
    assert_eq!(journal.discoveries, vec![1]);
    assert_eq!(journal.disconnects, vec![1]);
}

#[test]
fn unreadable_connection_state_aborts_the_run() {
    let mute = Device { state_readable: false, ..watch() };
    let journal = run(Some(vec![radio(vec![mute, watch()])]));
    assert_eq!(journal.end, Some(Action::Abort(ErrorKind::DiscoveryFailed)));
    assert_eq!(journal.connects, vec![0]);
    assert!(journal.discoveries.is_empty());
}

#[test]
fn failed_scan_start_costs_only_that_adapter() {
    let deaf = Radio { scans: false, devices: Some(vec![watch()]) };
    let journal = run(Some(vec![deaf, radio(vec![watch()])]));
    assert_eq!(journal.end, Some(Action::Finish));
    assert_eq!(journal.notices, vec![Notice::Failed(ErrorKind::ScanStartFailed)]);
    assert_eq!(journal.scans, vec![0, 1]);
    assert_eq!(journal.listings, vec![1]);
    assert_eq!(journal.writes.len(), 1);
}

#[test]
fn failed_scan_start_on_the_only_adapter_ends_the_run() {
    let deaf = Radio { scans: false, devices: Some(vec![watch()]) };
    let journal = run(Some(vec![deaf]));
    assert_eq!(journal.end, Some(Action::Finish));
    assert_eq!(journal.notices, vec![Notice::Failed(ErrorKind::ScanStartFailed)]);
    assert!(journal.settles.is_empty());
    assert!(journal.connects.is_empty());
}

#[test]
fn every_adapter_is_scanned_in_turn() {
    let journal = run(Some(vec![radio(vec![watch()]), radio(Vec::new()), radio(vec![watch(), watch()])]));
    assert_eq!(journal.end, Some(Action::Finish));
    assert_eq!(journal.scans, vec![0, 1, 2]);
    assert_eq!(journal.listings, vec![0, 1, 2]);
    assert_eq!(journal.connects, vec![0, 0, 1]);
    assert_eq!(journal.disconnects, vec![0, 0, 1]);
    assert_eq!(journal.writes.len(), 3);
    assert_eq!(journal.notices, vec![Notice::NoPeripherals]);
}

#[test]
fn unlistable_peripherals_abort_the_run() {
    let blind = Radio { scans: true, devices: None };
    let journal = run(Some(vec![blind, radio(vec![watch()])]));
    assert_eq!(journal.end, Some(Action::Abort(ErrorKind::DiscoveryFailed)));
    assert_eq!(journal.scans, vec![0]);
    assert!(journal.connects.is_empty());
}

#[test]
fn failed_discovery_disconnects_and_aborts() {
    let opaque = Device { characteristics: None, ..watch() };
    let journal = run(Some(vec![radio(vec![opaque, watch()])]));
    assert_eq!(journal.end, Some(Action::Abort(ErrorKind::DiscoveryFailed)));
    assert_eq!(journal.connects, vec![0]);
    assert_eq!(journal.discoveries, vec![0]);
    assert!(journal.writes.is_empty());
    assert_eq!(journal.disconnects, vec![0]);
}

#[test]
fn failed_read_is_noticed_and_the_write_still_happens() {
    let unreadable = Device { reads: false, ..watch() };
    let journal = run(Some(vec![radio(vec![unreadable])]));
    assert_eq!(journal.end, Some(Action::Finish));
    assert_eq!(journal.notices, vec![Notice::Failed(ErrorKind::ReadFailed)]);
    assert_eq!(journal.reads, vec![(0, 0)]);
    assert_eq!(journal.writes.len(), 1);
    assert_eq!(journal.disconnects, vec![0]);
}

#[test]
fn failed_write_is_noticed_and_the_session_goes_on() {
    let stubborn = Device {
        writes: false,
        characteristics: Some(vec![
            time_characteristic(PROPERTY_WRITE),
            other_characteristic(),
            time_characteristic(PROPERTY_READ | PROPERTY_WRITE),
        ]),
        ..watch()
    };
    let journal = run(Some(vec![radio(vec![stubborn, watch()])]));
    assert_eq!(journal.end, Some(Action::Finish));
    assert_eq!(
        journal.notices,
        vec![Notice::Failed(ErrorKind::WriteFailed), Notice::Failed(ErrorKind::WriteFailed)]
    );
    assert_eq!(journal.reads, vec![(0, 2), (1, 0)]);
    let written: Vec<(usize, usize)> = journal.writes.iter().map(|w| (w.0, w.1)).collect();
    assert_eq!(written, vec![(0, 0), (0, 2), (1, 0)]);
    assert_eq!(journal.disconnects, vec![0, 1]);
}

#[test]
fn failed_disconnect_is_noticed_and_the_run_goes_on() {
    let clingy = Device { disconnects: false, ..watch() };
    let journal = run(Some(vec![radio(vec![clingy, watch()])]));
    assert_eq!(journal.end, Some(Action::Finish));
    assert_eq!(journal.notices, vec![Notice::Failed(ErrorKind::DisconnectFailed)]);
    assert_eq!(journal.disconnects, vec![0, 1]);
    assert_eq!(journal.writes.len(), 2);
}

#[test]
fn write_only_time_characteristic_is_written_without_a_read() {
    let write_only = Device { characteristics: Some(vec![time_characteristic(PROPERTY_WRITE)]), ..watch() };
    let journal = run(Some(vec![radio(vec![write_only])]));
    assert!(journal.reads.is_empty());
    assert_eq!(journal.writes.len(), 1);
    assert_eq!(journal.trail, vec!["scan", "settle", "list", "connect", "check", "discover", "write", "disconnect"]);
}

#[test]
fn time_characteristic_is_written_whatever_its_properties() {
    let inert = Device { characteristics: Some(vec![time_characteristic(0)]), ..watch() };
    let journal = run(Some(vec![radio(vec![inert])]));
    assert!(journal.reads.is_empty());
    assert_eq!(journal.writes.len(), 1);
}

#[test]
fn the_characteristic_handle_is_its_place_in_the_discovery() {
    let crowded = Device {
        characteristics: Some(vec![
            other_characteristic(),
            other_characteristic(),
            time_characteristic(PROPERTY_READ),
        ]),
        ..watch()
    };
    let journal = run(Some(vec![radio(vec![crowded])]));
    assert_eq!(journal.reads, vec![(0, 2)]);
    assert_eq!((journal.writes[0].0, journal.writes[0].1), (0, 2));
}

#[test]
fn an_answer_to_nothing_aborts_the_run() {
    let state = SyncState::new(SyncConfig::standard());
    let (state, output) = step(state, Event::Done);
    assert_eq!(output, Output { action: Action::Abort(ErrorKind::UnexpectedEvent), notice: None });
    assert_eq!(state.phase(), Phase::Aborted(ErrorKind::UnexpectedEvent));
}

#[test]
fn an_answer_out_of_turn_aborts_the_run() {
    let state = SyncState::new(SyncConfig::standard());
    let (state, _) = step(state, Event::Start);
    let (state, output) = step(state, Event::ConnectionState(true));
    assert_eq!(output.action, Action::Abort(ErrorKind::UnexpectedEvent));
    assert_eq!(state.phase(), Phase::Aborted(ErrorKind::UnexpectedEvent));
}

#[test]
fn an_answer_out_of_turn_in_a_session_disconnects_first() {
    let (state, output) = step(discovering(), Event::Adapters(3));
    assert_eq!(output.action, Action::Disconnect { peripheral: 0 });
    assert_eq!(state.phase(), Phase::Aborting(ErrorKind::UnexpectedEvent));
    let (state, output) = step(state, Event::Done);
    assert_eq!(output.action, Action::Abort(ErrorKind::UnexpectedEvent));
    assert_eq!(state.phase(), Phase::Aborted(ErrorKind::UnexpectedEvent));
}

#[test]
fn a_finished_run_stays_finished() {
    let state = SyncState::new(SyncConfig::standard());
    let (state, _) = step(state, Event::Start);
    let (state, output) = step(state, Event::Adapters(0));
    assert_eq!(output.action, Action::Finish);
    assert_eq!(state.phase(), Phase::Finished);
    let (state, output) = step(state, Event::Start);
    assert_eq!(output, Output { action: Action::Finish, notice: None });
    let (state, output) = step(state, Event::Failed);
    assert_eq!(output, Output { action: Action::Finish, notice: None });
    assert_eq!(state.phase(), Phase::Finished);
}

#[test]
fn an_aborted_run_stays_aborted() {
    let state = SyncState::new(SyncConfig::standard());
    let (state, _) = step(state, Event::Start);
    let (state, output) = step(state, Event::Failed);
    assert_eq!(output.action, Action::Abort(ErrorKind::TransportUnavailable));
    let (state, output) = step(state, Event::Adapters(1));
    assert_eq!(output, Output { action: Action::Abort(ErrorKind::TransportUnavailable), notice: None });
    assert_eq!(state.phase(), Phase::Aborted(ErrorKind::TransportUnavailable));
}

#[test]
fn an_instant_beyond_the_calendar_makes_no_step() {
    let state = SyncState::new(SyncConfig::standard());
    let state = match state.step_at(Event::Start, i64::MAX) {
        Err(unchanged) => unchanged,
        Ok(_) => panic!("a step was made"),
    };
    assert_eq!(state.phase(), Phase::Idle);
    let (state, output) = step(state, Event::Start);
    assert_eq!(output.action, Action::ListAdapters);
    assert_eq!(state.phase(), Phase::ListingAdapters);
}
