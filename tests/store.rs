use scd41_embassy_rs::conversion::{
    humidity_milli_pct, temperature_milli_c, RawReading, SCD41_TEMPERATURE_OFFSET_MILLI,
};
use scd41_embassy_rs::cycle::{BusError, CycleOutcome, Step};
use scd41_embassy_rs::server::{ConnectionServer, ServerAction, ServerEvent, ServerState, ConnectionError, PORT};
use scd41_embassy_rs::store::{publication, Measurement, MeasurementStore};

#[test]
fn first_snapshot_is_zero_reading() {
    let store = MeasurementStore::new();
    let m = store.snapshot();
    assert_eq!(m, Measurement::zero());
    assert_eq!(m.co2, 0);
    assert_eq!(temperature_milli_c(m.temperature_raw, SCD41_TEMPERATURE_OFFSET_MILLI), -45000);
    assert_eq!(humidity_milli_pct(m.humidity_raw), 0);
}

#[test]
fn publish_replaces_whole_reading() {
    let mut store = MeasurementStore::new();
    let a = Measurement { co2: 500, temperature_raw: 26214, humidity_raw: 32768 };
    let b = Measurement { co2: 700, temperature_raw: 1, humidity_raw: 2 };
    store.publish(a);
    assert_eq!(store.snapshot(), a);
    store.publish(b);
    assert_eq!(store.snapshot(), b);
    assert_eq!(store.snapshot(), b);
}

#[test]
fn publication_only_for_completed_cycles() {
    let raw = RawReading {
        co2: 412,
        crc_co2: 1,
        temperature: 3,
        crc_temperature: 2,
        humidity: 4,
        crc_humidity: 3,
    };
    assert_eq!(
        publication(CycleOutcome::Sampled(raw)),
        Some(Measurement { co2: 412, temperature_raw: 3, humidity_raw: 4 })
    );
    assert_eq!(publication(CycleOutcome::InProgress), None);
    assert_eq!(publication(CycleOutcome::Failed(BusError::Timeout, Step::Settle)), None);
}

#[test]
fn write_failure_returns_to_listening_and_next_peer_gets_latest() {
    let mut store = MeasurementStore::new();
    let a = Measurement { co2: 500, temperature_raw: 26214, humidity_raw: 32768 };
    store.publish(a);
    let mut server = ConnectionServer::new();
    assert_eq!(server.next_action(), ServerAction::Accept { port: PORT, timeout_secs: 10 });
    assert_eq!(server.on_event(ServerEvent::Accepted), None);
    assert_eq!(server.next_action(), ServerAction::SendSnapshot);
    assert_eq!(store.snapshot(), a);
    assert_eq!(server.on_event(ServerEvent::Sent), None);
    assert_eq!(server.on_event(ServerEvent::SendFailed), Some(ConnectionError::Write));
    assert_eq!(server.current_state(), ServerState::Listening);
    assert_eq!(server.next_action(), ServerAction::Accept { port: 1234, timeout_secs: 10 });
    assert_eq!(server.on_event(ServerEvent::Accepted), None);
    assert_eq!(server.next_action(), ServerAction::SendSnapshot);
    assert_eq!(store.snapshot(), a);
}

#[test]
fn accept_failure_keeps_listening() {
    let mut server = ConnectionServer::new();
    assert_eq!(server.on_event(ServerEvent::AcceptFailed), Some(ConnectionError::Accept));
    assert_eq!(server.current_state(), ServerState::Listening);
    assert_eq!(server.on_event(ServerEvent::Accepted), None);
    assert_eq!(server.on_event(ServerEvent::EncodeFailed), Some(ConnectionError::Encode));
    assert_eq!(server.current_state(), ServerState::Listening);
}
