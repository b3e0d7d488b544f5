use broker::app_server::{subscriber_name, AppAction, AppWorker, EventListener};
use broker::types::message::{AppMetadata, Response};
use broker::types::stream_map::{ConnId, StreamMap};

fn metadata(name: &str) -> AppMetadata {
    AppMetadata { name: name.to_string(), bytes: name.as_bytes().to_vec() }
}

#[test]
fn app_worker_starts_by_reading_metadata() {
    let worker = AppWorker::new(ConnId(1));
    assert_eq!(worker.stream(), ConnId(1));
    assert_eq!(worker.action(), AppAction::ReadMetadata);
}

#[test]
fn app_worker_registers_acknowledges_and_publishes() {
    let mut apps = StreamMap::new();
    let mut worker = AppWorker::new(ConnId(1));
    worker.metadata_read(Some(metadata("echo")));
    assert_eq!(worker.action(), AppAction::Register);
    assert!(!apps.contains_key("echo"));
    assert_eq!(worker.register_app_client(&mut apps), None);
    assert_eq!(apps.get("echo"), Some(ConnId(1)));
    assert_eq!(worker.action(), AppAction::Acknowledge(Response::Success(vec![])));
    worker.acknowledged(true);
    assert_eq!(worker.action(), AppAction::Publish(metadata("echo")));
    worker.published();
    assert_eq!(worker.action(), AppAction::Close);
}

#[test]
fn app_worker_reads_again_after_a_bad_frame() {
    let mut worker = AppWorker::new(ConnId(1));
    worker.metadata_read(None);
    assert_eq!(worker.action(), AppAction::ReadMetadata);
    worker.metadata_read(None);
    assert_eq!(worker.action(), AppAction::ReadMetadata);
    worker.metadata_read(Some(metadata("echo")));
    assert_eq!(worker.action(), AppAction::Register);
}

#[test]
fn app_worker_ends_after_three_bad_frames() {
    let mut apps = StreamMap::new();
    let mut worker = AppWorker::new(ConnId(1));
    worker.metadata_read(None);
    worker.metadata_read(None);
    worker.metadata_read(None);
    assert_eq!(worker.action(), AppAction::Close);
    worker.metadata_read(Some(metadata("echo")));
    assert_eq!(worker.action(), AppAction::Close);
    worker.register_app_client(&mut apps);
    assert_eq!(apps.len(), 0);
}

#[test]
fn app_worker_keeps_the_entry_when_the_acknowledgement_fails() {
    let mut apps = StreamMap::new();
    let mut worker = AppWorker::new(ConnId(3));
    worker.metadata_read(Some(metadata("echo")));
    worker.register_app_client(&mut apps);
    worker.acknowledged(false);
    assert_eq!(worker.action(), AppAction::Close);
    assert_eq!(apps.get("echo"), Some(ConnId(3)));
}

#[test]
fn app_that_comes_back_replaces_its_entry() {
    let mut apps = StreamMap::new();
    let mut first = AppWorker::new(ConnId(1));
    first.metadata_read(Some(metadata("echo")));
    first.register_app_client(&mut apps);
    let mut second = AppWorker::new(ConnId(2));
    second.metadata_read(Some(metadata("echo")));
    assert_eq!(second.register_app_client(&mut apps), Some(ConnId(1)));
    assert_eq!(second.action(), AppAction::Acknowledge(Response::Success(vec![])));
    assert_eq!(apps.get("echo"), Some(ConnId(2)));
    assert_eq!(apps.len(), 1);
}

#[test]
fn app_worker_ignores_what_it_did_not_ask_for() {
    let mut apps = StreamMap::new();
    let mut worker = AppWorker::new(ConnId(1));
    worker.acknowledged(true);
    worker.published();
    worker.register_app_client(&mut apps);
    assert_eq!(worker.action(), AppAction::ReadMetadata);
    assert_eq!(apps.len(), 0);
    worker.metadata_read(Some(metadata("echo")));
    worker.metadata_read(Some(metadata("other")));
    worker.acknowledged(false);
    worker.register_app_client(&mut apps);
    assert_eq!(apps.get("echo"), Some(ConnId(1)));
    assert_eq!(apps.get("other"), None);
    worker.register_app_client(&mut apps);
    worker.published();
    assert_eq!(worker.action(), AppAction::Acknowledge(Response::Success(vec![])));
}

#[test]
fn acknowledgement_is_an_empty_success() {
    assert_eq!(Response::ack(), Response::Success(Vec::new()));
}

#[test]
fn subscriber_names_are_decimal() {
    assert_eq!(subscriber_name(0), "0");
    assert_eq!(subscriber_name(1), "1");
    assert_eq!(subscriber_name(9), "9");
    assert_eq!(subscriber_name(10), "10");
    assert_eq!(subscriber_name(11), "11");
    assert_eq!(subscriber_name(100), "100");
    assert_eq!(subscriber_name(1234567890), "1234567890");
    assert_eq!(subscriber_name(u64::MAX), "18446744073709551615");
}

#[test]
fn subscriber_names_agree_with_the_standard_rendering() {
    let mut n: u64 = 0;
    while n < 2000 {
        assert_eq!(subscriber_name(n), n.to_string());
        n += 1;
    }
}

#[test]
fn event_listener_numbers_subscribers_from_zero() {
    let mut events = StreamMap::new();
    let mut listener = EventListener::new();
    assert_eq!(listener.accepted(), 0);
    assert_eq!(listener.register_event_client(ConnId(20), &mut events), "0");
    assert_eq!(listener.register_event_client(ConnId(21), &mut events), "1");
    assert_eq!(listener.register_event_client(ConnId(22), &mut events), "2");
    assert_eq!(listener.accepted(), 3);
    assert_eq!(events.get("0"), Some(ConnId(20)));
    assert_eq!(events.get("1"), Some(ConnId(21)));
    assert_eq!(events.get("2"), Some(ConnId(22)));
    assert_eq!(events.len(), 3);
}

#[test]
fn event_listener_never_reuses_a_number() {
    let mut events = StreamMap::new();
    let mut listener = EventListener::new();
    let mut n: u64 = 0;
    while n < 25 {
        listener.register_event_client(ConnId(100 + n), &mut events);
        n += 1;
    }
    assert_eq!(events.len(), 25);
    assert_eq!(events.get("10"), Some(ConnId(110)));
    assert_eq!(events.get("24"), Some(ConnId(124)));
    assert_eq!(events.get("25"), None);
}
