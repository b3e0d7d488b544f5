use broker::app_server::{AppAction, AppWorker, EventListener};
use broker::protocol_server::{ProtocolAction, ProtocolWorker};
use broker::traits::write_to_all_streams::WriteToAllStreams;
use broker::types::message::{AppMetadata, Request, Response};
use broker::types::stream_map::{ConnId, StreamMap};
use std::cell::RefCell;

fn metadata(name: &str) -> AppMetadata {
    AppMetadata { name: name.to_string(), bytes: name.as_bytes().to_vec() }
}

fn register_app(stream: ConnId, name: &str, apps: &mut StreamMap) -> AppWorker {
    let mut worker = AppWorker::new(stream);
    assert_eq!(worker.action(), AppAction::ReadMetadata);
    worker.metadata_read(Some(metadata(name)));
    assert_eq!(worker.action(), AppAction::Register);
    worker.register_app_client(apps);
    worker
}

fn register_protocol(stream: ConnId, name: &str, protocols: &mut StreamMap) -> ProtocolWorker {
    let mut worker = ProtocolWorker::new(stream);
    assert_eq!(worker.action(), ProtocolAction::ReadName);
    worker.name_read(Some(name.to_string()));
    assert_eq!(worker.action(), ProtocolAction::Claim);
    worker.register_protocol_client(protocols);
    worker
}

#[test]
fn solo_registration() {
    let mut apps = StreamMap::new();
    let worker = register_app(ConnId(1), "echo", &mut apps);
    assert_eq!(worker.action(), AppAction::Acknowledge(Response::Success(vec![])));
    assert!(apps.contains_key("echo"));
    assert_eq!(apps.get("echo"), Some(ConnId(1)));
}

#[test]
fn round_trip() {
    let mut apps = StreamMap::new();
    let mut protocols = StreamMap::new();
    let mut app = register_app(ConnId(1), "echo", &mut apps);
    app.acknowledged(true);

    let mut worker = register_protocol(ConnId(2), "http", &mut protocols);
    assert_eq!(worker.action(), ProtocolAction::Acknowledge(Response::Success(vec![])));
    worker.acknowledged(true);
    assert_eq!(worker.action(), ProtocolAction::ReadRequest);

    let request = Request::Read {
        protocol_name: "http".to_string(),
        app_name: "echo".to_string(),
        payload: vec![0x01],
    };
    worker.request_read(Some(request.clone()));
    worker.pool_request(&protocols);
    worker.send_request(&apps);
    assert_eq!(worker.action(), ProtocolAction::Forward { stream: ConnId(1), request });
    worker.request_sent(true);
    assert_eq!(worker.action(), ProtocolAction::ReadResponse { stream: ConnId(1) });
    worker.pool_response(Some(Response::Success(vec![0x02])));
    assert_eq!(worker.action(), ProtocolAction::Return(Response::Success(vec![0x02])));
    worker.send_response(true);
    assert_eq!(worker.action(), ProtocolAction::ReadRequest);
}

#[test]
fn missing_app() {
    let apps = StreamMap::new();
    let mut protocols = StreamMap::new();
    let mut worker = register_protocol(ConnId(2), "http", &mut protocols);
    worker.acknowledged(true);
    worker.request_read(Some(Request::Read {
        protocol_name: "http".to_string(),
        app_name: "ghost".to_string(),
        payload: vec![0x01],
    }));
    worker.pool_request(&protocols);
    let mut lookups = 0;
    let mut asked: Vec<ProtocolAction> = Vec::new();
    while worker.action() == ProtocolAction::Lookup {
        worker.send_request(&apps);
        asked.push(worker.action());
        lookups += 1;
    }
    assert_eq!(lookups, 3);
    assert_eq!(
        asked,
        vec![ProtocolAction::Lookup, ProtocolAction::Lookup, ProtocolAction::ReadRequest]
    );
}

#[test]
fn late_app_registration() {
    let mut apps = StreamMap::new();
    let mut protocols = StreamMap::new();
    let mut worker = register_protocol(ConnId(2), "http", &mut protocols);
    worker.acknowledged(true);
    let request = Request::Read {
        protocol_name: "http".to_string(),
        app_name: "lateapp".to_string(),
        payload: vec![0x05],
    };
    worker.request_read(Some(request.clone()));
    worker.pool_request(&protocols);
    worker.send_request(&apps);
    assert_eq!(worker.action(), ProtocolAction::Lookup);
    worker.send_request(&apps);
    assert_eq!(worker.action(), ProtocolAction::Lookup);
    register_app(ConnId(9), "lateapp", &mut apps);
    worker.send_request(&apps);
    assert_eq!(worker.action(), ProtocolAction::Forward { stream: ConnId(9), request });
    worker.request_sent(true);
    assert_eq!(worker.action(), ProtocolAction::ReadResponse { stream: ConnId(9) });
}

#[test]
fn duplicate_protocol_name() {
    let mut protocols = StreamMap::new();
    let a = register_protocol(ConnId(1), "http", &mut protocols);
    assert_eq!(a.action(), ProtocolAction::Acknowledge(Response::Success(vec![])));
    let b = register_protocol(ConnId(2), "http", &mut protocols);
    assert_eq!(b.action(), ProtocolAction::Close);
    assert_eq!(protocols.get("http"), Some(ConnId(1)));
    assert_eq!(protocols.len(), 1);
}

#[test]
fn event_fan_out() {
    let mut apps = StreamMap::new();
    let mut events = StreamMap::new();
    let mut listener = EventListener::new();
    assert_eq!(listener.register_event_client(ConnId(50), &mut events), "0");
    assert_eq!(listener.register_event_client(ConnId(51), &mut events), "1");

    let mut app = register_app(ConnId(1), "svc", &mut apps);
    app.acknowledged(true);
    let published = match app.action() {
        AppAction::Publish(metadata) => metadata,
        other => panic!("asked for {:?}", other),
    };
    assert_eq!(published, metadata("svc"));
    let inbox: RefCell<Vec<(ConnId, Vec<u8>)>> = RefCell::new(Vec::new());
    let res: Result<(), String> = events.write_to_all_streams(published, |stream, bytes| {
        inbox.borrow_mut().push((stream, bytes.clone()));
        Ok(())
    });
    assert_eq!(res, Ok(()));
    assert_eq!(
        inbox.into_inner(),
        vec![(ConnId(50), b"svc".to_vec()), (ConnId(51), b"svc".to_vec())]
    );
    app.published();
    assert_eq!(app.action(), AppAction::Close);

    let mut second = register_app(ConnId(2), "svc2", &mut apps);
    second.acknowledged(true);
    let published = match second.action() {
        AppAction::Publish(metadata) => metadata,
        other => panic!("asked for {:?}", other),
    };
    let inbox: RefCell<Vec<(ConnId, Vec<u8>)>> = RefCell::new(Vec::new());
    let res = events.write_to_all_streams(published, |stream, bytes| {
        if stream == ConnId(50) {
            Err("closed")
        } else {
            inbox.borrow_mut().push((stream, bytes.clone()));
            Ok(())
        }
    });
    assert_eq!(res, Err("closed"));
    assert_eq!(inbox.into_inner(), vec![(ConnId(51), b"svc2".to_vec())]);
}
