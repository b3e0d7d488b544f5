use broker::protocol_server::{ProtocolAction, ProtocolWorker};
use broker::types::message::{Request, Response};
use broker::types::stream_map::{ConnId, StreamMap};

fn read(protocol: &str, app: &str, payload: Vec<u8>) -> Request {
    Request::Read { protocol_name: protocol.to_string(), app_name: app.to_string(), payload }
}

fn write(protocol: &str, app: &str, payload: Vec<u8>) -> Request {
    Request::Write { protocol_name: protocol.to_string(), app_name: app.to_string(), payload }
}

fn relaying(stream: ConnId, name: &str, protocols: &mut StreamMap) -> ProtocolWorker {
    let mut worker = ProtocolWorker::new(stream);
    worker.name_read(Some(name.to_string()));
    worker.register_protocol_client(protocols);
    worker.acknowledged(true);
    assert_eq!(worker.action(), ProtocolAction::ReadRequest);
    worker
}

#[test]
fn protocol_worker_starts_by_reading_the_name() {
    let worker = ProtocolWorker::new(ConnId(1));
    assert_eq!(worker.stream(), ConnId(1));
    assert_eq!(worker.action(), ProtocolAction::ReadName);
}

#[test]
fn protocol_worker_registers_and_acknowledges() {
    let mut protocols = StreamMap::new();
    let mut worker = ProtocolWorker::new(ConnId(1));
    worker.name_read(Some("http".to_string()));
    assert_eq!(worker.action(), ProtocolAction::Claim);
    assert!(!protocols.contains_key("http"));
    worker.register_protocol_client(&mut protocols);
    assert_eq!(protocols.get("http"), Some(ConnId(1)));
    assert_eq!(worker.action(), ProtocolAction::Acknowledge(Response::Success(vec![])));
    worker.acknowledged(true);
    assert_eq!(worker.action(), ProtocolAction::ReadRequest);
}

#[test]
fn protocol_worker_ends_on_a_bad_name_frame() {
    let mut protocols = StreamMap::new();
    let mut worker = ProtocolWorker::new(ConnId(1));
    worker.name_read(None);
    assert_eq!(worker.action(), ProtocolAction::Close);
    worker.name_read(Some("http".to_string()));
    worker.register_protocol_client(&mut protocols);
    assert_eq!(worker.action(), ProtocolAction::Close);
    assert_eq!(protocols.len(), 0);
}

#[test]
fn protocol_worker_ends_when_the_acknowledgement_fails() {
    let mut protocols = StreamMap::new();
    let mut worker = ProtocolWorker::new(ConnId(1));
    worker.name_read(Some("http".to_string()));
    worker.register_protocol_client(&mut protocols);
    worker.acknowledged(false);
    assert_eq!(worker.action(), ProtocolAction::Close);
    assert_eq!(protocols.get("http"), Some(ConnId(1)));
}

#[test]
fn registration_is_a_single_attempt() {
    let mut worker = ProtocolWorker::new(ConnId(1));
    worker.name_read(None);
    assert_eq!(worker.action(), ProtocolAction::Close);
}

#[test]
fn bad_request_frames_are_passed_over() {
    let mut protocols = StreamMap::new();
    let mut worker = relaying(ConnId(1), "http", &mut protocols);
    let mut n = 0;
    while n < 10 {
        worker.request_read(None);
        assert_eq!(worker.action(), ProtocolAction::ReadRequest);
        n += 1;
    }
}

#[test]
fn request_from_an_unknown_sender_is_passed_over() {
    let mut protocols = StreamMap::new();
    let mut worker = relaying(ConnId(1), "http", &mut protocols);
    worker.request_read(Some(read("grpc", "echo", vec![1])));
    assert_eq!(worker.action(), ProtocolAction::Validate);
    worker.pool_request(&protocols);
    assert_eq!(worker.action(), ProtocolAction::ReadRequest);
}

#[test]
fn write_requests_are_relayed_like_read_requests() {
    let mut protocols = StreamMap::new();
    let mut apps = StreamMap::new();
    apps.insert("store".to_string(), ConnId(30));
    let mut worker = relaying(ConnId(1), "http", &mut protocols);
    worker.request_read(Some(write("http", "store", vec![7, 8])));
    worker.pool_request(&protocols);
    assert_eq!(worker.action(), ProtocolAction::Lookup);
    worker.send_request(&apps);
    assert_eq!(
        worker.action(),
        ProtocolAction::Forward { stream: ConnId(30), request: write("http", "store", vec![7, 8]) }
    );
    worker.request_sent(true);
    assert_eq!(worker.action(), ProtocolAction::ReadResponse { stream: ConnId(30) });
    worker.pool_response(Some(Response::Failure(vec![0xEE])));
    assert_eq!(worker.action(), ProtocolAction::Return(Response::Failure(vec![0xEE])));
    worker.send_response(true);
    assert_eq!(worker.action(), ProtocolAction::ReadRequest);
}

#[test]
fn failed_write_to_the_app_is_retried_with_a_new_lookup() {
    let mut protocols = StreamMap::new();
    let mut apps = StreamMap::new();
    apps.insert("echo".to_string(), ConnId(30));
    let mut worker = relaying(ConnId(1), "http", &mut protocols);
    worker.request_read(Some(read("http", "echo", vec![1])));
    worker.pool_request(&protocols);
    worker.send_request(&apps);
    worker.request_sent(false);
    assert_eq!(worker.action(), ProtocolAction::Lookup);
    apps.insert("echo".to_string(), ConnId(31));
    worker.send_request(&apps);
    assert_eq!(
        worker.action(),
        ProtocolAction::Forward { stream: ConnId(31), request: read("http", "echo", vec![1]) }
    );
    worker.request_sent(true);
    assert_eq!(worker.action(), ProtocolAction::ReadResponse { stream: ConnId(31) });
}

#[test]
fn request_is_dropped_after_three_failed_writes_to_the_app() {
    let mut protocols = StreamMap::new();
    let mut apps = StreamMap::new();
    apps.insert("echo".to_string(), ConnId(30));
    let mut worker = relaying(ConnId(1), "http", &mut protocols);
    worker.request_read(Some(read("http", "echo", vec![1])));
    worker.pool_request(&protocols);
    let mut attempts = 0;
    while worker.action() == ProtocolAction::Lookup {
        worker.send_request(&apps);
        assert_eq!(
            worker.action(),
            ProtocolAction::Forward { stream: ConnId(30), request: read("http", "echo", vec![1]) }
        );
        worker.request_sent(false);
        attempts += 1;
    }
    assert_eq!(attempts, 3);
    assert_eq!(worker.action(), ProtocolAction::ReadRequest);
}

#[test]
fn lookups_and_writes_share_one_budget() {
    let mut protocols = StreamMap::new();
    let mut apps = StreamMap::new();
    let mut worker = relaying(ConnId(1), "http", &mut protocols);
    worker.request_read(Some(read("http", "echo", vec![1])));
    worker.pool_request(&protocols);
    worker.send_request(&apps);
    assert_eq!(worker.action(), ProtocolAction::Lookup);
    apps.insert("echo".to_string(), ConnId(30));
    worker.send_request(&apps);
    worker.request_sent(false);
    assert_eq!(worker.action(), ProtocolAction::Lookup);
    worker.send_request(&apps);
    worker.request_sent(false);
    assert_eq!(worker.action(), ProtocolAction::ReadRequest);
}

#[test]
fn response_is_read_up_to_three_times() {
    let mut protocols = StreamMap::new();
    let mut apps = StreamMap::new();
    apps.insert("echo".to_string(), ConnId(30));
    let mut worker = relaying(ConnId(1), "http", &mut protocols);
    worker.request_read(Some(read("http", "echo", vec![1])));
    worker.pool_request(&protocols);
    worker.send_request(&apps);
    worker.request_sent(true);
    worker.pool_response(None);
    assert_eq!(worker.action(), ProtocolAction::ReadResponse { stream: ConnId(30) });
    worker.pool_response(None);
    assert_eq!(worker.action(), ProtocolAction::ReadResponse { stream: ConnId(30) });
    worker.pool_response(Some(Response::Success(vec![2])));
    assert_eq!(worker.action(), ProtocolAction::Return(Response::Success(vec![2])));
}

#[test]
fn request_is_dropped_after_three_failed_reads_of_the_response() {
    let mut protocols = StreamMap::new();
    let mut apps = StreamMap::new();
    apps.insert("echo".to_string(), ConnId(30));
    let mut worker = relaying(ConnId(1), "http", &mut protocols);
    worker.request_read(Some(read("http", "echo", vec![1])));
    worker.pool_request(&protocols);
    worker.send_request(&apps);
    worker.request_sent(true);
    worker.pool_response(None);
    worker.pool_response(None);
    worker.pool_response(None);
    assert_eq!(worker.action(), ProtocolAction::ReadRequest);
    worker.pool_response(Some(Response::Success(vec![2])));
    assert_eq!(worker.action(), ProtocolAction::ReadRequest);
}

#[test]
fn response_is_written_up_to_three_times() {
    let mut protocols = StreamMap::new();
    let mut apps = StreamMap::new();
    apps.insert("echo".to_string(), ConnId(30));
    let mut worker = relaying(ConnId(1), "http", &mut protocols);
    worker.request_read(Some(read("http", "echo", vec![1])));
    worker.pool_request(&protocols);
    worker.send_request(&apps);
    worker.request_sent(true);
    worker.pool_response(Some(Response::Success(vec![2])));
    worker.send_response(false);
    assert_eq!(worker.action(), ProtocolAction::Return(Response::Success(vec![2])));
    worker.send_response(false);
    assert_eq!(worker.action(), ProtocolAction::Return(Response::Success(vec![2])));
    worker.send_response(false);
    assert_eq!(worker.action(), ProtocolAction::ReadRequest);
}

#[test]
fn each_retried_step_starts_with_a_full_budget() {
    let mut protocols = StreamMap::new();
    let mut apps = StreamMap::new();
    apps.insert("echo".to_string(), ConnId(30));
    let mut worker = relaying(ConnId(1), "http", &mut protocols);
    worker.request_read(Some(read("http", "echo", vec![1])));
    worker.pool_request(&protocols);
    worker.send_request(&apps);
    worker.request_sent(false);
    worker.send_request(&apps);
    worker.request_sent(false);
    worker.send_request(&apps);
    worker.request_sent(true);
    worker.pool_response(None);
    worker.pool_response(None);
    worker.pool_response(Some(Response::Success(vec![2])));
    worker.send_response(false);
    worker.send_response(false);
    assert_eq!(worker.action(), ProtocolAction::Return(Response::Success(vec![2])));
    worker.send_response(true);
    assert_eq!(worker.action(), ProtocolAction::ReadRequest);
}

#[test]
fn protocol_worker_ignores_what_it_did_not_ask_for() {
    let mut protocols = StreamMap::new();
    let apps = StreamMap::new();
    let mut worker = ProtocolWorker::new(ConnId(1));
    worker.register_protocol_client(&mut protocols);
    worker.acknowledged(true);
    worker.request_read(Some(read("http", "echo", vec![1])));
    worker.pool_request(&protocols);
    worker.send_request(&apps);
    worker.request_sent(true);
    worker.pool_response(Some(Response::Success(vec![])));
    worker.send_response(true);
    assert_eq!(worker.action(), ProtocolAction::ReadName);
    assert_eq!(protocols.len(), 0);
    let mut worker = relaying(ConnId(1), "http", &mut protocols);
    worker.name_read(None);
    worker.acknowledged(false);
    worker.register_protocol_client(&mut protocols);
    assert_eq!(worker.action(), ProtocolAction::ReadRequest);
    assert_eq!(protocols.len(), 1);
}

#[test]
fn responses_pair_with_requests_in_order() {
    let mut protocols = StreamMap::new();
    let mut apps = StreamMap::new();
    apps.insert("echo".to_string(), ConnId(30));
    apps.insert("store".to_string(), ConnId(31));
    let mut worker = relaying(ConnId(1), "http", &mut protocols);
    let requests = vec![
        read("http", "echo", vec![1]),
        write("http", "store", vec![2]),
        read("http", "echo", vec![3]),
    ];
    let mut forwarded: Vec<(ConnId, Request)> = Vec::new();
    let mut returned: Vec<Response> = Vec::new();
    for request in requests {
        let answer = match &request {
            Request::Read { payload, .. } => Response::Success(payload.clone()),
            Request::Write { payload, .. } => Response::Failure(payload.clone()),
        };
        worker.request_read(Some(request));
        worker.pool_request(&protocols);
        worker.send_request(&apps);
        match worker.action() {
            ProtocolAction::Forward { stream, request } => forwarded.push((stream, request)),
            other => panic!("asked for {:?}", other),
        }
        worker.request_sent(true);
        worker.pool_response(Some(answer));
        match worker.action() {
            ProtocolAction::Return(response) => returned.push(response),
            other => panic!("asked for {:?}", other),
        }
        worker.send_response(true);
    }
    assert_eq!(
        forwarded,
        vec![
            (ConnId(30), read("http", "echo", vec![1])),
            (ConnId(31), write("http", "store", vec![2])),
            (ConnId(30), read("http", "echo", vec![3])),
        ]
    );
    assert_eq!(
        returned,
        vec![
            Response::Success(vec![1]),
            Response::Failure(vec![2]),
            Response::Success(vec![3]),
        ]
    );
}

#[test]
fn request_names_are_read_from_either_kind() {
    let request = read("http", "echo", vec![]);
    assert_eq!(request.protocol_name(), "http");
    assert_eq!(request.app_name(), "echo");
    let request = write("grpc", "store", vec![]);
    assert_eq!(request.protocol_name(), "grpc");
    assert_eq!(request.app_name(), "store");
}

#[test]
fn messages_clone_to_equal_messages() {
    let request = write("grpc", "store", vec![1, 2, 3]);
    assert_eq!(request.clone(), request);
    let response = Response::Failure(vec![4]);
    assert_eq!(response.clone(), response);
}
