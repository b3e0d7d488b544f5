//! The worker that serves one protocol client: it registers the client under
//! the name it sends, then relays its requests to the apps they name and the
//! apps' responses back.
//!
//! The worker does no I/O and takes no lock itself. Its state says which one
//! operation comes next ([`ProtocolWorker::action`]); whoever runs the worker
//! performs it and reports the outcome through the method for that operation.
//! An outcome reported in a state that did not ask for it changes nothing.

pub mod laws;

use crate::types::message::{frame_view, Request, RequestView, Response, ResponseView};
use crate::types::stream_map::{ConnId, StreamMap};
use crate::util::retry::RETRY_LIMIT;
use vstd::prelude::*;

verus! {

/// Where a protocol worker stands, as plain values.
pub enum ProtocolStateView {
    /// The client's name has not come yet.
    Registering,
    /// The name has come and is to be claimed in the protocol registry.
    Claiming { name: Seq<char> },
    /// The client is registered and its acknowledgement is being written.
    Acknowledging,
    /// The next request is awaited.
    AwaitingRequest,
    /// A request has come whose sender is to be checked against the protocol
    /// registry.
    Validating { request: RequestView },
    /// The request's app is to be looked up, after `failures` failed attempts
    /// to forward the request.
    Forwarding { request: RequestView, failures: int },
    /// The request is being written to the app's connection.
    Sending { request: RequestView, stream: ConnId, failures: int },
    /// The app's response is awaited, after `failures` failed reads.
    AwaitingResponse { stream: ConnId, failures: int },
    /// The response is being written to the client, after `failures` failed
    /// writes.
    Returning { response: ResponseView, failures: int },
    /// The worker has ended.
    Terminated,
}

/// The one operation that a protocol worker asks for, as plain values.
pub enum ProtocolActionView {
    ReadName,
    Claim,
    Acknowledge(ResponseView),
    ReadRequest,
    Validate,
    Lookup,
    Forward { stream: ConnId, request: RequestView },
    ReadResponse { stream: ConnId },
    Return(ResponseView),
    Close,
}

/// The state after one more failed attempt at a retried step that had failed
/// `failures` times before: `again` while the retry limit allows another
/// attempt, else the request is given up and the next one awaited.
pub open spec fn retry_or_skip(failures: int, again: ProtocolStateView) -> ProtocolStateView {
    if failures + 1 < RETRY_LIMIT {
        again
    } else {
        ProtocolStateView::AwaitingRequest
    }
}

impl ProtocolStateView {
    /// The count of failed attempts is within the retry limit.
    pub open spec fn wf(self) -> bool {
        match self {
            ProtocolStateView::Forwarding { failures, .. } => 0 <= failures < RETRY_LIMIT,
            ProtocolStateView::Sending { failures, .. } => 0 <= failures < RETRY_LIMIT,
            ProtocolStateView::AwaitingResponse { failures, .. } => 0 <= failures < RETRY_LIMIT,
            ProtocolStateView::Returning { failures, .. } => 0 <= failures < RETRY_LIMIT,
            _ => true,
        }
    }

    /// Whether the worker is past registration and relays requests.
    pub open spec fn relaying(self) -> bool {
        match self {
            ProtocolStateView::AwaitingRequest => true,
            ProtocolStateView::Validating { .. } => true,
            ProtocolStateView::Forwarding { .. } => true,
            ProtocolStateView::Sending { .. } => true,
            ProtocolStateView::AwaitingResponse { .. } => true,
            ProtocolStateView::Returning { .. } => true,
            _ => false,
        }
    }

    /// The operation that the state asks for.
    pub open spec fn action(self) -> ProtocolActionView {
        match self {
            ProtocolStateView::Registering => ProtocolActionView::ReadName,
            ProtocolStateView::Claiming { .. } => ProtocolActionView::Claim,
            ProtocolStateView::Acknowledging => ProtocolActionView::Acknowledge(
                Response::ack_spec(),
            ),
            ProtocolStateView::AwaitingRequest => ProtocolActionView::ReadRequest,
            ProtocolStateView::Validating { .. } => ProtocolActionView::Validate,
            ProtocolStateView::Forwarding { .. } => ProtocolActionView::Lookup,
            ProtocolStateView::Sending { request, stream, .. } => ProtocolActionView::Forward {
                stream,
                request,
            },
            ProtocolStateView::AwaitingResponse { stream, .. } => ProtocolActionView::ReadResponse {
                stream,
            },
            ProtocolStateView::Returning { response, .. } => ProtocolActionView::Return(response),
            ProtocolStateView::Terminated => ProtocolActionView::Close,
        }
    }

    /// The state once the client's first frame was read: a frame that is no
    /// name ends the worker.
    pub open spec fn name_read(self, frame: Option<Seq<char>>) -> ProtocolStateView {
        match (self, frame) {
            (ProtocolStateView::Registering, Some(name)) => ProtocolStateView::Claiming { name },
            (ProtocolStateView::Registering, None) => ProtocolStateView::Terminated,
            _ => self,
        }
    }

    /// The state and the protocol registry once the name was claimed for
    /// `stream`: a name that is taken ends the worker and leaves the registry
    /// as it was.
    pub open spec fn register_protocol_client(
        self,
        stream: ConnId,
        protocol_streams: Map<Seq<char>, ConnId>,
    ) -> (ProtocolStateView, Map<Seq<char>, ConnId>) {
        match self {
            ProtocolStateView::Claiming { name } => if protocol_streams.contains_key(name) {
                (ProtocolStateView::Terminated, protocol_streams)
            } else {
                (ProtocolStateView::Acknowledging, protocol_streams.insert(name, stream))
            },
            _ => (self, protocol_streams),
        }
    }

    /// The state once the acknowledgement was written, or could not be.
    pub open spec fn acknowledged(self, written: bool) -> ProtocolStateView {
        match self {
            ProtocolStateView::Acknowledging => if written {
                ProtocolStateView::AwaitingRequest
            } else {
                ProtocolStateView::Terminated
            },
            _ => self,
        }
    }

    /// The state once a request frame was read: a frame that is no request
    /// is passed over.
    pub open spec fn request_read(self, frame: Option<RequestView>) -> ProtocolStateView {
        match (self, frame) {
            (ProtocolStateView::AwaitingRequest, Some(request)) => ProtocolStateView::Validating {
                request,
            },
            _ => self,
        }
    }

    /// The state once the request's sender was checked: a request from a
    /// name that is not registered is passed over.
    pub open spec fn pool_request(
        self,
        protocol_streams: Map<Seq<char>, ConnId>,
    ) -> ProtocolStateView {
        match self {
            ProtocolStateView::Validating { request } => if protocol_streams.contains_key(
                request.protocol_name(),
            ) {
                ProtocolStateView::Forwarding { request, failures: 0 }
            } else {
                ProtocolStateView::AwaitingRequest
            },
            _ => self,
        }
    }

    /// The state once the request's app was looked up: an app that is not
    /// registered counts as a failed attempt.
    pub open spec fn send_request(self, app_streams: Map<Seq<char>, ConnId>) -> ProtocolStateView {
        match self {
            ProtocolStateView::Forwarding { request, failures } => if app_streams.contains_key(
                request.app_name(),
            ) {
                ProtocolStateView::Sending {
                    request,
                    stream: app_streams[request.app_name()],
                    failures,
                }
            } else {
                retry_or_skip(
                    failures,
                    ProtocolStateView::Forwarding { request, failures: failures + 1 },
                )
            },
            _ => self,
        }
    }

    /// The state once the request was written to the app, or could not be:
    /// after a failed write the app is looked up anew.
    pub open spec fn request_sent(self, written: bool) -> ProtocolStateView {
        match self {
            ProtocolStateView::Sending { request, stream, failures } => if written {
                ProtocolStateView::AwaitingResponse { stream, failures: 0 }
            } else {
                retry_or_skip(
                    failures,
                    ProtocolStateView::Forwarding { request, failures: failures + 1 },
                )
            },
            _ => self,
        }
    }

    /// The state once a frame of the app was read, or could not be.
    pub open spec fn pool_response(self, frame: Option<ResponseView>) -> ProtocolStateView {
        match self {
            ProtocolStateView::AwaitingResponse { stream, failures } => match frame {
                Some(response) => ProtocolStateView::Returning { response, failures: 0 },
                None => retry_or_skip(
                    failures,
                    ProtocolStateView::AwaitingResponse { stream, failures: failures + 1 },
                ),
            },
            _ => self,
        }
    }

    /// The state once the response was written to the client, or could not
    /// be.
    pub open spec fn send_response(self, written: bool) -> ProtocolStateView {
        match self {
            ProtocolStateView::Returning { response, failures } => if written {
                ProtocolStateView::AwaitingRequest
            } else {
                retry_or_skip(
                    failures,
                    ProtocolStateView::Returning { response, failures: failures + 1 },
                )
            },
            _ => self,
        }
    }
}

/// The one operation that a protocol worker asks for.
#[derive(Clone, Debug, PartialEq, Eq)]
pub enum ProtocolAction {
    /// Read one frame from the client and parse it as its UTF-8 name.
    ReadName,
    /// Take the write lock of the protocol registry and claim the name.
    Claim,
    /// Write the response to the client as its acknowledgement.
    Acknowledge(Response),
    /// Read one frame from the client and parse it as a request.
    ReadRequest,
    /// Take a read lock of the protocol registry and check the sender.
    Validate,
    /// Take a read lock of the app registry and look the app up.
    Lookup,
    /// Write the request to the app's connection.
    Forward { stream: ConnId, request: Request },
    /// Read one frame from the app's connection as its response.
    ReadResponse { stream: ConnId },
    /// Write the response to the client.
    Return(Response),
    /// Drop the worker's handle on the connection: the worker has ended.
    Close,
}

impl View for ProtocolAction {
    type V = ProtocolActionView;

    open spec fn view(&self) -> ProtocolActionView {
        match self {
            ProtocolAction::ReadName => ProtocolActionView::ReadName,
            ProtocolAction::Claim => ProtocolActionView::Claim,
            ProtocolAction::Acknowledge(response) => ProtocolActionView::Acknowledge(response@),
            ProtocolAction::ReadRequest => ProtocolActionView::ReadRequest,
            ProtocolAction::Validate => ProtocolActionView::Validate,
            ProtocolAction::Lookup => ProtocolActionView::Lookup,
            ProtocolAction::Forward { stream, request } => ProtocolActionView::Forward {
                stream: *stream,
                request: request@,
            },
            ProtocolAction::ReadResponse { stream } => ProtocolActionView::ReadResponse {
                stream: *stream,
            },
            ProtocolAction::Return(response) => ProtocolActionView::Return(response@),
            ProtocolAction::Close => ProtocolActionView::Close,
        }
    }
}

enum ProtocolState {
    Registering,
    Claiming { name: String },
    Acknowledging,
    AwaitingRequest,
    Validating { request: Request },
    Forwarding { request: Request, failures: i32 },
    Sending { request: Request, stream: ConnId, failures: i32 },
    AwaitingResponse { stream: ConnId, failures: i32 },
    Returning { response: Response, failures: i32 },
    Terminated,
}

impl View for ProtocolState {
    type V = ProtocolStateView;

    closed spec fn view(&self) -> ProtocolStateView {
        match self {
            ProtocolState::Registering => ProtocolStateView::Registering,
            ProtocolState::Claiming { name } => ProtocolStateView::Claiming { name: name@ },
            ProtocolState::Acknowledging => ProtocolStateView::Acknowledging,
            ProtocolState::AwaitingRequest => ProtocolStateView::AwaitingRequest,
            ProtocolState::Validating { request } => ProtocolStateView::Validating {
                request: request@,
            },
            ProtocolState::Forwarding { request, failures } => ProtocolStateView::Forwarding {
                request: request@,
                failures: *failures as int,
            },
            ProtocolState::Sending { request, stream, failures } => ProtocolStateView::Sending {
                request: request@,
                stream: *stream,
                failures: *failures as int,
            },
            ProtocolState::AwaitingResponse { stream, failures } => {
                ProtocolStateView::AwaitingResponse { stream: *stream, failures: *failures as int }
            },
            ProtocolState::Returning { response, failures } => ProtocolStateView::Returning {
                response: response@,
                failures: *failures as int,
            },
            ProtocolState::Terminated => ProtocolStateView::Terminated,
        }
    }
}

/// The worker of one protocol client.
pub struct ProtocolWorker {
    stream: ConnId,
    state: ProtocolState,
}

impl View for ProtocolWorker {
    type V = ProtocolStateView;

    /// Where the worker stands.
    closed spec fn view(&self) -> ProtocolStateView {
        self.state@
    }
}

impl ProtocolWorker {
    /// The connection of the client that the worker serves.
    pub closed spec fn stream_spec(&self) -> ConnId {
        self.stream
    }

    /// A worker for the client that was accepted on `stream`.
    pub fn new(stream: ConnId) -> (worker: ProtocolWorker)
        ensures
            worker@ == ProtocolStateView::Registering,
            worker.stream_spec() == stream,
    {
        ProtocolWorker { stream, state: ProtocolState::Registering }
    }

    /// The connection of the client that the worker serves.
    #[verifier::when_used_as_spec(stream_spec)]
    pub fn stream(&self) -> (stream: ConnId)
        ensures
            stream == self.stream_spec(),
    {
        self.stream
    }

    /// The operation that the worker asks for.
    pub fn action(&self) -> (action: ProtocolAction)
        ensures
            action@ == self@.action(),
    {
        match &self.state {
            ProtocolState::Registering => ProtocolAction::ReadName,
            ProtocolState::Claiming { .. } => ProtocolAction::Claim,
            ProtocolState::Acknowledging => ProtocolAction::Acknowledge(Response::ack()),
            ProtocolState::AwaitingRequest => ProtocolAction::ReadRequest,
            ProtocolState::Validating { .. } => ProtocolAction::Validate,
            ProtocolState::Forwarding { .. } => ProtocolAction::Lookup,
            ProtocolState::Sending { request, stream, .. } => ProtocolAction::Forward {
                stream: *stream,
                request: request.clone(),
            },
            ProtocolState::AwaitingResponse { stream, .. } => ProtocolAction::ReadResponse {
                stream: *stream,
            },
            ProtocolState::Returning { response, .. } => ProtocolAction::Return(response.clone()),
            ProtocolState::Terminated => ProtocolAction::Close,
        }
    }

    fn take(&mut self) -> (state: ProtocolState)
        ensures
            state@ == old(self)@,
            final(self).stream == old(self).stream,
    {
        let mut state = ProtocolState::Terminated;
        core::mem::swap(&mut self.state, &mut state);
        state
    }

    /// Reports the client's first frame: its name, or `None` where the frame
    /// could not be read or is no UTF-8 text.
    pub fn name_read(&mut self, frame: Option<String>)
        ensures
            final(self)@ == old(self)@.name_read(frame_view(frame)),
            final(self).stream() == old(self).stream(),
    {
        let state = self.take();
        self.state = match (state, frame) {
            (ProtocolState::Registering, Some(name)) => ProtocolState::Claiming { name },
            (ProtocolState::Registering, None) => ProtocolState::Terminated,
            (state, _) => state,
        };
    }

    /// Claims the name for the client in the protocol registry, under that
    /// registry's write lock. A name that is taken is not claimed again: the
    /// worker ends, and the registry stays as it was.
    pub fn register_protocol_client(&mut self, protocol_streams: &mut StreamMap)
        ensures
            (final(self)@, final(protocol_streams)@) == old(self)@.register_protocol_client(
                old(self).stream(),
                old(protocol_streams)@,
            ),
            final(self).stream() == old(self).stream(),
    {
        let state = self.take();
        self.state = match state {
            ProtocolState::Claiming { name } => {
                if protocol_streams.contains_key(name.as_str()) {
                    ProtocolState::Terminated
                } else {
                    protocol_streams.insert(name, self.stream);
                    ProtocolState::Acknowledging
                }
            },
            state => state,
        };
    }

    /// Reports whether the acknowledgement was written to the client.
    pub fn acknowledged(&mut self, written: bool)
        ensures
            final(self)@ == old(self)@.acknowledged(written),
            final(self).stream() == old(self).stream(),
    {
        let state = self.take();
        self.state = match state {
            ProtocolState::Acknowledging => if written {
                ProtocolState::AwaitingRequest
            } else {
                ProtocolState::Terminated
            },
            state => state,
        };
    }

    /// Reports the next frame of the client: a request, or `None` where the
    /// frame could not be read or is no request.
    pub fn request_read(&mut self, frame: Option<Request>)
        ensures
            final(self)@ == old(self)@.request_read(frame_view(frame)),
            final(self).stream() == old(self).stream(),
    {
        let state = self.take();
        self.state = match (state, frame) {
            (ProtocolState::AwaitingRequest, Some(request)) => ProtocolState::Validating {
                request,
            },
            (state, _) => state,
        };
    }

    /// Checks the request's sender against the protocol registry, under a
    /// read lock of it.
    pub fn pool_request(&mut self, protocol_streams: &StreamMap)
        ensures
            final(self)@ == old(self)@.pool_request(protocol_streams@),
            final(self).stream() == old(self).stream(),
    {
        let state = self.take();
        self.state = match state {
            ProtocolState::Validating { request } => {
                if protocol_streams.contains_key(request.protocol_name().as_str()) {
                    ProtocolState::Forwarding { request, failures: 0 }
                } else {
                    ProtocolState::AwaitingRequest
                }
            },
            state => state,
        };
    }

    /// Looks the request's app up in the app registry, under a read lock of
    /// it. The registry is read anew at every attempt, so an app that
    /// registers between two attempts is found by the later one.
    pub fn send_request(&mut self, app_streams: &StreamMap)
        ensures
            final(self)@ == old(self)@.send_request(app_streams@),
            final(self).stream() == old(self).stream(),
    {
        let state = self.take();
        self.state = match state {
            ProtocolState::Forwarding { request, failures } => {
                match app_streams.get(request.app_name().as_str()) {
                    Some(stream) => ProtocolState::Sending { request, stream, failures },
                    None => if may_retry(failures) {
                        ProtocolState::Forwarding { request, failures: failures + 1 }
                    } else {
                        ProtocolState::AwaitingRequest
                    },
                }
            },
            state => state,
        };
    }

    /// Reports whether the request was written to the app's connection.
    pub fn request_sent(&mut self, written: bool)
        ensures
            final(self)@ == old(self)@.request_sent(written),
            final(self).stream() == old(self).stream(),
    {
        let state = self.take();
        self.state = match state {
            ProtocolState::Sending { request, stream, failures } => if written {
                ProtocolState::AwaitingResponse { stream, failures: 0 }
            } else if may_retry(failures) {
                ProtocolState::Forwarding { request, failures: failures + 1 }
            } else {
                ProtocolState::AwaitingRequest
            },
            state => state,
        };
    }

    /// Reports the frame read from the app's connection: its response, or
    /// `None` where no frame could be read.
    pub fn pool_response(&mut self, frame: Option<Response>)
        ensures
            final(self)@ == old(self)@.pool_response(frame_view(frame)),
            final(self).stream() == old(self).stream(),
    {
        let state = self.take();
        self.state = match state {
            ProtocolState::AwaitingResponse { stream, failures } => match frame {
                Some(response) => ProtocolState::Returning { response, failures: 0 },
                None => if may_retry(failures) {
                    ProtocolState::AwaitingResponse { stream, failures: failures + 1 }
                } else {
                    ProtocolState::AwaitingRequest
                },
            },
            state => state,
        };
    }

    /// Reports whether the response was written to the client.
    pub fn send_response(&mut self, written: bool)
        ensures
            final(self)@ == old(self)@.send_response(written),
            final(self).stream() == old(self).stream(),
    {
        let state = self.take();
        self.state = match state {
            ProtocolState::Returning { response, failures } => if written {
                ProtocolState::AwaitingRequest
            } else if may_retry(failures) {
                ProtocolState::Returning { response, failures: failures + 1 }
            } else {
                ProtocolState::AwaitingRequest
            },
            state => state,
        };
    }
}

/// Whether a retried step that has failed `failures` times and once more
/// gets another attempt.
fn may_retry(failures: i32) -> (again: bool)
    ensures
        again == (failures + 1 < RETRY_LIMIT),
{
    failures < RETRY_LIMIT - 1
}

} // verus!
