//! The messages that the broker routes. Payload bytes are opaque to it.

use vstd::prelude::*;

verus! {

/// What was read from a connection, as plain values: `None` where the frame
/// could not be read or parsed.
pub open spec fn frame_view<T: View>(frame: Option<T>) -> Option<T::V> {
    match frame {
        Some(value) => Some(value@),
        None => None,
    }
}

/// What a request is, as plain values.
pub enum RequestView {
    Read { protocol_name: Seq<char>, app_name: Seq<char>, payload: Seq<u8> },
    Write { protocol_name: Seq<char>, app_name: Seq<char>, payload: Seq<u8> },
}

impl RequestView {
    /// The name of the protocol client that the request comes from.
    pub open spec fn protocol_name(self) -> Seq<char> {
        match self {
            RequestView::Read { protocol_name, .. } => protocol_name,
            RequestView::Write { protocol_name, .. } => protocol_name,
        }
    }

    /// The name of the app that the request is for.
    pub open spec fn app_name(self) -> Seq<char> {
        match self {
            RequestView::Read { app_name, .. } => app_name,
            RequestView::Write { app_name, .. } => app_name,
        }
    }
}

/// A request of a protocol client to an app.
#[derive(Debug, PartialEq, Eq)]
pub enum Request {
    Read { protocol_name: String, app_name: String, payload: Vec<u8> },
    Write { protocol_name: String, app_name: String, payload: Vec<u8> },
}

impl View for Request {
    type V = RequestView;

    open spec fn view(&self) -> RequestView {
        match self {
            Request::Read { protocol_name, app_name, payload } => RequestView::Read {
                protocol_name: protocol_name@,
                app_name: app_name@,
                payload: payload@,
            },
            Request::Write { protocol_name, app_name, payload } => RequestView::Write {
                protocol_name: protocol_name@,
                app_name: app_name@,
                payload: payload@,
            },
        }
    }
}

impl Request {
    /// The name of the protocol client that the request comes from.
    pub fn protocol_name(&self) -> (name: &String)
        ensures
            name@ == self@.protocol_name(),
    {
        match self {
            Request::Read { protocol_name, .. } => protocol_name,
            Request::Write { protocol_name, .. } => protocol_name,
        }
    }

    /// The name of the app that the request is for.
    pub fn app_name(&self) -> (name: &String)
        ensures
            name@ == self@.app_name(),
    {
        match self {
            Request::Read { app_name, .. } => app_name,
            Request::Write { app_name, .. } => app_name,
        }
    }
}

impl Clone for Request {
    fn clone(&self) -> (copy: Request)
        ensures
            copy@ == self@,
    {
        match self {
            Request::Read { protocol_name, app_name, payload } => Request::Read {
                protocol_name: protocol_name.clone(),
                app_name: app_name.clone(),
                payload: payload.clone(),
            },
            Request::Write { protocol_name, app_name, payload } => Request::Write {
                protocol_name: protocol_name.clone(),
                app_name: app_name.clone(),
                payload: payload.clone(),
            },
        }
    }
}

/// What a response is, as plain values.
pub enum ResponseView {
    Success(Seq<u8>),
    Failure(Seq<u8>),
}

/// The answer of an app to a request, or the broker's own acknowledgement.
#[derive(Debug, PartialEq, Eq)]
pub enum Response {
    Success(Vec<u8>),
    Failure(Vec<u8>),
}

impl View for Response {
    type V = ResponseView;

    open spec fn view(&self) -> ResponseView {
        match self {
            Response::Success(payload) => ResponseView::Success(payload@),
            Response::Failure(payload) => ResponseView::Failure(payload@),
        }
    }
}

impl Response {
    /// The acknowledgement that a client gets once it is registered.
    pub open spec fn ack_spec() -> ResponseView {
        ResponseView::Success(Seq::empty())
    }

    /// The acknowledgement that a client gets once it is registered: a
    /// success without payload.
    pub fn ack() -> (response: Response)
        ensures
            response@ == Response::ack_spec(),
    {
        Response::Success(Vec::new())
    }
}

impl Clone for Response {
    fn clone(&self) -> (copy: Response)
        ensures
            copy@ == self@,
    {
        match self {
            Response::Success(payload) => Response::Success(payload.clone()),
            Response::Failure(payload) => Response::Failure(payload.clone()),
        }
    }
}

/// What an app's metadata is, as plain values.
pub struct AppMetadataView {
    pub name: Seq<char>,
    pub bytes: Seq<u8>,
}

/// What an app sends when it connects: its name, and the whole of it as the
/// bytes that event subscribers get.
#[derive(Debug, PartialEq, Eq)]
pub struct AppMetadata {
    pub name: String,
    pub bytes: Vec<u8>,
}

impl View for AppMetadata {
    type V = AppMetadataView;

    open spec fn view(&self) -> AppMetadataView {
        AppMetadataView { name: self.name@, bytes: self.bytes@ }
    }
}

impl Clone for AppMetadata {
    fn clone(&self) -> (copy: AppMetadata)
        ensures
            copy@ == self@,
    {
        AppMetadata { name: self.name.clone(), bytes: self.bytes.clone() }
    }
}

impl From<AppMetadata> for Vec<u8> {
    /// The metadata as the bytes that event subscribers get.
    fn from(metadata: AppMetadata) -> (bytes: Vec<u8>) {
        metadata.bytes
    }
}

impl vstd::std_specs::convert::FromSpecImpl<AppMetadata> for Vec<u8> {
    open spec fn obeys_from_spec() -> bool {
        true
    }

    open spec fn from_spec(metadata: AppMetadata) -> Vec<u8> {
        metadata.bytes
    }
}

} // verus!
