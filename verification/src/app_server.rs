//! The worker that registers one app, and the listener that registers event
//! subscribers.
//!
//! Like the protocol worker, the app worker does no I/O and takes no lock
//! itself: its state says which one operation comes next
//! ([`AppWorker::action`]), and the outcome of that operation is reported
//! through the method for it. An outcome reported in a state that did not
//! ask for it changes nothing.

pub mod laws;

use crate::types::message::{frame_view, AppMetadata, AppMetadataView, Response, ResponseView};
use crate::types::stream_map::{ConnId, StreamMap};
use crate::util::retry::RETRY_LIMIT;
use vstd::prelude::*;

verus! {

/// Where an app worker stands, as plain values.
pub enum AppStateView {
    /// The app's metadata is awaited, after `failures` frames that could
    /// not be read or parsed.
    ReadingMetadata { failures: int },
    /// The metadata has come and the app is to be entered in the app
    /// registry.
    Registering { metadata: AppMetadataView },
    /// The app is registered and its acknowledgement is being written.
    Acknowledging { metadata: AppMetadataView },
    /// The metadata is to be sent to the event subscribers.
    Publishing { metadata: AppMetadataView },
    /// The worker has ended.
    Terminated,
}

/// The one operation that an app worker asks for, as plain values.
pub enum AppActionView {
    ReadMetadata,
    Register,
    Acknowledge(ResponseView),
    Publish(AppMetadataView),
    Close,
}

impl AppStateView {
    /// The count of failed reads is within the retry limit.
    pub open spec fn wf(self) -> bool {
        match self {
            AppStateView::ReadingMetadata { failures } => 0 <= failures < RETRY_LIMIT,
            _ => true,
        }
    }

    /// The operation that the state asks for.
    pub open spec fn action(self) -> AppActionView {
        match self {
            AppStateView::ReadingMetadata { .. } => AppActionView::ReadMetadata,
            AppStateView::Registering { .. } => AppActionView::Register,
            AppStateView::Acknowledging { .. } => AppActionView::Acknowledge(Response::ack_spec()),
            AppStateView::Publishing { metadata } => AppActionView::Publish(metadata),
            AppStateView::Terminated => AppActionView::Close,
        }
    }

    /// The state once a frame of the app was read: a frame that could not be
    /// read or is no metadata is read again while the retry limit allows it,
    /// and ends the worker after that.
    pub open spec fn metadata_read(self, frame: Option<AppMetadataView>) -> AppStateView {
        match self {
            AppStateView::ReadingMetadata { failures } => match frame {
                Some(metadata) => AppStateView::Registering { metadata },
                None => if failures + 1 < RETRY_LIMIT {
                    AppStateView::ReadingMetadata { failures: failures + 1 }
                } else {
                    AppStateView::Terminated
                },
            },
            _ => self,
        }
    }

    /// The state and the app registry once the app was entered for `stream`:
    /// an entry under the same name is replaced.
    pub open spec fn register_app_client(
        self,
        stream: ConnId,
        app_streams: Map<Seq<char>, ConnId>,
    ) -> (AppStateView, Map<Seq<char>, ConnId>) {
        match self {
            AppStateView::Registering { metadata } => (
                AppStateView::Acknowledging { metadata },
                app_streams.insert(metadata.name, stream),
            ),
            _ => (self, app_streams),
        }
    }

    /// The connection that the app registry lets go of when the app is
    /// entered: the one that was registered under the app's name before.
    pub open spec fn displaced(self, app_streams: Map<Seq<char>, ConnId>) -> Option<ConnId> {
        match self {
            AppStateView::Registering { metadata } => if app_streams.contains_key(metadata.name) {
                Some(app_streams[metadata.name])
            } else {
                None
            },
            _ => None,
        }
    }

    /// The state once the acknowledgement was written, or could not be.
    pub open spec fn acknowledged(self, written: bool) -> AppStateView {
        match self {
            AppStateView::Acknowledging { metadata } => if written {
                AppStateView::Publishing { metadata }
            } else {
                AppStateView::Terminated
            },
            _ => self,
        }
    }

    /// The state once the metadata went out to the event subscribers.
    pub open spec fn published(self) -> AppStateView {
        match self {
            AppStateView::Publishing { .. } => AppStateView::Terminated,
            _ => self,
        }
    }
}

/// The one operation that an app worker asks for.
#[derive(Clone, Debug, PartialEq, Eq)]
pub enum AppAction {
    /// Read one frame from the app and parse it as its metadata.
    ReadMetadata,
    /// Take the write lock of the app registry and enter the app.
    Register,
    /// Write the response to the app as its acknowledgement.
    Acknowledge(Response),
    /// Take a read lock of the event registry and write the metadata to
    /// every event subscriber.
    Publish(AppMetadata),
    /// Drop the worker's handle on the connection: the worker has ended.
    Close,
}

impl View for AppAction {
    type V = AppActionView;

    open spec fn view(&self) -> AppActionView {
        match self {
            AppAction::ReadMetadata => AppActionView::ReadMetadata,
            AppAction::Register => AppActionView::Register,
            AppAction::Acknowledge(response) => AppActionView::Acknowledge(response@),
            AppAction::Publish(metadata) => AppActionView::Publish(metadata@),
            AppAction::Close => AppActionView::Close,
        }
    }
}

enum AppState {
    ReadingMetadata { failures: i32 },
    Registering { metadata: AppMetadata },
    Acknowledging { metadata: AppMetadata },
    Publishing { metadata: AppMetadata },
    Terminated,
}

impl View for AppState {
    type V = AppStateView;

    closed spec fn view(&self) -> AppStateView {
        match self {
            AppState::ReadingMetadata { failures } => AppStateView::ReadingMetadata {
                failures: *failures as int,
            },
            AppState::Registering { metadata } => AppStateView::Registering {
                metadata: metadata@,
            },
            AppState::Acknowledging { metadata } => AppStateView::Acknowledging {
                metadata: metadata@,
            },
            AppState::Publishing { metadata } => AppStateView::Publishing { metadata: metadata@ },
            AppState::Terminated => AppStateView::Terminated,
        }
    }
}

/// The worker of one app.
pub struct AppWorker {
    stream: ConnId,
    state: AppState,
}

impl View for AppWorker {
    type V = AppStateView;

    /// Where the worker stands.
    closed spec fn view(&self) -> AppStateView {
        self.state@
    }
}

impl AppWorker {
    /// The connection of the app that the worker serves.
    pub closed spec fn stream_spec(&self) -> ConnId {
        self.stream
    }

    /// A worker for the app that was accepted on `stream`.
    pub fn new(stream: ConnId) -> (worker: AppWorker)
        ensures
            worker@ == (AppStateView::ReadingMetadata { failures: 0 }),
            worker.stream_spec() == stream,
    {
        AppWorker { stream, state: AppState::ReadingMetadata { failures: 0 } }
    }

    /// The connection of the app that the worker serves.
    #[verifier::when_used_as_spec(stream_spec)]
    pub fn stream(&self) -> (stream: ConnId)
        ensures
            stream == self.stream_spec(),
    {
        self.stream
    }

    /// The operation that the worker asks for.
    pub fn action(&self) -> (action: AppAction)
        ensures
            action@ == self@.action(),
    {
        match &self.state {
            AppState::ReadingMetadata { .. } => AppAction::ReadMetadata,
            AppState::Registering { .. } => AppAction::Register,
            AppState::Acknowledging { .. } => AppAction::Acknowledge(Response::ack()),
            AppState::Publishing { metadata } => AppAction::Publish(metadata.clone()),
            AppState::Terminated => AppAction::Close,
        }
    }

    fn take(&mut self) -> (state: AppState)
        ensures
            state@ == old(self)@,
            final(self).stream == old(self).stream,
    {
        let mut state = AppState::Terminated;
        core::mem::swap(&mut self.state, &mut state);
        state
    }

    /// Reports the frame read from the app: its metadata, or `None` where
    /// the frame could not be read or parsed.
    pub fn metadata_read(&mut self, frame: Option<AppMetadata>)
        ensures
            final(self)@ == old(self)@.metadata_read(frame_view(frame)),
            final(self).stream() == old(self).stream(),
    {
        let state = self.take();
        self.state = match state {
            AppState::ReadingMetadata { failures } => match frame {
                Some(metadata) => AppState::Registering { metadata },
                None => if failures < RETRY_LIMIT - 1 {
                    AppState::ReadingMetadata { failures: failures + 1 }
                } else {
                    AppState::Terminated
                },
            },
            state => state,
        };
    }

    /// Enters the app in the app registry under the name of its metadata,
    /// under that registry's write lock. The last writer wins: an app that
    /// comes back under its name replaces its earlier entry, and the
    /// connection of that entry is returned.
    pub fn register_app_client(&mut self, app_streams: &mut StreamMap) -> (displaced: Option<
        ConnId,
    >)
        ensures
            (final(self)@, final(app_streams)@) == old(self)@.register_app_client(
                old(self).stream(),
                old(app_streams)@,
            ),
            final(self).stream() == old(self).stream(),
            displaced == old(self)@.displaced(old(app_streams)@),
    {
        let state = self.take();
        match state {
            AppState::Registering { metadata } => {
                let displaced = app_streams.insert(metadata.name.clone(), self.stream);
                self.state = AppState::Acknowledging { metadata };
                displaced
            },
            state => {
                self.state = state;
                None
            },
        }
    }

    /// Reports whether the acknowledgement was written to the app. Where it
    /// was not, the worker ends and the app's entry stays in the registry.
    pub fn acknowledged(&mut self, written: bool)
        ensures
            final(self)@ == old(self)@.acknowledged(written),
            final(self).stream() == old(self).stream(),
    {
        let state = self.take();
        self.state = match state {
            AppState::Acknowledging { metadata } => if written {
                AppState::Publishing { metadata }
            } else {
                AppState::Terminated
            },
            state => state,
        };
    }

    /// Reports that the metadata went out to the event subscribers, whatever
    /// became of the writes.
    pub fn published(&mut self)
        ensures
            final(self)@ == old(self)@.published(),
            final(self).stream() == old(self).stream(),
    {
        let state = self.take();
        self.state = match state {
            AppState::Publishing { .. } => AppState::Terminated,
            state => state,
        };
    }
}

/// The decimal digit of `d`, for `d` below ten.
pub open spec fn digit(d: nat) -> char {
    if d == 0 {
        '0'
    } else if d == 1 {
        '1'
    } else if d == 2 {
        '2'
    } else if d == 3 {
        '3'
    } else if d == 4 {
        '4'
    } else if d == 5 {
        '5'
    } else if d == 6 {
        '6'
    } else if d == 7 {
        '7'
    } else if d == 8 {
        '8'
    } else {
        '9'
    }
}

/// `n` in decimal digits, the most significant first, without leading zeros.
pub open spec fn decimal(n: nat) -> Seq<char>
    decreases n,
{
    if n < 10 {
        seq![digit(n)]
    } else {
        decimal(n / 10).push(digit(n % 10))
    }
}

fn digit_str(d: u64) -> (text: &'static str)
    requires
        d < 10,
    ensures
        text@ == seq![digit(d as nat)],
{
    proof {
        reveal_strlit("0");
        reveal_strlit("1");
        reveal_strlit("2");
        reveal_strlit("3");
        reveal_strlit("4");
        reveal_strlit("5");
        reveal_strlit("6");
        reveal_strlit("7");
        reveal_strlit("8");
        reveal_strlit("9");
    }
    let text = if d == 0 {
        "0"
    } else if d == 1 {
        "1"
    } else if d == 2 {
        "2"
    } else if d == 3 {
        "3"
    } else if d == 4 {
        "4"
    } else if d == 5 {
        "5"
    } else if d == 6 {
        "6"
    } else if d == 7 {
        "7"
    } else if d == 8 {
        "8"
    } else {
        "9"
    };
    assert(text@ =~= seq![digit(d as nat)]);
    text
}

/// The name of the event subscriber that was accepted after `n` others: `n`
/// in decimal.
pub fn subscriber_name(n: u64) -> (name: String)
    ensures
        name@ == decimal(n as nat),
    decreases n,
{
    if n < 10 {
        String::from_str(digit_str(n))
    } else {
        let mut name = subscriber_name(n / 10);
        name.append(digit_str(n % 10));
        name
    }
}

/// The listener for event subscribers. It runs on one task, and numbers the
/// subscribers in the order in which it accepts them, from zero.
pub struct EventListener {
    accepted: u64,
}

impl View for EventListener {
    type V = nat;

    /// The number of subscribers accepted so far.
    closed spec fn view(&self) -> nat {
        self.accepted as nat
    }
}

impl EventListener {
    /// A listener that has accepted no subscriber yet.
    pub fn new() -> (listener: EventListener)
        ensures
            listener@ == 0,
    {
        EventListener { accepted: 0 }
    }

    /// The number of subscribers accepted so far.
    pub fn accepted(&self) -> (n: u64)
        ensures
            n == self@,
    {
        self.accepted
    }

    /// Enters the subscriber accepted on `stream` in the event registry,
    /// under that registry's write lock, and returns the name it got: the
    /// number of subscribers accepted before it, in decimal.
    pub fn register_event_client(&mut self, stream: ConnId, event_streams: &mut StreamMap) -> (name:
        String)
        requires
            old(self)@ < u64::MAX,
        ensures
            name@ == decimal(old(self)@),
            final(event_streams)@ == old(event_streams)@.insert(name@, stream),
            final(self)@ == old(self)@ + 1,
    {
        let name = subscriber_name(self.accepted);
        event_streams.insert(name.clone(), stream);
        self.accepted = self.accepted + 1;
        name
    }
}

} // verus!
