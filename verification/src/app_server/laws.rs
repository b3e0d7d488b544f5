//! What holds of every app worker and of the event listener, proved from
//! their transitions.

use crate::app_server::{decimal, AppActionView, AppStateView};
use crate::types::message::{AppMetadataView, Response};
use crate::types::stream_map::ConnId;
use crate::util::retry::{retry_spec, RETRY_LIMIT};
use vstd::prelude::*;

verus! {

/// The state of an app worker after it was told of `frames`, one read after
/// the other.
pub open spec fn metadata_frames_read(
    state: AppStateView,
    frames: Seq<Option<AppMetadataView>>,
) -> AppStateView
    decreases frames.len(),
{
    if frames.len() == 0 {
        state
    } else {
        metadata_frames_read(state.metadata_read(frames[0]), frames.drop_first())
    }
}

/// The app registry after the apps of `arrivals` were entered in it, the
/// earliest first: each arrival is a worker that has read its metadata and
/// registers its connection.
pub open spec fn apps_registered(
    app_streams: Map<Seq<char>, ConnId>,
    arrivals: Seq<(AppMetadataView, ConnId)>,
) -> Map<Seq<char>, ConnId>
    decreases arrivals.len(),
{
    if arrivals.len() == 0 {
        app_streams
    } else {
        (AppStateView::Registering { metadata: arrivals.last().0 }).register_app_client(
            arrivals.last().1,
            apps_registered(app_streams, arrivals.drop_last()),
        ).1
    }
}

/// The event registry after a listener that had accepted `first`
/// subscribers accepted those of `streams`, one after the other.
pub open spec fn subscribers_registered(
    event_streams: Map<Seq<char>, ConnId>,
    first: nat,
    streams: Seq<ConnId>,
) -> Map<Seq<char>, ConnId>
    decreases streams.len(),
{
    if streams.len() == 0 {
        event_streams
    } else {
        subscribers_registered(event_streams, first, streams.drop_last()).insert(
            decimal((first + streams.len() - 1) as nat),
            streams.last(),
        )
    }
}

/// The number that a decimal digit stands for.
pub open spec fn digit_value(c: char) -> nat {
    if c == '0' {
        0
    } else if c == '1' {
        1
    } else if c == '2' {
        2
    } else if c == '3' {
        3
    } else if c == '4' {
        4
    } else if c == '5' {
        5
    } else if c == '6' {
        6
    } else if c == '7' {
        7
    } else if c == '8' {
        8
    } else {
        9
    }
}

/// The number that a text of decimal digits stands for.
pub open spec fn decimal_value(text: Seq<char>) -> nat
    decreases text.len(),
{
    if text.len() == 0 {
        0
    } else {
        decimal_value(text.drop_last()) * 10 + digit_value(text.last())
    }
}

/// Every state that a worker reaches keeps its count of failed reads within
/// the retry limit.
pub proof fn lemma_wf_is_kept(
    state: AppStateView,
    frame: Option<AppMetadataView>,
    written: bool,
    stream: ConnId,
    app_streams: Map<Seq<char>, ConnId>,
)
    requires
        state.wf(),
    ensures
        state.metadata_read(frame).wf(),
        state.register_app_client(stream, app_streams).0.wf(),
        state.acknowledged(written).wf(),
        state.published().wf(),
{
}

/// The metadata is read under the retry policy. A worker that has failed
/// `failures` times and is told of `frames` stands where a retry with the
/// attempts that are left would: registering the first metadata among them,
/// ended where the limit was reached without one, and reading on otherwise.
pub proof fn lemma_metadata_read_under_retry(failures: int, frames: Seq<Option<AppMetadataView>>)
    requires
        0 <= failures < RETRY_LIMIT,
    ensures
        metadata_frames_read(AppStateView::ReadingMetadata { failures }, frames) == (
        match retry_spec(RETRY_LIMIT - failures, frames) {
            Some(metadata) => AppStateView::Registering { metadata },
            None => if failures + frames.len() >= RETRY_LIMIT {
                AppStateView::Terminated
            } else {
                AppStateView::ReadingMetadata { failures: failures + frames.len() }
            },
        }),
    decreases frames.len(),
{
    if frames.len() > 0 {
        let rest = frames.drop_first();
        match frames[0] {
            Some(metadata) => {
                lemma_metadata_frames_ignored(AppStateView::Registering { metadata }, rest);
            },
            None => {
                if failures + 1 < RETRY_LIMIT {
                    lemma_metadata_read_under_retry(failures + 1, rest);
                } else {
                    lemma_metadata_frames_ignored(AppStateView::Terminated, rest);
                    assert(retry_spec(RETRY_LIMIT - failures - 1, rest) is None);
                }
            },
        }
    }
}

/// Frames told to a worker that reads no metadata change nothing.
pub proof fn lemma_metadata_frames_ignored(
    state: AppStateView,
    frames: Seq<Option<AppMetadataView>>,
)
    requires
        !(state is ReadingMetadata),
    ensures
        metadata_frames_read(state, frames) == state,
    decreases frames.len(),
{
    if frames.len() > 0 {
        lemma_metadata_frames_ignored(state, frames.drop_first());
    }
}

/// The arrival at `at` is the latest one under `name`.
pub open spec fn is_latest_arrival(
    arrivals: Seq<(AppMetadataView, ConnId)>,
    name: Seq<char>,
    at: int,
) -> bool {
    &&& 0 <= at < arrivals.len()
    &&& arrivals[at].0.name == name
    &&& forall|later: int|
        at < later < arrivals.len() ==> (#[trigger] arrivals[later]).0.name != name
}

/// No app of `arrivals` came under `name`.
pub open spec fn never_arrived(arrivals: Seq<(AppMetadataView, ConnId)>, name: Seq<char>) -> bool {
    forall|i: int| 0 <= i < arrivals.len() ==> (#[trigger] arrivals[i]).0.name != name
}

/// The last writer wins. Whatever the app registry holds under a name after
/// some apps arrived is the connection of the latest arrival under that
/// name, or, where none arrived under it, what the registry held before.
pub proof fn lemma_app_registry_last_writer_wins(
    app_streams: Map<Seq<char>, ConnId>,
    arrivals: Seq<(AppMetadataView, ConnId)>,
    name: Seq<char>,
)
    requires
        apps_registered(app_streams, arrivals).contains_key(name),
    ensures
        never_arrived(arrivals, name) ==> app_streams.contains_key(name) && apps_registered(
            app_streams,
            arrivals,
        )[name] == app_streams[name],
        !never_arrived(arrivals, name) ==> exists|at: int| #[trigger]
            is_latest_arrival(arrivals, name, at) && apps_registered(app_streams, arrivals)[name]
                == arrivals[at].1,
    decreases arrivals.len(),
{
    if arrivals.len() > 0 {
        let earlier = arrivals.drop_last();
        let last = arrivals.len() - 1;
        if arrivals[last].0.name == name {
            assert(is_latest_arrival(arrivals, name, last));
        } else {
            lemma_app_registry_last_writer_wins(app_streams, earlier, name);
            if never_arrived(earlier, name) {
                assert forall|i: int| 0 <= i < arrivals.len() implies
                    (#[trigger] arrivals[i]).0.name != name by {
                    if i < last {
                        assert(arrivals[i] == earlier[i]);
                    }
                }
            } else {
                let at = choose|at: int| #[trigger]
                    is_latest_arrival(earlier, name, at) && apps_registered(
                        app_streams,
                        earlier,
                    )[name] == earlier[at].1;
                assert(arrivals[at] == earlier[at]);
                assert forall|later: int| at < later < arrivals.len() implies
                    (#[trigger] arrivals[later]).0.name != name by {
                    if later < last {
                        assert(arrivals[later] == earlier[later]);
                    }
                }
                assert(is_latest_arrival(arrivals, name, at));
            }
        }
    }
}

/// An app that is registered stays registered, whatever apps arrive later.
pub proof fn lemma_app_registry_grows(
    app_streams: Map<Seq<char>, ConnId>,
    arrivals: Seq<(AppMetadataView, ConnId)>,
    name: Seq<char>,
)
    requires
        app_streams.contains_key(name),
    ensures
        apps_registered(app_streams, arrivals).contains_key(name),
    decreases arrivals.len(),
{
    if arrivals.len() > 0 {
        lemma_app_registry_grows(app_streams, arrivals.drop_last(), name);
    }
}

/// A number's decimal digits stand for that number.
pub proof fn lemma_decimal_value(n: nat)
    ensures
        decimal_value(decimal(n)) == n,
    decreases n,
{
    if n < 10 {
        assert(decimal(n).drop_last() =~= Seq::<char>::empty());
        assert(decimal_value(decimal(n).drop_last()) == 0);
    } else {
        lemma_decimal_value(n / 10);
        assert(decimal(n).drop_last() =~= decimal(n / 10));
    }
}

/// Two subscribers never get the same name.
pub proof fn lemma_decimal_injective(a: nat, b: nat)
    requires
        decimal(a) == decimal(b),
    ensures
        a == b,
{
    lemma_decimal_value(a);
    lemma_decimal_value(b);
}

/// No subscriber is displaced by a later one: after a listener accepted the
/// subscribers of `streams`, the event registry holds each of them under
/// its own number.
pub proof fn lemma_subscribers_all_registered(
    event_streams: Map<Seq<char>, ConnId>,
    first: nat,
    streams: Seq<ConnId>,
    i: int,
)
    requires
        0 <= i < streams.len(),
    ensures
        subscribers_registered(event_streams, first, streams).contains_key(
            decimal((first + i) as nat),
        ),
        subscribers_registered(event_streams, first, streams)[decimal((first + i) as nat)]
            == streams[i],
    decreases streams.len(),
{
    let last = streams.len() - 1;
    if i < last {
        lemma_subscribers_all_registered(event_streams, first, streams.drop_last(), i);
        if decimal((first + i) as nat) == decimal((first + last) as nat) {
            lemma_decimal_injective((first + i) as nat, (first + last) as nat);
        }
    }
}

/// An app that registers is made known. A worker whose first frame is the
/// app's metadata, and whose acknowledgement is written, has entered the
/// app under its name and asks for that very metadata to be sent to the
/// event subscribers; a worker whose acknowledgement fails asks for
/// nothing more, and leaves the entry in the registry.
pub proof fn lemma_registered_app_is_published(
    metadata: AppMetadataView,
    stream: ConnId,
    app_streams: Map<Seq<char>, ConnId>,
    written: bool,
)
    ensures
        ({
            let read = (AppStateView::ReadingMetadata { failures: 0 }).metadata_read(
                Some(metadata),
            );
            let (registered, entered) = read.register_app_client(stream, app_streams);
            &&& read.action() == AppActionView::Register
            &&& entered == app_streams.insert(metadata.name, stream)
            &&& registered.action() == AppActionView::Acknowledge(Response::ack_spec())
            &&& registered.acknowledged(written).action() == (if written {
                AppActionView::Publish(metadata)
            } else {
                AppActionView::Close
            })
            &&& registered.acknowledged(true).published().action() == AppActionView::Close
        }),
{
}

} // verus!
