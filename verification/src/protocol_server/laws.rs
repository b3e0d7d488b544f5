//! What holds of every protocol worker, proved from its transitions.

use crate::app_server::laws::{
    apps_registered, lemma_app_registry_grows, lemma_app_registry_last_writer_wins, never_arrived,
};
use crate::protocol_server::{ProtocolActionView, ProtocolStateView};
use crate::types::message::{AppMetadataView, RequestView, ResponseView};
use crate::types::stream_map::ConnId;
use crate::util::retry::{retry_spec, RETRY_LIMIT};
use vstd::prelude::*;

verus! {

/// Every state that a worker reaches keeps its count of failed attempts
/// within the retry limit.
pub proof fn lemma_wf_is_kept(
    state: ProtocolStateView,
    stream: ConnId,
    name: Option<Seq<char>>,
    request: Option<RequestView>,
    response: Option<ResponseView>,
    written: bool,
    protocol_streams: Map<Seq<char>, ConnId>,
    app_streams: Map<Seq<char>, ConnId>,
)
    requires
        state.wf(),
    ensures
        state.name_read(name).wf(),
        state.register_protocol_client(stream, protocol_streams).0.wf(),
        state.acknowledged(written).wf(),
        state.request_read(request).wf(),
        state.pool_request(protocol_streams).wf(),
        state.send_request(app_streams).wf(),
        state.request_sent(written).wf(),
        state.pool_response(response).wf(),
        state.send_response(written).wf(),
{
}

/// A worker that relays never ends and never registers again: whatever is
/// reported to it, it goes on relaying.
pub proof fn lemma_relaying_is_kept(
    state: ProtocolStateView,
    stream: ConnId,
    name: Option<Seq<char>>,
    request: Option<RequestView>,
    response: Option<ResponseView>,
    written: bool,
    protocol_streams: Map<Seq<char>, ConnId>,
    app_streams: Map<Seq<char>, ConnId>,
)
    requires
        state.relaying(),
    ensures
        state.name_read(name).relaying(),
        state.register_protocol_client(stream, protocol_streams).0.relaying(),
        state.register_protocol_client(stream, protocol_streams).1 == protocol_streams,
        state.acknowledged(written).relaying(),
        state.request_read(request).relaying(),
        state.pool_request(protocol_streams).relaying(),
        state.send_request(app_streams).relaying(),
        state.request_sent(written).relaying(),
        state.pool_response(response).relaying(),
        state.send_response(written).relaying(),
{
}

/// Registration is a single attempt. A new worker that is told of its
/// client's first frame, of the claim and of the acknowledgement relays
/// exactly where the frame was a name that nobody held and the
/// acknowledgement was written; in every other case it has ended. The name
/// is entered for the client's connection exactly where nobody held it.
pub proof fn lemma_registration_outcome(
    stream: ConnId,
    frame: Option<Seq<char>>,
    written: bool,
    protocol_streams: Map<Seq<char>, ConnId>,
)
    ensures
        ({
            let claimed = ProtocolStateView::Registering.name_read(
                frame,
            ).register_protocol_client(stream, protocol_streams);
            let unique = frame is Some && !protocol_streams.contains_key(frame->Some_0);
            &&& claimed.1 == (if unique {
                protocol_streams.insert(frame->Some_0, stream)
            } else {
                protocol_streams
            })
            &&& claimed.0.acknowledged(written) == (if unique && written {
                ProtocolStateView::AwaitingRequest
            } else {
                ProtocolStateView::Terminated
            })
        }),
{
}

/// The protocol registry after the clients of `claims` claimed their names
/// in it, the earliest first: each claim is a worker that has read its name
/// and registers its connection.
pub open spec fn protocols_claimed(
    protocol_streams: Map<Seq<char>, ConnId>,
    claims: Seq<(Seq<char>, ConnId)>,
) -> Map<Seq<char>, ConnId>
    decreases claims.len(),
{
    if claims.len() == 0 {
        protocol_streams
    } else {
        (ProtocolStateView::Claiming { name: claims.last().0 }).register_protocol_client(
            claims.last().1,
            protocols_claimed(protocol_streams, claims.drop_last()),
        ).1
    }
}

/// An entry of the protocol registry never changes: what is registered
/// under a name stays registered under it, whoever claims the name later.
pub proof fn lemma_protocol_registry_is_stable(
    protocol_streams: Map<Seq<char>, ConnId>,
    claims: Seq<(Seq<char>, ConnId)>,
    name: Seq<char>,
)
    requires
        protocol_streams.contains_key(name),
    ensures
        protocols_claimed(protocol_streams, claims).contains_key(name),
        protocols_claimed(protocol_streams, claims)[name] == protocol_streams[name],
    decreases claims.len(),
{
    if claims.len() > 0 {
        lemma_protocol_registry_is_stable(protocol_streams, claims.drop_last(), name);
    }
}

/// The claim at `at` is the first one of `name`.
pub open spec fn is_first_claim(
    claims: Seq<(Seq<char>, ConnId)>,
    name: Seq<char>,
    at: int,
) -> bool {
    &&& 0 <= at < claims.len()
    &&& claims[at].0 == name
    &&& forall|before: int| 0 <= before < at ==> (#[trigger] claims[before]).0 != name
}

/// The first claim wins. Whatever the protocol registry holds under a name
/// that it did not hold before is the connection of a client that sent
/// that name, and no client had claimed the name before it.
pub proof fn lemma_protocol_registry_first_claim_wins(
    protocol_streams: Map<Seq<char>, ConnId>,
    claims: Seq<(Seq<char>, ConnId)>,
    name: Seq<char>,
)
    requires
        !protocol_streams.contains_key(name),
        protocols_claimed(protocol_streams, claims).contains_key(name),
    ensures
        exists|at: int| #[trigger]
            is_first_claim(claims, name, at) && protocols_claimed(protocol_streams, claims)[name]
                == claims[at].1,
    decreases claims.len(),
{
    if claims.len() > 0 {
        let earlier = claims.drop_last();
        let last = claims.len() - 1;
        if protocols_claimed(protocol_streams, earlier).contains_key(name) {
            lemma_protocol_registry_first_claim_wins(protocol_streams, earlier, name);
            let at = choose|at: int| #[trigger]
                is_first_claim(earlier, name, at) && protocols_claimed(
                    protocol_streams,
                    earlier,
                )[name] == earlier[at].1;
            assert(claims[at] == earlier[at]);
            assert forall|before: int| 0 <= before < at implies
                (#[trigger] claims[before]).0 != name by {
                assert(claims[before] == earlier[before]);
            }
            assert(is_first_claim(claims, name, at));
        } else {
            assert(claims[last].0 == name);
            assert forall|before: int| 0 <= before < last implies
                (#[trigger] claims[before]).0 != name by {
                lemma_claimed_name_is_held(protocol_streams, earlier, before);
                assert(claims[before] == earlier[before]);
            }
            assert(is_first_claim(claims, name, last));
        }
    }
}

/// A name that was claimed is held in the registry from then on.
pub proof fn lemma_claimed_name_is_held(
    protocol_streams: Map<Seq<char>, ConnId>,
    claims: Seq<(Seq<char>, ConnId)>,
    at: int,
)
    requires
        0 <= at < claims.len(),
    ensures
        protocols_claimed(protocol_streams, claims).contains_key(claims[at].0),
    decreases claims.len(),
{
    if at < claims.len() - 1 {
        lemma_claimed_name_is_held(protocol_streams, claims.drop_last(), at);
    }
}

/// One attempt to forward a request: the app registry as the attempt finds
/// it, and whether the write to the app's connection succeeds.
pub struct ForwardAttempt {
    pub app_streams: Map<Seq<char>, ConnId>,
    pub written: bool,
}

impl ForwardAttempt {
    /// What the attempt yields for a request to `app_name`: the app's
    /// connection, where the app is registered and the write succeeds.
    pub open spec fn outcome(self, app_name: Seq<char>) -> Option<ConnId> {
        if self.app_streams.contains_key(app_name) && self.written {
            Some(self.app_streams[app_name])
        } else {
            None
        }
    }
}

/// What `attempts` yield for a request to `app_name`, one by one.
pub open spec fn forward_outcomes(app_name: Seq<char>, attempts: Seq<ForwardAttempt>) -> Seq<
    Option<ConnId>,
> {
    Seq::new(attempts.len(), |i: int| attempts[i].outcome(app_name))
}

/// The state of a worker after `attempts` to forward: at each, the lookup
/// is reported, then the write.
pub open spec fn forward_attempted(
    state: ProtocolStateView,
    attempts: Seq<ForwardAttempt>,
) -> ProtocolStateView
    decreases attempts.len(),
{
    if attempts.len() == 0 {
        state
    } else {
        forward_attempted(
            state.send_request(attempts[0].app_streams).request_sent(attempts[0].written),
            attempts.drop_first(),
        )
    }
}

/// The state of a worker after it was told of `frames` of the app, one read
/// after the other.
pub open spec fn responses_read(
    state: ProtocolStateView,
    frames: Seq<Option<ResponseView>>,
) -> ProtocolStateView
    decreases frames.len(),
{
    if frames.len() == 0 {
        state
    } else {
        responses_read(state.pool_response(frames[0]), frames.drop_first())
    }
}

/// The state of a worker after it was told of `writes` of the response to
/// the client, one after the other.
pub open spec fn responses_sent(state: ProtocolStateView, writes: Seq<bool>) -> ProtocolStateView
    decreases writes.len(),
{
    if writes.len() == 0 {
        state
    } else {
        responses_sent(state.send_response(writes[0]), writes.drop_first())
    }
}

/// What `writes` yield, one by one: a write that succeeded is a success.
pub open spec fn write_outcomes(writes: Seq<bool>) -> Seq<Option<()>> {
    Seq::new(
        writes.len(),
        |i: int|
            if writes[i] {
                Some(())
            } else {
                None
            },
    )
}

/// Attempts reported to a worker that forwards no request change nothing.
pub proof fn lemma_forward_attempts_ignored(
    state: ProtocolStateView,
    attempts: Seq<ForwardAttempt>,
)
    requires
        !(state is Forwarding),
        !(state is Sending),
    ensures
        forward_attempted(state, attempts) == state,
    decreases attempts.len(),
{
    if attempts.len() > 0 {
        lemma_forward_attempts_ignored(state, attempts.drop_first());
    }
}

/// A request is forwarded under the retry policy. A worker that has failed
/// `failures` times and makes `attempts` stands where a retry with the
/// attempts that are left would: awaiting the response on the connection of
/// the first attempt that found the app and wrote to it, awaiting the next
/// request where the limit was reached without one, and looking the app up
/// again otherwise.
pub proof fn lemma_forwarded_under_retry(
    request: RequestView,
    failures: int,
    attempts: Seq<ForwardAttempt>,
)
    requires
        0 <= failures < RETRY_LIMIT,
    ensures
        forward_attempted(ProtocolStateView::Forwarding { request, failures }, attempts) == (
        match retry_spec(RETRY_LIMIT - failures, forward_outcomes(request.app_name(), attempts)) {
            Some(stream) => ProtocolStateView::AwaitingResponse { stream, failures: 0 },
            None => if failures + attempts.len() >= RETRY_LIMIT {
                ProtocolStateView::AwaitingRequest
            } else {
                ProtocolStateView::Forwarding { request, failures: failures + attempts.len() }
            },
        }),
    decreases attempts.len(),
{
    if attempts.len() > 0 {
        let rest = attempts.drop_first();
        let outcomes = forward_outcomes(request.app_name(), attempts);
        assert(outcomes.drop_first() =~= forward_outcomes(request.app_name(), rest));
        assert(outcomes[0] == attempts[0].outcome(request.app_name()));
        let next = (ProtocolStateView::Forwarding { request, failures }).send_request(
            attempts[0].app_streams,
        ).request_sent(attempts[0].written);
        if outcomes[0] is Some {
            lemma_forward_attempts_ignored(next, rest);
        } else if failures + 1 < RETRY_LIMIT {
            assert(next == ProtocolStateView::Forwarding { request, failures: failures + 1 });
            lemma_forwarded_under_retry(request, failures + 1, rest);
        } else {
            assert(next == ProtocolStateView::AwaitingRequest);
            lemma_forward_attempts_ignored(next, rest);
            assert(retry_spec(RETRY_LIMIT - failures - 1, outcomes.drop_first()) is None);
        }
    }
}

/// Frames of an app reported to a worker that awaits no response change
/// nothing.
pub proof fn lemma_response_frames_ignored(
    state: ProtocolStateView,
    frames: Seq<Option<ResponseView>>,
)
    requires
        !(state is AwaitingResponse),
    ensures
        responses_read(state, frames) == state,
    decreases frames.len(),
{
    if frames.len() > 0 {
        lemma_response_frames_ignored(state, frames.drop_first());
    }
}

/// A response is read under the retry policy. A worker that has failed
/// `failures` times and is told of `frames` stands where a retry with the
/// attempts that are left would: returning the first response among them,
/// awaiting the next request where the limit was reached without one, and
/// reading on otherwise.
pub proof fn lemma_response_read_under_retry(
    stream: ConnId,
    failures: int,
    frames: Seq<Option<ResponseView>>,
)
    requires
        0 <= failures < RETRY_LIMIT,
    ensures
        responses_read(ProtocolStateView::AwaitingResponse { stream, failures }, frames) == (
        match retry_spec(RETRY_LIMIT - failures, frames) {
            Some(response) => ProtocolStateView::Returning { response, failures: 0 },
            None => if failures + frames.len() >= RETRY_LIMIT {
                ProtocolStateView::AwaitingRequest
            } else {
                ProtocolStateView::AwaitingResponse { stream, failures: failures + frames.len() }
            },
        }),
    decreases frames.len(),
{
    if frames.len() > 0 {
        let rest = frames.drop_first();
        match frames[0] {
            Some(response) => {
                lemma_response_frames_ignored(
                    ProtocolStateView::Returning { response, failures: 0 },
                    rest,
                );
            },
            None => {
                if failures + 1 < RETRY_LIMIT {
                    lemma_response_read_under_retry(stream, failures + 1, rest);
                } else {
                    lemma_response_frames_ignored(ProtocolStateView::AwaitingRequest, rest);
                    assert(retry_spec(RETRY_LIMIT - failures - 1, rest) is None);
                }
            },
        }
    }
}

/// Writes reported to a worker that returns no response change nothing.
pub proof fn lemma_response_writes_ignored(state: ProtocolStateView, writes: Seq<bool>)
    requires
        !(state is Returning),
    ensures
        responses_sent(state, writes) == state,
    decreases writes.len(),
{
    if writes.len() > 0 {
        lemma_response_writes_ignored(state, writes.drop_first());
    }
}

/// A response is returned under the retry policy. A worker that has failed
/// `failures` times and is told of `writes` awaits the next request once a
/// write succeeded or the limit was reached, and writes again otherwise.
pub proof fn lemma_response_sent_under_retry(
    response: ResponseView,
    failures: int,
    writes: Seq<bool>,
)
    requires
        0 <= failures < RETRY_LIMIT,
    ensures
        responses_sent(ProtocolStateView::Returning { response, failures }, writes) == (
        match retry_spec(RETRY_LIMIT - failures, write_outcomes(writes)) {
            Some(done) => ProtocolStateView::AwaitingRequest,
            None => if failures + writes.len() >= RETRY_LIMIT {
                ProtocolStateView::AwaitingRequest
            } else {
                ProtocolStateView::Returning { response, failures: failures + writes.len() }
            },
        }),
    decreases writes.len(),
{
    if writes.len() > 0 {
        let rest = writes.drop_first();
        let outcomes = write_outcomes(writes);
        assert(outcomes.drop_first() =~= write_outcomes(rest));
        if writes[0] {
            lemma_response_writes_ignored(ProtocolStateView::AwaitingRequest, rest);
        } else if failures + 1 < RETRY_LIMIT {
            lemma_response_sent_under_retry(response, failures + 1, rest);
        } else {
            lemma_response_writes_ignored(ProtocolStateView::AwaitingRequest, rest);
            assert(retry_spec(RETRY_LIMIT - failures - 1, outcomes.drop_first()) is None);
        }
    }
}

/// A lookup on retry sees what the first attempt saw. Whatever apps arrived
/// in between, an app that was registered is still found; and unless that
/// very app came back under its name, it is found on the same connection,
/// however many attempts failed before.
pub proof fn lemma_retry_sees_the_same_registry(
    request: RequestView,
    failures: int,
    app_streams: Map<Seq<char>, ConnId>,
    arrivals: Seq<(AppMetadataView, ConnId)>,
)
    requires
        app_streams.contains_key(request.app_name()),
    ensures
        (ProtocolStateView::Forwarding { request, failures }).send_request(
            apps_registered(app_streams, arrivals),
        ) is Sending,
        never_arrived(arrivals, request.app_name()) ==> (ProtocolStateView::Forwarding {
            request,
            failures,
        }).send_request(apps_registered(app_streams, arrivals)).action() == (
        ProtocolStateView::Forwarding { request, failures: 0 }).send_request(app_streams).action(),
{
    lemma_app_registry_grows(app_streams, arrivals, request.app_name());
    lemma_app_registry_last_writer_wins(app_streams, arrivals, request.app_name());
}

/// A check of the sender on a later request sees what the first check saw:
/// a protocol client that is registered passes it, whoever claimed names in
/// between.
pub proof fn lemma_sender_stays_valid(
    request: RequestView,
    protocol_streams: Map<Seq<char>, ConnId>,
    claims: Seq<(Seq<char>, ConnId)>,
)
    requires
        protocol_streams.contains_key(request.protocol_name()),
    ensures
        (ProtocolStateView::Validating { request }).pool_request(
            protocols_claimed(protocol_streams, claims),
        ) == (ProtocolStateView::Validating { request }).pool_request(protocol_streams),
{
    lemma_protocol_registry_is_stable(protocol_streams, claims, request.protocol_name());
}

/// What can be reported to a worker that relays.
pub enum RelayEvent {
    /// A frame of the client was read, or could not be.
    RequestRead(Option<RequestView>),
    /// The sender of the request was checked against the protocol registry.
    Validated,
    /// The app of the request was looked up in the app registry.
    LookedUp,
    /// The request was written to the app, or could not be.
    RequestSent(bool),
    /// A frame of the app was read, or could not be.
    ResponseRead(Option<ResponseView>),
    /// The response was written to the client, or could not be.
    ResponseSent(bool),
}

/// The state of a worker once `event` was reported to it, with the
/// registries as they are.
pub open spec fn relay_step(
    state: ProtocolStateView,
    event: RelayEvent,
    protocol_streams: Map<Seq<char>, ConnId>,
    app_streams: Map<Seq<char>, ConnId>,
) -> ProtocolStateView {
    match event {
        RelayEvent::RequestRead(frame) => state.request_read(frame),
        RelayEvent::Validated => state.pool_request(protocol_streams),
        RelayEvent::LookedUp => state.send_request(app_streams),
        RelayEvent::RequestSent(written) => state.request_sent(written),
        RelayEvent::ResponseRead(frame) => state.pool_response(frame),
        RelayEvent::ResponseSent(written) => state.send_response(written),
    }
}

/// The state of a worker once `events` were reported to it, one after the
/// other.
pub open spec fn relayed(
    state: ProtocolStateView,
    events: Seq<RelayEvent>,
    protocol_streams: Map<Seq<char>, ConnId>,
    app_streams: Map<Seq<char>, ConnId>,
) -> ProtocolStateView
    decreases events.len(),
{
    if events.len() == 0 {
        state
    } else {
        relay_step(
            relayed(state, events.drop_last(), protocol_streams, app_streams),
            events.last(),
            protocol_streams,
            app_streams,
        )
    }
}

/// The operations that a worker asks for while `events` are reported to it:
/// one after each event.
pub open spec fn actions_asked(
    state: ProtocolStateView,
    events: Seq<RelayEvent>,
    protocol_streams: Map<Seq<char>, ConnId>,
    app_streams: Map<Seq<char>, ConnId>,
) -> Seq<ProtocolActionView>
    decreases events.len(),
{
    if events.len() == 0 {
        Seq::empty()
    } else {
        actions_asked(state, events.drop_last(), protocol_streams, app_streams).push(
            relayed(state, events, protocol_streams, app_streams).action(),
        )
    }
}

/// The responses that `actions` write to the client, in their order.
pub open spec fn responses_returned(actions: Seq<ProtocolActionView>) -> Seq<ResponseView>
    decreases actions.len(),
{
    if actions.len() == 0 {
        Seq::empty()
    } else {
        match actions.last() {
            ProtocolActionView::Return(response) => responses_returned(actions.drop_last()).push(
                response,
            ),
            _ => responses_returned(actions.drop_last()),
        }
    }
}

/// The requests that `actions` write to apps, each with the connection it
/// is written to, in their order.
pub open spec fn requests_forwarded(actions: Seq<ProtocolActionView>) -> Seq<
    (ConnId, RequestView),
>
    decreases actions.len(),
{
    if actions.len() == 0 {
        Seq::empty()
    } else {
        match actions.last() {
            ProtocolActionView::Forward { stream, request } => requests_forwarded(
                actions.drop_last(),
            ).push((stream, request)),
            _ => requests_forwarded(actions.drop_last()),
        }
    }
}

/// What is reported to a worker while one request is relayed without an
/// I/O error, and the app answers it with `response`.
pub open spec fn exchange(request: RequestView, response: ResponseView) -> Seq<RelayEvent> {
    seq![
        RelayEvent::RequestRead(Some(request)),
        RelayEvent::Validated,
        RelayEvent::LookedUp,
        RelayEvent::RequestSent(true),
        RelayEvent::ResponseRead(Some(response)),
        RelayEvent::ResponseSent(true),
    ]
}

/// What is reported to a worker while the requests of `pairs` are relayed
/// without an I/O error, each answered with the response beside it.
pub open spec fn exchanges(pairs: Seq<(RequestView, ResponseView)>) -> Seq<RelayEvent>
    decreases pairs.len(),
{
    if pairs.len() == 0 {
        Seq::empty()
    } else {
        exchanges(pairs.drop_last()) + exchange(pairs.last().0, pairs.last().1)
    }
}

/// One more event takes the worker one step further, and has it ask for
/// one more operation.
pub proof fn lemma_relayed_push(
    state: ProtocolStateView,
    events: Seq<RelayEvent>,
    event: RelayEvent,
    protocol_streams: Map<Seq<char>, ConnId>,
    app_streams: Map<Seq<char>, ConnId>,
)
    ensures
        relayed(state, events.push(event), protocol_streams, app_streams) == relay_step(
            relayed(state, events, protocol_streams, app_streams),
            event,
            protocol_streams,
            app_streams,
        ),
        actions_asked(state, events.push(event), protocol_streams, app_streams) == actions_asked(
            state,
            events,
            protocol_streams,
            app_streams,
        ).push(relayed(state, events.push(event), protocol_streams, app_streams).action()),
{
    assert(events.push(event).drop_last() =~= events);
}

/// One more operation adds to what is written only where it is a write.
pub proof fn lemma_written_push(actions: Seq<ProtocolActionView>, action: ProtocolActionView)
    ensures
        responses_returned(actions.push(action)) == (match action {
            ProtocolActionView::Return(response) => responses_returned(actions).push(response),
            _ => responses_returned(actions),
        }),
        requests_forwarded(actions.push(action)) == (match action {
            ProtocolActionView::Forward { stream, request } => requests_forwarded(actions).push(
                (stream, request),
            ),
            _ => requests_forwarded(actions),
        }),
{
    assert(actions.push(action).drop_last() =~= actions);
}

/// One request, relayed without an I/O error: the worker writes the
/// request to the connection of its app, then the app's response to the
/// client, both once, and awaits the next request.
pub proof fn lemma_exchange_relayed(
    events: Seq<RelayEvent>,
    request: RequestView,
    response: ResponseView,
    protocol_streams: Map<Seq<char>, ConnId>,
    app_streams: Map<Seq<char>, ConnId>,
)
    requires
        relayed(ProtocolStateView::AwaitingRequest, events, protocol_streams, app_streams)
            == ProtocolStateView::AwaitingRequest,
        protocol_streams.contains_key(request.protocol_name()),
        app_streams.contains_key(request.app_name()),
    ensures
        relayed(
            ProtocolStateView::AwaitingRequest,
            events + exchange(request, response),
            protocol_streams,
            app_streams,
        ) == ProtocolStateView::AwaitingRequest,
        responses_returned(
            actions_asked(
                ProtocolStateView::AwaitingRequest,
                events + exchange(request, response),
                protocol_streams,
                app_streams,
            ),
        ) == responses_returned(
            actions_asked(
                ProtocolStateView::AwaitingRequest,
                events,
                protocol_streams,
                app_streams,
            ),
        ).push(response),
        requests_forwarded(
            actions_asked(
                ProtocolStateView::AwaitingRequest,
                events + exchange(request, response),
                protocol_streams,
                app_streams,
            ),
        ) == requests_forwarded(
            actions_asked(
                ProtocolStateView::AwaitingRequest,
                events,
                protocol_streams,
                app_streams,
            ),
        ).push((app_streams[request.app_name()], request)),
{
    let start = ProtocolStateView::AwaitingRequest;
    let e1 = RelayEvent::RequestRead(Some(request));
    let e2 = RelayEvent::Validated;
    let e3 = RelayEvent::LookedUp;
    let e4 = RelayEvent::RequestSent(true);
    let e5 = RelayEvent::ResponseRead(Some(response));
    let e6 = RelayEvent::ResponseSent(true);
    let ev1 = events.push(e1);
    let ev2 = ev1.push(e2);
    let ev3 = ev2.push(e3);
    let ev4 = ev3.push(e4);
    let ev5 = ev4.push(e5);
    let ev6 = ev5.push(e6);
    assert(events + exchange(request, response) =~= ev6);
    lemma_relayed_push(start, events, e1, protocol_streams, app_streams);
    lemma_relayed_push(start, ev1, e2, protocol_streams, app_streams);
    lemma_relayed_push(start, ev2, e3, protocol_streams, app_streams);
    lemma_relayed_push(start, ev3, e4, protocol_streams, app_streams);
    lemma_relayed_push(start, ev4, e5, protocol_streams, app_streams);
    lemma_relayed_push(start, ev5, e6, protocol_streams, app_streams);
    let a0 = actions_asked(start, events, protocol_streams, app_streams);
    let a1 = actions_asked(start, ev1, protocol_streams, app_streams);
    let a2 = actions_asked(start, ev2, protocol_streams, app_streams);
    let a3 = actions_asked(start, ev3, protocol_streams, app_streams);
    let a4 = actions_asked(start, ev4, protocol_streams, app_streams);
    let a5 = actions_asked(start, ev5, protocol_streams, app_streams);
    lemma_written_push(a0, relayed(start, ev1, protocol_streams, app_streams).action());
    lemma_written_push(a1, relayed(start, ev2, protocol_streams, app_streams).action());
    lemma_written_push(a2, relayed(start, ev3, protocol_streams, app_streams).action());
    lemma_written_push(a3, relayed(start, ev4, protocol_streams, app_streams).action());
    lemma_written_push(a4, relayed(start, ev5, protocol_streams, app_streams).action());
    lemma_written_push(a5, relayed(start, ev6, protocol_streams, app_streams).action());
}

/// Request-response pairing. Where every request of a client names a
/// registered sender and a registered app, the app answers each request
/// that it gets and no I/O fails, the client is written one response for
/// each request, in the order of the requests; and every request goes, in
/// that order too, to the connection of the app it names.
pub proof fn lemma_request_response_pairing(
    pairs: Seq<(RequestView, ResponseView)>,
    protocol_streams: Map<Seq<char>, ConnId>,
    app_streams: Map<Seq<char>, ConnId>,
)
    requires
        forall|i: int|
            0 <= i < pairs.len() ==> protocol_streams.contains_key(
                (#[trigger] pairs[i]).0.protocol_name(),
            ) && app_streams.contains_key(pairs[i].0.app_name()),
    ensures
        relayed(
            ProtocolStateView::AwaitingRequest,
            exchanges(pairs),
            protocol_streams,
            app_streams,
        ) == ProtocolStateView::AwaitingRequest,
        responses_returned(
            actions_asked(
                ProtocolStateView::AwaitingRequest,
                exchanges(pairs),
                protocol_streams,
                app_streams,
            ),
        ) == Seq::new(pairs.len(), |i: int| pairs[i].1),
        requests_forwarded(
            actions_asked(
                ProtocolStateView::AwaitingRequest,
                exchanges(pairs),
                protocol_streams,
                app_streams,
            ),
        ) == Seq::new(pairs.len(), |i: int| (app_streams[pairs[i].0.app_name()], pairs[i].0)),
    decreases pairs.len(),
{
    if pairs.len() > 0 {
        let earlier = pairs.drop_last();
        let last = pairs.last();
        assert forall|i: int| 0 <= i < earlier.len() implies protocol_streams.contains_key(
            (#[trigger] earlier[i]).0.protocol_name(),
        ) && app_streams.contains_key(earlier[i].0.app_name()) by {
            assert(earlier[i] == pairs[i]);
        }
        lemma_request_response_pairing(earlier, protocol_streams, app_streams);
        assert(last == pairs[pairs.len() - 1]);
        lemma_exchange_relayed(exchanges(earlier), last.0, last.1, protocol_streams, app_streams);
        assert(Seq::new(pairs.len(), |i: int| pairs[i].1) =~= Seq::new(
            earlier.len(),
            |i: int| earlier[i].1,
        ).push(last.1));
        assert(Seq::new(pairs.len(), |i: int| (app_streams[pairs[i].0.app_name()], pairs[i].0))
            =~= Seq::new(
            earlier.len(),
            |i: int| (app_streams[earlier[i].0.app_name()], earlier[i].0),
        ).push((app_streams[last.0.app_name()], last.0)));
    }
}

} // verus!
