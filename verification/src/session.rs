//! What holds of every session with the monitor.
//!
//! A session is any sequence of calls on one monitor: requests and outcomes,
//! in whatever order the caller makes them. The laws below are stated over
//! the monitor's own specification and hold of all such sequences.

use crate::client::{request_datagram, yielded, ClientErrorView};
use crate::codec::{
    lemma_request_round_trip, lemma_response_round_trip, request_encodable, request_wire,
    response_encodable, response_wire,
};
use crate::message::{PayloadView, RequestKind, RequestView};
use crate::monitor::{
    answer, fresh, plan, processed, refusal, reply_datagram, settle, Descriptors, EffectView,
    OutcomeView, ReplyView, ServerView, StepView,
};
use crate::transport::{descriptors_verdict, ProtocolError, Received};
use vstd::prelude::*;

verus! {

/// One call on the monitor.
pub enum Call {
    /// A request was handed to it.
    Request(RequestView),
    /// The outcome of an effect was handed back to it.
    Outcome(OutcomeView),
}

/// The state of the monitor after one call.
pub open spec fn state_after(s: ServerView, call: Call) -> ServerView {
    match call {
        Call::Request(_) => s,
        Call::Outcome(outcome) => settle(s, outcome).0,
    }
}

/// The reply that one call produces, if it produces one.
pub open spec fn reply_to(s: ServerView, call: Call) -> Option<ReplyView> {
    match call {
        Call::Request(request) => match plan(s, request) {
            StepView::Reply(reply) => Some(reply),
            StepView::Perform(_) => None,
        },
        Call::Outcome(outcome) => Some(settle(s, outcome).1),
    }
}

/// The state of the monitor after the first `n` calls of a session that
/// starts in state `start`.
pub open spec fn state_at(start: ServerView, calls: Seq<Call>, n: int) -> ServerView
    decreases n,
{
    if n <= 0 {
        start
    } else {
        state_after(state_at(start, calls, n - 1), calls[n - 1])
    }
}

/// Whether a call in state `s` is answered by a successful reply to a
/// `VerifySignature` request.
pub open spec fn verification_succeeds(s: ServerView, call: Call) -> bool {
    &&& call matches Call::Outcome(OutcomeView::SignatureVerified(_))
    &&& reply_to(s, call) == Some(answer(PayloadView::Flag(true)))
}

/// Whether a call in state `s` is answered by a successful reply to a
/// `Shell` request.
pub open spec fn shell_succeeds(s: ServerView, call: Call) -> bool {
    &&& call matches Call::Outcome(OutcomeView::Spawned(_))
    &&& reply_to(s, call) matches Some(reply)
    &&& reply.response is Ok
}

/// The operation that an outcome belongs to.
pub open spec fn operation_of(outcome: OutcomeView) -> RequestKind {
    match outcome {
        OutcomeView::Signed(_) => RequestKind::Sign,
        OutcomeView::KeyChecked(_) => RequestKind::CheckPublicKey,
        OutcomeView::SignatureVerified(_) => RequestKind::VerifySignature,
        OutcomeView::PtyOpened(_) => RequestKind::PtyReq,
        OutcomeView::Spawned(_) => RequestKind::Shell,
        OutcomeView::ChildExited(_) => RequestKind::Wait,
    }
}

/// The operation that an effect belongs to.
pub open spec fn operation_for(effect: EffectView) -> RequestKind {
    match effect {
        EffectView::Sign { .. } => RequestKind::Sign,
        EffectView::CheckPublicKey(_) => RequestKind::CheckPublicKey,
        EffectView::VerifySignature(_) => RequestKind::VerifySignature,
        EffectView::OpenPty { .. } => RequestKind::PtyReq,
        EffectView::Spawn(_) => RequestKind::Shell,
        EffectView::AwaitChild => RequestKind::Wait,
    }
}

/// The largest number of descriptors that a reply to this operation may
/// carry.
pub open spec fn descriptors_allowed(kind: RequestKind) -> nat {
    match kind {
        RequestKind::PtyReq => 1,
        RequestKind::Shell => 3,
        _ => 0,
    }
}

/// The reply to a request: the one given at once, or else the one that the
/// outcome of its effect yields.
pub open spec fn served(s: ServerView, request: RequestView, outcome: OutcomeView) -> (
    ServerView,
    ReplyView,
) {
    match plan(s, request) {
        StepView::Reply(reply) => (s, reply),
        StepView::Perform(_) => settle(s, outcome),
    }
}

/// A request never changes the state, names the effect of its own
/// operation, and is refused when it gets an immediate reply: an immediate
/// reply is an error and carries no descriptors.
pub proof fn lemma_requests_only_plan(s: ServerView, request: RequestView)
    ensures
        state_after(s, Call::Request(request)) == s,
        plan(s, request) matches StepView::Perform(effect) ==> operation_for(effect)
            == request.kind(),
        plan(s, request) matches StepView::Reply(reply) ==> reply.response is Err
            && reply.descriptors == Descriptors::Nothing,
{
}

/// Once a user is authenticated, no call changes who it is.
pub proof fn lemma_user_stays(s: ServerView, call: Call)
    ensures
        s.authenticated_user is Some ==> state_after(s, call).authenticated_user
            == s.authenticated_user,
        state_after(s, call).host_keys == s.host_keys,
{
}

/// The authenticated user is set at most once in a session: from the moment
/// it is set, it is the same after every later call.
pub proof fn lemma_user_set_at_most_once(start: ServerView, calls: Seq<Call>, i: int, j: int)
    requires
        0 <= i <= j <= calls.len(),
    ensures
        state_at(start, calls, i).authenticated_user is Some ==> state_at(
            start,
            calls,
            j,
        ).authenticated_user == state_at(start, calls, i).authenticated_user,
    decreases j - i,
{
    if i < j {
        lemma_user_set_at_most_once(start, calls, i, j - 1);
        lemma_user_stays(state_at(start, calls, j - 1), calls[j - 1]);
    }
}

/// In a session that starts with nobody authenticated, a user is
/// authenticated after `n` calls only if one of those calls was answered by
/// a successful reply to `VerifySignature`.
pub proof fn lemma_user_comes_from_verification(start: ServerView, calls: Seq<Call>, n: int)
    requires
        0 <= n <= calls.len(),
        start.authenticated_user is None,
        state_at(start, calls, n).authenticated_user is Some,
    ensures
        exists|m: int|
            0 <= m < n && #[trigger] verification_succeeds(state_at(start, calls, m), calls[m]),
    decreases n,
{
    let before = state_at(start, calls, n - 1);
    if before.authenticated_user is Some {
        lemma_user_comes_from_verification(start, calls, n - 1);
        let m = choose|m: int|
            0 <= m < n - 1 && #[trigger] verification_succeeds(state_at(start, calls, m), calls[m]);
        assert(verification_succeeds(state_at(start, calls, m), calls[m]));
    } else {
        assert(verification_succeeds(before, calls[n - 1]));
    }
}

/// In a session that starts with nobody authenticated, every successful
/// reply to `Shell` comes after a successful reply to `VerifySignature`.
pub proof fn lemma_shell_follows_verification(start: ServerView, calls: Seq<Call>, n: int)
    requires
        0 <= n < calls.len(),
        start.authenticated_user is None,
        shell_succeeds(state_at(start, calls, n), calls[n]),
    ensures
        exists|m: int|
            0 <= m < n && #[trigger] verification_succeeds(state_at(start, calls, m), calls[m]),
{
    lemma_user_comes_from_verification(start, calls, n);
}

/// Whether a child runs only if somebody is authenticated.
pub open spec fn child_has_user(s: ServerView) -> bool {
    s.shell_process ==> s.authenticated_user is Some
}

/// A child only ever runs for an authenticated user: what holds of the
/// state at the start of a session holds after every call of it.
pub proof fn lemma_child_runs_for_a_user(start: ServerView, calls: Seq<Call>, n: int)
    requires
        0 <= n <= calls.len(),
        child_has_user(start),
    ensures
        child_has_user(state_at(start, calls, n)),
    decreases n,
{
    if n > 0 {
        lemma_child_runs_for_a_user(start, calls, n - 1);
    }
}

/// A fresh monitor has nobody authenticated, no pseudo-terminal and no
/// child.
pub proof fn lemma_fresh_is_unauthenticated(host_keys: Seq<Seq<u8>>)
    ensures
        fresh(host_keys).authenticated_user is None,
        !fresh(host_keys).pty_user,
        !fresh(host_keys).shell_process,
        child_has_user(fresh(host_keys)),
{
}

/// A reply carries descriptors only where its operation hands some over: a
/// reply to `PtyReq` carries one or none, a reply to `Shell` three or none,
/// every other reply none; and only a successful reply carries any.
pub proof fn lemma_descriptor_counts(s: ServerView, outcome: OutcomeView)
    ensures
        ({
            let reply = settle(s, outcome).1;
            &&& reply.descriptors.spec_count() <= descriptors_allowed(operation_of(outcome))
            &&& reply.descriptors.spec_count() == 0 || reply.descriptors.spec_count()
                == descriptors_allowed(operation_of(outcome))
            &&& reply.response is Err ==> reply.descriptors == Descriptors::Nothing
            &&& reply.descriptors == Descriptors::PtyController ==> outcome is PtyOpened
            &&& reply.descriptors == Descriptors::ChildStdio ==> outcome is Spawned
        }),
{
}

/// The reply to a `Shell` request carries the child's three descriptors
/// exactly when it succeeds and the request named no terminal, and carries
/// none otherwise.
pub proof fn lemma_shell_descriptors(
    s: ServerView,
    request: RequestView,
    spawned: Result<(), Seq<char>>,
)
    requires
        request is Shell,
    ensures
        ({
            let reply = served(s, request, OutcomeView::Spawned(spawned)).1;
            &&& reply.descriptors == if reply.response is Ok && request->Shell_0.pty_term is None {
                Descriptors::ChildStdio
            } else {
                Descriptors::Nothing
            }
        }),
{
}

/// The reply to a `PtyReq` request carries the controller exactly when it
/// succeeds.
pub proof fn lemma_pty_descriptors(
    s: ServerView,
    request: RequestView,
    opened: Result<(), Seq<char>>,
)
    requires
        request is PtyReq,
    ensures
        ({
            let reply = served(s, request, OutcomeView::PtyOpened(opened)).1;
            &&& reply.descriptors == if reply.response is Ok {
                Descriptors::PtyController
            } else {
                Descriptors::Nothing
            }
        }),
{
}

/// After a `Wait` has been answered from the child's exit, the next `Wait`
/// is refused with "no child running", until another child is started.
pub proof fn lemma_wait_twice(s: ServerView, exited: Result<Option<i32>, Seq<char>>)
    requires
        plan(s, RequestView::Wait) is Perform,
    ensures
        plan(settle(s, OutcomeView::ChildExited(exited)).0, RequestView::Wait) == StepView::Reply(
            refusal("no child running"@),
        ),
{
}

/// After a `PtyReq` has succeeded, every later `PtyReq` is refused with
/// "already requests pty", whatever happens in between.
pub proof fn lemma_pty_twice(
    s: ServerView,
    first: RequestView,
    calls: Seq<Call>,
    second: RequestView,
)
    requires
        first is PtyReq,
        second is PtyReq,
        served(s, first, OutcomeView::PtyOpened(Ok(()))).1.response is Ok,
    ensures
        plan(
            state_at(served(s, first, OutcomeView::PtyOpened(Ok(()))).0, calls, calls.len() as int),
            second,
        ) == StepView::Reply(refusal("already requests pty"@)),
{
    let opened = served(s, first, OutcomeView::PtyOpened(Ok(()))).0;
    lemma_pty_stays(opened, calls, calls.len() as int);
}

/// Once the monitor holds a pseudo-terminal, it holds it after every later
/// call.
pub proof fn lemma_pty_stays(start: ServerView, calls: Seq<Call>, n: int)
    requires
        0 <= n <= calls.len(),
        start.pty_user,
    ensures
        state_at(start, calls, n).pty_user,
    decreases n,
{
    if n > 0 {
        lemma_pty_stays(start, calls, n - 1);
    }
}

/// A successful reply carries a value of the type that its request
/// declares, whatever the state and whatever the outcome of the effect, as
/// long as the outcome is one of the request's own operation.
pub proof fn lemma_reply_has_declared_type(
    s: ServerView,
    request: RequestView,
    outcome: OutcomeView,
)
    requires
        operation_of(outcome) == request.kind(),
    ensures
        served(s, request, outcome).1.response matches Ok(payload) ==> payload.payload_type()
            == request.kind().spec_reply_type(),
        served(s, request, outcome).1.descriptors.spec_count() <= descriptors_allowed(
            request.kind(),
        ),
{
}

/// Whether the report `r` is that of a datagram which arrived whole: all of
/// `payload`, and `descriptors` descriptors in rights-passing messages.
pub open spec fn arrived_whole(r: Received, payload: Seq<u8>, descriptors: nat) -> bool {
    &&& r.bytes == payload.len()
    &&& !r.payload_truncated
    &&& descriptors_verdict(r) == Ok::<usize, ProtocolError>(descriptors as usize)
}

/// A whole exchange gives the connection process what the monitor replied.
///
/// Take any state of the monitor, any request that can be encoded, and any
/// outcome of the request's own operation, such that the request and the
/// reply each fit one datagram. When both datagrams arrive whole, the
/// monitor deals with exactly that request, and the operation yields
/// exactly the reply: the value of a successful reply, which is of the type
/// that the request declares, or the refusal with the monitor's message.
pub proof fn lemma_exchange_round_trip(
    s: ServerView,
    request: RequestView,
    outcome: OutcomeView,
    to_monitor: Received,
    to_client: Received,
)
    requires
        request_encodable(request),
        operation_of(outcome) == request.kind(),
        request_datagram(request) is Ok,
        arrived_whole(to_monitor, request_wire(request), 0),
        response_encodable(served(s, request, outcome).1.response),
        reply_datagram(served(s, request, outcome).1) is Ok,
        arrived_whole(
            to_client,
            response_wire(served(s, request, outcome).1.response),
            served(s, request, outcome).1.descriptors.spec_count(),
        ),
    ensures
        processed(s, request_wire(request), to_monitor) == Ok::<StepView, ProtocolError>(
            plan(s, request),
        ),
        yielded(request, response_wire(served(s, request, outcome).1.response), to_client)
            == match served(s, request, outcome).1.response {
            Ok(payload) => Ok::<PayloadView, ClientErrorView>(payload),
            Err(message) => Err(ClientErrorView::Refused(message)),
        },
        served(s, request, outcome).1.response matches Ok(payload) ==> payload.payload_type()
            == request.kind().spec_reply_type(),
{
    let reply = served(s, request, outcome).1;
    let sent = request_wire(request);
    let back = response_wire(reply.response);
    lemma_request_round_trip(request, Seq::empty());
    assert(sent + Seq::<u8>::empty() =~= sent);
    assert(sent.take(sent.len() as int) =~= sent);
    lemma_reply_has_declared_type(s, request, outcome);
    lemma_response_round_trip(reply.response, request.kind().spec_reply_type(), Seq::empty());
    assert(back + Seq::<u8>::empty() =~= back);
    assert(back.take(back.len() as int) =~= back);
}

} // verus!
