use vstd::prelude::*;
use crate::identity::{
    find_label, holds_key, is_first_match, label_for, lemma_first_match_exists, unknown_identity,
    Identity,
};
use crate::notice::{body_of, notification_body, peer_view};
use crate::outcome::{classify, outcome_of, Outcome, ResponseKind};

verus! {

/// Where a session stands. Requests are handled one at a time: a new request
/// is taken only in `Idle`.
pub enum Phase<Req> {
    /// Ready for the next request.
    Idle,
    /// A signing request waits for the target's identity list.
    Listing { request: Req, key: Vec<u8> },
    /// A request has been forwarded and its response is awaited; `notified`
    /// tells whether a notice was opened for it.
    Awaiting { notified: bool },
}

/// One client connection's forwarding session. `Req` and `Resp` are the
/// agent's request and response values, which the session hands on untouched.
pub struct ForwardingSession<Req> {
    /// Who is on the other end of the connection, when the transport tells.
    pub peer_info: Option<String>,
    pub phase: Phase<Req>,
}

/// What the driver of a session reports to it.
pub enum Event<Req, Resp> {
    /// A client request; `sign_key` is the encoded public key when it is a
    /// signing request.
    Request { request: Req, sign_key: Option<Vec<u8>> },
    /// The target agent listed these identities.
    Identities(Vec<Identity>),
    /// The target agent answered the forwarded request.
    Response { response: Resp, kind: ResponseKind },
}

/// What the driver of a session is to do next.
pub enum Action<Req, Resp> {
    /// Ask the target agent for its identities.
    ListIdentities,
    /// Open a notice with this body, when there is one, without waiting on
    /// it; then send `request` to the target agent.
    Forward { request: Req, notice: Option<String> },
    /// Hand `outcome`'s title to the open notice, when there is one, without
    /// waiting on it; then return `response` to the client.
    Reply { response: Resp, outcome: Option<Outcome> },
    /// The event does not fit the session's phase; nothing changed.
    OutOfOrder,
}

/// `r` forwards `request` with a notice whose body is `notice`.
pub open spec fn forwards<Req, Resp>(r: Action<Req, Resp>, request: Req, notice: Option<Seq<char>>) -> bool {
    match r {
        Action::Forward { request: q, notice: n } => q == request && peer_view(n) == notice,
        _ => false,
    }
}

/// The session `s`, on event `e`, becomes `t` and asks for `r`.
pub open spec fn transition<Req, Resp>(
    s: ForwardingSession<Req>,
    e: Event<Req, Resp>,
    t: ForwardingSession<Req>,
    r: Action<Req, Resp>,
) -> bool {
    let unchanged = t.phase == s.phase && r is OutOfOrder;
    &&& t.peer_info == s.peer_info
    &&& match s.phase {
        Phase::Idle => match e {
            Event::Request { request, sign_key } => match sign_key {
                Some(k) => t.phase == (Phase::Listing { request, key: k }) && r is ListIdentities,
                None => t.phase == (Phase::<Req>::Awaiting { notified: false }) && forwards(
                    r,
                    request,
                    None,
                ),
            },
            _ => unchanged,
        },
        Phase::Listing { request, key } => match e {
            Event::Identities(ids) => t.phase == (Phase::<Req>::Awaiting { notified: true })
                && forwards(
                r,
                request,
                Some(body_of(peer_view(s.peer_info), label_for(ids@, key@))),
            ),
            _ => unchanged,
        },
        Phase::Awaiting { notified } => match e {
            Event::Response { response, kind } => t.phase is Idle && r == (Action::<Req, Resp>::Reply {
                response,
                outcome: if notified {
                    Some(outcome_of(kind))
                } else {
                    None
                },
            }),
            _ => unchanged,
        },
    }
}

/// `t` occurs in `s` as a run of consecutive characters.
pub open spec fn contains(s: Seq<char>, t: Seq<char>) -> bool {
    exists|k: int| 0 <= k && k + t.len() <= s.len() && #[trigger] s.subrange(k, k + t.len()) == t
}

/// The notice body ends with the identity label, so it contains it.
proof fn lemma_body_contains_label(peer: Option<Seq<char>>, label: Seq<char>)
    ensures
        contains(body_of(peer, label), label),
{
    let b = body_of(peer, label);
    let k = b.len() - label.len();
    assert(b.subrange(k, k + label.len()) =~= label);
}

/// A request that is not a signing request reaches the target untouched and
/// opens no notice; the target's response to it comes back untouched, with no
/// outcome to report, and the session is ready again.
pub proof fn lemma_pass_through<Req, Resp>(
    s0: ForwardingSession<Req>,
    request: Req,
    s1: ForwardingSession<Req>,
    r1: Action<Req, Resp>,
    response: Resp,
    kind: ResponseKind,
    s2: ForwardingSession<Req>,
    r2: Action<Req, Resp>,
)
    requires
        s0.phase is Idle,
        transition(s0, Event::Request { request, sign_key: None }, s1, r1),
        transition(s1, Event::Response { response, kind }, s2, r2),
    ensures
        forwards(r1, request, None),
        r2 == (Action::<Req, Resp>::Reply { response, outcome: None }),
        s2.phase is Idle,
{
}

/// For a signing request the identities are listed first; then the request is
/// forwarded untouched with a notice whose body holds the comment of the first
/// listed identity with the requested key, or `<unknown identity>` when no
/// listed identity has it.
pub proof fn lemma_notice_names_identity<Req, Resp>(
    s0: ForwardingSession<Req>,
    request: Req,
    key: Vec<u8>,
    s1: ForwardingSession<Req>,
    r1: Action<Req, Resp>,
    ids: Vec<Identity>,
    s2: ForwardingSession<Req>,
    r2: Action<Req, Resp>,
)
    requires
        s0.phase is Idle,
        transition(s0, Event::Request { request, sign_key: Some(key) }, s1, r1),
        transition(s1, Event::Identities(ids), s2, r2),
    ensures
        r1 is ListIdentities,
        s2.phase == (Phase::<Req>::Awaiting { notified: true }),
        match r2 {
            Action::Forward { request: q, notice: Some(b) } => {
                &&& q == request
                &&& holds_key(ids@, key@) ==> exists|i: int|
                    is_first_match(ids@, key@, i) && contains(b@, ids@[i].comment@)
                &&& !holds_key(ids@, key@) ==> contains(b@, unknown_identity())
            },
            _ => false,
        },
{
    let label = label_for(ids@, key@);
    lemma_body_contains_label(peer_view(s0.peer_info), label);
    if holds_key(ids@, key@) {
        lemma_first_match_exists(ids@, key@);
        let i = choose|i: int| is_first_match(ids@, key@, i);
        assert(label == ids@[i].comment@);
    }
}

/// Once a notice is open, the target's response comes back untouched,
/// whatever it is, and the notice is handed the outcome that the response
/// stands for; the session is then ready again.
pub proof fn lemma_notified_reply<Req, Resp>(
    s: ForwardingSession<Req>,
    response: Resp,
    kind: ResponseKind,
    t: ForwardingSession<Req>,
    r: Action<Req, Resp>,
)
    requires
        s.phase == (Phase::<Req>::Awaiting { notified: true }),
        transition(s, Event::Response { response, kind }, t, r),
    ensures
        r == (Action::<Req, Resp>::Reply { response, outcome: Some(outcome_of(kind)) }),
        t.phase is Idle,
{
}

impl<Req> ForwardingSession<Req> {
    /// A fresh session, ready for its first request.
    pub fn new(peer_info: Option<String>) -> (r: ForwardingSession<Req>)
        ensures
            r.peer_info == peer_info,
            r.phase is Idle,
    {
        ForwardingSession { peer_info, phase: Phase::Idle }
    }

    /// Whether the session is ready for a new request.
    pub fn is_idle(&self) -> (r: bool)
        ensures
            r == self.phase is Idle,
    {
        match self.phase {
            Phase::Idle => true,
            _ => false,
        }
    }

    /// Takes the next event and says what to do. A request that is not a
    /// signing request is forwarded at once, untouched. A signing request
    /// first has the identities listed; then a notice naming the client and
    /// the identity is opened and the request forwarded. The response goes
    /// back untouched, with the outcome for the notice if one was opened.
    pub fn on_event<Resp>(&mut self, event: Event<Req, Resp>) -> (r: Action<Req, Resp>)
        ensures
            transition(*old(self), event, *final(self), r),
    {
        let mut phase = Phase::Idle;
        std::mem::swap(&mut self.phase, &mut phase);
        match phase {
            Phase::Idle => match event {
                Event::Request { request, sign_key } => match sign_key {
                    Some(key) => {
                        self.phase = Phase::Listing { request, key };
                        Action::ListIdentities
                    },
                    None => {
                        self.phase = Phase::Awaiting { notified: false };
                        Action::Forward { request, notice: None }
                    },
                },
                _ => {
                    self.phase = Phase::Idle;
                    Action::OutOfOrder
                },
            },
            Phase::Listing { request, key } => match event {
                Event::Identities(ids) => {
                    let label = find_label(&ids, &key);
                    let body = notification_body(&self.peer_info, &label);
                    self.phase = Phase::Awaiting { notified: true };
                    Action::Forward { request, notice: Some(body) }
                },
                _ => {
                    self.phase = Phase::Listing { request, key };
                    Action::OutOfOrder
                },
            },
            Phase::Awaiting { notified } => match event {
                Event::Response { response, kind } => {
                    self.phase = Phase::Idle;
                    let outcome = if notified {
                        Some(classify(kind))
                    } else {
                        None
                    };
                    Action::Reply { response, outcome }
                },
                _ => {
                    self.phase = Phase::Awaiting { notified };
                    Action::OutOfOrder
                },
            },
        }
    }
}

} // verus!
