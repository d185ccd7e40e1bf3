use vstd::prelude::*;
use vstd::string::*;
use crate::error::{Error, ErrorKind};
use crate::request::{relative_path, target_url, RequestKey};
use crate::upstream::{url_join, Origin, UpstreamDescriptor};

verus! {

/// What the caller reports back after carrying out an action.
#[derive(Debug)]
pub enum Event {
    /// The identity provider issued a bearer token.
    TokenIssued { secret: String },
    /// The identity provider could not issue a token.
    TokenRefused { cause: String },
    /// The upstream answered with this status and declared length.
    Responded { status: u16, content_length: Option<u64> },
    /// The request to the upstream failed below HTTP.
    TransportFailed { cause: String },
}

/// What the caller is to do next for the request.
#[derive(Debug)]
pub enum Action {
    /// Ask the identity provider for a token of this scope.
    ObtainToken { scope: String },
    /// Send a GET to `url`, with this bearer token if there is one.
    Fetch { url: String, bearer: Option<String> },
    /// Serve the last response as it came: status, headers and body.
    Passthrough,
    /// Serve the last response through the tee, which stages a copy of
    /// `content_length` bytes for the mirror.
    TeeAndPublish { content_length: u64 },
    /// No upstream has the artifact: answer not-found with an empty body.
    NotFound,
    /// The request fails with this error.
    Fail(Error),
}

/// Where the request stands.
#[derive(Debug)]
pub enum Phase {
    /// Waiting for the token that the fetch of `url` needs.
    Authenticating { url: String },
    /// Waiting for the answer of the current candidate.
    Fetching,
    /// The request is settled: no further upstream is asked.
    Done,
}

/// The decisions of one request: candidates are tried strictly in order,
/// and the first successful answer settles the request.
#[derive(Debug)]
pub struct ProxyHandler {
    pub candidates: Vec<UpstreamDescriptor>,
    pub key: RequestKey,
    pub caching: bool,
    pub position: usize,
    pub phase: Phase,
}

pub const TOKEN_FAILED: &'static str = "failed to get token";

pub const SEND_FAILED: &'static str = "failed to send request";

pub const NO_CONTENT_LENGTH: &'static str = "failed to get content length";

pub const UNEXPECTED_EVENT: &'static str = "event does not fit the state of the request";

/// A successful HTTP status.
pub open spec fn is_success(status: u16) -> bool {
    200 <= status < 300
}

/// Whether a successful answer of `d` is staged for the mirror.
pub open spec fn is_cached(caching: bool, d: UpstreamDescriptor) -> bool {
    caching && d.origin == Origin::Explicit
}

/// The handler `post` and action `a` that settle on candidate `i` of `pre`.
pub open spec fn selects(pre: ProxyHandler, i: int, post: ProxyHandler, a: Action) -> bool {
    &&& post.candidates == pre.candidates
    &&& post.key == pre.key
    &&& post.caching == pre.caching
    &&& post.position == i
    &&& if i >= pre.candidates@.len() {
        a is NotFound && post.phase is Done
    } else {
        let d = pre.candidates@[i];
        match url_join(d.base_url@, relative_path(pre.key)) {
            None => (a matches Action::Fail(e) && e.kind == ErrorKind::Misconfiguration)
                && post.phase is Done,
            Some(u) => match d.auth_scope {
                Some(s) => a == Action::ObtainToken { scope: s } && (post.phase matches Phase::Authenticating { url } && url@ == u),
                None => (a matches Action::Fetch { url, bearer } && url@ == u && bearer is None)
                    && post.phase is Fetching,
            },
        }
    }
}

/// The effect of one event on a handler: the next handler and the action.
pub open spec fn step(pre: ProxyHandler, e: Event, post: ProxyHandler, a: Action) -> bool {
    match (pre.phase, e) {
        (Phase::Authenticating { url }, Event::TokenIssued { secret }) => {
            &&& a == Action::Fetch { url: url, bearer: Some(secret) }
            &&& post == ProxyHandler { phase: Phase::Fetching, ..pre }
        },
        (Phase::Authenticating { url }, Event::TokenRefused { cause }) => {
            &&& a matches Action::Fail(err) && err.kind == ErrorKind::Authentication
            &&& post == ProxyHandler { phase: Phase::Done, ..pre }
        },
        (Phase::Fetching, Event::Responded { status, content_length }) => {
            if is_success(status) {
                &&& post == ProxyHandler { phase: Phase::Done, ..pre }
                &&& if is_cached(pre.caching, pre.candidates@[pre.position as int]) {
                    match content_length {
                        Some(n) => a == Action::TeeAndPublish { content_length: n },
                        None => a matches Action::Fail(err) && err.kind == ErrorKind::Misconfiguration,
                    }
                } else {
                    a is Passthrough
                }
            } else {
                selects(pre, pre.position + 1, post, a)
            }
        },
        (Phase::Fetching, Event::TransportFailed { cause }) => {
            &&& a matches Action::Fail(err) && err.kind == ErrorKind::Transport
            &&& post == ProxyHandler { phase: Phase::Done, ..pre }
        },
        _ => {
            &&& a matches Action::Fail(err) && err.kind == ErrorKind::Misconfiguration
            &&& post == ProxyHandler { phase: Phase::Done, ..pre }
        },
    }
}

/// `hs`, `es` and `acts` are a run of a request: each event takes one
/// handler to the next and gives one action.
pub open spec fn is_run(hs: Seq<ProxyHandler>, es: Seq<Event>, acts: Seq<Action>) -> bool {
    &&& hs.len() == es.len() + 1
    &&& acts.len() == es.len()
    &&& forall|k: int| 0 <= k < es.len() ==> step(hs[k], #[trigger] es[k], hs[k + 1], acts[k])
}

proof fn lemma_settled_from(hs: Seq<ProxyHandler>, es: Seq<Event>, acts: Seq<Action>, k: int)
    requires
        is_run(hs, es, acts),
        1 <= k < hs.len(),
        hs[1].phase is Done,
    ensures
        hs[k].phase is Done,
        hs[k].position == hs[1].position,
        k < hs.len() - 1 ==> acts[k] is Fail,
    decreases k,
{
    if k > 1 {
        lemma_settled_from(hs, es, acts, k - 1);
        assert(step(hs[k - 1], es[k - 1], hs[k], acts[k - 1]));
    }
    if k < hs.len() - 1 {
        assert(step(hs[k], es[k], hs[k + 1], acts[k]));
    }
}

/// Fallback stops at the first success: once the candidate being asked
/// answers with a successful status, no event that follows makes the
/// request fetch from, or ask a token for, any candidate again, and the
/// request stays settled on that candidate.
pub proof fn lemma_no_request_after_success(hs: Seq<ProxyHandler>, es: Seq<Event>, acts: Seq<Action>)
    requires
        is_run(hs, es, acts),
        es.len() >= 1,
        hs[0].phase is Fetching,
        es[0] matches Event::Responded { status, .. } && is_success(status),
    ensures
        forall|k: int| 0 <= k < acts.len() ==> !(acts[k] is Fetch) && !(acts[k] is ObtainToken),
        forall|k: int| 0 <= k < hs.len() ==> #[trigger] hs[k].position == hs[0].position,
{
    assert(step(hs[0], es[0], hs[1], acts[0]));
    assert forall|k: int| 0 <= k < acts.len() implies !(acts[k] is Fetch) && !(acts[k] is ObtainToken) by {
        if k >= 1 {
            lemma_settled_from(hs, es, acts, k);
        }
    }
    assert forall|k: int| 0 <= k < hs.len() implies #[trigger] hs[k].position == hs[0].position by {
        if k >= 1 {
            lemma_settled_from(hs, es, acts, k);
        }
    }
}

/// A request carries nothing over from earlier ones: two requests started
/// on the same candidates, key and caching choice ask the same candidate
/// first, with the same token scope or the same fetch, and settle the
/// same way where they settle at once.
pub proof fn lemma_requests_start_alike(pre: ProxyHandler, h1: ProxyHandler, a1: Action, h2: ProxyHandler, a2: Action)
    requires
        selects(pre, 0, h1, a1),
        selects(pre, 0, h2, a2),
    ensures
        h1.position == h2.position,
        h1.candidates == h2.candidates,
        h1.key == h2.key,
        h1.caching == h2.caching,
        a1 is ObtainToken ==> a1 == a2,
        a1 is Fetch ==> a2 is Fetch && a1->Fetch_url@ == a2->Fetch_url@ && a1->bearer == a2->bearer,
        a1 is NotFound <==> a2 is NotFound,
        a1 is Fail <==> a2 is Fail,
{
}

impl ProxyHandler {
    /// The position never passes the end of the candidates, and a request
    /// that is not settled stands on a candidate.
    pub open spec fn wf(&self) -> bool {
        &&& self.position <= self.candidates@.len()
        &&& !(self.phase is Done) ==> self.position < self.candidates@.len()
    }

    /// Settles on candidate `i`: not-found past the last one, else the
    /// token or the fetch that asking it takes.
    fn select(&mut self, i: usize) -> (a: Action)
        requires
            i <= old(self).candidates@.len(),
        ensures
            selects(*old(self), i as int, *final(self), a),
            final(self).wf(),
    {
        self.position = i;
        if i >= self.candidates.len() {
            self.phase = Phase::Done;
            return Action::NotFound;
        }
        match target_url(&self.candidates[i], &self.key) {
            Err(e) => {
                self.phase = Phase::Done;
                Action::Fail(e)
            },
            Ok(url) => match &self.candidates[i].auth_scope {
                Some(s) => {
                    let scope = s.clone();
                    self.phase = Phase::Authenticating { url };
                    Action::ObtainToken { scope }
                },
                None => {
                    self.phase = Phase::Fetching;
                    Action::Fetch { url, bearer: None }
                },
            },
        }
    }

    /// A request for `key` over `candidates` in their order, with the
    /// action it starts with.
    pub fn start(candidates: Vec<UpstreamDescriptor>, key: RequestKey, caching: bool) -> (r: (
        ProxyHandler,
        Action,
    ))
        ensures
            r.0.wf(),
            selects(
                ProxyHandler { candidates, key, caching, position: 0, phase: Phase::Fetching },
                0,
                r.0,
                r.1,
            ),
    {
        let mut h = ProxyHandler { candidates, key, caching, position: 0, phase: Phase::Fetching };
        let a = h.select(0);
        (h, a)
    }

    /// Takes the outcome of the last action and gives the next one.
    pub fn handle(&mut self, event: Event) -> (a: Action)
        requires
            old(self).wf(),
        ensures
            final(self).wf(),
            step(*old(self), event, *final(self), a),
    {
        let mut phase = Phase::Done;
        core::mem::swap(&mut phase, &mut self.phase);
        match (phase, event) {
            (Phase::Authenticating { url }, Event::TokenIssued { secret }) => {
                self.phase = Phase::Fetching;
                Action::Fetch { url, bearer: Some(secret) }
            },
            (Phase::Authenticating { url }, Event::TokenRefused { cause }) => {
                Action::Fail(Error::with_cause(ErrorKind::Authentication, TOKEN_FAILED, cause.as_str()))
            },
            (Phase::Fetching, Event::Responded { status, content_length }) => {
                if 200 <= status && status < 300 {
                    let cached = self.caching && self.candidates[self.position].origin == Origin::Explicit;
                    if cached {
                        match content_length {
                            Some(n) => Action::TeeAndPublish { content_length: n },
                            None => Action::Fail(Error::new(ErrorKind::Misconfiguration, NO_CONTENT_LENGTH)),
                        }
                    } else {
                        Action::Passthrough
                    }
                } else {
                    let len = self.candidates.len();
                    assert(self.position < len);
                    self.phase = Phase::Fetching;
                    let next = self.position + 1;
                    self.select(next)
                }
            },
            (Phase::Fetching, Event::TransportFailed { cause }) => {
                Action::Fail(Error::with_cause(ErrorKind::Transport, SEND_FAILED, cause.as_str()))
            },
            _ => Action::Fail(Error::new(ErrorKind::Misconfiguration, UNEXPECTED_EVENT)),
        }
    }
}

} // verus!
