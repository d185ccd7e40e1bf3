use vstd::prelude::*;
use vstd::string::*;
use crate::error::{Error, ErrorKind};

verus! {

/// What the caller reports back while it runs the tee.
#[derive(Debug)]
pub enum TeeEvent {
    /// A chunk was read from the upstream body.
    Chunk(Vec<u8>),
    /// The chunk of the last `Write` is in the staging file.
    Written,
    /// The chunk of the last `Forward` was handed to the client.
    Forwarded,
    /// The upstream body ended.
    StreamEnded,
    /// Reading, writing or forwarding failed.
    Failed { cause: String },
}

/// What the caller is to do next.
#[derive(Debug)]
pub enum TeeAction {
    /// Append these bytes to the staging file.
    Write(Vec<u8>),
    /// Hand these bytes to the client's response body.
    Forward(Vec<u8>),
    /// Read the next chunk of the upstream body.
    ReadNext,
    /// Close the staging file: it is complete and goes to the publisher.
    Close,
    /// Give up the staging: nothing is published, and the client's body
    /// ends in an error.
    Abort(Error),
}

#[derive(Debug, Clone, Copy, PartialEq, Eq, Structural)]
pub enum TeePhase {
    Reading,
    Writing,
    Forwarding,
    Closed,
    Aborted,
}

/// One upstream body copied to the staging file and to the client: every
/// chunk is written before it is forwarded, and the file is only handed on
/// once it holds exactly the declared length.
pub struct TeeStreamer {
    declared: u64,
    written_len: u64,
    pending: Option<Vec<u8>>,
    phase: TeePhase,
    written: Ghost<Seq<u8>>,
    forwarded: Ghost<Seq<u8>>,
    in_flight: Ghost<Seq<u8>>,
}

pub const TOO_LONG: &'static str = "upstream sent more than its declared length";

pub const TOO_SHORT: &'static str = "upstream ended before its declared length";

pub const STAGING_FAILED: &'static str = "failed to stage chunk";

pub const OUT_OF_ORDER: &'static str = "event does not fit the state of the tee";

fn copy_bytes(v: &Vec<u8>) -> (r: Vec<u8>)
    ensures
        r@ == v@,
{
    let mut r: Vec<u8> = Vec::with_capacity(v.len());
    let mut i: usize = 0;
    while i < v.len()
        invariant
            i <= v@.len(),
            r@ == v@.subrange(0, i as int),
        decreases v@.len() - i,
    {
        r.push(v[i]);
        i = i + 1;
        assert(r@ =~= v@.subrange(0, i as int));
    }
    assert(v@.subrange(0, v@.len() as int) =~= v@);
    r
}

/// `a` is a prefix of `b`.
pub open spec fn is_prefix(a: Seq<u8>, b: Seq<u8>) -> bool {
    a.len() <= b.len() && a == b.subrange(0, a.len() as int)
}

/// `post` gives up the staging of `pre` with `a`: file and client keep
/// what they had.
pub open spec fn aborted_from(pre: TeeStreamer, post: TeeStreamer, a: TeeAction) -> bool {
    &&& a matches TeeAction::Abort(e) && e.kind == ErrorKind::Staging
    &&& post.phase() == TeePhase::Aborted
    &&& post.declared() == pre.declared()
    &&& post.written() == pre.written()
    &&& post.forwarded() == pre.forwarded()
}

/// The effect of one event on a tee: the next tee and the action.
pub open spec fn tee_step(pre: TeeStreamer, e: TeeEvent, post: TeeStreamer, a: TeeAction) -> bool {
    match e {
        TeeEvent::Failed { .. } => aborted_from(pre, post, a),
        TeeEvent::Chunk(c) => if pre.phase() != TeePhase::Reading {
            aborted_from(pre, post, a)
        } else if pre.written().len() + c@.len() > pre.declared() {
            aborted_from(pre, post, a)
        } else {
            &&& a matches TeeAction::Write(w) && w@ == c@
            &&& post.phase() == TeePhase::Writing
            &&& post.pending() == c@
            &&& post.declared() == pre.declared()
            &&& post.written() == pre.written()
            &&& post.forwarded() == pre.forwarded()
        },
        TeeEvent::Written => if pre.phase() != TeePhase::Writing {
            aborted_from(pre, post, a)
        } else {
            &&& a matches TeeAction::Forward(f) && f@ == pre.pending()
            &&& post.phase() == TeePhase::Forwarding
            &&& post.declared() == pre.declared()
            &&& post.written() == pre.written() + pre.pending()
            &&& post.forwarded() == pre.forwarded()
        },
        TeeEvent::Forwarded => if pre.phase() != TeePhase::Forwarding {
            aborted_from(pre, post, a)
        } else {
            &&& a is ReadNext
            &&& post.phase() == TeePhase::Reading
            &&& post.declared() == pre.declared()
            &&& post.written() == pre.written()
            &&& post.forwarded() == pre.written()
        },
        TeeEvent::StreamEnded => if pre.phase() != TeePhase::Reading {
            aborted_from(pre, post, a)
        } else if pre.written().len() == pre.declared() {
            &&& a is Close
            &&& post.phase() == TeePhase::Closed
            &&& post.declared() == pre.declared()
            &&& post.written() == pre.written()
            &&& post.forwarded() == pre.forwarded()
        } else {
            aborted_from(pre, post, a)
        },
    }
}

/// `ts`, `es` and `acts` are a run of a tee: each event takes one tee to
/// the next and gives one action.
pub open spec fn is_tee_run(ts: Seq<TeeStreamer>, es: Seq<TeeEvent>, acts: Seq<TeeAction>) -> bool {
    &&& ts.len() == es.len() + 1
    &&& acts.len() == es.len()
    &&& forall|k: int| 0 <= k < es.len() ==> tee_step(ts[k], #[trigger] es[k], ts[k + 1], acts[k])
}

/// In every well-formed tee the client has a prefix of what the staging
/// file holds, and the file holds no more than the declared length.
pub proof fn lemma_forwarded_is_prefix_of_written(t: TeeStreamer)
    requires
        t.wf(),
    ensures
        is_prefix(t.forwarded(), t.written()),
        t.written().len() <= t.declared(),
{
}

proof fn lemma_declared_kept(ts: Seq<TeeStreamer>, es: Seq<TeeEvent>, acts: Seq<TeeAction>, k: int)
    requires
        is_tee_run(ts, es, acts),
        0 <= k < ts.len(),
    ensures
        ts[k].declared() == ts[0].declared(),
    decreases k,
{
    if k > 0 {
        lemma_declared_kept(ts, es, acts, k - 1);
        assert(tee_step(ts[k - 1], es[k - 1], ts[k], acts[k - 1]));
    }
}

/// The staging file is handed on only when complete: wherever a run of a
/// tee closes the file, it holds exactly the length that the body declared
/// at the start; and a body that ends short is given up, never closed.
pub proof fn lemma_closed_only_when_complete(ts: Seq<TeeStreamer>, es: Seq<TeeEvent>, acts: Seq<TeeAction>)
    requires
        is_tee_run(ts, es, acts),
    ensures
        forall|k: int| 0 <= k < acts.len() && #[trigger] acts[k] is Close ==> ts[k + 1].written().len()
            == ts[0].declared(),
        forall|k: int|
            0 <= k < acts.len() && #[trigger] es[k] is StreamEnded && ts[k].written().len() < ts[k].declared()
                ==> acts[k] is Abort,
{
    assert forall|k: int| 0 <= k < acts.len() && #[trigger] acts[k] is Close implies ts[k + 1].written().len()
        == ts[0].declared() by {
        assert(tee_step(ts[k], es[k], ts[k + 1], acts[k]));
        lemma_declared_kept(ts, es, acts, k);
    }
    assert forall|k: int|
        0 <= k < acts.len() && #[trigger] es[k] is StreamEnded && ts[k].written().len() < ts[k].declared()
        implies acts[k] is Abort by {
        assert(tee_step(ts[k], es[k], ts[k + 1], acts[k]));
    }
}

impl TeeStreamer {
    /// The declared length of the body, to which the file is sized.
    pub closed spec fn declared(&self) -> nat {
        self.declared as nat
    }

    /// The bytes that are in the staging file.
    pub closed spec fn written(&self) -> Seq<u8> {
        self.written@
    }

    /// The bytes handed to the client.
    pub closed spec fn forwarded(&self) -> Seq<u8> {
        self.forwarded@
    }

    /// The bytes read and handed out to be written, not yet confirmed.
    pub closed spec fn pending(&self) -> Seq<u8> {
        match self.pending {
            Some(c) => c@,
            None => Seq::empty(),
        }
    }

    pub closed spec fn phase(&self) -> TeePhase {
        self.phase
    }

    /// The client never has a byte that is not in the file, the file never
    /// exceeds the declared length, and a chunk is pending only while it is
    /// being written.
    pub closed spec fn wf(&self) -> bool {
        &&& self.written_len as nat == self.written@.len()
        &&& self.written@.len() + self.pending().len() <= self.declared
        &&& is_prefix(self.forwarded@, self.written@)
        &&& (self.phase == TeePhase::Writing) == (self.pending is Some)
        &&& self.phase == TeePhase::Forwarding ==> self.written@ == self.forwarded@ + self.in_flight@
        &&& (self.phase == TeePhase::Reading || self.phase == TeePhase::Writing) ==> self.forwarded@
            == self.written@
    }

    /// The tee of a body that declares `content_length` bytes.
    pub fn new(content_length: u64) -> (r: TeeStreamer)
        ensures
            r.wf(),
            r.declared() == content_length,
            r.written() == Seq::<u8>::empty(),
            r.forwarded() == Seq::<u8>::empty(),
            r.pending() == Seq::<u8>::empty(),
            r.phase() == TeePhase::Reading,
    {
        assert(Seq::<u8>::empty().subrange(0, 0) =~= Seq::<u8>::empty());
        TeeStreamer {
            declared: content_length,
            written_len: 0,
            pending: None,
            phase: TeePhase::Reading,
            written: Ghost(Seq::empty()),
            forwarded: Ghost(Seq::empty()),
            in_flight: Ghost(Seq::empty()),
        }
    }

    /// Takes what the caller reports and gives the next action.
    pub fn handle(&mut self, event: TeeEvent) -> (a: TeeAction)
        requires
            old(self).wf(),
        ensures
            final(self).wf(),
            tee_step(*old(self), event, *final(self), a),
    {
        match event {
            TeeEvent::Failed { cause } => {
                self.phase = TeePhase::Aborted;
                self.pending = None;
                TeeAction::Abort(Error::with_cause(ErrorKind::Staging, STAGING_FAILED, cause.as_str()))
            },
            TeeEvent::Chunk(c) => {
                if self.phase != TeePhase::Reading {
                    return self.out_of_order();
                }
                if c.len() as u64 > self.declared - self.written_len {
                    self.phase = TeePhase::Aborted;
                    return TeeAction::Abort(Error::new(ErrorKind::Staging, TOO_LONG));
                }
                let copy = copy_bytes(&c);
                self.pending = Some(c);
                self.phase = TeePhase::Writing;
                TeeAction::Write(copy)
            },
            TeeEvent::Written => {
                if self.phase != TeePhase::Writing {
                    return self.out_of_order();
                }
                let mut taken: Option<Vec<u8>> = None;
                core::mem::swap(&mut taken, &mut self.pending);
                match taken {
                    Some(c) => {
                        self.written_len = self.written_len + c.len() as u64;
                        self.written = Ghost(self.written@ + c@);
                        self.in_flight = Ghost(c@);
                        assert(self.written@ =~= self.forwarded@ + self.in_flight@);
                        assert(self.written@.subrange(0, self.forwarded@.len() as int) =~= self.forwarded@);
                        self.phase = TeePhase::Forwarding;
                        TeeAction::Forward(c)
                    },
                    None => self.out_of_order(),
                }
            },
            TeeEvent::Forwarded => {
                if self.phase != TeePhase::Forwarding {
                    return self.out_of_order();
                }
                self.forwarded = Ghost(self.forwarded@ + self.in_flight@);
                assert(self.written@.subrange(0, self.written@.len() as int) =~= self.written@);
                self.phase = TeePhase::Reading;
                TeeAction::ReadNext
            },
            TeeEvent::StreamEnded => {
                if self.phase != TeePhase::Reading {
                    return self.out_of_order();
                }
                if self.written_len == self.declared {
                    self.phase = TeePhase::Closed;
                    TeeAction::Close
                } else {
                    self.phase = TeePhase::Aborted;
                    TeeAction::Abort(Error::new(ErrorKind::Staging, TOO_SHORT))
                }
            },
        }
    }

    fn out_of_order(&mut self) -> (a: TeeAction)
        requires
            old(self).wf(),
        ensures
            final(self).wf(),
            aborted_from(*old(self), *final(self), a),
    {
        self.phase = TeePhase::Aborted;
        self.pending = None;
        TeeAction::Abort(Error::new(ErrorKind::Staging, OUT_OF_ORDER))
    }

    /// The number of bytes in the staging file.
    pub fn written_len(&self) -> (r: u64)
        requires
            self.wf(),
        ensures
            r == self.written().len(),
    {
        self.written_len
    }
}

} // verus!
