//! Session correlator: pairs outgoing requests with their responses.
//!
//! The correlator owns the in-flight request state of one serial link.
//! The protocol gives no sign of pipelining support, so at most one
//! request is outstanding at a time; `send` calls made while one is
//! outstanding are queued and dispatched, in order, as the link becomes
//! free. Ids grow monotonically, wrapping at the top, and a fresh id
//! always skips the id still pending so a late response can never be
//! paired with the wrong request.
//!
//! The correlator performs no I/O and never blocks: every operation
//! returns the bytes that must go out on the wire, and the caller's
//! transport writes them and feeds received bytes back in.

use vstd::prelude::*;
use crate::codec::spec_frame;
use crate::reassembler::FrameEvent;
use crate::reassembler::FrameEventModel;
use crate::types::EncodingError;
use crate::types::FrameError;
use crate::types::MAX_PAYLOAD_LEN;
use crate::types::Message;
use crate::types::MessageKind;
use crate::types::MessageModel;
use crate::types::code_of_kind;
use crate::types::kind_encodable;

verus! {

/// `a + b`, saturating at the top of the tick range.
pub open spec fn sat_add64(a: u64, b: u64) -> u64 {
    if a + b > u64::MAX {
        u64::MAX
    } else {
        (a + b) as u64
    }
}

/// The successor of an id, wrapping at the top.
pub open spec fn wrap_inc(x: u32) -> u32 {
    if x == u32::MAX {
        0
    } else {
        (x + 1) as u32
    }
}

/// A request that has been written to the wire and is awaiting its
/// response. Owned exclusively by the correlator; the id is the only
/// externally visible handle.
#[derive(Debug)]
pub struct PendingRequest {
    /// Correlation id the response must carry.
    pub id: u32,
    /// The exact frame that went out, kept for retries.
    pub frame: Vec<u8>,
    /// Tick at which the request times out.
    pub deadline: u64,
    /// Retries left before the request fails with a timeout.
    pub retries_remaining: u8,
}

/// Mathematical model of a [`PendingRequest`].
pub ghost struct PendingModel {
    /// Correlation id.
    pub id: u32,
    /// The frame bytes that went out.
    pub frame: Seq<u8>,
    /// Tick at which the request times out.
    pub deadline: u64,
    /// Retries left.
    pub retries_remaining: u8,
}

impl View for PendingRequest {
    type V = PendingModel;

    open spec fn view(&self) -> PendingModel {
        PendingModel {
            id: self.id,
            frame: self.frame@,
            deadline: self.deadline,
            retries_remaining: self.retries_remaining,
        }
    }
}

/// A request accepted while another was outstanding, waiting for the
/// link to become free.
#[derive(Debug)]
pub struct QueuedRequest {
    /// Correlation id assigned when the request was accepted.
    pub id: u32,
    /// The encoded frame, ready to go out.
    pub frame: Vec<u8>,
}

/// Mathematical model of a [`QueuedRequest`].
pub ghost struct QueuedModel {
    /// Correlation id.
    pub id: u32,
    /// The encoded frame.
    pub frame: Seq<u8>,
}

impl View for QueuedRequest {
    type V = QueuedModel;

    open spec fn view(&self) -> QueuedModel {
        QueuedModel { id: self.id, frame: self.frame@ }
    }
}

/// An event the correlator reports to the application.
#[derive(Debug)]
pub enum SessionEvent {
    /// The outstanding request's response arrived and the request is
    /// resolved.
    Resolved(Message),
    /// A well-formed frame arrived whose id matches no outstanding
    /// request; not fatal.
    StrayResponse(Message),
    /// The reassembler reported a framing error; not fatal.
    FramingError(FrameError),
}

/// Mathematical model of a [`SessionEvent`].
pub ghost enum SessionEventModel {
    /// The outstanding request was resolved by this message.
    Resolved(MessageModel),
    /// A frame with an unmatched id.
    StrayResponse(MessageModel),
    /// A framing error passed through.
    FramingError(FrameError),
}

impl View for SessionEvent {
    type V = SessionEventModel;

    open spec fn view(&self) -> SessionEventModel {
        match self {
            SessionEvent::Resolved(m) => SessionEventModel::Resolved(m.view()),
            SessionEvent::StrayResponse(m) => SessionEventModel::StrayResponse(m.view()),
            SessionEvent::FramingError(e) => SessionEventModel::FramingError(*e),
        }
    }
}

/// What one `tick` call did.
#[derive(Debug)]
pub enum TickOutcome {
    /// Nothing was due.
    Idle,
    /// The outstanding request with this id passed its deadline and its
    /// identical frame must be re-sent.
    Resend(u32, Vec<u8>),
    /// The request with this id exhausted its retries and is resolved as
    /// timed out; if a queued request was dispatched in its place, its
    /// frame must be written.
    Timeout(u32, Option<Vec<u8>>),
}

/// Mathematical model of a [`TickOutcome`].
pub ghost enum TickModel {
    /// Nothing was due.
    Idle,
    /// Re-send this frame for this id.
    Resend(u32, Seq<u8>),
    /// This id timed out; a dispatched successor's frame, if any.
    Timeout(u32, Option<Seq<u8>>),
}

impl View for TickOutcome {
    type V = TickModel;

    open spec fn view(&self) -> TickModel {
        match self {
            TickOutcome::Idle => TickModel::Idle,
            TickOutcome::Resend(id, f) => TickModel::Resend(*id, f@),
            TickOutcome::Timeout(id, w) => TickModel::Timeout(
                *id,
                match w {
                    Some(f) => Some(f@),
                    None => None,
                },
            ),
        }
    }
}

/// What accepting a request produced: its id, and the frame to write now
/// if the link was free (`None` means the request was queued).
#[derive(Debug, PartialEq, Eq)]
pub struct SendOutcome {
    /// The id assigned to the request.
    pub id: u32,
    /// The frame to hand to the transport now, if dispatched.
    pub wire: Option<Vec<u8>>,
}

/// Mathematical model of a [`SendOutcome`].
pub ghost struct SendModel {
    /// The assigned id.
    pub id: u32,
    /// The dispatched frame, if the link was free.
    pub wire: Option<Seq<u8>>,
}

impl View for SendOutcome {
    type V = SendModel;

    open spec fn view(&self) -> SendModel {
        SendModel {
            id: self.id,
            wire: match &self.wire {
                Some(f) => Some(f@),
                None => None,
            },
        }
    }
}

/// Mathematical model of a [`SessionCorrelator`].
pub ghost struct CorrelatorModel {
    /// Next id candidate to assign.
    pub next_id: u32,
    /// Ticks a request may wait before a retry or timeout.
    pub timeout: u64,
    /// Retries granted to every request.
    pub retries: u8,
    /// The outstanding request, if any.
    pub pending: Option<PendingModel>,
    /// Requests waiting for the link, oldest first.
    pub queue: Seq<QueuedModel>,
}

impl CorrelatorModel {
    /// Structural invariant: requests wait in the queue only while one
    /// is outstanding.
    pub open spec fn wf(self) -> bool {
        self.queue.len() > 0 ==> self.pending is Some
    }
}

/// The id `send` assigns next: the running counter, skipping the id
/// still pending so correlation stays unambiguous.
pub open spec fn spec_alloc_id(c: CorrelatorModel) -> u32 {
    match c.pending {
        Some(p) => if p.id == c.next_id {
            wrap_inc(c.next_id)
        } else {
            c.next_id
        },
        None => c.next_id,
    }
}

/// Moves the oldest queued request, if any, into the pending slot with a
/// fresh deadline and full retries; returns the frame to write.
pub open spec fn spec_dispatch_next(c: CorrelatorModel, now: u64) -> (CorrelatorModel, Option<
    Seq<u8>,
>) {
    if c.queue.len() == 0 {
        (c, None)
    } else {
        let q = c.queue[0];
        (
            CorrelatorModel {
                pending: Some(
                    PendingModel {
                        id: q.id,
                        frame: q.frame,
                        deadline: sat_add64(now, c.timeout),
                        retries_remaining: c.retries,
                    },
                ),
                queue: c.queue.skip(1),
                ..c
            },
            Some(q.frame),
        )
    }
}

/// The state and outcome `send` leaves for an encodable request.
pub open spec fn spec_send(
    c: CorrelatorModel,
    kind: MessageKind,
    payload: Seq<u8>,
    now: u64,
) -> (CorrelatorModel, SendModel) {
    let id = spec_alloc_id(c);
    let frame = spec_frame(id, code_of_kind(kind), payload);
    let c1 = CorrelatorModel { next_id: wrap_inc(id), ..c };
    match c.pending {
        None => (
            CorrelatorModel {
                pending: Some(
                    PendingModel {
                        id,
                        frame,
                        deadline: sat_add64(now, c.timeout),
                        retries_remaining: c.retries,
                    },
                ),
                ..c1
            },
            SendModel { id, wire: Some(frame) },
        ),
        Some(_) => (
            CorrelatorModel { queue: c.queue.push(QueuedModel { id, frame }), ..c1 },
            SendModel { id, wire: None },
        ),
    }
}

/// The state and outcome a frame event leaves: a decoded message either
/// resolves the outstanding request with the same id (dispatching the
/// next queued request), or passes through as a stray response; framing
/// errors pass through untouched.
pub open spec fn spec_on_frame(c: CorrelatorModel, ev: FrameEventModel, now: u64) -> (
    CorrelatorModel,
    SessionEventModel,
    Option<Seq<u8>>,
) {
    match ev {
        FrameEventModel::Error(e) => (c, SessionEventModel::FramingError(e), None),
        FrameEventModel::Decoded(m) => match c.pending {
            Some(p) => if p.id == m.id {
                let r = spec_dispatch_next(CorrelatorModel { pending: None, ..c }, now);
                (r.0, SessionEventModel::Resolved(m), r.1)
            } else {
                (c, SessionEventModel::StrayResponse(m), None)
            },
            None => (c, SessionEventModel::StrayResponse(m), None),
        },
    }
}

/// The state and outcome `tick` leaves: nothing before the deadline; a
/// re-send of the identical frame while retries remain, with a fresh
/// deadline; otherwise a timeout that frees the link for the next queued
/// request.
pub open spec fn spec_tick(c: CorrelatorModel, now: u64) -> (CorrelatorModel, TickModel) {
    match c.pending {
        None => (c, TickModel::Idle),
        Some(p) => if now < p.deadline {
            (c, TickModel::Idle)
        } else if p.retries_remaining > 0 {
            (
                CorrelatorModel {
                    pending: Some(
                        PendingModel {
                            deadline: sat_add64(now, c.timeout),
                            retries_remaining: (p.retries_remaining - 1) as u8,
                            ..p
                        },
                    ),
                    ..c
                },
                TickModel::Resend(p.id, p.frame),
            )
        } else {
            let r = spec_dispatch_next(CorrelatorModel { pending: None, ..c }, now);
            (r.0, TickModel::Timeout(p.id, r.1))
        },
    }
}

/// Copies a byte vector.
fn clone_bytes(v: &Vec<u8>) -> (out: Vec<u8>)
    ensures
        out@ =~= v@,
{
    let mut out: Vec<u8> = Vec::new();
    let mut i: usize = 0;
    while i < v.len()
        invariant
            i <= v@.len(),
            out@ =~= v@.take(i as int),
        decreases v@.len() - i,
    {
        out.push(v[i]);
        i = i + 1;
    }
    out
}

/// The session correlator for one serial link.
#[derive(Debug)]
pub struct SessionCorrelator {
    next_id: u32,
    timeout: u64,
    retries: u8,
    pending: Option<PendingRequest>,
    queue: Vec<QueuedRequest>,
}

impl View for SessionCorrelator {
    type V = CorrelatorModel;

    closed spec fn view(&self) -> CorrelatorModel {
        CorrelatorModel {
            next_id: self.next_id,
            timeout: self.timeout,
            retries: self.retries,
            pending: match &self.pending {
                Some(p) => Some(p.view()),
                None => None,
            },
            queue: self.queue@.map_values(|q: QueuedRequest| q@),
        }
    }
}

impl SessionCorrelator {
    /// A correlator with no outstanding request, granting every request
    /// `timeout` ticks per attempt and `retries` re-sends.
    pub fn new(timeout: u64, retries: u8) -> (c: SessionCorrelator)
        ensures
            c@ == (CorrelatorModel {
                next_id: 0,
                timeout,
                retries,
                pending: None,
                queue: Seq::empty(),
            }),
            c@.wf(),
    {
        let c = SessionCorrelator { next_id: 0, timeout, retries, pending: None, queue: Vec::new() };
        proof {
            assert(c.queue@.map_values(|q: QueuedRequest| q@) =~= Seq::<QueuedModel>::empty());
        }
        c
    }

    /// Accepts a request: assigns a fresh id, encodes the frame, and
    /// either dispatches it now (link free) or queues it. Fails exactly
    /// when encoding fails, leaving the correlator untouched.
    pub fn send(&mut self, kind: &MessageKind, payload: &Vec<u8>, now: u64) -> (r: Result<
        SendOutcome,
        EncodingError,
    >)
        ensures
            match r {
                Ok(out) => kind_encodable(*kind) && payload@.len() <= MAX_PAYLOAD_LEN && ({
                    let t = spec_send(old(self)@, *kind, payload@, now);
                    final(self)@ == t.0 && out@ == t.1
                }),
                Err(e) => final(self)@ == old(self)@ && ((e == EncodingError::UnknownKind
                    && !kind_encodable(*kind)) || (e == EncodingError::PayloadTooLarge
                    && kind_encodable(*kind) && payload@.len() > MAX_PAYLOAD_LEN)),
            },
            old(self)@.wf() ==> final(self)@.wf(),
    {
        let id: u32 = match &self.pending {
            Some(p) => {
                if p.id == self.next_id {
                    if self.next_id == u32::MAX {
                        0
                    } else {
                        self.next_id + 1
                    }
                } else {
                    self.next_id
                }
            },
            None => self.next_id,
        };
        let frame = match crate::codec::encode(id, kind, payload) {
            Ok(f) => f,
            Err(e) => {
                return Err(e);
            },
        };
        self.next_id = if id == u32::MAX {
            0
        } else {
            id + 1
        };
        match &self.pending {
            None => {
                let wire = clone_bytes(&frame);
                self.pending = Some(
                    PendingRequest {
                        id,
                        frame,
                        deadline: now.saturating_add(self.timeout),
                        retries_remaining: self.retries,
                    },
                );
                Ok(SendOutcome { id, wire: Some(wire) })
            },
            Some(_) => {
                let ghost q0 = self.queue@;
                self.queue.push(QueuedRequest { id, frame });
                proof {
                    assert(self.queue@.map_values(|q: QueuedRequest| q@) =~= q0.map_values(
                        |q: QueuedRequest| q@,
                    ).push(self.queue@.last()@));
                }
                Ok(SendOutcome { id, wire: None })
            },
        }
    }

    /// Applies one frame event from the reassembler. A message whose id
    /// matches the outstanding request resolves it and dispatches the
    /// next queued request, whose frame is returned for the transport;
    /// any other message is reported as a stray response; framing errors
    /// pass through. The caller supplies the current tick for the
    /// dispatched request's deadline.
    pub fn on_frame_event(&mut self, ev: FrameEvent, now: u64) -> (r: (
        SessionEvent,
        Option<Vec<u8>>,
    ))
        ensures
            ({
                let t = spec_on_frame(old(self)@, ev@, now);
                final(self)@ == t.0 && r.0@ == t.1 && (match r.1 {
                    Some(f) => t.2 == Some(f@),
                    None => t.2 == None::<Seq<u8>>,
                })
            }),
            old(self)@.wf() ==> final(self)@.wf(),
    {
        match ev {
            FrameEvent::Error(e) => (SessionEvent::FramingError(e), None),
            FrameEvent::Decoded(m) => {
                let matches_pending = match &self.pending {
                    Some(p) => p.id == m.id,
                    None => false,
                };
                if matches_pending {
                    self.pending = None;
                    let wire = self.dispatch_next(now);
                    (SessionEvent::Resolved(m), wire)
                } else {
                    (SessionEvent::StrayResponse(m), None)
                }
            },
        }
    }

    /// Advances time: nothing before the outstanding request's deadline;
    /// past it, a re-send of the identical frame while retries remain,
    /// else a timeout that hands the link to the next queued request.
    pub fn tick(&mut self, now: u64) -> (out: TickOutcome)
        ensures
            ({
                let t = spec_tick(old(self)@, now);
                final(self)@ == t.0 && out@ == t.1
            }),
            old(self)@.wf() ==> final(self)@.wf(),
    {
        let (due, expired) = match &self.pending {
            Some(p) => (now >= p.deadline, p.retries_remaining == 0),
            None => (false, false),
        };
        if !due {
            return TickOutcome::Idle;
        }
        if !expired {
            let (id, wire, deadline) = match &self.pending {
                Some(p) => (p.id, clone_bytes(&p.frame), now.saturating_add(self.timeout)),
                None => {
                    return TickOutcome::Idle;
                },
            };
            match &mut self.pending {
                Some(p) => {
                    p.retries_remaining = p.retries_remaining - 1;
                    p.deadline = deadline;
                },
                None => {},
            }
            TickOutcome::Resend(id, wire)
        } else {
            let id = match &self.pending {
                Some(p) => p.id,
                None => {
                    return TickOutcome::Idle;
                },
            };
            self.pending = None;
            let wire = self.dispatch_next(now);
            TickOutcome::Timeout(id, wire)
        }
    }

    /// Moves the oldest queued request into the pending slot, returning
    /// its frame for the transport.
    fn dispatch_next(&mut self, now: u64) -> (wire: Option<Vec<u8>>)
        requires
            old(self)@.pending is None,
        ensures
            ({
                let t = spec_dispatch_next(old(self)@, now);
                final(self)@ == t.0 && (match wire {
                    Some(f) => t.1 == Some(f@),
                    None => t.1 == None::<Seq<u8>>,
                })
            }),
    {
        if self.queue.len() == 0 {
            proof {
                assert(self@.queue =~= self.queue@.map_values(|q: QueuedRequest| q@));
            }
            return None;
        }
        let ghost q0 = self.queue@;
        let head = self.queue.remove(0);
        let wire = clone_bytes(&head.frame);
        self.pending = Some(
            PendingRequest {
                id: head.id,
                frame: head.frame,
                deadline: now.saturating_add(self.timeout),
                retries_remaining: self.retries,
            },
        );
        proof {
            assert(self.queue@.map_values(|q: QueuedRequest| q@) =~= q0.map_values(
                |q: QueuedRequest| q@,
            ).skip(1));
        }
        Some(wire)
    }

    /// Cancels the outstanding request if it carries `id`: removes it,
    /// suppresses any further retries or timeout for it, and hands the
    /// link to the next queued request, whose frame is returned. A late
    /// response for the cancelled id will be reported as a stray.
    pub fn cancel(&mut self, id: u32, now: u64) -> (r: (bool, Option<Vec<u8>>))
        ensures
            ({
                let cancelled = match old(self)@.pending {
                    Some(p) => p.id == id,
                    None => false,
                };
                r.0 == cancelled && (if cancelled {
                    let t = spec_dispatch_next(
                        CorrelatorModel { pending: None, ..old(self)@ },
                        now,
                    );
                    final(self)@ == t.0 && (match r.1 {
                        Some(f) => t.1 == Some(f@),
                        None => t.1 == None::<Seq<u8>>,
                    })
                } else {
                    final(self)@ == old(self)@ && r.1 is None
                })
            }),
            old(self)@.wf() ==> final(self)@.wf(),
    {
        let cancelled = match &self.pending {
            Some(p) => p.id == id,
            None => false,
        };
        if cancelled {
            self.pending = None;
            let wire = self.dispatch_next(now);
            (true, wire)
        } else {
            (false, None)
        }
    }

    /// The id of the outstanding request, if any.
    pub fn pending_id(&self) -> (r: Option<u32>)
        ensures
            r == match self@.pending {
                Some(p) => Some(p.id),
                None => None::<u32>,
            },
    {
        match &self.pending {
            Some(p) => Some(p.id),
            None => None,
        }
    }

    /// How many accepted requests wait for the link.
    pub fn queued_count(&self) -> (n: usize)
        ensures
            n == self@.queue.len(),
    {
        self.queue.len()
    }
}

/// Retry and timeout policy: an outstanding request granted two retries
/// and no response re-sends its identical frame exactly twice, one
/// timeout apart, then resolves as a timeout that frees the link — and
/// with nothing queued, no further send ever follows.
pub proof fn lemma_retry_then_timeout(
    c: CorrelatorModel,
    p: PendingModel,
    t1: u64,
    t2: u64,
    t3: u64,
)
    requires
        c.pending == Some(p),
        p.retries_remaining == 2,
        c.queue.len() == 0,
        t1 >= p.deadline,
        t2 >= sat_add64(t1, c.timeout),
        t3 >= sat_add64(t2, c.timeout),
    ensures
        ({
            let r1 = spec_tick(c, t1);
            let r2 = spec_tick(r1.0, t2);
            let r3 = spec_tick(r2.0, t3);
            &&& r1.1 == TickModel::Resend(p.id, p.frame)
            &&& r2.1 == TickModel::Resend(p.id, p.frame)
            &&& r3.1 == TickModel::Timeout(p.id, None::<Seq<u8>>)
            &&& r3.0.pending is None
            &&& forall|t: u64| #[trigger] spec_tick(r3.0, t).1 == TickModel::Idle
                && spec_tick(r3.0, t).0 == r3.0
        }),
{
}

/// Ticks before the deadline do nothing: no re-send, no timeout, no
/// state change.
pub proof fn lemma_no_early_fire(c: CorrelatorModel, p: PendingModel, t: u64)
    requires
        c.pending == Some(p),
        t < p.deadline,
    ensures
        spec_tick(c, t) == (c, TickModel::Idle),
{
}

} // verus!
