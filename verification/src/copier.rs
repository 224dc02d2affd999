//! One direction of a relay session: a bounded read-then-write copy loop,
//! modelled as a state machine that the driver advances by reporting each
//! I/O outcome and performing the action the machine returns.

use vstd::prelude::*;

verus! {

/// Capacity, in bytes, of the staging buffer for one copy direction: the
/// driver never offers the machine more than this many bytes per read.
pub const BUF_CAP: usize = 4096;

/// Where one copy direction stands.
#[derive(Clone, Copy, Debug, PartialEq, Eq, Structural)]
pub enum CopyPhase {
    /// Waiting for the next read from the source stream.
    Reading,
    /// Holding bytes that the sink stream has not yet fully accepted.
    Writing,
    /// The source reached a clean end-of-stream; the sink's half-close is
    /// still owed.
    ShuttingDown,
    /// Finished cleanly: everything read was written and the sink was shut
    /// down.
    DoneOk,
    /// Ended with an I/O failure.
    DoneErr,
}

/// What the driver observed on the streams.
#[derive(Debug)]
pub enum CopyEvent {
    /// A read completed and yielded these bytes; an empty read means the
    /// source reached a clean end-of-stream.
    Read(Vec<u8>),
    /// A write completed and the sink accepted this many bytes of the
    /// pending chunk (a short write accepts fewer than were offered).
    Wrote(usize),
    /// The half-close of the sink's write side completed.
    ShutdownDone,
    /// A read, write, or shutdown failed.
    Failed,
}

/// What the driver must do next.
#[derive(Clone, Copy, Debug, PartialEq, Eq, Structural)]
pub enum CopyAction {
    /// Read up to `BUF_CAP` bytes from the source.
    DoRead,
    /// Offer the pending chunk to the sink.
    DoWrite,
    /// Half-close the sink's write side.
    DoShutdown,
    /// The direction is over; release the streams.
    Stop,
}

/// Mathematical state of one copy direction.
#[verifier::ext_equal]
pub ghost struct CopierModel {
    pub phase: CopyPhase,
    /// Bytes read from the source but not yet accepted by the sink.
    pub pending: Seq<u8>,
    /// Every byte read from the source so far, in order.
    pub received: Seq<u8>,
    /// Every byte accepted by the sink so far, in order.
    pub delivered: Seq<u8>,
}

/// The state a copy direction starts in.
pub open spec fn init_model() -> CopierModel {
    CopierModel {
        phase: CopyPhase::Reading,
        pending: Seq::empty(),
        received: Seq::empty(),
        delivered: Seq::empty(),
    }
}

/// The action owed in each phase.
pub open spec fn action_of(phase: CopyPhase) -> CopyAction {
    match phase {
        CopyPhase::Reading => CopyAction::DoRead,
        CopyPhase::Writing => CopyAction::DoWrite,
        CopyPhase::ShuttingDown => CopyAction::DoShutdown,
        CopyPhase::DoneOk => CopyAction::Stop,
        CopyPhase::DoneErr => CopyAction::Stop,
    }
}

/// Whether the direction has ended; a done state never changes again.
pub open spec fn is_done(phase: CopyPhase) -> bool {
    phase == CopyPhase::DoneOk || phase == CopyPhase::DoneErr
}

/// One transition of the copy state machine. An event that does not answer
/// the action owed in the current phase leaves the state unchanged.
pub open spec fn model_step(m: CopierModel, e: CopyEvent) -> CopierModel {
    match e {
        CopyEvent::Read(data) => {
            if m.phase == CopyPhase::Reading {
                if data@.len() == 0 {
                    CopierModel { phase: CopyPhase::ShuttingDown, ..m }
                } else {
                    CopierModel {
                        phase: CopyPhase::Writing,
                        pending: data@,
                        received: m.received + data@,
                        delivered: m.delivered,
                    }
                }
            } else {
                m
            }
        }
        CopyEvent::Wrote(n) => {
            if m.phase == CopyPhase::Writing && n <= m.pending.len() {
                CopierModel {
                    phase: if m.pending.len() == n {
                        CopyPhase::Reading
                    } else {
                        CopyPhase::Writing
                    },
                    pending: m.pending.skip(n as int),
                    received: m.received,
                    delivered: m.delivered + m.pending.take(n as int),
                }
            } else {
                m
            }
        }
        CopyEvent::ShutdownDone => {
            if m.phase == CopyPhase::ShuttingDown {
                CopierModel { phase: CopyPhase::DoneOk, ..m }
            } else {
                m
            }
        }
        CopyEvent::Failed => {
            if is_done(m.phase) {
                m
            } else {
                CopierModel { phase: CopyPhase::DoneErr, ..m }
            }
        }
    }
}

/// Consistency of a copy state: the sink has accepted exactly the bytes read
/// so far minus the pending tail, the pending chunk fits the staging buffer,
/// and a direction that is reading, shutting down, or cleanly done holds
/// nothing back.
pub open spec fn wf_model(m: CopierModel) -> bool {
    &&& m.delivered + m.pending == m.received
    &&& m.pending.len() <= BUF_CAP
    &&& m.phase == CopyPhase::Reading ==> m.pending.len() == 0
    &&& m.phase == CopyPhase::Writing ==> m.pending.len() > 0
    &&& m.phase == CopyPhase::ShuttingDown ==> m.pending.len() == 0
    &&& m.phase == CopyPhase::DoneOk ==> m.pending.len() == 0
}

/// A step taken from a consistent state, on a read of at most `BUF_CAP`
/// bytes, ends in a consistent state.
pub proof fn lemma_step_preserves_wf(m: CopierModel, e: CopyEvent)
    requires
        wf_model(m),
        e matches CopyEvent::Read(data) ==> data@.len() <= BUF_CAP,
    ensures
        wf_model(model_step(m, e)),
{
    match e {
        CopyEvent::Read(data) => {
            if m.phase == CopyPhase::Reading && data@.len() > 0 {
                assert(m.delivered + m.pending =~= m.delivered);
                assert(m.delivered + data@ =~= m.received + data@);
            }
        }
        CopyEvent::Wrote(n) => {
            if m.phase == CopyPhase::Writing && n <= m.pending.len() {
                assert((m.delivered + m.pending.take(n as int)) + m.pending.skip(n as int)
                    =~= m.delivered + m.pending);
            }
        }
        CopyEvent::ShutdownDone => {}
        CopyEvent::Failed => {}
    }
}

/// The state after a sequence of events, first event first.
pub open spec fn run(m: CopierModel, tr: Seq<CopyEvent>) -> CopierModel
    decreases tr.len(),
{
    if tr.len() == 0 {
        m
    } else {
        run(model_step(m, tr[0]), tr.skip(1))
    }
}

/// The concatenation, in order, of all bytes the read events of a trace
/// brought in: what the source sent over the life of the trace.
pub open spec fn reads_of(tr: Seq<CopyEvent>) -> Seq<u8>
    decreases tr.len(),
{
    if tr.len() == 0 {
        Seq::empty()
    } else {
        (match tr[0] {
            CopyEvent::Read(data) => data@,
            CopyEvent::Wrote(_) => Seq::empty(),
            CopyEvent::ShutdownDone => Seq::empty(),
            CopyEvent::Failed => Seq::empty(),
        }) + reads_of(tr.skip(1))
    }
}

/// Whether an event answers the action owed in the given state: a read of at
/// most `BUF_CAP` bytes while reading, a write of at most the pending length
/// while writing, a shutdown completion while shutting down, and a failure
/// any time before the direction is done.
pub open spec fn event_fits(m: CopierModel, e: CopyEvent) -> bool {
    match e {
        CopyEvent::Read(data) => m.phase == CopyPhase::Reading && data@.len() <= BUF_CAP,
        CopyEvent::Wrote(n) => m.phase == CopyPhase::Writing && n <= m.pending.len(),
        CopyEvent::ShutdownDone => m.phase == CopyPhase::ShuttingDown,
        CopyEvent::Failed => !is_done(m.phase),
    }
}

/// Whether each event of the trace answers the action owed when it arrives.
pub open spec fn valid_trace(m: CopierModel, tr: Seq<CopyEvent>) -> bool
    decreases tr.len(),
{
    tr.len() == 0 || (event_fits(m, tr[0]) && valid_trace(model_step(m, tr[0]), tr.skip(1)))
}

/// Running a valid trace from a consistent state keeps the state consistent
/// and extends the received bytes by exactly what the trace's reads brought.
proof fn lemma_run_received(m: CopierModel, tr: Seq<CopyEvent>)
    requires
        wf_model(m),
        valid_trace(m, tr),
    ensures
        wf_model(run(m, tr)),
        run(m, tr).received == m.received + reads_of(tr),
    decreases tr.len(),
{
    if tr.len() == 0 {
        assert(m.received + reads_of(tr) =~= m.received);
    } else {
        let e = tr[0];
        let m1 = model_step(m, e);
        let head = (match e {
            CopyEvent::Read(data) => data@,
            CopyEvent::Wrote(_) => Seq::<u8>::empty(),
            CopyEvent::ShutdownDone => Seq::<u8>::empty(),
            CopyEvent::Failed => Seq::<u8>::empty(),
        });
        assert(m1.received =~= m.received + head);
        lemma_step_preserves_wf(m, e);
        lemma_run_received(m1, tr.skip(1));
        assert(m.received + (head + reads_of(tr.skip(1)))
            =~= (m.received + head) + reads_of(tr.skip(1)));
    }
}

/// LAW (byte fidelity): over any trace of I/O events that answers the
/// machine, the bytes the sink accepted are, in order and without loss,
/// duplication, or reordering, exactly the bytes read from the source minus
/// the chunk still pending; and once the machine has ordered the half-close
/// or finished cleanly, the sink accepted exactly every byte the source
/// sent.
pub proof fn lemma_byte_fidelity(tr: Seq<CopyEvent>)
    requires
        valid_trace(init_model(), tr),
    ensures
        run(init_model(), tr).received == reads_of(tr),
        run(init_model(), tr).delivered + run(init_model(), tr).pending == reads_of(tr),
        run(init_model(), tr).phase == CopyPhase::DoneOk
            ==> run(init_model(), tr).delivered == reads_of(tr),
{
    lemma_run_received(init_model(), tr);
    let f = run(init_model(), tr);
    assert(f.received =~= init_model().received + reads_of(tr));
    assert(init_model().received + reads_of(tr) =~= reads_of(tr));
    if f.phase == CopyPhase::DoneOk {
        assert(f.delivered =~= f.delivered + f.pending);
    }
}

/// LAW (half-close propagation): the machine orders the sink's half-close
/// only once every byte read from the source has been accepted by the sink,
/// so when the source cleanly closes its write side, the sink observes
/// end-of-stream only after receiving all of the source's bytes.
pub proof fn lemma_half_close_propagation(tr: Seq<CopyEvent>)
    requires
        valid_trace(init_model(), tr),
        action_of(run(init_model(), tr).phase) == CopyAction::DoShutdown,
    ensures
        run(init_model(), tr).delivered == reads_of(tr),
{
    lemma_byte_fidelity(tr);
    lemma_run_received(init_model(), tr);
    let f = run(init_model(), tr);
    assert(f.phase == CopyPhase::ShuttingDown);
    assert(f.delivered =~= f.delivered + f.pending);
}

/// One direction of a relay session, as the driver runs it: the staging
/// buffer plus, in ghost state, every byte read and every byte accepted by
/// the sink so far.
pub struct Copier {
    phase: CopyPhase,
    buf: Vec<u8>,
    /// How many bytes at the front of `buf` the sink has already accepted.
    off: usize,
    received: Ghost<Seq<u8>>,
    delivered: Ghost<Seq<u8>>,
}

impl View for Copier {
    type V = CopierModel;

    closed spec fn view(&self) -> CopierModel {
        CopierModel {
            phase: self.phase,
            pending: self.buf@.skip(self.off as int),
            received: self.received@,
            delivered: self.delivered@,
        }
    }
}

impl Copier {
    /// Internal consistency: the write offset lies within the buffer, the
    /// buffer fits the capacity, and the abstract state is well-formed.
    pub closed spec fn inv(&self) -> bool {
        &&& self.off <= self.buf.len()
        &&& self.buf@.len() <= BUF_CAP
        &&& wf_model(self@)
    }

    /// Start a direction: nothing read, nothing delivered, a read owed.
    pub fn new() -> (c: Copier)
        ensures
            c.inv(),
            c@ == init_model(),
    {
        let c = Copier {
            phase: CopyPhase::Reading,
            buf: Vec::new(),
            off: 0,
            received: Ghost(Seq::empty()),
            delivered: Ghost(Seq::empty()),
        };
        proof {
            assert(c@ =~= init_model());
        }
        c
    }

    /// The action the driver owes in the current state.
    pub fn next_action(&self) -> (a: CopyAction)
        ensures
            a == action_of(self@.phase),
    {
        match self.phase {
            CopyPhase::Reading => CopyAction::DoRead,
            CopyPhase::Writing => CopyAction::DoWrite,
            CopyPhase::ShuttingDown => CopyAction::DoShutdown,
            CopyPhase::DoneOk => CopyAction::Stop,
            CopyPhase::DoneErr => CopyAction::Stop,
        }
    }

    /// Whether the direction ended cleanly: source end-of-stream reached and
    /// the sink half-closed, as opposed to failing or still running.
    pub fn finished_clean(&self) -> (r: bool)
        ensures
            r == (self@.phase == CopyPhase::DoneOk),
    {
        self.phase == CopyPhase::DoneOk
    }

    /// The bytes read but not yet accepted by the sink: the chunk a
    /// `DoWrite` action must offer to the sink next.
    pub fn pending_chunk(&self) -> (v: Vec<u8>)
        requires
            self.inv(),
        ensures
            v@ == self@.pending,
    {
        let mut v: Vec<u8> = Vec::new();
        let mut i: usize = self.off;
        while i < self.buf.len()
            invariant
                self.off <= i,
                i <= self.buf.len(),
                v@ == self.buf@.subrange(self.off as int, i as int),
            decreases self.buf.len() - i,
        {
            v.push(self.buf[i]);
            i = i + 1;
            proof {
                assert(v@ =~= self.buf@.subrange(self.off as int, i as int));
            }
        }
        proof {
            assert(v@ =~= self@.pending);
        }
        v
    }

    /// Feed the outcome of the last action; the state advances exactly as
    /// `model_step` says, and the next owed action comes back.
    pub fn step(&mut self, e: CopyEvent) -> (a: CopyAction)
        requires
            old(self).inv(),
            e matches CopyEvent::Read(data) ==> data@.len() <= BUF_CAP,
        ensures
            final(self).inv(),
            final(self)@ == model_step(old(self)@, e),
            a == action_of(final(self)@.phase),
    {
        let ghost e0 = e;
        match e {
            CopyEvent::Read(data) => {
                if self.phase == CopyPhase::Reading {
                    if data.len() == 0 {
                        self.phase = CopyPhase::ShuttingDown;
                    } else {
                        self.received = Ghost(self.received@ + data@);
                        self.buf = data;
                        self.off = 0;
                        self.phase = CopyPhase::Writing;
                    }
                }
            }
            CopyEvent::Wrote(n) => {
                if self.phase == CopyPhase::Writing && n <= self.buf.len() - self.off {
                    self.delivered = Ghost(
                        self.delivered@ + self.buf@.skip(self.off as int).take(n as int),
                    );
                    self.off = self.off + n;
                    if self.off == self.buf.len() {
                        self.buf = Vec::new();
                        self.off = 0;
                        self.phase = CopyPhase::Reading;
                    }
                }
            }
            CopyEvent::ShutdownDone => {
                if self.phase == CopyPhase::ShuttingDown {
                    self.phase = CopyPhase::DoneOk;
                }
            }
            CopyEvent::Failed => {
                if !(self.phase == CopyPhase::DoneOk || self.phase == CopyPhase::DoneErr) {
                    self.phase = CopyPhase::DoneErr;
                }
            }
        }
        proof {
            assert(self@ =~= model_step(old(self)@, e0));
            lemma_step_preserves_wf(old(self)@, e0);
        }
        self.next_action()
    }
}

} // verus!
