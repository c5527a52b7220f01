use vstd::prelude::*;
use crate::payload::Payload;

verus! {

/// What a stage can report instead of a result. Whether an error ends the
/// whole pipeline is decided by its kind.
#[derive(Debug, Clone, Copy, PartialEq, Eq, Structural)]
pub enum StageError {
    /// A payload carried another layout than the stage needs.
    WrongFormat,
    /// A buffer was shorter than its layout requires.
    InsufficientData,
    /// Moving a buffer between CPU and GPU failed.
    Transfer,
    /// Any other condition the pipeline cannot continue after.
    Fatal,
    /// A failure confined to the current frame.
    Recoverable,
}

impl StageError {
    pub open spec fn spec_is_fatal(&self) -> bool {
        match self {
            StageError::WrongFormat | StageError::InsufficientData | StageError::Fatal => true,
            StageError::Transfer | StageError::Recoverable => false,
        }
    }

    /// Whether this error stops the pipeline rather than only its frame.
    pub fn is_fatal(&self) -> (r: bool)
        ensures
            r == self.spec_is_fatal(),
    {
        match self {
            StageError::WrongFormat | StageError::InsufficientData | StageError::Fatal => true,
            StageError::Transfer | StageError::Recoverable => false,
        }
    }
}

/// What travels through a queue: a frame with its sequence number, or the
/// signal to shut down.
pub enum Envelope {
    Frame { seq: u64, payload: Payload },
    Stop,
}

/// What a worker does with the outcome of one `process` call.
pub enum Settlement {
    /// Hand this envelope to the next stage.
    Forward(Envelope),
    /// The chain ends here for this frame.
    Finish,
    /// Stop the pipeline and report this error.
    Abort(StageError),
}

/// The decision for the outcome of processing frame `seq`.
pub open spec fn settlement_of(outcome: Result<Option<Payload>, StageError>, seq: u64) -> Settlement {
    match outcome {
        Ok(Some(p)) => Settlement::Forward(Envelope::Frame { seq, payload: p }),
        Ok(None) => Settlement::Finish,
        Err(e) => if e.spec_is_fatal() {
            Settlement::Abort(e)
        } else {
            Settlement::Forward(Envelope::Frame { seq, payload: Payload::Empty })
        },
    }
}

/// The decision for the outcome of processing frame `seq`. A recoverable
/// error turns the frame into an empty payload that keeps its sequence number.
pub fn settle(outcome: Result<Option<Payload>, StageError>, seq: u64) -> (r: Settlement)
    ensures
        r == settlement_of(outcome, seq),
{
    match outcome {
        Ok(Some(p)) => Settlement::Forward(Envelope::Frame { seq, payload: p }),
        Ok(None) => Settlement::Finish,
        Err(e) => if e.is_fatal() {
            Settlement::Abort(e)
        } else {
            Settlement::Forward(Envelope::Frame { seq, payload: Payload::empty() })
        },
    }
}

/// A recoverable error on frame `seq` never loses the frame or its place in
/// the sequence: the frame goes on as an empty payload under the same number,
/// while the outcome of any other frame is settled on its own.
pub proof fn lemma_recoverable_error_keeps_frame(
    e: StageError,
    seq: u64,
    other: Result<Option<Payload>, StageError>,
    other_seq: u64,
)
    requires
        !e.spec_is_fatal(),
    ensures
        settlement_of(Err(e), seq) matches Settlement::Forward(
            Envelope::Frame { seq: s, payload },
        ) && s == seq && payload.spec_is_empty(),
        other matches Ok(Some(p)) ==> settlement_of(other, other_seq) == Settlement::Forward(
            Envelope::Frame { seq: other_seq, payload: p },
        ),
{
}

/// The abstract state of an [`Engine`].
pub struct EngineView {
    pub depth: nat,
    /// `queues[i]` is the inbound queue of stage `i`, front first.
    pub queues: Seq<Seq<Envelope>>,
    pub next_seq: nat,
    pub stopped: bool,
    pub failure: Option<StageError>,
}

/// The number of envelopes waiting in all queues together.
pub open spec fn total_queued(queues: Seq<Seq<Envelope>>) -> nat
    decreases queues.len(),
{
    if queues.len() == 0 {
        0
    } else {
        total_queued(queues.drop_last()) + queues.last().len()
    }
}

pub open spec fn engine_wf(v: EngineView) -> bool {
    &&& v.depth > 0
    &&& v.queues.len() > 0
    &&& forall|i: int| 0 <= i < v.queues.len() ==> #[trigger] v.queues[i].len() <= v.depth
    &&& v.next_seq <= u64::MAX
}

/// However the stages are delayed or blocked, the queues of a chain of `n`
/// stages with depth `d` never hold more than `n * d` frames together.
pub proof fn lemma_bounded_memory(v: EngineView)
    requires
        engine_wf(v),
    ensures
        total_queued(v.queues) <= v.queues.len() * v.depth,
{
    lemma_total_bounded(v.queues, v.depth);
}

proof fn lemma_total_bounded(qs: Seq<Seq<Envelope>>, d: nat)
    requires
        forall|i: int| 0 <= i < qs.len() ==> #[trigger] qs[i].len() <= d,
    ensures
        total_queued(qs) <= qs.len() * d,
    decreases qs.len(),
{
    if qs.len() > 0 {
        let init = qs.drop_last();
        assert forall|i: int| 0 <= i < init.len() implies #[trigger] init[i].len() <= d by {
            assert(init[i] == qs[i]);
        }
        lemma_total_bounded(init, d);
        assert(qs.last() == qs[qs.len() - 1]);
        assert((qs.len() - 1) * d + d == qs.len() * d) by (nonlinear_arith);
    }
}

/// The result of offering a new frame to the first stage.
pub enum Admission {
    /// The frame entered the chain with this sequence number.
    Accepted(u64),
    /// The first queue is full; the frame is handed back.
    Full(Payload),
    /// The pipeline is shutting down; the frame is handed back.
    Closed(Payload),
}

/// The queues and counters of a running chain of stages. Workers, one per
/// stage, take from their inbound queue and forward to the next one; the
/// queues are bounded, so a slow stage holds back the ones before it.
pub struct Engine {
    depth: usize,
    queues: Vec<Vec<Envelope>>,
    next_seq: u64,
    stopped: bool,
    failure: Option<StageError>,
}

impl View for Engine {
    type V = EngineView;

    closed spec fn view(&self) -> EngineView {
        EngineView {
            depth: self.depth as nat,
            queues: Seq::new(self.queues@.len(), |i: int| self.queues@[i]@),
            next_seq: self.next_seq as nat,
            stopped: self.stopped,
            failure: self.failure,
        }
    }
}

impl Engine {
    pub open spec fn wf(&self) -> bool {
        engine_wf(self@)
    }

    /// The number of stages.
    pub open spec fn spec_stages(&self) -> nat {
        self@.queues.len()
    }

    /// A chain of `stages` stages whose queues each hold up to `depth`
    /// envelopes, all empty, with frame 0 next to be admitted.
    pub fn new(stages: usize, depth: usize) -> (r: Engine)
        requires
            stages > 0,
            depth > 0,
        ensures
            r.wf(),
            r@.depth == depth,
            r@.queues.len() == stages,
            forall|i: int| 0 <= i < stages ==> (#[trigger] r@.queues[i]).len() == 0,
            r@.next_seq == 0,
            !r@.stopped,
            r@.failure is None,
    {
        let mut queues: Vec<Vec<Envelope>> = Vec::new();
        let mut i: usize = 0;
        while i < stages
            invariant
                i <= stages,
                queues@.len() == i,
                forall|j: int| 0 <= j < i ==> (#[trigger] queues@[j])@.len() == 0,
            decreases stages - i,
        {
            queues.push(Vec::new());
            i += 1;
        }
        Engine { depth, queues, next_seq: 0, stopped: false, failure: None }
    }

    /// The number of stages.
    pub fn stages(&self) -> (r: usize)
        ensures
            r == self.spec_stages(),
    {
        self.queues.len()
    }

    /// The number of envelopes waiting for `stage`.
    pub fn queued(&self, stage: usize) -> (r: usize)
        requires
            stage < self.spec_stages(),
        ensures
            r == self@.queues[stage as int].len(),
    {
        self.queues[stage].len()
    }

    /// The sequence number the next admitted frame gets.
    pub fn next_seq(&self) -> (r: u64)
        ensures
            r == self@.next_seq,
    {
        self.next_seq
    }

    /// Whether the stop signal has been sent.
    pub fn is_stopped(&self) -> (r: bool)
        ensures
            r == self@.stopped,
    {
        self.stopped
    }

    /// The first fatal error reported, if any.
    pub fn failure(&self) -> (r: Option<StageError>)
        ensures
            r == self@.failure,
    {
        self.failure
    }

    /// Puts `env` at the back of queue `i`, if it has room.
    fn push_back(&mut self, i: usize, env: Envelope) -> (r: Result<(), Envelope>)
        requires
            old(self).wf(),
            i < old(self).spec_stages(),
        ensures
            final(self).wf(),
            r is Ok <==> old(self)@.queues[i as int].len() < old(self)@.depth,
            r matches Err(e) ==> e == env && final(self)@ == old(self)@,
            r is Ok ==> final(self)@ == (EngineView {
                queues: old(self)@.queues.update(i as int, old(self)@.queues[i as int].push(env)),
                ..old(self)@
            }),
    {
        if self.queues[i].len() >= self.depth {
            return Err(env);
        }
        let mut q: Vec<Envelope> = Vec::new();
        self.queues.set_and_swap(i, &mut q);
        q.push(env);
        self.queues.set_and_swap(i, &mut q);
        proof {
            assert(self@.queues =~= old(self)@.queues.update(
                i as int,
                old(self)@.queues[i as int].push(env),
            ));
        }
        Ok(())
    }

    /// Offers a new frame to the first stage. It is admitted with the next
    /// sequence number unless the pipeline is stopping or the first queue is
    /// full; numbers start at 0 and grow by one per admitted frame.
    pub fn offer_frame(&mut self, payload: Payload) -> (r: Admission)
        requires
            old(self).wf(),
        ensures
            final(self).wf(),
            (old(self)@.stopped || old(self)@.next_seq == u64::MAX) ==> r == Admission::Closed(
                payload,
            ) && final(self)@ == old(self)@,
            !(old(self)@.stopped || old(self)@.next_seq == u64::MAX) && old(self)@.queues[0].len()
                >= old(self)@.depth ==> r == Admission::Full(payload) && final(self)@ == old(
                self,
            )@,
            !(old(self)@.stopped || old(self)@.next_seq == u64::MAX) && old(self)@.queues[0].len()
                < old(self)@.depth ==> r == Admission::Accepted(old(self)@.next_seq as u64)
                && final(self)@ == (EngineView {
                queues: old(self)@.queues.update(
                    0,
                    old(self)@.queues[0].push(
                        Envelope::Frame { seq: old(self)@.next_seq as u64, payload },
                    ),
                ),
                next_seq: old(self)@.next_seq + 1,
                ..old(self)@
            }),
    {
        if self.stopped || self.next_seq == u64::MAX {
            return Admission::Closed(payload);
        }
        let seq = self.next_seq;
        match self.push_back(0, Envelope::Frame { seq, payload }) {
            Ok(()) => {
                self.next_seq = seq + 1;
                Admission::Accepted(seq)
            },
            Err(Envelope::Frame { payload, .. }) => Admission::Full(payload),
            Err(Envelope::Stop) => Admission::Full(Payload::Empty),
        }
    }

    /// Sends the stop signal behind every frame already admitted, so that the
    /// stages drain those frames first. Returns false, changing nothing, while
    /// the first queue is full; once sent, later calls change nothing.
    pub fn request_stop(&mut self) -> (r: bool)
        requires
            old(self).wf(),
        ensures
            final(self).wf(),
            old(self)@.stopped ==> r && final(self)@ == old(self)@,
            !old(self)@.stopped ==> (r <==> old(self)@.queues[0].len() < old(self)@.depth),
            !old(self)@.stopped && !r ==> final(self)@ == old(self)@,
            !old(self)@.stopped && r ==> final(self)@ == (EngineView {
                queues: old(self)@.queues.update(0, old(self)@.queues[0].push(Envelope::Stop)),
                stopped: true,
                ..old(self)@
            }),
    {
        if self.stopped {
            return true;
        }
        match self.push_back(0, Envelope::Stop) {
            Ok(()) => {
                self.stopped = true;
                true
            },
            Err(_) => false,
        }
    }

    /// Records a fatal error; the first one reported is the one kept.
    pub fn record_failure(&mut self, error: StageError)
        requires
            old(self).wf(),
        ensures
            final(self).wf(),
            final(self)@ == (EngineView {
                failure: if old(self)@.failure is None {
                    Some(error)
                } else {
                    old(self)@.failure
                },
                ..old(self)@
            }),
    {
        if self.failure.is_none() {
            self.failure = Some(error);
        }
    }

    /// Takes the oldest envelope waiting for `stage`, if any.
    pub fn take(&mut self, stage: usize) -> (r: Option<Envelope>)
        requires
            old(self).wf(),
            stage < old(self).spec_stages(),
        ensures
            final(self).wf(),
            old(self)@.queues[stage as int].len() == 0 ==> r is None && final(self)@ == old(
                self,
            )@,
            old(self)@.queues[stage as int].len() > 0 ==> r == Some(
                old(self)@.queues[stage as int][0],
            ) && final(self)@ == (EngineView {
                queues: old(self)@.queues.update(
                    stage as int,
                    old(self)@.queues[stage as int].drop_first(),
                ),
                ..old(self)@
            }),
    {
        if self.queues[stage].len() == 0 {
            return None;
        }
        let mut q: Vec<Envelope> = Vec::new();
        self.queues.set_and_swap(stage, &mut q);
        let env = q.remove(0);
        self.queues.set_and_swap(stage, &mut q);
        proof {
            assert(q@ =~= Seq::<Envelope>::empty());
            assert(self@.queues =~= old(self)@.queues.update(
                stage as int,
                old(self)@.queues[stage as int].drop_first(),
            ));
        }
        Some(env)
    }

    /// Hands what `stage` produced to the stage after it. Past the last stage
    /// the envelope leaves the chain. When the next queue is full the envelope
    /// is handed back and nothing changes.
    pub fn forward(&mut self, stage: usize, env: Envelope) -> (r: Result<(), Envelope>)
        requires
            old(self).wf(),
            stage < old(self).spec_stages(),
        ensures
            final(self).wf(),
            stage + 1 == old(self).spec_stages() ==> r is Ok && final(self)@ == old(self)@,
            stage + 1 < old(self).spec_stages() ==> {
                &&& r is Ok <==> old(self)@.queues[stage + 1].len() < old(self)@.depth
                &&& r matches Err(e) ==> e == env && final(self)@ == old(self)@
                &&& r is Ok ==> final(self)@ == (EngineView {
                    queues: old(self)@.queues.update(
                        stage + 1,
                        old(self)@.queues[stage + 1].push(env),
                    ),
                    ..old(self)@
                })
            },
    {
        if stage == self.queues.len() - 1 {
            return Ok(());
        }
        self.push_back(stage + 1, env)
    }

    /// Whether the stop signal was sent and every queue is empty.
    pub fn is_drained(&self) -> (r: bool)
        requires
            self.wf(),
        ensures
            r == (self@.stopped && forall|i: int|
                0 <= i < self@.queues.len() ==> (#[trigger] self@.queues[i]).len() == 0),
    {
        if !self.stopped {
            return false;
        }
        let mut i: usize = 0;
        while i < self.queues.len()
            invariant
                self.wf(),
                i <= self@.queues.len(),
                forall|j: int| 0 <= j < i ==> (#[trigger] self@.queues[j]).len() == 0,
            decreases self@.queues.len() - i,
        {
            proof {
                assert(self@.queues[i as int] == self.queues@[i as int]@);
            }
            if self.queues[i].len() != 0 {
                return false;
            }
            i += 1;
        }
        true
    }
}

} // verus!
