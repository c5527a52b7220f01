use vstd::prelude::*;

verus! {

/// The numbers `0, 1, ..., n - 1` in order.
pub open spec fn first_numbers(n: nat) -> Seq<u64> {
    Seq::new(n, |i: int| i as u64)
}

/// Grants commit rights to frames strictly by sequence number: the rights of
/// frame `n` are granted at most once, and only after those of `n - 1` were
/// granted and released.
pub struct CommitSequencer {
    next: u64,
    held: bool,
    /// Every sequence number whose commit rights were granted, in grant order.
    pub granted: Ghost<Seq<u64>>,
}

/// One request made of a [`CommitSequencer`].
pub enum CommitEvent {
    Acquire(u64),
    Release(u64),
}

/// The abstract state of a [`CommitSequencer`]: the next sequence number to be
/// granted, whether rights are currently held, and the log of grants.
pub struct CommitState {
    pub next: nat,
    pub held: bool,
    pub granted: Seq<u64>,
}

/// Whether an acquire of `n` succeeds in state `s`.
pub open spec fn acquire_granted(s: CommitState, n: u64) -> bool {
    !s.held && n as nat == s.next && n < u64::MAX
}

/// Whether a release of `n` is accepted in state `s`.
pub open spec fn release_accepted(s: CommitState, n: u64) -> bool {
    s.held && n as nat == s.next
}

/// The effect of one request.
pub open spec fn commit_step(s: CommitState, e: CommitEvent) -> CommitState {
    match e {
        CommitEvent::Acquire(n) => if acquire_granted(s, n) {
            CommitState { next: s.next, held: true, granted: s.granted.push(n) }
        } else {
            s
        },
        CommitEvent::Release(n) => if release_accepted(s, n) {
            CommitState { next: s.next + 1, held: false, granted: s.granted }
        } else {
            s
        },
    }
}

/// The state reached from a fresh sequencer after `events`, in order.
pub open spec fn commit_replay(events: Seq<CommitEvent>) -> CommitState
    decreases events.len(),
{
    if events.len() == 0 {
        CommitState { next: 0, held: false, granted: Seq::empty() }
    } else {
        commit_step(commit_replay(events.drop_last()), events.last())
    }
}

/// The shape every reachable state has.
pub open spec fn commit_state_wf(s: CommitState) -> bool {
    &&& s.granted == first_numbers(s.next + if s.held { 1nat } else { 0nat })
    &&& s.next <= u64::MAX
    &&& s.held ==> s.next < u64::MAX
}

proof fn lemma_step_keeps_wf(s: CommitState, e: CommitEvent)
    requires
        commit_state_wf(s),
    ensures
        commit_state_wf(commit_step(s, e)),
{
    let t = commit_step(s, e);
    assert(t.granted =~= first_numbers(t.next + if t.held { 1nat } else { 0nat }));
}

/// Whatever order workers reach the sequencer in, and whatever numbers they
/// present, commit rights are granted exactly to `0, 1, 2, ...` in that order,
/// each at most once.
pub proof fn lemma_commits_in_sequence(events: Seq<CommitEvent>)
    ensures
        commit_replay(events).granted == first_numbers(commit_replay(events).granted.len()),
    decreases events.len(),
{
    lemma_reachable_wf(events);
}

proof fn lemma_reachable_wf(events: Seq<CommitEvent>)
    ensures
        commit_state_wf(commit_replay(events)),
    decreases events.len(),
{
    if events.len() == 0 {
        assert(commit_replay(events).granted =~= first_numbers(0));
    } else {
        lemma_reachable_wf(events.drop_last());
        lemma_step_keeps_wf(commit_replay(events.drop_last()), events.last());
    }
}

impl View for CommitSequencer {
    type V = CommitState;

    closed spec fn view(&self) -> CommitState {
        CommitState { next: self.next as nat, held: self.held, granted: self.granted@ }
    }
}

impl CommitSequencer {
    pub open spec fn wf(&self) -> bool {
        commit_state_wf(self@)
    }

    /// A sequencer that has granted nothing yet; frame 0 commits first.
    pub fn new() -> (r: Self)
        ensures
            r.wf(),
            r@ == commit_replay(Seq::empty()),
    {
        let r = CommitSequencer { next: 0, held: false, granted: Ghost(Seq::empty()) };
        proof {
            assert(r.granted@ =~= first_numbers(0));
        }
        r
    }

    /// The sequence number whose commit rights are granted next.
    pub fn next_frame(&self) -> (r: u64)
        ensures
            r as nat == self@.next,
    {
        self.next
    }

    /// Whether some frame currently holds commit rights.
    pub fn is_held(&self) -> (r: bool)
        ensures
            r == self@.held,
    {
        self.held
    }

    /// Asks for the commit rights of `frame`. They are granted exactly when no
    /// frame holds them and every earlier frame has released them.
    pub fn try_acquire(&mut self, frame: u64) -> (r: bool)
        requires
            old(self).wf(),
        ensures
            final(self).wf(),
            r == acquire_granted(old(self)@, frame),
            final(self)@ == commit_step(old(self)@, CommitEvent::Acquire(frame)),
    {
        if !self.held && frame == self.next && frame < u64::MAX {
            self.held = true;
            self.granted = Ghost(self.granted@.push(frame));
            proof {
                lemma_step_keeps_wf(old(self)@, CommitEvent::Acquire(frame));
            }
            true
        } else {
            false
        }
    }

    /// Gives back the commit rights of `frame`, which lets `frame + 1` commit.
    /// Returns false, changing nothing, when `frame` does not hold them.
    pub fn release(&mut self, frame: u64) -> (r: bool)
        requires
            old(self).wf(),
        ensures
            final(self).wf(),
            r == release_accepted(old(self)@, frame),
            final(self)@ == commit_step(old(self)@, CommitEvent::Release(frame)),
    {
        if self.held && frame == self.next {
            proof {
                assert(self.granted@.len() == self.next + 1);
                assert(self.granted@[self.next as int] == frame);
            }
            self.held = false;
            self.next = frame + 1;
            proof {
                lemma_step_keeps_wf(old(self)@, CommitEvent::Release(frame));
            }
            true
        } else {
            false
        }
    }
}

} // verus!
