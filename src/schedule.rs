//! The playback state machine: Idle, then Running over frame indices, then
//! Ended. Each tick asks the store for the frame whose index is the tick's
//! number; the first absent frame ends playback.

use vstd::prelude::*;
use crate::frame::FrameStore;

verus! {

/// Period of one tick: 20 ticks a second, whatever the source's frame rate.
pub const TICK_PERIOD_MS: u64 = 50;

/// Where playback stands.
#[derive(Clone, Copy, Debug, PartialEq, Eq, Structural)]
pub enum Phase {
    /// Not started.
    Idle,
    /// Playing; `next` is the index of the frame the next tick shows.
    Running { next: usize },
    /// Past the last frame; no tick does anything any more.
    Ended,
}

/// What the caller must do for one tick.
#[derive(Clone, Copy, Debug, PartialEq, Eq, Structural)]
pub enum TickAction {
    /// Render the frame at `index`.
    Render { index: usize },
    /// Tear the terminal session down and exit successfully.
    Finish,
    /// Nothing: the scheduler is not running.
    Nothing,
}

/// One tick from phase `p`, over a store of `len` frames.
pub open spec fn tick_step(p: Phase, len: nat) -> (Phase, TickAction) {
    match p {
        Phase::Running { next } => if next < len {
            (Phase::Running { next: (next + 1) as usize }, TickAction::Render { index: next })
        } else {
            (Phase::Ended, TickAction::Finish)
        },
        _ => (p, TickAction::Nothing),
    }
}

/// The phase after `k` ticks from `p`, and the actions of those ticks in order.
pub open spec fn run_ticks(p: Phase, len: nat, k: nat) -> (Phase, Seq<TickAction>)
    decreases k,
{
    if k == 0 {
        (p, Seq::empty())
    } else {
        let (p1, a) = tick_step(p, len);
        let (pk, rest) = run_ticks(p1, len, (k - 1) as nat);
        (pk, seq![a] + rest)
    }
}

/// The actions that play frames `from .. len` in order and then finish.
pub open spec fn playback_from(from: nat, len: nat) -> Seq<TickAction> {
    Seq::new((len - from) as nat, |i: int| TickAction::Render { index: (from + i) as usize }).push(
        TickAction::Finish,
    )
}

proof fn lemma_run_from(from: nat, len: nat)
    requires
        from <= len <= usize::MAX,
    ensures
        run_ticks(Phase::Running { next: from as usize }, len, (len - from + 1) as nat) == (
            Phase::Ended,
            playback_from(from, len),
        ),
    decreases len - from,
{
    let p = Phase::Running { next: from as usize };
    let k = (len - from + 1) as nat;
    if from == len {
        assert(run_ticks(Phase::Ended, len, 0) == (Phase::Ended, Seq::<TickAction>::empty()));
        assert(playback_from(from, len) =~= seq![TickAction::Finish]);
        assert(run_ticks(p, len, k).1 =~= seq![TickAction::Finish]);
    } else {
        lemma_run_from(from + 1, len);
        let rest = run_ticks(Phase::Running { next: (from + 1) as usize }, len, (k - 1) as nat);
        assert(rest == (Phase::Ended, playback_from(from + 1, len)));
        assert(seq![TickAction::Render { index: from as usize }] + playback_from(from + 1, len)
            =~= playback_from(from, len));
    }
}

/// A store of `len` frames, played from its first frame, is rendered in
/// exactly `len` ticks, frame `i` at tick `i`, and the next tick finishes
/// playback and ends it.
pub proof fn lemma_plays_every_frame_once_in_order(len: nat)
    requires
        len <= usize::MAX,
    ensures
        run_ticks(Phase::Running { next: 0 }, len, len + 1) == (
            Phase::Ended,
            Seq::new(len, |i: int| TickAction::Render { index: i as usize }).push(
                TickAction::Finish,
            ),
        ),
{
    lemma_run_from(0, len);
    assert(playback_from(0, len) =~= Seq::new(len, |i: int| TickAction::Render { index: i as usize }).push(
        TickAction::Finish,
    ));
}

/// Once ended, playback stays ended and every further tick does nothing.
pub proof fn lemma_ended_is_final(len: nat, k: nat)
    ensures
        run_ticks(Phase::Ended, len, k) == (
            Phase::Ended,
            Seq::new(k, |i: int| TickAction::Nothing),
        ),
    decreases k,
{
    if k > 0 {
        lemma_ended_is_final(len, (k - 1) as nat);
        assert(seq![TickAction::Nothing] + Seq::new((k - 1) as nat, |i: int| TickAction::Nothing)
            =~= Seq::new(k, |i: int| TickAction::Nothing));
    } else {
        assert(Seq::new(0, |i: int| TickAction::Nothing) =~= Seq::<TickAction>::empty());
    }
}

/// Drives playback one tick at a time.
pub struct PlaybackScheduler {
    phase: Phase,
}

impl View for PlaybackScheduler {
    type V = Phase;

    closed spec fn view(&self) -> Phase {
        self.phase
    }
}

impl PlaybackScheduler {
    /// A scheduler that has not started.
    pub fn new() -> (r: PlaybackScheduler)
        ensures
            r@ == Phase::Idle,
    {
        PlaybackScheduler { phase: Phase::Idle }
    }

    /// Starts playback at frame 0; a scheduler that has already started is
    /// left as it is.
    pub fn start(&mut self)
        ensures
            old(self)@ == Phase::Idle ==> final(self)@ == (Phase::Running { next: 0 }),
            old(self)@ != Phase::Idle ==> final(self)@ == old(self)@,
    {
        if let Phase::Idle = self.phase {
            self.phase = Phase::Running { next: 0 };
        }
    }

    /// Ends a running playback early; any other phase is left as it is.
    pub fn stop(&mut self)
        ensures
            old(self)@ is Running ==> final(self)@ == Phase::Ended,
            !(old(self)@ is Running) ==> final(self)@ == old(self)@,
    {
        if let Phase::Running { .. } = self.phase {
            self.phase = Phase::Ended;
        }
    }

    /// The current phase.
    pub fn phase(&self) -> (r: Phase)
        ensures
            r == self@,
    {
        self.phase
    }

    /// Whether playback has ended.
    pub fn is_ended(&self) -> (r: bool)
        ensures
            r <==> self@ == Phase::Ended,
    {
        match self.phase {
            Phase::Ended => true,
            _ => false,
        }
    }

    /// Handles one tick: while running, renders the frame whose index is the
    /// tick's number, or finishes at the first index past the end.
    pub fn on_tick(&mut self, store: &FrameStore) -> (r: TickAction)
        ensures
            (final(self)@, r) == tick_step(old(self)@, store@.len()),
    {
        match self.phase {
            Phase::Running { next } => match store.frame_at(next) {
                Some(_) => {
                    let n: usize = store.len();
                    self.phase = Phase::Running { next: next + 1 };
                    TickAction::Render { index: next }
                },
                None => {
                    self.phase = Phase::Ended;
                    TickAction::Finish
                },
            },
            _ => TickAction::Nothing,
        }
    }
}

} // verus!
