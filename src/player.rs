//! One playback: the store, the scheduler and the terminal session together.
//! The caller starts it, then feeds it one call of `tick` per timer tick and
//! performs what comes back.

use vstd::prelude::*;
use crate::frame::{FrameStore, RasterFrame};
use crate::render::{render_frame, row_cells, line_text, LineWrite};
use crate::schedule::{tick_step, Phase, PlaybackScheduler, TickAction};
use crate::session::{
    apply_all, begin_commands, end_commands, normal_mode, SessionPhase, TerminalCommand, TerminalModeState,
    TerminalSession,
};

verus! {

/// What the caller performs for one tick.
pub enum PlaybackStep {
    /// Move the cursor and print, for each write in order; then flush once.
    Draw(Vec<LineWrite>),
    /// Perform the teardown commands, print the closing message, exit with
    /// success.
    Teardown(Vec<TerminalCommand>),
    /// Nothing to do.
    Wait,
}

/// The writes `ws` are the full redraw of `f`.
pub open spec fn redraws(ws: Seq<LineWrite>, f: RasterFrame) -> bool {
    &&& ws.len() == f.height
    &&& forall|y: int|
        0 <= y < ws.len() ==> {
            &&& (#[trigger] ws[y]).row == y
            &&& ws[y].column == 0
            &&& ws[y].text@ == line_text(row_cells(f, y))
        }
}

/// Every frame of `s` can be addressed by 16-bit terminal rows.
pub open spec fn rows_fit(s: Seq<RasterFrame>) -> bool {
    forall|i: int| 0 <= i < s.len() ==> #[trigger] s[i].height <= 65536
}

pub struct Player {
    store: FrameStore,
    scheduler: PlaybackScheduler,
    session: TerminalSession,
}

impl Player {
    pub closed spec fn frames(&self) -> Seq<RasterFrame> {
        self.store@
    }

    pub closed spec fn phase(&self) -> Phase {
        self.scheduler@
    }

    pub closed spec fn session_phase(&self) -> SessionPhase {
        self.session.phase_spec()
    }

    pub closed spec fn terminal_mode(&self) -> TerminalModeState {
        self.session.mode_spec()
    }

    pub closed spec fn wf(&self) -> bool {
        &&& self.store.wf()
        &&& rows_fit(self.store@)
        &&& (self.scheduler@ == Phase::Idle) == (self.session.phase_spec()
            == SessionPhase::NotBegun)
        &&& (self.scheduler@ is Running) == (self.session.phase_spec() == SessionPhase::Active)
    }

    /// A player over `store`, not started; `None` when some frame is taller
    /// than the terminal's 16-bit row numbers reach.
    pub fn new(store: FrameStore) -> (r: Option<Player>)
        requires
            store.wf(),
        ensures
            r is Some <==> rows_fit(store@),
            r matches Some(p) ==> p.wf() && p.frames() == store@ && p.phase() == Phase::Idle
                && p.session_phase() == SessionPhase::NotBegun && p.terminal_mode()
                == normal_mode(),
    {
        let n = store.len();
        let mut i: usize = 0;
        while i < n
            invariant
                n == store@.len(),
                i <= n,
                forall|j: int| 0 <= j < i ==> #[trigger] store@[j].height <= 65536,
            decreases n - i,
        {
            match store.frame_at(i) {
                Some(f) => {
                    if f.height > 65536 {
                        return None;
                    }
                },
                None => {},
            }
            i = i + 1;
        }
        Some(Player { store, scheduler: PlaybackScheduler::new(), session: TerminalSession::new() })
    }

    /// Starts playback: returns the terminal setup commands, and the next
    /// tick shows frame 0. A started player returns no commands.
    pub fn begin(&mut self) -> (r: Vec<TerminalCommand>)
        requires
            old(self).wf(),
        ensures
            final(self).wf(),
            final(self).frames() == old(self).frames(),
            old(self).phase() == Phase::Idle ==> r@ == begin_commands() && final(self).phase()
                == (Phase::Running { next: 0 }) && final(self).session_phase()
                == SessionPhase::Active && final(self).terminal_mode() == apply_all(
                old(self).terminal_mode(),
                begin_commands(),
            ),
            old(self).phase() != Phase::Idle ==> r@.len() == 0 && final(self).phase() == old(
                self,
            ).phase() && final(self).session_phase() == old(self).session_phase()
                && final(self).terminal_mode() == old(self).terminal_mode(),
    {
        let cs = self.session.begin();
        self.scheduler.start();
        cs
    }

    /// The terminal mode that the commands and draws so far lead to.
    pub fn mode(&self) -> (r: TerminalModeState)
        ensures
            r == self.terminal_mode(),
    {
        self.session.mode()
    }

    /// Ends playback early, for an exit path other than the end of the
    /// frames: the teardown commands if the session is active (so at most
    /// once), else none.
    pub fn abort(&mut self) -> (r: Vec<TerminalCommand>)
        requires
            old(self).wf(),
        ensures
            final(self).wf(),
            final(self).frames() == old(self).frames(),
            old(self).session_phase() == SessionPhase::Active ==> {
                &&& r@ == end_commands()
                &&& final(self).session_phase() == SessionPhase::Ended
                &&& final(self).phase() == Phase::Ended
                &&& final(self).terminal_mode() == normal_mode()
            },
            old(self).session_phase() != SessionPhase::Active ==> {
                &&& r@.len() == 0
                &&& final(self).session_phase() == old(self).session_phase()
                &&& final(self).phase() == old(self).phase()
            },
    {
        self.scheduler.stop();
        self.session.end()
    }

    /// Handles one tick. While running, it draws the frame whose index is
    /// the tick's number; at the first index past the end it tears the
    /// session down, exactly once; otherwise it waits.
    pub fn tick(&mut self) -> (r: PlaybackStep)
        requires
            old(self).wf(),
        ensures
            final(self).wf(),
            final(self).frames() == old(self).frames(),
            final(self).phase() == tick_step(old(self).phase(), old(self).frames().len()).0,
            match tick_step(old(self).phase(), old(self).frames().len()).1 {
                TickAction::Render { index } => r matches PlaybackStep::Draw(ws) && redraws(
                    ws@,
                    old(self).frames()[index as int],
                ) && !final(self).terminal_mode().default_foreground
                    && final(self).session_phase() == old(self).session_phase(),
                TickAction::Finish => r matches PlaybackStep::Teardown(cs) && cs@ == end_commands()
                    && final(self).session_phase() == SessionPhase::Ended
                    && final(self).terminal_mode() == normal_mode(),
                TickAction::Nothing => r is Wait && final(self).session_phase() == old(
                    self,
                ).session_phase() && final(self).terminal_mode() == old(self).terminal_mode(),
            },
    {
        match self.scheduler.on_tick(&self.store) {
            TickAction::Render { index } => {
                let f = self.store.frame_at(index).unwrap();
                let ws = render_frame(f);
                self.session.record_draw();
                PlaybackStep::Draw(ws)
            },
            TickAction::Finish => PlaybackStep::Teardown(self.session.end()),
            TickAction::Nothing => PlaybackStep::Wait,
        }
    }
}

} // verus!
