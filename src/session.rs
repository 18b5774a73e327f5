//! The terminal session: which mode changes bracket playback, in which
//! order, and the guarantee that teardown happens once.

use vstd::prelude::*;

verus! {

/// The parts of the terminal's mode that playback changes.
#[derive(Clone, Copy, Debug, PartialEq, Eq, Structural)]
pub struct TerminalModeState {
    pub raw_mode: bool,
    pub alternate_screen: bool,
    pub cursor_blinking: bool,
    pub cursor_visible: bool,
    pub default_foreground: bool,
}

/// One change of terminal mode.
#[derive(Clone, Copy, Debug, PartialEq, Eq, Structural)]
pub enum TerminalCommand {
    EnableRawMode,
    DisableRawMode,
    EnterAlternateScreen,
    LeaveAlternateScreen,
    DisableBlinking,
    EnableBlinking,
    HideCursor,
    ShowCursor,
    ResetForeground,
}

/// The ordinary mode of a terminal that no session holds.
pub open spec fn normal_mode() -> TerminalModeState {
    TerminalModeState {
        raw_mode: false,
        alternate_screen: false,
        cursor_blinking: true,
        cursor_visible: true,
        default_foreground: true,
    }
}

/// The mode after command `c` from mode `s`.
pub open spec fn apply(s: TerminalModeState, c: TerminalCommand) -> TerminalModeState {
    match c {
        TerminalCommand::EnableRawMode => TerminalModeState { raw_mode: true, ..s },
        TerminalCommand::DisableRawMode => TerminalModeState { raw_mode: false, ..s },
        TerminalCommand::EnterAlternateScreen => TerminalModeState { alternate_screen: true, ..s },
        TerminalCommand::LeaveAlternateScreen => TerminalModeState { alternate_screen: false, ..s },
        TerminalCommand::DisableBlinking => TerminalModeState { cursor_blinking: false, ..s },
        TerminalCommand::EnableBlinking => TerminalModeState { cursor_blinking: true, ..s },
        TerminalCommand::HideCursor => TerminalModeState { cursor_visible: false, ..s },
        TerminalCommand::ShowCursor => TerminalModeState { cursor_visible: true, ..s },
        TerminalCommand::ResetForeground => TerminalModeState { default_foreground: true, ..s },
    }
}

/// The mode after the commands `cs`, first to last, from mode `s`.
pub open spec fn apply_all(s: TerminalModeState, cs: Seq<TerminalCommand>) -> TerminalModeState
    decreases cs.len(),
{
    if cs.len() == 0 {
        s
    } else {
        apply(apply_all(s, cs.drop_last()), cs.last())
    }
}

/// Setup: raw input, alternate screen, steady cursor, hidden cursor.
pub open spec fn begin_commands() -> Seq<TerminalCommand> {
    seq![
        TerminalCommand::EnableRawMode,
        TerminalCommand::EnterAlternateScreen,
        TerminalCommand::DisableBlinking,
        TerminalCommand::HideCursor,
    ]
}

/// Teardown: the inverses of setup in reverse order, then the default
/// foreground colour.
pub open spec fn end_commands() -> Seq<TerminalCommand> {
    seq![
        TerminalCommand::ShowCursor,
        TerminalCommand::EnableBlinking,
        TerminalCommand::LeaveAlternateScreen,
        TerminalCommand::DisableRawMode,
        TerminalCommand::ResetForeground,
    ]
}

/// Teardown leaves the terminal in its normal mode, whatever mode it found.
pub proof fn lemma_end_restores_normal_mode(s: TerminalModeState)
    ensures
        apply_all(s, end_commands()) == normal_mode(),
{
    reveal_with_fuel(apply_all, 6);
}

/// A session begun and ended at once, from the normal mode, leaves the
/// terminal in the mode it found.
pub proof fn lemma_begin_then_end_round_trip(s: TerminalModeState)
    requires
        s == normal_mode(),
    ensures
        apply_all(apply_all(s, begin_commands()), end_commands()) == s,
{
    lemma_end_restores_normal_mode(apply_all(s, begin_commands()));
}

impl TerminalModeState {
    /// The mode after `c`.
    pub fn apply(self, c: TerminalCommand) -> (r: TerminalModeState)
        ensures
            r == apply(self, c),
    {
        match c {
            TerminalCommand::EnableRawMode => TerminalModeState { raw_mode: true, ..self },
            TerminalCommand::DisableRawMode => TerminalModeState { raw_mode: false, ..self },
            TerminalCommand::EnterAlternateScreen => TerminalModeState {
                alternate_screen: true,
                ..self
            },
            TerminalCommand::LeaveAlternateScreen => TerminalModeState {
                alternate_screen: false,
                ..self
            },
            TerminalCommand::DisableBlinking => TerminalModeState {
                cursor_blinking: false,
                ..self
            },
            TerminalCommand::EnableBlinking => TerminalModeState { cursor_blinking: true, ..self },
            TerminalCommand::HideCursor => TerminalModeState { cursor_visible: false, ..self },
            TerminalCommand::ShowCursor => TerminalModeState { cursor_visible: true, ..self },
            TerminalCommand::ResetForeground => TerminalModeState {
                default_foreground: true,
                ..self
            },
        }
    }

    /// The normal mode.
    pub fn normal() -> (r: TerminalModeState)
        ensures
            r == normal_mode(),
    {
        TerminalModeState {
            raw_mode: false,
            alternate_screen: false,
            cursor_blinking: true,
            cursor_visible: true,
            default_foreground: true,
        }
    }
}

/// Runs `cs` on `mode`, first to last.
fn apply_commands(mode: TerminalModeState, cs: &Vec<TerminalCommand>) -> (r: TerminalModeState)
    ensures
        r == apply_all(mode, cs@),
{
    let mut m = mode;
    let mut i: usize = 0;
    while i < cs.len()
        invariant
            i <= cs.len(),
            m == apply_all(mode, cs@.subrange(0, i as int)),
        decreases cs.len() - i,
    {
        assert(cs@.subrange(0, i + 1).drop_last() =~= cs@.subrange(0, i as int));
        m = m.apply(cs[i]);
        i = i + 1;
    }
    assert(cs@.subrange(0, cs.len() as int) =~= cs@);
    m
}

/// Where a session stands.
#[derive(Clone, Copy, Debug, PartialEq, Eq, Structural)]
pub enum SessionPhase {
    NotBegun,
    Active,
    Ended,
}

/// Brackets playback with mode changes and tears down at most once.
///
/// The caller performs the commands that `begin` and `end` return, in
/// order; the session keeps track of the mode they lead to.
pub struct TerminalSession {
    phase: SessionPhase,
    mode: TerminalModeState,
}

impl TerminalSession {
    pub closed spec fn phase_spec(&self) -> SessionPhase {
        self.phase
    }

    pub closed spec fn mode_spec(&self) -> TerminalModeState {
        self.mode
    }

    /// A session over a terminal in its normal mode.
    pub fn new() -> (r: TerminalSession)
        ensures
            r.phase_spec() == SessionPhase::NotBegun,
            r.mode_spec() == normal_mode(),
    {
        TerminalSession { phase: SessionPhase::NotBegun, mode: TerminalModeState::normal() }
    }

    pub fn phase(&self) -> (r: SessionPhase)
        ensures
            r == self.phase_spec(),
    {
        self.phase
    }

    pub fn mode(&self) -> (r: TerminalModeState)
        ensures
            r == self.mode_spec(),
    {
        self.mode
    }

    /// Records that a frame was drawn while the session is active: drawing
    /// sets the foreground colour away from the default.
    pub fn record_draw(&mut self)
        ensures
            final(self).phase_spec() == old(self).phase_spec(),
            old(self).phase_spec() == SessionPhase::Active ==> final(self).mode_spec() == (
            TerminalModeState { default_foreground: false, ..old(self).mode_spec() }),
            old(self).phase_spec() != SessionPhase::Active ==> final(self).mode_spec() == old(
                self,
            ).mode_spec(),
    {
        if let SessionPhase::Active = self.phase {
            self.mode = TerminalModeState { default_foreground: false, ..self.mode };
        }
    }

    /// The setup commands, the first time only; afterwards none.
    pub fn begin(&mut self) -> (r: Vec<TerminalCommand>)
        ensures
            old(self).phase_spec() == SessionPhase::NotBegun ==> {
                &&& r@ == begin_commands()
                &&& final(self).phase_spec() == SessionPhase::Active
                &&& final(self).mode_spec() == apply_all(old(self).mode_spec(), begin_commands())
            },
            old(self).phase_spec() != SessionPhase::NotBegun ==> {
                &&& r@.len() == 0
                &&& final(self).phase_spec() == old(self).phase_spec()
                &&& final(self).mode_spec() == old(self).mode_spec()
            },
    {
        match self.phase {
            SessionPhase::NotBegun => {
                let cs = vec![
                    TerminalCommand::EnableRawMode,
                    TerminalCommand::EnterAlternateScreen,
                    TerminalCommand::DisableBlinking,
                    TerminalCommand::HideCursor,
                ];
                assert(cs@ =~= begin_commands());
                self.mode = apply_commands(self.mode, &cs);
                self.phase = SessionPhase::Active;
                cs
            },
            _ => Vec::new(),
        }
    }

    /// The teardown commands, for an active session only and so at most
    /// once; the session is then ended and the terminal in its normal mode.
    pub fn end(&mut self) -> (r: Vec<TerminalCommand>)
        ensures
            old(self).phase_spec() == SessionPhase::Active ==> {
                &&& r@ == end_commands()
                &&& final(self).phase_spec() == SessionPhase::Ended
                &&& final(self).mode_spec() == apply_all(old(self).mode_spec(), end_commands())
                &&& final(self).mode_spec() == normal_mode()
            },
            old(self).phase_spec() != SessionPhase::Active ==> {
                &&& r@.len() == 0
                &&& final(self).phase_spec() == old(self).phase_spec()
                &&& final(self).mode_spec() == old(self).mode_spec()
            },
    {
        match self.phase {
            SessionPhase::Active => {
                let cs = vec![
                    TerminalCommand::ShowCursor,
                    TerminalCommand::EnableBlinking,
                    TerminalCommand::LeaveAlternateScreen,
                    TerminalCommand::DisableRawMode,
                    TerminalCommand::ResetForeground,
                ];
                assert(cs@ =~= end_commands());
                proof {
                    lemma_end_restores_normal_mode(self.mode);
                }
                self.mode = apply_commands(self.mode, &cs);
                self.phase = SessionPhase::Ended;
                cs
            },
            _ => Vec::new(),
        }
    }
}

} // verus!
