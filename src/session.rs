use vstd::prelude::*;

verus! {

/// Lifecycle of one emulator session.
#[derive(Clone, Copy, Debug, PartialEq, Eq, Structural)]
pub enum SessionState {
    /// No state structures exist yet.
    Uninitialized,
    /// The state structures are in a runnable state.
    Ready,
    /// A cartridge was loaded; execution state must be reset before running.
    NeedsReset,
    /// A cartridge load failed; the system state is unspecified until a reset
    /// or a successful load.
    Unsafe,
}

pub open spec fn state_after_init() -> SessionState {
    SessionState::Ready
}

pub open spec fn state_after_load(s: SessionState, loaded: bool) -> SessionState {
    if s == SessionState::Uninitialized {
        s
    } else if loaded {
        SessionState::NeedsReset
    } else {
        SessionState::Unsafe
    }
}

pub open spec fn state_after_reset(s: SessionState) -> SessionState {
    if s == SessionState::Uninitialized {
        s
    } else {
        SessionState::Ready
    }
}

/// Decides, from the outcomes the host reports, which operations on the
/// emulator state are allowed.
#[derive(Clone, Copy, Debug, PartialEq, Eq, Structural)]
pub struct Session {
    state: SessionState,
}

impl Session {
    pub closed spec fn view(&self) -> SessionState {
        self.state
    }

    /// A session before its state structures are created.
    pub fn new() -> (r: Session)
        ensures
            r@ == SessionState::Uninitialized,
    {
        Session { state: SessionState::Uninitialized }
    }

    pub fn state(&self) -> (r: SessionState)
        ensures
            r == self@,
    {
        self.state
    }

    /// Whether the state structures exist.
    pub fn is_initialized(&self) -> (r: bool)
        ensures
            r == (self@ != SessionState::Uninitialized),
    {
        !matches!(self.state, SessionState::Uninitialized)
    }

    /// Whether the CPU and PPU may be stepped.
    pub fn may_run(&self) -> (r: bool)
        ensures
            r == (self@ == SessionState::Ready),
    {
        matches!(self.state, SessionState::Ready)
    }

    /// The state structures were (re)created with their default values.
    pub fn on_init(&mut self)
        ensures
            final(self)@ == state_after_init(),
    {
        self.state = SessionState::Ready;
    }

    /// Records the outcome of a cartridge load and returns whether the host
    /// has to reset now. A load on an uninitialized session did not happen
    /// and changes nothing.
    pub fn on_load(&mut self, loaded: bool) -> (r: bool)
        ensures
            final(self)@ == state_after_load(old(self)@, loaded),
            r == (loaded && old(self)@ != SessionState::Uninitialized),
    {
        if matches!(self.state, SessionState::Uninitialized) {
            false
        } else if loaded {
            self.state = SessionState::NeedsReset;
            true
        } else {
            self.state = SessionState::Unsafe;
            false
        }
    }

    /// Records a reset of CPU, system and PPU followed by a RESET interrupt.
    pub fn on_reset(&mut self)
        ensures
            final(self)@ == state_after_reset(old(self)@),
    {
        if !matches!(self.state, SessionState::Uninitialized) {
            self.state = SessionState::Ready;
        }
    }
}

/// A failed load does not poison the session for good: a reset afterwards
/// brings it back to a runnable state, as after any reset.
pub proof fn lemma_failed_load_recovers(s: SessionState)
    requires
        s != SessionState::Uninitialized,
    ensures
        state_after_load(s, false) == SessionState::Unsafe,
        state_after_reset(state_after_load(s, false)) == SessionState::Ready,
        state_after_reset(state_after_load(s, false)) == state_after_reset(s),
{
}

/// After any load, successful or not, nothing runs until a reset.
pub proof fn lemma_load_blocks_until_reset(s: SessionState, loaded: bool)
    requires
        s != SessionState::Uninitialized,
    ensures
        state_after_load(s, loaded) != SessionState::Ready,
        state_after_reset(state_after_load(s, loaded)) == SessionState::Ready,
{
}

} // verus!
