//! Execution-control layer for embedding a console emulator core on targets
//! without a heap: translation of interrupt and key codes, the controller
//! latch, the per-frame CPU/PPU interleaving loop, the session lifecycle and
//! the checks on caller-owned state regions.

pub mod signal;

pub use signal::{CpuInterrupt, Interrupt};

pub mod frame;

pub use frame::{FrameAction, FrameEvent, FrameLoop, FramePhase, MAX_STEP_CYCLES};

pub mod input;

pub use input::{
    player_slot, Controllers, KeyEvent, PadButton, PadLatch, EMBEDDED_EMULATOR_PLAYER_0,
    EMBEDDED_EMULATOR_PLAYER_1,
};

pub mod session;

pub use session::{Session, SessionState};

pub mod region;

pub use region::{RegionError, StateKind, StateSizes, STATE_ALIGN};

pub mod display;

pub use display::{
    DrawOption, DrawPioxelFormat, EMBEDDED_EMULATOR_NUM_OF_COLOR,
    EMBEDDED_EMULATOR_VISIBLE_SCREEN_HEIGHT, EMBEDDED_EMULATOR_VISIBLE_SCREEN_WIDTH,
};
