use vstd::prelude::*;

verus! {

/// Alignment that a state region's address must have.
pub const STATE_ALIGN: usize = 4;

/// The three state structures of the emulator core.
#[derive(Clone, Copy, Debug, PartialEq, Eq, Structural)]
pub enum StateKind {
    Cpu,
    System,
    Ppu,
}

/// Why a region cannot hold a state structure.
#[derive(Clone, Copy, Debug, PartialEq, Eq, Structural)]
pub enum RegionError {
    WrongSize,
    Misaligned,
}

/// Byte sizes of the three state structures, as the core reports them.
#[derive(Clone, Copy, Debug, PartialEq, Eq, Structural)]
pub struct StateSizes {
    pub cpu: usize,
    pub system: usize,
    pub ppu: usize,
}

impl StateSizes {
    pub open spec fn spec_size_of(self, kind: StateKind) -> usize {
        match kind {
            StateKind::Cpu => self.cpu,
            StateKind::System => self.system,
            StateKind::Ppu => self.ppu,
        }
    }

    /// Byte size a region for `kind` must have; the same on every call.
    pub fn size_of(&self, kind: StateKind) -> (r: usize)
        ensures
            r == self.spec_size_of(kind),
    {
        match kind {
            StateKind::Cpu => self.cpu,
            StateKind::System => self.system,
            StateKind::Ppu => self.ppu,
        }
    }

    /// Checks that a region of `len` bytes at `address` can hold a `kind`
    /// structure: the size must be exact, then the address aligned.
    pub fn check_region(&self, kind: StateKind, len: usize, address: usize) -> (r: Result<
        (),
        RegionError,
    >)
        ensures
            r == (if len != self.spec_size_of(kind) {
                Err(RegionError::WrongSize)
            } else if address % STATE_ALIGN != 0 {
                Err(RegionError::Misaligned)
            } else {
                Ok(())
            }),
    {
        if len != self.size_of(kind) {
            Err(RegionError::WrongSize)
        } else if address % STATE_ALIGN != 0 {
            Err(RegionError::Misaligned)
        } else {
            Ok(())
        }
    }
}

} // verus!
