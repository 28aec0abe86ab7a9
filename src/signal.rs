use vstd::prelude::*;

verus! {

/// Interrupt code as it crosses the embedding boundary.
#[derive(Clone, Copy, Debug, PartialEq, Eq, Structural)]
pub enum CpuInterrupt {
    NMI,
    RESET,
    IRQ,
    BRK,
    NONE,
}

/// Interrupt that the CPU core can be asked to take.
#[derive(Clone, Copy, Debug, PartialEq, Eq, Structural)]
pub enum Interrupt {
    NMI,
    RESET,
    IRQ,
    BRK,
}

/// The interrupt that a boundary code delivers: the four named codes map one
/// to one, and `NONE`, which names no interrupt, falls back to `RESET`.
pub open spec fn delivered_interrupt(code: CpuInterrupt) -> Interrupt {
    match code {
        CpuInterrupt::NMI => Interrupt::NMI,
        CpuInterrupt::RESET => Interrupt::RESET,
        CpuInterrupt::IRQ => Interrupt::IRQ,
        CpuInterrupt::BRK => Interrupt::BRK,
        CpuInterrupt::NONE => Interrupt::RESET,
    }
}

/// The boundary code that reports what a PPU step raised; `None` is `NONE`.
pub open spec fn reported_code(raised: Option<Interrupt>) -> CpuInterrupt {
    match raised {
        Some(Interrupt::NMI) => CpuInterrupt::NMI,
        Some(Interrupt::RESET) => CpuInterrupt::RESET,
        Some(Interrupt::IRQ) => CpuInterrupt::IRQ,
        Some(Interrupt::BRK) => CpuInterrupt::BRK,
        None => CpuInterrupt::NONE,
    }
}

/// The interrupt a boundary code stands for, if any.
pub open spec fn pending_interrupt(code: CpuInterrupt) -> Option<Interrupt> {
    match code {
        CpuInterrupt::NONE => None,
        _ => Some(delivered_interrupt(code)),
    }
}

impl CpuInterrupt {
    /// Interrupt to deliver to the CPU for this code (`NONE` becomes `RESET`).
    pub fn to_interrupt(self) -> (r: Interrupt)
        ensures
            r == delivered_interrupt(self),
    {
        match self {
            CpuInterrupt::NMI => Interrupt::NMI,
            CpuInterrupt::RESET => Interrupt::RESET,
            CpuInterrupt::IRQ => Interrupt::IRQ,
            CpuInterrupt::BRK => Interrupt::BRK,
            CpuInterrupt::NONE => Interrupt::RESET,
        }
    }

    /// Code that reports the outcome of a PPU step.
    pub fn from_raised(raised: Option<Interrupt>) -> (r: CpuInterrupt)
        ensures
            r == reported_code(raised),
    {
        match raised {
            Some(Interrupt::NMI) => CpuInterrupt::NMI,
            Some(Interrupt::RESET) => CpuInterrupt::RESET,
            Some(Interrupt::IRQ) => CpuInterrupt::IRQ,
            Some(Interrupt::BRK) => CpuInterrupt::BRK,
            None => CpuInterrupt::NONE,
        }
    }

    /// The interrupt this code asks for, or `None` for `NONE`.
    pub fn pending(self) -> (r: Option<Interrupt>)
        ensures
            r == pending_interrupt(self),
            r is None <==> self == CpuInterrupt::NONE,
    {
        match self {
            CpuInterrupt::NONE => None,
            _ => Some(self.to_interrupt()),
        }
    }
}

/// Reporting what a PPU step raised and reading the report back gives the
/// same interrupt, or none.
pub proof fn lemma_report_round_trip(raised: Option<Interrupt>)
    ensures
        pending_interrupt(reported_code(raised)) == raised,
{
}

} // verus!
