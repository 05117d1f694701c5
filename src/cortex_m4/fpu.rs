//! The floating point unit.

use vstd::prelude::*;
use crate::bus::{Bus, Event, value_at, rmw};
use crate::field::field_of;

verus! {

/// The system control space that holds the FPU's registers.
pub const FPU: u32 = 0xE000_E000;
/// Coprocessor access control.
pub const CPAC: u32 = FPU + 0xD88;
/// Floating point context control.
pub const FPCC: u32 = FPU + 0xF34;
/// Access to coprocessor 11, two bits of the access control register.
pub const CP11: u32 = 22;
/// Access to coprocessor 10, two bits of the access control register.
pub const CP10: u32 = 20;
/// Automatic state preservation, in the context control register.
pub const ASPEN: u32 = 31;
/// Lazy state preservation, in the context control register.
pub const LSPEN: u32 = 30;

/// Who may use a coprocessor.
#[derive(Clone, Copy, Debug, PartialEq, Eq, Structural)]
pub enum CoprocessorAccess {
    /// Nobody: any use faults.
    Denied,
    /// Privileged code only.
    Privileged,
    /// Everyone.
    Full,
}

impl CoprocessorAccess {
    /// The field value that encodes the access.
    pub open spec fn code(self) -> u32 {
        match self {
            CoprocessorAccess::Denied => 0,
            CoprocessorAccess::Privileged => 1,
            CoprocessorAccess::Full => 3,
        }
    }

    /// The access that a field value encodes, if any.
    pub open spec fn decode(bits: u32) -> Option<CoprocessorAccess> {
        if bits == 0 {
            Some(CoprocessorAccess::Denied)
        } else if bits == 1 {
            Some(CoprocessorAccess::Privileged)
        } else if bits == 3 {
            Some(CoprocessorAccess::Full)
        } else {
            None
        }
    }

    /// The field value that encodes the access.
    pub fn bits(self) -> (r: u32)
        ensures
            r == self.code(),
    {
        match self {
            CoprocessorAccess::Denied => 0,
            CoprocessorAccess::Privileged => 1,
            CoprocessorAccess::Full => 3,
        }
    }

    /// The access that `bits` encodes, or `None` for the reserved value.
    pub fn from_bits(bits: u32) -> (r: Option<CoprocessorAccess>)
        ensures
            r == CoprocessorAccess::decode(bits),
    {
        if bits == 0 {
            Some(CoprocessorAccess::Denied)
        } else if bits == 1 {
            Some(CoprocessorAccess::Privileged)
        } else if bits == 3 {
            Some(CoprocessorAccess::Full)
        } else {
            None
        }
    }
}

/// Every access decodes from its own encoding.
pub proof fn lemma_access_round_trip(a: CoprocessorAccess)
    ensures
        CoprocessorAccess::decode(a.code()) == Some(a),
        a.code() < 4,
{
}

/// `log` followed by the stores of `enable`.
pub open spec fn enable_log(log: Seq<Event>) -> Seq<Event> {
    rmw(rmw(log, CPAC, CP11, 2, CoprocessorAccess::Full.code()), CPAC, CP10, 2, CoprocessorAccess::Full.code())
}

/// `log` followed by the stores that set automatic and lazy state preservation.
pub open spec fn stacking_log(log: Seq<Event>, lazy: bool) -> Seq<Event> {
    rmw(rmw(log, FPCC, ASPEN, 1, 1), FPCC, LSPEN, 1, if lazy { 1 } else { 0 })
}

/// Enables the FPU: gives everyone full access to coprocessors 10 and 11.
pub fn enable(bus: &mut Bus)
    ensures
        final(bus)@ == enable_log(old(bus)@),
{
    bus.modify(CPAC, CP11, 2, CoprocessorAccess::Full.bits());
    bus.modify(CPAC, CP10, 2, CoprocessorAccess::Full.bits());
}

/// Enables the stacking of the FPU registers on exception entry, so that
/// interrupt routines can use the FPU.
pub fn enable_stacking(bus: &mut Bus)
    ensures
        final(bus)@ == stacking_log(old(bus)@, false),
{
    bus.modify(FPCC, ASPEN, 1, 1);
    bus.modify(FPCC, LSPEN, 1, 0);
}

/// Enables lazy stacking of the FPU registers: they are saved only if the
/// interrupt routine uses the FPU.
pub fn enable_lazy_stacking(bus: &mut Bus)
    ensures
        final(bus)@ == stacking_log(old(bus)@, true),
{
    bus.modify(FPCC, ASPEN, 1, 1);
    bus.modify(FPCC, LSPEN, 1, 1);
}

/// The access to coprocessor 10, or `None` where the register holds the
/// reserved value.
pub fn cp10_access(bus: &Bus) -> (r: Option<CoprocessorAccess>)
    ensures
        r == CoprocessorAccess::decode(field_of(value_at(bus@, CPAC), CP10, 2)),
{
    CoprocessorAccess::from_bits(bus.field(CPAC, CP10, 2))
}

/// The access to coprocessor 11, or `None` where the register holds the
/// reserved value.
pub fn cp11_access(bus: &Bus) -> (r: Option<CoprocessorAccess>)
    ensures
        r == CoprocessorAccess::decode(field_of(value_at(bus@, CPAC), CP11, 2)),
{
    CoprocessorAccess::from_bits(bus.field(CPAC, CP11, 2))
}

} // verus!
