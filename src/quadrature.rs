//! The quadrature decoder capability, common to every family.

use vstd::prelude::*;
use crate::bus::{Bus, value_at, store};

verus! {

/// A decoder of a quadrature encoder's position.
pub trait QuadratureDecoder {
    /// The handle names a decoder that exists.
    spec fn decoder_wf(&self) -> bool;

    /// The address of the position register.
    spec fn pos_reg(&self) -> u32;

    /// The address of the maximum position register.
    spec fn maxpos_reg(&self) -> u32;

    /// The largest position before the count wraps.
    fn maxpos(&self, bus: &Bus) -> (r: u32)
        requires
            self.decoder_wf(),
        ensures
            r == value_at(bus@, self.maxpos_reg()),
    ;

    /// Sets the largest position before the count wraps.
    fn set_maxpos(&self, bus: &mut Bus, maxpos: u32)
        requires
            self.decoder_wf(),
        ensures
            final(bus)@ == store(old(bus)@, self.maxpos_reg(), maxpos),
    ;

    /// The current position.
    fn pos(&self, bus: &Bus) -> (r: u32)
        requires
            self.decoder_wf(),
        ensures
            r == value_at(bus@, self.pos_reg()),
    ;

    /// Sets the current position.
    fn set_pos(&self, bus: &mut Bus, pos: u32)
        requires
            self.decoder_wf(),
        ensures
            final(bus)@ == store(old(bus)@, self.pos_reg(), pos),
    ;
}

} // verus!
