//! The memory bus through which the processor reaches everything outside
//! its register file.

use vstd::prelude::*;

verus! {

/// Typed access to a 32-bit address space in units of 8, 16 and 32 bits.
///
/// All values are unsigned; sign extension is the caller's business, and so
/// is alignment, as far as the implementor asks for any.
///
/// An implementor says through the `maps_*` predicates which accesses it
/// serves, and callers stay within them; left as they are, every access is
/// served. What a read returns is a function of the bus and the address
/// (`*_at`). What a write does is a relation between the bus before and after
/// it (`stored_*`); left as it is, nothing is promised of a write.
pub trait Bus {
    /// Whether a byte access at `addr` is served.
    open spec fn maps_byte(&self, addr: u32) -> bool {
        true
    }

    /// Whether a word access at `addr` is served.
    open spec fn maps_word(&self, addr: u32) -> bool {
        true
    }

    /// Whether a long access at `addr` is served.
    open spec fn maps_long(&self, addr: u32) -> bool {
        true
    }

    /// The byte that a read at `addr` returns.
    spec fn byte_at(&self, addr: u32) -> u8;

    /// The word that a read at `addr` returns.
    spec fn word_at(&self, addr: u32) -> u16;

    /// The long that a read at `addr` returns.
    spec fn long_at(&self, addr: u32) -> u32;

    /// Whether this bus is what `before` becomes when the byte `val` is
    /// written at `addr`.
    open spec fn stored_byte(&self, before: &Self, addr: u32, val: u8) -> bool {
        true
    }

    /// Whether this bus is what `before` becomes when the word `val` is
    /// written at `addr`.
    open spec fn stored_word(&self, before: &Self, addr: u32, val: u16) -> bool {
        true
    }

    /// Whether this bus is what `before` becomes when the long `val` is
    /// written at `addr`.
    open spec fn stored_long(&self, before: &Self, addr: u32, val: u32) -> bool {
        true
    }

    fn read_byte(&self, addr: u32) -> (val: u8)
        requires
            self.maps_byte(addr),
        ensures
            val == self.byte_at(addr),
    ;

    fn read_word(&self, addr: u32) -> (val: u16)
        requires
            self.maps_word(addr),
        ensures
            val == self.word_at(addr),
    ;

    fn read_long(&self, addr: u32) -> (val: u32)
        requires
            self.maps_long(addr),
        ensures
            val == self.long_at(addr),
    ;

    fn write_byte(&mut self, addr: u32, val: u8)
        requires
            old(self).maps_byte(addr),
        ensures
            final(self).stored_byte(old(self), addr, val),
    ;

    fn write_word(&mut self, addr: u32, val: u16)
        requires
            old(self).maps_word(addr),
        ensures
            final(self).stored_word(old(self), addr, val),
    ;

    fn write_long(&mut self, addr: u32, val: u32)
        requires
            old(self).maps_long(addr),
        ensures
            final(self).stored_long(old(self), addr, val),
    ;
}

} // verus!
