//! The parts of the SH7604 microcontroller around the processor: a bus that
//! claims the on-chip register window and forwards everything else.

use vstd::prelude::*;
use vstd::pervasive::unreached;
use vstd::string::*;
use crate::bus::Bus;
use crate::text::{hex, push_hex};

verus! {

/// The on-chip peripheral registers: the free running timer and the
/// interrupt controller.
#[derive(Clone, Copy, Debug)]
pub struct Regs {
    /// Timer interrupt enable register, at 0xFFFFFE10.
    pub tier: u8,
    /// Timer control and status register, at 0xFFFFFE11.
    pub ftcsr: u8,
    /// Free running counter, high byte.
    pub frc_h: u8,
    /// Free running counter, low byte.
    pub frc_l: u8,
    /// Output compare register A, high byte, at 0xFFFFFE14.
    pub ocra_h: u8,
    /// Output compare register A, low byte, at 0xFFFFFE15.
    pub ocra_l: u8,
    /// Output compare register B, high byte, at 0xFFFFFE14.
    pub ocrb_h: u8,
    /// Output compare register B, low byte, at 0xFFFFFE15.
    pub ocrb_l: u8,
    /// Timer control register, at 0xFFFFFE16.
    pub tcr: u8,
    /// Timer output compare control register, at 0xFFFFFE17.
    pub tocr: u8,
    /// Input capture register, high byte.
    pub icr_h: u8,
    /// Input capture register, low byte.
    pub icr_l: u8,
    /// Interrupt priority level setting register A.
    pub ipra: u16,
    /// Interrupt priority level setting register B, at 0xFFFFFE60.
    pub iprb: u16,
    /// Vector number setting register A.
    pub vcra: u16,
    /// Vector number setting register B.
    pub vcrb: u16,
    /// Vector number setting register C, at 0xFFFFFE66.
    pub vcrc: u16,
    /// Vector number setting register D.
    pub vcrd: u16,
    /// Vector number setting register of the watchdog timer.
    pub vcrwdt: u16,
    /// Vector number setting register of the division unit.
    pub vcrdiv: u32,
    /// Vector number setting register of DMA channel 0.
    pub vcrdma0: u32,
    /// Vector number setting register of DMA channel 1.
    pub vcrdma1: u32,
    /// Interrupt control register.
    pub icr: u16,
}

pub const TIER: u32 = 0xFFFF_FE10;

pub const FTCSR: u32 = 0xFFFF_FE11;

/// Output compare register A or B, high byte, as TOCR selects.
pub const OCR_H: u32 = 0xFFFF_FE14;

/// Output compare register A or B, low byte, as TOCR selects.
pub const OCR_L: u32 = 0xFFFF_FE15;

pub const TCR: u32 = 0xFFFF_FE16;

pub const TOCR: u32 = 0xFFFF_FE17;

pub const IPRB: u32 = 0xFFFF_FE60;

pub const VCRC: u32 = 0xFFFF_FE66;

/// The first address of the on-chip window, which reaches to the end of the
/// address space.
pub const WINDOW: u32 = 0xE000_0000;

/// The registers as they are after power-on.
pub open spec fn power_on() -> Regs {
    Regs {
        tier: 0x01,
        ftcsr: 0x00,
        frc_h: 0x00,
        frc_l: 0x00,
        ocra_h: 0xff,
        ocra_l: 0xff,
        ocrb_h: 0xff,
        ocrb_l: 0xff,
        tcr: 0x00,
        tocr: 0xe0,
        icr_h: 0x00,
        icr_l: 0x00,
        ipra: 0x0000,
        iprb: 0x0000,
        vcra: 0x0000,
        vcrb: 0x0000,
        vcrc: 0x0000,
        vcrd: 0x0000,
        vcrwdt: 0x0000,
        vcrdiv: 0xdeadbeef,
        vcrdma0: 0xdeadbeef,
        vcrdma1: 0xdeadbeef,
        icr: 0x0000,
    }
}

/// Whether the address lies in the on-chip window.
pub open spec fn in_window(addr: u32) -> bool {
    addr >= WINDOW
}

/// The address with its top three bits cleared: the cached and uncached
/// mirrors of the address space fall onto one physical space.
pub open spec fn physical(addr: u32) -> u32 {
    addr % 0x2000_0000
}

/// Whether bit 4 of TOCR is set: the output compare addresses then reach
/// register B, and register A otherwise.
pub open spec fn selects_b(r: Regs) -> bool {
    (r.tocr / 0x10) % 2 == 1
}

/// Whether the window holds a byte register at the address.
pub open spec fn window_byte(addr: u32) -> bool {
    addr == TIER || addr == FTCSR || addr == OCR_H || addr == OCR_L || addr == TCR || addr == TOCR
}

/// Whether the window holds a word register at the address.
pub open spec fn window_word(addr: u32) -> bool {
    addr == IPRB || addr == VCRC
}

/// The byte register at a window address.
pub open spec fn load_byte(r: Regs, addr: u32) -> u8 {
    if addr == TIER {
        r.tier
    } else if addr == FTCSR {
        r.ftcsr
    } else if addr == OCR_H {
        if selects_b(r) {
            r.ocrb_h
        } else {
            r.ocra_h
        }
    } else if addr == OCR_L {
        if selects_b(r) {
            r.ocrb_l
        } else {
            r.ocra_l
        }
    } else if addr == TCR {
        r.tcr
    } else {
        r.tocr
    }
}

/// The registers after a byte was written at a window address.
pub open spec fn store_byte(r: Regs, addr: u32, val: u8) -> Regs {
    if addr == TIER {
        Regs { tier: val, ..r }
    } else if addr == FTCSR {
        Regs { ftcsr: val, ..r }
    } else if addr == OCR_H {
        if selects_b(r) {
            Regs { ocrb_h: val, ..r }
        } else {
            Regs { ocra_h: val, ..r }
        }
    } else if addr == OCR_L {
        if selects_b(r) {
            Regs { ocrb_l: val, ..r }
        } else {
            Regs { ocra_l: val, ..r }
        }
    } else if addr == TCR {
        Regs { tcr: val, ..r }
    } else {
        Regs { tocr: val, ..r }
    }
}

/// The word register at a window address.
pub open spec fn load_word(r: Regs, addr: u32) -> u16 {
    if addr == IPRB {
        r.iprb
    } else {
        r.vcrc
    }
}

/// The registers after a word was written at a window address.
pub open spec fn store_word(r: Regs, addr: u32, val: u16) -> Regs {
    if addr == IPRB {
        Regs { iprb: val, ..r }
    } else {
        Regs { vcrc: val, ..r }
    }
}

impl Regs {
    /// The registers as they are after power-on.
    pub fn new() -> (r: Regs)
        ensures
            r == power_on(),
    {
        Regs {
            tier: 0x01,
            ftcsr: 0x00,
            frc_h: 0x00,
            frc_l: 0x00,
            ocra_h: 0xff,
            ocra_l: 0xff,
            ocrb_h: 0xff,
            ocrb_l: 0xff,
            tcr: 0x00,
            tocr: 0xe0,
            icr_h: 0x00,
            icr_l: 0x00,
            ipra: 0x0000,
            iprb: 0x0000,
            vcra: 0x0000,
            vcrb: 0x0000,
            vcrc: 0x0000,
            vcrd: 0x0000,
            vcrwdt: 0x0000,
            vcrdiv: 0xdeadbeef,
            vcrdma0: 0xdeadbeef,
            vcrdma1: 0xdeadbeef,
            icr: 0x0000,
        }
    }

    /// Whether TOCR selects output compare register B.
    pub fn ocr_is_b(&self) -> (b: bool)
        ensures
            b == selects_b(*self),
    {
        let tocr: u8 = self.tocr;
        let bit: u8 = tocr & 0x10;
        assert((bit != 0) == ((tocr / 0x10) % 2 == 1)) by (bit_vector)
            requires
                bit == tocr & 0x10,
        ;
        bit != 0
    }
}

/// The address with its top three bits cleared.
pub fn strip_mirror(addr: u32) -> (p: u32)
    ensures
        p == physical(addr),
{
    let p: u32 = addr & 0x1fff_ffff;
    assert(p == addr % 0x2000_0000) by (bit_vector)
        requires
            p == addr & 0x1fff_ffff,
    ;
    p
}

/// Whether the address lies in the on-chip window.
pub fn is_in_window(addr: u32) -> (b: bool)
    ensures
        b == in_window(addr),
{
    addr >= WINDOW
}

/// Whether the window holds a byte register at the address.
pub fn window_holds_byte(addr: u32) -> (b: bool)
    ensures
        b == window_byte(addr),
{
    addr == TIER || addr == FTCSR || addr == OCR_H || addr == OCR_L || addr == TCR || addr == TOCR
}

/// Whether the window holds a word register at the address.
pub fn window_holds_word(addr: u32) -> (b: bool)
    ensures
        b == window_word(addr),
{
    addr == IPRB || addr == VCRC
}

/// The report of an access that the window does not map: the access by
/// name, which tells its size, and the address.
pub open spec fn unmapped_text(access: Seq<char>, addr: u32) -> Seq<char> {
    "sh7604 "@ + access + ": "@ + hex(addr as nat, 8) + " not (yet) mapped"@
}

/// The report of an access that the window does not map.
pub fn unmapped_message(access: &str, addr: u32) -> (s: String)
    ensures
        s@ == unmapped_text(access@, addr),
{
    let mut s: String = String::from_str("sh7604 ");
    s.append(access);
    s.append(": ");
    push_hex(&mut s, addr as u64, 8);
    s.append(" not (yet) mapped");
    s
}

/// A bus that claims the on-chip register window and hands every other
/// access to the bus it wraps, at the physical address.
///
/// An access in the window that meets no register is not served; where it
/// is made all the same, the run ends.
pub struct Sh7604Mem<U: Bus> {
    regs: Regs,
    pub user: U,
}

impl<U: Bus> Sh7604Mem<U> {
    /// The on-chip registers.
    pub closed spec fn regs(&self) -> Regs {
        self.regs
    }

    /// The bus that is wrapped.
    pub closed spec fn inner(&self) -> U {
        self.user
    }

    /// Wraps a bus; the on-chip registers are as after power-on.
    pub fn new(user_mem: U) -> (mem: Sh7604Mem<U>)
        ensures
            mem.regs() == power_on(),
            mem.inner() == user_mem,
    {
        Sh7604Mem { regs: Regs::new(), user: user_mem }
    }
}

impl<U: Bus> Bus for Sh7604Mem<U> {
    open spec fn maps_byte(&self, addr: u32) -> bool {
        if in_window(addr) {
            window_byte(addr)
        } else {
            self.inner().maps_byte(physical(addr))
        }
    }

    open spec fn maps_word(&self, addr: u32) -> bool {
        if in_window(addr) {
            window_word(addr)
        } else {
            self.inner().maps_word(physical(addr))
        }
    }

    open spec fn maps_long(&self, addr: u32) -> bool {
        !in_window(addr) && self.inner().maps_long(physical(addr))
    }

    open spec fn byte_at(&self, addr: u32) -> u8 {
        if in_window(addr) {
            load_byte(self.regs(), addr)
        } else {
            self.inner().byte_at(physical(addr))
        }
    }

    open spec fn word_at(&self, addr: u32) -> u16 {
        if in_window(addr) {
            load_word(self.regs(), addr)
        } else {
            self.inner().word_at(physical(addr))
        }
    }

    open spec fn long_at(&self, addr: u32) -> u32 {
        self.inner().long_at(physical(addr))
    }

    open spec fn stored_byte(&self, before: &Self, addr: u32, val: u8) -> bool {
        if in_window(addr) {
            self.regs() == store_byte(before.regs(), addr, val) && self.inner() == before.inner()
        } else {
            self.regs() == before.regs() && self.inner().stored_byte(
                &before.inner(),
                physical(addr),
                val,
            )
        }
    }

    open spec fn stored_word(&self, before: &Self, addr: u32, val: u16) -> bool {
        if in_window(addr) {
            self.regs() == store_word(before.regs(), addr, val) && self.inner() == before.inner()
        } else {
            self.regs() == before.regs() && self.inner().stored_word(
                &before.inner(),
                physical(addr),
                val,
            )
        }
    }

    open spec fn stored_long(&self, before: &Self, addr: u32, val: u32) -> bool {
        self.regs() == before.regs() && self.inner().stored_long(&before.inner(), physical(addr), val)
    }

    fn read_byte(&self, addr: u32) -> (val: u8) {
        if is_in_window(addr) {
            if addr == TIER {
                self.regs.tier
            } else if addr == FTCSR {
                self.regs.ftcsr
            } else if addr == OCR_H {
                if self.regs.ocr_is_b() {
                    self.regs.ocrb_h
                } else {
                    self.regs.ocra_h
                }
            } else if addr == OCR_L {
                if self.regs.ocr_is_b() {
                    self.regs.ocrb_l
                } else {
                    self.regs.ocra_l
                }
            } else if addr == TCR {
                self.regs.tcr
            } else if addr == TOCR {
                self.regs.tocr
            } else {
                unreached()
            }
        } else {
            self.user.read_byte(strip_mirror(addr))
        }
    }

    fn write_byte(&mut self, addr: u32, val: u8) {
        if is_in_window(addr) {
            if addr == TIER {
                self.regs.tier = val;
            } else if addr == FTCSR {
                self.regs.ftcsr = val;
            } else if addr == OCR_H {
                if self.regs.ocr_is_b() {
                    self.regs.ocrb_h = val;
                } else {
                    self.regs.ocra_h = val;
                }
            } else if addr == OCR_L {
                if self.regs.ocr_is_b() {
                    self.regs.ocrb_l = val;
                } else {
                    self.regs.ocra_l = val;
                }
            } else if addr == TCR {
                self.regs.tcr = val;
            } else if addr == TOCR {
                self.regs.tocr = val;
            } else {
                unreached()
            }
        } else {
            self.user.write_byte(strip_mirror(addr), val);
        }
    }

    fn read_word(&self, addr: u32) -> (val: u16) {
        if is_in_window(addr) {
            if addr == IPRB {
                self.regs.iprb
            } else if addr == VCRC {
                self.regs.vcrc
            } else {
                unreached()
            }
        } else {
            self.user.read_word(strip_mirror(addr))
        }
    }

    fn write_word(&mut self, addr: u32, val: u16) {
        if is_in_window(addr) {
            if addr == IPRB {
                self.regs.iprb = val;
            } else if addr == VCRC {
                self.regs.vcrc = val;
            } else {
                unreached()
            }
        } else {
            self.user.write_word(strip_mirror(addr), val);
        }
    }

    fn read_long(&self, addr: u32) -> (val: u32) {
        if is_in_window(addr) {
            unreached()
        } else {
            self.user.read_long(strip_mirror(addr))
        }
    }

    fn write_long(&mut self, addr: u32, val: u32) {
        if is_in_window(addr) {
            unreached()
        } else {
            self.user.write_long(strip_mirror(addr), val);
        }
    }
}

/// The output compare address reads register A while bit 4 of TOCR is
/// clear and register B while it is set; what it reads depends on the
/// registers alone, so a second read with no write between returns the same.
pub proof fn lemma_ocr_alias<U: Bus>(mem: &Sh7604Mem<U>)
    ensures
        mem.maps_byte(OCR_H),
        mem.maps_byte(OCR_L),
        mem.byte_at(OCR_H) == (if selects_b(mem.regs()) {
            mem.regs().ocrb_h
        } else {
            mem.regs().ocra_h
        }),
        mem.byte_at(OCR_L) == (if selects_b(mem.regs()) {
            mem.regs().ocrb_l
        } else {
            mem.regs().ocra_l
        }),
{
}

/// A byte written to a register of the window reads back at the same
/// address, and so does a word.
pub proof fn lemma_store_then_load(r: Regs, addr: u32, val: u8)
    requires
        window_byte(addr),
    ensures
        load_byte(store_byte(r, addr, val), addr) == val,
        forall|at: u32, word: u16|
            window_word(at) ==> load_word(#[trigger] store_word(r, at, word), at) == word,
{
}

} // verus!
