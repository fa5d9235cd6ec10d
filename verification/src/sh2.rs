//! The SH-2 register file and the instruction interpreter.
//!
//! The meaning of one step is given by pure functions over a snapshot of the
//! processor ([`State`]): [`advance`] commits the program counter,
//! [`access`] names the one memory access an instruction makes, and
//! [`effect`] gives the registers after it. The executable interpreter is
//! proved to compute exactly these.

use vstd::prelude::*;
use vstd::array::*;
use vstd::string::*;
use crate::bus::Bus;
use crate::ops::{Instr, Fault, FaultKind, wrap32, extend16, decode, decode_spec, instr_wf};
use crate::ops::{family, low_nibble, low_byte, field_n, msn, lsn, lsb, reg_n, sign_extend_word};
use crate::text::{hex, bin, dec, truth, padded, push_hex, push_bin, push_dec, push_truth};

verus! {

/// The architectural registers of the SH-2.
#[derive(Clone, Copy, Debug)]
pub struct Regs {
    /// General purpose registers R0..R15; R15 is the stack pointer.
    pub gpr: [u32; 16],
    /// Global base register.
    pub gbr: u32,
    /// Vector base register.
    pub vbr: u32,
    /// Status register, T bit: condition flag.
    pub sr_t: bool,
    /// Status register, S bit: saturation of multiply and accumulate.
    pub sr_s: bool,
    /// Status register, interrupt mask: a level from 0 to 15.
    pub sr_i: u32,
    /// Status register, Q bit, used by the division steps.
    pub sr_q: bool,
    /// Status register, M bit, used by the division steps.
    pub sr_m: bool,
    /// Multiply and accumulate register, high half.
    pub mach: u32,
    /// Multiply and accumulate register, low half.
    pub macl: u32,
    /// Procedure register: the return address of a subroutine call.
    pub pr: u32,
    /// Program counter.
    pub pc: u32,
}

/// The value that registers hold before anything was written to them.
pub const POISON: u32 = 0xDEADBEEF;

/// The contents of general purpose register `n`.
pub open spec fn reg(r: Regs, n: usize) -> u32 {
    r.gpr[n as int]
}

/// The register file `r` with general purpose register `n` set to `v`.
pub open spec fn set_reg(r: Regs, n: usize, v: u32) -> Regs {
    Regs { gpr: spec_array_update(r.gpr, n as int, v), ..r }
}

/// The register file after a hard reset to entry point `pc` and stack `sp`.
pub open spec fn reset_spec(r: Regs, pc: u32, sp: u32) -> Regs {
    Regs { vbr: 0, pc, sr_i: 0xF, ..set_reg(r, 15, sp) }
}

impl Regs {
    /// The interrupt mask is a 4-bit field.
    pub open spec fn wf(&self) -> bool {
        self.sr_i <= 15
    }

    /// A register file as it is before reset: the general purpose registers,
    /// GBR, MACH, MACL, PR and PC hold [`POISON`]; VBR and the interrupt mask
    /// are zero. The T, S, Q and M bits are left open, as the architecture
    /// leaves them.
    pub fn new() -> (r: Regs)
        ensures
            forall|n: usize| n < 16 ==> reg(r, n) == POISON,
            r.gbr == POISON,
            r.mach == POISON,
            r.macl == POISON,
            r.pr == POISON,
            r.pc == POISON,
            r.vbr == 0,
            r.sr_i == 0,
            r.wf(),
    {
        Regs {
            gpr: [POISON; 16],
            gbr: POISON,
            sr_t: false,
            sr_s: true,
            sr_i: 0,
            sr_q: false,
            sr_m: false,
            vbr: 0,
            mach: POISON,
            macl: POISON,
            pr: POISON,
            pc: POISON,
        }
    }

    /// Hard reset: installs the entry point and the stack pointer, clears
    /// VBR and masks all interrupts. Every other register keeps its value.
    pub fn reset(&mut self, pc: u32, sp: u32)
        ensures
            *final(self) == reset_spec(*old(self), pc, sp),
            final(self).wf(),
    {
        self.vbr = 0;
        self.pc = pc;
        self.gpr[15] = sp;
        self.sr_i = 0xF;
        assert(self.gpr =~= spec_array_update(old(self).gpr, 15, sp));
    }
}

/// A snapshot of the processor: the register file, the cycle counter and the
/// delayed-branch latch.
pub struct State {
    pub regs: Regs,
    /// Cycles spent since construction.
    pub cycles: u64,
    /// Whether a delayed branch is pending.
    pub delay: bool,
    /// Where the pending delayed branch goes.
    pub delay_pc: u32,
}

/// The one memory access that an instruction makes, if any.
pub enum Access {
    /// No access.
    Idle,
    /// A word is read at the address.
    ReadWord(u32),
    /// A long is read at the address.
    ReadLong(u32),
    /// The long (second field) is written at the address (first field).
    WriteLong(u32, u32),
}

/// The state with its register file replaced.
pub open spec fn with_regs(s: State, regs: Regs) -> State {
    State { regs, ..s }
}

/// The state with `n` more cycles on its counter.
pub open spec fn with_cycles(s: State, n: int) -> State {
    State { cycles: (s.cycles + n) as u64, ..s }
}

/// The address `base + 2 + 2 * disp` in 32-bit arithmetic: the target of a
/// branch, or the source of a PC-relative word load, seen from the
/// instruction that follows.
pub open spec fn word_target(base: u32, disp: int) -> u32 {
    wrap32(base + 2 + 2 * disp)
}

/// The address `4 * disp` past `base + 2` with its low two bits cleared, in
/// 32-bit arithmetic: the source of a PC-relative long load.
pub open spec fn long_target(base: u32, disp: int) -> u32 {
    wrap32(wrap32(base + 2) - wrap32(base + 2) % 4 + 4 * disp)
}

/// Step two of the step loop: the program counter is committed before the
/// instruction runs. With the latch armed it takes the latched target and
/// the latch is disarmed; otherwise it moves on by two.
pub open spec fn advance(s: State) -> State {
    if s.delay {
        State { regs: Regs { pc: s.delay_pc, ..s.regs }, delay: false, ..s }
    } else {
        State { regs: Regs { pc: wrap32(s.regs.pc + 2), ..s.regs }, ..s }
    }
}

/// The register file as the predecrement addressing mode leaves it:
/// `R[n]` is four less.
pub open spec fn predecrement(r: Regs, rn: usize) -> Regs {
    set_reg(r, rn, wrap32(reg(r, rn) - 4))
}

/// The memory access that instruction `i` makes in state `s`, the state
/// after the program counter was committed.
pub open spec fn access(s: State, i: Instr) -> Access {
    let r = s.regs;
    match i {
        Instr::MovLS { rm, rn } => Access::WriteLong(reg(r, rn), reg(r, rm)),
        Instr::MovLM { rm, rn } => Access::WriteLong(
            reg(predecrement(r, rn), rn),
            reg(predecrement(r, rn), rm),
        ),
        Instr::StsMPr { rn } => Access::WriteLong(reg(predecrement(r, rn), rn), r.pr),
        Instr::MovWL { rm, rn } => Access::ReadWord(reg(r, rm)),
        Instr::MovLL { rm, rn } => Access::ReadLong(reg(r, rm)),
        Instr::MovWI { disp, rn } => Access::ReadWord(word_target(r.pc, disp as int)),
        Instr::MovLI { disp, rn } => Access::ReadLong(long_target(r.pc, disp as int)),
        _ => Access::Idle,
    }
}

/// What instruction `i` makes of state `s`, the state after the program
/// counter was committed, when its read, if it makes one, returned `word`
/// or `long`. The cycles counted here are those beyond the one that every
/// step costs.
pub open spec fn effect(s: State, i: Instr, word: u16, long: u32) -> State {
    let r = s.regs;
    match i {
        Instr::MovLS { rm, rn } => s,
        Instr::MovLM { rm, rn } => with_regs(s, predecrement(r, rn)),
        Instr::Tst { rm, rn } => with_regs(s, Regs { sr_t: reg(r, rn) & reg(r, rm) == 0, ..r }),
        Instr::And { rm, rn } => with_regs(s, set_reg(r, rn, reg(r, rn) & reg(r, rm))),
        Instr::Xor { rm, rn } => with_regs(s, set_reg(r, rn, reg(r, rn) ^ reg(r, rm))),
        Instr::Or { rm, rn } => with_regs(s, set_reg(r, rn, reg(r, rn) | reg(r, rm))),
        Instr::CmpHs { rm, rn } => with_regs(s, Regs { sr_t: reg(r, rn) >= reg(r, rm), ..r }),
        Instr::StsMPr { rn } => with_regs(s, predecrement(r, rn)),
        Instr::MovWL { rm, rn } => with_regs(s, set_reg(r, rn, extend16(word))),
        Instr::MovLL { rm, rn } => with_regs(s, set_reg(r, rn, long)),
        Instr::AddI { imm, rn } => with_regs(s, set_reg(r, rn, wrap32(reg(r, rn) + imm))),
        Instr::Bf { disp } => if r.sr_t {
            s
        } else {
            with_cycles(with_regs(s, Regs { pc: word_target(r.pc, disp as int), ..r }), 2)
        },
        Instr::MovWI { disp, rn } => with_regs(s, set_reg(r, rn, extend16(word))),
        Instr::Bra { disp } => with_cycles(
            State { delay: true, delay_pc: word_target(r.pc, disp as int), ..s },
            1,
        ),
        Instr::MovLI { disp, rn } => with_regs(s, set_reg(r, rn, long)),
        Instr::MovI { imm, rn } => with_regs(s, set_reg(r, rn, imm)),
    }
}

/// Whether the bus serves the access.
pub open spec fn serves<B: Bus>(bus: &B, a: Access) -> bool {
    match a {
        Access::Idle => true,
        Access::ReadWord(addr) => bus.maps_word(addr),
        Access::ReadLong(addr) => bus.maps_long(addr),
        Access::WriteLong(addr, val) => bus.maps_long(addr),
    }
}

/// The word that the access reads; zero where it reads none.
pub open spec fn word_read<B: Bus>(bus: &B, a: Access) -> u16 {
    match a {
        Access::ReadWord(addr) => bus.word_at(addr),
        _ => 0,
    }
}

/// The long that the access reads; zero where it reads none.
pub open spec fn long_read<B: Bus>(bus: &B, a: Access) -> u32 {
    match a {
        Access::ReadLong(addr) => bus.long_at(addr),
        _ => 0,
    }
}

/// Whether `after` is the bus that the access leaves of `before`: written
/// once where the access is a write, and untouched otherwise.
pub open spec fn carried<B: Bus>(before: &B, after: &B, a: Access) -> bool {
    match a {
        Access::WriteLong(addr, val) => after.stored_long(before, addr, val),
        _ => *after == *before,
    }
}

/// One whole step on a state, for an opcode that decodes to `i`: the
/// program counter is committed, the instruction takes effect, and one
/// cycle is counted.
pub open spec fn step_spec(s: State, i: Instr, word: u16, long: u32) -> State {
    with_cycles(effect(advance(s), i, word, long), 1)
}

/// The cycles that a step on `s` with instruction `i` costs.
pub open spec fn cost(s: State, i: Instr) -> int {
    match i {
        Instr::Bf { disp } => if s.regs.sr_t { 1 } else { 3 },
        Instr::Bra { disp } => 2,
        _ => 1,
    }
}

/// The SH-2 processor: its register file, a cycle counter and the
/// delayed-branch latch.
pub struct Sh2 {
    cycles: u64,
    regs: Regs,
    delay: bool,
    delay_pc: u32,
}

impl View for Sh2 {
    type V = State;

    closed spec fn view(&self) -> State {
        State { regs: self.regs, cycles: self.cycles, delay: self.delay, delay_pc: self.delay_pc }
    }
}

impl Sh2 {
    /// The interrupt mask is a 4-bit field.
    pub open spec fn wf(&self) -> bool {
        self@.regs.wf()
    }

    /// A processor before reset: no cycle counted, the latch disarmed, the
    /// registers as [`Regs::new`] leaves them.
    pub fn new() -> (cpu: Sh2)
        ensures
            cpu@.cycles == 0,
            !cpu@.delay,
            cpu@.delay_pc == POISON,
            forall|n: usize| n < 16 ==> reg(cpu@.regs, n) == POISON,
            cpu@.regs.gbr == POISON,
            cpu@.regs.mach == POISON,
            cpu@.regs.macl == POISON,
            cpu@.regs.pr == POISON,
            cpu@.regs.pc == POISON,
            cpu@.regs.vbr == 0,
            cpu@.regs.sr_i == 0,
            cpu.wf(),
    {
        Sh2 { cycles: 0, regs: Regs::new(), delay: false, delay_pc: POISON }
    }

    /// A copy of the register file.
    pub fn get_regs(&self) -> (r: Regs)
        ensures
            r == self@.regs,
    {
        self.regs
    }

    /// The program counter.
    pub fn get_pc(&self) -> (pc: u32)
        ensures
            pc == self@.regs.pc,
    {
        self.regs.pc
    }

    /// The cycles counted so far.
    pub fn get_cycles(&self) -> (c: u64)
        ensures
            c == self@.cycles,
    {
        self.cycles
    }

    /// The target of the pending delayed branch, if the latch is armed.
    pub fn get_delay(&self) -> (d: Option<u32>)
        ensures
            d == (if self@.delay {
                Some(self@.delay_pc)
            } else {
                None
            }),
    {
        if self.delay {
            Some(self.delay_pc)
        } else {
            None
        }
    }

    /// Hard reset: the register file is reset and the latch is disarmed.
    /// The cycle counter keeps its value.
    pub fn reset(&mut self, pc: u32, sp: u32)
        ensures
            final(self)@ == (State {
                regs: reset_spec(old(self)@.regs, pc, sp),
                delay: false,
                ..old(self)@
            }),
            final(self).wf(),
    {
        self.regs.reset(pc, sp);
        self.delay = false;
    }

    /// Forces the vector base register.
    pub fn set_vbr(&mut self, vbr: u32)
        ensures
            final(self)@ == with_regs(old(self)@, Regs { vbr, ..old(self)@.regs }),
    {
        self.regs.vbr = vbr;
    }

    /// Executes one instruction: fetches the opcode at the program counter,
    /// commits the program counter, runs the instruction and counts its
    /// cycles.
    ///
    /// An opcode that does not decode is returned as a fault; the program
    /// counter is committed by then, and nothing else has changed. The bus
    /// must serve the fetch and the access that the instruction makes.
    pub fn step<B: Bus>(&mut self, bus: &mut B) -> (r: Result<(), Fault>)
        requires
            old(self)@.cycles <= u64::MAX - 3,
            old(bus).maps_word(old(self)@.regs.pc),
            decode_spec(old(bus).word_at(old(self)@.regs.pc)) matches Ok(i) ==> serves(
                old(bus),
                access(advance(old(self)@), i),
            ),
        ensures
            match decode_spec(old(bus).word_at(old(self)@.regs.pc)) {
                Ok(i) => {
                    let a = access(advance(old(self)@), i);
                    &&& r == Ok::<(), Fault>(())
                    &&& final(self)@ == step_spec(
                        old(self)@,
                        i,
                        word_read(old(bus), a),
                        long_read(old(bus), a),
                    )
                    &&& carried(old(bus), final(bus), a)
                },
                Err(fault) => {
                    &&& r == Err::<(), Fault>(fault)
                    &&& final(self)@ == advance(old(self)@)
                    &&& *final(bus) == *old(bus)
                },
            },
            old(self).wf() ==> final(self).wf(),
    {
        let op: u16 = bus.read_word(self.regs.pc);
        if self.delay {
            self.regs.pc = self.delay_pc;
            self.delay = false;
        } else {
            self.regs.pc = self.regs.pc.wrapping_add(2);
        }
        match decode(op) {
            Ok(i) => {
                self.do_op(bus, i);
                self.cycles += 1;
                Ok(())
            },
            Err(fault) => Err(fault),
        }
    }

    /// Runs a decoded instruction on the state after the program counter was
    /// committed. The cycle that every step costs is not counted here.
    fn do_op<B: Bus>(&mut self, bus: &mut B, i: Instr)
        requires
            instr_wf(i),
            old(self)@.cycles <= u64::MAX - 2,
            serves(old(bus), access(old(self)@, i)),
        ensures
            final(self)@ == effect(
                old(self)@,
                i,
                word_read(old(bus), access(old(self)@, i)),
                long_read(old(bus), access(old(self)@, i)),
            ),
            carried(old(bus), final(bus), access(old(self)@, i)),
    {
        match i {
            Instr::MovLS { rm, rn } => self.mov_ls(bus, rm, rn),
            Instr::MovLM { rm, rn } => self.mov_lm(bus, rm, rn),
            Instr::Tst { rm, rn } => self.tst(rm, rn),
            Instr::And { rm, rn } => self.and(rm, rn),
            Instr::Xor { rm, rn } => self.xor(rm, rn),
            Instr::Or { rm, rn } => self.or(rm, rn),
            Instr::CmpHs { rm, rn } => self.cmp_hs(rm, rn),
            Instr::StsMPr { rn } => self.sts_mpr(bus, rn),
            Instr::MovWL { rm, rn } => self.mov_wl(bus, rm, rn),
            Instr::MovLL { rm, rn } => self.mov_ll(bus, rm, rn),
            Instr::AddI { imm, rn } => self.add_i(imm, rn),
            Instr::Bf { disp } => self.bf(disp),
            Instr::MovWI { disp, rn } => self.mov_wi(bus, disp, rn),
            Instr::Bra { disp } => self.bra(disp),
            Instr::MovLI { disp, rn } => self.mov_li(bus, disp, rn),
            Instr::MovI { imm, rn } => self.mov_i(imm, rn),
        }
    }

    /// MOV.L Rm,@Rn: stores `R[m]` as a long at `R[n]`.
    fn mov_ls<B: Bus>(&mut self, bus: &mut B, rm: usize, rn: usize)
        requires
            rm < 16,
            rn < 16,
            serves(old(bus), access(old(self)@, (Instr::MovLS { rm, rn }))),
        ensures
            final(self)@ == effect(old(self)@, (Instr::MovLS { rm, rn }), 0, 0),
            carried(old(bus), final(bus), access(old(self)@, (Instr::MovLS { rm, rn }))),
    {
        bus.write_long(self.regs.gpr[rn], self.regs.gpr[rm]);
    }

    /// MOV.L Rm,@-Rn: takes four off `R[n]`, then stores `R[m]` as a long
    /// at `R[n]`.
    fn mov_lm<B: Bus>(&mut self, bus: &mut B, rm: usize, rn: usize)
        requires
            rm < 16,
            rn < 16,
            serves(old(bus), access(old(self)@, (Instr::MovLM { rm, rn }))),
        ensures
            final(self)@ == effect(old(self)@, (Instr::MovLM { rm, rn }), 0, 0),
            carried(old(bus), final(bus), access(old(self)@, (Instr::MovLM { rm, rn }))),
    {
        self.push_down(rn);
        bus.write_long(self.regs.gpr[rn], self.regs.gpr[rm]);
    }

    /// TST Rm,Rn: sets T where `R[n]` and `R[m]` have no bit in common.
    fn tst(&mut self, rm: usize, rn: usize)
        requires
            rm < 16,
            rn < 16,
        ensures
            final(self)@ == effect(old(self)@, (Instr::Tst { rm, rn }), 0, 0),
    {
        let res: u32 = self.regs.gpr[rn] & self.regs.gpr[rm];
        self.regs.sr_t = res == 0;
    }

    /// AND Rm,Rn.
    fn and(&mut self, rm: usize, rn: usize)
        requires
            rm < 16,
            rn < 16,
        ensures
            final(self)@ == effect(old(self)@, (Instr::And { rm, rn }), 0, 0),
    {
        let v: u32 = self.regs.gpr[rn] & self.regs.gpr[rm];
        self.put(rn, v);
    }

    /// XOR Rm,Rn.
    fn xor(&mut self, rm: usize, rn: usize)
        requires
            rm < 16,
            rn < 16,
        ensures
            final(self)@ == effect(old(self)@, (Instr::Xor { rm, rn }), 0, 0),
    {
        let v: u32 = self.regs.gpr[rn] ^ self.regs.gpr[rm];
        self.put(rn, v);
    }

    /// OR Rm,Rn.
    fn or(&mut self, rm: usize, rn: usize)
        requires
            rm < 16,
            rn < 16,
        ensures
            final(self)@ == effect(old(self)@, (Instr::Or { rm, rn }), 0, 0),
    {
        let v: u32 = self.regs.gpr[rn] | self.regs.gpr[rm];
        self.put(rn, v);
    }

    /// CMP/HS Rm,Rn: sets T where `R[n]` is at least `R[m]`, both unsigned.
    fn cmp_hs(&mut self, rm: usize, rn: usize)
        requires
            rm < 16,
            rn < 16,
        ensures
            final(self)@ == effect(old(self)@, (Instr::CmpHs { rm, rn }), 0, 0),
            final(self)@.regs.sr_t == (reg(old(self)@.regs, rn) >= reg(old(self)@.regs, rm)),
    {
        self.regs.sr_t = self.regs.gpr[rn] >= self.regs.gpr[rm];
    }

    /// STS.L PR,@-Rn: takes four off `R[n]`, then stores PR as a long at
    /// `R[n]`.
    fn sts_mpr<B: Bus>(&mut self, bus: &mut B, rn: usize)
        requires
            rn < 16,
            serves(old(bus), access(old(self)@, (Instr::StsMPr { rn }))),
        ensures
            final(self)@ == effect(old(self)@, (Instr::StsMPr { rn }), 0, 0),
            carried(old(bus), final(bus), access(old(self)@, (Instr::StsMPr { rn }))),
    {
        self.push_down(rn);
        bus.write_long(self.regs.gpr[rn], self.regs.pr);
    }

    /// MOV.W @Rm,Rn: loads the word at `R[m]`, sign-extended.
    fn mov_wl<B: Bus>(&mut self, bus: &mut B, rm: usize, rn: usize)
        requires
            rm < 16,
            rn < 16,
            serves(old(bus), access(old(self)@, (Instr::MovWL { rm, rn }))),
        ensures
            final(self)@ == effect(
                old(self)@,
                (Instr::MovWL { rm, rn }),
                old(bus).word_at(reg(old(self)@.regs, rm)),
                0,
            ),
            *final(bus) == *old(bus),
    {
        let val: u32 = sign_extend_word(bus.read_word(self.regs.gpr[rm]));
        self.put(rn, val);
    }

    /// MOV.L @Rm,Rn: loads the long at `R[m]`.
    fn mov_ll<B: Bus>(&mut self, bus: &mut B, rm: usize, rn: usize)
        requires
            rm < 16,
            rn < 16,
            serves(old(bus), access(old(self)@, (Instr::MovLL { rm, rn }))),
        ensures
            final(self)@ == effect(
                old(self)@,
                (Instr::MovLL { rm, rn }),
                0,
                old(bus).long_at(reg(old(self)@.regs, rm)),
            ),
            *final(bus) == *old(bus),
    {
        let val: u32 = bus.read_long(self.regs.gpr[rm]);
        self.put(rn, val);
    }

    /// ADD #imm,Rn: adds the sign-extended immediate, wrapping.
    fn add_i(&mut self, imm: u32, rn: usize)
        requires
            rn < 16,
        ensures
            final(self)@ == effect(old(self)@, (Instr::AddI { imm, rn }), 0, 0),
    {
        let v: u32 = self.regs.gpr[rn].wrapping_add(imm);
        self.put(rn, v);
    }

    /// BF disp: with T clear, branches at once and costs two cycles more;
    /// with T set, does nothing.
    fn bf(&mut self, disp: i32)
        requires
            -0x80 <= disp < 0x80,
            old(self)@.cycles <= u64::MAX - 2,
        ensures
            final(self)@ == effect(old(self)@, (Instr::Bf { disp }), 0, 0),
    {
        if !self.regs.sr_t {
            self.regs.pc = pc_relative_word(self.regs.pc, disp);
            self.cycles += 2;
        }
    }

    /// MOV.W @(disp,PC),Rn: loads the word at `disp * 2 + PC + 2`,
    /// sign-extended.
    fn mov_wi<B: Bus>(&mut self, bus: &mut B, disp: u32, rn: usize)
        requires
            rn < 16,
            disp < 0x100,
            serves(old(bus), access(old(self)@, (Instr::MovWI { disp, rn }))),
        ensures
            final(self)@ == effect(
                old(self)@,
                (Instr::MovWI { disp, rn }),
                old(bus).word_at(word_target(old(self)@.regs.pc, disp as int)),
                0,
            ),
            *final(bus) == *old(bus),
    {
        let src: u32 = pc_relative_word(self.regs.pc, disp as i32);
        let val: u32 = sign_extend_word(bus.read_word(src));
        self.put(rn, val);
    }

    /// BRA disp: arms the latch with the branch target and costs one cycle
    /// more. The program counter is left alone: the next step runs the
    /// delay slot.
    fn bra(&mut self, disp: i32)
        requires
            -0x800 <= disp < 0x800,
            old(self)@.cycles <= u64::MAX - 1,
        ensures
            final(self)@ == effect(old(self)@, (Instr::Bra { disp }), 0, 0),
    {
        self.delay = true;
        self.delay_pc = pc_relative_word(self.regs.pc, disp);
        self.cycles += 1;
    }

    /// MOV.L @(disp,PC),Rn: loads the long at `disp * 4` past `PC + 2` with
    /// its low two bits cleared.
    fn mov_li<B: Bus>(&mut self, bus: &mut B, disp: u32, rn: usize)
        requires
            rn < 16,
            disp < 0x100,
            serves(old(bus), access(old(self)@, (Instr::MovLI { disp, rn }))),
        ensures
            final(self)@ == effect(
                old(self)@,
                (Instr::MovLI { disp, rn }),
                0,
                old(bus).long_at(long_target(old(self)@.regs.pc, disp as int)),
            ),
            *final(bus) == *old(bus),
    {
        let src: u32 = pc_relative_long(self.regs.pc, disp);
        let val: u32 = bus.read_long(src);
        self.put(rn, val);
    }

    /// MOV #imm,Rn: loads the sign-extended immediate.
    fn mov_i(&mut self, imm: u32, rn: usize)
        requires
            rn < 16,
        ensures
            final(self)@ == effect(old(self)@, (Instr::MovI { imm, rn }), 0, 0),
    {
        self.put(rn, imm);
    }

    /// Sets general purpose register `rn`.
    fn put(&mut self, rn: usize, v: u32)
        requires
            rn < 16,
        ensures
            final(self)@ == with_regs(old(self)@, set_reg(old(self)@.regs, rn, v)),
    {
        self.regs.gpr[rn] = v;
        assert(self.regs.gpr =~= spec_array_update(old(self).regs.gpr, rn as int, v));
    }

    /// Takes four off general purpose register `rn`, wrapping.
    fn push_down(&mut self, rn: usize)
        requires
            rn < 16,
        ensures
            final(self)@ == with_regs(old(self)@, predecrement(old(self)@.regs, rn)),
    {
        let v: u32 = self.regs.gpr[rn].wrapping_sub(4);
        self.put(rn, v);
    }
}

/// The address `pc + 2 + 2 * disp` in 32-bit arithmetic.
pub fn pc_relative_word(pc: u32, disp: i32) -> (addr: u32)
    requires
        -0x4000_0000 <= disp < 0x4000_0000,
    ensures
        addr == word_target(pc, disp as int),
{
    pc.wrapping_add(2).wrapping_add_signed(disp * 2)
}

/// The address `4 * disp` past `pc + 2` with its low two bits cleared, in
/// 32-bit arithmetic.
pub fn pc_relative_long(pc: u32, disp: u32) -> (addr: u32)
    requires
        disp < 0x4000_0000,
    ensures
        addr == long_target(pc, disp as int),
{
    let next: u32 = pc.wrapping_add(2);
    let base: u32 = next & 0xffff_fffc;
    assert(base == next - next % 4) by (bit_vector)
        requires
            base == next & 0xffff_fffc,
    ;
    (disp * 4).wrapping_add(base)
}

/// The general purpose register that an instruction writes, if any.
pub open spec fn written_reg(i: Instr) -> Option<usize> {
    match i {
        Instr::MovLM { rm, rn } => Some(rn),
        Instr::And { rm, rn } => Some(rn),
        Instr::Xor { rm, rn } => Some(rn),
        Instr::Or { rm, rn } => Some(rn),
        Instr::StsMPr { rn } => Some(rn),
        Instr::MovWL { rm, rn } => Some(rn),
        Instr::MovLL { rm, rn } => Some(rn),
        Instr::AddI { imm, rn } => Some(rn),
        Instr::MovWI { disp, rn } => Some(rn),
        Instr::MovLI { disp, rn } => Some(rn),
        Instr::MovI { imm, rn } => Some(rn),
        _ => None,
    }
}

/// A step costs what the instruction set's table gives for it: three
/// cycles for a BF that is taken, two for BRA, one for everything else.
pub proof fn lemma_step_cost(s: State, i: Instr, word: u16, long: u32)
    requires
        s.cycles <= u64::MAX - 3,
    ensures
        step_spec(s, i, word, long).cycles == s.cycles + cost(s, i),
        cost(s, i) >= 1,
{
}

/// A step outside a delay slot, on anything but a branch, leaves the
/// program counter two past the instruction that it ran. So does a BF that
/// is not taken.
pub proof fn lemma_step_moves_on(s: State, i: Instr, word: u16, long: u32)
    requires
        !s.delay,
        !(i is Bra),
        i is Bf ==> s.regs.sr_t,
    ensures
        step_spec(s, i, word, long).regs.pc == wrap32(s.regs.pc + 2),
        !step_spec(s, i, word, long).delay,
{
}

/// An instruction changes what its description names and nothing else.
///
/// Only the register it writes changes among the general purpose
/// registers. GBR, VBR, the S, Q and M bits, the interrupt mask, MACH, MACL
/// and PR never change. T changes only under TST and CMP/HS, the program
/// counter only under BF, the latch only under BRA, and the cycle counter
/// only under BF and BRA.
pub proof fn lemma_effect_frame(s: State, i: Instr, word: u16, long: u32)
    requires
        instr_wf(i),
    ensures
        forall|n: usize|
            n < 16 && written_reg(i) != Some(n) ==> reg(effect(s, i, word, long).regs, n) == reg(
                s.regs,
                n,
            ),
        effect(s, i, word, long).regs.gbr == s.regs.gbr,
        effect(s, i, word, long).regs.vbr == s.regs.vbr,
        effect(s, i, word, long).regs.sr_s == s.regs.sr_s,
        effect(s, i, word, long).regs.sr_i == s.regs.sr_i,
        effect(s, i, word, long).regs.sr_q == s.regs.sr_q,
        effect(s, i, word, long).regs.sr_m == s.regs.sr_m,
        effect(s, i, word, long).regs.mach == s.regs.mach,
        effect(s, i, word, long).regs.macl == s.regs.macl,
        effect(s, i, word, long).regs.pr == s.regs.pr,
        !(i is Tst || i is CmpHs) ==> effect(s, i, word, long).regs.sr_t == s.regs.sr_t,
        !(i is Bf) ==> effect(s, i, word, long).regs.pc == s.regs.pc,
        !(i is Bra) ==> effect(s, i, word, long).delay == s.delay && effect(
            s,
            i,
            word,
            long,
        ).delay_pc == s.delay_pc,
        !(i is Bf || i is Bra) ==> effect(s, i, word, long).cycles == s.cycles,
        written_reg(i) is None ==> effect(s, i, word, long).regs.gpr == s.regs.gpr,
{
}

/// A write to general purpose register `n` reads back, and the other
/// registers keep their values.
pub proof fn lemma_set_reg(r: Regs, n: usize, v: u32)
    requires
        n < 16,
    ensures
        reg(set_reg(r, n, v), n) == v,
        forall|k: usize| k < 16 && k != n ==> reg(set_reg(r, n, v), k) == reg(r, k),
{
}

/// The delay slot: after a BRA that was fetched at `p` outside a delay
/// slot, the next step fetches at `p + 2` with the latch armed, and the step
/// after that begins at the target of the BRA, `p + 4 + 2 * disp`.
///
/// The instruction in the slot may be anything but a BF that is taken, which
/// moves the program counter on from the target.
pub proof fn lemma_delay_slot(s: State, disp: i32, slot: Instr, word: u16, long: u32)
    requires
        !s.delay,
        -0x800 <= disp < 0x800,
        slot is Bf ==> s.regs.sr_t,
    ensures
        ({
            let branched = step_spec(s, (Instr::Bra { disp }), 0, 0);
            let landed = step_spec(branched, slot, word, long);
            &&& branched.regs.pc == wrap32(s.regs.pc + 2)
            &&& branched.delay
            &&& branched.delay_pc == wrap32(s.regs.pc + 4 + 2 * disp)
            &&& landed.regs.pc == wrap32(s.regs.pc + 4 + 2 * disp)
            &&& !(slot is Bra) ==> !landed.delay
        }),
{
}

/// PC-relative loads count from four past the instruction: fetched at `p`
/// outside a delay slot, MOV.W reads at `p + 4 + 2 * disp`, and MOV.L reads
/// at `p + 4` with its low two bits cleared, plus `4 * disp`.
pub proof fn lemma_pc_relative_base(s: State, disp: u32, rn: usize)
    requires
        !s.delay,
        disp < 0x100,
    ensures
        access(advance(s), (Instr::MovWI { disp, rn })) == Access::ReadWord(
            wrap32(s.regs.pc + 4 + 2 * disp),
        ),
        access(advance(s), (Instr::MovLI { disp, rn })) == Access::ReadLong(
            wrap32(wrap32(s.regs.pc + 4) - wrap32(s.regs.pc + 4) % 4 + 4 * disp),
        ),
{
}

/// CMP/HS compares the two registers as unsigned numbers: T is set exactly
/// when `R[n]`, read as a natural number, is at least `R[m]`; nothing else
/// changes.
pub proof fn lemma_higher_or_same(s: State, rm: usize, rn: usize)
    ensures
        effect(s, (Instr::CmpHs { rm, rn }), 0, 0) == with_regs(
            s,
            Regs { sr_t: reg(s.regs, rn) as nat >= reg(s.regs, rm) as nat, ..s.regs },
        ),
{
}

/// One general purpose register in a dump: its number in two digits and its
/// value in eight hexadecimal digits.
pub open spec fn cell_text(r: Regs, n: usize) -> Seq<char> {
    "  r"@ + dec(n as nat, 2) + ": "@ + hex(reg(r, n) as nat, 8) + " "@
}

/// The general purpose registers from `from` up to `to`, one after another.
pub open spec fn cells_text(r: Regs, from: usize, to: usize) -> Seq<char>
    decreases to,
{
    if to <= from {
        Seq::empty()
    } else {
        cells_text(r, from, (to - 1) as usize) + cell_text(r, (to - 1) as usize)
    }
}

/// The row of the control and system registers in a dump.
pub open spec fn system_text(r: Regs) -> Seq<char> {
    "\n   pc: "@ + hex(r.pc as nat, 8) + "   vbr: "@ + hex(r.vbr as nat, 8) + "   gbr: "@ + hex(
        r.gbr as nat,
        8,
    ) + "    pr: "@ + hex(r.pr as nat, 8) + "  mach: "@ + hex(r.mach as nat, 8) + "  macl: "@
        + hex(r.macl as nat, 8) + " "@
}

/// The row of the status register in a dump: the four bits, each in a field
/// of ten characters, and the interrupt mask in binary.
pub open spec fn status_text(r: Regs) -> Seq<char> {
    "\n sr_t: "@ + padded(truth(r.sr_t), 10) + "  sr_s: "@ + padded(truth(r.sr_s), 10)
        + "  sr_q: "@ + padded(truth(r.sr_q), 10) + "  sr_m: "@ + padded(truth(r.sr_m), 10)
        + "  sr_i: "@ + bin(r.sr_i as nat, 4)
}

/// The register dump: two rows of eight general purpose registers, the row
/// of the control and system registers, and the row of the status register.
pub open spec fn regs_text(r: Regs) -> Seq<char> {
    cells_text(r, 0, 8) + "\n"@ + cells_text(r, 8, 16) + "\n"@ + system_text(r) + status_text(r)
}

/// The dump of the whole processor: the registers, then the cycle counter
/// and the latch.
pub open spec fn state_text(s: State) -> Seq<char> {
    regs_text(s.regs) + "\n  cyc: "@ + hex(s.cycles as nat, 8) + "   del: "@ + padded(
        truth(s.delay),
        8,
    ) + "  del_pc: "@ + hex(s.delay_pc as nat, 8)
}

impl Regs {
    /// General purpose register `n` as it stands in a dump.
    fn cell(&self, n: usize) -> (s: String)
        requires
            n < 16,
        ensures
            s@ == cell_text(*self, n),
    {
        let mut s: String = String::from_str("  r");
        push_dec(&mut s, n as u64, 2);
        s.append(": ");
        push_hex(&mut s, self.gpr[n] as u64, 8);
        s.append(" ");
        s
    }

    /// The general purpose registers from `from` up to `to`, one after
    /// another.
    fn cells(&self, from: usize, to: usize) -> (s: String)
        requires
            from <= to <= 16,
        ensures
            s@ == cells_text(*self, from, to),
    {
        let mut s: String = String::new();
        let mut n: usize = from;
        while n < to
            invariant
                from <= n <= to <= 16,
                s@ == cells_text(*self, from, n),
            decreases to - n,
        {
            let cell: String = self.cell(n);
            s.append(cell.as_str());
            n += 1;
        }
        s
    }

    /// The row of the control and system registers.
    fn system_row(&self) -> (s: String)
        ensures
            s@ == system_text(*self),
    {
        let mut s: String = String::from_str("\n   pc: ");
        push_hex(&mut s, self.pc as u64, 8);
        s.append("   vbr: ");
        push_hex(&mut s, self.vbr as u64, 8);
        s.append("   gbr: ");
        push_hex(&mut s, self.gbr as u64, 8);
        s.append("    pr: ");
        push_hex(&mut s, self.pr as u64, 8);
        s.append("  mach: ");
        push_hex(&mut s, self.mach as u64, 8);
        s.append("  macl: ");
        push_hex(&mut s, self.macl as u64, 8);
        s.append(" ");
        s
    }

    /// The row of the status register.
    fn status_row(&self) -> (s: String)
        ensures
            s@ == status_text(*self),
    {
        let mut s: String = String::from_str("\n sr_t: ");
        push_truth(&mut s, self.sr_t, 10);
        s.append("  sr_s: ");
        push_truth(&mut s, self.sr_s, 10);
        s.append("  sr_q: ");
        push_truth(&mut s, self.sr_q, 10);
        s.append("  sr_m: ");
        push_truth(&mut s, self.sr_m, 10);
        s.append("  sr_i: ");
        push_bin(&mut s, self.sr_i as u64, 4);
        s
    }

    /// The register dump as text.
    pub fn dump(&self) -> (s: String)
        ensures
            s@ == regs_text(*self),
    {
        let mut s: String = self.cells(0, 8);
        s.append("\n");
        let second: String = self.cells(8, 16);
        s.append(second.as_str());
        s.append("\n");
        let system: String = self.system_row();
        s.append(system.as_str());
        let status: String = self.status_row();
        s.append(status.as_str());
        s
    }
}

/// The report of an opcode whose most significant nibble names no family.
pub open spec fn family_unknown_text(s: State, op: u16) -> Seq<char> {
    "\n\ndid not recognize most significant nibble "@ + bin(family(op) as nat, 4) + " of op "@
        + hex(op as nat, 4) + "\n\nCPU state:\n"@ + state_text(s) + "\n\n"@
}

/// The report of an opcode whose least significant nibble is not known in
/// its family.
pub open spec fn nibble_unknown_text(s: State, op: u16) -> Seq<char> {
    "\n\ndid not recognize least significant nibble "@ + bin(low_nibble(op) as nat, 4)
        + " of op "@ + hex(op as nat, 4) + " \n\nCPU state:\n"@ + state_text(s) + "\n\n"@
}

/// The report of an opcode whose least significant byte is not known in its
/// family.
pub open spec fn byte_unknown_text(s: State, op: u16) -> Seq<char> {
    "\n\ndid not recognize least significant byte "@ + bin(low_byte(op) as nat, 8) + " of op "@
        + hex(op as nat, 4) + " \n\nCPU state:\n"@ + state_text(s) + "\n\n"@
}

/// The report of an opcode whose second nibble is not known in its family.
pub open spec fn second_unknown_text(op: u16) -> Seq<char> {
    "2nd nibble unknown: "@ + bin(field_n(op) as nat, 4) + " of op "@ + hex(op as nat, 4)
}

/// The report of a fault: which level of the decode tree failed, the bits it
/// failed on, the opcode, and for the three levels of the tree proper the
/// dump of the processor. An instruction without implementation is reported
/// by a text of its own.
pub open spec fn fault_text(s: State, fault: Fault) -> Seq<char> {
    match fault.kind {
        FaultKind::MostSignificantNibble => family_unknown_text(s, fault.op),
        FaultKind::LeastSignificantNibble => nibble_unknown_text(s, fault.op),
        FaultKind::LeastSignificantByte => byte_unknown_text(s, fault.op),
        FaultKind::SecondNibble => second_unknown_text(fault.op),
        FaultKind::Unimplemented => unimplemented_text(),
    }
}

/// The report of an instruction that is recognised and has no
/// implementation.
pub open spec fn unimplemented_text() -> Seq<char> {
    "please implement MAC.W @Rm+,@Rn+"@
}

impl Sh2 {
    /// The dump of the processor as text: the registers, the cycle counter
    /// and the latch.
    pub fn dump(&self) -> (s: String)
        ensures
            s@ == state_text(self@),
    {
        let mut s: String = self.regs.dump();
        s.append("\n  cyc: ");
        push_hex(&mut s, self.cycles, 8);
        s.append("   del: ");
        push_truth(&mut s, self.delay, 8);
        s.append("  del_pc: ");
        push_hex(&mut s, self.delay_pc as u64, 8);
        s
    }

    /// The report of an opcode whose most significant nibble names no
    /// family.
    pub fn op_most_significant_nibble_unknown(&self, op: u16) -> (s: String)
        ensures
            s@ == family_unknown_text(self@, op),
    {
        let mut s: String = String::from_str("\n\ndid not recognize most significant nibble ");
        push_bin(&mut s, msn(op) as u64, 4);
        s.append(" of op ");
        push_hex(&mut s, op as u64, 4);
        s.append("\n\nCPU state:\n");
        let state: String = self.dump();
        s.append(state.as_str());
        s.append("\n\n");
        s
    }

    /// The report of an opcode whose least significant nibble is not known
    /// in its family.
    pub fn op_least_significant_nibble_unknown(&self, op: u16) -> (s: String)
        ensures
            s@ == nibble_unknown_text(self@, op),
    {
        let mut s: String = String::from_str("\n\ndid not recognize least significant nibble ");
        push_bin(&mut s, lsn(op) as u64, 4);
        s.append(" of op ");
        push_hex(&mut s, op as u64, 4);
        s.append(" \n\nCPU state:\n");
        let state: String = self.dump();
        s.append(state.as_str());
        s.append("\n\n");
        s
    }

    /// The report of an opcode whose least significant byte is not known in
    /// its family.
    pub fn op_least_significant_byte_unknown(&self, op: u16) -> (s: String)
        ensures
            s@ == byte_unknown_text(self@, op),
    {
        let mut s: String = String::from_str("\n\ndid not recognize least significant byte ");
        push_bin(&mut s, lsb(op) as u64, 8);
        s.append(" of op ");
        push_hex(&mut s, op as u64, 4);
        s.append(" \n\nCPU state:\n");
        let state: String = self.dump();
        s.append(state.as_str());
        s.append("\n\n");
        s
    }

    /// The report of a fault that [`Sh2::step`] returned, with the dump of
    /// the processor as it is now.
    pub fn fault_message(&self, fault: Fault) -> (s: String)
        ensures
            s@ == fault_text(self@, fault),
    {
        match fault.kind {
            FaultKind::MostSignificantNibble => self.op_most_significant_nibble_unknown(fault.op),
            FaultKind::LeastSignificantNibble => self.op_least_significant_nibble_unknown(
                fault.op,
            ),
            FaultKind::LeastSignificantByte => self.op_least_significant_byte_unknown(fault.op),
            FaultKind::SecondNibble => op_second_nibble_unknown(fault.op),
            FaultKind::Unimplemented => op_unimplemented(),
        }
    }
}

/// The report of an opcode whose second nibble is not known in its family.
pub fn op_second_nibble_unknown(op: u16) -> (s: String)
    ensures
        s@ == second_unknown_text(op),
{
    let mut s: String = String::from_str("2nd nibble unknown: ");
    push_bin(&mut s, reg_n(op) as u64, 4);
    s.append(" of op ");
    push_hex(&mut s, op as u64, 4);
    s
}

/// The report of an instruction that is recognised and has no
/// implementation.
pub fn op_unimplemented() -> (s: String)
    ensures
        s@ == unimplemented_text(),
{
    String::from_str("please implement MAC.W @Rm+,@Rn+")
}

} // verus!
