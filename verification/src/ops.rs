//! The decode tree over 16-bit SuperH opcode words.
//!
//! An opcode is split by its most significant nibble into families; within a
//! family the least significant nibble, the least significant byte or the
//! second nibble selects the instruction. Operand fields are cut out of the
//! word by format. The meaning of every field is stated arithmetically
//! (quotients and remainders by powers of sixteen); the executable code uses
//! shifts and masks and is proved to agree.

use vstd::prelude::*;

verus! {

/// Why an opcode word could not be turned into an instruction.
#[derive(Clone, Copy, Debug, PartialEq, Eq, Structural)]
pub enum FaultKind {
    /// No family is known for the most significant nibble.
    MostSignificantNibble,
    /// The family is known, but not the least significant nibble.
    LeastSignificantNibble,
    /// The family is known, but not the least significant byte.
    LeastSignificantByte,
    /// The family is known, but not the second nibble.
    SecondNibble,
    /// MAC.W @Rm+,@Rn+ is recognised and has no implementation.
    Unimplemented,
}

/// A failed decode: the kind of failure and the offending opcode word.
#[derive(Clone, Copy, Debug, PartialEq, Eq, Structural)]
pub struct Fault {
    pub kind: FaultKind,
    pub op: u16,
}

/// A decoded instruction with its operands.
///
/// Register operands are register numbers below sixteen. Immediates of the
/// `ni` format are already sign-extended to 32 bits; displacements of the `d8`
/// and `d12` formats are signed; displacements of the `nd8` format are
/// unsigned.
#[derive(Clone, Copy, Debug, PartialEq, Eq, Structural)]
#[allow(inconsistent_fields)]
pub enum Instr {
    /// MOV.L Rm,@Rn
    MovLS { rm: usize, rn: usize },
    /// MOV.L Rm,@-Rn
    MovLM { rm: usize, rn: usize },
    /// TST Rm,Rn
    Tst { rm: usize, rn: usize },
    /// AND Rm,Rn
    And { rm: usize, rn: usize },
    /// XOR Rm,Rn
    Xor { rm: usize, rn: usize },
    /// OR Rm,Rn
    Or { rm: usize, rn: usize },
    /// CMP/HS Rm,Rn
    CmpHs { rm: usize, rn: usize },
    /// STS.L PR,@-Rn
    StsMPr { rn: usize },
    /// MOV.W @Rm,Rn
    MovWL { rm: usize, rn: usize },
    /// MOV.L @Rm,Rn
    MovLL { rm: usize, rn: usize },
    /// ADD #imm,Rn
    AddI { imm: u32, rn: usize },
    /// BF disp
    Bf { disp: i32 },
    /// MOV.W @(disp,PC),Rn
    MovWI { disp: u32, rn: usize },
    /// BRA disp
    Bra { disp: i32 },
    /// MOV.L @(disp,PC),Rn
    MovLI { disp: u32, rn: usize },
    /// MOV #imm,Rn
    MovI { imm: u32, rn: usize },
}

/// The residue of `x` modulo 2^32: what 32-bit two's-complement arithmetic
/// keeps of an integer.
pub open spec fn wrap32(x: int) -> u32 {
    (x % 0x1_0000_0000) as u32
}

/// The signed value of the low `bits` bits of a word, given as `v` with
/// `0 <= v < 2 * half`, where `half` is two to the power `bits - 1`.
pub open spec fn signed(v: int, half: int) -> int {
    if v < half {
        v
    } else {
        v - 2 * half
    }
}

/// Bits 15..12 of the opcode.
pub open spec fn family(op: u16) -> int {
    op as int / 0x1000
}

/// Bits 11..8 of the opcode: the register number Rn, or the second nibble.
pub open spec fn field_n(op: u16) -> usize {
    ((op as int / 0x100) % 0x10) as usize
}

/// Bits 7..4 of the opcode: the register number Rm.
pub open spec fn field_m(op: u16) -> usize {
    ((op as int / 0x10) % 0x10) as usize
}

/// Bits 3..0 of the opcode.
pub open spec fn low_nibble(op: u16) -> int {
    op as int % 0x10
}

/// Bits 7..0 of the opcode.
pub open spec fn low_byte(op: u16) -> int {
    op as int % 0x100
}

/// Bits 7..0 of the opcode as an unsigned displacement.
pub open spec fn field_d8(op: u16) -> u32 {
    low_byte(op) as u32
}

/// Bits 7..0 of the opcode, sign-extended to 32 bits.
pub open spec fn field_i8(op: u16) -> u32 {
    wrap32(signed(low_byte(op), 0x80))
}

/// Bits 7..0 of the opcode as a signed displacement.
pub open spec fn field_s8(op: u16) -> i32 {
    signed(low_byte(op), 0x80) as i32
}

/// Bits 11..0 of the opcode as a signed displacement.
pub open spec fn field_s12(op: u16) -> i32 {
    signed(op as int % 0x1000, 0x800) as i32
}

/// The sign extension of a 16-bit word to 32 bits.
pub open spec fn extend16(w: u16) -> u32 {
    wrap32(signed(w as int, 0x8000))
}

/// Whether the operands of an instruction are within their fields.
pub open spec fn instr_wf(i: Instr) -> bool {
    match i {
        Instr::MovLS { rm, rn } => rm < 16 && rn < 16,
        Instr::MovLM { rm, rn } => rm < 16 && rn < 16,
        Instr::Tst { rm, rn } => rm < 16 && rn < 16,
        Instr::And { rm, rn } => rm < 16 && rn < 16,
        Instr::Xor { rm, rn } => rm < 16 && rn < 16,
        Instr::Or { rm, rn } => rm < 16 && rn < 16,
        Instr::CmpHs { rm, rn } => rm < 16 && rn < 16,
        Instr::StsMPr { rn } => rn < 16,
        Instr::MovWL { rm, rn } => rm < 16 && rn < 16,
        Instr::MovLL { rm, rn } => rm < 16 && rn < 16,
        Instr::AddI { imm, rn } => rn < 16 && (imm < 0x80 || imm >= 0xFFFF_FF80),
        Instr::Bf { disp } => -0x80 <= disp < 0x80,
        Instr::MovWI { disp, rn } => rn < 16 && disp < 0x100,
        Instr::Bra { disp } => -0x800 <= disp < 0x800,
        Instr::MovLI { disp, rn } => rn < 16 && disp < 0x100,
        Instr::MovI { imm, rn } => rn < 16 && (imm < 0x80 || imm >= 0xFFFF_FF80),
    }
}

/// The instruction that an opcode word encodes, or the level of the decode
/// tree at which it is not recognised.
pub open spec fn decode_spec(op: u16) -> Result<Instr, Fault> {
    let rn = field_n(op);
    let rm = field_m(op);
    let fam = family(op);
    let lsn = low_nibble(op);
    if fam == 0x2 {
        if lsn == 0x2 {
            Ok(Instr::MovLS { rm, rn })
        } else if lsn == 0x6 {
            Ok(Instr::MovLM { rm, rn })
        } else if lsn == 0x8 {
            Ok(Instr::Tst { rm, rn })
        } else if lsn == 0x9 {
            Ok(Instr::And { rm, rn })
        } else if lsn == 0xA {
            Ok(Instr::Xor { rm, rn })
        } else if lsn == 0xB {
            Ok(Instr::Or { rm, rn })
        } else {
            Err(Fault { kind: FaultKind::LeastSignificantNibble, op })
        }
    } else if fam == 0x3 {
        if lsn == 0x2 {
            Ok(Instr::CmpHs { rm, rn })
        } else {
            Err(Fault { kind: FaultKind::LeastSignificantNibble, op })
        }
    } else if fam == 0x4 {
        if lsn == 0xF {
            Err(Fault { kind: FaultKind::Unimplemented, op })
        } else if low_byte(op) == 0x22 {
            Ok(Instr::StsMPr { rn })
        } else {
            Err(Fault { kind: FaultKind::LeastSignificantByte, op })
        }
    } else if fam == 0x6 {
        if lsn == 0x1 {
            Ok(Instr::MovWL { rm, rn })
        } else if lsn == 0x2 {
            Ok(Instr::MovLL { rm, rn })
        } else {
            Err(Fault { kind: FaultKind::LeastSignificantNibble, op })
        }
    } else if fam == 0x7 {
        Ok(Instr::AddI { imm: field_i8(op), rn })
    } else if fam == 0x8 {
        if rn == 0xB {
            Ok(Instr::Bf { disp: field_s8(op) })
        } else {
            Err(Fault { kind: FaultKind::SecondNibble, op })
        }
    } else if fam == 0x9 {
        Ok(Instr::MovWI { disp: field_d8(op), rn })
    } else if fam == 0xA {
        Ok(Instr::Bra { disp: field_s12(op) })
    } else if fam == 0xD {
        Ok(Instr::MovLI { disp: field_d8(op), rn })
    } else if fam == 0xE {
        Ok(Instr::MovI { imm: field_i8(op), rn })
    } else {
        Err(Fault { kind: FaultKind::MostSignificantNibble, op })
    }
}

/// Format `n`: the register number in bits 11..8.
pub fn reg_n(op: u16) -> (rn: usize)
    ensures
        rn == field_n(op),
        rn < 16,
{
    let bits: u16 = (op >> 8) & 0xf;
    assert(bits == (op / 0x100) % 0x10) by (bit_vector)
        requires
            bits == (op >> 8) & 0xf,
    ;
    bits as usize
}

/// Format `nm`, second operand: the register number in bits 7..4.
pub fn reg_m(op: u16) -> (rm: usize)
    ensures
        rm == field_m(op),
        rm < 16,
{
    let bits: u16 = (op >> 4) & 0xf;
    assert(bits == (op / 0x10) % 0x10) by (bit_vector)
        requires
            bits == (op >> 4) & 0xf,
    ;
    bits as usize
}

/// Format `nd8`: the unsigned displacement in bits 7..0.
pub fn disp_u8(op: u16) -> (d: u32)
    ensures
        d == field_d8(op),
        d < 0x100,
{
    let bits: u16 = op & 0xff;
    assert(bits == op % 0x100) by (bit_vector)
        requires
            bits == op & 0xff,
    ;
    bits as u32
}

/// Format `ni`: the immediate in bits 7..0, sign-extended to 32 bits.
pub fn imm_i8(op: u16) -> (i: u32)
    ensures
        i == field_i8(op),
        i < 0x80 || i >= 0xFFFF_FF80,
{
    let d: u32 = disp_u8(op);
    if d < 0x80 {
        d
    } else {
        d + 0xFFFF_FF00
    }
}

/// Format `d8`: the signed displacement in bits 7..0.
pub fn disp_s8(op: u16) -> (d: i32)
    ensures
        d == field_s8(op),
        -0x80 <= d < 0x80,
{
    let bits: u16 = op & 0xff;
    assert(bits == op % 0x100) by (bit_vector)
        requires
            bits == op & 0xff,
    ;
    if bits < 0x80 {
        bits as i32
    } else {
        bits as i32 - 0x100
    }
}

/// Format `d12`: the signed displacement in bits 11..0.
pub fn disp_s12(op: u16) -> (d: i32)
    ensures
        d == field_s12(op),
        -0x800 <= d < 0x800,
{
    let bits: u16 = op & 0xfff;
    assert(bits == op % 0x1000) by (bit_vector)
        requires
            bits == op & 0xfff,
    ;
    if bits < 0x800 {
        bits as i32
    } else {
        bits as i32 - 0x1000
    }
}

/// The sign extension of a word read from memory to a register's width.
pub fn sign_extend_word(w: u16) -> (r: u32)
    ensures
        r == extend16(w),
{
    if w < 0x8000 {
        w as u32
    } else {
        w as u32 + 0xFFFF_0000
    }
}

/// The most significant nibble of the opcode.
pub fn msn(op: u16) -> (f: u16)
    ensures
        f == family(op),
        f < 16,
{
    let f: u16 = op >> 12;
    assert(f == op / 0x1000) by (bit_vector)
        requires
            f == op >> 12,
    ;
    f
}

/// The least significant nibble of the opcode.
pub fn lsn(op: u16) -> (f: u16)
    ensures
        f == low_nibble(op),
        f < 16,
{
    let f: u16 = op & 0xf;
    assert(f == op % 0x10) by (bit_vector)
        requires
            f == op & 0xf,
    ;
    f
}

/// The least significant byte of the opcode.
pub fn lsb(op: u16) -> (f: u16)
    ensures
        f == low_byte(op),
        f < 256,
{
    let f: u16 = op & 0xff;
    assert(f == op % 0x100) by (bit_vector)
        requires
            f == op & 0xff,
    ;
    f
}

/// Decodes one opcode word.
///
/// Every word either is one of the sixteen implemented instructions, with
/// its operands cut out by format, or fails at a stated level of the tree.
pub fn decode(op: u16) -> (r: Result<Instr, Fault>)
    ensures
        r == decode_spec(op),
        r matches Ok(i) ==> instr_wf(i),
{
    let rn: usize = reg_n(op);
    let rm: usize = reg_m(op);
    let fam: u16 = msn(op);
    let low: u16 = lsn(op);
    if fam == 0x2 {
        if low == 0x2 {
            Ok(Instr::MovLS { rm, rn })
        } else if low == 0x6 {
            Ok(Instr::MovLM { rm, rn })
        } else if low == 0x8 {
            Ok(Instr::Tst { rm, rn })
        } else if low == 0x9 {
            Ok(Instr::And { rm, rn })
        } else if low == 0xA {
            Ok(Instr::Xor { rm, rn })
        } else if low == 0xB {
            Ok(Instr::Or { rm, rn })
        } else {
            Err(Fault { kind: FaultKind::LeastSignificantNibble, op })
        }
    } else if fam == 0x3 {
        if low == 0x2 {
            Ok(Instr::CmpHs { rm, rn })
        } else {
            Err(Fault { kind: FaultKind::LeastSignificantNibble, op })
        }
    } else if fam == 0x4 {
        if low == 0xF {
            Err(Fault { kind: FaultKind::Unimplemented, op })
        } else if lsb(op) == 0x22 {
            Ok(Instr::StsMPr { rn })
        } else {
            Err(Fault { kind: FaultKind::LeastSignificantByte, op })
        }
    } else if fam == 0x6 {
        if low == 0x1 {
            Ok(Instr::MovWL { rm, rn })
        } else if low == 0x2 {
            Ok(Instr::MovLL { rm, rn })
        } else {
            Err(Fault { kind: FaultKind::LeastSignificantNibble, op })
        }
    } else if fam == 0x7 {
        Ok(Instr::AddI { imm: imm_i8(op), rn })
    } else if fam == 0x8 {
        if rn == 0xB {
            Ok(Instr::Bf { disp: disp_s8(op) })
        } else {
            Err(Fault { kind: FaultKind::SecondNibble, op })
        }
    } else if fam == 0x9 {
        Ok(Instr::MovWI { disp: disp_u8(op), rn })
    } else if fam == 0xA {
        Ok(Instr::Bra { disp: disp_s12(op) })
    } else if fam == 0xD {
        Ok(Instr::MovLI { disp: disp_u8(op), rn })
    } else if fam == 0xE {
        Ok(Instr::MovI { imm: imm_i8(op), rn })
    } else {
        Err(Fault { kind: FaultKind::MostSignificantNibble, op })
    }
}

/// The 32-bit two's-complement pattern of a signed number.
pub fn as_unsigned(d: i32) -> (u: u32)
    ensures
        u == wrap32(d as int),
{
    if d >= 0 {
        d as u32
    } else {
        (d + 0x7fff_ffff + 1) as u32 + 0x8000_0000
    }
}

} // verus!
