//! The disassembler: one line of text per opcode word, with the targets of
//! branches named by labels.
//!
//! A line is `MARK LABEL  ADDR   OPWORD    TEXT`: the mark `->` where the
//! address is the processor's program counter, the label of the address if
//! a branch goes there, the address and the opcode in hexadecimal, and the
//! instruction in assembly notation.

use vstd::prelude::*;
use vstd::string::*;
use std::collections::HashMap;
use crate::bus::Bus;
use crate::ops::{Instr, Fault, FaultKind, wrap32, extend16, decode, decode_spec, instr_wf};
use crate::ops::{sign_extend_word, as_unsigned};
use crate::sh2::{Access, State, serves, word_read, long_read, word_target, long_target};
use crate::sh2::{access, advance, step_spec, pc_relative_word, pc_relative_long};
use crate::text::{hex, dec, padded, push_hex, push_dec, push_padded};

verus! {

broadcast use vstd::std_specs::hash::group_hash_axioms;

/// What the disassembler keeps between lines.
pub struct Listing {
    /// The processor's program counter; its line gets the mark.
    pub pc: u32,
    /// The address of the line in work.
    pub caret: u32,
    /// The label numbers of the branch targets met so far.
    pub labels: Map<u32, usize>,
    /// Whether lines are written out, or only labels collected.
    pub print: bool,
}

/// The name of the label with number `n`.
pub open spec fn label_text(n: usize) -> Seq<char> {
    "l-"@ + dec(n as nat, 1)
}

/// The labels with `addr` among them: an address met for the first time
/// gets the next number, and one met before keeps its own.
pub open spec fn with_label(labels: Map<u32, usize>, addr: u32) -> Map<u32, usize> {
    if labels.contains_key(addr) {
        labels
    } else {
        labels.insert(addr, labels.len() as usize)
    }
}

/// Whether the labels are numbered in order: `n` labels have the numbers
/// below `n`, each of them once.
pub open spec fn numbered(labels: Map<u32, usize>) -> bool {
    &&& labels.dom().finite()
    &&& forall|at: u32| labels.contains_key(at) ==> labels[at] < labels.len()
    &&& forall|a: u32, b: u32|
        labels.contains_key(a) && labels.contains_key(b) && a != b ==> labels[a] != labels[b]
}

/// A new label keeps the labels numbered in order.
pub proof fn lemma_with_label_numbered(labels: Map<u32, usize>, addr: u32)
    requires
        numbered(labels),
        labels.len() <= usize::MAX,
    ensures
        numbered(with_label(labels, addr)),
        with_label(labels, addr).len() == labels.len() + (if labels.contains_key(addr) {
            0nat
        } else {
            1nat
        }),
{
    if !labels.contains_key(addr) {
        let more = labels.insert(addr, labels.len() as usize);
        assert(more.dom() =~= labels.dom().insert(addr));
        assert(more.len() == labels.len() + 1);
    }
}

/// Where a branch at `caret` with displacement `disp` goes, and where a
/// PC-relative word load at `caret` reads: `caret + 4 + 2 * disp`.
pub open spec fn word_source(caret: u32, disp: int) -> u32 {
    word_target(wrap32(caret + 2), disp)
}

/// Where a PC-relative long load at `caret` reads: `caret + 4` with its low
/// two bits cleared, plus `4 * disp`.
pub open spec fn long_source(caret: u32, disp: int) -> u32 {
    long_target(wrap32(caret + 2), disp)
}

/// The address that the instruction at `caret` branches to, if it is a
/// branch.
pub open spec fn branch_target(caret: u32, i: Instr) -> Option<u32> {
    match i {
        Instr::Bf { disp } => Some(word_source(caret, disp as int)),
        Instr::Bra { disp } => Some(word_source(caret, disp as int)),
        _ => None,
    }
}

/// The memory that the line of the instruction at `caret` shows: the source
/// of a PC-relative load.
pub open spec fn peek(caret: u32, i: Instr) -> Access {
    match i {
        Instr::MovWI { disp, rn } => Access::ReadWord(word_source(caret, disp as int)),
        Instr::MovLI { disp, rn } => Access::ReadLong(long_source(caret, disp as int)),
        _ => Access::Idle,
    }
}

/// A line shows what the processor does with the instruction when it
/// fetches it outside a delay slot: the source of a PC-relative load is the
/// address that the processor reads, the target of a BRA is the address that
/// it latches, and the target of a BF is where it goes when it branches.
pub proof fn lemma_line_agrees_with_step(s: State, i: Instr, word: u16, long: u32)
    requires
        !s.delay,
    ensures
        i is MovWI || i is MovLI ==> peek(s.regs.pc, i) == access(advance(s), i),
        i is Bra ==> branch_target(s.regs.pc, i) == Some(step_spec(s, i, word, long).delay_pc),
        i is Bf && !s.regs.sr_t ==> branch_target(s.regs.pc, i) == Some(
            step_spec(s, i, word, long).regs.pc,
        ),
{
}

/// `OP rm, rn`
pub open spec fn mn_text(name: Seq<char>, rm: usize, rn: usize) -> Seq<char> {
    name + " r"@ + dec(rm as nat, 1) + ", r"@ + dec(rn as nat, 1)
}

/// `OP @rm, rn`
pub open spec fn at_mn_text(name: Seq<char>, rm: usize, rn: usize) -> Seq<char> {
    name + " @r"@ + dec(rm as nat, 1) + ", r"@ + dec(rn as nat, 1)
}

/// `OP rm, @rn`
pub open spec fn m_at_n_text(name: Seq<char>, rm: usize, rn: usize) -> Seq<char> {
    name + " r"@ + dec(rm as nat, 1) + ", @r"@ + dec(rn as nat, 1)
}

/// `OP rm, @-rn`
pub open spec fn mn_post_dec_text(name: Seq<char>, rm: usize, rn: usize) -> Seq<char> {
    name + " r"@ + dec(rm as nat, 1) + ", @-r"@ + dec(rn as nat, 1)
}

/// `OP imm, rn`
pub open spec fn imm_n_text(name: Seq<char>, imm: u32, rn: usize) -> Seq<char> {
    name + " "@ + hex(imm as nat, 1) + ", r"@ + dec(rn as nat, 1)
}

/// `OP X, @-rn`
pub open spec fn n_post_dec_text(name: Seq<char>, src: Seq<char>, rn: usize) -> Seq<char> {
    name + " "@ + src + ", @-r"@ + dec(rn as nat, 1)
}

/// `OP label   (addr: ADDR, disp: DISP)`
pub open spec fn branch_text(name: Seq<char>, label: usize, addr: u32, disp: i32) -> Seq<char> {
    name + " "@ + label_text(label) + "   (addr: "@ + hex(addr as nat, 8) + ", disp: "@ + hex(
        wrap32(disp as int) as nat,
        1,
    ) + ")"@
}

/// `OP @(disp, PC), rn   (addr: ADDR, val: VAL)`
pub open spec fn disp_n_text(
    name: Seq<char>,
    disp: u32,
    rn: usize,
    addr: u32,
    val: u32,
    width: nat,
) -> Seq<char> {
    name + " @("@ + hex(disp as nat, 1) + ", PC), r"@ + dec(rn as nat, 1) + "   (addr: "@ + hex(
        addr as nat,
        8,
    ) + ", val: "@ + hex(val as nat, width) + ")"@
}

/// The text of a word that is no instruction.
pub open spec fn unknown_text(op: u16) -> Seq<char> {
    "unknown instruction: "@ + hex(op as nat, 4)
}

/// The instruction at `caret` in assembly notation. `labels` are the labels
/// with the instruction's own target among them; `word` and `long` are what
/// the memory holds where a PC-relative load reads.
pub open spec fn instr_text(
    labels: Map<u32, usize>,
    caret: u32,
    i: Instr,
    word: u16,
    long: u32,
) -> Seq<char> {
    match i {
        Instr::MovLS { rm, rn } => m_at_n_text("mov.l"@, rm, rn),
        Instr::MovLM { rm, rn } => mn_post_dec_text("mov.l"@, rm, rn),
        Instr::Tst { rm, rn } => mn_text("tst"@, rm, rn),
        Instr::And { rm, rn } => mn_text("and"@, rm, rn),
        Instr::Xor { rm, rn } => mn_text("xor"@, rm, rn),
        Instr::Or { rm, rn } => mn_text("or"@, rm, rn),
        Instr::CmpHs { rm, rn } => mn_text("cmp/hs"@, rm, rn),
        Instr::StsMPr { rn } => n_post_dec_text("sts.l"@, "pr"@, rn),
        Instr::MovWL { rm, rn } => at_mn_text("mov.w"@, rm, rn),
        Instr::MovLL { rm, rn } => at_mn_text("mov.l"@, rm, rn),
        Instr::AddI { imm, rn } => imm_n_text("add"@, imm, rn),
        Instr::Bf { disp } => branch_text(
            "bf"@,
            labels[word_source(caret, disp as int)],
            word_source(caret, disp as int),
            disp,
        ),
        Instr::MovWI { disp, rn } => disp_n_text(
            "mov.w"@,
            disp,
            rn,
            word_source(caret, disp as int),
            extend16(word),
            4,
        ),
        Instr::Bra { disp } => branch_text(
            "bra"@,
            labels[word_source(caret, disp as int)],
            word_source(caret, disp as int),
            disp,
        ),
        Instr::MovLI { disp, rn } => disp_n_text(
            "mov.l"@,
            disp,
            rn,
            long_source(caret, disp as int),
            long,
            8,
        ),
        Instr::MovI { imm, rn } => imm_n_text("mov"@, imm, rn),
    }
}

/// The name of the label with number `n`.
fn label_name(n: usize) -> (s: String)
    ensures
        s@ == label_text(n),
{
    let mut s: String = String::from_str("l-");
    push_dec(&mut s, n as u64, 1);
    s
}

/// `OP rm, rn`
fn mn(name: &str, rm: usize, rn: usize) -> (s: String)
    ensures
        s@ == mn_text(name@, rm, rn),
{
    let mut s: String = String::from_str(name);
    s.append(" r");
    push_dec(&mut s, rm as u64, 1);
    s.append(", r");
    push_dec(&mut s, rn as u64, 1);
    s
}

/// `OP @rm, rn`
fn at_mn(name: &str, rm: usize, rn: usize) -> (s: String)
    ensures
        s@ == at_mn_text(name@, rm, rn),
{
    let mut s: String = String::from_str(name);
    s.append(" @r");
    push_dec(&mut s, rm as u64, 1);
    s.append(", r");
    push_dec(&mut s, rn as u64, 1);
    s
}

/// `OP rm, @rn`
fn m_at_n(name: &str, rm: usize, rn: usize) -> (s: String)
    ensures
        s@ == m_at_n_text(name@, rm, rn),
{
    let mut s: String = String::from_str(name);
    s.append(" r");
    push_dec(&mut s, rm as u64, 1);
    s.append(", @r");
    push_dec(&mut s, rn as u64, 1);
    s
}

/// `OP rm, @-rn`
fn mn_post_dec(name: &str, rm: usize, rn: usize) -> (s: String)
    ensures
        s@ == mn_post_dec_text(name@, rm, rn),
{
    let mut s: String = String::from_str(name);
    s.append(" r");
    push_dec(&mut s, rm as u64, 1);
    s.append(", @-r");
    push_dec(&mut s, rn as u64, 1);
    s
}

/// `OP imm, rn`
fn imm_n(name: &str, imm: u32, rn: usize) -> (s: String)
    ensures
        s@ == imm_n_text(name@, imm, rn),
{
    let mut s: String = String::from_str(name);
    s.append(" ");
    push_hex(&mut s, imm as u64, 1);
    s.append(", r");
    push_dec(&mut s, rn as u64, 1);
    s
}

/// `OP X, @-rn`
fn n_post_dec(name: &str, src: &str, rn: usize) -> (s: String)
    ensures
        s@ == n_post_dec_text(name@, src@, rn),
{
    let mut s: String = String::from_str(name);
    s.append(" ");
    s.append(src);
    s.append(", @-r");
    push_dec(&mut s, rn as u64, 1);
    s
}

/// `OP label   (addr: ADDR, disp: DISP)`
fn branch(name: &str, label: usize, addr: u32, disp: i32) -> (s: String)
    ensures
        s@ == branch_text(name@, label, addr, disp),
{
    let mut s: String = String::from_str(name);
    s.append(" ");
    let label: String = label_name(label);
    s.append(label.as_str());
    s.append("   (addr: ");
    push_hex(&mut s, addr as u64, 8);
    s.append(", disp: ");
    push_hex(&mut s, as_unsigned(disp) as u64, 1);
    s.append(")");
    s
}

/// `OP @(disp, PC), rn   (addr: ADDR, val: VAL)`
fn disp_n(name: &str, disp: u32, rn: usize, addr: u32, val: u32, width: usize) -> (s: String)
    ensures
        s@ == disp_n_text(name@, disp, rn, addr, val, width as nat),
{
    let mut s: String = String::from_str(name);
    s.append(" @(");
    push_hex(&mut s, disp as u64, 1);
    s.append(", PC), r");
    push_dec(&mut s, rn as u64, 1);
    s.append("   (addr: ");
    push_hex(&mut s, addr as u64, 8);
    s.append(", val: ");
    push_hex(&mut s, val as u64, width);
    s.append(")");
    s
}

/// Whether a failed decode stops the disassembler: a word whose second
/// nibble is unknown, or an instruction without implementation. A word
/// that is unknown at one of the three levels of the tree proper is shown
/// as an unknown instruction.
pub open spec fn fatal(f: Fault) -> bool {
    f.kind == FaultKind::SecondNibble || f.kind == FaultKind::Unimplemented
}

/// The fault that stops the disassembler at `addr`, if the word there is
/// one.
pub open spec fn fault_at<B: Bus>(bus: &B, addr: u32) -> Option<Fault> {
    match decode_spec(bus.word_at(addr)) {
        Ok(i) => None,
        Err(f) => if fatal(f) {
            Some(f)
        } else {
            None
        },
    }
}

/// Whether the bus serves what the line at `addr` reads: the opcode, and
/// the source of a PC-relative load.
pub open spec fn shown<B: Bus>(bus: &B, addr: u32) -> bool {
    &&& bus.maps_word(addr)
    &&& decode_spec(bus.word_at(addr)) matches Ok(i) ==> serves(bus, peek(addr, i))
}

/// The labels after the line at `addr` with opcode `op`: the target of a
/// branch is among them.
pub open spec fn labels_after(labels: Map<u32, usize>, addr: u32, op: u16) -> Map<u32, usize> {
    match decode_spec(op) {
        Ok(i) => match branch_target(addr, i) {
            Some(target) => with_label(labels, target),
            None => labels,
        },
        Err(f) => labels,
    }
}

/// The mark of the line at the processor's program counter.
pub open spec fn marker_text(pc: u32, addr: u32) -> Seq<char> {
    if addr == pc {
        "->"@
    } else {
        ""@
    }
}

/// The label of `addr`, or nothing if no branch met so far goes there.
pub open spec fn label_column(labels: Map<u32, usize>, addr: u32) -> Seq<char> {
    if labels.contains_key(addr) {
        label_text(labels[addr])
    } else {
        ""@
    }
}

/// The columns in front of the instruction: mark, label, address, opcode.
pub open spec fn prefix_text(l: Listing, addr: u32, op: u16) -> Seq<char> {
    padded(marker_text(l.pc, addr), 2) + " "@ + padded(label_column(l.labels, addr), 5) + "  "@
        + hex(addr as nat, 8) + "   "@ + hex(op as nat, 4) + "    "@
}

/// The instruction column of the line at `addr` with opcode `op`.
pub open spec fn body_text(
    labels: Map<u32, usize>,
    addr: u32,
    op: u16,
    word: u16,
    long: u32,
) -> Seq<char> {
    match decode_spec(op) {
        Ok(i) => instr_text(labels, addr, i, word, long),
        Err(f) => unknown_text(op),
    }
}

/// What the line at `addr` shows of the memory: the word at the source of
/// a PC-relative word load.
pub open spec fn peeked_word<B: Bus>(bus: &B, addr: u32) -> u16 {
    match decode_spec(bus.word_at(addr)) {
        Ok(i) => word_read(bus, peek(addr, i)),
        Err(f) => 0,
    }
}

/// What the line at `addr` shows of the memory: the long at the source of
/// a PC-relative long load.
pub open spec fn peeked_long<B: Bus>(bus: &B, addr: u32) -> u32 {
    match decode_spec(bus.word_at(addr)) {
        Ok(i) => long_read(bus, peek(addr, i)),
        Err(f) => 0,
    }
}

/// The line at `addr`, ended by a line feed; nothing while lines are not
/// written out. The label column shows the labels as they were before the
/// line; the instruction names its own target.
pub open spec fn line_text<B: Bus>(bus: &B, l: Listing, addr: u32) -> Seq<char> {
    let op = bus.word_at(addr);
    if l.print {
        prefix_text(l, addr, op) + body_text(
            labels_after(l.labels, addr, op),
            addr,
            op,
            peeked_word(bus, addr),
            peeked_long(bus, addr),
        ) + "\n"@
    } else {
        Seq::empty()
    }
}

/// The disassembler after the line at `addr`.
pub open spec fn visited<B: Bus>(bus: &B, l: Listing, addr: u32) -> Listing {
    Listing { caret: addr, labels: labels_after(l.labels, addr, bus.word_at(addr)), ..l }
}

/// The disassembler after a walk over the even addresses from `start` up
/// to `end`. The walk ends early at a word that stops the disassembler.
pub open spec fn walked<B: Bus>(bus: &B, l: Listing, start: u32, end: u32) -> Listing
    decreases end - start,
{
    if start >= end {
        l
    } else if start % 2 != 0 {
        walked(bus, l, (start + 1) as u32, end)
    } else if fault_at(bus, start) is Some {
        visited(bus, l, start)
    } else {
        walked(bus, visited(bus, l, start), (start + 1) as u32, end)
    }
}

/// The lines of a walk over the even addresses from `start` up to `end`
/// that meets no word that stops the disassembler.
pub open spec fn walk_text<B: Bus>(bus: &B, l: Listing, start: u32, end: u32) -> Seq<char>
    decreases end - start,
{
    if start >= end {
        Seq::empty()
    } else if start % 2 != 0 {
        walk_text(bus, l, (start + 1) as u32, end)
    } else {
        line_text(bus, l, start) + walk_text(bus, visited(bus, l, start), (start + 1) as u32, end)
    }
}

/// The first fault that stops the disassembler at an even address from
/// `start` up to `end`, if there is one.
pub open spec fn walk_fault<B: Bus>(bus: &B, start: u32, end: u32) -> Option<Fault>
    decreases end - start,
{
    if start >= end {
        None
    } else if start % 2 != 0 {
        walk_fault(bus, (start + 1) as u32, end)
    } else if fault_at(bus, start) is Some {
        fault_at(bus, start)
    } else {
        walk_fault(bus, (start + 1) as u32, end)
    }
}

/// The disassembler at the start of the second pass over a range: the
/// first pass has collected the labels without writing lines.
pub open spec fn collected<B: Bus>(bus: &B, l: Listing, pc: u32, start: u32, end: u32) -> Listing {
    Listing { print: true, ..walked(bus, (Listing { pc, print: false, ..l }), start, end) }
}

/// Whether `labels` hold the target of every branch that a walk over the
/// even addresses from `start` up to `end` meets.
pub open spec fn covers<B: Bus>(bus: &B, labels: Map<u32, usize>, start: u32, end: u32) -> bool
    decreases end - start,
{
    if start >= end {
        true
    } else if start % 2 != 0 {
        covers(bus, labels, (start + 1) as u32, end)
    } else {
        &&& labels_after(labels, start, bus.word_at(start)) == labels
        &&& fault_at(bus, start) is Some || covers(bus, labels, (start + 1) as u32, end)
    }
}

/// A walk takes no label away and gives none another number.
pub proof fn lemma_walk_keeps_labels<B: Bus>(bus: &B, l: Listing, start: u32, end: u32, at: u32)
    requires
        l.labels.contains_key(at),
    ensures
        walked(bus, l, start, end).labels.contains_key(at),
        walked(bus, l, start, end).labels[at] == l.labels[at],
    decreases end - start,
{
    if start >= end {
    } else if start % 2 != 0 {
        lemma_walk_keeps_labels(bus, l, (start + 1) as u32, end, at);
    } else if fault_at(bus, start) is Some {
    } else {
        lemma_walk_keeps_labels(bus, visited(bus, l, start), (start + 1) as u32, end, at);
    }
}

/// Labels that already hold every target of a walk come out of it as they
/// went in.
pub proof fn lemma_walk_adds_nothing<B: Bus>(bus: &B, l: Listing, start: u32, end: u32)
    requires
        covers(bus, l.labels, start, end),
    ensures
        walked(bus, l, start, end).labels == l.labels,
    decreases end - start,
{
    if start >= end {
    } else if start % 2 != 0 {
        lemma_walk_adds_nothing(bus, l, (start + 1) as u32, end);
    } else if fault_at(bus, start) is Some {
    } else {
        lemma_walk_adds_nothing(bus, visited(bus, l, start), (start + 1) as u32, end);
    }
}

/// After a walk every branch that it met has its label.
pub proof fn lemma_walk_covers<B: Bus>(bus: &B, l: Listing, start: u32, end: u32)
    ensures
        covers(bus, walked(bus, l, start, end).labels, start, end),
    decreases end - start,
{
    if start >= end {
    } else if start % 2 != 0 {
        lemma_walk_covers(bus, l, (start + 1) as u32, end);
    } else {
        let here = visited(bus, l, start);
        let last = walked(bus, l, start, end);
        // the target of this line has its label from here on
        match decode_spec(bus.word_at(start)) {
            Ok(i) => match branch_target(start, i) {
                Some(target) => {
                    assert(here.labels.contains_key(target));
                    if fault_at(bus, start) is None {
                        lemma_walk_keeps_labels(bus, here, (start + 1) as u32, end, target);
                    }
                },
                None => {},
            },
            Err(f) => {},
        }
        if fault_at(bus, start) is None {
            lemma_walk_covers(bus, here, (start + 1) as u32, end);
        }
    }
}

/// The second walk over a range finds every label made: it shows the
/// labels that the first walk collected and adds none, so that every branch
/// to one target shows one name.
pub proof fn lemma_second_walk_keeps_labels<B: Bus>(
    bus: &B,
    l: Listing,
    pc: u32,
    start: u32,
    end: u32,
)
    ensures
        walked(bus, collected(bus, l, pc, start, end), start, end).labels == collected(
            bus,
            l,
            pc,
            start,
            end,
        ).labels,
        covers(bus, collected(bus, l, pc, start, end).labels, start, end),
{
    lemma_walk_covers(bus, (Listing { pc, print: false, ..l }), start, end);
    lemma_walk_adds_nothing(bus, collected(bus, l, pc, start, end), start, end);
}

/// The disassembler.
pub struct Disassemble {
    pc: u32,
    caret: u32,
    labels: HashMap<u32, usize>,
    print: bool,
}

impl View for Disassemble {
    type V = Listing;

    closed spec fn view(&self) -> Listing {
        Listing { pc: self.pc, caret: self.caret, labels: self.labels@, print: self.print }
    }
}

impl Disassemble {
    /// The labels are numbered in order.
    pub open spec fn wf(&self) -> bool {
        numbered(self@.labels)
    }

    /// A disassembler with no labels, which writes lines out.
    pub fn new() -> (d: Disassemble)
        ensures
            d@ == (Listing { pc: 0, caret: 0, labels: Map::empty(), print: true }),
            d.wf(),
    {
        Disassemble { pc: 0, caret: 0, labels: HashMap::new(), print: true }
    }

    /// The number of the label of `addr`, which is made if the address has
    /// none yet.
    fn add_label(&mut self, addr: u32) -> (n: usize)
        ensures
            final(self)@ == (Listing {
                labels: with_label(old(self)@.labels, addr),
                ..old(self)@
            }),
            final(self)@.labels.contains_key(addr),
            n == final(self)@.labels[addr],
            old(self).wf() ==> final(self).wf(),
    {
        let next: usize = self.labels.len();
        proof {
            assert(next == self@.labels.len());
            if self.wf() {
                lemma_with_label_numbered(self@.labels, addr);
            }
        }
        let found: Option<usize> = match self.labels.get(&addr) {
            Some(n) => Some(*n),
            None => None,
        };
        match found {
            Some(n) => n,
            None => {
                self.labels.insert(addr, next);
                next
            },
        }
    }

    /// The text of a word that is no instruction.
    fn print_unknown_instr(&self, op: u16) -> (s: String)
        ensures
            s@ == unknown_text(op),
    {
        let mut s: String = String::from_str("unknown instruction: ");
        push_hex(&mut s, op as u64, 4);
        s
    }

    /// A word whose most significant nibble names no family is shown as an
    /// unknown instruction.
    fn op_most_significant_nibble_unknown(&self, op: u16) -> (s: String)
        ensures
            s@ == unknown_text(op),
    {
        self.print_unknown_instr(op)
    }

    /// A word whose least significant nibble is not known in its family is
    /// shown as an unknown instruction.
    fn op_least_significant_nibble_unknown(&self, op: u16) -> (s: String)
        ensures
            s@ == unknown_text(op),
    {
        self.print_unknown_instr(op)
    }

    /// A word whose least significant byte is not known in its family is
    /// shown as an unknown instruction.
    fn op_least_significant_byte_unknown(&self, op: u16) -> (s: String)
        ensures
            s@ == unknown_text(op),
    {
        self.print_unknown_instr(op)
    }

    /// BF: the target gets a label, and the line names it.
    fn bf(&mut self, disp: i32) -> (s: String)
        requires
            -0x80 <= disp < 0x80,
        ensures
            final(self)@ == (Listing {
                labels: with_label(
                    old(self)@.labels,
                    word_source(old(self)@.caret, disp as int),
                ),
                ..old(self)@
            }),
            s@ == instr_text(final(self)@.labels, old(self)@.caret, (Instr::Bf { disp }), 0, 0),
            old(self).wf() ==> final(self).wf(),
    {
        let addr: u32 = pc_relative_word(self.caret.wrapping_add(2), disp);
        let label: usize = self.add_label(addr);
        branch("bf", label, addr, disp)
    }

    /// BRA: the target gets a label, and the line names it.
    fn bra(&mut self, disp: i32) -> (s: String)
        requires
            -0x800 <= disp < 0x800,
        ensures
            final(self)@ == (Listing {
                labels: with_label(
                    old(self)@.labels,
                    word_source(old(self)@.caret, disp as int),
                ),
                ..old(self)@
            }),
            s@ == instr_text(final(self)@.labels, old(self)@.caret, (Instr::Bra { disp }), 0, 0),
            old(self).wf() ==> final(self).wf(),
    {
        let addr: u32 = pc_relative_word(self.caret.wrapping_add(2), disp);
        let label: usize = self.add_label(addr);
        branch("bra", label, addr, disp)
    }

    /// MOV.W @(disp,PC),Rn: the line shows the source and the word there.
    fn mov_wi<B: Bus>(&self, bus: &B, disp: u32, rn: usize) -> (s: String)
        requires
            disp < 0x100,
            bus.maps_word(word_source(self@.caret, disp as int)),
        ensures
            s@ == instr_text(
                self@.labels,
                self@.caret,
                (Instr::MovWI { disp, rn }),
                bus.word_at(word_source(self@.caret, disp as int)),
                0,
            ),
    {
        let src: u32 = pc_relative_word(self.caret.wrapping_add(2), disp as i32);
        let val: u32 = sign_extend_word(bus.read_word(src));
        disp_n("mov.w", disp, rn, src, val, 4)
    }

    /// MOV.L @(disp,PC),Rn: the line shows the source and the long there.
    fn mov_li<B: Bus>(&self, bus: &B, disp: u32, rn: usize) -> (s: String)
        requires
            disp < 0x100,
            bus.maps_long(long_source(self@.caret, disp as int)),
        ensures
            s@ == instr_text(
                self@.labels,
                self@.caret,
                (Instr::MovLI { disp, rn }),
                0,
                bus.long_at(long_source(self@.caret, disp as int)),
            ),
    {
        let src: u32 = pc_relative_long(self.caret.wrapping_add(2), disp);
        let val: u32 = bus.read_long(src);
        disp_n("mov.l", disp, rn, src, val, 8)
    }

    /// The instruction in assembly notation; a branch target gets its
    /// label.
    fn do_op<B: Bus>(&mut self, bus: &B, i: Instr) -> (s: String)
        requires
            instr_wf(i),
            serves(bus, peek(old(self)@.caret, i)),
        ensures
            final(self)@ == (Listing {
                labels: match branch_target(old(self)@.caret, i) {
                    Some(target) => with_label(old(self)@.labels, target),
                    None => old(self)@.labels,
                },
                ..old(self)@
            }),
            s@ == instr_text(
                final(self)@.labels,
                old(self)@.caret,
                i,
                word_read(bus, peek(old(self)@.caret, i)),
                long_read(bus, peek(old(self)@.caret, i)),
            ),
            old(self).wf() ==> final(self).wf(),
    {
        match i {
            Instr::MovLS { rm, rn } => m_at_n("mov.l", rm, rn),
            Instr::MovLM { rm, rn } => mn_post_dec("mov.l", rm, rn),
            Instr::Tst { rm, rn } => mn("tst", rm, rn),
            Instr::And { rm, rn } => mn("and", rm, rn),
            Instr::Xor { rm, rn } => mn("xor", rm, rn),
            Instr::Or { rm, rn } => mn("or", rm, rn),
            Instr::CmpHs { rm, rn } => mn("cmp/hs", rm, rn),
            Instr::StsMPr { rn } => n_post_dec("sts.l", "pr", rn),
            Instr::MovWL { rm, rn } => at_mn("mov.w", rm, rn),
            Instr::MovLL { rm, rn } => at_mn("mov.l", rm, rn),
            Instr::AddI { imm, rn } => imm_n("add", imm, rn),
            Instr::Bf { disp } => self.bf(disp),
            Instr::MovWI { disp, rn } => self.mov_wi(bus, disp, rn),
            Instr::Bra { disp } => self.bra(disp),
            Instr::MovLI { disp, rn } => self.mov_li(bus, disp, rn),
            Instr::MovI { imm, rn } => imm_n("mov", imm, rn),
        }
    }

    /// The columns in front of the instruction.
    fn prefix(&self, addr: u32, op: u16) -> (s: String)
        ensures
            s@ == prefix_text(self@, addr, op),
    {
        let mark: &str = if addr == self.pc {
            "->"
        } else {
            ""
        };
        let label: String = match self.labels.get(&addr) {
            Some(n) => label_name(*n),
            None => String::from_str(""),
        };
        let mut s: String = String::new();
        push_padded(&mut s, mark, 2);
        assert(s@ =~= padded(marker_text(self@.pc, addr), 2));
        s.append(" ");
        push_padded(&mut s, label.as_str(), 5);
        s.append("  ");
        push_hex(&mut s, addr as u64, 8);
        s.append("   ");
        push_hex(&mut s, op as u64, 4);
        s.append("    ");
        s
    }

    /// The line of the word at `addr`, which becomes the line in work.
    ///
    /// A word that stops the disassembler is returned as a fault. While
    /// lines are not written out, the line is empty, and a branch target
    /// still gets its label.
    pub fn disass_addr<B: Bus>(&mut self, bus: &B, addr: u32) -> (r: Result<String, Fault>)
        requires
            shown(bus, addr),
        ensures
            final(self)@ == visited(bus, old(self)@, addr),
            match fault_at(bus, addr) {
                Some(fault) => r == Err::<String, Fault>(fault),
                None => r matches Ok(line) && line@ == line_text(bus, old(self)@, addr),
            },
            old(self).wf() ==> final(self).wf(),
    {
        self.caret = addr;
        let op: u16 = bus.read_word(addr);
        let mut line: String = self.prefix(addr, op);
        let body: String = match decode(op) {
            Ok(i) => self.do_op(bus, i),
            Err(fault) => match fault.kind {
                FaultKind::MostSignificantNibble => self.op_most_significant_nibble_unknown(op),
                FaultKind::LeastSignificantNibble => self.op_least_significant_nibble_unknown(op),
                FaultKind::LeastSignificantByte => self.op_least_significant_byte_unknown(op),
                _ => {
                    return Err(fault);
                },
            },
        };
        line.append(body.as_str());
        line.append("\n");
        if self.print {
            Ok(line)
        } else {
            Ok(String::new())
        }
    }

    /// The line of the word at `pc`, the processor's program counter.
    pub fn disasemble<B: Bus>(&mut self, bus: &mut B, pc: u32) -> (r: Result<String, Fault>)
        requires
            shown(old(bus), pc),
        ensures
            *final(bus) == *old(bus),
            final(self)@ == visited(old(bus), (Listing { pc, ..old(self)@ }), pc),
            match fault_at(old(bus), pc) {
                Some(fault) => r == Err::<String, Fault>(fault),
                None => r matches Ok(line) && line@ == line_text(
                    old(bus),
                    (Listing { pc, ..old(self)@ }),
                    pc,
                ),
            },
            old(self).wf() ==> final(self).wf(),
    {
        self.pc = pc;
        self.caret = pc;
        self.disass_addr(bus, pc)
    }

    /// The lines of the even addresses from `start` up to `end`, one after
    /// another; the walk ends at the first word that stops the
    /// disassembler, which is returned as a fault.
    pub fn print_range<B: Bus>(&mut self, bus: &B, start: u32, end: u32) -> (r: Result<
        String,
        Fault,
    >)
        requires
            forall|a: u32| start <= a < end && a % 2 == 0 ==> shown(bus, a),
        ensures
            final(self)@ == walked(bus, old(self)@, start, end),
            match walk_fault(bus, start, end) {
                Some(fault) => r == Err::<String, Fault>(fault),
                None => r matches Ok(text) && text@ == walk_text(bus, old(self)@, start, end),
            },
            old(self).wf() ==> final(self).wf(),
    {
        let mut out: String = String::new();
        let mut i: u32 = start;
        while i < end
            invariant
                start <= i,
                forall|a: u32| start <= a < end && a % 2 == 0 ==> shown(bus, a),
                walked(bus, old(self)@, start, end) == walked(bus, self@, i, end),
                walk_fault(bus, start, end) == walk_fault(bus, i, end),
                walk_text(bus, old(self)@, start, end) == out@ + walk_text(bus, self@, i, end),
                old(self).wf() ==> self.wf(),
            decreases end - i,
        {
            if i % 2 == 0 {
                let ghost before = self@;
                let ghost shown_so_far = out@;
                match self.disass_addr(bus, i) {
                    Ok(line) => {
                        out.append(line.as_str());
                        assert(out@ + walk_text(bus, self@, (i + 1) as u32, end) =~= shown_so_far
                            + walk_text(bus, before, i, end));
                    },
                    Err(fault) => {
                        return Err(fault);
                    },
                }
            }
            i += 1;
        }
        assert(out@ =~= walk_text(bus, old(self)@, start, end));
        Ok(out)
    }

    /// The listing of the even addresses from `start` up to `end`, with the
    /// line at `pc` marked.
    ///
    /// The range is walked twice. The first walk writes nothing and gives
    /// every branch target its label, in the order in which the targets are
    /// met; the second writes the lines with these labels.
    pub fn disassemble_range<B: Bus>(&mut self, bus: &mut B, start: u32, end: u32, pc: u32) -> (r:
        Result<String, Fault>)
        requires
            forall|a: u32| start <= a < end && a % 2 == 0 ==> shown(old(bus), a),
        ensures
            *final(bus) == *old(bus),
            match walk_fault(old(bus), start, end) {
                Some(fault) => {
                    &&& r == Err::<String, Fault>(fault)
                    &&& final(self)@ == walked(
                        old(bus),
                        (Listing { pc, print: false, ..old(self)@ }),
                        start,
                        end,
                    )
                },
                None => {
                    &&& r matches Ok(text) && text@ == walk_text(
                        old(bus),
                        collected(old(bus), old(self)@, pc, start, end),
                        start,
                        end,
                    )
                    &&& final(self)@ == walked(
                        old(bus),
                        collected(old(bus), old(self)@, pc, start, end),
                        start,
                        end,
                    )
                    &&& final(self)@.labels == collected(
                        old(bus),
                        old(self)@,
                        pc,
                        start,
                        end,
                    ).labels
                    &&& covers(old(bus), final(self)@.labels, start, end)
                },
            },
            old(self).wf() ==> final(self).wf(),
    {
        proof {
            lemma_second_walk_keeps_labels(bus, self@, pc, start, end);
        }
        self.pc = pc;
        self.print = false;
        match self.print_range(bus, start, end) {
            Ok(nothing) => {
                self.print = true;
                self.print_range(bus, start, end)
            },
            Err(fault) => Err(fault),
        }
    }
}

} // verus!
