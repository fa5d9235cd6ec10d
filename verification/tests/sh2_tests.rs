use sh2emu::bus::Bus;
use sh2emu::ops::{Fault, FaultKind};
use sh2emu::sh2::Sh2;

pub struct TestBus {
    addr: [u16; 2],
}

impl Bus for TestBus {
    fn byte_at(&self, addr: u32) -> u8 {
        self.read_byte(addr)
    }

    fn word_at(&self, addr: u32) -> u16 {
        self.read_word(addr)
    }

    fn long_at(&self, addr: u32) -> u32 {
        self.read_long(addr)
    }

    fn read_byte(&self, _addr: u32) -> u8 {
        (self.addr[0] >> 8) as u8
    }

    fn read_word(&self, _addr: u32) -> u16 {
        // just get the first word
        self.addr[0]
    }

    fn read_long(&self, _addr: u32) -> u32 {
        (self.addr[0] as u32) << 16 | self.addr[1] as u32
    }

    fn write_byte(&mut self, _addr: u32, _val: u8) {}

    fn write_word(&mut self, _addr: u32, _val: u16) {}

    fn write_long(&mut self, _addr: u32, val: u32) {
        self.addr[0] = (val >> 16) as u16;
        self.addr[1] = (val & 0xFFFF) as u16;
    }
}

/// Big-endian memory from address zero, which keeps a record of the longs
/// written to it.
struct Ram {
    mem: Vec<u8>,
    longs_written: Vec<(u32, u32)>,
}

impl Ram {
    fn new(size: usize) -> Ram {
        Ram { mem: vec![0; size], longs_written: Vec::new() }
    }

    fn put_words(&mut self, at: u32, words: &[u16]) {
        let mut a = at;
        for w in words {
            self.write_word(a, *w);
            a += 2;
        }
    }
}

impl Bus for Ram {
    fn byte_at(&self, addr: u32) -> u8 {
        self.read_byte(addr)
    }

    fn word_at(&self, addr: u32) -> u16 {
        self.read_word(addr)
    }

    fn long_at(&self, addr: u32) -> u32 {
        self.read_long(addr)
    }

    fn read_byte(&self, addr: u32) -> u8 {
        self.mem[addr as usize]
    }

    fn read_word(&self, addr: u32) -> u16 {
        (self.read_byte(addr) as u16) << 8 | self.read_byte(addr + 1) as u16
    }

    fn read_long(&self, addr: u32) -> u32 {
        (self.read_word(addr) as u32) << 16 | self.read_word(addr + 2) as u32
    }

    fn write_byte(&mut self, addr: u32, val: u8) {
        self.mem[addr as usize] = val;
    }

    fn write_word(&mut self, addr: u32, val: u16) {
        self.write_byte(addr, (val >> 8) as u8);
        self.write_byte(addr + 1, val as u8);
    }

    fn write_long(&mut self, addr: u32, val: u32) {
        self.longs_written.push((addr, val));
        self.write_word(addr, (val >> 16) as u16);
        self.write_word(addr + 2, val as u16);
    }
}

/// A processor reset to `pc`, and memory with `program` at `pc`.
fn machine(pc: u32, program: &[u16]) -> (Sh2, Ram) {
    let mut ram = Ram::new(0x4000);
    ram.put_words(pc, program);
    let mut cpu = Sh2::new();
    cpu.reset(pc, 0x3000);
    (cpu, ram)
}

fn run(cpu: &mut Sh2, ram: &mut Ram, steps: usize) {
    for _ in 0..steps {
        assert_eq!(cpu.step(ram), Ok(()));
    }
}

#[test]
fn test_step_pc() {
    let mut bus = TestBus { addr: [0x2fd6, 0x2fe6] };
    let mut cpu = Sh2::new();
    cpu.reset(0x00000000, 0x1000000);
    let _ = cpu.step(&mut bus);
    assert_eq!(cpu.get_regs().pc, 0x00000002);
}

#[test]
fn new_leaves_poison() {
    let cpu = Sh2::new();
    let r = cpu.get_regs();
    for n in 0..16 {
        assert_eq!(r.gpr[n], 0xDEADBEEF);
    }
    assert_eq!(r.gbr, 0xDEADBEEF);
    assert_eq!(r.mach, 0xDEADBEEF);
    assert_eq!(r.macl, 0xDEADBEEF);
    assert_eq!(r.pr, 0xDEADBEEF);
    assert_eq!(r.pc, 0xDEADBEEF);
    assert_eq!(cpu.get_pc(), 0xDEADBEEF);
    assert_eq!(r.vbr, 0);
    assert_eq!(r.sr_i, 0);
    assert_eq!(cpu.get_cycles(), 0);
    assert_eq!(cpu.get_delay(), None);
}

#[test]
fn reset_installs_entry_and_stack() {
    let mut cpu = Sh2::new();
    cpu.set_vbr(0x0600_0000);
    assert_eq!(cpu.get_regs().vbr, 0x0600_0000);
    cpu.reset(0x1234_5678, 0x0100_0000);
    let r = cpu.get_regs();
    assert_eq!(r.pc, 0x1234_5678);
    assert_eq!(cpu.get_pc(), 0x1234_5678);
    assert_eq!(r.gpr[15], 0x0100_0000);
    assert_eq!(r.sr_i, 15);
    assert_eq!(r.vbr, 0);
    assert_eq!(cpu.get_delay(), None);
    for n in 0..15 {
        assert_eq!(r.gpr[n], 0xDEADBEEF);
    }
    assert_eq!(r.gbr, 0xDEADBEEF);
    assert_eq!(r.pr, 0xDEADBEEF);
}

#[test]
fn reset_disarms_the_latch() {
    // BRA arms the latch; a reset before the delay slot disarms it.
    let (mut cpu, mut ram) = machine(0x200, &[0xA002]);
    run(&mut cpu, &mut ram, 1);
    assert_eq!(cpu.get_delay(), Some(0x208));
    cpu.reset(0x100, 0x3000);
    assert_eq!(cpu.get_delay(), None);
    assert_eq!(cpu.get_pc(), 0x100);
    assert_eq!(cpu.get_cycles(), 2);
}

#[test]
fn set_vbr_touches_nothing_else() {
    let mut cpu = Sh2::new();
    cpu.reset(0x40, 0x80);
    let before = cpu.get_regs();
    cpu.set_vbr(0xCAFE_0000);
    let after = cpu.get_regs();
    assert_eq!(after.vbr, 0xCAFE_0000);
    assert_eq!(after.gpr, before.gpr);
    assert_eq!(after.pc, before.pc);
    assert_eq!(after.sr_i, before.sr_i);
    assert_eq!(after.gbr, before.gbr);
    assert_eq!(after.pr, before.pr);
}

#[test]
fn snapshot_is_a_copy() {
    let mut cpu = Sh2::new();
    cpu.reset(0, 0);
    let mut snap = cpu.get_regs();
    snap.pc = 0x999;
    snap.gpr[3] = 7;
    assert_eq!(cpu.get_pc(), 0);
    assert_eq!(cpu.get_regs().gpr[3], 0xDEADBEEF);
}

#[test]
fn step_advances_pc_and_counts_one_cycle() {
    // MOV.L R13,@-R15
    let (mut cpu, mut ram) = machine(0, &[0x2FD6]);
    run(&mut cpu, &mut ram, 1);
    assert_eq!(cpu.get_pc(), 0x0002);
    assert_eq!(cpu.get_cycles(), 1);
    assert_eq!(cpu.get_regs().gpr[15], 0x3000 - 4);
    assert_eq!(ram.longs_written, vec![(0x2FFC, 0xDEADBEEF)]);
}

#[test]
fn add_immediate_sign_extends() {
    // MOV #0,R3; ADD #-1,R3
    let (mut cpu, mut ram) = machine(0x100, &[0xE300, 0x73FF]);
    run(&mut cpu, &mut ram, 1);
    assert_eq!(cpu.get_regs().gpr[3], 0);
    let t = cpu.get_regs().sr_t;
    run(&mut cpu, &mut ram, 1);
    assert_eq!(cpu.get_regs().gpr[3], 0xFFFF_FFFF);
    assert_eq!(cpu.get_regs().sr_t, t);
    assert_eq!(cpu.get_cycles(), 2);
}

#[test]
fn add_immediate_wraps() {
    // MOV #-1,R4; ADD #2,R4; ADD #0x7f,R4
    let (mut cpu, mut ram) = machine(0x100, &[0xE4FF, 0x7402, 0x747F]);
    run(&mut cpu, &mut ram, 2);
    assert_eq!(cpu.get_regs().gpr[4], 1);
    run(&mut cpu, &mut ram, 1);
    assert_eq!(cpu.get_regs().gpr[4], 0x80);
}

#[test]
fn mov_immediate_sign_extends() {
    // MOV #0x7f,R0; MOV #-128,R1
    let (mut cpu, mut ram) = machine(0x100, &[0xE07F, 0xE180]);
    run(&mut cpu, &mut ram, 2);
    assert_eq!(cpu.get_regs().gpr[0], 0x7F);
    assert_eq!(cpu.get_regs().gpr[1], 0xFFFF_FF80);
}

#[test]
fn mov_long_predecrement_decrements_first() {
    // MOV.L @(1,PC),R5; MOV.L @(2,PC),R2; MOV.L R2,@-R5; pad; 0x1000; 0xCAFEBABE
    let (mut cpu, mut ram) =
        machine(0x100, &[0xD501, 0xD202, 0x2526, 0x0000, 0x0000, 0x1000, 0xCAFE, 0xBABE]);
    run(&mut cpu, &mut ram, 2);
    assert_eq!(cpu.get_regs().gpr[5], 0x1000);
    assert_eq!(cpu.get_regs().gpr[2], 0xCAFE_BABE);
    run(&mut cpu, &mut ram, 1);
    assert_eq!(cpu.get_regs().gpr[5], 0x0FFC);
    assert_eq!(cpu.get_regs().gpr[2], 0xCAFE_BABE);
    assert_eq!(ram.longs_written, vec![(0x0FFC, 0xCAFE_BABE)]);
    assert_eq!(ram.read_long(0x0FFC), 0xCAFE_BABE);
    assert_eq!(cpu.get_cycles(), 3);
}

#[test]
fn mov_long_predecrement_of_itself_stores_the_new_value() {
    // MOV #16,R1; MOV.L R1,@-R1
    let (mut cpu, mut ram) = machine(0x100, &[0xE110, 0x2116]);
    run(&mut cpu, &mut ram, 2);
    assert_eq!(cpu.get_regs().gpr[1], 12);
    assert_eq!(ram.longs_written, vec![(12, 12)]);
}

#[test]
fn mov_long_store_leaves_registers() {
    // MOV #0x40,R1; MOV #-2,R2; MOV.L R2,@R1
    let (mut cpu, mut ram) = machine(0x100, &[0xE140, 0xE2FE, 0x2122]);
    run(&mut cpu, &mut ram, 3);
    assert_eq!(cpu.get_regs().gpr[1], 0x40);
    assert_eq!(cpu.get_regs().gpr[2], 0xFFFF_FFFE);
    assert_eq!(ram.longs_written, vec![(0x40, 0xFFFF_FFFE)]);
}

#[test]
fn sts_pr_pushes_the_procedure_register() {
    // STS.L PR,@-R15
    let (mut cpu, mut ram) = machine(0x100, &[0x4F22]);
    run(&mut cpu, &mut ram, 1);
    assert_eq!(cpu.get_regs().gpr[15], 0x2FFC);
    assert_eq!(ram.longs_written, vec![(0x2FFC, 0xDEADBEEF)]);
    assert_eq!(cpu.get_regs().pr, 0xDEADBEEF);
}

#[test]
fn mov_word_load_sign_extends() {
    // MOV #0x40,R1; MOV.W @R1,R2; MOV #0x42,R1; MOV.W @R1,R3
    let (mut cpu, mut ram) = machine(0x100, &[0xE140, 0x6211, 0xE142, 0x6311]);
    ram.put_words(0x40, &[0x8001, 0x7FFF]);
    run(&mut cpu, &mut ram, 4);
    assert_eq!(cpu.get_regs().gpr[2], 0xFFFF_8001);
    assert_eq!(cpu.get_regs().gpr[3], 0x0000_7FFF);
}

#[test]
fn mov_long_load() {
    // MOV #0x40,R1; MOV.L @R1,R2
    let (mut cpu, mut ram) = machine(0x100, &[0xE140, 0x6212]);
    ram.put_words(0x40, &[0x8001, 0x7FFF]);
    run(&mut cpu, &mut ram, 2);
    assert_eq!(cpu.get_regs().gpr[2], 0x8001_7FFF);
    assert_eq!(cpu.get_regs().gpr[1], 0x40);
}

#[test]
fn logic_operations() {
    // MOV #0x5a,R1; MOV #0x0f,R2; AND R1,R2
    let (mut cpu, mut ram) = machine(0x100, &[0xE15A, 0xE20F, 0x2219]);
    run(&mut cpu, &mut ram, 3);
    assert_eq!(cpu.get_regs().gpr[2], 0x0A);
    // MOV #0x5a,R1; MOV #0x0f,R2; XOR R1,R2
    let (mut cpu, mut ram) = machine(0x100, &[0xE15A, 0xE20F, 0x221A]);
    run(&mut cpu, &mut ram, 3);
    assert_eq!(cpu.get_regs().gpr[2], 0x55);
    // MOV #0x5a,R1; MOV #0x0f,R2; OR R1,R2
    let (mut cpu, mut ram) = machine(0x100, &[0xE15A, 0xE20F, 0x221B]);
    run(&mut cpu, &mut ram, 3);
    assert_eq!(cpu.get_regs().gpr[2], 0x5F);
    assert_eq!(cpu.get_regs().gpr[1], 0x5A);
}

#[test]
fn tst_sets_t_on_no_common_bit() {
    // MOV #0x50,R1; MOV #0x0f,R2; TST R1,R2; MOV #0x1f,R2; TST R1,R2
    let (mut cpu, mut ram) = machine(0x100, &[0xE150, 0xE20F, 0x2218, 0xE21F, 0x2218]);
    run(&mut cpu, &mut ram, 3);
    assert!(cpu.get_regs().sr_t);
    assert_eq!(cpu.get_regs().gpr[2], 0x0F);
    run(&mut cpu, &mut ram, 2);
    assert!(!cpu.get_regs().sr_t);
    assert_eq!(cpu.get_regs().gpr[2], 0x1F);
}

#[test]
fn higher_or_same_is_unsigned() {
    // MOV #0,R1; MOV #-1,R2; CMP/HS R2,R1 (is R1 >= R2?); CMP/HS R1,R2; CMP/HS R1,R1
    let (mut cpu, mut ram) = machine(0x100, &[0xE100, 0xE2FF, 0x3122, 0x3212, 0x3112]);
    run(&mut cpu, &mut ram, 3);
    assert_eq!(cpu.get_regs().gpr[1], 0);
    assert_eq!(cpu.get_regs().gpr[2], 0xFFFF_FFFF);
    assert!(!cpu.get_regs().sr_t);
    run(&mut cpu, &mut ram, 1);
    assert!(cpu.get_regs().sr_t);
    run(&mut cpu, &mut ram, 1);
    assert!(cpu.get_regs().sr_t);
}

#[test]
fn bf_taken_and_not_taken() {
    // MOV #1,R0; TST R0,R0 (T=0); BF with displacement -2, fetched at 0x100:
    // the target is 0x100 + 4 - 2 * 2.
    let (mut cpu, mut ram) = machine(0xFC, &[0xE001, 0x2008, 0x8BFE]);
    run(&mut cpu, &mut ram, 2);
    assert!(!cpu.get_regs().sr_t);
    assert_eq!(cpu.get_pc(), 0x100);
    let before = cpu.get_cycles();
    run(&mut cpu, &mut ram, 1);
    assert_eq!(cpu.get_pc(), 0x100);
    assert_eq!(cpu.get_cycles(), before + 3);
    assert_eq!(cpu.get_delay(), None);

    // MOV #0,R0; TST R0,R0 (T=1); BF -2
    let (mut cpu, mut ram) = machine(0xFC, &[0xE000, 0x2008, 0x8BFE]);
    run(&mut cpu, &mut ram, 2);
    assert!(cpu.get_regs().sr_t);
    let before = cpu.get_cycles();
    run(&mut cpu, &mut ram, 1);
    assert_eq!(cpu.get_pc(), 0x102);
    assert_eq!(cpu.get_cycles(), before + 1);
}

#[test]
fn bra_delay_slot() {
    // BRA with displacement 2, fetched at 0x200: the target is
    // 0x200 + 4 + 2 * 2. MOV #1,R0 sits in the delay slot.
    let (mut cpu, mut ram) = machine(0x200, &[0xA002, 0xE001]);
    run(&mut cpu, &mut ram, 1);
    assert_eq!(cpu.get_pc(), 0x202);
    assert_eq!(cpu.get_delay(), Some(0x208));
    assert_eq!(cpu.get_cycles(), 2);
    run(&mut cpu, &mut ram, 1);
    assert_eq!(cpu.get_regs().gpr[0], 1);
    assert_eq!(cpu.get_pc(), 0x208);
    assert_eq!(cpu.get_delay(), None);
    assert_eq!(cpu.get_cycles(), 3);
}

#[test]
fn bra_backwards_and_third_step_starts_at_target() {
    // at 0x200: MOV #7,R1. at 0x210: BRA -10 (to 0x210 + 4 - 20); MOV #2,R0
    let (mut cpu, mut ram) = machine(0x210, &[0xAFF6, 0xE002]);
    ram.put_words(0x200, &[0xE107]);
    run(&mut cpu, &mut ram, 1);
    assert_eq!(cpu.get_delay(), Some(0x200));
    run(&mut cpu, &mut ram, 1);
    assert_eq!(cpu.get_pc(), 0x200);
    run(&mut cpu, &mut ram, 1);
    assert_eq!(cpu.get_regs().gpr[1], 7);
    assert_eq!(cpu.get_regs().gpr[0], 2);
    assert_eq!(cpu.get_pc(), 0x202);
}

#[test]
fn pc_relative_loads_count_from_four_past() {
    // at 0x102 (not long aligned): MOV.W @(2,PC),R1 reads at 0x102 + 4 + 4 = 0x10A
    let (mut cpu, mut ram) = machine(0x102, &[0x9102]);
    ram.put_words(0x10A, &[0x8123]);
    run(&mut cpu, &mut ram, 1);
    assert_eq!(cpu.get_regs().gpr[1], 0xFFFF_8123);
    // at 0x102: MOV.L @(2,PC),R1 reads at (0x106 & !3) + 8 = 0x10C
    let (mut cpu, mut ram) = machine(0x102, &[0xD102]);
    ram.put_words(0x10C, &[0x1122, 0x3344]);
    run(&mut cpu, &mut ram, 1);
    assert_eq!(cpu.get_regs().gpr[1], 0x1122_3344);
    // at 0x100: MOV.L @(2,PC),R1 reads at 0x104 + 8 = 0x10C
    let (mut cpu, mut ram) = machine(0x100, &[0xD102]);
    ram.put_words(0x10C, &[0x5566, 0x7788]);
    run(&mut cpu, &mut ram, 1);
    assert_eq!(cpu.get_regs().gpr[1], 0x5566_7788);
    assert_eq!(cpu.get_pc(), 0x102);
}

#[test]
fn other_registers_stay() {
    // MOV #5,R7
    let (mut cpu, mut ram) = machine(0x100, &[0xE705]);
    let before = cpu.get_regs();
    run(&mut cpu, &mut ram, 1);
    let after = cpu.get_regs();
    for n in 0..16 {
        if n != 7 {
            assert_eq!(after.gpr[n], before.gpr[n]);
        }
    }
    assert_eq!(after.gpr[7], 5);
    assert_eq!(after.gbr, before.gbr);
    assert_eq!(after.vbr, before.vbr);
    assert_eq!(after.sr_t, before.sr_t);
    assert_eq!(after.sr_s, before.sr_s);
    assert_eq!(after.sr_i, before.sr_i);
    assert_eq!(after.sr_q, before.sr_q);
    assert_eq!(after.sr_m, before.sr_m);
    assert_eq!(after.mach, before.mach);
    assert_eq!(after.macl, before.macl);
    assert_eq!(after.pr, before.pr);
    assert_eq!(after.pc, before.pc + 2);
    assert!(ram.longs_written.is_empty());
}

#[test]
fn faults_are_returned_after_the_program_counter_moved() {
    let cases: [(u16, FaultKind); 5] = [
        (0x0000, FaultKind::MostSignificantNibble),
        (0x2123, FaultKind::LeastSignificantNibble),
        (0x4123, FaultKind::LeastSignificantByte),
        (0x8A00, FaultKind::SecondNibble),
        (0x412F, FaultKind::Unimplemented),
    ];
    for (op, kind) in cases {
        let (mut cpu, mut ram) = machine(0x100, &[op]);
        let before = cpu.get_regs();
        assert_eq!(cpu.step(&mut ram), Err(Fault { kind, op }));
        assert_eq!(cpu.get_pc(), 0x102);
        assert_eq!(cpu.get_cycles(), 0);
        assert_eq!(cpu.get_regs().gpr, before.gpr);
        assert!(ram.longs_written.is_empty());
    }
}

#[test]
fn step_wraps_the_program_counter() {
    let mut bus = TestBus { addr: [0xE001, 0] };
    let mut cpu = Sh2::new();
    cpu.reset(0xFFFF_FFFE, 0);
    assert_eq!(cpu.step(&mut bus), Ok(()));
    assert_eq!(cpu.get_pc(), 0);
}
