use sh2emu::bus::Bus;
use sh2emu::ops::{Fault, FaultKind};
use sh2emu::sh2::{op_second_nibble_unknown, op_unimplemented, Sh2};
use sh2emu::text::{
    digit_char, push_bin, push_dec, push_digits, push_hex, push_padded, push_truth,
};

struct Words {
    words: Vec<u16>,
}

impl Bus for Words {
    fn byte_at(&self, addr: u32) -> u8 {
        self.read_byte(addr)
    }

    fn word_at(&self, addr: u32) -> u16 {
        self.read_word(addr)
    }

    fn long_at(&self, addr: u32) -> u32 {
        self.read_long(addr)
    }

    fn read_byte(&self, addr: u32) -> u8 {
        let w = self.words[(addr / 2) as usize];
        if addr % 2 == 0 {
            (w >> 8) as u8
        } else {
            w as u8
        }
    }

    fn read_word(&self, addr: u32) -> u16 {
        self.words[(addr / 2) as usize]
    }

    fn read_long(&self, addr: u32) -> u32 {
        (self.read_word(addr) as u32) << 16 | self.read_word(addr + 2) as u32
    }

    fn write_byte(&mut self, _addr: u32, _val: u8) {}

    fn write_word(&mut self, addr: u32, val: u16) {
        self.words[(addr / 2) as usize] = val;
    }

    fn write_long(&mut self, addr: u32, val: u32) {
        self.write_word(addr, (val >> 16) as u16);
        self.write_word(addr + 2, val as u16);
    }
}

fn hex(v: u64, width: usize) -> String {
    let mut s = String::new();
    push_hex(&mut s, v, width);
    s
}

fn bin(v: u64, width: usize) -> String {
    let mut s = String::new();
    push_bin(&mut s, v, width);
    s
}

fn dec(v: u64, width: usize) -> String {
    let mut s = String::new();
    push_dec(&mut s, v, width);
    s
}

#[test]
fn digits_of_every_base() {
    let all: Vec<char> = (0..16u8).map(digit_char).collect();
    let text: String = all.into_iter().collect();
    assert_eq!(text, "0123456789abcdef");
    let mut s = String::from("x");
    push_digits(&mut s, 255, 16, 1);
    assert_eq!(s, "xff");
    let mut s = String::new();
    push_digits(&mut s, 0, 7, 0);
    assert_eq!(s, "0");
    let mut s = String::new();
    push_digits(&mut s, 8, 8, 3);
    assert_eq!(s, "010");
}

#[test]
fn hexadecimal_is_zero_padded_after_the_prefix() {
    assert_eq!(hex(0, 8), "0x00000000");
    assert_eq!(hex(0xDEADBEEF, 8), "0xdeadbeef");
    assert_eq!(hex(0x2FD6, 4), "0x2fd6");
    assert_eq!(hex(0xFFFF_8001, 4), "0xffff8001");
    assert_eq!(hex(0, 1), "0x0");
    assert_eq!(hex(0x1F, 1), "0x1f");
    assert_eq!(hex(u64::MAX, 8), "0xffffffffffffffff");
    for v in [0u32, 1, 0x10, 0xABCDE, 0x8000_0000, u32::MAX] {
        assert_eq!(hex(v as u64, 8), format!("{:#010x}", v));
        assert_eq!(hex(v as u64, 4), format!("{:#06x}", v));
        assert_eq!(hex(v as u64, 1), format!("{:#x}", v));
    }
}

#[test]
fn binary_is_zero_padded_after_the_prefix() {
    assert_eq!(bin(0, 4), "0b0000");
    assert_eq!(bin(0xF, 4), "0b1111");
    assert_eq!(bin(0x22, 8), "0b00100010");
    assert_eq!(bin(0x10, 4), "0b10000");
    for v in 0..=255u32 {
        assert_eq!(bin(v as u64, 4), format!("{:#06b}", v));
        assert_eq!(bin(v as u64, 8), format!("{:#010b}", v));
    }
}

#[test]
fn decimal_numbers() {
    assert_eq!(dec(0, 1), "0");
    assert_eq!(dec(7, 2), "07");
    assert_eq!(dec(15, 2), "15");
    assert_eq!(dec(123, 2), "123");
    assert_eq!(dec(u64::MAX, 1), "18446744073709551615");
    for v in 0..16usize {
        assert_eq!(dec(v as u64, 2), format!("{:#02}", v));
        assert_eq!(dec(v as u64, 1), format!("{}", v));
    }
}

#[test]
fn fields_are_padded_on_the_right() {
    let mut s = String::new();
    push_padded(&mut s, "->", 2);
    push_padded(&mut s, "", 2);
    push_padded(&mut s, "l-3", 5);
    push_padded(&mut s, "l-12345", 5);
    push_padded(&mut s, "", 0);
    assert_eq!(s, "->  l-3  l-12345");
    let mut s = String::new();
    push_truth(&mut s, true, 10);
    push_truth(&mut s, false, 10);
    push_truth(&mut s, true, 0);
    assert_eq!(s, format!("{:<10}{:<10}{:<0}", true, false, true));
    assert_eq!(s, "true      false     true");
}

fn expected_regs_dump(cpu: &Sh2) -> String {
    let r = cpu.get_regs();
    let mut s = String::new();
    for i in 0..2 {
        for j in 0..8 {
            let offset = i * 8 + j;
            s += &format!("  r{:#02}: {:#010x} ", offset, r.gpr[offset]);
        }
        s += "\n";
    }
    s += &format!(
        "\n   pc: {:#010x}   vbr: {:#010x}   gbr: {:#010x}    \
                        pr: {:#010x}  mach: {:#010x}  macl: {:#010x} ",
        r.pc, r.vbr, r.gbr, r.pr, r.mach, r.macl
    );
    s += &format!(
        "\n sr_t: {:<10}  sr_s: {:<10}  sr_q: {:<10}  \
                   sr_m: {:<10}  sr_i: {:#06b}",
        r.sr_t, r.sr_s, r.sr_q, r.sr_m, r.sr_i
    );
    s
}

fn expected_dump(cpu: &Sh2) -> String {
    let (delay, delay_pc) = match cpu.get_delay() {
        Some(t) => (true, t),
        None => (false, 0xdeadbeef),
    };
    format!(
        "{}\
                   \n  cyc: {:#010x}   del: {:<8}  del_pc: {:#010x}",
        expected_regs_dump(cpu),
        cpu.get_cycles(),
        delay,
        delay_pc
    )
}

#[test]
fn register_dump_after_reset() {
    let mut cpu = Sh2::new();
    cpu.reset(0x0000_0100, 0x0100_0000);
    let r = cpu.get_regs();
    let text = r.dump();
    assert_eq!(text, expected_regs_dump(&cpu));
    let lines: Vec<&str> = text.split('\n').collect();
    assert_eq!(lines.len(), 5);
    assert_eq!(
        lines[0],
        "  r00: 0xdeadbeef   r01: 0xdeadbeef   r02: 0xdeadbeef   r03: 0xdeadbeef   \
         r04: 0xdeadbeef   r05: 0xdeadbeef   r06: 0xdeadbeef   r07: 0xdeadbeef "
    );
    assert_eq!(
        lines[1],
        "  r08: 0xdeadbeef   r09: 0xdeadbeef   r10: 0xdeadbeef   r11: 0xdeadbeef   \
         r12: 0xdeadbeef   r13: 0xdeadbeef   r14: 0xdeadbeef   r15: 0x01000000 "
    );
    assert_eq!(lines[2], "");
    assert_eq!(
        lines[3],
        "   pc: 0x00000100   vbr: 0x00000000   gbr: 0xdeadbeef    pr: 0xdeadbeef  \
         mach: 0xdeadbeef  macl: 0xdeadbeef "
    );
    assert!(lines[4].starts_with(" sr_t: "));
    assert!(lines[4].ends_with("  sr_i: 0b1111"));
}

#[test]
fn processor_dump_shows_cycles_and_latch() {
    let mut cpu = Sh2::new();
    cpu.reset(0, 0x40);
    assert_eq!(cpu.dump(), expected_dump(&cpu));
    assert!(cpu.dump().ends_with("\n  cyc: 0x00000000   del: false     del_pc: 0xdeadbeef"));
    // BRA with displacement 2 at address 0
    let mut bus = Words { words: vec![0xA002, 0xE001, 0, 0, 0, 0] };
    assert_eq!(cpu.step(&mut bus), Ok(()));
    assert_eq!(cpu.dump(), expected_dump(&cpu));
    assert!(cpu.dump().ends_with("\n  cyc: 0x00000002   del: true      del_pc: 0x00000008"));
}

#[test]
fn fault_reports() {
    let mut cpu = Sh2::new();
    cpu.reset(0, 0x40);
    let state = cpu.dump();

    let op: u16 = 0xF123;
    let text = cpu.op_most_significant_nibble_unknown(op);
    assert_eq!(
        text,
        format!(
            "\n\ndid not recognize most significant nibble \
                {:#06b} of op {:#06x}\n\nCPU state:\n{}\n\n",
            op >> 12,
            op,
            state
        )
    );
    assert!(text.starts_with("\n\ndid not recognize most significant nibble 0b1111 of op 0xf123\n"));
    assert_eq!(
        cpu.fault_message(Fault { kind: FaultKind::MostSignificantNibble, op }),
        text
    );

    let op: u16 = 0x2123;
    let text = cpu.op_least_significant_nibble_unknown(op);
    assert_eq!(
        text,
        format!(
            "\n\ndid not recognize least significant nibble \
                {:#06b} of op {:#06x} \n\nCPU state:\n{}\n\n",
            op & 0xF,
            op,
            state
        )
    );
    assert_eq!(
        cpu.fault_message(Fault { kind: FaultKind::LeastSignificantNibble, op }),
        text
    );

    let op: u16 = 0x4123;
    let text = cpu.op_least_significant_byte_unknown(op);
    assert_eq!(
        text,
        format!(
            "\n\ndid not recognize least significant byte \
                {:#010b} of op {:#06x} \n\nCPU state:\n{}\n\n",
            op & 0xFF,
            op,
            state
        )
    );
    assert_eq!(
        cpu.fault_message(Fault { kind: FaultKind::LeastSignificantByte, op }),
        text
    );

    let op: u16 = 0x8A00;
    assert_eq!(
        cpu.fault_message(Fault { kind: FaultKind::SecondNibble, op }),
        format!("2nd nibble unknown: {:#06b} of op {:#06x}", (op & 0x0f00) >> 8, op)
    );
    assert_eq!(op_second_nibble_unknown(op), "2nd nibble unknown: 0b1010 of op 0x8a00");
    assert_eq!(
        cpu.fault_message(Fault { kind: FaultKind::Unimplemented, op: 0x412F }),
        "please implement MAC.W @Rm+,@Rn+"
    );
    assert_eq!(op_unimplemented(), "please implement MAC.W @Rm+,@Rn+");
}

#[test]
fn fault_report_of_a_step_shows_the_advanced_program_counter() {
    let mut cpu = Sh2::new();
    cpu.reset(2, 0x40);
    let mut bus = Words { words: vec![0, 0xF000, 0, 0] };
    let fault = cpu.step(&mut bus).unwrap_err();
    assert_eq!(fault, Fault { kind: FaultKind::MostSignificantNibble, op: 0xF000 });
    let text = cpu.fault_message(fault);
    assert!(text.contains("   pc: 0x00000004   vbr: 0x00000000"));
}
