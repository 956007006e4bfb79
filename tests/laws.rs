use c64emu::bus::{Bus, BusDevice};
use c64emu::cpu::{Cpu, CpuError};
use c64emu::ram::Ram;

fn machine(program: &[u8], at: u16) -> (Cpu, Bus) {
    let mut cpu = Cpu::new();
    cpu.pc = at;
    let mut bus = Bus::new();
    let mut ram = Ram::new(0x10000);
    ram.set_memory(program, at).unwrap();
    bus.connect_device(BusDevice::Ram(ram), 0, 0xffff);
    (cpu, bus)
}

fn run_instructions(cpu: &mut Cpu, bus: &mut Bus, n: usize) {
    for _ in 0..n {
        cpu.tick(bus).unwrap();
        while cpu.cycle_left > 0 {
            cpu.tick(bus).unwrap();
        }
    }
}

#[test]
fn registers_wrap_within_their_width() {
    // INX; DEY
    let (mut cpu, mut bus) = machine(&[0xe8, 0x88], 0);
    cpu.reg.x = 0xff;
    cpu.reg.y = 0x00;
    run_instructions(&mut cpu, &mut bus, 2);
    assert_eq!(cpu.reg.x, 0x00);
    assert_eq!(cpu.reg.y, 0xff);
    assert!(cpu.flags.negative());
    // NOP at the top of memory: PC wraps to zero
    let (mut cpu, mut bus) = machine(&[0xea], 0xffff);
    cpu.tick(&mut bus).unwrap();
    assert_eq!(cpu.pc, 0x0000);
}

#[test]
fn nz_follow_the_result() {
    // LDA #$80; TAX; LDY #$00
    let (mut cpu, mut bus) = machine(&[0xa9, 0x80, 0xaa, 0xa0, 0x00], 0);
    run_instructions(&mut cpu, &mut bus, 2);
    assert!(cpu.flags.negative());
    assert!(!cpu.flags.zero());
    run_instructions(&mut cpu, &mut bus, 1);
    assert!(!cpu.flags.negative());
    assert!(cpu.flags.zero());
}

#[test]
fn adc_and_sbc_of_complement_agree() {
    for (a, m, carry) in [(0x50u8, 0x10u8, true), (0x3f, 0x40, false), (0xff, 0x01, true), (0x00, 0x80, false)] {
        // ADC #m
        let (mut c1, mut b1) = machine(&[0x69, m], 0);
        // SBC #!m
        let (mut c2, mut b2) = machine(&[0xe9, !m], 0);
        for c in [&mut c1, &mut c2] {
            c.reg.a = a;
            c.flags.set_carry(carry);
        }
        c1.tick(&mut b1).unwrap();
        c2.tick(&mut b2).unwrap();
        assert_eq!(c1.reg.a, c2.reg.a);
        assert_eq!(c1.flags, c2.flags);
    }
}

#[test]
fn pha_then_pla_restores_a() {
    // PHA; PLA
    let (mut cpu, mut bus) = machine(&[0x48, 0x68], 0);
    cpu.reg.a = 0x37;
    let before = cpu;
    run_instructions(&mut cpu, &mut bus, 1);
    cpu.reg.a = 0;
    run_instructions(&mut cpu, &mut bus, 1);
    assert_eq!(cpu.reg.a, 0x37);
    assert_eq!(cpu.sp, before.sp);
}

#[test]
fn php_then_plp_restores_status() {
    // PHP; CLC; CLV; PLP
    let (mut cpu, mut bus) = machine(&[0x08, 0x18, 0xb8, 0x28], 0);
    cpu.flags.set_register(0b1110_0011);
    run_instructions(&mut cpu, &mut bus, 4);
    assert_eq!(cpu.flags.get_register(), 0b1110_0011);
    assert_eq!(cpu.sp, 0xff);
}

#[test]
fn taken_branch_costs_one_more_and_two_across_a_page() {
    // BNE +2, not crossing: 2 + 1 cycles
    let (mut cpu, mut bus) = machine(&[0xd0, 0x02], 0x1000);
    cpu.tick(&mut bus).unwrap();
    assert_eq!(cpu.pc, 0x1004);
    assert_eq!(cpu.cycle_left, 2);
    // BNE +2 at the end of a page: 2 + 2 cycles
    let (mut cpu, mut bus) = machine(&[0xd0, 0x02], 0x10fd);
    cpu.tick(&mut bus).unwrap();
    assert_eq!(cpu.pc, 0x1101);
    assert_eq!(cpu.cycle_left, 3);
    // not taken, even where the target would cross: base cost only
    let (mut cpu, mut bus) = machine(&[0xd0, 0x02], 0x10fd);
    cpu.flags.set_zero(true);
    cpu.tick(&mut bus).unwrap();
    assert_eq!(cpu.pc, 0x10ff);
    assert_eq!(cpu.cycle_left, 1);
}

#[test]
fn branch_backwards_uses_signed_offset() {
    // BCC -4
    let (mut cpu, mut bus) = machine(&[0x90, 0xfc], 0x2000);
    cpu.tick(&mut bus).unwrap();
    assert_eq!(cpu.pc, 0x1ffe);
}

#[test]
fn zero_page_x_wraps_within_zero_page() {
    // LDA $ff,X
    let (mut cpu, mut bus) = machine(&[0xb5, 0xff], 0x0200);
    cpu.reg.x = 2;
    bus.set_byte(0x77, 0x0001);
    bus.set_byte(0x11, 0x0101);
    cpu.tick(&mut bus).unwrap();
    assert_eq!(cpu.reg.a, 0x77);
}

#[test]
fn cmp_negative_from_eight_bit_difference() {
    // CMP #$20
    let (mut cpu, mut bus) = machine(&[0xc9, 0x20], 0);
    cpu.reg.a = 0x10;
    cpu.tick(&mut bus).unwrap();
    assert!(!cpu.flags.carry());
    assert!(!cpu.flags.zero());
    assert!(cpu.flags.negative());
}

#[test]
fn unknown_opcode_is_reported() {
    let (mut cpu, mut bus) = machine(&[0x02], 0);
    let before = cpu;
    assert_eq!(cpu.tick(&mut bus), Err(CpuError::UnknownOpcode(0x02)));
    assert_eq!(cpu, before);
}

#[test]
fn unmapped_fetch_is_reported() {
    let mut cpu = Cpu::new();
    let mut bus = Bus::new();
    assert_eq!(cpu.tick(&mut bus), Err(CpuError::UnmappedRead(0)));
    assert_eq!(cpu.run_until_brk(&mut bus), Err(CpuError::UnmappedRead(0)));
}

#[test]
fn brk_jumps_even_with_interrupts_disabled() {
    // BRK
    let (mut cpu, mut bus) = machine(&[0x00], 0x0200);
    bus.set_byte(0x00, 0xfffe);
    bus.set_byte(0x30, 0xffff);
    cpu.flags.set_interrupt_disabled(true);
    cpu.tick(&mut bus).unwrap();
    assert!(cpu.flags.break_cmd());
    assert_eq!(cpu.pc, 0x3000);
    assert_eq!(cpu.sp, 0xfc);
    assert_eq!(bus.get_byte(0x01fd), Ok(0x14));
}

#[test]
fn brk_pushes_pc_and_status_and_jumps() {
    // BRK
    let (mut cpu, mut bus) = machine(&[0x00], 0x0300);
    bus.set_byte(0x00, 0xfffe);
    bus.set_byte(0x40, 0xffff);
    cpu.tick(&mut bus).unwrap();
    assert_eq!(cpu.pc, 0x4000);
    assert_eq!(bus.get_byte(0x01ff), Ok(0x03));
    assert_eq!(bus.get_byte(0x01fe), Ok(0x01));
    assert_eq!(bus.get_byte(0x01fd), Ok(0x10));
    assert!(cpu.flags.interrupt_disabled());
    assert!(cpu.flags.break_cmd());
    assert_eq!(cpu.sp, 0xfc);
    assert_eq!(cpu.cycle_left, 6);
}

#[test]
fn reset_loads_pc_from_vector() {
    let (mut cpu, mut bus) = machine(&[], 0);
    bus.set_byte(0x34, 0xfffc);
    bus.set_byte(0x12, 0xfffd);
    cpu.reg.a = 9;
    cpu.sp = 3;
    cpu.reset(&bus).unwrap();
    assert_eq!(cpu.pc, 0x1234);
    assert_eq!(cpu.reg.a, 0);
    assert_eq!(cpu.sp, 0xff);
    assert_eq!(cpu.flags.get_register(), 0);
}

#[test]
fn nmi_pushes_and_jumps_through_its_vector() {
    let (mut cpu, mut bus) = machine(&[], 0);
    bus.set_byte(0x00, 0xfffa);
    bus.set_byte(0x50, 0xfffb);
    cpu.pc = 0x1234;
    cpu.flags.set_register(0x81);
    cpu.nmi(&mut bus).unwrap();
    assert_eq!(cpu.pc, 0x5000);
    assert_eq!(bus.get_byte(0x01ff), Ok(0x12));
    assert_eq!(bus.get_byte(0x01fe), Ok(0x34));
    assert_eq!(bus.get_byte(0x01fd), Ok(0x81));
    assert_eq!(cpu.sp, 0xfc);
}

#[test]
fn rti_does_not_add_one() {
    // RTI
    let (mut cpu, mut bus) = machine(&[0x40], 0);
    bus.set_byte(0xc3, 0x01fd);
    bus.set_byte(0x78, 0x01fe);
    bus.set_byte(0x56, 0x01ff);
    cpu.sp = 0xfc;
    cpu.tick(&mut bus).unwrap();
    assert_eq!(cpu.pc, 0x5678);
    assert_eq!(cpu.flags.get_register(), 0xc3);
    assert_eq!(cpu.sp, 0xff);
}

#[test]
fn indirect_y_page_cross_costs_a_cycle() {
    // LDA ($10),Y
    let (mut cpu, mut bus) = machine(&[0xb1, 0x10], 0);
    bus.set_byte(0xff, 0x0010);
    bus.set_byte(0x20, 0x0011);
    bus.set_byte(0x99, 0x2100);
    cpu.reg.y = 1;
    cpu.tick(&mut bus).unwrap();
    assert_eq!(cpu.reg.a, 0x99);
    assert_eq!(cpu.cycle_left, 5);
}

#[test]
fn store_with_index_pays_no_penalty() {
    // STA $10FF,X
    let (mut cpu, mut bus) = machine(&[0x9d, 0xff, 0x10], 0);
    cpu.reg.x = 1;
    cpu.reg.a = 4;
    cpu.tick(&mut bus).unwrap();
    assert_eq!(bus.get_byte(0x1100), Ok(4));
    assert_eq!(cpu.cycle_left, 4);
}

#[test]
fn stack_push_then_pull_round_trip() {
    let (mut cpu, mut bus) = machine(&[], 0);
    cpu.sp = 0x00;
    cpu.write_u8_to_stack(&mut bus, 0x9c);
    assert_eq!(cpu.sp, 0xff);
    assert_eq!(bus.get_byte(0x0100), Ok(0x9c));
    assert_eq!(cpu.read_u8_from_stack(&bus), Ok(0x9c));
    assert_eq!(cpu.sp, 0x00);
}
