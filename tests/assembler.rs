use c64emu::c64::C64;

#[test]
fn host_program_assembles_and_draws() {
    // LDX #0; loop: INX; INX; STX $b000; NOP; CLC; BCC loop
    let source = "LDX #0\nINX\n\nINX\n\nSTX $b000\nNOP\n\nCLC\n\nBCC -9\n";
    let mut program = Vec::<u8>::new();
    asm6502::assemble(source.as_bytes(), &mut program).unwrap();
    assert_eq!(program, vec![0xa2, 0x00, 0xe8, 0xe8, 0x8e, 0x00, 0xb0, 0xea, 0x18, 0x90, 0xf7]);

    let mut c64 = C64::new();
    c64.load_program(&program, 0).unwrap();
    let mut last = Vec::new();
    for _ in 0..40 {
        last = c64.tick().unwrap();
    }
    assert_eq!(c64.cpu.reg.x % 2, 0);
    assert!(c64.cpu.reg.x >= 4);
    assert_eq!(last.len(), 1);
    assert_eq!(c64.bus.get_byte(0xb000), Ok(last[0].x as u8));
}
