use vstd::prelude::*;
use crate::bus::{bus_read, bus_write, Bus, BusError, ConnModel};
use crate::flags::{with_bits, with_nz, Flags, BRK_BIT, CARRY_BIT, DEC_BIT, INT_BIT, NEG_BIT, OVERFLOW_BIT, ZERO_BIT};
use crate::ops_lookup::{decode, opcode_entry, AddressMode, Code, OpDescription};

verus! {

/// Where the program counter is read from on reset.
pub const START_PC: u16 = 0xfffc;
/// Where the program counter is read from on a non-maskable interrupt.
pub const NMI_PC: u16 = 0xfffa;
/// Where the program counter is read from on BRK.
pub const INTERRUPT_PC: u16 = 0xfffe;

/// Why an instruction could not run.
#[derive(Clone, Copy, PartialEq, Eq, Debug, Structural)]
pub enum CpuError {
    /// A read of an address that no device answers.
    UnmappedRead(u16),
    /// An opcode byte that the table does not assign.
    UnknownOpcode(u8),
    /// The run loop ticked as often as its counter can count.
    TickLimit,
}

/// A bus read, with the bus's error as the processor reports it.
pub open spec fn rd(m: Seq<ConnModel>, a: u16) -> Result<u8, CpuError> {
    match bus_read(m, a) {
        Ok(v) => Ok(v),
        Err(BusError::UnmappedAddress(x)) => Err(CpuError::UnmappedRead(x)),
    }
}

/// The word whose high byte is `hi` and low byte `lo`.
pub open spec fn word(hi: u8, lo: u8) -> u16 {
    (hi as u16 * 256 + lo as u16) as u16
}

/// The general-purpose registers.
#[derive(Clone, Copy, PartialEq, Eq, Debug, Structural)]
pub struct Registers {
    pub a: u8,
    pub x: u8,
    pub y: u8,
}

/// The processor: registers, status, program counter, stack pointer (the
/// stack lives at `0x0100 | sp`) and the cycles still owed by the last instruction.
#[derive(Clone, Copy, PartialEq, Eq, Debug, Structural)]
pub struct Cpu {
    pub reg: Registers,
    pub flags: Flags,
    pub pc: u16,
    pub sp: u8,
    pub cycle_left: u8,
}

/// The low byte of a word.
pub open spec fn lo_byte(w: u16) -> u8 {
    (w % 256) as u8
}

/// The high byte of a word.
pub open spec fn hi_byte(w: u16) -> u8 {
    (w / 256) as u8
}

/// The little-endian word at `a` and the address after it (wrapping).
pub open spec fn rd16(m: Seq<ConnModel>, a: u16) -> Result<u16, CpuError> {
    match rd(m, a) {
        Err(e) => Err(e),
        Ok(lo) => match rd(m, a.wrapping_add(1)) {
            Err(e) => Err(e),
            Ok(hi) => Ok(word(hi, lo)),
        },
    }
}

/// The page number of an address, kept in place.
pub open spec fn page(a: u16) -> u16 {
    a & 0xff00
}

/// A branch displacement widened to sixteen bits in two's complement.
pub open spec fn widen(o: u8) -> u16 {
    if o < 0x80 {
        o as u16
    } else {
        (o + 0xff00) as u16
    }
}

/// `base` indexed by `i`, and whether that left the page of `base`.
pub open spec fn indexed(base: u16, i: u8) -> (u16, bool) {
    (base.wrapping_add(i as u16), page(base) != page(base.wrapping_add(i as u16)))
}

/// The address of the high byte of an indirect jump target: the next byte
/// within the same page, as the hardware fetches it.
pub open spec fn same_page_next(ptr: u16) -> u16 {
    word(hi_byte(ptr), lo_byte(ptr).wrapping_add(1))
}

/// The effective address of instruction `d` at `c.pc`, and whether forming it
/// crossed a page.
pub open spec fn operand_address(c: Cpu, m: Seq<ConnModel>, d: OpDescription) -> Result<(u16, bool), CpuError> {
    let pc1 = c.pc.wrapping_add(1);
    match d.mode {
        AddressMode::Immediate => Ok((pc1, false)),
        AddressMode::ZeroPage => match rd(m, pc1) {
            Err(e) => Err(e),
            Ok(z) => Ok((z as u16, false)),
        },
        AddressMode::ZeroPageX => match rd(m, pc1) {
            Err(e) => Err(e),
            Ok(z) => Ok((z.wrapping_add(c.reg.x) as u16, false)),
        },
        AddressMode::ZeroPageY => match rd(m, pc1) {
            Err(e) => Err(e),
            Ok(z) => Ok((z.wrapping_add(c.reg.y) as u16, false)),
        },
        AddressMode::Absolute => match rd16(m, pc1) {
            Err(e) => Err(e),
            Ok(w) => Ok((w, false)),
        },
        AddressMode::AbsoluteX => match rd16(m, pc1) {
            Err(e) => Err(e),
            Ok(b) => Ok(indexed(b, c.reg.x)),
        },
        AddressMode::AbsoluteY => match rd16(m, pc1) {
            Err(e) => Err(e),
            Ok(b) => Ok(indexed(b, c.reg.y)),
        },
        AddressMode::Indirect => match rd16(m, pc1) {
            Err(e) => Err(e),
            Ok(ptr) => match rd(m, ptr) {
                Err(e) => Err(e),
                Ok(lo) => match rd(m, same_page_next(ptr)) {
                    Err(e) => Err(e),
                    Ok(hi) => Ok((word(hi, lo), false)),
                },
            },
        },
        AddressMode::IndirectX => match rd(m, pc1) {
            Err(e) => Err(e),
            Ok(z) => match rd(m, z.wrapping_add(c.reg.x) as u16) {
                Err(e) => Err(e),
                Ok(lo) => match rd(m, z.wrapping_add(c.reg.x).wrapping_add(1) as u16) {
                    Err(e) => Err(e),
                    Ok(hi) => Ok((word(hi, lo), false)),
                },
            },
        },
        AddressMode::IndirectY => match rd(m, pc1) {
            Err(e) => Err(e),
            Ok(z) => match rd16(m, z as u16) {
                Err(e) => Err(e),
                Ok(b) => Ok(indexed(b, c.reg.y)),
            },
        },
        AddressMode::Relative => match rd(m, pc1) {
            Err(e) => Err(e),
            Ok(o) => {
                let t = c.pc.wrapping_add(d.instruction_bytes as u16).wrapping_add(widen(o));
                Ok((t, page(c.pc) != page(t)))
            },
        },
        AddressMode::Implied | AddressMode::Accumulator => Ok((0, false)),
    }
}

/// `c` with A replaced; likewise the five functions below for X, Y, the
/// status byte, PC and SP.
pub open spec fn with_a(c: Cpu, v: u8) -> Cpu {
    Cpu { reg: Registers { a: v, x: c.reg.x, y: c.reg.y }, ..c }
}

pub open spec fn with_x(c: Cpu, v: u8) -> Cpu {
    Cpu { reg: Registers { a: c.reg.a, x: v, y: c.reg.y }, ..c }
}

pub open spec fn with_y(c: Cpu, v: u8) -> Cpu {
    Cpu { reg: Registers { a: c.reg.a, x: c.reg.x, y: v }, ..c }
}

pub open spec fn with_p(c: Cpu, p: u8) -> Cpu {
    Cpu { flags: Flags { register: p }, ..c }
}

pub open spec fn with_pc(c: Cpu, pc: u16) -> Cpu {
    Cpu { pc, ..c }
}

pub open spec fn with_sp(c: Cpu, sp: u8) -> Cpu {
    Cpu { sp, ..c }
}

/// N and Z taken from `v`.
pub open spec fn nz(c: Cpu, v: u8) -> Cpu {
    with_p(c, with_nz(c.flags.register, v))
}

/// The flag bits of `mask` set or cleared.
pub open spec fn setf(c: Cpu, mask: u8, on: bool) -> Cpu {
    with_p(c, with_bits(c.flags.register, mask, on))
}

/// Whether any flag of `mask` is set.
pub open spec fn flag(c: Cpu, mask: u8) -> bool {
    c.flags.register & mask != 0
}

/// The address of stack slot `sp`, in page one.
pub open spec fn stack_addr(sp: u8) -> u16 {
    (0x0100 + sp) as u16
}

/// A push: the byte goes to the stack slot, then SP moves down (wrapping).
pub open spec fn push(c: Cpu, m: Seq<ConnModel>, v: u8) -> (Cpu, Seq<ConnModel>) {
    (with_sp(c, c.sp.wrapping_sub(1)), bus_write(m, stack_addr(c.sp), v))
}

/// A pull: SP moves up (wrapping), then the byte of that slot is read.
pub open spec fn pull(c: Cpu, m: Seq<ConnModel>) -> Result<(Cpu, u8), CpuError> {
    match rd(m, stack_addr(c.sp.wrapping_add(1))) {
        Err(e) => Err(e),
        Ok(v) => Ok((with_sp(c, c.sp.wrapping_add(1)), v)),
    }
}

/// A two-byte push: high byte first, then low byte.
pub open spec fn push_word(c: Cpu, m: Seq<ConnModel>, w: u16) -> (Cpu, Seq<ConnModel>) {
    let (c1, m1) = push(c, m, hi_byte(w));
    push(c1, m1, lo_byte(w))
}

/// A two-byte pull: low byte first, then high byte.
pub open spec fn pull_word(c: Cpu, m: Seq<ConnModel>) -> Result<(Cpu, u16), CpuError> {
    match pull(c, m) {
        Err(e) => Err(e),
        Ok((c1, lo)) => match pull(c1, m) {
            Err(e) => Err(e),
            Ok((c2, hi)) => Ok((c2, word(hi, lo))),
        },
    }
}

/// Add with carry; decimal mode plays no part.
pub open spec fn adc(c: Cpu, v: u8) -> Cpu {
    let sum = c.reg.a + v + (if flag(c, CARRY_BIT) { 1int } else { 0int });
    let res = (sum % 256) as u8;
    let c1 = setf(c, CARRY_BIT, sum > 255);
    let c2 = setf(c1, OVERFLOW_BIT, (c.reg.a ^ res) & (v ^ res) & 0x80 != 0);
    nz(with_a(c2, res), res)
}

/// Subtract with borrow: add with carry of the one's complement.
pub open spec fn sbc(c: Cpu, v: u8) -> Cpu {
    adc(c, !v)
}

/// A compare of `r` with `v`: C for `r >= v`, Z for equality, N from the
/// eight-bit difference.
pub open spec fn compare(c: Cpu, r: u8, v: u8) -> Cpu {
    let c1 = setf(c, CARRY_BIT, r >= v);
    let c2 = setf(c1, ZERO_BIT, r == v);
    setf(c2, NEG_BIT, r.wrapping_sub(v) & 0x80 != 0)
}

/// BIT: Z from `A & v`, N and V copied from bits 7 and 6 of `v`.
pub open spec fn bit_test(c: Cpu, v: u8) -> Cpu {
    let c1 = setf(c, ZERO_BIT, c.reg.a & v == 0);
    let c2 = setf(c1, NEG_BIT, v & 0x80 != 0);
    setf(c2, OVERFLOW_BIT, v & 0x40 != 0)
}

/// A conditional branch to `addr`; the flag tells whether it was taken.
pub open spec fn branch(c: Cpu, m: Seq<ConnModel>, cond: bool, addr: u16) -> Result<(Cpu, Seq<ConnModel>, bool), CpuError> {
    if cond {
        Ok((with_pc(c, addr), m, true))
    } else {
        Ok((c, m, false))
    }
}

/// The shifted value and the carry out, for a shift or rotate whose carry in is `cin`.
pub open spec fn shifted(code: Code, v: u8, cin: bool) -> (u8, bool) {
    match code {
        Code::ASL => (v << 1u8, v & 0x80 != 0),
        Code::LSR => (v >> 1u8, v & 0x01 != 0),
        Code::ROL => ((v << 1u8) | (if cin { 1u8 } else { 0u8 }), v & 0x80 != 0),
        _ => ((v >> 1u8) | (if cin { 0x80u8 } else { 0u8 }), v & 0x01 != 0),
    }
}

/// A shift or rotate of the accumulator or of memory.
pub open spec fn shift(c: Cpu, m: Seq<ConnModel>, d: OpDescription, addr: u16) -> Result<(Cpu, Seq<ConnModel>, bool), CpuError> {
    let src = if d.mode == AddressMode::Accumulator { Ok(c.reg.a) } else { rd(m, addr) };
    match src {
        Err(e) => Err(e),
        Ok(v) => {
            let (res, cout) = shifted(d.code, v, flag(c, CARRY_BIT));
            let c1 = nz(setf(c, CARRY_BIT, cout), res);
            if d.mode == AddressMode::Accumulator {
                Ok((with_a(c1, res), m, false))
            } else {
                Ok((c1, bus_write(m, addr, res), false))
            }
        },
    }
}

/// A read-modify-write of memory that adds or takes one (wrapping).
pub open spec fn step_memory(c: Cpu, m: Seq<ConnModel>, addr: u16, up: bool) -> Result<(Cpu, Seq<ConnModel>, bool), CpuError> {
    match rd(m, addr) {
        Err(e) => Err(e),
        Ok(v) => {
            let r = if up { v.wrapping_add(1) } else { v.wrapping_sub(1) };
            Ok((nz(c, r), bus_write(m, addr, r), false))
        },
    }
}

/// An instruction that reads its operand and changes registers and flags only.
pub open spec fn read_op(c: Cpu, m: Seq<ConnModel>, addr: u16, which: Code) -> Result<(Cpu, Seq<ConnModel>, bool), CpuError> {
    match rd(m, addr) {
        Err(e) => Err(e),
        Ok(v) => Ok((
            match which {
                Code::LDA => nz(with_a(c, v), v),
                Code::LDX => nz(with_x(c, v), v),
                Code::LDY => nz(with_y(c, v), v),
                Code::AND => nz(with_a(c, c.reg.a & v), c.reg.a & v),
                Code::EOR => nz(with_a(c, c.reg.a ^ v), c.reg.a ^ v),
                Code::ORA => nz(with_a(c, c.reg.a | v), c.reg.a | v),
                Code::BIT => bit_test(c, v),
                Code::CMP => compare(c, c.reg.a, v),
                Code::CPX => compare(c, c.reg.x, v),
                Code::CPY => compare(c, c.reg.y, v),
                Code::ADC => adc(c, v),
                _ => sbc(c, v),
            },
            m,
            false,
        )),
    }
}

/// What executing `d` with effective address `addr` does, the program
/// counter having already moved past the instruction; the flag tells whether
/// a branch was taken.
pub open spec fn execute(c: Cpu, m: Seq<ConnModel>, d: OpDescription, addr: u16) -> Result<(Cpu, Seq<ConnModel>, bool), CpuError> {
    match d.code {
        Code::LDA | Code::LDX | Code::LDY | Code::AND | Code::EOR | Code::ORA | Code::BIT
        | Code::CMP | Code::CPX | Code::CPY | Code::ADC | Code::SBC => read_op(c, m, addr, d.code),
        Code::STA => Ok((c, bus_write(m, addr, c.reg.a), false)),
        Code::STX => Ok((c, bus_write(m, addr, c.reg.x), false)),
        Code::STY => Ok((c, bus_write(m, addr, c.reg.y), false)),
        Code::TAX => Ok((nz(with_x(c, c.reg.a), c.reg.a), m, false)),
        Code::TXA => Ok((nz(with_a(c, c.reg.x), c.reg.x), m, false)),
        Code::TAY => Ok((nz(with_y(c, c.reg.a), c.reg.a), m, false)),
        Code::TYA => Ok((nz(with_a(c, c.reg.y), c.reg.y), m, false)),
        Code::TSX => Ok((nz(with_x(c, c.sp), c.sp), m, false)),
        Code::TXS => Ok((with_sp(c, c.reg.x), m, false)),
        Code::INC => step_memory(c, m, addr, true),
        Code::DEC => step_memory(c, m, addr, false),
        Code::INX => Ok((nz(with_x(c, c.reg.x.wrapping_add(1)), c.reg.x.wrapping_add(1)), m, false)),
        Code::INY => Ok((nz(with_y(c, c.reg.y.wrapping_add(1)), c.reg.y.wrapping_add(1)), m, false)),
        Code::DEX => Ok((nz(with_x(c, c.reg.x.wrapping_sub(1)), c.reg.x.wrapping_sub(1)), m, false)),
        Code::DEY => Ok((nz(with_y(c, c.reg.y.wrapping_sub(1)), c.reg.y.wrapping_sub(1)), m, false)),
        Code::CLC => Ok((setf(c, CARRY_BIT, false), m, false)),
        Code::CLD => Ok((setf(c, DEC_BIT, false), m, false)),
        Code::CLI => Ok((setf(c, INT_BIT, false), m, false)),
        Code::CLV => Ok((setf(c, OVERFLOW_BIT, false), m, false)),
        Code::SEC => Ok((setf(c, CARRY_BIT, true), m, false)),
        Code::SED => Ok((setf(c, DEC_BIT, true), m, false)),
        Code::SEI => Ok((setf(c, INT_BIT, true), m, false)),
        Code::BCC => branch(c, m, !flag(c, CARRY_BIT), addr),
        Code::BCS => branch(c, m, flag(c, CARRY_BIT), addr),
        Code::BEQ => branch(c, m, flag(c, ZERO_BIT), addr),
        Code::BMI => branch(c, m, flag(c, NEG_BIT), addr),
        Code::BNE => branch(c, m, !flag(c, ZERO_BIT), addr),
        Code::BPL => branch(c, m, !flag(c, NEG_BIT), addr),
        Code::BVC => branch(c, m, !flag(c, OVERFLOW_BIT), addr),
        Code::BVS => branch(c, m, flag(c, OVERFLOW_BIT), addr),
        Code::ASL | Code::LSR | Code::ROL | Code::ROR => shift(c, m, d, addr),
        Code::PHA => {
            let (c1, m1) = push(c, m, c.reg.a);
            Ok((c1, m1, false))
        },
        Code::PHP => {
            let (c1, m1) = push(c, m, c.flags.register);
            Ok((c1, m1, false))
        },
        Code::PLA => match pull(c, m) {
            Err(e) => Err(e),
            Ok((c1, v)) => Ok((with_a(c1, v), m, false)),
        },
        Code::PLP => match pull(c, m) {
            Err(e) => Err(e),
            Ok((c1, v)) => Ok((with_p(c1, v), m, false)),
        },
        Code::JSR => {
            let (c1, m1) = push_word(c, m, c.pc.wrapping_sub(1));
            Ok((with_pc(c1, addr), m1, false))
        },
        Code::RTS => match pull_word(c, m) {
            Err(e) => Err(e),
            Ok((c1, w)) => Ok((with_pc(c1, w.wrapping_add(1)), m, false)),
        },
        Code::JMP => Ok((with_pc(c, addr), m, false)),
        Code::RTI => match pull(c, m) {
            Err(e) => Err(e),
            Ok((c1, p)) => match pull_word(with_p(c1, p), m) {
                Err(e) => Err(e),
                Ok((c2, w)) => Ok((with_pc(c2, w), m, false)),
            },
        },
        Code::BRK => match rd16(m, INTERRUPT_PC) {
            Err(e) => Err(e),
            Ok(target) => {
                let (c1, m1) = push_word(setf(c, BRK_BIT, true), m, c.pc);
                let (c2, m2) = push(c1, m1, c1.flags.register);
                Ok((with_pc(setf(c2, INT_BIT, true), target), m2, false))
            },
        },
        Code::NOP => Ok((c, m, false)),
    }
}

/// The state after `n` ticks, or the first error on the way.
pub open spec fn run(c: Cpu, m: Seq<ConnModel>, n: nat) -> Result<(Cpu, Seq<ConnModel>), CpuError>
    decreases n,
{
    if n == 0 {
        Ok((c, m))
    } else {
        match run(c, m, (n - 1) as nat) {
            Err(e) => Err(e),
            Ok((c1, m1)) => step(c1, m1),
        }
    }
}

/// The power-on register state with the program counter at `pc`.
pub open spec fn reset_state(pc: u16) -> Cpu {
    Cpu { reg: Registers { a: 0, x: 0, y: 0 }, flags: Flags { register: 0 }, pc, sp: 0xff, cycle_left: 0 }
}

/// A non-maskable interrupt: push PC and the status, then jump through the
/// vector at `NMI_PC`.
pub open spec fn interrupt(c: Cpu, m: Seq<ConnModel>) -> Result<(Cpu, Seq<ConnModel>), CpuError> {
    match rd16(m, NMI_PC) {
        Err(e) => Err(e),
        Ok(target) => {
            let (c1, m1) = push_word(c, m, c.pc);
            let (c2, m2) = push(c1, m1, c1.flags.register);
            Ok((with_pc(c2, target), m2))
        },
    }
}

/// Whether the instruction is a conditional branch.
pub open spec fn is_branch(code: Code) -> bool {
    code == Code::BCC || code == Code::BCS || code == Code::BEQ || code == Code::BMI
        || code == Code::BNE || code == Code::BPL || code == Code::BVC || code == Code::BVS
}

/// Cycles charged beyond the base count: one for a taken branch, one for a
/// page crossed on an opcode that pays for it (never for an untaken branch).
pub open spec fn extra_cycles(d: OpDescription, taken: bool, crossed: bool) -> int {
    (if taken { 1int } else { 0int }) + (if crossed && d.page_boundary_cycle && (taken || !is_branch(d.code)) {
        1int
    } else {
        0int
    })
}

/// The cycles still owed once the tick that ran `d` is counted.
pub open spec fn cycles_after(d: OpDescription, taken: bool, crossed: bool) -> u8 {
    (d.cycles - 1 + extra_cycles(d, taken, crossed)) as u8
}

/// One tick: pay off an owed cycle, or fetch, decode and run the next
/// instruction and charge its cycles.
pub open spec fn step(c: Cpu, m: Seq<ConnModel>) -> Result<(Cpu, Seq<ConnModel>), CpuError> {
    if c.cycle_left > 0 {
        Ok((Cpu { cycle_left: (c.cycle_left - 1) as u8, ..c }, m))
    } else {
        match rd(m, c.pc) {
            Err(e) => Err(e),
            Ok(op) => match opcode_entry(op) {
                None => Err(CpuError::UnknownOpcode(op)),
                Some(d) => match operand_address(c, m, d) {
                    Err(e) => Err(e),
                    Ok((addr, crossed)) => match execute(with_pc(c, c.pc.wrapping_add(d.instruction_bytes as u16)), m, d, addr) {
                        Err(e) => Err(e),
                        Ok((c2, m2, taken)) => Ok((Cpu { cycle_left: cycles_after(d, taken, crossed), ..c2 }, m2)),
                    },
                },
            },
        }
    }
}

/// Whether the instruction reads its operand and changes registers and flags only.
pub open spec fn is_read_op(code: Code) -> bool {
    code == Code::LDA || code == Code::LDX || code == Code::LDY || code == Code::AND
        || code == Code::EOR || code == Code::ORA || code == Code::BIT || code == Code::CMP
        || code == Code::CPX || code == Code::CPY || code == Code::ADC || code == Code::SBC
}

/// Whether the instruction is a shift or rotate.
pub open spec fn is_shift(code: Code) -> bool {
    code == Code::ASL || code == Code::LSR || code == Code::ROL || code == Code::ROR
}

fn read(bus: &Bus, a: u16) -> (r: Result<u8, CpuError>)
    requires
        bus.wf(),
    ensures
        r == rd(bus@, a),
{
    match bus.get_byte(a) {
        Ok(v) => Ok(v),
        Err(BusError::UnmappedAddress(x)) => Err(CpuError::UnmappedRead(x)),
    }
}

fn is_branch_code(code: Code) -> (r: bool)
    ensures
        r == is_branch(code),
{
    match code {
        Code::BCC | Code::BCS | Code::BEQ | Code::BMI | Code::BNE | Code::BPL | Code::BVC | Code::BVS => true,
        _ => false,
    }
}

fn merge_bytes(hi: u8, lo: u8) -> (r: u16)
    ensures
        r == word(hi, lo),
{
    (hi as u16) * 256 + lo as u16
}

fn read16(bus: &Bus, a: u16) -> (r: Result<u16, CpuError>)
    requires
        bus.wf(),
    ensures
        r == rd16(bus@, a),
{
    let lo = read(bus, a)?;
    let hi = read(bus, a.wrapping_add(1))?;
    Ok(merge_bytes(hi, lo))
}

fn index_address(base: u16, i: u8) -> (r: (u16, bool))
    ensures
        r == indexed(base, i),
{
    let addr = base.wrapping_add(i as u16);
    (addr, (base & 0xff00) != (addr & 0xff00))
}

fn widen_offset(o: u8) -> (r: u16)
    ensures
        r == widen(o),
{
    if o < 0x80 {
        o as u16
    } else {
        o as u16 + 0xff00
    }
}

impl Cpu {
    /// The power-on state: registers and status clear, SP at 0xFF, PC at zero.
    pub fn new() -> (r: Self)
        ensures
            r == reset_state(0),
    {
        Cpu { reg: Registers { a: 0, x: 0, y: 0 }, flags: Flags::new(0u8), pc: 0x0000, sp: 0xff, cycle_left: 0 }
    }

    /// Clears the registers and status, sets SP to 0xFF and loads PC from the
    /// reset vector. On an error nothing changes.
    pub fn reset(&mut self, bus: &Bus) -> (r: Result<(), CpuError>)
        requires
            bus.wf(),
        ensures
            match rd16(bus@, START_PC) {
                Ok(pc) => r is Ok && *final(self) == reset_state(pc),
                Err(e) => r == Err::<(), CpuError>(e) && *final(self) == *old(self),
            },
    {
        let pc = read16(bus, START_PC)?;
        self.reg = Registers { a: 0, x: 0, y: 0 };
        self.flags = Flags::new(0u8);
        self.sp = 0xff;
        self.cycle_left = 0;
        self.pc = pc;
        Ok(())
    }

    /// Takes a non-maskable interrupt. On an error nothing changes.
    pub fn nmi(&mut self, bus: &mut Bus) -> (r: Result<(), CpuError>)
        requires
            old(bus).wf(),
        ensures
            final(bus).wf(),
            match interrupt(*old(self), old(bus)@) {
                Ok((c, m)) => r is Ok && *final(self) == c && final(bus)@ == m,
                Err(e) => r == Err::<(), CpuError>(e) && *final(self) == *old(self) && final(bus)@ == old(bus)@,
            },
    {
        let target = read16(bus, NMI_PC)?;
        let pc = self.pc;
        self.write_u16_to_stack(bus, pc);
        let p = self.flags.get_register();
        self.write_u8_to_stack(bus, p);
        self.pc = target;
        Ok(())
    }

    /// Ticks until the break flag is set. Stops early on the first error, or
    /// when the tick counter would overflow.
    pub fn run_until_brk(&mut self, bus: &mut Bus) -> (r: Result<(), CpuError>)
        requires
            old(bus).wf(),
        ensures
            final(bus).wf(),
            exists|n: nat|
                run(*old(self), old(bus)@, n) == Ok::<(Cpu, Seq<ConnModel>), CpuError>((*final(self), final(bus)@))
                && forall|k: nat| k < n ==> {
                    let s = #[trigger] run(*old(self), old(bus)@, k);
                    s is Ok && !flag(s->Ok_0.0, BRK_BIT)
                },
            r is Ok ==> flag(*final(self), BRK_BIT),
            r matches Err(e) ==> e == CpuError::TickLimit || step(*final(self), final(bus)@) == Err::<(Cpu, Seq<ConnModel>), CpuError>(e),
            r == Err::<(), CpuError>(CpuError::TickLimit) ==> run(*old(self), old(bus)@, u64::MAX as nat) == Ok::<
                (Cpu, Seq<ConnModel>),
                CpuError,
            >((*final(self), final(bus)@)),
    {
        let mut count: u64 = 0;
        while !self.flags.break_cmd()
            invariant
                bus.wf(),
                run(*old(self), old(bus)@, count as nat) == Ok::<(Cpu, Seq<ConnModel>), CpuError>((*self, bus@)),
                forall|k: nat| k < count ==> {
                    let s = #[trigger] run(*old(self), old(bus)@, k);
                    s is Ok && !flag(s->Ok_0.0, BRK_BIT)
                },
            decreases u64::MAX - count,
        {
            if count == u64::MAX {
                return Err(CpuError::TickLimit);
            }
            let ghost before = *self;
            let ghost before_bus = bus@;
            assert(!flag(before, BRK_BIT));
            match self.tick(bus) {
                Ok(()) => {},
                Err(e) => {
                    proof {
                        lemma_step_fault(before, before_bus);
                    }
                    return Err(e);
                },
            }
            assert(run(*old(self), old(bus)@, (count + 1) as nat) == step(before, before_bus));
            count = count + 1;
        }
        Ok(())
    }

    fn operand_address(&self, bus: &Bus, d: OpDescription) -> (r: Result<(u16, bool), CpuError>)
        requires
            bus.wf(),
        ensures
            r == operand_address(*self, bus@, d),
    {
        let pc1 = self.pc.wrapping_add(1);
        match d.mode {
            AddressMode::Immediate => Ok((pc1, false)),
            AddressMode::ZeroPage => {
                let z = read(bus, pc1)?;
                Ok((z as u16, false))
            },
            AddressMode::ZeroPageX => {
                let z = read(bus, pc1)?;
                Ok((z.wrapping_add(self.reg.x) as u16, false))
            },
            AddressMode::ZeroPageY => {
                let z = read(bus, pc1)?;
                Ok((z.wrapping_add(self.reg.y) as u16, false))
            },
            AddressMode::Absolute => {
                let w = read16(bus, pc1)?;
                Ok((w, false))
            },
            AddressMode::AbsoluteX => {
                let b = read16(bus, pc1)?;
                Ok(index_address(b, self.reg.x))
            },
            AddressMode::AbsoluteY => {
                let b = read16(bus, pc1)?;
                Ok(index_address(b, self.reg.y))
            },
            AddressMode::Indirect => {
                let ptr = read16(bus, pc1)?;
                let lo = read(bus, ptr)?;
                // The hardware fetches the high byte without carrying into the page.
                let next = merge_bytes((ptr / 256) as u8, ((ptr % 256) as u8).wrapping_add(1));
                let hi = read(bus, next)?;
                Ok((merge_bytes(hi, lo), false))
            },
            AddressMode::IndirectX => {
                let z = read(bus, pc1)?;
                let p = z.wrapping_add(self.reg.x);
                let lo = read(bus, p as u16)?;
                let hi = read(bus, p.wrapping_add(1) as u16)?;
                Ok((merge_bytes(hi, lo), false))
            },
            AddressMode::IndirectY => {
                let z = read(bus, pc1)?;
                let b = read16(bus, z as u16)?;
                Ok(index_address(b, self.reg.y))
            },
            AddressMode::Relative => {
                let o = read(bus, pc1)?;
                let t = self.pc.wrapping_add(d.instruction_bytes as u16).wrapping_add(widen_offset(o));
                Ok((t, (self.pc & 0xff00) != (t & 0xff00)))
            },
            AddressMode::Implied | AddressMode::Accumulator => Ok((0, false)),
        }
    }

    /// Pushes `v`: it goes to `0x0100 | sp`, then SP moves down (wrapping).
    pub fn write_u8_to_stack(&mut self, bus: &mut Bus, v: u8)
        requires
            old(bus).wf(),
        ensures
            final(bus).wf(),
            (*final(self), final(bus)@) == push(*old(self), old(bus)@, v),
    {
        bus.set_byte(v, 0x0100 + self.sp as u16);
        self.sp = self.sp.wrapping_sub(1);
    }

    /// Pulls a byte: SP moves up (wrapping), then `0x0100 | sp` is read.
    pub fn read_u8_from_stack(&mut self, bus: &Bus) -> (r: Result<u8, CpuError>)
        requires
            bus.wf(),
        ensures
            match pull(*old(self), bus@) {
                Ok((c, v)) => r == Ok::<u8, CpuError>(v) && *final(self) == c,
                Err(e) => r == Err::<u8, CpuError>(e),
            },
    {
        let sp = self.sp.wrapping_add(1);
        let v = read(bus, 0x0100 + sp as u16)?;
        self.sp = sp;
        Ok(v)
    }

    fn write_u16_to_stack(&mut self, bus: &mut Bus, w: u16)
        requires
            old(bus).wf(),
        ensures
            final(bus).wf(),
            (*final(self), final(bus)@) == push_word(*old(self), old(bus)@, w),
    {
        self.write_u8_to_stack(bus, (w / 256) as u8);
        self.write_u8_to_stack(bus, (w % 256) as u8);
    }

    fn read_u16_from_stack(&mut self, bus: &Bus) -> (r: Result<u16, CpuError>)
        requires
            bus.wf(),
        ensures
            match pull_word(*old(self), bus@) {
                Ok((c, w)) => r == Ok::<u16, CpuError>(w) && *final(self) == c,
                Err(e) => r == Err::<u16, CpuError>(e),
            },
    {
        let lo = self.read_u8_from_stack(bus)?;
        let hi = self.read_u8_from_stack(bus)?;
        Ok(merge_bytes(hi, lo))
    }

    fn adc_impl(&mut self, v: u8)
        ensures
            *final(self) == adc(*old(self), v),
    {
        let sum: u16 = self.reg.a as u16 + v as u16 + if self.flags.carry() { 1u16 } else { 0u16 };
        let res = (sum % 256) as u8;
        let a = self.reg.a;
        self.flags.set_carry(sum > 255);
        self.flags.set_overflow((a ^ res) & (v ^ res) & 0x80 != 0);
        self.reg.a = res;
        self.flags.set_nz(res);
    }

    fn compare(&mut self, r: u8, v: u8)
        ensures
            *final(self) == compare(*old(self), r, v),
    {
        self.flags.set_carry(r >= v);
        self.flags.set_zero(r == v);
        self.flags.set_negative(r.wrapping_sub(v) & 0x80 != 0);
    }

    fn exec_read_op(&mut self, bus: &Bus, code: Code, addr: u16) -> (r: Result<bool, CpuError>)
        requires
            bus.wf(),
            is_read_op(code),
        ensures
            match read_op(*old(self), bus@, addr, code) {
                Ok((c, m, t)) => r == Ok::<bool, CpuError>(t) && *final(self) == c,
                Err(e) => r == Err::<bool, CpuError>(e),
            },
    {
        let v = read(bus, addr)?;
        match code {
            Code::LDA => {
                self.reg.a = v;
                self.flags.set_nz(v);
            },
            Code::LDX => {
                self.reg.x = v;
                self.flags.set_nz(v);
            },
            Code::LDY => {
                self.reg.y = v;
                self.flags.set_nz(v);
            },
            Code::AND => {
                self.reg.a = self.reg.a & v;
                self.flags.set_nz(self.reg.a);
            },
            Code::EOR => {
                self.reg.a = self.reg.a ^ v;
                self.flags.set_nz(self.reg.a);
            },
            Code::ORA => {
                self.reg.a = self.reg.a | v;
                self.flags.set_nz(self.reg.a);
            },
            Code::BIT => {
                let a = self.reg.a;
                self.flags.set_zero(a & v == 0);
                self.flags.set_negative(v & 0x80 != 0);
                self.flags.set_overflow(v & 0x40 != 0);
            },
            Code::CMP => {
                let a = self.reg.a;
                self.compare(a, v);
            },
            Code::CPX => {
                let x = self.reg.x;
                self.compare(x, v);
            },
            Code::CPY => {
                let y = self.reg.y;
                self.compare(y, v);
            },
            Code::ADC => {
                self.adc_impl(v);
            },
            _ => {
                self.adc_impl(!v);
            },
        }
        Ok(false)
    }

    fn exec_shift(&mut self, bus: &mut Bus, d: OpDescription, addr: u16) -> (r: Result<bool, CpuError>)
        requires
            old(bus).wf(),
            is_shift(d.code),
        ensures
            final(bus).wf(),
            match shift(*old(self), old(bus)@, d, addr) {
                Ok((c, m, t)) => r == Ok::<bool, CpuError>(t) && *final(self) == c && final(bus)@ == m,
                Err(e) => r == Err::<bool, CpuError>(e) && final(bus)@ == old(bus)@,
            },
    {
        let acc = d.mode == AddressMode::Accumulator;
        let v = if acc {
            self.reg.a
        } else {
            read(bus, addr)?
        };
        let cin = self.flags.carry();
        let (res, cout) = match d.code {
            Code::ASL => (v << 1u8, v & 0x80 != 0),
            Code::LSR => (v >> 1u8, v & 0x01 != 0),
            Code::ROL => ((v << 1u8) | (if cin { 1u8 } else { 0u8 }), v & 0x80 != 0),
            _ => ((v >> 1u8) | (if cin { 0x80u8 } else { 0u8 }), v & 0x01 != 0),
        };
        self.flags.set_carry(cout);
        self.flags.set_nz(res);
        if acc {
            self.reg.a = res;
        } else {
            bus.set_byte(res, addr);
        }
        Ok(false)
    }

    fn exec_branch(&mut self, cond: bool, addr: u16) -> (r: bool)
        ensures
            r == cond,
            *final(self) == (if cond { with_pc(*old(self), addr) } else { *old(self) }),
    {
        if cond {
            self.pc = addr;
        }
        cond
    }

    /// Runs `d` with effective address `addr`; the program counter has
    /// already moved past the instruction. Returns whether a branch was taken.
    fn execute(&mut self, bus: &mut Bus, d: OpDescription, addr: u16) -> (r: Result<bool, CpuError>)
        requires
            old(bus).wf(),
        ensures
            final(bus).wf(),
            match execute(*old(self), old(bus)@, d, addr) {
                Ok((c, m, t)) => r == Ok::<bool, CpuError>(t) && *final(self) == c && final(bus)@ == m,
                Err(e) => r == Err::<bool, CpuError>(e) && final(bus)@ == old(bus)@,
            },
    {
        match d.code {
            Code::LDA | Code::LDX | Code::LDY | Code::AND | Code::EOR | Code::ORA | Code::BIT
            | Code::CMP | Code::CPX | Code::CPY | Code::ADC | Code::SBC => self.exec_read_op(bus, d.code, addr),
            Code::ASL | Code::LSR | Code::ROL | Code::ROR => self.exec_shift(bus, d, addr),
            _ => self.exec_other(bus, d, addr),
        }
    }

    fn exec_other(&mut self, bus: &mut Bus, d: OpDescription, addr: u16) -> (r: Result<bool, CpuError>)
        requires
            old(bus).wf(),
            !is_read_op(d.code),
            !is_shift(d.code),
        ensures
            final(bus).wf(),
            match execute(*old(self), old(bus)@, d, addr) {
                Ok((c, m, t)) => r == Ok::<bool, CpuError>(t) && *final(self) == c && final(bus)@ == m,
                Err(e) => r == Err::<bool, CpuError>(e) && final(bus)@ == old(bus)@,
            },
    {
        match d.code {
            Code::STA => {
                bus.set_byte(self.reg.a, addr);
                Ok(false)
            },
            Code::STX => {
                bus.set_byte(self.reg.x, addr);
                Ok(false)
            },
            Code::STY => {
                bus.set_byte(self.reg.y, addr);
                Ok(false)
            },
            Code::TAX => {
                self.reg.x = self.reg.a;
                self.flags.set_nz(self.reg.x);
                Ok(false)
            },
            Code::TXA => {
                self.reg.a = self.reg.x;
                self.flags.set_nz(self.reg.a);
                Ok(false)
            },
            Code::TAY => {
                self.reg.y = self.reg.a;
                self.flags.set_nz(self.reg.y);
                Ok(false)
            },
            Code::TYA => {
                self.reg.a = self.reg.y;
                self.flags.set_nz(self.reg.a);
                Ok(false)
            },
            Code::TSX => {
                self.reg.x = self.sp;
                self.flags.set_nz(self.reg.x);
                Ok(false)
            },
            Code::TXS => {
                self.sp = self.reg.x;
                Ok(false)
            },
            Code::INC | Code::DEC => {
                let v = read(bus, addr)?;
                let r = if d.code == Code::INC {
                    v.wrapping_add(1)
                } else {
                    v.wrapping_sub(1)
                };
                bus.set_byte(r, addr);
                self.flags.set_nz(r);
                Ok(false)
            },
            Code::INX => {
                self.reg.x = self.reg.x.wrapping_add(1);
                self.flags.set_nz(self.reg.x);
                Ok(false)
            },
            Code::INY => {
                self.reg.y = self.reg.y.wrapping_add(1);
                self.flags.set_nz(self.reg.y);
                Ok(false)
            },
            Code::DEX => {
                self.reg.x = self.reg.x.wrapping_sub(1);
                self.flags.set_nz(self.reg.x);
                Ok(false)
            },
            Code::DEY => {
                self.reg.y = self.reg.y.wrapping_sub(1);
                self.flags.set_nz(self.reg.y);
                Ok(false)
            },
            Code::CLC => {
                self.flags.set_carry(false);
                Ok(false)
            },
            Code::CLD => {
                self.flags.set_decimal_mode(false);
                Ok(false)
            },
            Code::CLI => {
                self.flags.set_interrupt_disabled(false);
                Ok(false)
            },
            Code::CLV => {
                self.flags.set_overflow(false);
                Ok(false)
            },
            Code::SEC => {
                self.flags.set_carry(true);
                Ok(false)
            },
            Code::SED => {
                self.flags.set_decimal_mode(true);
                Ok(false)
            },
            Code::SEI => {
                self.flags.set_interrupt_disabled(true);
                Ok(false)
            },
            Code::BCC => {
                let cond = !self.flags.carry();
                Ok(self.exec_branch(cond, addr))
            },
            Code::BCS => {
                let cond = self.flags.carry();
                Ok(self.exec_branch(cond, addr))
            },
            Code::BEQ => {
                let cond = self.flags.zero();
                Ok(self.exec_branch(cond, addr))
            },
            Code::BMI => {
                let cond = self.flags.negative();
                Ok(self.exec_branch(cond, addr))
            },
            Code::BNE => {
                let cond = !self.flags.zero();
                Ok(self.exec_branch(cond, addr))
            },
            Code::BPL => {
                let cond = !self.flags.negative();
                Ok(self.exec_branch(cond, addr))
            },
            Code::BVC => {
                let cond = !self.flags.overflow();
                Ok(self.exec_branch(cond, addr))
            },
            Code::BVS => {
                let cond = self.flags.overflow();
                Ok(self.exec_branch(cond, addr))
            },
            Code::PHA => {
                let a = self.reg.a;
                self.write_u8_to_stack(bus, a);
                Ok(false)
            },
            Code::PHP => {
                let p = self.flags.get_register();
                self.write_u8_to_stack(bus, p);
                Ok(false)
            },
            Code::PLA => {
                let v = self.read_u8_from_stack(bus)?;
                self.reg.a = v;
                Ok(false)
            },
            Code::PLP => {
                let v = self.read_u8_from_stack(bus)?;
                self.flags.set_register(v);
                Ok(false)
            },
            Code::JSR => {
                let ret = self.pc.wrapping_sub(1);
                self.write_u16_to_stack(bus, ret);
                self.pc = addr;
                Ok(false)
            },
            Code::RTS => {
                let ret = self.read_u16_from_stack(bus)?;
                self.pc = ret.wrapping_add(1);
                Ok(false)
            },
            Code::JMP => {
                self.pc = addr;
                Ok(false)
            },
            Code::RTI => {
                let p = self.read_u8_from_stack(bus)?;
                self.flags.set_register(p);
                self.pc = self.read_u16_from_stack(bus)?;
                Ok(false)
            },
            Code::BRK => {
                let target = read16(bus, INTERRUPT_PC)?;
                self.flags.set_break_cmd(true);
                let pc = self.pc;
                self.write_u16_to_stack(bus, pc);
                let p = self.flags.get_register();
                self.write_u8_to_stack(bus, p);
                self.flags.set_interrupt_disabled(true);
                self.pc = target;
                Ok(false)
            },
            _ => Ok(false),
        }
    }

    /// One clock. While the last instruction still owes cycles, one of them
    /// is paid; otherwise the next instruction is fetched, decoded and run,
    /// and its cycles are charged. On an error nothing changes.
    pub fn tick(&mut self, bus: &mut Bus) -> (r: Result<(), CpuError>)
        requires
            old(bus).wf(),
        ensures
            final(bus).wf(),
            match step(*old(self), old(bus)@) {
                Ok((c, m)) => r is Ok && *final(self) == c && final(bus)@ == m,
                Err(e) => r == Err::<(), CpuError>(e) && *final(self) == *old(self) && final(bus)@ == old(bus)@,
            },
    {
        if self.cycle_left > 0 {
            self.cycle_left = self.cycle_left - 1;
            return Ok(());
        }
        let op = read(bus, self.pc)?;
        let d = match decode(op) {
            Some(d) => d,
            None => return Err(CpuError::UnknownOpcode(op)),
        };
        let (addr, crossed) = self.operand_address(bus, d)?;
        let mut next = *self;
        next.pc = self.pc.wrapping_add(d.instruction_bytes as u16);
        let taken = next.execute(bus, d, addr)?;
        let mut extra: u8 = if taken { 1 } else { 0 };
        if crossed && d.page_boundary_cycle && (taken || !is_branch_code(d.code)) {
            extra = extra + 1;
        }
        proof {
            crate::ops_lookup::lemma_descriptor_ranges(op);
        }
        next.cycle_left = d.cycles - 1 + extra;
        *self = next;
        Ok(())
    }
}

} // verus!

verus! {

/// A tick fails only on an unmapped read or an unknown opcode.
pub proof fn lemma_step_fault(c: Cpu, m: Seq<ConnModel>)
    ensures
        step(c, m) matches Err(e) ==> e != CpuError::TickLimit,
{
    if c.cycle_left == 0 {
        if let Ok(op) = rd(m, c.pc) {
            if let Some(d) = opcode_entry(op) {
                if let Ok((addr, crossed)) = operand_address(c, m, d) {
                    lemma_execute_fault(with_pc(c, c.pc.wrapping_add(d.instruction_bytes as u16)), m, d, addr);
                }
            }
        }
    }
}

proof fn lemma_execute_fault(c: Cpu, m: Seq<ConnModel>, d: OpDescription, addr: u16)
    ensures
        execute(c, m, d, addr) matches Err(e) ==> e != CpuError::TickLimit,
{
}

/// Whatever instructions run, every register stays within its width:
/// A, X, Y and SP in `0..=255`, PC in `0..=0xFFFF`.
pub proof fn lemma_registers_in_range(c: Cpu, m: Seq<ConnModel>, n: nat)
    ensures
        run(c, m, n) matches Ok((c2, _)) ==> 0 <= c2.reg.a <= 255 && 0 <= c2.reg.x <= 255 && 0 <= c2.reg.y
            <= 255 && 0 <= c2.sp <= 255 && 0 <= c2.pc <= 0xffff,
{
}

/// The register an instruction writes its result to, for those that set N and Z from it.
pub open spec fn result_register(code: Code, c: Cpu) -> u8 {
    match code {
        Code::LDX | Code::TAX | Code::TSX | Code::INX | Code::DEX => c.reg.x,
        Code::LDY | Code::TAY | Code::INY | Code::DEY => c.reg.y,
        _ => c.reg.a,
    }
}

/// Whether the instruction sets N and Z from the register it writes.
pub open spec fn sets_nz_of_register(code: Code) -> bool {
    code == Code::LDA || code == Code::LDX || code == Code::LDY || code == Code::AND
        || code == Code::EOR || code == Code::ORA || code == Code::ADC || code == Code::SBC
        || code == Code::TAX || code == Code::TXA || code == Code::TAY || code == Code::TYA
        || code == Code::TSX || code == Code::INX || code == Code::INY || code == Code::DEX
        || code == Code::DEY
}

/// After an instruction that computes a register result, N is bit 7 of the
/// result and Z tells whether it is zero.
pub proof fn lemma_nz_follows_result(c: Cpu, m: Seq<ConnModel>, d: OpDescription, addr: u16)
    requires
        sets_nz_of_register(d.code),
    ensures
        execute(c, m, d, addr) matches Ok((c2, _, _)) ==> {
            let r = result_register(d.code, c2);
            &&& flag(c2, NEG_BIT) == ((r >> 7u8) & 1 == 1)
            &&& flag(c2, ZERO_BIT) == (r == 0)
        },
{
    if let Ok((c2, _, _)) = execute(c, m, d, addr) {
        let r = result_register(d.code, c2);
        match d.code {
            Code::LDA | Code::LDX | Code::LDY | Code::AND | Code::EOR | Code::ORA => {
                let v = rd(m, addr)->Ok_0;
                let prev = match d.code {
                    Code::LDA => with_a(c, v),
                    Code::LDX => with_x(c, v),
                    Code::LDY => with_y(c, v),
                    Code::AND => with_a(c, (c.reg.a & v) as u8),
                    Code::EOR => with_a(c, (c.reg.a ^ v) as u8),
                    _ => with_a(c, (c.reg.a | v) as u8),
                };
                crate::flags::lemma_nz_from_result(prev.flags.register, r);
            },
            Code::ADC | Code::SBC => {
                let v = rd(m, addr)->Ok_0;
                let w = if d.code == Code::ADC { v } else { !v };
                let sum = c.reg.a + w + (if flag(c, CARRY_BIT) { 1int } else { 0int });
                let res = (sum % 256) as u8;
                let c1 = setf(c, CARRY_BIT, sum > 255);
                let c3 = setf(c1, OVERFLOW_BIT, (c.reg.a ^ res) & (w ^ res) & 0x80 != 0);
                crate::flags::lemma_nz_from_result(c3.flags.register, r);
            },
            _ => {
                crate::flags::lemma_nz_from_result(c.flags.register, r);
            },
        }
    }
}

/// The byte that a read-modify-write instruction computes from the operand `v`.
pub open spec fn modified_byte(code: Code, c: Cpu, v: u8) -> u8 {
    match code {
        Code::INC => v.wrapping_add(1),
        Code::DEC => v.wrapping_sub(1),
        _ => shifted(code, v, flag(c, CARRY_BIT)).0,
    }
}

/// After a read-modify-write instruction (INC, DEC, or a shift or rotate of
/// memory or of A), its result is stored, N is bit 7 of it and Z tells
/// whether it is zero.
pub proof fn lemma_nz_follows_modified_byte(c: Cpu, m: Seq<ConnModel>, d: OpDescription, addr: u16)
    requires
        d.code == Code::INC || d.code == Code::DEC || is_shift(d.code),
    ensures
        execute(c, m, d, addr) matches Ok((c2, m2, _)) ==> {
            let v = if is_shift(d.code) && d.mode == AddressMode::Accumulator {
                c.reg.a
            } else {
                rd(m, addr)->Ok_0
            };
            let r = modified_byte(d.code, c, v);
            &&& flag(c2, NEG_BIT) == ((r >> 7u8) & 1 == 1)
            &&& flag(c2, ZERO_BIT) == (r == 0)
            &&& if is_shift(d.code) && d.mode == AddressMode::Accumulator {
                c2.reg.a == r && m2 == m
            } else {
                m2 == bus_write(m, addr, r)
            }
        },
{
    if let Ok((c2, m2, _)) = execute(c, m, d, addr) {
        let v = if is_shift(d.code) && d.mode == AddressMode::Accumulator {
            c.reg.a
        } else {
            rd(m, addr)->Ok_0
        };
        let r = modified_byte(d.code, c, v);
        if is_shift(d.code) {
            let (res, cout) = shifted(d.code, v, flag(c, CARRY_BIT));
            crate::flags::lemma_nz_from_result(setf(c, CARRY_BIT, cout).flags.register, r);
        } else {
            crate::flags::lemma_nz_from_result(c.flags.register, r);
        }
    }
}

/// ADC of `v` and SBC of its one's complement give the same A, C, V, N and Z:
/// the whole processor state after them is the same.
pub proof fn lemma_adc_sbc_complement(c: Cpu, m1: Seq<ConnModel>, m2: Seq<ConnModel>, addr: u16, v: u8)
    requires
        rd(m1, addr) == Ok::<u8, CpuError>(v),
        rd(m2, addr) == Ok::<u8, CpuError>(!v),
    ensures
        read_op(c, m1, addr, Code::ADC) is Ok,
        read_op(c, m2, addr, Code::SBC) is Ok,
        read_op(c, m1, addr, Code::ADC)->Ok_0.0 == read_op(c, m2, addr, Code::SBC)->Ok_0.0,
{
    assert(!(!v) == v) by (bit_vector);
}

/// One tick that runs ADC with operand `v` and one that runs SBC with
/// operand `!v`, from the same processor state and through the same
/// effective address, leave the same A and the same status byte.
pub proof fn lemma_adc_sbc_complement_tick(
    c: Cpu,
    m1: Seq<ConnModel>,
    m2: Seq<ConnModel>,
    op1: u8,
    op2: u8,
    addr: u16,
    crossed: bool,
    v: u8,
)
    requires
        c.cycle_left == 0,
        rd(m1, c.pc) == Ok::<u8, CpuError>(op1),
        rd(m2, c.pc) == Ok::<u8, CpuError>(op2),
        opcode_entry(op1) matches Some(d) && d.code == Code::ADC,
        opcode_entry(op2) matches Some(d) && d.code == Code::SBC,
        operand_address(c, m1, opcode_entry(op1)->Some_0) == Ok::<(u16, bool), CpuError>((addr, crossed)),
        operand_address(c, m2, opcode_entry(op2)->Some_0) == Ok::<(u16, bool), CpuError>((addr, crossed)),
        rd(m1, addr) == Ok::<u8, CpuError>(v),
        rd(m2, addr) == Ok::<u8, CpuError>(!v),
    ensures
        step(c, m1) is Ok,
        step(c, m2) is Ok,
        step(c, m1)->Ok_0.0.reg.a == step(c, m2)->Ok_0.0.reg.a,
        step(c, m1)->Ok_0.0.flags == step(c, m2)->Ok_0.0.flags,
{
    let d1 = opcode_entry(op1)->Some_0;
    let d2 = opcode_entry(op2)->Some_0;
    let c1 = with_pc(c, c.pc.wrapping_add(d1.instruction_bytes as u16));
    let c2 = with_pc(c, c.pc.wrapping_add(d2.instruction_bytes as u16));
    assert(!(!v) == v) by (bit_vector);
    assert(adc(c1, v).reg.a == adc(c2, v).reg.a);
    assert(adc(c1, v).flags == adc(c2, v).flags);
}

/// A pull right after a push gives back the byte pushed, with SP where it
/// started and the rest of the processor untouched.
pub proof fn lemma_stack_round_trip(c: Cpu, m: Seq<ConnModel>, v: u8)
    requires
        forall|i: int| 0 <= i < m.len() ==> #[trigger] crate::bus::conn_ok(m[i]),
        rd(m, stack_addr(c.sp)) is Ok,
    ensures
        ({
            let (c1, m1) = push(c, m, v);
            pull(c1, m1) == Ok::<(Cpu, u8), CpuError>((c, v))
        }),
{
    let (c1, m1) = push(c, m, v);
    assert(c.sp.wrapping_sub(1).wrapping_add(1) == c.sp);
    crate::bus::lemma_write_then_read(m, stack_addr(c.sp), v);
    assert(with_sp(c1, c.sp) == c);
}

/// PHA followed by PLA gives back A, and SP ends where it started: the
/// processor state is the one before the pair.
pub proof fn lemma_pha_then_pla(c: Cpu, m: Seq<ConnModel>, d1: OpDescription, d2: OpDescription, a1: u16, a2: u16)
    requires
        d1.code == Code::PHA,
        d2.code == Code::PLA,
        forall|i: int| 0 <= i < m.len() ==> #[trigger] crate::bus::conn_ok(m[i]),
        rd(m, stack_addr(c.sp)) is Ok,
    ensures
        execute(c, m, d1, a1) matches Ok((c1, m1, _)) && execute(c1, m1, d2, a2) matches Ok((c2, _, _))
            && c2.reg.a == c.reg.a && c2.sp == c.sp && c2 == c,
{
    lemma_stack_round_trip(c, m, c.reg.a);
    let (c1, m1) = push(c, m, c.reg.a);
    assert(with_a(c, c.reg.a) == c);
}

/// PHP followed by PLP gives back the status byte bit for bit, and SP ends
/// where it started.
pub proof fn lemma_php_then_plp(c: Cpu, m: Seq<ConnModel>, d1: OpDescription, d2: OpDescription, a1: u16, a2: u16)
    requires
        d1.code == Code::PHP,
        d2.code == Code::PLP,
        forall|i: int| 0 <= i < m.len() ==> #[trigger] crate::bus::conn_ok(m[i]),
        rd(m, stack_addr(c.sp)) is Ok,
    ensures
        execute(c, m, d1, a1) matches Ok((c1, m1, _)) && execute(c1, m1, d2, a2) matches Ok((c2, _, _))
            && c2.flags.register == c.flags.register && c2.sp == c.sp && c2 == c,
{
    lemma_stack_round_trip(c, m, c.flags.register);
}

/// A taken branch that stays in its page costs one cycle more than the base
/// count, one that crosses costs two more, and an untaken one costs none,
/// crossing or not.
pub proof fn lemma_branch_cycles(op: u8, crossed: bool)
    requires
        opcode_entry(op) matches Some(d) && is_branch(d.code),
    ensures
        ({
            let d = opcode_entry(op)->Some_0;
            &&& cycles_after(d, true, false) == d.cycles
            &&& cycles_after(d, true, true) == d.cycles + 1
            &&& cycles_after(d, false, crossed) == d.cycles - 1
        }),
{
}

/// An indirect jump through a pointer at the end of a page takes the high
/// byte of its target from the start of that same page; any other pointer
/// takes it from the next address.
pub proof fn lemma_indirect_jump_page_wrap(ptr: u16)
    ensures
        lo_byte(ptr) == 0xff ==> same_page_next(ptr) == ptr - 0xff,
        lo_byte(ptr) != 0xff ==> same_page_next(ptr) == ptr + 1,
{
}

} // verus!
