//! The processor: the instruction-table entries, the fetch-decode-execute
//! step, the stack, and one resolver for each addressing mode.

use crate::fault::Fault;
use crate::machine::{from_bcd, to_bcd, twos_complement, Machine};
use crate::mmu::{assemble, join_bytes, padded, Block, Cell, Memory, MMU};
use crate::registers::{Interrupt, Registers};
use vstd::prelude::*;

verus! {

/// How an instruction finds its operand. The modes of the first group hand
/// the operation an effective address, for it to read and write back; those
/// of the second group hand it the byte found there, widened to 16 bits.
#[derive(Clone, Copy, Debug, PartialEq, Eq, Structural)]
pub enum Addressing {
    /// No operand: nothing is consumed and the operation gets zero.
    Implied,
    /// The address in the zero page that the operand byte names.
    ZeroPageAddr,
    /// The zero-page address of the operand byte plus X.
    ZeroPageXAddr,
    /// The zero-page address of the operand byte plus Y.
    ZeroPageYAddr,
    /// The address that the operand word names.
    AbsoluteAddr,
    /// The address of the operand word plus X.
    AbsoluteXAddr,
    /// The address of the operand word plus Y.
    AbsoluteYAddr,
    /// The address stored at the address that the operand word names.
    IndirectAddr,
    /// The address stored in the zero page at the operand byte plus X.
    IndexedIndirectAddr,
    /// The address stored in the zero page at the operand byte, plus Y.
    IndirectIndexedAddr,
    /// The operand byte itself.
    Immediate,
    /// The byte at [`Addressing::ZeroPageAddr`].
    ZeroPage,
    /// The byte at [`Addressing::ZeroPageXAddr`].
    ZeroPageX,
    /// The byte at [`Addressing::ZeroPageYAddr`].
    ZeroPageY,
    /// The byte at [`Addressing::AbsoluteAddr`].
    Absolute,
    /// The byte at [`Addressing::AbsoluteXAddr`].
    AbsoluteX,
    /// The byte at [`Addressing::AbsoluteYAddr`].
    AbsoluteY,
    /// The byte at [`Addressing::IndirectAddr`].
    Indirect,
    /// The byte at [`Addressing::IndexedIndirectAddr`].
    IndexedIndirect,
    /// The byte at [`Addressing::IndirectIndexedAddr`].
    IndirectIndexed,
}

/// What an instruction does with its operand.
#[derive(Clone, Copy, Debug, PartialEq, Eq, Structural)]
pub enum Operation {
    /// The trap behind every opcode that has no operation.
    NotImplemented,
    Adc,
    And,
    Asl,
    AslAcc,
    Bpl,
    Bmi,
    Bvc,
    Bvs,
    Bcc,
    Bcs,
    Bne,
    Beq,
    Bit,
    Brk,
    Cmp,
    Cpx,
    Cpy,
    Dec,
    Dex,
    Dey,
    Eor,
    Clc,
    Cli,
    Clv,
    Cld,
    Sec,
    Sei,
    Sed,
    Inc,
    Inx,
    Iny,
    Jmp,
    Jsr,
    Lda,
    Ldx,
    Ldy,
    LsrAcc,
    Lsr,
    Nop,
    Ora,
    Pha,
    Php,
    Pla,
    Plp,
    RolAcc,
    Rol,
    RorAcc,
    Ror,
    Rti,
    Rts,
    Sbc,
    Sta,
    Stx,
    Sty,
    Tax,
    Txa,
    Tay,
    Tya,
    Txs,
    Tsx,
}

/// One entry of the instruction table: how the operand is found, and what
/// is done with it.
#[derive(Clone, Copy, Debug, PartialEq, Eq, Structural)]
pub struct Instr {
    /// The addressing mode.
    pub addr: Addressing,
    /// The operation.
    pub code: Operation,
}

impl Instr {
    /// The entry that pairs `addr` with `code`.
    pub fn new(addr: Addressing, code: Operation) -> (instr: Instr)
        ensures
            instr == (Instr { addr, code }),
    {
        Instr { addr, code }
    }
}

/// The processor: the register file and the memory bus that it owns.
#[derive(Debug)]
pub struct CPU {
    /// The memory bus.
    pub mmu: MMU,
    /// The registers.
    pub r: Registers,
}

impl View for CPU {
    type V = Machine;

    open spec fn view(&self) -> Machine {
        Machine { r: self.r, mem: self.mmu@ }
    }
}

impl CPU {
    /// The processor is well formed when its bus and its registers are.
    pub open spec fn wf(&self) -> bool {
        self.mmu.wf() && self.r.wf()
    }

    /// A processor on `mmu`, with its registers at power-on.
    pub fn new(mmu: MMU) -> (cpu: CPU)
        requires
            mmu.wf(),
        ensures
            cpu.wf(),
            cpu@ == (Machine { r: Registers::power_on(), mem: mmu@ }),
    {
        CPU { mmu, r: Registers::new() }
    }

    /// Executes one instruction, whatever its length: reads the opcode at
    /// the program counter, looks its entry up in `ops`, resolves the
    /// addressing mode of the entry, and hands the result to its operation.
    ///
    /// The step stops at the first fault, which it returns; the machine is
    /// then as the part of the step before the fault left it.
    pub fn step(&mut self, ops: [Instr; 256]) -> (done: Result<(), Fault>)
        requires
            old(self).wf(),
        ensures
            final(self).wf(),
            (final(self)@, done) == old(self)@.step(ops@),
    {
        let opcode: u8 = self.next_byte()?;
        let instr: Instr = ops[opcode as usize];
        let src: u16 = instr.addr.resolve(self)?;
        instr.code.execute(self, src)
    }

    /// Reads the byte at the program counter and moves the counter past it.
    pub fn next_byte(&mut self) -> (byte: Result<u8, Fault>)
        requires
            old(self).wf(),
        ensures
            final(self).wf(),
            (final(self)@, byte) == old(self)@.fetch(),
    {
        let val: u8 = self.mmu.read(self.r.pc as usize)?;
        self.r.pc = self.r.pc.wrapping_add(1);
        Ok(val)
    }

    /// Reads the little-endian word at the program counter and moves the
    /// counter past it.
    pub fn next_word(&mut self) -> (word: Result<u16, Fault>)
        requires
            old(self).wf(),
        ensures
            final(self).wf(),
            (final(self)@, word) == old(self)@.fetch_word(),
    {
        let low: u8 = self.next_byte()?;
        let high: u8 = self.next_byte()?;
        Ok(join_bytes(high, low))
    }

    /// Pushes `val` on the stack.
    pub fn stack_push(&mut self, val: u8) -> (pushed: Result<(), Fault>)
        requires
            old(self).wf(),
        ensures
            final(self).wf(),
            (final(self)@, pushed) == old(self)@.push(val),
    {
        self.mmu.write(self.r.stack_page * 0x100 + self.r.s as usize, val)?;
        if self.r.s == 0 {
            self.r.s = 255;
        } else {
            self.r.s = self.r.s - 1;
        }
        Ok(())
    }

    /// Pushes `val` on the stack, high byte first.
    pub fn stack_push_word(&mut self, val: u16) -> (pushed: Result<(), Fault>)
        requires
            old(self).wf(),
        ensures
            final(self).wf(),
            (final(self)@, pushed) == old(self)@.push_word(val),
    {
        self.stack_push((val / 256) as u8)?;
        self.stack_push((val % 256) as u8)
    }

    /// Pops a byte off the stack.
    pub fn stack_pop(&mut self) -> (popped: Result<u8, Fault>)
        requires
            old(self).wf(),
        ensures
            final(self).wf(),
            (final(self)@, popped) == old(self)@.pop(),
    {
        let s: u16 = (self.r.s + 1) % 256;
        let val: u8 = self.mmu.read(self.r.stack_page * 0x100 + s as usize)?;
        self.r.s = s;
        Ok(val)
    }

    /// Pops a word off the stack, low byte first.
    pub fn stack_pop_word(&mut self) -> (popped: Result<u16, Fault>)
        requires
            old(self).wf(),
        ensures
            final(self).wf(),
            (final(self)@, popped) == old(self)@.pop_word(),
    {
        let low: u8 = self.stack_pop()?;
        let high: u8 = self.stack_pop()?;
        Ok(join_bytes(high, low))
    }

    /// The decimal value of the packed BCD byte in the low eight bits of `val`.
    pub fn from_bcd(&self, val: u16) -> (decimal: u16)
        ensures
            decimal == from_bcd(val as int),
    {
        ((val / 16) % 16) * 10 + val % 16
    }

    /// The packed BCD encoding of `val`, which must fit in 16 bits; every
    /// `val` below 100 gives a byte.
    pub fn to_bcd(&self, val: u16) -> (packed: u16)
        requires
            to_bcd(val as int) <= u16::MAX,
        ensures
            packed == to_bcd(val as int),
    {
        val / 10 * 16 + val % 10
    }

    /// The signed value of the low eight bits of `val`, read as two's
    /// complement.
    pub fn from_twos_com(&self, val: u16) -> (signed: i16)
        ensures
            signed == twos_complement(val as int),
    {
        let byte: u16 = val % 256;
        if byte < 128 {
            byte as i16
        } else {
            byte as i16 - 256
        }
    }

    /// The address of the handler of `interrupt`, read from its vector.
    pub fn interrupt_address(&self, interrupt: Interrupt) -> (target: Result<u16, Fault>)
        requires
            self.wf(),
        ensures
            target == self@.interrupt_target(interrupt),
    {
        self.mmu.read_word(interrupt.vector_address())
    }

    /// The byte at the address that an addressing mode resolved.
    fn operand(&self, addr: u16) -> (value: Result<u16, Fault>)
        requires
            self.wf(),
        ensures
            (self@, value) == self@.operand_at(Ok(addr)),
    {
        let byte: u8 = self.mmu.read(addr as usize)?;
        Ok(byte as u16)
    }

    /// The word whose low byte is at `low_at` and whose high byte is at
    /// `high_at`.
    fn pointer(&self, low_at: u16, high_at: u16) -> (word: Result<u16, Fault>)
        requires
            self.wf(),
        ensures
            word == self@.pointer(low_at as int, high_at as int),
    {
        let high: u8 = self.mmu.read(high_at as usize)?;
        let low: u8 = self.mmu.read(low_at as usize)?;
        Ok(join_bytes(high, low))
    }

    /// Charges one cycle if `target` lies on another page than `base`.
    fn charge_crossing(&mut self, base: u16, target: u16)
        ensures
            final(self).mmu == old(self).mmu,
            final(self)@ == old(self)@.charged_for_crossing(base as int, target as int),
    {
        if base / 0xFF != target / 0xFF {
            self.r.cc = self.r.cc.wrapping_add(1);
        }
    }

    /// Zero page: resolves to the address that the operand byte names.
    pub fn z_a(&mut self) -> (addr: Result<u16, Fault>)
        requires
            old(self).wf(),
        ensures
            final(self).wf(),
            (final(self)@, addr) == old(self)@.zero_page(),
    {
        let operand: u8 = self.next_byte()?;
        Ok(operand as u16)
    }

    /// Zero page,X: resolves to the operand byte plus X, within the zero page.
    pub fn zx_a(&mut self) -> (addr: Result<u16, Fault>)
        requires
            old(self).wf(),
        ensures
            final(self).wf(),
            (final(self)@, addr) == old(self)@.zero_page_plus(old(self).r.x),
    {
        let operand: u8 = self.next_byte()?;
        Ok(operand.wrapping_add(self.r.x) as u16)
    }

    /// Zero page,Y: resolves to the operand byte plus Y, within the zero page.
    pub fn zy_a(&mut self) -> (addr: Result<u16, Fault>)
        requires
            old(self).wf(),
        ensures
            final(self).wf(),
            (final(self)@, addr) == old(self)@.zero_page_plus(old(self).r.y),
    {
        let operand: u8 = self.next_byte()?;
        Ok(operand.wrapping_add(self.r.y) as u16)
    }

    /// Absolute: resolves to the address that the operand word names.
    pub fn a_a(&mut self) -> (addr: Result<u16, Fault>)
        requires
            old(self).wf(),
        ensures
            final(self).wf(),
            (final(self)@, addr) == old(self)@.absolute(),
    {
        self.next_word()
    }

    /// Absolute,X: resolves to the operand word plus X, and charges a cycle
    /// for a page crossing.
    pub fn ax_a(&mut self) -> (addr: Result<u16, Fault>)
        requires
            old(self).wf(),
        ensures
            final(self).wf(),
            (final(self)@, addr) == old(self)@.absolute_plus(old(self).r.x),
    {
        let op: u16 = self.next_word()?;
        let a: u16 = op.wrapping_add(self.r.x as u16);
        self.charge_crossing(op, a);
        Ok(a)
    }

    /// Absolute,Y: resolves to the operand word plus Y, and charges a cycle
    /// for a page crossing.
    pub fn ay_a(&mut self) -> (addr: Result<u16, Fault>)
        requires
            old(self).wf(),
        ensures
            final(self).wf(),
            (final(self)@, addr) == old(self)@.absolute_plus(old(self).r.y),
    {
        let op: u16 = self.next_word()?;
        let a: u16 = op.wrapping_add(self.r.y as u16);
        self.charge_crossing(op, a);
        Ok(a)
    }

    /// Indirect: resolves to the address stored where the operand word
    /// points. The high byte of that address is taken from the same page as
    /// the low byte, also when the low byte is the last of its page.
    pub fn i_a(&mut self) -> (addr: Result<u16, Fault>)
        requires
            old(self).wf(),
        ensures
            final(self).wf(),
            (final(self)@, addr) == old(self)@.indirect(),
    {
        let i: u16 = self.next_word()?;
        let j: u16 = if i % 256 == 0xFF {
            i - 0xFF
        } else {
            i + 1
        };
        self.pointer(i, j)
    }

    /// Indexed indirect: resolves to the address stored in the zero page at
    /// the operand byte plus X.
    pub fn ix_a(&mut self) -> (addr: Result<u16, Fault>)
        requires
            old(self).wf(),
        ensures
            final(self).wf(),
            (final(self)@, addr) == old(self)@.indexed_indirect(),
    {
        let operand: u8 = self.next_byte()?;
        let i: u8 = operand.wrapping_add(self.r.x);
        self.pointer(i as u16, i.wrapping_add(1) as u16)
    }

    /// Indirect indexed: resolves to the address stored in the zero page at
    /// the operand byte, plus Y, and charges a cycle for a page crossing.
    pub fn iy_a(&mut self) -> (addr: Result<u16, Fault>)
        requires
            old(self).wf(),
        ensures
            final(self).wf(),
            (final(self)@, addr) == old(self)@.indirect_indexed(),
    {
        let i: u8 = self.next_byte()?;
        let o: u16 = self.pointer(i as u16, i.wrapping_add(1) as u16)?;
        let a: u16 = o.wrapping_add(self.r.y as u16);
        self.charge_crossing(o, a);
        Ok(a)
    }

    /// Immediate: the operand is the byte that follows the opcode.
    pub fn im(&mut self) -> (value: Result<u16, Fault>)
        requires
            old(self).wf(),
        ensures
            final(self).wf(),
            (final(self)@, value) == old(self)@.immediate(),
    {
        let operand: u8 = self.next_byte()?;
        Ok(operand as u16)
    }

    /// Zero page: the operand is the byte at the address of [`CPU::z_a`].
    pub fn z(&mut self) -> (value: Result<u16, Fault>)
        requires
            old(self).wf(),
        ensures
            final(self).wf(),
            (final(self)@, value) == Machine::operand_of(old(self)@.zero_page()),
    {
        let addr: u16 = self.z_a()?;
        self.operand(addr)
    }

    /// Zero page,X: the operand is the byte at the address of [`CPU::zx_a`].
    pub fn zx(&mut self) -> (value: Result<u16, Fault>)
        requires
            old(self).wf(),
        ensures
            final(self).wf(),
            (final(self)@, value) == Machine::operand_of(old(self)@.zero_page_plus(old(self).r.x)),
    {
        let addr: u16 = self.zx_a()?;
        self.operand(addr)
    }

    /// Zero page,Y: the operand is the byte at the address of [`CPU::zy_a`].
    pub fn zy(&mut self) -> (value: Result<u16, Fault>)
        requires
            old(self).wf(),
        ensures
            final(self).wf(),
            (final(self)@, value) == Machine::operand_of(old(self)@.zero_page_plus(old(self).r.y)),
    {
        let addr: u16 = self.zy_a()?;
        self.operand(addr)
    }

    /// Absolute: the operand is the byte at the address of [`CPU::a_a`].
    pub fn a(&mut self) -> (value: Result<u16, Fault>)
        requires
            old(self).wf(),
        ensures
            final(self).wf(),
            (final(self)@, value) == Machine::operand_of(old(self)@.absolute()),
    {
        let addr: u16 = self.a_a()?;
        self.operand(addr)
    }

    /// Absolute,X: the operand is the byte at the address of [`CPU::ax_a`].
    pub fn ax(&mut self) -> (value: Result<u16, Fault>)
        requires
            old(self).wf(),
        ensures
            final(self).wf(),
            (final(self)@, value) == Machine::operand_of(old(self)@.absolute_plus(old(self).r.x)),
    {
        let addr: u16 = self.ax_a()?;
        self.operand(addr)
    }

    /// Absolute,Y: the operand is the byte at the address of [`CPU::ay_a`].
    pub fn ay(&mut self) -> (value: Result<u16, Fault>)
        requires
            old(self).wf(),
        ensures
            final(self).wf(),
            (final(self)@, value) == Machine::operand_of(old(self)@.absolute_plus(old(self).r.y)),
    {
        let addr: u16 = self.ay_a()?;
        self.operand(addr)
    }

    /// Indirect: the operand is the byte at the address of [`CPU::i_a`].
    pub fn i(&mut self) -> (value: Result<u16, Fault>)
        requires
            old(self).wf(),
        ensures
            final(self).wf(),
            (final(self)@, value) == Machine::operand_of(old(self)@.indirect()),
    {
        let addr: u16 = self.i_a()?;
        self.operand(addr)
    }

    /// Indexed indirect: the operand is the byte at the address of [`CPU::ix_a`].
    pub fn ix(&mut self) -> (value: Result<u16, Fault>)
        requires
            old(self).wf(),
        ensures
            final(self).wf(),
            (final(self)@, value) == Machine::operand_of(old(self)@.indexed_indirect()),
    {
        let addr: u16 = self.ix_a()?;
        self.operand(addr)
    }

    /// Indirect indexed: the operand is the byte at the address of [`CPU::iy_a`].
    pub fn iy(&mut self) -> (value: Result<u16, Fault>)
        requires
            old(self).wf(),
        ensures
            final(self).wf(),
            (final(self)@, value) == Machine::operand_of(old(self)@.indirect_indexed()),
    {
        let addr: u16 = self.iy_a()?;
        self.operand(addr)
    }
}

impl Machine {
    /// One instruction: the opcode is fetched, then the addressing mode of
    /// its entry in `table` is resolved, then the operation of the entry is
    /// carried out. The first fault ends the step.
    pub open spec fn step(self, table: Seq<Instr>) -> (Machine, Result<(), Fault>) {
        let (m1, opcode) = self.fetch();
        match opcode {
            Ok(opcode) => {
                let instr: Instr = table[opcode as int];
                let (m2, src) = instr.addr.resolved(m1);
                match src {
                    Ok(src) => instr.code.executed(m2, src),
                    Err(fault) => (m2, Err(fault)),
                }
            },
            Err(fault) => (m1, Err(fault)),
        }
    }
}

impl Addressing {
    /// What resolving the mode does to the machine, and what it hands to the
    /// operation.
    pub open spec fn resolved(self, m: Machine) -> (Machine, Result<u16, Fault>) {
        match self {
            Addressing::Implied => (m, Ok(0u16)),
            Addressing::ZeroPageAddr => m.zero_page(),
            Addressing::ZeroPageXAddr => m.zero_page_plus(m.r.x),
            Addressing::ZeroPageYAddr => m.zero_page_plus(m.r.y),
            Addressing::AbsoluteAddr => m.absolute(),
            Addressing::AbsoluteXAddr => m.absolute_plus(m.r.x),
            Addressing::AbsoluteYAddr => m.absolute_plus(m.r.y),
            Addressing::IndirectAddr => m.indirect(),
            Addressing::IndexedIndirectAddr => m.indexed_indirect(),
            Addressing::IndirectIndexedAddr => m.indirect_indexed(),
            Addressing::Immediate => m.immediate(),
            Addressing::ZeroPage => Machine::operand_of(m.zero_page()),
            Addressing::ZeroPageX => Machine::operand_of(m.zero_page_plus(m.r.x)),
            Addressing::ZeroPageY => Machine::operand_of(m.zero_page_plus(m.r.y)),
            Addressing::Absolute => Machine::operand_of(m.absolute()),
            Addressing::AbsoluteX => Machine::operand_of(m.absolute_plus(m.r.x)),
            Addressing::AbsoluteY => Machine::operand_of(m.absolute_plus(m.r.y)),
            Addressing::Indirect => Machine::operand_of(m.indirect()),
            Addressing::IndexedIndirect => Machine::operand_of(m.indexed_indirect()),
            Addressing::IndirectIndexed => Machine::operand_of(m.indirect_indexed()),
        }
    }

    /// Resolves the mode on `cpu`: consumes the operand bytes at the program
    /// counter, charges the cycle of a page crossing, and returns the
    /// effective address or the operand.
    pub fn resolve(self, cpu: &mut CPU) -> (src: Result<u16, Fault>)
        requires
            old(cpu).wf(),
        ensures
            final(cpu).wf(),
            (final(cpu)@, src) == self.resolved(old(cpu)@),
    {
        match self {
            Addressing::Implied => no_arg(cpu),
            Addressing::ZeroPageAddr => cpu.z_a(),
            Addressing::ZeroPageXAddr => cpu.zx_a(),
            Addressing::ZeroPageYAddr => cpu.zy_a(),
            Addressing::AbsoluteAddr => cpu.a_a(),
            Addressing::AbsoluteXAddr => cpu.ax_a(),
            Addressing::AbsoluteYAddr => cpu.ay_a(),
            Addressing::IndirectAddr => cpu.i_a(),
            Addressing::IndexedIndirectAddr => cpu.ix_a(),
            Addressing::IndirectIndexedAddr => cpu.iy_a(),
            Addressing::Immediate => cpu.im(),
            Addressing::ZeroPage => cpu.z(),
            Addressing::ZeroPageX => cpu.zx(),
            Addressing::ZeroPageY => cpu.zy(),
            Addressing::Absolute => cpu.a(),
            Addressing::AbsoluteX => cpu.ax(),
            Addressing::AbsoluteY => cpu.ay(),
            Addressing::Indirect => cpu.i(),
            Addressing::IndexedIndirect => cpu.ix(),
            Addressing::IndirectIndexed => cpu.iy(),
        }
    }
}

/// The addressing of an instruction without operand: nothing is consumed,
/// and the operation gets zero.
pub fn no_arg(cpu: &mut CPU) -> (src: Result<u16, Fault>)
    ensures
        *final(cpu) == *old(cpu),
        src == Ok::<u16, Fault>(0u16),
{
    Ok(0)
}

/// The memory of a machine with RAM from address 0 and one ROM: `ram_len`
/// zero bytes from address 0, and `rom_len` read-only bytes from `rom_base`
/// that hold `rom`, zero-padded.
pub open spec fn ram_and_rom(ram_len: int, rom_base: int, rom_len: int, rom: Seq<u8>) -> Memory {
    Map::new(
        |a: int| 0 <= a < ram_len || rom_base <= a < rom_base + rom_len,
        |a: int|
            if a < ram_len {
                Cell { value: 0, readonly: false }
            } else {
                Cell { value: padded(rom, rom_len as nat)[a - rom_base], readonly: true }
            },
    )
}

/// The bytes that an optional ROM image holds: none without an image.
pub open spec fn image(rom_init: Option<Vec<u8>>) -> Seq<u8> {
    match rom_init {
        Some(rom) => rom@,
        None => Seq::empty(),
    }
}

/// A processor at power-on over RAM from address 0 and a ROM behind it
/// that holds `rom_init`.
fn make_machine(ram_len: usize, rom_base: usize, rom_len: usize, rom_init: Option<Vec<u8>>) -> (made:
    Result<CPU, Fault>)
    requires
        0 < ram_len <= rom_base,
        0 < rom_len,
        rom_base + rom_len <= usize::MAX,
    ensures
        made is Ok <==> image(rom_init).len() <= rom_len,
        made matches Err(fault) ==> fault == Fault::IllegalBlock,
        made matches Ok(cpu) ==> cpu.wf() && cpu@ == (Machine {
            r: Registers::power_on(),
            mem: ram_and_rom(ram_len as int, rom_base as int, rom_len as int, image(rom_init)),
        }),
{
    let none: Vec<Block> = Vec::new();
    proof {
        reveal_with_fuel(assemble, 1);
    }
    let mut mmu: MMU = MMU::new(&none)?;
    let ram: Block = Block::new(0, ram_len, false, None)?;
    let rom: Block = Block::new(rom_base, rom_len, true, rom_init)?;
    assert(!exists|a: int| #[trigger] ram.contains(a) && mmu@.dom().contains(a));
    mmu.add_block(&ram)?;
    assert(!exists|a: int| #[trigger] rom.contains(a) && mmu@.dom().contains(a));
    mmu.add_block(&rom)?;
    let cpu: CPU = CPU::new(mmu);
    assert(cpu.mmu@ =~= ram_and_rom(
        ram_len as int,
        rom_base as int,
        rom_len as int,
        image(rom_init),
    ));
    Ok(cpu)
}

/// A simple machine: 512 bytes of RAM from address 0, 256 bytes of ROM from
/// `0x1000` that hold `rom_init`, zero-padded, and the program counter at
/// the first byte of the ROM.
///
/// Fails with [`Fault::IllegalBlock`] if `rom_init` is longer than the ROM.
pub fn make_cpu(rom_init: Option<Vec<u8>>) -> (made: Result<CPU, Fault>)
    ensures
        made is Ok <==> image(rom_init).len() <= 0x100,
        made matches Err(fault) ==> fault == Fault::IllegalBlock,
        made matches Ok(cpu) ==> cpu.wf() && cpu@ == (Machine {
            r: Registers { pc: 0x1000, ..Registers::power_on() },
            mem: ram_and_rom(0x200, 0x1000, 0x100, image(rom_init)),
        }),
{
    let mut cpu: CPU = make_machine(0x200, 0x1000, 0x100, rom_init)?;
    cpu.r.pc = 0x1000;
    Ok(cpu)
}

/// The machine of the snake demo: 1536 bytes of RAM from address 0, 4096
/// bytes of ROM from `0x600` that hold `rom_init`, zero-padded, the program
/// counter at the first byte of the ROM, and the stack pointer at `0xFC`.
///
/// Fails with [`Fault::IllegalBlock`] if `rom_init` is longer than the ROM.
pub fn make_snake_cpu(rom_init: Option<Vec<u8>>) -> (made: Result<CPU, Fault>)
    ensures
        made is Ok <==> image(rom_init).len() <= 0x1000,
        made matches Err(fault) ==> fault == Fault::IllegalBlock,
        made matches Ok(cpu) ==> cpu.wf() && cpu@ == (Machine {
            r: Registers { pc: 0x600, s: 0xFC, ..Registers::power_on() },
            mem: ram_and_rom(0x600, 0x600, 0x1000, image(rom_init)),
        }),
{
    let mut cpu: CPU = make_machine(0x600, 0x600, 0x1000, rom_init)?;
    cpu.r.pc = 0x600;
    cpu.r.s = 0xfc;
    Ok(cpu)
}

} // verus!
