//! The operations of the instruction set, first as functions on the model
//! of the machine and then as the code that carries them out, and the
//! instruction table that assigns them to the opcodes.

use crate::cpu::{Addressing, Instr, Operation, CPU};
use crate::fault::Fault;
use crate::machine::{bit7, cycle_page, from_bcd, indexed, to_bcd, twos_complement, Machine};
use crate::mmu::{load, store};
use crate::registers::{Interrupt, Registers};
use vstd::prelude::*;

verus! {

/// The low eight bits of `src`, as the byte that an operation works on.
pub open spec fn low_byte(src: u16) -> u8 {
    (src % 256) as u8
}

/// The carry into an addition: one if `carry` is set.
pub open spec fn carry_in(carry: bool) -> int {
    if carry {
        1
    } else {
        0
    }
}

/// Whether adding `operand` to `a` overflowed as a signed addition: the two
/// have the same sign bit and `result` has the other.
pub open spec fn add_overflows(a: int, operand: int, result: int) -> bool {
    bit7(a) == bit7(operand) && bit7(a) != bit7(result)
}

/// Whether subtracting `operand` from `a` overflowed as a signed
/// subtraction: the two have different sign bits and `result` has that of
/// `operand`.
pub open spec fn sub_overflows(a: int, operand: int, result: int) -> bool {
    bit7(a) != bit7(operand) && bit7(a) != bit7(result)
}

/// What the operations do, as functions on the model of the machine. An
/// operation that touches memory returns the machine together with the
/// outcome; after a fault the machine is as the steps before the fault
/// left it.
impl Machine {
    /// ADC: A plus the operand plus Carry. In binary mode the sum is taken
    /// modulo 256 and Carry tells whether it passed 255; in decimal mode
    /// both are read as packed BCD, the sum is taken modulo 100 and Carry
    /// tells whether it passed 99. Overflow is judged on the sum before it
    /// is reduced.
    pub open spec fn adc(self, src: u16) -> Machine {
        let carry: int = carry_in(self.r.flag('C'));
        if self.r.flag('D') {
            let sum: int = from_bcd(self.r.a as int) + from_bcd(src as int) + carry;
            let result: u8 = to_bcd(sum % 100) as u8;
            self.with_a(result).flagged('C', sum > 99).zn(result).flagged(
                'V',
                add_overflows(self.r.a as int, src as int, sum),
            )
        } else {
            let sum: int = self.r.a + src + carry;
            let result: u8 = (sum % 256) as u8;
            self.with_a(result).flagged('C', sum > 0xFF).zn(result).flagged(
                'V',
                add_overflows(self.r.a as int, src as int, sum),
            )
        }
    }

    /// SBC: A minus the operand minus the borrow, which is the complement
    /// of Carry. Carry tells that no borrow was needed. In binary mode A
    /// takes the difference modulo 256; in decimal mode both are read as
    /// packed BCD and A takes the difference modulo 100, packed again.
    /// Overflow is judged on the difference before it is reduced.
    pub open spec fn sbc(self, src: u16) -> Machine {
        let borrow: int = carry_in(!self.r.flag('C'));
        if self.r.flag('D') {
            let diff: int = from_bcd(self.r.a as int) - from_bcd(src as int) - borrow;
            let result: u8 = to_bcd(diff % 100) as u8;
            self.with_a(result).flagged('C', diff >= 0).flagged(
                'V',
                sub_overflows(self.r.a as int, src as int, diff),
            ).zn(result)
        } else {
            let diff: int = self.r.a - src - borrow;
            let result: u8 = (diff % 256) as u8;
            self.with_a(result).flagged('C', diff >= 0).flagged(
                'V',
                sub_overflows(self.r.a as int, src as int, diff),
            ).zn(result)
        }
    }

    /// AND: A and the operand, bit by bit.
    pub open spec fn and(self, src: u16) -> Machine {
        let result: u8 = self.r.a & low_byte(src);
        self.with_a(result).zn(result)
    }

    /// ORA: A or the operand, bit by bit.
    pub open spec fn ora(self, src: u16) -> Machine {
        let result: u8 = self.r.a | low_byte(src);
        self.with_a(result).zn(result)
    }

    /// EOR: A exclusive-or the operand, bit by bit.
    pub open spec fn eor(self, src: u16) -> Machine {
        let result: u8 = self.r.a ^ low_byte(src);
        self.with_a(result).zn(result)
    }

    /// BIT: Zero tells whether A and the operand have no bit in common;
    /// Negative and Overflow take bits 7 and 6 of the operand.
    pub open spec fn bit(self, src: u16) -> Machine {
        self.flagged('Z', (self.r.a as u16) & src == 0).flagged('N', src & 0x80 != 0).flagged(
            'V',
            src & 0x40 != 0,
        )
    }

    /// The flags of a comparison of `register` with `operand`: Zero if the
    /// two are equal, Carry if the operand is not the larger, Negative from
    /// bit 7 of the difference modulo 256. No register changes.
    pub open spec fn compare(self, register: u8, operand: u16) -> Machine {
        self.flagged('Z', register == operand).flagged('C', operand <= register).flagged(
            'N',
            bit7(register - operand),
        )
    }

    /// A taken branch: the program counter moves by the operand, read as a
    /// signed byte, modulo 2^16. It costs one cycle if the target lies on
    /// the page of the instruction that follows the branch, and two if not.
    pub open spec fn branch(self, src: u16) -> Machine {
        let target: u16 = indexed(self.r.pc as int, twos_complement(src as int));
        self.with_pc(target).charged(
            if cycle_page(self.r.pc as int) == cycle_page(target as int) {
                1
            } else {
                2
            },
        )
    }

    /// A branch that is taken if and only if `taken`.
    pub open spec fn branch_if(self, taken: bool, src: u16) -> Machine {
        if taken {
            self.branch(src)
        } else {
            self
        }
    }

    /// The byte at `addr` replaced by `result`, with Carry set to `carry`
    /// and Zero and Negative from `result`: the second half of a shift or
    /// rotate of memory. A refused write changes nothing.
    pub open spec fn write_shifted(self, addr: u16, result: u8, carry: bool) -> (
        Machine,
        Result<(), Fault>,
    ) {
        match store(self.mem, addr as int, result) {
            Ok(mem) => ((Machine { mem, ..self }).flagged('C', carry).zn(result), Ok(())),
            Err(fault) => (self, Err(fault)),
        }
    }

    /// ASL on memory: the byte at `addr` doubled modulo 256; Carry takes the
    /// bit that was shifted out.
    pub open spec fn asl(self, addr: u16) -> (Machine, Result<(), Fault>) {
        match load(self.mem, addr as int) {
            Ok(v) => self.write_shifted(addr, ((v * 2) % 256) as u8, v >= 0x80),
            Err(fault) => (self, Err(fault)),
        }
    }

    /// ASL on the accumulator.
    pub open spec fn asl_acc(self) -> Machine {
        let result: u8 = ((self.r.a * 2) % 256) as u8;
        self.with_a(result).flagged('C', self.r.a >= 0x80).zn(result)
    }

    /// ROL on memory: the byte at `addr` doubled modulo 256, with the old
    /// Carry in bit 0; Carry takes the bit that was shifted out.
    pub open spec fn rol(self, addr: u16) -> (Machine, Result<(), Fault>) {
        match load(self.mem, addr as int) {
            Ok(v) => self.write_shifted(
                addr,
                ((v * 2 + carry_in(self.r.flag('C'))) % 256) as u8,
                v >= 0x80,
            ),
            Err(fault) => (self, Err(fault)),
        }
    }

    /// ROL on the accumulator.
    pub open spec fn rol_acc(self) -> Machine {
        let result: u8 = ((self.r.a * 2 + carry_in(self.r.flag('C'))) % 256) as u8;
        self.with_a(result).flagged('C', self.r.a >= 0x80).zn(result)
    }

    /// ROR on memory: the byte at `addr` halved, with the old Carry in bit
    /// 7; Carry takes the bit that was shifted out.
    pub open spec fn ror(self, addr: u16) -> (Machine, Result<(), Fault>) {
        match load(self.mem, addr as int) {
            Ok(v) => self.write_shifted(
                addr,
                (v / 2 + 128 * carry_in(self.r.flag('C'))) as u8,
                v % 2 == 1,
            ),
            Err(fault) => (self, Err(fault)),
        }
    }

    /// ROR on the accumulator.
    pub open spec fn ror_acc(self) -> Machine {
        let result: u8 = (self.r.a / 2 + 128 * carry_in(self.r.flag('C'))) as u8;
        self.with_a(result).flagged('C', self.r.a % 2 == 1).zn(result)
    }

    /// LSR on memory: the byte at `addr` halved; Carry takes the bit that
    /// was shifted out, and takes it before the write is tried.
    pub open spec fn lsr(self, addr: u16) -> (Machine, Result<(), Fault>) {
        match load(self.mem, addr as int) {
            Ok(v) => {
                let m1: Machine = self.flagged('C', v % 2 == 1);
                match store(m1.mem, addr as int, v / 2) {
                    Ok(mem) => ((Machine { mem, ..m1 }).zn(v / 2), Ok(())),
                    Err(fault) => (m1, Err(fault)),
                }
            },
            Err(fault) => (self, Err(fault)),
        }
    }

    /// LSR on the accumulator.
    pub open spec fn lsr_acc(self) -> Machine {
        let result: u8 = self.r.a / 2;
        self.flagged('C', self.r.a % 2 == 1).with_a(result).zn(result)
    }

    /// The byte at `addr` moved by `delta`, modulo 256, with Zero and
    /// Negative from the new byte: INC and DEC.
    pub open spec fn modify(self, addr: u16, delta: int) -> (Machine, Result<(), Fault>) {
        match load(self.mem, addr as int) {
            Ok(v) => {
                let result: u8 = ((v + delta) % 256) as u8;
                match store(self.mem, addr as int, result) {
                    Ok(mem) => ((Machine { mem, ..self }).zn(result), Ok(())),
                    Err(fault) => (self, Err(fault)),
                }
            },
            Err(fault) => (self, Err(fault)),
        }
    }

    /// INC: the byte at `addr` plus one, modulo 256.
    pub open spec fn inc(self, addr: u16) -> (Machine, Result<(), Fault>) {
        self.modify(addr, 1)
    }

    /// DEC: the byte at `addr` minus one, modulo 256.
    pub open spec fn dec(self, addr: u16) -> (Machine, Result<(), Fault>) {
        self.modify(addr, -1)
    }

    /// INX: X plus one, modulo 256.
    pub open spec fn inx(self) -> Machine {
        let result: u8 = ((self.r.x + 1) % 256) as u8;
        self.with_x(result).zn(result)
    }

    /// INY: Y plus one, modulo 256.
    pub open spec fn iny(self) -> Machine {
        let result: u8 = ((self.r.y + 1) % 256) as u8;
        self.with_y(result).zn(result)
    }

    /// DEX: X minus one, modulo 256.
    pub open spec fn dex(self) -> Machine {
        let result: u8 = ((self.r.x - 1) % 256) as u8;
        self.with_x(result).zn(result)
    }

    /// DEY: Y minus one, modulo 256.
    pub open spec fn dey(self) -> Machine {
        let result: u8 = ((self.r.y - 1) % 256) as u8;
        self.with_y(result).zn(result)
    }

    /// LDA: the operand into A.
    pub open spec fn lda(self, src: u16) -> Machine {
        self.with_a(low_byte(src)).zn(low_byte(src))
    }

    /// LDX: the operand into X.
    pub open spec fn ldx(self, src: u16) -> Machine {
        self.with_x(low_byte(src)).zn(low_byte(src))
    }

    /// LDY: the operand into Y.
    pub open spec fn ldy(self, src: u16) -> Machine {
        self.with_y(low_byte(src)).zn(low_byte(src))
    }

    /// STA, STX, STY: `value` into the byte at `addr`.
    pub open spec fn st(self, addr: u16, value: u8) -> (Machine, Result<(), Fault>) {
        self.write(addr as int, value)
    }

    /// TAX: A into X.
    pub open spec fn tax(self) -> Machine {
        self.with_x(self.r.a).zn(self.r.a)
    }

    /// TXA: X into A.
    pub open spec fn txa(self) -> Machine {
        self.with_a(self.r.x).zn(self.r.x)
    }

    /// TAY: A into Y.
    pub open spec fn tay(self) -> Machine {
        self.with_y(self.r.a).zn(self.r.a)
    }

    /// TYA: Y into A.
    pub open spec fn tya(self) -> Machine {
        self.with_a(self.r.y).zn(self.r.y)
    }

    /// TXS: X into the stack pointer; no flag changes.
    pub open spec fn txs(self) -> Machine {
        Machine { r: Registers { s: self.r.x as u16, ..self.r }, ..self }
    }

    /// TSX: the stack pointer into X.
    pub open spec fn tsx(self) -> Machine {
        self.with_x(low_byte(self.r.s)).zn(low_byte(self.r.s))
    }

    /// JMP: the program counter goes to `addr`.
    pub open spec fn jmp(self, addr: u16) -> Machine {
        self.with_pc(addr)
    }

    /// JSR: the address of the last byte of the instruction, which is the
    /// program counter minus one, is pushed, and the program counter goes
    /// to `addr`.
    pub open spec fn jsr(self, addr: u16) -> (Machine, Result<(), Fault>) {
        let (m1, pushed) = self.push_word(indexed(self.r.pc as int, -1));
        match pushed {
            Ok(_) => (m1.with_pc(addr), Ok(())),
            Err(fault) => (m1, Err(fault)),
        }
    }

    /// RTS: the program counter goes to the popped word plus one.
    pub open spec fn rts(self) -> (Machine, Result<(), Fault>) {
        let (m1, popped) = self.pop_word();
        match popped {
            Ok(word) => (m1.with_pc(indexed(word as int, 1)), Ok(())),
            Err(fault) => (m1, Err(fault)),
        }
    }

    /// RTI: the status register is popped as it was pushed, then the
    /// program counter.
    pub open spec fn rti(self) -> (Machine, Result<(), Fault>) {
        let (m1, status) = self.pop();
        match status {
            Ok(p) => {
                let (m2, popped) = m1.with_p(p).pop_word();
                match popped {
                    Ok(word) => (m2.with_pc(word), Ok(())),
                    Err(fault) => (m2, Err(fault)),
                }
            },
            Err(fault) => (m1, Err(fault)),
        }
    }

    /// BRK: Break is set; the program counter and then the status register,
    /// Break included, are pushed; Interrupt-disable is set; and the program
    /// counter goes to the handler that the BRK vector names.
    pub open spec fn brk(self) -> (Machine, Result<(), Fault>) {
        let m1: Machine = self.flagged('B', true);
        let (m2, pushed) = m1.push_word(self.r.pc);
        match pushed {
            Ok(_) => {
                let (m3, pushed) = m2.push(m1.r.p);
                match pushed {
                    Ok(_) => {
                        let m4: Machine = m3.flagged('I', true);
                        match m4.interrupt_target(Interrupt::Brk) {
                            Ok(target) => (m4.with_pc(target), Ok(())),
                            Err(fault) => (m4, Err(fault)),
                        }
                    },
                    Err(fault) => (m3, Err(fault)),
                }
            },
            Err(fault) => (m2, Err(fault)),
        }
    }

    /// PHA: A is pushed, and Zero and Negative are set from it.
    pub open spec fn pha(self) -> (Machine, Result<(), Fault>) {
        let (m1, pushed) = self.push(self.r.a);
        match pushed {
            Ok(_) => (m1.zn(self.r.a), Ok(())),
            Err(fault) => (m1, Err(fault)),
        }
    }

    /// PHP: the status register is pushed as it is; afterwards its unused
    /// bit 5 is set.
    pub open spec fn php(self) -> (Machine, Result<(), Fault>) {
        let (m1, pushed) = self.push(self.r.p);
        match pushed {
            Ok(_) => (m1.with_p(self.r.p | 0x20), Ok(())),
            Err(fault) => (m1, Err(fault)),
        }
    }

    /// PLA: A is popped, and Zero and Negative are set from it.
    pub open spec fn pla(self) -> (Machine, Result<(), Fault>) {
        let (m1, popped) = self.pop();
        match popped {
            Ok(a) => (m1.with_a(a).zn(a), Ok(())),
            Err(fault) => (m1, Err(fault)),
        }
    }

    /// PLP: the status register is popped, and its unused bit 5 is set.
    pub open spec fn plp(self) -> (Machine, Result<(), Fault>) {
        let (m1, popped) = self.pop();
        match popped {
            Ok(p) => (m1.with_p(p | 0x20), Ok(())),
            Err(fault) => (m1, Err(fault)),
        }
    }
}

/// Whether bit 7 of `val` is set.
fn has_bit7(val: u32) -> (set: bool)
    ensures
        set == bit7(val as int),
{
    (val / 128) % 2 == 1
}

/// Adding 2^16 to a number changes neither its low byte nor its bit 7.
proof fn lemma_lifted(val: int)
    ensures
        (val + 0x10000) % 256 == val % 256,
        bit7(val + 0x10000) == bit7(val),
{
    assert((val + 512 * 128) / 128 == val / 128 + 512);
}

/// The trap behind every opcode without an operation.
pub fn op_not_implemented(cpu: &mut CPU, src: u16) -> (done: Result<(), Fault>)
    ensures
        *final(cpu) == *old(cpu),
        done == Err::<(), Fault>(Fault::NotImplemented),
{
    Err(Fault::NotImplemented)
}

/// ADC: adds the operand and Carry to A.
pub fn op_adc(cpu: &mut CPU, src: u16)
    requires
        old(cpu).wf(),
    ensures
        final(cpu).wf(),
        final(cpu)@ == old(cpu)@.adc(src),
{
    let v1: u16 = cpu.r.a as u16;
    let carry: u32 = if cpu.r.get_flag('C') {
        1
    } else {
        0
    };
    let r: u32;
    if cpu.r.get_flag('D') {
        let d1: u16 = cpu.from_bcd(v1);
        let d2: u16 = cpu.from_bcd(src);
        r = d1 as u32 + d2 as u32 + carry;
        let packed: u16 = cpu.to_bcd((r % 100) as u16);
        cpu.r.a = packed as u8;
        cpu.r.set_flag('C', r > 99);
    } else {
        r = v1 as u32 + src as u32 + carry;
        cpu.r.a = (r % 256) as u8;
        cpu.r.set_flag('C', r > 0xFF);
    }
    let a: u8 = cpu.r.a;
    cpu.r.zn(a);
    let overflow: bool = has_bit7(v1 as u32) == has_bit7(src as u32) && has_bit7(v1 as u32)
        != has_bit7(r);
    cpu.r.set_flag('V', overflow);
}

/// SBC: subtracts the operand and the borrow from A.
pub fn op_sbc(cpu: &mut CPU, src: u16)
    requires
        old(cpu).wf(),
    ensures
        final(cpu).wf(),
        final(cpu)@ == old(cpu)@.sbc(src),
{
    let v1: u16 = cpu.r.a as u16;
    let borrow: i32 = if cpu.r.get_flag('C') {
        0
    } else {
        1
    };
    let r: i32;
    if cpu.r.get_flag('D') {
        let d1: u16 = cpu.from_bcd(v1);
        let d2: u16 = cpu.from_bcd(src);
        r = d1 as i32 - d2 as i32 - borrow;
        let reduced: i32 = (r + 200) % 100;
        assert(reduced == (r as int) % 100) by {
            assert((r + 2 * 100) % 100 == (r as int) % 100);
        }
        let packed: u16 = cpu.to_bcd(reduced as u16);
        cpu.r.a = packed as u8;
    } else {
        r = v1 as i32 - src as i32 - borrow;
        cpu.r.a = ((r + 0x10000) % 256) as u8;
    }
    let lifted: u32 = (r + 0x10000) as u32;
    proof {
        lemma_lifted(r as int);
    }
    cpu.r.set_flag('C', r >= 0);
    let overflow: bool = has_bit7(v1 as u32) != has_bit7(src as u32) && has_bit7(v1 as u32)
        != has_bit7(lifted);
    cpu.r.set_flag('V', overflow);
    let a: u8 = cpu.r.a;
    cpu.r.zn(a);
}

/// AND: A and the operand.
pub fn op_and(cpu: &mut CPU, src: u16)
    requires
        old(cpu).wf(),
    ensures
        final(cpu).wf(),
        final(cpu)@ == old(cpu)@.and(src),
{
    let v: u8 = cpu.r.a & ((src % 256) as u8);
    cpu.r.a = v;
    cpu.r.zn(v);
}

/// ORA: A or the operand.
pub fn op_ora(cpu: &mut CPU, src: u16)
    requires
        old(cpu).wf(),
    ensures
        final(cpu).wf(),
        final(cpu)@ == old(cpu)@.ora(src),
{
    let v: u8 = cpu.r.a | ((src % 256) as u8);
    cpu.r.a = v;
    cpu.r.zn(v);
}

/// EOR: A exclusive-or the operand.
pub fn op_eor(cpu: &mut CPU, src: u16)
    requires
        old(cpu).wf(),
    ensures
        final(cpu).wf(),
        final(cpu)@ == old(cpu)@.eor(src),
{
    let v: u8 = cpu.r.a ^ ((src % 256) as u8);
    cpu.r.a = v;
    cpu.r.zn(v);
}

/// ASL: shifts the byte at `src` left by one bit.
pub fn op_asl(cpu: &mut CPU, src: u16) -> (done: Result<(), Fault>)
    requires
        old(cpu).wf(),
    ensures
        final(cpu).wf(),
        (final(cpu)@, done) == old(cpu)@.asl(src),
{
    let v_old: u8 = cpu.mmu.read(src as usize)?;
    let v_new: u8 = ((v_old as u16 * 2) % 256) as u8;
    cpu.mmu.write(src as usize, v_new)?;
    cpu.r.set_flag('C', v_old >= 0x80);
    cpu.r.zn(v_new);
    Ok(())
}

/// ASL A: shifts the accumulator left by one bit.
pub fn op_asl_acc(cpu: &mut CPU, src: u16)
    requires
        old(cpu).wf(),
    ensures
        final(cpu).wf(),
        final(cpu)@ == old(cpu)@.asl_acc(),
{
    let v_old: u8 = cpu.r.a;
    let v_new: u8 = ((v_old as u16 * 2) % 256) as u8;
    cpu.r.a = v_new;
    cpu.r.set_flag('C', v_old >= 0x80);
    cpu.r.zn(v_new);
}

/// BPL: branches if Negative is clear.
pub fn op_bpl(cpu: &mut CPU, src: u16)
    requires
        old(cpu).wf(),
    ensures
        final(cpu).wf(),
        final(cpu)@ == old(cpu)@.branch_if(old(cpu).r.flag('N') == false, src),
{
    if cpu.r.get_flag('N') == false {
        branch(cpu, src);
    }
}

/// BMI: branches if Negative is set.
pub fn op_bmi(cpu: &mut CPU, src: u16)
    requires
        old(cpu).wf(),
    ensures
        final(cpu).wf(),
        final(cpu)@ == old(cpu)@.branch_if(old(cpu).r.flag('N') == true, src),
{
    if cpu.r.get_flag('N') == true {
        branch(cpu, src);
    }
}

/// BVC: branches if Overflow is clear.
pub fn op_bvc_f(cpu: &mut CPU, src: u16)
    requires
        old(cpu).wf(),
    ensures
        final(cpu).wf(),
        final(cpu)@ == old(cpu)@.branch_if(old(cpu).r.flag('V') == false, src),
{
    if cpu.r.get_flag('V') == false {
        branch(cpu, src);
    }
}

/// BVS: branches if Overflow is set.
pub fn op_bvc_t(cpu: &mut CPU, src: u16)
    requires
        old(cpu).wf(),
    ensures
        final(cpu).wf(),
        final(cpu)@ == old(cpu)@.branch_if(old(cpu).r.flag('V') == true, src),
{
    if cpu.r.get_flag('V') == true {
        branch(cpu, src);
    }
}

/// BCC: branches if Carry is clear.
pub fn op_bcc(cpu: &mut CPU, src: u16)
    requires
        old(cpu).wf(),
    ensures
        final(cpu).wf(),
        final(cpu)@ == old(cpu)@.branch_if(old(cpu).r.flag('C') == false, src),
{
    if cpu.r.get_flag('C') == false {
        branch(cpu, src);
    }
}

/// BCS: branches if Carry is set.
pub fn op_bcs(cpu: &mut CPU, src: u16)
    requires
        old(cpu).wf(),
    ensures
        final(cpu).wf(),
        final(cpu)@ == old(cpu)@.branch_if(old(cpu).r.flag('C') == true, src),
{
    if cpu.r.get_flag('C') == true {
        branch(cpu, src);
    }
}

/// BNE: branches if Zero is clear.
pub fn op_bne(cpu: &mut CPU, src: u16)
    requires
        old(cpu).wf(),
    ensures
        final(cpu).wf(),
        final(cpu)@ == old(cpu)@.branch_if(old(cpu).r.flag('Z') == false, src),
{
    if cpu.r.get_flag('Z') == false {
        branch(cpu, src);
    }
}

/// BEQ: branches if Zero is set.
pub fn op_beq(cpu: &mut CPU, src: u16)
    requires
        old(cpu).wf(),
    ensures
        final(cpu).wf(),
        final(cpu)@ == old(cpu)@.branch_if(old(cpu).r.flag('Z') == true, src),
{
    if cpu.r.get_flag('Z') == true {
        branch(cpu, src);
    }
}

/// Takes a branch: moves the program counter by the signed byte `src` and
/// charges one cycle, or two if the target lies on another page.
pub fn branch(cpu: &mut CPU, src: u16)
    requires
        old(cpu).wf(),
    ensures
        final(cpu).wf(),
        final(cpu)@ == old(cpu)@.branch(src),
{
    let o: u16 = cpu.r.pc;
    let offset: i16 = cpu.from_twos_com(src);
    if offset >= 0 {
        cpu.r.pc = o.wrapping_add(offset as u16);
    } else {
        cpu.r.pc = o.wrapping_sub((-offset) as u16);
    }
    if (o / 0xFF) == (cpu.r.pc / 0xFF) {
        cpu.r.cc = cpu.r.cc.wrapping_add(1);
    } else {
        cpu.r.cc = cpu.r.cc.wrapping_add(2);
    }
}

/// BIT: tests the operand against A.
pub fn op_bit(cpu: &mut CPU, src: u16)
    requires
        old(cpu).wf(),
    ensures
        final(cpu).wf(),
        final(cpu)@ == old(cpu)@.bit(src),
{
    let a: u16 = cpu.r.a as u16;
    cpu.r.set_flag('Z', a & src == 0);
    cpu.r.set_flag('N', src & 0x80 != 0);
    cpu.r.set_flag('V', src & 0x40 != 0);
}

/// BRK: the software interrupt.
pub fn op_brk(cpu: &mut CPU, src: u16) -> (done: Result<(), Fault>)
    requires
        old(cpu).wf(),
    ensures
        final(cpu).wf(),
        (final(cpu)@, done) == old(cpu)@.brk(),
{
    cpu.r.set_flag('B', true);
    let pc: u16 = cpu.r.pc;
    cpu.stack_push_word(pc)?;
    let p: u8 = cpu.r.p;
    cpu.stack_push(p)?;
    cpu.r.set_flag('I', true);
    cpu.r.pc = cpu.interrupt_address(Interrupt::Brk)?;
    Ok(())
}

/// Sets the flags of a comparison of the register value `r` with the
/// operand `v`.
pub fn cp(cpu: &mut CPU, r: u8, v: u16)
    requires
        old(cpu).wf(),
    ensures
        final(cpu).wf(),
        final(cpu)@ == old(cpu)@.compare(r, v),
{
    let wide: u16 = u16::from(r);
    let low: u16 = v % 256;
    let o: u16 = if low > wide {
        wide + 256 - low
    } else {
        wide - low
    };
    assert(bit7(r - v) == (o >= 0x80)) by {
        let q: int = (v / 256) + (if low > wide {
            1int
        } else {
            0int
        });
        assert(r - v == o - 256 * q);
        assert((o - 2 * q * 128) / 128 == o / 128 - 2 * q);
    }
    cpu.r.set_flag('Z', wide == v);
    cpu.r.set_flag('C', v <= wide);
    cpu.r.set_flag('N', o >= 0x80);
}

/// CMP: compares A with the operand.
pub fn op_cmp(cpu: &mut CPU, src: u16)
    requires
        old(cpu).wf(),
    ensures
        final(cpu).wf(),
        final(cpu)@ == old(cpu)@.compare(old(cpu).r.a, src),
{
    let a: u8 = cpu.r.a;
    cp(cpu, a, src);
}

/// CPX: compares X with the operand.
pub fn op_cpx(cpu: &mut CPU, src: u16)
    requires
        old(cpu).wf(),
    ensures
        final(cpu).wf(),
        final(cpu)@ == old(cpu)@.compare(old(cpu).r.x, src),
{
    let x: u8 = cpu.r.x;
    cp(cpu, x, src);
}

/// CPY: compares Y with the operand.
pub fn op_cpy(cpu: &mut CPU, src: u16)
    requires
        old(cpu).wf(),
    ensures
        final(cpu).wf(),
        final(cpu)@ == old(cpu)@.compare(old(cpu).r.y, src),
{
    let y: u8 = cpu.r.y;
    cp(cpu, y, src);
}

/// DEC: decrements the byte at `src`.
pub fn op_dec(cpu: &mut CPU, src: u16) -> (done: Result<(), Fault>)
    requires
        old(cpu).wf(),
    ensures
        final(cpu).wf(),
        (final(cpu)@, done) == old(cpu)@.dec(src),
{
    let v: u8 = cpu.mmu.read(src as usize)?.wrapping_sub(1);
    cpu.mmu.write(src as usize, v)?;
    cpu.r.zn(v);
    Ok(())
}

/// DEX: decrements X.
pub fn op_dex(cpu: &mut CPU, src: u16)
    requires
        old(cpu).wf(),
    ensures
        final(cpu).wf(),
        final(cpu)@ == old(cpu)@.dex(),
{
    let v: u8 = cpu.r.x.wrapping_sub(1);
    cpu.r.x = v;
    cpu.r.zn(v);
}

/// DEY: decrements Y.
pub fn op_dey(cpu: &mut CPU, src: u16)
    requires
        old(cpu).wf(),
    ensures
        final(cpu).wf(),
        final(cpu)@ == old(cpu)@.dey(),
{
    let v: u8 = cpu.r.y.wrapping_sub(1);
    cpu.r.y = v;
    cpu.r.zn(v);
}

/// CLC: clears Carry.
pub fn op_clc(cpu: &mut CPU, src: u16)
    requires
        old(cpu).wf(),
    ensures
        final(cpu).wf(),
        final(cpu)@ == old(cpu)@.flagged('C', false),
{
    cpu.r.set_flag('C', false);
}

/// CLI: clears Interrupt-disable.
pub fn op_cli(cpu: &mut CPU, src: u16)
    requires
        old(cpu).wf(),
    ensures
        final(cpu).wf(),
        final(cpu)@ == old(cpu)@.flagged('I', false),
{
    cpu.r.set_flag('I', false);
}

/// CLV: clears Overflow.
pub fn op_clv(cpu: &mut CPU, src: u16)
    requires
        old(cpu).wf(),
    ensures
        final(cpu).wf(),
        final(cpu)@ == old(cpu)@.flagged('V', false),
{
    cpu.r.set_flag('V', false);
}

/// CLD: clears Decimal.
pub fn op_cld(cpu: &mut CPU, src: u16)
    requires
        old(cpu).wf(),
    ensures
        final(cpu).wf(),
        final(cpu)@ == old(cpu)@.flagged('D', false),
{
    cpu.r.set_flag('D', false);
}

/// SEC: sets Carry.
pub fn op_sec(cpu: &mut CPU, src: u16)
    requires
        old(cpu).wf(),
    ensures
        final(cpu).wf(),
        final(cpu)@ == old(cpu)@.flagged('C', true),
{
    cpu.r.set_flag('C', true);
}

/// SEI: sets Interrupt-disable.
pub fn op_sei(cpu: &mut CPU, src: u16)
    requires
        old(cpu).wf(),
    ensures
        final(cpu).wf(),
        final(cpu)@ == old(cpu)@.flagged('I', true),
{
    cpu.r.set_flag('I', true);
}

/// SED: sets Decimal.
pub fn op_sed(cpu: &mut CPU, src: u16)
    requires
        old(cpu).wf(),
    ensures
        final(cpu).wf(),
        final(cpu)@ == old(cpu)@.flagged('D', true),
{
    cpu.r.set_flag('D', true);
}

/// INC: increments the byte at `src`.
pub fn op_inc(cpu: &mut CPU, src: u16) -> (done: Result<(), Fault>)
    requires
        old(cpu).wf(),
    ensures
        final(cpu).wf(),
        (final(cpu)@, done) == old(cpu)@.inc(src),
{
    let v: u8 = cpu.mmu.read(src as usize)?.wrapping_add(1);
    cpu.mmu.write(src as usize, v)?;
    cpu.r.zn(v);
    Ok(())
}

/// INX: increments X.
pub fn op_inx(cpu: &mut CPU, src: u16)
    requires
        old(cpu).wf(),
    ensures
        final(cpu).wf(),
        final(cpu)@ == old(cpu)@.inx(),
{
    let v: u8 = cpu.r.x.wrapping_add(1);
    cpu.r.x = v;
    cpu.r.zn(v);
}

/// INY: increments Y.
pub fn op_iny(cpu: &mut CPU, src: u16)
    requires
        old(cpu).wf(),
    ensures
        final(cpu).wf(),
        final(cpu)@ == old(cpu)@.iny(),
{
    let v: u8 = cpu.r.y.wrapping_add(1);
    cpu.r.y = v;
    cpu.r.zn(v);
}

/// JMP: jumps to `src`.
pub fn op_jmp(cpu: &mut CPU, src: u16)
    requires
        old(cpu).wf(),
    ensures
        final(cpu).wf(),
        final(cpu)@ == old(cpu)@.jmp(src),
{
    cpu.r.pc = src;
}

/// JSR: pushes the return address and jumps to `src`.
pub fn op_jsr(cpu: &mut CPU, src: u16) -> (done: Result<(), Fault>)
    requires
        old(cpu).wf(),
    ensures
        final(cpu).wf(),
        (final(cpu)@, done) == old(cpu)@.jsr(src),
{
    let pc: u16 = cpu.r.pc.wrapping_sub(1);
    cpu.stack_push_word(pc)?;
    cpu.r.pc = src;
    Ok(())
}

/// LDA: loads A with the operand.
pub fn op_lda(cpu: &mut CPU, src: u16)
    requires
        old(cpu).wf(),
    ensures
        final(cpu).wf(),
        final(cpu)@ == old(cpu)@.lda(src),
{
    let v: u8 = (src % 256) as u8;
    cpu.r.a = v;
    cpu.r.zn(v);
}

/// LDX: loads X with the operand.
pub fn op_ldx(cpu: &mut CPU, src: u16)
    requires
        old(cpu).wf(),
    ensures
        final(cpu).wf(),
        final(cpu)@ == old(cpu)@.ldx(src),
{
    let v: u8 = (src % 256) as u8;
    cpu.r.x = v;
    cpu.r.zn(v);
}

/// LDY: loads Y with the operand.
pub fn op_ldy(cpu: &mut CPU, src: u16)
    requires
        old(cpu).wf(),
    ensures
        final(cpu).wf(),
        final(cpu)@ == old(cpu)@.ldy(src),
{
    let v: u8 = (src % 256) as u8;
    cpu.r.y = v;
    cpu.r.zn(v);
}

/// LSR A: shifts the accumulator right by one bit.
pub fn op_lsra(cpu: &mut CPU, src: u16)
    requires
        old(cpu).wf(),
    ensures
        final(cpu).wf(),
        final(cpu)@ == old(cpu)@.lsr_acc(),
{
    let val: bool = cpu.r.a % 2 == 1;
    cpu.r.set_flag('C', val);
    let v: u8 = cpu.r.a / 2;
    cpu.r.a = v;
    cpu.r.zn(v);
}

/// LSR: shifts the byte at `src` right by one bit.
pub fn op_lsr(cpu: &mut CPU, src: u16) -> (done: Result<(), Fault>)
    requires
        old(cpu).wf(),
    ensures
        final(cpu).wf(),
        (final(cpu)@, done) == old(cpu)@.lsr(src),
{
    let v_old: u8 = cpu.mmu.read(src as usize)?;
    let val: bool = v_old % 2 == 1;
    cpu.r.set_flag('C', val);
    let v: u8 = v_old / 2;
    cpu.mmu.write(src as usize, v)?;
    cpu.r.zn(v);
    Ok(())
}

/// NOP: does nothing.
pub fn op_nop(cpu: &mut CPU, src: u16)
    ensures
        *final(cpu) == *old(cpu),
{
}

/// PHA: pushes A.
pub fn op_pha(cpu: &mut CPU, src: u16) -> (done: Result<(), Fault>)
    requires
        old(cpu).wf(),
    ensures
        final(cpu).wf(),
        (final(cpu)@, done) == old(cpu)@.pha(),
{
    let a: u8 = cpu.r.a;
    cpu.stack_push(a)?;
    cpu.r.zn(a);
    Ok(())
}

/// PHP: pushes the status register.
pub fn op_php(cpu: &mut CPU, src: u16) -> (done: Result<(), Fault>)
    requires
        old(cpu).wf(),
    ensures
        final(cpu).wf(),
        (final(cpu)@, done) == old(cpu)@.php(),
{
    let p: u8 = cpu.r.p;
    cpu.stack_push(p)?;
    cpu.r.p = p | 0b00100000;
    Ok(())
}

/// PLA: pops A.
pub fn op_pla(cpu: &mut CPU, src: u16) -> (done: Result<(), Fault>)
    requires
        old(cpu).wf(),
    ensures
        final(cpu).wf(),
        (final(cpu)@, done) == old(cpu)@.pla(),
{
    let a: u8 = cpu.stack_pop()?;
    cpu.r.a = a;
    cpu.r.zn(a);
    Ok(())
}

/// PLP: pops the status register.
pub fn op_plp(cpu: &mut CPU, src: u16) -> (done: Result<(), Fault>)
    requires
        old(cpu).wf(),
    ensures
        final(cpu).wf(),
        (final(cpu)@, done) == old(cpu)@.plp(),
{
    let p: u8 = cpu.stack_pop()?;
    cpu.r.p = p | 0b00100000;
    Ok(())
}

/// ROL A: rotates the accumulator left through Carry.
pub fn op_rola(cpu: &mut CPU, src: u16)
    requires
        old(cpu).wf(),
    ensures
        final(cpu).wf(),
        final(cpu)@ == old(cpu)@.rol_acc(),
{
    let v_old: u8 = cpu.r.a;
    let carry: u8 = if cpu.r.get_flag('C') {
        1
    } else {
        0
    };
    let v_new: u8 = ((v_old as u16 * 2 + carry as u16) % 256) as u8;
    cpu.r.a = v_new;
    cpu.r.set_flag('C', v_old >= 0x80);
    cpu.r.zn(v_new);
}

/// ROL: rotates the byte at `src` left through Carry.
pub fn op_rol(cpu: &mut CPU, src: u16) -> (done: Result<(), Fault>)
    requires
        old(cpu).wf(),
    ensures
        final(cpu).wf(),
        (final(cpu)@, done) == old(cpu)@.rol(src),
{
    let v_old: u8 = cpu.mmu.read(src as usize)?;
    let carry: u8 = if cpu.r.get_flag('C') {
        1
    } else {
        0
    };
    let v_new: u8 = ((v_old as u16 * 2 + carry as u16) % 256) as u8;
    cpu.mmu.write(src as usize, v_new)?;
    cpu.r.set_flag('C', v_old >= 0x80);
    cpu.r.zn(v_new);
    Ok(())
}

/// ROR A: rotates the accumulator right through Carry.
pub fn op_rora(cpu: &mut CPU, src: u16)
    requires
        old(cpu).wf(),
    ensures
        final(cpu).wf(),
        final(cpu)@ == old(cpu)@.ror_acc(),
{
    let v_old: u8 = cpu.r.a;
    let carry: u8 = if cpu.r.get_flag('C') {
        1
    } else {
        0
    };
    let v_new: u8 = v_old / 2 + 128 * carry;
    cpu.r.a = v_new;
    cpu.r.set_flag('C', v_old % 2 == 1);
    cpu.r.zn(v_new);
}

/// ROR: rotates the byte at `src` right through Carry.
pub fn op_ror(cpu: &mut CPU, src: u16) -> (done: Result<(), Fault>)
    requires
        old(cpu).wf(),
    ensures
        final(cpu).wf(),
        (final(cpu)@, done) == old(cpu)@.ror(src),
{
    let v_old: u8 = cpu.mmu.read(src as usize)?;
    let carry: u8 = if cpu.r.get_flag('C') {
        1
    } else {
        0
    };
    let v_new: u8 = v_old / 2 + 128 * carry;
    cpu.mmu.write(src as usize, v_new)?;
    cpu.r.set_flag('C', v_old % 2 == 1);
    cpu.r.zn(v_new);
    Ok(())
}

/// RTI: returns from an interrupt.
pub fn op_rti(cpu: &mut CPU, src: u16) -> (done: Result<(), Fault>)
    requires
        old(cpu).wf(),
    ensures
        final(cpu).wf(),
        (final(cpu)@, done) == old(cpu)@.rti(),
{
    cpu.r.p = cpu.stack_pop()?;
    cpu.r.pc = cpu.stack_pop_word()?;
    Ok(())
}

/// RTS: returns from a subroutine.
pub fn op_rts(cpu: &mut CPU, src: u16) -> (done: Result<(), Fault>)
    requires
        old(cpu).wf(),
    ensures
        final(cpu).wf(),
        (final(cpu)@, done) == old(cpu)@.rts(),
{
    cpu.r.pc = cpu.stack_pop_word()?.wrapping_add(1);
    Ok(())
}

/// STA: stores A at `src`.
pub fn op_sta(cpu: &mut CPU, src: u16) -> (done: Result<(), Fault>)
    requires
        old(cpu).wf(),
    ensures
        final(cpu).wf(),
        (final(cpu)@, done) == old(cpu)@.st(src, old(cpu).r.a),
{
    cpu.mmu.write(src as usize, cpu.r.a)
}

/// STX: stores X at `src`.
pub fn op_stx(cpu: &mut CPU, src: u16) -> (done: Result<(), Fault>)
    requires
        old(cpu).wf(),
    ensures
        final(cpu).wf(),
        (final(cpu)@, done) == old(cpu)@.st(src, old(cpu).r.x),
{
    cpu.mmu.write(src as usize, cpu.r.x)
}

/// STY: stores Y at `src`.
pub fn op_sty(cpu: &mut CPU, src: u16) -> (done: Result<(), Fault>)
    requires
        old(cpu).wf(),
    ensures
        final(cpu).wf(),
        (final(cpu)@, done) == old(cpu)@.st(src, old(cpu).r.y),
{
    cpu.mmu.write(src as usize, cpu.r.y)
}

/// TAX: copies A to X.
pub fn op_tax(cpu: &mut CPU, _src: u16)
    requires
        old(cpu).wf(),
    ensures
        final(cpu).wf(),
        final(cpu)@ == old(cpu)@.tax(),
{
    let v: u8 = cpu.r.a;
    cpu.r.x = v;
    cpu.r.zn(v);
}

/// TXA: copies X to A.
pub fn op_txa(cpu: &mut CPU, _src: u16)
    requires
        old(cpu).wf(),
    ensures
        final(cpu).wf(),
        final(cpu)@ == old(cpu)@.txa(),
{
    let v: u8 = cpu.r.x;
    cpu.r.a = v;
    cpu.r.zn(v);
}

/// TAY: copies A to Y.
pub fn op_tay(cpu: &mut CPU, _src: u16)
    requires
        old(cpu).wf(),
    ensures
        final(cpu).wf(),
        final(cpu)@ == old(cpu)@.tay(),
{
    let v: u8 = cpu.r.a;
    cpu.r.y = v;
    cpu.r.zn(v);
}

/// TYA: copies Y to A.
pub fn op_tya(cpu: &mut CPU, _src: u16)
    requires
        old(cpu).wf(),
    ensures
        final(cpu).wf(),
        final(cpu)@ == old(cpu)@.tya(),
{
    let v: u8 = cpu.r.y;
    cpu.r.a = v;
    cpu.r.zn(v);
}

/// TXS: copies X to the stack pointer.
pub fn op_txs(cpu: &mut CPU, _src: u16)
    requires
        old(cpu).wf(),
    ensures
        final(cpu).wf(),
        final(cpu)@ == old(cpu)@.txs(),
{
    let v: u16 = cpu.r.x as u16;
    cpu.r.s = v;
}

/// TSX: copies the stack pointer to X.
pub fn op_tsx(cpu: &mut CPU, _src: u16)
    requires
        old(cpu).wf(),
    ensures
        final(cpu).wf(),
        final(cpu)@ == old(cpu)@.tsx(),
{
    let v: u8 = (cpu.r.s % 256) as u8;
    cpu.r.x = v;
    cpu.r.zn(v);
}

impl Operation {
    /// What the operation does to the machine when it is handed `src`, the
    /// effective address or the operand that the addressing mode resolved.
    pub open spec fn executed(self, m: Machine, src: u16) -> (Machine, Result<(), Fault>) {
        match self {
            Operation::NotImplemented => (m, Err(Fault::NotImplemented)),
            Operation::Adc => (m.adc(src), Ok(())),
            Operation::And => (m.and(src), Ok(())),
            Operation::Asl => m.asl(src),
            Operation::AslAcc => (m.asl_acc(), Ok(())),
            Operation::Bpl => (m.branch_if(!m.r.flag('N'), src), Ok(())),
            Operation::Bmi => (m.branch_if(m.r.flag('N'), src), Ok(())),
            Operation::Bvc => (m.branch_if(!m.r.flag('V'), src), Ok(())),
            Operation::Bvs => (m.branch_if(m.r.flag('V'), src), Ok(())),
            Operation::Bcc => (m.branch_if(!m.r.flag('C'), src), Ok(())),
            Operation::Bcs => (m.branch_if(m.r.flag('C'), src), Ok(())),
            Operation::Bne => (m.branch_if(!m.r.flag('Z'), src), Ok(())),
            Operation::Beq => (m.branch_if(m.r.flag('Z'), src), Ok(())),
            Operation::Bit => (m.bit(src), Ok(())),
            Operation::Brk => m.brk(),
            Operation::Cmp => (m.compare(m.r.a, src), Ok(())),
            Operation::Cpx => (m.compare(m.r.x, src), Ok(())),
            Operation::Cpy => (m.compare(m.r.y, src), Ok(())),
            Operation::Dec => m.dec(src),
            Operation::Dex => (m.dex(), Ok(())),
            Operation::Dey => (m.dey(), Ok(())),
            Operation::Eor => (m.eor(src), Ok(())),
            Operation::Clc => (m.flagged('C', false), Ok(())),
            Operation::Cli => (m.flagged('I', false), Ok(())),
            Operation::Clv => (m.flagged('V', false), Ok(())),
            Operation::Cld => (m.flagged('D', false), Ok(())),
            Operation::Sec => (m.flagged('C', true), Ok(())),
            Operation::Sei => (m.flagged('I', true), Ok(())),
            Operation::Sed => (m.flagged('D', true), Ok(())),
            Operation::Inc => m.inc(src),
            Operation::Inx => (m.inx(), Ok(())),
            Operation::Iny => (m.iny(), Ok(())),
            Operation::Jmp => (m.jmp(src), Ok(())),
            Operation::Jsr => m.jsr(src),
            Operation::Lda => (m.lda(src), Ok(())),
            Operation::Ldx => (m.ldx(src), Ok(())),
            Operation::Ldy => (m.ldy(src), Ok(())),
            Operation::LsrAcc => (m.lsr_acc(), Ok(())),
            Operation::Lsr => m.lsr(src),
            Operation::Nop => (m, Ok(())),
            Operation::Ora => (m.ora(src), Ok(())),
            Operation::Pha => m.pha(),
            Operation::Php => m.php(),
            Operation::Pla => m.pla(),
            Operation::Plp => m.plp(),
            Operation::RolAcc => (m.rol_acc(), Ok(())),
            Operation::Rol => m.rol(src),
            Operation::RorAcc => (m.ror_acc(), Ok(())),
            Operation::Ror => m.ror(src),
            Operation::Rti => m.rti(),
            Operation::Rts => m.rts(),
            Operation::Sbc => (m.sbc(src), Ok(())),
            Operation::Sta => m.st(src, m.r.a),
            Operation::Stx => m.st(src, m.r.x),
            Operation::Sty => m.st(src, m.r.y),
            Operation::Tax => (m.tax(), Ok(())),
            Operation::Txa => (m.txa(), Ok(())),
            Operation::Tay => (m.tay(), Ok(())),
            Operation::Tya => (m.tya(), Ok(())),
            Operation::Txs => (m.txs(), Ok(())),
            Operation::Tsx => (m.tsx(), Ok(())),
        }
    }

    /// Carries the operation out on `cpu`, with `src` from the addressing
    /// mode. Only [`Operation::NotImplemented`] and the operations that
    /// touch memory can fail.
    pub fn execute(self, cpu: &mut CPU, src: u16) -> (done: Result<(), Fault>)
        requires
            old(cpu).wf(),
        ensures
            final(cpu).wf(),
            (final(cpu)@, done) == self.executed(old(cpu)@, src),
    {
        match self {
            Operation::NotImplemented => op_not_implemented(cpu, src),
            Operation::Adc => {
                op_adc(cpu, src);
                Ok(())
            },
            Operation::And => {
                op_and(cpu, src);
                Ok(())
            },
            Operation::Asl => op_asl(cpu, src),
            Operation::AslAcc => {
                op_asl_acc(cpu, src);
                Ok(())
            },
            Operation::Bpl => {
                op_bpl(cpu, src);
                Ok(())
            },
            Operation::Bmi => {
                op_bmi(cpu, src);
                Ok(())
            },
            Operation::Bvc => {
                op_bvc_f(cpu, src);
                Ok(())
            },
            Operation::Bvs => {
                op_bvc_t(cpu, src);
                Ok(())
            },
            Operation::Bcc => {
                op_bcc(cpu, src);
                Ok(())
            },
            Operation::Bcs => {
                op_bcs(cpu, src);
                Ok(())
            },
            Operation::Bne => {
                op_bne(cpu, src);
                Ok(())
            },
            Operation::Beq => {
                op_beq(cpu, src);
                Ok(())
            },
            Operation::Bit => {
                op_bit(cpu, src);
                Ok(())
            },
            Operation::Brk => op_brk(cpu, src),
            Operation::Cmp => {
                op_cmp(cpu, src);
                Ok(())
            },
            Operation::Cpx => {
                op_cpx(cpu, src);
                Ok(())
            },
            Operation::Cpy => {
                op_cpy(cpu, src);
                Ok(())
            },
            Operation::Dec => op_dec(cpu, src),
            Operation::Dex => {
                op_dex(cpu, src);
                Ok(())
            },
            Operation::Dey => {
                op_dey(cpu, src);
                Ok(())
            },
            Operation::Eor => {
                op_eor(cpu, src);
                Ok(())
            },
            Operation::Clc => {
                op_clc(cpu, src);
                Ok(())
            },
            Operation::Cli => {
                op_cli(cpu, src);
                Ok(())
            },
            Operation::Clv => {
                op_clv(cpu, src);
                Ok(())
            },
            Operation::Cld => {
                op_cld(cpu, src);
                Ok(())
            },
            Operation::Sec => {
                op_sec(cpu, src);
                Ok(())
            },
            Operation::Sei => {
                op_sei(cpu, src);
                Ok(())
            },
            Operation::Sed => {
                op_sed(cpu, src);
                Ok(())
            },
            Operation::Inc => op_inc(cpu, src),
            Operation::Inx => {
                op_inx(cpu, src);
                Ok(())
            },
            Operation::Iny => {
                op_iny(cpu, src);
                Ok(())
            },
            Operation::Jmp => {
                op_jmp(cpu, src);
                Ok(())
            },
            Operation::Jsr => op_jsr(cpu, src),
            Operation::Lda => {
                op_lda(cpu, src);
                Ok(())
            },
            Operation::Ldx => {
                op_ldx(cpu, src);
                Ok(())
            },
            Operation::Ldy => {
                op_ldy(cpu, src);
                Ok(())
            },
            Operation::LsrAcc => {
                op_lsra(cpu, src);
                Ok(())
            },
            Operation::Lsr => op_lsr(cpu, src),
            Operation::Nop => {
                op_nop(cpu, src);
                Ok(())
            },
            Operation::Ora => {
                op_ora(cpu, src);
                Ok(())
            },
            Operation::Pha => op_pha(cpu, src),
            Operation::Php => op_php(cpu, src),
            Operation::Pla => op_pla(cpu, src),
            Operation::Plp => op_plp(cpu, src),
            Operation::RolAcc => {
                op_rola(cpu, src);
                Ok(())
            },
            Operation::Rol => op_rol(cpu, src),
            Operation::RorAcc => {
                op_rora(cpu, src);
                Ok(())
            },
            Operation::Ror => op_ror(cpu, src),
            Operation::Rti => op_rti(cpu, src),
            Operation::Rts => op_rts(cpu, src),
            Operation::Sbc => {
                op_sbc(cpu, src);
                Ok(())
            },
            Operation::Sta => op_sta(cpu, src),
            Operation::Stx => op_stx(cpu, src),
            Operation::Sty => op_sty(cpu, src),
            Operation::Tax => {
                op_tax(cpu, src);
                Ok(())
            },
            Operation::Txa => {
                op_txa(cpu, src);
                Ok(())
            },
            Operation::Tay => {
                op_tay(cpu, src);
                Ok(())
            },
            Operation::Tya => {
                op_tya(cpu, src);
                Ok(())
            },
            Operation::Txs => {
                op_txs(cpu, src);
                Ok(())
            },
            Operation::Tsx => {
                op_tsx(cpu, src);
                Ok(())
            },
        }
    }
}

/// The entry behind every opcode that has no instruction: it consumes one
/// operand byte and traps.
pub open spec fn trap() -> Instr {
    Instr { addr: Addressing::Immediate, code: Operation::NotImplemented }
}

/// The instruction set: the entry of the instruction table for `opcode`.
pub open spec fn instruction(opcode: u8) -> Instr {
    match opcode {
        0x00u8 => Instr { addr: Addressing::Implied, code: Operation::Brk },
        0x01u8 => Instr { addr: Addressing::IndexedIndirect, code: Operation::Ora },
        0x05u8 => Instr { addr: Addressing::ZeroPage, code: Operation::Ora },
        0x06u8 => Instr { addr: Addressing::ZeroPageAddr, code: Operation::Asl },
        0x08u8 => Instr { addr: Addressing::Implied, code: Operation::Php },
        0x09u8 => Instr { addr: Addressing::Immediate, code: Operation::Ora },
        0x0Au8 => Instr { addr: Addressing::Implied, code: Operation::AslAcc },
        0x0Du8 => Instr { addr: Addressing::Absolute, code: Operation::Ora },
        0x0Eu8 => Instr { addr: Addressing::AbsoluteAddr, code: Operation::Asl },
        0x10u8 => Instr { addr: Addressing::Immediate, code: Operation::Bpl },
        0x11u8 => Instr { addr: Addressing::IndirectIndexed, code: Operation::Ora },
        0x15u8 => Instr { addr: Addressing::ZeroPageX, code: Operation::Ora },
        0x16u8 => Instr { addr: Addressing::ZeroPageXAddr, code: Operation::Asl },
        0x18u8 => Instr { addr: Addressing::Implied, code: Operation::Clc },
        0x19u8 => Instr { addr: Addressing::AbsoluteY, code: Operation::Ora },
        0x1Au8 => Instr { addr: Addressing::Implied, code: Operation::Nop },
        0x1Du8 => Instr { addr: Addressing::AbsoluteX, code: Operation::Ora },
        0x1Eu8 => Instr { addr: Addressing::AbsoluteXAddr, code: Operation::Asl },
        0x20u8 => Instr { addr: Addressing::AbsoluteAddr, code: Operation::Jsr },
        0x21u8 => Instr { addr: Addressing::IndexedIndirect, code: Operation::And },
        0x24u8 => Instr { addr: Addressing::ZeroPage, code: Operation::Bit },
        0x25u8 => Instr { addr: Addressing::ZeroPage, code: Operation::And },
        0x26u8 => Instr { addr: Addressing::ZeroPageAddr, code: Operation::Rol },
        0x28u8 => Instr { addr: Addressing::Implied, code: Operation::Plp },
        0x29u8 => Instr { addr: Addressing::Immediate, code: Operation::And },
        0x2Au8 => Instr { addr: Addressing::Implied, code: Operation::RolAcc },
        0x2Cu8 => Instr { addr: Addressing::Absolute, code: Operation::Bit },
        0x2Du8 => Instr { addr: Addressing::Absolute, code: Operation::And },
        0x2Eu8 => Instr { addr: Addressing::AbsoluteAddr, code: Operation::Rol },
        0x30u8 => Instr { addr: Addressing::Immediate, code: Operation::Bmi },
        0x31u8 => Instr { addr: Addressing::IndirectIndexed, code: Operation::And },
        0x35u8 => Instr { addr: Addressing::ZeroPageX, code: Operation::And },
        0x36u8 => Instr { addr: Addressing::ZeroPageXAddr, code: Operation::Rol },
        0x38u8 => Instr { addr: Addressing::Implied, code: Operation::Sec },
        0x39u8 => Instr { addr: Addressing::AbsoluteY, code: Operation::And },
        0x3Au8 => Instr { addr: Addressing::Immediate, code: Operation::Nop },
        0x3Du8 => Instr { addr: Addressing::AbsoluteX, code: Operation::And },
        0x3Eu8 => Instr { addr: Addressing::AbsoluteXAddr, code: Operation::Rol },
        0x40u8 => Instr { addr: Addressing::Implied, code: Operation::Rti },
        0x41u8 => Instr { addr: Addressing::IndexedIndirect, code: Operation::Eor },
        0x45u8 => Instr { addr: Addressing::ZeroPage, code: Operation::Eor },
        0x46u8 => Instr { addr: Addressing::ZeroPageAddr, code: Operation::Lsr },
        0x48u8 => Instr { addr: Addressing::Implied, code: Operation::Pha },
        0x49u8 => Instr { addr: Addressing::Immediate, code: Operation::Eor },
        0x4Au8 => Instr { addr: Addressing::Implied, code: Operation::LsrAcc },
        0x4Cu8 => Instr { addr: Addressing::AbsoluteAddr, code: Operation::Jmp },
        0x4Du8 => Instr { addr: Addressing::Absolute, code: Operation::Eor },
        0x4Eu8 => Instr { addr: Addressing::AbsoluteAddr, code: Operation::Lsr },
        0x50u8 => Instr { addr: Addressing::Immediate, code: Operation::Bvc },
        0x51u8 => Instr { addr: Addressing::IndirectIndexed, code: Operation::Eor },
        0x55u8 => Instr { addr: Addressing::ZeroPageX, code: Operation::Eor },
        0x56u8 => Instr { addr: Addressing::ZeroPageXAddr, code: Operation::Lsr },
        0x58u8 => Instr { addr: Addressing::Implied, code: Operation::Cli },
        0x59u8 => Instr { addr: Addressing::AbsoluteY, code: Operation::Eor },
        0x5Au8 => Instr { addr: Addressing::Immediate, code: Operation::Nop },
        0x5Du8 => Instr { addr: Addressing::AbsoluteX, code: Operation::Eor },
        0x5Eu8 => Instr { addr: Addressing::AbsoluteXAddr, code: Operation::Lsr },
        0x60u8 => Instr { addr: Addressing::Implied, code: Operation::Rts },
        0x61u8 => Instr { addr: Addressing::IndexedIndirect, code: Operation::Adc },
        0x65u8 => Instr { addr: Addressing::ZeroPage, code: Operation::Adc },
        0x66u8 => Instr { addr: Addressing::ZeroPageAddr, code: Operation::Ror },
        0x68u8 => Instr { addr: Addressing::Implied, code: Operation::Pla },
        0x69u8 => Instr { addr: Addressing::Immediate, code: Operation::Adc },
        0x6Au8 => Instr { addr: Addressing::Implied, code: Operation::RorAcc },
        0x6Cu8 => Instr { addr: Addressing::IndirectAddr, code: Operation::Jmp },
        0x6Du8 => Instr { addr: Addressing::Absolute, code: Operation::Adc },
        0x6Eu8 => Instr { addr: Addressing::AbsoluteAddr, code: Operation::Ror },
        0x70u8 => Instr { addr: Addressing::Immediate, code: Operation::Bvs },
        0x71u8 => Instr { addr: Addressing::IndirectIndexed, code: Operation::Adc },
        0x75u8 => Instr { addr: Addressing::ZeroPageX, code: Operation::Adc },
        0x76u8 => Instr { addr: Addressing::ZeroPageXAddr, code: Operation::Ror },
        0x78u8 => Instr { addr: Addressing::Implied, code: Operation::Sei },
        0x79u8 => Instr { addr: Addressing::AbsoluteY, code: Operation::Adc },
        0x7Au8 => Instr { addr: Addressing::Immediate, code: Operation::Nop },
        0x7Du8 => Instr { addr: Addressing::AbsoluteX, code: Operation::Adc },
        0x7Eu8 => Instr { addr: Addressing::AbsoluteXAddr, code: Operation::Ror },
        0x81u8 => Instr { addr: Addressing::IndexedIndirectAddr, code: Operation::Sta },
        0x84u8 => Instr { addr: Addressing::ZeroPageAddr, code: Operation::Sty },
        0x85u8 => Instr { addr: Addressing::ZeroPageAddr, code: Operation::Sta },
        0x86u8 => Instr { addr: Addressing::ZeroPageAddr, code: Operation::Stx },
        0x88u8 => Instr { addr: Addressing::Implied, code: Operation::Dey },
        0x8Au8 => Instr { addr: Addressing::Implied, code: Operation::Txa },
        0x8Cu8 => Instr { addr: Addressing::AbsoluteAddr, code: Operation::Sty },
        0x8Du8 => Instr { addr: Addressing::AbsoluteAddr, code: Operation::Sta },
        0x8Eu8 => Instr { addr: Addressing::AbsoluteAddr, code: Operation::Stx },
        0x90u8 => Instr { addr: Addressing::Immediate, code: Operation::Bcc },
        0x91u8 => Instr { addr: Addressing::IndirectIndexedAddr, code: Operation::Sta },
        0x94u8 => Instr { addr: Addressing::ZeroPageXAddr, code: Operation::Sty },
        0x95u8 => Instr { addr: Addressing::ZeroPageXAddr, code: Operation::Sta },
        0x96u8 => Instr { addr: Addressing::ZeroPageYAddr, code: Operation::Stx },
        0x98u8 => Instr { addr: Addressing::Implied, code: Operation::Tya },
        0x99u8 => Instr { addr: Addressing::AbsoluteYAddr, code: Operation::Sta },
        0x9Au8 => Instr { addr: Addressing::Implied, code: Operation::Txs },
        0x9Du8 => Instr { addr: Addressing::AbsoluteXAddr, code: Operation::Sta },
        0xA0u8 => Instr { addr: Addressing::Immediate, code: Operation::Ldy },
        0xA1u8 => Instr { addr: Addressing::IndexedIndirect, code: Operation::Lda },
        0xA2u8 => Instr { addr: Addressing::Immediate, code: Operation::Ldx },
        0xA4u8 => Instr { addr: Addressing::ZeroPage, code: Operation::Ldy },
        0xA5u8 => Instr { addr: Addressing::ZeroPage, code: Operation::Lda },
        0xA6u8 => Instr { addr: Addressing::ZeroPage, code: Operation::Ldx },
        0xA8u8 => Instr { addr: Addressing::Implied, code: Operation::Tay },
        0xA9u8 => Instr { addr: Addressing::Immediate, code: Operation::Lda },
        0xAAu8 => Instr { addr: Addressing::Implied, code: Operation::Tax },
        0xACu8 => Instr { addr: Addressing::Absolute, code: Operation::Ldy },
        0xADu8 => Instr { addr: Addressing::Absolute, code: Operation::Lda },
        0xAEu8 => Instr { addr: Addressing::Absolute, code: Operation::Ldx },
        0xB0u8 => Instr { addr: Addressing::Immediate, code: Operation::Bcs },
        0xB1u8 => Instr { addr: Addressing::IndirectIndexed, code: Operation::Lda },
        0xB4u8 => Instr { addr: Addressing::ZeroPageX, code: Operation::Ldy },
        0xB5u8 => Instr { addr: Addressing::ZeroPageX, code: Operation::Lda },
        0xB6u8 => Instr { addr: Addressing::ZeroPageY, code: Operation::Ldx },
        0xB8u8 => Instr { addr: Addressing::Implied, code: Operation::Clv },
        0xB9u8 => Instr { addr: Addressing::AbsoluteY, code: Operation::Lda },
        0xBAu8 => Instr { addr: Addressing::Implied, code: Operation::Tsx },
        0xBCu8 => Instr { addr: Addressing::AbsoluteX, code: Operation::Ldy },
        0xBDu8 => Instr { addr: Addressing::AbsoluteX, code: Operation::Lda },
        0xBEu8 => Instr { addr: Addressing::AbsoluteY, code: Operation::Ldx },
        0xC0u8 => Instr { addr: Addressing::Immediate, code: Operation::Cpy },
        0xC1u8 => Instr { addr: Addressing::IndexedIndirect, code: Operation::Cmp },
        0xC4u8 => Instr { addr: Addressing::ZeroPage, code: Operation::Cpy },
        0xC5u8 => Instr { addr: Addressing::ZeroPage, code: Operation::Cmp },
        0xC6u8 => Instr { addr: Addressing::ZeroPageAddr, code: Operation::Dec },
        0xC8u8 => Instr { addr: Addressing::Immediate, code: Operation::Iny },
        0xC9u8 => Instr { addr: Addressing::Immediate, code: Operation::Cmp },
        0xCAu8 => Instr { addr: Addressing::Implied, code: Operation::Dex },
        0xCCu8 => Instr { addr: Addressing::Absolute, code: Operation::Cpy },
        0xCDu8 => Instr { addr: Addressing::Absolute, code: Operation::Cmp },
        0xCEu8 => Instr { addr: Addressing::AbsoluteAddr, code: Operation::Dec },
        0xD0u8 => Instr { addr: Addressing::Immediate, code: Operation::Bne },
        0xD1u8 => Instr { addr: Addressing::IndirectIndexed, code: Operation::Cmp },
        0xD5u8 => Instr { addr: Addressing::ZeroPageX, code: Operation::Cmp },
        0xD6u8 => Instr { addr: Addressing::ZeroPageXAddr, code: Operation::Dec },
        0xD8u8 => Instr { addr: Addressing::Implied, code: Operation::Cld },
        0xD9u8 => Instr { addr: Addressing::AbsoluteY, code: Operation::Cmp },
        0xDAu8 => Instr { addr: Addressing::Immediate, code: Operation::Nop },
        0xDDu8 => Instr { addr: Addressing::AbsoluteX, code: Operation::Cmp },
        0xDEu8 => Instr { addr: Addressing::AbsoluteXAddr, code: Operation::Dec },
        0xE0u8 => Instr { addr: Addressing::Immediate, code: Operation::Cpx },
        0xE1u8 => Instr { addr: Addressing::IndexedIndirect, code: Operation::Sbc },
        0xE4u8 => Instr { addr: Addressing::ZeroPage, code: Operation::Cpx },
        0xE5u8 => Instr { addr: Addressing::ZeroPage, code: Operation::Sbc },
        0xE6u8 => Instr { addr: Addressing::ZeroPageAddr, code: Operation::Inc },
        0xE8u8 => Instr { addr: Addressing::Immediate, code: Operation::Inx },
        0xE9u8 => Instr { addr: Addressing::Immediate, code: Operation::Sbc },
        0xEAu8 => Instr { addr: Addressing::Immediate, code: Operation::Nop },
        0xEBu8 => Instr { addr: Addressing::Immediate, code: Operation::Sbc },
        0xECu8 => Instr { addr: Addressing::Absolute, code: Operation::Cpx },
        0xEDu8 => Instr { addr: Addressing::Absolute, code: Operation::Sbc },
        0xEEu8 => Instr { addr: Addressing::AbsoluteAddr, code: Operation::Inc },
        0xF0u8 => Instr { addr: Addressing::Immediate, code: Operation::Beq },
        0xF1u8 => Instr { addr: Addressing::IndirectIndexed, code: Operation::Sbc },
        0xF5u8 => Instr { addr: Addressing::ZeroPageX, code: Operation::Sbc },
        0xF6u8 => Instr { addr: Addressing::ZeroPageXAddr, code: Operation::Inc },
        0xF8u8 => Instr { addr: Addressing::Implied, code: Operation::Sed },
        0xF9u8 => Instr { addr: Addressing::AbsoluteY, code: Operation::Sbc },
        0xFAu8 => Instr { addr: Addressing::Immediate, code: Operation::Nop },
        0xFDu8 => Instr { addr: Addressing::AbsoluteX, code: Operation::Sbc },
        0xFEu8 => Instr { addr: Addressing::AbsoluteXAddr, code: Operation::Inc },
        _ => trap(),
    }
}

/// Whether `table` is the instruction table: 256 entries, the one at each
/// opcode being [`instruction`] of it.
pub open spec fn is_op_table(table: Seq<Instr>) -> bool {
    &&& table.len() == 256
    &&& forall|opcode: u8| #[trigger] table[opcode as int] == instruction(opcode)
}

/// The entry of the instruction table for `opcode`.
pub fn decode(opcode: u8) -> (instr: Instr)
    ensures
        instr == instruction(opcode),
{
    match opcode {
        0x00 => Instr::new(Addressing::Implied, Operation::Brk),
        0x01 => Instr::new(Addressing::IndexedIndirect, Operation::Ora),
        0x05 => Instr::new(Addressing::ZeroPage, Operation::Ora),
        0x06 => Instr::new(Addressing::ZeroPageAddr, Operation::Asl),
        0x08 => Instr::new(Addressing::Implied, Operation::Php),
        0x09 => Instr::new(Addressing::Immediate, Operation::Ora),
        0x0A => Instr::new(Addressing::Implied, Operation::AslAcc),
        0x0D => Instr::new(Addressing::Absolute, Operation::Ora),
        0x0E => Instr::new(Addressing::AbsoluteAddr, Operation::Asl),
        0x10 => Instr::new(Addressing::Immediate, Operation::Bpl),
        0x11 => Instr::new(Addressing::IndirectIndexed, Operation::Ora),
        0x15 => Instr::new(Addressing::ZeroPageX, Operation::Ora),
        0x16 => Instr::new(Addressing::ZeroPageXAddr, Operation::Asl),
        0x18 => Instr::new(Addressing::Implied, Operation::Clc),
        0x19 => Instr::new(Addressing::AbsoluteY, Operation::Ora),
        0x1A => Instr::new(Addressing::Implied, Operation::Nop),
        0x1D => Instr::new(Addressing::AbsoluteX, Operation::Ora),
        0x1E => Instr::new(Addressing::AbsoluteXAddr, Operation::Asl),
        0x20 => Instr::new(Addressing::AbsoluteAddr, Operation::Jsr),
        0x21 => Instr::new(Addressing::IndexedIndirect, Operation::And),
        0x24 => Instr::new(Addressing::ZeroPage, Operation::Bit),
        0x25 => Instr::new(Addressing::ZeroPage, Operation::And),
        0x26 => Instr::new(Addressing::ZeroPageAddr, Operation::Rol),
        0x28 => Instr::new(Addressing::Implied, Operation::Plp),
        0x29 => Instr::new(Addressing::Immediate, Operation::And),
        0x2A => Instr::new(Addressing::Implied, Operation::RolAcc),
        0x2C => Instr::new(Addressing::Absolute, Operation::Bit),
        0x2D => Instr::new(Addressing::Absolute, Operation::And),
        0x2E => Instr::new(Addressing::AbsoluteAddr, Operation::Rol),
        0x30 => Instr::new(Addressing::Immediate, Operation::Bmi),
        0x31 => Instr::new(Addressing::IndirectIndexed, Operation::And),
        0x35 => Instr::new(Addressing::ZeroPageX, Operation::And),
        0x36 => Instr::new(Addressing::ZeroPageXAddr, Operation::Rol),
        0x38 => Instr::new(Addressing::Implied, Operation::Sec),
        0x39 => Instr::new(Addressing::AbsoluteY, Operation::And),
        0x3A => Instr::new(Addressing::Immediate, Operation::Nop),
        0x3D => Instr::new(Addressing::AbsoluteX, Operation::And),
        0x3E => Instr::new(Addressing::AbsoluteXAddr, Operation::Rol),
        0x40 => Instr::new(Addressing::Implied, Operation::Rti),
        0x41 => Instr::new(Addressing::IndexedIndirect, Operation::Eor),
        0x45 => Instr::new(Addressing::ZeroPage, Operation::Eor),
        0x46 => Instr::new(Addressing::ZeroPageAddr, Operation::Lsr),
        0x48 => Instr::new(Addressing::Implied, Operation::Pha),
        0x49 => Instr::new(Addressing::Immediate, Operation::Eor),
        0x4A => Instr::new(Addressing::Implied, Operation::LsrAcc),
        0x4C => Instr::new(Addressing::AbsoluteAddr, Operation::Jmp),
        0x4D => Instr::new(Addressing::Absolute, Operation::Eor),
        0x4E => Instr::new(Addressing::AbsoluteAddr, Operation::Lsr),
        0x50 => Instr::new(Addressing::Immediate, Operation::Bvc),
        0x51 => Instr::new(Addressing::IndirectIndexed, Operation::Eor),
        0x55 => Instr::new(Addressing::ZeroPageX, Operation::Eor),
        0x56 => Instr::new(Addressing::ZeroPageXAddr, Operation::Lsr),
        0x58 => Instr::new(Addressing::Implied, Operation::Cli),
        0x59 => Instr::new(Addressing::AbsoluteY, Operation::Eor),
        0x5A => Instr::new(Addressing::Immediate, Operation::Nop),
        0x5D => Instr::new(Addressing::AbsoluteX, Operation::Eor),
        0x5E => Instr::new(Addressing::AbsoluteXAddr, Operation::Lsr),
        0x60 => Instr::new(Addressing::Implied, Operation::Rts),
        0x61 => Instr::new(Addressing::IndexedIndirect, Operation::Adc),
        0x65 => Instr::new(Addressing::ZeroPage, Operation::Adc),
        0x66 => Instr::new(Addressing::ZeroPageAddr, Operation::Ror),
        0x68 => Instr::new(Addressing::Implied, Operation::Pla),
        0x69 => Instr::new(Addressing::Immediate, Operation::Adc),
        0x6A => Instr::new(Addressing::Implied, Operation::RorAcc),
        0x6C => Instr::new(Addressing::IndirectAddr, Operation::Jmp),
        0x6D => Instr::new(Addressing::Absolute, Operation::Adc),
        0x6E => Instr::new(Addressing::AbsoluteAddr, Operation::Ror),
        0x70 => Instr::new(Addressing::Immediate, Operation::Bvs),
        0x71 => Instr::new(Addressing::IndirectIndexed, Operation::Adc),
        0x75 => Instr::new(Addressing::ZeroPageX, Operation::Adc),
        0x76 => Instr::new(Addressing::ZeroPageXAddr, Operation::Ror),
        0x78 => Instr::new(Addressing::Implied, Operation::Sei),
        0x79 => Instr::new(Addressing::AbsoluteY, Operation::Adc),
        0x7A => Instr::new(Addressing::Immediate, Operation::Nop),
        0x7D => Instr::new(Addressing::AbsoluteX, Operation::Adc),
        0x7E => Instr::new(Addressing::AbsoluteXAddr, Operation::Ror),
        0x81 => Instr::new(Addressing::IndexedIndirectAddr, Operation::Sta),
        0x84 => Instr::new(Addressing::ZeroPageAddr, Operation::Sty),
        0x85 => Instr::new(Addressing::ZeroPageAddr, Operation::Sta),
        0x86 => Instr::new(Addressing::ZeroPageAddr, Operation::Stx),
        0x88 => Instr::new(Addressing::Implied, Operation::Dey),
        0x8A => Instr::new(Addressing::Implied, Operation::Txa),
        0x8C => Instr::new(Addressing::AbsoluteAddr, Operation::Sty),
        0x8D => Instr::new(Addressing::AbsoluteAddr, Operation::Sta),
        0x8E => Instr::new(Addressing::AbsoluteAddr, Operation::Stx),
        0x90 => Instr::new(Addressing::Immediate, Operation::Bcc),
        0x91 => Instr::new(Addressing::IndirectIndexedAddr, Operation::Sta),
        0x94 => Instr::new(Addressing::ZeroPageXAddr, Operation::Sty),
        0x95 => Instr::new(Addressing::ZeroPageXAddr, Operation::Sta),
        0x96 => Instr::new(Addressing::ZeroPageYAddr, Operation::Stx),
        0x98 => Instr::new(Addressing::Implied, Operation::Tya),
        0x99 => Instr::new(Addressing::AbsoluteYAddr, Operation::Sta),
        0x9A => Instr::new(Addressing::Implied, Operation::Txs),
        0x9D => Instr::new(Addressing::AbsoluteXAddr, Operation::Sta),
        0xA0 => Instr::new(Addressing::Immediate, Operation::Ldy),
        0xA1 => Instr::new(Addressing::IndexedIndirect, Operation::Lda),
        0xA2 => Instr::new(Addressing::Immediate, Operation::Ldx),
        0xA4 => Instr::new(Addressing::ZeroPage, Operation::Ldy),
        0xA5 => Instr::new(Addressing::ZeroPage, Operation::Lda),
        0xA6 => Instr::new(Addressing::ZeroPage, Operation::Ldx),
        0xA8 => Instr::new(Addressing::Implied, Operation::Tay),
        0xA9 => Instr::new(Addressing::Immediate, Operation::Lda),
        0xAA => Instr::new(Addressing::Implied, Operation::Tax),
        0xAC => Instr::new(Addressing::Absolute, Operation::Ldy),
        0xAD => Instr::new(Addressing::Absolute, Operation::Lda),
        0xAE => Instr::new(Addressing::Absolute, Operation::Ldx),
        0xB0 => Instr::new(Addressing::Immediate, Operation::Bcs),
        0xB1 => Instr::new(Addressing::IndirectIndexed, Operation::Lda),
        0xB4 => Instr::new(Addressing::ZeroPageX, Operation::Ldy),
        0xB5 => Instr::new(Addressing::ZeroPageX, Operation::Lda),
        0xB6 => Instr::new(Addressing::ZeroPageY, Operation::Ldx),
        0xB8 => Instr::new(Addressing::Implied, Operation::Clv),
        0xB9 => Instr::new(Addressing::AbsoluteY, Operation::Lda),
        0xBA => Instr::new(Addressing::Implied, Operation::Tsx),
        0xBC => Instr::new(Addressing::AbsoluteX, Operation::Ldy),
        0xBD => Instr::new(Addressing::AbsoluteX, Operation::Lda),
        0xBE => Instr::new(Addressing::AbsoluteY, Operation::Ldx),
        0xC0 => Instr::new(Addressing::Immediate, Operation::Cpy),
        0xC1 => Instr::new(Addressing::IndexedIndirect, Operation::Cmp),
        0xC4 => Instr::new(Addressing::ZeroPage, Operation::Cpy),
        0xC5 => Instr::new(Addressing::ZeroPage, Operation::Cmp),
        0xC6 => Instr::new(Addressing::ZeroPageAddr, Operation::Dec),
        0xC8 => Instr::new(Addressing::Immediate, Operation::Iny),
        0xC9 => Instr::new(Addressing::Immediate, Operation::Cmp),
        0xCA => Instr::new(Addressing::Implied, Operation::Dex),
        0xCC => Instr::new(Addressing::Absolute, Operation::Cpy),
        0xCD => Instr::new(Addressing::Absolute, Operation::Cmp),
        0xCE => Instr::new(Addressing::AbsoluteAddr, Operation::Dec),
        0xD0 => Instr::new(Addressing::Immediate, Operation::Bne),
        0xD1 => Instr::new(Addressing::IndirectIndexed, Operation::Cmp),
        0xD5 => Instr::new(Addressing::ZeroPageX, Operation::Cmp),
        0xD6 => Instr::new(Addressing::ZeroPageXAddr, Operation::Dec),
        0xD8 => Instr::new(Addressing::Implied, Operation::Cld),
        0xD9 => Instr::new(Addressing::AbsoluteY, Operation::Cmp),
        0xDA => Instr::new(Addressing::Immediate, Operation::Nop),
        0xDD => Instr::new(Addressing::AbsoluteX, Operation::Cmp),
        0xDE => Instr::new(Addressing::AbsoluteXAddr, Operation::Dec),
        0xE0 => Instr::new(Addressing::Immediate, Operation::Cpx),
        0xE1 => Instr::new(Addressing::IndexedIndirect, Operation::Sbc),
        0xE4 => Instr::new(Addressing::ZeroPage, Operation::Cpx),
        0xE5 => Instr::new(Addressing::ZeroPage, Operation::Sbc),
        0xE6 => Instr::new(Addressing::ZeroPageAddr, Operation::Inc),
        0xE8 => Instr::new(Addressing::Immediate, Operation::Inx),
        0xE9 => Instr::new(Addressing::Immediate, Operation::Sbc),
        0xEA => Instr::new(Addressing::Immediate, Operation::Nop),
        0xEB => Instr::new(Addressing::Immediate, Operation::Sbc),
        0xEC => Instr::new(Addressing::Absolute, Operation::Cpx),
        0xED => Instr::new(Addressing::Absolute, Operation::Sbc),
        0xEE => Instr::new(Addressing::AbsoluteAddr, Operation::Inc),
        0xF0 => Instr::new(Addressing::Immediate, Operation::Beq),
        0xF1 => Instr::new(Addressing::IndirectIndexed, Operation::Sbc),
        0xF5 => Instr::new(Addressing::ZeroPageX, Operation::Sbc),
        0xF6 => Instr::new(Addressing::ZeroPageXAddr, Operation::Inc),
        0xF8 => Instr::new(Addressing::Implied, Operation::Sed),
        0xF9 => Instr::new(Addressing::AbsoluteY, Operation::Sbc),
        0xFA => Instr::new(Addressing::Immediate, Operation::Nop),
        0xFD => Instr::new(Addressing::AbsoluteX, Operation::Sbc),
        0xFE => Instr::new(Addressing::AbsoluteXAddr, Operation::Inc),
        _ => Instr::new(Addressing::Immediate, Operation::NotImplemented),
    }
}

/// Builds the instruction table, indexed by opcode.
pub fn make_op_table() -> (ops: [Instr; 256])
    ensures
        is_op_table(ops@),
{
    let mut ops: [Instr; 256] = [Instr::new(Addressing::Immediate, Operation::NotImplemented); 256];
    let mut opcode: u8 = 0;
    loop
        invariant
            forall|below: u8| below < opcode ==> #[trigger] ops@[below as int] == instruction(below),
        ensures
            is_op_table(ops@),
        decreases 255 - opcode,
    {
        ops[opcode as usize] = decode(opcode);
        if opcode == 255 {
            break ;
        }
        opcode += 1;
    }
    ops
}

} // verus!
