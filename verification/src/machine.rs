//! The model of the machine, and the primitive steps of the processor
//! (fetching, the stack, the addressing modes) as functions on the model.

use crate::fault::Fault;
use crate::mmu::{load, load_word, store, Memory};
use crate::registers::{Interrupt, Registers};
use vstd::prelude::*;

verus! {

/// The mathematical model of the whole machine: the registers and what the
/// bus holds. Every executable function of the processor is specified as a
/// function from one `Machine` to the next.
pub struct Machine {
    /// The register file.
    pub r: Registers,
    /// The memory behind the bus.
    pub mem: Memory,
}

/// The decimal value of the packed BCD byte in the low eight bits of `val`:
/// ten times the high nibble plus the low nibble.
pub open spec fn from_bcd(val: int) -> int {
    ((val / 16) % 16) * 10 + val % 16
}

/// The packed BCD encoding of `val`: the tens in the high nibble, the units
/// in the low one.
pub open spec fn to_bcd(val: int) -> int {
    val / 10 * 16 + val % 10
}

/// The signed value of the low eight bits of `val`, read as two's complement.
pub open spec fn twos_complement(val: int) -> int {
    if val % 256 < 128 {
        val % 256
    } else {
        val % 256 - 256
    }
}

/// Whether bit 7, the sign bit of a byte, is set in the two's complement
/// form of `val`.
pub open spec fn bit7(val: int) -> bool {
    (val / 128) % 2 == 1
}

/// The number by which the cycle accounting tells pages apart. Two
/// addresses count as lying on one page when they have the same quotient
/// by `0xFF`.
pub open spec fn cycle_page(addr: int) -> int {
    addr / 0xFF
}

/// `cc` advanced by `cycles`, modulo 2^32.
pub open spec fn charge(cc: u32, cycles: int) -> u32 {
    ((cc + cycles) % 0x1_0000_0000) as u32
}

/// `base + index` as a 16-bit address.
pub open spec fn indexed(base: int, index: int) -> u16 {
    ((base + index) % 0x10000) as u16
}

/// `base + index` within the zero page.
pub open spec fn zero_page_indexed(base: int, index: int) -> u16 {
    ((base + index) % 256) as u16
}

/// The address of the high byte of the pointer whose low byte is at
/// `pointer`. The increment does not carry into the high byte of the
/// address: after `0x..FF` comes `0x..00` of the same page.
pub open spec fn pointer_high(pointer: u16) -> int {
    if pointer % 256 == 0xFF {
        pointer - 0xFF
    } else {
        pointer + 1
    }
}

impl Machine {
    /// The model is well formed when its registers are.
    pub open spec fn wf(self) -> bool {
        self.r.wf()
    }

    /// The machine with the program counter at `pc`.
    pub open spec fn with_pc(self, pc: u16) -> Machine {
        Machine { r: Registers { pc, ..self.r }, ..self }
    }

    /// The machine with `a` in the accumulator.
    pub open spec fn with_a(self, a: u8) -> Machine {
        Machine { r: Registers { a, ..self.r }, ..self }
    }

    /// The machine with `x` in the X register.
    pub open spec fn with_x(self, x: u8) -> Machine {
        Machine { r: Registers { x, ..self.r }, ..self }
    }

    /// The machine with `y` in the Y register.
    pub open spec fn with_y(self, y: u8) -> Machine {
        Machine { r: Registers { y, ..self.r }, ..self }
    }

    /// The machine with `p` for status register.
    pub open spec fn with_p(self, p: u8) -> Machine {
        Machine { r: Registers { p, ..self.r }, ..self }
    }

    /// The machine with `flag` set to `value`.
    pub open spec fn flagged(self, flag: char, value: bool) -> Machine {
        Machine { r: self.r.with_flag(flag, value), ..self }
    }

    /// The machine with Zero and Negative set from `value`.
    pub open spec fn zn(self, value: u8) -> Machine {
        Machine { r: self.r.with_zn(value), ..self }
    }

    /// The machine with `cycles` more on the cycle counter.
    pub open spec fn charged(self, cycles: int) -> Machine {
        Machine { r: Registers { cc: charge(self.r.cc, cycles), ..self.r }, ..self }
    }

    /// The machine after an indexed access from `base` to `target`: one
    /// cycle more if the two lie on different pages.
    pub open spec fn charged_for_crossing(self, base: int, target: int) -> Machine {
        if cycle_page(base) != cycle_page(target) {
            self.charged(1)
        } else {
            self
        }
    }

    /// Writing `value` at `addr`; a refused write changes nothing.
    pub open spec fn write(self, addr: int, value: u8) -> (Machine, Result<(), Fault>) {
        match store(self.mem, addr, value) {
            Ok(mem) => (Machine { mem, ..self }, Ok(())),
            Err(fault) => (self, Err(fault)),
        }
    }

    /// The byte at the program counter, which then moves on by one, modulo
    /// 2^16. If the byte cannot be read, nothing moves.
    pub open spec fn fetch(self) -> (Machine, Result<u8, Fault>) {
        match load(self.mem, self.r.pc as int) {
            Ok(byte) => (self.with_pc(indexed(self.r.pc as int, 1)), Ok(byte)),
            Err(fault) => (self, Err(fault)),
        }
    }

    /// The little-endian word at the program counter: two fetches, low byte
    /// first. A fault at the second byte leaves the counter behind the first.
    pub open spec fn fetch_word(self) -> (Machine, Result<u16, Fault>) {
        let (m1, low) = self.fetch();
        match low {
            Ok(low) => {
                let (m2, high) = m1.fetch();
                match high {
                    Ok(high) => (m2, Ok((high * 256 + low) as u16)),
                    Err(fault) => (m2, Err(fault)),
                }
            },
            Err(fault) => (m1, Err(fault)),
        }
    }

    /// The address to which the stack pointer points.
    pub open spec fn stack_top(self) -> int {
        self.r.stack_page * 0x100 + self.r.s
    }

    /// Pushing `value`: it is written where the stack pointer points, and
    /// the pointer then moves down by one, from 0 around to 255.
    pub open spec fn push(self, value: u8) -> (Machine, Result<(), Fault>) {
        match store(self.mem, self.stack_top(), value) {
            Ok(mem) => (
                Machine { r: Registers { s: ((self.r.s + 255) % 256) as u16, ..self.r }, mem },
                Ok(()),
            ),
            Err(fault) => (self, Err(fault)),
        }
    }

    /// Popping: the stack pointer moves up by one, from 255 around to 0, and
    /// the byte to which it then points is read.
    pub open spec fn pop(self) -> (Machine, Result<u8, Fault>) {
        let s: u16 = ((self.r.s + 1) % 256) as u16;
        match load(self.mem, self.r.stack_page * 0x100 + s) {
            Ok(byte) => (Machine { r: Registers { s, ..self.r }, ..self }, Ok(byte)),
            Err(fault) => (self, Err(fault)),
        }
    }

    /// Pushing a word: the high byte first, then the low byte.
    pub open spec fn push_word(self, value: u16) -> (Machine, Result<(), Fault>) {
        let (m1, high) = self.push((value / 256) as u8);
        match high {
            Ok(_) => m1.push((value % 256) as u8),
            Err(fault) => (m1, Err(fault)),
        }
    }

    /// Popping a word: the low byte first, then the high byte.
    pub open spec fn pop_word(self) -> (Machine, Result<u16, Fault>) {
        let (m1, low) = self.pop();
        match low {
            Ok(low) => {
                let (m2, high) = m1.pop();
                match high {
                    Ok(high) => (m2, Ok((high * 256 + low) as u16)),
                    Err(fault) => (m2, Err(fault)),
                }
            },
            Err(fault) => (m1, Err(fault)),
        }
    }

    /// The address of the handler of `interrupt`: the word stored at its
    /// vector.
    pub open spec fn interrupt_target(self, interrupt: Interrupt) -> Result<u16, Fault> {
        load_word(self.mem, interrupt.vector() as int)
    }

    /// The byte at the address that an addressing mode resolved, widened to
    /// 16 bits; a failed resolution is handed on.
    pub open spec fn operand_at(self, addr: Result<u16, Fault>) -> (Machine, Result<u16, Fault>) {
        match addr {
            Ok(addr) => match load(self.mem, addr as int) {
                Ok(byte) => (self, Ok(byte as u16)),
                Err(fault) => (self, Err(fault)),
            },
            Err(fault) => (self, Err(fault)),
        }
    }

    /// The operand that an addressing mode hands over when it resolved to
    /// `step`: the byte at the address, in the machine as the resolution
    /// left it.
    pub open spec fn operand_of(step: (Machine, Result<u16, Fault>)) -> (
        Machine,
        Result<u16, Fault>,
    ) {
        step.0.operand_at(step.1)
    }

    /// Immediate: the operand byte is the operand.
    pub open spec fn immediate(self) -> (Machine, Result<u16, Fault>) {
        let (m1, operand) = self.fetch();
        match operand {
            Ok(operand) => (m1, Ok(operand as u16)),
            Err(fault) => (m1, Err(fault)),
        }
    }

    /// Zero page: the operand byte is the address.
    pub open spec fn zero_page(self) -> (Machine, Result<u16, Fault>) {
        let (m1, operand) = self.fetch();
        match operand {
            Ok(operand) => (m1, Ok(operand as u16)),
            Err(fault) => (m1, Err(fault)),
        }
    }

    /// Zero page indexed: the operand byte plus `index`, within the zero page.
    pub open spec fn zero_page_plus(self, index: u8) -> (Machine, Result<u16, Fault>) {
        let (m1, operand) = self.fetch();
        match operand {
            Ok(operand) => (m1, Ok(zero_page_indexed(operand as int, index as int))),
            Err(fault) => (m1, Err(fault)),
        }
    }

    /// Absolute: the operand word is the address.
    pub open spec fn absolute(self) -> (Machine, Result<u16, Fault>) {
        self.fetch_word()
    }

    /// Absolute indexed: the operand word plus `index`, modulo 2^16, and one
    /// cycle more if the sum lies on another page than the operand.
    pub open spec fn absolute_plus(self, index: u8) -> (Machine, Result<u16, Fault>) {
        let (m1, operand) = self.fetch_word();
        match operand {
            Ok(operand) => {
                let target: u16 = indexed(operand as int, index as int);
                (m1.charged_for_crossing(operand as int, target as int), Ok(target))
            },
            Err(fault) => (m1, Err(fault)),
        }
    }

    /// The word whose low byte is at `low_at` and whose high byte is at
    /// `high_at`.
    pub open spec fn pointer(self, low_at: int, high_at: int) -> Result<u16, Fault> {
        if self.mem.dom().contains(low_at) && self.mem.dom().contains(high_at) {
            Ok((self.mem[high_at].value * 256 + self.mem[low_at].value) as u16)
        } else {
            Err(Fault::Unmapped)
        }
    }

    /// Indirect: the operand word is the address of the low byte of the
    /// target, whose high byte follows on the same page.
    pub open spec fn indirect(self) -> (Machine, Result<u16, Fault>) {
        let (m1, operand) = self.fetch_word();
        match operand {
            Ok(operand) => (m1, m1.pointer(operand as int, pointer_high(operand))),
            Err(fault) => (m1, Err(fault)),
        }
    }

    /// Indexed indirect: the operand byte plus X, within the zero page, is
    /// the address of the target, whose high byte follows within the zero
    /// page.
    pub open spec fn indexed_indirect(self) -> (Machine, Result<u16, Fault>) {
        let (m1, operand) = self.fetch();
        match operand {
            Ok(operand) => {
                let at: u16 = zero_page_indexed(operand as int, self.r.x as int);
                (m1, m1.pointer(at as int, zero_page_indexed(at as int, 1) as int))
            },
            Err(fault) => (m1, Err(fault)),
        }
    }

    /// Indirect indexed: the operand byte is the zero-page address of a
    /// pointer; the target is that pointer plus Y, modulo 2^16, and costs one
    /// cycle more if it lies on another page than the pointer.
    pub open spec fn indirect_indexed(self) -> (Machine, Result<u16, Fault>) {
        let (m1, operand) = self.fetch();
        match operand {
            Ok(operand) => match m1.pointer(
                operand as int,
                zero_page_indexed(operand as int, 1) as int,
            ) {
                Ok(base) => {
                    let target: u16 = indexed(base as int, self.r.y as int);
                    (m1.charged_for_crossing(base as int, target as int), Ok(target))
                },
                Err(fault) => (m1, Err(fault)),
            },
            Err(fault) => (m1, Err(fault)),
        }
    }
}

} // verus!
