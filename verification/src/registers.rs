//! The register file: the registers, the status flags and the fixed table
//! of interrupt vectors.

use vstd::prelude::*;

verus! {

/// The mask of the status bit that `flag` names, or zero if `flag` names none.
///
/// The status register is laid out as `N V - B D I Z C`, bit 7 first.
pub open spec fn flag_mask(flag: char) -> u8 {
    if flag == 'N' {
        0x80
    } else if flag == 'V' {
        0x40
    } else if flag == 'B' {
        0x10
    } else if flag == 'D' {
        0x08
    } else if flag == 'I' {
        0x04
    } else if flag == 'Z' {
        0x02
    } else if flag == 'C' {
        0x01
    } else {
        0
    }
}

/// Whether `flag` is one of the seven flag names `N V B D I Z C`.
pub open spec fn is_flag(flag: char) -> bool {
    flag == 'N' || flag == 'V' || flag == 'B' || flag == 'D' || flag == 'I' || flag == 'Z' || flag
        == 'C'
}

/// Whether the bits of `mask` that are set in `p` are not all clear.
pub open spec fn bit_test(p: u8, mask: u8) -> bool {
    p & mask != 0
}

/// `p` with the bits of `mask` set (`value`) or cleared (`!value`).
pub open spec fn bit_write(p: u8, mask: u8, value: bool) -> u8 {
    if value {
        p | mask
    } else {
        p & !mask
    }
}

/// The mask of a flag, as [`flag_mask`] gives it.
pub fn mask_of(flag: char) -> (mask: u8)
    requires
        is_flag(flag),
    ensures
        mask == flag_mask(flag),
{
    match flag {
        'N' => 0x80,
        'V' => 0x40,
        'B' => 0x10,
        'D' => 0x08,
        'I' => 0x04,
        'Z' => 0x02,
        _ => 0x01,
    }
}

/// The interrupts that have a vector in memory.
#[derive(Clone, Copy, Debug, PartialEq, Eq, Structural)]
pub enum Interrupt {
    Abort,
    Cop,
    Irq,
    Brk,
    Nmi,
    Reset,
}

impl Interrupt {
    /// The address of the two bytes that hold the handler of the interrupt.
    /// The table is fixed for the lifetime of the machine.
    pub open spec fn vector(self) -> usize {
        match self {
            Interrupt::Abort => 0xFFF8,
            Interrupt::Cop => 0xFFF4,
            Interrupt::Irq => 0xFFFE,
            Interrupt::Brk => 0xFFFE,
            Interrupt::Nmi => 0xFFFA,
            Interrupt::Reset => 0xFFFC,
        }
    }

    /// The address of the vector, as [`Interrupt::vector`] gives it.
    pub fn vector_address(self) -> (addr: usize)
        ensures
            addr == self.vector(),
    {
        match self {
            Interrupt::Abort => 0xFFF8,
            Interrupt::Cop => 0xFFF4,
            Interrupt::Irq => 0xFFFE,
            Interrupt::Brk => 0xFFFE,
            Interrupt::Nmi => 0xFFFA,
            Interrupt::Reset => 0xFFFC,
        }
    }

    /// The conventional upper-case name of the interrupt.
    pub open spec fn name_text(self) -> Seq<char> {
        match self {
            Interrupt::Abort => "ABORT"@,
            Interrupt::Cop => "COP"@,
            Interrupt::Irq => "IRQ"@,
            Interrupt::Brk => "BRK"@,
            Interrupt::Nmi => "NMI"@,
            Interrupt::Reset => "RESET"@,
        }
    }

    /// The name of the interrupt, as [`Interrupt::name_text`] gives it.
    pub fn name(self) -> (text: &'static str)
        ensures
            text@ == self.name_text(),
    {
        match self {
            Interrupt::Abort => "ABORT",
            Interrupt::Cop => "COP",
            Interrupt::Irq => "IRQ",
            Interrupt::Brk => "BRK",
            Interrupt::Nmi => "NMI",
            Interrupt::Reset => "RESET",
        }
    }
}

/// The registers of the processor, which hold most of its state.
#[derive(Debug)]
pub struct Registers {
    /// The accumulator.
    pub a: u8,
    /// The X index register.
    pub x: u8,
    /// The Y index register.
    pub y: u8,
    /// The stack pointer: an offset into the stack page, of which only the
    /// low eight bits are significant.
    pub s: u16,
    /// The program counter.
    pub pc: u16,
    /// The status flags `N V - B D I Z C`, bit 7 first.
    pub p: u8,
    /// The number of the 256-byte page that holds the stack.
    pub stack_page: usize,
    /// A marker byte, kept for drivers; no operation reads it.
    pub magic: u8,
    /// Whether the driver should go on stepping; no operation changes it.
    pub running: bool,
    /// The cycle counter: the extra cycles charged by page crossings and
    /// taken branches, counted modulo 2^32.
    pub cc: u32,
}

impl Registers {
    /// The registers are well formed when the stack pointer fits in eight
    /// bits and every address of the stack page can be represented.
    pub open spec fn wf(&self) -> bool {
        &&& self.s <= 0xFF
        &&& self.stack_page * 0x100 + 0xFF <= usize::MAX
    }

    /// The state of the registers at power-on.
    pub open spec fn power_on() -> Registers {
        Registers {
            a: 0,
            x: 0,
            y: 0,
            s: 0xFF,
            pc: 0,
            p: 0x24,
            stack_page: 0x1,
            magic: 0xEE,
            running: true,
            cc: 0,
        }
    }

    /// Whether `flag` is set.
    pub open spec fn flag(&self, flag: char) -> bool {
        bit_test(self.p, flag_mask(flag))
    }

    /// The registers with `flag` set to `value` and nothing else changed.
    pub open spec fn with_flag(self, flag: char, value: bool) -> Registers {
        Registers { p: bit_write(self.p, flag_mask(flag), value), ..self }
    }

    /// The registers with Zero and Negative set from `value`: Zero if and
    /// only if `value` is zero, Negative if and only if its bit 7 is set.
    pub open spec fn with_zn(self, value: u8) -> Registers {
        self.with_flag('Z', value == 0).with_flag('N', value >= 0x80)
    }

    /// The registers at power-on: all of A, X, Y and the counters zero, the
    /// stack pointer at the top of page one, and only Interrupt-disable and
    /// the unused status bit set.
    pub fn new() -> (r: Registers)
        ensures
            r == Registers::power_on(),
            r.wf(),
    {
        Registers {
            a: 0,
            x: 0,
            y: 0,
            s: 0xFF,
            pc: 0,
            p: 0b00100100,
            stack_page: 0x1,
            magic: 0xEE,
            running: true,
            cc: 0,
        }
    }

    /// Whether the registers are well formed. A driver that writes the
    /// stack pointer or the stack page can test them with this before it
    /// goes on.
    pub fn is_valid(&self) -> (valid: bool)
        ensures
            valid == self.wf(),
    {
        self.s <= 0xFF && self.stack_page <= (usize::MAX - 0xFF) / 0x100
    }

    /// Whether `flag`, one of `N V B D I Z C`, is set.
    pub fn get_flag(&self, flag: char) -> (set: bool)
        requires
            is_flag(flag),
        ensures
            set == self.flag(flag),
    {
        (self.p & mask_of(flag)) != 0
    }

    /// Sets `flag`, one of `N V B D I Z C`, to `value`.
    pub fn set_flag(&mut self, flag: char, value: bool)
        requires
            is_flag(flag),
        ensures
            *final(self) == old(self).with_flag(flag, value),
    {
        if value {
            self.p = self.p | mask_of(flag);
        } else {
            self.clear_flag(flag);
        }
    }

    /// Clears `flag`, one of `N V B D I Z C`.
    pub fn clear_flag(&mut self, flag: char)
        requires
            is_flag(flag),
        ensures
            *final(self) == old(self).with_flag(flag, false),
    {
        self.p = self.p & !mask_of(flag);
    }

    /// Clears the whole status register, the unused bit included.
    pub fn clear_flags(&mut self)
        ensures
            *final(self) == (Registers { p: 0, ..*old(self) }),
    {
        self.p = 0;
    }

    /// Sets Zero and Negative from `value`; every operation that loads or
    /// computes a byte ends with this.
    pub fn zn(&mut self, value: u8)
        ensures
            *final(self) == old(self).with_zn(value),
    {
        self.set_flag('Z', value == 0);
        self.set_flag('N', value >= 0x80);
    }
}

/// Writing one flag sets that flag and leaves every other flag as it was.
pub proof fn lemma_flag_write(r: Registers, flag: char, value: bool, other: char)
    requires
        is_flag(flag),
        is_flag(other),
    ensures
        r.with_flag(flag, value).flag(other) == (if other == flag {
            value
        } else {
            r.flag(other)
        }),
{
    let p: u8 = r.p;
    let m: u8 = flag_mask(flag);
    let k: u8 = flag_mask(other);
    assert(((p | m) & k != 0) == (m == k || (p & k != 0))) by (bit_vector)
        requires
            m == 1 || m == 2 || m == 4 || m == 8 || m == 16 || m == 64 || m == 128,
            k == 1 || k == 2 || k == 4 || k == 8 || k == 16 || k == 64 || k == 128,
    ;
    assert(((p & !m) & k != 0) == (m != k && (p & k != 0))) by (bit_vector)
        requires
            m == 1 || m == 2 || m == 4 || m == 8 || m == 16 || m == 64 || m == 128,
            k == 1 || k == 2 || k == 4 || k == 8 || k == 16 || k == 64 || k == 128,
    ;
}

} // verus!
