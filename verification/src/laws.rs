//! Laws of the machine that relate several of its functions, each proved
//! from the functions' definitions.

use crate::fault::Fault;
use crate::machine::{charge, from_bcd, indexed, to_bcd, twos_complement, Machine};
use crate::mmu::{load, store, Memory};
use crate::registers::{is_flag, lemma_flag_write, Registers};
use vstd::prelude::*;

verus! {

/// A byte that was stored at an address is the byte that a load from that
/// address gives, and a load from any other address gives what it gave
/// before.
pub proof fn lemma_store_load(m: Memory, addr: int, value: u8, other: int)
    ensures
        store(m, addr, value) matches Ok(after) ==> {
            &&& load(after, addr) == Ok::<u8, Fault>(value)
            &&& other != addr ==> load(after, other) == load(m, other)
        },
{
}

/// Setting Zero and Negative from a byte makes Zero tell whether the byte is
/// zero and Negative whether its bit 7 is set, and changes no other flag.
pub proof fn lemma_zn(r: Registers, value: u8, other: char)
    requires
        is_flag(other),
    ensures
        r.with_zn(value).flag('Z') == (value == 0),
        r.with_zn(value).flag('N') == (value >= 0x80),
        other != 'Z' && other != 'N' ==> r.with_zn(value).flag(other) == r.flag(other),
{
    let r1: Registers = r.with_flag('Z', value == 0);
    lemma_flag_write(r, 'Z', value == 0, 'Z');
    lemma_flag_write(r, 'Z', value == 0, other);
    lemma_flag_write(r1, 'N', value >= 0x80, 'Z');
    lemma_flag_write(r1, 'N', value >= 0x80, 'N');
    lemma_flag_write(r1, 'N', value >= 0x80, other);
}

/// The stack gives back what it was given: after a push that succeeded, a
/// pop succeeds, returns the pushed byte, and leaves every register as it
/// was before the push. This holds wherever the stack pointer stands, also
/// at 0, from where the push wraps it around to 255.
pub proof fn lemma_push_pop(m: Machine, value: u8)
    requires
        m.wf(),
    ensures
        m.push(value).1 is Ok ==> {
            let pushed: Machine = m.push(value).0;
            &&& pushed.pop().1 == Ok::<u8, Fault>(value)
            &&& pushed.pop().0.r == m.r
            &&& pushed.pop().0.mem == pushed.mem
        },
{
}

/// The stack gives back the words that it was given: after a word push that
/// succeeded, a word pop succeeds, returns the pushed word, and leaves every
/// register as it was before the push, wherever the stack pointer stands.
pub proof fn lemma_push_pop_word(m: Machine, value: u16)
    requires
        m.wf(),
    ensures
        m.push_word(value).1 is Ok ==> {
            let pushed: Machine = m.push_word(value).0;
            &&& pushed.pop_word().1 == Ok::<u16, Fault>(value)
            &&& pushed.pop_word().0.r == m.r
            &&& pushed.pop_word().0.mem == pushed.mem
        },
{
    if m.push_word(value).1 is Ok {
        let high: u8 = (value / 256) as u8;
        let low: u8 = (value % 256) as u8;
        let m1: Machine = m.push(high).0;
        let m2: Machine = m1.push(low).0;
        assert(m2 == m.push_word(value).0);
        lemma_push_pop(m1, low);
        let m3: Machine = m2.pop().0;
        assert(m3.r == m1.r);
        assert(m3.mem == m2.mem);
        assert(m1.stack_top() != m.stack_top());
        assert(load(m2.mem, m.stack_top()) == Ok::<u8, Fault>(high));
        assert(m3.pop().1 == Ok::<u8, Fault>(high));
        assert(high * 256 + low == value);
    }
}

/// Packed BCD is faithful on the two-digit numbers: encoding one gives a
/// byte, and decoding that byte gives the number back.
pub proof fn lemma_bcd_round_trip(n: int)
    requires
        0 <= n <= 99,
    ensures
        0 <= to_bcd(n) <= 0x99,
        from_bcd(to_bcd(n)) == n,
{
}

/// Comparing a register with an operand equal to it sets Zero and Carry and
/// clears Negative, whatever the flags were, and changes neither a register
/// other than the status register nor memory.
pub proof fn lemma_compare_equal(m: Machine, register: u8)
    ensures
        m.compare(register, register as u16).r.flag('Z'),
        m.compare(register, register as u16).r.flag('C'),
        !m.compare(register, register as u16).r.flag('N'),
        m.compare(register, register as u16) == m.with_p(
            m.compare(register, register as u16).r.p,
        ),
{
    let operand: u16 = register as u16;
    let r1: Registers = m.r.with_flag('Z', true);
    let r2: Registers = r1.with_flag('C', true);
    lemma_flag_write(m.r, 'Z', true, 'Z');
    lemma_flag_write(r1, 'C', true, 'Z');
    lemma_flag_write(r1, 'C', true, 'C');
    lemma_flag_write(r2, 'N', false, 'Z');
    lemma_flag_write(r2, 'N', false, 'C');
    lemma_flag_write(r2, 'N', false, 'N');
}

/// The target of a branch taken at program counter `pc` with operand `src`.
pub open spec fn branch_target(pc: u16, src: u16) -> u16 {
    indexed(pc as int, twos_complement(src as int))
}

/// Whether `a` and `b` lie in the same 256-byte page.
pub open spec fn same_page(a: u16, b: u16) -> bool {
    a / 0x100 == b / 0x100
}

/// Whether the cycle accounting, which tells pages apart by the quotient by
/// `0xFF`, judges `a` and `b` as their 256-byte pages do.
pub open spec fn accounting_agrees(a: u16, b: u16) -> bool {
    (a / 0xFF == b / 0xFF) == same_page(a, b)
}

/// A taken branch costs one cycle if its target lies in the 256-byte page of
/// the instruction that follows the branch, and two if it lies in another,
/// for every branch on which the cycle accounting judges the two addresses
/// as their pages do.
pub proof fn lemma_branch_cycles(m: Machine, src: u16)
    requires
        accounting_agrees(m.r.pc, branch_target(m.r.pc, src)),
    ensures
        m.branch(src).r.pc == branch_target(m.r.pc, src),
        m.branch(src).r.cc == charge(
            m.r.cc,
            if same_page(m.r.pc, branch_target(m.r.pc, src)) {
                1
            } else {
                2
            },
        ),
{
}

} // verus!
