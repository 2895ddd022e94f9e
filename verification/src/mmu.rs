//! The memory bus: fixed blocks of RAM and ROM that do not overlap, with
//! byte and word access, and the map from addresses to cells that models it.

use crate::fault::Fault;
use vstd::prelude::*;

verus! {

/// What the bus holds at one mapped address.
pub struct Cell {
    /// The byte stored there.
    pub value: u8,
    /// Whether the address belongs to a read-only block.
    pub readonly: bool,
}

/// The mathematical model of a memory bus: a partial map from addresses to
/// cells. An address outside its domain is covered by no block.
pub type Memory = Map<int, Cell>;

/// The byte at `addr`, or the fault that reading it raises.
pub open spec fn load(m: Memory, addr: int) -> Result<u8, Fault> {
    if m.dom().contains(addr) {
        Ok(m[addr].value)
    } else {
        Err(Fault::Unmapped)
    }
}

/// The memory after writing `value` at `addr`, or the fault that the write raises.
pub open spec fn store(m: Memory, addr: int, value: u8) -> Result<Memory, Fault> {
    if !m.dom().contains(addr) {
        Err(Fault::Unmapped)
    } else if m[addr].readonly {
        Err(Fault::ReadOnly)
    } else {
        Ok(m.insert(addr, Cell { value, readonly: false }))
    }
}

/// The little-endian word whose low byte is at `addr` and whose high byte is
/// at `addr + 1`.
pub open spec fn load_word(m: Memory, addr: int) -> Result<u16, Fault> {
    if m.dom().contains(addr) && m.dom().contains(addr + 1) {
        Ok((m[addr + 1].value * 256 + m[addr].value) as u16)
    } else {
        Err(Fault::Unmapped)
    }
}

/// The memory with every writable cell set to zero.
pub open spec fn cleared(m: Memory) -> Memory {
    Map::new(
        |a: int| m.dom().contains(a),
        |a: int|
            if m[a].readonly {
                m[a]
            } else {
                Cell { value: 0, readonly: false }
            },
    )
}

/// `init` cut or zero-padded to exactly `length` bytes.
pub open spec fn padded(init: Seq<u8>, length: nat) -> Seq<u8> {
    Seq::new(
        length,
        |i: int|
            if i < init.len() {
                init[i]
            } else {
                0u8
            },
    )
}

/// One contiguous region of memory: RAM, or ROM when `readonly`.
#[derive(Debug)]
pub struct Block {
    /// The address of the first byte.
    start: usize,
    /// The number of bytes.
    length: usize,
    /// Whether writes are refused.
    readonly: bool,
    /// The contents, one byte per address.
    memory: Vec<u8>,
}

impl Block {
    /// The address of the first byte of the block.
    pub closed spec fn base(&self) -> int {
        self.start as int
    }

    /// The number of addresses that the block spans.
    pub closed spec fn size(&self) -> int {
        self.length as int
    }

    /// Whether the block refuses writes.
    pub closed spec fn is_readonly(&self) -> bool {
        self.readonly
    }

    /// The bytes that the block holds, the one at `base()` first.
    pub closed spec fn bytes(&self) -> Seq<u8> {
        self.memory@
    }

    /// A block is well formed when it is not empty, its buffer fills it
    /// exactly, and its last address can be represented.
    pub open spec fn wf(&self) -> bool {
        &&& self.size() > 0
        &&& self.bytes().len() == self.size()
        &&& self.base() + self.size() <= usize::MAX
    }

    /// Whether `addr` lies in the half-open range `[base, base + size)`.
    pub open spec fn contains(&self, addr: int) -> bool {
        self.base() <= addr < self.base() + self.size()
    }

    /// The cell that the block holds at `addr`.
    pub open spec fn cell(&self, addr: int) -> Cell {
        Cell { value: self.bytes()[addr - self.base()], readonly: self.is_readonly() }
    }

    /// The block as a memory of its own.
    pub open spec fn cells(&self) -> Memory {
        Map::new(|a: int| self.contains(a), |a: int| self.cell(a))
    }

    /// The arguments from which [`Block::new`] can build a block.
    pub open spec fn accepts(start: usize, length: usize, memory: Option<Vec<u8>>) -> bool {
        &&& length > 0
        &&& start + length <= usize::MAX
        &&& memory matches Some(init) ==> init@.len() <= length
    }

    /// Builds a block of `length` bytes at `start`. With `memory`, the block
    /// starts out holding those bytes, zero-padded to `length`; without, it is
    /// all zeros.
    ///
    /// Refused with [`Fault::IllegalBlock`]: a length of zero, a buffer longer
    /// than the block, and a range that does not fit in the address type.
    pub fn new(start: usize, length: usize, readonly: bool, memory: Option<Vec<u8>>) -> (made:
        Result<Block, Fault>)
        ensures
            made is Ok <==> Block::accepts(start, length, memory),
            made matches Err(fault) ==> fault == Fault::IllegalBlock,
            made matches Ok(block) ==> {
                &&& block.wf()
                &&& block.base() == start
                &&& block.size() == length
                &&& block.is_readonly() == readonly
                &&& block.bytes() == padded(
                    match memory {
                        Some(init) => init@,
                        None => Seq::empty(),
                    },
                    length as nat,
                )
            },
    {
        if length == 0 || start > usize::MAX - length {
            return Err(Fault::IllegalBlock);
        }
        let new_memory: Vec<u8> = match memory {
            Some(mut existing_memory) => {
                let existing_len: usize = existing_memory.len();
                if existing_len > length {
                    return Err(Fault::IllegalBlock);
                }
                let missing: usize = length - existing_len;
                let mut padding: Vec<u8> = vec![0u8; missing];
                existing_memory.append(&mut padding);
                existing_memory
            },
            None => vec![0u8; length],
        };
        Ok(Block { start, length, readonly, memory: new_memory })
    }
}

impl Clone for Block {
    /// A copy of the block: the same range, the same protection and the
    /// same bytes.
    fn clone(&self) -> (copy: Block)
        ensures
            copy.base() == self.base(),
            copy.size() == self.size(),
            copy.is_readonly() == self.is_readonly(),
            copy.bytes() == self.bytes(),
    {
        Block {
            start: self.start,
            length: self.length,
            readonly: self.readonly,
            memory: self.memory.clone(),
        }
    }
}

/// The memory that results from putting `block` on a bus that holds `m`, or
/// the fault for which the bus refuses the block.
pub open spec fn attach(m: Memory, block: Block) -> Result<Memory, Fault> {
    if !block.wf() {
        Err(Fault::IllegalBlock)
    } else if exists|a: int| #[trigger] block.contains(a) && m.dom().contains(a) {
        Err(Fault::Overlap)
    } else {
        Ok(m.union_prefer_right(block.cells()))
    }
}

/// The memory that results from attaching `blocks` one after the other to an
/// empty bus, or the fault of the first block that is refused.
pub open spec fn assemble(blocks: Seq<Block>) -> Result<Memory, Fault>
    decreases blocks.len(),
{
    if blocks.len() == 0 {
        Ok(Map::empty())
    } else {
        match assemble(blocks.drop_last()) {
            Ok(m) => attach(m, blocks.last()),
            Err(fault) => Err(fault),
        }
    }
}

/// The memory bus: a set of blocks that do not overlap, and byte and word
/// access to the addresses that they cover.
#[derive(Debug)]
pub struct MMU {
    blocks: Vec<Block>,
}

impl View for MMU {
    type V = Memory;

    /// The bus as a map from each covered address to its cell.
    closed spec fn view(&self) -> Memory {
        Map::new(
            |a: int| self.covers(a),
            |a: int| self.blocks@[self.owner(a)].cell(a),
        )
    }
}

impl MMU {
    /// Whether some block of the bus contains `addr`.
    spec fn covers(&self, addr: int) -> bool {
        exists|i: int| 0 <= i < self.blocks@.len() && (#[trigger] self.blocks@[i]).contains(addr)
    }

    /// The index of a block that contains `addr`, where there is one.
    spec fn owner(&self, addr: int) -> int {
        choose|i: int| 0 <= i < self.blocks@.len() && (#[trigger] self.blocks@[i]).contains(addr)
    }

    /// The invariant of the bus: every block is well formed and no address
    /// belongs to two blocks.
    pub closed spec fn wf(&self) -> bool {
        &&& forall|i: int| 0 <= i < self.blocks@.len() ==> (#[trigger] self.blocks@[i]).wf()
        &&& forall|i: int, j: int, a: int|
            #![trigger self.blocks@[i].contains(a), self.blocks@[j].contains(a)]
            0 <= i < self.blocks@.len() && 0 <= j < self.blocks@.len() && self.blocks@[i].contains(
                a,
            ) && self.blocks@[j].contains(a) ==> i == j
    }

    /// On a well-formed bus the block that holds `addr` is the only one.
    proof fn lemma_owner(&self, i: int, addr: int)
        requires
            self.wf(),
            0 <= i < self.blocks@.len(),
            self.blocks@[i].contains(addr),
        ensures
            self.covers(addr),
            self.owner(addr) == i,
            self@.dom().contains(addr),
            self@[addr] == self.blocks@[i].cell(addr),
    {
    }

    /// Whether `kept` has the range and the length of buffer of `block`.
    spec fn same_range(block: Block, kept: Block) -> bool {
        &&& kept.base() == block.base()
        &&& kept.size() == block.size()
        &&& kept.bytes().len() == block.bytes().len()
    }

    /// A bus stays well formed, and every address stays with its block,
    /// when each block keeps its range and at most one block is added
    /// behind them, well formed and apart from them. The addresses of the
    /// bus are then those it had and those of the added block.
    proof fn lemma_ranges_kept(before: MMU, after: MMU)
        requires
            before.wf(),
            before.blocks@.len() <= after.blocks@.len() <= before.blocks@.len() + 1,
            forall|i: int|
                0 <= i < before.blocks@.len() ==> MMU::same_range(
                    #[trigger] before.blocks@[i],
                    after.blocks@[i],
                ),
            after.blocks@.len() > before.blocks@.len() ==> {
                &&& after.blocks@.last().wf()
                &&& forall|a: int| #[trigger]
                    after.blocks@.last().contains(a) ==> !before@.dom().contains(a)
            },
        ensures
            after.wf(),
            forall|a: int|
                #[trigger] after@.dom().contains(a) <==> before@.dom().contains(a) || (
                after.blocks@.len() > before.blocks@.len() && after.blocks@.last().contains(a)),
            forall|a: int|
                before@.dom().contains(a) ==> #[trigger] after.owner(a) == before.owner(a),
            forall|a: int|
                after.blocks@.len() > before.blocks@.len() && after.blocks@.last().contains(a)
                    ==> #[trigger] after.owner(a) == before.blocks@.len(),
    {
        let n: int = before.blocks@.len() as int;
        assert forall|i: int, a: int| 0 <= i < n implies #[trigger] after.blocks@[i].contains(a)
            == before.blocks@[i].contains(a) by {
            assert(MMU::same_range(before.blocks@[i], after.blocks@[i]));
        }
        assert forall|i: int| 0 <= i < after.blocks@.len() implies (
        #[trigger] after.blocks@[i]).wf() by {
            if i < n {
                assert(MMU::same_range(before.blocks@[i], after.blocks@[i]));
                assert(before.blocks@[i].wf());
            }
        }
        assert forall|i: int, j: int, a: int|
            #![trigger after.blocks@[i].contains(a), after.blocks@[j].contains(a)]
            0 <= i < after.blocks@.len() && 0 <= j < after.blocks@.len()
                && after.blocks@[i].contains(a) && after.blocks@[j].contains(a) implies i == j by {
            if i < n {
                assert(before.blocks@[i].contains(a));
                before.lemma_owner(i, a);
            }
            if j < n {
                assert(before.blocks@[j].contains(a));
                before.lemma_owner(j, a);
            }
        }
        assert(after.wf());
        assert forall|a: int|
            #[trigger] after@.dom().contains(a) <==> before@.dom().contains(a) || (
            after.blocks@.len() > n && after.blocks@.last().contains(a)) by {
            if after.covers(a) {
                let i = after.owner(a);
                if i < n {
                    assert(before.blocks@[i].contains(a));
                }
            }
            if before.covers(a) {
                let i = before.owner(a);
                assert(after.blocks@[i].contains(a));
            }
            if after.blocks@.len() > n && after.blocks@.last().contains(a) {
                assert(after.blocks@[n].contains(a));
            }
        }
        assert forall|a: int| before@.dom().contains(a) implies #[trigger] after.owner(a)
            == before.owner(a) by {
            let i = before.owner(a);
            assert(after.blocks@[i].contains(a));
            after.lemma_owner(i, a);
        }
        assert forall|a: int|
            after.blocks@.len() > n && after.blocks@.last().contains(a) implies #[trigger] after.owner(
            a,
        ) == n by {
            after.lemma_owner(n, a);
        }
    }

    /// A bus that holds `blocks`, attached in order.
    ///
    /// Fails with the fault of the first block that [`MMU::add_block`] refuses.
    pub fn new(blocks: &Vec<Block>) -> (made: Result<MMU, Fault>)
        ensures
            match assemble(blocks@) {
                Ok(m) => made matches Ok(mmu) && mmu.wf() && mmu@ == m,
                Err(fault) => made matches Err(given) && given == fault,
            },
    {
        let mut mmu = MMU { blocks: Vec::new() };
        assert(mmu@ =~= Map::<int, Cell>::empty());
        let mut n: usize = 0;
        while n < blocks.len()
            invariant
                n <= blocks.len(),
                mmu.wf(),
                assemble(blocks@.take(n as int)) == Ok::<Memory, Fault>(mmu@),
            decreases blocks.len() - n,
        {
            proof {
                assert(blocks@.take(n + 1).drop_last() == blocks@.take(n as int));
                assert(blocks@.take(n + 1).last() == blocks@[n as int]);
            }
            match mmu.add_block(&blocks[n]) {
                Ok(()) => {},
                Err(fault) => {
                    proof {
                        lemma_assemble_stops(blocks@, n + 1);
                    }
                    return Err(fault);
                },
            }
            n += 1;
        }
        proof {
            assert(blocks@.take(n as int) == blocks@);
        }
        Ok(mmu)
    }

    /// Sets every byte of every writable block to zero. Read-only blocks keep
    /// their contents.
    pub fn reset(&mut self)
        requires
            old(self).wf(),
        ensures
            final(self).wf(),
            final(self)@ == cleared(old(self)@),
    {
        let mut n: usize = 0;
        while n < self.blocks.len()
            invariant
                n <= self.blocks@.len(),
                old(self).wf(),
                self.blocks@.len() == old(self).blocks@.len(),
                forall|i: int|
                    0 <= i < self.blocks@.len() ==> {
                        &&& (#[trigger] self.blocks@[i]).start == old(self).blocks@[i].start
                        &&& self.blocks@[i].length == old(self).blocks@[i].length
                        &&& self.blocks@[i].readonly == old(self).blocks@[i].readonly
                        &&& self.blocks@[i].memory@.len() == old(self).blocks@[i].memory@.len()
                    },
                forall|i: int|
                    n <= i < self.blocks@.len() ==> (#[trigger] self.blocks@[i]).memory@ == old(
                        self,
                    ).blocks@[i].memory@,
                forall|i: int, k: int|
                    0 <= i < n && 0 <= k < self.blocks@[i].memory@.len() ==> (
                    #[trigger] self.blocks@[i].memory@[k]) == (if self.blocks@[i].readonly {
                        old(self).blocks@[i].memory@[k]
                    } else {
                        0u8
                    }),
            decreases self.blocks@.len() - n,
        {
            assert(old(self).blocks@[n as int].wf());
            if !self.blocks[n].readonly {
                let length: usize = self.blocks[n].length;
                self.blocks[n].memory = vec![0u8; length];
            }
            n += 1;
        }
        proof {
            MMU::lemma_ranges_kept(*old(self), *self);
            assert forall|a: int| self@.dom().contains(a) implies self@[a] == cleared(
                old(self)@,
            )[a] by {
                let i = old(self).owner(a);
                assert(old(self).blocks@[i].wf());
            }
            assert(self@ =~= cleared(old(self)@));
        }
    }

    /// Puts a copy of `new_block` on the bus.
    ///
    /// Refused with [`Fault::IllegalBlock`] if the block is not well formed,
    /// and with [`Fault::Overlap`] if one of its addresses is already covered.
    /// A refused block leaves the bus as it was.
    pub fn add_block(&mut self, new_block: &Block) -> (added: Result<(), Fault>)
        requires
            old(self).wf(),
        ensures
            final(self).wf(),
            match attach(old(self)@, *new_block) {
                Ok(m) => added == Ok::<(), Fault>(()) && final(self)@ == m,
                Err(fault) => added == Err::<(), Fault>(fault) && final(self)@ == old(self)@,
            },
    {
        if new_block.length == 0 || new_block.memory.len() != new_block.length
            || new_block.start > usize::MAX - new_block.length {
            return Err(Fault::IllegalBlock);
        }
        let new_end: usize = new_block.start + new_block.length;
        let mut n: usize = 0;
        while n < self.blocks.len()
            invariant
                n <= self.blocks@.len(),
                self.wf(),
                self == old(self),
                new_block.wf(),
                new_end == new_block.start + new_block.length,
                forall|i: int, a: int|
                    0 <= i < n && #[trigger] self.blocks@[i].contains(a) ==> !new_block.contains(
                        a,
                    ),
            decreases self.blocks@.len() - n,
        {
            let block: &Block = &self.blocks[n];
            assert(block.wf());
            let end: usize = block.start + block.length;
            if new_block.start < end && block.start < new_end {
                proof {
                    let a: int = if new_block.start < block.start {
                        block.start as int
                    } else {
                        new_block.start as int
                    };
                    assert(new_block.contains(a) && block.contains(a));
                    self.lemma_owner(n as int, a);
                }
                return Err(Fault::Overlap);
            }
            n += 1;
        }
        proof {
            assert forall|a: int| #[trigger] new_block.contains(a) implies !self@.dom().contains(
                a,
            ) by {
                if self.covers(a) {
                    let i = self.owner(a);
                    assert(self.blocks@[i].contains(a));
                }
            }
        }
        let copy: Block = new_block.clone();
        self.blocks.push(copy);
        proof {
            MMU::lemma_ranges_kept(*old(self), *self);
            let joined: Memory = old(self)@.union_prefer_right(new_block.cells());
            assert forall|a: int| self@.dom().contains(a) implies self@[a] == joined[a] by {
                if !new_block.contains(a) {
                    let i = old(self).owner(a);
                    assert(self.blocks@[i] == old(self).blocks@[i]);
                }
            }
            assert(self@ =~= joined);
        }
        Ok(())
    }

    /// The index of the block that contains `addr`.
    fn get_block(&self, addr: usize) -> (found: Option<usize>)
        requires
            self.wf(),
        ensures
            match found {
                Some(i) => i < self.blocks@.len() && self.blocks@[i as int].contains(addr as int),
                None => !self@.dom().contains(addr as int),
            },
    {
        let mut n: usize = 0;
        while n < self.blocks.len()
            invariant
                n <= self.blocks@.len(),
                self.wf(),
                forall|i: int| 0 <= i < n ==> !(#[trigger] self.blocks@[i]).contains(addr as int),
            decreases self.blocks@.len() - n,
        {
            let block: &Block = &self.blocks[n];
            assert(block.wf());
            if addr >= block.start && addr < block.start + block.length {
                return Some(n);
            }
            n += 1;
        }
        None
    }

    /// Stores `value` at `addr`.
    ///
    /// Fails with [`Fault::Unmapped`] if no block covers `addr` and with
    /// [`Fault::ReadOnly`] if the block that does is read-only; the bus is
    /// then unchanged.
    pub fn write(&mut self, addr: usize, value: u8) -> (written: Result<(), Fault>)
        requires
            old(self).wf(),
        ensures
            final(self).wf(),
            match store(old(self)@, addr as int, value) {
                Ok(m) => written == Ok::<(), Fault>(()) && final(self)@ == m,
                Err(fault) => written == Err::<(), Fault>(fault) && final(self)@ == old(self)@,
            },
    {
        let n: usize = match self.get_block(addr) {
            Some(n) => n,
            None => {
                return Err(Fault::Unmapped);
            },
        };
        proof {
            self.lemma_owner(n as int, addr as int);
            assert(self.blocks@[n as int].wf());
        }
        if self.blocks[n].readonly {
            return Err(Fault::ReadOnly);
        }
        let block_start: usize = self.blocks[n].start;
        self.blocks[n].memory[addr - block_start] = value;
        proof {
            MMU::lemma_ranges_kept(*old(self), *self);
            let target: Memory = old(self)@.insert(
                addr as int,
                Cell { value, readonly: false },
            );
            assert forall|a: int| self@.dom().contains(a) implies self@[a] == target[a] by {
                let i = old(self).owner(a);
                assert(old(self).blocks@[i].contains(a));
            }
            assert(self@ =~= target);
        }
        Ok(())
    }

    /// The byte at `addr`, or [`Fault::Unmapped`] if no block covers it.
    pub fn read(&self, addr: usize) -> (byte: Result<u8, Fault>)
        requires
            self.wf(),
        ensures
            byte == load(self@, addr as int),
    {
        match self.get_block(addr) {
            Some(n) => {
                proof {
                    self.lemma_owner(n as int, addr as int);
                    assert(self.blocks@[n as int].wf());
                }
                let block: &Block = &self.blocks[n];
                let index: usize = addr - block.start;
                Ok(block.memory[index])
            },
            None => Err(Fault::Unmapped),
        }
    }

    /// The little-endian word at `addr`: the low byte at `addr`, the high
    /// byte at `addr + 1`. Fails with [`Fault::Unmapped`] unless both are
    /// covered.
    pub fn read_word(&self, addr: usize) -> (word: Result<u16, Fault>)
        requires
            self.wf(),
        ensures
            word == load_word(self@, addr as int),
    {
        if addr == usize::MAX {
            proof {
                if self.covers(addr as int) {
                    let i = self.owner(addr as int);
                    assert(self.blocks@[i].wf());
                }
            }
            return Err(Fault::Unmapped);
        }
        let high: u8 = match self.read(addr + 1) {
            Ok(byte) => byte,
            Err(fault) => {
                return Err(fault);
            },
        };
        let low: u8 = match self.read(addr) {
            Ok(byte) => byte,
            Err(fault) => {
                return Err(fault);
            },
        };
        Ok(join_bytes(high, low))
    }
}

/// The 16-bit word with high byte `high` and low byte `low`.
pub fn join_bytes(high: u8, low: u8) -> (word: u16)
    ensures
        word == high * 256 + low,
{
    (high as u16) * 256 + (low as u16)
}

/// Once a prefix of `blocks` is refused, so is every longer prefix, with the
/// same fault.
proof fn lemma_assemble_stops(blocks: Seq<Block>, n: int)
    requires
        0 <= n <= blocks.len(),
        assemble(blocks.take(n)) is Err,
    ensures
        assemble(blocks) == assemble(blocks.take(n)),
    decreases blocks.len(),
{
    if n == blocks.len() {
        assert(blocks.take(n) == blocks);
    } else {
        assert(blocks.drop_last().take(n) == blocks.take(n));
        lemma_assemble_stops(blocks.drop_last(), n);
    }
}

} // verus!
