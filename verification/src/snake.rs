//! The snake game on the machine: the ports through which the game gets
//! its random bytes and key presses, the screen memory, and the update that
//! advances the game.

use crate::cpu::{make_snake_cpu, image, ram_and_rom, Instr, CPU};
use crate::fault::Fault;
use crate::machine::Machine;
use crate::ops::{is_op_table, make_op_table};
use crate::registers::Registers;
use rand::RngExt;
use vstd::prelude::*;

verus! {

/// The address at which the snake program reads a fresh random byte.
pub const RANDOM_PORT: usize = 0xFE;

/// The address at which the snake program reads the last key pressed.
pub const INPUT_PORT: usize = 0xFF;

/// The bound below which the random bytes are drawn.
pub const RANDOM_BOUND: u8 = 16;

/// The number of instructions that one update of the game executes.
pub const STEPS_PER_UPDATE: usize = 15;

/// The address of the first byte of the screen.
pub const SCREEN_BASE: usize = 0x200;

/// The number of bytes of the screen: 32 rows of 32 cells, row by row.
pub const SCREEN_CELLS: usize = 1024;

/// The keys that steer the snake.
#[derive(Clone, Copy, Debug, PartialEq, Eq, Structural)]
pub enum Key {
    Up,
    Down,
    Left,
    Right,
}

impl Key {
    /// The byte by which the snake program knows the key: the ASCII code of
    /// `w`, `s`, `a` or `d`.
    pub open spec fn code(self) -> u8 {
        match self {
            Key::Up => 0x77,
            Key::Down => 0x73,
            Key::Left => 0x61,
            Key::Right => 0x64,
        }
    }

    /// The byte of the key, as [`Key::code`] gives it.
    pub fn key_code(self) -> (code: u8)
        ensures
            code == self.code(),
    {
        match self {
            Key::Up => 0x77,
            Key::Down => 0x73,
            Key::Left => 0x61,
            Key::Right => 0x64,
        }
    }
}

impl Machine {
    /// One tick of the game: `random` is put at the random port, then one
    /// instruction is executed. If the port cannot be written, nothing is
    /// executed.
    pub open spec fn tick(self, table: Seq<Instr>, random: u8) -> (Machine, Result<(), Fault>) {
        let (m1, written) = self.write(RANDOM_PORT as int, random);
        match written {
            Ok(_) => m1.step(table),
            Err(fault) => (m1, Err(fault)),
        }
    }

    /// One tick for each byte of `randoms`, in order, up to the first fault.
    #[verifier::opaque]
    pub open spec fn run(self, table: Seq<Instr>, randoms: Seq<u8>) -> (Machine, Result<(), Fault>)
        decreases randoms.len(),
    {
        if randoms.len() == 0 {
            (self, Ok(()))
        } else {
            let (m1, done) = self.run(table, randoms.drop_last());
            match done {
                Ok(_) => m1.tick(table, randoms.last()),
                Err(fault) => (m1, Err(fault)),
            }
        }
    }

    /// The bytes of the screen, the top row first, or the fault of the first
    /// cell that cannot be read.
    pub open spec fn screen(self) -> Result<Seq<u8>, Fault> {
        if forall|a: int|
            SCREEN_BASE <= a < SCREEN_BASE + SCREEN_CELLS ==> #[trigger] self.mem.dom().contains(a) {
            Ok(Seq::new(SCREEN_CELLS as nat, |i: int| self.mem[SCREEN_BASE + i].value))
        } else {
            Err(Fault::Unmapped)
        }
    }
}

/// Running on no byte changes nothing.
pub proof fn lemma_run_empty(m: Machine, table: Seq<Instr>)
    ensures
        m.run(table, Seq::empty()) == (m, Ok::<(), Fault>(())),
{
    reveal(Machine::run);
}

/// Running on one more byte is running on the bytes before it and then, if
/// no fault came, one tick with that byte.
pub proof fn lemma_run_push(m: Machine, table: Seq<Instr>, randoms: Seq<u8>, random: u8)
    ensures
        m.run(table, randoms.push(random)) == (match m.run(table, randoms).1 {
            Ok(_) => m.run(table, randoms).0.tick(table, random),
            Err(fault) => (m.run(table, randoms).0, Err(fault)),
        }),
{
    reveal(Machine::run);
    assert(randoms.push(random).drop_last() == randoms);
}

/// Draws a byte from `low..high` with `rand`'s thread-local generator, by
/// `RngExt::random_range` on `rand::rng()`.
///
/// Not proved: that the byte lies in the range, which is what `rand`
/// documents of `random_range`. An empty range makes `random_range` panic
/// and is ruled out. Which byte comes is left open, and two calls may give
/// different bytes.
///
/// `rand::rng()` panics if the entropy source of the system fails while the
/// generator of the thread is seeded. No argument causes that and none
/// prevents it, so the call can still end the program there.
#[verifier::external_body]
fn random_in(low: u8, high: u8) -> (value: u8)
    requires
        low < high,
    ensures
        low <= value < high,
{
    rand::rng().random_range(low..high)
}

/// The snake game without its window: the machine that runs the snake
/// program and the instruction table that it is stepped with.
pub struct SnakeApp {
    /// The instruction table.
    pub ops: [Instr; 256],
    /// The machine.
    pub cpu: CPU,
}

impl SnakeApp {
    /// The game is well formed when its machine is and its table is the
    /// instruction table.
    pub open spec fn wf(&self) -> bool {
        self.cpu.wf() && is_op_table(self.ops@)
    }

    /// A game on the snake machine with `rom_init` for program.
    ///
    /// Fails with [`Fault::IllegalBlock`] if `rom_init` is longer than the
    /// 4096 bytes of the ROM.
    pub fn new(rom_init: Option<Vec<u8>>) -> (made: Result<SnakeApp, Fault>)
        ensures
            made is Ok <==> image(rom_init).len() <= 0x1000,
            made matches Err(fault) ==> fault == Fault::IllegalBlock,
            made matches Ok(app) ==> app.wf() && app.cpu@ == (Machine {
                r: Registers { pc: 0x600, s: 0xFC, ..Registers::power_on() },
                mem: ram_and_rom(0x600, 0x600, 0x1000, image(rom_init)),
            }),
    {
        let cpu: CPU = make_snake_cpu(rom_init)?;
        Ok(SnakeApp { ops: make_op_table(), cpu })
    }

    /// One tick with `random` at the random port.
    pub fn tick(&mut self, random: u8) -> (done: Result<(), Fault>)
        requires
            old(self).cpu.wf(),
        ensures
            final(self).cpu.wf(),
            final(self).ops == old(self).ops,
            (final(self).cpu@, done) == old(self).cpu@.tick(old(self).ops@, random),
    {
        self.cpu.mmu.write(RANDOM_PORT, random)?;
        self.cpu.step(self.ops)
    }

    /// One more tick of a run that began at `start` and was fed `fed`.
    fn tick_on(&mut self, random: u8, Ghost(start): Ghost<Machine>, Ghost(fed): Ghost<Seq<u8>>) -> (done:
        Result<(), Fault>)
        requires
            old(self).cpu.wf(),
            (old(self).cpu@, Ok::<(), Fault>(())) == start.run(old(self).ops@, fed),
        ensures
            final(self).cpu.wf(),
            final(self).ops == old(self).ops,
            (final(self).cpu@, done) == start.run(old(self).ops@, fed.push(random)),
    {
        proof {
            lemma_run_push(start, self.ops@, fed, random);
        }
        self.tick(random)
    }

    /// One update of the game: [`STEPS_PER_UPDATE`] ticks, each with a
    /// fresh random byte below [`RANDOM_BOUND`], up to the first fault.
    ///
    /// Which bytes are drawn is open; whatever they are, the machine ends
    /// as [`Machine::run`] on them says.
    pub fn update(&mut self) -> (done: Result<(), Fault>)
        requires
            old(self).cpu.wf(),
        ensures
            final(self).cpu.wf(),
            final(self).ops == old(self).ops,
            exists|randoms: Seq<u8>|
                {
                    &&& randoms.len() <= STEPS_PER_UPDATE
                    &&& done is Ok ==> randoms.len() == STEPS_PER_UPDATE
                    &&& forall|i: int| 0 <= i < randoms.len() ==> randoms[i] < RANDOM_BOUND
                    &&& (final(self).cpu@, done) == #[trigger] old(self).cpu@.run(
                        old(self).ops@,
                        randoms,
                    )
                },
    {
        let ghost mut fed: Seq<u8> = Seq::empty();
        proof {
            lemma_run_empty(old(self).cpu@, old(self).ops@);
        }
        let mut n: usize = 0;
        while n < STEPS_PER_UPDATE
            invariant
                n <= STEPS_PER_UPDATE,
                self.cpu.wf(),
                self.ops == old(self).ops,
                fed.len() == n,
                forall|i: int| 0 <= i < fed.len() ==> fed[i] < RANDOM_BOUND,
                (self.cpu@, Ok::<(), Fault>(())) == old(self).cpu@.run(old(self).ops@, fed),
            decreases STEPS_PER_UPDATE - n,
        {
            let random: u8 = random_in(0, RANDOM_BOUND);
            let ticked: Result<(), Fault> = self.tick_on(random, Ghost(old(self).cpu@), Ghost(fed));
            proof {
                fed = fed.push(random);
            }
            match ticked {
                Ok(unit) => {
                    assert(unit == ());
                },
                Err(fault) => {
                    return Err(fault);
                },
            }
            n += 1;
        }
        Ok(())
    }

    /// Tells the snake program that `key` was pressed, by putting its code
    /// at the input port.
    pub fn handle_press(&mut self, key: Key) -> (done: Result<(), Fault>)
        requires
            old(self).cpu.wf(),
        ensures
            final(self).cpu.wf(),
            final(self).ops == old(self).ops,
            (final(self).cpu@, done) == old(self).cpu@.write(INPUT_PORT as int, key.code()),
    {
        self.cpu.mmu.write(INPUT_PORT, key.key_code())
    }

    /// The bytes of the screen, the top row first, for the window to paint.
    pub fn screen(&self) -> (cells: Result<Vec<u8>, Fault>)
        requires
            self.cpu.wf(),
        ensures
            match self.cpu@.screen() {
                Ok(bytes) => cells matches Ok(v) && v@ == bytes,
                Err(fault) => cells == Err::<Vec<u8>, Fault>(fault),
            },
    {
        let mut cells: Vec<u8> = Vec::new();
        let mut i: usize = 0;
        while i < SCREEN_CELLS
            invariant
                i <= SCREEN_CELLS,
                self.cpu.wf(),
                cells@.len() == i,
                forall|a: int|
                    SCREEN_BASE <= a < SCREEN_BASE + i ==> #[trigger] self.cpu@.mem.dom().contains(
                        a,
                    ),
                forall|k: int|
                    0 <= k < i ==> #[trigger] cells@[k] == self.cpu@.mem[SCREEN_BASE + k].value,
            decreases SCREEN_CELLS - i,
        {
            let byte: u8 = self.cpu.mmu.read(SCREEN_BASE + i)?;
            cells.push(byte);
            i += 1;
        }
        assert(cells@ =~= self.cpu@.screen().unwrap());
        Ok(cells)
    }
}

} // verus!
