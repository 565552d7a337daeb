//! The register file: general registers, program counter, index register,
//! call stack and delay timer.

use vstd::prelude::*;
use crate::chip8::error::Chip8Error;
use crate::chip8::memory_unit::with_block;

verus! {

/// Number of return addresses the call stack can hold.
pub const STACK_DEPTH: u16 = 16;

/// The register file as a mathematical value.
#[verifier::ext_equal]
pub struct CpuState {
    /// The sixteen general registers; the last doubles as the flag register.
    pub v: Seq<u8>,
    /// Address of the next instruction to fetch.
    pub pc: int,
    /// The index register.
    pub i: int,
    /// All sixteen stack slots; the first `sp` of them are live.
    pub stack: Seq<u16>,
    /// Number of live stack slots.
    pub sp: int,
    /// The delay timer.
    pub delay_timer: u8,
}

impl CpuState {
    /// What holds of every register file: the shapes of its parts, the
    /// stack pointer within the stack, and every stored return address
    /// within the address space.
    pub open spec fn valid(self) -> bool {
        &&& self.v.len() == 16
        &&& 0 <= self.pc <= u16::MAX
        &&& 0 <= self.i <= u16::MAX
        &&& self.stack.len() == 16
        &&& 0 <= self.sp <= 16
        &&& forall|k: int| 0 <= k < 16 ==> #[trigger] self.stack[k] < 4096
    }

    /// The register file of a machine that has just been switched on.
    pub open spec fn initial() -> CpuState {
        CpuState {
            v: Seq::new(16, |k: int| 0u8),
            pc: 0x200,
            i: 0,
            stack: Seq::new(16, |k: int| 0u16),
            sp: 0,
            delay_timer: 0,
        }
    }

    /// The state after a return address is pushed.
    pub open spec fn pushed(self, addr: u16) -> CpuState {
        CpuState { stack: self.stack.update(self.sp, addr), sp: self.sp + 1, ..self }
    }

    /// The state after the top return address is popped. The slot keeps
    /// its content; only the stack pointer moves.
    pub open spec fn popped(self) -> CpuState {
        CpuState { sp: self.sp - 1, ..self }
    }

    /// The state after one tick of the delay timer, which stops at zero.
    pub open spec fn ticked(self) -> CpuState {
        CpuState {
            delay_timer: if self.delay_timer > 0 {
                (self.delay_timer - 1) as u8
            } else {
                0
            },
            ..self
        }
    }
}

pub struct CpuUnit {
    v: [u8; 16],
    pc: u16,
    i: u16,
    stack: [u16; 16],
    sp: u16,
    delay_timer: u8,
}

impl View for CpuUnit {
    type V = CpuState;

    closed spec fn view(&self) -> CpuState {
        CpuState {
            v: self.v@,
            pc: self.pc as int,
            i: self.i as int,
            stack: self.stack@,
            sp: self.sp as int,
            delay_timer: self.delay_timer,
        }
    }
}

impl CpuUnit {
    /// The invariant of the register file.
    pub open spec fn wf(&self) -> bool {
        self@.valid()
    }

    /// A register file with everything zero but the program counter, which
    /// points at the program start.
    pub fn new() -> (res: CpuUnit)
        ensures
            res.wf(),
            res@ == CpuState::initial(),
    {
        CpuUnit { v: [0u8; 16], pc: 0x200, i: 0, stack: [0u16; 16], sp: 0, delay_timer: 0 }
    }

    /// The content of register `x`.
    pub fn register(&self, x: u8) -> (res: u8)
        requires
            x < 16,
        ensures
            res == self@.v[x as int],
    {
        self.v[x as usize]
    }

    /// Sets register `x`.
    pub fn set_register(&mut self, x: u8, value: u8)
        requires
            x < 16,
        ensures
            final(self)@ == (CpuState { v: old(self)@.v.update(x as int, value), ..old(self)@ }),
    {
        self.v[x as usize] = value;
    }

    /// The contents of the first `count` registers, `V0` first.
    pub fn registers(&self, count: usize) -> (res: Vec<u8>)
        requires
            count <= 16,
        ensures
            res@ == self@.v.take(count as int),
    {
        let mut res: Vec<u8> = Vec::new();
        let mut k: usize = 0;
        while k < count
            invariant
                k <= count,
                count <= 16,
                res@ == self.v@.take(k as int),
            decreases count - k,
        {
            res.push(self.v[k]);
            k += 1;
        }
        res
    }

    /// Sets the first registers, `V0` first, to `values`; the others keep
    /// their contents.
    pub fn set_registers(&mut self, values: &[u8])
        requires
            values@.len() <= 16,
        ensures
            final(self)@ == (CpuState { v: with_block(old(self)@.v, 0, values@), ..old(self)@ }),
    {
        let count: usize = values.len();
        let mut k: usize = 0;
        while k < count
            invariant
                k <= count,
                count == values@.len(),
                count <= 16,
                self@ == (CpuState {
                    v: with_block(old(self)@.v, 0, values@.take(k as int)),
                    ..old(self)@
                }),
            decreases count - k,
        {
            self.v[k] = values[k];
            k += 1;
        }
    }

    /// The program counter.
    pub fn pc(&self) -> (res: u16)
        ensures
            res == self@.pc,
    {
        self.pc
    }

    /// Sets the program counter.
    pub fn set_pc(&mut self, pc: u16)
        ensures
            final(self)@ == (CpuState { pc: pc as int, ..old(self)@ }),
    {
        self.pc = pc;
    }

    /// The index register.
    pub fn index(&self) -> (res: u16)
        ensures
            res == self@.i,
    {
        self.i
    }

    /// Sets the index register.
    pub fn set_index(&mut self, i: u16)
        ensures
            final(self)@ == (CpuState { i: i as int, ..old(self)@ }),
    {
        self.i = i;
    }

    /// The number of return addresses on the call stack.
    pub fn sp(&self) -> (res: u16)
        ensures
            res == self@.sp,
    {
        self.sp
    }

    /// The content of stack slot `slot`, live or not.
    pub fn stack_slot(&self, slot: usize) -> (res: u16)
        requires
            slot < 16,
        ensures
            res == self@.stack[slot as int],
    {
        self.stack[slot]
    }

    /// Pushes a return address. A full stack is an overflow; an address
    /// outside the address space is refused. Either way nothing changes.
    pub fn push(&mut self, addr: u16) -> (res: Result<(), Chip8Error>)
        requires
            old(self).wf(),
        ensures
            final(self).wf(),
            old(self)@.sp >= 16 ==> res == Err::<(), Chip8Error>(Chip8Error::StackOverflow)
                && final(self)@ == old(self)@,
            old(self)@.sp < 16 && addr >= 4096 ==> res == Err::<(), Chip8Error>(
                Chip8Error::AddressOutOfBounds,
            ) && final(self)@ == old(self)@,
            old(self)@.sp < 16 && addr < 4096 ==> res is Ok && final(self)@ == old(self)@.pushed(
                addr,
            ),
    {
        if self.sp >= STACK_DEPTH {
            return Err(Chip8Error::StackOverflow);
        }
        if addr >= 4096 {
            return Err(Chip8Error::AddressOutOfBounds);
        }
        self.stack[self.sp as usize] = addr;
        self.sp += 1;
        Ok(())
    }

    /// Pops the most recently pushed return address. An empty stack is an
    /// underflow, and nothing changes.
    pub fn pop(&mut self) -> (res: Result<u16, Chip8Error>)
        requires
            old(self).wf(),
        ensures
            final(self).wf(),
            old(self)@.sp == 0 ==> res == Err::<u16, Chip8Error>(Chip8Error::StackUnderflow)
                && final(self)@ == old(self)@,
            old(self)@.sp > 0 ==> res == Ok::<u16, Chip8Error>(
                old(self)@.stack[old(self)@.sp - 1],
            ) && final(self)@ == old(self)@.popped(),
    {
        if self.sp == 0 {
            return Err(Chip8Error::StackUnderflow);
        }
        self.sp -= 1;
        Ok(self.stack[self.sp as usize])
    }

    /// The delay timer.
    pub fn delay_timer(&self) -> (res: u8)
        ensures
            res == self@.delay_timer,
    {
        self.delay_timer
    }

    /// Sets the delay timer.
    pub fn set_delay_timer(&mut self, value: u8)
        ensures
            final(self)@ == (CpuState { delay_timer: value, ..old(self)@ }),
    {
        self.delay_timer = value;
    }

    /// Counts the delay timer down by one; at zero it stays at zero.
    pub fn tick_delay_timer(&mut self)
        ensures
            final(self)@ == old(self)@.ticked(),
    {
        if self.delay_timer > 0 {
            self.delay_timer -= 1;
        }
    }
}

/// A delay timer at zero is left at zero by a tick, and one above zero
/// goes down by exactly one.
pub proof fn lemma_delay_timer_floor(s: CpuState)
    ensures
        s.delay_timer == 0 ==> s.ticked().delay_timer == 0,
        s.delay_timer > 0 ==> s.ticked().delay_timer == s.delay_timer - 1,
        s.ticked() == (CpuState { delay_timer: s.ticked().delay_timer, ..s }),
{
}

/// A pop undoes a push: it hands back the pushed address and restores the
/// stack pointer, and the slot keeps the address.
pub proof fn lemma_pop_after_push(s: CpuState, addr: u16)
    requires
        s.valid(),
        s.sp < 16,
    ensures
        s.pushed(addr).sp == s.sp + 1,
        s.pushed(addr).stack[s.pushed(addr).sp - 1] == addr,
        s.pushed(addr).popped().sp == s.sp,
        s.pushed(addr).popped().stack[s.sp] == addr,
{
}

} // verus!
