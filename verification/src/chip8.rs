//! The machine itself and the units it is built from.

use vstd::prelude::*;
use crate::chip8::cpu_unit::CpuUnit;
use crate::chip8::error::Chip8Error;
use crate::chip8::font::{glyph_address_of, CHIP8_FONTSET};
use crate::chip8::graphics_unit::GraphicsUnit;
use crate::chip8::input_unit::InputUnit;
use crate::chip8::instruction::{decode, opcode_from_bytes, AluOp, Instruction};
use crate::chip8::memory_unit::MemoryUnit;
use crate::chip8::semantics::{
    alu_applied,
    bcd_digits,
    bcd_stored,
    called,
    cycle_outcome,
    cycled,
    draws_random,
    executed,
    fetched,
    registers_loaded,
    registers_stored,
    returned,
    rom_loaded,
    sprite_drawn,
    MachineState,
};

pub mod cpu_unit;
pub mod error;
pub mod font;
pub mod graphics_unit;
pub mod input_unit;
pub mod instruction;
pub mod memory_unit;
pub mod semantics;

verus! {

/// A CHIP-8 machine. It owns its memory, register file, display buffer
/// and keypad state; a host feeds it a program and key states, runs it
/// cycle by cycle and reads the display.
pub struct Chip8 {
    memory_unit: MemoryUnit,
    cpu_unit: CpuUnit,
    graphics_unit: GraphicsUnit,
    input_unit: InputUnit,
    sealed: bool,
}

impl View for Chip8 {
    type V = MachineState;

    closed spec fn view(&self) -> MachineState {
        MachineState {
            memory: self.memory_unit@,
            cpu: self.cpu_unit@,
            screen: self.graphics_unit@,
            keypad: self.input_unit@,
            sealed: self.sealed,
        }
    }
}

/// A byte drawn by `rand::random`, which asks the thread-local generator
/// of the `rand` crate. Nothing is claimed of the byte: any value may come
/// back, and two calls need not agree. The generator seeds itself from the
/// operating system when a thread first uses it, and panics if the
/// system has no entropy to give.
#[verifier::external_body]
fn random_byte() -> (byte: u8) {
    rand::random::<u8>()
}

impl Chip8 {
    /// The invariant of the machine.
    pub open spec fn wf(&self) -> bool {
        self@.valid()
    }

    /// A machine that has just been switched on: the font in low memory,
    /// the program counter at the program start, everything else zero.
    pub fn new() -> (res: Chip8)
        ensures
            res.wf(),
            res@ == MachineState::initial(),
    {
        let mut memory = MemoryUnit::new();
        let cpu = CpuUnit::new();
        let gpu = GraphicsUnit::new();
        let input = InputUnit::new();
        // load font set
        let mut a: usize = 0;
        while a < 80
            invariant
                a <= 80,
                forall|k: int| 0 <= k < a ==> memory@[k] == CHIP8_FONTSET@[k],
                forall|k: int| a <= k < 4096 ==> memory@[k] == 0,
            decreases 80 - a,
        {
            memory.memory[a] = CHIP8_FONTSET[a];
            a += 1;
        }
        Chip8 {
            memory_unit: memory,
            cpu_unit: cpu,
            graphics_unit: gpu,
            input_unit: input,
            sealed: false,
        }
    }

    /// Copies a program into memory from address `0x200` on, and closes
    /// memory to further loading. A program longer than the 3584 bytes
    /// between there and the end of memory is refused whole, and memory
    /// stays open. Loading is for a machine that holds no program yet and
    /// has run no cycle.
    pub fn load_rom(&mut self, rom: &[u8]) -> (res: Result<(), Chip8Error>)
        requires
            old(self).wf(),
            !old(self)@.sealed,
        ensures
            final(self).wf(),
            res is Ok ==> rom_loaded(old(self)@, rom@) == Ok::<MachineState, Chip8Error>(
                final(self)@,
            ),
            res matches Err(e) ==> rom_loaded(old(self)@, rom@) == Err::<MachineState, Chip8Error>(
                e,
            ) && final(self)@ == old(self)@,
    {
        match self.memory_unit.load_program(rom) {
            Ok(()) => {
                self.sealed = true;
                Ok(())
            },
            Err(e) => Err(e),
        }
    }

    /// Whether memory is closed to program loading.
    pub fn is_sealed(&self) -> (res: bool)
        ensures
            res == self@.sealed,
    {
        self.sealed
    }

    /// The memory.
    pub fn memory_unit(&self) -> (res: &MemoryUnit)
        ensures
            res@ == self@.memory,
    {
        &self.memory_unit
    }

    /// The register file.
    pub fn cpu_unit(&self) -> (res: &CpuUnit)
        ensures
            res@ == self@.cpu,
    {
        &self.cpu_unit
    }

    /// The display buffer, for a renderer to read.
    pub fn graphics_unit(&self) -> (res: &GraphicsUnit)
        ensures
            res@ == self@.screen,
    {
        &self.graphics_unit
    }

    /// The keypad state.
    pub fn input_unit(&self) -> (res: &InputUnit)
        ensures
            res@ == self@.keypad,
    {
        &self.input_unit
    }

    /// Records that `key` went down or up. Nothing but the keypad changes.
    pub fn set_key(&mut self, key: u8, pressed: bool)
        requires
            key < 16,
        ensures
            final(self)@ == (MachineState {
                keypad: old(self)@.keypad.update(key as int, pressed),
                ..old(self)@
            }),
    {
        self.input_unit.set_key(key, pressed);
    }

    /// Reads the opcode at the program counter: two bytes, high byte first.
    /// The program counter stays where it is.
    pub fn fetch(&self) -> (res: Result<u16, Chip8Error>)
        ensures
            res == fetched(self@),
    {
        let pc: usize = self.cpu_unit.pc() as usize;
        if pc + 1 >= 4096 {
            return Err(Chip8Error::AddressOutOfBounds);
        }
        Ok(opcode_from_bytes(self.memory_unit.memory[pc], self.memory_unit.memory[pc + 1]))
    }

    /// Moves the program counter to the next instruction.
    fn advance(&mut self)
        requires
            old(self).wf(),
            old(self)@.cpu.pc + 2 <= u16::MAX,
        ensures
            final(self)@ == old(self)@.advanced(),
    {
        let pc: u16 = self.cpu_unit.pc();
        self.cpu_unit.set_pc(pc + 2);
    }

    /// Moves the program counter past the next instruction if `skip` holds,
    /// and to it otherwise.
    fn skip_if(&mut self, skip: bool)
        requires
            old(self).wf(),
            old(self)@.cpu.pc + 4 <= u16::MAX,
        ensures
            final(self)@ == old(self)@.skipping(skip),
    {
        let pc: u16 = self.cpu_unit.pc();
        if skip {
            self.cpu_unit.set_pc(pc + 4);
        } else {
            self.cpu_unit.set_pc(pc + 2);
        }
    }

    /// Sets register `x`.
    fn set_reg(&mut self, x: u8, value: u8)
        requires
            x < 16,
        ensures
            final(self)@ == old(self)@.with_reg(x, value),
    {
        self.cpu_unit.set_register(x, value);
    }

    /// Returns from a subroutine.
    fn op_return(&mut self) -> (res: Result<(), Chip8Error>)
        requires
            old(self).wf(),
        ensures
            final(self).wf(),
            res is Ok ==> returned(old(self)@) == Ok::<MachineState, Chip8Error>(final(self)@),
            res matches Err(e) ==> returned(old(self)@) == Err::<MachineState, Chip8Error>(e)
                && final(self)@ == old(self)@,
    {
        match self.cpu_unit.pop() {
            Ok(addr) => {
                self.cpu_unit.set_pc(addr + 2);
                Ok(())
            },
            Err(e) => Err(e),
        }
    }

    /// Calls the subroutine at `addr`.
    fn op_call(&mut self, addr: u16) -> (res: Result<(), Chip8Error>)
        requires
            old(self).wf(),
            old(self)@.cpu.pc < 4096,
        ensures
            final(self).wf(),
            res is Ok ==> called(old(self)@, addr) == Ok::<MachineState, Chip8Error>(final(self)@),
            res matches Err(e) ==> called(old(self)@, addr) == Err::<MachineState, Chip8Error>(e)
                && final(self)@ == old(self)@,
    {
        let pc: u16 = self.cpu_unit.pc();
        match self.cpu_unit.push(pc) {
            Ok(()) => {
                self.cpu_unit.set_pc(addr);
                Ok(())
            },
            Err(e) => Err(e),
        }
    }

    /// Runs a register-to-register operation on `Vx` and `Vy`. The flag
    /// register is written after `Vx`, so it holds the flag even where
    /// `x` is the flag register itself.
    fn op_alu(&mut self, op: AluOp, x: u8, y: u8)
        requires
            old(self).wf(),
            x < 16,
            y < 16,
            old(self)@.cpu.pc + 2 <= u16::MAX,
        ensures
            final(self).wf(),
            final(self)@ == alu_applied(old(self)@, op, x, y),
    {
        let vx: u8 = self.cpu_unit.register(x);
        let vy: u8 = self.cpu_unit.register(y);
        match op {
            AluOp::Or => {
                self.cpu_unit.set_register(x, vx | vy);
            },
            AluOp::And => {
                self.cpu_unit.set_register(x, vx & vy);
            },
            AluOp::Xor => {
                self.cpu_unit.set_register(x, vx ^ vy);
            },
            AluOp::Add => {
                let carry: u8 = if vx as u16 + vy as u16 > 255 {
                    1
                } else {
                    0
                };
                self.cpu_unit.set_register(x, vx.wrapping_add(vy));
                self.cpu_unit.set_register(0xF, carry);
            },
            AluOp::Sub => {
                let no_borrow: u8 = if vx >= vy {
                    1
                } else {
                    0
                };
                self.cpu_unit.set_register(x, vx.wrapping_sub(vy));
                self.cpu_unit.set_register(0xF, no_borrow);
            },
            AluOp::ShiftRight => {
                assert(vx >> 1 == vx / 2 && vx & 1 == vx % 2) by (bit_vector);
                self.cpu_unit.set_register(x, vx >> 1);
                self.cpu_unit.set_register(0xF, vx & 1);
            },
            AluOp::ShiftLeft => {
                assert((vx << 1) == (vx * 2) % 256 && vx >> 7 == vx / 128) by (bit_vector);
                self.cpu_unit.set_register(x, vx << 1);
                self.cpu_unit.set_register(0xF, vx >> 7);
            },
        }
        self.advance();
    }

    /// Draws the `n`-row sprite at the index register at `(Vx, Vy)` and
    /// leaves the collision flag in the flag register.
    fn op_draw(&mut self, x: u8, y: u8, n: u8) -> (res: Result<(), Chip8Error>)
        requires
            old(self).wf(),
            x < 16,
            y < 16,
            old(self)@.cpu.pc + 2 <= u16::MAX,
        ensures
            final(self).wf(),
            res is Ok ==> sprite_drawn(old(self)@, x, y, n) == Ok::<MachineState, Chip8Error>(
                final(self)@,
            ),
            res matches Err(e) ==> sprite_drawn(old(self)@, x, y, n) == Err::<
                MachineState,
                Chip8Error,
            >(e) && final(self)@ == old(self)@,
    {
        let vx: u8 = self.cpu_unit.register(x);
        let vy: u8 = self.cpu_unit.register(y);
        let sprite = match self.memory_unit.read_block(self.cpu_unit.index() as usize, n as usize) {
            Ok(sprite) => sprite,
            Err(e) => {
                return Err(e);
            },
        };
        let collision = self.graphics_unit.draw_sprite(vx, vy, sprite.as_slice());
        self.cpu_unit.set_register(
            0xF,
            if collision {
                1
            } else {
                0
            },
        );
        self.advance();
        Ok(())
    }

    /// Stores the decimal digits of `Vx` at the index register.
    fn op_store_bcd(&mut self, x: u8) -> (res: Result<(), Chip8Error>)
        requires
            old(self).wf(),
            x < 16,
            old(self)@.cpu.pc + 2 <= u16::MAX,
        ensures
            final(self).wf(),
            res is Ok ==> bcd_stored(old(self)@, x) == Ok::<MachineState, Chip8Error>(final(self)@),
            res matches Err(e) ==> bcd_stored(old(self)@, x) == Err::<MachineState, Chip8Error>(e)
                && final(self)@ == old(self)@,
    {
        let vx: u8 = self.cpu_unit.register(x);
        let digits: [u8; 3] = [vx / 100, (vx / 10) % 10, vx % 10];
        match self.memory_unit.write_block(self.cpu_unit.index() as usize, digits.as_slice()) {
            Ok(()) => {
                self.advance();
                Ok(())
            },
            Err(e) => Err(e),
        }
    }

    /// Stores `V0` to `Vx` at the index register.
    fn op_store_registers(&mut self, x: u8) -> (res: Result<(), Chip8Error>)
        requires
            old(self).wf(),
            x < 16,
            old(self)@.cpu.pc + 2 <= u16::MAX,
        ensures
            final(self).wf(),
            res is Ok ==> registers_stored(old(self)@, x) == Ok::<MachineState, Chip8Error>(
                final(self)@,
            ),
            res matches Err(e) ==> registers_stored(old(self)@, x) == Err::<
                MachineState,
                Chip8Error,
            >(e) && final(self)@ == old(self)@,
    {
        let values = self.cpu_unit.registers(x as usize + 1);
        match self.memory_unit.write_block(self.cpu_unit.index() as usize, values.as_slice()) {
            Ok(()) => {
                self.advance();
                Ok(())
            },
            Err(e) => Err(e),
        }
    }

    /// Loads `V0` to `Vx` from the index register.
    fn op_load_registers(&mut self, x: u8) -> (res: Result<(), Chip8Error>)
        requires
            old(self).wf(),
            x < 16,
            old(self)@.cpu.pc + 2 <= u16::MAX,
        ensures
            final(self).wf(),
            res is Ok ==> registers_loaded(old(self)@, x) == Ok::<MachineState, Chip8Error>(
                final(self)@,
            ),
            res matches Err(e) ==> registers_loaded(old(self)@, x) == Err::<
                MachineState,
                Chip8Error,
            >(e) && final(self)@ == old(self)@,
    {
        match self.memory_unit.read_block(self.cpu_unit.index() as usize, x as usize + 1) {
            Ok(values) => {
                self.cpu_unit.set_registers(values.as_slice());
                self.advance();
                Ok(())
            },
            Err(e) => Err(e),
        }
    }

    /// Executes one decoded instruction. `random` is used by the random
    /// instruction alone. An instruction that fails leaves the machine
    /// as it was.
    fn execute(&mut self, ins: Instruction, random: u8) -> (res: Result<(), Chip8Error>)
        requires
            old(self).wf(),
            ins.wf(),
            old(self)@.cpu.pc < 4096,
        ensures
            final(self).wf(),
            res is Ok ==> executed(old(self)@, ins, random) == Ok::<MachineState, Chip8Error>(
                final(self)@,
            ),
            res matches Err(e) ==> executed(old(self)@, ins, random) == Err::<
                MachineState,
                Chip8Error,
            >(e) && final(self)@ == old(self)@,
    {
        match ins {
            Instruction::ClearScreen => {
                self.graphics_unit.clear();
                self.advance();
                Ok(())
            },
            Instruction::Return => self.op_return(),
            Instruction::Jump { addr } => {
                self.cpu_unit.set_pc(addr);
                Ok(())
            },
            Instruction::Call { addr } => self.op_call(addr),
            Instruction::SkipIfEqual { x, byte } => {
                let vx: u8 = self.cpu_unit.register(x);
                self.skip_if(vx == byte);
                Ok(())
            },
            Instruction::SkipIfNotEqual { x, byte } => {
                let vx: u8 = self.cpu_unit.register(x);
                self.skip_if(vx != byte);
                Ok(())
            },
            Instruction::SkipIfRegistersEqual { x, y } => {
                let vx: u8 = self.cpu_unit.register(x);
                let vy: u8 = self.cpu_unit.register(y);
                self.skip_if(vx == vy);
                Ok(())
            },
            Instruction::SkipIfRegistersNotEqual { x, y } => {
                let vx: u8 = self.cpu_unit.register(x);
                let vy: u8 = self.cpu_unit.register(y);
                self.skip_if(vx != vy);
                Ok(())
            },
            Instruction::Load { x, byte } => {
                self.set_reg(x, byte);
                self.advance();
                Ok(())
            },
            Instruction::AddByte { x, byte } => {
                let vx: u8 = self.cpu_unit.register(x);
                self.set_reg(x, vx.wrapping_add(byte));
                self.advance();
                Ok(())
            },
            Instruction::Alu { op, x, y } => {
                self.op_alu(op, x, y);
                Ok(())
            },
            Instruction::LoadIndex { addr } => {
                self.cpu_unit.set_index(addr);
                self.advance();
                Ok(())
            },
            Instruction::Random { x, byte } => {
                self.set_reg(x, random & byte);
                self.advance();
                Ok(())
            },
            Instruction::Draw { x, y, n } => self.op_draw(x, y, n),
            Instruction::SkipIfKeyPressed { x } => {
                let vx: u8 = self.cpu_unit.register(x);
                let down = self.input_unit.is_pressed(vx);
                self.skip_if(down);
                Ok(())
            },
            Instruction::SkipIfKeyNotPressed { x } => {
                let vx: u8 = self.cpu_unit.register(x);
                let down = self.input_unit.is_pressed(vx);
                self.skip_if(!down);
                Ok(())
            },
            Instruction::ReadDelayTimer { x } => {
                let timer: u8 = self.cpu_unit.delay_timer();
                self.set_reg(x, timer);
                self.advance();
                Ok(())
            },
            Instruction::SetDelayTimer { x } => {
                let vx: u8 = self.cpu_unit.register(x);
                self.cpu_unit.set_delay_timer(vx);
                self.advance();
                Ok(())
            },
            Instruction::LoadGlyphAddress { x } => {
                let vx: u8 = self.cpu_unit.register(x);
                self.cpu_unit.set_index(glyph_address_of(vx));
                self.advance();
                Ok(())
            },
            Instruction::StoreBcd { x } => self.op_store_bcd(x),
            Instruction::StoreRegisters { x } => self.op_store_registers(x),
            Instruction::LoadRegisters { x } => self.op_load_registers(x),
        }
    }

    /// Runs one cycle with `random` as the byte that a random instruction
    /// would draw: fetches the opcode at the program counter, decodes it,
    /// executes it, and ticks the delay timer. A cycle that fails leaves
    /// the machine exactly as it was.
    pub fn emulate_cycle_with(&mut self, random: u8) -> (res: Result<(), Chip8Error>)
        requires
            old(self).wf(),
        ensures
            final(self).wf(),
            cycle_outcome(old(self)@, random, res, final(self)@),
    {
        let opcode: u16 = match self.fetch() {
            Ok(opcode) => opcode,
            Err(e) => {
                return Err(e);
            },
        };
        let ins = match decode(opcode) {
            Some(ins) => ins,
            None => {
                return Err(Chip8Error::UnimplementedInstruction { opcode, pc: self.cpu_unit.pc() });
            },
        };
        match self.execute(ins, random) {
            Ok(()) => {
                self.cpu_unit.tick_delay_timer();
                self.sealed = true;
                Ok(())
            },
            Err(e) => Err(e),
        }
    }

    /// Runs one cycle. Where the instruction at the program counter is the
    /// random instruction, its byte is drawn from the `rand` crate, so the
    /// cycle ends as `emulate_cycle_with` does for some byte; where it is
    /// any other instruction, as it does for every byte.
    pub fn emulate_cycle(&mut self) -> (res: Result<(), Chip8Error>)
        requires
            old(self).wf(),
        ensures
            final(self).wf(),
            exists|random: u8| cycle_outcome(old(self)@, random, res, final(self)@),
            !draws_random(old(self)@) ==> forall|random: u8|
                cycle_outcome(old(self)@, random, res, final(self)@),
    {
        let random: u8 = if self.next_draws_random() {
            random_byte()
        } else {
            0
        };
        proof {
            if !draws_random(self@) {
                lemma_random_byte_is_local(self@, random);
            }
        }
        self.emulate_cycle_with(random)
    }

    /// Whether the instruction at the program counter is the random
    /// instruction.
    pub fn next_draws_random(&self) -> (res: bool)
        ensures
            res == draws_random(self@),
    {
        match self.fetch() {
            Ok(opcode) => match decode(opcode) {
                Some(Instruction::Random { .. }) => true,
                _ => false,
            },
            Err(_) => false,
        }
    }
}

/// Only the random instruction looks at the random byte: a cycle on any
/// other instruction ends the same way whatever the byte is.
pub proof fn lemma_random_byte_is_local(s: MachineState, random: u8)
    requires
        !draws_random(s),
    ensures
        forall|other: u8| cycled(s, other) == cycled(s, random),
{
}

} // verus!
