//! The machine as a mathematical value, and what one instruction and one
//! cycle do to it.

use vstd::prelude::*;
use crate::chip8::cpu_unit::CpuState;
use crate::chip8::error::Chip8Error;
use crate::chip8::font::{glyph_address, CHIP8_FONTSET};
use crate::chip8::graphics_unit::{
    blank_screen,
    drawn_screen,
    lemma_draw_twice_restores,
    sprite_collides,
    sprite_covers,
    valid_screen,
};
use crate::chip8::input_unit::{idle_keypad, key_down};
use crate::chip8::instruction::{decoded, opcode_of, AluOp, Instruction};
use crate::chip8::memory_unit::{block_in_bounds, block_of, with_block};

verus! {

/// The whole machine: memory, register file, display buffer and keypad.
#[verifier::ext_equal]
pub struct MachineState {
    /// The 4096 bytes of memory.
    pub memory: Seq<u8>,
    /// The register file.
    pub cpu: CpuState,
    /// The 2048 pixels of the display, row by row.
    pub screen: Seq<u8>,
    /// The sixteen keys; `true` is held down.
    pub keypad: Seq<bool>,
    /// Whether memory is closed to program loading. It closes when a
    /// program has been loaded and when a cycle has run.
    pub sealed: bool,
}

/// Memory as it is when the machine is switched on: the font at the
/// bottom, zero everywhere else.
pub open spec fn initial_memory() -> Seq<u8> {
    Seq::new(
        4096,
        |a: int|
            if 0 <= a < 80 {
                CHIP8_FONTSET@[a]
            } else {
                0u8
            },
    )
}

impl MachineState {
    /// What holds of every machine: the shapes of its parts, a valid
    /// register file, and pixels that are 0 or 1.
    pub open spec fn valid(self) -> bool {
        &&& self.memory.len() == 4096
        &&& self.cpu.valid()
        &&& valid_screen(self.screen)
        &&& self.keypad.len() == 16
    }

    /// The machine as it is when switched on.
    pub open spec fn initial() -> MachineState {
        MachineState {
            memory: initial_memory(),
            cpu: CpuState::initial(),
            screen: blank_screen(),
            keypad: idle_keypad(),
            sealed: false,
        }
    }

    /// This machine with memory closed to program loading.
    pub open spec fn sealed_off(self) -> MachineState {
        MachineState { sealed: true, ..self }
    }

    /// The content of register `x`.
    pub open spec fn reg(self, x: u8) -> u8 {
        self.cpu.v[x as int]
    }

    /// This machine with the program counter at `pc`.
    pub open spec fn with_pc(self, pc: int) -> MachineState {
        MachineState { cpu: CpuState { pc, ..self.cpu }, ..self }
    }

    /// This machine with the program counter on the next instruction.
    pub open spec fn advanced(self) -> MachineState {
        self.with_pc(self.cpu.pc + 2)
    }

    /// This machine with the program counter past the next instruction if
    /// `skip` holds, and on it otherwise.
    pub open spec fn skipping(self, skip: bool) -> MachineState {
        self.with_pc(
            if skip {
                self.cpu.pc + 4
            } else {
                self.cpu.pc + 2
            },
        )
    }

    /// This machine with register `x` holding `value`.
    pub open spec fn with_reg(self, x: u8, value: u8) -> MachineState {
        MachineState { cpu: CpuState { v: self.cpu.v.update(x as int, value), ..self.cpu }, ..self }
    }

    /// This machine with the index register holding `i`.
    pub open spec fn with_index(self, i: int) -> MachineState {
        MachineState { cpu: CpuState { i, ..self.cpu }, ..self }
    }

    /// This machine with the delay timer holding `value`.
    pub open spec fn with_delay_timer(self, value: u8) -> MachineState {
        MachineState { cpu: CpuState { delay_timer: value, ..self.cpu }, ..self }
    }

    /// This machine after one tick of the delay timer.
    pub open spec fn ticked(self) -> MachineState {
        MachineState { cpu: self.cpu.ticked(), ..self }
    }
}

/// What a register-to-register operation leaves in `Vx`. Sums, differences
/// and shifts wrap modulo 256.
pub open spec fn alu_value(op: AluOp, vx: u8, vy: u8) -> u8 {
    match op {
        AluOp::Or => vx | vy,
        AluOp::And => vx & vy,
        AluOp::Xor => vx ^ vy,
        AluOp::Add => ((vx + vy) % 256) as u8,
        AluOp::Sub => ((vx - vy) % 256) as u8,
        AluOp::ShiftRight => vx / 2,
        AluOp::ShiftLeft => ((vx * 2) % 256) as u8,
    }
}

/// What a register-to-register operation leaves in the flag register:
/// nothing for the bitwise operations, the carry for a sum, 1 for a
/// difference without borrow, and the bit shifted out for a shift.
pub open spec fn alu_flag(op: AluOp, vx: u8, vy: u8) -> Option<u8> {
    match op {
        AluOp::Or | AluOp::And | AluOp::Xor => None,
        AluOp::Add => Some(
            if vx + vy > 255 {
                1u8
            } else {
                0u8
            },
        ),
        AluOp::Sub => Some(
            if vx >= vy {
                1u8
            } else {
                0u8
            },
        ),
        AluOp::ShiftRight => Some(vx % 2),
        AluOp::ShiftLeft => Some(vx / 128),
    }
}

/// The hundreds, tens and ones of a byte.
pub open spec fn bcd_digits(value: u8) -> Seq<u8> {
    seq![value / 100, (value / 10) % 10, value % 10]
}

/// The machine after a return: the top of the call stack is popped and
/// execution continues behind the call that pushed it.
pub open spec fn returned(s: MachineState) -> Result<MachineState, Chip8Error> {
    if s.cpu.sp <= 0 {
        Err(Chip8Error::StackUnderflow)
    } else {
        Ok(MachineState { cpu: s.cpu.popped(), ..s }.with_pc(s.cpu.stack[s.cpu.sp - 1] + 2))
    }
}

/// The machine after a call: the address of the call itself is pushed and
/// execution continues at `addr`.
pub open spec fn called(s: MachineState, addr: u16) -> Result<MachineState, Chip8Error> {
    if s.cpu.sp >= 16 {
        Err(Chip8Error::StackOverflow)
    } else {
        Ok(MachineState { cpu: s.cpu.pushed(s.cpu.pc as u16), ..s }.with_pc(addr as int))
    }
}

/// The machine after a register-to-register operation on `Vx` and `Vy`.
/// The flag is written after the value, so where `x` is the flag register
/// itself the flag is what stays.
pub open spec fn alu_applied(s: MachineState, op: AluOp, x: u8, y: u8) -> MachineState {
    let value = alu_value(op, s.reg(x), s.reg(y));
    match alu_flag(op, s.reg(x), s.reg(y)) {
        Some(flag) => s.with_reg(x, value).with_reg(0xF, flag).advanced(),
        None => s.with_reg(x, value).advanced(),
    }
}

/// The machine after the `n` bytes at the index register are drawn as a
/// sprite with its corner at column `Vx` modulo 64, row `Vy` modulo 32.
/// The flag register ends as 1 if a lit pixel was erased and as 0 if none
/// was.
pub open spec fn sprite_drawn(s: MachineState, x: u8, y: u8, n: u8) -> Result<
    MachineState,
    Chip8Error,
> {
    if !block_in_bounds(s.cpu.i, n as int) {
        Err(Chip8Error::AddressOutOfBounds)
    } else {
        let sprite = block_of(s.memory, s.cpu.i, n as int);
        let ox = s.reg(x) as int % 64;
        let oy = s.reg(y) as int % 32;
        let flag = if sprite_collides(s.screen, sprite, ox, oy) {
            1u8
        } else {
            0u8
        };
        Ok(
            MachineState { screen: drawn_screen(s.screen, sprite, ox, oy), ..s }.with_reg(
                0xF,
                flag,
            ).advanced(),
        )
    }
}

/// The machine after the decimal digits of `Vx` are stored at the index
/// register, hundreds first.
pub open spec fn bcd_stored(s: MachineState, x: u8) -> Result<MachineState, Chip8Error> {
    if !block_in_bounds(s.cpu.i, 3) {
        Err(Chip8Error::AddressOutOfBounds)
    } else {
        Ok(
            MachineState {
                memory: with_block(s.memory, s.cpu.i, bcd_digits(s.reg(x))),
                ..s
            }.advanced(),
        )
    }
}

/// The machine after `V0` to `Vx` are stored at the index register, which
/// keeps its value.
pub open spec fn registers_stored(s: MachineState, x: u8) -> Result<MachineState, Chip8Error> {
    if !block_in_bounds(s.cpu.i, x + 1) {
        Err(Chip8Error::AddressOutOfBounds)
    } else {
        Ok(
            MachineState {
                memory: with_block(s.memory, s.cpu.i, s.cpu.v.take(x + 1)),
                ..s
            }.advanced(),
        )
    }
}

/// The machine after `V0` to `Vx` are loaded from the index register,
/// which keeps its value.
pub open spec fn registers_loaded(s: MachineState, x: u8) -> Result<MachineState, Chip8Error> {
    if !block_in_bounds(s.cpu.i, x + 1) {
        Err(Chip8Error::AddressOutOfBounds)
    } else {
        Ok(
            MachineState {
                cpu: CpuState {
                    v: with_block(s.cpu.v, 0, block_of(s.memory, s.cpu.i, x + 1)),
                    ..s.cpu
                },
                ..s
            }.advanced(),
        )
    }
}

/// The machine after `ins` is executed, or the condition that stops it.
/// `random` is the byte that the random instruction draws; no other
/// instruction looks at it. The delay timer is not ticked here.
pub open spec fn executed(s: MachineState, ins: Instruction, random: u8) -> Result<
    MachineState,
    Chip8Error,
> {
    match ins {
        Instruction::ClearScreen => Ok(MachineState { screen: blank_screen(), ..s }.advanced()),
        Instruction::Return => returned(s),
        Instruction::Jump { addr } => Ok(s.with_pc(addr as int)),
        Instruction::Call { addr } => called(s, addr),
        Instruction::SkipIfEqual { x, byte } => Ok(s.skipping(s.reg(x) == byte)),
        Instruction::SkipIfNotEqual { x, byte } => Ok(s.skipping(s.reg(x) != byte)),
        Instruction::SkipIfRegistersEqual { x, y } => Ok(s.skipping(s.reg(x) == s.reg(y))),
        Instruction::SkipIfRegistersNotEqual { x, y } => Ok(s.skipping(s.reg(x) != s.reg(y))),
        Instruction::Load { x, byte } => Ok(s.with_reg(x, byte).advanced()),
        Instruction::AddByte { x, byte } => Ok(
            s.with_reg(x, ((s.reg(x) + byte) % 256) as u8).advanced(),
        ),
        Instruction::Alu { op, x, y } => Ok(alu_applied(s, op, x, y)),
        Instruction::LoadIndex { addr } => Ok(s.with_index(addr as int).advanced()),
        Instruction::Random { x, byte } => Ok(s.with_reg(x, random & byte).advanced()),
        Instruction::Draw { x, y, n } => sprite_drawn(s, x, y, n),
        Instruction::SkipIfKeyPressed { x } => Ok(s.skipping(key_down(s.keypad, s.reg(x) as int))),
        Instruction::SkipIfKeyNotPressed { x } => Ok(
            s.skipping(!key_down(s.keypad, s.reg(x) as int)),
        ),
        Instruction::ReadDelayTimer { x } => Ok(s.with_reg(x, s.cpu.delay_timer).advanced()),
        Instruction::SetDelayTimer { x } => Ok(s.with_delay_timer(s.reg(x)).advanced()),
        Instruction::LoadGlyphAddress { x } => Ok(s.with_index(glyph_address(s.reg(x))).advanced()),
        Instruction::StoreBcd { x } => bcd_stored(s, x),
        Instruction::StoreRegisters { x } => registers_stored(s, x),
        Instruction::LoadRegisters { x } => registers_loaded(s, x),
    }
}

/// The machine after `rom` is loaded: the program lies in memory from
/// address `0x200` on and memory is closed to further loading. A program
/// longer than the 3584 bytes from there to the end of memory is too large.
pub open spec fn rom_loaded(s: MachineState, rom: Seq<u8>) -> Result<MachineState, Chip8Error> {
    if rom.len() > 4096 - 0x200 {
        Err(Chip8Error::RomTooLarge)
    } else {
        Ok(MachineState { memory: with_block(s.memory, 0x200, rom), ..s }.sealed_off())
    }
}

/// The opcode at the program counter: the two bytes there, high byte
/// first. Both bytes have to lie inside the address space.
pub open spec fn fetched(s: MachineState) -> Result<u16, Chip8Error> {
    if 0 <= s.cpu.pc && s.cpu.pc + 1 < 4096 {
        Ok(opcode_of(s.memory[s.cpu.pc], s.memory[s.cpu.pc + 1]))
    } else {
        Err(Chip8Error::AddressOutOfBounds)
    }
}

/// The machine after one whole cycle: fetch, decode, execute, then one
/// tick of the delay timer. From then on memory is closed to program
/// loading. A cycle that fails reports why.
pub open spec fn cycled(s: MachineState, random: u8) -> Result<MachineState, Chip8Error> {
    match fetched(s) {
        Err(e) => Err(e),
        Ok(opcode) => match decoded(opcode) {
            None => Err(Chip8Error::UnimplementedInstruction { opcode, pc: s.cpu.pc as u16 }),
            Some(ins) => match executed(s, ins, random) {
                Err(e) => Err(e),
                Ok(t) => Ok(t.ticked().sealed_off()),
            },
        },
    }
}

/// Whether the instruction at the program counter is the one that draws
/// a random byte.
pub open spec fn draws_random(s: MachineState) -> bool {
    match fetched(s) {
        Ok(opcode) => decoded(opcode) matches Some(Instruction::Random { .. }),
        Err(_) => false,
    }
}

/// How a cycle that was run on `before` with the random byte `random`
/// ends: with success and the machine as the cycle leaves it, or with
/// the cycle's error and the machine untouched.
pub open spec fn cycle_outcome(
    before: MachineState,
    random: u8,
    res: Result<(), Chip8Error>,
    after: MachineState,
) -> bool {
    match cycled(before, random) {
        Ok(s) => res is Ok && after == s,
        Err(e) => res == Err::<(), Chip8Error>(e) && after == before,
    }
}

/// The result of calling the subroutines at `addrs` one inside the other,
/// the first outermost.
pub open spec fn called_in_turn(s: MachineState, addrs: Seq<u16>) -> Result<
    MachineState,
    Chip8Error,
>
    decreases addrs.len(),
{
    if addrs.len() == 0 {
        Ok(s)
    } else {
        match called(s, addrs[0]) {
            Ok(t) => called_in_turn(t, addrs.drop_first()),
            Err(e) => Err(e),
        }
    }
}

/// A valid machine stays valid over every cycle that succeeds, and the
/// program counter of a machine that has run a cycle lies at most four
/// bytes behind the last address from which an instruction can be fetched.
pub proof fn lemma_cycle_preserves_validity(s: MachineState, random: u8)
    requires
        s.valid(),
    ensures
        cycled(s, random) matches Ok(t) ==> t.valid() && t.sealed && t.cpu.pc <= 0xFFE + 4,
{
    if let Ok(opcode) = fetched(s) {
        if let Some(ins) = decoded(opcode) {
            crate::chip8::instruction::lemma_encoding_inverts_decode(opcode);
            lemma_execution_preserves_validity(s, ins, random);
        }
    }
}

/// A valid machine stays valid over every well-formed instruction that
/// succeeds, if the instruction was fetched from inside the address space.
pub proof fn lemma_execution_preserves_validity(s: MachineState, ins: Instruction, random: u8)
    requires
        s.valid(),
        ins.wf(),
        s.cpu.pc <= 0xFFE,
    ensures
        executed(s, ins, random) matches Ok(t) ==> t.valid() && t.cpu.pc <= 0xFFE + 4,
{
    match ins {
        Instruction::Draw { x, y, n } => {
            if block_in_bounds(s.cpu.i, n as int) {
                lemma_draw_twice_restores(
                    s.screen,
                    block_of(s.memory, s.cpu.i, n as int),
                    s.reg(x) as int % 64,
                    s.reg(y) as int % 32,
                );
            }
        },
        Instruction::Return => {
            if s.cpu.sp > 0 {
                assert(s.cpu.stack[s.cpu.sp - 1] < 4096);
            }
        },
        _ => {},
    }
}

/// Register-to-register addition: `Vx` ends as the sum modulo 256, and
/// the flag register as 1 if the sum exceeds 255 and as 0 if it does not.
/// Where `x` names the flag register itself, the flag is what it holds.
pub proof fn lemma_add_wraps_and_carries(s: MachineState, x: u8, y: u8, random: u8)
    requires
        s.valid(),
        x < 16,
        y < 16,
    ensures
        executed(s, Instruction::Alu { op: AluOp::Add, x, y }, random) == Ok::<
            MachineState,
            Chip8Error,
        >(alu_applied(s, AluOp::Add, x, y)),
        x != 0xF ==> alu_applied(s, AluOp::Add, x, y).reg(x) == (s.reg(x) + s.reg(y)) % 256,
        alu_applied(s, AluOp::Add, x, y).reg(0xF) == (if s.reg(x) + s.reg(y) > 255 {
            1int
        } else {
            0int
        }),
        forall|r: u8|
            r < 16 && r != x && r != 0xF ==> #[trigger] alu_applied(s, AluOp::Add, x, y).reg(r)
                == s.reg(r),
        alu_applied(s, AluOp::Add, x, y).cpu.pc == s.cpu.pc + 2,
{
}

/// Two draw instructions in a row, with the same registers for the
/// origin and the same sprite, leave the display as it was before the
/// first. The origin registers must not be the flag register, which the
/// first draw overwrites.
pub proof fn lemma_draw_instruction_twice_restores(s: MachineState, x: u8, y: u8, n: u8)
    requires
        s.valid(),
        x < 15,
        y < 15,
        sprite_drawn(s, x, y, n) is Ok,
    ensures
        sprite_drawn(sprite_drawn(s, x, y, n)->Ok_0, x, y, n) is Ok,
        sprite_drawn(sprite_drawn(s, x, y, n)->Ok_0, x, y, n)->Ok_0.screen == s.screen,
{
    lemma_draw_twice_restores(
        s.screen,
        block_of(s.memory, s.cpu.i, n as int),
        s.reg(x) as int % 64,
        s.reg(y) as int % 32,
    );
}

/// After a draw instruction the flag register holds 1 if a pixel under a
/// set bit of the sprite was lit before, and 0 if every such pixel was
/// dark; a draw on a blank display always leaves 0.
pub proof fn lemma_draw_sets_collision_flag(s: MachineState, x: u8, y: u8, n: u8)
    requires
        s.valid(),
        x < 16,
        y < 16,
        sprite_drawn(s, x, y, n) is Ok,
    ensures
        ({
            let sprite = block_of(s.memory, s.cpu.i, n as int);
            let ox = s.reg(x) as int % 64;
            let oy = s.reg(y) as int % 32;
            let flag = sprite_drawn(s, x, y, n)->Ok_0.reg(0xF);
            &&& (exists|idx: int|
                0 <= idx < 2048 && #[trigger] sprite_covers(sprite, ox, oy, idx) && s.screen[idx]
                    == 1) ==> flag == 1
            &&& (forall|idx: int|
                0 <= idx < 2048 && #[trigger] sprite_covers(sprite, ox, oy, idx) ==> s.screen[idx]
                    == 0) ==> flag == 0
            &&& s.screen == blank_screen() ==> flag == 0
        }),
{
}

/// The call stack holds sixteen return addresses and no more. A call on
/// a stack with room succeeds, stores the address of the call in the
/// next slot and raises the stack pointer by one; a call on a full stack
/// is a stack overflow. A return on an empty stack is a stack underflow;
/// any other return succeeds and lowers the stack pointer by one.
pub proof fn lemma_stack_discipline(s: MachineState, addr: u16)
    requires
        s.valid(),
    ensures
        s.cpu.sp < 16 ==> called(s, addr) is Ok && called(s, addr)->Ok_0.cpu.sp == s.cpu.sp + 1
            && called(s, addr)->Ok_0.cpu.stack[s.cpu.sp] == s.cpu.pc && called(
            s,
            addr,
        )->Ok_0.cpu.pc == addr,
        s.cpu.sp == 16 ==> called(s, addr) == Err::<MachineState, Chip8Error>(
            Chip8Error::StackOverflow,
        ),
        s.cpu.sp == 0 ==> returned(s) == Err::<MachineState, Chip8Error>(
            Chip8Error::StackUnderflow,
        ),
        s.cpu.sp > 0 ==> returned(s) is Ok && returned(s)->Ok_0.cpu.sp == s.cpu.sp - 1,
{
}

/// Calls nested one inside the other succeed as long as the stack has
/// room for all of them, and then raise the stack pointer by their
/// number; one call more than there is room for is a stack overflow. On
/// an empty stack that is sixteen calls that succeed and a seventeenth
/// that fails.
pub proof fn lemma_nested_calls(s: MachineState, addrs: Seq<u16>)
    requires
        s.valid(),
    ensures
        s.cpu.sp + addrs.len() <= 16 ==> called_in_turn(s, addrs) is Ok && called_in_turn(
            s,
            addrs,
        )->Ok_0.cpu.sp == s.cpu.sp + addrs.len(),
        s.cpu.sp + addrs.len() > 16 ==> called_in_turn(s, addrs) == Err::<
            MachineState,
            Chip8Error,
        >(Chip8Error::StackOverflow),
{
    lemma_nested_calls_on(s, addrs);
}

/// The same, for any machine whose stack pointer lies within the stack.
proof fn lemma_nested_calls_on(s: MachineState, addrs: Seq<u16>)
    requires
        0 <= s.cpu.sp <= 16,
    ensures
        s.cpu.sp + addrs.len() <= 16 ==> called_in_turn(s, addrs) is Ok && called_in_turn(
            s,
            addrs,
        )->Ok_0.cpu.sp == s.cpu.sp + addrs.len(),
        s.cpu.sp + addrs.len() > 16 ==> called_in_turn(s, addrs) == Err::<
            MachineState,
            Chip8Error,
        >(Chip8Error::StackOverflow),
    decreases addrs.len(),
{
    if addrs.len() > 0 && s.cpu.sp < 16 {
        lemma_nested_calls_on(called(s, addrs[0])->Ok_0, addrs.drop_first());
    }
}

/// A return undoes a call: execution continues behind the call, the stack
/// pointer is back where it was, and the slot that the call used still
/// holds the address of the call.
pub proof fn lemma_return_after_call(s: MachineState, addr: u16)
    requires
        s.valid(),
        s.cpu.sp < 16,
    ensures
        called(s, addr) is Ok,
        returned(called(s, addr)->Ok_0) is Ok,
        returned(called(s, addr)->Ok_0)->Ok_0.cpu.pc == s.cpu.pc + 2,
        returned(called(s, addr)->Ok_0)->Ok_0.cpu.sp == s.cpu.sp,
        returned(called(s, addr)->Ok_0)->Ok_0.cpu.stack[s.cpu.sp] == s.cpu.pc,
{
}

/// The tick at the end of a cycle leaves a delay timer at zero at zero and
/// takes one off any other; nothing else changes.
pub proof fn lemma_tick_floors_at_zero(s: MachineState)
    ensures
        s.cpu.delay_timer == 0 ==> s.ticked() == s,
        s.cpu.delay_timer > 0 ==> s.ticked() == s.with_delay_timer(
            (s.cpu.delay_timer - 1) as u8,
        ),
        s.ticked().cpu.delay_timer <= s.cpu.delay_timer,
{
}

/// What an instruction leaves alone. No instruction writes the keypad or
/// reopens memory to loading. Only clear-screen and draw change the
/// display, only the BCD store and the register store change memory, only
/// call and return move the call stack, and only the instruction that
/// sets the delay timer changes it.
pub proof fn lemma_instruction_frame(s: MachineState, ins: Instruction, random: u8)
    ensures
        executed(s, ins, random) matches Ok(t) ==> {
            &&& t.keypad == s.keypad
            &&& t.sealed == s.sealed
            &&& !(ins is ClearScreen || ins is Draw) ==> t.screen == s.screen
            &&& !(ins is StoreBcd || ins is StoreRegisters) ==> t.memory == s.memory
            &&& !(ins is Call || ins is Return) ==> t.cpu.sp == s.cpu.sp && t.cpu.stack
                == s.cpu.stack
            &&& !(ins is SetDelayTimer) ==> t.cpu.delay_timer == s.cpu.delay_timer
        },
{
}

} // verus!
