use chip8_vm::chip8::cpu_unit::CpuUnit;
use chip8_vm::chip8::error::Chip8Error;
use chip8_vm::chip8::font::{glyph_address_of, CHIP8_FONTSET};
use chip8_vm::chip8::graphics_unit::GraphicsUnit;
use chip8_vm::chip8::input_unit::InputUnit;
use chip8_vm::chip8::memory_unit::MemoryUnit;

#[test]
fn memory_starts_zeroed() {
    let memory = MemoryUnit::new();
    assert!(memory.memory.iter().all(|&b| b == 0));
    assert_eq!(memory.read_byte(0), Ok(0));
    assert_eq!(memory.read_byte(0xFFF), Ok(0));
}

#[test]
fn memory_write_then_read() {
    let mut memory = MemoryUnit::new();
    assert_eq!(memory.write_byte(0x300, 0xAB), Ok(()));
    assert_eq!(memory.read_byte(0x300), Ok(0xAB));
    assert_eq!(memory.read_byte(0x2FF), Ok(0));
    assert_eq!(memory.read_byte(0x301), Ok(0));
    assert_eq!(memory.write_byte(0xFFF, 0x01), Ok(()));
    assert_eq!(memory.read_byte(0xFFF), Ok(0x01));
}

#[test]
fn memory_rejects_addresses_beyond_twelve_bits() {
    let mut memory = MemoryUnit::new();
    assert_eq!(memory.read_byte(0x1000), Err(Chip8Error::AddressOutOfBounds));
    assert_eq!(memory.read_byte(usize::MAX), Err(Chip8Error::AddressOutOfBounds));
    assert_eq!(memory.write_byte(0x1000, 7), Err(Chip8Error::AddressOutOfBounds));
    assert!(memory.memory.iter().all(|&b| b == 0));
}

#[test]
fn memory_block_round_trip() {
    let mut memory = MemoryUnit::new();
    assert_eq!(memory.write_block(0x400, &[1, 2, 3, 4]), Ok(()));
    assert_eq!(memory.read_block(0x400, 4), Ok(vec![1, 2, 3, 4]));
    assert_eq!(memory.read_block(0x3FF, 3), Ok(vec![0, 1, 2]));
    assert_eq!(memory.read_block(0x402, 4), Ok(vec![3, 4, 0, 0]));
    assert_eq!(memory.read_block(0xFFC, 4), Ok(vec![0, 0, 0, 0]));
}

#[test]
fn memory_block_out_of_bounds_is_refused_whole() {
    let mut memory = MemoryUnit::new();
    assert_eq!(memory.write_block(0xFFE, &[1, 2, 3]), Err(Chip8Error::AddressOutOfBounds));
    assert!(memory.memory.iter().all(|&b| b == 0));
    assert_eq!(memory.read_block(0xFFE, 3), Err(Chip8Error::AddressOutOfBounds));
    assert_eq!(memory.read_block(0x1000, 1), Err(Chip8Error::AddressOutOfBounds));
    assert_eq!(memory.read_block(0, 4097), Err(Chip8Error::AddressOutOfBounds));
    assert_eq!(memory.read_block(usize::MAX, 2), Err(Chip8Error::AddressOutOfBounds));
}

#[test]
fn memory_empty_block_touches_nothing() {
    let mut memory = MemoryUnit::new();
    assert_eq!(memory.read_block(0x2000, 0), Ok(vec![]));
    assert_eq!(memory.write_block(0x2000, &[]), Ok(()));
    assert!(memory.memory.iter().all(|&b| b == 0));
}

#[test]
fn load_program_copies_from_0x200() {
    let mut memory = MemoryUnit::new();
    assert_eq!(memory.load_program(&[0x60, 0x0A, 0x61, 0x0B]), Ok(()));
    assert_eq!(memory.memory[0x1FF], 0);
    assert_eq!(memory.memory[0x200], 0x60);
    assert_eq!(memory.memory[0x201], 0x0A);
    assert_eq!(memory.memory[0x202], 0x61);
    assert_eq!(memory.memory[0x203], 0x0B);
    assert_eq!(memory.memory[0x204], 0);
}

#[test]
fn load_program_accepts_the_largest_program() {
    let mut memory = MemoryUnit::new();
    let rom = vec![0x5A; 4096 - 0x200];
    assert_eq!(memory.load_program(&rom), Ok(()));
    assert_eq!(memory.memory[0x1FF], 0);
    assert_eq!(memory.memory[0x200], 0x5A);
    assert_eq!(memory.memory[0xFFF], 0x5A);
}

#[test]
fn load_program_rejects_one_byte_too_many() {
    let mut memory = MemoryUnit::new();
    let rom = vec![0x5A; 4096 - 0x200 + 1];
    assert_eq!(memory.load_program(&rom), Err(Chip8Error::RomTooLarge));
    assert!(memory.memory.iter().all(|&b| b == 0));
}

#[test]
fn cpu_starts_at_program_start() {
    let cpu = CpuUnit::new();
    assert_eq!(cpu.pc(), 0x200);
    assert_eq!(cpu.index(), 0);
    assert_eq!(cpu.sp(), 0);
    assert_eq!(cpu.delay_timer(), 0);
    for x in 0..16u8 {
        assert_eq!(cpu.register(x), 0);
    }
    for slot in 0..16usize {
        assert_eq!(cpu.stack_slot(slot), 0);
    }
}

#[test]
fn cpu_accessors_set_one_field_each() {
    let mut cpu = CpuUnit::new();
    cpu.set_register(3, 0x42);
    cpu.set_pc(0x345);
    cpu.set_index(0x456);
    cpu.set_delay_timer(9);
    assert_eq!(cpu.register(3), 0x42);
    assert_eq!(cpu.register(2), 0);
    assert_eq!(cpu.register(4), 0);
    assert_eq!(cpu.pc(), 0x345);
    assert_eq!(cpu.index(), 0x456);
    assert_eq!(cpu.delay_timer(), 9);
    assert_eq!(cpu.sp(), 0);
}

#[test]
fn cpu_bulk_register_access() {
    let mut cpu = CpuUnit::new();
    cpu.set_register(5, 0x55);
    cpu.set_registers(&[1, 2, 3]);
    assert_eq!(cpu.registers(0), vec![]);
    assert_eq!(cpu.registers(4), vec![1, 2, 3, 0]);
    assert_eq!(cpu.registers(16), vec![1, 2, 3, 0, 0, 0x55, 0, 0, 0, 0, 0, 0, 0, 0, 0, 0]);
    cpu.set_registers(&[]);
    assert_eq!(cpu.registers(3), vec![1, 2, 3]);
}

#[test]
fn cpu_stack_push_and_pop() {
    let mut cpu = CpuUnit::new();
    assert_eq!(cpu.push(0x200), Ok(()));
    assert_eq!(cpu.push(0x300), Ok(()));
    assert_eq!(cpu.sp(), 2);
    assert_eq!(cpu.stack_slot(0), 0x200);
    assert_eq!(cpu.stack_slot(1), 0x300);
    assert_eq!(cpu.pop(), Ok(0x300));
    assert_eq!(cpu.pop(), Ok(0x200));
    assert_eq!(cpu.sp(), 0);
    assert_eq!(cpu.stack_slot(0), 0x200);
}

#[test]
fn cpu_stack_holds_sixteen_and_no_more() {
    let mut cpu = CpuUnit::new();
    for depth in 0..16u16 {
        assert_eq!(cpu.push(0x200 + depth), Ok(()));
        assert_eq!(cpu.sp(), depth + 1);
    }
    assert_eq!(cpu.push(0x999), Err(Chip8Error::StackOverflow));
    assert_eq!(cpu.sp(), 16);
    assert_eq!(cpu.stack_slot(15), 0x20F);
    for depth in (0..16u16).rev() {
        assert_eq!(cpu.pop(), Ok(0x200 + depth));
    }
    assert_eq!(cpu.pop(), Err(Chip8Error::StackUnderflow));
    assert_eq!(cpu.sp(), 0);
}

#[test]
fn cpu_stack_refuses_address_outside_memory() {
    let mut cpu = CpuUnit::new();
    assert_eq!(cpu.push(0x1000), Err(Chip8Error::AddressOutOfBounds));
    assert_eq!(cpu.sp(), 0);
    assert_eq!(cpu.push(0xFFF), Ok(()));
    assert_eq!(cpu.sp(), 1);
}

#[test]
fn delay_timer_counts_down_to_zero_and_stays() {
    let mut cpu = CpuUnit::new();
    cpu.set_delay_timer(2);
    cpu.tick_delay_timer();
    assert_eq!(cpu.delay_timer(), 1);
    cpu.tick_delay_timer();
    assert_eq!(cpu.delay_timer(), 0);
    cpu.tick_delay_timer();
    assert_eq!(cpu.delay_timer(), 0);
    cpu.set_delay_timer(255);
    cpu.tick_delay_timer();
    assert_eq!(cpu.delay_timer(), 254);
}

#[test]
fn keypad_records_keys() {
    let mut input = InputUnit::new();
    for key in 0..16u8 {
        assert!(!input.is_pressed(key));
    }
    input.set_key(0xA, true);
    assert!(input.is_pressed(0xA));
    assert!(!input.is_pressed(0x9));
    assert!(!input.is_pressed(0xB));
    input.set_key(0xA, false);
    assert!(!input.is_pressed(0xA));
}

#[test]
fn keypad_has_no_key_beyond_f() {
    let mut input = InputUnit::new();
    for key in 0..16u8 {
        input.set_key(key, true);
    }
    assert!(input.is_pressed(0xF));
    assert!(!input.is_pressed(0x10));
    assert!(!input.is_pressed(0xFF));
}

#[test]
fn glyph_addresses_are_five_apart() {
    assert_eq!(glyph_address_of(0x0), 0);
    assert_eq!(glyph_address_of(0x1), 5);
    assert_eq!(glyph_address_of(0xA), 50);
    assert_eq!(glyph_address_of(0xF), 75);
    assert_eq!(glyph_address_of(0x10), 0);
    assert_eq!(glyph_address_of(0x1F), 75);
    assert_eq!(glyph_address_of(0xFF), 75);
}

#[test]
fn font_has_sixteen_glyphs() {
    assert_eq!(CHIP8_FONTSET.len(), 80);
    assert_eq!(&CHIP8_FONTSET[0..5], &[0xF0, 0x90, 0x90, 0x90, 0xF0]);
    assert_eq!(&CHIP8_FONTSET[5..10], &[0x20, 0x60, 0x20, 0x20, 0x70]);
    assert_eq!(&CHIP8_FONTSET[75..80], &[0xF0, 0x80, 0xF0, 0x80, 0x80]);
}

fn lit_count(gpu: &GraphicsUnit) -> usize {
    gpu.screen().iter().filter(|&&p| p == 1).count()
}

#[test]
fn display_starts_dark() {
    let gpu = GraphicsUnit::new();
    assert!(gpu.screen().iter().all(|&p| p == 0));
    assert_eq!(gpu.draw(), vec![]);
}

#[test]
fn draw_sprite_sets_pixels_msb_first() {
    let mut gpu = GraphicsUnit::new();
    assert!(!gpu.draw_sprite(0, 0, &[0b1010_0001]));
    assert!(gpu.pixel(0, 0));
    assert!(!gpu.pixel(1, 0));
    assert!(gpu.pixel(2, 0));
    assert!(!gpu.pixel(3, 0));
    assert!(!gpu.pixel(6, 0));
    assert!(gpu.pixel(7, 0));
    assert!(!gpu.pixel(8, 0));
    assert!(!gpu.pixel(0, 1));
    assert_eq!(lit_count(&gpu), 3);
}

#[test]
fn draw_sprite_rows_go_down() {
    let mut gpu = GraphicsUnit::new();
    assert!(!gpu.draw_sprite(10, 5, &[0x80, 0x40, 0x20]));
    assert!(gpu.pixel(10, 5));
    assert!(gpu.pixel(11, 6));
    assert!(gpu.pixel(12, 7));
    assert_eq!(lit_count(&gpu), 3);
    assert_eq!(gpu.screen()[10 + 5 * 64], 1);
    assert_eq!(gpu.screen()[11 + 6 * 64], 1);
    assert_eq!(gpu.screen()[12 + 7 * 64], 1);
}

#[test]
fn draw_sprite_twice_restores_the_display() {
    let mut gpu = GraphicsUnit::new();
    gpu.draw_sprite(3, 4, &[0xFF, 0x81, 0xFF]);
    let before: Vec<u8> = gpu.screen().to_vec();
    let sprite = [0xF0, 0x90, 0x90, 0x90, 0xF0];
    let first = gpu.draw_sprite(5, 5, &sprite);
    assert!(first);
    assert_ne!(gpu.screen().to_vec(), before);
    let second = gpu.draw_sprite(5, 5, &sprite);
    assert!(second);
    assert_eq!(gpu.screen().to_vec(), before);
}

#[test]
fn draw_sprite_twice_on_dark_display_darkens_it_again() {
    let mut gpu = GraphicsUnit::new();
    let sprite = [0xF0, 0x90, 0xF0, 0x10, 0xF0];
    assert!(!gpu.draw_sprite(60, 30, &sprite));
    assert!(gpu.draw_sprite(60, 30, &sprite));
    assert!(gpu.screen().iter().all(|&p| p == 0));
}

#[test]
fn draw_sprite_collision_only_where_a_lit_pixel_is_erased() {
    let mut gpu = GraphicsUnit::new();
    assert!(!gpu.draw_sprite(0, 0, &[0b1100_0000]));
    assert!(!gpu.draw_sprite(2, 0, &[0b1100_0000]));
    assert!(!gpu.draw_sprite(0, 1, &[0b1111_0000]));
    assert!(gpu.draw_sprite(1, 0, &[0b1000_0000]));
    assert!(gpu.pixel(0, 0));
    assert!(!gpu.pixel(1, 0));
    assert!(gpu.pixel(2, 0));
    assert!(gpu.pixel(3, 0));
}

#[test]
fn draw_sprite_with_clear_bits_over_lit_pixels_is_no_collision() {
    let mut gpu = GraphicsUnit::new();
    assert!(!gpu.draw_sprite(0, 0, &[0xFF]));
    assert!(!gpu.draw_sprite(0, 0, &[0x00]));
    assert_eq!(lit_count(&gpu), 8);
}

#[test]
fn draw_sprite_wraps_the_origin() {
    let mut gpu = GraphicsUnit::new();
    assert!(!gpu.draw_sprite(64 + 3, 32 + 2, &[0x80]));
    assert!(gpu.pixel(3, 2));
    assert_eq!(lit_count(&gpu), 1);
    assert!(gpu.draw_sprite(128 + 3, 64 + 2, &[0x80]));
    assert_eq!(lit_count(&gpu), 0);
    assert!(!gpu.draw_sprite(255, 255, &[0x80]));
    assert!(gpu.pixel(63, 31));
    assert_eq!(lit_count(&gpu), 1);
}

#[test]
fn draw_sprite_clips_at_the_right_edge() {
    let mut gpu = GraphicsUnit::new();
    assert!(!gpu.draw_sprite(60, 0, &[0xFF, 0xFF]));
    for x in 60..64 {
        assert!(gpu.pixel(x, 0));
        assert!(gpu.pixel(x, 1));
    }
    for x in 0..60 {
        assert!(!gpu.pixel(x, 0));
        assert!(!gpu.pixel(x, 1));
        assert!(!gpu.pixel(x, 2));
    }
    assert_eq!(lit_count(&gpu), 8);
}

#[test]
fn draw_sprite_clips_at_the_bottom_edge() {
    let mut gpu = GraphicsUnit::new();
    assert!(!gpu.draw_sprite(8, 30, &[0xFF, 0xFF, 0xFF, 0xFF]));
    for x in 8..16 {
        assert!(gpu.pixel(x, 30));
        assert!(gpu.pixel(x, 31));
        assert!(!gpu.pixel(x, 0));
        assert!(!gpu.pixel(x, 1));
    }
    assert_eq!(lit_count(&gpu), 16);
}

#[test]
fn draw_sprite_clips_at_the_corner() {
    let mut gpu = GraphicsUnit::new();
    assert!(!gpu.draw_sprite(63, 31, &[0xFF, 0xFF]));
    assert!(gpu.pixel(63, 31));
    assert_eq!(lit_count(&gpu), 1);
}

#[test]
fn draw_sprite_accepts_long_and_empty_sprites() {
    let mut gpu = GraphicsUnit::new();
    assert!(!gpu.draw_sprite(0, 0, &[]));
    assert_eq!(lit_count(&gpu), 0);
    let tall = vec![0x80u8; 100];
    assert!(!gpu.draw_sprite(0, 0, &tall));
    assert_eq!(lit_count(&gpu), 32);
    for y in 0..32 {
        assert!(gpu.pixel(0, y));
    }
}

#[test]
fn clear_darkens_everything() {
    let mut gpu = GraphicsUnit::new();
    gpu.draw_sprite(0, 0, &[0xFF, 0xFF]);
    gpu.clear();
    assert!(gpu.screen().iter().all(|&p| p == 0));
}

#[test]
fn draw_lists_lit_pixels_in_storage_order() {
    let mut gpu = GraphicsUnit::new();
    gpu.draw_sprite(62, 1, &[0xC0]);
    gpu.draw_sprite(0, 0, &[0x80]);
    gpu.draw_sprite(5, 31, &[0x80]);
    assert_eq!(gpu.draw(), vec![(0, 0), (62, 1), (63, 1), (5, 31)]);
}
