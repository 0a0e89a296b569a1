use chip8vm::chip8::Chip8;
use chip8vm::display::Display;
use chip8vm::interconnect::Interconnect;
use chip8vm::keypad::Keypad;
use chip8vm::mem_map::{
    FONTS_LOCATION, FONT_SET_SIZE, GLYPH_SIZE, INSTRUCTION_WIDTH, MEMORY_SIZE, ROM_LOCATION,
};

const FONT_TABLE: [u8; 80] = [
    0xF0, 0x90, 0x90, 0x90, 0xF0, 0x20, 0x60, 0x20, 0x20, 0x70, 0xF0, 0x10, 0xF0, 0x80, 0xF0, 0xF0,
    0x10, 0xF0, 0x10, 0xF0, 0x90, 0x90, 0xF0, 0x10, 0x10, 0xF0, 0x80, 0xF0, 0x10, 0xF0, 0xF0, 0x80,
    0xF0, 0x90, 0xF0, 0xF0, 0x10, 0x20, 0x40, 0x40, 0xF0, 0x90, 0xF0, 0x90, 0xF0, 0xF0, 0x90, 0xF0,
    0x10, 0xF0, 0xF0, 0x90, 0xF0, 0x90, 0x90, 0xE0, 0x90, 0xE0, 0x90, 0xE0, 0xF0, 0x80, 0x80, 0x80,
    0xF0, 0xE0, 0x90, 0x90, 0x90, 0xE0, 0xF0, 0x80, 0xF0, 0x80, 0xF0, 0xF0, 0x80, 0xF0, 0x80, 0x80,
];

fn blank_bus() -> Interconnect {
    Interconnect::new(Display::new(), Keypad::new())
}

#[test]
fn the_address_space_has_its_fixed_layout() {
    assert_eq!(MEMORY_SIZE, 4096);
    assert_eq!(ROM_LOCATION, 0x200);
    assert_eq!(FONT_SET_SIZE, 80);
    assert_eq!(GLYPH_SIZE, 5);
    assert_eq!(INSTRUCTION_WIDTH, 2);
    assert!(FONTS_LOCATION as usize + FONT_SET_SIZE <= ROM_LOCATION as usize);
}

#[test]
fn a_new_bus_is_all_zero() {
    let bus = blank_bus();
    assert_eq!(bus.read_memory(0, 4096), vec![0u8; 4096]);
}

#[test]
fn a_new_machine_holds_the_glyph_table_and_nothing_else() {
    let machine = Chip8::new(Display::new(), Keypad::new());
    let bus = machine.interconnect();
    assert_eq!(bus.read_memory(FONTS_LOCATION, 80), FONT_TABLE.to_vec());
    let after = FONTS_LOCATION + 80;
    assert_eq!(bus.read_memory(after, 4096 - after), vec![0u8; 4096 - after as usize]);
    assert_eq!(bus.read_memory(0, FONTS_LOCATION), vec![0u8; FONTS_LOCATION as usize]);
}

#[test]
fn load_fonts_overwrites_only_the_glyph_region() {
    let mut bus = blank_bus();
    bus.write_memory(0, &vec![0xAA; 4096]);
    Chip8::load_fonts(&mut bus);
    assert_eq!(bus.read_memory(FONTS_LOCATION, 80), FONT_TABLE.to_vec());
    let after = FONTS_LOCATION + 80;
    assert_eq!(bus.read_memory(after, 4096 - after), vec![0xAA; 4096 - after as usize]);
}

#[test]
fn load_rom_copies_the_program_to_the_program_base() {
    let mut machine = Chip8::new(Display::new(), Keypad::new());
    let rom = vec![0x00, 0xE0, 0x12, 0x00, 0xFF];
    machine.load_rom(&rom);
    let bus = machine.interconnect();
    assert_eq!(bus.read_memory(ROM_LOCATION, 5), rom);
    assert_eq!(bus.read_byte(ROM_LOCATION + 5), 0);
    assert_eq!(bus.read_byte(ROM_LOCATION - 1), 0);
    assert_eq!(bus.read_memory(FONTS_LOCATION, 80), FONT_TABLE.to_vec());
    assert_eq!(machine.cpu().snapshot().pc, ROM_LOCATION);
}

#[test]
fn load_rom_takes_an_empty_program() {
    let mut machine = Chip8::new(Display::new(), Keypad::new());
    machine.load_rom(&Vec::new());
    assert_eq!(machine.interconnect().read_memory(ROM_LOCATION, 16), vec![0u8; 16]);
}

#[test]
fn the_largest_program_fills_memory_to_its_end() {
    assert!(Chip8::rom_fits(0));
    assert!(Chip8::rom_fits(3584));
    assert!(!Chip8::rom_fits(3585));
    assert!(!Chip8::rom_fits(usize::MAX));
    let mut machine = Chip8::new(Display::new(), Keypad::new());
    let rom: Vec<u8> = (0..3584).map(|k| (k % 251) as u8 + 1).collect();
    machine.load_rom(&rom);
    assert_eq!(machine.interconnect().read_memory(ROM_LOCATION, 3584), rom);
    assert_eq!(machine.interconnect().read_byte(0xFFF), (3583 % 251) as u8 + 1);
    assert_eq!(machine.interconnect().read_memory(FONTS_LOCATION, 80), FONT_TABLE.to_vec());
}

#[test]
fn a_second_program_lies_over_the_first() {
    let mut machine = Chip8::new(Display::new(), Keypad::new());
    machine.load_rom(&vec![1, 2, 3, 4]);
    machine.load_rom(&vec![9, 8]);
    assert_eq!(machine.interconnect().read_memory(ROM_LOCATION, 4), vec![9, 8, 3, 4]);
}

#[test]
fn write_memory_changes_exactly_the_bytes_it_is_given() {
    let mut bus = blank_bus();
    bus.write_memory(0x100, &vec![1, 2, 3]);
    assert_eq!(bus.read_memory(0x0FF, 5), vec![0, 1, 2, 3, 0]);
    bus.write_memory(0xFFD, &vec![7, 8, 9]);
    assert_eq!(bus.read_memory(0xFFC, 4), vec![0, 7, 8, 9]);
    bus.write_memory(0xFFF, &Vec::new());
    assert_eq!(bus.read_byte(0xFFF), 9);
}

#[test]
fn in_range_tells_what_lies_inside_memory() {
    assert!(Interconnect::in_range(0, 4096));
    assert!(!Interconnect::in_range(0, 4097));
    assert!(Interconnect::in_range(0xFFF, 1));
    assert!(!Interconnect::in_range(0xFFF, 2));
    assert!(Interconnect::in_range(0x1000, 0));
    assert!(!Interconnect::in_range(0x1001, 0));
    assert!(!Interconnect::in_range(0xFFFF, usize::MAX));
}

#[test]
fn write_byte_and_read_byte_agree() {
    let mut bus = blank_bus();
    bus.write_byte(0x234, 0x5A);
    assert_eq!(bus.read_byte(0x234), 0x5A);
    assert_eq!(bus.read_byte(0x233), 0);
    assert_eq!(bus.read_byte(0x235), 0);
}

#[test]
fn read_memory_of_no_bytes_is_empty() {
    let bus = blank_bus();
    assert_eq!(bus.read_memory(0x1000, 0), Vec::<u8>::new());
    assert_eq!(bus.read_memory(0, 0), Vec::<u8>::new());
}

#[test]
fn wrapped_access_goes_round_the_end_of_memory() {
    let mut bus = blank_bus();
    bus.write_wrapped(0xFFE, &vec![1, 2, 3, 4]);
    assert_eq!(bus.read_byte(0xFFE), 1);
    assert_eq!(bus.read_byte(0xFFF), 2);
    assert_eq!(bus.read_byte(0x000), 3);
    assert_eq!(bus.read_byte(0x001), 4);
    assert_eq!(bus.read_byte(0x002), 0);
    assert_eq!(bus.read_wrapped(0xFFD, 5), vec![0, 1, 2, 3, 4]);
    assert_eq!(bus.read_wrapped(0x1FFE, 2), vec![1, 2]);
    bus.write_wrapped(0x2000, &vec![9]);
    assert_eq!(bus.read_byte(0), 9);
}
