use chip8vm::display::{Display, DISPLAY_HEIGHT, DISPLAY_PIXELS, DISPLAY_WIDTH, SPRITE_WIDTH};
use chip8vm::keypad::{Keypad, KeypadState, KEY_COUNT};

fn lit_pixels(display: &Display) -> Vec<(usize, usize)> {
    let mut lit = Vec::new();
    for y in 0..DISPLAY_HEIGHT {
        for x in 0..DISPLAY_WIDTH {
            if display.pixel(x, y) {
                lit.push((x, y));
            }
        }
    }
    lit
}

#[test]
fn the_frame_has_64_by_32_pixels() {
    assert_eq!(DISPLAY_WIDTH, 64);
    assert_eq!(DISPLAY_HEIGHT, 32);
    assert_eq!(DISPLAY_PIXELS, 2048);
    assert_eq!(SPRITE_WIDTH, 8);
    assert_eq!(KEY_COUNT, 16);
}

#[test]
fn a_new_frame_is_blank() {
    assert_eq!(lit_pixels(&Display::new()), vec![]);
}

#[test]
fn draw_lights_the_set_bits_of_each_row() {
    let mut display = Display::new();
    let collision = display.draw(2, 3, &vec![0b1010_0001, 0b0100_0000]);
    assert!(!collision);
    assert_eq!(lit_pixels(&display), vec![(2, 3), (4, 3), (9, 3), (3, 4)]);
}

#[test]
fn drawing_twice_erases_and_reports_the_collision() {
    let mut display = Display::new();
    assert!(!display.draw(0, 0, &vec![0xFF]));
    assert!(display.draw(0, 0, &vec![0xFF]));
    assert_eq!(lit_pixels(&display), vec![]);
}

#[test]
fn a_partial_overlap_collides_and_flips_each_pixel() {
    let mut display = Display::new();
    assert!(!display.draw(0, 0, &vec![0b1100_0000]));
    assert!(display.draw(1, 0, &vec![0b1100_0000]));
    assert_eq!(lit_pixels(&display), vec![(0, 0), (2, 0)]);
}

#[test]
fn sprites_side_by_side_do_not_collide() {
    let mut display = Display::new();
    assert!(!display.draw(0, 0, &vec![0xFF]));
    assert!(!display.draw(8, 0, &vec![0xFF]));
    assert!(!display.draw(0, 1, &vec![0xFF]));
    assert_eq!(lit_pixels(&display).len(), 24);
}

#[test]
fn the_corner_wraps_into_the_frame() {
    let mut display = Display::new();
    display.draw(64 + 5, 32 + 7, &vec![0b1000_0000]);
    assert_eq!(lit_pixels(&display), vec![(5, 7)]);
    let mut display = Display::new();
    display.draw(255, 255, &vec![0b1000_0000]);
    assert_eq!(lit_pixels(&display), vec![(63, 31)]);
}

#[test]
fn a_sprite_is_clipped_at_the_right_edge() {
    let mut display = Display::new();
    assert!(!display.draw(60, 0, &vec![0xFF]));
    assert_eq!(lit_pixels(&display), vec![(60, 0), (61, 0), (62, 0), (63, 0)]);
}

#[test]
fn a_sprite_is_clipped_at_the_bottom_edge() {
    let mut display = Display::new();
    assert!(!display.draw(0, 30, &vec![0x80, 0x80, 0x80, 0x80]));
    assert_eq!(lit_pixels(&display), vec![(0, 30), (0, 31)]);
}

#[test]
fn a_clipped_part_cannot_collide() {
    let mut display = Display::new();
    display.draw(0, 0, &vec![0xFF]);
    assert!(!display.draw(60, 0, &vec![0x0F]));
    assert_eq!(lit_pixels(&display).len(), 8);
}

#[test]
fn an_empty_sprite_draws_nothing() {
    let mut display = Display::new();
    display.draw(0, 0, &vec![0xFF]);
    assert!(!display.draw(0, 0, &Vec::new()));
    assert_eq!(lit_pixels(&display).len(), 8);
}

#[test]
fn a_sprite_taller_than_the_frame_is_cut_at_the_bottom() {
    let mut display = Display::new();
    assert!(!display.draw(0, 0, &vec![0x80; 40]));
    assert_eq!(lit_pixels(&display).len(), 32);
}

#[test]
fn clear_turns_every_pixel_off() {
    let mut display = Display::new();
    display.draw(10, 10, &vec![0xFF, 0xFF]);
    display.clear();
    assert_eq!(lit_pixels(&display), vec![]);
}

#[test]
fn a_new_keypad_has_no_key_held() {
    let keypad = Keypad::new();
    assert_eq!(keypad.first_pressed(), None);
    for key in 0..16 {
        assert!(!keypad.is_pressed(key));
    }
    assert_eq!(KeypadState::released().keys, [false; 16]);
}

#[test]
fn the_keypad_latches_what_a_poll_reported() {
    let mut keypad = Keypad::new();
    let mut keys = [false; 16];
    keys[3] = true;
    keys[0xE] = true;
    keypad.update_state(KeypadState { keys });
    assert!(keypad.is_pressed(3));
    assert!(keypad.is_pressed(0xE));
    assert!(!keypad.is_pressed(4));
    assert_eq!(keypad.first_pressed(), Some(3));
    assert_eq!(keypad.state().keys, keys);
    keypad.update_state(KeypadState::released());
    assert_eq!(keypad.first_pressed(), None);
}

#[test]
fn only_the_low_four_bits_of_a_key_number_count() {
    let mut keypad = Keypad::new();
    let mut keys = [false; 16];
    keys[0xF] = true;
    keypad.update_state(KeypadState { keys });
    assert!(keypad.is_pressed(0x0F));
    assert!(keypad.is_pressed(0x1F));
    assert!(keypad.is_pressed(0xFF));
    assert!(!keypad.is_pressed(0x10));
    assert_eq!(keypad.first_pressed(), Some(0xF));
}
