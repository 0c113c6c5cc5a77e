use chip8::display::{Display, HEIGHT, PIXELS, WIDTH};
use chip8::draw_job::Sprite;

fn lit(display: &Display) -> Vec<(usize, usize)> {
    let mut found = Vec::new();
    for y in 0..HEIGHT {
        for x in 0..WIDTH {
            if display.pixel(x, y) {
                found.push((x, y));
            }
        }
    }
    found
}

#[test]
fn a_new_display_is_blank() {
    let display = Display::new();
    assert_eq!(lit(&display), vec![]);
    assert_eq!(WIDTH * HEIGHT, PIXELS);
}

#[test]
fn a_sprite_lights_its_set_bits() {
    let mut display = Display::new();
    let sprite = Sprite { v_x: 2, v_y: 1, buf: vec![0b1010_0001, 0b0100_0000] };
    assert!(!display.draw_sprite(&sprite));
    assert_eq!(lit(&display), vec![(2, 1), (4, 1), (9, 1), (3, 2)]);
}

#[test]
fn drawing_twice_restores_the_display_and_collides() {
    let mut display = Display::new();
    let background = Sprite { v_x: 10, v_y: 10, buf: vec![0xFF, 0x81, 0xFF] };
    assert!(!display.draw_sprite(&background));
    let before = lit(&display);

    let sprite = Sprite { v_x: 30, v_y: 5, buf: vec![0x3C, 0x42, 0x81, 0x42, 0x3C] };
    assert!(!display.draw_sprite(&sprite));
    assert_ne!(lit(&display), before);
    assert!(display.draw_sprite(&sprite));
    assert_eq!(lit(&display), before);
}

#[test]
fn drawing_twice_over_lit_pixels() {
    let mut display = Display::new();
    let block = Sprite { v_x: 0, v_y: 0, buf: vec![0xFF] };
    display.draw_sprite(&block);
    let part = Sprite { v_x: 0, v_y: 0, buf: vec![0xF0] };
    assert!(display.draw_sprite(&part));
    assert_eq!(lit(&display), vec![(4, 0), (5, 0), (6, 0), (7, 0)]);
    assert!(!display.draw_sprite(&part));
    assert_eq!(lit(&display).len(), 8);
}

#[test]
fn an_empty_sprite_never_collides() {
    let mut display = Display::new();
    display.draw_sprite(&Sprite { v_x: 0, v_y: 0, buf: vec![0xFF] });
    let nothing = Sprite { v_x: 0, v_y: 0, buf: vec![] };
    assert!(!display.draw_sprite(&nothing));
    assert!(!display.draw_sprite(&nothing));
    let zeroes = Sprite { v_x: 0, v_y: 0, buf: vec![0x00, 0x00] };
    assert!(!display.draw_sprite(&zeroes));
    assert!(!display.draw_sprite(&zeroes));
    assert_eq!(lit(&display).len(), 8);
}

#[test]
fn a_partial_overlap_collides() {
    let mut display = Display::new();
    assert!(!display.draw_sprite(&Sprite { v_x: 0, v_y: 0, buf: vec![0b1100_0000] }));
    assert!(display.draw_sprite(&Sprite { v_x: 1, v_y: 0, buf: vec![0b1100_0000] }));
    assert_eq!(lit(&display), vec![(0, 0), (2, 0)]);
}

#[test]
fn sprites_are_cut_at_the_right_edge() {
    let mut display = Display::new();
    assert!(!display.draw_sprite(&Sprite { v_x: 60, v_y: 3, buf: vec![0xFF] }));
    assert_eq!(lit(&display), vec![(60, 3), (61, 3), (62, 3), (63, 3)]);
}

#[test]
fn sprites_are_cut_at_the_lower_edge() {
    let mut display = Display::new();
    assert!(!display.draw_sprite(&Sprite { v_x: 0, v_y: 30, buf: vec![0x80, 0x80, 0x80, 0x80] }));
    assert_eq!(lit(&display), vec![(0, 30), (0, 31)]);
}

#[test]
fn a_sprite_cut_away_entirely_does_not_collide_the_second_time() {
    let mut display = Display::new();
    let sprite = Sprite { v_x: 63, v_y: 0, buf: vec![0x7F] };
    assert!(!display.draw_sprite(&sprite));
    assert_eq!(lit(&display), vec![]);
    assert!(!display.draw_sprite(&sprite));
}

#[test]
fn the_origin_is_taken_modulo_the_display() {
    let mut display = Display::new();
    assert!(!display.draw_sprite(&Sprite { v_x: 64 + 6, v_y: 32 + 5, buf: vec![0x80] }));
    assert_eq!(lit(&display), vec![(6, 5)]);
    assert!(!display.draw_sprite(&Sprite { v_x: 255, v_y: 255, buf: vec![0x80] }));
    assert_eq!(lit(&display), vec![(6, 5), (63, 31)]);
}

#[test]
fn very_tall_sprites_are_cut() {
    let mut display = Display::new();
    assert!(!display.draw_sprite(&Sprite { v_x: 0, v_y: 0, buf: vec![0x01; 100] }));
    assert_eq!(lit(&display).len(), 32);
    assert!(display.pixel(7, 0));
    assert!(display.pixel(7, 31));
}

#[test]
fn clear_turns_every_pixel_off() {
    let mut display = Display::new();
    display.draw_sprite(&Sprite { v_x: 5, v_y: 5, buf: vec![0xFF, 0xFF] });
    display.clear();
    assert_eq!(lit(&display), vec![]);
}

#[test]
fn frame_bytes_are_opaque_black_and_white() {
    let mut display = Display::new();
    let bytes = display.to_rgba();
    assert_eq!(bytes.len(), 4 * PIXELS);
    for pixel in bytes.chunks(4) {
        assert_eq!(pixel, [0x00, 0x00, 0x00, 0xFF]);
    }
    display.draw_sprite(&Sprite { v_x: 1, v_y: 2, buf: vec![0x80] });
    let bytes = display.to_rgba();
    let at = 4 * (2 * WIDTH + 1);
    assert_eq!(bytes[at..at + 4], [0xFF, 0xFF, 0xFF, 0xFF]);
    assert_eq!(bytes[at - 4..at], [0x00, 0x00, 0x00, 0xFF]);
    assert_eq!(bytes[at + 4..at + 8], [0x00, 0x00, 0x00, 0xFF]);
    let white = bytes.chunks(4).filter(|pixel| pixel[0] == 0xFF).count();
    assert_eq!(white, 1);
}
