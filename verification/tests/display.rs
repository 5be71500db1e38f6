use chip8::display::{extract_pixels, Display};

#[test]
fn display_starts_dark() {
    let d = Display::new();
    for y in 0u8..32 {
        for x in 0u8..64 {
            assert!(!d.get(x, y));
        }
    }
}

#[test]
fn display_set_xor_and_collision() {
    let mut d = Display::new();
    // Lighting a dark pixel: no collision.
    assert!(!d.set(3, 4, true));
    assert!(d.get(3, 4));
    // Lighting a lit pixel erases it and reports the collision.
    assert!(d.set(3, 4, true));
    assert!(!d.get(3, 4));
    // Drawing a dark pixel changes nothing and never collides.
    d.set(5, 6, true);
    assert!(!d.set(5, 6, false));
    assert!(d.get(5, 6));
    assert!(!d.set(7, 8, false));
    assert!(!d.get(7, 8));
}

#[test]
fn display_clear_darkens_everything() {
    let mut d = Display::new();
    d.set(0, 0, true);
    d.set(63, 31, true);
    d.clear();
    assert!(!d.get(0, 0));
    assert!(!d.get(63, 31));
}

#[test]
fn extract_pixels_unpacks_msb_first() {
    assert_eq!(extract_pixels(0xF0), vec![true, true, true, true, false, false, false, false]);
    assert_eq!(extract_pixels(0xA5), vec![true, false, true, false, false, true, false, true]);
    assert_eq!(extract_pixels(0x00), vec![false; 8]);
    assert_eq!(extract_pixels(0xFF), vec![true; 8]);
    assert_eq!(extract_pixels(0x01), vec![false, false, false, false, false, false, false, true]);
}

#[test]
fn display_row_draws_eight_pixels() {
    let mut d = Display::new();
    assert_eq!(d.display_row(0xA5, 8, 2), Ok(()));
    let lit = [true, false, true, false, false, true, false, true];
    for i in 0u8..8 {
        assert_eq!(d.get(8 + i, 2), lit[i as usize]);
    }
    // XOR on the second draw erases everything that was lit.
    assert_eq!(d.display_row(0xA5, 8, 2), Ok(()));
    for i in 0u8..8 {
        assert!(!d.get(8 + i, 2));
    }
}

#[test]
fn display_row_clips_at_right_edge() {
    let mut d = Display::new();
    assert_eq!(d.display_row(0xFF, 60, 0), Ok(()));
    for x in 60u8..64 {
        assert!(d.get(x, 0));
    }
    // Nothing wrapped onto the next row.
    for x in 0u8..8 {
        assert!(!d.get(x, 1));
    }
}

#[test]
fn display_row_off_screen_is_a_no_op() {
    let mut d = Display::new();
    assert_eq!(d.display_row(0xFF, 64, 0), Ok(()));
    for x in 0u8..64 {
        assert!(!d.get(x, 0));
    }
}
