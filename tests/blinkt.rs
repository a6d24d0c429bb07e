use marvin::blinkt::{Blinkt, BRIGHTNESS, EOF_CLOCKS, NUM_PIXELS, SOF_CLOCKS};
use marvin::level::FULL_SCALE;
use marvin::robot_traits::Led;

fn bits_of(byte: u8) -> Vec<bool> {
    (0..8).map(|i| (byte >> (7 - i)) & 1 == 1).collect()
}

#[test]
fn new_strip_is_dark_at_default_brightness() {
    let b = Blinkt::new();
    for x in 0..NUM_PIXELS {
        assert_eq!(b.get_pixel(x), (0, 0, 0, BRIGHTNESS));
    }
}

#[test]
fn set_pixel_without_brightness_keeps_it() {
    let mut b = Blinkt::new();
    b.set_pixel(3, 10, 20, 30, Some(FULL_SCALE as u32));
    b.set_pixel(3, 1, 2, 3, None);
    assert_eq!(b.get_pixel(3), (1, 2, 3, 31));
    b.set_pixel(4, 9, 9, 9, None);
    assert_eq!(b.get_pixel(4), (9, 9, 9, BRIGHTNESS));
}

#[test]
fn set_pixel_brightness_is_quantized_to_five_bits() {
    let mut b = Blinkt::new();
    // round(31 * 0.5) = round(15.5) = 16
    b.set_pixel(0, 0, 0, 0, Some(500_000));
    assert_eq!(b.get_pixel(0).3, 16);
    b.set_pixel(0, 0, 0, 0, Some(0));
    assert_eq!(b.get_pixel(0).3, 0);
    // round(31 * 0.2) = round(6.2) = 6
    b.set_pixel(0, 0, 0, 0, Some(200_000));
    assert_eq!(b.get_pixel(0).3, 6);
    // round(31 * 2.0) = 62, and 62 & 0b11111 = 30
    b.set_pixel(0, 0, 0, 0, Some(2 * FULL_SCALE as u32));
    assert_eq!(b.get_pixel(0).3, 30);
}

#[test]
fn set_all_and_clear_keep_brightness() {
    let mut b = Blinkt::new();
    b.set_pixel(1, 0, 0, 0, Some(FULL_SCALE as u32));
    b.set_all(5, 6, 7);
    assert_eq!(b.get_pixel(0), (5, 6, 7, BRIGHTNESS));
    assert_eq!(b.get_pixel(1), (5, 6, 7, 31));
    b.clear();
    assert_eq!(b.get_pixel(1), (0, 0, 0, 31));
    assert_eq!(b.get_pixel(7), (0, 0, 0, BRIGHTNESS));
}

#[test]
fn frame_pulses_are_sof_records_eof() {
    let b = Blinkt::new();
    let frame = b.show();
    // 32 + 8 * 4 * N + 36 with N = 8
    assert_eq!(frame.len(), 32 + 8 * 4 * 8 + 36);
    assert_eq!(frame.len(), 324);
    assert_eq!(SOF_CLOCKS + 32 * NUM_PIXELS + EOF_CLOCKS, 324);
}

#[test]
fn frame_layout() {
    let mut b = Blinkt::new();
    b.set_pixel(0, 0x12, 0x34, 0x56, None);
    let frame = b.show();
    assert!(frame[..32].iter().all(|&bit| !bit));
    assert!(frame[324 - 36..].iter().all(|&bit| !bit));
    // mark and brightness, then blue, green, red, most significant bit first
    assert_eq!(frame[32..40].to_vec(), bits_of(0b1110_0111));
    assert_eq!(frame[40..48].to_vec(), bits_of(0x56));
    assert_eq!(frame[48..56].to_vec(), bits_of(0x34));
    assert_eq!(frame[56..64].to_vec(), bits_of(0x12));
    assert_eq!(frame[64..72].to_vec(), bits_of(0b1110_0111));
    assert_eq!(frame[72..96].to_vec(), vec![false; 24]);
}

#[test]
fn led_capability_lights_and_darkens() {
    let mut b = Blinkt::new();
    assert!(b.take_frames().is_empty());
    b.led_on();
    assert_eq!(b.get_pixel(5), (255, 255, 255, BRIGHTNESS));
    let lit = b.show();
    b.led_off();
    assert_eq!(b.get_pixel(5), (0, 0, 0, BRIGHTNESS));
    assert_eq!(b.take_frames(), vec![lit, Blinkt::new().show()]);
    assert!(b.take_frames().is_empty());
}

#[test]
fn buffer_changes_queue_no_frame() {
    let mut b = Blinkt::new();
    b.set_pixel(0, 1, 2, 3, None);
    b.set_all(4, 5, 6);
    b.clear();
    assert!(b.take_frames().is_empty());
}

#[test]
fn teardown_clears_and_shows_once() {
    let mut b = Blinkt::new();
    b.set_all(1, 1, 1);
    b.led_on();
    b.teardown();
    assert_eq!(b.get_pixel(2), (0, 0, 0, BRIGHTNESS));
    assert_eq!(b.take_frames(), vec![Blinkt::new().show()]);
}
