use keyboard_shared::leds::{
    colour_gen, rainbow_single, split_colour_gen, switch_led_positions, underglow_led_positions,
    Hsv, TapWaves, COLS_PER_SIDE, ROWS, SWITCH_LEDS, TOTAL_LEDS, UNDERGLOW_LEDS,
};
use keyboard_shared::messages::KeyEvent;

#[test]
fn led_counts_add_up() {
    assert_eq!(UNDERGLOW_LEDS + SWITCH_LEDS, TOTAL_LEDS);
    assert_eq!(underglow_led_positions().len(), UNDERGLOW_LEDS);
    assert_eq!(switch_led_positions().len(), SWITCH_LEDS);
}

#[test]
fn led_positions_are_in_chain_order() {
    assert_eq!(underglow_led_positions(), [(0, 1), (2, 1), (4, 1), (4, 2), (2, 3), (0, 3)]);
    let switches = switch_led_positions();
    assert_eq!(switches[0], (3, 5));
    assert_eq!(switches[3], (0, 5));
    assert_eq!(switches[4], (0, 4));
    assert_eq!(switches[11], (0, 3));
    assert_eq!(switches[14], (2, 2));
    assert_eq!(switches[17], (0, 1));
    assert_eq!(switches[20], (2, 0));
}

#[test]
fn colour_gen_walks_the_chain() {
    let colours = colour_gen(|x, y| (x, y));
    assert_eq!(colours.len(), TOTAL_LEDS);
    assert_eq!(&colours[..UNDERGLOW_LEDS], &underglow_led_positions()[..]);
    assert_eq!(&colours[UNDERGLOW_LEDS..], &switch_led_positions()[..]);
}

#[test]
fn split_colour_gen_uses_one_function_for_each_part() {
    let colours = split_colour_gen(|x, y| (0u8, x, y), |x, y| (1u8, x, y));
    assert_eq!(colours.len(), TOTAL_LEDS);
    assert_eq!(colours[0], (0, 0, 1));
    assert_eq!(colours[5], (0, 0, 3));
    assert_eq!(colours[6], (1, 3, 5));
    assert_eq!(colours[26], (1, 2, 0));
    assert!(colours[..6].iter().all(|c| c.0 == 0));
    assert!(colours[6..].iter().all(|c| c.0 == 1));
}

#[test]
fn rainbow_hue_steps_and_wraps() {
    assert_eq!(rainbow_single(0, 0, 0), Hsv { hue: 0, sat: 255, val: 127 });
    assert_eq!(rainbow_single(1, 0, 0).hue, 6);
    assert_eq!(rainbow_single(0, 1, 0).hue, 2);
    assert_eq!(rainbow_single(3, 5, 7).hue, 35);
    assert_eq!(rainbow_single(3, 5, 250).hue, 22);
    assert_eq!(rainbow_single(43, 0, 0).hue, 2);
    assert_eq!(rainbow_single(255, 255, 255).hue, ((6 * 255 + 2 * 255 + 255) % 256) as u8);
}

#[test]
fn rainbow_over_the_chain() {
    let colours = colour_gen(|x, y| rainbow_single(x, y, 10));
    assert_eq!(colours[0].hue, 12);
    assert_eq!(colours[6].hue, 38);
    assert!(colours.iter().all(|c| c.sat == 255 && c.val == 127));
}

#[test]
fn new_waves_are_all_out() {
    let waves = TapWaves::new();
    for x in 0..ROWS as u8 {
        for y in 0..COLS_PER_SIDE as u8 {
            assert_eq!(waves.radius(x, y), Some(0));
        }
    }
    assert_eq!(waves.radius(ROWS as u8, 0), None);
    assert_eq!(waves.radius(0, COLS_PER_SIDE as u8), None);
}

#[test]
fn a_press_starts_a_wave() {
    let mut waves = TapWaves::new();
    waves.update(KeyEvent::Press(2, 5));
    assert_eq!(waves.radius(2, 5), Some(1));
    assert_eq!(waves.radius(5, 2), None);
    assert_eq!(waves.radius(2, 4), Some(0));
    assert_eq!(waves.radius(1, 5), Some(0));
}

#[test]
fn a_release_and_a_foreign_key_start_nothing() {
    let mut waves = TapWaves::new();
    waves.update(KeyEvent::Release(2, 5));
    waves.update(KeyEvent::Press(4, 0));
    waves.update(KeyEvent::Press(0, 6));
    waves.update(KeyEvent::Press(200, 200));
    for x in 0..ROWS as u8 {
        for y in 0..COLS_PER_SIDE as u8 {
            assert_eq!(waves.radius(x, y), Some(0));
        }
    }
}

#[test]
fn a_wave_grows_to_its_full_radius_and_goes_out() {
    let mut waves = TapWaves::new();
    waves.update(KeyEvent::Press(0, 0));
    let mut seen = Vec::new();
    for _ in 0..19 {
        waves.tick();
        seen.push(waves.radius(0, 0).unwrap());
    }
    assert_eq!(
        seen,
        vec![16, 31, 46, 61, 76, 91, 106, 121, 136, 151, 166, 181, 196, 211, 226, 241, 255, 0, 0]
    );
    assert_eq!(waves.radius(1, 0), Some(0));
}

#[test]
fn a_second_press_starts_the_wave_anew() {
    let mut waves = TapWaves::new();
    waves.update(KeyEvent::Press(3, 3));
    waves.tick();
    waves.tick();
    assert_eq!(waves.radius(3, 3), Some(31));
    waves.update(KeyEvent::Press(3, 3));
    assert_eq!(waves.radius(3, 3), Some(1));
}
