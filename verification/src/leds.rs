//! The LEDs of one half: where they sit, the colours of the idle rainbow,
//! and the waves that run out from a pressed key.
//!
//! Colours are computed here as hue, saturation and value; turning them
//! into what the LED driver takes is left to the caller.

use crate::messages::KeyEvent;
use vstd::prelude::*;

verus! {

/// The number of LEDs under the board.
pub const UNDERGLOW_LEDS: usize = 6;

/// The number of LEDs under the switches.
pub const SWITCH_LEDS: usize = 21;

/// The number of LEDs in the chain.
pub const TOTAL_LEDS: usize = 27;

/// The number of key columns of one half.
pub const COLS_PER_SIDE: usize = 6;

/// The number of key rows.
pub const ROWS: usize = 4;

/// The positions of the LEDs under the board, in chain order.
pub open spec fn underglow_positions() -> Seq<(u8, u8)> {
    seq![(0u8, 1u8), (2u8, 1u8), (4u8, 1u8), (4u8, 2u8), (2u8, 3u8), (0u8, 3u8)]
}

/// The positions of the LEDs under the switches, in chain order.
pub open spec fn switch_positions() -> Seq<(u8, u8)> {
    seq![
        (3u8, 5u8),
        (2u8, 5u8),
        (1u8, 5u8),
        (0u8, 5u8),
        (0u8, 4u8),
        (1u8, 4u8),
        (2u8, 4u8),
        (3u8, 4u8),
        (3u8, 3u8),
        (2u8, 3u8),
        (1u8, 3u8),
        (0u8, 3u8),
        (0u8, 2u8),
        (1u8, 2u8),
        (2u8, 2u8),
        (2u8, 1u8),
        (1u8, 1u8),
        (0u8, 1u8),
        (0u8, 0u8),
        (1u8, 0u8),
        (2u8, 0u8),
    ]
}

/// The positions of the LEDs under the board, in chain order.
pub fn underglow_led_positions() -> (positions: [(u8, u8); 6])
    ensures
        positions@ == underglow_positions(),
{
    let positions: [(u8, u8); 6] = [(0, 1), (2, 1), (4, 1), (4, 2), (2, 3), (0, 3)];
    positions
}

/// The positions of the LEDs under the switches, in chain order.
pub fn switch_led_positions() -> (positions: [(u8, u8); 21])
    ensures
        positions@ == switch_positions(),
{
    let positions: [(u8, u8); 21] = [
        (3, 5),
        (2, 5),
        (1, 5),
        (0, 5),
        (0, 4),
        (1, 4),
        (2, 4),
        (3, 4),
        (3, 3),
        (2, 3),
        (1, 3),
        (0, 3),
        (0, 2),
        (1, 2),
        (2, 2),
        (2, 1),
        (1, 1),
        (0, 1),
        (0, 0),
        (1, 0),
        (2, 0),
    ];
    positions
}

/// A colour as hue, saturation and value.
#[derive(Debug, Clone, Copy, PartialEq, Eq)]
pub struct Hsv {
    pub hue: u8,
    pub sat: u8,
    pub val: u8,
}

/// The hue of the rainbow at a position: six steps per column, two per
/// row, shifted by `offset`, all modulo 256.
pub open spec fn rainbow_hue(x: u8, y: u8, offset: u8) -> u8 {
    ((6 * x + 2 * y + offset) % 256) as u8
}

/// The colour of the rainbow at a position.
pub fn rainbow_single(x: u8, y: u8, offset: u8) -> (colour: Hsv)
    ensures
        colour == (Hsv { hue: rainbow_hue(x, y, offset), sat: 255, val: 127 }),
{
    let turns: u32 = 6 * (x as u32) + 2 * (y as u32) + (offset as u32);
    Hsv { hue: (turns % 256) as u8, sat: 255, val: 127 }
}

/// The colours of the chain: `f` at the position of each LED, the LEDs
/// under the board first.
pub fn colour_gen<F, U>(f: F) -> (colours: Vec<U>) where F: Fn(u8, u8) -> U
    requires
        forall|x: u8, y: u8| f.requires((x, y)),
    ensures
        colours@.len() == TOTAL_LEDS,
        forall|i: int|
            0 <= i < UNDERGLOW_LEDS ==> f.ensures(
                (underglow_positions()[i].0, underglow_positions()[i].1),
                #[trigger] colours@[i],
            ),
        forall|i: int|
            0 <= i < SWITCH_LEDS ==> f.ensures(
                (switch_positions()[i].0, switch_positions()[i].1),
                #[trigger] colours@[UNDERGLOW_LEDS + i],
            ),
{
    let under = underglow_led_positions();
    let switch = switch_led_positions();
    let mut colours: Vec<U> = Vec::new();
    let mut i: usize = 0;
    while i < 6
        invariant
            i <= 6,
            under@ == underglow_positions(),
            colours@.len() == i,
            forall|x: u8, y: u8| f.requires((x, y)),
            forall|k: int|
                0 <= k < i ==> f.ensures(
                    (underglow_positions()[k].0, underglow_positions()[k].1),
                    #[trigger] colours@[k],
                ),
        decreases 6 - i,
    {
        let (x, y) = under[i];
        colours.push(f(x, y));
        i = i + 1;
    }
    let mut j: usize = 0;
    while j < 21
        invariant
            j <= 21,
            switch@ == switch_positions(),
            colours@.len() == 6 + j,
            forall|x: u8, y: u8| f.requires((x, y)),
            forall|k: int|
                0 <= k < 6 ==> f.ensures(
                    (underglow_positions()[k].0, underglow_positions()[k].1),
                    #[trigger] colours@[k],
                ),
            forall|k: int|
                0 <= k < j ==> f.ensures(
                    (switch_positions()[k].0, switch_positions()[k].1),
                    #[trigger] colours@[6 + k],
                ),
        decreases 21 - j,
    {
        let (x, y) = switch[j];
        colours.push(f(x, y));
        j = j + 1;
    }
    colours
}

/// The colours of the chain: `underglow` at the position of each LED under
/// the board, then `switches` at the position of each LED under a switch.
pub fn split_colour_gen<FU, FS, U>(underglow: FU, switches: FS) -> (colours: Vec<U>) where
    FU: Fn(u8, u8) -> U,
    FS: Fn(u8, u8) -> U,

    requires
        forall|x: u8, y: u8| underglow.requires((x, y)),
        forall|x: u8, y: u8| switches.requires((x, y)),
    ensures
        colours@.len() == TOTAL_LEDS,
        forall|i: int|
            0 <= i < UNDERGLOW_LEDS ==> underglow.ensures(
                (underglow_positions()[i].0, underglow_positions()[i].1),
                #[trigger] colours@[i],
            ),
        forall|i: int|
            0 <= i < SWITCH_LEDS ==> switches.ensures(
                (switch_positions()[i].0, switch_positions()[i].1),
                #[trigger] colours@[UNDERGLOW_LEDS + i],
            ),
{
    let under = underglow_led_positions();
    let switch = switch_led_positions();
    let mut colours: Vec<U> = Vec::new();
    let mut i: usize = 0;
    while i < 6
        invariant
            i <= 6,
            under@ == underglow_positions(),
            colours@.len() == i,
            forall|x: u8, y: u8| underglow.requires((x, y)),
            forall|k: int|
                0 <= k < i ==> underglow.ensures(
                    (underglow_positions()[k].0, underglow_positions()[k].1),
                    #[trigger] colours@[k],
                ),
        decreases 6 - i,
    {
        let (x, y) = under[i];
        colours.push(underglow(x, y));
        i = i + 1;
    }
    let mut j: usize = 0;
    while j < 21
        invariant
            j <= 21,
            switch@ == switch_positions(),
            colours@.len() == 6 + j,
            forall|x: u8, y: u8| switches.requires((x, y)),
            forall|k: int|
                0 <= k < 6 ==> underglow.ensures(
                    (underglow_positions()[k].0, underglow_positions()[k].1),
                    #[trigger] colours@[k],
                ),
            forall|k: int|
                0 <= k < j ==> switches.ensures(
                    (switch_positions()[k].0, switch_positions()[k].1),
                    #[trigger] colours@[6 + k],
                ),
        decreases 21 - j,
    {
        let (x, y) = switch[j];
        colours.push(switches(x, y));
        j = j + 1;
    }
    colours
}

/// The radius of a wave one tick later: a wave that is out stays out, a
/// wave at its full radius goes out, and any other grows by 15 up to the
/// full radius.
pub open spec fn ticked(radius: u8) -> u8 {
    if radius == 0 || radius == 255 {
        0u8
    } else if radius + 15 > 255 {
        255u8
    } else {
        (radius + 15) as u8
    }
}

/// The cell of the key at row `x` and column `y`, if the half has that key.
pub open spec fn cell_of(x: u8, y: u8) -> Option<int> {
    if x < ROWS && y < COLS_PER_SIDE {
        Some(y * ROWS + x)
    } else {
        None
    }
}

/// The waves that run out from pressed keys: for every key of the half the
/// radius of its wave, 0 where there is none.
pub struct TapWaves {
    matrix: [u8; 24],
}

impl View for TapWaves {
    type V = Seq<u8>;

    /// The radius of the wave of each key, column by column.
    closed spec fn view(&self) -> Seq<u8> {
        self.matrix@
    }
}

impl TapWaves {
    /// No waves.
    pub fn new() -> (waves: Self)
        ensures
            waves@.len() == ROWS * COLS_PER_SIDE,
            forall|i: int| 0 <= i < waves@.len() ==> waves@[i] == 0,
    {
        TapWaves { matrix: [0u8; 24] }
    }

    /// The radius of the wave of the key at row `x` and column `y`; `None`
    /// where the half has no such key.
    pub fn radius(&self, x: u8, y: u8) -> (radius: Option<u8>)
        ensures
            self@.len() == ROWS * COLS_PER_SIDE,
            radius == match cell_of(x, y) {
                Some(cell) => Some(self@[cell]),
                None => None,
            },
    {
        if (x as usize) < ROWS && (y as usize) < COLS_PER_SIDE {
            Some(self.matrix[(y as usize) * ROWS + (x as usize)])
        } else {
            None
        }
    }

    /// Lets every wave run on for one tick.
    pub fn tick(&mut self)
        ensures
            final(self)@.len() == old(self)@.len(),
            forall|i: int| 0 <= i < old(self)@.len() ==> final(self)@[i] == ticked(old(self)@[i]),
    {
        let mut i: usize = 0;
        while i < 24
            invariant
                i <= 24,
                self@.len() == 24,
                old(self)@.len() == 24,
                forall|k: int| 0 <= k < i ==> self@[k] == ticked(old(self)@[k]),
                forall|k: int| i <= k < 24 ==> self@[k] == old(self)@[k],
            decreases 24 - i,
        {
            let v = self.matrix[i];
            let next: u8 = if v == 0 || v == 255 {
                0
            } else if v > 240 {
                255
            } else {
                v + 15
            };
            self.matrix[i] = next;
            i = i + 1;
        }
    }

    /// Starts a wave at the key that went down. A release, and a press of a
    /// key that the half does not have, change nothing.
    pub fn update(&mut self, event: KeyEvent)
        ensures
            final(self)@ == match event {
                KeyEvent::Press(x, y) => match cell_of(x, y) {
                    Some(cell) => old(self)@.update(cell, 1u8),
                    None => old(self)@,
                },
                KeyEvent::Release(_, _) => old(self)@,
            },
    {
        match event {
            KeyEvent::Press(x, y) => {
                if (x as usize) < ROWS && (y as usize) < COLS_PER_SIDE {
                    self.matrix[(y as usize) * ROWS + (x as usize)] = 1;
                }
            },
            KeyEvent::Release(_, _) => {},
        }
    }
}

} // verus!
