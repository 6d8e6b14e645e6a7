//! The application messages that travel between the keyboard halves and
//! between the keyboard and the host, with their byte formats.

use crate::wire::{
    get_le16, get_le32, le16, le32, lemma_le16_injective, lemma_le32_injective, put_le16,
    put_le32, Wire,
};
use vstd::prelude::*;

verus! {

/// One half of the keyboard.
#[derive(Debug, Clone, Copy, PartialEq, Eq, Hash)]
pub enum KeyboardSide {
    Left,
    Right,
}

impl KeyboardSide {
    /// The byte that stands for the side.
    pub open spec fn tag(&self) -> u8 {
        match self {
            KeyboardSide::Left => 0u8,
            KeyboardSide::Right => 1u8,
        }
    }
}

/// Commands of the primary half to the secondary half.
#[derive(Debug, Clone, Copy, PartialEq, Eq, Hash)]
pub enum DomToSub {
    /// Set the LED animation counter to this value.
    ResyncLeds(u16),
    /// Reset the half.
    Reset,
    /// This many keys were pressed since the last such command.
    SyncKeypresses(u16),
    /// Write two rows of display pixels, starting at `row`.
    WritePixels { row: u8, data_0: [u8; 4], data_1: [u8; 4] },
}

/// Commands of the secondary half to the primary half.
#[derive(Debug, Clone, Copy, PartialEq, Eq, Hash)]
pub enum SubToDom {
    /// The key at this packed coordinate went down.
    KeyPressed(u8),
    /// The key at this packed coordinate went up.
    KeyReleased(u8),
}

/// Commands of the host to the keyboard.
#[derive(Debug, Clone, Copy, PartialEq, Eq, Hash)]
pub enum HostToKeyboard {
    /// Ask for the keypress statistics.
    RequestStats,
    /// Write two rows of display pixels on one half, starting at `row`.
    WritePixels { side: KeyboardSide, row: u8, data_0: [u8; 4], data_1: [u8; 4] },
}

/// Commands of the keyboard to the host.
#[derive(Debug, Clone, Copy, PartialEq, Eq, Hash)]
pub enum KeyboardToHost {
    /// The number of keys pressed so far.
    Stats { keypresses: u32 },
}

/// A key going down or up at a row and a column of the matrix.
#[derive(Debug, Clone, Copy, PartialEq, Eq, Hash)]
pub enum KeyEvent {
    Press(u8, u8),
    Release(u8, u8),
}

/// Two rows of display pixels that replace what the display shows.
#[derive(Debug, Clone, Copy, PartialEq, Eq, Hash)]
pub struct DisplayOverride {
    pub row: u8,
    pub data_0: [u8; 4],
    pub data_1: [u8; 4],
}

/// A coordinate packed into one byte: the low four bits of `x` above the
/// low four bits of `y`.
pub open spec fn pack(x: u8, y: u8) -> u8 {
    ((x & 0xf) << 4) | (y & 0xf)
}

impl SubToDom {
    /// The press of the key at `(x, y)`; only the low four bits of each
    /// coordinate are kept.
    pub fn key_pressed(x: u8, y: u8) -> (msg: Self)
        ensures
            msg == SubToDom::KeyPressed(pack(x, y)),
    {
        SubToDom::KeyPressed(((x & 0xf) << 4) | (y & 0xf))
    }

    /// The release of the key at `(x, y)`; only the low four bits of each
    /// coordinate are kept.
    pub fn key_released(x: u8, y: u8) -> (msg: Self)
        ensures
            msg == SubToDom::KeyReleased(pack(x, y)),
    {
        SubToDom::KeyReleased(((x & 0xf) << 4) | (y & 0xf))
    }

    /// The key event that the message reports, unpacked for the layout
    /// engine of the keyberon kind: the high four bits of the coordinate
    /// first, then the low four bits.
    pub fn as_keyberon_event(&self) -> (event: Option<KeyEvent>)
        ensures
            event == Some(self.event()),
    {
        match self {
            SubToDom::KeyPressed(v) => Some(KeyEvent::Press((*v >> 4) & 0xf, *v & 0xf)),
            SubToDom::KeyReleased(v) => Some(KeyEvent::Release((*v >> 4) & 0xf, *v & 0xf)),
        }
    }

    /// The message that reports a key event; only the low four bits of
    /// each coordinate are kept.
    pub fn from_event(event: KeyEvent) -> (msg: Self)
        ensures
            msg == match event {
                KeyEvent::Press(x, y) => SubToDom::KeyPressed(pack(x, y)),
                KeyEvent::Release(x, y) => SubToDom::KeyReleased(pack(x, y)),
            },
    {
        match event {
            KeyEvent::Press(x, y) => SubToDom::key_pressed(x, y),
            KeyEvent::Release(x, y) => SubToDom::key_released(x, y),
        }
    }

    /// The key event that the message reports.
    pub open spec fn event(&self) -> KeyEvent {
        match self {
            SubToDom::KeyPressed(v) => KeyEvent::Press((*v >> 4) & 0xf, *v & 0xf),
            SubToDom::KeyReleased(v) => KeyEvent::Release((*v >> 4) & 0xf, *v & 0xf),
        }
    }
}

/// A coordinate that is packed and unpacked again keeps the low four bits
/// of `x` and of `y`.
pub proof fn lemma_pack_unpack(x: u8, y: u8)
    ensures
        SubToDom::KeyPressed(pack(x, y)).event() == KeyEvent::Press(x & 0xf, y & 0xf),
        SubToDom::KeyReleased(pack(x, y)).event() == KeyEvent::Release(x & 0xf, y & 0xf),
{
    assert(((((x & 0xf) << 4) | (y & 0xf)) >> 4) & 0xf == x & 0xf) by (bit_vector);
    assert((((x & 0xf) << 4) | (y & 0xf)) & 0xf == y & 0xf) by (bit_vector);
}

/// What the primary half does with a command of the host.
#[derive(Debug, Clone, Copy, PartialEq, Eq)]
pub enum HostRequest {
    /// Reply with the keypress statistics.
    Stats,
    /// Show the rows on the display of the primary half, the left one.
    Show(DisplayOverride),
    /// Pass the command on to the secondary half, the right one.
    Forward(DomToSub),
}

impl HostToKeyboard {
    /// What the primary half does with the command.
    pub fn route(&self) -> (request: HostRequest)
        ensures
            request == match *self {
                HostToKeyboard::RequestStats => HostRequest::Stats,
                HostToKeyboard::WritePixels { side: KeyboardSide::Left, row, data_0, data_1 } =>
                    HostRequest::Show((DisplayOverride { row, data_0, data_1 })),
                HostToKeyboard::WritePixels { side: KeyboardSide::Right, row, data_0, data_1 } =>
                    HostRequest::Forward((DomToSub::WritePixels { row, data_0, data_1 })),
            },
    {
        match self {
            HostToKeyboard::RequestStats => HostRequest::Stats,
            HostToKeyboard::WritePixels { side, row, data_0, data_1 } => match side {
                KeyboardSide::Left => HostRequest::Show(
                    DisplayOverride { row: *row, data_0: *data_0, data_1: *data_1 },
                ),
                KeyboardSide::Right => HostRequest::Forward(
                    DomToSub::WritePixels { row: *row, data_0: *data_0, data_1: *data_1 },
                ),
            },
        }
    }
}

impl DomToSub {
    /// The display rows that a `WritePixels` command carries.
    pub fn display_override(&self) -> (rows: Option<DisplayOverride>)
        ensures
            rows == match *self {
                DomToSub::WritePixels { row, data_0, data_1 } => Some(
                    (DisplayOverride { row, data_0, data_1 }),
                ),
                _ => None,
            },
    {
        match self {
            DomToSub::WritePixels { row, data_0, data_1 } => Some(
                DisplayOverride { row: *row, data_0: *data_0, data_1: *data_1 },
            ),
            _ => None,
        }
    }
}

impl Wire for SubToDom {
    open spec fn wire(&self) -> Seq<u8> {
        match self {
            SubToDom::KeyPressed(v) => seq![0u8, *v],
            SubToDom::KeyReleased(v) => seq![1u8, *v],
        }
    }

    proof fn lemma_wire_injective(a: &Self, b: &Self) {
    }

    fn to_bytes(&self) -> (out: Vec<u8>) {
        let mut out: Vec<u8> = Vec::new();
        match self {
            SubToDom::KeyPressed(v) => {
                out.push(0);
                out.push(*v);
            },
            SubToDom::KeyReleased(v) => {
                out.push(1);
                out.push(*v);
            },
        }
        out
    }

    fn from_bytes(bytes: &[u8]) -> (msg: Option<Self>) {
        if bytes.len() == 2 && bytes[0] == 0 {
            Some(SubToDom::KeyPressed(bytes[1]))
        } else if bytes.len() == 2 && bytes[0] == 1 {
            Some(SubToDom::KeyReleased(bytes[1]))
        } else {
            None
        }
    }
}

/// Appends the four bytes of a pixel row.
fn put_row(out: &mut Vec<u8>, data: &[u8; 4])
    ensures
        final(out)@ == old(out)@ + data@,
{
    out.push(data[0]);
    out.push(data[1]);
    out.push(data[2]);
    out.push(data[3]);
}

/// The pixel row that the four bytes of `bytes` from `at` on spell.
fn get_row(bytes: &[u8], at: usize) -> (data: [u8; 4])
    requires
        at + 4 <= bytes.len(),
    ensures
        data@ == bytes@.subrange(at as int, at + 4),
{
    let data: [u8; 4] = [bytes[at], bytes[at + 1], bytes[at + 2], bytes[at + 3]];
    data
}

/// A pixel row is determined by its bytes.
proof fn lemma_row_injective(a: [u8; 4], b: [u8; 4])
    requires
        a@ == b@,
    ensures
        a == b,
{
    assert(a =~= b);
}

impl Wire for KeyboardToHost {
    open spec fn wire(&self) -> Seq<u8> {
        match self {
            KeyboardToHost::Stats { keypresses } => seq![0u8] + le32(*keypresses),
        }
    }

    proof fn lemma_wire_injective(a: &Self, b: &Self) {
        match (*a, *b) {
            (KeyboardToHost::Stats { keypresses: x }, KeyboardToHost::Stats { keypresses: y }) => {
                assert(le32(x) == a.wire().skip(1) && le32(y) == b.wire().skip(1));
                lemma_le32_injective(x, y);
            },
        }
    }

    fn to_bytes(&self) -> (out: Vec<u8>) {
        let mut out: Vec<u8> = Vec::new();
        match self {
            KeyboardToHost::Stats { keypresses } => {
                out.push(0);
                put_le32(&mut out, *keypresses);
            },
        }
        out
    }

    fn from_bytes(bytes: &[u8]) -> (msg: Option<Self>) {
        if bytes.len() == 5 && bytes[0] == 0 {
            Some(KeyboardToHost::Stats {
                keypresses: get_le32(bytes[1], bytes[2], bytes[3], bytes[4]),
            })
        } else {
            None
        }
    }
}

/// The first byte of a message of the primary half names its variant.
proof fn lemma_dom_to_sub_tag(m: DomToSub)
    ensures
        m.wire().len() > 0,
        m.wire()[0] == match m {
            DomToSub::ResyncLeds(_) => 0u8,
            DomToSub::Reset => 1u8,
            DomToSub::SyncKeypresses(_) => 2u8,
            DomToSub::WritePixels { .. } => 3u8,
        },
        m is WritePixels ==> m.wire().len() == 10,
{
}

/// The first byte of a message of the host names its variant.
proof fn lemma_host_to_keyboard_tag(m: HostToKeyboard)
    ensures
        m.wire().len() > 0,
        m.wire()[0] == match m {
            HostToKeyboard::RequestStats => 0u8,
            HostToKeyboard::WritePixels { .. } => 1u8,
        },
        m is WritePixels ==> m.wire().len() == 11,
{
}

impl Wire for DomToSub {
    open spec fn wire(&self) -> Seq<u8> {
        match self {
            DomToSub::ResyncLeds(v) => seq![0u8] + le16(*v),
            DomToSub::Reset => seq![1u8],
            DomToSub::SyncKeypresses(v) => seq![2u8] + le16(*v),
            DomToSub::WritePixels { row, data_0, data_1 } => seq![3u8, *row] + data_0@ + data_1@,
        }
    }

    proof fn lemma_wire_injective(a: &Self, b: &Self) {
        lemma_dom_to_sub_tag(*a);
        lemma_dom_to_sub_tag(*b);
        match (*a, *b) {
            (DomToSub::ResyncLeds(x), DomToSub::ResyncLeds(y)) => {
                assert(le16(x) == a.wire().skip(1) && le16(y) == b.wire().skip(1));
                lemma_le16_injective(x, y);
            },
            (DomToSub::SyncKeypresses(x), DomToSub::SyncKeypresses(y)) => {
                assert(le16(x) == a.wire().skip(1) && le16(y) == b.wire().skip(1));
                lemma_le16_injective(x, y);
            },
            (
                DomToSub::WritePixels { row: r1, data_0: p1, data_1: q1 },
                DomToSub::WritePixels { row: r2, data_0: p2, data_1: q2 },
            ) => {
                assert(a.wire()[1] == r1 && b.wire()[1] == r2);
                assert(p1@ == a.wire().subrange(2, 6));
                assert(p2@ == b.wire().subrange(2, 6));
                assert(q1@ == a.wire().subrange(6, 10));
                assert(q2@ == b.wire().subrange(6, 10));
                lemma_row_injective(p1, p2);
                lemma_row_injective(q1, q2);
            },
            _ => {},
        }
    }

    fn to_bytes(&self) -> (out: Vec<u8>) {
        let mut out: Vec<u8> = Vec::new();
        match self {
            DomToSub::ResyncLeds(v) => {
                out.push(0);
                put_le16(&mut out, *v);
            },
            DomToSub::Reset => {
                out.push(1);
            },
            DomToSub::SyncKeypresses(v) => {
                out.push(2);
                put_le16(&mut out, *v);
            },
            DomToSub::WritePixels { row, data_0, data_1 } => {
                out.push(3);
                out.push(*row);
                put_row(&mut out, data_0);
                put_row(&mut out, data_1);
            },
        }
        out
    }

    fn from_bytes(bytes: &[u8]) -> (msg: Option<Self>) {
        let n = bytes.len();
        if n == 3 && bytes[0] == 0 {
            Some(DomToSub::ResyncLeds(get_le16(bytes[1], bytes[2])))
        } else if n == 1 && bytes[0] == 1 {
            Some(DomToSub::Reset)
        } else if n == 3 && bytes[0] == 2 {
            Some(DomToSub::SyncKeypresses(get_le16(bytes[1], bytes[2])))
        } else if n == 10 && bytes[0] == 3 {
            Some(DomToSub::WritePixels {
                row: bytes[1],
                data_0: get_row(bytes, 2),
                data_1: get_row(bytes, 6),
            })
        } else {
            None
        }
    }
}

impl Wire for HostToKeyboard {
    open spec fn wire(&self) -> Seq<u8> {
        match self {
            HostToKeyboard::RequestStats => seq![0u8],
            HostToKeyboard::WritePixels { side, row, data_0, data_1 } => seq![
                1u8,
                side.tag(),
                *row,
            ] + data_0@ + data_1@,
        }
    }

    proof fn lemma_wire_injective(a: &Self, b: &Self) {
        lemma_host_to_keyboard_tag(*a);
        lemma_host_to_keyboard_tag(*b);
        match (*a, *b) {
            (
                HostToKeyboard::WritePixels { side: s1, row: r1, data_0: p1, data_1: q1 },
                HostToKeyboard::WritePixels { side: s2, row: r2, data_0: p2, data_1: q2 },
            ) => {
                assert(a.wire()[1] == s1.tag() && b.wire()[1] == s2.tag());
                assert(a.wire()[2] == r1 && b.wire()[2] == r2);
                assert(p1@ == a.wire().subrange(3, 7));
                assert(p2@ == b.wire().subrange(3, 7));
                assert(q1@ == a.wire().subrange(7, 11));
                assert(q2@ == b.wire().subrange(7, 11));
                lemma_row_injective(p1, p2);
                lemma_row_injective(q1, q2);
            },
            _ => {},
        }
    }

    fn to_bytes(&self) -> (out: Vec<u8>) {
        let mut out: Vec<u8> = Vec::new();
        match self {
            HostToKeyboard::RequestStats => {
                out.push(0);
            },
            HostToKeyboard::WritePixels { side, row, data_0, data_1 } => {
                out.push(1);
                match side {
                    KeyboardSide::Left => out.push(0),
                    KeyboardSide::Right => out.push(1),
                }
                out.push(*row);
                put_row(&mut out, data_0);
                put_row(&mut out, data_1);
            },
        }
        out
    }

    fn from_bytes(bytes: &[u8]) -> (msg: Option<Self>) {
        let n = bytes.len();
        if n == 1 && bytes[0] == 0 {
            Some(HostToKeyboard::RequestStats)
        } else if n == 11 && bytes[0] == 1 && bytes[1] <= 1 {
            let side = if bytes[1] == 0 {
                KeyboardSide::Left
            } else {
                KeyboardSide::Right
            };
            Some(HostToKeyboard::WritePixels {
                side,
                row: bytes[2],
                data_0: get_row(bytes, 3),
                data_1: get_row(bytes, 7),
            })
        } else {
            None
        }
    }
}

} // verus!
