//! What crosses the wire: a command, which carries an application message,
//! or the acknowledgement of a command. Both carry the identifier of the
//! send attempt and a checksum.

use crate::checksum::{checksum, csum};
use crate::wire::Wire;
use vstd::prelude::*;
use vstd::slice::slice_subrange;

verus! {

/// The source of identifiers: an 8-bit counter that wraps.
///
/// Every send attempt takes one identifier. An identifier comes back after
/// 256 attempts, so it is unique only among the attempts in flight.
#[derive(Debug)]
pub struct IdGenerator {
    next: u8,
}

impl View for IdGenerator {
    type V = u8;

    /// The identifier that the next attempt gets.
    closed spec fn view(&self) -> u8 {
        self.next
    }
}

/// The identifier after `id`.
pub open spec fn id_after(id: u8) -> u8 {
    if id == 255 {
        0u8
    } else {
        (id + 1) as u8
    }
}

impl IdGenerator {
    /// A generator whose first identifier is 0.
    pub fn new() -> (ids: Self)
        ensures
            ids@ == 0,
    {
        IdGenerator { next: 0 }
    }

    /// A generator whose first identifier is `first`.
    pub fn starting_at(first: u8) -> (ids: Self)
        ensures
            ids@ == first,
    {
        IdGenerator { next: first }
    }

    /// The identifier that the next attempt gets.
    pub fn peek(&self) -> (id: u8)
        ensures
            id == self@,
    {
        self.next
    }

    /// Takes the next identifier.
    pub fn next_id(&mut self) -> (id: u8)
        ensures
            id == old(self)@,
            final(self)@ == id_after(id),
    {
        let id = self.next;
        self.next = if id == 255 {
            0
        } else {
            id + 1
        };
        id
    }
}

/// The checksum of a command: the digest of the bytes of its message
/// followed by its identifier.
pub open spec fn command_checksum(payload: Seq<u8>, uuid: u8) -> u8 {
    checksum(payload.push(uuid))
}

/// The checksum of an acknowledgement: the digest of its identifier.
pub open spec fn ack_checksum(uuid: u8) -> u8 {
    checksum(seq![uuid])
}

/// An application message on its way to the peer.
#[derive(Debug, PartialEq, Eq)]
pub struct Command<T> {
    pub uuid: u8,
    pub csum: u8,
    pub cmd: T,
}

/// The acknowledgement of the command with the same identifier.
#[derive(Debug, Clone, Copy, PartialEq, Eq)]
pub struct Ack {
    pub uuid: u8,
    pub csum: u8,
}

/// An envelope: what one frame carries.
#[derive(Debug, PartialEq, Eq)]
pub enum CmdOrAck<T> {
    Cmd(Command<T>),
    Ack(Ack),
}

impl<T: Wire> Command<T> {
    /// The checksum matches the message and the identifier.
    pub open spec fn valid(&self) -> bool {
        self.csum == command_checksum(self.cmd.wire(), self.uuid)
    }

    /// Wraps `cmd` for one send attempt: a fresh identifier, and the
    /// checksum that belongs to both.
    pub fn new(cmd: T, ids: &mut IdGenerator) -> (command: Self)
        ensures
            command.uuid == old(ids)@,
            command.cmd == cmd,
            command.valid(),
            final(ids)@ == id_after(old(ids)@),
    {
        let uuid = ids.next_id();
        let mut bytes = cmd.to_bytes();
        bytes.push(uuid);
        let csum = csum(bytes.as_slice());
        Command { uuid, csum, cmd }
    }

    /// Recomputes the checksum and compares it with the one carried.
    pub fn validate(&self) -> (ok: bool)
        ensures
            ok == self.valid(),
    {
        let mut bytes = self.cmd.to_bytes();
        bytes.push(self.uuid);
        csum(bytes.as_slice()) == self.csum
    }

    /// The acknowledgement of this command.
    pub fn ack(&self) -> (ack: Ack)
        ensures
            ack.uuid == self.uuid,
            ack.valid(),
    {
        Ack::new(self.uuid)
    }
}

impl Ack {
    /// The checksum matches the identifier.
    pub open spec fn valid(&self) -> bool {
        self.csum == ack_checksum(self.uuid)
    }

    /// The acknowledgement of the command with this identifier.
    pub fn new(uuid: u8) -> (ack: Self)
        ensures
            ack.uuid == uuid,
            ack.valid(),
    {
        let mut bytes: Vec<u8> = Vec::new();
        bytes.push(uuid);
        Ack { uuid, csum: csum(bytes.as_slice()) }
    }

    /// Recomputes the checksum: the acknowledgement itself where it
    /// matches the one carried, `None` where it does not.
    pub fn validate(self) -> (checked: Option<Self>)
        ensures
            checked == if self.valid() {
                Some(self)
            } else {
                None
            },
    {
        let mut bytes: Vec<u8> = Vec::new();
        bytes.push(self.uuid);
        if csum(bytes.as_slice()) == self.csum {
            Some(self)
        } else {
            None
        }
    }
}

impl<T: Wire> Wire for CmdOrAck<T> {
    /// Tag 0 and identifier, checksum and message of a command; tag 1 and
    /// identifier and checksum of an acknowledgement.
    open spec fn wire(&self) -> Seq<u8> {
        match self {
            CmdOrAck::Cmd(c) => seq![0u8, c.uuid, c.csum] + c.cmd.wire(),
            CmdOrAck::Ack(a) => seq![1u8, a.uuid, a.csum],
        }
    }

    proof fn lemma_wire_injective(a: &Self, b: &Self) {
        assert(a.wire()[0] == b.wire()[0]);
        match (*a, *b) {
            (CmdOrAck::Cmd(x), CmdOrAck::Cmd(y)) => {
                assert(a.wire()[1] == x.uuid && a.wire()[2] == x.csum);
                assert(b.wire()[1] == y.uuid && b.wire()[2] == y.csum);
                assert(a.wire().skip(3) == x.cmd.wire());
                assert(b.wire().skip(3) == y.cmd.wire());
                T::lemma_wire_injective(&x.cmd, &y.cmd);
            },
            _ => {},
        }
    }

    fn to_bytes(&self) -> (out: Vec<u8>) {
        let mut out: Vec<u8> = Vec::new();
        match self {
            CmdOrAck::Cmd(c) => {
                out.push(0);
                out.push(c.uuid);
                out.push(c.csum);
                let mut payload = c.cmd.to_bytes();
                out.append(&mut payload);
            },
            CmdOrAck::Ack(a) => {
                out.push(1);
                out.push(a.uuid);
                out.push(a.csum);
            },
        }
        out
    }

    fn from_bytes(bytes: &[u8]) -> (msg: Option<Self>) {
        let n = bytes.len();
        if n >= 3 && bytes[0] == 0 {
            let payload = slice_subrange(bytes, 3, n);
            match T::from_bytes(payload) {
                Some(cmd) => Some(CmdOrAck::Cmd(Command { uuid: bytes[1], csum: bytes[2], cmd })),
                None => {
                    assert forall|m: Self| #[trigger] m.wire() != bytes@ by {
                        if let CmdOrAck::Cmd(c) = m {
                            assert(m.wire().skip(3) == c.cmd.wire());
                        }
                    }
                    None
                },
            }
        } else if n == 3 && bytes[0] == 1 {
            Some(CmdOrAck::Ack(Ack { uuid: bytes[1], csum: bytes[2] }))
        } else {
            None
        }
    }
}

} // verus!
