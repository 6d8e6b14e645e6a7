//! The sending of one application message until it is acknowledged.
//!
//! Every attempt wraps the message in a fresh command, registers a waiter
//! under the identifier of the command and hands the command out for
//! transmission. The caller then waits for the waiter to be woken or for its
//! timer, whichever comes first, and reports which it was. A timeout takes
//! the waiter out again and leaves the message unsent, ready for the next
//! attempt; there is no limit to the attempts.

use crate::envelope::{command_checksum, id_after, CmdOrAck, Command, IdGenerator};
use crate::inbound::{acknowledgement, on_envelope, Received};
use crate::waiters::{can_register, WaiterRegistry, WAITER_CAPACITY};
use crate::wire::Wire;
use vstd::prelude::*;

verus! {

/// Where the sending of a message stands.
#[derive(Debug, Clone, Copy, PartialEq, Eq)]
pub enum SendState {
    /// No attempt is in flight.
    Unsent,
    /// The command with this identifier is in flight.
    AwaitingAck { uuid: u8 },
    /// The message was acknowledged.
    Acked,
}

/// How the wait for an acknowledgement ended.
#[derive(Debug, Clone, Copy, PartialEq, Eq)]
pub enum Waited {
    /// The waiter was woken: the acknowledgement arrived.
    Woken,
    /// The timer ran out first.
    TimedOut,
}

/// The sending of a message, as contracts see it.
pub struct Sending<T> {
    /// The message.
    pub cmd: T,
    /// Where the sending stands.
    pub state: SendState,
    /// The number of attempts that timed out, counted up to `u64::MAX`.
    pub timeouts: nat,
}

/// The sender of one application message.
pub struct EventSender<T> {
    cmd: T,
    state: SendState,
    timeouts: u64,
}

impl<T> View for EventSender<T> {
    type V = Sending<T>;

    closed spec fn view(&self) -> Sending<T> {
        Sending { cmd: self.cmd, state: self.state, timeouts: self.timeouts as nat }
    }
}

/// The command of the attempt that takes the identifier `uuid`.
pub open spec fn command_of<T: Wire>(cmd: T, uuid: u8) -> Command<T> {
    Command { uuid, csum: command_checksum(cmd.wire(), uuid), cmd }
}

impl<T: Wire> Sending<T> {
    /// The sending once the attempt with the identifier `uuid` has begun.
    pub open spec fn begun(self, uuid: u8) -> Sending<T> {
        Sending { state: SendState::AwaitingAck { uuid }, ..self }
    }

    /// The sending once the wait of the attempt in flight has ended.
    pub open spec fn ended(self, outcome: Waited) -> Sending<T> {
        match (self.state, outcome) {
            (SendState::AwaitingAck { .. }, Waited::Woken) => Sending {
                state: SendState::Acked,
                ..self
            },
            (SendState::AwaitingAck { .. }, Waited::TimedOut) => Sending {
                state: SendState::Unsent,
                timeouts: if self.timeouts < u64::MAX {
                    self.timeouts + 1
                } else {
                    self.timeouts
                },
                ..self
            },
            _ => self,
        }
    }
}

/// The waiters once the wait of a sending in this state has ended: a
/// timeout takes the waiter of the attempt out.
pub open spec fn waiters_after(waiters: Map<u8, u32>, state: SendState, outcome: Waited) -> Map<
    u8,
    u32,
> {
    match (state, outcome) {
        (SendState::AwaitingAck { uuid }, Waited::TimedOut) => waiters.remove(uuid),
        _ => waiters,
    }
}

impl<T: Wire + Copy> EventSender<T> {
    /// A sender for `cmd`, with no attempt made yet.
    pub fn new(cmd: T) -> (sender: Self)
        ensures
            sender@ == (Sending { cmd, state: SendState::Unsent, timeouts: 0 }),
    {
        EventSender { cmd, state: SendState::Unsent, timeouts: 0 }
    }

    /// Where the sending stands.
    pub fn state(&self) -> (state: SendState)
        ensures
            state == self@.state,
    {
        self.state
    }

    /// The number of attempts that timed out.
    pub fn timeouts(&self) -> (n: u64)
        ensures
            n == self@.timeouts,
    {
        self.timeouts
    }

    /// Whether the message was acknowledged.
    pub fn is_acked(&self) -> (acked: bool)
        ensures
            acked == (self@.state is Acked),
    {
        match self.state {
            SendState::Acked => true,
            _ => false,
        }
    }

    /// Begins an attempt: takes a fresh identifier, registers the waiter
    /// with this handle under it, and returns the command to put on the
    /// outbound queue.
    pub fn begin_attempt(
        &mut self,
        ids: &mut IdGenerator,
        waiters: &mut WaiterRegistry,
        handle: u32,
    ) -> (envelope: CmdOrAck<T>)
        requires
            old(self)@.state is Unsent,
            can_register(old(waiters)@, old(ids)@),
        ensures
            final(self)@ == old(self)@.begun(old(ids)@),
            final(ids)@ == id_after(old(ids)@),
            final(waiters)@ == old(waiters)@.insert(old(ids)@, handle),
            envelope == CmdOrAck::Cmd(command_of(old(self)@.cmd, old(ids)@)),
    {
        let command = Command::new(self.cmd, ids);
        waiters.register(command.uuid, handle);
        self.state = SendState::AwaitingAck { uuid: command.uuid };
        CmdOrAck::Cmd(command)
    }

    /// Ends the wait of the attempt in flight. Woken, the message is
    /// acknowledged. Timed out, the waiter of the attempt leaves the
    /// registry and the message is unsent again. Returns whether the
    /// message is acknowledged. With no attempt in flight nothing changes.
    pub fn end_attempt(&mut self, outcome: Waited, waiters: &mut WaiterRegistry) -> (done: bool)
        ensures
            final(self)@ == old(self)@.ended(outcome),
            final(waiters)@ == waiters_after(old(waiters)@, old(self)@.state, outcome),
            done == (final(self)@.state is Acked),
    {
        match self.state {
            SendState::AwaitingAck { uuid } => {
                match outcome {
                    Waited::Woken => {
                        self.state = SendState::Acked;
                        true
                    },
                    Waited::TimedOut => {
                        waiters.deregister(uuid);
                        self.state = SendState::Unsent;
                        if self.timeouts < u64::MAX {
                            self.timeouts = self.timeouts + 1;
                        }
                        false
                    },
                }
            },
            SendState::Acked => true,
            SendState::Unsent => false,
        }
    }
}

/// The identifier of the attempt that follows `k` others, where the first
/// of them took `first`.
pub open spec fn nth_id(first: u8, k: nat) -> u8 {
    ((first + k) % 256) as u8
}

/// One end of a link as the sender of a message sees it: the generator of
/// identifiers, the registry of waiters and the sending itself.
pub struct Station<T> {
    pub ids: u8,
    pub waiters: Map<u8, u32>,
    pub sending: Sending<T>,
}

impl<T: Wire> Station<T> {
    /// The station once `begin_attempt` has run.
    pub open spec fn begin(self, handle: u32) -> Station<T> {
        Station {
            ids: id_after(self.ids),
            waiters: self.waiters.insert(self.ids, handle),
            sending: self.sending.begun(self.ids),
        }
    }

    /// The station once `end_attempt` has run.
    pub open spec fn end(self, outcome: Waited) -> Station<T> {
        Station {
            ids: self.ids,
            waiters: waiters_after(self.waiters, self.sending.state, outcome),
            sending: self.sending.ended(outcome),
        }
    }

    /// The station after `n` attempts in a row that each timed out: the
    /// link lost the command or its acknowledgement.
    pub open spec fn lose(self, n: nat, handle: u32) -> Station<T>
        decreases n,
    {
        if n == 0 {
            self
        } else {
            self.lose((n - 1) as nat, handle).begin(handle).end(Waited::TimedOut)
        }
    }

    /// A station from which an attempt can begin: nothing is in flight,
    /// and a waiter can be registered under the next identifier.
    pub open spec fn ready(self) -> bool {
        &&& self.sending.state is Unsent
        &&& self.waiters.dom().finite()
        &&& can_register(self.waiters, self.ids)
    }
}

/// After an attempt timed out its identifier is no longer registered, the
/// registry is as it was before the attempt, and the next attempt can
/// begin, also where the attempt filled the registry to its capacity.
pub proof fn lemma_timeout_frees_waiter<T: Wire>(station: Station<T>, handle: u32)
    requires
        station.ready(),
        !station.waiters.contains_key(id_after(station.ids)),
    ensures
        ({
            let retry = station.begin(handle).end(Waited::TimedOut);
            &&& !retry.waiters.contains_key(station.ids)
            &&& retry.waiters == station.waiters
            &&& retry.ids == id_after(station.ids)
            &&& retry.ready()
        }),
{
    assert(station.begin(handle).end(Waited::TimedOut).waiters =~= station.waiters);
}

proof fn lemma_lose<T: Wire>(station: Station<T>, n: nat, handle: u32)
    requires
        station.sending.state is Unsent,
        forall|k: nat| k < n ==> !station.waiters.contains_key(#[trigger] nth_id(station.ids, k)),
        station.sending.timeouts + n <= u64::MAX,
    ensures
        station.lose(n, handle) == (Station {
            ids: nth_id(station.ids, n),
            waiters: station.waiters,
            sending: Sending {
                timeouts: station.sending.timeouts + n,
                ..station.sending
            },
        }),
    decreases n,
{
    if n > 0 {
        let m = (n - 1) as nat;
        lemma_lose(station, m, handle);
        let uuid = nth_id(station.ids, m);
        assert(station.waiters.insert(uuid, handle).remove(uuid) =~= station.waiters);
        assert(id_after(uuid) == nth_id(station.ids, n));
    }
}

/// At-least-once delivery under loss. From a station with nothing in
/// flight, let `n` attempts time out and let the attempt after them get
/// through. Then every one of the `n + 1` attempts could begin; the command
/// that gets through is acknowledged by the peer and handed to its
/// application; the acknowledgement wakes this sender and no other; and
/// the sending ends acknowledged after exactly `n` timeouts, with the
/// registry as it was at the start.
///
/// The identifiers of the attempts must be free in the registry: after 256
/// attempts they repeat, and a registry of other senders may hold them.
pub proof fn lemma_delivered_after_losses<T: Wire, U: Wire>(
    station: Station<T>,
    n: nat,
    handle: u32,
    peer_waiters: Map<u8, u32>,
)
    requires
        station.sending.state is Unsent,
        station.waiters.dom().finite(),
        station.waiters.len() < WAITER_CAPACITY,
        forall|k: nat| k <= n ==> !station.waiters.contains_key(#[trigger] nth_id(station.ids, k)),
        station.sending.timeouts + n <= u64::MAX,
    ensures
        forall|k: nat| k <= n ==> (#[trigger] station.lose(k, handle)).ready(),
        ({
            let uuid = nth_id(station.ids, n);
            let flying = station.lose(n, handle).begin(handle);
            let command = command_of(station.sending.cmd, uuid);
            &&& flying.sending.state == SendState::AwaitingAck { uuid }
            &&& on_envelope(CmdOrAck::Cmd(command), peer_waiters) == (
                peer_waiters,
                Received::Command { ack: acknowledgement(uuid), cmd: station.sending.cmd },
            )
            &&& on_envelope::<U>(CmdOrAck::Ack(acknowledgement(uuid)), flying.waiters) == (
                station.waiters,
                Received::<U>::Acked { uuid, handle },
            )
            &&& flying.end(Waited::Woken).sending == (Sending {
                state: SendState::Acked,
                timeouts: station.sending.timeouts + n,
                cmd: station.sending.cmd,
            })
        }),
{
    assert forall|k: nat| k <= n implies (#[trigger] station.lose(k, handle)).ready() by {
        lemma_lose(station, k, handle);
    }
    lemma_lose(station, n, handle);
    let uuid = nth_id(station.ids, n);
    assert(station.waiters.insert(uuid, handle).remove(uuid) =~= station.waiters);
}

} // verus!
