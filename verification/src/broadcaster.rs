//! The state broadcaster: pushes the latest authoritative state to the
//! sessions over the unreliable transport, once per tick at most.
//!
//! Each tick the driver takes a snapshot of the shared slot that holds the
//! latest state, serialises it and shows the serialised form to the
//! broadcaster.
//! A form equal to the one shown at the tick before is not sent again, so
//! that state which stands still costs no traffic. A new form is sent to
//! every connection but the one at the address of the packet's sender.

use vstd::prelude::*;
use crate::registry::addresses;
use crate::router::{is_other, others, texts};
use crate::types::{Packet, PacketView, SessionRecord};

verus! {

/// The slot that holds the latest authoritative state. Producers write to
/// it and the broadcaster reads it; what was written last is what is read,
/// whoever wrote before.
pub struct LatestSlot {
    packet: Packet,
}

impl View for LatestSlot {
    type V = PacketView;

    closed spec fn view(&self) -> PacketView {
        self.packet@
    }
}

impl LatestSlot {
    /// Creates the slot with its first content.
    pub fn new(initial: Packet) -> (slot: LatestSlot)
        ensures
            slot@ == initial@,
    {
        LatestSlot { packet: initial }
    }

    /// Replaces the content of the slot.
    pub fn store(&mut self, packet: Packet)
        ensures
            final(self)@ == packet@,
    {
        self.packet = packet;
    }

    /// Copies the content of the slot out, to be serialised and sent after
    /// the slot has been let go of.
    pub fn snapshot(&self) -> (packet: Packet)
        ensures
            packet@ == self@,
    {
        self.packet.clone()
    }
}

/// What the broadcaster remembers: the serialised form it was shown last.
pub struct BroadcasterView {
    pub last_shown: Seq<char>,
}

impl BroadcasterView {
    /// The broadcaster before its first tick. It has been shown nothing,
    /// which counts as the empty form.
    pub open spec fn initial() -> BroadcasterView {
        BroadcasterView { last_shown: Seq::empty() }
    }

    /// What is sent at a tick that shows `serialized`: the form itself if
    /// it differs from the form shown last, nothing if it does not.
    pub open spec fn emitted(self, serialized: Seq<char>) -> Option<Seq<char>> {
        if serialized == self.last_shown {
            None
        } else {
            Some(serialized)
        }
    }

    /// The broadcaster after a tick that showed `serialized`.
    pub open spec fn after(self, serialized: Seq<char>) -> BroadcasterView {
        BroadcasterView { last_shown: serialized }
    }

    /// A tick whose state serialises as it did at the tick before sends
    /// nothing.
    pub proof fn lemma_unchanged_state_is_silent(self, serialized: Seq<char>)
        ensures
            self.after(serialized).emitted(serialized) is None,
    {
    }

    /// A tick whose state serialises otherwise than at the tick before
    /// sends the new form, and that form only.
    pub proof fn lemma_changed_state_is_sent(self, earlier: Seq<char>, serialized: Seq<char>)
        requires
            earlier != serialized,
        ensures
            self.after(earlier).emitted(serialized) == Some(serialized),
    {
    }
}

/// Deduplicates the state that is broadcast tick by tick.
pub struct StateBroadcaster {
    last_shown: String,
}

impl View for StateBroadcaster {
    type V = BroadcasterView;

    closed spec fn view(&self) -> BroadcasterView {
        BroadcasterView { last_shown: self.last_shown@ }
    }
}

impl StateBroadcaster {
    /// Creates a broadcaster that has been shown nothing yet.
    pub fn new() -> (broadcaster: StateBroadcaster)
        ensures
            broadcaster@ == BroadcasterView::initial(),
    {
        StateBroadcaster { last_shown: String::new() }
    }

    /// One tick: takes the serialised form of the latest state and returns
    /// the payload to send, if any. At most one payload comes out of a
    /// tick, and none when the form is the one shown at the tick before.
    pub fn tick(&mut self, serialized: String) -> (payload: Option<String>)
        ensures
            final(self)@ == old(self)@.after(serialized@),
            (match payload {
                Some(text) => old(self)@.emitted(serialized@) == Some(text@),
                None => old(self)@.emitted(serialized@) is None,
            }),
    {
        if serialized == self.last_shown {
            None
        } else {
            self.last_shown = serialized.clone();
            Some(serialized)
        }
    }
}

/// Picks the addresses that a broadcast goes to: the address of every
/// connection in `connections` but those equal to `sender`, one datagram
/// per connection and in the order of the snapshot.
pub fn broadcast_targets(connections: &Vec<SessionRecord>, sender: &String) -> (targets: Vec<String>)
    ensures
        texts(targets@) == others(addresses(connections@), sender@),
        targets@.len() <= connections@.len(),
{
    let mut targets: Vec<String> = Vec::new();
    let mut i: usize = 0;
    proof {
        reveal(Seq::filter);
    }
    while i < connections.len()
        invariant
            i <= connections.len(),
            texts(targets@) == others(addresses(connections@).take(i as int), sender@),
            targets@.len() <= i,
        decreases connections.len() - i,
    {
        proof {
            let seen = addresses(connections@).take(i as int);
            assert(addresses(connections@).take(i + 1) =~= seen.push(connections[i as int].address@));
            seen.lemma_filter_push(connections[i as int].address@, is_other(sender@));
        }
        if !(connections[i].address == *sender) {
            targets.push(connections[i].address.clone());
        }
        i += 1;
    }
    proof {
        assert(addresses(connections@).take(i as int) =~= addresses(connections@));
    }
    targets
}

} // verus!
