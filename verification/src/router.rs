//! The broadcast router: who receives a published packet.
//!
//! Every session subscribes to one shared publish endpoint and sees every
//! packet that is published. Whether a subscriber is handed a packet is
//! decided per subscriber and per packet, from the packet's `sender`,
//! `send_back` and `owner_only` and the subscriber's own address:
//!
//! | send_back | owner_only | delivered to                         |
//! |-----------|------------|--------------------------------------|
//! | true      | true       | the subscriber at `sender` only      |
//! | true      | false      | every subscriber                     |
//! | false     | any        | every subscriber but the one at `sender` |
//!
//! The endpoint itself is a `tokio` broadcast channel of packets. Its
//! subscriptions are bounded: a subscriber that falls behind loses its
//! oldest undelivered packets, and neither the publisher nor any other
//! subscriber waits for it.

use vstd::prelude::*;
use tokio::sync::broadcast::error::SendError;
use tokio::sync::broadcast::Sender;
use crate::types::{Packet, PacketView};

verus! {

/// The three ways a packet is fanned out.
#[derive(Clone, Copy, Debug, PartialEq, Eq, Structural)]
pub enum DeliveryPolicy {
    /// Only the subscriber whose address is the packet's sender.
    ReplyToOrigin,
    /// Every subscriber, the origin included.
    BroadcastToAll,
    /// Every subscriber but the origin.
    RelayToOthers,
}

/// The policy that a pair of packet flags selects.
pub open spec fn policy_of(send_back: bool, owner_only: bool) -> DeliveryPolicy {
    if send_back {
        if owner_only {
            DeliveryPolicy::ReplyToOrigin
        } else {
            DeliveryPolicy::BroadcastToAll
        }
    } else {
        DeliveryPolicy::RelayToOthers
    }
}

/// Whether the subscriber at address `subscriber` is handed `packet`.
pub open spec fn delivers_to(packet: PacketView, subscriber: Seq<char>) -> bool {
    match policy_of(packet.send_back, packet.owner_only) {
        DeliveryPolicy::ReplyToOrigin => subscriber == packet.sender,
        DeliveryPolicy::BroadcastToAll => true,
        DeliveryPolicy::RelayToOthers => subscriber != packet.sender,
    }
}

/// The test that `delivered` keeps subscribers by.
pub open spec fn reaches(packet: PacketView) -> spec_fn(Seq<char>) -> bool {
    |subscriber: Seq<char>| delivers_to(packet, subscriber)
}

/// The subscribers that are handed `packet`, in the order given.
pub open spec fn delivered(packet: PacketView, subscribers: Seq<Seq<char>>) -> Seq<Seq<char>> {
    subscribers.filter(reaches(packet))
}

/// The test that `others` keeps addresses by.
pub open spec fn is_other(sender: Seq<char>) -> spec_fn(Seq<char>) -> bool {
    |address: Seq<char>| address != sender
}

/// The addresses other than `sender`, in the order given.
pub open spec fn others(addresses: Seq<Seq<char>>, sender: Seq<char>) -> Seq<Seq<char>> {
    addresses.filter(is_other(sender))
}

/// The characters of each string of a run, in order.
pub open spec fn texts(strings: Seq<String>) -> Seq<Seq<char>> {
    Seq::new(strings.len(), |i: int| strings[i]@)
}

impl Packet {
    /// The way this packet is fanned out.
    pub fn policy(&self) -> (policy: DeliveryPolicy)
        ensures
            policy == policy_of(self.send_back, self.owner_only),
    {
        if self.send_back {
            if self.owner_only {
                DeliveryPolicy::ReplyToOrigin
            } else {
                DeliveryPolicy::BroadcastToAll
            }
        } else {
            DeliveryPolicy::RelayToOthers
        }
    }
}

/// Decides whether the subscriber at address `subscriber` is handed
/// `packet`.
pub fn should_deliver(packet: &Packet, subscriber: &String) -> (deliver: bool)
    ensures
        deliver == delivers_to(packet@, subscriber@),
{
    match packet.policy() {
        DeliveryPolicy::ReplyToOrigin => *subscriber == packet.sender,
        DeliveryPolicy::BroadcastToAll => true,
        DeliveryPolicy::RelayToOthers => !(*subscriber == packet.sender),
    }
}

/// Picks, from a population of subscribers, those that are handed
/// `packet`. The order of the population is kept.
pub fn recipients(packet: &Packet, subscribers: &Vec<String>) -> (chosen: Vec<String>)
    ensures
        texts(chosen@) == delivered(packet@, texts(subscribers@)),
{
    let mut chosen: Vec<String> = Vec::new();
    let mut i: usize = 0;
    proof {
        lemma_delivered_none(packet@);
    }
    while i < subscribers.len()
        invariant
            i <= subscribers.len(),
            texts(chosen@) == delivered(packet@, texts(subscribers@).take(i as int)),
        decreases subscribers.len() - i,
    {
        proof {
            let seen = texts(subscribers@).take(i as int);
            assert(texts(subscribers@).take(i + 1) =~= seen.push(subscribers[i as int]@));
            seen.lemma_filter_push(subscribers[i as int]@, reaches(packet@));
        }
        if should_deliver(packet, &subscribers[i]) {
            chosen.push(subscribers[i].clone());
        }
        i += 1;
    }
    proof {
        assert(texts(subscribers@).take(i as int) =~= texts(subscribers@));
    }
    chosen
}

/// Nobody is handed a packet when nobody subscribes.
pub proof fn lemma_delivered_none(packet: PacketView)
    ensures
        delivered(packet, Seq::empty()) == Seq::<Seq<char>>::empty(),
{
    reveal(Seq::filter);
}

/// A subscriber is among those handed a packet exactly if it is in the
/// population and the delivery table lets the packet through to it. Who
/// is handed the packet comes in the population's order, so a population of
/// distinct addresses yields distinct recipients.
pub proof fn lemma_delivered_exact(packet: PacketView, subscribers: Seq<Seq<char>>)
    ensures
        forall|a: Seq<char>| #[trigger]
            delivered(packet, subscribers).contains(a) <==> subscribers.contains(a) && delivers_to(
                packet,
                a,
            ),
        subscribers.no_duplicates() ==> delivered(packet, subscribers).no_duplicates(),
        delivered(packet, subscribers).len() <= subscribers.len(),
    decreases subscribers.len(),
{
    if subscribers.len() == 0 {
        lemma_delivered_none(packet);
    } else {
        // What is kept of the whole population is what is kept of all but
        // its last subscriber, and then the last one if the packet is let
        // through to it.
        let rest = subscribers.drop_last();
        let last = subscribers.last();
        let kept = delivered(packet, rest);
        lemma_delivered_exact(packet, rest);
        assert(subscribers =~= rest.push(last));
        rest.lemma_filter_push(last, reaches(packet));
        assert forall|a: Seq<char>| #[trigger]
            delivered(packet, subscribers).contains(a) <==> subscribers.contains(a) && delivers_to(
                packet,
                a,
            ) by {
            assert(kept.contains(a) <==> rest.contains(a) && delivers_to(packet, a));
            vstd::seq_lib::lemma_seq_contains_after_push(rest, last, a);
            vstd::seq_lib::lemma_seq_contains_after_push(kept, last, a);
        }
        if subscribers.no_duplicates() {
            assert(rest.no_duplicates());
            assert(!rest.contains(last));
            assert(!kept.contains(last));
        }
    }
}

/// Reply-to-origin (`send_back` and `owner_only`): the packet goes to the
/// subscriber at the sender's address and to no other; where the sender
/// does not subscribe it goes to nobody.
pub proof fn lemma_reply_to_origin(packet: PacketView, subscribers: Seq<Seq<char>>)
    requires
        packet.send_back,
        packet.owner_only,
    ensures
        delivered(packet, subscribers).to_set() == (if subscribers.contains(packet.sender) {
            Set::<Seq<char>>::empty().insert(packet.sender)
        } else {
            Set::<Seq<char>>::empty()
        }),
        subscribers.no_duplicates() ==> delivered(packet, subscribers) == (if subscribers.contains(
            packet.sender,
        ) {
            Seq::<Seq<char>>::empty().push(packet.sender)
        } else {
            Seq::<Seq<char>>::empty()
        }),
{
    let out = delivered(packet, subscribers);
    lemma_delivered_exact(packet, subscribers);
    assert forall|a: Seq<char>| out.to_set().contains(a) <==> subscribers.contains(a) && a
        == packet.sender by {
        assert(out.to_set().contains(a) <==> out.contains(a));
    }
    if subscribers.no_duplicates() {
        // Every recipient is the sender, and no recipient comes twice.
        if out.len() > 0 {
            assert(out.contains(out[0]));
        }
        if out.len() > 1 {
            assert(out.contains(out[1]));
        }
        if subscribers.contains(packet.sender) {
            assert(out.contains(packet.sender));
        }
    }
}

/// Broadcast-to-all (`send_back` without `owner_only`): every subscriber
/// is handed the packet, the origin included.
pub proof fn lemma_broadcast_to_all(packet: PacketView, subscribers: Seq<Seq<char>>)
    requires
        packet.send_back,
        !packet.owner_only,
    ensures
        delivered(packet, subscribers) == subscribers,
    decreases subscribers.len(),
{
    if subscribers.len() == 0 {
        lemma_delivered_none(packet);
    } else {
        let rest = subscribers.drop_last();
        lemma_broadcast_to_all(packet, rest);
        assert(subscribers =~= rest.push(subscribers.last()));
        rest.lemma_filter_push(subscribers.last(), reaches(packet));
    }
}

/// Relay-to-others (no `send_back`, whatever `owner_only` says): every
/// subscriber but the one at the sender's address is handed the packet.
/// Where the sender is not among the subscribers, that is all of them.
pub proof fn lemma_relay_to_others(packet: PacketView, subscribers: Seq<Seq<char>>)
    requires
        !packet.send_back,
    ensures
        delivered(packet, subscribers).to_set() == subscribers.to_set().remove(packet.sender),
        !subscribers.contains(packet.sender) ==> delivered(packet, subscribers) == subscribers,
    decreases subscribers.len(),
{
    let out = delivered(packet, subscribers);
    lemma_delivered_exact(packet, subscribers);
    assert forall|a: Seq<char>| out.to_set().contains(a) <==> subscribers.contains(a) && a
        != packet.sender by {
        assert(out.to_set().contains(a) <==> out.contains(a));
    }
    if !subscribers.contains(packet.sender) {
        if subscribers.len() == 0 {
            lemma_delivered_none(packet);
        } else {
            let rest = subscribers.drop_last();
            let last = subscribers.last();
            assert(subscribers =~= rest.push(last));
            assert(!rest.contains(packet.sender)) by {
                vstd::seq_lib::lemma_seq_contains_after_push(rest, last, packet.sender);
            }
            assert(last != packet.sender) by {
                vstd::seq_lib::lemma_seq_contains_after_push(rest, last, packet.sender);
            }
            lemma_relay_to_others(packet, rest);
            rest.lemma_filter_push(last, reaches(packet));
        }
    }
}

/// What is relayed to the others goes to the addresses other than the
/// sender's.
pub proof fn lemma_relay_reaches_others(packet: PacketView, subscribers: Seq<Seq<char>>)
    requires
        !packet.send_back,
    ensures
        delivered(packet, subscribers) == others(subscribers, packet.sender),
    decreases subscribers.len(),
{
    reveal(Seq::filter);
    if subscribers.len() > 0 {
        lemma_relay_reaches_others(packet, subscribers.drop_last());
    }
}

/// `tokio::sync::broadcast::Sender`, the publish end of a broadcast
/// channel. Nothing is claimed of what is inside it.
#[verifier::external_type_specification]
#[verifier::external_body]
#[verifier::reject_recursive_types(T)]
pub struct ExSender<T>(Sender<T>);

/// How a publication ended.
#[derive(Debug, PartialEq, Eq)]
pub enum Publication {
    /// The packet was queued for this many subscriptions.
    Heard { subscribers: usize },
    /// Nobody was subscribed; the packet comes back.
    Unheard(Packet),
}

impl Publication {
    /// Reads what the endpoint answered to a send: the number of
    /// subscriptions the packet was queued for, or the packet itself where
    /// there were none.
    pub fn from_send(sent: Result<usize, Packet>) -> (outcome: Publication)
        ensures
            outcome == (match sent {
                Ok(subscribers) => Publication::Heard { subscribers },
                Err(returned) => Publication::Unheard(returned),
            }),
    {
        match sent {
            Ok(subscribers) => Publication::Heard { subscribers },
            Err(returned) => Publication::Unheard(returned),
        }
    }
}

/// `tokio::sync::broadcast::Sender::send`: queues `packet` for every
/// subscription that is open at the moment of the call and returns how
/// many there are, at least one; with none open it queues nothing and
/// hands the packet back. The call does not wait for any subscriber.
#[verifier::external_body]
fn send_to_subscribers(endpoint: &Sender<Packet>, packet: Packet) -> (sent: Result<usize, Packet>)
    ensures
        sent matches Ok(subscribers) ==> subscribers >= 1,
        sent matches Err(returned) ==> returned == packet,
{
    match endpoint.send(packet) {
        Ok(subscribers) => Ok(subscribers),
        Err(SendError(returned)) => Err(returned),
    }
}

/// Publishes `packet` to every session's subscription. Whether anyone is
/// subscribed is decided at the moment of the call; either way the call
/// returns at once. A packet that nobody heard comes back unchanged.
pub fn publish(endpoint: &Sender<Packet>, packet: Packet) -> (outcome: Publication)
    ensures
        outcome matches Publication::Heard { subscribers } ==> subscribers >= 1,
        outcome matches Publication::Unheard(returned) ==> returned == packet,
{
    Publication::from_send(send_to_subscribers(endpoint, packet))
}

} // verus!
