//! World changes the other peer asks for: walls it placed, turned into local
//! pathfinding obstacle changes, and the guest's teleports, which the host
//! performs because unit positions are host-authoritative.

use vstd::prelude::*;
use crate::protocol::{PeerMessage, RectBits};

verus! {

/// A change to the pathfinding grid over a rectangle.
#[derive(PartialEq, Eq, Structural, Clone, Copy, Debug)]
pub struct ObstacleChanged {
    pub bounds: RectBits,
    /// Blocked when a wall went up, removed when it came down.
    pub blocked: bool,
}

pub open spec fn not_wall<M>() -> spec_fn(PeerMessage<M>) -> bool {
    |m: PeerMessage<M>| !(m is WallPlaced)
}

/// The obstacle changes `msgs` announce, in order.
pub open spec fn wall_changes<M>(msgs: Seq<PeerMessage<M>>) -> Seq<ObstacleChanged>
    decreases msgs.len(),
{
    if msgs.len() == 0 {
        Seq::empty()
    } else {
        let earlier = wall_changes(msgs.drop_last());
        match msgs.last() {
            PeerMessage::WallPlaced { bounds, placed } => earlier.push(
                ObstacleChanged { bounds, blocked: placed },
            ),
            _ => earlier,
        }
    }
}

/// Takes every `WallPlaced` off the queue and returns one obstacle change per
/// message, in order: a placed wall blocks its rectangle, a removed one clears
/// it. Other messages stay queued in order.
pub fn receive_wall_placement<M>(incoming: &mut Vec<PeerMessage<M>>) -> (r: Vec<ObstacleChanged>)
    ensures
        final(incoming)@ == old(incoming)@.filter(not_wall()),
        r@ == wall_changes(old(incoming)@),
{
    let mut changes: Vec<ObstacleChanged> = Vec::new();
    let ghost orig = incoming@;
    let mut raw: Vec<PeerMessage<M>> = Vec::new();
    std::mem::swap(&mut raw, incoming);
    let mut kept: Vec<PeerMessage<M>> = Vec::new();
    let ghost mut k: int = 0;
    assert(orig.skip(0) =~= orig);
    assert(orig.take(0) =~= Seq::<PeerMessage<M>>::empty());
    while raw.len() > 0
        invariant
            0 <= k <= orig.len(),
            raw@ == orig.skip(k),
            kept@ == orig.take(k).filter(not_wall()),
            changes@ == wall_changes(orig.take(k)),
        decreases raw.len(),
    {
        let msg = raw.remove(0);
        proof {
            assert(orig.skip(k)[0] == orig[k]);
            assert(orig.skip(k).remove(0) =~= orig.skip(k + 1));
            assert(orig.take(k + 1).drop_last() =~= orig.take(k));
            assert(orig.take(k + 1) =~= orig.take(k).push(orig[k]));
            orig.take(k).lemma_filter_push(orig[k], not_wall());
        }
        match msg {
            PeerMessage::WallPlaced { bounds, placed } => {
                changes.push(ObstacleChanged { bounds, blocked: placed });
            },
            other => {
                kept.push(other);
            },
        }
        proof {
            k = k + 1;
        }
    }
    proof {
        assert(orig.take(k) =~= orig);
    }
    *incoming = kept;
    changes
}

/// A teleport the host performs: every teleportable unit within `radius` of
/// the source moves to the destination (bit patterns, as sent).
#[derive(PartialEq, Eq, Structural, Clone, Copy, Debug)]
pub struct TeleportOrder {
    pub source_x: u32,
    pub source_z: u32,
    pub dest_x: u32,
    pub dest_z: u32,
    pub radius: u32,
}

pub open spec fn not_teleport<M>() -> spec_fn(PeerMessage<M>) -> bool {
    |m: PeerMessage<M>| !(m is TeleportUnits)
}

/// The teleports `msgs` ask for, in order.
pub open spec fn teleport_orders<M>(msgs: Seq<PeerMessage<M>>) -> Seq<TeleportOrder>
    decreases msgs.len(),
{
    if msgs.len() == 0 {
        Seq::empty()
    } else {
        let earlier = teleport_orders(msgs.drop_last());
        match msgs.last() {
            PeerMessage::TeleportUnits { source_x, source_z, dest_x, dest_z, radius } => earlier.push(
                TeleportOrder { source_x, source_z, dest_x, dest_z, radius },
            ),
            _ => earlier,
        }
    }
}

/// Host: takes every `TeleportUnits` off the queue and returns the teleports
/// to perform, in order. Other messages stay queued in order.
pub fn receive_teleport_message<M>(incoming: &mut Vec<PeerMessage<M>>) -> (r: Vec<TeleportOrder>)
    ensures
        final(incoming)@ == old(incoming)@.filter(not_teleport()),
        r@ == teleport_orders(old(incoming)@),
{
    let mut orders: Vec<TeleportOrder> = Vec::new();
    let ghost orig = incoming@;
    let mut raw: Vec<PeerMessage<M>> = Vec::new();
    std::mem::swap(&mut raw, incoming);
    let mut kept: Vec<PeerMessage<M>> = Vec::new();
    let ghost mut k: int = 0;
    assert(orig.skip(0) =~= orig);
    assert(orig.take(0) =~= Seq::<PeerMessage<M>>::empty());
    while raw.len() > 0
        invariant
            0 <= k <= orig.len(),
            raw@ == orig.skip(k),
            kept@ == orig.take(k).filter(not_teleport()),
            orders@ == teleport_orders(orig.take(k)),
        decreases raw.len(),
    {
        let msg = raw.remove(0);
        proof {
            assert(orig.skip(k)[0] == orig[k]);
            assert(orig.skip(k).remove(0) =~= orig.skip(k + 1));
            assert(orig.take(k + 1).drop_last() =~= orig.take(k));
            assert(orig.take(k + 1) =~= orig.take(k).push(orig[k]));
            orig.take(k).lemma_filter_push(orig[k], not_teleport());
        }
        match msg {
            PeerMessage::TeleportUnits { source_x, source_z, dest_x, dest_z, radius } => {
                orders.push(TeleportOrder { source_x, source_z, dest_x, dest_z, radius });
            },
            other => {
                kept.push(other);
            },
        }
        proof {
            k = k + 1;
        }
    }
    proof {
        assert(orig.take(k) =~= orig);
    }
    *incoming = kept;
    orders
}

} // verus!
