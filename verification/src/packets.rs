//! Framing of unreliable packets: a one-byte type prefix in front of a
//! payload, and the per-frame split of the incoming queue into "the latest
//! packet of one type" and "everything else, re-queued in order".

use vstd::prelude::*;

verus! {

/// Type prefix of a host game-state snapshot packet.
pub const UNRELIABLE_GAME_SNAPSHOT: u8 = 0u8;

/// A packet is of kind `prefix` when it is non-empty and starts with it.
pub open spec fn is_packet_of(p: Seq<u8>, prefix: u8) -> bool {
    p.len() > 0 && p[0] == prefix
}

/// Packets that stay queued for other systems: non-empty ones of another kind.
pub open spec fn keeps_packet(prefix: u8) -> spec_fn(Seq<u8>) -> bool {
    |p: Seq<u8>| p.len() > 0 && p[0] != prefix
}

/// The incoming queue after the split: every non-empty packet not of kind
/// `prefix`, in arrival order. Empty packets are dropped.
pub open spec fn requeued(s: Seq<Seq<u8>>, prefix: u8) -> Seq<Seq<u8>> {
    s.filter(keeps_packet(prefix))
}

/// The payload (prefix byte removed) of the last packet of kind `prefix`.
pub open spec fn latest_payload(s: Seq<Seq<u8>>, prefix: u8) -> Option<Seq<u8>>
    decreases s.len(),
{
    if s.len() == 0 {
        None
    } else if is_packet_of(s.last(), prefix) {
        Some(s.last().drop_first())
    } else {
        latest_payload(s.drop_last(), prefix)
    }
}

/// A packet on the wire: the prefix byte followed by the payload.
pub open spec fn framed(prefix: u8, payload: Seq<u8>) -> Seq<u8> {
    seq![prefix] + payload
}

/// Puts the type byte `prefix` in front of a serialized payload.
pub fn frame_packet(prefix: u8, payload: &Vec<u8>) -> (packet: Vec<u8>)
    requires
        payload@.len() < usize::MAX,
    ensures
        packet@ == framed(prefix, payload@),
{
    let mut packet: Vec<u8> = Vec::new();
    packet.push(prefix);
    let n = payload.len();
    let mut i: usize = 0;
    while i < n
        invariant
            n == payload@.len(),
            i <= n,
            packet@ == seq![prefix] + payload@.subrange(0, i as int),
        decreases n - i,
    {
        packet.push(payload[i]);
        proof {
            assert(payload@.subrange(0, i + 1) == payload@.subrange(0, i as int).push(payload@[i as int]));
        }
        i = i + 1;
    }
    proof {
        assert(payload@.subrange(0, n as int) == payload@);
    }
    packet
}

/// Drains `incoming`, keeps the payload of the last packet whose first byte
/// is `prefix`, and puts every other non-empty packet back in arrival order.
/// Empty packets are discarded.
pub fn filter_latest_packet(incoming: &mut Vec<Vec<u8>>, prefix: u8) -> (latest: Option<Vec<u8>>)
    ensures
        final(incoming).deep_view() == requeued(old(incoming).deep_view(), prefix),
        latest_payload(old(incoming).deep_view(), prefix) == match latest {
            Some(p) => Some(p@),
            None => None::<Seq<u8>>,
        },
{
    let ghost orig = incoming.deep_view();
    let mut raw: Vec<Vec<u8>> = Vec::new();
    std::mem::swap(&mut raw, incoming);
    let mut other: Vec<Vec<u8>> = Vec::new();
    let mut latest: Option<Vec<u8>> = None;
    let n = raw.len();
    let mut i: usize = 0;
    assert(orig.take(0) =~= Seq::<Seq<u8>>::empty());
    while i < n
        invariant
            n == raw.len(),
            orig == raw.deep_view(),
            i <= n,
            other.deep_view() == requeued(orig.take(i as int), prefix),
            latest_payload(orig.take(i as int), prefix) == match latest {
                Some(p) => Some(p@),
                None => None::<Seq<u8>>,
            },
        decreases n - i,
    {
        let data = raw[i].clone();
        proof {
            assert(data@ =~= raw@[i as int]@);
            assert(orig[i as int] == data@);
            assert(orig.take(i + 1).drop_last() =~= orig.take(i as int));
            assert(orig.take(i + 1) =~= orig.take(i as int).push(data@));
            orig.take(i as int).lemma_filter_push(data@, keeps_packet(prefix));
        }
        if data.len() == 0 {
        } else if data[0] == prefix {
            let mut data = data;
            let payload = data.split_off(1);
            proof {
                assert(payload@ =~= orig[i as int].drop_first());
            }
            latest = Some(payload);
        } else {
            let ghost before = other.deep_view();
            other.push(data);
            proof {
                assert(other.deep_view() =~= before.push(orig[i as int]));
            }
        }
        i = i + 1;
    }
    proof {
        assert(orig.take(n as int) =~= orig);
    }
    *incoming = other;
    latest
}

/// Separates the host's game-state snapshots from the rest of the incoming
/// unreliable queue: returns the payload of the latest game snapshot (prefix
/// byte removed), or `None` when none arrived this frame, and re-queues every
/// other non-empty packet in order for the systems that own them.
pub fn filter_latest_game_snapshot(incoming: &mut Vec<Vec<u8>>) -> (latest: Option<Vec<u8>>)
    ensures
        final(incoming).deep_view() == requeued(old(incoming).deep_view(), UNRELIABLE_GAME_SNAPSHOT),
        latest_payload(old(incoming).deep_view(), UNRELIABLE_GAME_SNAPSHOT) == match latest {
            Some(p) => Some(p@),
            None => None::<Seq<u8>>,
        },
{
    filter_latest_packet(incoming, UNRELIABLE_GAME_SNAPSHOT)
}

/// What is framed is what the receiver gets back: a packet framed with
/// `prefix` and queued last is the latest of its kind, its payload comes
/// back unchanged, and the packets re-queued for other systems are those
/// there were before it.
pub proof fn lemma_frame_then_filter(queue: Seq<Seq<u8>>, prefix: u8, payload: Seq<u8>)
    ensures
        latest_payload(queue.push(framed(prefix, payload)), prefix) == Some(payload),
        requeued(queue.push(framed(prefix, payload)), prefix) == requeued(queue, prefix),
{
    let q = queue.push(framed(prefix, payload));
    assert(q.last() == framed(prefix, payload));
    assert(framed(prefix, payload).drop_first() =~= payload);
    queue.lemma_filter_push(framed(prefix, payload), keeps_packet(prefix));
}

} // verus!
