//! Guest-side status forwarding: a status applied locally to a ghost is
//! shipped to the host once, and shipped again only after it was removed
//! and re-applied. One marker set per status kind records which ghosts
//! (by network id) have had their current status forwarded.

use vstd::prelude::*;
use crate::protocol::PeerMessage;
use crate::status::{StatusEffectKind, spec_ordinal};

verus! {

/// The ids in a list, as a set.
pub open spec fn id_set(s: Seq<u32>) -> Set<u32> {
    Set::new(|id: u32| s.contains(id))
}

/// The ghosts whose current status of one kind has already been forwarded.
pub struct StatusEffectForwarded {
    ids: Vec<u32>,
}

impl View for StatusEffectForwarded {
    type V = Set<u32>;

    closed spec fn view(&self) -> Set<u32> {
        id_set(self.ids@)
    }
}

/// A ghost carrying a status, with what the forwarded message reports of it:
/// the bit patterns of the status's duration and magnitude, and its flags.
#[derive(PartialEq, Eq, Structural, Clone, Copy, Debug)]
pub struct StatusCarrier {
    pub network_id: u32,
    pub duration: u32,
    pub magnitude: u32,
    pub flags: u32,
}

/// The network ids of the carriers, in order.
pub open spec fn carrier_ids(c: Seq<StatusCarrier>) -> Seq<u32> {
    c.map_values(|x: StatusCarrier| x.network_id)
}

/// The `ApplyStatusEffect` that forwards `c`'s status of kind `kind`.
pub open spec fn status_message<M>(kind: StatusEffectKind, c: StatusCarrier) -> PeerMessage<M> {
    PeerMessage::ApplyStatusEffect {
        target_network_id: c.network_id,
        kind: spec_ordinal(kind),
        duration: c.duration,
        magnitude: c.magnitude,
        flags: c.flags,
    }
}

/// The messages a pass sends: one per carrier whose ghost was not yet marked,
/// in order.
pub open spec fn forwarded_messages<M>(
    marked: Set<u32>,
    kind: StatusEffectKind,
    c: Seq<StatusCarrier>,
) -> Seq<PeerMessage<M>>
    decreases c.len(),
{
    if c.len() == 0 {
        Seq::empty()
    } else {
        let earlier = forwarded_messages(marked, kind, c.drop_last());
        if marked.contains(c.last().network_id) {
            earlier
        } else {
            earlier.push(status_message(kind, c.last()))
        }
    }
}

/// The markers after a forwarding pass: every ghost carrying the status.
pub open spec fn marked_after_forward(marked: Set<u32>, with_status: Seq<u32>) -> Set<u32> {
    marked.union(id_set(with_status))
}

/// The markers after a cleanup pass: only ghosts that still carry the status.
pub open spec fn marked_after_cleanup(marked: Set<u32>, with_status: Seq<u32>) -> Set<u32> {
    marked.intersect(id_set(with_status))
}

impl StatusEffectForwarded {
    /// How many markers are stored: one per marked ghost.
    pub closed spec fn marker_count(&self) -> nat {
        self.ids@.len()
    }

    pub fn new() -> (m: Self)
        ensures
            m@ == Set::<u32>::empty(),
    {
        let m = StatusEffectForwarded { ids: Vec::new() };
        assert(m@ =~= Set::<u32>::empty());
        m
    }

    /// Whether the ghost's current status has been forwarded.
    pub fn is_marked(&self, id: u32) -> (r: bool)
        ensures
            r == self@.contains(id),
    {
        holds_id(&self.ids, id)
    }
}

proof fn lemma_id_set_push(v: Seq<u32>, x: u32)
    ensures
        id_set(v.push(x)) == id_set(v).insert(x),
{
    assert forall|y: u32| #[trigger] id_set(v.push(x)).contains(y) == id_set(v).insert(x).contains(y) by {
        if v.contains(y) {
            let k = choose|k: int| 0 <= k < v.len() && v[k] == y;
            assert(v.push(x)[k] == y);
        }
        if y == x {
            assert(v.push(x)[v.len() as int] == y);
        }
        if v.push(x).contains(y) && y != x {
            let k = choose|k: int| 0 <= k < v.push(x).len() && v.push(x)[k] == y;
            assert(v[k] == y);
        }
    }
    assert(id_set(v.push(x)) =~= id_set(v).insert(x));
}

/// One forwarding pass for one status kind: sends one `ApplyStatusEffect` for
/// each ghost carrying the status whose status was not yet forwarded (in the
/// order given), and marks every ghost carrying it. A ghost already marked is
/// not marked twice.
pub fn forward_status_effects_to_host<M>(
    markers: &mut StatusEffectForwarded,
    kind: StatusEffectKind,
    carriers: &Vec<StatusCarrier>,
    outgoing: &mut Vec<PeerMessage<M>>,
)
    ensures
        final(outgoing)@ == old(outgoing)@ + forwarded_messages::<M>(old(markers)@, kind, carriers@),
        final(markers)@ == marked_after_forward(old(markers)@, carrier_ids(carriers@)),
        final(markers).marker_count() <= old(markers).marker_count() + carriers@.len(),
        (forall|k: int| 0 <= k < carriers@.len() ==> old(markers)@.contains(#[trigger] carriers@[k].network_id))
            ==> final(markers).marker_count() == old(markers).marker_count(),
{
    let ghost marked = markers@;
    let ghost out0 = outgoing@;
    let code = kind.to_u8();
    let mut i: usize = 0;
    while i < carriers.len()
        invariant
            i <= carriers.len(),
            markers@ == marked,
            code == spec_ordinal(kind),
            outgoing@ == out0 + forwarded_messages::<M>(marked, kind, carriers@.subrange(0, i as int)),
        decreases carriers.len() - i,
    {
        let c = carriers[i];
        proof {
            assert(carriers@.subrange(0, i + 1).drop_last() =~= carriers@.subrange(0, i as int));
            assert(carriers@.subrange(0, i + 1).last() == c);
        }
        if !markers.is_marked(c.network_id) {
            let m = PeerMessage::ApplyStatusEffect {
                target_network_id: c.network_id,
                kind: code,
                duration: c.duration,
                magnitude: c.magnitude,
                flags: c.flags,
            };
            outgoing.push(m);
            proof {
                assert(out0 + forwarded_messages::<M>(marked, kind, carriers@.subrange(0, i + 1)) =~= (out0
                    + forwarded_messages::<M>(marked, kind, carriers@.subrange(0, i as int))).push(m));
            }
        }
        i = i + 1;
    }
    assert(carriers@.subrange(0, carriers.len() as int) =~= carriers@);
    let ghost old_len = markers.ids@.len();
    let mut j: usize = 0;
    while j < carriers.len()
        invariant
            j <= carriers.len(),
            markers@ == marked_after_forward(marked, carrier_ids(carriers@.subrange(0, j as int))),
            markers.ids@.len() <= old_len + j,
            (forall|k: int| 0 <= k < carriers@.len() ==> marked.contains(#[trigger] carriers@[k].network_id))
                ==> markers.ids@.len() == old_len,
        decreases carriers.len() - j,
    {
        let id = carriers[j].network_id;
        proof {
            assert(carriers@[j as int].network_id == id);
            if forall|k: int| 0 <= k < carriers@.len() ==> marked.contains(#[trigger] carriers@[k].network_id) {
                assert(marked.contains(carriers@[j as int].network_id));
                assert(id_set(markers.ids@).contains(id));
            }
            assert(carrier_ids(carriers@.subrange(0, j + 1)) =~= carrier_ids(carriers@.subrange(0, j as int)).push(id));
            lemma_id_set_push(carrier_ids(carriers@.subrange(0, j as int)), id);
        }
        if !holds_id(&markers.ids, id) {
            proof {
                lemma_id_set_push(markers.ids@, id);
            }
            markers.ids.push(id);
        }
        proof {
            assert(markers@ =~= marked_after_forward(marked, carrier_ids(carriers@.subrange(0, j + 1))));
        }
        j = j + 1;
    }
    assert(carriers@.subrange(0, carriers.len() as int) =~= carriers@);
}

/// The messages for knockbacks: every knockback is forwarded, every frame it
/// is present.
pub open spec fn knockback_messages<M>(c: Seq<StatusCarrier>) -> Seq<PeerMessage<M>> {
    c.map_values(|x: StatusCarrier| status_message::<M>(StatusEffectKind::Knockback, x))
}

/// Forwards every knockback on a ghost and returns the ghosts to drop their
/// local knockback from (all of them, in order): the knockback has no role on
/// the guest, and dropping it lets a later pull be forwarded afresh.
pub fn forward_knockbacks<M>(carriers: &Vec<StatusCarrier>, outgoing: &mut Vec<PeerMessage<M>>) -> (drop: Vec<
    u32,
>)
    ensures
        final(outgoing)@ == old(outgoing)@ + knockback_messages::<M>(carriers@),
        drop@ == carrier_ids(carriers@),
{
    let ghost out0 = outgoing@;
    let code = StatusEffectKind::Knockback.to_u8();
    let mut drop: Vec<u32> = Vec::new();
    let mut i: usize = 0;
    while i < carriers.len()
        invariant
            i <= carriers.len(),
            code == spec_ordinal(StatusEffectKind::Knockback),
            outgoing@ == out0 + knockback_messages::<M>(carriers@.subrange(0, i as int)),
            drop@ == carrier_ids(carriers@.subrange(0, i as int)),
        decreases carriers.len() - i,
    {
        let c = carriers[i];
        let m = PeerMessage::ApplyStatusEffect {
            target_network_id: c.network_id,
            kind: code,
            duration: c.duration,
            magnitude: c.magnitude,
            flags: c.flags,
        };
        outgoing.push(m);
        drop.push(c.network_id);
        proof {
            assert(knockback_messages::<M>(carriers@.subrange(0, i + 1)) =~= knockback_messages::<M>(
                carriers@.subrange(0, i as int),
            ).push(m));
            assert(out0 + knockback_messages::<M>(carriers@.subrange(0, i + 1)) =~= (out0
                + knockback_messages::<M>(carriers@.subrange(0, i as int))).push(m));
            assert(carrier_ids(carriers@.subrange(0, i + 1)) =~= carrier_ids(carriers@.subrange(0, i as int)).push(
                c.network_id,
            ));
        }
        i = i + 1;
    }
    assert(carriers@.subrange(0, carriers.len() as int) =~= carriers@);
    drop
}

/// Whether `id` occurs in `ids`.
fn holds_id(ids: &Vec<u32>, id: u32) -> (r: bool)
    ensures
        r == ids@.contains(id),
{
    let mut i: usize = 0;
    while i < ids.len()
        invariant
            i <= ids.len(),
            forall|k: int| 0 <= k < i ==> ids@[k] != id,
        decreases ids.len() - i,
    {
        if ids[i] == id {
            assert(ids@[i as int] == id);
            return true;
        }
        i = i + 1;
    }
    false
}

/// The members of `s` that `p` keeps, as a set: the set of `s` cut down to `p`.
proof fn lemma_filter_set(s: Seq<u32>, p: spec_fn(u32) -> bool)
    ensures
        id_set(s.filter(p)) == id_set(s).intersect(Set::new(|x: u32| p(x))),
{
    assert forall|x: u32| id_set(s.filter(p)).contains(x) <==> (s.contains(x) && p(x)) by {
        if s.filter(p).contains(x) {
            s.lemma_filter_contains_rev(p, x);
            let k = choose|k: int| 0 <= k < s.filter(p).len() && s.filter(p)[k] == x;
            s.lemma_filter_pred(p, k);
        }
        if s.contains(x) && p(x) {
            let k = choose|k: int| 0 <= k < s.len() && s[k] == x;
            s.lemma_filter_contains(p, k);
        }
    }
    assert(id_set(s.filter(p)) =~= id_set(s).intersect(Set::new(|x: u32| p(x))));
}

/// Drops the markers of ghosts that no longer carry the status, so a later
/// re-application is forwarded afresh.
pub fn cleanup_forwarded_marker(markers: &mut StatusEffectForwarded, with_status: &Vec<u32>)
    ensures
        final(markers)@ == marked_after_cleanup(old(markers)@, with_status@),
{
    let ghost old_ids = markers.ids@;
    let ghost keep = |x: u32| with_status@.contains(x);
    let mut kept: Vec<u32> = Vec::new();
    let mut i: usize = 0;
    while i < markers.ids.len()
        invariant
            i <= markers.ids.len(),
            markers.ids@ == old_ids,
            keep == (|x: u32| with_status@.contains(x)),
            kept@ == old_ids.subrange(0, i as int).filter(keep),
        decreases markers.ids.len() - i,
    {
        let id = markers.ids[i];
        proof {
            assert(old_ids.subrange(0, i + 1) =~= old_ids.subrange(0, i as int).push(id));
            old_ids.subrange(0, i as int).lemma_filter_push(id, keep);
        }
        if holds_id(with_status, id) {
            kept.push(id);
        }
        i = i + 1;
    }
    proof {
        assert(old_ids.subrange(0, old_ids.len() as int) =~= old_ids);
        lemma_filter_set(old_ids, keep);
    }
    markers.ids = kept;
    proof {
        assert(markers@ =~= marked_after_cleanup(old(markers)@, with_status@));
    }
}

proof fn lemma_forwarded_none<M>(marked: Set<u32>, kind: StatusEffectKind, c: Seq<StatusCarrier>)
    requires
        forall|i: int| 0 <= i < c.len() ==> marked.contains(#[trigger] c[i].network_id),
    ensures
        forwarded_messages::<M>(marked, kind, c) == Seq::<PeerMessage<M>>::empty(),
    decreases c.len(),
{
    if c.len() > 0 {
        assert forall|i: int| 0 <= i < c.drop_last().len() implies marked.contains(
            #[trigger] c.drop_last()[i].network_id,
        ) by {
            assert(c.drop_last()[i] == c[i]);
        }
        lemma_forwarded_none::<M>(marked, kind, c.drop_last());
        assert(marked.contains(c[c.len() - 1].network_id));
    }
}

/// While its ghosts keep the status, a second pass forwards nothing: each
/// application is shipped once.
pub proof fn lemma_forwarded_once<M>(marked: Set<u32>, kind: StatusEffectKind, c: Seq<StatusCarrier>)
    ensures
        forwarded_messages::<M>(marked_after_forward(marked, carrier_ids(c)), kind, c) == Seq::<
            PeerMessage<M>,
        >::empty(),
{
    let after = marked_after_forward(marked, carrier_ids(c));
    assert forall|i: int| 0 <= i < c.len() implies after.contains(#[trigger] c[i].network_id) by {
        assert(carrier_ids(c)[i] == c[i].network_id);
        assert(carrier_ids(c).contains(c[i].network_id));
    }
    lemma_forwarded_none::<M>(after, kind, c);
}

/// Whether `m` is an `ApplyStatusEffect` aimed at the ghost `id`.
pub open spec fn aimed_at<M>(m: PeerMessage<M>, id: u32) -> bool {
    m matches PeerMessage::ApplyStatusEffect { target_network_id, .. } && target_network_id == id
}

/// Every message a pass sends forwards one of the pass's carriers.
proof fn lemma_forwarded_from_carrier<M>(marked: Set<u32>, kind: StatusEffectKind, c: Seq<StatusCarrier>, w: int)
    requires
        0 <= w < forwarded_messages::<M>(marked, kind, c).len(),
    ensures
        exists|i: int|
            0 <= i < c.len() && !marked.contains(c[i].network_id)
                && forwarded_messages::<M>(marked, kind, c)[w] == #[trigger] status_message::<M>(kind, c[i]),
    decreases c.len(),
{
    let e = forwarded_messages::<M>(marked, kind, c.drop_last());
    if w < e.len() {
        lemma_forwarded_from_carrier::<M>(marked, kind, c.drop_last(), w);
        let i = choose|i: int|
            0 <= i < c.drop_last().len() && !marked.contains(c.drop_last()[i].network_id)
                && e[w] == #[trigger] status_message::<M>(kind, c.drop_last()[i]);
        assert(c.drop_last()[i] == c[i]);
        assert(forwarded_messages::<M>(marked, kind, c)[w] == e[w]);
    } else {
        assert(forwarded_messages::<M>(marked, kind, c)[w] == status_message::<M>(kind, c[c.len() - 1]));
    }
}

/// One ghost's status is forwarded once: the first pass that finds it unmarked
/// sends exactly one message aimed at it, the one that reports its status, and
/// a later pass sends nothing aimed at it, whichever other ghosts either pass
/// finds carrying the status.
pub proof fn lemma_ghost_forwarded_once<M>(
    marked: Set<u32>,
    kind: StatusEffectKind,
    first: Seq<StatusCarrier>,
    second: Seq<StatusCarrier>,
    k: int,
)
    requires
        0 <= k < first.len(),
        !marked.contains(first[k].network_id),
        forall|i: int| 0 <= i < first.len() && #[trigger] first[i].network_id == first[k].network_id ==> i == k,
    ensures
        forwarded_messages::<M>(marked, kind, first).contains(status_message::<M>(kind, first[k])),
        forall|w1: int, w2: int|
            0 <= w1 < forwarded_messages::<M>(marked, kind, first).len()
                && 0 <= w2 < forwarded_messages::<M>(marked, kind, first).len()
                && aimed_at(#[trigger] forwarded_messages::<M>(marked, kind, first)[w1], first[k].network_id)
                && aimed_at(#[trigger] forwarded_messages::<M>(marked, kind, first)[w2], first[k].network_id)
                ==> w1 == w2,
        forall|w: int|
            0 <= w < forwarded_messages::<M>(marked_after_forward(marked, carrier_ids(first)), kind, second).len()
                ==> !aimed_at(
                #[trigger] forwarded_messages::<M>(marked_after_forward(marked, carrier_ids(first)), kind, second)[w],
                first[k].network_id,
            ),
{
    let id = first[k].network_id;
    let f1 = forwarded_messages::<M>(marked, kind, first);
    lemma_forwarded_contains::<M>(marked, kind, first, k);
    assert forall|w1: int, w2: int|
        0 <= w1 < f1.len() && 0 <= w2 < f1.len() && aimed_at(#[trigger] f1[w1], id) && aimed_at(#[trigger] f1[w2], id)
        implies w1 == w2 by {
        lemma_forwarded_distinct::<M>(marked, kind, first, k, w1, w2);
    }
    let after = marked_after_forward(marked, carrier_ids(first));
    assert(carrier_ids(first)[k] == id);
    assert(after.contains(id));
    let f2 = forwarded_messages::<M>(after, kind, second);
    assert forall|w: int| 0 <= w < f2.len() implies !aimed_at(#[trigger] f2[w], id) by {
        lemma_forwarded_from_carrier::<M>(after, kind, second, w);
    }
}

/// In one pass, the message forwarding a ghost that occurs once among the
/// carriers is sent once.
proof fn lemma_forwarded_distinct<M>(
    marked: Set<u32>,
    kind: StatusEffectKind,
    c: Seq<StatusCarrier>,
    k: int,
    w1: int,
    w2: int,
)
    requires
        0 <= k < c.len(),
        forall|i: int| 0 <= i < c.len() && #[trigger] c[i].network_id == c[k].network_id ==> i == k,
        0 <= w1 < forwarded_messages::<M>(marked, kind, c).len(),
        0 <= w2 < forwarded_messages::<M>(marked, kind, c).len(),
        aimed_at(forwarded_messages::<M>(marked, kind, c)[w1], c[k].network_id),
        aimed_at(forwarded_messages::<M>(marked, kind, c)[w2], c[k].network_id),
    ensures
        w1 == w2,
    decreases c.len(),
{
    let id = c[k].network_id;
    let f = forwarded_messages::<M>(marked, kind, c);
    let e = forwarded_messages::<M>(marked, kind, c.drop_last());
    if k == c.len() - 1 {
        // no earlier carrier is this ghost, so no earlier message is aimed at it
        assert forall|w: int| 0 <= w < e.len() implies !aimed_at(#[trigger] e[w], id) by {
            lemma_forwarded_from_carrier::<M>(marked, kind, c.drop_last(), w);
            let i = choose|i: int|
                0 <= i < c.drop_last().len() && !marked.contains(c.drop_last()[i].network_id) && e[w]
                    == #[trigger] status_message::<M>(kind, c.drop_last()[i]);
            assert(c.drop_last()[i] == c[i]);
        }
        if w1 < e.len() {
            assert(f[w1] == e[w1]);
        }
        if w2 < e.len() {
            assert(f[w2] == e[w2]);
        }
    } else {
        assert(c.drop_last()[k] == c[k]);
        assert forall|i: int|
            0 <= i < c.drop_last().len() && #[trigger] c.drop_last()[i].network_id == c.drop_last()[k].network_id
            implies i == k by {
            assert(c.drop_last()[i] == c[i]);
        }
        if !marked.contains(c.last().network_id) {
            let last = f.len() - 1;
            assert(f[last] == status_message::<M>(kind, c.last()));
            assert(c[c.len() - 1].network_id != id);
            if w1 < e.len() && w2 < e.len() {
                assert(f[w1] == e[w1]);
                assert(f[w2] == e[w2]);
                lemma_forwarded_distinct::<M>(marked, kind, c.drop_last(), k, w1, w2);
            }
        } else {
            assert(f[w1] == e[w1]);
            assert(f[w2] == e[w2]);
            lemma_forwarded_distinct::<M>(marked, kind, c.drop_last(), k, w1, w2);
        }
    }
}

proof fn lemma_forwarded_contains<M>(marked: Set<u32>, kind: StatusEffectKind, c: Seq<StatusCarrier>, k: int)
    requires
        0 <= k < c.len(),
        !marked.contains(c[k].network_id),
    ensures
        forwarded_messages::<M>(marked, kind, c).contains(status_message::<M>(kind, c[k])),
    decreases c.len(),
{
    let f = forwarded_messages::<M>(marked, kind, c);
    if k == c.len() - 1 {
        assert(f[f.len() - 1] == status_message::<M>(kind, c[k]));
    } else {
        lemma_forwarded_contains::<M>(marked, kind, c.drop_last(), k);
        assert(c.drop_last()[k] == c[k]);
        let e = forwarded_messages::<M>(marked, kind, c.drop_last());
        let w = choose|w: int| 0 <= w < e.len() && e[w] == status_message::<M>(kind, c[k]);
        if !marked.contains(c.last().network_id) {
            assert(f[w] == e[w]);
        }
    }
}

/// A status that was removed (and its marker cleaned up) is forwarded again
/// when it is re-applied.
pub proof fn lemma_reapplied_forwarded_again<M>(
    marked: Set<u32>,
    before_cleanup: Seq<u32>,
    kind: StatusEffectKind,
    reapplied: Seq<StatusCarrier>,
    k: int,
)
    requires
        0 <= k < reapplied.len(),
        !before_cleanup.contains(reapplied[k].network_id),
    ensures
        forwarded_messages::<M>(marked_after_cleanup(marked, before_cleanup), kind, reapplied).contains(
            status_message::<M>(kind, reapplied[k]),
        ),
{
    lemma_forwarded_contains::<M>(marked_after_cleanup(marked, before_cleanup), kind, reapplied, k);
}

} // verus!
