//! Dispel across the link: each peer's own dispel only reaches the effects it
//! owns, so the other peer names the effects (and shielded units) it wants
//! dispelled, and the owner decides what happens to each.

use vstd::prelude::*;
use crate::protocol::PeerMessage;
use crate::status::{first_match, find_first};

verus! {

/// One of this peer's networked spell effects, as a dispel sees it.
#[derive(PartialEq, Eq, Structural, Clone, Copy, Debug)]
pub struct NetworkedEffect {
    /// Assigned by the host; the guest's own effects have none.
    pub network_id: Option<u32>,
    /// The entity's index, which stands in for a missing network id.
    pub entity_index: u32,
    /// Arcane crystals detonate rather than vanish.
    pub is_arcane_crystal: bool,
    /// Whether dispel removes this kind of effect.
    pub dispellable: bool,
}

/// The id the other peer knows an effect by: its network id, or else its
/// entity index (as the effect snapshot names it).
pub open spec fn resolved_id(e: NetworkedEffect) -> u32 {
    match e.network_id {
        Some(n) => n,
        None => e.entity_index,
    }
}

pub open spec fn resolved_ids(effects: Seq<NetworkedEffect>) -> Seq<u32> {
    effects.map_values(|e: NetworkedEffect| resolved_id(e))
}

/// What a dispel request does on the owning peer.
#[derive(PartialEq, Eq, Structural, Clone, Copy, Debug)]
pub enum DispelAction {
    /// Re-announce a dispel at the crystal so it shatters as if dispelled here.
    Shatter { effect: usize },
    Despawn { effect: usize },
    StripShield { unit: usize },
}

pub open spec fn is_dispel<M>(m: PeerMessage<M>) -> bool {
    m is DispelSpellEffect || m is DispelShield
}

pub open spec fn not_dispel<M>() -> spec_fn(PeerMessage<M>) -> bool {
    |m: PeerMessage<M>| !is_dispel(m)
}

/// The action for dispelling effect `i`, if any.
pub open spec fn effect_action(effects: Seq<NetworkedEffect>, i: int) -> Option<DispelAction> {
    if effects[i].is_arcane_crystal {
        Some(DispelAction::Shatter { effect: i as usize })
    } else if effects[i].dispellable {
        Some(DispelAction::Despawn { effect: i as usize })
    } else {
        None
    }
}

/// The actions `msgs` ask for, in order. A request for an effect or unit that
/// is not here does nothing.
pub open spec fn dispel_actions<M>(
    msgs: Seq<PeerMessage<M>>,
    effects: Seq<NetworkedEffect>,
    shielded: Seq<u32>,
) -> Seq<DispelAction>
    decreases msgs.len(),
{
    if msgs.len() == 0 {
        Seq::empty()
    } else {
        let earlier = dispel_actions(msgs.drop_last(), effects, shielded);
        match msgs.last() {
            PeerMessage::DispelSpellEffect { target_network_id } => match first_match(
                resolved_ids(effects),
                target_network_id,
            ) {
                Some(i) => match effect_action(effects, i) {
                    Some(a) => earlier.push(a),
                    None => earlier,
                },
                None => earlier,
            },
            PeerMessage::DispelShield { target_network_id } => match first_match(
                shielded,
                target_network_id,
            ) {
                Some(u) => earlier.push(DispelAction::StripShield { unit: u as usize }),
                None => earlier,
            },
            _ => earlier,
        }
    }
}

/// Takes every dispel request off the queue and returns what to do, in
/// order: a crystal shatters, a dispellable effect is despawned, anything else
/// stays; a shielded unit loses its shield. Other messages stay queued in
/// order.
pub fn receive_dispel_messages<M>(
    incoming: &mut Vec<PeerMessage<M>>,
    effects: &Vec<NetworkedEffect>,
    shielded: &Vec<u32>,
) -> (r: Vec<DispelAction>)
    ensures
        final(incoming)@ == old(incoming)@.filter(not_dispel()),
        r@ == dispel_actions(old(incoming)@, effects@, shielded@),
{
    let mut ids: Vec<u32> = Vec::new();
    let mut j: usize = 0;
    while j < effects.len()
        invariant
            j <= effects.len(),
            ids@ == resolved_ids(effects@.subrange(0, j as int)),
        decreases effects.len() - j,
    {
        let e = effects[j];
        let id = match e.network_id {
            Some(n) => n,
            None => e.entity_index,
        };
        ids.push(id);
        proof {
            assert(resolved_ids(effects@.subrange(0, j + 1)) =~= resolved_ids(
                effects@.subrange(0, j as int),
            ).push(id));
        }
        j = j + 1;
    }
    assert(effects@.subrange(0, effects.len() as int) =~= effects@);

    let mut actions: Vec<DispelAction> = Vec::new();
    let ghost orig = incoming@;
    let mut raw: Vec<PeerMessage<M>> = Vec::new();
    std::mem::swap(&mut raw, incoming);
    let mut kept: Vec<PeerMessage<M>> = Vec::new();
    let ghost mut k: int = 0;
    assert(orig.skip(0) =~= orig);
    assert(orig.take(0) =~= Seq::<PeerMessage<M>>::empty());
    while raw.len() > 0
        invariant
            0 <= k <= orig.len(),
            raw@ == orig.skip(k),
            ids@ == resolved_ids(effects@),
            kept@ == orig.take(k).filter(not_dispel()),
            actions@ == dispel_actions(orig.take(k), effects@, shielded@),
        decreases raw.len(),
    {
        let msg = raw.remove(0);
        proof {
            assert(orig.skip(k)[0] == orig[k]);
            assert(orig.skip(k).remove(0) =~= orig.skip(k + 1));
            assert(orig.take(k + 1).drop_last() =~= orig.take(k));
            assert(orig.take(k + 1) =~= orig.take(k).push(orig[k]));
            orig.take(k).lemma_filter_push(orig[k], not_dispel());
        }
        match msg {
            PeerMessage::DispelSpellEffect { target_network_id } => {
                match find_first(&ids, target_network_id) {
                    Some(i) => {
                        let e = effects[i];
                        if e.is_arcane_crystal {
                            actions.push(DispelAction::Shatter { effect: i });
                        } else if e.dispellable {
                            actions.push(DispelAction::Despawn { effect: i });
                        }
                    },
                    None => {},
                }
            },
            PeerMessage::DispelShield { target_network_id } => {
                match find_first(shielded, target_network_id) {
                    Some(u) => {
                        actions.push(DispelAction::StripShield { unit: u });
                    },
                    None => {},
                }
            },
            other => {
                kept.push(other);
            },
        }
        proof {
            k = k + 1;
        }
    }
    proof {
        assert(orig.take(k) =~= orig);
    }
    *incoming = kept;
    actions
}

/// A dispel never despawns an arcane crystal (it shatters instead) nor an
/// effect that dispel does not remove.
pub proof fn lemma_despawn_only_dispellable<M>(
    msgs: Seq<PeerMessage<M>>,
    effects: Seq<NetworkedEffect>,
    shielded: Seq<u32>,
    k: int,
)
    requires
        effects.len() <= usize::MAX,
        0 <= k < dispel_actions(msgs, effects, shielded).len(),
    ensures
        dispel_actions(msgs, effects, shielded)[k] matches DispelAction::Despawn { effect } ==> (
        effect < effects.len() && !effects[effect as int].is_arcane_crystal
            && effects[effect as int].dispellable),
        dispel_actions(msgs, effects, shielded)[k] matches DispelAction::Shatter { effect } ==> (
        effect < effects.len() && effects[effect as int].is_arcane_crystal),
    decreases msgs.len(),
{
    let all = dispel_actions(msgs, effects, shielded);
    let earlier = dispel_actions(msgs.drop_last(), effects, shielded);
    if k < earlier.len() {
        lemma_despawn_only_dispellable(msgs.drop_last(), effects, shielded, k);
        assert(all[k] == earlier[k]);
    } else {
        match msgs.last() {
            PeerMessage::DispelSpellEffect { target_network_id } => {
                let ids = resolved_ids(effects);
                if exists|i: int| crate::status::is_first_match(ids, target_network_id, i) {
                    let i = choose|i: int| crate::status::is_first_match(ids, target_network_id, i);
                    assert(0 <= i < effects.len());
                }
            },
            _ => {},
        }
    }
}

} // verus!
