//! What the core orbs do, stated with their own numbers, and which monster
//! Dark's evoke picks.
use vstd::prelude::*;

use crate::amount::Amount;
use crate::content::orbs::{creature_hp, orb_action_effects, weakest_of, OrbAction};
use crate::effect::{DamageFlags, DamageKind, DamageOp, Effect, OrbTrigger, RandomDamageOp, Source};
use crate::ids::{CreatureId, OrbInstanceId};
use crate::state::{GameState, ResourceKind};

verus! {

/// `amount` damage from the orb's owner: at the target, or at one random
/// enemy without one.
pub open spec fn orb_hit(state: &GameState, orb: OrbInstanceId, target: Option<CreatureId>, amount: int) -> Seq<Effect> {
    match target {
        Some(t) => seq![
            Effect::DealDamage(
                DamageOp {
                    source: Some(Source::System),
                    dealer: state.spec_orb_owner_creature(orb),
                    target: t,
                    base_amount: Amount { mantissa: amount as i128, scale: 0 },
                    kind: DamageKind::Power,
                    flags: DamageFlags { ignores_block: false },
                },
            ),
        ],
        None => seq![
            Effect::DealDamageToRandomEnemy(
                RandomDamageOp {
                    source: Some(Source::System),
                    dealer: state.spec_orb_owner_creature(orb),
                    base_amount: Amount { mantissa: amount as i128, scale: 0 },
                    kind: DamageKind::Power,
                    flags: DamageFlags { ignores_block: false },
                    hit_count: 1,
                },
            ),
        ],
    }
}

/// `amount` Block for the creature of the orb's owner.
pub open spec fn orb_block(state: &GameState, orb: OrbInstanceId, amount: int) -> Seq<Effect> {
    match state.spec_orb_owner_creature(orb) {
        Some(t) => seq![Effect::GainBlock { target: t, amount: Amount { mantissa: amount as i128, scale: 0 }, source: Some(Source::System) }],
        None => Seq::empty(),
    }
}

/// `amount` energy for the orb's owner.
pub open spec fn orb_energy(state: &GameState, orb: OrbInstanceId, amount: int) -> Seq<Effect> {
    match state.spec_orb(orb) {
        Some(o) => seq![Effect::GainResource { player: o.owner, resource: ResourceKind::Energy, amount: amount as i32 }],
        None => Seq::empty(),
    }
}

/// Lightning deals 3 damage on its own (at the end of the turn, or at a given
/// target) and 8 when evoked; Frost gives 2 Block at the end of the turn and 5
/// when evoked; Dark does nothing on its own and, evoked, deals 6 damage to the
/// living monster with the least HP; Plasma gives 1 energy at the start of the
/// turn and 2 when evoked.
pub proof fn lemma_orb_actions(state: &GameState, orb: OrbInstanceId, trigger: OrbTrigger, target: Option<CreatureId>)
    ensures
        orb_action_effects(state, OrbAction::LightningPassive, orb, trigger, target) == if trigger == OrbTrigger::BeforeTurnEnd || target is Some {
            orb_hit(state, orb, target, 3)
        } else {
            Seq::<Effect>::empty()
        },
        orb_action_effects(state, OrbAction::LightningEvoke, orb, trigger, target) == orb_hit(state, orb, target, 8),
        orb_action_effects(state, OrbAction::FrostPassive, orb, trigger, target) == if trigger == OrbTrigger::BeforeTurnEnd {
            orb_block(state, orb, 2)
        } else {
            Seq::<Effect>::empty()
        },
        orb_action_effects(state, OrbAction::FrostEvoke, orb, trigger, target) == orb_block(state, orb, 5),
        orb_action_effects(state, OrbAction::DarkPassive, orb, trigger, target) == Seq::<Effect>::empty(),
        orb_action_effects(state, OrbAction::DarkEvoke, orb, trigger, target) == match weakest_of(state, state.spec_alive_monster_ids()) {
            Some(t) => orb_hit(state, orb, Some(t), 6),
            None => Seq::<Effect>::empty(),
        },
        orb_action_effects(state, OrbAction::PlasmaPassive, orb, trigger, target) == if trigger == OrbTrigger::AfterTurnStart {
            orb_energy(state, orb, 1)
        } else {
            Seq::<Effect>::empty()
        },
        orb_action_effects(state, OrbAction::PlasmaEvoke, orb, trigger, target) == orb_energy(state, orb, 2),
{
}

/// Of the creatures `ids`, the one picked is there at a position `k` whose HP
/// is no more than any other's, and every creature before it has more HP: the
/// first of the weakest. Nothing is picked from no creatures.
pub proof fn lemma_weakest_is_least(state: &GameState, ids: Seq<CreatureId>) -> (k: int)
    ensures
        ids.len() == 0 ==> weakest_of(state, ids) is None,
        ids.len() > 0 ==> {
            &&& 0 <= k < ids.len()
            &&& weakest_of(state, ids) == Some(ids[k])
            &&& forall|j: int| 0 <= j < ids.len() ==> creature_hp(state, ids[k]) <= #[trigger] creature_hp(state, ids[j])
            &&& forall|j: int| 0 <= j < k ==> creature_hp(state, ids[k]) < #[trigger] creature_hp(state, ids[j])
        },
    decreases ids.len(),
{
    if ids.len() == 0 {
        0
    } else if ids.len() == 1 {
        assert(ids.drop_last().len() == 0);
        0
    } else {
        let rest = ids.drop_last();
        let k0 = lemma_weakest_is_least(state, rest);
        assert forall|j: int| 0 <= j < rest.len() implies rest[j] == ids[j] by {}
        if creature_hp(state, ids.last()) < creature_hp(state, rest[k0]) {
            let k = ids.len() - 1;
            assert forall|j: int| 0 <= j < ids.len() implies creature_hp(state, ids[k]) <= #[trigger] creature_hp(state, ids[j]) by {
                if j < rest.len() {
                    assert(creature_hp(state, rest[k0]) <= creature_hp(state, rest[j]));
                }
            }
            assert forall|j: int| 0 <= j < k implies creature_hp(state, ids[k]) < #[trigger] creature_hp(state, ids[j]) by {
                assert(creature_hp(state, rest[k0]) <= creature_hp(state, rest[j]));
            }
            k
        } else {
            assert forall|j: int| 0 <= j < ids.len() implies creature_hp(state, ids[k0]) <= #[trigger] creature_hp(state, ids[j]) by {
                if j < rest.len() {
                    assert(creature_hp(state, rest[k0]) <= creature_hp(state, rest[j]));
                }
            }
            assert forall|j: int| 0 <= j < k0 implies creature_hp(state, ids[k0]) < #[trigger] creature_hp(state, ids[j]) by {
                assert(creature_hp(state, rest[k0]) < creature_hp(state, rest[j]));
            }
            k0
        }
    }
}

} // verus!
