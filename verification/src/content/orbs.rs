//! Orb definitions: what each orb does on its own and when evoked.
use vstd::prelude::*;

use crate::amount::Amount;
use crate::effect::{DamageFlags, DamageKind, DamageOp, Effect, OrbTrigger, RandomDamageOp, Source};
use crate::ids::{CreatureId, LocKey, OrbId, OrbInstanceId, DARK_ORB, FROST_ORB, LIGHTNING_ORB, PLASMA_ORB};
use crate::registry::DefRegistry;
use crate::rules::RuleCtx;
use crate::state::{GameState, ResourceKind};

verus! {

/// What an orb does, on its own or when evoked.
#[derive(Clone, Copy, Debug, PartialEq, Eq, Structural)]
pub enum OrbAction {
    LightningPassive,
    LightningEvoke,
    FrostPassive,
    FrostEvoke,
    DarkPassive,
    DarkEvoke,
    PlasmaPassive,
    PlasmaEvoke,
}

/// The value rules an orb carries. The catalogue's orbs change no values, so
/// an orb carries no rules beyond its two actions.
#[derive(Clone, Copy, Debug, PartialEq, Eq, Structural)]
pub struct OrbRules {}

/// One orb definition.
#[derive(Clone, Copy, Debug)]
pub struct OrbDef {
    pub id: OrbId,
    pub loc_key: LocKey,
    pub passive: OrbAction,
    pub evoke: OrbAction,
    pub rules: OrbRules,
}

/// The core orbs: id, passive action and evoke action.
pub open spec fn core_orb_actions(id: OrbId) -> Option<(OrbAction, OrbAction)> {
    match id {
        OrbId::LightningOrb => Some((OrbAction::LightningPassive, OrbAction::LightningEvoke)),
        OrbId::FrostOrb => Some((OrbAction::FrostPassive, OrbAction::FrostEvoke)),
        OrbId::DarkOrb => Some((OrbAction::DarkPassive, OrbAction::DarkEvoke)),
        OrbId::PlasmaOrb => Some((OrbAction::PlasmaPassive, OrbAction::PlasmaEvoke)),
        _ => None,
    }
}

/// The localization key of each core orb.
pub open spec fn core_orb_key(id: OrbId) -> &'static str {
    match id {
        OrbId::LightningOrb => "orb.lightning",
        OrbId::FrostOrb => "orb.frost",
        OrbId::DarkOrb => "orb.dark",
        OrbId::PlasmaOrb => "orb.plasma",
    }
}

fn orb_def(id: OrbId, key: &'static str, passive: OrbAction, evoke: OrbAction) -> (r: OrbDef)
    ensures
        r.id == id,
        r.loc_key.key == key,
        r.passive == passive,
        r.evoke == evoke,
        r.rules == (OrbRules {}),
{
    OrbDef { id, loc_key: LocKey::new(key), passive, evoke, rules: OrbRules {} }
}

/// Registers Lightning, Frost, Dark and Plasma.
pub fn register_core_orbs(registry: &mut DefRegistry<OrbId, OrbDef>)
    ensures
        forall|k: OrbId| #[trigger] final(registry)@.contains_key(k) <==> (old(registry)@.contains_key(k)
            || core_orb_actions(k) is Some),
        forall|k: OrbId| core_orb_actions(k) is Some ==> core_orb_actions(k) == Some(
            (#[trigger] final(registry)@[k].passive, final(registry)@[k].evoke),
        ) && final(registry)@[k].id == k && final(registry)@[k].loc_key.key == core_orb_key(k)
            && final(registry)@[k].rules == (OrbRules {}),
        forall|k: OrbId| core_orb_actions(k) is None && old(registry)@.contains_key(k) ==> #[trigger] final(registry)@[k] == old(registry)@[k],
{
    registry.register(orb_def(LIGHTNING_ORB, "orb.lightning", OrbAction::LightningPassive, OrbAction::LightningEvoke));
    registry.register(orb_def(FROST_ORB, "orb.frost", OrbAction::FrostPassive, OrbAction::FrostEvoke));
    registry.register(orb_def(DARK_ORB, "orb.dark", OrbAction::DarkPassive, OrbAction::DarkEvoke));
    registry.register(orb_def(PLASMA_ORB, "orb.plasma", OrbAction::PlasmaPassive, OrbAction::PlasmaEvoke));
}

/// An orb's value: its base amount, since no rule of the catalogue changes orb values.
pub fn resolve_orb_value(_ctx: &RuleCtx<'_>, _orb: OrbInstanceId, base_amount: i32) -> (r: Amount)
    ensures
        r == Amount::whole(base_amount as int),
{
    Amount::from_i32(base_amount)
}

/// Lightning's damage: at the target, or else at a random enemy.
pub open spec fn lightning_effects(state: &GameState, orb: OrbInstanceId, target: Option<CreatureId>, base: int) -> Seq<Effect> {
    match target {
        Some(t) => seq![
            Effect::DealDamage(
                DamageOp {
                    source: Some(Source::System),
                    dealer: state.spec_orb_owner_creature(orb),
                    target: t,
                    base_amount: Amount::whole(base),
                    kind: DamageKind::Power,
                    flags: DamageFlags { ignores_block: false },
                },
            ),
        ],
        None => seq![
            Effect::DealDamageToRandomEnemy(
                RandomDamageOp {
                    source: Some(Source::System),
                    dealer: state.spec_orb_owner_creature(orb),
                    base_amount: Amount::whole(base),
                    kind: DamageKind::Power,
                    flags: DamageFlags { ignores_block: false },
                    hit_count: 1,
                },
            ),
        ],
    }
}

pub fn lightning_damage(ctx: &RuleCtx<'_>, orb: OrbInstanceId, target: Option<CreatureId>, base: i32) -> (r: Vec<Effect>)
    ensures
        r@ == lightning_effects(ctx.state, orb, target, base as int),
{
    let amount = resolve_orb_value(ctx, orb, base);
    let dealer = ctx.state.orb_owner_creature(orb);
    let mut out: Vec<Effect> = Vec::new();
    match target {
        Some(t) => out.push(
            Effect::DealDamage(
                DamageOp {
                    source: Some(Source::System),
                    dealer,
                    target: t,
                    base_amount: amount,
                    kind: DamageKind::Power,
                    flags: DamageFlags { ignores_block: false },
                },
            ),
        ),
        None => out.push(
            Effect::DealDamageToRandomEnemy(
                RandomDamageOp {
                    source: Some(Source::System),
                    dealer,
                    base_amount: amount,
                    kind: DamageKind::Power,
                    flags: DamageFlags { ignores_block: false },
                    hit_count: 1,
                },
            ),
        ),
    }
    out
}

/// Frost's block, for the creature of the orb's owner.
pub open spec fn frost_block_effects(state: &GameState, orb: OrbInstanceId, base: int) -> Seq<Effect> {
    match state.spec_orb_owner_creature(orb) {
        Some(t) => seq![Effect::GainBlock { target: t, amount: Amount::whole(base), source: Some(Source::System) }],
        None => Seq::empty(),
    }
}

pub fn frost_block(ctx: &RuleCtx<'_>, orb: OrbInstanceId, base: i32) -> (r: Vec<Effect>)
    ensures
        r@ == frost_block_effects(ctx.state, orb, base as int),
{
    let mut out: Vec<Effect> = Vec::new();
    if let Some(target) = ctx.state.orb_owner_creature(orb) {
        out.push(Effect::GainBlock { target, amount: resolve_orb_value(ctx, orb, base), source: Some(Source::System) });
    }
    out
}

/// The living monster with the least HP; the first of them on a tie.
pub open spec fn weakest_of(state: &GameState, ids: Seq<CreatureId>) -> Option<CreatureId>
    decreases ids.len(),
{
    if ids.len() == 0 {
        None
    } else {
        match weakest_of(state, ids.drop_last()) {
            None => Some(ids.last()),
            Some(best) => if creature_hp(state, ids.last()) < creature_hp(state, best) {
                Some(ids.last())
            } else {
                Some(best)
            },
        }
    }
}

/// The creature's HP; 0 for a creature that is not there.
pub open spec fn creature_hp(state: &GameState, id: CreatureId) -> int {
    match state.spec_creature(id) {
        Some(c) => c.hp as int,
        None => 0,
    }
}

fn hp_of(state: &GameState, id: CreatureId) -> (r: i32)
    ensures
        r == creature_hp(state, id),
{
    match state.creature(id) {
        Some(c) => c.hp,
        None => 0,
    }
}

pub open spec fn dark_evoke_effects(state: &GameState, orb: OrbInstanceId) -> Seq<Effect> {
    match weakest_of(state, state.spec_alive_monster_ids()) {
        Some(t) => seq![
            Effect::DealDamage(
                DamageOp {
                    source: Some(Source::System),
                    dealer: state.spec_orb_owner_creature(orb),
                    target: t,
                    base_amount: Amount::whole(6),
                    kind: DamageKind::Power,
                    flags: DamageFlags { ignores_block: false },
                },
            ),
        ],
        None => Seq::empty(),
    }
}

/// Dark's evoke: 6 damage to the living monster with the least HP.
pub fn dark_evoke(ctx: &RuleCtx<'_>, orb: OrbInstanceId) -> (r: Vec<Effect>)
    ensures
        r@ == dark_evoke_effects(ctx.state, orb),
{
    let ids = ctx.state.alive_monster_ids();
    let n = ids.len();
    let mut best: Option<CreatureId> = None;
    let mut best_hp: i32 = 0;
    for i in 0..n
        invariant
            n == ids@.len(),
            best == weakest_of(ctx.state, ids@.take(i as int)),
            best matches Some(b) ==> best_hp == creature_hp(ctx.state, b),
    {
        proof {
            assert(ids@.take((i + 1) as int).drop_last() =~= ids@.take(i as int));
        }
        let id = ids[i];
        let hp = hp_of(ctx.state, id);
        match best {
            None => {
                best = Some(id);
                best_hp = hp;
            },
            Some(_) => {
                if hp < best_hp {
                    best = Some(id);
                    best_hp = hp;
                }
            },
        }
    }
    proof {
        assert(ids@.take(n as int) =~= ids@);
    }
    let mut out: Vec<Effect> = Vec::new();
    if let Some(target) = best {
        out.push(
            Effect::DealDamage(
                DamageOp {
                    source: Some(Source::System),
                    dealer: ctx.state.orb_owner_creature(orb),
                    target,
                    base_amount: resolve_orb_value(ctx, orb, 6),
                    kind: DamageKind::Power,
                    flags: DamageFlags { ignores_block: false },
                },
            ),
        );
    }
    out
}

pub open spec fn plasma_effects(state: &GameState, orb: OrbInstanceId, amount: i32) -> Seq<Effect> {
    match state.spec_orb(orb) {
        Some(o) => seq![Effect::GainResource { player: o.owner, resource: ResourceKind::Energy, amount }],
        None => Seq::empty(),
    }
}

pub fn plasma_energy(ctx: &RuleCtx<'_>, orb: OrbInstanceId, amount: i32) -> (r: Vec<Effect>)
    ensures
        r@ == plasma_effects(ctx.state, orb, amount),
{
    let mut out: Vec<Effect> = Vec::new();
    if let Some(o) = ctx.state.orb(orb) {
        out.push(Effect::GainResource { player: o.owner, resource: ResourceKind::Energy, amount });
    }
    out
}

/// What an orb action yields.
pub open spec fn orb_action_effects(state: &GameState, action: OrbAction, orb: OrbInstanceId, trigger: OrbTrigger, target: Option<CreatureId>) -> Seq<Effect> {
    match action {
        OrbAction::LightningPassive => if trigger != OrbTrigger::BeforeTurnEnd && target is None {
            Seq::empty()
        } else {
            lightning_effects(state, orb, target, 3)
        },
        OrbAction::LightningEvoke => lightning_effects(state, orb, target, 8),
        OrbAction::FrostPassive => if trigger != OrbTrigger::BeforeTurnEnd {
            Seq::empty()
        } else {
            frost_block_effects(state, orb, 2)
        },
        OrbAction::FrostEvoke => frost_block_effects(state, orb, 5),
        OrbAction::DarkPassive => Seq::empty(),
        OrbAction::DarkEvoke => dark_evoke_effects(state, orb),
        OrbAction::PlasmaPassive => if trigger != OrbTrigger::AfterTurnStart {
            Seq::empty()
        } else {
            plasma_effects(state, orb, 1)
        },
        OrbAction::PlasmaEvoke => plasma_effects(state, orb, 2),
    }
}

/// Runs an orb action.
pub fn run_orb_action(ctx: &RuleCtx<'_>, action: OrbAction, orb: OrbInstanceId, trigger: OrbTrigger, target: Option<CreatureId>) -> (r: Vec<Effect>)
    ensures
        r@ == orb_action_effects(ctx.state, action, orb, trigger, target),
{
    match action {
        OrbAction::LightningPassive => {
            if trigger != OrbTrigger::BeforeTurnEnd && target.is_none() {
                return Vec::new();
            }
            lightning_damage(ctx, orb, target, 3)
        },
        OrbAction::LightningEvoke => lightning_damage(ctx, orb, target, 8),
        OrbAction::FrostPassive => {
            if trigger != OrbTrigger::BeforeTurnEnd {
                return Vec::new();
            }
            frost_block(ctx, orb, 2)
        },
        OrbAction::FrostEvoke => frost_block(ctx, orb, 5),
        OrbAction::DarkPassive => Vec::new(),
        OrbAction::DarkEvoke => dark_evoke(ctx, orb),
        OrbAction::PlasmaPassive => {
            if trigger != OrbTrigger::AfterTurnStart {
                return Vec::new();
            }
            plasma_energy(ctx, orb, 1)
        },
        OrbAction::PlasmaEvoke => plasma_energy(ctx, orb, 2),
    }
}

} // verus!
