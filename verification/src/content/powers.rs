//! Power definitions: what each power does when something happens, how it
//! changes damage, block and costs, and what it forbids.
use vstd::prelude::*;

use crate::amount::{pow10, Amount};
use crate::content::cards::helpers::spec_card_is_type;
use crate::content::cards::{CardTag, CardType};
use crate::effect::{
    DamageAllEnemiesOp, DamageFlags, DamageKind, DamageOp, Effect, Event, MoveReason, RandomDamageOp, Source,
};
use crate::ids::{
    CreatureId, LocKey, PowerId, PowerInstanceId, AGGRESSION_POWER, BARRICADE_POWER, COLOSSUS_POWER,
    CORRUPTION_POWER, CRIMSON_MANTLE_POWER, CRUELTY_POWER, DARK_EMBRACE_POWER, DEMON_FORM_POWER,
    DRUM_OF_BATTLE_POWER, FEEL_NO_PAIN_POWER, FLAME_BARRIER_POWER, FREE_ATTACK_POWER, HELLRAISER_POWER,
    INFERNO_POWER, JUGGERNAUT_POWER, JUGGLING_POWER, MANGLE_POWER, NO_DRAW_POWER, NO_ENERGY_GAIN_POWER,
    ONE_TWO_PUNCH_POWER, PLATING_POWER, PYRE_POWER, RAGE_POWER, RUPTURE_POWER, SETUP_STRIKE_POWER,
    STAMPEDE_POWER, STRENGTH, TANK_POWER, UNMOVABLE_POWER, VICIOUS_POWER, VULNERABLE, WEAK,
};
use crate::registry::DefRegistry;
use crate::rules::{
    BlockCalc, CardPlayResultPileCalc, DamageCalc, Decision, DecisionQuery, DecisionQueryKind, PreventReason,
    ResourceCostCalc, RuleCtx, prevent_by_current_listener,
};
use crate::state::{fits_i32, GameState, PileId, PileKind, PowerInstance, ResourceKind, Side};

verus! {

/// A power's reaction to events.
#[derive(Clone, Copy, Debug, PartialEq, Eq, Structural)]
pub enum PowerEventRule {
    Aggression,
    CrimsonMantle,
    DarkEmbrace,
    DemonForm,
    DrumOfBattle,
    FeelNoPain,
    FlameBarrier,
    FreeAttack,
    Hellraiser,
    Inferno,
    Juggernaut,
    Juggling,
    OneTwoPunch,
    Plating,
    Pyre,
    Rage,
    RemoveOnPlayerTurnEnd,
    Rupture,
    Stampede,
    TemporaryStrengthGain,
    TemporaryStrengthLoss,
    Vicious,
}

/// A power's change to damage being worked out.
#[derive(Clone, Copy, Debug, PartialEq, Eq, Structural)]
pub enum DamageModifier {
    Strength,
    Vulnerable,
    Weak,
    Colossus,
    Cruelty,
    Tank,
}

/// A power's change to block being worked out.
#[derive(Clone, Copy, Debug, PartialEq, Eq, Structural)]
pub enum BlockModifier {
    Unmovable,
}

/// A power's change to a card's cost.
#[derive(Clone, Copy, Debug, PartialEq, Eq, Structural)]
pub enum CostModifier {
    Corruption,
    FreeAttack,
}

/// A power's change to where a played card goes.
#[derive(Clone, Copy, Debug, PartialEq, Eq, Structural)]
pub enum ResultPileModifier {
    Corruption,
}

/// A power's say in whether something may happen.
#[derive(Clone, Copy, Debug, PartialEq, Eq, Structural)]
pub enum PowerDecideRule {
    Barricade,
    NoDraw,
    /// Keeps the power's owner in the combat after its death.
    KeepOwnerAfterDeath,
}

/// The rules a power carries, one optional rule per hook.
#[derive(Clone, Copy, Debug, PartialEq, Eq, Structural)]
pub struct PowerRules {
    pub on_event: Option<PowerEventRule>,
    pub modify_damage_additive: Option<DamageModifier>,
    pub modify_damage_multiplicative: Option<DamageModifier>,
    pub modify_damage_cap: Option<DamageModifier>,
    pub modify_block_additive: Option<BlockModifier>,
    pub modify_block_multiplicative: Option<BlockModifier>,
    pub modify_resource_cost: Option<CostModifier>,
    pub modify_card_play_result_pile: Option<ResultPileModifier>,
    pub decide: Option<PowerDecideRule>,
}

/// No rule on any hook.
pub open spec fn no_power_rules() -> PowerRules {
    PowerRules {
        on_event: None,
        modify_damage_additive: None,
        modify_damage_multiplicative: None,
        modify_damage_cap: None,
        modify_block_additive: None,
        modify_block_multiplicative: None,
        modify_resource_cost: None,
        modify_card_play_result_pile: None,
        decide: None,
    }
}

impl Default for PowerRules {
    fn default() -> (r: PowerRules)
        ensures
            r == no_power_rules(),
    {
        PowerRules {
            on_event: None,
            modify_damage_additive: None,
            modify_damage_multiplicative: None,
            modify_damage_cap: None,
            modify_block_additive: None,
            modify_block_multiplicative: None,
            modify_resource_cost: None,
            modify_card_play_result_pile: None,
            decide: None,
        }
    }
}

/// One power definition.
#[derive(Clone, Copy, Debug)]
pub struct PowerDef {
    pub id: PowerId,
    pub loc_key: LocKey,
    pub rules: PowerRules,
}

/// The rules of each core power; `None` for a power that is not one of them.
pub open spec fn core_power_rules(id: PowerId) -> Option<PowerRules> {
    let none = no_power_rules();
    let on_event = |rule: PowerEventRule| PowerRules { on_event: Some(rule), ..none };
    match id {
        PowerId::Strength => Some(PowerRules { modify_damage_additive: Some(DamageModifier::Strength), ..none }),
        PowerId::Vulnerable => Some(PowerRules { modify_damage_multiplicative: Some(DamageModifier::Vulnerable), ..none }),
        PowerId::Weak => Some(PowerRules { modify_damage_multiplicative: Some(DamageModifier::Weak), ..none }),
        PowerId::PlatingPower => Some(on_event(PowerEventRule::Plating)),
        PowerId::AggressionPower => Some(on_event(PowerEventRule::Aggression)),
        PowerId::BarricadePower => Some(PowerRules { decide: Some(PowerDecideRule::Barricade), ..none }),
        PowerId::ColossusPower => Some(
            PowerRules {
                on_event: Some(PowerEventRule::RemoveOnPlayerTurnEnd),
                modify_damage_multiplicative: Some(DamageModifier::Colossus),
                ..none
            },
        ),
        PowerId::CorruptionPower => Some(
            PowerRules {
                modify_resource_cost: Some(CostModifier::Corruption),
                modify_card_play_result_pile: Some(ResultPileModifier::Corruption),
                ..none
            },
        ),
        PowerId::CrimsonMantlePower => Some(on_event(PowerEventRule::CrimsonMantle)),
        PowerId::CrueltyPower => Some(PowerRules { modify_damage_multiplicative: Some(DamageModifier::Cruelty), ..none }),
        PowerId::DarkEmbracePower => Some(on_event(PowerEventRule::DarkEmbrace)),
        PowerId::DemonFormPower => Some(on_event(PowerEventRule::DemonForm)),
        PowerId::DrumOfBattlePower => Some(on_event(PowerEventRule::DrumOfBattle)),
        PowerId::FeelNoPainPower => Some(on_event(PowerEventRule::FeelNoPain)),
        PowerId::FlameBarrierPower => Some(on_event(PowerEventRule::FlameBarrier)),
        PowerId::FreeAttackPower => Some(
            PowerRules {
                on_event: Some(PowerEventRule::FreeAttack),
                modify_resource_cost: Some(CostModifier::FreeAttack),
                ..none
            },
        ),
        PowerId::HellraiserPower => Some(on_event(PowerEventRule::Hellraiser)),
        PowerId::InfernoPower => Some(on_event(PowerEventRule::Inferno)),
        PowerId::JuggernautPower => Some(on_event(PowerEventRule::Juggernaut)),
        PowerId::JugglingPower => Some(on_event(PowerEventRule::Juggling)),
        PowerId::ManglePower => Some(on_event(PowerEventRule::TemporaryStrengthLoss)),
        PowerId::NoDrawPower => Some(
            PowerRules {
                on_event: Some(PowerEventRule::RemoveOnPlayerTurnEnd),
                decide: Some(PowerDecideRule::NoDraw),
                ..none
            },
        ),
        PowerId::NoEnergyGainPower => Some(on_event(PowerEventRule::RemoveOnPlayerTurnEnd)),
        PowerId::OneTwoPunchPower => Some(on_event(PowerEventRule::OneTwoPunch)),
        PowerId::PyrePower => Some(on_event(PowerEventRule::Pyre)),
        PowerId::RagePower => Some(on_event(PowerEventRule::Rage)),
        PowerId::RupturePower => Some(on_event(PowerEventRule::Rupture)),
        PowerId::SetupStrikePower => Some(on_event(PowerEventRule::TemporaryStrengthGain)),
        PowerId::StampedePower => Some(on_event(PowerEventRule::Stampede)),
        PowerId::TankPower => Some(PowerRules { modify_damage_multiplicative: Some(DamageModifier::Tank), ..none }),
        PowerId::UnmovablePower => Some(PowerRules { modify_block_multiplicative: Some(BlockModifier::Unmovable), ..none }),
        PowerId::ViciousPower => Some(on_event(PowerEventRule::Vicious)),
        _ => None,
    }
}

/// The localization key of each core power.
pub open spec fn core_power_key(id: PowerId) -> &'static str {
    match id {
        PowerId::Strength => "power.strength",
        PowerId::Vulnerable => "power.vulnerable",
        PowerId::Weak => "power.weak",
        PowerId::BarricadePower => "power.barricade",
        PowerId::ColossusPower => "power.colossus",
        PowerId::CorruptionPower => "power.corruption",
        PowerId::CrueltyPower => "power.cruelty",
        PowerId::FreeAttackPower => "power.free_attack",
        PowerId::NoDrawPower => "power.no_draw",
        PowerId::TankPower => "power.tank",
        PowerId::UnmovablePower => "power.unmovable",
        _ => id.spec_as_str(),
    }
}

/// A power whose only rule is its reaction to events, named by its id.
fn simple_event_power(id: PowerId, on_event: PowerEventRule) -> (r: PowerDef)
    ensures
        r.id == id,
        r.loc_key.key == id.spec_as_str(),
        r.rules == (PowerRules { on_event: Some(on_event), ..no_power_rules() }),
{
    PowerDef { id, loc_key: LocKey::new(id.as_str()), rules: PowerRules { on_event: Some(on_event), ..PowerRules::default() } }
}

/// Strength: its amount is added to the attacks its owner deals.
pub fn strength() -> (r: PowerDef)
    ensures
        r.id == STRENGTH,
        r.loc_key.key == "power.strength",
        Some(r.rules) == core_power_rules(STRENGTH),
{
    PowerDef {
        id: STRENGTH,
        loc_key: LocKey::new("power.strength"),
        rules: PowerRules { modify_damage_additive: Some(DamageModifier::Strength), ..PowerRules::default() },
    }
}

fn rules_def(id: PowerId, key: &'static str, rules: PowerRules) -> (r: PowerDef)
    ensures
        r == (PowerDef { id, loc_key: LocKey { key }, rules }),
{
    PowerDef { id, loc_key: LocKey::new(key), rules }
}

/// The core powers' definitions, in registration order.
pub fn core_power_defs() -> (r: Vec<PowerDef>)
    ensures
        r@.len() == 32,
        forall|i: int| 0 <= i < r@.len() ==> Some(#[trigger] r@[i].rules) == core_power_rules(r@[i].id),
        forall|i: int| 0 <= i < r@.len() ==> (#[trigger] r@[i].loc_key).key == core_power_key(r@[i].id),
        forall|i: int, j: int| 0 <= i < j < r@.len() ==> #[trigger] r@[i].id != #[trigger] r@[j].id,
        forall|id: PowerId| core_power_rules(id) is Some ==> exists|i: int| 0 <= i < r@.len() && #[trigger] r@[i].id == id,
{
    let d = PowerRules::default();
    let v = vec![
        strength(),
        rules_def(VULNERABLE, "power.vulnerable", PowerRules { modify_damage_multiplicative: Some(DamageModifier::Vulnerable), ..d }),
        rules_def(WEAK, "power.weak", PowerRules { modify_damage_multiplicative: Some(DamageModifier::Weak), ..d }),
        simple_event_power(PLATING_POWER, PowerEventRule::Plating),
        simple_event_power(AGGRESSION_POWER, PowerEventRule::Aggression),
        rules_def(BARRICADE_POWER, "power.barricade", PowerRules { decide: Some(PowerDecideRule::Barricade), ..d }),
        rules_def(
            COLOSSUS_POWER,
            "power.colossus",
            PowerRules {
                on_event: Some(PowerEventRule::RemoveOnPlayerTurnEnd),
                modify_damage_multiplicative: Some(DamageModifier::Colossus),
                ..d
            },
        ),
        rules_def(
            CORRUPTION_POWER,
            "power.corruption",
            PowerRules {
                modify_resource_cost: Some(CostModifier::Corruption),
                modify_card_play_result_pile: Some(ResultPileModifier::Corruption),
                ..d
            },
        ),
        simple_event_power(CRIMSON_MANTLE_POWER, PowerEventRule::CrimsonMantle),
        rules_def(CRUELTY_POWER, "power.cruelty", PowerRules { modify_damage_multiplicative: Some(DamageModifier::Cruelty), ..d }),
        simple_event_power(DARK_EMBRACE_POWER, PowerEventRule::DarkEmbrace),
        simple_event_power(DEMON_FORM_POWER, PowerEventRule::DemonForm),
        simple_event_power(DRUM_OF_BATTLE_POWER, PowerEventRule::DrumOfBattle),
        simple_event_power(FEEL_NO_PAIN_POWER, PowerEventRule::FeelNoPain),
        simple_event_power(FLAME_BARRIER_POWER, PowerEventRule::FlameBarrier),
        rules_def(
            FREE_ATTACK_POWER,
            "power.free_attack",
            PowerRules { on_event: Some(PowerEventRule::FreeAttack), modify_resource_cost: Some(CostModifier::FreeAttack), ..d },
        ),
        simple_event_power(HELLRAISER_POWER, PowerEventRule::Hellraiser),
        simple_event_power(INFERNO_POWER, PowerEventRule::Inferno),
        simple_event_power(JUGGERNAUT_POWER, PowerEventRule::Juggernaut),
        simple_event_power(JUGGLING_POWER, PowerEventRule::Juggling),
        simple_event_power(MANGLE_POWER, PowerEventRule::TemporaryStrengthLoss),
        rules_def(
            NO_DRAW_POWER,
            "power.no_draw",
            PowerRules { on_event: Some(PowerEventRule::RemoveOnPlayerTurnEnd), decide: Some(PowerDecideRule::NoDraw), ..d },
        ),
        simple_event_power(NO_ENERGY_GAIN_POWER, PowerEventRule::RemoveOnPlayerTurnEnd),
        simple_event_power(ONE_TWO_PUNCH_POWER, PowerEventRule::OneTwoPunch),
        simple_event_power(PYRE_POWER, PowerEventRule::Pyre),
        simple_event_power(RAGE_POWER, PowerEventRule::Rage),
        simple_event_power(RUPTURE_POWER, PowerEventRule::Rupture),
        simple_event_power(SETUP_STRIKE_POWER, PowerEventRule::TemporaryStrengthGain),
        simple_event_power(STAMPEDE_POWER, PowerEventRule::Stampede),
        rules_def(TANK_POWER, "power.tank", PowerRules { modify_damage_multiplicative: Some(DamageModifier::Tank), ..d }),
        rules_def(UNMOVABLE_POWER, "power.unmovable", PowerRules { modify_block_multiplicative: Some(BlockModifier::Unmovable), ..d }),
        simple_event_power(VICIOUS_POWER, PowerEventRule::Vicious),
    ];
    proof {
        assert forall|id: PowerId| core_power_rules(id) is Some implies exists|i: int| 0 <= i < v@.len() && #[trigger] v@[i].id == id by {
            match id {
                PowerId::Strength => assert(v@[0].id == id),
                PowerId::Vulnerable => assert(v@[1].id == id),
                PowerId::Weak => assert(v@[2].id == id),
                PowerId::PlatingPower => assert(v@[3].id == id),
                PowerId::AggressionPower => assert(v@[4].id == id),
                PowerId::BarricadePower => assert(v@[5].id == id),
                PowerId::ColossusPower => assert(v@[6].id == id),
                PowerId::CorruptionPower => assert(v@[7].id == id),
                PowerId::CrimsonMantlePower => assert(v@[8].id == id),
                PowerId::CrueltyPower => assert(v@[9].id == id),
                PowerId::DarkEmbracePower => assert(v@[10].id == id),
                PowerId::DemonFormPower => assert(v@[11].id == id),
                PowerId::DrumOfBattlePower => assert(v@[12].id == id),
                PowerId::FeelNoPainPower => assert(v@[13].id == id),
                PowerId::FlameBarrierPower => assert(v@[14].id == id),
                PowerId::FreeAttackPower => assert(v@[15].id == id),
                PowerId::HellraiserPower => assert(v@[16].id == id),
                PowerId::InfernoPower => assert(v@[17].id == id),
                PowerId::JuggernautPower => assert(v@[18].id == id),
                PowerId::JugglingPower => assert(v@[19].id == id),
                PowerId::ManglePower => assert(v@[20].id == id),
                PowerId::NoDrawPower => assert(v@[21].id == id),
                PowerId::NoEnergyGainPower => assert(v@[22].id == id),
                PowerId::OneTwoPunchPower => assert(v@[23].id == id),
                PowerId::PyrePower => assert(v@[24].id == id),
                PowerId::RagePower => assert(v@[25].id == id),
                PowerId::RupturePower => assert(v@[26].id == id),
                PowerId::SetupStrikePower => assert(v@[27].id == id),
                PowerId::StampedePower => assert(v@[28].id == id),
                PowerId::TankPower => assert(v@[29].id == id),
                PowerId::UnmovablePower => assert(v@[30].id == id),
                PowerId::ViciousPower => assert(v@[31].id == id),
                _ => {},
            }
        }
    }
    v
}

/// Registers every core power.
pub fn register_core_powers(registry: &mut DefRegistry<PowerId, PowerDef>)
    ensures
        forall|k: PowerId| #[trigger] final(registry)@.contains_key(k) <==> (old(registry)@.contains_key(k)
            || core_power_rules(k) is Some),
        forall|k: PowerId| core_power_rules(k) is Some ==> Some(#[trigger] final(registry)@[k].rules) == core_power_rules(k)
            && final(registry)@[k].id == k && final(registry)@[k].loc_key.key == core_power_key(k),
        forall|k: PowerId| core_power_rules(k) is None && old(registry)@.contains_key(k) ==> #[trigger] final(registry)@[k] == old(registry)@[k],
{
    let defs = core_power_defs();
    let n = defs.len();
    for i in 0..n
        invariant
            n == defs@.len(),
            n == 32,
            forall|a: int| 0 <= a < defs@.len() ==> Some(#[trigger] defs@[a].rules) == core_power_rules(defs@[a].id),
            forall|a: int| 0 <= a < defs@.len() ==> (#[trigger] defs@[a].loc_key).key == core_power_key(defs@[a].id),
            forall|a: int, b: int| 0 <= a < b < defs@.len() ==> #[trigger] defs@[a].id != #[trigger] defs@[b].id,
            forall|k: PowerId| #[trigger] registry@.contains_key(k) <==> (old(registry)@.contains_key(k)
                || exists|j: int| 0 <= j < i && defs@[j].id == k),
            forall|j: int| 0 <= j < i ==> #[trigger] registry@[defs@[j].id] == defs@[j],
            forall|k: PowerId| (forall|j: int| 0 <= j < i ==> defs@[j].id != k) && old(registry)@.contains_key(k) ==> #[trigger] registry@[k] == old(registry)@[k],
    {
        let def = defs[i];
        registry.register(def);
        proof {
            assert forall|k: PowerId| #[trigger] registry@.contains_key(k) <==> (old(registry)@.contains_key(k)
                || exists|j: int| 0 <= j < i + 1 && defs@[j].id == k) by {
                if k == defs@[i as int].id {
                    assert(0 <= i < i + 1 && defs@[i as int].id == k);
                }
                if exists|j: int| 0 <= j < i + 1 && defs@[j].id == k {
                    let j = choose|j: int| 0 <= j < i + 1 && defs@[j].id == k;
                    if j < i {
                    }
                }
            }
            assert forall|j: int| 0 <= j < i + 1 implies #[trigger] registry@[defs@[j].id] == defs@[j] by {
                if j < i {
                    assert(defs@[j].id != defs@[i as int].id);
                }
            }
        }
    }
    proof {
        assert forall|k: PowerId| #[trigger] registry@.contains_key(k) <==> (old(registry)@.contains_key(k)
            || core_power_rules(k) is Some) by {
            if core_power_rules(k) is Some {
                let j = choose|j: int| 0 <= j < defs@.len() && #[trigger] defs@[j].id == k;
                assert(0 <= j < n && defs@[j].id == k);
            }
            if exists|j: int| 0 <= j < n && defs@[j].id == k {
                let j = choose|j: int| 0 <= j < n && defs@[j].id == k;
                assert(Some(defs@[j].rules) == core_power_rules(defs@[j].id));
            }
        }
        assert forall|k: PowerId| core_power_rules(k) is Some implies Some(#[trigger] registry@[k].rules) == core_power_rules(k)
            && registry@[k].id == k && registry@[k].loc_key.key == core_power_key(k) by {
            let j = choose|j: int| 0 <= j < defs@.len() && #[trigger] defs@[j].id == k;
            assert(registry@[defs@[j].id] == defs@[j]);
            assert(defs@[j].loc_key.key == core_power_key(defs@[j].id));
        }
        assert forall|k: PowerId| core_power_rules(k) is None && old(registry)@.contains_key(k) implies #[trigger] registry@[k] == old(registry)@[k] by {
            assert forall|j: int| 0 <= j < n implies defs@[j].id != k by {
                assert(Some(defs@[j].rules) == core_power_rules(defs@[j].id));
            }
        }
    }
}


/// The power instance, if the combat has it.
pub fn power_instance(ctx: &RuleCtx<'_>, power: PowerInstanceId) -> (r: Option<PowerInstance>)
    ensures
        r == ctx.state.spec_power(power),
{
    ctx.state.power(power)
}

/// The event starts the player's turn.
pub open spec fn player_turn_starts(event: Event) -> bool {
    event == (Event::TurnStarted { side: Side::Player })
}

/// The event ends the player's turn.
pub open spec fn player_turn_ends(event: Event) -> bool {
    event == (Event::TurnEnded { side: Side::Player })
}

fn is_player_turn_start(event: &Event) -> (r: bool)
    ensures
        r == player_turn_starts(*event),
{
    match event {
        Event::TurnStarted { side: Side::Player } => true,
        _ => false,
    }
}

fn is_player_turn_end(event: &Event) -> (r: bool)
    ensures
        r == player_turn_ends(*event),
{
    match event {
        Event::TurnEnded { side: Side::Player } => true,
        _ => false,
    }
}

/// An effect sourced from the power instance.
pub open spec fn from_power(power: PowerInstanceId) -> Option<Source> {
    Some(Source::Power(power))
}

pub open spec fn remove_effects(power: PowerInstanceId, event: Event) -> Seq<Effect> {
    if player_turn_ends(event) {
        seq![Effect::RemovePower { power }]
    } else {
        Seq::empty()
    }
}

/// Removes the power when the player's turn ends.
pub fn remove_on_player_turn_end(_ctx: &RuleCtx<'_>, power: PowerInstanceId, event: &Event) -> (r: Vec<Effect>)
    ensures
        r@ == remove_effects(power, *event),
{
    let mut out: Vec<Effect> = Vec::new();
    if is_player_turn_end(event) {
        out.push(Effect::RemovePower { power });
    }
    out
}

pub open spec fn aggression_effects(state: &GameState, event: Event) -> Seq<Effect> {
    match state.combat {
        Some(c) => if player_turn_starts(event) && c.player.piles.discard@.len() > 0 {
            let card = c.player.piles.discard@.last();
            seq![
                Effect::MoveCard { card, to: PileId { owner: c.player.id, kind: PileKind::Hand }, reason: MoveReason::Generated },
                Effect::UpgradeCard { card },
            ]
        } else {
            Seq::empty()
        },
        None => Seq::empty(),
    }
}

/// Aggression: at the start of the player's turn, the top of the discard pile
/// returns to the hand, upgraded.
pub fn aggression_on_event(ctx: &RuleCtx<'_>, _power: PowerInstanceId, event: &Event) -> (r: Vec<Effect>)
    ensures
        r@ == aggression_effects(ctx.state, *event),
{
    let mut out: Vec<Effect> = Vec::new();
    if !is_player_turn_start(event) {
        return out;
    }
    let combat = match ctx.state.combat() {
        Some(c) => c,
        None => return out,
    };
    let n = combat.player.piles.discard.len();
    if n == 0 {
        return out;
    }
    let card = combat.player.piles.discard[n - 1];
    out.push(Effect::MoveCard { card, to: PileId::player(combat.player.id, PileKind::Hand), reason: MoveReason::Generated });
    out.push(Effect::UpgradeCard { card });
    out
}

pub open spec fn crimson_mantle_effects(state: &GameState, power: PowerInstanceId, event: Event) -> Seq<Effect> {
    match state.spec_power(power) {
        Some(inst) => if player_turn_starts(event) {
            seq![
                Effect::LoseHp { target: inst.owner, amount: Amount::whole(1), source: from_power(power) },
                Effect::GainBlock { target: inst.owner, amount: Amount::whole(inst.amount as int), source: from_power(power) },
            ]
        } else {
            Seq::empty()
        },
        None => Seq::empty(),
    }
}

/// Crimson Mantle: at the start of the player's turn its owner loses 1 HP and gains its amount in block.
pub fn crimson_mantle_on_event(ctx: &RuleCtx<'_>, power: PowerInstanceId, event: &Event) -> (r: Vec<Effect>)
    ensures
        r@ == crimson_mantle_effects(ctx.state, power, *event),
{
    let mut out: Vec<Effect> = Vec::new();
    if let Some(inst) = power_instance(ctx, power) {
        if is_player_turn_start(event) {
            out.push(Effect::LoseHp { target: inst.owner, amount: Amount::from_i32(1), source: Some(Source::Power(power)) });
            out.push(Effect::GainBlock { target: inst.owner, amount: Amount::from_i32(inst.amount), source: Some(Source::Power(power)) });
        }
    }
    out
}

pub open spec fn dark_embrace_effects(state: &GameState, power: PowerInstanceId, event: Event) -> Seq<Effect> {
    match (state.spec_power(power), event, state.combat) {
        (Some(inst), Event::CardExhausted(e), Some(c)) => if state.spec_player_creature_id() == Some(inst.owner)
            && e.player == c.player.id {
            seq![Effect::DrawCards { player: c.player.id, count: (if inst.amount > 1 { inst.amount } else { 1 }) as u8 }]
        } else {
            Seq::empty()
        },
        _ => Seq::empty(),
    }
}

/// Dark Embrace: whenever the player exhausts a card, they draw.
pub fn dark_embrace_on_event(ctx: &RuleCtx<'_>, power: PowerInstanceId, event: &Event) -> (r: Vec<Effect>)
    ensures
        r@ == dark_embrace_effects(ctx.state, power, *event),
{
    let mut out: Vec<Effect> = Vec::new();
    let inst = match power_instance(ctx, power) {
        Some(i) => i,
        None => return out,
    };
    let e = match event {
        Event::CardExhausted(e) => e,
        _ => return out,
    };
    let player = match ctx.state.player_id() {
        Some(p) => p,
        None => return out,
    };
    if ctx.state.player_creature_id() == Some(inst.owner) && e.player == player {
        let count: i32 = if inst.amount > 1 { inst.amount } else { 1 };
        out.push(Effect::DrawCards { player, count: count as u8 });
    }
    out
}

pub open spec fn gain_strength_effects(state: &GameState, power: PowerInstanceId, event: Event) -> Seq<Effect> {
    match state.spec_power(power) {
        Some(inst) => if player_turn_starts(event) {
            seq![Effect::ApplyPower { target: inst.owner, power: STRENGTH, amount: Amount::whole(inst.amount as int), source: from_power(power) }]
        } else {
            Seq::empty()
        },
        None => Seq::empty(),
    }
}

/// At the start of the player's turn, the owner gains the power's amount in strength.
pub fn turn_start_gain_strength(ctx: &RuleCtx<'_>, power: PowerInstanceId, event: &Event) -> (r: Vec<Effect>)
    ensures
        r@ == gain_strength_effects(ctx.state, power, *event),
{
    let mut out: Vec<Effect> = Vec::new();
    if let Some(inst) = power_instance(ctx, power) {
        if is_player_turn_start(event) {
            out.push(
                Effect::ApplyPower { target: inst.owner, power: STRENGTH, amount: Amount::from_i32(inst.amount), source: Some(Source::Power(power)) },
            );
        }
    }
    out
}

/// Demon Form: strength at the start of each of the player's turns.
pub fn demon_form_on_event(ctx: &RuleCtx<'_>, power: PowerInstanceId, event: &Event) -> (r: Vec<Effect>)
    ensures
        r@ == gain_strength_effects(ctx.state, power, *event),
{
    turn_start_gain_strength(ctx, power, event)
}

pub open spec fn pyre_effects(state: &GameState, power: PowerInstanceId, event: Event) -> Seq<Effect> {
    match (state.spec_power(power), state.spec_player_id()) {
        (Some(inst), Some(p)) => if player_turn_starts(event) {
            seq![Effect::GainResource { player: p, resource: ResourceKind::Energy, amount: inst.amount }]
        } else {
            Seq::empty()
        },
        _ => Seq::empty(),
    }
}

/// Pyre: energy at the start of the player's turn.
pub fn pyre_on_event(ctx: &RuleCtx<'_>, power: PowerInstanceId, event: &Event) -> (r: Vec<Effect>)
    ensures
        r@ == pyre_effects(ctx.state, power, *event),
{
    let mut out: Vec<Effect> = Vec::new();
    let inst = match power_instance(ctx, power) {
        Some(i) => i,
        None => return out,
    };
    if !is_player_turn_start(event) {
        return out;
    }
    if let Some(player) = ctx.state.player_id() {
        out.push(Effect::GainResource { player, resource: ResourceKind::Energy, amount: inst.amount });
    }
    out
}

pub open spec fn drum_of_battle_effects(state: &GameState, event: Event) -> Seq<Effect> {
    match state.spec_player_id() {
        Some(p) => if player_turn_starts(event) {
            seq![Effect::ExhaustTopDraw { player: p, count: 1 }]
        } else {
            Seq::empty()
        },
        None => Seq::empty(),
    }
}

/// Drum of Battle: the top card of the draw pile is exhausted at the start of the player's turn.
pub fn drum_of_battle_on_event(ctx: &RuleCtx<'_>, _power: PowerInstanceId, event: &Event) -> (r: Vec<Effect>)
    ensures
        r@ == drum_of_battle_effects(ctx.state, *event),
{
    let mut out: Vec<Effect> = Vec::new();
    if !is_player_turn_start(event) {
        return out;
    }
    if let Some(player) = ctx.state.player_id() {
        out.push(Effect::ExhaustTopDraw { player, count: 1 });
    }
    out
}

pub open spec fn feel_no_pain_effects(state: &GameState, power: PowerInstanceId, event: Event) -> Seq<Effect> {
    match (state.spec_power(power), event) {
        (Some(inst), Event::CardExhausted(_)) => seq![
            Effect::GainBlock { target: inst.owner, amount: Amount::whole(inst.amount as int), source: from_power(power) },
        ],
        _ => Seq::empty(),
    }
}

/// Feel No Pain: block whenever a card is exhausted.
pub fn feel_no_pain_on_event(ctx: &RuleCtx<'_>, power: PowerInstanceId, event: &Event) -> (r: Vec<Effect>)
    ensures
        r@ == feel_no_pain_effects(ctx.state, power, *event),
{
    let mut out: Vec<Effect> = Vec::new();
    if let Some(inst) = power_instance(ctx, power) {
        if let Event::CardExhausted(_) = event {
            out.push(Effect::GainBlock { target: inst.owner, amount: Amount::from_i32(inst.amount), source: Some(Source::Power(power)) });
        }
    }
    out
}

/// The damage Flame Barrier deals back.
pub open spec fn thorns(power: PowerInstanceId, inst: PowerInstance, dealer: CreatureId) -> Effect {
    Effect::DealDamage(
        DamageOp {
            source: from_power(power),
            dealer: Some(inst.owner),
            target: dealer,
            base_amount: Amount::whole(inst.amount as int),
            kind: DamageKind::Thorns,
            flags: DamageFlags { ignores_block: false },
        },
    )
}

pub open spec fn flame_barrier_effects(state: &GameState, power: PowerInstanceId, event: Event) -> Seq<Effect> {
    match state.spec_power(power) {
        Some(inst) => match event {
            Event::DamageDealt(res) => if res.target == inst.owner && res.hp_loss > 0 {
                match res.dealer {
                    Some(d) => seq![thorns(power, inst, d)],
                    None => Seq::empty(),
                }
            } else {
                Seq::empty()
            },
            Event::TurnEnded { side: Side::Player } => seq![Effect::RemovePower { power }],
            _ => Seq::empty(),
        },
        None => Seq::empty(),
    }
}

/// Flame Barrier: damage back at whoever hurts its owner; gone when the player's turn ends.
pub fn flame_barrier_on_event(ctx: &RuleCtx<'_>, power: PowerInstanceId, event: &Event) -> (r: Vec<Effect>)
    ensures
        r@ == flame_barrier_effects(ctx.state, power, *event),
{
    let mut out: Vec<Effect> = Vec::new();
    let inst = match power_instance(ctx, power) {
        Some(i) => i,
        None => return out,
    };
    match event {
        Event::DamageDealt(res) => {
            if res.target == inst.owner && res.hp_loss > 0 {
                if let Some(dealer) = res.dealer {
                    out.push(
                        Effect::DealDamage(
                            DamageOp {
                                source: Some(Source::Power(power)),
                                dealer: Some(inst.owner),
                                target: dealer,
                                base_amount: Amount::from_i32(inst.amount),
                                kind: DamageKind::Thorns,
                                flags: DamageFlags { ignores_block: false },
                            },
                        ),
                    );
                }
            }
        },
        Event::TurnEnded { side: Side::Player } => {
            out.push(Effect::RemovePower { power });
        },
        _ => {},
    }
    out
}

/// The first monster still alive, in creature order.
pub open spec fn first_alive_monster(state: &GameState) -> Option<CreatureId> {
    if state.spec_alive_monster_ids().len() > 0 {
        Some(state.spec_alive_monster_ids()[0])
    } else {
        None
    }
}

fn first_alive(state: &GameState) -> (r: Option<CreatureId>)
    ensures
        r == first_alive_monster(state),
{
    let ids = state.alive_monster_ids();
    if ids.len() > 0 {
        Some(ids[0])
    } else {
        None
    }
}

/// The card instance's definition carries the Strike tag.
pub open spec fn drawn_card_is_strike(ctx: &RuleCtx, card: crate::ids::CardInstanceId) -> bool {
    match ctx.state.spec_card(card) {
        Some(c) => ctx.registry.cards@.contains_key(c.def) && ctx.registry.cards@[c.def].tags@.contains(CardTag::Strike),
        None => false,
    }
}

pub open spec fn hellraiser_effects(ctx: &RuleCtx, event: Event) -> Seq<Effect> {
    match event {
        Event::CardDrawn(e) => if drawn_card_is_strike(ctx, e.card) {
            seq![Effect::ExecuteCardBody { player: e.player, card: e.card, target: first_alive_monster(ctx.state) }]
        } else {
            Seq::empty()
        },
        _ => Seq::empty(),
    }
}

/// Hellraiser: a drawn card tagged Strike is played at once, at the first living monster.
pub fn hellraiser_on_event(ctx: &RuleCtx<'_>, _power: PowerInstanceId, event: &Event) -> (r: Vec<Effect>)
    ensures
        r@ == hellraiser_effects(ctx, *event),
{
    let mut out: Vec<Effect> = Vec::new();
    let e = match event {
        Event::CardDrawn(e) => e,
        _ => return out,
    };
    let card = match ctx.state.card(e.card) {
        Some(c) => c,
        None => return out,
    };
    let is_strike = match ctx.registry.cards.get(card.def) {
        Some(def) => def.has_tag(CardTag::Strike),
        None => false,
    };
    if !is_strike {
        return out;
    }
    let target = first_alive(ctx.state);
    out.push(Effect::ExecuteCardBody { player: e.player, card: e.card, target });
    out
}

pub open spec fn inferno_effects(state: &GameState, power: PowerInstanceId, event: Event) -> Seq<Effect> {
    match state.spec_power(power) {
        Some(inst) => match event {
            Event::TurnStarted { side: Side::Player } => seq![
                Effect::LoseHp { target: inst.owner, amount: Amount::whole(1), source: from_power(power) },
            ],
            Event::CreatureHpChanged(e) => if e.creature == inst.owner && e.before > e.after {
                seq![
                    Effect::DealDamageToAllEnemies(
                        DamageAllEnemiesOp {
                            source: from_power(power),
                            dealer: Some(inst.owner),
                            base_amount: Amount::whole(inst.amount as int),
                            kind: DamageKind::Power,
                            flags: DamageFlags { ignores_block: false },
                            hit_count: 1,
                        },
                    ),
                ]
            } else {
                Seq::empty()
            },
            _ => Seq::empty(),
        },
        None => Seq::empty(),
    }
}

/// Inferno: its owner loses 1 HP at the start of the player's turn, and every
/// loss of HP burns all enemies for the power's amount.
pub fn inferno_on_event(ctx: &RuleCtx<'_>, power: PowerInstanceId, event: &Event) -> (r: Vec<Effect>)
    ensures
        r@ == inferno_effects(ctx.state, power, *event),
{
    let mut out: Vec<Effect> = Vec::new();
    let inst = match power_instance(ctx, power) {
        Some(i) => i,
        None => return out,
    };
    match event {
        Event::TurnStarted { side: Side::Player } => {
            out.push(Effect::LoseHp { target: inst.owner, amount: Amount::from_i32(1), source: Some(Source::Power(power)) });
        },
        Event::CreatureHpChanged(e) => {
            if e.creature == inst.owner && e.before > e.after {
                out.push(
                    Effect::DealDamageToAllEnemies(
                        DamageAllEnemiesOp {
                            source: Some(Source::Power(power)),
                            dealer: Some(inst.owner),
                            base_amount: Amount::from_i32(inst.amount),
                            kind: DamageKind::Power,
                            flags: DamageFlags { ignores_block: false },
                            hit_count: 1,
                        },
                    ),
                );
            }
        },
        _ => {},
    }
    out
}

pub open spec fn juggernaut_effects(state: &GameState, power: PowerInstanceId, event: Event) -> Seq<Effect> {
    match (state.spec_power(power), event) {
        (Some(inst), Event::BlockGained(e)) => if e.target == inst.owner && e.amount > 0 {
            seq![
                Effect::DealDamageToRandomEnemy(
                    RandomDamageOp {
                        source: from_power(power),
                        dealer: Some(inst.owner),
                        base_amount: Amount::whole(inst.amount as int),
                        kind: DamageKind::Power,
                        flags: DamageFlags { ignores_block: false },
                        hit_count: 1,
                    },
                ),
            ]
        } else {
            Seq::empty()
        },
        _ => Seq::empty(),
    }
}

/// Juggernaut: each gain of block by its owner hits a random enemy.
pub fn juggernaut_on_event(ctx: &RuleCtx<'_>, power: PowerInstanceId, event: &Event) -> (r: Vec<Effect>)
    ensures
        r@ == juggernaut_effects(ctx.state, power, *event),
{
    let mut out: Vec<Effect> = Vec::new();
    let inst = match power_instance(ctx, power) {
        Some(i) => i,
        None => return out,
    };
    if let Event::BlockGained(e) = event {
        if e.target == inst.owner && e.amount > 0 {
            out.push(
                Effect::DealDamageToRandomEnemy(
                    RandomDamageOp {
                        source: Some(Source::Power(power)),
                        dealer: Some(inst.owner),
                        base_amount: Amount::from_i32(inst.amount),
                        kind: DamageKind::Power,
                        flags: DamageFlags { ignores_block: false },
                        hit_count: 1,
                    },
                ),
            );
        }
    }
    out
}

/// The attacks the player played this turn; 0 outside a combat.
pub open spec fn attacks_played(state: &GameState) -> u32 {
    match state.combat {
        Some(c) => c.turn_stats.attacks_played,
        None => 0,
    }
}

pub open spec fn juggling_effects(state: &GameState, power: PowerInstanceId, event: Event) -> Seq<Effect> {
    match (state.spec_power(power), event) {
        (Some(_), Event::CardPlayed(e)) => if attacks_played(state) == 3 {
            match state.spec_card(e.card) {
                Some(c) => seq![
                    Effect::AddGeneratedCard {
                        player: e.player,
                        def: c.def,
                        to: PileId { owner: e.player, kind: PileKind::Hand },
                        upgraded: c.upgraded,
                        temporary: true,
                        zero_cost_this_turn: false,
                    },
                ],
                None => Seq::empty(),
            }
        } else {
            Seq::empty()
        },
        _ => Seq::empty(),
    }
}

/// Juggling: the third attack of a turn puts a temporary copy of the card in hand.
pub fn juggling_on_event(ctx: &RuleCtx<'_>, power: PowerInstanceId, event: &Event) -> (r: Vec<Effect>)
    ensures
        r@ == juggling_effects(ctx.state, power, *event),
{
    let mut out: Vec<Effect> = Vec::new();
    if power_instance(ctx, power).is_none() {
        return out;
    }
    let e = match event {
        Event::CardPlayed(e) => e,
        _ => return out,
    };
    let attacks: u32 = match ctx.state.combat() {
        Some(c) => c.turn_stats.attacks_played,
        None => 0,
    };
    if attacks == 3 {
        if let Some(card) = ctx.state.card(e.card) {
            out.push(
                Effect::AddGeneratedCard {
                    player: e.player,
                    def: card.def,
                    to: PileId::player(e.player, PileKind::Hand),
                    upgraded: card.upgraded,
                    temporary: true,
                    zero_cost_this_turn: false,
                },
            );
        }
    }
    out
}

/// The card instance's definition is an attack.
pub fn played_card_is_attack(ctx: &RuleCtx<'_>, card: crate::ids::CardInstanceId) -> (r: bool)
    ensures
        r == spec_card_is_type(ctx.state, ctx.registry, card, CardType::Attack),
{
    match ctx.state.card(card) {
        Some(c) => match ctx.registry.cards.get(c.def) {
            Some(def) => def.card_type == CardType::Attack,
            None => false,
        },
        None => false,
    }
}

pub open spec fn one_two_punch_effects(ctx: &RuleCtx, power: PowerInstanceId, event: Event) -> Seq<Effect> {
    match ctx.state.spec_power(power) {
        Some(inst) => if inst.amount <= 0 {
            seq![Effect::RemovePower { power }]
        } else {
            match event {
                Event::CardPlayed(e) => if spec_card_is_type(ctx.state, ctx.registry, e.card, CardType::Attack) {
                    seq![
                        Effect::ExecuteCardBody { player: e.player, card: e.card, target: e.target },
                        Effect::ApplyPower { target: inst.owner, power: ONE_TWO_PUNCH_POWER, amount: Amount::whole(-1), source: from_power(power) },
                    ]
                } else {
                    Seq::empty()
                },
                _ => remove_effects(power, event),
            }
        },
        None => Seq::empty(),
    }
}

/// One-Two Punch: each attack played is played once more, using one charge;
/// the power is gone when out of charges or when the player's turn ends.
pub fn one_two_punch_on_event(ctx: &RuleCtx<'_>, power: PowerInstanceId, event: &Event) -> (r: Vec<Effect>)
    ensures
        r@ == one_two_punch_effects(ctx, power, *event),
{
    let mut out: Vec<Effect> = Vec::new();
    let inst = match power_instance(ctx, power) {
        Some(i) => i,
        None => return out,
    };
    if inst.amount <= 0 {
        out.push(Effect::RemovePower { power });
        return out;
    }
    match event {
        Event::CardPlayed(e) => {
            if played_card_is_attack(ctx, e.card) {
                out.push(Effect::ExecuteCardBody { player: e.player, card: e.card, target: e.target });
                out.push(
                    Effect::ApplyPower {
                        target: inst.owner,
                        power: ONE_TWO_PUNCH_POWER,
                        amount: Amount::from_i32(-1),
                        source: Some(Source::Power(power)),
                    },
                );
            }
            out
        },
        _ => remove_on_player_turn_end(ctx, power, event),
    }
}

pub open spec fn rage_effects(ctx: &RuleCtx, power: PowerInstanceId, event: Event) -> Seq<Effect> {
    match ctx.state.spec_power(power) {
        Some(inst) => match event {
            Event::CardPlayed(e) => if spec_card_is_type(ctx.state, ctx.registry, e.card, CardType::Attack) {
                seq![Effect::GainBlock { target: inst.owner, amount: Amount::whole(inst.amount as int), source: from_power(power) }]
            } else {
                Seq::empty()
            },
            Event::TurnEnded { side: Side::Player } => seq![Effect::RemovePower { power }],
            _ => Seq::empty(),
        },
        None => Seq::empty(),
    }
}

/// Rage: block for each attack played; gone when the player's turn ends.
pub fn rage_on_event(ctx: &RuleCtx<'_>, power: PowerInstanceId, event: &Event) -> (r: Vec<Effect>)
    ensures
        r@ == rage_effects(ctx, power, *event),
{
    let mut out: Vec<Effect> = Vec::new();
    let inst = match power_instance(ctx, power) {
        Some(i) => i,
        None => return out,
    };
    match event {
        Event::CardPlayed(e) => {
            if played_card_is_attack(ctx, e.card) {
                out.push(Effect::GainBlock { target: inst.owner, amount: Amount::from_i32(inst.amount), source: Some(Source::Power(power)) });
            }
        },
        Event::TurnEnded { side: Side::Player } => {
            out.push(Effect::RemovePower { power });
        },
        _ => {},
    }
    out
}

pub open spec fn rupture_effects(state: &GameState, power: PowerInstanceId, event: Event) -> Seq<Effect> {
    match (state.spec_power(power), event) {
        (Some(inst), Event::CreatureHpChanged(e)) => if e.creature == inst.owner && e.before > e.after {
            seq![Effect::ApplyPower { target: inst.owner, power: STRENGTH, amount: Amount::whole(inst.amount as int), source: from_power(power) }]
        } else {
            Seq::empty()
        },
        _ => Seq::empty(),
    }
}

/// Rupture: strength whenever its owner loses HP.
pub fn rupture_on_event(ctx: &RuleCtx<'_>, power: PowerInstanceId, event: &Event) -> (r: Vec<Effect>)
    ensures
        r@ == rupture_effects(ctx.state, power, *event),
{
    let mut out: Vec<Effect> = Vec::new();
    let inst = match power_instance(ctx, power) {
        Some(i) => i,
        None => return out,
    };
    if let Event::CreatureHpChanged(e) = event {
        if e.creature == inst.owner && e.before > e.after {
            out.push(
                Effect::ApplyPower { target: inst.owner, power: STRENGTH, amount: Amount::from_i32(inst.amount), source: Some(Source::Power(power)) },
            );
        }
    }
    out
}

pub open spec fn stampede_effects(state: &GameState, event: Event) -> Seq<Effect> {
    match state.combat {
        Some(c) => if player_turn_ends(event) && c.player.piles.hand@.len() > 0 {
            seq![Effect::ExecuteCardBody { player: c.player.id, card: c.player.piles.hand@[0], target: first_alive_monster(state) }]
        } else {
            Seq::empty()
        },
        None => Seq::empty(),
    }
}

/// Stampede: when the player's turn ends, the first card of the hand is played at the first living monster.
pub fn stampede_on_event(ctx: &RuleCtx<'_>, _power: PowerInstanceId, event: &Event) -> (r: Vec<Effect>)
    ensures
        r@ == stampede_effects(ctx.state, *event),
{
    let mut out: Vec<Effect> = Vec::new();
    if !is_player_turn_end(event) {
        return out;
    }
    let combat = match ctx.state.combat() {
        Some(c) => c,
        None => return out,
    };
    if combat.player.piles.hand.len() == 0 {
        return out;
    }
    let card = combat.player.piles.hand[0];
    let target = first_alive(ctx.state);
    out.push(Effect::ExecuteCardBody { player: combat.player.id, card, target });
    out
}

pub open spec fn vicious_effects(state: &GameState, power: PowerInstanceId, event: Event) -> Seq<Effect> {
    match (state.spec_power(power), event, state.spec_player_id()) {
        (Some(inst), Event::PowerApplied(e), Some(p)) => if e.power == VULNERABLE && e.amount > 0 {
            seq![Effect::DrawCards { player: p, count: inst.amount as u8 }]
        } else {
            Seq::empty()
        },
        _ => Seq::empty(),
    }
}

/// Vicious: the player draws whenever Vulnerable is applied.
pub fn vicious_on_event(ctx: &RuleCtx<'_>, power: PowerInstanceId, event: &Event) -> (r: Vec<Effect>)
    ensures
        r@ == vicious_effects(ctx.state, power, *event),
{
    let mut out: Vec<Effect> = Vec::new();
    let inst = match power_instance(ctx, power) {
        Some(i) => i,
        None => return out,
    };
    if let Event::PowerApplied(e) = event {
        if e.power == VULNERABLE && e.amount > 0 {
            if let Some(player) = ctx.state.player_id() {
                out.push(Effect::DrawCards { player, count: inst.amount as u8 });
            }
        }
    }
    out
}

pub open spec fn plating_effects(state: &GameState, power: PowerInstanceId, event: Event) -> Seq<Effect> {
    match state.spec_power(power) {
        Some(inst) => if player_turn_starts(event) {
            seq![Effect::GainBlock { target: inst.owner, amount: Amount::whole(inst.amount as int), source: from_power(power) }]
        } else {
            Seq::empty()
        },
        None => Seq::empty(),
    }
}

/// Plating: block at the start of the player's turn.
pub fn plating_on_event(ctx: &RuleCtx<'_>, power: PowerInstanceId, event: &Event) -> (r: Vec<Effect>)
    ensures
        r@ == plating_effects(ctx.state, power, *event),
{
    let mut out: Vec<Effect> = Vec::new();
    if let Some(inst) = power_instance(ctx, power) {
        if is_player_turn_start(event) {
            out.push(Effect::GainBlock { target: inst.owner, amount: Amount::from_i32(inst.amount), source: Some(Source::Power(power)) });
        }
    }
    out
}

pub open spec fn free_attack_effects(state: &GameState, power: PowerInstanceId, event: Event) -> Seq<Effect> {
    match state.spec_power(power) {
        Some(inst) => if inst.amount <= 0 {
            seq![Effect::RemovePower { power }]
        } else {
            match event {
                Event::CardPlayed(_) => if inst.amount <= 1 {
                    seq![Effect::RemovePower { power }]
                } else {
                    seq![Effect::ApplyPower { target: inst.owner, power: FREE_ATTACK_POWER, amount: Amount::whole(-1), source: from_power(power) }]
                },
                _ => remove_effects(power, event),
            }
        },
        None => Seq::empty(),
    }
}

/// Free Attack: each card played uses one charge; gone when out of charges or when the player's turn ends.
pub fn free_attack_on_event(ctx: &RuleCtx<'_>, power: PowerInstanceId, event: &Event) -> (r: Vec<Effect>)
    ensures
        r@ == free_attack_effects(ctx.state, power, *event),
{
    let mut out: Vec<Effect> = Vec::new();
    let inst = match power_instance(ctx, power) {
        Some(i) => i,
        None => return out,
    };
    if inst.amount <= 0 {
        out.push(Effect::RemovePower { power });
        return out;
    }
    match event {
        Event::CardPlayed(_) => {
            if inst.amount <= 1 {
                out.push(Effect::RemovePower { power });
            } else {
                out.push(
                    Effect::ApplyPower {
                        target: inst.owner,
                        power: FREE_ATTACK_POWER,
                        amount: Amount::from_i32(-1),
                        source: Some(Source::Power(power)),
                    },
                );
            }
            out
        },
        _ => remove_on_player_turn_end(ctx, power, event),
    }
}

/// At the end of the player's turn, strength changes by `sign` times the
/// power's amount and the power goes.
pub open spec fn strength_reversal_effects(state: &GameState, power: PowerInstanceId, event: Event, sign: int) -> Seq<Effect> {
    match state.spec_power(power) {
        Some(inst) => if player_turn_ends(event) {
            seq![
                Effect::ApplyPower { target: inst.owner, power: STRENGTH, amount: Amount::whole(sign * inst.amount), source: from_power(power) },
                Effect::RemovePower { power },
            ]
        } else {
            Seq::empty()
        },
        None => Seq::empty(),
    }
}

/// The instance, if any, has an amount whose negation fits an `i32`.
pub open spec fn negation_fits(state: &GameState, power: PowerInstanceId) -> bool {
    state.spec_power(power) matches Some(inst) ==> inst.amount != i32::MIN
}

/// Strength gained for the turn is taken back when the player's turn ends.
pub fn temporary_strength_gain_on_event(ctx: &RuleCtx<'_>, power: PowerInstanceId, event: &Event) -> (r: Vec<Effect>)
    requires
        player_turn_ends(*event) ==> negation_fits(ctx.state, power),
    ensures
        r@ == strength_reversal_effects(ctx.state, power, *event, -1),
{
    let mut out: Vec<Effect> = Vec::new();
    if let Some(inst) = power_instance(ctx, power) {
        if is_player_turn_end(event) {
            out.push(
                Effect::ApplyPower { target: inst.owner, power: STRENGTH, amount: Amount::from_i32(-inst.amount), source: Some(Source::Power(power)) },
            );
            out.push(Effect::RemovePower { power });
        }
    }
    out
}

/// Strength lost for the turn is given back when the player's turn ends.
pub fn temporary_strength_loss_on_event(ctx: &RuleCtx<'_>, power: PowerInstanceId, event: &Event) -> (r: Vec<Effect>)
    ensures
        r@ == strength_reversal_effects(ctx.state, power, *event, 1),
{
    let mut out: Vec<Effect> = Vec::new();
    if let Some(inst) = power_instance(ctx, power) {
        if is_player_turn_end(event) {
            out.push(
                Effect::ApplyPower { target: inst.owner, power: STRENGTH, amount: Amount::from_i32(inst.amount), source: Some(Source::Power(power)) },
            );
            out.push(Effect::RemovePower { power });
        }
    }
    out
}

/// What a power's reaction to an event yields.
pub open spec fn power_event_effects(ctx: &RuleCtx, rule: PowerEventRule, power: PowerInstanceId, event: Event) -> Seq<Effect> {
    match rule {
        PowerEventRule::Aggression => aggression_effects(ctx.state, event),
        PowerEventRule::CrimsonMantle => crimson_mantle_effects(ctx.state, power, event),
        PowerEventRule::DarkEmbrace => dark_embrace_effects(ctx.state, power, event),
        PowerEventRule::DemonForm => gain_strength_effects(ctx.state, power, event),
        PowerEventRule::DrumOfBattle => drum_of_battle_effects(ctx.state, event),
        PowerEventRule::FeelNoPain => feel_no_pain_effects(ctx.state, power, event),
        PowerEventRule::FlameBarrier => flame_barrier_effects(ctx.state, power, event),
        PowerEventRule::FreeAttack => free_attack_effects(ctx.state, power, event),
        PowerEventRule::Hellraiser => hellraiser_effects(ctx, event),
        PowerEventRule::Inferno => inferno_effects(ctx.state, power, event),
        PowerEventRule::Juggernaut => juggernaut_effects(ctx.state, power, event),
        PowerEventRule::Juggling => juggling_effects(ctx.state, power, event),
        PowerEventRule::OneTwoPunch => one_two_punch_effects(ctx, power, event),
        PowerEventRule::Plating => plating_effects(ctx.state, power, event),
        PowerEventRule::Pyre => pyre_effects(ctx.state, power, event),
        PowerEventRule::Rage => rage_effects(ctx, power, event),
        PowerEventRule::RemoveOnPlayerTurnEnd => remove_effects(power, event),
        PowerEventRule::Rupture => rupture_effects(ctx.state, power, event),
        PowerEventRule::Stampede => stampede_effects(ctx.state, event),
        PowerEventRule::TemporaryStrengthGain => strength_reversal_effects(ctx.state, power, event, -1),
        PowerEventRule::TemporaryStrengthLoss => strength_reversal_effects(ctx.state, power, event, 1),
        PowerEventRule::Vicious => vicious_effects(ctx.state, power, event),
    }
}

/// Runs a power's reaction to an event.
pub fn power_on_event(ctx: &RuleCtx<'_>, rule: PowerEventRule, power: PowerInstanceId, event: &Event) -> (r: Vec<Effect>)
    requires
        rule == PowerEventRule::TemporaryStrengthGain && player_turn_ends(*event) ==> negation_fits(ctx.state, power),
    ensures
        r@ == power_event_effects(ctx, rule, power, *event),
{
    match rule {
        PowerEventRule::Aggression => aggression_on_event(ctx, power, event),
        PowerEventRule::CrimsonMantle => crimson_mantle_on_event(ctx, power, event),
        PowerEventRule::DarkEmbrace => dark_embrace_on_event(ctx, power, event),
        PowerEventRule::DemonForm => demon_form_on_event(ctx, power, event),
        PowerEventRule::DrumOfBattle => drum_of_battle_on_event(ctx, power, event),
        PowerEventRule::FeelNoPain => feel_no_pain_on_event(ctx, power, event),
        PowerEventRule::FlameBarrier => flame_barrier_on_event(ctx, power, event),
        PowerEventRule::FreeAttack => free_attack_on_event(ctx, power, event),
        PowerEventRule::Hellraiser => hellraiser_on_event(ctx, power, event),
        PowerEventRule::Inferno => inferno_on_event(ctx, power, event),
        PowerEventRule::Juggernaut => juggernaut_on_event(ctx, power, event),
        PowerEventRule::Juggling => juggling_on_event(ctx, power, event),
        PowerEventRule::OneTwoPunch => one_two_punch_on_event(ctx, power, event),
        PowerEventRule::Plating => plating_on_event(ctx, power, event),
        PowerEventRule::Pyre => pyre_on_event(ctx, power, event),
        PowerEventRule::Rage => rage_on_event(ctx, power, event),
        PowerEventRule::RemoveOnPlayerTurnEnd => remove_on_player_turn_end(ctx, power, event),
        PowerEventRule::Rupture => rupture_on_event(ctx, power, event),
        PowerEventRule::Stampede => stampede_on_event(ctx, power, event),
        PowerEventRule::TemporaryStrengthGain => temporary_strength_gain_on_event(ctx, power, event),
        PowerEventRule::TemporaryStrengthLoss => temporary_strength_loss_on_event(ctx, power, event),
        PowerEventRule::Vicious => vicious_on_event(ctx, power, event),
    }
}


/// The damage with its amount replaced, or `None` where the arithmetic overflowed.
pub open spec fn with_damage(calc: DamageCalc, amount: Option<Amount>) -> Option<DamageCalc> {
    match amount {
        Some(a) => Some(DamageCalc { amount: a, ..calc }),
        None => None,
    }
}

/// The damage scaled by `factor` when `applies`; unchanged otherwise.
pub open spec fn scaled_damage(calc: DamageCalc, applies: bool, factor: Amount) -> Option<DamageCalc> {
    if applies {
        with_damage(calc, calc.amount.spec_times(factor))
    } else {
        Some(calc)
    }
}

fn scale_damage(calc: DamageCalc, applies: bool, factor: Amount) -> (r: Option<DamageCalc>)
    requires
        calc.amount.wf(),
        factor.wf(),
    ensures
        r == scaled_damage(calc, applies, factor),
        r matches Some(c) ==> c.amount.wf(),
{
    if applies {
        match calc.amount.checked_mul(factor) {
            Some(a) => Some(DamageCalc { amount: a, ..calc }),
            None => None,
        }
    } else {
        Some(calc)
    }
}

/// Strength's share of an attack: its amount added to attacks its owner
/// deals, the total floored at zero.
pub open spec fn strength_damage(ctx: &RuleCtx, power: PowerInstanceId, calc: DamageCalc) -> Option<DamageCalc> {
    match ctx.state.spec_power(power) {
        Some(inst) => {
            let added = if calc.kind == DamageKind::Attack && calc.dealer == Some(inst.owner) {
                calc.amount.spec_plus(Amount::whole(inst.amount as int))
            } else {
                Some(calc.amount)
            };
            match added {
                Some(a) => Some(DamageCalc { amount: if a.value_lt(Amount::whole(0)) { Amount::whole(0) } else { a }, ..calc }),
                None => None,
            }
        },
        None => Some(calc),
    }
}

/// Strength: adds its amount to the attacks its owner deals; the damage never goes below zero.
/// `None` where the sum overflows a `Decimal`.
pub fn strength_modify_damage_additive(ctx: &RuleCtx<'_>, power: PowerInstanceId, calc: DamageCalc) -> (r: Option<DamageCalc>)
    requires
        calc.amount.wf(),
    ensures
        r == strength_damage(ctx, power, calc),
        r matches Some(c) ==> c.amount.wf(),
        calc.amount.scale == 0 && fits_i32(calc.amount.mantissa as int) ==> (r matches Some(c)
            && c.amount == match ctx.state.spec_power(power) {
                Some(inst) => {
                    let added = if calc.kind == DamageKind::Attack && calc.dealer == Some(inst.owner) {
                        inst.amount as int
                    } else {
                        0
                    };
                    let total = calc.amount.mantissa + added;
                    Amount::whole(if total < 0 { 0 } else { total })
                },
                None => calc.amount,
            }),
{
    let inst = match power_instance(ctx, power) {
        Some(i) => i,
        None => return Some(calc),
    };
    let mut amount = calc.amount;
    if calc.kind == DamageKind::Attack && calc.dealer == Some(inst.owner) {
        match amount.checked_add(Amount::from_i32(inst.amount)) {
            Some(a) => {
                amount = a;
            },
            None => return None,
        }
    }
    let zero = Amount::from_i32(0);
    if amount.lt(zero) {
        amount = zero;
    }
    proof {
        assert(pow10(0) == 1);
    }
    Some(DamageCalc { amount, ..calc })
}

/// Vulnerable: attacks against its owner deal half again as much.
pub open spec fn vulnerable_damage(ctx: &RuleCtx, power: PowerInstanceId, calc: DamageCalc) -> Option<DamageCalc> {
    match ctx.state.spec_power(power) {
        Some(inst) => scaled_damage(
            calc,
            calc.kind == DamageKind::Attack && calc.target == inst.owner,
            Amount { mantissa: 15, scale: 1 },
        ),
        None => Some(calc),
    }
}

pub fn vulnerable_modify_damage(ctx: &RuleCtx<'_>, power: PowerInstanceId, calc: DamageCalc) -> (r: Option<DamageCalc>)
    requires
        calc.amount.wf(),
    ensures
        r == vulnerable_damage(ctx, power, calc),
        r matches Some(c) ==> c.amount.wf(),
        ctx.state.spec_power(power) is Some && calc.kind == DamageKind::Attack && calc.target == ctx.state.spec_power(power)->0.owner
            ==> r == (match calc.amount.spec_times(Amount { mantissa: 15, scale: 1 }) {
                Some(a) => Some(DamageCalc { amount: a, ..calc }),
                None => None,
            }),
        !(ctx.state.spec_power(power) is Some && calc.kind == DamageKind::Attack && calc.target == ctx.state.spec_power(power)->0.owner)
            ==> r == Some(calc),
{
    match power_instance(ctx, power) {
        Some(inst) => scale_damage(calc, calc.kind == DamageKind::Attack && calc.target == inst.owner, Amount::new(15, 1)),
        None => Some(calc),
    }
}

/// Weak: attacks its owner deals do three quarters of the damage.
pub open spec fn weak_damage(ctx: &RuleCtx, power: PowerInstanceId, calc: DamageCalc) -> Option<DamageCalc> {
    match ctx.state.spec_power(power) {
        Some(inst) => scaled_damage(
            calc,
            calc.kind == DamageKind::Attack && calc.dealer == Some(inst.owner),
            Amount { mantissa: 75, scale: 2 },
        ),
        None => Some(calc),
    }
}

pub fn weak_modify_damage(ctx: &RuleCtx<'_>, power: PowerInstanceId, calc: DamageCalc) -> (r: Option<DamageCalc>)
    requires
        calc.amount.wf(),
    ensures
        r == weak_damage(ctx, power, calc),
        r matches Some(c) ==> c.amount.wf(),
        ctx.state.spec_power(power) is Some && calc.kind == DamageKind::Attack && calc.dealer == Some(ctx.state.spec_power(power)->0.owner)
            ==> r == (match calc.amount.spec_times(Amount { mantissa: 75, scale: 2 }) {
                Some(a) => Some(DamageCalc { amount: a, ..calc }),
                None => None,
            }),
        !(ctx.state.spec_power(power) is Some && calc.kind == DamageKind::Attack && calc.dealer == Some(ctx.state.spec_power(power)->0.owner))
            ==> r == Some(calc),
{
    match power_instance(ctx, power) {
        Some(inst) => scale_damage(calc, calc.kind == DamageKind::Attack && calc.dealer == Some(inst.owner), Amount::new(75, 2)),
        None => Some(calc),
    }
}

/// The dealer is Vulnerable.
pub open spec fn dealer_vulnerable(state: &GameState, calc: DamageCalc) -> bool {
    match calc.dealer {
        Some(d) => state.spec_power_amount(d, VULNERABLE) > 0,
        None => false,
    }
}

/// Colossus: its owner takes half damage from Vulnerable dealers.
pub open spec fn colossus_damage(ctx: &RuleCtx, power: PowerInstanceId, calc: DamageCalc) -> Option<DamageCalc> {
    match ctx.state.spec_power(power) {
        Some(inst) => scaled_damage(
            calc,
            calc.target == inst.owner && dealer_vulnerable(ctx.state, calc),
            Amount { mantissa: 5, scale: 1 },
        ),
        None => Some(calc),
    }
}

pub fn colossus_modify_damage(ctx: &RuleCtx<'_>, power: PowerInstanceId, calc: DamageCalc) -> (r: Option<DamageCalc>)
    requires
        calc.amount.wf(),
    ensures
        r == colossus_damage(ctx, power, calc),
        r matches Some(c) ==> c.amount.wf(),
{
    match power_instance(ctx, power) {
        Some(inst) => {
            let vulnerable_dealer = match calc.dealer {
                Some(d) => ctx.state.power_amount(d, VULNERABLE) > 0,
                None => false,
            };
            scale_damage(calc, calc.target == inst.owner && vulnerable_dealer, Amount::new(5, 1))
        },
        None => Some(calc),
    }
}

/// The creature is on the player's side.
pub open spec fn on_player_side(state: &GameState, creature: CreatureId) -> bool {
    match state.spec_creature(creature) {
        Some(c) => c.side == Side::Player,
        None => false,
    }
}

/// Cruelty: attacks against Vulnerable creatures grow by the power's amount, in percent,
/// when its owner is on the player's side.
pub open spec fn cruelty_damage(ctx: &RuleCtx, power: PowerInstanceId, calc: DamageCalc) -> Option<DamageCalc> {
    match ctx.state.spec_power(power) {
        Some(inst) => if calc.kind == DamageKind::Attack && ctx.state.spec_power_amount(calc.target, VULNERABLE) > 0
            && on_player_side(ctx.state, inst.owner) {
            match Amount::whole(100 + inst.amount).spec_over(Amount::whole(100)) {
                Some(f) => with_damage(calc, calc.amount.spec_times(f)),
                None => None,
            }
        } else {
            Some(calc)
        },
        None => Some(calc),
    }
}

/// The instance, if any, leaves room in an `i32` for the hundred Cruelty adds to its amount.
pub open spec fn cruelty_amount_fits(state: &GameState, power: PowerInstanceId) -> bool {
    state.spec_power(power) matches Some(inst) ==> inst.amount <= i32::MAX - 100
}

pub fn cruelty_modify_damage(ctx: &RuleCtx<'_>, power: PowerInstanceId, calc: DamageCalc) -> (r: Option<DamageCalc>)
    requires
        calc.amount.wf(),
        cruelty_amount_fits(ctx.state, power),
    ensures
        r == cruelty_damage(ctx, power, calc),
        r matches Some(c) ==> c.amount.wf(),
{
    let inst = match power_instance(ctx, power) {
        Some(i) => i,
        None => return Some(calc),
    };
    let owner_is_player = match ctx.state.creature(inst.owner) {
        Some(c) => c.side == Side::Player,
        None => false,
    };
    if calc.kind == DamageKind::Attack && ctx.state.power_amount(calc.target, VULNERABLE) > 0 && owner_is_player {
        match Amount::from_i32(100 + inst.amount).checked_div(Amount::from_i32(100)) {
            Some(f) => match calc.amount.checked_mul(f) {
                Some(a) => Some(DamageCalc { amount: a, ..calc }),
                None => None,
            },
            None => None,
        }
    } else {
        Some(calc)
    }
}

/// The dealer is a monster.
pub open spec fn dealer_is_monster(state: &GameState, calc: DamageCalc) -> bool {
    match calc.dealer {
        Some(d) => match state.spec_creature(d) {
            Some(c) => c.side == Side::Monsters,
            None => false,
        },
        None => false,
    }
}

/// Tank: its owner takes double damage from monsters.
pub open spec fn tank_damage(ctx: &RuleCtx, power: PowerInstanceId, calc: DamageCalc) -> Option<DamageCalc> {
    match ctx.state.spec_power(power) {
        Some(inst) => scaled_damage(calc, calc.target == inst.owner && dealer_is_monster(ctx.state, calc), Amount::whole(2)),
        None => Some(calc),
    }
}

pub fn tank_modify_damage(ctx: &RuleCtx<'_>, power: PowerInstanceId, calc: DamageCalc) -> (r: Option<DamageCalc>)
    requires
        calc.amount.wf(),
    ensures
        r == tank_damage(ctx, power, calc),
        r matches Some(c) ==> c.amount.wf(),
{
    match power_instance(ctx, power) {
        Some(inst) => {
            let from_monster = match calc.dealer {
                Some(d) => match ctx.state.creature(d) {
                    Some(c) => c.side == Side::Monsters,
                    None => false,
                },
                None => false,
            };
            scale_damage(calc, calc.target == inst.owner && from_monster, Amount::from_i32(2))
        },
        None => Some(calc),
    }
}

/// What a power's damage rule makes of the damage.
pub open spec fn damage_modifier_result(ctx: &RuleCtx, modifier: DamageModifier, power: PowerInstanceId, calc: DamageCalc) -> Option<DamageCalc> {
    match modifier {
        DamageModifier::Strength => strength_damage(ctx, power, calc),
        DamageModifier::Vulnerable => vulnerable_damage(ctx, power, calc),
        DamageModifier::Weak => weak_damage(ctx, power, calc),
        DamageModifier::Colossus => colossus_damage(ctx, power, calc),
        DamageModifier::Cruelty => cruelty_damage(ctx, power, calc),
        DamageModifier::Tank => tank_damage(ctx, power, calc),
    }
}

/// Runs a power's damage rule; `None` where the arithmetic overflows a `Decimal`.
pub fn modify_damage(ctx: &RuleCtx<'_>, modifier: DamageModifier, power: PowerInstanceId, calc: DamageCalc) -> (r: Option<DamageCalc>)
    requires
        calc.amount.wf(),
        modifier == DamageModifier::Cruelty ==> cruelty_amount_fits(ctx.state, power),
    ensures
        r == damage_modifier_result(ctx, modifier, power, calc),
        r matches Some(c) ==> c.amount.wf(),
{
    match modifier {
        DamageModifier::Strength => strength_modify_damage_additive(ctx, power, calc),
        DamageModifier::Vulnerable => vulnerable_modify_damage(ctx, power, calc),
        DamageModifier::Weak => weak_modify_damage(ctx, power, calc),
        DamageModifier::Colossus => colossus_modify_damage(ctx, power, calc),
        DamageModifier::Cruelty => cruelty_modify_damage(ctx, power, calc),
        DamageModifier::Tank => tank_modify_damage(ctx, power, calc),
    }
}

/// The player gained block from a card earlier this turn.
pub open spec fn card_block_gained_this_turn(state: &GameState) -> bool {
    match state.combat {
        Some(c) => c.turn_stats.card_block_gains > 0,
        None => false,
    }
}

/// Unmovable: the first block its owner gains from a card each turn is doubled.
pub open spec fn unmovable_block(ctx: &RuleCtx, power: PowerInstanceId, calc: BlockCalc) -> Option<BlockCalc> {
    match ctx.state.spec_power(power) {
        Some(inst) => if calc.target == inst.owner && (calc.source matches Some(Source::Card(_))) && !card_block_gained_this_turn(ctx.state) {
            match calc.amount.spec_times(Amount::whole(2)) {
                Some(a) => Some(BlockCalc { amount: a, ..calc }),
                None => None,
            }
        } else {
            Some(calc)
        },
        None => Some(calc),
    }
}

pub fn unmovable_modify_block(ctx: &RuleCtx<'_>, power: PowerInstanceId, calc: BlockCalc) -> (r: Option<BlockCalc>)
    requires
        calc.amount.wf(),
    ensures
        r == unmovable_block(ctx, power, calc),
        r matches Some(c) ==> c.amount.wf(),
{
    let inst = match power_instance(ctx, power) {
        Some(i) => i,
        None => return Some(calc),
    };
    let already_gained = match ctx.state.combat() {
        Some(c) => c.turn_stats.card_block_gains > 0,
        None => false,
    };
    let from_card = match calc.source {
        Some(Source::Card(_)) => true,
        _ => false,
    };
    if calc.target == inst.owner && from_card && !already_gained {
        match calc.amount.checked_mul(Amount::from_i32(2)) {
            Some(a) => Some(BlockCalc { amount: a, ..calc }),
            None => None,
        }
    } else {
        Some(calc)
    }
}

/// The card of the calculation has the given type in the registry.
pub fn cost_card_is(ctx: &RuleCtx<'_>, card: crate::ids::CardInstanceId, card_type: CardType) -> (r: bool)
    ensures
        r == spec_card_is_type(ctx.state, ctx.registry, card, card_type),
{
    match ctx.state.card(card) {
        Some(c) => match ctx.registry.cards.get(c.def) {
            Some(def) => def.card_type == card_type,
            None => false,
        },
        None => false,
    }
}

/// Corruption: skills cost no energy.
pub open spec fn corruption_cost(ctx: &RuleCtx, calc: ResourceCostCalc) -> ResourceCostCalc {
    if calc.resource == ResourceKind::Energy && spec_card_is_type(ctx.state, ctx.registry, calc.card, CardType::Skill) {
        ResourceCostCalc { cost: 0, ..calc }
    } else {
        calc
    }
}

pub fn corruption_modify_cost(ctx: &RuleCtx<'_>, _power: PowerInstanceId, calc: ResourceCostCalc) -> (r: ResourceCostCalc)
    ensures
        r == corruption_cost(ctx, calc),
{
    let is_skill = cost_card_is(ctx, calc.card, CardType::Skill);
    if calc.resource == ResourceKind::Energy && is_skill {
        ResourceCostCalc { cost: 0, ..calc }
    } else {
        calc
    }
}

/// Free Attack: attacks cost no energy.
pub open spec fn free_attack_cost(ctx: &RuleCtx, calc: ResourceCostCalc) -> ResourceCostCalc {
    if calc.resource == ResourceKind::Energy && spec_card_is_type(ctx.state, ctx.registry, calc.card, CardType::Attack) {
        ResourceCostCalc { cost: 0, ..calc }
    } else {
        calc
    }
}

pub fn free_attack_modify_cost(ctx: &RuleCtx<'_>, _power: PowerInstanceId, calc: ResourceCostCalc) -> (r: ResourceCostCalc)
    ensures
        r == free_attack_cost(ctx, calc),
{
    if calc.resource != ResourceKind::Energy {
        return calc;
    }
    let is_attack = cost_card_is(ctx, calc.card, CardType::Attack);
    if is_attack {
        ResourceCostCalc { cost: 0, ..calc }
    } else {
        calc
    }
}

/// What a power's cost rule makes of the cost.
pub open spec fn cost_modifier_result(ctx: &RuleCtx, modifier: CostModifier, calc: ResourceCostCalc) -> ResourceCostCalc {
    match modifier {
        CostModifier::Corruption => corruption_cost(ctx, calc),
        CostModifier::FreeAttack => free_attack_cost(ctx, calc),
    }
}

pub fn modify_resource_cost(ctx: &RuleCtx<'_>, modifier: CostModifier, power: PowerInstanceId, calc: ResourceCostCalc) -> (r: ResourceCostCalc)
    ensures
        r == cost_modifier_result(ctx, modifier, calc),
{
    match modifier {
        CostModifier::Corruption => corruption_modify_cost(ctx, power, calc),
        CostModifier::FreeAttack => free_attack_modify_cost(ctx, power, calc),
    }
}

/// Corruption: skills played by the power's owner are exhausted.
pub open spec fn corruption_pile(ctx: &RuleCtx, power: PowerInstanceId, calc: CardPlayResultPileCalc) -> CardPlayResultPileCalc {
    match (ctx.state.spec_power(power), ctx.state.spec_card(calc.card), ctx.state.combat) {
        (Some(inst), Some(card), Some(c)) => if c.player.id == card.owner && c.player.creature == inst.owner
            && spec_card_is_type(ctx.state, ctx.registry, calc.card, CardType::Skill) {
            CardPlayResultPileCalc { pile: PileId { owner: card.owner, kind: PileKind::Exhaust }, ..calc }
        } else {
            calc
        },
        _ => calc,
    }
}

pub fn corruption_modify_result_pile(ctx: &RuleCtx<'_>, power: PowerInstanceId, calc: CardPlayResultPileCalc) -> (r: CardPlayResultPileCalc)
    ensures
        r == corruption_pile(ctx, power, calc),
{
    let inst = match power_instance(ctx, power) {
        Some(i) => i,
        None => return calc,
    };
    let card = match ctx.state.card(calc.card) {
        Some(c) => c,
        None => return calc,
    };
    let owner_creature = match ctx.state.combat() {
        Some(c) => if c.player.id == card.owner {
            Some(c.player.creature)
        } else {
            None
        },
        None => None,
    };
    let is_skill = match ctx.registry.cards.get(card.def) {
        Some(def) => def.card_type == CardType::Skill,
        None => false,
    };
    if owner_creature == Some(inst.owner) && is_skill {
        CardPlayResultPileCalc { pile: PileId::player(card.owner, PileKind::Exhaust), ..calc }
    } else {
        calc
    }
}

/// Barricade: its owner's block is not cleared.
pub open spec fn barricade_decision(ctx: &RuleCtx, power: PowerInstanceId, query: DecisionQuery) -> Decision {
    match (ctx.state.spec_power(power), query.kind) {
        (Some(inst), DecisionQueryKind::ShouldClearBlock { creature }) => if creature == inst.owner {
            Decision::Prevent { by: ctx.listener, reason: PreventReason::Barricade }
        } else {
            Decision::Allow
        },
        _ => Decision::Allow,
    }
}

pub fn barricade_decide(ctx: &RuleCtx<'_>, power: PowerInstanceId, query: &DecisionQuery) -> (r: Decision)
    ensures
        r == barricade_decision(ctx, power, *query),
{
    let inst = match power_instance(ctx, power) {
        Some(i) => i,
        None => return Decision::Allow,
    };
    match query.kind {
        DecisionQueryKind::ShouldClearBlock { creature } => if creature == inst.owner {
            prevent_by_current_listener(ctx, PreventReason::Barricade)
        } else {
            Decision::Allow
        },
        _ => Decision::Allow,
    }
}

/// No Draw: no card may be drawn.
pub open spec fn no_draw_decision(ctx: &RuleCtx, query: DecisionQuery) -> Decision {
    if query.kind is ShouldDraw {
        Decision::Prevent { by: ctx.listener, reason: PreventReason::CannotDraw }
    } else {
        Decision::Allow
    }
}

pub fn no_draw_decide(ctx: &RuleCtx<'_>, _power: PowerInstanceId, query: &DecisionQuery) -> (r: Decision)
    ensures
        r == no_draw_decision(ctx, *query),
{
    match query.kind {
        DecisionQueryKind::ShouldDraw { .. } => prevent_by_current_listener(ctx, PreventReason::CannotDraw),
        _ => Decision::Allow,
    }
}

/// Keeps its owner in the combat after death: the owner is not removed.
pub open spec fn keep_owner_decision(ctx: &RuleCtx, power: PowerInstanceId, query: DecisionQuery) -> Decision {
    match (ctx.state.spec_power(power), query.kind) {
        (Some(inst), DecisionQueryKind::ShouldRemoveCreatureAfterDeath { creature }) => if creature == inst.owner {
            Decision::Prevent { by: ctx.listener, reason: PreventReason::KeepsCreatureInCombat }
        } else {
            Decision::Allow
        },
        _ => Decision::Allow,
    }
}

pub fn keep_owner_decide(ctx: &RuleCtx<'_>, power: PowerInstanceId, query: &DecisionQuery) -> (r: Decision)
    ensures
        r == keep_owner_decision(ctx, power, *query),
{
    let inst = match power_instance(ctx, power) {
        Some(i) => i,
        None => return Decision::Allow,
    };
    match query.kind {
        DecisionQueryKind::ShouldRemoveCreatureAfterDeath { creature } => if creature == inst.owner {
            prevent_by_current_listener(ctx, PreventReason::KeepsCreatureInCombat)
        } else {
            Decision::Allow
        },
        _ => Decision::Allow,
    }
}

/// A power's answer to a question.
pub open spec fn power_decision(ctx: &RuleCtx, rule: PowerDecideRule, power: PowerInstanceId, query: DecisionQuery) -> Decision {
    match rule {
        PowerDecideRule::Barricade => barricade_decision(ctx, power, query),
        PowerDecideRule::NoDraw => no_draw_decision(ctx, query),
        PowerDecideRule::KeepOwnerAfterDeath => keep_owner_decision(ctx, power, query),
    }
}

pub fn power_decide(ctx: &RuleCtx<'_>, rule: PowerDecideRule, power: PowerInstanceId, query: &DecisionQuery) -> (r: Decision)
    ensures
        r == power_decision(ctx, rule, power, *query),
{
    match rule {
        PowerDecideRule::Barricade => barricade_decide(ctx, power, query),
        PowerDecideRule::NoDraw => no_draw_decide(ctx, power, query),
        PowerDecideRule::KeepOwnerAfterDeath => keep_owner_decide(ctx, power, query),
    }
}

} // verus!
