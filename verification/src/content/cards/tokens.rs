//! The Token pool: cards other cards create during a combat, and the
//! status cards.
use vstd::prelude::*;

use super::curses::{cards_played, is_in_hand, third_card_decision};
use super::helpers::{
    attack_effects, attacks, block_self, concat, draw_cards, gain_energy, one, random_enemy_attack, spec_block_self,
    spec_draw_cards, spec_gain_resource, spec_random_enemy_attack, spec_value, value,
};
use super::ironclad::{giant_rock_def, giant_rock_spec};
use super::{
    CardDecideRule, CardDef, CardPlay, CardPlayCtx, CardPoolId, CardRarity, CardRules, CardSpec, CardType,
    KeywordList, TagList, TargetType, defs_of, fresh_lines, id_absent, ids_distinct, ids_of, lemma_stores_lines_insert,
    register_specs, stores_lines,
};
use crate::effect::Effect;
use crate::ids::{CardId, CardInstanceId, CreatureId};
use crate::registry::DefRegistry;
use crate::rules::{Decision, DecisionQuery, DecisionQueryKind, PreventReason, RuleCtx, prevent_by_current_listener};
use crate::state::{CardCost, CardCosts, ResourceKind};

verus! {

/// The Token catalogue, in order (Giant Rock is kept with the Ironclad cards).
pub open spec fn token_table() -> Seq<CardSpec> {
    seq![
        CardSpec {
            id: CardId::Fuel,
            loc_key: "card.FUEL",
            pool: CardPoolId::Token,
            card_type: CardType::Skill,
            rarity: CardRarity::Token,
            target: TargetType::SelfTarget,
            base_costs: CardCosts { energy: CardCost::Fixed(0), stars: CardCost::NoCost },
            upgraded_costs: None,
            keywords: KeywordList::Exhaust,
            upgraded_keywords: KeywordList::Empty,
            tags: TagList::Empty,
            can_generate_in_combat: true,
            play: CardPlay::Body(CardId::Fuel),
            rules: CardRules { on_event: None, decide: None },
        },
        CardSpec {
            id: CardId::Luminesce,
            loc_key: "card.LUMINESCE",
            pool: CardPoolId::Token,
            card_type: CardType::Skill,
            rarity: CardRarity::Token,
            target: TargetType::SelfTarget,
            base_costs: CardCosts { energy: CardCost::Fixed(0), stars: CardCost::NoCost },
            upgraded_costs: None,
            keywords: KeywordList::ExhaustRetain,
            upgraded_keywords: KeywordList::Empty,
            tags: TagList::Empty,
            can_generate_in_combat: true,
            play: CardPlay::Body(CardId::Luminesce),
            rules: CardRules { on_event: None, decide: None },
        },
        CardSpec {
            id: CardId::MinionDiveBomb,
            loc_key: "card.MINION_DIVE_BOMB",
            pool: CardPoolId::Token,
            card_type: CardType::Attack,
            rarity: CardRarity::Token,
            target: TargetType::Enemy,
            base_costs: CardCosts { energy: CardCost::Fixed(0), stars: CardCost::NoCost },
            upgraded_costs: None,
            keywords: KeywordList::Exhaust,
            upgraded_keywords: KeywordList::Empty,
            tags: TagList::Minion,
            can_generate_in_combat: true,
            play: CardPlay::Body(CardId::MinionDiveBomb),
            rules: CardRules { on_event: None, decide: None },
        },
        CardSpec {
            id: CardId::MinionSacrifice,
            loc_key: "card.MINION_SACRIFICE",
            pool: CardPoolId::Token,
            card_type: CardType::Skill,
            rarity: CardRarity::Token,
            target: TargetType::SelfTarget,
            base_costs: CardCosts { energy: CardCost::Fixed(0), stars: CardCost::NoCost },
            upgraded_costs: None,
            keywords: KeywordList::Exhaust,
            upgraded_keywords: KeywordList::Empty,
            tags: TagList::Minion,
            can_generate_in_combat: true,
            play: CardPlay::Body(CardId::MinionSacrifice),
            rules: CardRules { on_event: None, decide: None },
        },
        CardSpec {
            id: CardId::MinionStrike,
            loc_key: "card.MINION_STRIKE",
            pool: CardPoolId::Token,
            card_type: CardType::Attack,
            rarity: CardRarity::Token,
            target: TargetType::Enemy,
            base_costs: CardCosts { energy: CardCost::Fixed(0), stars: CardCost::NoCost },
            upgraded_costs: None,
            keywords: KeywordList::Exhaust,
            upgraded_keywords: KeywordList::Empty,
            tags: TagList::StrikeMinion,
            can_generate_in_combat: true,
            play: CardPlay::Body(CardId::MinionStrike),
            rules: CardRules { on_event: None, decide: None },
        },
        CardSpec {
            id: CardId::Shiv,
            loc_key: "card.SHIV",
            pool: CardPoolId::Token,
            card_type: CardType::Attack,
            rarity: CardRarity::Token,
            target: TargetType::Enemy,
            base_costs: CardCosts { energy: CardCost::Fixed(0), stars: CardCost::NoCost },
            upgraded_costs: None,
            keywords: KeywordList::Exhaust,
            upgraded_keywords: KeywordList::Empty,
            tags: TagList::Shiv,
            can_generate_in_combat: true,
            play: CardPlay::Body(CardId::Shiv),
            rules: CardRules { on_event: None, decide: None },
        },
        CardSpec {
            id: CardId::Soul,
            loc_key: "card.SOUL",
            pool: CardPoolId::Token,
            card_type: CardType::Skill,
            rarity: CardRarity::Token,
            target: TargetType::SelfTarget,
            base_costs: CardCosts { energy: CardCost::Fixed(0), stars: CardCost::NoCost },
            upgraded_costs: None,
            keywords: KeywordList::Exhaust,
            upgraded_keywords: KeywordList::Empty,
            tags: TagList::Empty,
            can_generate_in_combat: true,
            play: CardPlay::Body(CardId::Soul),
            rules: CardRules { on_event: None, decide: None },
        },
        CardSpec {
            id: CardId::SovereignBlade,
            loc_key: "card.SOVEREIGN_BLADE",
            pool: CardPoolId::Token,
            card_type: CardType::Attack,
            rarity: CardRarity::Token,
            target: TargetType::Enemy,
            base_costs: CardCosts { energy: CardCost::Fixed(2), stars: CardCost::NoCost },
            upgraded_costs: Some(CardCosts { energy: CardCost::Fixed(1), stars: CardCost::NoCost }),
            keywords: KeywordList::Retain,
            upgraded_keywords: KeywordList::Empty,
            tags: TagList::Empty,
            can_generate_in_combat: true,
            play: CardPlay::Body(CardId::SovereignBlade),
            rules: CardRules { on_event: None, decide: None },
        },
        CardSpec {
            id: CardId::SweepingGaze,
            loc_key: "card.SWEEPING_GAZE",
            pool: CardPoolId::Token,
            card_type: CardType::Attack,
            rarity: CardRarity::Token,
            target: TargetType::RandomEnemy,
            base_costs: CardCosts { energy: CardCost::Fixed(0), stars: CardCost::NoCost },
            upgraded_costs: None,
            keywords: KeywordList::ExhaustEthereal,
            upgraded_keywords: KeywordList::Empty,
            tags: TagList::OstyAttack,
            can_generate_in_combat: true,
            play: CardPlay::Body(CardId::SweepingGaze),
            rules: CardRules { on_event: None, decide: None },
        },
        CardSpec {
            id: CardId::Disintegration,
            loc_key: "card.DISINTEGRATION",
            pool: CardPoolId::Token,
            card_type: CardType::Status,
            rarity: CardRarity::Status,
            target: TargetType::Untargeted,
            base_costs: CardCosts { energy: CardCost::Unplayable, stars: CardCost::NoCost },
            upgraded_costs: None,
            keywords: KeywordList::Empty,
            upgraded_keywords: KeywordList::Empty,
            tags: TagList::Empty,
            can_generate_in_combat: false,
            play: CardPlay::NoEffect,
            rules: CardRules { on_event: None, decide: None },
        },
        CardSpec {
            id: CardId::MindRot,
            loc_key: "card.MIND_ROT",
            pool: CardPoolId::Token,
            card_type: CardType::Status,
            rarity: CardRarity::Status,
            target: TargetType::Untargeted,
            base_costs: CardCosts { energy: CardCost::Unplayable, stars: CardCost::NoCost },
            upgraded_costs: None,
            keywords: KeywordList::Empty,
            upgraded_keywords: KeywordList::Empty,
            tags: TagList::Empty,
            can_generate_in_combat: false,
            play: CardPlay::NoEffect,
            rules: CardRules { on_event: None, decide: None },
        },
        CardSpec {
            id: CardId::Sloth,
            loc_key: "card.SLOTH",
            pool: CardPoolId::Token,
            card_type: CardType::Status,
            rarity: CardRarity::Status,
            target: TargetType::Untargeted,
            base_costs: CardCosts { energy: CardCost::Unplayable, stars: CardCost::NoCost },
            upgraded_costs: None,
            keywords: KeywordList::Empty,
            upgraded_keywords: KeywordList::Empty,
            tags: TagList::Empty,
            can_generate_in_combat: false,
            play: CardPlay::NoEffect,
            rules: CardRules { on_event: None, decide: Some(CardDecideRule::Sloth) },
        },
        CardSpec {
            id: CardId::WasteAway,
            loc_key: "card.WASTE_AWAY",
            pool: CardPoolId::Token,
            card_type: CardType::Status,
            rarity: CardRarity::Status,
            target: TargetType::Untargeted,
            base_costs: CardCosts { energy: CardCost::Unplayable, stars: CardCost::NoCost },
            upgraded_costs: None,
            keywords: KeywordList::Empty,
            upgraded_keywords: KeywordList::Empty,
            tags: TagList::Empty,
            can_generate_in_combat: false,
            play: CardPlay::NoEffect,
            rules: CardRules { on_event: None, decide: None },
        },
    ]
}

fn token_card_specs() -> (r: Vec<CardSpec>)
    ensures
        r@ == token_table(),
{
    vec![
        CardSpec {
            id: CardId::Fuel,
            loc_key: "card.FUEL",
            pool: CardPoolId::Token,
            card_type: CardType::Skill,
            rarity: CardRarity::Token,
            target: TargetType::SelfTarget,
            base_costs: CardCosts { energy: CardCost::Fixed(0), stars: CardCost::NoCost },
            upgraded_costs: None,
            keywords: KeywordList::Exhaust,
            upgraded_keywords: KeywordList::Empty,
            tags: TagList::Empty,
            can_generate_in_combat: true,
            play: CardPlay::Body(CardId::Fuel),
            rules: CardRules { on_event: None, decide: None },
        },
        CardSpec {
            id: CardId::Luminesce,
            loc_key: "card.LUMINESCE",
            pool: CardPoolId::Token,
            card_type: CardType::Skill,
            rarity: CardRarity::Token,
            target: TargetType::SelfTarget,
            base_costs: CardCosts { energy: CardCost::Fixed(0), stars: CardCost::NoCost },
            upgraded_costs: None,
            keywords: KeywordList::ExhaustRetain,
            upgraded_keywords: KeywordList::Empty,
            tags: TagList::Empty,
            can_generate_in_combat: true,
            play: CardPlay::Body(CardId::Luminesce),
            rules: CardRules { on_event: None, decide: None },
        },
        CardSpec {
            id: CardId::MinionDiveBomb,
            loc_key: "card.MINION_DIVE_BOMB",
            pool: CardPoolId::Token,
            card_type: CardType::Attack,
            rarity: CardRarity::Token,
            target: TargetType::Enemy,
            base_costs: CardCosts { energy: CardCost::Fixed(0), stars: CardCost::NoCost },
            upgraded_costs: None,
            keywords: KeywordList::Exhaust,
            upgraded_keywords: KeywordList::Empty,
            tags: TagList::Minion,
            can_generate_in_combat: true,
            play: CardPlay::Body(CardId::MinionDiveBomb),
            rules: CardRules { on_event: None, decide: None },
        },
        CardSpec {
            id: CardId::MinionSacrifice,
            loc_key: "card.MINION_SACRIFICE",
            pool: CardPoolId::Token,
            card_type: CardType::Skill,
            rarity: CardRarity::Token,
            target: TargetType::SelfTarget,
            base_costs: CardCosts { energy: CardCost::Fixed(0), stars: CardCost::NoCost },
            upgraded_costs: None,
            keywords: KeywordList::Exhaust,
            upgraded_keywords: KeywordList::Empty,
            tags: TagList::Minion,
            can_generate_in_combat: true,
            play: CardPlay::Body(CardId::MinionSacrifice),
            rules: CardRules { on_event: None, decide: None },
        },
        CardSpec {
            id: CardId::MinionStrike,
            loc_key: "card.MINION_STRIKE",
            pool: CardPoolId::Token,
            card_type: CardType::Attack,
            rarity: CardRarity::Token,
            target: TargetType::Enemy,
            base_costs: CardCosts { energy: CardCost::Fixed(0), stars: CardCost::NoCost },
            upgraded_costs: None,
            keywords: KeywordList::Exhaust,
            upgraded_keywords: KeywordList::Empty,
            tags: TagList::StrikeMinion,
            can_generate_in_combat: true,
            play: CardPlay::Body(CardId::MinionStrike),
            rules: CardRules { on_event: None, decide: None },
        },
        CardSpec {
            id: CardId::Shiv,
            loc_key: "card.SHIV",
            pool: CardPoolId::Token,
            card_type: CardType::Attack,
            rarity: CardRarity::Token,
            target: TargetType::Enemy,
            base_costs: CardCosts { energy: CardCost::Fixed(0), stars: CardCost::NoCost },
            upgraded_costs: None,
            keywords: KeywordList::Exhaust,
            upgraded_keywords: KeywordList::Empty,
            tags: TagList::Shiv,
            can_generate_in_combat: true,
            play: CardPlay::Body(CardId::Shiv),
            rules: CardRules { on_event: None, decide: None },
        },
        CardSpec {
            id: CardId::Soul,
            loc_key: "card.SOUL",
            pool: CardPoolId::Token,
            card_type: CardType::Skill,
            rarity: CardRarity::Token,
            target: TargetType::SelfTarget,
            base_costs: CardCosts { energy: CardCost::Fixed(0), stars: CardCost::NoCost },
            upgraded_costs: None,
            keywords: KeywordList::Exhaust,
            upgraded_keywords: KeywordList::Empty,
            tags: TagList::Empty,
            can_generate_in_combat: true,
            play: CardPlay::Body(CardId::Soul),
            rules: CardRules { on_event: None, decide: None },
        },
        CardSpec {
            id: CardId::SovereignBlade,
            loc_key: "card.SOVEREIGN_BLADE",
            pool: CardPoolId::Token,
            card_type: CardType::Attack,
            rarity: CardRarity::Token,
            target: TargetType::Enemy,
            base_costs: CardCosts { energy: CardCost::Fixed(2), stars: CardCost::NoCost },
            upgraded_costs: Some(CardCosts { energy: CardCost::Fixed(1), stars: CardCost::NoCost }),
            keywords: KeywordList::Retain,
            upgraded_keywords: KeywordList::Empty,
            tags: TagList::Empty,
            can_generate_in_combat: true,
            play: CardPlay::Body(CardId::SovereignBlade),
            rules: CardRules { on_event: None, decide: None },
        },
        CardSpec {
            id: CardId::SweepingGaze,
            loc_key: "card.SWEEPING_GAZE",
            pool: CardPoolId::Token,
            card_type: CardType::Attack,
            rarity: CardRarity::Token,
            target: TargetType::RandomEnemy,
            base_costs: CardCosts { energy: CardCost::Fixed(0), stars: CardCost::NoCost },
            upgraded_costs: None,
            keywords: KeywordList::ExhaustEthereal,
            upgraded_keywords: KeywordList::Empty,
            tags: TagList::OstyAttack,
            can_generate_in_combat: true,
            play: CardPlay::Body(CardId::SweepingGaze),
            rules: CardRules { on_event: None, decide: None },
        },
        CardSpec {
            id: CardId::Disintegration,
            loc_key: "card.DISINTEGRATION",
            pool: CardPoolId::Token,
            card_type: CardType::Status,
            rarity: CardRarity::Status,
            target: TargetType::Untargeted,
            base_costs: CardCosts { energy: CardCost::Unplayable, stars: CardCost::NoCost },
            upgraded_costs: None,
            keywords: KeywordList::Empty,
            upgraded_keywords: KeywordList::Empty,
            tags: TagList::Empty,
            can_generate_in_combat: false,
            play: CardPlay::NoEffect,
            rules: CardRules { on_event: None, decide: None },
        },
        CardSpec {
            id: CardId::MindRot,
            loc_key: "card.MIND_ROT",
            pool: CardPoolId::Token,
            card_type: CardType::Status,
            rarity: CardRarity::Status,
            target: TargetType::Untargeted,
            base_costs: CardCosts { energy: CardCost::Unplayable, stars: CardCost::NoCost },
            upgraded_costs: None,
            keywords: KeywordList::Empty,
            upgraded_keywords: KeywordList::Empty,
            tags: TagList::Empty,
            can_generate_in_combat: false,
            play: CardPlay::NoEffect,
            rules: CardRules { on_event: None, decide: None },
        },
        CardSpec {
            id: CardId::Sloth,
            loc_key: "card.SLOTH",
            pool: CardPoolId::Token,
            card_type: CardType::Status,
            rarity: CardRarity::Status,
            target: TargetType::Untargeted,
            base_costs: CardCosts { energy: CardCost::Unplayable, stars: CardCost::NoCost },
            upgraded_costs: None,
            keywords: KeywordList::Empty,
            upgraded_keywords: KeywordList::Empty,
            tags: TagList::Empty,
            can_generate_in_combat: false,
            play: CardPlay::NoEffect,
            rules: CardRules { on_event: None, decide: Some(CardDecideRule::Sloth) },
        },
        CardSpec {
            id: CardId::WasteAway,
            loc_key: "card.WASTE_AWAY",
            pool: CardPoolId::Token,
            card_type: CardType::Status,
            rarity: CardRarity::Status,
            target: TargetType::Untargeted,
            base_costs: CardCosts { energy: CardCost::Unplayable, stars: CardCost::NoCost },
            upgraded_costs: None,
            keywords: KeywordList::Empty,
            upgraded_keywords: KeywordList::Empty,
            tags: TagList::Empty,
            can_generate_in_combat: false,
            play: CardPlay::NoEffect,
            rules: CardRules { on_event: None, decide: None },
        },
    ]
}

/// Registers the Token catalogue and Giant Rock.
pub fn register_token_cards(registry: &mut DefRegistry<CardId, CardDef>)
    ensures
        forall|k: CardId| #[trigger] final(registry)@.contains_key(k) <==> (old(registry)@.contains_key(k)
            || k == CardId::GiantRock || exists|i: int| 0 <= i < token_table().len() && token_table()[i].id == k),
        giant_rock_spec().describes(final(registry)@[CardId::GiantRock]),
        stores_lines(final(registry)@, token_table()),
        forall|k: CardId| old(registry)@.contains_key(k) && k != CardId::GiantRock && id_absent(k, token_table())
            ==> #[trigger] final(registry)@[k] == old(registry)@[k],
        fresh_lines(old(registry)@, token_table()) ==> final(registry).spec_keys() == old(registry).spec_keys() + ids_of(token_table())
            + if old(registry)@.contains_key(CardId::GiantRock) { Seq::empty() } else { seq![CardId::GiantRock] },
{
    proof {
        lemma_token_ids();
    }
    let specs = token_card_specs();
    register_specs(registry, &specs);
    let ghost mid = registry@;
    let rock = giant_rock_def();
    registry.register(rock);
    proof {
        lemma_stores_lines_insert(mid, specs@, CardId::GiantRock, rock);
        if fresh_lines(old(registry)@, token_table()) {
            assert(mid.contains_key(CardId::GiantRock) == old(registry)@.contains_key(CardId::GiantRock));
            assert(registry.spec_keys() =~= old(registry).spec_keys() + ids_of(token_table())
                + if old(registry)@.contains_key(CardId::GiantRock) { Seq::empty() } else { seq![CardId::GiantRock] });
        }
    }
}

/// No two lines of the Token catalogue share an id, and none is Giant Rock.
pub proof fn lemma_token_ids()
    ensures
        ids_distinct(token_table()),
        id_absent(CardId::GiantRock, token_table()),
{
}

/// The definitions of the Token catalogue, in order.
pub fn token_card_defs() -> (r: Vec<CardDef>)
    ensures
        r@.len() == token_table().len(),
        forall|i: int| 0 <= i < r@.len() ==> #[trigger] token_table()[i].describes(r@[i]),
{
    let specs = token_card_specs();
    defs_of(&specs)
}

pub open spec fn fuel_effects(ctx: &CardPlayCtx, card: CardInstanceId) -> Seq<Effect> {
    spec_gain_resource(ctx.state, card, ResourceKind::Energy, 1) + spec_draw_cards(ctx.state, card, spec_value(ctx.state, card, 1, 1) as u8)
}

fn fuel_play(ctx: &CardPlayCtx<'_>, card: CardInstanceId, _target: Option<CreatureId>) -> (r: Vec<Effect>)
    ensures
        r@ == fuel_effects(ctx, card),
{
    let effects = gain_energy(ctx, card, 1);
    let count = value(ctx, card, 1, 1) as u8;
    concat(effects, draw_cards(ctx, card, count))
}

pub open spec fn luminesce_effects(ctx: &CardPlayCtx, card: CardInstanceId) -> Seq<Effect> {
    spec_gain_resource(ctx.state, card, ResourceKind::Energy, spec_value(ctx.state, card, 2, 1) as i32)
}

fn luminesce_play(ctx: &CardPlayCtx<'_>, card: CardInstanceId, _target: Option<CreatureId>) -> (r: Vec<Effect>)
    ensures
        r@ == luminesce_effects(ctx, card),
{
    gain_energy(ctx, card, value(ctx, card, 2, 1))
}

/// One attack against the target, for `base` (plus `delta` upgraded); nothing without a target.
pub open spec fn single_attack(ctx: &CardPlayCtx, card: CardInstanceId, target: Option<CreatureId>, base: int, delta: int) -> Seq<Effect> {
    match target {
        Some(t) => attacks(ctx.state, card, t, spec_value(ctx.state, card, base, delta), 1),
        None => Seq::empty(),
    }
}

fn minion_dive_bomb_play(ctx: &CardPlayCtx<'_>, card: CardInstanceId, target: Option<CreatureId>) -> (r: Vec<Effect>)
    ensures
        r@ == single_attack(ctx, card, target, 13, 3),
{
    match target {
        Some(t) => attack_effects(ctx, card, t, value(ctx, card, 13, 3), 1),
        None => Vec::new(),
    }
}

fn minion_sacrifice_play(ctx: &CardPlayCtx<'_>, card: CardInstanceId, _target: Option<CreatureId>) -> (r: Vec<Effect>)
    ensures
        r@ == spec_block_self(ctx.state, card, 9, 3),
{
    block_self(ctx, card, 9, 3)
}

pub open spec fn minion_strike_effects(ctx: &CardPlayCtx, card: CardInstanceId, target: Option<CreatureId>) -> Seq<Effect> {
    single_attack(ctx, card, target, 6, 3) + spec_draw_cards(ctx.state, card, 1)
}

fn minion_strike_play(ctx: &CardPlayCtx<'_>, card: CardInstanceId, target: Option<CreatureId>) -> (r: Vec<Effect>)
    ensures
        r@ == minion_strike_effects(ctx, card, target),
{
    let effects = match target {
        Some(t) => attack_effects(ctx, card, t, value(ctx, card, 6, 3), 1),
        None => Vec::new(),
    };
    concat(effects, draw_cards(ctx, card, 1))
}

fn shiv_play(ctx: &CardPlayCtx<'_>, card: CardInstanceId, target: Option<CreatureId>) -> (r: Vec<Effect>)
    ensures
        r@ == single_attack(ctx, card, target, 4, 2),
{
    match target {
        Some(t) => attack_effects(ctx, card, t, value(ctx, card, 4, 2), 1),
        None => Vec::new(),
    }
}

fn soul_play(ctx: &CardPlayCtx<'_>, card: CardInstanceId, _target: Option<CreatureId>) -> (r: Vec<Effect>)
    ensures
        r@ == spec_draw_cards(ctx.state, card, spec_value(ctx.state, card, 2, 1) as u8),
{
    draw_cards(ctx, card, value(ctx, card, 2, 1) as u8)
}

fn sovereign_blade_play(ctx: &CardPlayCtx<'_>, card: CardInstanceId, target: Option<CreatureId>) -> (r: Vec<Effect>)
    ensures
        r@ == single_attack(ctx, card, target, 10, 0),
{
    match target {
        Some(t) => attack_effects(ctx, card, t, 10, 1),
        None => Vec::new(),
    }
}

fn sweeping_gaze_play(ctx: &CardPlayCtx<'_>, card: CardInstanceId, _target: Option<CreatureId>) -> (r: Vec<Effect>)
    ensures
        r@ == seq![spec_random_enemy_attack(ctx.state, card, spec_value(ctx.state, card, 10, 5), 1)],
{
    one(random_enemy_attack(ctx, card, value(ctx, card, 10, 5), 1))
}

/// What the play body of a Token card yields; nothing for another card.
pub open spec fn token_play_effects(ctx: &CardPlayCtx, id: CardId, card: CardInstanceId, target: Option<CreatureId>) -> Seq<Effect> {
    match id {
        CardId::Fuel => fuel_effects(ctx, card),
        CardId::Luminesce => luminesce_effects(ctx, card),
        CardId::MinionDiveBomb => single_attack(ctx, card, target, 13, 3),
        CardId::MinionSacrifice => spec_block_self(ctx.state, card, 9, 3),
        CardId::MinionStrike => minion_strike_effects(ctx, card, target),
        CardId::Shiv => single_attack(ctx, card, target, 4, 2),
        CardId::Soul => spec_draw_cards(ctx.state, card, spec_value(ctx.state, card, 2, 1) as u8),
        CardId::SovereignBlade => single_attack(ctx, card, target, 10, 0),
        CardId::SweepingGaze => seq![spec_random_enemy_attack(ctx.state, card, spec_value(ctx.state, card, 10, 5), 1)],
        _ => Seq::empty(),
    }
}

/// Runs the play body of a Token card; nothing for another card.
pub fn token_play(ctx: &CardPlayCtx<'_>, id: CardId, card: CardInstanceId, target: Option<CreatureId>) -> (r: Vec<Effect>)
    ensures
        r@ == token_play_effects(ctx, id, card, target),
{
    match id {
        CardId::Fuel => fuel_play(ctx, card, target),
        CardId::Luminesce => luminesce_play(ctx, card, target),
        CardId::MinionDiveBomb => minion_dive_bomb_play(ctx, card, target),
        CardId::MinionSacrifice => minion_sacrifice_play(ctx, card, target),
        CardId::MinionStrike => minion_strike_play(ctx, card, target),
        CardId::Shiv => shiv_play(ctx, card, target),
        CardId::Soul => soul_play(ctx, card, target),
        CardId::SovereignBlade => sovereign_blade_play(ctx, card, target),
        CardId::SweepingGaze => sweeping_gaze_play(ctx, card, target),
        _ => Vec::new(),
    }
}

/// Sloth: while in hand, no card may be played once three were played this turn.
pub fn sloth_decide(ctx: &RuleCtx<'_>, listener_card: CardInstanceId, query: &DecisionQuery) -> (r: Decision)
    ensures
        r == third_card_decision(ctx, listener_card, *query),
{
    let in_hand = is_in_hand(ctx.state, listener_card);
    if !in_hand {
        return Decision::Allow;
    }
    match query.kind {
        DecisionQueryKind::ShouldPlay { .. } => {
            let played = cards_played(ctx.state);
            if played >= 3 {
                prevent_by_current_listener(ctx, PreventReason::CannotPlay)
            } else {
                Decision::Allow
            }
        },
        _ => Decision::Allow,
    }
}

} // verus!
