//! The Curse pool: unplayable or near-unplayable cards, a few of which
//! punish the player at the end of the turn or restrict what may be played.
use vstd::prelude::*;

use super::helpers::spec_hand;
use super::{
    CardDecideRule, CardDef, CardEventRule, CardPlay, CardPlayCtx, CardPoolId, CardRarity, CardRules, CardSpec,
    CardType, KeywordList, TagList, TargetType, defs_of, fresh_lines, id_absent, ids_distinct, ids_of, register_specs,
    stores_lines,
};
use crate::amount::Amount;
use crate::effect::{DamageFlags, DamageKind, DamageOp, Effect, Event, Source};
use crate::ids::{CardId, CardInstanceId, CreatureId, FRAIL_POWER, WEAK};
use crate::registry::DefRegistry;
use crate::rules::{Decision, DecisionQuery, DecisionQueryKind, PreventReason, RuleCtx, prevent_by_current_listener};
use crate::state::{CardCost, CardCosts, GameState, PileKind, Side};

verus! {

/// The Curse catalogue, in order.
pub open spec fn curse_table() -> Seq<CardSpec> {
    seq![
        CardSpec {
            id: CardId::AscendersBane,
            loc_key: "card.ASCENDERS_BANE",
            pool: CardPoolId::Curse,
            card_type: CardType::Curse,
            rarity: CardRarity::Curse,
            target: TargetType::Untargeted,
            base_costs: CardCosts { energy: CardCost::Unplayable, stars: CardCost::NoCost },
            upgraded_costs: None,
            keywords: KeywordList::EtherealUnplayableEternal,
            upgraded_keywords: KeywordList::Empty,
            tags: TagList::Empty,
            can_generate_in_combat: false,
            play: CardPlay::NoEffect,
            rules: CardRules { on_event: None, decide: None },
        },
        CardSpec {
            id: CardId::Clumsy,
            loc_key: "card.CLUMSY",
            pool: CardPoolId::Curse,
            card_type: CardType::Curse,
            rarity: CardRarity::Curse,
            target: TargetType::Untargeted,
            base_costs: CardCosts { energy: CardCost::Unplayable, stars: CardCost::NoCost },
            upgraded_costs: None,
            keywords: KeywordList::EtherealUnplayable,
            upgraded_keywords: KeywordList::Empty,
            tags: TagList::Empty,
            can_generate_in_combat: false,
            play: CardPlay::NoEffect,
            rules: CardRules { on_event: None, decide: None },
        },
        CardSpec {
            id: CardId::CurseOfTheBell,
            loc_key: "card.CURSE_OF_THE_BELL",
            pool: CardPoolId::Curse,
            card_type: CardType::Curse,
            rarity: CardRarity::Curse,
            target: TargetType::Untargeted,
            base_costs: CardCosts { energy: CardCost::Unplayable, stars: CardCost::NoCost },
            upgraded_costs: None,
            keywords: KeywordList::UnplayableEternal,
            upgraded_keywords: KeywordList::Empty,
            tags: TagList::Empty,
            can_generate_in_combat: false,
            play: CardPlay::NoEffect,
            rules: CardRules { on_event: None, decide: None },
        },
        CardSpec {
            id: CardId::Debt,
            loc_key: "card.DEBT",
            pool: CardPoolId::Curse,
            card_type: CardType::Curse,
            rarity: CardRarity::Curse,
            target: TargetType::Untargeted,
            base_costs: CardCosts { energy: CardCost::Unplayable, stars: CardCost::NoCost },
            upgraded_costs: None,
            keywords: KeywordList::Unplayable,
            upgraded_keywords: KeywordList::Empty,
            tags: TagList::Empty,
            can_generate_in_combat: false,
            play: CardPlay::NoEffect,
            rules: CardRules { on_event: None, decide: None },
        },
        CardSpec {
            id: CardId::Folly,
            loc_key: "card.FOLLY",
            pool: CardPoolId::Curse,
            card_type: CardType::Curse,
            rarity: CardRarity::Curse,
            target: TargetType::Untargeted,
            base_costs: CardCosts { energy: CardCost::Unplayable, stars: CardCost::NoCost },
            upgraded_costs: None,
            keywords: KeywordList::InnateEtherealUnplayableEternal,
            upgraded_keywords: KeywordList::Empty,
            tags: TagList::Empty,
            can_generate_in_combat: false,
            play: CardPlay::NoEffect,
            rules: CardRules { on_event: None, decide: None },
        },
        CardSpec {
            id: CardId::Greed,
            loc_key: "card.GREED",
            pool: CardPoolId::Curse,
            card_type: CardType::Curse,
            rarity: CardRarity::Curse,
            target: TargetType::Untargeted,
            base_costs: CardCosts { energy: CardCost::Unplayable, stars: CardCost::NoCost },
            upgraded_costs: None,
            keywords: KeywordList::UnplayableEternal,
            upgraded_keywords: KeywordList::Empty,
            tags: TagList::Empty,
            can_generate_in_combat: false,
            play: CardPlay::NoEffect,
            rules: CardRules { on_event: None, decide: None },
        },
        CardSpec {
            id: CardId::Guilty,
            loc_key: "card.GUILTY",
            pool: CardPoolId::Curse,
            card_type: CardType::Curse,
            rarity: CardRarity::Curse,
            target: TargetType::Untargeted,
            base_costs: CardCosts { energy: CardCost::Unplayable, stars: CardCost::NoCost },
            upgraded_costs: None,
            keywords: KeywordList::Unplayable,
            upgraded_keywords: KeywordList::Empty,
            tags: TagList::Empty,
            can_generate_in_combat: false,
            play: CardPlay::NoEffect,
            rules: CardRules { on_event: None, decide: None },
        },
        CardSpec {
            id: CardId::Injury,
            loc_key: "card.INJURY",
            pool: CardPoolId::Curse,
            card_type: CardType::Curse,
            rarity: CardRarity::Curse,
            target: TargetType::Untargeted,
            base_costs: CardCosts { energy: CardCost::Unplayable, stars: CardCost::NoCost },
            upgraded_costs: None,
            keywords: KeywordList::Unplayable,
            upgraded_keywords: KeywordList::Empty,
            tags: TagList::Empty,
            can_generate_in_combat: false,
            play: CardPlay::NoEffect,
            rules: CardRules { on_event: None, decide: None },
        },
        CardSpec {
            id: CardId::PoorSleep,
            loc_key: "card.POOR_SLEEP",
            pool: CardPoolId::Curse,
            card_type: CardType::Curse,
            rarity: CardRarity::Curse,
            target: TargetType::Untargeted,
            base_costs: CardCosts { energy: CardCost::Unplayable, stars: CardCost::NoCost },
            upgraded_costs: None,
            keywords: KeywordList::RetainUnplayable,
            upgraded_keywords: KeywordList::Empty,
            tags: TagList::Empty,
            can_generate_in_combat: false,
            play: CardPlay::NoEffect,
            rules: CardRules { on_event: None, decide: None },
        },
        CardSpec {
            id: CardId::Writhe,
            loc_key: "card.WRITHE",
            pool: CardPoolId::Curse,
            card_type: CardType::Curse,
            rarity: CardRarity::Curse,
            target: TargetType::Untargeted,
            base_costs: CardCosts { energy: CardCost::Unplayable, stars: CardCost::NoCost },
            upgraded_costs: None,
            keywords: KeywordList::InnateUnplayable,
            upgraded_keywords: KeywordList::Empty,
            tags: TagList::Empty,
            can_generate_in_combat: false,
            play: CardPlay::NoEffect,
            rules: CardRules { on_event: None, decide: None },
        },
        CardSpec {
            id: CardId::BadLuck,
            loc_key: "card.BAD_LUCK",
            pool: CardPoolId::Curse,
            card_type: CardType::Curse,
            rarity: CardRarity::Curse,
            target: TargetType::Untargeted,
            base_costs: CardCosts { energy: CardCost::Unplayable, stars: CardCost::NoCost },
            upgraded_costs: None,
            keywords: KeywordList::UnplayableEternal,
            upgraded_keywords: KeywordList::Empty,
            tags: TagList::Empty,
            can_generate_in_combat: false,
            play: CardPlay::NoEffect,
            rules: CardRules { on_event: Some(CardEventRule::BadLuck), decide: None },
        },
        CardSpec {
            id: CardId::Decay,
            loc_key: "card.DECAY",
            pool: CardPoolId::Curse,
            card_type: CardType::Curse,
            rarity: CardRarity::Curse,
            target: TargetType::Untargeted,
            base_costs: CardCosts { energy: CardCost::Unplayable, stars: CardCost::NoCost },
            upgraded_costs: None,
            keywords: KeywordList::Unplayable,
            upgraded_keywords: KeywordList::Empty,
            tags: TagList::Empty,
            can_generate_in_combat: false,
            play: CardPlay::NoEffect,
            rules: CardRules { on_event: Some(CardEventRule::Decay), decide: None },
        },
        CardSpec {
            id: CardId::Doubt,
            loc_key: "card.DOUBT",
            pool: CardPoolId::Curse,
            card_type: CardType::Curse,
            rarity: CardRarity::Curse,
            target: TargetType::Untargeted,
            base_costs: CardCosts { energy: CardCost::Unplayable, stars: CardCost::NoCost },
            upgraded_costs: None,
            keywords: KeywordList::Unplayable,
            upgraded_keywords: KeywordList::Empty,
            tags: TagList::Empty,
            can_generate_in_combat: false,
            play: CardPlay::NoEffect,
            rules: CardRules { on_event: Some(CardEventRule::Doubt), decide: None },
        },
        CardSpec {
            id: CardId::Regret,
            loc_key: "card.REGRET",
            pool: CardPoolId::Curse,
            card_type: CardType::Curse,
            rarity: CardRarity::Curse,
            target: TargetType::Untargeted,
            base_costs: CardCosts { energy: CardCost::Unplayable, stars: CardCost::NoCost },
            upgraded_costs: None,
            keywords: KeywordList::Unplayable,
            upgraded_keywords: KeywordList::Empty,
            tags: TagList::Empty,
            can_generate_in_combat: false,
            play: CardPlay::NoEffect,
            rules: CardRules { on_event: Some(CardEventRule::Regret), decide: None },
        },
        CardSpec {
            id: CardId::Shame,
            loc_key: "card.SHAME",
            pool: CardPoolId::Curse,
            card_type: CardType::Curse,
            rarity: CardRarity::Curse,
            target: TargetType::Untargeted,
            base_costs: CardCosts { energy: CardCost::Unplayable, stars: CardCost::NoCost },
            upgraded_costs: None,
            keywords: KeywordList::Unplayable,
            upgraded_keywords: KeywordList::Empty,
            tags: TagList::Empty,
            can_generate_in_combat: false,
            play: CardPlay::NoEffect,
            rules: CardRules { on_event: Some(CardEventRule::Shame), decide: None },
        },
        CardSpec {
            id: CardId::Normality,
            loc_key: "card.NORMALITY",
            pool: CardPoolId::Curse,
            card_type: CardType::Curse,
            rarity: CardRarity::Curse,
            target: TargetType::Untargeted,
            base_costs: CardCosts { energy: CardCost::Unplayable, stars: CardCost::NoCost },
            upgraded_costs: None,
            keywords: KeywordList::Unplayable,
            upgraded_keywords: KeywordList::Empty,
            tags: TagList::Empty,
            can_generate_in_combat: false,
            play: CardPlay::NoEffect,
            rules: CardRules { on_event: None, decide: Some(CardDecideRule::Normality) },
        },
        CardSpec {
            id: CardId::Enthralled,
            loc_key: "card.ENTHRALLED",
            pool: CardPoolId::Curse,
            card_type: CardType::Curse,
            rarity: CardRarity::Curse,
            target: TargetType::Untargeted,
            base_costs: CardCosts { energy: CardCost::Fixed(2), stars: CardCost::NoCost },
            upgraded_costs: None,
            keywords: KeywordList::Eternal,
            upgraded_keywords: KeywordList::Empty,
            tags: TagList::Empty,
            can_generate_in_combat: false,
            play: CardPlay::Body(CardId::Enthralled),
            rules: CardRules { on_event: None, decide: Some(CardDecideRule::Enthralled) },
        },
        CardSpec {
            id: CardId::SporeMind,
            loc_key: "card.SPORE_MIND",
            pool: CardPoolId::Curse,
            card_type: CardType::Curse,
            rarity: CardRarity::Curse,
            target: TargetType::Untargeted,
            base_costs: CardCosts { energy: CardCost::Fixed(1), stars: CardCost::NoCost },
            upgraded_costs: None,
            keywords: KeywordList::Exhaust,
            upgraded_keywords: KeywordList::Empty,
            tags: TagList::Empty,
            can_generate_in_combat: false,
            play: CardPlay::Body(CardId::SporeMind),
            rules: CardRules { on_event: None, decide: None },
        },
    ]
}

fn curse_card_specs() -> (r: Vec<CardSpec>)
    ensures
        r@ == curse_table(),
{
    vec![
        CardSpec {
            id: CardId::AscendersBane,
            loc_key: "card.ASCENDERS_BANE",
            pool: CardPoolId::Curse,
            card_type: CardType::Curse,
            rarity: CardRarity::Curse,
            target: TargetType::Untargeted,
            base_costs: CardCosts { energy: CardCost::Unplayable, stars: CardCost::NoCost },
            upgraded_costs: None,
            keywords: KeywordList::EtherealUnplayableEternal,
            upgraded_keywords: KeywordList::Empty,
            tags: TagList::Empty,
            can_generate_in_combat: false,
            play: CardPlay::NoEffect,
            rules: CardRules { on_event: None, decide: None },
        },
        CardSpec {
            id: CardId::Clumsy,
            loc_key: "card.CLUMSY",
            pool: CardPoolId::Curse,
            card_type: CardType::Curse,
            rarity: CardRarity::Curse,
            target: TargetType::Untargeted,
            base_costs: CardCosts { energy: CardCost::Unplayable, stars: CardCost::NoCost },
            upgraded_costs: None,
            keywords: KeywordList::EtherealUnplayable,
            upgraded_keywords: KeywordList::Empty,
            tags: TagList::Empty,
            can_generate_in_combat: false,
            play: CardPlay::NoEffect,
            rules: CardRules { on_event: None, decide: None },
        },
        CardSpec {
            id: CardId::CurseOfTheBell,
            loc_key: "card.CURSE_OF_THE_BELL",
            pool: CardPoolId::Curse,
            card_type: CardType::Curse,
            rarity: CardRarity::Curse,
            target: TargetType::Untargeted,
            base_costs: CardCosts { energy: CardCost::Unplayable, stars: CardCost::NoCost },
            upgraded_costs: None,
            keywords: KeywordList::UnplayableEternal,
            upgraded_keywords: KeywordList::Empty,
            tags: TagList::Empty,
            can_generate_in_combat: false,
            play: CardPlay::NoEffect,
            rules: CardRules { on_event: None, decide: None },
        },
        CardSpec {
            id: CardId::Debt,
            loc_key: "card.DEBT",
            pool: CardPoolId::Curse,
            card_type: CardType::Curse,
            rarity: CardRarity::Curse,
            target: TargetType::Untargeted,
            base_costs: CardCosts { energy: CardCost::Unplayable, stars: CardCost::NoCost },
            upgraded_costs: None,
            keywords: KeywordList::Unplayable,
            upgraded_keywords: KeywordList::Empty,
            tags: TagList::Empty,
            can_generate_in_combat: false,
            play: CardPlay::NoEffect,
            rules: CardRules { on_event: None, decide: None },
        },
        CardSpec {
            id: CardId::Folly,
            loc_key: "card.FOLLY",
            pool: CardPoolId::Curse,
            card_type: CardType::Curse,
            rarity: CardRarity::Curse,
            target: TargetType::Untargeted,
            base_costs: CardCosts { energy: CardCost::Unplayable, stars: CardCost::NoCost },
            upgraded_costs: None,
            keywords: KeywordList::InnateEtherealUnplayableEternal,
            upgraded_keywords: KeywordList::Empty,
            tags: TagList::Empty,
            can_generate_in_combat: false,
            play: CardPlay::NoEffect,
            rules: CardRules { on_event: None, decide: None },
        },
        CardSpec {
            id: CardId::Greed,
            loc_key: "card.GREED",
            pool: CardPoolId::Curse,
            card_type: CardType::Curse,
            rarity: CardRarity::Curse,
            target: TargetType::Untargeted,
            base_costs: CardCosts { energy: CardCost::Unplayable, stars: CardCost::NoCost },
            upgraded_costs: None,
            keywords: KeywordList::UnplayableEternal,
            upgraded_keywords: KeywordList::Empty,
            tags: TagList::Empty,
            can_generate_in_combat: false,
            play: CardPlay::NoEffect,
            rules: CardRules { on_event: None, decide: None },
        },
        CardSpec {
            id: CardId::Guilty,
            loc_key: "card.GUILTY",
            pool: CardPoolId::Curse,
            card_type: CardType::Curse,
            rarity: CardRarity::Curse,
            target: TargetType::Untargeted,
            base_costs: CardCosts { energy: CardCost::Unplayable, stars: CardCost::NoCost },
            upgraded_costs: None,
            keywords: KeywordList::Unplayable,
            upgraded_keywords: KeywordList::Empty,
            tags: TagList::Empty,
            can_generate_in_combat: false,
            play: CardPlay::NoEffect,
            rules: CardRules { on_event: None, decide: None },
        },
        CardSpec {
            id: CardId::Injury,
            loc_key: "card.INJURY",
            pool: CardPoolId::Curse,
            card_type: CardType::Curse,
            rarity: CardRarity::Curse,
            target: TargetType::Untargeted,
            base_costs: CardCosts { energy: CardCost::Unplayable, stars: CardCost::NoCost },
            upgraded_costs: None,
            keywords: KeywordList::Unplayable,
            upgraded_keywords: KeywordList::Empty,
            tags: TagList::Empty,
            can_generate_in_combat: false,
            play: CardPlay::NoEffect,
            rules: CardRules { on_event: None, decide: None },
        },
        CardSpec {
            id: CardId::PoorSleep,
            loc_key: "card.POOR_SLEEP",
            pool: CardPoolId::Curse,
            card_type: CardType::Curse,
            rarity: CardRarity::Curse,
            target: TargetType::Untargeted,
            base_costs: CardCosts { energy: CardCost::Unplayable, stars: CardCost::NoCost },
            upgraded_costs: None,
            keywords: KeywordList::RetainUnplayable,
            upgraded_keywords: KeywordList::Empty,
            tags: TagList::Empty,
            can_generate_in_combat: false,
            play: CardPlay::NoEffect,
            rules: CardRules { on_event: None, decide: None },
        },
        CardSpec {
            id: CardId::Writhe,
            loc_key: "card.WRITHE",
            pool: CardPoolId::Curse,
            card_type: CardType::Curse,
            rarity: CardRarity::Curse,
            target: TargetType::Untargeted,
            base_costs: CardCosts { energy: CardCost::Unplayable, stars: CardCost::NoCost },
            upgraded_costs: None,
            keywords: KeywordList::InnateUnplayable,
            upgraded_keywords: KeywordList::Empty,
            tags: TagList::Empty,
            can_generate_in_combat: false,
            play: CardPlay::NoEffect,
            rules: CardRules { on_event: None, decide: None },
        },
        CardSpec {
            id: CardId::BadLuck,
            loc_key: "card.BAD_LUCK",
            pool: CardPoolId::Curse,
            card_type: CardType::Curse,
            rarity: CardRarity::Curse,
            target: TargetType::Untargeted,
            base_costs: CardCosts { energy: CardCost::Unplayable, stars: CardCost::NoCost },
            upgraded_costs: None,
            keywords: KeywordList::UnplayableEternal,
            upgraded_keywords: KeywordList::Empty,
            tags: TagList::Empty,
            can_generate_in_combat: false,
            play: CardPlay::NoEffect,
            rules: CardRules { on_event: Some(CardEventRule::BadLuck), decide: None },
        },
        CardSpec {
            id: CardId::Decay,
            loc_key: "card.DECAY",
            pool: CardPoolId::Curse,
            card_type: CardType::Curse,
            rarity: CardRarity::Curse,
            target: TargetType::Untargeted,
            base_costs: CardCosts { energy: CardCost::Unplayable, stars: CardCost::NoCost },
            upgraded_costs: None,
            keywords: KeywordList::Unplayable,
            upgraded_keywords: KeywordList::Empty,
            tags: TagList::Empty,
            can_generate_in_combat: false,
            play: CardPlay::NoEffect,
            rules: CardRules { on_event: Some(CardEventRule::Decay), decide: None },
        },
        CardSpec {
            id: CardId::Doubt,
            loc_key: "card.DOUBT",
            pool: CardPoolId::Curse,
            card_type: CardType::Curse,
            rarity: CardRarity::Curse,
            target: TargetType::Untargeted,
            base_costs: CardCosts { energy: CardCost::Unplayable, stars: CardCost::NoCost },
            upgraded_costs: None,
            keywords: KeywordList::Unplayable,
            upgraded_keywords: KeywordList::Empty,
            tags: TagList::Empty,
            can_generate_in_combat: false,
            play: CardPlay::NoEffect,
            rules: CardRules { on_event: Some(CardEventRule::Doubt), decide: None },
        },
        CardSpec {
            id: CardId::Regret,
            loc_key: "card.REGRET",
            pool: CardPoolId::Curse,
            card_type: CardType::Curse,
            rarity: CardRarity::Curse,
            target: TargetType::Untargeted,
            base_costs: CardCosts { energy: CardCost::Unplayable, stars: CardCost::NoCost },
            upgraded_costs: None,
            keywords: KeywordList::Unplayable,
            upgraded_keywords: KeywordList::Empty,
            tags: TagList::Empty,
            can_generate_in_combat: false,
            play: CardPlay::NoEffect,
            rules: CardRules { on_event: Some(CardEventRule::Regret), decide: None },
        },
        CardSpec {
            id: CardId::Shame,
            loc_key: "card.SHAME",
            pool: CardPoolId::Curse,
            card_type: CardType::Curse,
            rarity: CardRarity::Curse,
            target: TargetType::Untargeted,
            base_costs: CardCosts { energy: CardCost::Unplayable, stars: CardCost::NoCost },
            upgraded_costs: None,
            keywords: KeywordList::Unplayable,
            upgraded_keywords: KeywordList::Empty,
            tags: TagList::Empty,
            can_generate_in_combat: false,
            play: CardPlay::NoEffect,
            rules: CardRules { on_event: Some(CardEventRule::Shame), decide: None },
        },
        CardSpec {
            id: CardId::Normality,
            loc_key: "card.NORMALITY",
            pool: CardPoolId::Curse,
            card_type: CardType::Curse,
            rarity: CardRarity::Curse,
            target: TargetType::Untargeted,
            base_costs: CardCosts { energy: CardCost::Unplayable, stars: CardCost::NoCost },
            upgraded_costs: None,
            keywords: KeywordList::Unplayable,
            upgraded_keywords: KeywordList::Empty,
            tags: TagList::Empty,
            can_generate_in_combat: false,
            play: CardPlay::NoEffect,
            rules: CardRules { on_event: None, decide: Some(CardDecideRule::Normality) },
        },
        CardSpec {
            id: CardId::Enthralled,
            loc_key: "card.ENTHRALLED",
            pool: CardPoolId::Curse,
            card_type: CardType::Curse,
            rarity: CardRarity::Curse,
            target: TargetType::Untargeted,
            base_costs: CardCosts { energy: CardCost::Fixed(2), stars: CardCost::NoCost },
            upgraded_costs: None,
            keywords: KeywordList::Eternal,
            upgraded_keywords: KeywordList::Empty,
            tags: TagList::Empty,
            can_generate_in_combat: false,
            play: CardPlay::Body(CardId::Enthralled),
            rules: CardRules { on_event: None, decide: Some(CardDecideRule::Enthralled) },
        },
        CardSpec {
            id: CardId::SporeMind,
            loc_key: "card.SPORE_MIND",
            pool: CardPoolId::Curse,
            card_type: CardType::Curse,
            rarity: CardRarity::Curse,
            target: TargetType::Untargeted,
            base_costs: CardCosts { energy: CardCost::Fixed(1), stars: CardCost::NoCost },
            upgraded_costs: None,
            keywords: KeywordList::Exhaust,
            upgraded_keywords: KeywordList::Empty,
            tags: TagList::Empty,
            can_generate_in_combat: false,
            play: CardPlay::Body(CardId::SporeMind),
            rules: CardRules { on_event: None, decide: None },
        },
    ]
}

/// Registers the Curse catalogue.
pub fn register_curse_cards(registry: &mut DefRegistry<CardId, CardDef>)
    ensures
        forall|k: CardId| #[trigger] final(registry)@.contains_key(k) <==> (old(registry)@.contains_key(k)
            || exists|i: int| 0 <= i < curse_table().len() && curse_table()[i].id == k),
        stores_lines(final(registry)@, curse_table()),
        forall|k: CardId| old(registry)@.contains_key(k) && id_absent(k, curse_table()) ==> #[trigger] final(registry)@[k] == old(registry)@[k],
        fresh_lines(old(registry)@, curse_table()) ==> final(registry).spec_keys() == old(registry).spec_keys() + ids_of(curse_table()),
{
    proof {
        lemma_curse_ids();
    }
    let specs = curse_card_specs();
    register_specs(registry, &specs);
}

/// No two lines of the Curse catalogue share an id, and none is Giant Rock.
pub proof fn lemma_curse_ids()
    ensures
        ids_distinct(curse_table()),
        id_absent(CardId::GiantRock, curse_table()),
{
}

/// The definitions of the Curse catalogue, in order.
pub fn curse_card_defs() -> (r: Vec<CardDef>)
    ensures
        r@.len() == curse_table().len(),
        forall|i: int| 0 <= i < r@.len() ==> #[trigger] curse_table()[i].describes(r@[i]),
{
    let specs = curse_card_specs();
    defs_of(&specs)
}

/// Enthralled's play body: paying its cost is the whole punishment.
pub fn enthralled_play(_ctx: &CardPlayCtx<'_>, _card: CardInstanceId, _target: Option<CreatureId>) -> (r: Vec<Effect>)
    ensures
        r@ == Seq::<Effect>::empty(),
{
    Vec::new()
}

/// Spore Mind's play body: the cost and the Exhaust keyword do all the work.
pub fn spore_mind_play(_ctx: &CardPlayCtx<'_>, _card: CardInstanceId, _target: Option<CreatureId>) -> (r: Vec<Effect>)
    ensures
        r@ == Seq::<Effect>::empty(),
{
    Vec::new()
}

/// The card is in its owner's hand.
pub open spec fn spec_in_hand(state: &GameState, card: CardInstanceId) -> bool {
    match state.spec_card(card) {
        Some(c) => c.pile.kind == PileKind::Hand,
        None => false,
    }
}

pub fn is_in_hand(state: &GameState, card: CardInstanceId) -> (r: bool)
    ensures
        r == spec_in_hand(state, card),
{
    match state.card(card) {
        Some(c) => c.pile.kind == PileKind::Hand,
        None => false,
    }
}

/// The event ends the player's turn while the card is in hand.
pub open spec fn spec_turn_ends_in_hand(state: &GameState, card: CardInstanceId, event: Event) -> bool {
    event == (Event::TurnEnded { side: Side::Player }) && spec_in_hand(state, card)
}

fn end_of_player_turn_in_hand(ctx: &RuleCtx<'_>, card: CardInstanceId, event: &Event) -> (r: bool)
    ensures
        r == spec_turn_ends_in_hand(ctx.state, card, *event),
{
    match event {
        Event::TurnEnded { side: Side::Player } => is_in_hand(ctx.state, card),
        _ => false,
    }
}

/// One effect on the player's creature when the player's turn ends with the
/// curse in hand; nothing otherwise.
pub open spec fn turn_end_effect(state: &GameState, card: CardInstanceId, event: Event, make: spec_fn(CreatureId) -> Effect) -> Seq<Effect> {
    if spec_turn_ends_in_hand(state, card, event) {
        match state.spec_player_creature_id() {
            Some(t) => seq![make(t)],
            None => Seq::empty(),
        }
    } else {
        Seq::empty()
    }
}

pub open spec fn bad_luck_effects(state: &GameState, card: CardInstanceId, event: Event) -> Seq<Effect> {
    turn_end_effect(state, card, event, |t: CreatureId| Effect::LoseHp { target: t, amount: Amount::whole(13), source: Some(Source::Card(card)) })
}

fn bad_luck_on_event(ctx: &RuleCtx<'_>, card: CardInstanceId, event: &Event) -> (r: Vec<Effect>)
    ensures
        r@ == bad_luck_effects(ctx.state, card, *event),
{
    let mut out: Vec<Effect> = Vec::new();
    if end_of_player_turn_in_hand(ctx, card, event) {
        if let Some(target) = ctx.state.player_creature_id() {
            out.push(Effect::LoseHp { target, amount: Amount::from_i32(13), source: Some(Source::Card(card)) });
        }
    }
    out
}

/// Decay's damage: life loss from no dealer, through block.
pub open spec fn decay_damage(card: CardInstanceId, t: CreatureId) -> Effect {
    Effect::DealDamage(
        DamageOp {
            source: Some(Source::Card(card)),
            dealer: None,
            target: t,
            base_amount: Amount::whole(2),
            kind: DamageKind::LifeLoss,
            flags: DamageFlags { ignores_block: true },
        },
    )
}

pub open spec fn decay_effects(state: &GameState, card: CardInstanceId, event: Event) -> Seq<Effect> {
    turn_end_effect(state, card, event, |t: CreatureId| decay_damage(card, t))
}

fn decay_on_event(ctx: &RuleCtx<'_>, card: CardInstanceId, event: &Event) -> (r: Vec<Effect>)
    ensures
        r@ == decay_effects(ctx.state, card, *event),
{
    let mut out: Vec<Effect> = Vec::new();
    if end_of_player_turn_in_hand(ctx, card, event) {
        if let Some(target) = ctx.state.player_creature_id() {
            out.push(
                Effect::DealDamage(
                    DamageOp {
                        source: Some(Source::Card(card)),
                        dealer: None,
                        target,
                        base_amount: Amount::from_i32(2),
                        kind: DamageKind::LifeLoss,
                        flags: DamageFlags { ignores_block: true },
                    },
                ),
            );
        }
    }
    out
}

pub open spec fn doubt_effects(state: &GameState, card: CardInstanceId, event: Event) -> Seq<Effect> {
    turn_end_effect(state, card, event, |t: CreatureId| Effect::ApplyPower { target: t, power: WEAK, amount: Amount::whole(1), source: Some(Source::Card(card)) })
}

fn doubt_on_event(ctx: &RuleCtx<'_>, card: CardInstanceId, event: &Event) -> (r: Vec<Effect>)
    ensures
        r@ == doubt_effects(ctx.state, card, *event),
{
    let mut out: Vec<Effect> = Vec::new();
    if end_of_player_turn_in_hand(ctx, card, event) {
        if let Some(target) = ctx.state.player_creature_id() {
            out.push(Effect::ApplyPower { target, power: WEAK, amount: Amount::from_i32(1), source: Some(Source::Card(card)) });
        }
    }
    out
}

pub open spec fn shame_effects(state: &GameState, card: CardInstanceId, event: Event) -> Seq<Effect> {
    turn_end_effect(state, card, event, |t: CreatureId| Effect::ApplyPower { target: t, power: FRAIL_POWER, amount: Amount::whole(1), source: Some(Source::Card(card)) })
}

fn shame_on_event(ctx: &RuleCtx<'_>, card: CardInstanceId, event: &Event) -> (r: Vec<Effect>)
    ensures
        r@ == shame_effects(ctx.state, card, *event),
{
    let mut out: Vec<Effect> = Vec::new();
    if end_of_player_turn_in_hand(ctx, card, event) {
        if let Some(target) = ctx.state.player_creature_id() {
            out.push(Effect::ApplyPower { target, power: FRAIL_POWER, amount: Amount::from_i32(1), source: Some(Source::Card(card)) });
        }
    }
    out
}

/// The size of the player's hand, as Regret counts it.
pub open spec fn regret_loss(state: &GameState) -> int {
    let size = spec_hand(state).len() as i32;
    if size > 0 { size as int } else { 0 }
}

pub open spec fn regret_effects(state: &GameState, card: CardInstanceId, event: Event) -> Seq<Effect> {
    turn_end_effect(state, card, event, |t: CreatureId| Effect::LoseHp { target: t, amount: Amount::whole(regret_loss(state)), source: Some(Source::Card(card)) })
}

fn regret_on_event(ctx: &RuleCtx<'_>, card: CardInstanceId, event: &Event) -> (r: Vec<Effect>)
    ensures
        r@ == regret_effects(ctx.state, card, *event),
{
    let mut out: Vec<Effect> = Vec::new();
    if end_of_player_turn_in_hand(ctx, card, event) {
        if let Some(target) = ctx.state.player_creature_id() {
            let size: i32 = match ctx.state.combat() {
                Some(c) => c.player.piles.hand.len() as i32,
                None => 0,
            };
            let size: i32 = if size > 0 { size } else { 0 };
            out.push(Effect::LoseHp { target, amount: Amount::from_i32(size), source: Some(Source::Card(card)) });
        }
    }
    out
}

/// What a curse's turn-end rule yields.
pub open spec fn curse_event_effects(state: &GameState, rule: CardEventRule, card: CardInstanceId, event: Event) -> Seq<Effect> {
    match rule {
        CardEventRule::BadLuck => bad_luck_effects(state, card, event),
        CardEventRule::Decay => decay_effects(state, card, event),
        CardEventRule::Doubt => doubt_effects(state, card, event),
        CardEventRule::Regret => regret_effects(state, card, event),
        CardEventRule::Shame => shame_effects(state, card, event),
    }
}

/// Runs a curse's turn-end rule.
pub fn curse_on_event(ctx: &RuleCtx<'_>, rule: CardEventRule, card: CardInstanceId, event: &Event) -> (r: Vec<Effect>)
    ensures
        r@ == curse_event_effects(ctx.state, rule, card, *event),
{
    match rule {
        CardEventRule::BadLuck => bad_luck_on_event(ctx, card, event),
        CardEventRule::Decay => decay_on_event(ctx, card, event),
        CardEventRule::Doubt => doubt_on_event(ctx, card, event),
        CardEventRule::Regret => regret_on_event(ctx, card, event),
        CardEventRule::Shame => shame_on_event(ctx, card, event),
    }
}

/// The cards the player has played this turn; 0 outside a combat.
pub open spec fn spec_cards_played(state: &GameState) -> u32 {
    match state.combat {
        Some(c) => c.turn_stats.cards_played,
        None => 0,
    }
}

pub fn cards_played(state: &GameState) -> (r: u32)
    ensures
        r == spec_cards_played(state),
{
    match state.combat() {
        Some(c) => c.turn_stats.cards_played,
        None => 0,
    }
}

/// A card in hand refuses every play once three cards were played this turn.
pub open spec fn third_card_decision(ctx: &RuleCtx, listener_card: CardInstanceId, query: DecisionQuery) -> Decision {
    if spec_in_hand(ctx.state, listener_card) && query.kind is ShouldPlay && spec_cards_played(ctx.state) >= 3 {
        Decision::Prevent { by: ctx.listener, reason: PreventReason::CannotPlay }
    } else {
        Decision::Allow
    }
}

/// Normality: while in hand, no card may be played once three were played this turn.
pub fn normality_decide(ctx: &RuleCtx<'_>, listener_card: CardInstanceId, query: &DecisionQuery) -> (r: Decision)
    ensures
        r == third_card_decision(ctx, listener_card, *query),
{
    if !is_in_hand(ctx.state, listener_card) {
        return Decision::Allow;
    }
    match query.kind {
        DecisionQueryKind::ShouldPlay { .. } => {
            if cards_played(ctx.state) >= 3 {
                prevent_by_current_listener(ctx, PreventReason::CannotPlay)
            } else {
                Decision::Allow
            }
        },
        _ => Decision::Allow,
    }
}

/// While in hand, Enthralled must be played before any other card.
pub open spec fn enthralled_decision(ctx: &RuleCtx, listener_card: CardInstanceId, query: DecisionQuery) -> Decision {
    match query.kind {
        DecisionQueryKind::ShouldPlay { card, .. } => if spec_in_hand(ctx.state, listener_card) && card != listener_card {
            Decision::Prevent { by: ctx.listener, reason: PreventReason::Enthralled }
        } else {
            Decision::Allow
        },
        _ => Decision::Allow,
    }
}

pub fn enthralled_decide(ctx: &RuleCtx<'_>, listener_card: CardInstanceId, query: &DecisionQuery) -> (r: Decision)
    ensures
        r == enthralled_decision(ctx, listener_card, *query),
{
    if !is_in_hand(ctx.state, listener_card) {
        return Decision::Allow;
    }
    match query.kind {
        DecisionQueryKind::ShouldPlay { card, .. } => {
            if card == listener_card {
                Decision::Allow
            } else {
                prevent_by_current_listener(ctx, PreventReason::Enthralled)
            }
        },
        _ => Decision::Allow,
    }
}

} // verus!
