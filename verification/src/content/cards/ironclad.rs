//! The Ironclad pool: its catalogue and the cards' play bodies.
use vstd::prelude::*;

use super::helpers::{
    spec_is_upgraded, spec_value, attack_op, attacks, spec_strike_like, spec_all_enemy_attack, spec_random_enemy_attack, spec_block_self, spec_lose_self_hp, spec_draw_cards, spec_gain_resource, spec_apply_power, spec_apply_self_power, spec_card_is_type, spec_card_matches_filter, spec_hand, spec_has_tag, spec_tagged_cards, is_upgraded, value, attack_effects, strike_like, all_enemy_attack, random_enemy_attack, block_self, lose_self_hp, draw_cards, gain_resource, gain_energy, apply_self_power, apply_power, card_is_type, card_matches_filter, hand_matching, hand_matching_type, count_hand_type, count_all_tag, spec_exhaust, spec_discard, spec_player_block, spec_turn_stats, spec_combat_stats, hand_len, exhaust_len, discard_top, player_block, turn_stats, combat_stats, concat, push, one,
};
use super::{
    CardDef, CardPlay, CardPlayCtx, CardPoolId, CardRarity, CardRules, CardSpec, CardTag, CardType,
    KeywordList, TagList, TargetType, defs_of, fresh_lines, id_absent, ids_distinct, ids_of, lemma_stores_lines_insert, register_specs, stores_lines,
};
use crate::amount::Amount;
use crate::effect::{CardFilter, Effect, MoveReason, Source, UpgradeMode};
use crate::ids::{
    CardId, CardInstanceId, CreatureId, AGGRESSION_POWER, ANGER, BARRICADE_POWER, COLOSSUS_POWER,
    CORRUPTION_POWER, CRIMSON_MANTLE_POWER, CRUELTY_POWER, DARK_EMBRACE_POWER, DEFEND_IRONCLAD,
    DEMON_FORM_POWER, DRUM_OF_BATTLE_POWER, FEEL_NO_PAIN_POWER, FLAME_BARRIER_POWER, FREE_ATTACK_POWER,
    GIANT_ROCK, HELLRAISER_POWER, INFERNO_POWER, JUGGERNAUT_POWER, JUGGLING_POWER, MANGLE_POWER,
    NO_DRAW_POWER, NO_ENERGY_GAIN_POWER, ONE_TWO_PUNCH_POWER, PLATING_POWER, PYRE_POWER, RAGE_POWER,
    RUPTURE_POWER, SETUP_STRIKE_POWER, STAMPEDE_POWER, STRENGTH, STRIKE_IRONCLAD, TANK_POWER,
    UNMOVABLE_POWER, VICIOUS_POWER, VULNERABLE, WEAK,
};
use crate::registry::DefRegistry;
use crate::ids::{PlayerId, PowerId};
use crate::state::{fits_i32, CardCost, CardCosts, CardState, PileId, PileKind, ResourceKind};

verus! {

/// The Ironclad catalogue, in order.
pub open spec fn ironclad_table() -> Seq<CardSpec> {
    seq![
        CardSpec {
            id: CardId::Aggression,
            loc_key: "card.AGGRESSION",
            pool: CardPoolId::Ironclad,
            card_type: CardType::Power,
            rarity: CardRarity::Rare,
            target: TargetType::SelfTarget,
            base_costs: CardCosts { energy: CardCost::Fixed(1), stars: CardCost::NoCost },
            upgraded_costs: None,
            keywords: KeywordList::Empty,
            upgraded_keywords: KeywordList::Innate,
            tags: TagList::Empty,
            can_generate_in_combat: true,
            play: CardPlay::Body(CardId::Aggression),
            rules: CardRules { on_event: None, decide: None },
        },
        CardSpec {
            id: CardId::Anger,
            loc_key: "card.ANGER",
            pool: CardPoolId::Ironclad,
            card_type: CardType::Attack,
            rarity: CardRarity::Common,
            target: TargetType::Enemy,
            base_costs: CardCosts { energy: CardCost::Fixed(0), stars: CardCost::NoCost },
            upgraded_costs: None,
            keywords: KeywordList::Empty,
            upgraded_keywords: KeywordList::Empty,
            tags: TagList::Empty,
            can_generate_in_combat: true,
            play: CardPlay::Body(CardId::Anger),
            rules: CardRules { on_event: None, decide: None },
        },
        CardSpec {
            id: CardId::Armaments,
            loc_key: "card.ARMAMENTS",
            pool: CardPoolId::Ironclad,
            card_type: CardType::Skill,
            rarity: CardRarity::Common,
            target: TargetType::SelfTarget,
            base_costs: CardCosts { energy: CardCost::Fixed(1), stars: CardCost::NoCost },
            upgraded_costs: None,
            keywords: KeywordList::Empty,
            upgraded_keywords: KeywordList::Empty,
            tags: TagList::Empty,
            can_generate_in_combat: true,
            play: CardPlay::Body(CardId::Armaments),
            rules: CardRules { on_event: None, decide: None },
        },
        CardSpec {
            id: CardId::AshenStrike,
            loc_key: "card.ASHEN_STRIKE",
            pool: CardPoolId::Ironclad,
            card_type: CardType::Attack,
            rarity: CardRarity::Uncommon,
            target: TargetType::Enemy,
            base_costs: CardCosts { energy: CardCost::Fixed(1), stars: CardCost::NoCost },
            upgraded_costs: None,
            keywords: KeywordList::Empty,
            upgraded_keywords: KeywordList::Empty,
            tags: TagList::Strike,
            can_generate_in_combat: true,
            play: CardPlay::Body(CardId::AshenStrike),
            rules: CardRules { on_event: None, decide: None },
        },
        CardSpec {
            id: CardId::Barricade,
            loc_key: "card.BARRICADE",
            pool: CardPoolId::Ironclad,
            card_type: CardType::Power,
            rarity: CardRarity::Rare,
            target: TargetType::SelfTarget,
            base_costs: CardCosts { energy: CardCost::Fixed(3), stars: CardCost::NoCost },
            upgraded_costs: Some(CardCosts { energy: CardCost::Fixed(2), stars: CardCost::NoCost }),
            keywords: KeywordList::Empty,
            upgraded_keywords: KeywordList::Empty,
            tags: TagList::Empty,
            can_generate_in_combat: true,
            play: CardPlay::Body(CardId::Barricade),
            rules: CardRules { on_event: None, decide: None },
        },
        CardSpec {
            id: CardId::Bash,
            loc_key: "card.BASH",
            pool: CardPoolId::Ironclad,
            card_type: CardType::Attack,
            rarity: CardRarity::Basic,
            target: TargetType::Enemy,
            base_costs: CardCosts { energy: CardCost::Fixed(2), stars: CardCost::NoCost },
            upgraded_costs: None,
            keywords: KeywordList::Empty,
            upgraded_keywords: KeywordList::Empty,
            tags: TagList::Empty,
            can_generate_in_combat: true,
            play: CardPlay::Body(CardId::Bash),
            rules: CardRules { on_event: None, decide: None },
        },
        CardSpec {
            id: CardId::BattleTrance,
            loc_key: "card.BATTLE_TRANCE",
            pool: CardPoolId::Ironclad,
            card_type: CardType::Skill,
            rarity: CardRarity::Uncommon,
            target: TargetType::SelfTarget,
            base_costs: CardCosts { energy: CardCost::Fixed(0), stars: CardCost::NoCost },
            upgraded_costs: None,
            keywords: KeywordList::Empty,
            upgraded_keywords: KeywordList::Empty,
            tags: TagList::Empty,
            can_generate_in_combat: true,
            play: CardPlay::Body(CardId::BattleTrance),
            rules: CardRules { on_event: None, decide: None },
        },
        CardSpec {
            id: CardId::BloodWall,
            loc_key: "card.BLOOD_WALL",
            pool: CardPoolId::Ironclad,
            card_type: CardType::Skill,
            rarity: CardRarity::Common,
            target: TargetType::SelfTarget,
            base_costs: CardCosts { energy: CardCost::Fixed(2), stars: CardCost::NoCost },
            upgraded_costs: None,
            keywords: KeywordList::Empty,
            upgraded_keywords: KeywordList::Empty,
            tags: TagList::Empty,
            can_generate_in_combat: true,
            play: CardPlay::Body(CardId::BloodWall),
            rules: CardRules { on_event: None, decide: None },
        },
        CardSpec {
            id: CardId::Bloodletting,
            loc_key: "card.BLOODLETTING",
            pool: CardPoolId::Ironclad,
            card_type: CardType::Skill,
            rarity: CardRarity::Common,
            target: TargetType::SelfTarget,
            base_costs: CardCosts { energy: CardCost::Fixed(0), stars: CardCost::NoCost },
            upgraded_costs: None,
            keywords: KeywordList::Empty,
            upgraded_keywords: KeywordList::Empty,
            tags: TagList::Empty,
            can_generate_in_combat: true,
            play: CardPlay::Body(CardId::Bloodletting),
            rules: CardRules { on_event: None, decide: None },
        },
        CardSpec {
            id: CardId::Bludgeon,
            loc_key: "card.BLUDGEON",
            pool: CardPoolId::Ironclad,
            card_type: CardType::Attack,
            rarity: CardRarity::Uncommon,
            target: TargetType::Enemy,
            base_costs: CardCosts { energy: CardCost::Fixed(3), stars: CardCost::NoCost },
            upgraded_costs: None,
            keywords: KeywordList::Empty,
            upgraded_keywords: KeywordList::Empty,
            tags: TagList::Empty,
            can_generate_in_combat: true,
            play: CardPlay::Body(CardId::Bludgeon),
            rules: CardRules { on_event: None, decide: None },
        },
        CardSpec {
            id: CardId::BodySlam,
            loc_key: "card.BODY_SLAM",
            pool: CardPoolId::Ironclad,
            card_type: CardType::Attack,
            rarity: CardRarity::Common,
            target: TargetType::Enemy,
            base_costs: CardCosts { energy: CardCost::Fixed(1), stars: CardCost::NoCost },
            upgraded_costs: Some(CardCosts { energy: CardCost::Fixed(0), stars: CardCost::NoCost }),
            keywords: KeywordList::Empty,
            upgraded_keywords: KeywordList::Empty,
            tags: TagList::Empty,
            can_generate_in_combat: true,
            play: CardPlay::Body(CardId::BodySlam),
            rules: CardRules { on_event: None, decide: None },
        },
        CardSpec {
            id: CardId::Brand,
            loc_key: "card.BRAND",
            pool: CardPoolId::Ironclad,
            card_type: CardType::Skill,
            rarity: CardRarity::Rare,
            target: TargetType::SelfTarget,
            base_costs: CardCosts { energy: CardCost::Fixed(0), stars: CardCost::NoCost },
            upgraded_costs: None,
            keywords: KeywordList::Exhaust,
            upgraded_keywords: KeywordList::Empty,
            tags: TagList::Empty,
            can_generate_in_combat: true,
            play: CardPlay::Body(CardId::Brand),
            rules: CardRules { on_event: None, decide: None },
        },
        CardSpec {
            id: CardId::Break,
            loc_key: "card.BREAK",
            pool: CardPoolId::Ironclad,
            card_type: CardType::Attack,
            rarity: CardRarity::Ancient,
            target: TargetType::Enemy,
            base_costs: CardCosts { energy: CardCost::Fixed(1), stars: CardCost::NoCost },
            upgraded_costs: None,
            keywords: KeywordList::Empty,
            upgraded_keywords: KeywordList::Empty,
            tags: TagList::Empty,
            can_generate_in_combat: true,
            play: CardPlay::Body(CardId::Break),
            rules: CardRules { on_event: None, decide: None },
        },
        CardSpec {
            id: CardId::Breakthrough,
            loc_key: "card.BREAKTHROUGH",
            pool: CardPoolId::Ironclad,
            card_type: CardType::Attack,
            rarity: CardRarity::Common,
            target: TargetType::AllEnemies,
            base_costs: CardCosts { energy: CardCost::Fixed(1), stars: CardCost::NoCost },
            upgraded_costs: None,
            keywords: KeywordList::Empty,
            upgraded_keywords: KeywordList::Empty,
            tags: TagList::Empty,
            can_generate_in_combat: true,
            play: CardPlay::Body(CardId::Breakthrough),
            rules: CardRules { on_event: None, decide: None },
        },
        CardSpec {
            id: CardId::Bully,
            loc_key: "card.BULLY",
            pool: CardPoolId::Ironclad,
            card_type: CardType::Attack,
            rarity: CardRarity::Uncommon,
            target: TargetType::Enemy,
            base_costs: CardCosts { energy: CardCost::Fixed(0), stars: CardCost::NoCost },
            upgraded_costs: None,
            keywords: KeywordList::Empty,
            upgraded_keywords: KeywordList::Empty,
            tags: TagList::Empty,
            can_generate_in_combat: true,
            play: CardPlay::Body(CardId::Bully),
            rules: CardRules { on_event: None, decide: None },
        },
        CardSpec {
            id: CardId::BurningPact,
            loc_key: "card.BURNING_PACT",
            pool: CardPoolId::Ironclad,
            card_type: CardType::Skill,
            rarity: CardRarity::Uncommon,
            target: TargetType::SelfTarget,
            base_costs: CardCosts { energy: CardCost::Fixed(1), stars: CardCost::NoCost },
            upgraded_costs: None,
            keywords: KeywordList::Exhaust,
            upgraded_keywords: KeywordList::Empty,
            tags: TagList::Empty,
            can_generate_in_combat: true,
            play: CardPlay::Body(CardId::BurningPact),
            rules: CardRules { on_event: None, decide: None },
        },
        CardSpec {
            id: CardId::Cascade,
            loc_key: "card.CASCADE",
            pool: CardPoolId::Ironclad,
            card_type: CardType::Skill,
            rarity: CardRarity::Rare,
            target: TargetType::SelfTarget,
            base_costs: CardCosts { energy: CardCost::X, stars: CardCost::NoCost },
            upgraded_costs: None,
            keywords: KeywordList::Empty,
            upgraded_keywords: KeywordList::Empty,
            tags: TagList::Empty,
            can_generate_in_combat: true,
            play: CardPlay::Body(CardId::Cascade),
            rules: CardRules { on_event: None, decide: None },
        },
        CardSpec {
            id: CardId::Cinder,
            loc_key: "card.CINDER",
            pool: CardPoolId::Ironclad,
            card_type: CardType::Attack,
            rarity: CardRarity::Common,
            target: TargetType::Enemy,
            base_costs: CardCosts { energy: CardCost::Fixed(2), stars: CardCost::NoCost },
            upgraded_costs: None,
            keywords: KeywordList::Exhaust,
            upgraded_keywords: KeywordList::Empty,
            tags: TagList::Empty,
            can_generate_in_combat: true,
            play: CardPlay::Body(CardId::Cinder),
            rules: CardRules { on_event: None, decide: None },
        },
        CardSpec {
            id: CardId::Colossus,
            loc_key: "card.COLOSSUS",
            pool: CardPoolId::Ironclad,
            card_type: CardType::Skill,
            rarity: CardRarity::Uncommon,
            target: TargetType::SelfTarget,
            base_costs: CardCosts { energy: CardCost::Fixed(1), stars: CardCost::NoCost },
            upgraded_costs: None,
            keywords: KeywordList::Empty,
            upgraded_keywords: KeywordList::Empty,
            tags: TagList::Empty,
            can_generate_in_combat: true,
            play: CardPlay::Body(CardId::Colossus),
            rules: CardRules { on_event: None, decide: None },
        },
        CardSpec {
            id: CardId::Conflagration,
            loc_key: "card.CONFLAGRATION",
            pool: CardPoolId::Ironclad,
            card_type: CardType::Attack,
            rarity: CardRarity::Rare,
            target: TargetType::AllEnemies,
            base_costs: CardCosts { energy: CardCost::Fixed(1), stars: CardCost::NoCost },
            upgraded_costs: None,
            keywords: KeywordList::Empty,
            upgraded_keywords: KeywordList::Empty,
            tags: TagList::Empty,
            can_generate_in_combat: true,
            play: CardPlay::Body(CardId::Conflagration),
            rules: CardRules { on_event: None, decide: None },
        },
        CardSpec {
            id: CardId::Corruption,
            loc_key: "card.CORRUPTION",
            pool: CardPoolId::Ironclad,
            card_type: CardType::Power,
            rarity: CardRarity::Ancient,
            target: TargetType::SelfTarget,
            base_costs: CardCosts { energy: CardCost::Fixed(3), stars: CardCost::NoCost },
            upgraded_costs: Some(CardCosts { energy: CardCost::Fixed(2), stars: CardCost::NoCost }),
            keywords: KeywordList::Exhaust,
            upgraded_keywords: KeywordList::Empty,
            tags: TagList::Empty,
            can_generate_in_combat: true,
            play: CardPlay::Body(CardId::Corruption),
            rules: CardRules { on_event: None, decide: None },
        },
        CardSpec {
            id: CardId::CrimsonMantle,
            loc_key: "card.CRIMSON_MANTLE",
            pool: CardPoolId::Ironclad,
            card_type: CardType::Power,
            rarity: CardRarity::Rare,
            target: TargetType::SelfTarget,
            base_costs: CardCosts { energy: CardCost::Fixed(1), stars: CardCost::NoCost },
            upgraded_costs: None,
            keywords: KeywordList::Empty,
            upgraded_keywords: KeywordList::Empty,
            tags: TagList::Empty,
            can_generate_in_combat: true,
            play: CardPlay::Body(CardId::CrimsonMantle),
            rules: CardRules { on_event: None, decide: None },
        },
        CardSpec {
            id: CardId::Cruelty,
            loc_key: "card.CRUELTY",
            pool: CardPoolId::Ironclad,
            card_type: CardType::Power,
            rarity: CardRarity::Rare,
            target: TargetType::SelfTarget,
            base_costs: CardCosts { energy: CardCost::Fixed(1), stars: CardCost::NoCost },
            upgraded_costs: None,
            keywords: KeywordList::Empty,
            upgraded_keywords: KeywordList::Empty,
            tags: TagList::Empty,
            can_generate_in_combat: true,
            play: CardPlay::Body(CardId::Cruelty),
            rules: CardRules { on_event: None, decide: None },
        },
        CardSpec {
            id: CardId::DarkEmbrace,
            loc_key: "card.DARK_EMBRACE",
            pool: CardPoolId::Ironclad,
            card_type: CardType::Power,
            rarity: CardRarity::Rare,
            target: TargetType::SelfTarget,
            base_costs: CardCosts { energy: CardCost::Fixed(2), stars: CardCost::NoCost },
            upgraded_costs: Some(CardCosts { energy: CardCost::Fixed(1), stars: CardCost::NoCost }),
            keywords: KeywordList::Exhaust,
            upgraded_keywords: KeywordList::Empty,
            tags: TagList::Empty,
            can_generate_in_combat: true,
            play: CardPlay::Body(CardId::DarkEmbrace),
            rules: CardRules { on_event: None, decide: None },
        },
        CardSpec {
            id: CardId::DefendIronclad,
            loc_key: "card.DEFEND_IRONCLAD",
            pool: CardPoolId::Ironclad,
            card_type: CardType::Skill,
            rarity: CardRarity::Basic,
            target: TargetType::SelfTarget,
            base_costs: CardCosts { energy: CardCost::Fixed(1), stars: CardCost::NoCost },
            upgraded_costs: None,
            keywords: KeywordList::Empty,
            upgraded_keywords: KeywordList::Empty,
            tags: TagList::Defend,
            can_generate_in_combat: true,
            play: CardPlay::Body(CardId::DefendIronclad),
            rules: CardRules { on_event: None, decide: None },
        },
        CardSpec {
            id: CardId::DemonForm,
            loc_key: "card.DEMON_FORM",
            pool: CardPoolId::Ironclad,
            card_type: CardType::Power,
            rarity: CardRarity::Rare,
            target: TargetType::SelfTarget,
            base_costs: CardCosts { energy: CardCost::Fixed(3), stars: CardCost::NoCost },
            upgraded_costs: None,
            keywords: KeywordList::Empty,
            upgraded_keywords: KeywordList::Empty,
            tags: TagList::Empty,
            can_generate_in_combat: true,
            play: CardPlay::Body(CardId::DemonForm),
            rules: CardRules { on_event: None, decide: None },
        },
        CardSpec {
            id: CardId::DemonicShield,
            loc_key: "card.DEMONIC_SHIELD",
            pool: CardPoolId::Ironclad,
            card_type: CardType::Skill,
            rarity: CardRarity::Uncommon,
            target: TargetType::AnyAlly,
            base_costs: CardCosts { energy: CardCost::Fixed(0), stars: CardCost::NoCost },
            upgraded_costs: None,
            keywords: KeywordList::Exhaust,
            upgraded_keywords: KeywordList::Empty,
            tags: TagList::Empty,
            can_generate_in_combat: true,
            play: CardPlay::Body(CardId::DemonicShield),
            rules: CardRules { on_event: None, decide: None },
        },
        CardSpec {
            id: CardId::Dismantle,
            loc_key: "card.DISMANTLE",
            pool: CardPoolId::Ironclad,
            card_type: CardType::Attack,
            rarity: CardRarity::Uncommon,
            target: TargetType::Enemy,
            base_costs: CardCosts { energy: CardCost::Fixed(1), stars: CardCost::NoCost },
            upgraded_costs: None,
            keywords: KeywordList::Empty,
            upgraded_keywords: KeywordList::Empty,
            tags: TagList::Empty,
            can_generate_in_combat: true,
            play: CardPlay::Body(CardId::Dismantle),
            rules: CardRules { on_event: None, decide: None },
        },
        CardSpec {
            id: CardId::Dominate,
            loc_key: "card.DOMINATE",
            pool: CardPoolId::Ironclad,
            card_type: CardType::Skill,
            rarity: CardRarity::Uncommon,
            target: TargetType::Enemy,
            base_costs: CardCosts { energy: CardCost::Fixed(1), stars: CardCost::NoCost },
            upgraded_costs: None,
            keywords: KeywordList::Exhaust,
            upgraded_keywords: KeywordList::Empty,
            tags: TagList::Empty,
            can_generate_in_combat: true,
            play: CardPlay::Body(CardId::Dominate),
            rules: CardRules { on_event: None, decide: None },
        },
        CardSpec {
            id: CardId::DrumOfBattle,
            loc_key: "card.DRUM_OF_BATTLE",
            pool: CardPoolId::Ironclad,
            card_type: CardType::Power,
            rarity: CardRarity::Uncommon,
            target: TargetType::SelfTarget,
            base_costs: CardCosts { energy: CardCost::Fixed(0), stars: CardCost::NoCost },
            upgraded_costs: None,
            keywords: KeywordList::Exhaust,
            upgraded_keywords: KeywordList::Empty,
            tags: TagList::Empty,
            can_generate_in_combat: true,
            play: CardPlay::Body(CardId::DrumOfBattle),
            rules: CardRules { on_event: None, decide: None },
        },
        CardSpec {
            id: CardId::EvilEye,
            loc_key: "card.EVIL_EYE",
            pool: CardPoolId::Ironclad,
            card_type: CardType::Skill,
            rarity: CardRarity::Uncommon,
            target: TargetType::SelfTarget,
            base_costs: CardCosts { energy: CardCost::Fixed(1), stars: CardCost::NoCost },
            upgraded_costs: None,
            keywords: KeywordList::Exhaust,
            upgraded_keywords: KeywordList::Empty,
            tags: TagList::Empty,
            can_generate_in_combat: true,
            play: CardPlay::Body(CardId::EvilEye),
            rules: CardRules { on_event: None, decide: None },
        },
        CardSpec {
            id: CardId::ExpectAFight,
            loc_key: "card.EXPECT_A_FIGHT",
            pool: CardPoolId::Ironclad,
            card_type: CardType::Skill,
            rarity: CardRarity::Uncommon,
            target: TargetType::SelfTarget,
            base_costs: CardCosts { energy: CardCost::Fixed(2), stars: CardCost::NoCost },
            upgraded_costs: Some(CardCosts { energy: CardCost::Fixed(1), stars: CardCost::NoCost }),
            keywords: KeywordList::Empty,
            upgraded_keywords: KeywordList::Empty,
            tags: TagList::Empty,
            can_generate_in_combat: true,
            play: CardPlay::Body(CardId::ExpectAFight),
            rules: CardRules { on_event: None, decide: None },
        },
        CardSpec {
            id: CardId::Feed,
            loc_key: "card.FEED",
            pool: CardPoolId::Ironclad,
            card_type: CardType::Attack,
            rarity: CardRarity::Rare,
            target: TargetType::Enemy,
            base_costs: CardCosts { energy: CardCost::Fixed(1), stars: CardCost::NoCost },
            upgraded_costs: None,
            keywords: KeywordList::Exhaust,
            upgraded_keywords: KeywordList::Empty,
            tags: TagList::Empty,
            can_generate_in_combat: true,
            play: CardPlay::Body(CardId::Feed),
            rules: CardRules { on_event: None, decide: None },
        },
        CardSpec {
            id: CardId::FeelNoPain,
            loc_key: "card.FEEL_NO_PAIN",
            pool: CardPoolId::Ironclad,
            card_type: CardType::Power,
            rarity: CardRarity::Uncommon,
            target: TargetType::SelfTarget,
            base_costs: CardCosts { energy: CardCost::Fixed(1), stars: CardCost::NoCost },
            upgraded_costs: None,
            keywords: KeywordList::Exhaust,
            upgraded_keywords: KeywordList::Empty,
            tags: TagList::Empty,
            can_generate_in_combat: true,
            play: CardPlay::Body(CardId::FeelNoPain),
            rules: CardRules { on_event: None, decide: None },
        },
        CardSpec {
            id: CardId::FiendFire,
            loc_key: "card.FIEND_FIRE",
            pool: CardPoolId::Ironclad,
            card_type: CardType::Attack,
            rarity: CardRarity::Rare,
            target: TargetType::Enemy,
            base_costs: CardCosts { energy: CardCost::Fixed(2), stars: CardCost::NoCost },
            upgraded_costs: None,
            keywords: KeywordList::Exhaust,
            upgraded_keywords: KeywordList::Empty,
            tags: TagList::Empty,
            can_generate_in_combat: true,
            play: CardPlay::Body(CardId::FiendFire),
            rules: CardRules { on_event: None, decide: None },
        },
        CardSpec {
            id: CardId::FightMe,
            loc_key: "card.FIGHT_ME",
            pool: CardPoolId::Ironclad,
            card_type: CardType::Attack,
            rarity: CardRarity::Uncommon,
            target: TargetType::Enemy,
            base_costs: CardCosts { energy: CardCost::Fixed(2), stars: CardCost::NoCost },
            upgraded_costs: None,
            keywords: KeywordList::Empty,
            upgraded_keywords: KeywordList::Empty,
            tags: TagList::Empty,
            can_generate_in_combat: true,
            play: CardPlay::Body(CardId::FightMe),
            rules: CardRules { on_event: None, decide: None },
        },
        CardSpec {
            id: CardId::FlameBarrier,
            loc_key: "card.FLAME_BARRIER",
            pool: CardPoolId::Ironclad,
            card_type: CardType::Skill,
            rarity: CardRarity::Uncommon,
            target: TargetType::SelfTarget,
            base_costs: CardCosts { energy: CardCost::Fixed(2), stars: CardCost::NoCost },
            upgraded_costs: None,
            keywords: KeywordList::Empty,
            upgraded_keywords: KeywordList::Empty,
            tags: TagList::Empty,
            can_generate_in_combat: true,
            play: CardPlay::Body(CardId::FlameBarrier),
            rules: CardRules { on_event: None, decide: None },
        },
        CardSpec {
            id: CardId::ForgottenRitual,
            loc_key: "card.FORGOTTEN_RITUAL",
            pool: CardPoolId::Ironclad,
            card_type: CardType::Skill,
            rarity: CardRarity::Uncommon,
            target: TargetType::SelfTarget,
            base_costs: CardCosts { energy: CardCost::Fixed(1), stars: CardCost::NoCost },
            upgraded_costs: None,
            keywords: KeywordList::Exhaust,
            upgraded_keywords: KeywordList::Empty,
            tags: TagList::Empty,
            can_generate_in_combat: true,
            play: CardPlay::Body(CardId::ForgottenRitual),
            rules: CardRules { on_event: None, decide: None },
        },
        CardSpec {
            id: CardId::Havoc,
            loc_key: "card.HAVOC",
            pool: CardPoolId::Ironclad,
            card_type: CardType::Skill,
            rarity: CardRarity::Common,
            target: TargetType::SelfTarget,
            base_costs: CardCosts { energy: CardCost::Fixed(1), stars: CardCost::NoCost },
            upgraded_costs: None,
            keywords: KeywordList::Empty,
            upgraded_keywords: KeywordList::Empty,
            tags: TagList::Empty,
            can_generate_in_combat: true,
            play: CardPlay::Body(CardId::Havoc),
            rules: CardRules { on_event: None, decide: None },
        },
        CardSpec {
            id: CardId::Headbutt,
            loc_key: "card.HEADBUTT",
            pool: CardPoolId::Ironclad,
            card_type: CardType::Attack,
            rarity: CardRarity::Common,
            target: TargetType::Enemy,
            base_costs: CardCosts { energy: CardCost::Fixed(1), stars: CardCost::NoCost },
            upgraded_costs: None,
            keywords: KeywordList::Empty,
            upgraded_keywords: KeywordList::Empty,
            tags: TagList::Empty,
            can_generate_in_combat: true,
            play: CardPlay::Body(CardId::Headbutt),
            rules: CardRules { on_event: None, decide: None },
        },
        CardSpec {
            id: CardId::Hellraiser,
            loc_key: "card.HELLRAISER",
            pool: CardPoolId::Ironclad,
            card_type: CardType::Power,
            rarity: CardRarity::Rare,
            target: TargetType::SelfTarget,
            base_costs: CardCosts { energy: CardCost::Fixed(2), stars: CardCost::NoCost },
            upgraded_costs: None,
            keywords: KeywordList::Empty,
            upgraded_keywords: KeywordList::Empty,
            tags: TagList::Empty,
            can_generate_in_combat: true,
            play: CardPlay::Body(CardId::Hellraiser),
            rules: CardRules { on_event: None, decide: None },
        },
        CardSpec {
            id: CardId::Hemokinesis,
            loc_key: "card.HEMOKINESIS",
            pool: CardPoolId::Ironclad,
            card_type: CardType::Attack,
            rarity: CardRarity::Uncommon,
            target: TargetType::Enemy,
            base_costs: CardCosts { energy: CardCost::Fixed(1), stars: CardCost::NoCost },
            upgraded_costs: None,
            keywords: KeywordList::Empty,
            upgraded_keywords: KeywordList::Empty,
            tags: TagList::Empty,
            can_generate_in_combat: true,
            play: CardPlay::Body(CardId::Hemokinesis),
            rules: CardRules { on_event: None, decide: None },
        },
        CardSpec {
            id: CardId::HowlFromBeyond,
            loc_key: "card.HOWL_FROM_BEYOND",
            pool: CardPoolId::Ironclad,
            card_type: CardType::Attack,
            rarity: CardRarity::Uncommon,
            target: TargetType::AllEnemies,
            base_costs: CardCosts { energy: CardCost::Fixed(3), stars: CardCost::NoCost },
            upgraded_costs: None,
            keywords: KeywordList::Empty,
            upgraded_keywords: KeywordList::Empty,
            tags: TagList::Empty,
            can_generate_in_combat: true,
            play: CardPlay::Body(CardId::HowlFromBeyond),
            rules: CardRules { on_event: None, decide: None },
        },
        CardSpec {
            id: CardId::Impervious,
            loc_key: "card.IMPERVIOUS",
            pool: CardPoolId::Ironclad,
            card_type: CardType::Skill,
            rarity: CardRarity::Rare,
            target: TargetType::SelfTarget,
            base_costs: CardCosts { energy: CardCost::Fixed(2), stars: CardCost::NoCost },
            upgraded_costs: None,
            keywords: KeywordList::Empty,
            upgraded_keywords: KeywordList::Empty,
            tags: TagList::Empty,
            can_generate_in_combat: true,
            play: CardPlay::Body(CardId::Impervious),
            rules: CardRules { on_event: None, decide: None },
        },
        CardSpec {
            id: CardId::InfernalBlade,
            loc_key: "card.INFERNAL_BLADE",
            pool: CardPoolId::Ironclad,
            card_type: CardType::Skill,
            rarity: CardRarity::Uncommon,
            target: TargetType::SelfTarget,
            base_costs: CardCosts { energy: CardCost::Fixed(1), stars: CardCost::NoCost },
            upgraded_costs: None,
            keywords: KeywordList::Empty,
            upgraded_keywords: KeywordList::Empty,
            tags: TagList::Empty,
            can_generate_in_combat: true,
            play: CardPlay::Body(CardId::InfernalBlade),
            rules: CardRules { on_event: None, decide: None },
        },
        CardSpec {
            id: CardId::Inferno,
            loc_key: "card.INFERNO",
            pool: CardPoolId::Ironclad,
            card_type: CardType::Power,
            rarity: CardRarity::Uncommon,
            target: TargetType::SelfTarget,
            base_costs: CardCosts { energy: CardCost::Fixed(1), stars: CardCost::NoCost },
            upgraded_costs: None,
            keywords: KeywordList::Empty,
            upgraded_keywords: KeywordList::Empty,
            tags: TagList::Empty,
            can_generate_in_combat: true,
            play: CardPlay::Body(CardId::Inferno),
            rules: CardRules { on_event: None, decide: None },
        },
        CardSpec {
            id: CardId::Inflame,
            loc_key: "card.INFLAME",
            pool: CardPoolId::Ironclad,
            card_type: CardType::Power,
            rarity: CardRarity::Uncommon,
            target: TargetType::SelfTarget,
            base_costs: CardCosts { energy: CardCost::Fixed(1), stars: CardCost::NoCost },
            upgraded_costs: None,
            keywords: KeywordList::Empty,
            upgraded_keywords: KeywordList::Empty,
            tags: TagList::Empty,
            can_generate_in_combat: true,
            play: CardPlay::Body(CardId::Inflame),
            rules: CardRules { on_event: None, decide: None },
        },
        CardSpec {
            id: CardId::IronWave,
            loc_key: "card.IRON_WAVE",
            pool: CardPoolId::Ironclad,
            card_type: CardType::Attack,
            rarity: CardRarity::Common,
            target: TargetType::Enemy,
            base_costs: CardCosts { energy: CardCost::Fixed(1), stars: CardCost::NoCost },
            upgraded_costs: None,
            keywords: KeywordList::Empty,
            upgraded_keywords: KeywordList::Empty,
            tags: TagList::Empty,
            can_generate_in_combat: true,
            play: CardPlay::Body(CardId::IronWave),
            rules: CardRules { on_event: None, decide: None },
        },
        CardSpec {
            id: CardId::Juggernaut,
            loc_key: "card.JUGGERNAUT",
            pool: CardPoolId::Ironclad,
            card_type: CardType::Power,
            rarity: CardRarity::Rare,
            target: TargetType::SelfTarget,
            base_costs: CardCosts { energy: CardCost::Fixed(2), stars: CardCost::NoCost },
            upgraded_costs: None,
            keywords: KeywordList::Empty,
            upgraded_keywords: KeywordList::Empty,
            tags: TagList::Empty,
            can_generate_in_combat: true,
            play: CardPlay::Body(CardId::Juggernaut),
            rules: CardRules { on_event: None, decide: None },
        },
        CardSpec {
            id: CardId::Juggling,
            loc_key: "card.JUGGLING",
            pool: CardPoolId::Ironclad,
            card_type: CardType::Power,
            rarity: CardRarity::Uncommon,
            target: TargetType::SelfTarget,
            base_costs: CardCosts { energy: CardCost::Fixed(1), stars: CardCost::NoCost },
            upgraded_costs: None,
            keywords: KeywordList::Empty,
            upgraded_keywords: KeywordList::Innate,
            tags: TagList::Empty,
            can_generate_in_combat: true,
            play: CardPlay::Body(CardId::Juggling),
            rules: CardRules { on_event: None, decide: None },
        },
        CardSpec {
            id: CardId::Mangle,
            loc_key: "card.MANGLE",
            pool: CardPoolId::Ironclad,
            card_type: CardType::Attack,
            rarity: CardRarity::Rare,
            target: TargetType::Enemy,
            base_costs: CardCosts { energy: CardCost::Fixed(3), stars: CardCost::NoCost },
            upgraded_costs: None,
            keywords: KeywordList::Empty,
            upgraded_keywords: KeywordList::Empty,
            tags: TagList::Empty,
            can_generate_in_combat: true,
            play: CardPlay::Body(CardId::Mangle),
            rules: CardRules { on_event: None, decide: None },
        },
        CardSpec {
            id: CardId::MoltenFist,
            loc_key: "card.MOLTEN_FIST",
            pool: CardPoolId::Ironclad,
            card_type: CardType::Attack,
            rarity: CardRarity::Common,
            target: TargetType::Enemy,
            base_costs: CardCosts { energy: CardCost::Fixed(1), stars: CardCost::NoCost },
            upgraded_costs: None,
            keywords: KeywordList::Exhaust,
            upgraded_keywords: KeywordList::Empty,
            tags: TagList::Empty,
            can_generate_in_combat: true,
            play: CardPlay::Body(CardId::MoltenFist),
            rules: CardRules { on_event: None, decide: None },
        },
        CardSpec {
            id: CardId::NotYet,
            loc_key: "card.NOT_YET",
            pool: CardPoolId::Ironclad,
            card_type: CardType::Skill,
            rarity: CardRarity::Rare,
            target: TargetType::SelfTarget,
            base_costs: CardCosts { energy: CardCost::Fixed(2), stars: CardCost::NoCost },
            upgraded_costs: None,
            keywords: KeywordList::Exhaust,
            upgraded_keywords: KeywordList::Empty,
            tags: TagList::Empty,
            can_generate_in_combat: false,
            play: CardPlay::Body(CardId::NotYet),
            rules: CardRules { on_event: None, decide: None },
        },
        CardSpec {
            id: CardId::Offering,
            loc_key: "card.OFFERING",
            pool: CardPoolId::Ironclad,
            card_type: CardType::Skill,
            rarity: CardRarity::Rare,
            target: TargetType::SelfTarget,
            base_costs: CardCosts { energy: CardCost::Fixed(0), stars: CardCost::NoCost },
            upgraded_costs: None,
            keywords: KeywordList::Exhaust,
            upgraded_keywords: KeywordList::Empty,
            tags: TagList::Empty,
            can_generate_in_combat: true,
            play: CardPlay::Body(CardId::Offering),
            rules: CardRules { on_event: None, decide: None },
        },
        CardSpec {
            id: CardId::OneTwoPunch,
            loc_key: "card.ONE_TWO_PUNCH",
            pool: CardPoolId::Ironclad,
            card_type: CardType::Skill,
            rarity: CardRarity::Rare,
            target: TargetType::SelfTarget,
            base_costs: CardCosts { energy: CardCost::Fixed(1), stars: CardCost::NoCost },
            upgraded_costs: None,
            keywords: KeywordList::Empty,
            upgraded_keywords: KeywordList::Empty,
            tags: TagList::Empty,
            can_generate_in_combat: true,
            play: CardPlay::Body(CardId::OneTwoPunch),
            rules: CardRules { on_event: None, decide: None },
        },
        CardSpec {
            id: CardId::PactsEnd,
            loc_key: "card.PACTS_END",
            pool: CardPoolId::Ironclad,
            card_type: CardType::Attack,
            rarity: CardRarity::Rare,
            target: TargetType::AllEnemies,
            base_costs: CardCosts { energy: CardCost::Fixed(0), stars: CardCost::NoCost },
            upgraded_costs: None,
            keywords: KeywordList::Empty,
            upgraded_keywords: KeywordList::Empty,
            tags: TagList::Empty,
            can_generate_in_combat: true,
            play: CardPlay::Body(CardId::PactsEnd),
            rules: CardRules { on_event: None, decide: None },
        },
        CardSpec {
            id: CardId::PerfectedStrike,
            loc_key: "card.PERFECTED_STRIKE",
            pool: CardPoolId::Ironclad,
            card_type: CardType::Attack,
            rarity: CardRarity::Common,
            target: TargetType::Enemy,
            base_costs: CardCosts { energy: CardCost::Fixed(2), stars: CardCost::NoCost },
            upgraded_costs: None,
            keywords: KeywordList::Empty,
            upgraded_keywords: KeywordList::Empty,
            tags: TagList::Strike,
            can_generate_in_combat: true,
            play: CardPlay::Body(CardId::PerfectedStrike),
            rules: CardRules { on_event: None, decide: None },
        },
        CardSpec {
            id: CardId::Pillage,
            loc_key: "card.PILLAGE",
            pool: CardPoolId::Ironclad,
            card_type: CardType::Attack,
            rarity: CardRarity::Uncommon,
            target: TargetType::Enemy,
            base_costs: CardCosts { energy: CardCost::Fixed(1), stars: CardCost::NoCost },
            upgraded_costs: None,
            keywords: KeywordList::Empty,
            upgraded_keywords: KeywordList::Empty,
            tags: TagList::Empty,
            can_generate_in_combat: true,
            play: CardPlay::Body(CardId::Pillage),
            rules: CardRules { on_event: None, decide: None },
        },
        CardSpec {
            id: CardId::PommelStrike,
            loc_key: "card.POMMEL_STRIKE",
            pool: CardPoolId::Ironclad,
            card_type: CardType::Attack,
            rarity: CardRarity::Common,
            target: TargetType::Enemy,
            base_costs: CardCosts { energy: CardCost::Fixed(1), stars: CardCost::NoCost },
            upgraded_costs: None,
            keywords: KeywordList::Empty,
            upgraded_keywords: KeywordList::Empty,
            tags: TagList::Strike,
            can_generate_in_combat: true,
            play: CardPlay::Body(CardId::PommelStrike),
            rules: CardRules { on_event: None, decide: None },
        },
        CardSpec {
            id: CardId::PrimalForce,
            loc_key: "card.PRIMAL_FORCE",
            pool: CardPoolId::Ironclad,
            card_type: CardType::Skill,
            rarity: CardRarity::Rare,
            target: TargetType::SelfTarget,
            base_costs: CardCosts { energy: CardCost::Fixed(0), stars: CardCost::NoCost },
            upgraded_costs: None,
            keywords: KeywordList::Empty,
            upgraded_keywords: KeywordList::Empty,
            tags: TagList::Empty,
            can_generate_in_combat: true,
            play: CardPlay::Body(CardId::PrimalForce),
            rules: CardRules { on_event: None, decide: None },
        },
        CardSpec {
            id: CardId::Pyre,
            loc_key: "card.PYRE",
            pool: CardPoolId::Ironclad,
            card_type: CardType::Power,
            rarity: CardRarity::Rare,
            target: TargetType::SelfTarget,
            base_costs: CardCosts { energy: CardCost::Fixed(2), stars: CardCost::NoCost },
            upgraded_costs: None,
            keywords: KeywordList::Empty,
            upgraded_keywords: KeywordList::Empty,
            tags: TagList::Empty,
            can_generate_in_combat: true,
            play: CardPlay::Body(CardId::Pyre),
            rules: CardRules { on_event: None, decide: None },
        },
        CardSpec {
            id: CardId::Rage,
            loc_key: "card.RAGE",
            pool: CardPoolId::Ironclad,
            card_type: CardType::Skill,
            rarity: CardRarity::Uncommon,
            target: TargetType::SelfTarget,
            base_costs: CardCosts { energy: CardCost::Fixed(0), stars: CardCost::NoCost },
            upgraded_costs: None,
            keywords: KeywordList::Empty,
            upgraded_keywords: KeywordList::Empty,
            tags: TagList::Empty,
            can_generate_in_combat: true,
            play: CardPlay::Body(CardId::Rage),
            rules: CardRules { on_event: None, decide: None },
        },
        CardSpec {
            id: CardId::Rampage,
            loc_key: "card.RAMPAGE",
            pool: CardPoolId::Ironclad,
            card_type: CardType::Attack,
            rarity: CardRarity::Uncommon,
            target: TargetType::Enemy,
            base_costs: CardCosts { energy: CardCost::Fixed(1), stars: CardCost::NoCost },
            upgraded_costs: None,
            keywords: KeywordList::Empty,
            upgraded_keywords: KeywordList::Empty,
            tags: TagList::Empty,
            can_generate_in_combat: true,
            play: CardPlay::Body(CardId::Rampage),
            rules: CardRules { on_event: None, decide: None },
        },
        CardSpec {
            id: CardId::Rupture,
            loc_key: "card.RUPTURE",
            pool: CardPoolId::Ironclad,
            card_type: CardType::Power,
            rarity: CardRarity::Uncommon,
            target: TargetType::SelfTarget,
            base_costs: CardCosts { energy: CardCost::Fixed(1), stars: CardCost::NoCost },
            upgraded_costs: None,
            keywords: KeywordList::Empty,
            upgraded_keywords: KeywordList::Empty,
            tags: TagList::Empty,
            can_generate_in_combat: true,
            play: CardPlay::Body(CardId::Rupture),
            rules: CardRules { on_event: None, decide: None },
        },
        CardSpec {
            id: CardId::SecondWind,
            loc_key: "card.SECOND_WIND",
            pool: CardPoolId::Ironclad,
            card_type: CardType::Skill,
            rarity: CardRarity::Uncommon,
            target: TargetType::SelfTarget,
            base_costs: CardCosts { energy: CardCost::Fixed(1), stars: CardCost::NoCost },
            upgraded_costs: None,
            keywords: KeywordList::Exhaust,
            upgraded_keywords: KeywordList::Empty,
            tags: TagList::Empty,
            can_generate_in_combat: true,
            play: CardPlay::Body(CardId::SecondWind),
            rules: CardRules { on_event: None, decide: None },
        },
        CardSpec {
            id: CardId::SetupStrike,
            loc_key: "card.SETUP_STRIKE",
            pool: CardPoolId::Ironclad,
            card_type: CardType::Attack,
            rarity: CardRarity::Common,
            target: TargetType::Enemy,
            base_costs: CardCosts { energy: CardCost::Fixed(1), stars: CardCost::NoCost },
            upgraded_costs: None,
            keywords: KeywordList::Empty,
            upgraded_keywords: KeywordList::Empty,
            tags: TagList::Strike,
            can_generate_in_combat: true,
            play: CardPlay::Body(CardId::SetupStrike),
            rules: CardRules { on_event: None, decide: None },
        },
        CardSpec {
            id: CardId::ShrugItOff,
            loc_key: "card.SHRUG_IT_OFF",
            pool: CardPoolId::Ironclad,
            card_type: CardType::Skill,
            rarity: CardRarity::Common,
            target: TargetType::SelfTarget,
            base_costs: CardCosts { energy: CardCost::Fixed(1), stars: CardCost::NoCost },
            upgraded_costs: None,
            keywords: KeywordList::Empty,
            upgraded_keywords: KeywordList::Empty,
            tags: TagList::Empty,
            can_generate_in_combat: true,
            play: CardPlay::Body(CardId::ShrugItOff),
            rules: CardRules { on_event: None, decide: None },
        },
        CardSpec {
            id: CardId::Spite,
            loc_key: "card.SPITE",
            pool: CardPoolId::Ironclad,
            card_type: CardType::Attack,
            rarity: CardRarity::Uncommon,
            target: TargetType::Enemy,
            base_costs: CardCosts { energy: CardCost::Fixed(0), stars: CardCost::NoCost },
            upgraded_costs: None,
            keywords: KeywordList::Empty,
            upgraded_keywords: KeywordList::Empty,
            tags: TagList::Empty,
            can_generate_in_combat: true,
            play: CardPlay::Body(CardId::Spite),
            rules: CardRules { on_event: None, decide: None },
        },
        CardSpec {
            id: CardId::Stampede,
            loc_key: "card.STAMPEDE",
            pool: CardPoolId::Ironclad,
            card_type: CardType::Power,
            rarity: CardRarity::Uncommon,
            target: TargetType::SelfTarget,
            base_costs: CardCosts { energy: CardCost::Fixed(2), stars: CardCost::NoCost },
            upgraded_costs: Some(CardCosts { energy: CardCost::Fixed(1), stars: CardCost::NoCost }),
            keywords: KeywordList::Empty,
            upgraded_keywords: KeywordList::Empty,
            tags: TagList::Empty,
            can_generate_in_combat: true,
            play: CardPlay::Body(CardId::Stampede),
            rules: CardRules { on_event: None, decide: None },
        },
        CardSpec {
            id: CardId::Stoke,
            loc_key: "card.STOKE",
            pool: CardPoolId::Ironclad,
            card_type: CardType::Skill,
            rarity: CardRarity::Rare,
            target: TargetType::SelfTarget,
            base_costs: CardCosts { energy: CardCost::Fixed(1), stars: CardCost::NoCost },
            upgraded_costs: None,
            keywords: KeywordList::Empty,
            upgraded_keywords: KeywordList::Empty,
            tags: TagList::Empty,
            can_generate_in_combat: true,
            play: CardPlay::Body(CardId::Stoke),
            rules: CardRules { on_event: None, decide: None },
        },
        CardSpec {
            id: CardId::Stomp,
            loc_key: "card.STOMP",
            pool: CardPoolId::Ironclad,
            card_type: CardType::Attack,
            rarity: CardRarity::Uncommon,
            target: TargetType::AllEnemies,
            base_costs: CardCosts { energy: CardCost::Fixed(3), stars: CardCost::NoCost },
            upgraded_costs: None,
            keywords: KeywordList::Empty,
            upgraded_keywords: KeywordList::Empty,
            tags: TagList::Empty,
            can_generate_in_combat: true,
            play: CardPlay::Body(CardId::Stomp),
            rules: CardRules { on_event: None, decide: None },
        },
        CardSpec {
            id: CardId::StoneArmor,
            loc_key: "card.STONE_ARMOR",
            pool: CardPoolId::Ironclad,
            card_type: CardType::Power,
            rarity: CardRarity::Uncommon,
            target: TargetType::SelfTarget,
            base_costs: CardCosts { energy: CardCost::Fixed(1), stars: CardCost::NoCost },
            upgraded_costs: None,
            keywords: KeywordList::Empty,
            upgraded_keywords: KeywordList::Empty,
            tags: TagList::Empty,
            can_generate_in_combat: true,
            play: CardPlay::Body(CardId::StoneArmor),
            rules: CardRules { on_event: None, decide: None },
        },
        CardSpec {
            id: CardId::StrikeIronclad,
            loc_key: "card.STRIKE_IRONCLAD",
            pool: CardPoolId::Ironclad,
            card_type: CardType::Attack,
            rarity: CardRarity::Basic,
            target: TargetType::Enemy,
            base_costs: CardCosts { energy: CardCost::Fixed(1), stars: CardCost::NoCost },
            upgraded_costs: None,
            keywords: KeywordList::Empty,
            upgraded_keywords: KeywordList::Empty,
            tags: TagList::Strike,
            can_generate_in_combat: true,
            play: CardPlay::Body(CardId::StrikeIronclad),
            rules: CardRules { on_event: None, decide: None },
        },
        CardSpec {
            id: CardId::SwordBoomerang,
            loc_key: "card.SWORD_BOOMERANG",
            pool: CardPoolId::Ironclad,
            card_type: CardType::Attack,
            rarity: CardRarity::Common,
            target: TargetType::RandomEnemy,
            base_costs: CardCosts { energy: CardCost::Fixed(1), stars: CardCost::NoCost },
            upgraded_costs: None,
            keywords: KeywordList::Empty,
            upgraded_keywords: KeywordList::Empty,
            tags: TagList::Empty,
            can_generate_in_combat: true,
            play: CardPlay::Body(CardId::SwordBoomerang),
            rules: CardRules { on_event: None, decide: None },
        },
        CardSpec {
            id: CardId::Tank,
            loc_key: "card.TANK",
            pool: CardPoolId::Ironclad,
            card_type: CardType::Power,
            rarity: CardRarity::Rare,
            target: TargetType::SelfTarget,
            base_costs: CardCosts { energy: CardCost::Fixed(1), stars: CardCost::NoCost },
            upgraded_costs: Some(CardCosts { energy: CardCost::Fixed(0), stars: CardCost::NoCost }),
            keywords: KeywordList::Empty,
            upgraded_keywords: KeywordList::Empty,
            tags: TagList::Empty,
            can_generate_in_combat: true,
            play: CardPlay::Body(CardId::Tank),
            rules: CardRules { on_event: None, decide: None },
        },
        CardSpec {
            id: CardId::Taunt,
            loc_key: "card.TAUNT",
            pool: CardPoolId::Ironclad,
            card_type: CardType::Skill,
            rarity: CardRarity::Uncommon,
            target: TargetType::Enemy,
            base_costs: CardCosts { energy: CardCost::Fixed(1), stars: CardCost::NoCost },
            upgraded_costs: None,
            keywords: KeywordList::Empty,
            upgraded_keywords: KeywordList::Empty,
            tags: TagList::Empty,
            can_generate_in_combat: true,
            play: CardPlay::Body(CardId::Taunt),
            rules: CardRules { on_event: None, decide: None },
        },
        CardSpec {
            id: CardId::TearAsunder,
            loc_key: "card.TEAR_ASUNDER",
            pool: CardPoolId::Ironclad,
            card_type: CardType::Attack,
            rarity: CardRarity::Rare,
            target: TargetType::Enemy,
            base_costs: CardCosts { energy: CardCost::Fixed(2), stars: CardCost::NoCost },
            upgraded_costs: None,
            keywords: KeywordList::Empty,
            upgraded_keywords: KeywordList::Empty,
            tags: TagList::Empty,
            can_generate_in_combat: true,
            play: CardPlay::Body(CardId::TearAsunder),
            rules: CardRules { on_event: None, decide: None },
        },
        CardSpec {
            id: CardId::Thrash,
            loc_key: "card.THRASH",
            pool: CardPoolId::Ironclad,
            card_type: CardType::Attack,
            rarity: CardRarity::Rare,
            target: TargetType::Enemy,
            base_costs: CardCosts { energy: CardCost::Fixed(1), stars: CardCost::NoCost },
            upgraded_costs: None,
            keywords: KeywordList::Exhaust,
            upgraded_keywords: KeywordList::Empty,
            tags: TagList::Empty,
            can_generate_in_combat: true,
            play: CardPlay::Body(CardId::Thrash),
            rules: CardRules { on_event: None, decide: None },
        },
        CardSpec {
            id: CardId::Thunderclap,
            loc_key: "card.THUNDERCLAP",
            pool: CardPoolId::Ironclad,
            card_type: CardType::Attack,
            rarity: CardRarity::Common,
            target: TargetType::AllEnemies,
            base_costs: CardCosts { energy: CardCost::Fixed(1), stars: CardCost::NoCost },
            upgraded_costs: None,
            keywords: KeywordList::Empty,
            upgraded_keywords: KeywordList::Empty,
            tags: TagList::Empty,
            can_generate_in_combat: true,
            play: CardPlay::Body(CardId::Thunderclap),
            rules: CardRules { on_event: None, decide: None },
        },
        CardSpec {
            id: CardId::Tremble,
            loc_key: "card.TREMBLE",
            pool: CardPoolId::Ironclad,
            card_type: CardType::Skill,
            rarity: CardRarity::Common,
            target: TargetType::Enemy,
            base_costs: CardCosts { energy: CardCost::Fixed(1), stars: CardCost::NoCost },
            upgraded_costs: None,
            keywords: KeywordList::Exhaust,
            upgraded_keywords: KeywordList::Empty,
            tags: TagList::Empty,
            can_generate_in_combat: true,
            play: CardPlay::Body(CardId::Tremble),
            rules: CardRules { on_event: None, decide: None },
        },
        CardSpec {
            id: CardId::TrueGrit,
            loc_key: "card.TRUE_GRIT",
            pool: CardPoolId::Ironclad,
            card_type: CardType::Skill,
            rarity: CardRarity::Common,
            target: TargetType::SelfTarget,
            base_costs: CardCosts { energy: CardCost::Fixed(1), stars: CardCost::NoCost },
            upgraded_costs: None,
            keywords: KeywordList::Exhaust,
            upgraded_keywords: KeywordList::Empty,
            tags: TagList::Empty,
            can_generate_in_combat: true,
            play: CardPlay::Body(CardId::TrueGrit),
            rules: CardRules { on_event: None, decide: None },
        },
        CardSpec {
            id: CardId::TwinStrike,
            loc_key: "card.TWIN_STRIKE",
            pool: CardPoolId::Ironclad,
            card_type: CardType::Attack,
            rarity: CardRarity::Common,
            target: TargetType::Enemy,
            base_costs: CardCosts { energy: CardCost::Fixed(1), stars: CardCost::NoCost },
            upgraded_costs: None,
            keywords: KeywordList::Empty,
            upgraded_keywords: KeywordList::Empty,
            tags: TagList::Strike,
            can_generate_in_combat: true,
            play: CardPlay::Body(CardId::TwinStrike),
            rules: CardRules { on_event: None, decide: None },
        },
        CardSpec {
            id: CardId::Unmovable,
            loc_key: "card.UNMOVABLE",
            pool: CardPoolId::Ironclad,
            card_type: CardType::Power,
            rarity: CardRarity::Rare,
            target: TargetType::SelfTarget,
            base_costs: CardCosts { energy: CardCost::Fixed(2), stars: CardCost::NoCost },
            upgraded_costs: Some(CardCosts { energy: CardCost::Fixed(1), stars: CardCost::NoCost }),
            keywords: KeywordList::Empty,
            upgraded_keywords: KeywordList::Empty,
            tags: TagList::Empty,
            can_generate_in_combat: true,
            play: CardPlay::Body(CardId::Unmovable),
            rules: CardRules { on_event: None, decide: None },
        },
        CardSpec {
            id: CardId::Unrelenting,
            loc_key: "card.UNRELENTING",
            pool: CardPoolId::Ironclad,
            card_type: CardType::Attack,
            rarity: CardRarity::Uncommon,
            target: TargetType::Enemy,
            base_costs: CardCosts { energy: CardCost::Fixed(2), stars: CardCost::NoCost },
            upgraded_costs: None,
            keywords: KeywordList::Empty,
            upgraded_keywords: KeywordList::Empty,
            tags: TagList::Empty,
            can_generate_in_combat: true,
            play: CardPlay::Body(CardId::Unrelenting),
            rules: CardRules { on_event: None, decide: None },
        },
        CardSpec {
            id: CardId::Uppercut,
            loc_key: "card.UPPERCUT",
            pool: CardPoolId::Ironclad,
            card_type: CardType::Attack,
            rarity: CardRarity::Uncommon,
            target: TargetType::Enemy,
            base_costs: CardCosts { energy: CardCost::Fixed(2), stars: CardCost::NoCost },
            upgraded_costs: None,
            keywords: KeywordList::Empty,
            upgraded_keywords: KeywordList::Empty,
            tags: TagList::Empty,
            can_generate_in_combat: true,
            play: CardPlay::Body(CardId::Uppercut),
            rules: CardRules { on_event: None, decide: None },
        },
        CardSpec {
            id: CardId::Vicious,
            loc_key: "card.VICIOUS",
            pool: CardPoolId::Ironclad,
            card_type: CardType::Power,
            rarity: CardRarity::Uncommon,
            target: TargetType::SelfTarget,
            base_costs: CardCosts { energy: CardCost::Fixed(1), stars: CardCost::NoCost },
            upgraded_costs: None,
            keywords: KeywordList::Empty,
            upgraded_keywords: KeywordList::Empty,
            tags: TagList::Empty,
            can_generate_in_combat: true,
            play: CardPlay::Body(CardId::Vicious),
            rules: CardRules { on_event: None, decide: None },
        },
        CardSpec {
            id: CardId::Whirlwind,
            loc_key: "card.WHIRLWIND",
            pool: CardPoolId::Ironclad,
            card_type: CardType::Attack,
            rarity: CardRarity::Uncommon,
            target: TargetType::AllEnemies,
            base_costs: CardCosts { energy: CardCost::X, stars: CardCost::NoCost },
            upgraded_costs: None,
            keywords: KeywordList::Empty,
            upgraded_keywords: KeywordList::Empty,
            tags: TagList::Empty,
            can_generate_in_combat: true,
            play: CardPlay::Body(CardId::Whirlwind),
            rules: CardRules { on_event: None, decide: None },
        },
    ]
}

fn ironclad_card_specs() -> (r: Vec<CardSpec>)
    ensures
        r@ == ironclad_table(),
{
    vec![
        CardSpec {
            id: CardId::Aggression,
            loc_key: "card.AGGRESSION",
            pool: CardPoolId::Ironclad,
            card_type: CardType::Power,
            rarity: CardRarity::Rare,
            target: TargetType::SelfTarget,
            base_costs: CardCosts { energy: CardCost::Fixed(1), stars: CardCost::NoCost },
            upgraded_costs: None,
            keywords: KeywordList::Empty,
            upgraded_keywords: KeywordList::Innate,
            tags: TagList::Empty,
            can_generate_in_combat: true,
            play: CardPlay::Body(CardId::Aggression),
            rules: CardRules { on_event: None, decide: None },
        },
        CardSpec {
            id: CardId::Anger,
            loc_key: "card.ANGER",
            pool: CardPoolId::Ironclad,
            card_type: CardType::Attack,
            rarity: CardRarity::Common,
            target: TargetType::Enemy,
            base_costs: CardCosts { energy: CardCost::Fixed(0), stars: CardCost::NoCost },
            upgraded_costs: None,
            keywords: KeywordList::Empty,
            upgraded_keywords: KeywordList::Empty,
            tags: TagList::Empty,
            can_generate_in_combat: true,
            play: CardPlay::Body(CardId::Anger),
            rules: CardRules { on_event: None, decide: None },
        },
        CardSpec {
            id: CardId::Armaments,
            loc_key: "card.ARMAMENTS",
            pool: CardPoolId::Ironclad,
            card_type: CardType::Skill,
            rarity: CardRarity::Common,
            target: TargetType::SelfTarget,
            base_costs: CardCosts { energy: CardCost::Fixed(1), stars: CardCost::NoCost },
            upgraded_costs: None,
            keywords: KeywordList::Empty,
            upgraded_keywords: KeywordList::Empty,
            tags: TagList::Empty,
            can_generate_in_combat: true,
            play: CardPlay::Body(CardId::Armaments),
            rules: CardRules { on_event: None, decide: None },
        },
        CardSpec {
            id: CardId::AshenStrike,
            loc_key: "card.ASHEN_STRIKE",
            pool: CardPoolId::Ironclad,
            card_type: CardType::Attack,
            rarity: CardRarity::Uncommon,
            target: TargetType::Enemy,
            base_costs: CardCosts { energy: CardCost::Fixed(1), stars: CardCost::NoCost },
            upgraded_costs: None,
            keywords: KeywordList::Empty,
            upgraded_keywords: KeywordList::Empty,
            tags: TagList::Strike,
            can_generate_in_combat: true,
            play: CardPlay::Body(CardId::AshenStrike),
            rules: CardRules { on_event: None, decide: None },
        },
        CardSpec {
            id: CardId::Barricade,
            loc_key: "card.BARRICADE",
            pool: CardPoolId::Ironclad,
            card_type: CardType::Power,
            rarity: CardRarity::Rare,
            target: TargetType::SelfTarget,
            base_costs: CardCosts { energy: CardCost::Fixed(3), stars: CardCost::NoCost },
            upgraded_costs: Some(CardCosts { energy: CardCost::Fixed(2), stars: CardCost::NoCost }),
            keywords: KeywordList::Empty,
            upgraded_keywords: KeywordList::Empty,
            tags: TagList::Empty,
            can_generate_in_combat: true,
            play: CardPlay::Body(CardId::Barricade),
            rules: CardRules { on_event: None, decide: None },
        },
        CardSpec {
            id: CardId::Bash,
            loc_key: "card.BASH",
            pool: CardPoolId::Ironclad,
            card_type: CardType::Attack,
            rarity: CardRarity::Basic,
            target: TargetType::Enemy,
            base_costs: CardCosts { energy: CardCost::Fixed(2), stars: CardCost::NoCost },
            upgraded_costs: None,
            keywords: KeywordList::Empty,
            upgraded_keywords: KeywordList::Empty,
            tags: TagList::Empty,
            can_generate_in_combat: true,
            play: CardPlay::Body(CardId::Bash),
            rules: CardRules { on_event: None, decide: None },
        },
        CardSpec {
            id: CardId::BattleTrance,
            loc_key: "card.BATTLE_TRANCE",
            pool: CardPoolId::Ironclad,
            card_type: CardType::Skill,
            rarity: CardRarity::Uncommon,
            target: TargetType::SelfTarget,
            base_costs: CardCosts { energy: CardCost::Fixed(0), stars: CardCost::NoCost },
            upgraded_costs: None,
            keywords: KeywordList::Empty,
            upgraded_keywords: KeywordList::Empty,
            tags: TagList::Empty,
            can_generate_in_combat: true,
            play: CardPlay::Body(CardId::BattleTrance),
            rules: CardRules { on_event: None, decide: None },
        },
        CardSpec {
            id: CardId::BloodWall,
            loc_key: "card.BLOOD_WALL",
            pool: CardPoolId::Ironclad,
            card_type: CardType::Skill,
            rarity: CardRarity::Common,
            target: TargetType::SelfTarget,
            base_costs: CardCosts { energy: CardCost::Fixed(2), stars: CardCost::NoCost },
            upgraded_costs: None,
            keywords: KeywordList::Empty,
            upgraded_keywords: KeywordList::Empty,
            tags: TagList::Empty,
            can_generate_in_combat: true,
            play: CardPlay::Body(CardId::BloodWall),
            rules: CardRules { on_event: None, decide: None },
        },
        CardSpec {
            id: CardId::Bloodletting,
            loc_key: "card.BLOODLETTING",
            pool: CardPoolId::Ironclad,
            card_type: CardType::Skill,
            rarity: CardRarity::Common,
            target: TargetType::SelfTarget,
            base_costs: CardCosts { energy: CardCost::Fixed(0), stars: CardCost::NoCost },
            upgraded_costs: None,
            keywords: KeywordList::Empty,
            upgraded_keywords: KeywordList::Empty,
            tags: TagList::Empty,
            can_generate_in_combat: true,
            play: CardPlay::Body(CardId::Bloodletting),
            rules: CardRules { on_event: None, decide: None },
        },
        CardSpec {
            id: CardId::Bludgeon,
            loc_key: "card.BLUDGEON",
            pool: CardPoolId::Ironclad,
            card_type: CardType::Attack,
            rarity: CardRarity::Uncommon,
            target: TargetType::Enemy,
            base_costs: CardCosts { energy: CardCost::Fixed(3), stars: CardCost::NoCost },
            upgraded_costs: None,
            keywords: KeywordList::Empty,
            upgraded_keywords: KeywordList::Empty,
            tags: TagList::Empty,
            can_generate_in_combat: true,
            play: CardPlay::Body(CardId::Bludgeon),
            rules: CardRules { on_event: None, decide: None },
        },
        CardSpec {
            id: CardId::BodySlam,
            loc_key: "card.BODY_SLAM",
            pool: CardPoolId::Ironclad,
            card_type: CardType::Attack,
            rarity: CardRarity::Common,
            target: TargetType::Enemy,
            base_costs: CardCosts { energy: CardCost::Fixed(1), stars: CardCost::NoCost },
            upgraded_costs: Some(CardCosts { energy: CardCost::Fixed(0), stars: CardCost::NoCost }),
            keywords: KeywordList::Empty,
            upgraded_keywords: KeywordList::Empty,
            tags: TagList::Empty,
            can_generate_in_combat: true,
            play: CardPlay::Body(CardId::BodySlam),
            rules: CardRules { on_event: None, decide: None },
        },
        CardSpec {
            id: CardId::Brand,
            loc_key: "card.BRAND",
            pool: CardPoolId::Ironclad,
            card_type: CardType::Skill,
            rarity: CardRarity::Rare,
            target: TargetType::SelfTarget,
            base_costs: CardCosts { energy: CardCost::Fixed(0), stars: CardCost::NoCost },
            upgraded_costs: None,
            keywords: KeywordList::Exhaust,
            upgraded_keywords: KeywordList::Empty,
            tags: TagList::Empty,
            can_generate_in_combat: true,
            play: CardPlay::Body(CardId::Brand),
            rules: CardRules { on_event: None, decide: None },
        },
        CardSpec {
            id: CardId::Break,
            loc_key: "card.BREAK",
            pool: CardPoolId::Ironclad,
            card_type: CardType::Attack,
            rarity: CardRarity::Ancient,
            target: TargetType::Enemy,
            base_costs: CardCosts { energy: CardCost::Fixed(1), stars: CardCost::NoCost },
            upgraded_costs: None,
            keywords: KeywordList::Empty,
            upgraded_keywords: KeywordList::Empty,
            tags: TagList::Empty,
            can_generate_in_combat: true,
            play: CardPlay::Body(CardId::Break),
            rules: CardRules { on_event: None, decide: None },
        },
        CardSpec {
            id: CardId::Breakthrough,
            loc_key: "card.BREAKTHROUGH",
            pool: CardPoolId::Ironclad,
            card_type: CardType::Attack,
            rarity: CardRarity::Common,
            target: TargetType::AllEnemies,
            base_costs: CardCosts { energy: CardCost::Fixed(1), stars: CardCost::NoCost },
            upgraded_costs: None,
            keywords: KeywordList::Empty,
            upgraded_keywords: KeywordList::Empty,
            tags: TagList::Empty,
            can_generate_in_combat: true,
            play: CardPlay::Body(CardId::Breakthrough),
            rules: CardRules { on_event: None, decide: None },
        },
        CardSpec {
            id: CardId::Bully,
            loc_key: "card.BULLY",
            pool: CardPoolId::Ironclad,
            card_type: CardType::Attack,
            rarity: CardRarity::Uncommon,
            target: TargetType::Enemy,
            base_costs: CardCosts { energy: CardCost::Fixed(0), stars: CardCost::NoCost },
            upgraded_costs: None,
            keywords: KeywordList::Empty,
            upgraded_keywords: KeywordList::Empty,
            tags: TagList::Empty,
            can_generate_in_combat: true,
            play: CardPlay::Body(CardId::Bully),
            rules: CardRules { on_event: None, decide: None },
        },
        CardSpec {
            id: CardId::BurningPact,
            loc_key: "card.BURNING_PACT",
            pool: CardPoolId::Ironclad,
            card_type: CardType::Skill,
            rarity: CardRarity::Uncommon,
            target: TargetType::SelfTarget,
            base_costs: CardCosts { energy: CardCost::Fixed(1), stars: CardCost::NoCost },
            upgraded_costs: None,
            keywords: KeywordList::Exhaust,
            upgraded_keywords: KeywordList::Empty,
            tags: TagList::Empty,
            can_generate_in_combat: true,
            play: CardPlay::Body(CardId::BurningPact),
            rules: CardRules { on_event: None, decide: None },
        },
        CardSpec {
            id: CardId::Cascade,
            loc_key: "card.CASCADE",
            pool: CardPoolId::Ironclad,
            card_type: CardType::Skill,
            rarity: CardRarity::Rare,
            target: TargetType::SelfTarget,
            base_costs: CardCosts { energy: CardCost::X, stars: CardCost::NoCost },
            upgraded_costs: None,
            keywords: KeywordList::Empty,
            upgraded_keywords: KeywordList::Empty,
            tags: TagList::Empty,
            can_generate_in_combat: true,
            play: CardPlay::Body(CardId::Cascade),
            rules: CardRules { on_event: None, decide: None },
        },
        CardSpec {
            id: CardId::Cinder,
            loc_key: "card.CINDER",
            pool: CardPoolId::Ironclad,
            card_type: CardType::Attack,
            rarity: CardRarity::Common,
            target: TargetType::Enemy,
            base_costs: CardCosts { energy: CardCost::Fixed(2), stars: CardCost::NoCost },
            upgraded_costs: None,
            keywords: KeywordList::Exhaust,
            upgraded_keywords: KeywordList::Empty,
            tags: TagList::Empty,
            can_generate_in_combat: true,
            play: CardPlay::Body(CardId::Cinder),
            rules: CardRules { on_event: None, decide: None },
        },
        CardSpec {
            id: CardId::Colossus,
            loc_key: "card.COLOSSUS",
            pool: CardPoolId::Ironclad,
            card_type: CardType::Skill,
            rarity: CardRarity::Uncommon,
            target: TargetType::SelfTarget,
            base_costs: CardCosts { energy: CardCost::Fixed(1), stars: CardCost::NoCost },
            upgraded_costs: None,
            keywords: KeywordList::Empty,
            upgraded_keywords: KeywordList::Empty,
            tags: TagList::Empty,
            can_generate_in_combat: true,
            play: CardPlay::Body(CardId::Colossus),
            rules: CardRules { on_event: None, decide: None },
        },
        CardSpec {
            id: CardId::Conflagration,
            loc_key: "card.CONFLAGRATION",
            pool: CardPoolId::Ironclad,
            card_type: CardType::Attack,
            rarity: CardRarity::Rare,
            target: TargetType::AllEnemies,
            base_costs: CardCosts { energy: CardCost::Fixed(1), stars: CardCost::NoCost },
            upgraded_costs: None,
            keywords: KeywordList::Empty,
            upgraded_keywords: KeywordList::Empty,
            tags: TagList::Empty,
            can_generate_in_combat: true,
            play: CardPlay::Body(CardId::Conflagration),
            rules: CardRules { on_event: None, decide: None },
        },
        CardSpec {
            id: CardId::Corruption,
            loc_key: "card.CORRUPTION",
            pool: CardPoolId::Ironclad,
            card_type: CardType::Power,
            rarity: CardRarity::Ancient,
            target: TargetType::SelfTarget,
            base_costs: CardCosts { energy: CardCost::Fixed(3), stars: CardCost::NoCost },
            upgraded_costs: Some(CardCosts { energy: CardCost::Fixed(2), stars: CardCost::NoCost }),
            keywords: KeywordList::Exhaust,
            upgraded_keywords: KeywordList::Empty,
            tags: TagList::Empty,
            can_generate_in_combat: true,
            play: CardPlay::Body(CardId::Corruption),
            rules: CardRules { on_event: None, decide: None },
        },
        CardSpec {
            id: CardId::CrimsonMantle,
            loc_key: "card.CRIMSON_MANTLE",
            pool: CardPoolId::Ironclad,
            card_type: CardType::Power,
            rarity: CardRarity::Rare,
            target: TargetType::SelfTarget,
            base_costs: CardCosts { energy: CardCost::Fixed(1), stars: CardCost::NoCost },
            upgraded_costs: None,
            keywords: KeywordList::Empty,
            upgraded_keywords: KeywordList::Empty,
            tags: TagList::Empty,
            can_generate_in_combat: true,
            play: CardPlay::Body(CardId::CrimsonMantle),
            rules: CardRules { on_event: None, decide: None },
        },
        CardSpec {
            id: CardId::Cruelty,
            loc_key: "card.CRUELTY",
            pool: CardPoolId::Ironclad,
            card_type: CardType::Power,
            rarity: CardRarity::Rare,
            target: TargetType::SelfTarget,
            base_costs: CardCosts { energy: CardCost::Fixed(1), stars: CardCost::NoCost },
            upgraded_costs: None,
            keywords: KeywordList::Empty,
            upgraded_keywords: KeywordList::Empty,
            tags: TagList::Empty,
            can_generate_in_combat: true,
            play: CardPlay::Body(CardId::Cruelty),
            rules: CardRules { on_event: None, decide: None },
        },
        CardSpec {
            id: CardId::DarkEmbrace,
            loc_key: "card.DARK_EMBRACE",
            pool: CardPoolId::Ironclad,
            card_type: CardType::Power,
            rarity: CardRarity::Rare,
            target: TargetType::SelfTarget,
            base_costs: CardCosts { energy: CardCost::Fixed(2), stars: CardCost::NoCost },
            upgraded_costs: Some(CardCosts { energy: CardCost::Fixed(1), stars: CardCost::NoCost }),
            keywords: KeywordList::Exhaust,
            upgraded_keywords: KeywordList::Empty,
            tags: TagList::Empty,
            can_generate_in_combat: true,
            play: CardPlay::Body(CardId::DarkEmbrace),
            rules: CardRules { on_event: None, decide: None },
        },
        CardSpec {
            id: CardId::DefendIronclad,
            loc_key: "card.DEFEND_IRONCLAD",
            pool: CardPoolId::Ironclad,
            card_type: CardType::Skill,
            rarity: CardRarity::Basic,
            target: TargetType::SelfTarget,
            base_costs: CardCosts { energy: CardCost::Fixed(1), stars: CardCost::NoCost },
            upgraded_costs: None,
            keywords: KeywordList::Empty,
            upgraded_keywords: KeywordList::Empty,
            tags: TagList::Defend,
            can_generate_in_combat: true,
            play: CardPlay::Body(CardId::DefendIronclad),
            rules: CardRules { on_event: None, decide: None },
        },
        CardSpec {
            id: CardId::DemonForm,
            loc_key: "card.DEMON_FORM",
            pool: CardPoolId::Ironclad,
            card_type: CardType::Power,
            rarity: CardRarity::Rare,
            target: TargetType::SelfTarget,
            base_costs: CardCosts { energy: CardCost::Fixed(3), stars: CardCost::NoCost },
            upgraded_costs: None,
            keywords: KeywordList::Empty,
            upgraded_keywords: KeywordList::Empty,
            tags: TagList::Empty,
            can_generate_in_combat: true,
            play: CardPlay::Body(CardId::DemonForm),
            rules: CardRules { on_event: None, decide: None },
        },
        CardSpec {
            id: CardId::DemonicShield,
            loc_key: "card.DEMONIC_SHIELD",
            pool: CardPoolId::Ironclad,
            card_type: CardType::Skill,
            rarity: CardRarity::Uncommon,
            target: TargetType::AnyAlly,
            base_costs: CardCosts { energy: CardCost::Fixed(0), stars: CardCost::NoCost },
            upgraded_costs: None,
            keywords: KeywordList::Exhaust,
            upgraded_keywords: KeywordList::Empty,
            tags: TagList::Empty,
            can_generate_in_combat: true,
            play: CardPlay::Body(CardId::DemonicShield),
            rules: CardRules { on_event: None, decide: None },
        },
        CardSpec {
            id: CardId::Dismantle,
            loc_key: "card.DISMANTLE",
            pool: CardPoolId::Ironclad,
            card_type: CardType::Attack,
            rarity: CardRarity::Uncommon,
            target: TargetType::Enemy,
            base_costs: CardCosts { energy: CardCost::Fixed(1), stars: CardCost::NoCost },
            upgraded_costs: None,
            keywords: KeywordList::Empty,
            upgraded_keywords: KeywordList::Empty,
            tags: TagList::Empty,
            can_generate_in_combat: true,
            play: CardPlay::Body(CardId::Dismantle),
            rules: CardRules { on_event: None, decide: None },
        },
        CardSpec {
            id: CardId::Dominate,
            loc_key: "card.DOMINATE",
            pool: CardPoolId::Ironclad,
            card_type: CardType::Skill,
            rarity: CardRarity::Uncommon,
            target: TargetType::Enemy,
            base_costs: CardCosts { energy: CardCost::Fixed(1), stars: CardCost::NoCost },
            upgraded_costs: None,
            keywords: KeywordList::Exhaust,
            upgraded_keywords: KeywordList::Empty,
            tags: TagList::Empty,
            can_generate_in_combat: true,
            play: CardPlay::Body(CardId::Dominate),
            rules: CardRules { on_event: None, decide: None },
        },
        CardSpec {
            id: CardId::DrumOfBattle,
            loc_key: "card.DRUM_OF_BATTLE",
            pool: CardPoolId::Ironclad,
            card_type: CardType::Power,
            rarity: CardRarity::Uncommon,
            target: TargetType::SelfTarget,
            base_costs: CardCosts { energy: CardCost::Fixed(0), stars: CardCost::NoCost },
            upgraded_costs: None,
            keywords: KeywordList::Exhaust,
            upgraded_keywords: KeywordList::Empty,
            tags: TagList::Empty,
            can_generate_in_combat: true,
            play: CardPlay::Body(CardId::DrumOfBattle),
            rules: CardRules { on_event: None, decide: None },
        },
        CardSpec {
            id: CardId::EvilEye,
            loc_key: "card.EVIL_EYE",
            pool: CardPoolId::Ironclad,
            card_type: CardType::Skill,
            rarity: CardRarity::Uncommon,
            target: TargetType::SelfTarget,
            base_costs: CardCosts { energy: CardCost::Fixed(1), stars: CardCost::NoCost },
            upgraded_costs: None,
            keywords: KeywordList::Exhaust,
            upgraded_keywords: KeywordList::Empty,
            tags: TagList::Empty,
            can_generate_in_combat: true,
            play: CardPlay::Body(CardId::EvilEye),
            rules: CardRules { on_event: None, decide: None },
        },
        CardSpec {
            id: CardId::ExpectAFight,
            loc_key: "card.EXPECT_A_FIGHT",
            pool: CardPoolId::Ironclad,
            card_type: CardType::Skill,
            rarity: CardRarity::Uncommon,
            target: TargetType::SelfTarget,
            base_costs: CardCosts { energy: CardCost::Fixed(2), stars: CardCost::NoCost },
            upgraded_costs: Some(CardCosts { energy: CardCost::Fixed(1), stars: CardCost::NoCost }),
            keywords: KeywordList::Empty,
            upgraded_keywords: KeywordList::Empty,
            tags: TagList::Empty,
            can_generate_in_combat: true,
            play: CardPlay::Body(CardId::ExpectAFight),
            rules: CardRules { on_event: None, decide: None },
        },
        CardSpec {
            id: CardId::Feed,
            loc_key: "card.FEED",
            pool: CardPoolId::Ironclad,
            card_type: CardType::Attack,
            rarity: CardRarity::Rare,
            target: TargetType::Enemy,
            base_costs: CardCosts { energy: CardCost::Fixed(1), stars: CardCost::NoCost },
            upgraded_costs: None,
            keywords: KeywordList::Exhaust,
            upgraded_keywords: KeywordList::Empty,
            tags: TagList::Empty,
            can_generate_in_combat: true,
            play: CardPlay::Body(CardId::Feed),
            rules: CardRules { on_event: None, decide: None },
        },
        CardSpec {
            id: CardId::FeelNoPain,
            loc_key: "card.FEEL_NO_PAIN",
            pool: CardPoolId::Ironclad,
            card_type: CardType::Power,
            rarity: CardRarity::Uncommon,
            target: TargetType::SelfTarget,
            base_costs: CardCosts { energy: CardCost::Fixed(1), stars: CardCost::NoCost },
            upgraded_costs: None,
            keywords: KeywordList::Exhaust,
            upgraded_keywords: KeywordList::Empty,
            tags: TagList::Empty,
            can_generate_in_combat: true,
            play: CardPlay::Body(CardId::FeelNoPain),
            rules: CardRules { on_event: None, decide: None },
        },
        CardSpec {
            id: CardId::FiendFire,
            loc_key: "card.FIEND_FIRE",
            pool: CardPoolId::Ironclad,
            card_type: CardType::Attack,
            rarity: CardRarity::Rare,
            target: TargetType::Enemy,
            base_costs: CardCosts { energy: CardCost::Fixed(2), stars: CardCost::NoCost },
            upgraded_costs: None,
            keywords: KeywordList::Exhaust,
            upgraded_keywords: KeywordList::Empty,
            tags: TagList::Empty,
            can_generate_in_combat: true,
            play: CardPlay::Body(CardId::FiendFire),
            rules: CardRules { on_event: None, decide: None },
        },
        CardSpec {
            id: CardId::FightMe,
            loc_key: "card.FIGHT_ME",
            pool: CardPoolId::Ironclad,
            card_type: CardType::Attack,
            rarity: CardRarity::Uncommon,
            target: TargetType::Enemy,
            base_costs: CardCosts { energy: CardCost::Fixed(2), stars: CardCost::NoCost },
            upgraded_costs: None,
            keywords: KeywordList::Empty,
            upgraded_keywords: KeywordList::Empty,
            tags: TagList::Empty,
            can_generate_in_combat: true,
            play: CardPlay::Body(CardId::FightMe),
            rules: CardRules { on_event: None, decide: None },
        },
        CardSpec {
            id: CardId::FlameBarrier,
            loc_key: "card.FLAME_BARRIER",
            pool: CardPoolId::Ironclad,
            card_type: CardType::Skill,
            rarity: CardRarity::Uncommon,
            target: TargetType::SelfTarget,
            base_costs: CardCosts { energy: CardCost::Fixed(2), stars: CardCost::NoCost },
            upgraded_costs: None,
            keywords: KeywordList::Empty,
            upgraded_keywords: KeywordList::Empty,
            tags: TagList::Empty,
            can_generate_in_combat: true,
            play: CardPlay::Body(CardId::FlameBarrier),
            rules: CardRules { on_event: None, decide: None },
        },
        CardSpec {
            id: CardId::ForgottenRitual,
            loc_key: "card.FORGOTTEN_RITUAL",
            pool: CardPoolId::Ironclad,
            card_type: CardType::Skill,
            rarity: CardRarity::Uncommon,
            target: TargetType::SelfTarget,
            base_costs: CardCosts { energy: CardCost::Fixed(1), stars: CardCost::NoCost },
            upgraded_costs: None,
            keywords: KeywordList::Exhaust,
            upgraded_keywords: KeywordList::Empty,
            tags: TagList::Empty,
            can_generate_in_combat: true,
            play: CardPlay::Body(CardId::ForgottenRitual),
            rules: CardRules { on_event: None, decide: None },
        },
        CardSpec {
            id: CardId::Havoc,
            loc_key: "card.HAVOC",
            pool: CardPoolId::Ironclad,
            card_type: CardType::Skill,
            rarity: CardRarity::Common,
            target: TargetType::SelfTarget,
            base_costs: CardCosts { energy: CardCost::Fixed(1), stars: CardCost::NoCost },
            upgraded_costs: None,
            keywords: KeywordList::Empty,
            upgraded_keywords: KeywordList::Empty,
            tags: TagList::Empty,
            can_generate_in_combat: true,
            play: CardPlay::Body(CardId::Havoc),
            rules: CardRules { on_event: None, decide: None },
        },
        CardSpec {
            id: CardId::Headbutt,
            loc_key: "card.HEADBUTT",
            pool: CardPoolId::Ironclad,
            card_type: CardType::Attack,
            rarity: CardRarity::Common,
            target: TargetType::Enemy,
            base_costs: CardCosts { energy: CardCost::Fixed(1), stars: CardCost::NoCost },
            upgraded_costs: None,
            keywords: KeywordList::Empty,
            upgraded_keywords: KeywordList::Empty,
            tags: TagList::Empty,
            can_generate_in_combat: true,
            play: CardPlay::Body(CardId::Headbutt),
            rules: CardRules { on_event: None, decide: None },
        },
        CardSpec {
            id: CardId::Hellraiser,
            loc_key: "card.HELLRAISER",
            pool: CardPoolId::Ironclad,
            card_type: CardType::Power,
            rarity: CardRarity::Rare,
            target: TargetType::SelfTarget,
            base_costs: CardCosts { energy: CardCost::Fixed(2), stars: CardCost::NoCost },
            upgraded_costs: None,
            keywords: KeywordList::Empty,
            upgraded_keywords: KeywordList::Empty,
            tags: TagList::Empty,
            can_generate_in_combat: true,
            play: CardPlay::Body(CardId::Hellraiser),
            rules: CardRules { on_event: None, decide: None },
        },
        CardSpec {
            id: CardId::Hemokinesis,
            loc_key: "card.HEMOKINESIS",
            pool: CardPoolId::Ironclad,
            card_type: CardType::Attack,
            rarity: CardRarity::Uncommon,
            target: TargetType::Enemy,
            base_costs: CardCosts { energy: CardCost::Fixed(1), stars: CardCost::NoCost },
            upgraded_costs: None,
            keywords: KeywordList::Empty,
            upgraded_keywords: KeywordList::Empty,
            tags: TagList::Empty,
            can_generate_in_combat: true,
            play: CardPlay::Body(CardId::Hemokinesis),
            rules: CardRules { on_event: None, decide: None },
        },
        CardSpec {
            id: CardId::HowlFromBeyond,
            loc_key: "card.HOWL_FROM_BEYOND",
            pool: CardPoolId::Ironclad,
            card_type: CardType::Attack,
            rarity: CardRarity::Uncommon,
            target: TargetType::AllEnemies,
            base_costs: CardCosts { energy: CardCost::Fixed(3), stars: CardCost::NoCost },
            upgraded_costs: None,
            keywords: KeywordList::Empty,
            upgraded_keywords: KeywordList::Empty,
            tags: TagList::Empty,
            can_generate_in_combat: true,
            play: CardPlay::Body(CardId::HowlFromBeyond),
            rules: CardRules { on_event: None, decide: None },
        },
        CardSpec {
            id: CardId::Impervious,
            loc_key: "card.IMPERVIOUS",
            pool: CardPoolId::Ironclad,
            card_type: CardType::Skill,
            rarity: CardRarity::Rare,
            target: TargetType::SelfTarget,
            base_costs: CardCosts { energy: CardCost::Fixed(2), stars: CardCost::NoCost },
            upgraded_costs: None,
            keywords: KeywordList::Empty,
            upgraded_keywords: KeywordList::Empty,
            tags: TagList::Empty,
            can_generate_in_combat: true,
            play: CardPlay::Body(CardId::Impervious),
            rules: CardRules { on_event: None, decide: None },
        },
        CardSpec {
            id: CardId::InfernalBlade,
            loc_key: "card.INFERNAL_BLADE",
            pool: CardPoolId::Ironclad,
            card_type: CardType::Skill,
            rarity: CardRarity::Uncommon,
            target: TargetType::SelfTarget,
            base_costs: CardCosts { energy: CardCost::Fixed(1), stars: CardCost::NoCost },
            upgraded_costs: None,
            keywords: KeywordList::Empty,
            upgraded_keywords: KeywordList::Empty,
            tags: TagList::Empty,
            can_generate_in_combat: true,
            play: CardPlay::Body(CardId::InfernalBlade),
            rules: CardRules { on_event: None, decide: None },
        },
        CardSpec {
            id: CardId::Inferno,
            loc_key: "card.INFERNO",
            pool: CardPoolId::Ironclad,
            card_type: CardType::Power,
            rarity: CardRarity::Uncommon,
            target: TargetType::SelfTarget,
            base_costs: CardCosts { energy: CardCost::Fixed(1), stars: CardCost::NoCost },
            upgraded_costs: None,
            keywords: KeywordList::Empty,
            upgraded_keywords: KeywordList::Empty,
            tags: TagList::Empty,
            can_generate_in_combat: true,
            play: CardPlay::Body(CardId::Inferno),
            rules: CardRules { on_event: None, decide: None },
        },
        CardSpec {
            id: CardId::Inflame,
            loc_key: "card.INFLAME",
            pool: CardPoolId::Ironclad,
            card_type: CardType::Power,
            rarity: CardRarity::Uncommon,
            target: TargetType::SelfTarget,
            base_costs: CardCosts { energy: CardCost::Fixed(1), stars: CardCost::NoCost },
            upgraded_costs: None,
            keywords: KeywordList::Empty,
            upgraded_keywords: KeywordList::Empty,
            tags: TagList::Empty,
            can_generate_in_combat: true,
            play: CardPlay::Body(CardId::Inflame),
            rules: CardRules { on_event: None, decide: None },
        },
        CardSpec {
            id: CardId::IronWave,
            loc_key: "card.IRON_WAVE",
            pool: CardPoolId::Ironclad,
            card_type: CardType::Attack,
            rarity: CardRarity::Common,
            target: TargetType::Enemy,
            base_costs: CardCosts { energy: CardCost::Fixed(1), stars: CardCost::NoCost },
            upgraded_costs: None,
            keywords: KeywordList::Empty,
            upgraded_keywords: KeywordList::Empty,
            tags: TagList::Empty,
            can_generate_in_combat: true,
            play: CardPlay::Body(CardId::IronWave),
            rules: CardRules { on_event: None, decide: None },
        },
        CardSpec {
            id: CardId::Juggernaut,
            loc_key: "card.JUGGERNAUT",
            pool: CardPoolId::Ironclad,
            card_type: CardType::Power,
            rarity: CardRarity::Rare,
            target: TargetType::SelfTarget,
            base_costs: CardCosts { energy: CardCost::Fixed(2), stars: CardCost::NoCost },
            upgraded_costs: None,
            keywords: KeywordList::Empty,
            upgraded_keywords: KeywordList::Empty,
            tags: TagList::Empty,
            can_generate_in_combat: true,
            play: CardPlay::Body(CardId::Juggernaut),
            rules: CardRules { on_event: None, decide: None },
        },
        CardSpec {
            id: CardId::Juggling,
            loc_key: "card.JUGGLING",
            pool: CardPoolId::Ironclad,
            card_type: CardType::Power,
            rarity: CardRarity::Uncommon,
            target: TargetType::SelfTarget,
            base_costs: CardCosts { energy: CardCost::Fixed(1), stars: CardCost::NoCost },
            upgraded_costs: None,
            keywords: KeywordList::Empty,
            upgraded_keywords: KeywordList::Innate,
            tags: TagList::Empty,
            can_generate_in_combat: true,
            play: CardPlay::Body(CardId::Juggling),
            rules: CardRules { on_event: None, decide: None },
        },
        CardSpec {
            id: CardId::Mangle,
            loc_key: "card.MANGLE",
            pool: CardPoolId::Ironclad,
            card_type: CardType::Attack,
            rarity: CardRarity::Rare,
            target: TargetType::Enemy,
            base_costs: CardCosts { energy: CardCost::Fixed(3), stars: CardCost::NoCost },
            upgraded_costs: None,
            keywords: KeywordList::Empty,
            upgraded_keywords: KeywordList::Empty,
            tags: TagList::Empty,
            can_generate_in_combat: true,
            play: CardPlay::Body(CardId::Mangle),
            rules: CardRules { on_event: None, decide: None },
        },
        CardSpec {
            id: CardId::MoltenFist,
            loc_key: "card.MOLTEN_FIST",
            pool: CardPoolId::Ironclad,
            card_type: CardType::Attack,
            rarity: CardRarity::Common,
            target: TargetType::Enemy,
            base_costs: CardCosts { energy: CardCost::Fixed(1), stars: CardCost::NoCost },
            upgraded_costs: None,
            keywords: KeywordList::Exhaust,
            upgraded_keywords: KeywordList::Empty,
            tags: TagList::Empty,
            can_generate_in_combat: true,
            play: CardPlay::Body(CardId::MoltenFist),
            rules: CardRules { on_event: None, decide: None },
        },
        CardSpec {
            id: CardId::NotYet,
            loc_key: "card.NOT_YET",
            pool: CardPoolId::Ironclad,
            card_type: CardType::Skill,
            rarity: CardRarity::Rare,
            target: TargetType::SelfTarget,
            base_costs: CardCosts { energy: CardCost::Fixed(2), stars: CardCost::NoCost },
            upgraded_costs: None,
            keywords: KeywordList::Exhaust,
            upgraded_keywords: KeywordList::Empty,
            tags: TagList::Empty,
            can_generate_in_combat: false,
            play: CardPlay::Body(CardId::NotYet),
            rules: CardRules { on_event: None, decide: None },
        },
        CardSpec {
            id: CardId::Offering,
            loc_key: "card.OFFERING",
            pool: CardPoolId::Ironclad,
            card_type: CardType::Skill,
            rarity: CardRarity::Rare,
            target: TargetType::SelfTarget,
            base_costs: CardCosts { energy: CardCost::Fixed(0), stars: CardCost::NoCost },
            upgraded_costs: None,
            keywords: KeywordList::Exhaust,
            upgraded_keywords: KeywordList::Empty,
            tags: TagList::Empty,
            can_generate_in_combat: true,
            play: CardPlay::Body(CardId::Offering),
            rules: CardRules { on_event: None, decide: None },
        },
        CardSpec {
            id: CardId::OneTwoPunch,
            loc_key: "card.ONE_TWO_PUNCH",
            pool: CardPoolId::Ironclad,
            card_type: CardType::Skill,
            rarity: CardRarity::Rare,
            target: TargetType::SelfTarget,
            base_costs: CardCosts { energy: CardCost::Fixed(1), stars: CardCost::NoCost },
            upgraded_costs: None,
            keywords: KeywordList::Empty,
            upgraded_keywords: KeywordList::Empty,
            tags: TagList::Empty,
            can_generate_in_combat: true,
            play: CardPlay::Body(CardId::OneTwoPunch),
            rules: CardRules { on_event: None, decide: None },
        },
        CardSpec {
            id: CardId::PactsEnd,
            loc_key: "card.PACTS_END",
            pool: CardPoolId::Ironclad,
            card_type: CardType::Attack,
            rarity: CardRarity::Rare,
            target: TargetType::AllEnemies,
            base_costs: CardCosts { energy: CardCost::Fixed(0), stars: CardCost::NoCost },
            upgraded_costs: None,
            keywords: KeywordList::Empty,
            upgraded_keywords: KeywordList::Empty,
            tags: TagList::Empty,
            can_generate_in_combat: true,
            play: CardPlay::Body(CardId::PactsEnd),
            rules: CardRules { on_event: None, decide: None },
        },
        CardSpec {
            id: CardId::PerfectedStrike,
            loc_key: "card.PERFECTED_STRIKE",
            pool: CardPoolId::Ironclad,
            card_type: CardType::Attack,
            rarity: CardRarity::Common,
            target: TargetType::Enemy,
            base_costs: CardCosts { energy: CardCost::Fixed(2), stars: CardCost::NoCost },
            upgraded_costs: None,
            keywords: KeywordList::Empty,
            upgraded_keywords: KeywordList::Empty,
            tags: TagList::Strike,
            can_generate_in_combat: true,
            play: CardPlay::Body(CardId::PerfectedStrike),
            rules: CardRules { on_event: None, decide: None },
        },
        CardSpec {
            id: CardId::Pillage,
            loc_key: "card.PILLAGE",
            pool: CardPoolId::Ironclad,
            card_type: CardType::Attack,
            rarity: CardRarity::Uncommon,
            target: TargetType::Enemy,
            base_costs: CardCosts { energy: CardCost::Fixed(1), stars: CardCost::NoCost },
            upgraded_costs: None,
            keywords: KeywordList::Empty,
            upgraded_keywords: KeywordList::Empty,
            tags: TagList::Empty,
            can_generate_in_combat: true,
            play: CardPlay::Body(CardId::Pillage),
            rules: CardRules { on_event: None, decide: None },
        },
        CardSpec {
            id: CardId::PommelStrike,
            loc_key: "card.POMMEL_STRIKE",
            pool: CardPoolId::Ironclad,
            card_type: CardType::Attack,
            rarity: CardRarity::Common,
            target: TargetType::Enemy,
            base_costs: CardCosts { energy: CardCost::Fixed(1), stars: CardCost::NoCost },
            upgraded_costs: None,
            keywords: KeywordList::Empty,
            upgraded_keywords: KeywordList::Empty,
            tags: TagList::Strike,
            can_generate_in_combat: true,
            play: CardPlay::Body(CardId::PommelStrike),
            rules: CardRules { on_event: None, decide: None },
        },
        CardSpec {
            id: CardId::PrimalForce,
            loc_key: "card.PRIMAL_FORCE",
            pool: CardPoolId::Ironclad,
            card_type: CardType::Skill,
            rarity: CardRarity::Rare,
            target: TargetType::SelfTarget,
            base_costs: CardCosts { energy: CardCost::Fixed(0), stars: CardCost::NoCost },
            upgraded_costs: None,
            keywords: KeywordList::Empty,
            upgraded_keywords: KeywordList::Empty,
            tags: TagList::Empty,
            can_generate_in_combat: true,
            play: CardPlay::Body(CardId::PrimalForce),
            rules: CardRules { on_event: None, decide: None },
        },
        CardSpec {
            id: CardId::Pyre,
            loc_key: "card.PYRE",
            pool: CardPoolId::Ironclad,
            card_type: CardType::Power,
            rarity: CardRarity::Rare,
            target: TargetType::SelfTarget,
            base_costs: CardCosts { energy: CardCost::Fixed(2), stars: CardCost::NoCost },
            upgraded_costs: None,
            keywords: KeywordList::Empty,
            upgraded_keywords: KeywordList::Empty,
            tags: TagList::Empty,
            can_generate_in_combat: true,
            play: CardPlay::Body(CardId::Pyre),
            rules: CardRules { on_event: None, decide: None },
        },
        CardSpec {
            id: CardId::Rage,
            loc_key: "card.RAGE",
            pool: CardPoolId::Ironclad,
            card_type: CardType::Skill,
            rarity: CardRarity::Uncommon,
            target: TargetType::SelfTarget,
            base_costs: CardCosts { energy: CardCost::Fixed(0), stars: CardCost::NoCost },
            upgraded_costs: None,
            keywords: KeywordList::Empty,
            upgraded_keywords: KeywordList::Empty,
            tags: TagList::Empty,
            can_generate_in_combat: true,
            play: CardPlay::Body(CardId::Rage),
            rules: CardRules { on_event: None, decide: None },
        },
        CardSpec {
            id: CardId::Rampage,
            loc_key: "card.RAMPAGE",
            pool: CardPoolId::Ironclad,
            card_type: CardType::Attack,
            rarity: CardRarity::Uncommon,
            target: TargetType::Enemy,
            base_costs: CardCosts { energy: CardCost::Fixed(1), stars: CardCost::NoCost },
            upgraded_costs: None,
            keywords: KeywordList::Empty,
            upgraded_keywords: KeywordList::Empty,
            tags: TagList::Empty,
            can_generate_in_combat: true,
            play: CardPlay::Body(CardId::Rampage),
            rules: CardRules { on_event: None, decide: None },
        },
        CardSpec {
            id: CardId::Rupture,
            loc_key: "card.RUPTURE",
            pool: CardPoolId::Ironclad,
            card_type: CardType::Power,
            rarity: CardRarity::Uncommon,
            target: TargetType::SelfTarget,
            base_costs: CardCosts { energy: CardCost::Fixed(1), stars: CardCost::NoCost },
            upgraded_costs: None,
            keywords: KeywordList::Empty,
            upgraded_keywords: KeywordList::Empty,
            tags: TagList::Empty,
            can_generate_in_combat: true,
            play: CardPlay::Body(CardId::Rupture),
            rules: CardRules { on_event: None, decide: None },
        },
        CardSpec {
            id: CardId::SecondWind,
            loc_key: "card.SECOND_WIND",
            pool: CardPoolId::Ironclad,
            card_type: CardType::Skill,
            rarity: CardRarity::Uncommon,
            target: TargetType::SelfTarget,
            base_costs: CardCosts { energy: CardCost::Fixed(1), stars: CardCost::NoCost },
            upgraded_costs: None,
            keywords: KeywordList::Exhaust,
            upgraded_keywords: KeywordList::Empty,
            tags: TagList::Empty,
            can_generate_in_combat: true,
            play: CardPlay::Body(CardId::SecondWind),
            rules: CardRules { on_event: None, decide: None },
        },
        CardSpec {
            id: CardId::SetupStrike,
            loc_key: "card.SETUP_STRIKE",
            pool: CardPoolId::Ironclad,
            card_type: CardType::Attack,
            rarity: CardRarity::Common,
            target: TargetType::Enemy,
            base_costs: CardCosts { energy: CardCost::Fixed(1), stars: CardCost::NoCost },
            upgraded_costs: None,
            keywords: KeywordList::Empty,
            upgraded_keywords: KeywordList::Empty,
            tags: TagList::Strike,
            can_generate_in_combat: true,
            play: CardPlay::Body(CardId::SetupStrike),
            rules: CardRules { on_event: None, decide: None },
        },
        CardSpec {
            id: CardId::ShrugItOff,
            loc_key: "card.SHRUG_IT_OFF",
            pool: CardPoolId::Ironclad,
            card_type: CardType::Skill,
            rarity: CardRarity::Common,
            target: TargetType::SelfTarget,
            base_costs: CardCosts { energy: CardCost::Fixed(1), stars: CardCost::NoCost },
            upgraded_costs: None,
            keywords: KeywordList::Empty,
            upgraded_keywords: KeywordList::Empty,
            tags: TagList::Empty,
            can_generate_in_combat: true,
            play: CardPlay::Body(CardId::ShrugItOff),
            rules: CardRules { on_event: None, decide: None },
        },
        CardSpec {
            id: CardId::Spite,
            loc_key: "card.SPITE",
            pool: CardPoolId::Ironclad,
            card_type: CardType::Attack,
            rarity: CardRarity::Uncommon,
            target: TargetType::Enemy,
            base_costs: CardCosts { energy: CardCost::Fixed(0), stars: CardCost::NoCost },
            upgraded_costs: None,
            keywords: KeywordList::Empty,
            upgraded_keywords: KeywordList::Empty,
            tags: TagList::Empty,
            can_generate_in_combat: true,
            play: CardPlay::Body(CardId::Spite),
            rules: CardRules { on_event: None, decide: None },
        },
        CardSpec {
            id: CardId::Stampede,
            loc_key: "card.STAMPEDE",
            pool: CardPoolId::Ironclad,
            card_type: CardType::Power,
            rarity: CardRarity::Uncommon,
            target: TargetType::SelfTarget,
            base_costs: CardCosts { energy: CardCost::Fixed(2), stars: CardCost::NoCost },
            upgraded_costs: Some(CardCosts { energy: CardCost::Fixed(1), stars: CardCost::NoCost }),
            keywords: KeywordList::Empty,
            upgraded_keywords: KeywordList::Empty,
            tags: TagList::Empty,
            can_generate_in_combat: true,
            play: CardPlay::Body(CardId::Stampede),
            rules: CardRules { on_event: None, decide: None },
        },
        CardSpec {
            id: CardId::Stoke,
            loc_key: "card.STOKE",
            pool: CardPoolId::Ironclad,
            card_type: CardType::Skill,
            rarity: CardRarity::Rare,
            target: TargetType::SelfTarget,
            base_costs: CardCosts { energy: CardCost::Fixed(1), stars: CardCost::NoCost },
            upgraded_costs: None,
            keywords: KeywordList::Empty,
            upgraded_keywords: KeywordList::Empty,
            tags: TagList::Empty,
            can_generate_in_combat: true,
            play: CardPlay::Body(CardId::Stoke),
            rules: CardRules { on_event: None, decide: None },
        },
        CardSpec {
            id: CardId::Stomp,
            loc_key: "card.STOMP",
            pool: CardPoolId::Ironclad,
            card_type: CardType::Attack,
            rarity: CardRarity::Uncommon,
            target: TargetType::AllEnemies,
            base_costs: CardCosts { energy: CardCost::Fixed(3), stars: CardCost::NoCost },
            upgraded_costs: None,
            keywords: KeywordList::Empty,
            upgraded_keywords: KeywordList::Empty,
            tags: TagList::Empty,
            can_generate_in_combat: true,
            play: CardPlay::Body(CardId::Stomp),
            rules: CardRules { on_event: None, decide: None },
        },
        CardSpec {
            id: CardId::StoneArmor,
            loc_key: "card.STONE_ARMOR",
            pool: CardPoolId::Ironclad,
            card_type: CardType::Power,
            rarity: CardRarity::Uncommon,
            target: TargetType::SelfTarget,
            base_costs: CardCosts { energy: CardCost::Fixed(1), stars: CardCost::NoCost },
            upgraded_costs: None,
            keywords: KeywordList::Empty,
            upgraded_keywords: KeywordList::Empty,
            tags: TagList::Empty,
            can_generate_in_combat: true,
            play: CardPlay::Body(CardId::StoneArmor),
            rules: CardRules { on_event: None, decide: None },
        },
        CardSpec {
            id: CardId::StrikeIronclad,
            loc_key: "card.STRIKE_IRONCLAD",
            pool: CardPoolId::Ironclad,
            card_type: CardType::Attack,
            rarity: CardRarity::Basic,
            target: TargetType::Enemy,
            base_costs: CardCosts { energy: CardCost::Fixed(1), stars: CardCost::NoCost },
            upgraded_costs: None,
            keywords: KeywordList::Empty,
            upgraded_keywords: KeywordList::Empty,
            tags: TagList::Strike,
            can_generate_in_combat: true,
            play: CardPlay::Body(CardId::StrikeIronclad),
            rules: CardRules { on_event: None, decide: None },
        },
        CardSpec {
            id: CardId::SwordBoomerang,
            loc_key: "card.SWORD_BOOMERANG",
            pool: CardPoolId::Ironclad,
            card_type: CardType::Attack,
            rarity: CardRarity::Common,
            target: TargetType::RandomEnemy,
            base_costs: CardCosts { energy: CardCost::Fixed(1), stars: CardCost::NoCost },
            upgraded_costs: None,
            keywords: KeywordList::Empty,
            upgraded_keywords: KeywordList::Empty,
            tags: TagList::Empty,
            can_generate_in_combat: true,
            play: CardPlay::Body(CardId::SwordBoomerang),
            rules: CardRules { on_event: None, decide: None },
        },
        CardSpec {
            id: CardId::Tank,
            loc_key: "card.TANK",
            pool: CardPoolId::Ironclad,
            card_type: CardType::Power,
            rarity: CardRarity::Rare,
            target: TargetType::SelfTarget,
            base_costs: CardCosts { energy: CardCost::Fixed(1), stars: CardCost::NoCost },
            upgraded_costs: Some(CardCosts { energy: CardCost::Fixed(0), stars: CardCost::NoCost }),
            keywords: KeywordList::Empty,
            upgraded_keywords: KeywordList::Empty,
            tags: TagList::Empty,
            can_generate_in_combat: true,
            play: CardPlay::Body(CardId::Tank),
            rules: CardRules { on_event: None, decide: None },
        },
        CardSpec {
            id: CardId::Taunt,
            loc_key: "card.TAUNT",
            pool: CardPoolId::Ironclad,
            card_type: CardType::Skill,
            rarity: CardRarity::Uncommon,
            target: TargetType::Enemy,
            base_costs: CardCosts { energy: CardCost::Fixed(1), stars: CardCost::NoCost },
            upgraded_costs: None,
            keywords: KeywordList::Empty,
            upgraded_keywords: KeywordList::Empty,
            tags: TagList::Empty,
            can_generate_in_combat: true,
            play: CardPlay::Body(CardId::Taunt),
            rules: CardRules { on_event: None, decide: None },
        },
        CardSpec {
            id: CardId::TearAsunder,
            loc_key: "card.TEAR_ASUNDER",
            pool: CardPoolId::Ironclad,
            card_type: CardType::Attack,
            rarity: CardRarity::Rare,
            target: TargetType::Enemy,
            base_costs: CardCosts { energy: CardCost::Fixed(2), stars: CardCost::NoCost },
            upgraded_costs: None,
            keywords: KeywordList::Empty,
            upgraded_keywords: KeywordList::Empty,
            tags: TagList::Empty,
            can_generate_in_combat: true,
            play: CardPlay::Body(CardId::TearAsunder),
            rules: CardRules { on_event: None, decide: None },
        },
        CardSpec {
            id: CardId::Thrash,
            loc_key: "card.THRASH",
            pool: CardPoolId::Ironclad,
            card_type: CardType::Attack,
            rarity: CardRarity::Rare,
            target: TargetType::Enemy,
            base_costs: CardCosts { energy: CardCost::Fixed(1), stars: CardCost::NoCost },
            upgraded_costs: None,
            keywords: KeywordList::Exhaust,
            upgraded_keywords: KeywordList::Empty,
            tags: TagList::Empty,
            can_generate_in_combat: true,
            play: CardPlay::Body(CardId::Thrash),
            rules: CardRules { on_event: None, decide: None },
        },
        CardSpec {
            id: CardId::Thunderclap,
            loc_key: "card.THUNDERCLAP",
            pool: CardPoolId::Ironclad,
            card_type: CardType::Attack,
            rarity: CardRarity::Common,
            target: TargetType::AllEnemies,
            base_costs: CardCosts { energy: CardCost::Fixed(1), stars: CardCost::NoCost },
            upgraded_costs: None,
            keywords: KeywordList::Empty,
            upgraded_keywords: KeywordList::Empty,
            tags: TagList::Empty,
            can_generate_in_combat: true,
            play: CardPlay::Body(CardId::Thunderclap),
            rules: CardRules { on_event: None, decide: None },
        },
        CardSpec {
            id: CardId::Tremble,
            loc_key: "card.TREMBLE",
            pool: CardPoolId::Ironclad,
            card_type: CardType::Skill,
            rarity: CardRarity::Common,
            target: TargetType::Enemy,
            base_costs: CardCosts { energy: CardCost::Fixed(1), stars: CardCost::NoCost },
            upgraded_costs: None,
            keywords: KeywordList::Exhaust,
            upgraded_keywords: KeywordList::Empty,
            tags: TagList::Empty,
            can_generate_in_combat: true,
            play: CardPlay::Body(CardId::Tremble),
            rules: CardRules { on_event: None, decide: None },
        },
        CardSpec {
            id: CardId::TrueGrit,
            loc_key: "card.TRUE_GRIT",
            pool: CardPoolId::Ironclad,
            card_type: CardType::Skill,
            rarity: CardRarity::Common,
            target: TargetType::SelfTarget,
            base_costs: CardCosts { energy: CardCost::Fixed(1), stars: CardCost::NoCost },
            upgraded_costs: None,
            keywords: KeywordList::Exhaust,
            upgraded_keywords: KeywordList::Empty,
            tags: TagList::Empty,
            can_generate_in_combat: true,
            play: CardPlay::Body(CardId::TrueGrit),
            rules: CardRules { on_event: None, decide: None },
        },
        CardSpec {
            id: CardId::TwinStrike,
            loc_key: "card.TWIN_STRIKE",
            pool: CardPoolId::Ironclad,
            card_type: CardType::Attack,
            rarity: CardRarity::Common,
            target: TargetType::Enemy,
            base_costs: CardCosts { energy: CardCost::Fixed(1), stars: CardCost::NoCost },
            upgraded_costs: None,
            keywords: KeywordList::Empty,
            upgraded_keywords: KeywordList::Empty,
            tags: TagList::Strike,
            can_generate_in_combat: true,
            play: CardPlay::Body(CardId::TwinStrike),
            rules: CardRules { on_event: None, decide: None },
        },
        CardSpec {
            id: CardId::Unmovable,
            loc_key: "card.UNMOVABLE",
            pool: CardPoolId::Ironclad,
            card_type: CardType::Power,
            rarity: CardRarity::Rare,
            target: TargetType::SelfTarget,
            base_costs: CardCosts { energy: CardCost::Fixed(2), stars: CardCost::NoCost },
            upgraded_costs: Some(CardCosts { energy: CardCost::Fixed(1), stars: CardCost::NoCost }),
            keywords: KeywordList::Empty,
            upgraded_keywords: KeywordList::Empty,
            tags: TagList::Empty,
            can_generate_in_combat: true,
            play: CardPlay::Body(CardId::Unmovable),
            rules: CardRules { on_event: None, decide: None },
        },
        CardSpec {
            id: CardId::Unrelenting,
            loc_key: "card.UNRELENTING",
            pool: CardPoolId::Ironclad,
            card_type: CardType::Attack,
            rarity: CardRarity::Uncommon,
            target: TargetType::Enemy,
            base_costs: CardCosts { energy: CardCost::Fixed(2), stars: CardCost::NoCost },
            upgraded_costs: None,
            keywords: KeywordList::Empty,
            upgraded_keywords: KeywordList::Empty,
            tags: TagList::Empty,
            can_generate_in_combat: true,
            play: CardPlay::Body(CardId::Unrelenting),
            rules: CardRules { on_event: None, decide: None },
        },
        CardSpec {
            id: CardId::Uppercut,
            loc_key: "card.UPPERCUT",
            pool: CardPoolId::Ironclad,
            card_type: CardType::Attack,
            rarity: CardRarity::Uncommon,
            target: TargetType::Enemy,
            base_costs: CardCosts { energy: CardCost::Fixed(2), stars: CardCost::NoCost },
            upgraded_costs: None,
            keywords: KeywordList::Empty,
            upgraded_keywords: KeywordList::Empty,
            tags: TagList::Empty,
            can_generate_in_combat: true,
            play: CardPlay::Body(CardId::Uppercut),
            rules: CardRules { on_event: None, decide: None },
        },
        CardSpec {
            id: CardId::Vicious,
            loc_key: "card.VICIOUS",
            pool: CardPoolId::Ironclad,
            card_type: CardType::Power,
            rarity: CardRarity::Uncommon,
            target: TargetType::SelfTarget,
            base_costs: CardCosts { energy: CardCost::Fixed(1), stars: CardCost::NoCost },
            upgraded_costs: None,
            keywords: KeywordList::Empty,
            upgraded_keywords: KeywordList::Empty,
            tags: TagList::Empty,
            can_generate_in_combat: true,
            play: CardPlay::Body(CardId::Vicious),
            rules: CardRules { on_event: None, decide: None },
        },
        CardSpec {
            id: CardId::Whirlwind,
            loc_key: "card.WHIRLWIND",
            pool: CardPoolId::Ironclad,
            card_type: CardType::Attack,
            rarity: CardRarity::Uncommon,
            target: TargetType::AllEnemies,
            base_costs: CardCosts { energy: CardCost::X, stars: CardCost::NoCost },
            upgraded_costs: None,
            keywords: KeywordList::Empty,
            upgraded_keywords: KeywordList::Empty,
            tags: TagList::Empty,
            can_generate_in_combat: true,
            play: CardPlay::Body(CardId::Whirlwind),
            rules: CardRules { on_event: None, decide: None },
        },
    ]
}

/// Giant Rock, the token Primal Force makes; it belongs to the Token pool.
pub open spec fn giant_rock_spec() -> CardSpec {
    CardSpec {
        id: CardId::GiantRock,
        loc_key: "card.GIANT_ROCK",
        pool: CardPoolId::Token,
        card_type: CardType::Attack,
        rarity: CardRarity::Token,
        target: TargetType::Enemy,
        base_costs: CardCosts { energy: CardCost::Fixed(1), stars: CardCost::NoCost },
        upgraded_costs: None,
        keywords: KeywordList::Empty,
        upgraded_keywords: KeywordList::Empty,
        tags: TagList::Empty,
        can_generate_in_combat: true,
        play: CardPlay::Body(CardId::GiantRock),
        rules: CardRules { on_event: None, decide: None },
    }
}

pub fn giant_rock_def() -> (r: CardDef)
    ensures
        giant_rock_spec().describes(r),
{
    let spec = CardSpec {
        id: CardId::GiantRock,
        loc_key: "card.GIANT_ROCK",
        pool: CardPoolId::Token,
        card_type: CardType::Attack,
        rarity: CardRarity::Token,
        target: TargetType::Enemy,
        base_costs: CardCosts { energy: CardCost::Fixed(1), stars: CardCost::NoCost },
        upgraded_costs: None,
        keywords: KeywordList::Empty,
        upgraded_keywords: KeywordList::Empty,
        tags: TagList::Empty,
        can_generate_in_combat: true,
        play: CardPlay::Body(CardId::GiantRock),
        rules: CardRules { on_event: None, decide: None },
    };
    spec.def()
}

/// No two lines of the Ironclad catalogue share an id, and none is Giant Rock.
#[verifier::rlimit(100)]
pub proof fn lemma_ironclad_ids()
    ensures
        ids_distinct(ironclad_table()),
        id_absent(CardId::GiantRock, ironclad_table()),
{
}

/// Registers the Ironclad catalogue and Giant Rock: each line's definition
/// is stored under its id, and other ids keep what they held.
pub fn register_ironclad_cards(registry: &mut DefRegistry<CardId, CardDef>)
    ensures
        forall|k: CardId| #[trigger] final(registry)@.contains_key(k) <==> (old(registry)@.contains_key(k)
            || k == CardId::GiantRock || exists|i: int| 0 <= i < ironclad_table().len() && ironclad_table()[i].id == k),
        stores_lines(final(registry)@, ironclad_table()),
        giant_rock_spec().describes(final(registry)@[CardId::GiantRock]),
        forall|k: CardId| old(registry)@.contains_key(k) && k != CardId::GiantRock && id_absent(k, ironclad_table())
            ==> #[trigger] final(registry)@[k] == old(registry)@[k],
        fresh_lines(old(registry)@, ironclad_table()) && !old(registry)@.contains_key(CardId::GiantRock)
            ==> final(registry).spec_keys() == old(registry).spec_keys() + ids_of(ironclad_table()).push(CardId::GiantRock),
{
    proof {
        lemma_ironclad_ids();
    }
    let specs = ironclad_card_specs();
    register_specs(registry, &specs);
    let ghost mid = registry@;
    let rock = giant_rock_def();
    registry.register(rock);
    proof {
        lemma_stores_lines_insert(mid, specs@, CardId::GiantRock, rock);
        if fresh_lines(old(registry)@, ironclad_table()) && !old(registry)@.contains_key(CardId::GiantRock) {
            assert(!mid.contains_key(CardId::GiantRock));
        }
    }
}

/// The definitions of the Ironclad catalogue, in order.
pub fn ironclad_card_defs() -> (r: Vec<CardDef>)
    ensures
        r@.len() == ironclad_table().len(),
        forall|i: int| 0 <= i < r@.len() ==> #[trigger] ironclad_table()[i].describes(r@[i]),
{
    let specs = ironclad_card_specs();
    defs_of(&specs)
}

/// Strike, the Ironclad's basic attack.
pub fn strike_ironclad() -> (r: CardDef)
    ensures
        ironclad_table()[72].describes(r),
        r.id == STRIKE_IRONCLAD,
{
    let specs = ironclad_card_specs();
    specs[72].def()
}

/// Defend, the Ironclad's basic skill.
pub fn defend_ironclad() -> (r: CardDef)
    ensures
        ironclad_table()[24].describes(r),
        r.id == DEFEND_IRONCLAD,
{
    let specs = ironclad_card_specs();
    specs[24].def()
}

/// A play body that does nothing.
pub fn no_card_effect(ctx: &CardPlayCtx<'_>, card: CardInstanceId, target: Option<CreatureId>) -> (r: Vec<Effect>)
    ensures
        r@ == Seq::<Effect>::empty(),
{
    Vec::new()
}


// ---------------------------------------------------------------------------
// Play bodies
// ---------------------------------------------------------------------------

/// `hits` attacks for `amount` each against the target; nothing without one.
pub open spec fn targeted_attacks(ctx: &CardPlayCtx, card: CardInstanceId, target: Option<CreatureId>, amount: int, hits: nat) -> Seq<Effect> {
    match target {
        Some(t) => attacks(ctx.state, card, t, amount, hits),
        None => Seq::empty(),
    }
}

/// The number of cards in the player's exhaust pile.
pub open spec fn exhaust_count(ctx: &CardPlayCtx) -> int {
    spec_exhaust(ctx.state).len() as i32 as int
}

pub open spec fn strike_ironclad_effects(ctx: &CardPlayCtx, card: CardInstanceId, target: Option<CreatureId>) -> Seq<Effect> {
    spec_strike_like(ctx.state, card, target, 6, 3, 1)
}

fn strike_ironclad_play(ctx: &CardPlayCtx<'_>, card: CardInstanceId, target: Option<CreatureId>) -> (r: Vec<Effect>)
    ensures
        r@ == strike_ironclad_effects(ctx, card, target),
{
    strike_like(ctx, card, target, 6, 3, 1)
}

pub open spec fn bludgeon_effects(ctx: &CardPlayCtx, card: CardInstanceId, target: Option<CreatureId>) -> Seq<Effect> {
    spec_strike_like(ctx.state, card, target, 32, 10, 1)
}

fn bludgeon_play(ctx: &CardPlayCtx<'_>, card: CardInstanceId, target: Option<CreatureId>) -> (r: Vec<Effect>)
    ensures
        r@ == bludgeon_effects(ctx, card, target),
{
    strike_like(ctx, card, target, 32, 10, 1)
}

pub open spec fn giant_rock_effects(ctx: &CardPlayCtx, card: CardInstanceId, target: Option<CreatureId>) -> Seq<Effect> {
    spec_strike_like(ctx.state, card, target, 16, 4, 1)
}

fn giant_rock_play(ctx: &CardPlayCtx<'_>, card: CardInstanceId, target: Option<CreatureId>) -> (r: Vec<Effect>)
    ensures
        r@ == giant_rock_effects(ctx, card, target),
{
    strike_like(ctx, card, target, 16, 4, 1)
}

pub open spec fn aggression_effects(ctx: &CardPlayCtx, card: CardInstanceId) -> Seq<Effect> {
    spec_apply_self_power(ctx.state, card, AGGRESSION_POWER, 1)
}

fn aggression_play(ctx: &CardPlayCtx<'_>, card: CardInstanceId, _target: Option<CreatureId>) -> (r: Vec<Effect>)
    ensures
        r@ == aggression_effects(ctx, card),
{
    apply_self_power(ctx, card, AGGRESSION_POWER, 1)
}

pub open spec fn anger_effects(ctx: &CardPlayCtx, card: CardInstanceId, target: Option<CreatureId>) -> Seq<Effect> {
    spec_strike_like(ctx.state, card, target, 6, 2, 1) + match ctx.state.spec_player_id() {
        Some(p) => seq![
            Effect::AddGeneratedCard {
                player: p,
                def: ANGER,
                to: PileId { owner: p, kind: PileKind::Discard },
                upgraded: spec_is_upgraded(ctx.state, card),
                temporary: false,
                zero_cost_this_turn: false,
            },
        ],
        None => Seq::empty(),
    }
}

fn anger_play(ctx: &CardPlayCtx<'_>, card: CardInstanceId, target: Option<CreatureId>) -> (r: Vec<Effect>)
    ensures
        r@ == anger_effects(ctx, card, target),
{
    let mut effects = strike_like(ctx, card, target, 6, 2, 1);
    if let Some(player) = ctx.state.player_id() {
        effects.push(
            Effect::AddGeneratedCard {
                player,
                def: ANGER,
                to: PileId::player(player, PileKind::Discard),
                upgraded: is_upgraded(ctx, card),
                temporary: false,
                zero_cost_this_turn: false,
            },
        );
    }
    proof {
        if ctx.state.spec_player_id() is None {
            assert(effects@ =~= anger_effects(ctx, card, target));
        }
    }
    effects
}

pub open spec fn armaments_effects(ctx: &CardPlayCtx, card: CardInstanceId) -> Seq<Effect> {
    match ctx.state.spec_player_id() {
        Some(p) => spec_block_self(ctx.state, card, 5, 0).push(
            Effect::UpgradeHand {
                player: p,
                mode: if spec_is_upgraded(ctx.state, card) {
                    UpgradeMode::All
                } else {
                    UpgradeMode::First
                },
            },
        ),
        None => Seq::empty(),
    }
}

fn armaments_play(ctx: &CardPlayCtx<'_>, card: CardInstanceId, _target: Option<CreatureId>) -> (r: Vec<Effect>)
    ensures
        r@ == armaments_effects(ctx, card),
{
    let player = match ctx.state.player_id() {
        Some(p) => p,
        None => return Vec::new(),
    };
    let effects = block_self(ctx, card, 5, 0);
    push(
        effects,
        Effect::UpgradeHand {
            player,
            mode: if is_upgraded(ctx, card) {
                UpgradeMode::All
            } else {
                UpgradeMode::First
            },
        },
    )
}

pub open spec fn ashen_strike_effects(ctx: &CardPlayCtx, card: CardInstanceId, target: Option<CreatureId>) -> Seq<Effect> {
    let extra = if spec_is_upgraded(ctx.state, card) { 4int } else { 3int };
    targeted_attacks(ctx, card, target, 6 + extra * exhaust_count(ctx), 1)
}

fn ashen_strike_play(ctx: &CardPlayCtx<'_>, card: CardInstanceId, target: Option<CreatureId>) -> (r: Vec<Effect>)
    requires
        ironclad_play_fits(ctx, CardId::AshenStrike, card, target),
    ensures
        r@ == ashen_strike_effects(ctx, card, target),
{
    let count = exhaust_len(ctx.state) as i32;
    let extra: i32 = if is_upgraded(ctx, card) { 4 } else { 3 };
    match target {
        Some(t) => attack_effects(ctx, card, t, 6 + extra * count, 1),
        None => Vec::new(),
    }
}

pub open spec fn barricade_effects(ctx: &CardPlayCtx, card: CardInstanceId) -> Seq<Effect> {
    spec_apply_self_power(ctx.state, card, BARRICADE_POWER, 1)
}

fn barricade_play(ctx: &CardPlayCtx<'_>, card: CardInstanceId, _target: Option<CreatureId>) -> (r: Vec<Effect>)
    ensures
        r@ == barricade_effects(ctx, card),
{
    apply_self_power(ctx, card, BARRICADE_POWER, 1)
}

pub open spec fn bash_effects(ctx: &CardPlayCtx, card: CardInstanceId, target: Option<CreatureId>) -> Seq<Effect> {
    match target {
        Some(t) => attacks(ctx.state, card, t, spec_value(ctx.state, card, 8, 2), 1).push(
            spec_apply_power(t, card, VULNERABLE, if spec_is_upgraded(ctx.state, card) { 3 } else { 2 }),
        ),
        None => Seq::empty(),
    }
}

fn bash_play(ctx: &CardPlayCtx<'_>, card: CardInstanceId, target: Option<CreatureId>) -> (r: Vec<Effect>)
    ensures
        r@ == bash_effects(ctx, card, target),
        target is None ==> r@.len() == 0,
        target matches Some(t) ==> r@.len() == 2 && r@[1] == (Effect::ApplyPower {
            target: t,
            power: PowerId::Vulnerable,
            amount: Amount { mantissa: if ctx.state.spec_card(card) matches Some(c) && c.upgraded { 3 } else { 2 }, scale: 0 },
            source: Some(Source::Card(card)),
        }),
{
    let target = match target {
        Some(t) => t,
        None => return Vec::new(),
    };
    let effects = attack_effects(ctx, card, target, value(ctx, card, 8, 2), 1);
    push(effects, apply_power(target, card, VULNERABLE, if is_upgraded(ctx, card) { 3 } else { 2 }))
}

pub open spec fn battle_trance_effects(ctx: &CardPlayCtx, card: CardInstanceId) -> Seq<Effect> {
    match ctx.state.spec_player_id() {
        Some(p) => seq![Effect::DrawCards { player: p, count: spec_value(ctx.state, card, 3, 1) as u8 }]
            + spec_apply_self_power(ctx.state, card, NO_DRAW_POWER, 1),
        None => Seq::empty(),
    }
}

fn battle_trance_play(ctx: &CardPlayCtx<'_>, card: CardInstanceId, _target: Option<CreatureId>) -> (r: Vec<Effect>)
    ensures
        r@ == battle_trance_effects(ctx, card),
{
    let player = match ctx.state.player_id() {
        Some(p) => p,
        None => return Vec::new(),
    };
    let effects = one(Effect::DrawCards { player, count: value(ctx, card, 3, 1) as u8 });
    concat(effects, apply_self_power(ctx, card, NO_DRAW_POWER, 1))
}

pub open spec fn blood_wall_effects(ctx: &CardPlayCtx, card: CardInstanceId) -> Seq<Effect> {
    spec_lose_self_hp(ctx.state, card, 2) + spec_block_self(ctx.state, card, 16, 4)
}

fn blood_wall_play(ctx: &CardPlayCtx<'_>, card: CardInstanceId, _target: Option<CreatureId>) -> (r: Vec<Effect>)
    ensures
        r@ == blood_wall_effects(ctx, card),
{
    concat(lose_self_hp(ctx, card, 2), block_self(ctx, card, 16, 4))
}

pub open spec fn bloodletting_effects(ctx: &CardPlayCtx, card: CardInstanceId) -> Seq<Effect> {
    match ctx.state.spec_player_id() {
        Some(p) => spec_lose_self_hp(ctx.state, card, 3).push(
            Effect::GainResource {
                player: p,
                resource: ResourceKind::Energy,
                amount: spec_value(ctx.state, card, 2, 1) as i32,
            },
        ),
        None => Seq::empty(),
    }
}

fn bloodletting_play(ctx: &CardPlayCtx<'_>, card: CardInstanceId, _target: Option<CreatureId>) -> (r: Vec<Effect>)
    ensures
        r@ == bloodletting_effects(ctx, card),
{
    let player = match ctx.state.player_id() {
        Some(p) => p,
        None => return Vec::new(),
    };
    push(
        lose_self_hp(ctx, card, 3),
        Effect::GainResource { player, resource: ResourceKind::Energy, amount: value(ctx, card, 2, 1) },
    )
}

pub open spec fn body_slam_effects(ctx: &CardPlayCtx, card: CardInstanceId, target: Option<CreatureId>) -> Seq<Effect> {
    targeted_attacks(ctx, card, target, spec_player_block(ctx.state), 1)
}

fn body_slam_play(ctx: &CardPlayCtx<'_>, card: CardInstanceId, target: Option<CreatureId>) -> (r: Vec<Effect>)
    ensures
        r@ == body_slam_effects(ctx, card, target),
{
    let target = match target {
        Some(t) => t,
        None => return Vec::new(),
    };
    attack_effects(ctx, card, target, player_block(ctx.state), 1)
}

pub open spec fn brand_effects(ctx: &CardPlayCtx, card: CardInstanceId) -> Seq<Effect> {
    match ctx.state.spec_player_id() {
        Some(p) => spec_lose_self_hp(ctx.state, card, 1).push(
            Effect::ExhaustRandomHand { player: p, filter: CardFilter::Any },
        ) + spec_apply_self_power(ctx.state, card, STRENGTH, spec_value(ctx.state, card, 1, 1)),
        None => Seq::empty(),
    }
}

fn brand_play(ctx: &CardPlayCtx<'_>, card: CardInstanceId, _target: Option<CreatureId>) -> (r: Vec<Effect>)
    ensures
        r@ == brand_effects(ctx, card),
{
    let player = match ctx.state.player_id() {
        Some(p) => p,
        None => return Vec::new(),
    };
    let effects = push(lose_self_hp(ctx, card, 1), Effect::ExhaustRandomHand { player, filter: CardFilter::Any });
    concat(effects, apply_self_power(ctx, card, STRENGTH, value(ctx, card, 1, 1)))
}

pub open spec fn break_effects(ctx: &CardPlayCtx, card: CardInstanceId, target: Option<CreatureId>) -> Seq<Effect> {
    match target {
        Some(t) => attacks(ctx.state, card, t, spec_value(ctx.state, card, 20, 10), 1).push(
            spec_apply_power(t, card, VULNERABLE, if spec_is_upgraded(ctx.state, card) { 7 } else { 5 }),
        ),
        None => Seq::empty(),
    }
}

fn break_play(ctx: &CardPlayCtx<'_>, card: CardInstanceId, target: Option<CreatureId>) -> (r: Vec<Effect>)
    ensures
        r@ == break_effects(ctx, card, target),
{
    let target = match target {
        Some(t) => t,
        None => return Vec::new(),
    };
    let effects = attack_effects(ctx, card, target, value(ctx, card, 20, 10), 1);
    push(effects, apply_power(target, card, VULNERABLE, if is_upgraded(ctx, card) { 7 } else { 5 }))
}

pub open spec fn breakthrough_effects(ctx: &CardPlayCtx, card: CardInstanceId) -> Seq<Effect> {
    spec_lose_self_hp(ctx.state, card, 1).push(
        spec_all_enemy_attack(ctx.state, card, spec_value(ctx.state, card, 9, 4), 1),
    )
}

fn breakthrough_play(ctx: &CardPlayCtx<'_>, card: CardInstanceId, _target: Option<CreatureId>) -> (r: Vec<Effect>)
    ensures
        r@ == breakthrough_effects(ctx, card),
{
    push(lose_self_hp(ctx, card, 1), all_enemy_attack(ctx, card, value(ctx, card, 9, 4), 1))
}

pub open spec fn bully_effects(ctx: &CardPlayCtx, card: CardInstanceId, target: Option<CreatureId>) -> Seq<Effect> {
    match target {
        Some(t) => {
            let per = if spec_is_upgraded(ctx.state, card) { 3int } else { 2int };
            attacks(ctx.state, card, t, 4 + per * ctx.state.spec_power_amount(t, VULNERABLE), 1)
        },
        None => Seq::empty(),
    }
}

fn bully_play(ctx: &CardPlayCtx<'_>, card: CardInstanceId, target: Option<CreatureId>) -> (r: Vec<Effect>)
    requires
        ironclad_play_fits(ctx, CardId::Bully, card, target),
    ensures
        r@ == bully_effects(ctx, card, target),
{
    let target = match target {
        Some(t) => t,
        None => return Vec::new(),
    };
    let vuln = ctx.state.power_amount(target, VULNERABLE);
    let per_vuln: i32 = if is_upgraded(ctx, card) { 3 } else { 2 };
    attack_effects(ctx, card, target, 4 + per_vuln * vuln, 1)
}

pub open spec fn burning_pact_effects(ctx: &CardPlayCtx, card: CardInstanceId) -> Seq<Effect> {
    match ctx.state.spec_player_id() {
        Some(p) => seq![
            Effect::ExhaustRandomHand { player: p, filter: CardFilter::Any },
            Effect::DrawCards { player: p, count: spec_value(ctx.state, card, 2, 1) as u8 },
        ],
        None => Seq::empty(),
    }
}

fn burning_pact_play(ctx: &CardPlayCtx<'_>, card: CardInstanceId, _target: Option<CreatureId>) -> (r: Vec<Effect>)
    ensures
        r@ == burning_pact_effects(ctx, card),
{
    let player = match ctx.state.player_id() {
        Some(p) => p,
        None => return Vec::new(),
    };
    vec![
        Effect::ExhaustRandomHand { player, filter: CardFilter::Any },
        Effect::DrawCards { player, count: value(ctx, card, 2, 1) as u8 },
    ]
}

pub open spec fn cascade_effects(ctx: &CardPlayCtx, card: CardInstanceId) -> Seq<Effect> {
    match ctx.state.spec_player_id() {
        Some(p) => {
            let n = ctx.paid_energy + if spec_is_upgraded(ctx.state, card) { 1int } else { 0int };
            seq![
                Effect::PlayTopDrawCards {
                    player: p,
                    count: (if n > 0 { n } else { 0 }) as u8,
                    exhaust_after_play: false,
                },
            ]
        },
        None => Seq::empty(),
    }
}

fn cascade_play(ctx: &CardPlayCtx<'_>, card: CardInstanceId, _target: Option<CreatureId>) -> (r: Vec<Effect>)
    requires
        ironclad_play_fits(ctx, CardId::Cascade, card, _target),
    ensures
        r@ == cascade_effects(ctx, card),
{
    let player = match ctx.state.player_id() {
        Some(p) => p,
        None => return Vec::new(),
    };
    let n = ctx.paid_energy + if is_upgraded(ctx, card) { 1 } else { 0 };
    let count = if n > 0 { n } else { 0 };
    one(Effect::PlayTopDrawCards { player, count: count as u8, exhaust_after_play: false })
}

pub open spec fn cinder_effects(ctx: &CardPlayCtx, card: CardInstanceId, target: Option<CreatureId>) -> Seq<Effect> {
    match ctx.state.spec_player_id() {
        Some(p) => spec_strike_like(ctx.state, card, target, 18, 6, 1).push(Effect::ExhaustTopDraw { player: p, count: 1 }),
        None => Seq::empty(),
    }
}

fn cinder_play(ctx: &CardPlayCtx<'_>, card: CardInstanceId, target: Option<CreatureId>) -> (r: Vec<Effect>)
    ensures
        r@ == cinder_effects(ctx, card, target),
{
    let player = match ctx.state.player_id() {
        Some(p) => p,
        None => return Vec::new(),
    };
    push(strike_like(ctx, card, target, 18, 6, 1), Effect::ExhaustTopDraw { player, count: 1 })
}

pub open spec fn colossus_effects(ctx: &CardPlayCtx, card: CardInstanceId) -> Seq<Effect> {
    spec_block_self(ctx.state, card, 5, 3) + spec_apply_self_power(ctx.state, card, COLOSSUS_POWER, 1)
}

fn colossus_play(ctx: &CardPlayCtx<'_>, card: CardInstanceId, _target: Option<CreatureId>) -> (r: Vec<Effect>)
    ensures
        r@ == colossus_effects(ctx, card),
{
    concat(block_self(ctx, card, 5, 3), apply_self_power(ctx, card, COLOSSUS_POWER, 1))
}

/// Attacks played this turn before the current one.
pub open spec fn previous_attacks(ctx: &CardPlayCtx) -> int {
    match spec_turn_stats(ctx.state) {
        Some(ts) => (if ts.attacks_played >= 1 { ts.attacks_played - 1 } else { 0 }) as i32 as int,
        None => 0,
    }
}

pub open spec fn conflagration_effects(ctx: &CardPlayCtx, card: CardInstanceId) -> Seq<Effect> {
    let extra = if spec_is_upgraded(ctx.state, card) { 3int } else { 2int };
    seq![spec_all_enemy_attack(ctx.state, card, 8 + previous_attacks(ctx) * extra, 1)]
}

fn conflagration_play(ctx: &CardPlayCtx<'_>, card: CardInstanceId, _target: Option<CreatureId>) -> (r: Vec<Effect>)
    requires
        ironclad_play_fits(ctx, CardId::Conflagration, card, _target),
    ensures
        r@ == conflagration_effects(ctx, card),
{
    let attacks_before: i32 = match turn_stats(ctx.state) {
        Some(ts) => ts.attacks_played.saturating_sub(1) as i32,
        None => 0,
    };
    let extra: i32 = if is_upgraded(ctx, card) { 3 } else { 2 };
    one(all_enemy_attack(ctx, card, 8 + attacks_before * extra, 1))
}

pub open spec fn corruption_effects(ctx: &CardPlayCtx, card: CardInstanceId) -> Seq<Effect> {
    spec_apply_self_power(ctx.state, card, CORRUPTION_POWER, 1)
}

fn corruption_play(ctx: &CardPlayCtx<'_>, card: CardInstanceId, _target: Option<CreatureId>) -> (r: Vec<Effect>)
    ensures
        r@ == corruption_effects(ctx, card),
{
    apply_self_power(ctx, card, CORRUPTION_POWER, 1)
}

pub open spec fn crimson_mantle_effects(ctx: &CardPlayCtx, card: CardInstanceId) -> Seq<Effect> {
    spec_apply_self_power(ctx.state, card, CRIMSON_MANTLE_POWER, spec_value(ctx.state, card, 8, 2))
}

fn crimson_mantle_play(ctx: &CardPlayCtx<'_>, card: CardInstanceId, _target: Option<CreatureId>) -> (r: Vec<Effect>)
    ensures
        r@ == crimson_mantle_effects(ctx, card),
{
    apply_self_power(ctx, card, CRIMSON_MANTLE_POWER, value(ctx, card, 8, 2))
}

pub open spec fn cruelty_effects(ctx: &CardPlayCtx, card: CardInstanceId) -> Seq<Effect> {
    spec_apply_self_power(ctx.state, card, CRUELTY_POWER, if spec_is_upgraded(ctx.state, card) { 50 } else { 25 })
}

fn cruelty_play(ctx: &CardPlayCtx<'_>, card: CardInstanceId, _target: Option<CreatureId>) -> (r: Vec<Effect>)
    ensures
        r@ == cruelty_effects(ctx, card),
{
    apply_self_power(ctx, card, CRUELTY_POWER, if is_upgraded(ctx, card) { 50 } else { 25 })
}

pub open spec fn dark_embrace_effects(ctx: &CardPlayCtx, card: CardInstanceId) -> Seq<Effect> {
    spec_apply_self_power(ctx.state, card, DARK_EMBRACE_POWER, 1)
}

fn dark_embrace_play(ctx: &CardPlayCtx<'_>, card: CardInstanceId, _target: Option<CreatureId>) -> (r: Vec<Effect>)
    ensures
        r@ == dark_embrace_effects(ctx, card),
{
    apply_self_power(ctx, card, DARK_EMBRACE_POWER, 1)
}

pub open spec fn defend_ironclad_effects(ctx: &CardPlayCtx, card: CardInstanceId) -> Seq<Effect> {
    spec_block_self(ctx.state, card, 5, 3)
}

fn defend_ironclad_play(ctx: &CardPlayCtx<'_>, card: CardInstanceId, _target: Option<CreatureId>) -> (r: Vec<Effect>)
    ensures
        r@ == defend_ironclad_effects(ctx, card),
{
    block_self(ctx, card, 5, 3)
}

pub open spec fn demon_form_effects(ctx: &CardPlayCtx, card: CardInstanceId) -> Seq<Effect> {
    spec_apply_self_power(ctx.state, card, DEMON_FORM_POWER, spec_value(ctx.state, card, 2, 1))
}

fn demon_form_play(ctx: &CardPlayCtx<'_>, card: CardInstanceId, _target: Option<CreatureId>) -> (r: Vec<Effect>)
    ensures
        r@ == demon_form_effects(ctx, card),
{
    apply_self_power(ctx, card, DEMON_FORM_POWER, value(ctx, card, 2, 1))
}

pub open spec fn demonic_shield_effects(ctx: &CardPlayCtx, card: CardInstanceId, target: Option<CreatureId>) -> Seq<Effect> {
    let to = match target {
        Some(t) => Some(t),
        None => ctx.state.spec_player_creature_id(),
    };
    match to {
        Some(t) => spec_lose_self_hp(ctx.state, card, 1).push(
            Effect::GainBlock {
                target: t,
                amount: Amount::whole(spec_player_block(ctx.state)),
                source: Some(Source::Card(card)),
            },
        ),
        None => Seq::empty(),
    }
}

fn demonic_shield_play(ctx: &CardPlayCtx<'_>, card: CardInstanceId, target: Option<CreatureId>) -> (r: Vec<Effect>)
    ensures
        r@ == demonic_shield_effects(ctx, card, target),
{
    let to = match target {
        Some(t) => Some(t),
        None => ctx.state.player_creature_id(),
    };
    let to = match to {
        Some(t) => t,
        None => return Vec::new(),
    };
    let block = player_block(ctx.state);
    push(
        lose_self_hp(ctx, card, 1),
        Effect::GainBlock { target: to, amount: Amount::from_i32(block), source: Some(Source::Card(card)) },
    )
}

pub open spec fn dismantle_effects(ctx: &CardPlayCtx, card: CardInstanceId, target: Option<CreatureId>) -> Seq<Effect> {
    match target {
        Some(t) => attacks(
            ctx.state,
            card,
            t,
            spec_value(ctx.state, card, 8, 2),
            if ctx.state.spec_power_amount(t, VULNERABLE) > 0 { 2 } else { 1 },
        ),
        None => Seq::empty(),
    }
}

fn dismantle_play(ctx: &CardPlayCtx<'_>, card: CardInstanceId, target: Option<CreatureId>) -> (r: Vec<Effect>)
    ensures
        r@ == dismantle_effects(ctx, card, target),
{
    let target = match target {
        Some(t) => t,
        None => return Vec::new(),
    };
    let hits: u8 = if ctx.state.power_amount(target, VULNERABLE) > 0 { 2 } else { 1 };
    attack_effects(ctx, card, target, value(ctx, card, 8, 2), hits)
}

pub open spec fn dominate_effects(ctx: &CardPlayCtx, card: CardInstanceId, target: Option<CreatureId>) -> Seq<Effect> {
    match target {
        Some(t) => {
            let applied = if spec_is_upgraded(ctx.state, card) { 2int } else { 1int };
            seq![spec_apply_power(t, card, VULNERABLE, applied)] + spec_apply_self_power(
                ctx.state,
                card,
                STRENGTH,
                ctx.state.spec_power_amount(t, VULNERABLE) + applied,
            )
        },
        None => Seq::empty(),
    }
}

fn dominate_play(ctx: &CardPlayCtx<'_>, card: CardInstanceId, target: Option<CreatureId>) -> (r: Vec<Effect>)
    requires
        ironclad_play_fits(ctx, CardId::Dominate, card, target),
    ensures
        r@ == dominate_effects(ctx, card, target),
{
    let target = match target {
        Some(t) => t,
        None => return Vec::new(),
    };
    let applied: i32 = if is_upgraded(ctx, card) { 2 } else { 1 };
    let effects = one(apply_power(target, card, VULNERABLE, applied));
    let vuln = ctx.state.power_amount(target, VULNERABLE) + applied;
    concat(effects, apply_self_power(ctx, card, STRENGTH, vuln))
}

pub open spec fn drum_of_battle_effects(ctx: &CardPlayCtx, card: CardInstanceId) -> Seq<Effect> {
    match ctx.state.spec_player_id() {
        Some(p) => seq![Effect::DrawCards { player: p, count: spec_value(ctx.state, card, 2, 1) as u8 }]
            + spec_apply_self_power(ctx.state, card, DRUM_OF_BATTLE_POWER, 1),
        None => Seq::empty(),
    }
}

fn drum_of_battle_play(ctx: &CardPlayCtx<'_>, card: CardInstanceId, _target: Option<CreatureId>) -> (r: Vec<Effect>)
    ensures
        r@ == drum_of_battle_effects(ctx, card),
{
    let player = match ctx.state.player_id() {
        Some(p) => p,
        None => return Vec::new(),
    };
    let effects = one(Effect::DrawCards { player, count: value(ctx, card, 2, 1) as u8 });
    concat(effects, apply_self_power(ctx, card, DRUM_OF_BATTLE_POWER, 1))
}

/// Some card was exhausted this turn.
pub open spec fn exhausted_this_turn(ctx: &CardPlayCtx) -> bool {
    match spec_turn_stats(ctx.state) {
        Some(ts) => ts.cards_exhausted > 0,
        None => false,
    }
}

pub open spec fn evil_eye_effects(ctx: &CardPlayCtx, card: CardInstanceId) -> Seq<Effect> {
    let once = spec_block_self(ctx.state, card, 8, 3);
    if exhausted_this_turn(ctx) {
        once + once
    } else {
        once
    }
}

fn evil_eye_play(ctx: &CardPlayCtx<'_>, card: CardInstanceId, _target: Option<CreatureId>) -> (r: Vec<Effect>)
    ensures
        r@ == evil_eye_effects(ctx, card),
{
    let repeat = match turn_stats(ctx.state) {
        Some(ts) => ts.cards_exhausted > 0,
        None => false,
    };
    let effects = block_self(ctx, card, 8, 3);
    if repeat {
        concat(effects, block_self(ctx, card, 8, 3))
    } else {
        effects
    }
}

pub open spec fn expect_a_fight_effects(ctx: &CardPlayCtx, card: CardInstanceId) -> Seq<Effect> {
    match ctx.state.spec_player_id() {
        Some(p) => seq![
            Effect::GainResource {
                player: p,
                resource: ResourceKind::Energy,
                amount: spec_hand(ctx.state).filter(
                    |c: CardInstanceId| spec_card_is_type(ctx.state, ctx.registry, c, CardType::Attack),
                ).len() as i32,
            },
        ] + spec_apply_self_power(ctx.state, card, NO_ENERGY_GAIN_POWER, 1),
        None => Seq::empty(),
    }
}

fn expect_a_fight_play(ctx: &CardPlayCtx<'_>, card: CardInstanceId, _target: Option<CreatureId>) -> (r: Vec<Effect>)
    ensures
        r@ == expect_a_fight_effects(ctx, card),
{
    let player = match ctx.state.player_id() {
        Some(p) => p,
        None => return Vec::new(),
    };
    let attacks_in_hand = count_hand_type(ctx, CardType::Attack);
    let effects = one(Effect::GainResource { player, resource: ResourceKind::Energy, amount: attacks_in_hand });
    concat(effects, apply_self_power(ctx, card, NO_ENERGY_GAIN_POWER, 1))
}

pub open spec fn feed_effects(ctx: &CardPlayCtx, card: CardInstanceId, target: Option<CreatureId>) -> Seq<Effect> {
    match target {
        Some(t) => {
            let hit = spec_value(ctx.state, card, 10, 2);
            let lethal = match ctx.state.spec_creature(t) {
                Some(cr) => cr.hp <= hit,
                None => false,
            };
            attacks(ctx.state, card, t, hit, 1) + if lethal {
                match ctx.state.spec_player_creature_id() {
                    Some(pc) => seq![
                        Effect::GainMaxHp {
                            target: pc,
                            amount: spec_value(ctx.state, card, 3, 1) as i32,
                            source: Some(Source::Card(card)),
                        },
                    ],
                    None => Seq::empty(),
                }
            } else {
                Seq::empty()
            }
        },
        None => Seq::empty(),
    }
}

fn feed_play(ctx: &CardPlayCtx<'_>, card: CardInstanceId, target: Option<CreatureId>) -> (r: Vec<Effect>)
    ensures
        r@ == feed_effects(ctx, card, target),
{
    let target = match target {
        Some(t) => t,
        None => return Vec::new(),
    };
    let hit = value(ctx, card, 10, 2);
    let effects = attack_effects(ctx, card, target, hit, 1);
    let lethal = match ctx.state.creature(target) {
        Some(cr) => cr.hp <= hit,
        None => false,
    };
    if lethal {
        if let Some(pc) = ctx.state.player_creature_id() {
            return push(
                effects,
                Effect::GainMaxHp { target: pc, amount: value(ctx, card, 3, 1), source: Some(Source::Card(card)) },
            );
        }
    }
    proof {
        assert(effects@ =~= feed_effects(ctx, card, Some(target)));
    }
    effects
}

pub open spec fn feel_no_pain_effects(ctx: &CardPlayCtx, card: CardInstanceId) -> Seq<Effect> {
    spec_apply_self_power(ctx.state, card, FEEL_NO_PAIN_POWER, spec_value(ctx.state, card, 3, 1))
}

fn feel_no_pain_play(ctx: &CardPlayCtx<'_>, card: CardInstanceId, _target: Option<CreatureId>) -> (r: Vec<Effect>)
    ensures
        r@ == feel_no_pain_effects(ctx, card),
{
    apply_self_power(ctx, card, FEEL_NO_PAIN_POWER, value(ctx, card, 3, 1))
}

pub open spec fn fiend_fire_effects(ctx: &CardPlayCtx, card: CardInstanceId, target: Option<CreatureId>) -> Seq<Effect> {
    match (ctx.state.spec_player_id(), target) {
        (Some(p), Some(t)) => seq![Effect::ExhaustHand { player: p, filter: CardFilter::Any }] + attacks(
            ctx.state,
            card,
            t,
            spec_value(ctx.state, card, 7, 3),
            (spec_hand(ctx.state).len() as u8) as nat,
        ),
        _ => Seq::empty(),
    }
}

fn fiend_fire_play(ctx: &CardPlayCtx<'_>, card: CardInstanceId, target: Option<CreatureId>) -> (r: Vec<Effect>)
    ensures
        r@ == fiend_fire_effects(ctx, card, target),
{
    let player = match ctx.state.player_id() {
        Some(p) => p,
        None => return Vec::new(),
    };
    let target = match target {
        Some(t) => t,
        None => return Vec::new(),
    };
    let count = hand_len(ctx.state) as u8;
    let effects = one(Effect::ExhaustHand { player, filter: CardFilter::Any });
    concat(effects, attack_effects(ctx, card, target, value(ctx, card, 7, 3), count))
}

pub open spec fn fight_me_effects(ctx: &CardPlayCtx, card: CardInstanceId, target: Option<CreatureId>) -> Seq<Effect> {
    match target {
        Some(t) => (attacks(ctx.state, card, t, spec_value(ctx.state, card, 5, 1), 2) + spec_apply_self_power(
            ctx.state,
            card,
            STRENGTH,
            if spec_is_upgraded(ctx.state, card) { 3 } else { 2 },
        )).push(spec_apply_power(t, card, STRENGTH, 1)),
        None => Seq::empty(),
    }
}

fn fight_me_play(ctx: &CardPlayCtx<'_>, card: CardInstanceId, target: Option<CreatureId>) -> (r: Vec<Effect>)
    ensures
        r@ == fight_me_effects(ctx, card, target),
{
    let target = match target {
        Some(t) => t,
        None => return Vec::new(),
    };
    let effects = attack_effects(ctx, card, target, value(ctx, card, 5, 1), 2);
    let effects = concat(effects, apply_self_power(ctx, card, STRENGTH, if is_upgraded(ctx, card) { 3 } else { 2 }));
    push(effects, apply_power(target, card, STRENGTH, 1))
}

pub open spec fn flame_barrier_effects(ctx: &CardPlayCtx, card: CardInstanceId) -> Seq<Effect> {
    spec_block_self(ctx.state, card, 12, 4) + spec_apply_self_power(
        ctx.state,
        card,
        FLAME_BARRIER_POWER,
        spec_value(ctx.state, card, 4, 2),
    )
}

fn flame_barrier_play(ctx: &CardPlayCtx<'_>, card: CardInstanceId, _target: Option<CreatureId>) -> (r: Vec<Effect>)
    ensures
        r@ == flame_barrier_effects(ctx, card),
{
    concat(block_self(ctx, card, 12, 4), apply_self_power(ctx, card, FLAME_BARRIER_POWER, value(ctx, card, 4, 2)))
}

pub open spec fn forgotten_ritual_effects(ctx: &CardPlayCtx, card: CardInstanceId) -> Seq<Effect> {
    match ctx.state.spec_player_id() {
        Some(p) => if exhausted_this_turn(ctx) {
            seq![
                Effect::GainResource {
                    player: p,
                    resource: ResourceKind::Energy,
                    amount: spec_value(ctx.state, card, 3, 1) as i32,
                },
            ]
        } else {
            Seq::empty()
        },
        None => Seq::empty(),
    }
}

fn forgotten_ritual_play(ctx: &CardPlayCtx<'_>, card: CardInstanceId, _target: Option<CreatureId>) -> (r: Vec<Effect>)
    ensures
        r@ == forgotten_ritual_effects(ctx, card),
{
    let player = match ctx.state.player_id() {
        Some(p) => p,
        None => return Vec::new(),
    };
    let exhausted = match turn_stats(ctx.state) {
        Some(ts) => ts.cards_exhausted > 0,
        None => false,
    };
    if exhausted {
        one(Effect::GainResource { player, resource: ResourceKind::Energy, amount: value(ctx, card, 3, 1) })
    } else {
        Vec::new()
    }
}

pub open spec fn havoc_effects(ctx: &CardPlayCtx) -> Seq<Effect> {
    match ctx.state.spec_player_id() {
        Some(p) => seq![Effect::PlayTopDrawCards { player: p, count: 1, exhaust_after_play: true }],
        None => Seq::empty(),
    }
}

fn havoc_play(ctx: &CardPlayCtx<'_>, _card: CardInstanceId, _target: Option<CreatureId>) -> (r: Vec<Effect>)
    ensures
        r@ == havoc_effects(ctx),
{
    match ctx.state.player_id() {
        Some(player) => one(Effect::PlayTopDrawCards { player, count: 1, exhaust_after_play: true }),
        None => Vec::new(),
    }
}

pub open spec fn headbutt_effects(ctx: &CardPlayCtx, card: CardInstanceId, target: Option<CreatureId>) -> Seq<Effect> {
    match ctx.state.spec_player_id() {
        Some(p) => spec_strike_like(ctx.state, card, target, 9, 3, 1) + if spec_discard(ctx.state).len() > 0 {
            seq![
                Effect::MoveCard {
                    card: spec_discard(ctx.state).last(),
                    to: PileId { owner: p, kind: PileKind::Draw },
                    reason: MoveReason::Generated,
                },
            ]
        } else {
            Seq::empty()
        },
        None => Seq::empty(),
    }
}

fn headbutt_play(ctx: &CardPlayCtx<'_>, card: CardInstanceId, target: Option<CreatureId>) -> (r: Vec<Effect>)
    ensures
        r@ == headbutt_effects(ctx, card, target),
{
    let player = match ctx.state.player_id() {
        Some(p) => p,
        None => return Vec::new(),
    };
    let effects = strike_like(ctx, card, target, 9, 3, 1);
    match discard_top(ctx.state) {
        Some(top) => push(
            effects,
            Effect::MoveCard { card: top, to: PileId::player(player, PileKind::Draw), reason: MoveReason::Generated },
        ),
        None => {
            proof {
                assert(effects@ =~= headbutt_effects(ctx, card, target));
            }
            effects
        },
    }
}

pub open spec fn hellraiser_effects(ctx: &CardPlayCtx, card: CardInstanceId) -> Seq<Effect> {
    spec_apply_self_power(ctx.state, card, HELLRAISER_POWER, 1)
}

fn hellraiser_play(ctx: &CardPlayCtx<'_>, card: CardInstanceId, _target: Option<CreatureId>) -> (r: Vec<Effect>)
    ensures
        r@ == hellraiser_effects(ctx, card),
{
    apply_self_power(ctx, card, HELLRAISER_POWER, 1)
}

pub open spec fn hemokinesis_effects(ctx: &CardPlayCtx, card: CardInstanceId, target: Option<CreatureId>) -> Seq<Effect> {
    spec_lose_self_hp(ctx.state, card, 2) + spec_strike_like(ctx.state, card, target, 14, 5, 1)
}

fn hemokinesis_play(ctx: &CardPlayCtx<'_>, card: CardInstanceId, target: Option<CreatureId>) -> (r: Vec<Effect>)
    ensures
        r@ == hemokinesis_effects(ctx, card, target),
{
    concat(lose_self_hp(ctx, card, 2), strike_like(ctx, card, target, 14, 5, 1))
}

pub open spec fn howl_from_beyond_effects(ctx: &CardPlayCtx, card: CardInstanceId) -> Seq<Effect> {
    seq![spec_all_enemy_attack(ctx.state, card, spec_value(ctx.state, card, 16, 5), 1)]
}

fn howl_from_beyond_play(ctx: &CardPlayCtx<'_>, card: CardInstanceId, _target: Option<CreatureId>) -> (r: Vec<Effect>)
    ensures
        r@ == howl_from_beyond_effects(ctx, card),
{
    one(all_enemy_attack(ctx, card, value(ctx, card, 16, 5), 1))
}

pub open spec fn impervious_effects(ctx: &CardPlayCtx, card: CardInstanceId) -> Seq<Effect> {
    spec_block_self(ctx.state, card, 30, 10)
}

fn impervious_play(ctx: &CardPlayCtx<'_>, card: CardInstanceId, _target: Option<CreatureId>) -> (r: Vec<Effect>)
    ensures
        r@ == impervious_effects(ctx, card),
{
    block_self(ctx, card, 30, 10)
}

pub open spec fn infernal_blade_effects(ctx: &CardPlayCtx) -> Seq<Effect> {
    match ctx.state.spec_player_id() {
        Some(p) => seq![
            Effect::GenerateRandomCardToHand {
                player: p,
                card_type: Some(CardType::Attack),
                target: None,
                zero_cost_this_turn: true,
            },
        ],
        None => Seq::empty(),
    }
}

fn infernal_blade_play(ctx: &CardPlayCtx<'_>, _card: CardInstanceId, _target: Option<CreatureId>) -> (r: Vec<Effect>)
    ensures
        r@ == infernal_blade_effects(ctx),
{
    match ctx.state.player_id() {
        Some(player) => one(
            Effect::GenerateRandomCardToHand {
                player,
                card_type: Some(CardType::Attack),
                target: None,
                zero_cost_this_turn: true,
            },
        ),
        None => Vec::new(),
    }
}

pub open spec fn inferno_effects(ctx: &CardPlayCtx, card: CardInstanceId) -> Seq<Effect> {
    spec_apply_self_power(ctx.state, card, INFERNO_POWER, spec_value(ctx.state, card, 6, 3))
}

fn inferno_play(ctx: &CardPlayCtx<'_>, card: CardInstanceId, _target: Option<CreatureId>) -> (r: Vec<Effect>)
    ensures
        r@ == inferno_effects(ctx, card),
{
    apply_self_power(ctx, card, INFERNO_POWER, value(ctx, card, 6, 3))
}

pub open spec fn inflame_effects(ctx: &CardPlayCtx, card: CardInstanceId) -> Seq<Effect> {
    spec_apply_self_power(ctx.state, card, STRENGTH, spec_value(ctx.state, card, 2, 1))
}

fn inflame_play(ctx: &CardPlayCtx<'_>, card: CardInstanceId, _target: Option<CreatureId>) -> (r: Vec<Effect>)
    ensures
        r@ == inflame_effects(ctx, card),
{
    apply_self_power(ctx, card, STRENGTH, value(ctx, card, 2, 1))
}

pub open spec fn iron_wave_effects(ctx: &CardPlayCtx, card: CardInstanceId, target: Option<CreatureId>) -> Seq<Effect> {
    spec_block_self(ctx.state, card, 5, 2) + spec_strike_like(ctx.state, card, target, 5, 2, 1)
}

fn iron_wave_play(ctx: &CardPlayCtx<'_>, card: CardInstanceId, target: Option<CreatureId>) -> (r: Vec<Effect>)
    ensures
        r@ == iron_wave_effects(ctx, card, target),
{
    concat(block_self(ctx, card, 5, 2), strike_like(ctx, card, target, 5, 2, 1))
}

pub open spec fn juggernaut_effects(ctx: &CardPlayCtx, card: CardInstanceId) -> Seq<Effect> {
    spec_apply_self_power(ctx.state, card, JUGGERNAUT_POWER, spec_value(ctx.state, card, 5, 2))
}

fn juggernaut_play(ctx: &CardPlayCtx<'_>, card: CardInstanceId, _target: Option<CreatureId>) -> (r: Vec<Effect>)
    ensures
        r@ == juggernaut_effects(ctx, card),
{
    apply_self_power(ctx, card, JUGGERNAUT_POWER, value(ctx, card, 5, 2))
}

pub open spec fn juggling_effects(ctx: &CardPlayCtx, card: CardInstanceId) -> Seq<Effect> {
    spec_apply_self_power(ctx.state, card, JUGGLING_POWER, 1)
}

fn juggling_play(ctx: &CardPlayCtx<'_>, card: CardInstanceId, _target: Option<CreatureId>) -> (r: Vec<Effect>)
    ensures
        r@ == juggling_effects(ctx, card),
{
    apply_self_power(ctx, card, JUGGLING_POWER, 1)
}

pub open spec fn mangle_effects(ctx: &CardPlayCtx, card: CardInstanceId, target: Option<CreatureId>) -> Seq<Effect> {
    match target {
        Some(t) => {
            let loss = spec_value(ctx.state, card, 10, 5);
            attacks(ctx.state, card, t, spec_value(ctx.state, card, 15, 5), 1).push(
                spec_apply_power(t, card, STRENGTH, -loss),
            ).push(spec_apply_power(t, card, MANGLE_POWER, loss))
        },
        None => Seq::empty(),
    }
}

fn mangle_play(ctx: &CardPlayCtx<'_>, card: CardInstanceId, target: Option<CreatureId>) -> (r: Vec<Effect>)
    ensures
        r@ == mangle_effects(ctx, card, target),
{
    let target = match target {
        Some(t) => t,
        None => return Vec::new(),
    };
    let loss = value(ctx, card, 10, 5);
    let effects = attack_effects(ctx, card, target, value(ctx, card, 15, 5), 1);
    let effects = push(effects, apply_power(target, card, STRENGTH, -loss));
    push(effects, apply_power(target, card, MANGLE_POWER, loss))
}

pub open spec fn molten_fist_effects(ctx: &CardPlayCtx, card: CardInstanceId, target: Option<CreatureId>) -> Seq<Effect> {
    match target {
        Some(t) => {
            let vuln = ctx.state.spec_power_amount(t, VULNERABLE);
            attacks(ctx.state, card, t, spec_value(ctx.state, card, 10, 4), 1) + if vuln > 0 {
                seq![spec_apply_power(t, card, VULNERABLE, vuln)]
            } else {
                Seq::empty()
            }
        },
        None => Seq::empty(),
    }
}

fn molten_fist_play(ctx: &CardPlayCtx<'_>, card: CardInstanceId, target: Option<CreatureId>) -> (r: Vec<Effect>)
    ensures
        r@ == molten_fist_effects(ctx, card, target),
{
    let target = match target {
        Some(t) => t,
        None => return Vec::new(),
    };
    let vuln = ctx.state.power_amount(target, VULNERABLE);
    let effects = attack_effects(ctx, card, target, value(ctx, card, 10, 4), 1);
    if vuln > 0 {
        push(effects, apply_power(target, card, VULNERABLE, vuln))
    } else {
        proof {
            assert(effects@ =~= molten_fist_effects(ctx, card, Some(target)));
        }
        effects
    }
}

pub open spec fn not_yet_effects(ctx: &CardPlayCtx, card: CardInstanceId) -> Seq<Effect> {
    match ctx.state.spec_player_creature_id() {
        Some(t) => seq![
            Effect::Heal {
                target: t,
                amount: Amount::whole(spec_value(ctx.state, card, 10, 3)),
                source: Some(Source::Card(card)),
            },
        ],
        None => Seq::empty(),
    }
}

fn not_yet_play(ctx: &CardPlayCtx<'_>, card: CardInstanceId, _target: Option<CreatureId>) -> (r: Vec<Effect>)
    ensures
        r@ == not_yet_effects(ctx, card),
{
    match ctx.state.player_creature_id() {
        Some(target) => one(
            Effect::Heal {
                target,
                amount: Amount::from_i32(value(ctx, card, 10, 3)),
                source: Some(Source::Card(card)),
            },
        ),
        None => Vec::new(),
    }
}

pub open spec fn offering_effects(ctx: &CardPlayCtx, card: CardInstanceId) -> Seq<Effect> {
    match ctx.state.spec_player_id() {
        Some(p) => spec_lose_self_hp(ctx.state, card, 6).push(
            Effect::GainResource { player: p, resource: ResourceKind::Energy, amount: 2 },
        ).push(Effect::DrawCards { player: p, count: spec_value(ctx.state, card, 3, 2) as u8 }),
        None => Seq::empty(),
    }
}

fn offering_play(ctx: &CardPlayCtx<'_>, card: CardInstanceId, _target: Option<CreatureId>) -> (r: Vec<Effect>)
    ensures
        r@ == offering_effects(ctx, card),
{
    let player = match ctx.state.player_id() {
        Some(p) => p,
        None => return Vec::new(),
    };
    let effects = lose_self_hp(ctx, card, 6);
    let effects = push(effects, Effect::GainResource { player, resource: ResourceKind::Energy, amount: 2 });
    push(effects, Effect::DrawCards { player, count: value(ctx, card, 3, 2) as u8 })
}

pub open spec fn one_two_punch_effects(ctx: &CardPlayCtx, card: CardInstanceId) -> Seq<Effect> {
    spec_apply_self_power(ctx.state, card, ONE_TWO_PUNCH_POWER, spec_value(ctx.state, card, 1, 1))
}

fn one_two_punch_play(ctx: &CardPlayCtx<'_>, card: CardInstanceId, _target: Option<CreatureId>) -> (r: Vec<Effect>)
    ensures
        r@ == one_two_punch_effects(ctx, card),
{
    apply_self_power(ctx, card, ONE_TWO_PUNCH_POWER, value(ctx, card, 1, 1))
}

pub open spec fn pacts_end_effects(ctx: &CardPlayCtx, card: CardInstanceId) -> Seq<Effect> {
    seq![spec_all_enemy_attack(ctx.state, card, spec_value(ctx.state, card, 17, 6), 1)]
}

fn pacts_end_play(ctx: &CardPlayCtx<'_>, card: CardInstanceId, _target: Option<CreatureId>) -> (r: Vec<Effect>)
    ensures
        r@ == pacts_end_effects(ctx, card),
{
    one(all_enemy_attack(ctx, card, value(ctx, card, 17, 6), 1))
}

pub open spec fn perfected_strike_effects(ctx: &CardPlayCtx, card: CardInstanceId, target: Option<CreatureId>) -> Seq<Effect> {
    let strikes = spec_tagged_cards(ctx.state, ctx.registry, CardTag::Strike).len() as i32 as int;
    let extra = if spec_is_upgraded(ctx.state, card) { 3int } else { 2int };
    targeted_attacks(ctx, card, target, 6 + strikes * extra, 1)
}

fn perfected_strike_play(ctx: &CardPlayCtx<'_>, card: CardInstanceId, target: Option<CreatureId>) -> (r: Vec<Effect>)
    requires
        ironclad_play_fits(ctx, CardId::PerfectedStrike, card, target),
    ensures
        r@ == perfected_strike_effects(ctx, card, target),
{
    let strikes = count_all_tag(ctx, CardTag::Strike);
    let extra: i32 = if is_upgraded(ctx, card) { 3 } else { 2 };
    match target {
        Some(t) => attack_effects(ctx, card, t, 6 + strikes * extra, 1),
        None => Vec::new(),
    }
}

pub open spec fn pillage_effects(ctx: &CardPlayCtx, card: CardInstanceId, target: Option<CreatureId>) -> Seq<Effect> {
    match ctx.state.spec_player_id() {
        Some(p) => spec_strike_like(ctx.state, card, target, 6, 3, 1).push(Effect::DrawUntilNonAttack { player: p }),
        None => Seq::empty(),
    }
}

fn pillage_play(ctx: &CardPlayCtx<'_>, card: CardInstanceId, target: Option<CreatureId>) -> (r: Vec<Effect>)
    ensures
        r@ == pillage_effects(ctx, card, target),
{
    let player = match ctx.state.player_id() {
        Some(p) => p,
        None => return Vec::new(),
    };
    push(strike_like(ctx, card, target, 6, 3, 1), Effect::DrawUntilNonAttack { player })
}

pub open spec fn pommel_strike_effects(ctx: &CardPlayCtx, card: CardInstanceId, target: Option<CreatureId>) -> Seq<Effect> {
    match ctx.state.spec_player_id() {
        Some(p) => spec_strike_like(ctx.state, card, target, 9, 1, 1).push(
            Effect::DrawCards { player: p, count: spec_value(ctx.state, card, 1, 1) as u8 },
        ),
        None => Seq::empty(),
    }
}

fn pommel_strike_play(ctx: &CardPlayCtx<'_>, card: CardInstanceId, target: Option<CreatureId>) -> (r: Vec<Effect>)
    ensures
        r@ == pommel_strike_effects(ctx, card, target),
{
    let player = match ctx.state.player_id() {
        Some(p) => p,
        None => return Vec::new(),
    };
    push(strike_like(ctx, card, target, 9, 1, 1), Effect::DrawCards { player, count: value(ctx, card, 1, 1) as u8 })
}

/// For each card, in order: exhaust it, and put a Giant Rock in the hand.
pub open spec fn rocks_for(cards: Seq<CardInstanceId>, p: PlayerId, upgraded: bool) -> Seq<Effect>
    decreases cards.len(),
{
    if cards.len() == 0 {
        Seq::empty()
    } else {
        rocks_for(cards.drop_last(), p, upgraded) + seq![
            Effect::ExhaustCard { card: cards.last() },
            Effect::AddGeneratedCard {
                player: p,
                def: GIANT_ROCK,
                to: PileId { owner: p, kind: PileKind::Hand },
                upgraded,
                temporary: true,
                zero_cost_this_turn: false,
            },
        ]
    }
}

pub open spec fn primal_force_effects(ctx: &CardPlayCtx, card: CardInstanceId) -> Seq<Effect> {
    match ctx.state.spec_player_id() {
        Some(p) => rocks_for(
            spec_hand(ctx.state).filter(|c: CardInstanceId| spec_card_matches_filter(ctx.state, ctx.registry, c, CardFilter::Attack)),
            p,
            spec_is_upgraded(ctx.state, card),
        ),
        None => Seq::empty(),
    }
}

fn primal_force_play(ctx: &CardPlayCtx<'_>, card: CardInstanceId, _target: Option<CreatureId>) -> (r: Vec<Effect>)
    ensures
        r@ == primal_force_effects(ctx, card),
{
    let player = match ctx.state.player_id() {
        Some(p) => p,
        None => return Vec::new(),
    };
    let attacks_in_hand = hand_matching(ctx, CardFilter::Attack);
    let upgraded = is_upgraded(ctx, card);
    let mut effects: Vec<Effect> = Vec::new();
    let n = attacks_in_hand.len();
    for i in 0..n
        invariant
            n == attacks_in_hand@.len(),
            effects@ == rocks_for(attacks_in_hand@.take(i as int), player, upgraded),
    {
        proof {
            assert(attacks_in_hand@.take((i + 1) as int).drop_last() =~= attacks_in_hand@.take(i as int));
        }
        effects.push(Effect::ExhaustCard { card: attacks_in_hand[i] });
        effects.push(
            Effect::AddGeneratedCard {
                player,
                def: GIANT_ROCK,
                to: PileId::player(player, PileKind::Hand),
                upgraded,
                temporary: true,
                zero_cost_this_turn: false,
            },
        );
        proof {
            assert(effects@ =~= rocks_for(attacks_in_hand@.take((i + 1) as int), player, upgraded));
        }
    }
    proof {
        assert(attacks_in_hand@.take(n as int) =~= attacks_in_hand@);
    }
    effects
}

pub open spec fn pyre_effects(ctx: &CardPlayCtx, card: CardInstanceId) -> Seq<Effect> {
    spec_apply_self_power(ctx.state, card, PYRE_POWER, spec_value(ctx.state, card, 1, 1))
}

fn pyre_play(ctx: &CardPlayCtx<'_>, card: CardInstanceId, _target: Option<CreatureId>) -> (r: Vec<Effect>)
    ensures
        r@ == pyre_effects(ctx, card),
{
    apply_self_power(ctx, card, PYRE_POWER, value(ctx, card, 1, 1))
}

pub open spec fn rage_effects(ctx: &CardPlayCtx, card: CardInstanceId) -> Seq<Effect> {
    spec_apply_self_power(ctx.state, card, RAGE_POWER, spec_value(ctx.state, card, 3, 2))
}

fn rage_play(ctx: &CardPlayCtx<'_>, card: CardInstanceId, _target: Option<CreatureId>) -> (r: Vec<Effect>)
    ensures
        r@ == rage_effects(ctx, card),
{
    apply_self_power(ctx, card, RAGE_POWER, value(ctx, card, 3, 2))
}

pub open spec fn rampage_effects(ctx: &CardPlayCtx, card: CardInstanceId, target: Option<CreatureId>) -> Seq<Effect> {
    spec_strike_like(ctx.state, card, target, 9, 0, 1)
}

fn rampage_play(ctx: &CardPlayCtx<'_>, card: CardInstanceId, target: Option<CreatureId>) -> (r: Vec<Effect>)
    ensures
        r@ == rampage_effects(ctx, card, target),
{
    strike_like(ctx, card, target, 9, 0, 1)
}

pub open spec fn rupture_effects(ctx: &CardPlayCtx, card: CardInstanceId) -> Seq<Effect> {
    spec_apply_self_power(ctx.state, card, RUPTURE_POWER, spec_value(ctx.state, card, 1, 1))
}

fn rupture_play(ctx: &CardPlayCtx<'_>, card: CardInstanceId, _target: Option<CreatureId>) -> (r: Vec<Effect>)
    ensures
        r@ == rupture_effects(ctx, card),
{
    apply_self_power(ctx, card, RUPTURE_POWER, value(ctx, card, 1, 1))
}

/// `s`, `n` times over.
pub open spec fn repeated(s: Seq<Effect>, n: nat) -> Seq<Effect>
    decreases n,
{
    if n == 0 {
        Seq::empty()
    } else {
        repeated(s, (n - 1) as nat) + s
    }
}

pub open spec fn second_wind_effects(ctx: &CardPlayCtx, card: CardInstanceId) -> Seq<Effect> {
    match ctx.state.spec_player_id() {
        Some(p) => seq![Effect::ExhaustHand { player: p, filter: CardFilter::NonAttack }] + repeated(
            spec_block_self(ctx.state, card, 5, 2),
            (spec_hand(ctx.state).filter(
                |c: CardInstanceId| spec_card_matches_filter(ctx.state, ctx.registry, c, CardFilter::NonAttack),
            ).len() as u8) as nat,
        ),
        None => Seq::empty(),
    }
}

fn second_wind_play(ctx: &CardPlayCtx<'_>, card: CardInstanceId, _target: Option<CreatureId>) -> (r: Vec<Effect>)
    ensures
        r@ == second_wind_effects(ctx, card),
{
    let player = match ctx.state.player_id() {
        Some(p) => p,
        None => return Vec::new(),
    };
    let count = hand_matching(ctx, CardFilter::NonAttack).len() as u8;
    let mut effects = one(Effect::ExhaustHand { player, filter: CardFilter::NonAttack });
    let ghost head = effects@;
    let mut i: u8 = 0;
    while i < count
        invariant
            i <= count,
            effects@ == head + repeated(spec_block_self(ctx.state, card, 5, 2), i as nat),
        decreases count - i,
    {
        effects = concat(effects, block_self(ctx, card, 5, 2));
        i = i + 1;
        proof {
            assert(effects@ =~= head + repeated(spec_block_self(ctx.state, card, 5, 2), i as nat));
        }
    }
    effects
}

pub open spec fn setup_strike_effects(ctx: &CardPlayCtx, card: CardInstanceId, target: Option<CreatureId>) -> Seq<Effect> {
    spec_strike_like(ctx.state, card, target, 7, 2, 1) + spec_apply_self_power(ctx.state, card, STRENGTH, 2)
        + spec_apply_self_power(ctx.state, card, SETUP_STRIKE_POWER, 2)
}

fn setup_strike_play(ctx: &CardPlayCtx<'_>, card: CardInstanceId, target: Option<CreatureId>) -> (r: Vec<Effect>)
    ensures
        r@ == setup_strike_effects(ctx, card, target),
{
    let effects = concat(strike_like(ctx, card, target, 7, 2, 1), apply_self_power(ctx, card, STRENGTH, 2));
    concat(effects, apply_self_power(ctx, card, SETUP_STRIKE_POWER, 2))
}

pub open spec fn shrug_it_off_effects(ctx: &CardPlayCtx, card: CardInstanceId) -> Seq<Effect> {
    match ctx.state.spec_player_id() {
        Some(p) => spec_block_self(ctx.state, card, 8, 3).push(Effect::DrawCards { player: p, count: 1 }),
        None => Seq::empty(),
    }
}

fn shrug_it_off_play(ctx: &CardPlayCtx<'_>, card: CardInstanceId, _target: Option<CreatureId>) -> (r: Vec<Effect>)
    ensures
        r@ == shrug_it_off_effects(ctx, card),
{
    let player = match ctx.state.player_id() {
        Some(p) => p,
        None => return Vec::new(),
    };
    push(block_self(ctx, card, 8, 3), Effect::DrawCards { player, count: 1 })
}

/// The player lost HP this turn.
pub open spec fn lost_hp_this_turn(ctx: &CardPlayCtx) -> bool {
    match spec_turn_stats(ctx.state) {
        Some(ts) => ts.hp_lost_by_player > 0,
        None => false,
    }
}

pub open spec fn spite_effects(ctx: &CardPlayCtx, card: CardInstanceId, target: Option<CreatureId>) -> Seq<Effect> {
    let hits: u8 = if lost_hp_this_turn(ctx) { spec_value(ctx.state, card, 2, 1) as u8 } else { 1 };
    spec_strike_like(ctx.state, card, target, 5, 0, hits as nat)
}

fn spite_play(ctx: &CardPlayCtx<'_>, card: CardInstanceId, target: Option<CreatureId>) -> (r: Vec<Effect>)
    ensures
        r@ == spite_effects(ctx, card, target),
{
    let lost = match turn_stats(ctx.state) {
        Some(ts) => ts.hp_lost_by_player > 0,
        None => false,
    };
    let hits: u8 = if lost { value(ctx, card, 2, 1) as u8 } else { 1 };
    strike_like(ctx, card, target, 5, 0, hits)
}

pub open spec fn stampede_effects(ctx: &CardPlayCtx, card: CardInstanceId) -> Seq<Effect> {
    spec_apply_self_power(ctx.state, card, STAMPEDE_POWER, 1)
}

fn stampede_play(ctx: &CardPlayCtx<'_>, card: CardInstanceId, _target: Option<CreatureId>) -> (r: Vec<Effect>)
    ensures
        r@ == stampede_effects(ctx, card),
{
    apply_self_power(ctx, card, STAMPEDE_POWER, 1)
}

pub open spec fn stoke_effects(ctx: &CardPlayCtx) -> Seq<Effect> {
    match ctx.state.spec_player_id() {
        Some(p) => seq![
            Effect::ExhaustHand { player: p, filter: CardFilter::Any },
            Effect::DrawCards { player: p, count: spec_hand(ctx.state).len() as u8 },
        ],
        None => Seq::empty(),
    }
}

fn stoke_play(ctx: &CardPlayCtx<'_>, _card: CardInstanceId, _target: Option<CreatureId>) -> (r: Vec<Effect>)
    ensures
        r@ == stoke_effects(ctx),
{
    let player = match ctx.state.player_id() {
        Some(p) => p,
        None => return Vec::new(),
    };
    let count = hand_len(ctx.state) as u8;
    let effects = one(Effect::ExhaustHand { player, filter: CardFilter::Any });
    push(effects, Effect::DrawCards { player, count })
}

pub open spec fn stomp_effects(ctx: &CardPlayCtx, card: CardInstanceId) -> Seq<Effect> {
    seq![spec_all_enemy_attack(ctx.state, card, spec_value(ctx.state, card, 12, 3), 1)]
}

fn stomp_play(ctx: &CardPlayCtx<'_>, card: CardInstanceId, _target: Option<CreatureId>) -> (r: Vec<Effect>)
    ensures
        r@ == stomp_effects(ctx, card),
{
    one(all_enemy_attack(ctx, card, value(ctx, card, 12, 3), 1))
}

pub open spec fn stone_armor_effects(ctx: &CardPlayCtx, card: CardInstanceId) -> Seq<Effect> {
    spec_apply_self_power(ctx.state, card, PLATING_POWER, spec_value(ctx.state, card, 4, 2))
}

fn stone_armor_play(ctx: &CardPlayCtx<'_>, card: CardInstanceId, _target: Option<CreatureId>) -> (r: Vec<Effect>)
    ensures
        r@ == stone_armor_effects(ctx, card),
{
    apply_self_power(ctx, card, PLATING_POWER, value(ctx, card, 4, 2))
}

pub open spec fn sword_boomerang_effects(ctx: &CardPlayCtx, card: CardInstanceId) -> Seq<Effect> {
    seq![spec_random_enemy_attack(ctx.state, card, 3, spec_value(ctx.state, card, 3, 1) as u8)]
}

fn sword_boomerang_play(ctx: &CardPlayCtx<'_>, card: CardInstanceId, _target: Option<CreatureId>) -> (r: Vec<Effect>)
    ensures
        r@ == sword_boomerang_effects(ctx, card),
{
    one(random_enemy_attack(ctx, card, 3, value(ctx, card, 3, 1) as u8))
}

pub open spec fn tank_effects(ctx: &CardPlayCtx, card: CardInstanceId) -> Seq<Effect> {
    spec_apply_self_power(ctx.state, card, TANK_POWER, 1)
}

fn tank_play(ctx: &CardPlayCtx<'_>, card: CardInstanceId, _target: Option<CreatureId>) -> (r: Vec<Effect>)
    ensures
        r@ == tank_effects(ctx, card),
{
    apply_self_power(ctx, card, TANK_POWER, 1)
}

pub open spec fn taunt_effects(ctx: &CardPlayCtx, card: CardInstanceId, target: Option<CreatureId>) -> Seq<Effect> {
    match target {
        Some(t) => spec_block_self(ctx.state, card, 7, 1).push(
            spec_apply_power(t, card, VULNERABLE, if spec_is_upgraded(ctx.state, card) { 2 } else { 1 }),
        ),
        None => Seq::empty(),
    }
}

fn taunt_play(ctx: &CardPlayCtx<'_>, card: CardInstanceId, target: Option<CreatureId>) -> (r: Vec<Effect>)
    ensures
        r@ == taunt_effects(ctx, card, target),
{
    let target = match target {
        Some(t) => t,
        None => return Vec::new(),
    };
    push(block_self(ctx, card, 7, 1), apply_power(target, card, VULNERABLE, if is_upgraded(ctx, card) { 2 } else { 1 }))
}

/// The times the player lost HP this combat, as a count of hits.
pub open spec fn hp_loss_events(ctx: &CardPlayCtx) -> u8 {
    match spec_combat_stats(ctx.state) {
        Some(cs) => cs.hp_loss_events_by_player as u8,
        None => 0,
    }
}

pub open spec fn tear_asunder_effects(ctx: &CardPlayCtx, card: CardInstanceId, target: Option<CreatureId>) -> Seq<Effect> {
    spec_strike_like(ctx.state, card, target, 5, 2, (1 + hp_loss_events(ctx)) as nat)
}

fn tear_asunder_play(ctx: &CardPlayCtx<'_>, card: CardInstanceId, target: Option<CreatureId>) -> (r: Vec<Effect>)
    requires
        ironclad_play_fits(ctx, CardId::TearAsunder, card, target),
    ensures
        r@ == tear_asunder_effects(ctx, card, target),
{
    let events: u8 = match combat_stats(ctx.state) {
        Some(cs) => cs.hp_loss_events_by_player as u8,
        None => 0,
    };
    strike_like(ctx, card, target, 5, 2, 1 + events)
}

pub open spec fn thrash_effects(ctx: &CardPlayCtx, card: CardInstanceId, target: Option<CreatureId>) -> Seq<Effect> {
    match ctx.state.spec_player_id() {
        Some(p) => spec_strike_like(ctx.state, card, target, 4, 2, 2).push(
            Effect::ExhaustRandomHand { player: p, filter: CardFilter::Attack },
        ),
        None => Seq::empty(),
    }
}

fn thrash_play(ctx: &CardPlayCtx<'_>, card: CardInstanceId, target: Option<CreatureId>) -> (r: Vec<Effect>)
    ensures
        r@ == thrash_effects(ctx, card, target),
{
    let player = match ctx.state.player_id() {
        Some(p) => p,
        None => return Vec::new(),
    };
    push(strike_like(ctx, card, target, 4, 2, 2), Effect::ExhaustRandomHand { player, filter: CardFilter::Attack })
}

pub open spec fn thunderclap_effects(ctx: &CardPlayCtx, card: CardInstanceId) -> Seq<Effect> {
    seq![spec_all_enemy_attack(ctx.state, card, spec_value(ctx.state, card, 4, 3), 1)] + ctx.state.spec_alive_monster_ids().map_values(
        |e: CreatureId| spec_apply_power(e, card, VULNERABLE, 1),
    )
}

fn thunderclap_play(ctx: &CardPlayCtx<'_>, card: CardInstanceId, _target: Option<CreatureId>) -> (r: Vec<Effect>)
    ensures
        r@ == thunderclap_effects(ctx, card),
{
    let mut effects = one(all_enemy_attack(ctx, card, value(ctx, card, 4, 3), 1));
    let ghost head = effects@;
    let enemies = ctx.state.alive_monster_ids();
    let n = enemies.len();
    for i in 0..n
        invariant
            n == enemies@.len(),
            enemies@ == ctx.state.spec_alive_monster_ids(),
            effects@ == head + enemies@.take(i as int).map_values(|e: CreatureId| spec_apply_power(e, card, VULNERABLE, 1)),
    {
        effects.push(apply_power(enemies[i], card, VULNERABLE, 1));
        proof {
            assert(effects@ =~= head + enemies@.take((i + 1) as int).map_values(
                |e: CreatureId| spec_apply_power(e, card, VULNERABLE, 1),
            ));
        }
    }
    proof {
        assert(enemies@.take(n as int) =~= enemies@);
    }
    effects
}

pub open spec fn tremble_effects(ctx: &CardPlayCtx, card: CardInstanceId, target: Option<CreatureId>) -> Seq<Effect> {
    match target {
        Some(t) => seq![spec_apply_power(t, card, VULNERABLE, spec_value(ctx.state, card, 3, 1))],
        None => Seq::empty(),
    }
}

fn tremble_play(ctx: &CardPlayCtx<'_>, card: CardInstanceId, target: Option<CreatureId>) -> (r: Vec<Effect>)
    ensures
        r@ == tremble_effects(ctx, card, target),
{
    match target {
        Some(t) => one(apply_power(t, card, VULNERABLE, value(ctx, card, 3, 1))),
        None => Vec::new(),
    }
}

pub open spec fn true_grit_effects(ctx: &CardPlayCtx, card: CardInstanceId) -> Seq<Effect> {
    match ctx.state.spec_player_id() {
        Some(p) => spec_block_self(ctx.state, card, 7, 2).push(
            Effect::ExhaustRandomHand { player: p, filter: CardFilter::Any },
        ),
        None => Seq::empty(),
    }
}

fn true_grit_play(ctx: &CardPlayCtx<'_>, card: CardInstanceId, _target: Option<CreatureId>) -> (r: Vec<Effect>)
    ensures
        r@ == true_grit_effects(ctx, card),
{
    let player = match ctx.state.player_id() {
        Some(p) => p,
        None => return Vec::new(),
    };
    push(block_self(ctx, card, 7, 2), Effect::ExhaustRandomHand { player, filter: CardFilter::Any })
}

pub open spec fn twin_strike_effects(ctx: &CardPlayCtx, card: CardInstanceId, target: Option<CreatureId>) -> Seq<Effect> {
    spec_strike_like(ctx.state, card, target, 5, 2, 2)
}

fn twin_strike_play(ctx: &CardPlayCtx<'_>, card: CardInstanceId, target: Option<CreatureId>) -> (r: Vec<Effect>)
    ensures
        r@ == twin_strike_effects(ctx, card, target),
{
    strike_like(ctx, card, target, 5, 2, 2)
}

pub open spec fn unmovable_effects(ctx: &CardPlayCtx, card: CardInstanceId) -> Seq<Effect> {
    spec_apply_self_power(ctx.state, card, UNMOVABLE_POWER, 1)
}

fn unmovable_play(ctx: &CardPlayCtx<'_>, card: CardInstanceId, _target: Option<CreatureId>) -> (r: Vec<Effect>)
    ensures
        r@ == unmovable_effects(ctx, card),
{
    apply_self_power(ctx, card, UNMOVABLE_POWER, 1)
}

pub open spec fn unrelenting_effects(ctx: &CardPlayCtx, card: CardInstanceId, target: Option<CreatureId>) -> Seq<Effect> {
    spec_strike_like(ctx.state, card, target, 12, 6, 1) + spec_apply_self_power(ctx.state, card, FREE_ATTACK_POWER, 1)
}

fn unrelenting_play(ctx: &CardPlayCtx<'_>, card: CardInstanceId, target: Option<CreatureId>) -> (r: Vec<Effect>)
    ensures
        r@ == unrelenting_effects(ctx, card, target),
{
    concat(strike_like(ctx, card, target, 12, 6, 1), apply_self_power(ctx, card, FREE_ATTACK_POWER, 1))
}

pub open spec fn uppercut_effects(ctx: &CardPlayCtx, card: CardInstanceId, target: Option<CreatureId>) -> Seq<Effect> {
    match target {
        Some(t) => {
            let amount = if spec_is_upgraded(ctx.state, card) { 2int } else { 1int };
            attacks(ctx.state, card, t, 13, 1).push(spec_apply_power(t, card, WEAK, amount)).push(
                spec_apply_power(t, card, VULNERABLE, amount),
            )
        },
        None => Seq::empty(),
    }
}

fn uppercut_play(ctx: &CardPlayCtx<'_>, card: CardInstanceId, target: Option<CreatureId>) -> (r: Vec<Effect>)
    ensures
        r@ == uppercut_effects(ctx, card, target),
{
    let target = match target {
        Some(t) => t,
        None => return Vec::new(),
    };
    let amount: i32 = if is_upgraded(ctx, card) { 2 } else { 1 };
    let effects = attack_effects(ctx, card, target, 13, 1);
    let effects = push(effects, apply_power(target, card, WEAK, amount));
    push(effects, apply_power(target, card, VULNERABLE, amount))
}

pub open spec fn vicious_effects(ctx: &CardPlayCtx, card: CardInstanceId) -> Seq<Effect> {
    spec_apply_self_power(ctx.state, card, VICIOUS_POWER, spec_value(ctx.state, card, 1, 1))
}

fn vicious_play(ctx: &CardPlayCtx<'_>, card: CardInstanceId, _target: Option<CreatureId>) -> (r: Vec<Effect>)
    ensures
        r@ == vicious_effects(ctx, card),
{
    apply_self_power(ctx, card, VICIOUS_POWER, value(ctx, card, 1, 1))
}

pub open spec fn whirlwind_effects(ctx: &CardPlayCtx, card: CardInstanceId) -> Seq<Effect> {
    let paid: i32 = if ctx.paid_energy > 0 { ctx.paid_energy } else { 0 };
    seq![spec_all_enemy_attack(ctx.state, card, spec_value(ctx.state, card, 5, 3), paid as u8)]
}

fn whirlwind_play(ctx: &CardPlayCtx<'_>, card: CardInstanceId, _target: Option<CreatureId>) -> (r: Vec<Effect>)
    ensures
        r@ == whirlwind_effects(ctx, card),
{
    let paid: i32 = if ctx.paid_energy > 0 { ctx.paid_energy } else { 0 };
    one(all_enemy_attack(ctx, card, value(ctx, card, 5, 3), paid as u8))
}


/// What the play body of an Ironclad card (or of Giant Rock) yields; nothing for another card.
pub open spec fn ironclad_play_effects(ctx: &CardPlayCtx, id: CardId, card: CardInstanceId, target: Option<CreatureId>) -> Seq<Effect> {
    match id {
        CardId::StrikeIronclad => strike_ironclad_effects(ctx, card, target),
        CardId::Bludgeon => bludgeon_effects(ctx, card, target),
        CardId::GiantRock => giant_rock_effects(ctx, card, target),
        CardId::Aggression => aggression_effects(ctx, card),
        CardId::Anger => anger_effects(ctx, card, target),
        CardId::Armaments => armaments_effects(ctx, card),
        CardId::AshenStrike => ashen_strike_effects(ctx, card, target),
        CardId::Barricade => barricade_effects(ctx, card),
        CardId::Bash => bash_effects(ctx, card, target),
        CardId::BattleTrance => battle_trance_effects(ctx, card),
        CardId::BloodWall => blood_wall_effects(ctx, card),
        CardId::Bloodletting => bloodletting_effects(ctx, card),
        CardId::BodySlam => body_slam_effects(ctx, card, target),
        CardId::Brand => brand_effects(ctx, card),
        CardId::Break => break_effects(ctx, card, target),
        CardId::Breakthrough => breakthrough_effects(ctx, card),
        CardId::Bully => bully_effects(ctx, card, target),
        CardId::BurningPact => burning_pact_effects(ctx, card),
        CardId::Cascade => cascade_effects(ctx, card),
        CardId::Cinder => cinder_effects(ctx, card, target),
        CardId::Colossus => colossus_effects(ctx, card),
        CardId::Conflagration => conflagration_effects(ctx, card),
        CardId::Corruption => corruption_effects(ctx, card),
        CardId::CrimsonMantle => crimson_mantle_effects(ctx, card),
        CardId::Cruelty => cruelty_effects(ctx, card),
        CardId::DarkEmbrace => dark_embrace_effects(ctx, card),
        CardId::DefendIronclad => defend_ironclad_effects(ctx, card),
        CardId::DemonForm => demon_form_effects(ctx, card),
        CardId::DemonicShield => demonic_shield_effects(ctx, card, target),
        CardId::Dismantle => dismantle_effects(ctx, card, target),
        CardId::Dominate => dominate_effects(ctx, card, target),
        CardId::DrumOfBattle => drum_of_battle_effects(ctx, card),
        CardId::EvilEye => evil_eye_effects(ctx, card),
        CardId::ExpectAFight => expect_a_fight_effects(ctx, card),
        CardId::Feed => feed_effects(ctx, card, target),
        CardId::FeelNoPain => feel_no_pain_effects(ctx, card),
        CardId::FiendFire => fiend_fire_effects(ctx, card, target),
        CardId::FightMe => fight_me_effects(ctx, card, target),
        CardId::FlameBarrier => flame_barrier_effects(ctx, card),
        CardId::ForgottenRitual => forgotten_ritual_effects(ctx, card),
        CardId::Havoc => havoc_effects(ctx),
        CardId::Headbutt => headbutt_effects(ctx, card, target),
        CardId::Hellraiser => hellraiser_effects(ctx, card),
        CardId::Hemokinesis => hemokinesis_effects(ctx, card, target),
        CardId::HowlFromBeyond => howl_from_beyond_effects(ctx, card),
        CardId::Impervious => impervious_effects(ctx, card),
        CardId::InfernalBlade => infernal_blade_effects(ctx),
        CardId::Inferno => inferno_effects(ctx, card),
        CardId::Inflame => inflame_effects(ctx, card),
        CardId::IronWave => iron_wave_effects(ctx, card, target),
        CardId::Juggernaut => juggernaut_effects(ctx, card),
        CardId::Juggling => juggling_effects(ctx, card),
        CardId::Mangle => mangle_effects(ctx, card, target),
        CardId::MoltenFist => molten_fist_effects(ctx, card, target),
        CardId::NotYet => not_yet_effects(ctx, card),
        CardId::Offering => offering_effects(ctx, card),
        CardId::OneTwoPunch => one_two_punch_effects(ctx, card),
        CardId::PactsEnd => pacts_end_effects(ctx, card),
        CardId::PerfectedStrike => perfected_strike_effects(ctx, card, target),
        CardId::Pillage => pillage_effects(ctx, card, target),
        CardId::PommelStrike => pommel_strike_effects(ctx, card, target),
        CardId::PrimalForce => primal_force_effects(ctx, card),
        CardId::Pyre => pyre_effects(ctx, card),
        CardId::Rage => rage_effects(ctx, card),
        CardId::Rampage => rampage_effects(ctx, card, target),
        CardId::Rupture => rupture_effects(ctx, card),
        CardId::SecondWind => second_wind_effects(ctx, card),
        CardId::SetupStrike => setup_strike_effects(ctx, card, target),
        CardId::ShrugItOff => shrug_it_off_effects(ctx, card),
        CardId::Spite => spite_effects(ctx, card, target),
        CardId::Stampede => stampede_effects(ctx, card),
        CardId::Stoke => stoke_effects(ctx),
        CardId::Stomp => stomp_effects(ctx, card),
        CardId::StoneArmor => stone_armor_effects(ctx, card),
        CardId::SwordBoomerang => sword_boomerang_effects(ctx, card),
        CardId::Tank => tank_effects(ctx, card),
        CardId::Taunt => taunt_effects(ctx, card, target),
        CardId::TearAsunder => tear_asunder_effects(ctx, card, target),
        CardId::Thrash => thrash_effects(ctx, card, target),
        CardId::Thunderclap => thunderclap_effects(ctx, card),
        CardId::Tremble => tremble_effects(ctx, card, target),
        CardId::TrueGrit => true_grit_effects(ctx, card),
        CardId::TwinStrike => twin_strike_effects(ctx, card, target),
        CardId::Unmovable => unmovable_effects(ctx, card),
        CardId::Unrelenting => unrelenting_effects(ctx, card, target),
        CardId::Uppercut => uppercut_effects(ctx, card, target),
        CardId::Vicious => vicious_effects(ctx, card),
        CardId::Whirlwind => whirlwind_effects(ctx, card),
        _ => Seq::empty(),
    }
}

/// The sums and products an Ironclad card's play body works out fit an
/// `i32`, and its hit count a `u8`.
pub open spec fn ironclad_play_fits(ctx: &CardPlayCtx, id: CardId, card: CardInstanceId, target: Option<CreatureId>) -> bool {
    let up = spec_is_upgraded(ctx.state, card);
    match id {
        CardId::AshenStrike => target is Some ==> {
            let p = (if up { 4int } else { 3int }) * exhaust_count(ctx);
            fits_i32(p) && fits_i32(6 + p)
        },
        CardId::Bully => match target {
            Some(t) => {
                let p = (if up { 3int } else { 2int }) * ctx.state.spec_power_amount(t, VULNERABLE);
                fits_i32(p) && fits_i32(4 + p)
            },
            None => true,
        },
        CardId::Cascade => ctx.state.spec_player_id() is Some ==> fits_i32(ctx.paid_energy + if up { 1int } else { 0int }),
        CardId::Conflagration => {
            let p = previous_attacks(ctx) * if up { 3int } else { 2int };
            fits_i32(p) && fits_i32(8 + p)
        },
        CardId::Dominate => match target {
            Some(t) => fits_i32(ctx.state.spec_power_amount(t, VULNERABLE) + if up { 2int } else { 1int }),
            None => true,
        },
        CardId::PerfectedStrike => target is Some ==> {
            let p = (spec_tagged_cards(ctx.state, ctx.registry, CardTag::Strike).len() as i32 as int) * if up { 3int } else { 2int };
            fits_i32(p) && fits_i32(6 + p)
        },
        CardId::TearAsunder => hp_loss_events(ctx) < 255,
        _ => true,
    }
}

/// Runs the play body of an Ironclad card (or of Giant Rock); nothing for another card.
pub fn ironclad_play(ctx: &CardPlayCtx<'_>, id: CardId, card: CardInstanceId, target: Option<CreatureId>) -> (r: Vec<Effect>)
    requires
        ironclad_play_fits(ctx, id, card, target),
    ensures
        r@ == ironclad_play_effects(ctx, id, card, target),
{
    match id {
        CardId::StrikeIronclad => strike_ironclad_play(ctx, card, target),
        CardId::Bludgeon => bludgeon_play(ctx, card, target),
        CardId::GiantRock => giant_rock_play(ctx, card, target),
        CardId::Aggression => aggression_play(ctx, card, target),
        CardId::Anger => anger_play(ctx, card, target),
        CardId::Armaments => armaments_play(ctx, card, target),
        CardId::AshenStrike => ashen_strike_play(ctx, card, target),
        CardId::Barricade => barricade_play(ctx, card, target),
        CardId::Bash => bash_play(ctx, card, target),
        CardId::BattleTrance => battle_trance_play(ctx, card, target),
        CardId::BloodWall => blood_wall_play(ctx, card, target),
        CardId::Bloodletting => bloodletting_play(ctx, card, target),
        CardId::BodySlam => body_slam_play(ctx, card, target),
        CardId::Brand => brand_play(ctx, card, target),
        CardId::Break => break_play(ctx, card, target),
        CardId::Breakthrough => breakthrough_play(ctx, card, target),
        CardId::Bully => bully_play(ctx, card, target),
        CardId::BurningPact => burning_pact_play(ctx, card, target),
        CardId::Cascade => cascade_play(ctx, card, target),
        CardId::Cinder => cinder_play(ctx, card, target),
        CardId::Colossus => colossus_play(ctx, card, target),
        CardId::Conflagration => conflagration_play(ctx, card, target),
        CardId::Corruption => corruption_play(ctx, card, target),
        CardId::CrimsonMantle => crimson_mantle_play(ctx, card, target),
        CardId::Cruelty => cruelty_play(ctx, card, target),
        CardId::DarkEmbrace => dark_embrace_play(ctx, card, target),
        CardId::DefendIronclad => defend_ironclad_play(ctx, card, target),
        CardId::DemonForm => demon_form_play(ctx, card, target),
        CardId::DemonicShield => demonic_shield_play(ctx, card, target),
        CardId::Dismantle => dismantle_play(ctx, card, target),
        CardId::Dominate => dominate_play(ctx, card, target),
        CardId::DrumOfBattle => drum_of_battle_play(ctx, card, target),
        CardId::EvilEye => evil_eye_play(ctx, card, target),
        CardId::ExpectAFight => expect_a_fight_play(ctx, card, target),
        CardId::Feed => feed_play(ctx, card, target),
        CardId::FeelNoPain => feel_no_pain_play(ctx, card, target),
        CardId::FiendFire => fiend_fire_play(ctx, card, target),
        CardId::FightMe => fight_me_play(ctx, card, target),
        CardId::FlameBarrier => flame_barrier_play(ctx, card, target),
        CardId::ForgottenRitual => forgotten_ritual_play(ctx, card, target),
        CardId::Havoc => havoc_play(ctx, card, target),
        CardId::Headbutt => headbutt_play(ctx, card, target),
        CardId::Hellraiser => hellraiser_play(ctx, card, target),
        CardId::Hemokinesis => hemokinesis_play(ctx, card, target),
        CardId::HowlFromBeyond => howl_from_beyond_play(ctx, card, target),
        CardId::Impervious => impervious_play(ctx, card, target),
        CardId::InfernalBlade => infernal_blade_play(ctx, card, target),
        CardId::Inferno => inferno_play(ctx, card, target),
        CardId::Inflame => inflame_play(ctx, card, target),
        CardId::IronWave => iron_wave_play(ctx, card, target),
        CardId::Juggernaut => juggernaut_play(ctx, card, target),
        CardId::Juggling => juggling_play(ctx, card, target),
        CardId::Mangle => mangle_play(ctx, card, target),
        CardId::MoltenFist => molten_fist_play(ctx, card, target),
        CardId::NotYet => not_yet_play(ctx, card, target),
        CardId::Offering => offering_play(ctx, card, target),
        CardId::OneTwoPunch => one_two_punch_play(ctx, card, target),
        CardId::PactsEnd => pacts_end_play(ctx, card, target),
        CardId::PerfectedStrike => perfected_strike_play(ctx, card, target),
        CardId::Pillage => pillage_play(ctx, card, target),
        CardId::PommelStrike => pommel_strike_play(ctx, card, target),
        CardId::PrimalForce => primal_force_play(ctx, card, target),
        CardId::Pyre => pyre_play(ctx, card, target),
        CardId::Rage => rage_play(ctx, card, target),
        CardId::Rampage => rampage_play(ctx, card, target),
        CardId::Rupture => rupture_play(ctx, card, target),
        CardId::SecondWind => second_wind_play(ctx, card, target),
        CardId::SetupStrike => setup_strike_play(ctx, card, target),
        CardId::ShrugItOff => shrug_it_off_play(ctx, card, target),
        CardId::Spite => spite_play(ctx, card, target),
        CardId::Stampede => stampede_play(ctx, card, target),
        CardId::Stoke => stoke_play(ctx, card, target),
        CardId::Stomp => stomp_play(ctx, card, target),
        CardId::StoneArmor => stone_armor_play(ctx, card, target),
        CardId::SwordBoomerang => sword_boomerang_play(ctx, card, target),
        CardId::Tank => tank_play(ctx, card, target),
        CardId::Taunt => taunt_play(ctx, card, target),
        CardId::TearAsunder => tear_asunder_play(ctx, card, target),
        CardId::Thrash => thrash_play(ctx, card, target),
        CardId::Thunderclap => thunderclap_play(ctx, card, target),
        CardId::Tremble => tremble_play(ctx, card, target),
        CardId::TrueGrit => true_grit_play(ctx, card, target),
        CardId::TwinStrike => twin_strike_play(ctx, card, target),
        CardId::Unmovable => unmovable_play(ctx, card, target),
        CardId::Unrelenting => unrelenting_play(ctx, card, target),
        CardId::Uppercut => uppercut_play(ctx, card, target),
        CardId::Vicious => vicious_play(ctx, card, target),
        CardId::Whirlwind => whirlwind_play(ctx, card, target),
        _ => Vec::new(),
    }
}

} // verus!
