//! What the content does, stated with the catalogue's own ids and numbers:
//! what cards do when played, what their text shows, how powers change
//! damage, and what Nibbit does on its turn.
use vstd::prelude::*;

use crate::amount::Amount;
use crate::registry_static::StaticRegistry;
use crate::content::cards::ironclad::ironclad_play_effects;
use crate::content::cards::{card_play_effects, CardPlay, CardPlayCtx};
use crate::effect::{UpgradeMode, CardFilter, DamageAllEnemiesOp, DamageFlags, DamageKind, DamageOp, Effect, RandomDamageOp, Source};
use crate::content::monsters::{nibbit_intent_of, nibbit_move, nibbit_moves, MonsterIntent};
use crate::content::powers::{cost_modifier_result, damage_modifier_result, unmovable_block, CostModifier, DamageModifier};
use crate::ids::{CardId, CardInstanceId, CreatureId, PowerId, PowerInstanceId};
use crate::rules::{BlockCalc, DamageCalc, ResourceCostCalc, RuleCtx};
use crate::content::cards::{CardTag, CardType};
use crate::state::{CardState, GameState, PileId, PileKind, ResourceKind, Side};

verus! {

/// The card instance is upgraded.
pub open spec fn is_upgraded_card(state: &GameState, card: CardInstanceId) -> bool {
    state.spec_card(card) matches Some(c) && c.upgraded
}

/// One attack the player's creature deals with the card: `amount` to `target`.
pub open spec fn card_hit(state: &GameState, card: CardInstanceId, target: CreatureId, amount: int) -> Effect {
    Effect::DealDamage(
        DamageOp {
            source: Some(Source::Card(card)),
            dealer: match state.combat {
                Some(c) => Some(c.player.creature),
                None => None,
            },
            target,
            base_amount: Amount { mantissa: amount as i128, scale: 0 },
            kind: DamageKind::Attack,
            flags: DamageFlags { ignores_block: false },
        },
    )
}

/// `amount` of `power` applied by the card to `target`.
pub open spec fn card_applies(card: CardInstanceId, target: CreatureId, power: PowerId, amount: int) -> Effect {
    Effect::ApplyPower { target, power, amount: Amount { mantissa: amount as i128, scale: 0 }, source: Some(Source::Card(card)) }
}

/// `base`, or `upgraded` when the card is upgraded.
pub open spec fn up(state: &GameState, card: CardInstanceId, base: int, upgraded: int) -> int {
    if is_upgraded_card(state, card) {
        upgraded
    } else {
        base
    }
}

/// `count` attacks of `amount` each on the target; nothing without one.
pub open spec fn hits_on(state: &GameState, card: CardInstanceId, target: Option<CreatureId>, amount: int, count: nat) -> Seq<Effect> {
    match target {
        Some(t) => Seq::new(count, |i: int| card_hit(state, card, t, amount)),
        None => Seq::empty(),
    }
}

/// `amount` Block for the player's creature, from the card.
pub open spec fn self_block(state: &GameState, card: CardInstanceId, amount: int) -> Seq<Effect> {
    match state.combat {
        Some(c) => seq![
            Effect::GainBlock { target: c.player.creature, amount: Amount { mantissa: amount as i128, scale: 0 }, source: Some(Source::Card(card)) },
        ],
        None => Seq::empty(),
    }
}

/// `amount` of `power` for the player's creature, from the card.
pub open spec fn self_power(state: &GameState, card: CardInstanceId, power: PowerId, amount: int) -> Seq<Effect> {
    match state.combat {
        Some(c) => seq![card_applies(card, c.player.creature, power, amount)],
        None => Seq::empty(),
    }
}

/// The player's creature loses `amount` HP, from the card.
pub open spec fn self_hp_loss(state: &GameState, card: CardInstanceId, amount: int) -> Seq<Effect> {
    match state.combat {
        Some(c) => seq![
            Effect::LoseHp { target: c.player.creature, amount: Amount { mantissa: amount as i128, scale: 0 }, source: Some(Source::Card(card)) },
        ],
        None => Seq::empty(),
    }
}

/// An attack of the player's creature on every enemy, `count` times for `amount`.
pub open spec fn all_hits(state: &GameState, card: CardInstanceId, amount: int, count: u8) -> Effect {
    Effect::DealDamageToAllEnemies(
        DamageAllEnemiesOp {
            source: Some(Source::Card(card)),
            dealer: match state.combat {
                Some(c) => Some(c.player.creature),
                None => None,
            },
            base_amount: Amount { mantissa: amount as i128, scale: 0 },
            kind: DamageKind::Attack,
            flags: DamageFlags { ignores_block: false },
            hit_count: count,
        },
    )
}

/// Attacks of the player's creature on random enemies, `count` of them for `amount`.
pub open spec fn random_hits(state: &GameState, card: CardInstanceId, amount: int, count: u8) -> Effect {
    Effect::DealDamageToRandomEnemy(
        RandomDamageOp {
            source: Some(Source::Card(card)),
            dealer: match state.combat {
                Some(c) => Some(c.player.creature),
                None => None,
            },
            base_amount: Amount { mantissa: amount as i128, scale: 0 },
            kind: DamageKind::Attack,
            flags: DamageFlags { ignores_block: false },
            hit_count: count,
        },
    )
}

/// Playing Bludgeon hits its target once for 32 (42 upgraded).
pub proof fn lemma_bludgeon_play(ctx: &CardPlayCtx, card: CardInstanceId, target: Option<CreatureId>)
    ensures
        ironclad_play_effects(ctx, CardId::Bludgeon, card, target) == hits_on(ctx.state, card, target, up(ctx.state, card, 32, 42), 1),
{
    assert(ironclad_play_effects(ctx, CardId::Bludgeon, card, target) =~= hits_on(ctx.state, card, target, up(ctx.state, card, 32, 42), 1));
}

/// Playing GiantRock hits its target once for 16 (20 upgraded).
pub proof fn lemma_giant_rock_play(ctx: &CardPlayCtx, card: CardInstanceId, target: Option<CreatureId>)
    ensures
        ironclad_play_effects(ctx, CardId::GiantRock, card, target) == hits_on(ctx.state, card, target, up(ctx.state, card, 16, 20), 1),
{
    assert(ironclad_play_effects(ctx, CardId::GiantRock, card, target) =~= hits_on(ctx.state, card, target, up(ctx.state, card, 16, 20), 1));
}

/// Playing Rampage hits its target once for 9; its growth is counted elsewhere.
pub proof fn lemma_rampage_play(ctx: &CardPlayCtx, card: CardInstanceId, target: Option<CreatureId>)
    ensures
        ironclad_play_effects(ctx, CardId::Rampage, card, target) == hits_on(ctx.state, card, target, 9, 1),
{
    assert(ironclad_play_effects(ctx, CardId::Rampage, card, target) =~= hits_on(ctx.state, card, target, 9, 1));
}

/// Playing Aggression gives the player 1 Aggression.
pub proof fn lemma_aggression_play(ctx: &CardPlayCtx, card: CardInstanceId, target: Option<CreatureId>)
    ensures
        ironclad_play_effects(ctx, CardId::Aggression, card, target) == self_power(ctx.state, card, PowerId::AggressionPower, 1),
{
    assert(ironclad_play_effects(ctx, CardId::Aggression, card, target) =~= self_power(ctx.state, card, PowerId::AggressionPower, 1));
}

/// Playing Barricade gives the player 1 Barricade.
pub proof fn lemma_barricade_play(ctx: &CardPlayCtx, card: CardInstanceId, target: Option<CreatureId>)
    ensures
        ironclad_play_effects(ctx, CardId::Barricade, card, target) == self_power(ctx.state, card, PowerId::BarricadePower, 1),
{
    assert(ironclad_play_effects(ctx, CardId::Barricade, card, target) =~= self_power(ctx.state, card, PowerId::BarricadePower, 1));
}

/// Playing BloodWall costs the player 2 HP, then gives 16 Block (20 upgraded).
pub proof fn lemma_blood_wall_play(ctx: &CardPlayCtx, card: CardInstanceId, target: Option<CreatureId>)
    ensures
        ironclad_play_effects(ctx, CardId::BloodWall, card, target) == self_hp_loss(ctx.state, card, 2) + self_block(ctx.state, card, up(ctx.state, card, 16, 20)),
{
    assert(ironclad_play_effects(ctx, CardId::BloodWall, card, target) =~= self_hp_loss(ctx.state, card, 2) + self_block(ctx.state, card, up(ctx.state, card, 16, 20)));
}

/// Playing Breakthrough costs the player 1 HP, then hits every enemy for 9 (13 upgraded).
pub proof fn lemma_breakthrough_play(ctx: &CardPlayCtx, card: CardInstanceId, target: Option<CreatureId>)
    ensures
        ironclad_play_effects(ctx, CardId::Breakthrough, card, target) == self_hp_loss(ctx.state, card, 1).push(all_hits(ctx.state, card, up(ctx.state, card, 9, 13), 1)),
{
    assert(ironclad_play_effects(ctx, CardId::Breakthrough, card, target) =~= self_hp_loss(ctx.state, card, 1).push(all_hits(ctx.state, card, up(ctx.state, card, 9, 13), 1)));
}

/// Playing Colossus gives the player 5 Block (8 upgraded) and 1 Colossus.
pub proof fn lemma_colossus_play(ctx: &CardPlayCtx, card: CardInstanceId, target: Option<CreatureId>)
    ensures
        ironclad_play_effects(ctx, CardId::Colossus, card, target) == self_block(ctx.state, card, up(ctx.state, card, 5, 8)) + self_power(ctx.state, card, PowerId::ColossusPower, 1),
{
    assert(ironclad_play_effects(ctx, CardId::Colossus, card, target) =~= self_block(ctx.state, card, up(ctx.state, card, 5, 8)) + self_power(ctx.state, card, PowerId::ColossusPower, 1));
}

/// Playing Corruption gives the player 1 Corruption.
pub proof fn lemma_corruption_play(ctx: &CardPlayCtx, card: CardInstanceId, target: Option<CreatureId>)
    ensures
        ironclad_play_effects(ctx, CardId::Corruption, card, target) == self_power(ctx.state, card, PowerId::CorruptionPower, 1),
{
    assert(ironclad_play_effects(ctx, CardId::Corruption, card, target) =~= self_power(ctx.state, card, PowerId::CorruptionPower, 1));
}

/// Playing CrimsonMantle gives the player 8 Crimson Mantle (10 upgraded).
pub proof fn lemma_crimson_mantle_play(ctx: &CardPlayCtx, card: CardInstanceId, target: Option<CreatureId>)
    ensures
        ironclad_play_effects(ctx, CardId::CrimsonMantle, card, target) == self_power(ctx.state, card, PowerId::CrimsonMantlePower, up(ctx.state, card, 8, 10)),
{
    assert(ironclad_play_effects(ctx, CardId::CrimsonMantle, card, target) =~= self_power(ctx.state, card, PowerId::CrimsonMantlePower, up(ctx.state, card, 8, 10)));
}

/// Playing Cruelty gives the player 25 Cruelty (50 upgraded).
pub proof fn lemma_cruelty_play(ctx: &CardPlayCtx, card: CardInstanceId, target: Option<CreatureId>)
    ensures
        ironclad_play_effects(ctx, CardId::Cruelty, card, target) == self_power(ctx.state, card, PowerId::CrueltyPower, up(ctx.state, card, 25, 50)),
{
    assert(ironclad_play_effects(ctx, CardId::Cruelty, card, target) =~= self_power(ctx.state, card, PowerId::CrueltyPower, up(ctx.state, card, 25, 50)));
}

/// Playing DarkEmbrace gives the player 1 Dark Embrace.
pub proof fn lemma_dark_embrace_play(ctx: &CardPlayCtx, card: CardInstanceId, target: Option<CreatureId>)
    ensures
        ironclad_play_effects(ctx, CardId::DarkEmbrace, card, target) == self_power(ctx.state, card, PowerId::DarkEmbracePower, 1),
{
    assert(ironclad_play_effects(ctx, CardId::DarkEmbrace, card, target) =~= self_power(ctx.state, card, PowerId::DarkEmbracePower, 1));
}

/// Playing DemonForm gives the player 2 Demon Form (3 upgraded).
pub proof fn lemma_demon_form_play(ctx: &CardPlayCtx, card: CardInstanceId, target: Option<CreatureId>)
    ensures
        ironclad_play_effects(ctx, CardId::DemonForm, card, target) == self_power(ctx.state, card, PowerId::DemonFormPower, up(ctx.state, card, 2, 3)),
{
    assert(ironclad_play_effects(ctx, CardId::DemonForm, card, target) =~= self_power(ctx.state, card, PowerId::DemonFormPower, up(ctx.state, card, 2, 3)));
}

/// Playing FeelNoPain gives the player 3 Feel No Pain (4 upgraded).
pub proof fn lemma_feel_no_pain_play(ctx: &CardPlayCtx, card: CardInstanceId, target: Option<CreatureId>)
    ensures
        ironclad_play_effects(ctx, CardId::FeelNoPain, card, target) == self_power(ctx.state, card, PowerId::FeelNoPainPower, up(ctx.state, card, 3, 4)),
{
    assert(ironclad_play_effects(ctx, CardId::FeelNoPain, card, target) =~= self_power(ctx.state, card, PowerId::FeelNoPainPower, up(ctx.state, card, 3, 4)));
}

/// Playing FlameBarrier gives the player 12 Block (16 upgraded) and 4 Flame Barrier (6 upgraded).
pub proof fn lemma_flame_barrier_play(ctx: &CardPlayCtx, card: CardInstanceId, target: Option<CreatureId>)
    ensures
        ironclad_play_effects(ctx, CardId::FlameBarrier, card, target) == self_block(ctx.state, card, up(ctx.state, card, 12, 16)) + self_power(ctx.state, card, PowerId::FlameBarrierPower, up(ctx.state, card, 4, 6)),
{
    assert(ironclad_play_effects(ctx, CardId::FlameBarrier, card, target) =~= self_block(ctx.state, card, up(ctx.state, card, 12, 16)) + self_power(ctx.state, card, PowerId::FlameBarrierPower, up(ctx.state, card, 4, 6)));
}

/// Playing Hellraiser gives the player 1 Hellraiser.
pub proof fn lemma_hellraiser_play(ctx: &CardPlayCtx, card: CardInstanceId, target: Option<CreatureId>)
    ensures
        ironclad_play_effects(ctx, CardId::Hellraiser, card, target) == self_power(ctx.state, card, PowerId::HellraiserPower, 1),
{
    assert(ironclad_play_effects(ctx, CardId::Hellraiser, card, target) =~= self_power(ctx.state, card, PowerId::HellraiserPower, 1));
}

/// Playing Hemokinesis costs the player 2 HP, then hits its target once for 14 (19 upgraded).
pub proof fn lemma_hemokinesis_play(ctx: &CardPlayCtx, card: CardInstanceId, target: Option<CreatureId>)
    ensures
        ironclad_play_effects(ctx, CardId::Hemokinesis, card, target) == self_hp_loss(ctx.state, card, 2) + hits_on(ctx.state, card, target, up(ctx.state, card, 14, 19), 1),
{
    assert(ironclad_play_effects(ctx, CardId::Hemokinesis, card, target) =~= self_hp_loss(ctx.state, card, 2) + hits_on(ctx.state, card, target, up(ctx.state, card, 14, 19), 1));
}

/// Playing HowlFromBeyond hits every enemy for 16 (21 upgraded).
pub proof fn lemma_howl_from_beyond_play(ctx: &CardPlayCtx, card: CardInstanceId, target: Option<CreatureId>)
    ensures
        ironclad_play_effects(ctx, CardId::HowlFromBeyond, card, target) == seq![all_hits(ctx.state, card, up(ctx.state, card, 16, 21), 1)],
{
    assert(ironclad_play_effects(ctx, CardId::HowlFromBeyond, card, target) =~= seq![all_hits(ctx.state, card, up(ctx.state, card, 16, 21), 1)]);
}

/// Playing Impervious gives the player 30 Block (40 upgraded).
pub proof fn lemma_impervious_play(ctx: &CardPlayCtx, card: CardInstanceId, target: Option<CreatureId>)
    ensures
        ironclad_play_effects(ctx, CardId::Impervious, card, target) == self_block(ctx.state, card, up(ctx.state, card, 30, 40)),
{
    assert(ironclad_play_effects(ctx, CardId::Impervious, card, target) =~= self_block(ctx.state, card, up(ctx.state, card, 30, 40)));
}

/// Playing Inferno gives the player 6 Inferno (9 upgraded).
pub proof fn lemma_inferno_play(ctx: &CardPlayCtx, card: CardInstanceId, target: Option<CreatureId>)
    ensures
        ironclad_play_effects(ctx, CardId::Inferno, card, target) == self_power(ctx.state, card, PowerId::InfernoPower, up(ctx.state, card, 6, 9)),
{
    assert(ironclad_play_effects(ctx, CardId::Inferno, card, target) =~= self_power(ctx.state, card, PowerId::InfernoPower, up(ctx.state, card, 6, 9)));
}

/// Playing IronWave gives the player 5 Block (7 upgraded), then hits its target once for 5 (7 upgraded).
pub proof fn lemma_iron_wave_play(ctx: &CardPlayCtx, card: CardInstanceId, target: Option<CreatureId>)
    ensures
        ironclad_play_effects(ctx, CardId::IronWave, card, target) == self_block(ctx.state, card, up(ctx.state, card, 5, 7)) + hits_on(ctx.state, card, target, up(ctx.state, card, 5, 7), 1),
{
    assert(ironclad_play_effects(ctx, CardId::IronWave, card, target) =~= self_block(ctx.state, card, up(ctx.state, card, 5, 7)) + hits_on(ctx.state, card, target, up(ctx.state, card, 5, 7), 1));
}

/// Playing Juggernaut gives the player 5 Juggernaut (7 upgraded).
pub proof fn lemma_juggernaut_play(ctx: &CardPlayCtx, card: CardInstanceId, target: Option<CreatureId>)
    ensures
        ironclad_play_effects(ctx, CardId::Juggernaut, card, target) == self_power(ctx.state, card, PowerId::JuggernautPower, up(ctx.state, card, 5, 7)),
{
    assert(ironclad_play_effects(ctx, CardId::Juggernaut, card, target) =~= self_power(ctx.state, card, PowerId::JuggernautPower, up(ctx.state, card, 5, 7)));
}

/// Playing Juggling gives the player 1 Juggling.
pub proof fn lemma_juggling_play(ctx: &CardPlayCtx, card: CardInstanceId, target: Option<CreatureId>)
    ensures
        ironclad_play_effects(ctx, CardId::Juggling, card, target) == self_power(ctx.state, card, PowerId::JugglingPower, 1),
{
    assert(ironclad_play_effects(ctx, CardId::Juggling, card, target) =~= self_power(ctx.state, card, PowerId::JugglingPower, 1));
}

/// Playing OneTwoPunch gives the player 1 One-Two Punch (2 upgraded).
pub proof fn lemma_one_two_punch_play(ctx: &CardPlayCtx, card: CardInstanceId, target: Option<CreatureId>)
    ensures
        ironclad_play_effects(ctx, CardId::OneTwoPunch, card, target) == self_power(ctx.state, card, PowerId::OneTwoPunchPower, up(ctx.state, card, 1, 2)),
{
    assert(ironclad_play_effects(ctx, CardId::OneTwoPunch, card, target) =~= self_power(ctx.state, card, PowerId::OneTwoPunchPower, up(ctx.state, card, 1, 2)));
}

/// Playing PactsEnd hits every enemy for 17 (23 upgraded).
pub proof fn lemma_pacts_end_play(ctx: &CardPlayCtx, card: CardInstanceId, target: Option<CreatureId>)
    ensures
        ironclad_play_effects(ctx, CardId::PactsEnd, card, target) == seq![all_hits(ctx.state, card, up(ctx.state, card, 17, 23), 1)],
{
    assert(ironclad_play_effects(ctx, CardId::PactsEnd, card, target) =~= seq![all_hits(ctx.state, card, up(ctx.state, card, 17, 23), 1)]);
}

/// Playing Pyre gives the player 1 Pyre (2 upgraded).
pub proof fn lemma_pyre_play(ctx: &CardPlayCtx, card: CardInstanceId, target: Option<CreatureId>)
    ensures
        ironclad_play_effects(ctx, CardId::Pyre, card, target) == self_power(ctx.state, card, PowerId::PyrePower, up(ctx.state, card, 1, 2)),
{
    assert(ironclad_play_effects(ctx, CardId::Pyre, card, target) =~= self_power(ctx.state, card, PowerId::PyrePower, up(ctx.state, card, 1, 2)));
}

/// Playing Rage gives the player 3 Rage (5 upgraded).
pub proof fn lemma_rage_play(ctx: &CardPlayCtx, card: CardInstanceId, target: Option<CreatureId>)
    ensures
        ironclad_play_effects(ctx, CardId::Rage, card, target) == self_power(ctx.state, card, PowerId::RagePower, up(ctx.state, card, 3, 5)),
{
    assert(ironclad_play_effects(ctx, CardId::Rage, card, target) =~= self_power(ctx.state, card, PowerId::RagePower, up(ctx.state, card, 3, 5)));
}

/// Playing Rupture gives the player 1 Rupture (2 upgraded).
pub proof fn lemma_rupture_play(ctx: &CardPlayCtx, card: CardInstanceId, target: Option<CreatureId>)
    ensures
        ironclad_play_effects(ctx, CardId::Rupture, card, target) == self_power(ctx.state, card, PowerId::RupturePower, up(ctx.state, card, 1, 2)),
{
    assert(ironclad_play_effects(ctx, CardId::Rupture, card, target) =~= self_power(ctx.state, card, PowerId::RupturePower, up(ctx.state, card, 1, 2)));
}

/// Playing SetupStrike hits its target once for 7 (9 upgraded), then gives the player 2 Strength and 2 Setup Strike.
pub proof fn lemma_setup_strike_play(ctx: &CardPlayCtx, card: CardInstanceId, target: Option<CreatureId>)
    ensures
        ironclad_play_effects(ctx, CardId::SetupStrike, card, target) == hits_on(ctx.state, card, target, up(ctx.state, card, 7, 9), 1) + self_power(ctx.state, card, PowerId::Strength, 2) + self_power(ctx.state, card, PowerId::SetupStrikePower, 2),
{
    assert(ironclad_play_effects(ctx, CardId::SetupStrike, card, target) =~= hits_on(ctx.state, card, target, up(ctx.state, card, 7, 9), 1) + self_power(ctx.state, card, PowerId::Strength, 2) + self_power(ctx.state, card, PowerId::SetupStrikePower, 2));
}

/// Playing Stampede gives the player 1 Stampede.
pub proof fn lemma_stampede_play(ctx: &CardPlayCtx, card: CardInstanceId, target: Option<CreatureId>)
    ensures
        ironclad_play_effects(ctx, CardId::Stampede, card, target) == self_power(ctx.state, card, PowerId::StampedePower, 1),
{
    assert(ironclad_play_effects(ctx, CardId::Stampede, card, target) =~= self_power(ctx.state, card, PowerId::StampedePower, 1));
}

/// Playing Stomp hits every enemy for 12 (15 upgraded).
pub proof fn lemma_stomp_play(ctx: &CardPlayCtx, card: CardInstanceId, target: Option<CreatureId>)
    ensures
        ironclad_play_effects(ctx, CardId::Stomp, card, target) == seq![all_hits(ctx.state, card, up(ctx.state, card, 12, 15), 1)],
{
    assert(ironclad_play_effects(ctx, CardId::Stomp, card, target) =~= seq![all_hits(ctx.state, card, up(ctx.state, card, 12, 15), 1)]);
}

/// Playing StoneArmor gives the player 4 Plating (6 upgraded).
pub proof fn lemma_stone_armor_play(ctx: &CardPlayCtx, card: CardInstanceId, target: Option<CreatureId>)
    ensures
        ironclad_play_effects(ctx, CardId::StoneArmor, card, target) == self_power(ctx.state, card, PowerId::PlatingPower, up(ctx.state, card, 4, 6)),
{
    assert(ironclad_play_effects(ctx, CardId::StoneArmor, card, target) =~= self_power(ctx.state, card, PowerId::PlatingPower, up(ctx.state, card, 4, 6)));
}

/// Playing Tank gives the player 1 Tank.
pub proof fn lemma_tank_play(ctx: &CardPlayCtx, card: CardInstanceId, target: Option<CreatureId>)
    ensures
        ironclad_play_effects(ctx, CardId::Tank, card, target) == self_power(ctx.state, card, PowerId::TankPower, 1),
{
    assert(ironclad_play_effects(ctx, CardId::Tank, card, target) =~= self_power(ctx.state, card, PowerId::TankPower, 1));
}

/// Playing Unmovable gives the player 1 Unmovable.
pub proof fn lemma_unmovable_play(ctx: &CardPlayCtx, card: CardInstanceId, target: Option<CreatureId>)
    ensures
        ironclad_play_effects(ctx, CardId::Unmovable, card, target) == self_power(ctx.state, card, PowerId::UnmovablePower, 1),
{
    assert(ironclad_play_effects(ctx, CardId::Unmovable, card, target) =~= self_power(ctx.state, card, PowerId::UnmovablePower, 1));
}

/// Playing Unrelenting hits its target once for 12 (18 upgraded), then gives the player 1 Free Attack.
pub proof fn lemma_unrelenting_play(ctx: &CardPlayCtx, card: CardInstanceId, target: Option<CreatureId>)
    ensures
        ironclad_play_effects(ctx, CardId::Unrelenting, card, target) == hits_on(ctx.state, card, target, up(ctx.state, card, 12, 18), 1) + self_power(ctx.state, card, PowerId::FreeAttackPower, 1),
{
    assert(ironclad_play_effects(ctx, CardId::Unrelenting, card, target) =~= hits_on(ctx.state, card, target, up(ctx.state, card, 12, 18), 1) + self_power(ctx.state, card, PowerId::FreeAttackPower, 1));
}

/// Playing Vicious gives the player 1 Vicious (2 upgraded).
pub proof fn lemma_vicious_play(ctx: &CardPlayCtx, card: CardInstanceId, target: Option<CreatureId>)
    ensures
        ironclad_play_effects(ctx, CardId::Vicious, card, target) == self_power(ctx.state, card, PowerId::ViciousPower, up(ctx.state, card, 1, 2)),
{
    assert(ironclad_play_effects(ctx, CardId::Vicious, card, target) =~= self_power(ctx.state, card, PowerId::ViciousPower, up(ctx.state, card, 1, 2)));
}

/// Playing Taunt gives the player 7 Block (8 upgraded), then makes its target Vulnerable for 1 turn (2 upgraded); nothing without a target.
pub proof fn lemma_taunt_play(ctx: &CardPlayCtx, card: CardInstanceId, target: Option<CreatureId>)
    ensures
        ironclad_play_effects(ctx, CardId::Taunt, card, target) == match target { Some(t) => self_block(ctx.state, card, up(ctx.state, card, 7, 8)).push(card_applies(card, t, PowerId::Vulnerable, up(ctx.state, card, 1, 2))), None => Seq::<Effect>::empty() },
{
    assert(ironclad_play_effects(ctx, CardId::Taunt, card, target) =~= match target { Some(t) => self_block(ctx.state, card, up(ctx.state, card, 7, 8)).push(card_applies(card, t, PowerId::Vulnerable, up(ctx.state, card, 1, 2))), None => Seq::<Effect>::empty() });
}

/// Playing Tremble makes its target Vulnerable for 3 turns (4 upgraded).
pub proof fn lemma_tremble_play(ctx: &CardPlayCtx, card: CardInstanceId, target: Option<CreatureId>)
    ensures
        ironclad_play_effects(ctx, CardId::Tremble, card, target) == match target { Some(t) => seq![card_applies(card, t, PowerId::Vulnerable, up(ctx.state, card, 3, 4))], None => Seq::<Effect>::empty() },
{
    assert(ironclad_play_effects(ctx, CardId::Tremble, card, target) =~= match target { Some(t) => seq![card_applies(card, t, PowerId::Vulnerable, up(ctx.state, card, 3, 4))], None => Seq::<Effect>::empty() });
}

/// Playing SwordBoomerang hits random enemies 3 times (4 upgraded) for 3 each.
pub proof fn lemma_sword_boomerang_play(ctx: &CardPlayCtx, card: CardInstanceId, target: Option<CreatureId>)
    ensures
        ironclad_play_effects(ctx, CardId::SwordBoomerang, card, target) == seq![random_hits(ctx.state, card, 3, up(ctx.state, card, 3, 4) as u8)],
{
    assert(ironclad_play_effects(ctx, CardId::SwordBoomerang, card, target) =~= seq![random_hits(ctx.state, card, 3, up(ctx.state, card, 3, 4) as u8)]);
}

/// Playing Cinder hits its target once for 18 (24 upgraded), then exhausts the top card of the draw pile.
pub proof fn lemma_cinder_play(ctx: &CardPlayCtx, card: CardInstanceId, target: Option<CreatureId>)
    ensures
        ironclad_play_effects(ctx, CardId::Cinder, card, target) == match ctx.state.combat { Some(c) => hits_on(ctx.state, card, target, up(ctx.state, card, 18, 24), 1).push(Effect::ExhaustTopDraw { player: c.player.id, count: 1 }), None => Seq::<Effect>::empty() },
{
    assert(ironclad_play_effects(ctx, CardId::Cinder, card, target) =~= match ctx.state.combat { Some(c) => hits_on(ctx.state, card, target, up(ctx.state, card, 18, 24), 1).push(Effect::ExhaustTopDraw { player: c.player.id, count: 1 }), None => Seq::<Effect>::empty() });
}

/// Playing PommelStrike hits its target once for 9 (10 upgraded), then draws 1 card (2 upgraded).
pub proof fn lemma_pommel_strike_play(ctx: &CardPlayCtx, card: CardInstanceId, target: Option<CreatureId>)
    ensures
        ironclad_play_effects(ctx, CardId::PommelStrike, card, target) == match ctx.state.combat { Some(c) => hits_on(ctx.state, card, target, up(ctx.state, card, 9, 10), 1).push(Effect::DrawCards { player: c.player.id, count: up(ctx.state, card, 1, 2) as u8 }), None => Seq::<Effect>::empty() },
{
    assert(ironclad_play_effects(ctx, CardId::PommelStrike, card, target) =~= match ctx.state.combat { Some(c) => hits_on(ctx.state, card, target, up(ctx.state, card, 9, 10), 1).push(Effect::DrawCards { player: c.player.id, count: up(ctx.state, card, 1, 2) as u8 }), None => Seq::<Effect>::empty() });
}

/// Playing ShrugItOff gives the player 8 Block (11 upgraded), then draws 1 card.
pub proof fn lemma_shrug_it_off_play(ctx: &CardPlayCtx, card: CardInstanceId, target: Option<CreatureId>)
    ensures
        ironclad_play_effects(ctx, CardId::ShrugItOff, card, target) == match ctx.state.combat { Some(c) => self_block(ctx.state, card, up(ctx.state, card, 8, 11)).push(Effect::DrawCards { player: c.player.id, count: 1 }), None => Seq::<Effect>::empty() },
{
    assert(ironclad_play_effects(ctx, CardId::ShrugItOff, card, target) =~= match ctx.state.combat { Some(c) => self_block(ctx.state, card, up(ctx.state, card, 8, 11)).push(Effect::DrawCards { player: c.player.id, count: 1 }), None => Seq::<Effect>::empty() });
}

/// Playing TrueGrit gives the player 7 Block (9 upgraded), then exhausts a random card of the hand.
pub proof fn lemma_true_grit_play(ctx: &CardPlayCtx, card: CardInstanceId, target: Option<CreatureId>)
    ensures
        ironclad_play_effects(ctx, CardId::TrueGrit, card, target) == match ctx.state.combat { Some(c) => self_block(ctx.state, card, up(ctx.state, card, 7, 9)).push(Effect::ExhaustRandomHand { player: c.player.id, filter: CardFilter::Any }), None => Seq::<Effect>::empty() },
{
    assert(ironclad_play_effects(ctx, CardId::TrueGrit, card, target) =~= match ctx.state.combat { Some(c) => self_block(ctx.state, card, up(ctx.state, card, 7, 9)).push(Effect::ExhaustRandomHand { player: c.player.id, filter: CardFilter::Any }), None => Seq::<Effect>::empty() });
}

/// Playing Thrash hits its target twice for 4 each (6 upgraded), then exhausts a random Attack of the hand.
pub proof fn lemma_thrash_play(ctx: &CardPlayCtx, card: CardInstanceId, target: Option<CreatureId>)
    ensures
        ironclad_play_effects(ctx, CardId::Thrash, card, target) == match ctx.state.combat { Some(c) => hits_on(ctx.state, card, target, up(ctx.state, card, 4, 6), 2).push(Effect::ExhaustRandomHand { player: c.player.id, filter: CardFilter::Attack }), None => Seq::<Effect>::empty() },
{
    assert(ironclad_play_effects(ctx, CardId::Thrash, card, target) =~= match ctx.state.combat { Some(c) => hits_on(ctx.state, card, target, up(ctx.state, card, 4, 6), 2).push(Effect::ExhaustRandomHand { player: c.player.id, filter: CardFilter::Attack }), None => Seq::<Effect>::empty() });
}

/// Playing Pillage hits its target once for 6 (9 upgraded), then draws until a non-Attack.
pub proof fn lemma_pillage_play(ctx: &CardPlayCtx, card: CardInstanceId, target: Option<CreatureId>)
    ensures
        ironclad_play_effects(ctx, CardId::Pillage, card, target) == match ctx.state.combat { Some(c) => hits_on(ctx.state, card, target, up(ctx.state, card, 6, 9), 1).push(Effect::DrawUntilNonAttack { player: c.player.id }), None => Seq::<Effect>::empty() },
{
    assert(ironclad_play_effects(ctx, CardId::Pillage, card, target) =~= match ctx.state.combat { Some(c) => hits_on(ctx.state, card, target, up(ctx.state, card, 6, 9), 1).push(Effect::DrawUntilNonAttack { player: c.player.id }), None => Seq::<Effect>::empty() });
}

/// Playing Havoc plays the top card of the draw pile and exhausts it.
pub proof fn lemma_havoc_play(ctx: &CardPlayCtx, card: CardInstanceId, target: Option<CreatureId>)
    ensures
        ironclad_play_effects(ctx, CardId::Havoc, card, target) == match ctx.state.combat { Some(c) => seq![Effect::PlayTopDrawCards { player: c.player.id, count: 1, exhaust_after_play: true }], None => Seq::<Effect>::empty() },
{
    assert(ironclad_play_effects(ctx, CardId::Havoc, card, target) =~= match ctx.state.combat { Some(c) => seq![Effect::PlayTopDrawCards { player: c.player.id, count: 1, exhaust_after_play: true }], None => Seq::<Effect>::empty() });
}

/// Playing BattleTrance draws 3 cards (4 upgraded), then gives the player 1 No Draw.
pub proof fn lemma_battle_trance_play(ctx: &CardPlayCtx, card: CardInstanceId, target: Option<CreatureId>)
    ensures
        ironclad_play_effects(ctx, CardId::BattleTrance, card, target) == match ctx.state.combat { Some(c) => seq![Effect::DrawCards { player: c.player.id, count: up(ctx.state, card, 3, 4) as u8 }] + self_power(ctx.state, card, PowerId::NoDrawPower, 1), None => Seq::<Effect>::empty() },
{
    assert(ironclad_play_effects(ctx, CardId::BattleTrance, card, target) =~= match ctx.state.combat { Some(c) => seq![Effect::DrawCards { player: c.player.id, count: up(ctx.state, card, 3, 4) as u8 }] + self_power(ctx.state, card, PowerId::NoDrawPower, 1), None => Seq::<Effect>::empty() });
}

/// Playing DrumOfBattle draws 2 cards (3 upgraded), then gives the player 1 Drum of Battle.
pub proof fn lemma_drum_of_battle_play(ctx: &CardPlayCtx, card: CardInstanceId, target: Option<CreatureId>)
    ensures
        ironclad_play_effects(ctx, CardId::DrumOfBattle, card, target) == match ctx.state.combat { Some(c) => seq![Effect::DrawCards { player: c.player.id, count: up(ctx.state, card, 2, 3) as u8 }] + self_power(ctx.state, card, PowerId::DrumOfBattlePower, 1), None => Seq::<Effect>::empty() },
{
    assert(ironclad_play_effects(ctx, CardId::DrumOfBattle, card, target) =~= match ctx.state.combat { Some(c) => seq![Effect::DrawCards { player: c.player.id, count: up(ctx.state, card, 2, 3) as u8 }] + self_power(ctx.state, card, PowerId::DrumOfBattlePower, 1), None => Seq::<Effect>::empty() });
}

/// The number of cards in the player's exhaust pile, as an `i32`.
pub open spec fn exhaust_size(state: &GameState) -> int {
    match state.combat {
        Some(c) => c.player.piles.exhaust@.len() as i32 as int,
        None => 0,
    }
}

/// The Attacks played this turn before the current one, as an `i32`.
pub open spec fn earlier_attacks(state: &GameState) -> int {
    match state.combat {
        Some(c) => (if c.turn_stats.attacks_played >= 1 { c.turn_stats.attacks_played - 1 } else { 0 }) as i32 as int,
        None => 0,
    }
}

/// The Block of the player's creature; 0 without one.
pub open spec fn block_now(state: &GameState) -> int {
    match state.combat {
        Some(c) => if (c.player.creature.0 as int) < c.creatures@.len() {
            c.creatures@[c.player.creature.0 as int].block as int
        } else {
            0
        },
        None => 0,
    }
}

/// The cards of the combat whose registered definition is tagged Strike, as an `i32`.
pub open spec fn strike_cards(state: &GameState, registry: &StaticRegistry) -> int {
    match state.combat {
        Some(c) => c.cards@.filter(
            |cs: CardState| registry.cards@.contains_key(cs.def) && registry.cards@[cs.def].tags@.contains(CardTag::Strike),
        ).len() as i32 as int,
        None => 0,
    }
}

/// The player lost HP this turn.
pub open spec fn lost_hp_now(state: &GameState) -> bool {
    state.combat matches Some(c) && c.turn_stats.hp_lost_by_player > 0
}

/// A card was exhausted this turn.
pub open spec fn exhausted_now(state: &GameState) -> bool {
    state.combat matches Some(c) && c.turn_stats.cards_exhausted > 0
}

/// The times the player lost HP this combat, as a `u8`.
pub open spec fn hp_loss_times(state: &GameState) -> u8 {
    match state.combat {
        Some(c) => c.combat_stats.hp_loss_events_by_player as u8,
        None => 0,
    }
}

/// Playing AshenStrike hits its target once for 6 plus 3 (4 upgraded) for each card of the exhaust pile.
pub proof fn lemma_ashen_strike_play(ctx: &CardPlayCtx, card: CardInstanceId, target: Option<CreatureId>)
    ensures
        ironclad_play_effects(ctx, CardId::AshenStrike, card, target) == hits_on(ctx.state, card, target, 6 + up(ctx.state, card, 3, 4) * exhaust_size(ctx.state), 1),
{
    assert(ironclad_play_effects(ctx, CardId::AshenStrike, card, target) =~= hits_on(ctx.state, card, target, 6 + up(ctx.state, card, 3, 4) * exhaust_size(ctx.state), 1));
}

/// Playing Bully hits its target once for 4 plus 2 (3 upgraded) for each Vulnerable it has.
pub proof fn lemma_bully_play(ctx: &CardPlayCtx, card: CardInstanceId, target: Option<CreatureId>)
    ensures
        ironclad_play_effects(ctx, CardId::Bully, card, target) == match target { Some(t) => hits_on(ctx.state, card, target, 4 + up(ctx.state, card, 2, 3) * ctx.state.spec_power_amount(t, PowerId::Vulnerable), 1), None => Seq::<Effect>::empty() },
{
    assert(ironclad_play_effects(ctx, CardId::Bully, card, target) =~= match target { Some(t) => hits_on(ctx.state, card, target, 4 + up(ctx.state, card, 2, 3) * ctx.state.spec_power_amount(t, PowerId::Vulnerable), 1), None => Seq::<Effect>::empty() });
}

/// Playing Conflagration hits every enemy for 8 plus 2 (3 upgraded) for each other Attack played this turn.
pub proof fn lemma_conflagration_play(ctx: &CardPlayCtx, card: CardInstanceId, target: Option<CreatureId>)
    ensures
        ironclad_play_effects(ctx, CardId::Conflagration, card, target) == seq![all_hits(ctx.state, card, 8 + earlier_attacks(ctx.state) * up(ctx.state, card, 2, 3), 1)],
{
    assert(ironclad_play_effects(ctx, CardId::Conflagration, card, target) =~= seq![all_hits(ctx.state, card, 8 + earlier_attacks(ctx.state) * up(ctx.state, card, 2, 3), 1)]);
}

/// Playing Dominate makes its target Vulnerable for 1 turn (2 upgraded), then gives the player Strength equal to the target's Vulnerable plus that.
pub proof fn lemma_dominate_play(ctx: &CardPlayCtx, card: CardInstanceId, target: Option<CreatureId>)
    ensures
        ironclad_play_effects(ctx, CardId::Dominate, card, target) == match target { Some(t) => seq![card_applies(card, t, PowerId::Vulnerable, up(ctx.state, card, 1, 2))] + self_power(ctx.state, card, PowerId::Strength, ctx.state.spec_power_amount(t, PowerId::Vulnerable) + up(ctx.state, card, 1, 2)), None => Seq::<Effect>::empty() },
{
    assert(ironclad_play_effects(ctx, CardId::Dominate, card, target) =~= match target { Some(t) => seq![card_applies(card, t, PowerId::Vulnerable, up(ctx.state, card, 1, 2))] + self_power(ctx.state, card, PowerId::Strength, ctx.state.spec_power_amount(t, PowerId::Vulnerable) + up(ctx.state, card, 1, 2)), None => Seq::<Effect>::empty() });
}

/// Playing BodySlam hits its target once for the player's Block.
pub proof fn lemma_body_slam_play(ctx: &CardPlayCtx, card: CardInstanceId, target: Option<CreatureId>)
    ensures
        ironclad_play_effects(ctx, CardId::BodySlam, card, target) == hits_on(ctx.state, card, target, block_now(ctx.state), 1),
{
    assert(ironclad_play_effects(ctx, CardId::BodySlam, card, target) =~= hits_on(ctx.state, card, target, block_now(ctx.state), 1));
}

/// Playing PerfectedStrike hits its target once for 6 plus 2 (3 upgraded) for each card of the combat tagged Strike.
pub proof fn lemma_perfected_strike_play(ctx: &CardPlayCtx, card: CardInstanceId, target: Option<CreatureId>)
    ensures
        ironclad_play_effects(ctx, CardId::PerfectedStrike, card, target) == hits_on(ctx.state, card, target, 6 + strike_cards(ctx.state, ctx.registry) * up(ctx.state, card, 2, 3), 1),
{
    if let Some(c) = ctx.state.combat {
        let f1 = |cs: CardState| crate::content::cards::helpers::spec_has_tag(ctx.registry, cs, CardTag::Strike);
        let f2 = |cs: CardState| ctx.registry.cards@.contains_key(cs.def) && ctx.registry.cards@[cs.def].tags@.contains(CardTag::Strike);
        assert(f1 =~= f2);
        assert(c.cards@.filter(f1) == c.cards@.filter(f2));
    }
    assert(ironclad_play_effects(ctx, CardId::PerfectedStrike, card, target) =~= hits_on(ctx.state, card, target, 6 + strike_cards(ctx.state, ctx.registry) * up(ctx.state, card, 2, 3), 1));
}

/// Playing Spite hits its target for 5, once, or 2 times (3 upgraded) when the player lost HP this turn.
pub proof fn lemma_spite_play(ctx: &CardPlayCtx, card: CardInstanceId, target: Option<CreatureId>)
    ensures
        ironclad_play_effects(ctx, CardId::Spite, card, target) == hits_on(ctx.state, card, target, 5, (if lost_hp_now(ctx.state) { up(ctx.state, card, 2, 3) as u8 } else { 1u8 }) as nat),
{
    assert(ironclad_play_effects(ctx, CardId::Spite, card, target) =~= hits_on(ctx.state, card, target, 5, (if lost_hp_now(ctx.state) { up(ctx.state, card, 2, 3) as u8 } else { 1u8 }) as nat));
}

/// Playing TearAsunder hits its target for 5 (7 upgraded), once plus once for each time the player lost HP this combat.
pub proof fn lemma_tear_asunder_play(ctx: &CardPlayCtx, card: CardInstanceId, target: Option<CreatureId>)
    ensures
        ironclad_play_effects(ctx, CardId::TearAsunder, card, target) == hits_on(ctx.state, card, target, up(ctx.state, card, 5, 7), (1 + hp_loss_times(ctx.state)) as nat),
{
    assert(ironclad_play_effects(ctx, CardId::TearAsunder, card, target) =~= hits_on(ctx.state, card, target, up(ctx.state, card, 5, 7), (1 + hp_loss_times(ctx.state)) as nat));
}

/// Playing Thunderclap hits every enemy for 4 (7 upgraded), then makes each living monster Vulnerable for 1 turn.
pub proof fn lemma_thunderclap_play(ctx: &CardPlayCtx, card: CardInstanceId, target: Option<CreatureId>)
    ensures
        ironclad_play_effects(ctx, CardId::Thunderclap, card, target) == seq![all_hits(ctx.state, card, up(ctx.state, card, 4, 7), 1)] + ctx.state.spec_alive_monster_ids().map_values(|e: CreatureId| card_applies(card, e, PowerId::Vulnerable, 1)),
{
    assert(ironclad_play_effects(ctx, CardId::Thunderclap, card, target) =~= seq![all_hits(ctx.state, card, up(ctx.state, card, 4, 7), 1)] + ctx.state.spec_alive_monster_ids().map_values(|e: CreatureId| card_applies(card, e, PowerId::Vulnerable, 1)));
}

/// Playing Whirlwind hits every enemy for 5 (8 upgraded), once for each energy paid.
pub proof fn lemma_whirlwind_play(ctx: &CardPlayCtx, card: CardInstanceId, target: Option<CreatureId>)
    ensures
        ironclad_play_effects(ctx, CardId::Whirlwind, card, target) == seq![all_hits(ctx.state, card, up(ctx.state, card, 5, 8), (if ctx.paid_energy > 0 { ctx.paid_energy } else { 0 }) as u8)],
{
    assert(ironclad_play_effects(ctx, CardId::Whirlwind, card, target) =~= seq![all_hits(ctx.state, card, up(ctx.state, card, 5, 8), (if ctx.paid_energy > 0 { ctx.paid_energy } else { 0 }) as u8)]);
}

/// Playing EvilEye gives the player 8 Block (11 upgraded), twice when a card was exhausted this turn.
pub proof fn lemma_evil_eye_play(ctx: &CardPlayCtx, card: CardInstanceId, target: Option<CreatureId>)
    ensures
        ironclad_play_effects(ctx, CardId::EvilEye, card, target) == if exhausted_now(ctx.state) { self_block(ctx.state, card, up(ctx.state, card, 8, 11)) + self_block(ctx.state, card, up(ctx.state, card, 8, 11)) } else { self_block(ctx.state, card, up(ctx.state, card, 8, 11)) },
{
    assert(ironclad_play_effects(ctx, CardId::EvilEye, card, target) =~= if exhausted_now(ctx.state) { self_block(ctx.state, card, up(ctx.state, card, 8, 11)) + self_block(ctx.state, card, up(ctx.state, card, 8, 11)) } else { self_block(ctx.state, card, up(ctx.state, card, 8, 11)) });
}

/// Playing Anger hits its target once for 6 (8 upgraded), then, in a combat, adds a copy of itself, upgraded as it is, to the discard pile.
pub proof fn lemma_anger_play(ctx: &CardPlayCtx, card: CardInstanceId, target: Option<CreatureId>)
    ensures
        ironclad_play_effects(ctx, CardId::Anger, card, target) == hits_on(ctx.state, card, target, up(ctx.state, card, 6, 8), 1) + match ctx.state.combat { Some(c) => seq![Effect::AddGeneratedCard { player: c.player.id, def: CardId::Anger, to: PileId { owner: c.player.id, kind: PileKind::Discard }, upgraded: is_upgraded_card(ctx.state, card), temporary: false, zero_cost_this_turn: false }], None => Seq::<Effect>::empty() },
{
    assert(ironclad_play_effects(ctx, CardId::Anger, card, target) =~= hits_on(ctx.state, card, target, up(ctx.state, card, 6, 8), 1) + match ctx.state.combat { Some(c) => seq![Effect::AddGeneratedCard { player: c.player.id, def: CardId::Anger, to: PileId { owner: c.player.id, kind: PileKind::Discard }, upgraded: is_upgraded_card(ctx.state, card), temporary: false, zero_cost_this_turn: false }], None => Seq::<Effect>::empty() });
}

/// Playing Armaments gives the player 5 Block, then upgrades one card of the hand (all of them upgraded).
pub proof fn lemma_armaments_play(ctx: &CardPlayCtx, card: CardInstanceId, target: Option<CreatureId>)
    ensures
        ironclad_play_effects(ctx, CardId::Armaments, card, target) == match ctx.state.combat { Some(c) => self_block(ctx.state, card, 5).push(Effect::UpgradeHand { player: c.player.id, mode: if is_upgraded_card(ctx.state, card) { UpgradeMode::All } else { UpgradeMode::First } }), None => Seq::<Effect>::empty() },
{
    assert(ironclad_play_effects(ctx, CardId::Armaments, card, target) =~= match ctx.state.combat { Some(c) => self_block(ctx.state, card, 5).push(Effect::UpgradeHand { player: c.player.id, mode: if is_upgraded_card(ctx.state, card) { UpgradeMode::All } else { UpgradeMode::First } }), None => Seq::<Effect>::empty() });
}

/// Playing Brand costs the player 1 HP, exhausts a random card of the hand, then gives the player 1 Strength (2 upgraded).
pub proof fn lemma_brand_play(ctx: &CardPlayCtx, card: CardInstanceId, target: Option<CreatureId>)
    ensures
        ironclad_play_effects(ctx, CardId::Brand, card, target) == match ctx.state.combat { Some(c) => self_hp_loss(ctx.state, card, 1).push(Effect::ExhaustRandomHand { player: c.player.id, filter: CardFilter::Any }) + self_power(ctx.state, card, PowerId::Strength, up(ctx.state, card, 1, 2)), None => Seq::<Effect>::empty() },
{
    assert(ironclad_play_effects(ctx, CardId::Brand, card, target) =~= match ctx.state.combat { Some(c) => self_hp_loss(ctx.state, card, 1).push(Effect::ExhaustRandomHand { player: c.player.id, filter: CardFilter::Any }) + self_power(ctx.state, card, PowerId::Strength, up(ctx.state, card, 1, 2)), None => Seq::<Effect>::empty() });
}

/// Playing Break hits its target once for 20 (30 upgraded), then makes it Vulnerable for 5 turns (7 upgraded).
pub proof fn lemma_break_play(ctx: &CardPlayCtx, card: CardInstanceId, target: Option<CreatureId>)
    ensures
        ironclad_play_effects(ctx, CardId::Break, card, target) == match target { Some(t) => seq![card_hit(ctx.state, card, t, up(ctx.state, card, 20, 30)), card_applies(card, t, PowerId::Vulnerable, up(ctx.state, card, 5, 7))], None => Seq::<Effect>::empty() },
{
    assert(ironclad_play_effects(ctx, CardId::Break, card, target) =~= match target { Some(t) => seq![card_hit(ctx.state, card, t, up(ctx.state, card, 20, 30)), card_applies(card, t, PowerId::Vulnerable, up(ctx.state, card, 5, 7))], None => Seq::<Effect>::empty() });
}

/// Playing BurningPact exhausts a random card of the hand, then draws 2 cards (3 upgraded).
pub proof fn lemma_burning_pact_play(ctx: &CardPlayCtx, card: CardInstanceId, target: Option<CreatureId>)
    ensures
        ironclad_play_effects(ctx, CardId::BurningPact, card, target) == match ctx.state.combat { Some(c) => seq![Effect::ExhaustRandomHand { player: c.player.id, filter: CardFilter::Any }, Effect::DrawCards { player: c.player.id, count: up(ctx.state, card, 2, 3) as u8 }], None => Seq::<Effect>::empty() },
{
    assert(ironclad_play_effects(ctx, CardId::BurningPact, card, target) =~= match ctx.state.combat { Some(c) => seq![Effect::ExhaustRandomHand { player: c.player.id, filter: CardFilter::Any }, Effect::DrawCards { player: c.player.id, count: up(ctx.state, card, 2, 3) as u8 }], None => Seq::<Effect>::empty() });
}

/// Playing Cascade plays as many top cards of the draw pile as energy was paid (one more upgraded), none below zero.
pub proof fn lemma_cascade_play(ctx: &CardPlayCtx, card: CardInstanceId, target: Option<CreatureId>)
    ensures
        ironclad_play_effects(ctx, CardId::Cascade, card, target) == match ctx.state.combat { Some(c) => seq![Effect::PlayTopDrawCards { player: c.player.id, count: (if ctx.paid_energy + up(ctx.state, card, 0, 1) > 0 { ctx.paid_energy + up(ctx.state, card, 0, 1) } else { 0 }) as u8, exhaust_after_play: false }], None => Seq::<Effect>::empty() },
{
    assert(ironclad_play_effects(ctx, CardId::Cascade, card, target) =~= match ctx.state.combat { Some(c) => seq![Effect::PlayTopDrawCards { player: c.player.id, count: (if ctx.paid_energy + up(ctx.state, card, 0, 1) > 0 { ctx.paid_energy + up(ctx.state, card, 0, 1) } else { 0 }) as u8, exhaust_after_play: false }], None => Seq::<Effect>::empty() });
}

/// Playing Dismantle hits its target for 8 (10 upgraded), twice when it is Vulnerable.
pub proof fn lemma_dismantle_play(ctx: &CardPlayCtx, card: CardInstanceId, target: Option<CreatureId>)
    ensures
        ironclad_play_effects(ctx, CardId::Dismantle, card, target) == match target { Some(t) => hits_on(ctx.state, card, target, up(ctx.state, card, 8, 10), if ctx.state.spec_power_amount(t, PowerId::Vulnerable) > 0 { 2 } else { 1 }), None => Seq::<Effect>::empty() },
{
    assert(ironclad_play_effects(ctx, CardId::Dismantle, card, target) =~= match target { Some(t) => hits_on(ctx.state, card, target, up(ctx.state, card, 8, 10), if ctx.state.spec_power_amount(t, PowerId::Vulnerable) > 0 { 2 } else { 1 }), None => Seq::<Effect>::empty() });
}

/// Playing FightMe hits its target twice for 5 (6 upgraded), gives the player 2 Strength (3 upgraded), then gives the target 1 Strength.
pub proof fn lemma_fight_me_play(ctx: &CardPlayCtx, card: CardInstanceId, target: Option<CreatureId>)
    ensures
        ironclad_play_effects(ctx, CardId::FightMe, card, target) == match target { Some(t) => (hits_on(ctx.state, card, target, up(ctx.state, card, 5, 6), 2) + self_power(ctx.state, card, PowerId::Strength, up(ctx.state, card, 2, 3))).push(card_applies(card, t, PowerId::Strength, 1)), None => Seq::<Effect>::empty() },
{
    assert(ironclad_play_effects(ctx, CardId::FightMe, card, target) =~= match target { Some(t) => (hits_on(ctx.state, card, target, up(ctx.state, card, 5, 6), 2) + self_power(ctx.state, card, PowerId::Strength, up(ctx.state, card, 2, 3))).push(card_applies(card, t, PowerId::Strength, 1)), None => Seq::<Effect>::empty() });
}

/// Playing ForgottenRitual gives the player 3 energy (4 upgraded) when a card was exhausted this turn, and nothing otherwise.
pub proof fn lemma_forgotten_ritual_play(ctx: &CardPlayCtx, card: CardInstanceId, target: Option<CreatureId>)
    ensures
        ironclad_play_effects(ctx, CardId::ForgottenRitual, card, target) == match ctx.state.combat { Some(c) => if exhausted_now(ctx.state) { seq![Effect::GainResource { player: c.player.id, resource: ResourceKind::Energy, amount: up(ctx.state, card, 3, 4) as i32 }] } else { Seq::<Effect>::empty() }, None => Seq::<Effect>::empty() },
{
    assert(ironclad_play_effects(ctx, CardId::ForgottenRitual, card, target) =~= match ctx.state.combat { Some(c) => if exhausted_now(ctx.state) { seq![Effect::GainResource { player: c.player.id, resource: ResourceKind::Energy, amount: up(ctx.state, card, 3, 4) as i32 }] } else { Seq::<Effect>::empty() }, None => Seq::<Effect>::empty() });
}

/// Playing InfernalBlade adds a random Attack to the hand, free this turn.
pub proof fn lemma_infernal_blade_play(ctx: &CardPlayCtx, card: CardInstanceId, target: Option<CreatureId>)
    ensures
        ironclad_play_effects(ctx, CardId::InfernalBlade, card, target) == match ctx.state.combat { Some(c) => seq![Effect::GenerateRandomCardToHand { player: c.player.id, card_type: Some(CardType::Attack), target: None, zero_cost_this_turn: true }], None => Seq::<Effect>::empty() },
{
    assert(ironclad_play_effects(ctx, CardId::InfernalBlade, card, target) =~= match ctx.state.combat { Some(c) => seq![Effect::GenerateRandomCardToHand { player: c.player.id, card_type: Some(CardType::Attack), target: None, zero_cost_this_turn: true }], None => Seq::<Effect>::empty() });
}

/// Playing Mangle hits its target once for 15 (20 upgraded), then takes 10 Strength (15 upgraded) from it for this turn.
pub proof fn lemma_mangle_play(ctx: &CardPlayCtx, card: CardInstanceId, target: Option<CreatureId>)
    ensures
        ironclad_play_effects(ctx, CardId::Mangle, card, target) == match target { Some(t) => seq![card_hit(ctx.state, card, t, up(ctx.state, card, 15, 20)), card_applies(card, t, PowerId::Strength, -up(ctx.state, card, 10, 15)), card_applies(card, t, PowerId::ManglePower, up(ctx.state, card, 10, 15))], None => Seq::<Effect>::empty() },
{
    assert(ironclad_play_effects(ctx, CardId::Mangle, card, target) =~= match target { Some(t) => seq![card_hit(ctx.state, card, t, up(ctx.state, card, 15, 20)), card_applies(card, t, PowerId::Strength, -up(ctx.state, card, 10, 15)), card_applies(card, t, PowerId::ManglePower, up(ctx.state, card, 10, 15))], None => Seq::<Effect>::empty() });
}

/// Playing MoltenFist hits its target once for 10 (14 upgraded), then doubles its Vulnerable.
pub proof fn lemma_molten_fist_play(ctx: &CardPlayCtx, card: CardInstanceId, target: Option<CreatureId>)
    ensures
        ironclad_play_effects(ctx, CardId::MoltenFist, card, target) == match target { Some(t) => seq![card_hit(ctx.state, card, t, up(ctx.state, card, 10, 14))] + if ctx.state.spec_power_amount(t, PowerId::Vulnerable) > 0 { seq![card_applies(card, t, PowerId::Vulnerable, ctx.state.spec_power_amount(t, PowerId::Vulnerable))] } else { Seq::<Effect>::empty() }, None => Seq::<Effect>::empty() },
{
    assert(ironclad_play_effects(ctx, CardId::MoltenFist, card, target) =~= match target { Some(t) => seq![card_hit(ctx.state, card, t, up(ctx.state, card, 10, 14))] + if ctx.state.spec_power_amount(t, PowerId::Vulnerable) > 0 { seq![card_applies(card, t, PowerId::Vulnerable, ctx.state.spec_power_amount(t, PowerId::Vulnerable))] } else { Seq::<Effect>::empty() }, None => Seq::<Effect>::empty() });
}

/// Playing NotYet heals the player 10 HP (13 upgraded).
pub proof fn lemma_not_yet_play(ctx: &CardPlayCtx, card: CardInstanceId, target: Option<CreatureId>)
    ensures
        ironclad_play_effects(ctx, CardId::NotYet, card, target) == match ctx.state.combat { Some(c) => seq![Effect::Heal { target: c.player.creature, amount: Amount { mantissa: up(ctx.state, card, 10, 13) as i128, scale: 0 }, source: Some(Source::Card(card)) }], None => Seq::<Effect>::empty() },
{
    assert(ironclad_play_effects(ctx, CardId::NotYet, card, target) =~= match ctx.state.combat { Some(c) => seq![Effect::Heal { target: c.player.creature, amount: Amount { mantissa: up(ctx.state, card, 10, 13) as i128, scale: 0 }, source: Some(Source::Card(card)) }], None => Seq::<Effect>::empty() });
}

/// Playing Offering costs the player 6 HP, gives 2 energy, then draws 3 cards (5 upgraded).
pub proof fn lemma_offering_play(ctx: &CardPlayCtx, card: CardInstanceId, target: Option<CreatureId>)
    ensures
        ironclad_play_effects(ctx, CardId::Offering, card, target) == match ctx.state.combat { Some(c) => self_hp_loss(ctx.state, card, 6).push(Effect::GainResource { player: c.player.id, resource: ResourceKind::Energy, amount: 2 }).push(Effect::DrawCards { player: c.player.id, count: up(ctx.state, card, 3, 5) as u8 }), None => Seq::<Effect>::empty() },
{
    assert(ironclad_play_effects(ctx, CardId::Offering, card, target) =~= match ctx.state.combat { Some(c) => self_hp_loss(ctx.state, card, 6).push(Effect::GainResource { player: c.player.id, resource: ResourceKind::Energy, amount: 2 }).push(Effect::DrawCards { player: c.player.id, count: up(ctx.state, card, 3, 5) as u8 }), None => Seq::<Effect>::empty() });
}

/// Playing Stoke exhausts the hand, then draws as many cards as it held.
pub proof fn lemma_stoke_play(ctx: &CardPlayCtx, card: CardInstanceId, target: Option<CreatureId>)
    ensures
        ironclad_play_effects(ctx, CardId::Stoke, card, target) == match ctx.state.combat { Some(c) => seq![Effect::ExhaustHand { player: c.player.id, filter: CardFilter::Any }, Effect::DrawCards { player: c.player.id, count: c.player.piles.hand@.len() as u8 }], None => Seq::<Effect>::empty() },
{
    assert(ironclad_play_effects(ctx, CardId::Stoke, card, target) =~= match ctx.state.combat { Some(c) => seq![Effect::ExhaustHand { player: c.player.id, filter: CardFilter::Any }, Effect::DrawCards { player: c.player.id, count: c.player.piles.hand@.len() as u8 }], None => Seq::<Effect>::empty() });
}

/// Playing FiendFire exhausts the hand, then hits its target for 7 (10 upgraded) once for each card the hand held.
pub proof fn lemma_fiend_fire_play(ctx: &CardPlayCtx, card: CardInstanceId, target: Option<CreatureId>)
    ensures
        ironclad_play_effects(ctx, CardId::FiendFire, card, target) == match (ctx.state.combat, target) { (Some(c), Some(t)) => seq![Effect::ExhaustHand { player: c.player.id, filter: CardFilter::Any }] + hits_on(ctx.state, card, target, up(ctx.state, card, 7, 10), (c.player.piles.hand@.len() as u8) as nat), _ => Seq::<Effect>::empty() },
{
    assert(ironclad_play_effects(ctx, CardId::FiendFire, card, target) =~= match (ctx.state.combat, target) { (Some(c), Some(t)) => seq![Effect::ExhaustHand { player: c.player.id, filter: CardFilter::Any }] + hits_on(ctx.state, card, target, up(ctx.state, card, 7, 10), (c.player.piles.hand@.len() as u8) as nat), _ => Seq::<Effect>::empty() });
}

/// Bash hits its target once for 8 (10 upgraded), then makes it Vulnerable
/// for 2 turns (3 upgraded); without a target it does nothing.
pub proof fn lemma_bash_play(ctx: &CardPlayCtx, card: CardInstanceId, target: Option<CreatureId>)
    ensures
        card_play_effects(ctx, CardPlay::Body(CardId::Bash), card, target) == ironclad_play_effects(ctx, CardId::Bash, card, target),
        ironclad_play_effects(ctx, CardId::Bash, card, target) == match target {
            Some(t) => {
                let up = is_upgraded_card(ctx.state, card);
                seq![
                    card_hit(ctx.state, card, t, if up { 10 } else { 8 }),
                    card_applies(card, t, PowerId::Vulnerable, if up { 3 } else { 2 }),
                ]
            },
            None => Seq::<Effect>::empty(),
        },
{
    if let Some(t) = target {
        assert(ironclad_play_effects(ctx, CardId::Bash, card, target) =~= seq![
            card_hit(ctx.state, card, t, if is_upgraded_card(ctx.state, card) { 10 } else { 8 }),
            card_applies(card, t, PowerId::Vulnerable, if is_upgraded_card(ctx.state, card) { 3 } else { 2 }),
        ]);
    }
}

/// Strike hits its target once for 6 (9 upgraded).
pub proof fn lemma_strike_play(ctx: &CardPlayCtx, card: CardInstanceId, target: Option<CreatureId>)
    ensures
        ironclad_play_effects(ctx, CardId::StrikeIronclad, card, target) == match target {
            Some(t) => seq![card_hit(ctx.state, card, t, if is_upgraded_card(ctx.state, card) { 9 } else { 6 })],
            None => Seq::<Effect>::empty(),
        },
{
    if let Some(t) = target {
        assert(ironclad_play_effects(ctx, CardId::StrikeIronclad, card, target) =~= seq![
            card_hit(ctx.state, card, t, if is_upgraded_card(ctx.state, card) { 9 } else { 6 }),
        ]);
    }
}

/// Twin Strike hits its target twice for 5 each (7 upgraded).
pub proof fn lemma_twin_strike_play(ctx: &CardPlayCtx, card: CardInstanceId, target: Option<CreatureId>)
    ensures
        ironclad_play_effects(ctx, CardId::TwinStrike, card, target) == match target {
            Some(t) => {
                let hit = card_hit(ctx.state, card, t, if is_upgraded_card(ctx.state, card) { 7 } else { 5 });
                seq![hit, hit]
            },
            None => Seq::<Effect>::empty(),
        },
{
    if let Some(t) = target {
        let hit = card_hit(ctx.state, card, t, if is_upgraded_card(ctx.state, card) { 7 } else { 5 });
        assert(ironclad_play_effects(ctx, CardId::TwinStrike, card, target) =~= seq![hit, hit]);
    }
}

/// Defend gives the player's creature 5 Block (8 upgraded).
pub proof fn lemma_defend_play(ctx: &CardPlayCtx, card: CardInstanceId, target: Option<CreatureId>)
    ensures
        ironclad_play_effects(ctx, CardId::DefendIronclad, card, target) == match ctx.state.combat {
            Some(c) => seq![
                Effect::GainBlock {
                    target: c.player.creature,
                    amount: Amount { mantissa: if is_upgraded_card(ctx.state, card) { 8 } else { 5 }, scale: 0 },
                    source: Some(Source::Card(card)),
                },
            ],
            None => Seq::<Effect>::empty(),
        },
{
}

/// Inflame gives the player's creature 2 Strength (3 upgraded).
pub proof fn lemma_inflame_play(ctx: &CardPlayCtx, card: CardInstanceId, target: Option<CreatureId>)
    ensures
        ironclad_play_effects(ctx, CardId::Inflame, card, target) == match ctx.state.combat {
            Some(c) => seq![card_applies(card, c.player.creature, PowerId::Strength, if is_upgraded_card(ctx.state, card) { 3 } else { 2 })],
            None => Seq::<Effect>::empty(),
        },
{
}

/// Uppercut hits its target once for 13, then makes it Weak and then
/// Vulnerable, each for 1 turn (2 upgraded).
pub proof fn lemma_uppercut_play(ctx: &CardPlayCtx, card: CardInstanceId, target: Option<CreatureId>)
    ensures
        ironclad_play_effects(ctx, CardId::Uppercut, card, target) == match target {
            Some(t) => {
                let n = if is_upgraded_card(ctx.state, card) { 2int } else { 1int };
                seq![card_hit(ctx.state, card, t, 13), card_applies(card, t, PowerId::Weak, n), card_applies(card, t, PowerId::Vulnerable, n)]
            },
            None => Seq::<Effect>::empty(),
        },
{
    if let Some(t) = target {
        let n = if is_upgraded_card(ctx.state, card) { 2int } else { 1int };
        assert(ironclad_play_effects(ctx, CardId::Uppercut, card, target) =~= seq![
            card_hit(ctx.state, card, t, 13),
            card_applies(card, t, PowerId::Weak, n),
            card_applies(card, t, PowerId::Vulnerable, n),
        ]);
    }
}

/// The damage scaled by `factor`, as `Decimal` multiplication gives it.
pub open spec fn times(calc: DamageCalc, factor: Amount) -> Option<DamageCalc> {
    match calc.amount.spec_times(factor) {
        Some(a) => Some(DamageCalc { amount: a, ..calc }),
        None => None,
    }
}

/// Weak cuts the attacks its owner deals to 75%, and leaves every other
/// damage as it is, the attacks its owner takes among them.
pub proof fn lemma_weak_rule(ctx: &RuleCtx, power: PowerInstanceId, calc: DamageCalc)
    requires
        ctx.state.spec_power(power) is Some,
    ensures
        calc.kind == DamageKind::Attack && calc.dealer == Some(ctx.state.spec_power(power)->0.owner)
            ==> damage_modifier_result(ctx, DamageModifier::Weak, power, calc) == times(calc, Amount { mantissa: 75, scale: 2 }),
        calc.kind != DamageKind::Attack || calc.dealer != Some(ctx.state.spec_power(power)->0.owner)
            ==> damage_modifier_result(ctx, DamageModifier::Weak, power, calc) == Some(calc),
{
}

/// Vulnerable makes the attacks its owner takes 50% larger, and leaves every
/// other damage as it is, the attacks its owner deals among them.
pub proof fn lemma_vulnerable_rule(ctx: &RuleCtx, power: PowerInstanceId, calc: DamageCalc)
    requires
        ctx.state.spec_power(power) is Some,
    ensures
        calc.kind == DamageKind::Attack && calc.target == ctx.state.spec_power(power)->0.owner
            ==> damage_modifier_result(ctx, DamageModifier::Vulnerable, power, calc) == times(calc, Amount { mantissa: 15, scale: 1 }),
        calc.kind != DamageKind::Attack || calc.target != ctx.state.spec_power(power)->0.owner
            ==> damage_modifier_result(ctx, DamageModifier::Vulnerable, power, calc) == Some(calc),
{
}

/// Strength adds its amount to the attacks its owner deals, never taking
/// them below zero, and leaves every other damage as it is.
pub proof fn lemma_strength_rule(ctx: &RuleCtx, power: PowerInstanceId, calc: DamageCalc)
    requires
        ctx.state.spec_power(power) is Some,
    ensures
        calc.kind != DamageKind::Attack || calc.dealer != Some(ctx.state.spec_power(power)->0.owner)
            ==> damage_modifier_result(ctx, DamageModifier::Strength, power, calc) == Some(
                DamageCalc { amount: if calc.amount.value_lt(Amount::whole(0)) { Amount::whole(0) } else { calc.amount }, ..calc },
            ),
        calc.kind == DamageKind::Attack && calc.dealer == Some(ctx.state.spec_power(power)->0.owner)
            ==> damage_modifier_result(ctx, DamageModifier::Strength, power, calc) == match calc.amount.spec_plus(
                Amount { mantissa: ctx.state.spec_power(power)->0.amount as i128, scale: 0 },
            ) {
                Some(a) => Some(DamageCalc { amount: if a.value_lt(Amount::whole(0)) { Amount::whole(0) } else { a }, ..calc }),
                None => None,
            },
{
}

/// The creature's side, where it is in the combat.
pub open spec fn side_of(state: &GameState, creature: CreatureId) -> Option<Side> {
    match state.combat {
        Some(c) => if (creature.0 as int) < c.creatures@.len() {
            Some(c.creatures@[creature.0 as int].side)
        } else {
            None
        },
        None => None,
    }
}

/// Colossus halves the damage its owner takes from a dealer that is
/// Vulnerable, and leaves every other damage as it is.
pub proof fn lemma_colossus_rule(ctx: &RuleCtx, power: PowerInstanceId, calc: DamageCalc)
    requires
        ctx.state.spec_power(power) is Some,
    ensures
        ({
            let applies = calc.target == ctx.state.spec_power(power)->0.owner
                && (calc.dealer matches Some(d) && ctx.state.spec_power_amount(d, PowerId::Vulnerable) > 0);
            damage_modifier_result(ctx, DamageModifier::Colossus, power, calc) == if applies {
                times(calc, Amount { mantissa: 5, scale: 1 })
            } else {
                Some(calc)
            }
        }),
{
}

/// Tank doubles the damage its owner takes from monsters, and leaves every
/// other damage as it is.
pub proof fn lemma_tank_rule(ctx: &RuleCtx, power: PowerInstanceId, calc: DamageCalc)
    requires
        ctx.state.spec_power(power) is Some,
    ensures
        ({
            let applies = calc.target == ctx.state.spec_power(power)->0.owner
                && (calc.dealer matches Some(d) && side_of(ctx.state, d) == Some(Side::Monsters));
            damage_modifier_result(ctx, DamageModifier::Tank, power, calc) == if applies {
                times(calc, Amount { mantissa: 2, scale: 0 })
            } else {
                Some(calc)
            }
        }),
{
}

/// Cruelty, owned on the player's side, makes attacks on a Vulnerable target
/// larger by its amount in percent, and leaves every other damage as it is.
pub proof fn lemma_cruelty_rule(ctx: &RuleCtx, power: PowerInstanceId, calc: DamageCalc)
    requires
        ctx.state.spec_power(power) is Some,
    ensures
        ({
            let inst = ctx.state.spec_power(power)->0;
            let applies = calc.kind == DamageKind::Attack && ctx.state.spec_power_amount(calc.target, PowerId::Vulnerable) > 0
                && side_of(ctx.state, inst.owner) == Some(Side::Player);
            damage_modifier_result(ctx, DamageModifier::Cruelty, power, calc) == if applies {
                match (Amount { mantissa: (100 + inst.amount) as i128, scale: 0 }).spec_over(Amount { mantissa: 100, scale: 0 }) {
                    Some(f) => times(calc, f),
                    None => None,
                }
            } else {
                Some(calc)
            }
        }),
{
}

/// Unmovable doubles the first Block its owner gains from a card each turn,
/// and leaves every other Block as it is.
pub proof fn lemma_unmovable_rule(ctx: &RuleCtx, power: PowerInstanceId, calc: BlockCalc)
    requires
        ctx.state.spec_power(power) is Some,
    ensures
        ({
            let applies = calc.target == ctx.state.spec_power(power)->0.owner && (calc.source matches Some(Source::Card(_)))
                && !(ctx.state.combat matches Some(c) && c.turn_stats.card_block_gains > 0);
            unmovable_block(ctx, power, calc) == if applies {
                match calc.amount.spec_times(Amount { mantissa: 2, scale: 0 }) {
                    Some(a) => Some(BlockCalc { amount: a, ..calc }),
                    None => None,
                }
            } else {
                Some(calc)
            }
        }),
{
}

/// The card's registered definition has the type.
pub open spec fn card_is(state: &GameState, registry: &StaticRegistry, card: CardInstanceId, card_type: CardType) -> bool {
    state.spec_card(card) matches Some(c) && registry.cards@.contains_key(c.def) && registry.cards@[c.def].card_type == card_type
}

/// Corruption makes the energy cost of a Skill 0 and leaves every other cost
/// as it is; Free Attack does the same for an Attack.
pub proof fn lemma_free_cost_rules(ctx: &RuleCtx, calc: ResourceCostCalc)
    ensures
        cost_modifier_result(ctx, CostModifier::Corruption, calc) == if calc.resource == ResourceKind::Energy
            && card_is(ctx.state, ctx.registry, calc.card, CardType::Skill) {
            ResourceCostCalc { cost: 0, ..calc }
        } else {
            calc
        },
        cost_modifier_result(ctx, CostModifier::FreeAttack, calc) == if calc.resource == ResourceKind::Energy
            && card_is(ctx.state, ctx.registry, calc.card, CardType::Attack) {
            ResourceCostCalc { cost: 0, ..calc }
        } else {
            calc
        },
{
}

/// What Nibbit does on its turn is what it announces: an attack hits the
/// player's creature for the announced amount, from Nibbit; an attack with
/// block also gives Nibbit itself the announced block; a buff gives Nibbit
/// itself 2 Strength. Its moves go attack 12, attack 6 with block 5, buff,
/// by the turns it has taken.
pub proof fn lemma_nibbit_act_matches_intent(state: &GameState, monster: CreatureId)
    requires
        state.spec_player_creature_id() is Some,
    ensures
        nibbit_intent_of(nibbit_move(state, monster)) == match state.spec_creature(monster) {
            Some(c) => if c.turns_taken % 3 == 0 {
                MonsterIntent::Attack { amount: 12 }
            } else if c.turns_taken % 3 == 1 {
                MonsterIntent::AttackAndBlock { attack: 6, block: 5 }
            } else {
                MonsterIntent::Buff
            },
            None => MonsterIntent::Attack { amount: 12 },
        },
        match nibbit_intent_of(nibbit_move(state, monster)) {
            MonsterIntent::Attack { amount } => nibbit_moves(state, monster) == seq![
                monster_hit(monster, state.spec_player_creature_id()->0, amount as int),
            ],
            MonsterIntent::AttackAndBlock { attack, block } => nibbit_moves(state, monster) == seq![
                monster_hit(monster, state.spec_player_creature_id()->0, attack as int),
                Effect::GainBlock { target: monster, amount: Amount { mantissa: block as i128, scale: 0 }, source: Some(Source::Creature(monster)) },
            ],
            MonsterIntent::Buff => nibbit_moves(state, monster) == seq![
                Effect::ApplyPower {
                    target: monster,
                    power: PowerId::Strength,
                    amount: Amount { mantissa: 2, scale: 0 },
                    source: Some(Source::Creature(monster)),
                },
            ],
            _ => false,
        },
{
}

/// An attack the monster makes on `target` for `amount`.
pub open spec fn monster_hit(monster: CreatureId, target: CreatureId, amount: int) -> Effect {
    Effect::DealDamage(
        DamageOp {
            source: Some(Source::Creature(monster)),
            dealer: Some(monster),
            target,
            base_amount: Amount { mantissa: amount as i128, scale: 0 },
            kind: DamageKind::Attack,
            flags: DamageFlags { ignores_block: false },
        },
    )
}

} // verus!
