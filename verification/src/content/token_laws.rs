//! What the Token cards do when played, stated with their own numbers.
use vstd::prelude::*;

use crate::content::cards::{card_play_effects, CardPlay, CardPlayCtx};
use crate::content::laws::{hits_on, random_hits, self_block, up};
use crate::effect::Effect;
use crate::ids::{CardId, CardInstanceId, CreatureId};
use crate::state::{GameState, ResourceKind};

verus! {

/// The card's owner draws `count` cards; nothing for a card the combat does not hold.
pub open spec fn owner_draws(state: &GameState, card: CardInstanceId, count: int) -> Seq<Effect> {
    match state.spec_card(card) {
        Some(c) => seq![Effect::DrawCards { player: c.owner, count: count as u8 }],
        None => Seq::empty(),
    }
}

/// The card's owner gains `amount` energy; nothing for a card the combat does not hold.
pub open spec fn owner_energy(state: &GameState, card: CardInstanceId, amount: int) -> Seq<Effect> {
    match state.spec_card(card) {
        Some(c) => seq![Effect::GainResource { player: c.owner, resource: ResourceKind::Energy, amount: amount as i32 }],
        None => Seq::empty(),
    }
}

/// Playing Fuel gives its owner 1 energy, then draws 1 card (2 upgraded).
pub proof fn lemma_fuel_play(ctx: &CardPlayCtx, card: CardInstanceId, target: Option<CreatureId>)
    ensures
        card_play_effects(ctx, CardPlay::Body(CardId::Fuel), card, target)
            == owner_energy(ctx.state, card, 1) + owner_draws(ctx.state, card, up(ctx.state, card, 1, 2)),
{
}

/// Playing Luminesce gives its owner 2 energy (3 upgraded).
pub proof fn lemma_luminesce_play(ctx: &CardPlayCtx, card: CardInstanceId, target: Option<CreatureId>)
    ensures
        card_play_effects(ctx, CardPlay::Body(CardId::Luminesce), card, target) == owner_energy(ctx.state, card, up(ctx.state, card, 2, 3)),
{
}

/// Playing Minion Dive Bomb hits its target once for 13 (16 upgraded).
pub proof fn lemma_minion_dive_bomb_play(ctx: &CardPlayCtx, card: CardInstanceId, target: Option<CreatureId>)
    ensures
        card_play_effects(ctx, CardPlay::Body(CardId::MinionDiveBomb), card, target)
            == hits_on(ctx.state, card, target, up(ctx.state, card, 13, 16), 1),
{
    assert(card_play_effects(ctx, CardPlay::Body(CardId::MinionDiveBomb), card, target)
        =~= hits_on(ctx.state, card, target, up(ctx.state, card, 13, 16), 1));
}

/// Playing Minion Sacrifice gives the player's creature 9 Block (12 upgraded).
pub proof fn lemma_minion_sacrifice_play(ctx: &CardPlayCtx, card: CardInstanceId, target: Option<CreatureId>)
    ensures
        card_play_effects(ctx, CardPlay::Body(CardId::MinionSacrifice), card, target) == self_block(ctx.state, card, up(ctx.state, card, 9, 12)),
{
}

/// Playing Minion Strike hits its target once for 6 (9 upgraded), then its
/// owner draws 1 card.
pub proof fn lemma_minion_strike_play(ctx: &CardPlayCtx, card: CardInstanceId, target: Option<CreatureId>)
    ensures
        card_play_effects(ctx, CardPlay::Body(CardId::MinionStrike), card, target)
            == hits_on(ctx.state, card, target, up(ctx.state, card, 6, 9), 1) + owner_draws(ctx.state, card, 1),
{
    assert(card_play_effects(ctx, CardPlay::Body(CardId::MinionStrike), card, target)
        =~= hits_on(ctx.state, card, target, up(ctx.state, card, 6, 9), 1) + owner_draws(ctx.state, card, 1));
}

/// Playing a Shiv hits its target once for 4 (6 upgraded).
pub proof fn lemma_shiv_play(ctx: &CardPlayCtx, card: CardInstanceId, target: Option<CreatureId>)
    ensures
        card_play_effects(ctx, CardPlay::Body(CardId::Shiv), card, target) == hits_on(ctx.state, card, target, up(ctx.state, card, 4, 6), 1),
{
    assert(card_play_effects(ctx, CardPlay::Body(CardId::Shiv), card, target)
        =~= hits_on(ctx.state, card, target, up(ctx.state, card, 4, 6), 1));
}

/// Playing Soul draws 2 cards (3 upgraded).
pub proof fn lemma_soul_play(ctx: &CardPlayCtx, card: CardInstanceId, target: Option<CreatureId>)
    ensures
        card_play_effects(ctx, CardPlay::Body(CardId::Soul), card, target) == owner_draws(ctx.state, card, up(ctx.state, card, 2, 3)),
{
}

/// Playing Sovereign Blade hits its target once for 10, upgraded or not.
pub proof fn lemma_sovereign_blade_play(ctx: &CardPlayCtx, card: CardInstanceId, target: Option<CreatureId>)
    ensures
        card_play_effects(ctx, CardPlay::Body(CardId::SovereignBlade), card, target) == hits_on(ctx.state, card, target, 10, 1),
{
    assert(card_play_effects(ctx, CardPlay::Body(CardId::SovereignBlade), card, target) =~= hits_on(ctx.state, card, target, 10, 1));
}

/// Playing Sweeping Gaze hits one random enemy once for 10 (15 upgraded).
pub proof fn lemma_sweeping_gaze_play(ctx: &CardPlayCtx, card: CardInstanceId, target: Option<CreatureId>)
    ensures
        card_play_effects(ctx, CardPlay::Body(CardId::SweepingGaze), card, target) == seq![random_hits(ctx.state, card, up(ctx.state, card, 10, 15), 1)],
{
}

} // verus!
