//! What the powers that look after their owner do when something happens:
//! to whom, how much and on which event.
use vstd::prelude::*;

use crate::amount::Amount;
use crate::content::powers::{power_event_effects, PowerEventRule};
use crate::effect::{DamageFlags, DamageKind, DamageOp, Effect, Event, Source};
use crate::ids::{CreatureId, PowerId, PowerInstanceId};
use crate::rules::RuleCtx;
use crate::state::Side;

verus! {

/// The owner of the power instance.
pub open spec fn owner_of(ctx: &RuleCtx, power: PowerInstanceId) -> CreatureId {
    ctx.state.spec_power(power)->0.owner
}

/// The amount of the power instance.
pub open spec fn amount_of(ctx: &RuleCtx, power: PowerInstanceId) -> int {
    ctx.state.spec_power(power)->0.amount as int
}

/// `n` as a whole amount.
pub open spec fn whole(n: int) -> Amount {
    Amount { mantissa: n as i128, scale: 0 }
}

/// The event starts the player's turn.
pub open spec fn starts_player_turn(event: Event) -> bool {
    event == (Event::TurnStarted { side: Side::Player })
}

/// The event ends the player's turn.
pub open spec fn ends_player_turn(event: Event) -> bool {
    event == (Event::TurnEnded { side: Side::Player })
}

/// Demon Form gives its owner Strength equal to its amount when the player's
/// turn starts, and does nothing on any other event.
pub proof fn lemma_demon_form_event(ctx: &RuleCtx, power: PowerInstanceId, event: Event)
    requires
        ctx.state.spec_power(power) is Some,
    ensures
        power_event_effects(ctx, PowerEventRule::DemonForm, power, event) == if starts_player_turn(event) {
            seq![Effect::ApplyPower {
                target: owner_of(ctx, power),
                power: PowerId::Strength,
                amount: whole(amount_of(ctx, power)),
                source: Some(Source::Power(power)),
            }]
        } else {
            Seq::<Effect>::empty()
        },
{
}

/// Plating gives its owner Block equal to its amount when the player's turn
/// starts, and does nothing on any other event.
pub proof fn lemma_plating_event(ctx: &RuleCtx, power: PowerInstanceId, event: Event)
    requires
        ctx.state.spec_power(power) is Some,
    ensures
        power_event_effects(ctx, PowerEventRule::Plating, power, event) == if starts_player_turn(event) {
            seq![Effect::GainBlock { target: owner_of(ctx, power), amount: whole(amount_of(ctx, power)), source: Some(Source::Power(power)) }]
        } else {
            Seq::<Effect>::empty()
        },
{
}

/// Crimson Mantle makes its owner lose 1 HP and then gain Block equal to its
/// amount when the player's turn starts, and does nothing on any other event.
pub proof fn lemma_crimson_mantle_event(ctx: &RuleCtx, power: PowerInstanceId, event: Event)
    requires
        ctx.state.spec_power(power) is Some,
    ensures
        power_event_effects(ctx, PowerEventRule::CrimsonMantle, power, event) == if starts_player_turn(event) {
            seq![
                Effect::LoseHp { target: owner_of(ctx, power), amount: whole(1), source: Some(Source::Power(power)) },
                Effect::GainBlock { target: owner_of(ctx, power), amount: whole(amount_of(ctx, power)), source: Some(Source::Power(power)) },
            ]
        } else {
            Seq::<Effect>::empty()
        },
{
}

/// Feel No Pain gives its owner Block equal to its amount whenever a card is
/// exhausted, and does nothing on any other event.
pub proof fn lemma_feel_no_pain_event(ctx: &RuleCtx, power: PowerInstanceId, event: Event)
    requires
        ctx.state.spec_power(power) is Some,
    ensures
        power_event_effects(ctx, PowerEventRule::FeelNoPain, power, event) == if event is CardExhausted {
            seq![Effect::GainBlock { target: owner_of(ctx, power), amount: whole(amount_of(ctx, power)), source: Some(Source::Power(power)) }]
        } else {
            Seq::<Effect>::empty()
        },
{
}

/// Rupture gives its owner Strength equal to its amount whenever the owner's
/// HP goes down, and does nothing on any other event.
pub proof fn lemma_rupture_event(ctx: &RuleCtx, power: PowerInstanceId, event: Event)
    requires
        ctx.state.spec_power(power) is Some,
    ensures
        power_event_effects(ctx, PowerEventRule::Rupture, power, event) == match event {
            Event::CreatureHpChanged(e) => if e.creature == owner_of(ctx, power) && e.before > e.after {
                seq![Effect::ApplyPower {
                    target: owner_of(ctx, power),
                    power: PowerId::Strength,
                    amount: whole(amount_of(ctx, power)),
                    source: Some(Source::Power(power)),
                }]
            } else {
                Seq::<Effect>::empty()
            },
            _ => Seq::<Effect>::empty(),
        },
{
}

/// Flame Barrier hits back, for its amount, whoever takes HP from its owner,
/// and is removed when the player's turn ends; nothing else sets it off.
pub proof fn lemma_flame_barrier_event(ctx: &RuleCtx, power: PowerInstanceId, event: Event)
    requires
        ctx.state.spec_power(power) is Some,
    ensures
        power_event_effects(ctx, PowerEventRule::FlameBarrier, power, event) == match event {
            Event::DamageDealt(res) => if res.target == owner_of(ctx, power) && res.hp_loss > 0 && res.dealer is Some {
                seq![Effect::DealDamage(DamageOp {
                    source: Some(Source::Power(power)),
                    dealer: Some(owner_of(ctx, power)),
                    target: res.dealer->0,
                    base_amount: whole(amount_of(ctx, power)),
                    kind: DamageKind::Thorns,
                    flags: DamageFlags { ignores_block: false },
                })]
            } else {
                Seq::<Effect>::empty()
            },
            _ => if ends_player_turn(event) {
                seq![Effect::RemovePower { power }]
            } else {
                Seq::<Effect>::empty()
            },
        },
{
}

/// Strength given for one turn is taken back, and Strength taken for one turn
/// given back, by the power's amount when the player's turn ends; the power
/// then goes. Nothing happens on any other event.
pub proof fn lemma_temporary_strength_events(ctx: &RuleCtx, power: PowerInstanceId, event: Event)
    requires
        ctx.state.spec_power(power) is Some,
    ensures
        power_event_effects(ctx, PowerEventRule::TemporaryStrengthGain, power, event) == if ends_player_turn(event) {
            seq![
                Effect::ApplyPower {
                    target: owner_of(ctx, power),
                    power: PowerId::Strength,
                    amount: whole(-amount_of(ctx, power)),
                    source: Some(Source::Power(power)),
                },
                Effect::RemovePower { power },
            ]
        } else {
            Seq::<Effect>::empty()
        },
        power_event_effects(ctx, PowerEventRule::TemporaryStrengthLoss, power, event) == if ends_player_turn(event) {
            seq![
                Effect::ApplyPower {
                    target: owner_of(ctx, power),
                    power: PowerId::Strength,
                    amount: whole(amount_of(ctx, power)),
                    source: Some(Source::Power(power)),
                },
                Effect::RemovePower { power },
            ]
        } else {
            Seq::<Effect>::empty()
        },
{
}

} // verus!
