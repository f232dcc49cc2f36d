//! The cards and intents the command-line smoke run reads from its combat.
use vstd::prelude::*;

use crate::adapters::tui::view::behavior_intent;
use crate::content::monsters::{monster_intent as behavior_monster_intent, MonsterIntent};
use crate::engine::Engine;
use crate::ids::{CardId, CardInstanceId, CreatureId, DEFEND_IRONCLAD, STRIKE_IRONCLAD};
use crate::rules::RuleCtx;
use crate::state::GameState;

verus! {

/// The last card of the hand with the definition, if any.
pub open spec fn last_card_of(state: &GameState, hand: Seq<CardInstanceId>, def: CardId) -> Option<CardInstanceId>
    decreases hand.len(),
{
    if hand.len() == 0 {
        None
    } else if state.spec_card(hand.last()) matches Some(c) && c.def == def {
        Some(hand.last())
    } else {
        last_card_of(state, hand.drop_last(), def)
    }
}

/// The hand of the combat.
pub open spec fn hand_of(state: &GameState) -> Seq<CardInstanceId> {
    state.combat->0.player.piles.hand@
}

/// The Strike and the Defend the smoke run plays: the last of each in hand.
pub fn starter_cards(engine: &Engine<'_>) -> (r: (CardInstanceId, CardInstanceId))
    requires
        engine.state.combat is Some,
        forall|i: int| 0 <= i < hand_of(&engine.state).len() ==> (#[trigger] engine.state.spec_card(hand_of(&engine.state)[i])) is Some,
        last_card_of(&engine.state, hand_of(&engine.state), STRIKE_IRONCLAD) is Some,
        last_card_of(&engine.state, hand_of(&engine.state), DEFEND_IRONCLAD) is Some,
    ensures
        r.0 == last_card_of(&engine.state, hand_of(&engine.state), STRIKE_IRONCLAD)->0,
        r.1 == last_card_of(&engine.state, hand_of(&engine.state), DEFEND_IRONCLAD)->0,
{
    let combat = engine.state.combat().unwrap();
    let hand = &combat.player.piles.hand;
    let n = hand.len();
    let mut strike: Option<CardInstanceId> = None;
    let mut defend: Option<CardInstanceId> = None;
    for i in 0..n
        invariant
            n == hand@.len(),
            hand@ == hand_of(&engine.state),
            strike == last_card_of(&engine.state, hand@.take(i as int), STRIKE_IRONCLAD),
            defend == last_card_of(&engine.state, hand@.take(i as int), DEFEND_IRONCLAD),
            forall|j: int| 0 <= j < hand@.len() ==> (#[trigger] engine.state.spec_card(hand@[j])) is Some,
    {
        proof {
            assert(hand@.take((i + 1) as int).drop_last() =~= hand@.take(i as int));
            assert(hand@.take((i + 1) as int).last() == hand@[i as int]);
            assert(engine.state.spec_card(hand@[i as int]) is Some);
        }
        let card = hand[i];
        let state = engine.state.card(card).unwrap();
        if state.def == STRIKE_IRONCLAD {
            strike = Some(card);
        } else if state.def == DEFEND_IRONCLAD {
            defend = Some(card);
        }
    }
    proof {
        assert(hand@.take(n as int) =~= hand@);
    }
    (strike.unwrap(), defend.unwrap())
}

/// The intent a creature shows: its model's, or `Unknown` for a creature
/// that is not there or has no registered model.
pub open spec fn creature_intent(engine: &Engine, enemy: CreatureId) -> MonsterIntent {
    match engine.state.spec_creature(enemy) {
        Some(c) => match c.model {
            Some(m) => if engine.registry.monsters@.contains_key(m) {
                behavior_intent(&engine.state, engine.registry.monsters@[m].behavior, enemy)
            } else {
                MonsterIntent::Unknown
            },
            None => MonsterIntent::Unknown,
        },
        None => MonsterIntent::Unknown,
    }
}

pub fn monster_intent(engine: &Engine<'_>, enemy: CreatureId) -> (r: MonsterIntent)
    ensures
        r == creature_intent(engine, enemy),
{
    let monster = match engine.state.creature(enemy) {
        Some(c) => c,
        None => return MonsterIntent::Unknown,
    };
    let model = match monster.model {
        Some(m) => m,
        None => return MonsterIntent::Unknown,
    };
    let def = match engine.registry.monsters.get(model) {
        Some(d) => d,
        None => return MonsterIntent::Unknown,
    };
    let ctx = RuleCtx { state: &engine.state, registry: engine.registry, listener: None };
    behavior_monster_intent(&ctx, def.behavior, enemy)
}

} // verus!
