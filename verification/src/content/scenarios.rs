//! Ready-made combats against Nibbit.
use vstd::prelude::*;

use crate::content::cards::CardDef;
use crate::content::monsters::nibbit;
use crate::ids::{DEFEND_IRONCLAD, NIBBIT, STRIKE_IRONCLAD};
use crate::registry::Definition;
use crate::registry_static::StaticRegistry;
use crate::rng::{RngSet, spec_mix, spec_step};
use crate::setup::{
    CombatSetupCard, CombatSetupMonster, build_single_player_combat, deck_order, set_up, shuffled,
};
use crate::state::{CardCosts, GameState};

verus! {

/// The Ironclad's starting deck: five Strikes, then four Defends, each costing 1.
pub open spec fn starter_deck() -> Seq<CombatSetupCard> {
    let strike = CombatSetupCard { def: STRIKE_IRONCLAD, upgraded: false, costs: CardCosts { energy: crate::state::CardCost::Fixed(1), stars: crate::state::CardCost::NoCost } };
    let defend = CombatSetupCard { def: DEFEND_IRONCLAD, upgraded: false, costs: CardCosts { energy: crate::state::CardCost::Fixed(1), stars: crate::state::CardCost::NoCost } };
    seq![strike, strike, strike, strike, strike, defend, defend, defend, defend]
}

/// The starter deck against one Nibbit: 50 HP, 3 energy, an opening hand of 2.
pub fn full_nibbit_combat(seed: u64) -> (r: GameState)
    ensures
        set_up(
            r,
            seed,
            starter_deck(),
            seq![CombatSetupMonster { model: Some(NIBBIT), max_hp: 42 }],
            50,
            3,
            2,
            shuffled(deck_order(9), RngSet::spec_seeded(seed).shuffle.state, 9),
        ),
{
    let strike = CombatSetupCard { def: STRIKE_IRONCLAD, upgraded: false, costs: CardCosts::energy(1) };
    let defend = CombatSetupCard { def: DEFEND_IRONCLAD, upgraded: false, costs: CardCosts::energy(1) };
    let deck = vec![strike, strike, strike, strike, strike, defend, defend, defend, defend];
    let def = nibbit();
    let monsters = vec![CombatSetupMonster { model: Some(def.id), max_hp: def.max_hp }];
    proof {
        assert(deck@ =~= starter_deck());
    }
    build_single_player_combat(seed, deck, monsters, 50, 3, 2)
}

/// The setup card a definition gives: not upgraded, at its base costs.
pub open spec fn setup_of(def: CardDef) -> CombatSetupCard {
    CombatSetupCard { def: def.id, upgraded: false, costs: def.spec_costs_for(false) }
}

/// The definitions that may be generated in combat, as setup cards, in order.
pub open spec fn candidates_of(defs: Seq<CardDef>) -> Seq<CombatSetupCard>
    decreases defs.len(),
{
    if defs.len() == 0 {
        Seq::empty()
    } else {
        candidates_of(defs.drop_last()) + if defs.last().can_generate_in_combat {
            seq![setup_of(defs.last())]
        } else {
            Seq::empty()
        }
    }
}

/// `count` picks among the candidates, each by the next number of the stream.
pub open spec fn picks(cands: Seq<CombatSetupCard>, state: u64, count: nat) -> Seq<CombatSetupCard>
    decreases count,
{
    if count == 0 || cands.len() == 0 {
        Seq::empty()
    } else {
        let next = spec_step(state);
        let i = (spec_mix(next) % (cands.len() as u64)) as int;
        seq![cands[i]] + picks(cands, next, (count - 1) as nat)
    }
}

/// The random deck of a seed: `count` cards drawn, with repeats, from the
/// registered cards that may be generated in combat; empty when there are none.
pub open spec fn random_deck(registry: &StaticRegistry, seed: u64, count: nat) -> Seq<CombatSetupCard> {
    picks(candidates_of(registry.cards.spec_values()), RngSet::spec_seeded(seed).combat_card_generation.state, count)
}

/// The setup card comes from a registered definition that may be generated
/// in combat: not upgraded, at that definition's base costs.
pub open spec fn generable_setup(registry: &StaticRegistry, card: CombatSetupCard) -> bool {
    &&& registry.cards@.contains_key(card.def)
    &&& registry.cards@[card.def].can_generate_in_combat
    &&& card == setup_of(registry.cards@[card.def])
}

/// A random deck of `count` cards drawn from the registered definitions that
/// may be generated in combat; every card of it is such a definition's.
pub fn random_combat_deck(registry: &StaticRegistry, seed: u64, count: usize) -> (r: Vec<CombatSetupCard>)
    ensures
        r@ == random_deck(registry, seed, count as nat),
        forall|i: int| 0 <= i < r@.len() ==> generable_setup(registry, #[trigger] r@[i]),
{
    let values = registry.cards.values();
    let m = values.len();
    proof {
        assert forall|i: int| 0 <= i < values@.len() implies registry.cards@.contains_key(#[trigger] values@[i].id)
            && registry.cards@[values@[i].id] == values@[i] by {
            assert(values@[i].spec_key() == values@[i].id);
        }
    }
    let mut cands: Vec<CombatSetupCard> = Vec::new();
    for j in 0..m
        invariant
            m == values@.len(),
            values@ == registry.cards.spec_values(),
            cands@ == candidates_of(values@.take(j as int)),
            forall|i: int| 0 <= i < values@.len() ==> registry.cards@.contains_key(#[trigger] values@[i].id)
                && registry.cards@[values@[i].id] == values@[i],
            forall|k: int| 0 <= k < cands@.len() ==> generable_setup(registry, #[trigger] cands@[k]),
    {
        proof {
            assert(values@.take((j + 1) as int).drop_last() =~= values@.take(j as int));
        }
        let def = &values[j];
        if def.can_generate_in_combat {
            cands.push(CombatSetupCard { def: def.id, upgraded: false, costs: def.costs_for(false) });
            proof {
                assert(registry.cards@.contains_key(values@[j as int].id));
            }
        }
        proof {
            assert(cands@ =~= candidates_of(values@.take((j + 1) as int)));
        }
    }
    proof {
        assert(values@.take(m as int) =~= values@);
    }
    let mut deck: Vec<CombatSetupCard> = Vec::new();
    if cands.len() == 0 {
        return deck;
    }
    let mut rng = RngSet::seeded(seed).combat_card_generation;
    let ghost start = rng.state;
    for i in 0..count
        invariant
            cands@.len() > 0,
            deck@ + picks(cands@, rng.state, (count - i) as nat) == picks(cands@, start, count as nat),
            forall|k: int| 0 <= k < cands@.len() ==> generable_setup(registry, #[trigger] cands@[k]),
            forall|k: int| 0 <= k < deck@.len() ==> generable_setup(registry, #[trigger] deck@[k]),
    {
        let ghost before = deck@;
        let ghost state = rng.state;
        let index = rng.next_usize(cands.len()).unwrap();
        deck.push(cands[index]);
        proof {
            assert(picks(cands@, state, (count - i) as nat) == seq![cands@[index as int]] + picks(cands@, rng.state, (count - i - 1) as nat));
            assert(deck@ + picks(cands@, rng.state, (count - (i + 1)) as nat) =~= before + picks(cands@, state, (count - i) as nat));
        }
    }
    proof {
        assert(deck@ + picks(cands@, rng.state, 0) =~= deck@);
    }
    deck
}

/// The monster a random Nibbit combat fields: the registered Nibbit, or else
/// an unmodelled monster with Nibbit's HP.
pub open spec fn nibbit_slot(registry: &StaticRegistry) -> CombatSetupMonster {
    if registry.monsters@.contains_key(NIBBIT) {
        CombatSetupMonster { model: Some(registry.monsters@[NIBBIT].id), max_hp: registry.monsters@[NIBBIT].max_hp }
    } else {
        CombatSetupMonster { model: None, max_hp: 42 }
    }
}

/// The Nibbits a random combat fields: `count` of them, at least one.
pub open spec fn nibbit_slots(registry: &StaticRegistry, count: usize) -> Seq<CombatSetupMonster> {
    Seq::new(if count > 0 { count as nat } else { 1 }, |i: int| nibbit_slot(registry))
}

/// `r` is the random combat: the random deck, shuffled by the seed, against
/// the Nibbits.
pub open spec fn is_random_nibbit_combat(
    r: GameState,
    registry: &StaticRegistry,
    seed: u64,
    nibbit_count: usize,
    deck_size: usize,
    player_max_hp: i32,
    player_max_energy: i32,
    initial_draw_count: u8,
) -> bool {
    let deck = random_deck(registry, seed, deck_size as nat);
    set_up(
        r,
        seed,
        deck,
        nibbit_slots(registry, nibbit_count),
        player_max_hp,
        player_max_energy,
        initial_draw_count,
        shuffled(deck_order(deck.len()), RngSet::spec_seeded(seed).shuffle.state, deck.len()),
    )
}

/// A random deck against at least one Nibbit, shuffled by the seed.
pub fn random_nibbit_combat(
    registry: &StaticRegistry,
    seed: u64,
    nibbit_count: usize,
    deck_size: usize,
    player_max_hp: i32,
    player_max_energy: i32,
    initial_draw_count: u8,
) -> (r: GameState)
    requires
        nibbit_count < u32::MAX,
        deck_size <= u32::MAX,
    ensures
        is_random_nibbit_combat(r, registry, seed, nibbit_count, deck_size, player_max_hp, player_max_energy, initial_draw_count),
{
    let deck = random_combat_deck(registry, seed, deck_size);
    proof {
        lemma_picks_len(candidates_of(registry.cards.spec_values()), RngSet::spec_seeded(seed).combat_card_generation.state, deck_size as nat);
    }
    let fallback = nibbit();
    let monster = match registry.monsters.get(NIBBIT) {
        Some(def) => CombatSetupMonster { model: Some(def.id), max_hp: def.max_hp },
        None => CombatSetupMonster { model: None, max_hp: fallback.max_hp },
    };
    let count = if nibbit_count > 0 { nibbit_count } else { 1 };
    let mut monsters: Vec<CombatSetupMonster> = Vec::new();
    for i in 0..count
        invariant
            monsters@ == Seq::new(i as nat, |x: int| nibbit_slot(registry)),
            monster == nibbit_slot(registry),
            count == (if nibbit_count > 0 { nibbit_count } else { 1 }),
    {
        monsters.push(monster);
        proof {
            assert(monsters@ =~= Seq::new((i + 1) as nat, |x: int| nibbit_slot(registry)));
        }
    }
    proof {
        assert(monsters@ =~= nibbit_slots(registry, nibbit_count));
    }
    build_single_player_combat(seed, deck, monsters, player_max_hp, player_max_energy, initial_draw_count)
}

/// The picks number at most `count`.
pub proof fn lemma_picks_len(cands: Seq<CombatSetupCard>, state: u64, count: nat)
    ensures
        picks(cands, state, count).len() <= count,
    decreases count,
{
    if count > 0 && cands.len() > 0 {
        lemma_picks_len(cands, spec_step(state), (count - 1) as nat);
    }
}

} // verus!
