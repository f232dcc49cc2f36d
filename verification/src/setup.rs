//! Setting up a combat, and the few direct changes tests and tools make to one.
use vstd::prelude::*;

use crate::amount::Amount;
use crate::ids::{CardId, CardInstanceId, CreatureId, MonsterId, PlayerId, PowerId, PowerInstanceId};
use crate::rng::{Rng, RngSet, spec_mix, spec_step};
use crate::state::{
    CardCosts, CardCounter, CardFlags, CardState, CombatPhase, CombatState, CombatStats, Creature,
    GameState, PileId, PileKind, Piles, PlayerState, PowerInstance, RunState, Side, TurnStats, MAX_CARDS_IN_HAND,
};

verus! {

/// One card of the deck a combat starts with.
#[derive(Clone, Copy, Debug, PartialEq, Eq, Structural)]
pub struct CombatSetupCard {
    pub def: CardId,
    pub upgraded: bool,
    pub costs: CardCosts,
}

/// One monster a combat starts with.
#[derive(Clone, Copy, Debug, PartialEq, Eq, Structural)]
pub struct CombatSetupMonster {
    pub model: Option<MonsterId>,
    pub max_hp: i32,
}

/// Why a direct change to the state was refused.
#[derive(Clone, Copy, Debug, PartialEq, Eq, Structural)]
pub enum StateError {
    NoCombat,
    NoSuchCreature,
    NoSuchCard,
}

/// How many cards the opening hand takes.
pub open spec fn opening_hand_size(deck: nat, draw: u8) -> nat {
    let k = if (draw as nat) < deck { draw as nat } else { deck };
    if k < MAX_CARDS_IN_HAND as nat { k } else { MAX_CARDS_IN_HAND as nat }
}

/// The deck's indices from last to first: the draw pile, bottom to top, with
/// the first card on top.
pub open spec fn deck_order(n: nat) -> Seq<u32> {
    Seq::new(n, |i: int| (n - 1 - i) as u32)
}

/// Fisher–Yates over the first `i` places of `order`, drawing from the stream in state `state`.
pub open spec fn shuffled(order: Seq<u32>, state: u64, i: nat) -> Seq<u32>
    decreases i,
{
    if i <= 1 {
        order
    } else {
        let next = spec_step(state);
        let j = (spec_mix(next) % (i as u64)) as int;
        let a = order[i - 1];
        let b = order[j];
        shuffled(order.update(i - 1, b).update(j, a), next, (i - 1) as nat)
    }
}

/// The stream state after shuffling `i` places.
pub open spec fn shuffled_state(state: u64, i: nat) -> u64
    decreases i,
{
    if i <= 1 {
        state
    } else {
        shuffled_state(spec_step(state), (i - 1) as nat)
    }
}

/// Shuffling only reorders: the shuffled sequence holds the same values, as
/// often, as the one it started from.
pub proof fn lemma_shuffled_permutes(order: Seq<u32>, state: u64, i: nat)
    requires
        i <= order.len(),
        i <= u64::MAX,
    ensures
        shuffled(order, state, i).len() == order.len(),
        shuffled(order, state, i).to_multiset() == order.to_multiset(),
    decreases i,
{
    if i > 1 {
        let next = spec_step(state);
        let m = spec_mix(next);
        let j = (m % (i as u64)) as int;
        assert(0 <= m % (i as u64) < i) by (nonlinear_arith)
            requires
                i > 1,
                i <= u64::MAX,
        ;
        let a = order[i - 1];
        let b = order[j];
        let s1 = order.update(i - 1, b);
        let s2 = s1.update(j, a);
        vstd::seq_lib::to_multiset_update(order, i - 1, b);
        vstd::seq_lib::to_multiset_update(s1, j, a);
        assert(s1[j] == b);
        assert(order.to_multiset().count(a) > 0) by {
            vstd::seq_lib::to_multiset_contains(order, a);
            assert(order.contains(a));
        }
        assert(s2.to_multiset() =~= order.to_multiset()) by {
            broadcast use vstd::multiset::group_multiset_axioms;
        }
        lemma_shuffled_permutes(s2, next, (i - 1) as nat);
    }
}

/// The sequence holds the value `i`.
pub open spec fn has_value(order: Seq<u32>, i: int) -> bool {
    order.contains(i as u32)
}

/// The piles hold the deck's card of index `i`.
pub open spec fn holds_card(piles: Seq<CardInstanceId>, i: int) -> bool {
    piles.contains(CardInstanceId(i as u32))
}

/// Where the card at place `x` of the draw pile followed by the hand sits in
/// the order the deck was dealt from: the draw pile keeps its places, the
/// hand was taken from the top, last first.
pub open spec fn dealt_place(n: int, k: int, x: int) -> int {
    if x < n - k {
        x
    } else {
        n - 1 - (x - (n - k))
    }
}

/// The combat deals every card of the deck once: the draw pile and the hand
/// together hold each card instance of the deck, none twice, when the order
/// dealt from is a reordering of the deck.
pub proof fn lemma_deck_dealt_once(
    s: GameState,
    seed: u64,
    cards: Seq<CombatSetupCard>,
    monsters: Seq<CombatSetupMonster>,
    player_max_hp: i32,
    max_energy: i32,
    draw: u8,
    order: Seq<u32>,
)
    requires
        set_up(s, seed, cards, monsters, player_max_hp, max_energy, draw, order),
        cards.len() <= u32::MAX,
        order.len() == cards.len(),
        order.to_multiset() == deck_order(cards.len()).to_multiset(),
    ensures
        ({
            let piles = s.combat->0.player.piles.draw@ + s.combat->0.player.piles.hand@;
            &&& piles.len() == cards.len()
            &&& piles.no_duplicates()
            &&& forall|i: int| 0 <= i < cards.len() ==> #[trigger] holds_card(piles, i)
        }),
{
    let n = cards.len() as int;
    let c = s.combat->0;
    let k = opening_hand_size(cards.len(), draw) as int;
    let piles = c.player.piles.draw@ + c.player.piles.hand@;
    let d = deck_order(cards.len());
    // The order has no value twice, and holds every index of the deck.
    assert(d.no_duplicates());
    d.lemma_multiset_has_no_duplicates();
    assert forall|x: u32| order.to_multiset().contains(x) implies order.to_multiset().count(x) == 1 by {}
    order.lemma_multiset_has_no_duplicates_conv();
    assert forall|i: int| 0 <= i < n implies #[trigger] has_value(order, i) by {
        assert(d[n - 1 - i] == i as u32);
        vstd::seq_lib::to_multiset_contains(d, i as u32);
        vstd::seq_lib::to_multiset_contains(order, i as u32);
    }
    // Each place of the piles holds the order's value at its dealt place.
    assert(piles.len() == n);
    assert forall|x: int| 0 <= x < n implies #[trigger] piles[x] == CardInstanceId(order[dealt_place(n, k, x)]) && 0 <= dealt_place(
        n,
        k,
        x,
    ) < n by {
        if x < n - k {
            assert(piles[x] == c.player.piles.draw@[x]);
        } else {
            assert(piles[x] == c.player.piles.hand@[x - (n - k)]);
        }
    }
    assert forall|x: int, y: int| 0 <= x < n && 0 <= y < n && x != y implies piles[x] != piles[y] by {
        assert(dealt_place(n, k, x) != dealt_place(n, k, y));
        assert(order[dealt_place(n, k, x)] != order[dealt_place(n, k, y)]);
    }
    assert forall|i: int| 0 <= i < n implies #[trigger] holds_card(piles, i) by {
        assert(has_value(order, i));
        let p = choose|p: int| 0 <= p < order.len() && order[p] == i as u32;
        let x = dealt_place(n, k, p);
        assert(dealt_place(n, k, x) == p);
        assert(piles[x] == CardInstanceId(i as u32));
    }
}

/// A deck dealt from a shuffle of its order is dealt once.
pub proof fn lemma_shuffled_deck_dealt_once(
    s: GameState,
    seed: u64,
    cards: Seq<CombatSetupCard>,
    monsters: Seq<CombatSetupMonster>,
    player_max_hp: i32,
    max_energy: i32,
    draw: u8,
    state: u64,
)
    requires
        set_up(s, seed, cards, monsters, player_max_hp, max_energy, draw, shuffled(deck_order(cards.len()), state, cards.len())),
        cards.len() <= u32::MAX,
    ensures
        ({
            let piles = s.combat->0.player.piles.draw@ + s.combat->0.player.piles.hand@;
            &&& piles.len() == cards.len()
            &&& piles.no_duplicates()
            &&& forall|i: int| 0 <= i < cards.len() ==> #[trigger] holds_card(piles, i)
        }),
{
    lemma_shuffled_permutes(deck_order(cards.len()), state, cards.len());
    lemma_deck_dealt_once(s, seed, cards, monsters, player_max_hp, max_energy, draw, shuffled(deck_order(cards.len()), state, cards.len()));
}

/// The combat the setup describes, with the draw pile in `order` (bottom to
/// top) before the opening hand is drawn from its top.
pub open spec fn set_up(
    s: GameState,
    seed: u64,
    cards: Seq<CombatSetupCard>,
    monsters: Seq<CombatSetupMonster>,
    player_max_hp: i32,
    max_energy: i32,
    draw: u8,
    order: Seq<u32>,
) -> bool {
    let n = cards.len();
    let k = opening_hand_size(n, draw);
    &&& s.run.seed == seed
    &&& s.combat matches Some(c) && {
        &&& c.phase == CombatPhase::PlayerAction
        &&& c.player.id == PlayerId(0)
        &&& c.player.creature == CreatureId(0)
        &&& c.player.energy == max_energy
        &&& c.player.max_energy == max_energy
        &&& c.player.stars == 0
        &&& c.creatures@.len() == monsters.len() + 1
        &&& forall|i: int| 0 <= i < c.creatures@.len() ==> (#[trigger] c.creatures@[i]).id == CreatureId(i as u32)
            && c.creatures@[i].block == 0 && c.creatures@[i].alive && c.creatures@[i].turns_taken == 0
            && c.creatures@[i].powers@.len() == 0
        &&& c.creatures@[0].side == Side::Player
        &&& c.creatures@[0].hp == player_max_hp
        &&& c.creatures@[0].max_hp == player_max_hp
        &&& c.creatures@[0].model is None
        &&& forall|i: int| 0 <= i < monsters.len() ==> (#[trigger] c.creatures@[i + 1]).side == Side::Monsters
            && c.creatures@[i + 1].model == monsters[i].model && c.creatures@[i + 1].hp == monsters[i].max_hp
            && c.creatures@[i + 1].max_hp == monsters[i].max_hp
        &&& c.cards@.len() == n
        &&& forall|i: int| 0 <= i < n ==> (#[trigger] c.cards@[i]).def == cards[i].def && c.cards@[i].upgraded == cards[i].upgraded
            && c.cards@[i].costs == cards[i].costs && c.cards@[i].owner == PlayerId(0) && c.cards@[i].pile.owner == PlayerId(0)
            && c.cards@[i].flags == (CardFlags { ethereal: false, temporary: false, purge_on_use: false, zero_cost_this_turn: false })
            && c.cards@[i].damage_increase == 0
            && (c.cards@[i].pile.kind == PileKind::Hand <==> c.player.piles.hand@.contains(CardInstanceId(i as u32)))
            && (c.cards@[i].pile.kind == PileKind::Hand || c.cards@[i].pile.kind == PileKind::Draw)
        &&& c.player.piles.hand@.len() == k
        &&& forall|j: int| 0 <= j < k ==> #[trigger] c.player.piles.hand@[j] == CardInstanceId(order[n - 1 - j])
        &&& c.player.piles.draw@ == order.take(n - k).map_values(|i: u32| CardInstanceId(i))
        &&& c.player.piles.discard@.len() == 0
        &&& c.player.piles.exhaust@.len() == 0
        &&& c.powers@.len() == 0
        &&& c.orbs@.len() == 0
        &&& c.turn_stats == (TurnStats { cards_played: 0, attacks_played: 0, cards_exhausted: 0, hp_lost_by_player: 0, card_block_gains: 0 })
        &&& c.combat_stats == (CombatStats { hp_loss_events_by_player: 0 })
    }
}

/// Two creatures agree in every field, their powers by their contents.
pub open spec fn same_creature(x: Creature, y: Creature) -> bool {
    &&& x.id == y.id
    &&& x.side == y.side
    &&& x.hp == y.hp
    &&& x.max_hp == y.max_hp
    &&& x.block == y.block
    &&& x.alive == y.alive
    &&& x.model == y.model
    &&& x.turns_taken == y.turns_taken
    &&& x.powers@ == y.powers@
}

/// Two states agree in every field, each list by its contents.
pub open spec fn same_state(a: GameState, b: GameState) -> bool {
    &&& a.run == b.run
    &&& match (a.combat, b.combat) {
        (None, None) => true,
        (Some(c), Some(d)) => {
            &&& c.phase == d.phase
            &&& c.player.id == d.player.id
            &&& c.player.creature == d.player.creature
            &&& c.player.energy == d.player.energy
            &&& c.player.max_energy == d.player.max_energy
            &&& c.player.stars == d.player.stars
            &&& c.player.piles.draw@ == d.player.piles.draw@
            &&& c.player.piles.hand@ == d.player.piles.hand@
            &&& c.player.piles.discard@ == d.player.piles.discard@
            &&& c.player.piles.exhaust@ == d.player.piles.exhaust@
            &&& c.creatures@.len() == d.creatures@.len()
            &&& forall|i: int| 0 <= i < c.creatures@.len() ==> same_creature(#[trigger] c.creatures@[i], d.creatures@[i])
            &&& c.cards@ == d.cards@
            &&& c.powers@ == d.powers@
            &&& c.orbs@ == d.orbs@
            &&& c.turn_stats == d.turn_stats
            &&& c.combat_stats == d.combat_stats
        },
        _ => false,
    }
}

/// The setup fixes the whole state: two states it describes agree in every field.
pub proof fn lemma_set_up_unique(
    a: GameState,
    b: GameState,
    seed: u64,
    cards: Seq<CombatSetupCard>,
    monsters: Seq<CombatSetupMonster>,
    player_max_hp: i32,
    max_energy: i32,
    draw: u8,
    order: Seq<u32>,
)
    requires
        set_up(a, seed, cards, monsters, player_max_hp, max_energy, draw, order),
        set_up(b, seed, cards, monsters, player_max_hp, max_energy, draw, order),
    ensures
        same_state(a, b),
{
    let c = a.combat->0;
    let d = b.combat->0;
    let n = cards.len();
    let k = opening_hand_size(n, draw);
    assert(c.player.piles.hand@ =~= d.player.piles.hand@) by {
        assert forall|j: int| 0 <= j < k implies c.player.piles.hand@[j] == d.player.piles.hand@[j] by {
            assert(c.player.piles.hand@[j] == CardInstanceId(order[n - 1 - j]));
            assert(d.player.piles.hand@[j] == CardInstanceId(order[n - 1 - j]));
        }
    }
    assert forall|i: int| 0 <= i < c.creatures@.len() implies same_creature(#[trigger] c.creatures@[i], d.creatures@[i]) by {
        let x = c.creatures@[i];
        let y = d.creatures@[i];
        assert(x.powers@ =~= y.powers@);
        if i > 0 {
            assert(c.creatures@[(i - 1) + 1] == x);
            assert(d.creatures@[(i - 1) + 1] == y);
        }
    }
    assert(c.cards@ =~= d.cards@) by {
        assert forall|i: int| 0 <= i < n implies c.cards@[i] == d.cards@[i] by {
            let x = c.cards@[i];
            let y = d.cards@[i];
            assert(x.pile.kind == y.pile.kind);
        }
    }
    assert(c.player.piles.discard@ =~= d.player.piles.discard@);
    assert(c.player.piles.exhaust@ =~= d.player.piles.exhaust@);
    assert(c.powers@ =~= d.powers@);
    assert(c.orbs@ =~= d.orbs@);
}

fn new_creature(id: CreatureId, side: Side, max_hp: i32, model: Option<MonsterId>) -> (r: Creature)
    ensures
        r.id == id,
        r.side == side,
        r.hp == max_hp,
        r.max_hp == max_hp,
        r.block == 0,
        r.alive,
        r.model == model,
        r.turns_taken == 0,
        r.powers@.len() == 0,
{
    Creature { id, side, hp: max_hp, max_hp, block: 0, alive: true, model, turns_taken: 0, powers: Vec::new() }
}

/// Builds the combat, draws the opening hand from the top of `order`.
fn assemble(
    seed: u64,
    cards: &Vec<CombatSetupCard>,
    monsters: &Vec<CombatSetupMonster>,
    player_max_hp: i32,
    max_energy: i32,
    draw: u8,
    order: Vec<u32>,
) -> (r: GameState)
    requires
        order@.len() == cards@.len(),
        forall|j: int| 0 <= j < order@.len() ==> order@[j] < cards@.len(),
        cards@.len() <= u32::MAX,
        monsters@.len() < u32::MAX,
    ensures
        set_up(r, seed, cards@, monsters@, player_max_hp, max_energy, draw, order@),
{
    let n = cards.len();
    let mut creatures: Vec<Creature> = Vec::new();
    creatures.push(new_creature(CreatureId(0), Side::Player, player_max_hp, None));
    let m = monsters.len();
    for i in 0..m
        invariant
            m == monsters@.len(),
            m < u32::MAX,
            creatures@.len() == i + 1,
            forall|x: int| 0 <= x < creatures@.len() ==> (#[trigger] creatures@[x]).id == CreatureId(x as u32)
                && creatures@[x].block == 0 && creatures@[x].alive && creatures@[x].turns_taken == 0
                && creatures@[x].powers@.len() == 0,
            creatures@[0].side == Side::Player,
            creatures@[0].hp == player_max_hp,
            creatures@[0].max_hp == player_max_hp,
            creatures@[0].model is None,
            forall|x: int| 0 <= x < i ==> (#[trigger] creatures@[x + 1]).side == Side::Monsters
                && creatures@[x + 1].model == monsters@[x].model && creatures@[x + 1].hp == monsters@[x].max_hp
                && creatures@[x + 1].max_hp == monsters@[x].max_hp,
    {
        let spec_m = monsters[i];
        creatures.push(new_creature(CreatureId((i + 1) as u32), Side::Monsters, spec_m.max_hp, spec_m.model));
        proof {
            assert forall|x: int| 0 <= x < i + 1 implies (#[trigger] creatures@[x + 1]).side == Side::Monsters
                && creatures@[x + 1].model == monsters@[x].model && creatures@[x + 1].hp == monsters@[x].max_hp
                && creatures@[x + 1].max_hp == monsters@[x].max_hp by {
            }
        }
    }
    let no_flags = CardFlags { ethereal: false, temporary: false, purge_on_use: false, zero_cost_this_turn: false };
    let mut card_states: Vec<CardState> = Vec::new();
    for i in 0..n
        invariant
            n == cards@.len(),
            card_states@.len() == i,
            forall|x: int| 0 <= x < i ==> (#[trigger] card_states@[x]).def == cards@[x].def
                && card_states@[x].upgraded == cards@[x].upgraded && card_states@[x].costs == cards@[x].costs
                && card_states@[x].owner == PlayerId(0) && card_states@[x].pile == (PileId { owner: PlayerId(0), kind: PileKind::Draw })
                && card_states@[x].flags == no_flags && card_states@[x].damage_increase == 0,
    {
        let c = cards[i];
        card_states.push(
            CardState {
                def: c.def,
                owner: PlayerId(0),
                pile: PileId::player(PlayerId(0), PileKind::Draw),
                upgraded: c.upgraded,
                costs: c.costs,
                flags: no_flags,
                damage_increase: 0,
            },
        );
    }
    let k: usize = if (draw as usize) < n { draw as usize } else { n };
    let k: usize = if k < MAX_CARDS_IN_HAND { k } else { MAX_CARDS_IN_HAND };
    let mut hand: Vec<CardInstanceId> = Vec::new();
    for j in 0..k
        invariant
            n == cards@.len(),
            order@.len() == n,
            k <= n,
            n <= u32::MAX,
            forall|x: int| 0 <= x < order@.len() ==> order@[x] < n,
            card_states@.len() == n,
            hand@.len() == j,
            forall|x: int| 0 <= x < j ==> #[trigger] hand@[x] == CardInstanceId(order@[n - 1 - x]),
            forall|x: int| 0 <= x < n ==> (#[trigger] card_states@[x]).def == cards@[x].def
                && card_states@[x].upgraded == cards@[x].upgraded && card_states@[x].costs == cards@[x].costs
                && card_states@[x].owner == PlayerId(0) && card_states@[x].pile.owner == PlayerId(0)
                && card_states@[x].flags == no_flags && card_states@[x].damage_increase == 0
                && (card_states@[x].pile.kind == PileKind::Hand <==> hand@.contains(CardInstanceId(x as u32)))
                && (card_states@[x].pile.kind == PileKind::Hand || card_states@[x].pile.kind == PileKind::Draw),
    {
        let id = order[n - 1 - j];
        let ghost before = hand@;
        hand.push(CardInstanceId(id));
        card_states[id as usize].pile = PileId::player(PlayerId(0), PileKind::Hand);
        proof {
            assert(hand@ == before.push(CardInstanceId(id)));
            assert forall|x: int| 0 <= x < n implies (#[trigger] card_states@[x]).pile.kind == PileKind::Hand
                <==> hand@.contains(CardInstanceId(x as u32)) by {
                if x == id as int {
                    assert(hand@[j as int] == CardInstanceId(id));
                } else {
                    assert(x as u32 != id);
                    if hand@.contains(CardInstanceId(x as u32)) {
                        let y = choose|y: int| 0 <= y < hand@.len() && hand@[y] == CardInstanceId(x as u32);
                        assert(y < j);
                        assert(before[y] == CardInstanceId(x as u32));
                    }
                    if before.contains(CardInstanceId(x as u32)) {
                        let y = choose|y: int| 0 <= y < before.len() && before[y] == CardInstanceId(x as u32);
                        assert(hand@[y] == CardInstanceId(x as u32));
                    }
                }
            }
        }
    }
    let mut draw_pile: Vec<CardInstanceId> = Vec::new();
    let rest = n - k;
    for j in 0..rest
        invariant
            rest == n - k,
            order@.len() == n,
            k <= n,
            draw_pile@ == order@.take(j as int).map_values(|i: u32| CardInstanceId(i)),
    {
        draw_pile.push(CardInstanceId(order[j]));
        proof {
            assert(draw_pile@ =~= order@.take((j + 1) as int).map_values(|i: u32| CardInstanceId(i)));
        }
    }
    let player = PlayerState {
        id: PlayerId(0),
        creature: CreatureId(0),
        energy: max_energy,
        max_energy,
        stars: 0,
        piles: Piles { draw: draw_pile, hand, discard: Vec::new(), exhaust: Vec::new() },
    };
    let combat = CombatState {
        phase: CombatPhase::PlayerAction,
        player,
        creatures,
        cards: card_states,
        powers: Vec::new(),
        orbs: Vec::new(),
        turn_stats: TurnStats { cards_played: 0, attacks_played: 0, cards_exhausted: 0, hp_lost_by_player: 0, card_block_gains: 0 },
        combat_stats: CombatStats { hp_loss_events_by_player: 0 },
    };
    let r = GameState { run: RunState { seed }, combat: Some(combat) };
    r
}

/// A combat for tests: the deck in the order given, the first card on top of
/// the draw pile, and the opening hand drawn from the top.
pub fn single_player_test_combat(
    seed: u64,
    cards: Vec<CombatSetupCard>,
    monsters: Vec<CombatSetupMonster>,
    player_max_hp: i32,
    max_energy: i32,
    initial_draw_count: u8,
) -> (r: GameState)
    requires
        cards@.len() <= u32::MAX,
        monsters@.len() < u32::MAX,
    ensures
        set_up(r, seed, cards@, monsters@, player_max_hp, max_energy, initial_draw_count, deck_order(cards@.len())),
{
    let n = cards.len();
    let mut order: Vec<u32> = Vec::new();
    for i in 0..n
        invariant
            n == cards@.len(),
            n <= u32::MAX,
            order@ == Seq::new(i as nat, |x: int| (n - 1 - x) as u32),
    {
        order.push((n - 1 - i) as u32);
        proof {
            assert(order@ =~= Seq::new((i + 1) as nat, |x: int| (n - 1 - x) as u32));
        }
    }
    assemble(seed, &cards, &monsters, player_max_hp, max_energy, initial_draw_count, order)
}

/// A combat with the deck shuffled by the seed, and the opening hand drawn
/// from the top of the draw pile.
pub fn build_single_player_combat(
    seed: u64,
    cards: Vec<CombatSetupCard>,
    monsters: Vec<CombatSetupMonster>,
    player_max_hp: i32,
    max_energy: i32,
    initial_draw_count: u8,
) -> (r: GameState)
    requires
        cards@.len() <= u32::MAX,
        monsters@.len() < u32::MAX,
    ensures
        set_up(
            r,
            seed,
            cards@,
            monsters@,
            player_max_hp,
            max_energy,
            initial_draw_count,
            shuffled(deck_order(cards@.len()), RngSet::spec_seeded(seed).shuffle.state, cards@.len()),
        ),
{
    let n = cards.len();
    let mut order: Vec<u32> = Vec::new();
    for i in 0..n
        invariant
            n == cards@.len(),
            n <= u32::MAX,
            order@ == Seq::new(i as nat, |x: int| (n - 1 - x) as u32),
    {
        order.push((n - 1 - i) as u32);
        proof {
            assert(order@ =~= Seq::new((i + 1) as nat, |x: int| (n - 1 - x) as u32));
        }
    }
    let mut rng = RngSet::seeded(seed).shuffle;
    let ghost start = order@;
    let ghost start_state = rng.state;
    let mut i = n;
    while i > 1
        invariant
            n == cards@.len(),
            order@.len() == n,
            i <= n,
            forall|x: int| 0 <= x < n ==> order@[x] < n,
            shuffled(start, start_state, n as nat) == shuffled(order@, rng.state, i as nat),
        decreases i,
    {
        let ghost before = order@;
        let ghost before_state = rng.state;
        let x = rng.next_u64();
        let j = (x % (i as u64)) as usize;
        let a = order[i - 1];
        let b = order[j];
        order.set(i - 1, b);
        order.set(j, a);
        proof {
            assert(order@ == before.update(i - 1, b).update(j as int, a));
        }
        i = i - 1;
    }
    proof {
        assert(shuffled(order@, rng.state, i as nat) == order@);
    }
    assemble(seed, &cards, &monsters, player_max_hp, max_energy, initial_draw_count, order)
}


/// `a + b`, held to the range of `i32`.
pub open spec fn spec_sat_add(a: i32, b: i32) -> i32 {
    let s = a + b;
    if s > i32::MAX {
        i32::MAX
    } else if s < i32::MIN {
        i32::MIN
    } else {
        s as i32
    }
}

pub fn sat_add(a: i32, b: i32) -> (r: i32)
    ensures
        r == spec_sat_add(a, b),
{
    let s: i64 = a as i64 + b as i64;
    if s > 2147483647 {
        2147483647
    } else if s < -2147483648 {
        -2147483648
    } else {
        s as i32
    }
}

/// The index, in the combat's power list, of the first of the creature's
/// powers with the given definition.
pub open spec fn first_power_index(listed: Seq<PowerInstanceId>, powers: Seq<PowerInstance>, power: PowerId) -> Option<int>
    decreases listed.len(),
{
    if listed.len() == 0 {
        None
    } else {
        let id = listed[0];
        if 0 <= id.0 < powers.len() && powers[id.0 as int].def == power {
            Some(id.0 as int)
        } else {
            first_power_index(listed.drop_first(), powers, power)
        }
    }
}

fn find_power_index(listed: &Vec<PowerInstanceId>, powers: &Vec<PowerInstance>, power: PowerId) -> (r: Option<usize>)
    ensures
        match r {
            Some(i) => first_power_index(listed@, powers@, power) == Some(i as int) && i < powers@.len(),
            None => first_power_index(listed@, powers@, power) is None,
        },
{
    let n = listed.len();
    let mut k: usize = 0;
    proof {
        assert(listed@.skip(0) =~= listed@);
    }
    while k < n
        invariant
            n == listed@.len(),
            k <= n,
            first_power_index(listed@, powers@, power) == first_power_index(listed@.skip(k as int), powers@, power),
        decreases n - k,
    {
        let id = listed[k];
        let j = id.0 as usize;
        proof {
            assert(listed@.skip(k as int)[0] == id);
            assert(listed@.skip(k as int).drop_first() =~= listed@.skip(k + 1));
        }
        if j < powers.len() && powers[j].def == power {
            return Some(j);
        }
        k = k + 1;
    }
    proof {
        assert(listed@.skip(n as int).len() == 0);
    }
    None
}

impl GameState {
    /// Gives the creature `amount` of the power: added to its first instance
    /// of that power (saturating), or as a new instance at the end of the
    /// combat's power list.
    pub fn apply_power(&mut self, target: CreatureId, power: PowerId, amount: i32) -> (r: Result<(), StateError>)
        ensures
            old(self).combat is None ==> r == Err::<(), StateError>(StateError::NoCombat) && *final(self) == *old(self),
            old(self).combat is Some && target.0 >= old(self).combat->0.creatures@.len() ==> r == Err::<(), StateError>(
                StateError::NoSuchCreature,
            ) && *final(self) == *old(self),
            r is Ok ==> old(self).combat is Some && target.0 < old(self).combat->0.creatures@.len() && final(self).combat is Some,
            r is Ok ==> ({
                let before = old(self).combat->0;
                let after = final(self).combat->0;
                match first_power_index(before.creatures@[target.0 as int].powers@, before.powers@, power) {
                    Some(i) => after.powers@ == before.powers@.update(
                        i,
                        PowerInstance { amount: spec_sat_add(before.powers@[i].amount, amount), ..before.powers@[i] },
                    ) && after.creatures@ == before.creatures@,
                    None => after.powers@ == before.powers@.push(PowerInstance { def: power, owner: target, amount })
                        && after.creatures@.len() == before.creatures@.len()
                        && after.creatures@[target.0 as int].powers@ == before.creatures@[target.0 as int].powers@.push(
                            PowerInstanceId(before.powers@.len() as u32),
                        ),
                }
            }),
            final(self).run == old(self).run,
    {
        let combat = match &mut self.combat {
            Some(c) => c,
            None => return Err(StateError::NoCombat),
        };
        let t = target.0 as usize;
        if t >= combat.creatures.len() {
            return Err(StateError::NoSuchCreature);
        }
        match find_power_index(&combat.creatures[t].powers, &combat.powers, power) {
            Some(i) => {
                let inst = combat.powers[i];
                combat.powers.set(i, PowerInstance { amount: sat_add(inst.amount, amount), ..inst });
            },
            None => {
                let id = PowerInstanceId(combat.powers.len() as u32);
                combat.powers.push(PowerInstance { def: power, owner: target, amount });
                combat.creatures[t].powers.push(id);
            },
        }
        Ok(())
    }

    /// Marks the creature dead, at 0 HP.
    pub fn mark_dead(&mut self, creature: CreatureId) -> (r: Result<(), StateError>)
        ensures
            old(self).combat is None ==> r == Err::<(), StateError>(StateError::NoCombat),
            old(self).combat is Some && creature.0 >= old(self).combat->0.creatures@.len() ==> r == Err::<(), StateError>(
                StateError::NoSuchCreature,
            ),
            r is Err ==> *final(self) == *old(self),
            r is Ok ==> old(self).combat is Some && creature.0 < old(self).combat->0.creatures@.len() && ({
                let before = old(self).combat->0;
                let after = final(self).combat->0;
                &&& final(self).combat is Some
                &&& after.creatures@.len() == before.creatures@.len()
                &&& !after.creatures@[creature.0 as int].alive
                &&& after.creatures@[creature.0 as int].hp == 0
                &&& after.creatures@[creature.0 as int].id == before.creatures@[creature.0 as int].id
                &&& after.creatures@[creature.0 as int].side == before.creatures@[creature.0 as int].side
                &&& after.creatures@[creature.0 as int].model == before.creatures@[creature.0 as int].model
                &&& after.creatures@[creature.0 as int].max_hp == before.creatures@[creature.0 as int].max_hp
                &&& forall|i: int| 0 <= i < after.creatures@.len() && i != creature.0 ==> after.creatures@[i] == before.creatures@[i]
                &&& after.powers@ == before.powers@
                &&& after.cards@ == before.cards@
            }),
            final(self).run == old(self).run,
    {
        let combat = match &mut self.combat {
            Some(c) => c,
            None => return Err(StateError::NoCombat),
        };
        let i = creature.0 as usize;
        if i >= combat.creatures.len() {
            return Err(StateError::NoSuchCreature);
        }
        combat.creatures[i].alive = false;
        combat.creatures[i].hp = 0;
        Ok(())
    }

    /// Adds to one of the card instance's counters (saturating).
    pub fn add_card_counter(&mut self, card: CardInstanceId, counter: CardCounter, amount: i32) -> (r: Result<(), StateError>)
        ensures
            old(self).combat is None ==> r == Err::<(), StateError>(StateError::NoCombat),
            old(self).combat is Some && card.0 >= old(self).combat->0.cards@.len() ==> r == Err::<(), StateError>(
                StateError::NoSuchCard,
            ),
            r is Err ==> *final(self) == *old(self),
            r is Ok ==> old(self).combat is Some && card.0 < old(self).combat->0.cards@.len() && final(self).combat is Some
                && final(self).combat->0.cards@ == old(self).combat->0.cards@.update(
                    card.0 as int,
                    CardState {
                        damage_increase: spec_sat_add(old(self).combat->0.cards@[card.0 as int].damage_increase, amount),
                        ..old(self).combat->0.cards@[card.0 as int]
                    },
                ),
            final(self).run == old(self).run,
    {
        let combat = match &mut self.combat {
            Some(c) => c,
            None => return Err(StateError::NoCombat),
        };
        let i = card.0 as usize;
        if i >= combat.cards.len() {
            return Err(StateError::NoSuchCard);
        }
        let c = combat.cards[i];
        let updated = match counter {
            CardCounter::DamageIncrease => CardState { damage_increase: sat_add(c.damage_increase, amount), ..c },
        };
        combat.cards.set(i, updated);
        Ok(())
    }

    /// Replaces the card instance's flags.
    pub fn set_card_flags(&mut self, card: CardInstanceId, flags: CardFlags) -> (r: Result<(), StateError>)
        ensures
            old(self).combat is None ==> r == Err::<(), StateError>(StateError::NoCombat),
            old(self).combat is Some && card.0 >= old(self).combat->0.cards@.len() ==> r == Err::<(), StateError>(
                StateError::NoSuchCard,
            ),
            r is Err ==> *final(self) == *old(self),
            r is Ok ==> old(self).combat is Some && card.0 < old(self).combat->0.cards@.len() && final(self).combat is Some
                && final(self).combat->0.cards@ == old(self).combat->0.cards@.update(
                    card.0 as int,
                    CardState { flags, ..old(self).combat->0.cards@[card.0 as int] },
                ),
            final(self).run == old(self).run,
    {
        let combat = match &mut self.combat {
            Some(c) => c,
            None => return Err(StateError::NoCombat),
        };
        let i = card.0 as usize;
        if i >= combat.cards.len() {
            return Err(StateError::NoSuchCard);
        }
        let c = combat.cards[i];
        combat.cards.set(i, CardState { flags, ..c });
        Ok(())
    }
}

} // verus!
