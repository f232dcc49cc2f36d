//! The state of one combat, as the content rules read it.
use vstd::prelude::*;

use crate::amount::Amount;
use crate::ids::{CardId, CardInstanceId, CreatureId, MonsterId, OrbId, OrbInstanceId, PlayerId, PowerId, PowerInstanceId};

verus! {

/// Hand size cap.
pub const MAX_CARDS_IN_HAND: usize = 10;

/// Cards drawn at the start of a player turn.
pub const BASE_HAND_DRAW_COUNT: u8 = 5;

#[derive(Clone, Copy, Debug, PartialEq, Eq, Structural)]
pub enum Side {
    Player,
    Monsters,
}

#[derive(Clone, Copy, Debug, PartialEq, Eq, Structural)]
pub enum PileKind {
    Draw,
    Hand,
    Discard,
    Exhaust,
}

/// One pile of one player.
#[derive(Clone, Copy, Debug, PartialEq, Eq, Structural)]
pub struct PileId {
    pub owner: PlayerId,
    pub kind: PileKind,
}

impl PileId {
    pub fn player(owner: PlayerId, kind: PileKind) -> (r: PileId)
        ensures
            r == (PileId { owner, kind }),
    {
        PileId { owner, kind }
    }
}

/// Cost of a card in one resource.
#[derive(Clone, Copy, Debug, PartialEq, Eq, Structural)]
pub enum CardCost {
    NoCost,
    Fixed(i32),
    X,
    Unplayable,
}

/// Cost of a card in energy and in stars.
#[derive(Clone, Copy, Debug, PartialEq, Eq, Structural)]
pub struct CardCosts {
    pub energy: CardCost,
    pub stars: CardCost,
}

impl CardCosts {
    /// A fixed energy cost and no star cost.
    pub fn energy(amount: i32) -> (r: CardCosts)
        ensures
            r == (CardCosts { energy: CardCost::Fixed(amount), stars: CardCost::NoCost }),
    {
        CardCosts { energy: CardCost::Fixed(amount), stars: CardCost::NoCost }
    }

    /// An X energy cost and no star cost.
    pub fn x_energy() -> (r: CardCosts)
        ensures
            r == (CardCosts { energy: CardCost::X, stars: CardCost::NoCost }),
    {
        CardCosts { energy: CardCost::X, stars: CardCost::NoCost }
    }

    /// Unplayable in energy, no star cost.
    pub fn unplayable() -> (r: CardCosts)
        ensures
            r == (CardCosts { energy: CardCost::Unplayable, stars: CardCost::NoCost }),
    {
        CardCosts { energy: CardCost::Unplayable, stars: CardCost::NoCost }
    }
}

impl Default for CardCosts {
    fn default() -> (r: CardCosts)
        ensures
            r == (CardCosts { energy: CardCost::NoCost, stars: CardCost::NoCost }),
    {
        CardCosts { energy: CardCost::NoCost, stars: CardCost::NoCost }
    }
}

#[derive(Clone, Copy, Debug, PartialEq, Eq, Structural)]
pub enum ResourceKind {
    Energy,
    Stars,
}

#[derive(Clone, Copy, Debug, PartialEq, Eq, Structural)]
pub enum CombatPhase {
    CombatStart,
    PlayerStart,
    PlayerAction,
    PlayerEnd,
    EnemyAction,
    EnemyEnd,
    Victory,
    Defeat,
}

/// Per-instance marks that alter how a card behaves.
#[derive(Clone, Copy, Debug, PartialEq, Eq, Structural)]
pub struct CardFlags {
    pub ethereal: bool,
    pub temporary: bool,
    pub purge_on_use: bool,
    pub zero_cost_this_turn: bool,
}

/// Counters a card instance keeps during a combat.
#[derive(Clone, Copy, Debug, PartialEq, Eq, Structural)]
pub enum CardCounter {
    DamageIncrease,
}

/// One card of the current combat.
#[derive(Clone, Copy, Debug, PartialEq, Eq, Structural)]
pub struct CardState {
    pub def: CardId,
    pub owner: PlayerId,
    pub pile: PileId,
    pub upgraded: bool,
    pub costs: CardCosts,
    pub flags: CardFlags,
    pub damage_increase: i32,
}

impl CardState {
    pub fn counter(&self, counter: CardCounter) -> (r: i32)
        ensures
            r == self.damage_increase,
    {
        match counter {
            CardCounter::DamageIncrease => self.damage_increase,
        }
    }

    /// The costs that apply this turn: a card made free this turn costs 0
    /// energy where it had a fixed energy cost.
    pub open spec fn spec_costs_with_temporary(self, base: CardCosts) -> CardCosts {
        if self.flags.zero_cost_this_turn && base.energy is Fixed {
            CardCosts { energy: CardCost::Fixed(0), stars: base.stars }
        } else {
            base
        }
    }

    pub fn costs_with_temporary(&self, base: CardCosts) -> (r: CardCosts)
        ensures
            r == self.spec_costs_with_temporary(base),
    {
        if self.flags.zero_cost_this_turn {
            if let CardCost::Fixed(_) = base.energy {
                return CardCosts { energy: CardCost::Fixed(0), stars: base.stars };
            }
        }
        base
    }
}

/// One creature of the current combat.
#[derive(Clone, Debug)]
pub struct Creature {
    pub id: CreatureId,
    pub side: Side,
    pub hp: i32,
    pub max_hp: i32,
    pub block: i32,
    pub alive: bool,
    pub model: Option<MonsterId>,
    pub turns_taken: u32,
    pub powers: Vec<PowerInstanceId>,
}

/// One power applied to a creature.
#[derive(Clone, Copy, Debug, PartialEq, Eq, Structural)]
pub struct PowerInstance {
    pub def: PowerId,
    pub owner: CreatureId,
    pub amount: i32,
}

/// One orb channelled by a player.
#[derive(Clone, Copy, Debug, PartialEq, Eq, Structural)]
pub struct OrbInstance {
    pub def: OrbId,
    pub owner: PlayerId,
}

/// The four piles of a player, each in order from bottom to top.
#[derive(Clone, Debug)]
pub struct Piles {
    pub draw: Vec<CardInstanceId>,
    pub hand: Vec<CardInstanceId>,
    pub discard: Vec<CardInstanceId>,
    pub exhaust: Vec<CardInstanceId>,
}

impl Piles {
    pub open spec fn spec_pile(&self, kind: PileKind) -> Seq<CardInstanceId> {
        match kind {
            PileKind::Draw => self.draw@,
            PileKind::Hand => self.hand@,
            PileKind::Discard => self.discard@,
            PileKind::Exhaust => self.exhaust@,
        }
    }

    pub fn pile(&self, kind: PileKind) -> (r: &Vec<CardInstanceId>)
        ensures
            r@ == self.spec_pile(kind),
    {
        match kind {
            PileKind::Draw => &self.draw,
            PileKind::Hand => &self.hand,
            PileKind::Discard => &self.discard,
            PileKind::Exhaust => &self.exhaust,
        }
    }
}

#[derive(Clone, Debug)]
pub struct PlayerState {
    pub id: PlayerId,
    pub creature: CreatureId,
    pub energy: i32,
    pub max_energy: i32,
    pub stars: i32,
    pub piles: Piles,
}

/// Counts kept for the current turn.
#[derive(Clone, Copy, Debug, PartialEq, Eq, Structural)]
pub struct TurnStats {
    pub cards_played: u32,
    pub attacks_played: u32,
    pub cards_exhausted: u32,
    pub hp_lost_by_player: i32,
    pub card_block_gains: u32,
}

/// Counts kept for the whole combat.
#[derive(Clone, Copy, Debug, PartialEq, Eq, Structural)]
pub struct CombatStats {
    pub hp_loss_events_by_player: u32,
}

/// A combat in progress. A `CreatureId(i)` names `creatures[i]`, a
/// `CardInstanceId(i)` names `cards[i]`, a `PowerInstanceId(i)` names
/// `powers[i]` and an `OrbInstanceId(i)` names `orbs[i]`.
#[derive(Clone, Debug)]
pub struct CombatState {
    pub phase: CombatPhase,
    pub player: PlayerState,
    pub creatures: Vec<Creature>,
    pub cards: Vec<CardState>,
    pub powers: Vec<PowerInstance>,
    pub orbs: Vec<OrbInstance>,
    pub turn_stats: TurnStats,
    pub combat_stats: CombatStats,
}

impl CombatState {
    /// Ids of the monsters, alive or not, in creature order.
    pub open spec fn spec_monster_ids(&self) -> Seq<CreatureId> {
        self.creatures@.filter(|c: Creature| c.side == Side::Monsters).map_values(|c: Creature| c.id)
    }

    pub fn monster_ids(&self) -> (r: Vec<CreatureId>)
        ensures
            r@ == self.spec_monster_ids(),
    {
        let mut out: Vec<CreatureId> = Vec::new();
        let n = self.creatures.len();
        for i in 0..n
            invariant
                n == self.creatures@.len(),
                out@ == self.creatures@.take(i as int).filter(|c: Creature| c.side == Side::Monsters).map_values(
                    |c: Creature| c.id,
                ),
        {
            proof {
                reveal_with_fuel(Seq::filter, 1);
                assert(self.creatures@.take((i + 1) as int).drop_last() =~= self.creatures@.take(i as int));
            }
            if self.creatures[i].side == Side::Monsters {
                out.push(self.creatures[i].id);
            }
        }
        proof {
            assert(self.creatures@.take(n as int) =~= self.creatures@);
        }
        out
    }
}

/// State kept across the run.
#[derive(Clone, Copy, Debug)]
pub struct RunState {
    pub seed: u64,
}

/// The whole game state: the run and, while one is fought, a combat.
#[derive(Clone, Debug)]
pub struct GameState {
    pub run: RunState,
    pub combat: Option<CombatState>,
}

/// The value fits an `i32`.
pub open spec fn fits_i32(n: int) -> bool {
    i32::MIN <= n <= i32::MAX
}

/// First of a power's instances, among those listed for a creature, that
/// has the given definition.
pub open spec fn first_power_of(
    listed: Seq<PowerInstanceId>,
    powers: Seq<PowerInstance>,
    power: PowerId,
) -> Option<PowerInstance>
    decreases listed.len(),
{
    if listed.len() == 0 {
        None
    } else {
        let id = listed[0];
        if 0 <= id.0 < powers.len() && powers[id.0 as int].def == power {
            Some(powers[id.0 as int])
        } else {
            first_power_of(listed.drop_first(), powers, power)
        }
    }
}

impl GameState {
    pub fn combat(&self) -> (r: Option<&CombatState>)
        ensures
            r is Some <==> self.combat is Some,
            r is Some ==> *r->0 == self.combat->0,
    {
        self.combat.as_ref()
    }

    pub open spec fn spec_player_id(&self) -> Option<PlayerId> {
        match self.combat {
            Some(c) => Some(c.player.id),
            None => None,
        }
    }

    pub fn player_id(&self) -> (r: Option<PlayerId>)
        ensures
            r == self.spec_player_id(),
    {
        match &self.combat {
            Some(c) => Some(c.player.id),
            None => None,
        }
    }

    pub open spec fn spec_player_creature_id(&self) -> Option<CreatureId> {
        match self.combat {
            Some(c) => Some(c.player.creature),
            None => None,
        }
    }

    pub fn player_creature_id(&self) -> (r: Option<CreatureId>)
        ensures
            r == self.spec_player_creature_id(),
    {
        match &self.combat {
            Some(c) => Some(c.player.creature),
            None => None,
        }
    }

    pub open spec fn spec_card(&self, id: CardInstanceId) -> Option<CardState> {
        match self.combat {
            Some(c) => if id.0 < c.cards@.len() {
                Some(c.cards@[id.0 as int])
            } else {
                None
            },
            None => None,
        }
    }

    pub fn card(&self, id: CardInstanceId) -> (r: Option<&CardState>)
        ensures
            r is Some <==> self.spec_card(id) is Some,
            r is Some ==> *r->0 == self.spec_card(id)->0,
    {
        match &self.combat {
            Some(c) => {
                let i = id.0 as usize;
                if i < c.cards.len() {
                    Some(&c.cards[i])
                } else {
                    None
                }
            },
            None => None,
        }
    }

    pub open spec fn spec_creature(&self, id: CreatureId) -> Option<Creature> {
        match self.combat {
            Some(c) => if id.0 < c.creatures@.len() {
                Some(c.creatures@[id.0 as int])
            } else {
                None
            },
            None => None,
        }
    }

    pub fn creature(&self, id: CreatureId) -> (r: Option<&Creature>)
        ensures
            r is Some <==> self.spec_creature(id) is Some,
            r is Some ==> *r->0 == self.spec_creature(id)->0,
    {
        match &self.combat {
            Some(c) => {
                let i = id.0 as usize;
                if i < c.creatures.len() {
                    Some(&c.creatures[i])
                } else {
                    None
                }
            },
            None => None,
        }
    }

    /// The power instance named by `id`.
    pub open spec fn spec_power(&self, id: PowerInstanceId) -> Option<PowerInstance> {
        match self.combat {
            Some(c) => if id.0 < c.powers@.len() {
                Some(c.powers@[id.0 as int])
            } else {
                None
            },
            None => None,
        }
    }

    pub fn power(&self, id: PowerInstanceId) -> (r: Option<PowerInstance>)
        ensures
            r == self.spec_power(id),
    {
        match &self.combat {
            Some(c) => {
                let i = id.0 as usize;
                if i < c.powers.len() {
                    Some(c.powers[i])
                } else {
                    None
                }
            },
            None => None,
        }
    }

    /// The amount of the creature's power of the given definition, 0 without one.
    pub open spec fn spec_power_amount(&self, creature: CreatureId, power: PowerId) -> int {
        match (self.combat, self.spec_creature(creature)) {
            (Some(c), Some(cr)) => match first_power_of(cr.powers@, c.powers@, power) {
                Some(p) => p.amount as int,
                None => 0,
            },
            _ => 0,
        }
    }

    pub fn power_amount(&self, creature: CreatureId, power: PowerId) -> (r: i32)
        ensures
            r == self.spec_power_amount(creature, power),
    {
        match self.first_power(creature, power) {
            Some(p) => p.amount,
            None => 0,
        }
    }

    pub open spec fn spec_first_power(&self, creature: CreatureId, power: PowerId) -> Option<PowerInstance> {
        match (self.combat, self.spec_creature(creature)) {
            (Some(c), Some(cr)) => first_power_of(cr.powers@, c.powers@, power),
            _ => None,
        }
    }

    pub fn first_power(&self, creature: CreatureId, power: PowerId) -> (r: Option<PowerInstance>)
        ensures
            r == self.spec_first_power(creature, power),
    {
        let c = match &self.combat {
            Some(c) => c,
            None => return None,
        };
        let i = creature.0 as usize;
        if i >= c.creatures.len() {
            return None;
        }
        let listed = &c.creatures[i].powers;
        let n = listed.len();
        let mut k: usize = 0;
        proof {
            assert(listed@.skip(0) =~= listed@);
        }
        while k < n
            invariant
                n == listed@.len(),
                k <= n,
                self.combat == Some(*c),
                i < c.creatures@.len(),
                i == creature.0,
                listed@ == c.creatures@[i as int].powers@,
                first_power_of(listed@, c.powers@, power) == first_power_of(listed@.skip(k as int), c.powers@, power),
            decreases n - k,
        {
            let id = listed[k];
            let j = id.0 as usize;
            proof {
                assert(listed@.skip(k as int)[0] == id);
                assert(listed@.skip(k as int).drop_first() =~= listed@.skip(k + 1));
            }
            if j < c.powers.len() && c.powers[j].def == power {
                proof {
                    let rest = listed@.skip(k as int);
                    assert(rest.len() > 0);
                    assert(first_power_of(rest, c.powers@, power) == Some(c.powers@[j as int]));
                }
                return Some(c.powers[j]);
            }
            k = k + 1;
        }
        proof {
            assert(listed@.skip(n as int).len() == 0);
        }
        None
    }

    pub fn has_power(&self, creature: CreatureId, power: PowerId) -> (r: bool)
        ensures
            r == (self.spec_first_power(creature, power) is Some),
    {
        self.first_power(creature, power).is_some()
    }

    /// Ids of the monsters still alive, in creature order.
    pub open spec fn spec_alive_monster_ids(&self) -> Seq<CreatureId> {
        match self.combat {
            Some(c) => c.creatures@.filter(|cr: Creature| cr.side == Side::Monsters && cr.alive).map_values(
                |cr: Creature| cr.id,
            ),
            None => Seq::empty(),
        }
    }

    pub fn alive_monster_ids(&self) -> (r: Vec<CreatureId>)
        ensures
            r@ == self.spec_alive_monster_ids(),
    {
        let mut out: Vec<CreatureId> = Vec::new();
        let c = match &self.combat {
            Some(c) => c,
            None => return out,
        };
        let n = c.creatures.len();
        for i in 0..n
            invariant
                n == c.creatures@.len(),
                self.combat == Some(*c),
                out@ == c.creatures@.take(i as int).filter(
                    |cr: Creature| cr.side == Side::Monsters && cr.alive,
                ).map_values(|cr: Creature| cr.id),
        {
            proof {
                reveal_with_fuel(Seq::filter, 1);
                assert(c.creatures@.take((i + 1) as int).drop_last() =~= c.creatures@.take(i as int));
            }
            if c.creatures[i].side == Side::Monsters && c.creatures[i].alive {
                out.push(c.creatures[i].id);
            }
        }
        proof {
            assert(c.creatures@.take(n as int) =~= c.creatures@);
        }
        out
    }

    pub open spec fn spec_orb(&self, id: OrbInstanceId) -> Option<OrbInstance> {
        match self.combat {
            Some(c) => if id.0 < c.orbs@.len() {
                Some(c.orbs@[id.0 as int])
            } else {
                None
            },
            None => None,
        }
    }

    pub fn orb(&self, id: OrbInstanceId) -> (r: Option<OrbInstance>)
        ensures
            r == self.spec_orb(id),
    {
        match &self.combat {
            Some(c) => {
                let i = id.0 as usize;
                if i < c.orbs.len() {
                    Some(c.orbs[i])
                } else {
                    None
                }
            },
            None => None,
        }
    }

    /// The creature of the player who owns the orb.
    pub open spec fn spec_orb_owner_creature(&self, id: OrbInstanceId) -> Option<CreatureId> {
        match (self.spec_orb(id), self.combat) {
            (Some(o), Some(c)) => if o.owner == c.player.id {
                Some(c.player.creature)
            } else {
                None
            },
            _ => None,
        }
    }

    pub fn orb_owner_creature(&self, id: OrbInstanceId) -> (r: Option<CreatureId>)
        ensures
            r == self.spec_orb_owner_creature(id),
    {
        match (self.orb(id), &self.combat) {
            (Some(o), Some(c)) => if o.owner == c.player.id {
                Some(c.player.creature)
            } else {
                None
            },
            _ => None,
        }
    }
}

} // verus!
