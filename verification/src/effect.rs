//! What rules ask the combat to do, and the events they react to.
use vstd::prelude::*;

use crate::amount::Amount;
use crate::content::cards::CardType;
use crate::ids::{CardId, CardInstanceId, CreatureId, PlayerId, PowerId, PowerInstanceId};
use crate::state::{PileId, ResourceKind, Side};

verus! {

/// Where a change comes from.
#[derive(Clone, Copy, Debug, PartialEq, Eq, Structural)]
pub enum Source {
    Card(CardInstanceId),
    Creature(CreatureId),
    Power(PowerInstanceId),
    System,
}

#[derive(Clone, Copy, Debug, PartialEq, Eq, Structural)]
pub enum DamageKind {
    Attack,
    Power,
    Thorns,
    LifeLoss,
}

#[derive(Clone, Copy, Debug, PartialEq, Eq, Structural)]
pub struct DamageFlags {
    pub ignores_block: bool,
}

/// Damage to one creature.
#[derive(Clone, Copy, Debug, PartialEq, Eq, Structural)]
pub struct DamageOp {
    pub source: Option<Source>,
    pub dealer: Option<CreatureId>,
    pub target: CreatureId,
    pub base_amount: Amount,
    pub kind: DamageKind,
    pub flags: DamageFlags,
}

/// Damage to every living enemy, `hit_count` times.
#[derive(Clone, Copy, Debug, PartialEq, Eq, Structural)]
pub struct DamageAllEnemiesOp {
    pub source: Option<Source>,
    pub dealer: Option<CreatureId>,
    pub base_amount: Amount,
    pub kind: DamageKind,
    pub flags: DamageFlags,
    pub hit_count: u8,
}

/// Damage to a random living enemy, `hit_count` times.
#[derive(Clone, Copy, Debug, PartialEq, Eq, Structural)]
pub struct RandomDamageOp {
    pub source: Option<Source>,
    pub dealer: Option<CreatureId>,
    pub base_amount: Amount,
    pub kind: DamageKind,
    pub flags: DamageFlags,
    pub hit_count: u8,
}

/// Which cards of a hand an effect concerns.
#[derive(Clone, Copy, Debug, PartialEq, Eq, Structural)]
pub enum CardFilter {
    Any,
    Attack,
    NonAttack,
}

#[derive(Clone, Copy, Debug, PartialEq, Eq, Structural)]
pub enum MoveReason {
    Generated,
    Played,
    Drawn,
    Discarded,
    Exhausted,
}

#[derive(Clone, Copy, Debug, PartialEq, Eq, Structural)]
pub enum UpgradeMode {
    First,
    All,
}

/// When an orb acts on its own.
#[derive(Clone, Copy, Debug, PartialEq, Eq, Structural)]
pub enum OrbTrigger {
    AfterTurnStart,
    BeforeTurnEnd,
}

/// One change a rule asks for.
#[derive(Clone, Copy, Debug, PartialEq, Eq, Structural)]
pub enum Effect {
    DealDamage(DamageOp),
    DealDamageToAllEnemies(DamageAllEnemiesOp),
    DealDamageToRandomEnemy(RandomDamageOp),
    GainBlock { target: CreatureId, amount: Amount, source: Option<Source> },
    LoseHp { target: CreatureId, amount: Amount, source: Option<Source> },
    Heal { target: CreatureId, amount: Amount, source: Option<Source> },
    GainMaxHp { target: CreatureId, amount: i32, source: Option<Source> },
    ApplyPower { target: CreatureId, power: PowerId, amount: Amount, source: Option<Source> },
    RemovePower { power: PowerInstanceId },
    DrawCards { player: PlayerId, count: u8 },
    DrawUntilNonAttack { player: PlayerId },
    GainResource { player: PlayerId, resource: ResourceKind, amount: i32 },
    AddGeneratedCard {
        player: PlayerId,
        def: CardId,
        to: PileId,
        upgraded: bool,
        temporary: bool,
        zero_cost_this_turn: bool,
    },
    GenerateRandomCardToHand {
        player: PlayerId,
        card_type: Option<CardType>,
        target: Option<CreatureId>,
        zero_cost_this_turn: bool,
    },
    UpgradeHand { player: PlayerId, mode: UpgradeMode },
    UpgradeCard { card: CardInstanceId },
    ExhaustRandomHand { player: PlayerId, filter: CardFilter },
    ExhaustHand { player: PlayerId, filter: CardFilter },
    ExhaustCard { card: CardInstanceId },
    ExhaustTopDraw { player: PlayerId, count: u8 },
    PlayTopDrawCards { player: PlayerId, count: u8, exhaust_after_play: bool },
    MoveCard { card: CardInstanceId, to: PileId, reason: MoveReason },
    ExecuteCardBody { player: PlayerId, card: CardInstanceId, target: Option<CreatureId> },
}

#[derive(Clone, Copy, Debug, PartialEq, Eq, Structural)]
pub struct CardExhausted {
    pub player: PlayerId,
    pub card: CardInstanceId,
}

#[derive(Clone, Copy, Debug, PartialEq, Eq, Structural)]
pub struct DamageResult {
    pub dealer: Option<CreatureId>,
    pub target: CreatureId,
    pub hp_loss: i32,
}

#[derive(Clone, Copy, Debug, PartialEq, Eq, Structural)]
pub struct CardDrawn {
    pub player: PlayerId,
    pub card: CardInstanceId,
    pub from_hand_draw: bool,
}

#[derive(Clone, Copy, Debug, PartialEq, Eq, Structural)]
pub struct HpChange {
    pub creature: CreatureId,
    pub before: i32,
    pub after: i32,
}

#[derive(Clone, Copy, Debug, PartialEq, Eq, Structural)]
pub struct BlockGain {
    pub target: CreatureId,
    pub amount: i32,
}

#[derive(Clone, Copy, Debug, PartialEq, Eq, Structural)]
pub struct CardPlayed {
    pub player: PlayerId,
    pub card: CardInstanceId,
    pub target: Option<CreatureId>,
}

#[derive(Clone, Copy, Debug, PartialEq, Eq, Structural)]
pub struct PowerApplied {
    pub target: CreatureId,
    pub power: PowerId,
    pub amount: i32,
}

/// Something that happened in the combat.
#[derive(Clone, Copy, Debug, PartialEq, Eq, Structural)]
pub enum Event {
    TurnStarted { side: Side },
    TurnEnded { side: Side },
    CardExhausted(CardExhausted),
    DamageDealt(DamageResult),
    CardDrawn(CardDrawn),
    CreatureHpChanged(HpChange),
    BlockGained(BlockGain),
    CardPlayed(CardPlayed),
    PowerApplied(PowerApplied),
}

} // verus!
