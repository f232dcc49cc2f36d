//! What rules are handed when they run, and how they answer questions.
use vstd::prelude::*;

use crate::amount::Amount;
use crate::effect::{DamageKind, Source};
use crate::ids::{CardInstanceId, CreatureId, PlayerId, PowerInstanceId};
use crate::registry_static::StaticRegistry;
use crate::state::{GameState, PileId, ResourceKind};

verus! {

/// The object whose rule is being asked.
#[derive(Clone, Copy, Debug, PartialEq, Eq, Structural)]
pub enum Listener {
    Card(CardInstanceId),
    Power(PowerInstanceId),
    Creature(CreatureId),
}

/// Why something was prevented.
#[derive(Clone, Copy, Debug, PartialEq, Eq, Structural)]
pub enum PreventReason {
    CannotPlay,
    CannotDraw,
    Barricade,
    Enthralled,
    KeepsCreatureInCombat,
}

/// A rule's answer to a question.
#[derive(Clone, Copy, Debug, PartialEq, Eq, Structural)]
pub enum Decision {
    Allow,
    Prevent { by: Option<Listener>, reason: PreventReason },
}

impl Decision {
    pub fn is_allowed(&self) -> (r: bool)
        ensures
            r == (*self is Allow),
    {
        match self {
            Decision::Allow => true,
            Decision::Prevent { .. } => false,
        }
    }
}

/// The question asked.
#[derive(Clone, Copy, Debug, PartialEq, Eq, Structural)]
pub enum DecisionQueryKind {
    ShouldPlay { player: PlayerId, card: CardInstanceId },
    ShouldDraw { player: PlayerId },
    ShouldClearBlock { creature: CreatureId },
    ShouldRemoveCreatureAfterDeath { creature: CreatureId },
}

#[derive(Clone, Copy, Debug, PartialEq, Eq, Structural)]
pub struct DecisionQuery {
    pub kind: DecisionQueryKind,
}

/// Damage being worked out.
#[derive(Clone, Copy, Debug, PartialEq, Eq, Structural)]
pub struct DamageCalc {
    pub source: Option<Source>,
    pub dealer: Option<CreatureId>,
    pub target: CreatureId,
    pub kind: DamageKind,
    pub base_amount: Amount,
    pub amount: Amount,
}

/// Block being worked out.
#[derive(Clone, Copy, Debug, PartialEq, Eq, Structural)]
pub struct BlockCalc {
    pub source: Option<Source>,
    pub target: CreatureId,
    pub base_amount: Amount,
    pub amount: Amount,
}

/// The cost of a card in one resource, being worked out.
#[derive(Clone, Copy, Debug, PartialEq, Eq, Structural)]
pub struct ResourceCostCalc {
    pub player: PlayerId,
    pub card: CardInstanceId,
    pub resource: ResourceKind,
    pub base_cost: i32,
    pub cost: i32,
}

/// Where a played card goes, being worked out.
#[derive(Clone, Copy, Debug, PartialEq, Eq, Structural)]
pub struct CardPlayResultPileCalc {
    pub card: CardInstanceId,
    pub pile: PileId,
}

/// What a rule may read.
pub struct RuleCtx<'a> {
    pub state: &'a GameState,
    pub registry: &'a StaticRegistry,
    pub listener: Option<Listener>,
}

/// A refusal credited to the rule being asked.
pub fn prevent_by_current_listener(ctx: &RuleCtx<'_>, reason: PreventReason) -> (r: Decision)
    ensures
        r == (Decision::Prevent { by: ctx.listener, reason }),
{
    Decision::Prevent { by: ctx.listener, reason }
}

} // verus!
