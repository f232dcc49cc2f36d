//! Potion definitions.
use vstd::prelude::*;

use crate::content::powers::{BlockModifier, CostModifier, DamageModifier, PowerDecideRule, PowerEventRule, ResultPileModifier};
use crate::ids::{LocKey, PotionId};

verus! {

/// What a potion may be used on.
#[derive(Clone, Copy, Debug, PartialEq, Eq, Structural)]
pub enum PotionTarget {
    Untargeted,
    Enemy,
    AnyCreature,
}

/// The rules a potion carries while held, of the same kinds a power may carry.
#[derive(Clone, Copy, Debug, PartialEq, Eq, Structural)]
pub struct PotionRules {
    pub on_event: Option<PowerEventRule>,
    pub modify_damage_additive: Option<DamageModifier>,
    pub modify_damage_multiplicative: Option<DamageModifier>,
    pub modify_damage_cap: Option<DamageModifier>,
    pub modify_block_additive: Option<BlockModifier>,
    pub modify_block_multiplicative: Option<BlockModifier>,
    pub modify_resource_cost: Option<CostModifier>,
    pub modify_card_play_result_pile: Option<ResultPileModifier>,
    pub decide: Option<PowerDecideRule>,
}

/// One potion definition.
#[derive(Clone, Copy, Debug)]
pub struct PotionDef {
    pub id: PotionId,
    pub loc_key: LocKey,
    pub target: PotionTarget,
    pub rules: PotionRules,
}

impl PotionDef {
    /// The potion needs a creature chosen to be used.
    pub fn needs_target(&self) -> (r: bool)
        ensures
            r == (self.target != PotionTarget::Untargeted),
    {
        match self.target {
            PotionTarget::Untargeted => false,
            _ => true,
        }
    }
}

} // verus!
