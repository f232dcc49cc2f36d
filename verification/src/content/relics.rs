//! Relic definitions.
use vstd::prelude::*;

use crate::content::powers::{BlockModifier, CostModifier, DamageModifier, PowerDecideRule, PowerEventRule, ResultPileModifier};
use crate::ids::{LocKey, RelicId};

verus! {

/// The rules a relic carries, of the same kinds a power may carry.
#[derive(Clone, Copy, Debug, PartialEq, Eq, Structural)]
pub struct RelicRules {
    pub on_event: Option<PowerEventRule>,
    pub modify_damage_additive: Option<DamageModifier>,
    pub modify_damage_multiplicative: Option<DamageModifier>,
    pub modify_damage_cap: Option<DamageModifier>,
    pub modify_block_additive: Option<BlockModifier>,
    pub modify_block_multiplicative: Option<BlockModifier>,
    pub modify_resource_cost: Option<CostModifier>,
    pub modify_card_play_result_pile: Option<ResultPileModifier>,
    pub decide: Option<PowerDecideRule>,
}

/// One relic definition.
#[derive(Clone, Copy, Debug)]
pub struct RelicDef {
    pub id: RelicId,
    pub loc_key: LocKey,
    pub rules: RelicRules,
}

impl RelicDef {
    /// The relic reacts to events.
    pub fn reacts_to_events(&self) -> (r: bool)
        ensures
            r == self.rules.on_event is Some,
    {
        self.rules.on_event.is_some()
    }
}

} // verus!
