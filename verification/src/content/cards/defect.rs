//! The Defect pool.
use vstd::prelude::*;

use super::CardDef;
use crate::ids::CardId;
use crate::registry::DefRegistry;

verus! {

/// Registers the Defect pool. This catalogue holds no Defect card, so the
/// registry is left as it was.
pub fn register_defect_cards(registry: &mut DefRegistry<CardId, CardDef>)
    ensures
        *final(registry) == *old(registry),
{
}

} // verus!
