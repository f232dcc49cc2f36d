//! The Silent pool.
use vstd::prelude::*;

use super::CardDef;
use crate::ids::CardId;
use crate::registry::DefRegistry;

verus! {

/// Registers the Silent pool, which has no cards yet: the registry is left
/// as it was.
pub fn register_silent_cards(_registry: &mut DefRegistry<CardId, CardDef>)
    ensures
        *final(_registry) == *old(_registry),
{
}

} // verus!
