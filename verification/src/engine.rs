//! A combat together with the definitions its rules are read from.
use vstd::prelude::*;

use crate::ids::{CardInstanceId, CreatureId, PlayerId};
use crate::registry_static::StaticRegistry;
use crate::state::{GameState, Side};

verus! {

/// The state of a game and the registry of the definitions it uses.
pub struct Engine<'a> {
    pub state: GameState,
    pub registry: &'a StaticRegistry,
}

impl<'a> Engine<'a> {
    pub fn with_registry(state: GameState, registry: &'a StaticRegistry) -> (r: Engine<'a>)
        ensures
            r.state == state,
            r.registry == registry,
    {
        Engine { state, registry }
    }
}

/// What a player asks the combat to do.
#[derive(Clone, Copy, Debug, PartialEq, Eq, Structural)]
pub enum Command {
    PlayCard { player: PlayerId, card: CardInstanceId, target: Option<CreatureId> },
    EndTurn { side: Side },
}

} // verus!
