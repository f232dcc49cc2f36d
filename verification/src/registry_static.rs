//! The registry of every definition the game knows.
use vstd::prelude::*;

use crate::content::cards::curses::curse_table;
use crate::content::cards::ironclad::{giant_rock_spec, ironclad_table};
use crate::content::cards::tokens::token_table;
use crate::content::cards::{catalogue_ids, register_all_cards, stores_lines, CardDef};
use crate::content::monsters::{nibbit, no_monster_rules, MonsterBehavior};
use crate::content::orbs::{core_orb_actions, core_orb_key, register_core_orbs, OrbRules};
use crate::content::powers::{core_power_key, core_power_rules, register_core_powers};
use crate::ids::NIBBIT;
use crate::content::monsters::MonsterDef;
use crate::content::orbs::OrbDef;
use crate::content::powers::PowerDef;
use crate::ids::{CardId, MonsterId, OrbId, PowerId};
use crate::registry::{DefRegistry, Definition, RegistryKey};

verus! {

impl RegistryKey for CardId {
    fn same(&self, other: &Self) -> (r: bool) {
        *self == *other
    }
}

impl Definition<CardId> for CardDef {
    open spec fn spec_key(&self) -> CardId {
        self.id
    }

    fn key(&self) -> (r: CardId) {
        self.id
    }
}

impl RegistryKey for PowerId {
    fn same(&self, other: &Self) -> (r: bool) {
        *self == *other
    }
}

impl Definition<PowerId> for PowerDef {
    open spec fn spec_key(&self) -> PowerId {
        self.id
    }

    fn key(&self) -> (r: PowerId) {
        self.id
    }
}

impl RegistryKey for MonsterId {
    fn same(&self, other: &Self) -> (r: bool) {
        *self == *other
    }
}

impl Definition<MonsterId> for MonsterDef {
    open spec fn spec_key(&self) -> MonsterId {
        self.id
    }

    fn key(&self) -> (r: MonsterId) {
        self.id
    }
}

impl RegistryKey for OrbId {
    fn same(&self, other: &Self) -> (r: bool) {
        *self == *other
    }
}

impl Definition<OrbId> for OrbDef {
    open spec fn spec_key(&self) -> OrbId {
        self.id
    }

    fn key(&self) -> (r: OrbId) {
        self.id
    }
}

/// All definitions, one registry per kind.
pub struct StaticRegistry {
    pub cards: DefRegistry<CardId, CardDef>,
    pub powers: DefRegistry<PowerId, PowerDef>,
    pub monsters: DefRegistry<MonsterId, MonsterDef>,
    pub orbs: DefRegistry<OrbId, OrbDef>,
}

impl StaticRegistry {
    pub fn empty() -> (r: StaticRegistry)
        ensures
            r.cards@ == Map::<CardId, CardDef>::empty(),
            r.cards.spec_keys().len() == 0,
            r.powers@ == Map::<PowerId, PowerDef>::empty(),
            r.monsters@ == Map::<MonsterId, MonsterDef>::empty(),
            r.orbs@ == Map::<OrbId, OrbDef>::empty(),
    {
        StaticRegistry {
            cards: DefRegistry::empty(),
            powers: DefRegistry::empty(),
            monsters: DefRegistry::empty(),
            orbs: DefRegistry::empty(),
        }
    }
}


/// The registry's cards are exactly the catalogue's: each registered id is a
/// line of the Ironclad, Curse or Token catalogue, or Giant Rock, and each
/// line's definition is the one stored under its id.
pub open spec fn holds_catalogue(registry: &StaticRegistry) -> bool {
    &&& forall|k: CardId| #[trigger] registry.cards@.contains_key(k) ==> (k == CardId::GiantRock
        || (exists|i: int| 0 <= i < ironclad_table().len() && ironclad_table()[i].id == k)
        || (exists|i: int| 0 <= i < curse_table().len() && curse_table()[i].id == k)
        || (exists|i: int| 0 <= i < token_table().len() && token_table()[i].id == k))
    &&& registry.cards@.contains_key(CardId::GiantRock)
    &&& stores_lines(registry.cards@, ironclad_table())
    &&& stores_lines(registry.cards@, curse_table())
    &&& stores_lines(registry.cards@, token_table())
    &&& giant_rock_spec().describes(registry.cards@[CardId::GiantRock])
}

impl StaticRegistry {
    /// Every definition of the catalogue: the card pools, the core powers,
    /// Nibbit and the core orbs.
    pub fn standard() -> (r: StaticRegistry)
        ensures
            forall|k: CardId| #[trigger] r.cards@.contains_key(k) <==> (k == CardId::GiantRock
                || (exists|i: int| 0 <= i < ironclad_table().len() && ironclad_table()[i].id == k)
                || (exists|i: int| 0 <= i < curse_table().len() && curse_table()[i].id == k)
                || (exists|i: int| 0 <= i < token_table().len() && token_table()[i].id == k)),
            stores_lines(r.cards@, ironclad_table()),
            stores_lines(r.cards@, curse_table()),
            stores_lines(r.cards@, token_table()),
            giant_rock_spec().describes(r.cards@[CardId::GiantRock]),
            r.cards.spec_keys() == catalogue_ids(),
            holds_catalogue(&r),
            forall|k: PowerId| #[trigger] r.powers@.contains_key(k) <==> core_power_rules(k) is Some,
            forall|k: PowerId| core_power_rules(k) is Some ==> Some(#[trigger] r.powers@[k].rules) == core_power_rules(k)
                && r.powers@[k].id == k && r.powers@[k].loc_key.key == core_power_key(k),
            forall|k: MonsterId| #[trigger] r.monsters@.contains_key(k) <==> k == NIBBIT,
            r.monsters@[NIBBIT].id == NIBBIT,
            r.monsters@[NIBBIT].max_hp == 42,
            r.monsters@[NIBBIT].loc_key.key == "monster.nibbit",
            r.monsters@[NIBBIT].behavior == MonsterBehavior::Nibbit,
            r.monsters@[NIBBIT].rules == no_monster_rules(),
            forall|k: OrbId| #[trigger] r.orbs@.contains_key(k) <==> core_orb_actions(k) is Some,
            forall|k: OrbId| core_orb_actions(k) is Some ==> core_orb_actions(k) == Some((#[trigger] r.orbs@[k].passive, r.orbs@[k].evoke))
                && r.orbs@[k].id == k && r.orbs@[k].loc_key.key == core_orb_key(k) && r.orbs@[k].rules == (OrbRules {}),
    {
        let mut r = StaticRegistry::empty();
        let ghost keys = r.cards.spec_keys();
        register_all_cards(&mut r.cards);
        proof {
            assert(keys + catalogue_ids() =~= catalogue_ids());
        }
        register_core_powers(&mut r.powers);
        r.monsters.register(nibbit());
        register_core_orbs(&mut r.orbs);
        r
    }
}

} // verus!
