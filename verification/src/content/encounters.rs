//! Encounter definitions: which monsters a fight brings.
use vstd::prelude::*;

use crate::ids::{LocKey, MonsterId};

verus! {

/// Some monsters of one kind.
#[derive(Clone, Copy, Debug, PartialEq, Eq, Structural)]
pub struct MonsterSlot {
    pub monster: MonsterId,
    pub count: u8,
}

/// One encounter.
#[derive(Clone, Debug)]
pub struct EncounterDef {
    pub id: &'static str,
    pub loc_key: LocKey,
    pub monsters: Vec<MonsterSlot>,
}

impl EncounterDef {
    /// How many monsters the encounter brings in all.
    pub open spec fn spec_monster_count(&self) -> int {
        slot_total(self.monsters@)
    }

    pub fn monster_count(&self) -> (r: u32)
        requires
            self.monsters@.len() <= 0x100_0000,
        ensures
            r == self.spec_monster_count(),
    {
        let n = self.monsters.len();
        let mut total: u32 = 0;
        for i in 0..n
            invariant
                n == self.monsters@.len(),
                n <= 0x100_0000,
                total == slot_total(self.monsters@.take(i as int)),
                total <= 255 * i,
        {
            proof {
                assert(self.monsters@.take((i + 1) as int).drop_last() =~= self.monsters@.take(i as int));
            }
            total = total + self.monsters[i].count as u32;
        }
        proof {
            assert(self.monsters@.take(n as int) =~= self.monsters@);
        }
        total
    }
}

/// The monsters of the slots, counted.
pub open spec fn slot_total(slots: Seq<MonsterSlot>) -> int
    decreases slots.len(),
{
    if slots.len() == 0 {
        0
    } else {
        slot_total(slots.drop_last()) + slots.last().count
    }
}

} // verus!
