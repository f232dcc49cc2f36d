//! The rule pipeline: runs the rules of every power in the combat over a
//! quantity being worked out, or over a question, in a fixed order.
use vstd::prelude::*;

use crate::content::cards::{card_decide, card_decision};
use crate::content::powers::{
    BlockModifier, CostModifier, DamageModifier, PowerRules, cost_modifier_result, damage_modifier_result,
    cruelty_amount_fits, modify_damage, modify_resource_cost, power_decide, power_decision, unmovable_block,
    unmovable_modify_block,
};
use crate::ids::{CardInstanceId, CreatureId, PowerInstanceId};
use crate::registry_static::StaticRegistry;
use crate::rules::{BlockCalc, DamageCalc, Decision, DecisionQuery, DecisionQueryKind, Listener, ResourceCostCalc, RuleCtx};
use crate::state::{GameState, PowerInstance};

verus! {

/// The stages a damage or block amount goes through, in order.
#[derive(Clone, Copy, Debug, PartialEq, Eq, Structural)]
pub enum ModifyPhase {
    Additive,
    Multiplicative,
    Cap,
}

/// The context a power's rule is run with.
pub open spec fn power_ctx<'a>(state: &'a GameState, registry: &'a StaticRegistry, i: int) -> RuleCtx<'a> {
    RuleCtx { state, registry, listener: Some(Listener::Power(PowerInstanceId(i as u32))) }
}

/// The power instances of the combat, in order.
pub open spec fn combat_powers(state: &GameState) -> Seq<PowerInstance> {
    match state.combat {
        Some(c) => c.powers@,
        None => Seq::empty(),
    }
}

/// The damage rules' `i32` arithmetic cannot overflow: every power instance
/// is named by its index as a `u32`, and every Cruelty instance leaves room
/// for the hundred it adds to its amount.
pub open spec fn damage_rules_fit(state: &GameState, registry: &StaticRegistry) -> bool {
    &&& combat_powers(state).len() <= 0x1_0000_0000
    &&& forall|i: int| 0 <= i < combat_powers(state).len() && #[trigger] registry.powers@.contains_key(combat_powers(state)[i].def)
        && has_cruelty(registry.powers@[combat_powers(state)[i].def].rules)
        ==> combat_powers(state)[i].amount <= i32::MAX - 100
}

/// One of the power's damage rules is Cruelty.
pub open spec fn has_cruelty(rules: PowerRules) -> bool {
    ||| rules.modify_damage_additive == Some(DamageModifier::Cruelty)
    ||| rules.modify_damage_multiplicative == Some(DamageModifier::Cruelty)
    ||| rules.modify_damage_cap == Some(DamageModifier::Cruelty)
}

/// Whether the damage rules have room for their arithmetic.
pub fn check_damage_rules_fit(state: &GameState, registry: &StaticRegistry) -> (r: bool)
    ensures
        r == damage_rules_fit(state, registry),
{
    let c = match state.combat() {
        Some(c) => c,
        None => return true,
    };
    let n = c.powers.len();
    if n as u64 > 0x1_0000_0000u64 {
        return false;
    }
    for i in 0..n
        invariant
            n == c.powers@.len(),
            state.combat == Some(*c),
            forall|k: int| 0 <= k < i && #[trigger] registry.powers@.contains_key(combat_powers(state)[k].def)
                && has_cruelty(registry.powers@[combat_powers(state)[k].def].rules)
                ==> combat_powers(state)[k].amount <= i32::MAX - 100,
    {
        let inst = c.powers[i];
        match registry.powers.get(inst.def) {
            Some(d) => {
                let cruel = matches!(d.rules.modify_damage_additive, Some(DamageModifier::Cruelty))
                    || matches!(d.rules.modify_damage_multiplicative, Some(DamageModifier::Cruelty))
                    || matches!(d.rules.modify_damage_cap, Some(DamageModifier::Cruelty));
                if cruel && inst.amount > i32::MAX - 100 {
                    proof {
                        assert(combat_powers(state)[i as int] == inst);
                        assert(registry.powers@.contains_key(combat_powers(state)[i as int].def));
                    }
                    return false;
                }
            },
            None => {},
        }
        proof {
            assert(combat_powers(state)[i as int] == inst);
        }
    }
    true
}

/// The damage rule a power has for the stage.
pub open spec fn damage_rule(rules: PowerRules, phase: ModifyPhase) -> Option<DamageModifier> {
    match phase {
        ModifyPhase::Additive => rules.modify_damage_additive,
        ModifyPhase::Multiplicative => rules.modify_damage_multiplicative,
        ModifyPhase::Cap => rules.modify_damage_cap,
    }
}

/// The damage after the rule of the `i`-th power instance for the stage.
pub open spec fn damage_step(state: &GameState, registry: &StaticRegistry, phase: ModifyPhase, i: int, calc: DamageCalc) -> Option<DamageCalc> {
    let inst = combat_powers(state)[i];
    if registry.powers@.contains_key(inst.def) {
        match damage_rule(registry.powers@[inst.def].rules, phase) {
            Some(m) => damage_modifier_result(&power_ctx(state, registry, i), m, PowerInstanceId(i as u32), calc),
            None => Some(calc),
        }
    } else {
        Some(calc)
    }
}

/// The damage after the rules of the first `n` power instances for the stage.
pub open spec fn damage_fold(state: &GameState, registry: &StaticRegistry, phase: ModifyPhase, n: nat, calc: DamageCalc) -> Option<DamageCalc>
    decreases n,
{
    if n == 0 {
        Some(calc)
    } else {
        match damage_fold(state, registry, phase, (n - 1) as nat, calc) {
            Some(c) => damage_step(state, registry, phase, n - 1, c),
            None => None,
        }
    }
}

/// The damage after every power's rules: additive ones first, then
/// multiplicative ones, then caps; `None` where a `Decimal` overflowed.
pub open spec fn pipeline_damage(state: &GameState, registry: &StaticRegistry, calc: DamageCalc) -> Option<DamageCalc> {
    let n = combat_powers(state).len();
    match damage_fold(state, registry, ModifyPhase::Additive, n, calc) {
        Some(a) => match damage_fold(state, registry, ModifyPhase::Multiplicative, n, a) {
            Some(m) => damage_fold(state, registry, ModifyPhase::Cap, n, m),
            None => None,
        },
        None => None,
    }
}

fn damage_phase(registry: &StaticRegistry, state: &GameState, phase: ModifyPhase, calc: DamageCalc) -> (r: Option<DamageCalc>)
    requires
        damage_rules_fit(state, registry),
        calc.amount.wf(),
    ensures
        r == damage_fold(state, registry, phase, combat_powers(state).len(), calc),
        r matches Some(c) ==> c.amount.wf(),
{
    let combat = match state.combat() {
        Some(c) => c,
        None => return Some(calc),
    };
    let n = combat.powers.len();
    let mut cur = calc;
    let mut i: usize = 0;
    while i < n
        invariant
            damage_rules_fit(state, registry),
            state.combat == Some(*combat),
            n == combat.powers@.len(),
            i <= n,
            cur.amount.wf(),
            damage_fold(state, registry, phase, i as nat, calc) == Some(cur),
        decreases n - i,
    {
        let inst = combat.powers[i];
        let rule = match registry.powers.get(inst.def) {
            Some(def) => match phase {
                ModifyPhase::Additive => def.rules.modify_damage_additive,
                ModifyPhase::Multiplicative => def.rules.modify_damage_multiplicative,
                ModifyPhase::Cap => def.rules.modify_damage_cap,
            },
            None => None,
        };
        let id = PowerInstanceId(i as u32);
        match rule {
            Some(m) => {
                let ctx = RuleCtx { state, registry, listener: Some(Listener::Power(id)) };
                proof {
                    assert(combat_powers(state)[i as int] == inst);
                    assert(registry.powers@.contains_key(inst.def));
                }
                match modify_damage(&ctx, m, id, cur) {
                    Some(c) => {
                        cur = c;
                    },
                    None => {
                        proof {
                            lemma_damage_fold_stays_none(state, registry, phase, (i + 1) as nat, n as nat, calc);
                        }
                        return None;
                    },
                }
            },
            None => {},
        }
        i = i + 1;
    }
    Some(cur)
}

/// Once a stage has overflowed it stays overflowed.
pub proof fn lemma_damage_fold_stays_none(state: &GameState, registry: &StaticRegistry, phase: ModifyPhase, k: nat, n: nat, calc: DamageCalc)
    requires
        k <= n,
        damage_fold(state, registry, phase, k, calc) is None,
    ensures
        damage_fold(state, registry, phase, n, calc) is None,
    decreases n - k,
{
    if k < n {
        lemma_damage_fold_stays_none(state, registry, phase, k + 1, n, calc);
    }
}

/// Runs every power's damage rules over the damage.
pub fn pipeline_modify_damage(registry: &StaticRegistry, state: &GameState, calc: DamageCalc) -> (r: Option<DamageCalc>)
    requires
        damage_rules_fit(state, registry),
        calc.amount.wf(),
    ensures
        r == pipeline_damage(state, registry, calc),
        r matches Some(c) ==> c.amount.wf(),
{
    let a = match damage_phase(registry, state, ModifyPhase::Additive, calc) {
        Some(a) => a,
        None => return None,
    };
    let m = match damage_phase(registry, state, ModifyPhase::Multiplicative, a) {
        Some(m) => m,
        None => return None,
    };
    damage_phase(registry, state, ModifyPhase::Cap, m)
}

/// The block rule a power has for the stage.
pub open spec fn block_rule(rules: PowerRules, phase: ModifyPhase) -> Option<BlockModifier> {
    match phase {
        ModifyPhase::Additive => rules.modify_block_additive,
        ModifyPhase::Multiplicative => rules.modify_block_multiplicative,
        ModifyPhase::Cap => None,
    }
}

pub open spec fn block_step(state: &GameState, registry: &StaticRegistry, phase: ModifyPhase, i: int, calc: BlockCalc) -> Option<BlockCalc> {
    let inst = combat_powers(state)[i];
    if registry.powers@.contains_key(inst.def) {
        match block_rule(registry.powers@[inst.def].rules, phase) {
            Some(BlockModifier::Unmovable) => unmovable_block(&power_ctx(state, registry, i), PowerInstanceId(i as u32), calc),
            None => Some(calc),
        }
    } else {
        Some(calc)
    }
}

pub open spec fn block_fold(state: &GameState, registry: &StaticRegistry, phase: ModifyPhase, n: nat, calc: BlockCalc) -> Option<BlockCalc>
    decreases n,
{
    if n == 0 {
        Some(calc)
    } else {
        match block_fold(state, registry, phase, (n - 1) as nat, calc) {
            Some(c) => block_step(state, registry, phase, n - 1, c),
            None => None,
        }
    }
}

/// The block after every power's rules: additive ones, then multiplicative ones.
pub open spec fn pipeline_block(state: &GameState, registry: &StaticRegistry, calc: BlockCalc) -> Option<BlockCalc> {
    let n = combat_powers(state).len();
    match block_fold(state, registry, ModifyPhase::Additive, n, calc) {
        Some(a) => block_fold(state, registry, ModifyPhase::Multiplicative, n, a),
        None => None,
    }
}

pub proof fn lemma_block_fold_stays_none(state: &GameState, registry: &StaticRegistry, phase: ModifyPhase, k: nat, n: nat, calc: BlockCalc)
    requires
        k <= n,
        block_fold(state, registry, phase, k, calc) is None,
    ensures
        block_fold(state, registry, phase, n, calc) is None,
    decreases n - k,
{
    if k < n {
        lemma_block_fold_stays_none(state, registry, phase, k + 1, n, calc);
    }
}

fn block_phase(registry: &StaticRegistry, state: &GameState, phase: ModifyPhase, calc: BlockCalc) -> (r: Option<BlockCalc>)
    requires
        calc.amount.wf(),
    ensures
        r == block_fold(state, registry, phase, combat_powers(state).len(), calc),
        r matches Some(c) ==> c.amount.wf(),
{
    let combat = match state.combat() {
        Some(c) => c,
        None => return Some(calc),
    };
    let n = combat.powers.len();
    let mut cur = calc;
    let mut i: usize = 0;
    while i < n
        invariant
            state.combat == Some(*combat),
            n == combat.powers@.len(),
            i <= n,
            cur.amount.wf(),
            block_fold(state, registry, phase, i as nat, calc) == Some(cur),
        decreases n - i,
    {
        let inst = combat.powers[i];
        let rule = match registry.powers.get(inst.def) {
            Some(def) => match phase {
                ModifyPhase::Additive => def.rules.modify_block_additive,
                ModifyPhase::Multiplicative => def.rules.modify_block_multiplicative,
                ModifyPhase::Cap => None,
            },
            None => None,
        };
        let id = PowerInstanceId(i as u32);
        match rule {
            Some(BlockModifier::Unmovable) => {
                let ctx = RuleCtx { state, registry, listener: Some(Listener::Power(id)) };
                match unmovable_modify_block(&ctx, id, cur) {
                    Some(c) => {
                        cur = c;
                    },
                    None => {
                        proof {
                            lemma_block_fold_stays_none(state, registry, phase, (i + 1) as nat, n as nat, calc);
                        }
                        return None;
                    },
                }
            },
            None => {},
        }
        i = i + 1;
    }
    Some(cur)
}

/// Runs every power's block rules over the block.
pub fn pipeline_modify_block(registry: &StaticRegistry, state: &GameState, calc: BlockCalc) -> (r: Option<BlockCalc>)
    requires
        calc.amount.wf(),
    ensures
        r == pipeline_block(state, registry, calc),
        r matches Some(c) ==> c.amount.wf(),
{
    let a = match block_phase(registry, state, ModifyPhase::Additive, calc) {
        Some(a) => a,
        None => return None,
    };
    block_phase(registry, state, ModifyPhase::Multiplicative, a)
}

pub open spec fn cost_step(state: &GameState, registry: &StaticRegistry, i: int, calc: ResourceCostCalc) -> ResourceCostCalc {
    let inst = combat_powers(state)[i];
    if registry.powers@.contains_key(inst.def) {
        match registry.powers@[inst.def].rules.modify_resource_cost {
            Some(m) => cost_modifier_result(&power_ctx(state, registry, i), m, calc),
            None => calc,
        }
    } else {
        calc
    }
}

/// The cost after the cost rules of the first `n` power instances.
pub open spec fn cost_fold(state: &GameState, registry: &StaticRegistry, n: nat, calc: ResourceCostCalc) -> ResourceCostCalc
    decreases n,
{
    if n == 0 {
        calc
    } else {
        cost_step(state, registry, n - 1, cost_fold(state, registry, (n - 1) as nat, calc))
    }
}

/// Runs every power's cost rules over a card's cost.
pub fn pipeline_modify_resource_cost(registry: &StaticRegistry, state: &GameState, calc: ResourceCostCalc) -> (r: ResourceCostCalc)
    ensures
        r == cost_fold(state, registry, combat_powers(state).len(), calc),
{
    let combat = match state.combat() {
        Some(c) => c,
        None => return calc,
    };
    let n = combat.powers.len();
    let mut cur = calc;
    let mut i: usize = 0;
    while i < n
        invariant
            state.combat == Some(*combat),
            n == combat.powers@.len(),
            i <= n,
            cost_fold(state, registry, i as nat, calc) == cur,
        decreases n - i,
    {
        let inst = combat.powers[i];
        let rule = match registry.powers.get(inst.def) {
            Some(def) => def.rules.modify_resource_cost,
            None => None,
        };
        let id = PowerInstanceId(i as u32);
        if let Some(m) = rule {
            let ctx = RuleCtx { state, registry, listener: Some(Listener::Power(id)) };
            cur = modify_resource_cost(&ctx, m, id, cur);
        }
        i = i + 1;
    }
    cur
}

/// The answer of the first `n` power instances: the first refusal among them, if any.
pub open spec fn power_decision_fold(state: &GameState, registry: &StaticRegistry, n: nat, query: DecisionQuery) -> Decision
    decreases n,
{
    if n == 0 {
        Decision::Allow
    } else {
        match power_decision_fold(state, registry, (n - 1) as nat, query) {
            Decision::Allow => {
                let i = n - 1;
                let inst = combat_powers(state)[i];
                if registry.powers@.contains_key(inst.def) {
                    match registry.powers@[inst.def].rules.decide {
                        Some(rule) => power_decision(&power_ctx(state, registry, i), rule, PowerInstanceId(i as u32), query),
                        None => Decision::Allow,
                    }
                } else {
                    Decision::Allow
                }
            },
            refused => refused,
        }
    }
}

/// The cards of the combat.
pub open spec fn combat_card_count(state: &GameState) -> nat {
    match state.combat {
        Some(c) => c.cards@.len(),
        None => 0,
    }
}

/// The answer of the first `n` cards of the combat, after the powers have allowed it.
pub open spec fn card_decision_fold(state: &GameState, registry: &StaticRegistry, n: nat, query: DecisionQuery) -> Decision
    decreases n,
{
    if n == 0 {
        Decision::Allow
    } else {
        match card_decision_fold(state, registry, (n - 1) as nat, query) {
            Decision::Allow => {
                let i = n - 1;
                let c = state.combat->0.cards@[i];
                if registry.cards@.contains_key(c.def) {
                    match registry.cards@[c.def].rules.decide {
                        Some(rule) => card_decision(
                            &RuleCtx { state, registry, listener: Some(Listener::Card(CardInstanceId(i as u32))) },
                            rule,
                            CardInstanceId(i as u32),
                            query,
                        ),
                        None => Decision::Allow,
                    }
                } else {
                    Decision::Allow
                }
            },
            refused => refused,
        }
    }
}

/// Every power is asked in order, then every card; the first refusal is the answer.
pub open spec fn pipeline_decision(state: &GameState, registry: &StaticRegistry, query: DecisionQuery) -> Decision {
    match power_decision_fold(state, registry, combat_powers(state).len(), query) {
        Decision::Allow => card_decision_fold(state, registry, combat_card_count(state), query),
        refused => refused,
    }
}

pub proof fn lemma_power_refusal_stays(state: &GameState, registry: &StaticRegistry, k: nat, n: nat, query: DecisionQuery)
    requires
        k <= n,
        power_decision_fold(state, registry, k, query) !is Allow,
    ensures
        power_decision_fold(state, registry, n, query) == power_decision_fold(state, registry, k, query),
    decreases n - k,
{
    if k < n {
        lemma_power_refusal_stays(state, registry, k + 1, n, query);
    }
}

pub proof fn lemma_card_refusal_stays(state: &GameState, registry: &StaticRegistry, k: nat, n: nat, query: DecisionQuery)
    requires
        k <= n,
        card_decision_fold(state, registry, k, query) !is Allow,
    ensures
        card_decision_fold(state, registry, n, query) == card_decision_fold(state, registry, k, query),
    decreases n - k,
{
    if k < n {
        lemma_card_refusal_stays(state, registry, k + 1, n, query);
    }
}

/// Asks every power, then every card, whether something may happen.
pub fn pipeline_decide(registry: &StaticRegistry, state: &GameState, query: &DecisionQuery) -> (r: Decision)
    ensures
        r == pipeline_decision(state, registry, *query),
{
    let combat = match state.combat() {
        Some(c) => c,
        None => return Decision::Allow,
    };
    let n = combat.powers.len();
    let mut i: usize = 0;
    while i < n
        invariant
            state.combat == Some(*combat),
            n == combat.powers@.len(),
            i <= n,
            power_decision_fold(state, registry, i as nat, *query) == Decision::Allow,
        decreases n - i,
    {
        let inst = combat.powers[i];
        let rule = match registry.powers.get(inst.def) {
            Some(def) => def.rules.decide,
            None => None,
        };
        let id = PowerInstanceId(i as u32);
        if let Some(rule) = rule {
            let ctx = RuleCtx { state, registry, listener: Some(Listener::Power(id)) };
            let d = power_decide(&ctx, rule, id, query);
            if !d.is_allowed() {
                proof {
                    lemma_power_refusal_stays(state, registry, (i + 1) as nat, n as nat, *query);
                }
                return d;
            }
        }
        i = i + 1;
    }
    let m = combat.cards.len();
    let mut j: usize = 0;
    while j < m
        invariant
            state.combat == Some(*combat),
            m == combat.cards@.len(),
            j <= m,
            power_decision_fold(state, registry, combat_powers(state).len(), *query) == Decision::Allow,
            card_decision_fold(state, registry, j as nat, *query) == Decision::Allow,
        decreases m - j,
    {
        let def_id = combat.cards[j].def;
        let rule = match registry.cards.get(def_id) {
            Some(def) => def.rules.decide,
            None => None,
        };
        let id = CardInstanceId(j as u32);
        if let Some(rule) = rule {
            let ctx = RuleCtx { state, registry, listener: Some(Listener::Card(id)) };
            let d = card_decide(&ctx, rule, id, query);
            if !d.is_allowed() {
                proof {
                    lemma_card_refusal_stays(state, registry, (j + 1) as nat, m as nat, *query);
                }
                return d;
            }
        }
        j = j + 1;
    }
    Decision::Allow
}

/// Whether a dead creature leaves the combat: every rule is asked.
pub fn should_remove_creature_after_death(registry: &StaticRegistry, state: &GameState, creature: CreatureId) -> (r: Decision)
    ensures
        r == pipeline_decision(state, registry, DecisionQuery { kind: DecisionQueryKind::ShouldRemoveCreatureAfterDeath { creature } }),
{
    pipeline_decide(registry, state, &DecisionQuery { kind: DecisionQueryKind::ShouldRemoveCreatureAfterDeath { creature } })
}

} // verus!
