//! Monster definitions: what each monster intends and does on its turn.
use vstd::prelude::*;

use crate::amount::Amount;
use crate::content::powers::{BlockModifier, CostModifier, DamageModifier, PowerDecideRule, PowerEventRule, ResultPileModifier};
use crate::effect::{DamageFlags, DamageKind, DamageOp, Effect, Source};
use crate::ids::{CreatureId, LocKey, MonsterId, NIBBIT, STRENGTH};
use crate::rules::RuleCtx;
use crate::state::GameState;

verus! {

/// What a monster shows it will do.
#[derive(Clone, Copy, Debug, PartialEq, Eq, Structural)]
pub enum MonsterIntent {
    Attack { amount: i32 },
    AttackAndBlock { attack: i32, block: i32 },
    Buff,
    Block { amount: i32 },
    Debuff,
    Unknown,
}

/// How a monster picks and carries out its moves.
#[derive(Clone, Copy, Debug, PartialEq, Eq, Structural)]
pub enum MonsterBehavior {
    Nibbit,
}

/// The rules a monster carries besides its moves, of the same kinds a power may carry.
#[derive(Clone, Copy, Debug, PartialEq, Eq, Structural)]
pub struct MonsterRules {
    pub on_event: Option<PowerEventRule>,
    pub modify_damage_additive: Option<DamageModifier>,
    pub modify_damage_multiplicative: Option<DamageModifier>,
    pub modify_damage_cap: Option<DamageModifier>,
    pub modify_block_additive: Option<BlockModifier>,
    pub modify_block_multiplicative: Option<BlockModifier>,
    pub modify_resource_cost: Option<CostModifier>,
    pub modify_card_play_result_pile: Option<ResultPileModifier>,
    pub decide: Option<PowerDecideRule>,
}

pub open spec fn no_monster_rules() -> MonsterRules {
    MonsterRules {
        on_event: None,
        modify_damage_additive: None,
        modify_damage_multiplicative: None,
        modify_damage_cap: None,
        modify_block_additive: None,
        modify_block_multiplicative: None,
        modify_resource_cost: None,
        modify_card_play_result_pile: None,
        decide: None,
    }
}

impl Default for MonsterRules {
    fn default() -> (r: MonsterRules)
        ensures
            r == no_monster_rules(),
    {
        MonsterRules {
            on_event: None,
            modify_damage_additive: None,
            modify_damage_multiplicative: None,
            modify_damage_cap: None,
            modify_block_additive: None,
            modify_block_multiplicative: None,
            modify_resource_cost: None,
            modify_card_play_result_pile: None,
            decide: None,
        }
    }
}

/// One monster definition.
#[derive(Clone, Copy, Debug)]
pub struct MonsterDef {
    pub id: MonsterId,
    pub loc_key: LocKey,
    pub max_hp: i32,
    pub behavior: MonsterBehavior,
    pub rules: MonsterRules,
}

/// Nibbit: 42 HP, a three-move cycle.
pub fn nibbit() -> (r: MonsterDef)
    ensures
        r.id == NIBBIT,
        r.loc_key.key == "monster.nibbit",
        r.max_hp == 42,
        r.behavior == MonsterBehavior::Nibbit,
        r.rules == no_monster_rules(),
{
    MonsterDef {
        id: NIBBIT,
        loc_key: LocKey::new("monster.nibbit"),
        max_hp: 42,
        behavior: MonsterBehavior::Nibbit,
        rules: MonsterRules::default(),
    }
}

/// Which of its three moves Nibbit makes: the turns it has taken, modulo 3
/// (0 for a creature that is not there).
pub open spec fn nibbit_move(state: &GameState, monster: CreatureId) -> u32 {
    match state.spec_creature(monster) {
        Some(c) => c.turns_taken % 3,
        None => 0,
    }
}

pub fn nibbit_move_index(ctx: &RuleCtx<'_>, monster: CreatureId) -> (r: u32)
    ensures
        r == nibbit_move(ctx.state, monster),
        r < 3,
{
    match ctx.state.creature(monster) {
        Some(c) => c.turns_taken % 3,
        None => 0,
    }
}

/// The intent of each of Nibbit's moves.
pub open spec fn nibbit_intent_of(index: u32) -> MonsterIntent {
    if index == 0 {
        MonsterIntent::Attack { amount: 12 }
    } else if index == 1 {
        MonsterIntent::AttackAndBlock { attack: 6, block: 5 }
    } else {
        MonsterIntent::Buff
    }
}

pub fn nibbit_intent(ctx: &RuleCtx<'_>, monster: CreatureId) -> (r: MonsterIntent)
    ensures
        r == nibbit_intent_of(nibbit_move(ctx.state, monster)),
{
    match nibbit_move_index(ctx, monster) {
        0 => MonsterIntent::Attack { amount: 12 },
        1 => MonsterIntent::AttackAndBlock { attack: 6, block: 5 },
        _ => MonsterIntent::Buff,
    }
}

/// Nibbit's attack on the player.
pub open spec fn nibbit_hit(monster: CreatureId, player: CreatureId, amount: int) -> Effect {
    Effect::DealDamage(
        DamageOp {
            source: Some(Source::Creature(monster)),
            dealer: Some(monster),
            target: player,
            base_amount: Amount::whole(amount),
            kind: DamageKind::Attack,
            flags: DamageFlags { ignores_block: false },
        },
    )
}

fn nibbit_damage(monster: CreatureId, player: CreatureId, amount: i32) -> (r: Effect)
    ensures
        r == nibbit_hit(monster, player, amount as int),
{
    Effect::DealDamage(
        DamageOp {
            source: Some(Source::Creature(monster)),
            dealer: Some(monster),
            target: player,
            base_amount: Amount::from_i32(amount),
            kind: DamageKind::Attack,
            flags: DamageFlags { ignores_block: false },
        },
    )
}

/// What each of Nibbit's moves does: 12 damage; 6 damage and 5 block; 2 strength.
pub open spec fn nibbit_moves(state: &GameState, monster: CreatureId) -> Seq<Effect> {
    match state.spec_player_creature_id() {
        Some(p) => {
            let index = nibbit_move(state, monster);
            if index == 0 {
                seq![nibbit_hit(monster, p, 12)]
            } else if index == 1 {
                seq![
                    nibbit_hit(monster, p, 6),
                    Effect::GainBlock { target: monster, amount: Amount::whole(5), source: Some(Source::Creature(monster)) },
                ]
            } else {
                seq![
                    Effect::ApplyPower {
                        target: monster,
                        power: STRENGTH,
                        amount: Amount::whole(2),
                        source: Some(Source::Creature(monster)),
                    },
                ]
            }
        },
        None => Seq::empty(),
    }
}

pub fn nibbit_act(ctx: &RuleCtx<'_>, monster: CreatureId) -> (r: Vec<Effect>)
    ensures
        r@ == nibbit_moves(ctx.state, monster),
        ctx.state.spec_player_creature_id() is None ==> r@.len() == 0,
        ctx.state.spec_player_creature_id() is Some && nibbit_intent_of(nibbit_move(ctx.state, monster)) == MonsterIntent::Buff ==> r@ == seq![
            (Effect::ApplyPower { target: monster, power: STRENGTH, amount: Amount { mantissa: 2, scale: 0 }, source: Some(Source::Creature(monster)) }),
        ],
        ctx.state.spec_player_creature_id() is Some && nibbit_intent_of(nibbit_move(ctx.state, monster)) is Attack ==> r@ == seq![
            nibbit_hit(monster, ctx.state.spec_player_creature_id()->0, 12),
        ],
        ctx.state.spec_player_creature_id() is Some && nibbit_intent_of(nibbit_move(ctx.state, monster)) is AttackAndBlock ==> r@ == seq![
            nibbit_hit(monster, ctx.state.spec_player_creature_id()->0, 6),
            (Effect::GainBlock { target: monster, amount: Amount { mantissa: 5, scale: 0 }, source: Some(Source::Creature(monster)) }),
        ],
{
    let player = match ctx.state.player_creature_id() {
        Some(p) => p,
        None => return Vec::new(),
    };
    let mut out: Vec<Effect> = Vec::new();
    match nibbit_move_index(ctx, monster) {
        0 => {
            out.push(nibbit_damage(monster, player, 12));
        },
        1 => {
            out.push(nibbit_damage(monster, player, 6));
            out.push(Effect::GainBlock { target: monster, amount: Amount::from_i32(5), source: Some(Source::Creature(monster)) });
        },
        _ => {
            out.push(
                Effect::ApplyPower {
                    target: monster,
                    power: STRENGTH,
                    amount: Amount::from_i32(2),
                    source: Some(Source::Creature(monster)),
                },
            );
        },
    }
    out
}

/// The intent a monster shows.
pub fn monster_intent(ctx: &RuleCtx<'_>, behavior: MonsterBehavior, monster: CreatureId) -> (r: MonsterIntent)
    ensures
        behavior == MonsterBehavior::Nibbit ==> r == nibbit_intent_of(nibbit_move(ctx.state, monster)),
{
    match behavior {
        MonsterBehavior::Nibbit => nibbit_intent(ctx, monster),
    }
}

/// What a monster does on its turn.
pub fn monster_act(ctx: &RuleCtx<'_>, behavior: MonsterBehavior, monster: CreatureId) -> (r: Vec<Effect>)
    ensures
        behavior == MonsterBehavior::Nibbit ==> r@ == nibbit_moves(ctx.state, monster),
{
    match behavior {
        MonsterBehavior::Nibbit => nibbit_act(ctx, monster),
    }
}

/// Nibbit repeats its moves every three turns.
pub proof fn lemma_nibbit_cycle(turns: u32)
    requires
        turns <= u32::MAX - 3,
    ensures
        nibbit_intent_of(turns % 3) == nibbit_intent_of(((turns + 3) as u32) % 3),
        turns % 3 == 0 ==> nibbit_intent_of(turns % 3) == (MonsterIntent::Attack { amount: 12 }),
        turns % 3 == 1 ==> nibbit_intent_of(turns % 3) == (MonsterIntent::AttackAndBlock { attack: 6, block: 5 }),
        turns % 3 == 2 ==> nibbit_intent_of(turns % 3) == MonsterIntent::Buff,
{
}

} // verus!
