//! Card text: the lines and keywords a card shows, with the numbers the
//! current combat would give it, and the costs it shows.
use vstd::prelude::*;

use crate::amount::{lemma_pow10_positive, pow10, Amount};
use crate::content::cards::helpers::{
    count_all_tag as play_count_all_tag, count_hand_type as play_count_hand_type, spec_card_is_type, spec_exhaust,
    spec_hand, spec_is_upgraded, spec_player_block, spec_tagged_cards, spec_value,
};
use crate::content::cards::{CardKeyword, CardPlayCtx, CardPoolId, CardTag, CardType};
use crate::effect::{DamageKind, Source};
use crate::ids::{CardInstanceId, CreatureId, PlayerId, PowerId, CORRUPTION_POWER, VULNERABLE};
use crate::pipeline::{
    cost_fold, combat_powers, damage_rules_fit, pipeline_block, pipeline_damage, pipeline_modify_block,
    pipeline_modify_damage, pipeline_modify_resource_cost,
};
use crate::content::cards::curses::curse_table;
use crate::content::cards::ironclad::ironclad_table;
use crate::content::cards::tokens::token_table;
use crate::registry_static::{holds_catalogue, StaticRegistry};
use crate::ids::CardId;
use crate::rules::{BlockCalc, DamageCalc, ResourceCostCalc};
use crate::state::{fits_i32, CardCost, CardCosts, CardCounter, CardState, GameState, ResourceKind};
use crate::text::{int_text, owned, text_num, text_num2};

pub mod curses;
pub mod ironclad;
pub mod tokens;

verus! {

/// Where the card is shown: in hand, numbers reflect the combat's rules.
#[derive(Clone, Copy, Debug, PartialEq, Eq, Structural)]
pub enum CardTextScope {
    Hand,
    Pile,
}

/// What card text is worked out against.
#[derive(Clone, Copy)]
pub struct CardTextCtx<'a> {
    pub state: &'a GameState,
    pub registry: &'a StaticRegistry,
    pub target: Option<CreatureId>,
    pub scope: CardTextScope,
}

/// One line of card text, in English and in Simplified Chinese.
#[derive(Clone, Debug)]
pub struct CardTextLine {
    pub eng: String,
    pub zhs: String,
}

impl View for CardTextLine {
    type V = (Seq<char>, Seq<char>);

    open spec fn view(&self) -> (Seq<char>, Seq<char>) {
        (self.eng@, self.zhs@)
    }
}

/// The text of a card: its lines and its keywords.
#[derive(Clone, Debug)]
pub struct CardText {
    pub lines: Vec<CardTextLine>,
    pub keywords: Vec<CardKeyword>,
}

/// The views of a list of lines.
pub open spec fn lines_view(lines: Seq<CardTextLine>) -> Seq<(Seq<char>, Seq<char>)> {
    lines.map_values(|line: CardTextLine| line@)
}

/// Whether the value fits an `i32`.
pub fn fits_i64(n: i64) -> (r: bool)
    ensures
        r == fits_i32(n as int),
{
    -2147483648 <= n && n <= 2147483647
}

/// In hand, where damage is previewed through the combat's rules, those
/// rules have room for their arithmetic.
pub open spec fn preview_fits(ctx: &CardTextCtx) -> bool {
    ctx.scope == CardTextScope::Hand ==> damage_rules_fit(ctx.state, ctx.registry)
}

/// The card's own text arithmetic stays in range: for an Ironclad card, the
/// sums and products its lines work out fit an `i32`, and its hit count a `u8`.
pub open spec fn text_fits(ctx: &CardTextCtx, card: CardInstanceId) -> bool {
    match ctx.state.spec_card(card) {
        Some(c) => ctx.registry.cards@.contains_key(c.def) && ctx.registry.cards@[c.def].pool == CardPoolId::Ironclad
            ==> ironclad::ironclad_text_fits(ctx, c.def, card),
        None => true,
    }
}

/// The card's text can be worked out without overflowing.
pub open spec fn text_ready(ctx: &CardTextCtx, card: CardInstanceId) -> bool {
    preview_fits(ctx) && text_fits(ctx, card)
}

/// Whether the card's own text arithmetic stays in range.
pub fn card_text_fits(ctx: &CardTextCtx<'_>, card: CardInstanceId) -> (r: bool)
    ensures
        r == text_fits(ctx, card),
{
    let c = match ctx.state.card(card) {
        Some(c) => c,
        None => return true,
    };
    match ctx.registry.cards.get(c.def) {
        Some(d) => if d.pool == CardPoolId::Ironclad {
            ironclad::text_fits(ctx, c.def, card)
        } else {
            true
        },
        None => true,
    }
}

// ---------------------------------------------------------------------------
// Lines
// ---------------------------------------------------------------------------

pub open spec fn s_l(eng: &str, zhs: &str) -> (Seq<char>, Seq<char>) {
    (eng@, zhs@)
}

/// A line with no number.
pub fn l(eng: &str, zhs: &str) -> (r: CardTextLine)
    ensures
        r@ == s_l(eng, zhs),
{
    CardTextLine { eng: owned(eng), zhs: owned(zhs) }
}

pub open spec fn s_ln(e1: &str, n: int, e2: &str, z1: &str, z2: &str) -> (Seq<char>, Seq<char>) {
    (e1@ + int_text(n) + e2@, z1@ + int_text(n) + z2@)
}

/// A line with one number, in both languages.
pub fn ln(e1: &str, n: i32, e2: &str, z1: &str, z2: &str) -> (r: CardTextLine)
    ensures
        r@ == s_ln(e1, n as int, e2, z1, z2),
{
    CardTextLine { eng: text_num(e1, n as i64, e2), zhs: text_num(z1, n as i64, z2) }
}

pub open spec fn s_ln2(e1: &str, n: int, e2: &str, m: int, e3: &str, z1: &str, z2: &str, z3: &str) -> (Seq<char>, Seq<char>) {
    (e1@ + int_text(n) + e2@ + int_text(m) + e3@, z1@ + int_text(n) + z2@ + int_text(m) + z3@)
}

/// A line with two numbers, in both languages.
pub fn ln2(e1: &str, n: i32, e2: &str, m: i32, e3: &str, z1: &str, z2: &str, z3: &str) -> (r: CardTextLine)
    ensures
        r@ == s_ln2(e1, n as int, e2, m as int, e3, z1, z2, z3),
{
    CardTextLine { eng: text_num2(e1, n as i64, e2, m as i64, e3), zhs: text_num2(z1, n as i64, z2, m as i64, z3) }
}

pub open spec fn s_damage_exact(n: int) -> (Seq<char>, Seq<char>) {
    s_ln("Deal ", n, " damage.", "造成", "点伤害。")
}

pub fn damage_exact(n: i32) -> (r: CardTextLine)
    ensures
        r@ == s_damage_exact(n as int),
{
    ln("Deal ", n, " damage.", "造成", "点伤害。")
}

pub open spec fn s_damage_all_exact(n: int) -> (Seq<char>, Seq<char>) {
    s_ln("Deal ", n, " damage to ALL enemies.", "对所有敌人造成", "点伤害。")
}

pub fn damage_all_exact(n: i32) -> (r: CardTextLine)
    ensures
        r@ == s_damage_all_exact(n as int),
{
    ln("Deal ", n, " damage to ALL enemies.", "对所有敌人造成", "点伤害。")
}

pub open spec fn s_apply_power_line(eng: &str, zhs: &str, n: int) -> (Seq<char>, Seq<char>) {
    ("Apply "@ + int_text(n) + " "@ + eng@ + "."@, "给予"@ + int_text(n) + "层"@ + zhs@ + "。"@)
}

pub fn apply_power_line(eng: &str, zhs: &str, n: i32) -> (r: CardTextLine)
    ensures
        r@ == s_apply_power_line(eng, zhs, n as int),
{
    let mut e = text_num("Apply ", n as i64, " ");
    e.append(eng);
    e.append(".");
    let mut z = text_num("给予", n as i64, "层");
    z.append(zhs);
    z.append("。");
    CardTextLine { eng: e, zhs: z }
}

pub open spec fn s_gain_power_line(eng: &str, zhs: &str, n: int) -> (Seq<char>, Seq<char>) {
    ("Gain "@ + int_text(n) + " "@ + eng@ + "."@, "获得"@ + int_text(n) + "点"@ + zhs@ + "。"@)
}

pub fn gain_power_line(eng: &str, zhs: &str, n: i32) -> (r: CardTextLine)
    ensures
        r@ == s_gain_power_line(eng, zhs, n as int),
{
    let mut e = text_num("Gain ", n as i64, " ");
    e.append(eng);
    e.append(".");
    let mut z = text_num("获得", n as i64, "点");
    z.append(zhs);
    z.append("。");
    CardTextLine { eng: e, zhs: z }
}

pub open spec fn s_gain_energy_line(n: int) -> (Seq<char>, Seq<char>) {
    s_ln("Gain ", n, " Energy.", "获得", "点能量。")
}

pub fn gain_energy_line(n: i32) -> (r: CardTextLine)
    ensures
        r@ == s_gain_energy_line(n as int),
{
    ln("Gain ", n, " Energy.", "获得", "点能量。")
}

pub open spec fn s_draw_line(n: int) -> (Seq<char>, Seq<char>) {
    s_ln("Draw ", n, if n == 1 { " card." } else { " cards." }, "抽", "张牌。")
}

pub fn draw_line(n: i32) -> (r: CardTextLine)
    ensures
        r@ == s_draw_line(n as int),
{
    ln("Draw ", n, if n == 1 { " card." } else { " cards." }, "抽", "张牌。")
}

pub open spec fn s_lose_hp_line(n: int) -> (Seq<char>, Seq<char>) {
    s_ln("Lose ", n, " HP.", "失去", "点生命。")
}

pub fn lose_hp_line(n: i32) -> (r: CardTextLine)
    ensures
        r@ == s_lose_hp_line(n as int),
{
    ln("Lose ", n, " HP.", "失去", "点生命。")
}

pub open spec fn s_heal_line(n: int) -> (Seq<char>, Seq<char>) {
    s_ln("Heal ", n, " HP.", "治疗", "点生命。")
}

pub fn heal_line(n: i32) -> (r: CardTextLine)
    ensures
        r@ == s_heal_line(n as int),
{
    ln("Heal ", n, " HP.", "治疗", "点生命。")
}

// ---------------------------------------------------------------------------
// Numbers the lines show
// ---------------------------------------------------------------------------

pub open spec fn s_upgraded(ctx: &CardTextCtx, card: CardInstanceId) -> bool {
    spec_is_upgraded(ctx.state, card)
}

pub fn upgraded(ctx: &CardTextCtx<'_>, card: CardInstanceId) -> (r: bool)
    ensures
        r == s_upgraded(ctx, card),
{
    match ctx.state.card(card) {
        Some(c) => c.upgraded,
        None => false,
    }
}

pub open spec fn s_val(ctx: &CardTextCtx, card: CardInstanceId, base: int, delta: int) -> int {
    spec_value(ctx.state, card, base, delta)
}

pub fn val(ctx: &CardTextCtx<'_>, card: CardInstanceId, base: i32, delta: i32) -> (r: i32)
    requires
        0 <= delta,
        i32::MIN <= base + delta <= i32::MAX,
    ensures
        r == s_val(ctx, card, base as int, delta as int),
        r == base + if (ctx.state.spec_card(card) matches Some(c) && c.upgraded) { delta as int } else { 0 },
{
    base + if upgraded(ctx, card) { delta } else { 0 }
}

/// An amount as the text shows it: negative amounts as 0, fractions cut
/// off, and at most `i32::MAX`.
pub open spec fn shown_amount(a: Amount) -> int {
    if a.value_lt(Amount::whole(0)) {
        0
    } else if a.spec_trunc() > i32::MAX {
        i32::MAX as int
    } else {
        a.spec_trunc()
    }
}

pub fn shown(a: Amount) -> (r: i32)
    requires
        a.wf(),
    ensures
        r == shown_amount(a),
{
    let zero = Amount::from_i32(0);
    if a.lt(zero) {
        return 0;
    }
    proof {
        lemma_trunc_nonnegative(a);
    }
    let t = a.trunc();
    if t.mantissa > 2147483647 {
        2147483647
    } else {
        t.mantissa as i32
    }
}

/// A quantity that is not below zero truncates to a number between zero and its mantissa.
pub proof fn lemma_trunc_nonnegative(a: Amount)
    requires
        a.wf(),
        !a.value_lt(Amount::whole(0)),
    ensures
        0 <= a.spec_trunc() <= a.mantissa,
{
    let z = Amount::whole(0);
    let s = a.common_scale(z);
    assert(s == a.scale as nat);
    assert(pow10(0) == 1);
    assert(a.at_scale(s) == a.mantissa);
    let p = pow10((s - z.scale) as nat);
    assert(z.at_scale(s) == 0 * p);
    assert(0 * p == 0) by (nonlinear_arith);
    assert(a.mantissa >= 0);
    lemma_pow10_positive(a.scale as nat);
    let q = pow10(a.scale as nat);
    let m = a.mantissa as int;
    assert(0 <= m / q <= m) by (nonlinear_arith)
        requires
            m >= 0,
            q >= 1,
    ;
}

/// The creature a damage preview is worked out against.
pub open spec fn preview_target(ctx: &CardTextCtx) -> Option<CreatureId> {
    match ctx.target {
        Some(t) => Some(t),
        None => if ctx.state.spec_alive_monster_ids().len() > 0 {
            Some(ctx.state.spec_alive_monster_ids()[0])
        } else {
            None
        },
    }
}

/// The attack a card would deal, as the preview works it out.
pub open spec fn preview_calc(ctx: &CardTextCtx, card: CardInstanceId, target: CreatureId, amount: int) -> DamageCalc {
    DamageCalc {
        source: Some(Source::Card(card)),
        dealer: ctx.state.spec_player_creature_id(),
        target,
        kind: DamageKind::Attack,
        base_amount: Amount::whole(amount),
        amount: Amount::whole(amount),
    }
}

/// The damage a card shows: in hand, the amount after every rule of the
/// combat against the chosen target or else the first living monster;
/// elsewhere, or without a target, or where a `Decimal` would overflow, the
/// amount itself.
pub open spec fn s_preview_damage(ctx: &CardTextCtx, card: CardInstanceId, amount: int) -> int {
    if ctx.scope != CardTextScope::Hand {
        amount
    } else {
        match preview_target(ctx) {
            None => amount,
            Some(t) => match pipeline_damage(ctx.state, ctx.registry, preview_calc(ctx, card, t, amount)) {
                Some(c) => shown_amount(c.amount),
                None => amount,
            },
        }
    }
}

pub fn preview_damage(ctx: &CardTextCtx<'_>, card: CardInstanceId, amount: i32) -> (r: i32)
    requires
        preview_fits(ctx),
    ensures
        r == s_preview_damage(ctx, card, amount as int),
{
    if ctx.scope != CardTextScope::Hand {
        return amount;
    }
    let target = match ctx.target {
        Some(t) => t,
        None => {
            let alive = ctx.state.alive_monster_ids();
            if alive.len() > 0 {
                alive[0]
            } else {
                return amount;
            }
        },
    };
    let calc = DamageCalc {
        source: Some(Source::Card(card)),
        dealer: ctx.state.player_creature_id(),
        target,
        kind: DamageKind::Attack,
        base_amount: Amount::from_i32(amount),
        amount: Amount::from_i32(amount),
    };
    match pipeline_modify_damage(ctx.registry, ctx.state, calc) {
        Some(c) => shown(c.amount),
        None => amount,
    }
}

/// The block a card shows: in hand, the amount after every rule of the
/// combat; elsewhere, or where a `Decimal` would overflow, the amount itself.
pub open spec fn s_block_amount(ctx: &CardTextCtx, card: CardInstanceId, base: int, delta: int) -> int {
    let amount = s_val(ctx, card, base, delta);
    if ctx.scope != CardTextScope::Hand {
        amount
    } else {
        match ctx.state.spec_player_creature_id() {
            None => amount,
            Some(t) => match pipeline_block(
                ctx.state,
                ctx.registry,
                BlockCalc { source: Some(Source::Card(card)), target: t, base_amount: Amount::whole(amount), amount: Amount::whole(amount) },
            ) {
                Some(c) => shown_amount(c.amount),
                None => amount,
            },
        }
    }
}

pub fn block_amount(ctx: &CardTextCtx<'_>, card: CardInstanceId, base: i32, delta: i32) -> (r: i32)
    requires
        0 <= delta,
        i32::MIN <= base + delta <= i32::MAX,
    ensures
        r == s_block_amount(ctx, card, base as int, delta as int),
{
    let amount = val(ctx, card, base, delta);
    if ctx.scope != CardTextScope::Hand {
        return amount;
    }
    let target = match ctx.state.player_creature_id() {
        Some(t) => t,
        None => return amount,
    };
    let calc = BlockCalc {
        source: Some(Source::Card(card)),
        target,
        base_amount: Amount::from_i32(amount),
        amount: Amount::from_i32(amount),
    };
    match pipeline_modify_block(ctx.registry, ctx.state, calc) {
        Some(c) => shown(c.amount),
        None => amount,
    }
}

pub open spec fn s_damage(ctx: &CardTextCtx, card: CardInstanceId, base: int, delta: int) -> (Seq<char>, Seq<char>) {
    s_damage_exact(s_preview_damage(ctx, card, s_val(ctx, card, base, delta)))
}

pub fn damage(ctx: &CardTextCtx<'_>, card: CardInstanceId, base: i32, delta: i32) -> (r: CardTextLine)
    requires
        preview_fits(ctx),
        0 <= delta,
        i32::MIN <= base + delta <= i32::MAX,
    ensures
        r@ == s_damage(ctx, card, base as int, delta as int),
{
    damage_exact(preview_damage(ctx, card, val(ctx, card, base, delta)))
}

pub open spec fn s_damage_all(ctx: &CardTextCtx, card: CardInstanceId, base: int, delta: int) -> (Seq<char>, Seq<char>) {
    s_damage_all_exact(s_preview_damage(ctx, card, s_val(ctx, card, base, delta)))
}

pub fn damage_all(ctx: &CardTextCtx<'_>, card: CardInstanceId, base: i32, delta: i32) -> (r: CardTextLine)
    requires
        preview_fits(ctx),
        0 <= delta,
        i32::MIN <= base + delta <= i32::MAX,
    ensures
        r@ == s_damage_all(ctx, card, base as int, delta as int),
{
    damage_all_exact(preview_damage(ctx, card, val(ctx, card, base, delta)))
}

pub open spec fn s_damage_times(ctx: &CardTextCtx, card: CardInstanceId, base: int, delta: int, hits: int) -> (Seq<char>, Seq<char>) {
    let amount = s_preview_damage(ctx, card, s_val(ctx, card, base, delta));
    if hits <= 1 {
        s_damage_exact(amount)
    } else {
        s_ln2("Deal ", amount, " damage ", hits, " times.", "造成", "点伤害", "次。")
    }
}

pub fn damage_times(ctx: &CardTextCtx<'_>, card: CardInstanceId, base: i32, delta: i32, hits: u8) -> (r: CardTextLine)
    requires
        preview_fits(ctx),
        0 <= delta,
        i32::MIN <= base + delta <= i32::MAX,
    ensures
        r@ == s_damage_times(ctx, card, base as int, delta as int, hits as int),
{
    let amount = preview_damage(ctx, card, val(ctx, card, base, delta));
    if hits <= 1 {
        damage_exact(amount)
    } else {
        ln2("Deal ", amount, " damage ", hits as i32, " times.", "造成", "点伤害", "次。")
    }
}

pub open spec fn s_damage_random_times(ctx: &CardTextCtx, card: CardInstanceId, base: int, hits: int) -> (Seq<char>, Seq<char>) {
    s_ln2("Deal ", s_preview_damage(ctx, card, base), " damage to a random enemy ", hits, " times.", "对随机敌人造成", "点伤害", "次。")
}

pub fn damage_random_times(ctx: &CardTextCtx<'_>, card: CardInstanceId, base: i32, hits: u8) -> (r: CardTextLine)
    requires
        preview_fits(ctx),
    ensures
        r@ == s_damage_random_times(ctx, card, base as int, hits as int),
{
    let amount = preview_damage(ctx, card, base);
    ln2("Deal ", amount, " damage to a random enemy ", hits as i32, " times.", "对随机敌人造成", "点伤害", "次。")
}

pub open spec fn s_block(ctx: &CardTextCtx, card: CardInstanceId, base: int, delta: int) -> (Seq<char>, Seq<char>) {
    s_ln("Gain ", s_block_amount(ctx, card, base, delta), " Block.", "获得", "点格挡。")
}

pub fn block(ctx: &CardTextCtx<'_>, card: CardInstanceId, base: i32, delta: i32) -> (r: CardTextLine)
    requires
        0 <= delta,
        i32::MIN <= base + delta <= i32::MAX,
    ensures
        r@ == s_block(ctx, card, base as int, delta as int),
{
    ln("Gain ", block_amount(ctx, card, base, delta), " Block.", "获得", "点格挡。")
}

pub open spec fn s_block_times(ctx: &CardTextCtx, card: CardInstanceId, base: int, delta: int, times: int) -> (Seq<char>, Seq<char>) {
    let amount = s_block_amount(ctx, card, base, delta);
    if times <= 1 {
        s_ln("Gain ", amount, " Block.", "获得", "点格挡。")
    } else {
        s_ln2("Gain ", amount, " Block ", times, " times.", "获得", "点格挡", "次。")
    }
}

pub fn block_times(ctx: &CardTextCtx<'_>, card: CardInstanceId, base: i32, delta: i32, times: u8) -> (r: CardTextLine)
    requires
        0 <= delta,
        i32::MIN <= base + delta <= i32::MAX,
    ensures
        r@ == s_block_times(ctx, card, base as int, delta as int, times as int),
{
    let amount = block_amount(ctx, card, base, delta);
    if times <= 1 {
        ln("Gain ", amount, " Block.", "获得", "点格挡。")
    } else {
        ln2("Gain ", amount, " Block ", times as i32, " times.", "获得", "点格挡", "次。")
    }
}

pub open spec fn s_player_block(ctx: &CardTextCtx) -> int {
    spec_player_block(ctx.state)
}

pub fn player_block(ctx: &CardTextCtx<'_>) -> (r: i32)
    ensures
        r == s_player_block(ctx),
{
    crate::content::cards::helpers::player_block(ctx.state)
}

pub open spec fn s_target_has(ctx: &CardTextCtx, power: PowerId) -> bool {
    match ctx.target {
        Some(t) => ctx.state.spec_power_amount(t, power) > 0,
        None => false,
    }
}

pub fn target_has(ctx: &CardTextCtx<'_>, power: PowerId) -> (r: bool)
    ensures
        r == s_target_has(ctx, power),
{
    match ctx.target {
        Some(t) => ctx.state.power_amount(t, power) > 0,
        None => false,
    }
}

/// The Vulnerable of the chosen target; 0 without one.
pub open spec fn s_target_vulnerable(ctx: &CardTextCtx) -> int {
    match ctx.target {
        Some(t) => ctx.state.spec_power_amount(t, VULNERABLE),
        None => 0,
    }
}

pub fn target_vulnerable(ctx: &CardTextCtx<'_>) -> (r: i32)
    ensures
        r == s_target_vulnerable(ctx),
{
    match ctx.target {
        Some(t) => ctx.state.power_amount(t, VULNERABLE),
        None => 0,
    }
}

pub open spec fn s_exhaust_count(ctx: &CardTextCtx) -> int {
    spec_exhaust(ctx.state).len() as i32 as int
}

pub fn exhaust_count(ctx: &CardTextCtx<'_>) -> (r: i32)
    ensures
        r == s_exhaust_count(ctx),
{
    crate::content::cards::helpers::exhaust_len(ctx.state) as i32
}

pub open spec fn s_previous_attacks_played(ctx: &CardTextCtx) -> int {
    match ctx.state.combat {
        Some(c) => (if c.turn_stats.attacks_played > 0 { c.turn_stats.attacks_played - 1 } else { 0 }) as i32 as int,
        None => 0,
    }
}

pub fn previous_attacks_played(ctx: &CardTextCtx<'_>) -> (r: i32)
    ensures
        r == s_previous_attacks_played(ctx),
{
    match ctx.state.combat() {
        Some(c) => c.turn_stats.attacks_played.saturating_sub(1) as i32,
        None => 0,
    }
}

pub open spec fn s_cards_exhausted_this_turn(ctx: &CardTextCtx) -> int {
    match ctx.state.combat {
        Some(c) => c.turn_stats.cards_exhausted as int,
        None => 0,
    }
}

pub fn cards_exhausted_this_turn(ctx: &CardTextCtx<'_>) -> (r: u32)
    ensures
        r == s_cards_exhausted_this_turn(ctx),
{
    match ctx.state.combat() {
        Some(c) => c.turn_stats.cards_exhausted,
        None => 0,
    }
}

pub open spec fn s_hp_lost_by_player_this_turn(ctx: &CardTextCtx) -> int {
    match ctx.state.combat {
        Some(c) => c.turn_stats.hp_lost_by_player as int,
        None => 0,
    }
}

pub fn hp_lost_by_player_this_turn(ctx: &CardTextCtx<'_>) -> (r: i32)
    ensures
        r == s_hp_lost_by_player_this_turn(ctx),
{
    match ctx.state.combat() {
        Some(c) => c.turn_stats.hp_lost_by_player,
        None => 0,
    }
}

pub open spec fn s_hp_loss_events_by_player(ctx: &CardTextCtx) -> int {
    match ctx.state.combat {
        Some(c) => c.combat_stats.hp_loss_events_by_player as int,
        None => 0,
    }
}

pub fn hp_loss_events_by_player(ctx: &CardTextCtx<'_>) -> (r: u32)
    ensures
        r == s_hp_loss_events_by_player(ctx),
{
    match ctx.state.combat() {
        Some(c) => c.combat_stats.hp_loss_events_by_player,
        None => 0,
    }
}

pub open spec fn s_hand_len(ctx: &CardTextCtx) -> int {
    spec_hand(ctx.state).len() as int
}

pub fn hand_len(ctx: &CardTextCtx<'_>) -> (r: usize)
    ensures
        r == s_hand_len(ctx),
{
    crate::content::cards::helpers::hand_len(ctx.state)
}

/// The context the play bodies' counting helpers take.
fn as_play_ctx<'a>(ctx: &CardTextCtx<'a>) -> (r: CardPlayCtx<'a>)
    ensures
        r.state == ctx.state,
        r.registry == ctx.registry,
{
    CardPlayCtx { state: ctx.state, registry: ctx.registry, paid_energy: 0, paid_stars: 0 }
}

pub open spec fn s_count_hand_type(ctx: &CardTextCtx, card_type: CardType) -> int {
    spec_hand(ctx.state).filter(|c: CardInstanceId| spec_card_is_type(ctx.state, ctx.registry, c, card_type)).len() as i32 as int
}

pub fn count_hand_type(ctx: &CardTextCtx<'_>, card_type: CardType) -> (r: i32)
    ensures
        r == s_count_hand_type(ctx, card_type),
{
    let p = as_play_ctx(ctx);
    play_count_hand_type(&p, card_type)
}

pub open spec fn s_count_all_tag(ctx: &CardTextCtx, tag: CardTag) -> int {
    spec_tagged_cards(ctx.state, ctx.registry, tag).len() as i32 as int
}

pub fn count_all_tag(ctx: &CardTextCtx<'_>, tag: CardTag) -> (r: i32)
    ensures
        r == s_count_all_tag(ctx, tag),
{
    let p = as_play_ctx(ctx);
    play_count_all_tag(&p, tag)
}

/// The damage bonus the card instance has built up this combat.
pub open spec fn s_card_damage_increase(ctx: &CardTextCtx, card: CardInstanceId) -> int {
    match ctx.state.spec_card(card) {
        Some(c) => c.damage_increase as int,
        None => 0,
    }
}

pub fn card_damage_increase(ctx: &CardTextCtx<'_>, card: CardInstanceId) -> (r: i32)
    ensures
        r == s_card_damage_increase(ctx, card),
{
    match ctx.state.card(card) {
        Some(c) => c.counter(CardCounter::DamageIncrease),
        None => 0,
    }
}


// ---------------------------------------------------------------------------
// Cards
// ---------------------------------------------------------------------------

/// The lines of a card, chosen by the pool of its definition.
pub open spec fn card_lines(ctx: &CardTextCtx, card: CardInstanceId) -> Seq<(Seq<char>, Seq<char>)> {
    match ctx.state.spec_card(card) {
        Some(c) => if ctx.registry.cards@.contains_key(c.def) {
            match ctx.registry.cards@[c.def].pool {
                CardPoolId::Ironclad => ironclad::ironclad_lines(ctx, c.def, card),
                CardPoolId::Curse => curses::curse_lines(c.def),
                CardPoolId::Token => tokens::token_lines(c.def, c.upgraded),
                _ => Seq::empty(),
            }
        } else {
            Seq::empty()
        },
        None => Seq::empty(),
    }
}

/// Every card the catalogue registers shows at least one line of text.
pub proof fn lemma_catalogue_cards_have_lines(ctx: &CardTextCtx, card: CardInstanceId)
    requires
        holds_catalogue(ctx.registry),
        ctx.state.spec_card(card) matches Some(c) && ctx.registry.cards@.contains_key(c.def),
    ensures
        card_lines(ctx, card).len() > 0,
{
    let c = ctx.state.spec_card(card)->0;
    let k = c.def;
    let reg = ctx.registry.cards@;
    assert(reg.contains_key(k));
    if k == CardId::GiantRock {
    } else if exists|i: int| 0 <= i < ironclad_table().len() && ironclad_table()[i].id == k {
        let i = choose|i: int| 0 <= i < ironclad_table().len() && ironclad_table()[i].id == k;
        assert(ironclad_table()[i].describes(reg[k]));
        ironclad::lemma_ironclad_lines_nonempty(ctx, card, i);
    } else if exists|i: int| 0 <= i < curse_table().len() && curse_table()[i].id == k {
        let i = choose|i: int| 0 <= i < curse_table().len() && curse_table()[i].id == k;
        assert(curse_table()[i].describes(reg[k]));
        curses::lemma_curse_lines_nonempty(i);
    } else {
        let i = choose|i: int| 0 <= i < token_table().len() && token_table()[i].id == k;
        assert(token_table()[i].describes(reg[k]));
        tokens::lemma_token_lines_nonempty(i, c.upgraded);
    }
}

/// Works out the lines of a card.
pub fn describe_lines(ctx: &CardTextCtx<'_>, card: CardInstanceId) -> (r: Vec<CardTextLine>)
    requires
        text_ready(ctx, card),
    ensures
        lines_view(r@) == card_lines(ctx, card),
{
    let c = match ctx.state.card(card) {
        Some(c) => c,
        None => {
            let r: Vec<CardTextLine> = Vec::new();
            assert(lines_view(r@) =~= Seq::<(Seq<char>, Seq<char>)>::empty());
            return r;
        },
    };
    let def = match ctx.registry.cards.get(c.def) {
        Some(d) => d,
        None => {
            let r: Vec<CardTextLine> = Vec::new();
            assert(lines_view(r@) =~= Seq::<(Seq<char>, Seq<char>)>::empty());
            return r;
        },
    };
    match def.pool {
        CardPoolId::Ironclad => ironclad::describe_lines(ctx, c.def, card),
        CardPoolId::Curse => curses::describe_lines(c.def),
        CardPoolId::Token => tokens::describe_lines(c.def, c.upgraded),
        _ => {
            let r: Vec<CardTextLine> = Vec::new();
            assert(lines_view(r@) =~= Seq::<(Seq<char>, Seq<char>)>::empty());
            r
        },
    }
}

/// `keywords` with `keyword` added at the end unless already there.
pub open spec fn with_keyword(keywords: Seq<CardKeyword>, keyword: CardKeyword) -> Seq<CardKeyword> {
    if keywords.contains(keyword) {
        keywords
    } else {
        keywords.push(keyword)
    }
}

/// `keywords` with each of `more` added in turn.
pub open spec fn with_keywords(keywords: Seq<CardKeyword>, more: Seq<CardKeyword>) -> Seq<CardKeyword>
    decreases more.len(),
{
    if more.len() == 0 {
        keywords
    } else {
        with_keyword(with_keywords(keywords, more.drop_last()), more.last())
    }
}

/// Adds a keyword unless the list already has it.
pub fn push_keyword(keywords: &mut Vec<CardKeyword>, keyword: CardKeyword)
    ensures
        final(keywords)@ == with_keyword(old(keywords)@, keyword),
{
    if !crate::content::cards::keyword_in(keywords, keyword) {
        keywords.push(keyword);
    }
}

/// Adding a keyword keeps a list free of repeats.
pub proof fn lemma_with_keyword_no_duplicates(keywords: Seq<CardKeyword>, keyword: CardKeyword)
    requires
        keywords.no_duplicates(),
    ensures
        with_keyword(keywords, keyword).no_duplicates(),
        with_keyword(keywords, keyword).contains(keyword),
        forall|k: CardKeyword| keywords.contains(k) ==> #[trigger] with_keyword(keywords, keyword).contains(k),
{
    if !keywords.contains(keyword) {
        let r = keywords.push(keyword);
        assert(r[keywords.len() as int] == keyword);
        assert forall|k: CardKeyword| keywords.contains(k) implies r.contains(k) by {
            let i = choose|i: int| 0 <= i < keywords.len() && keywords[i] == k;
            assert(r[i] == k);
        }
    }
}

/// Adding several keywords keeps a list free of repeats.
pub proof fn lemma_with_keywords_no_duplicates(keywords: Seq<CardKeyword>, more: Seq<CardKeyword>)
    requires
        keywords.no_duplicates(),
    ensures
        with_keywords(keywords, more).no_duplicates(),
    decreases more.len(),
{
    if more.len() > 0 {
        lemma_with_keywords_no_duplicates(keywords, more.drop_last());
        lemma_with_keyword_no_duplicates(with_keywords(keywords, more.drop_last()), more.last());
    }
}

/// The keywords a card shows: its definition's, the upgraded ones when upgraded,
/// those its instance flags add, and Exhaust for a Skill in hand under Corruption;
/// each once, in that order.
pub open spec fn card_keywords(ctx: &CardTextCtx, card: CardInstanceId) -> Seq<CardKeyword> {
    match ctx.state.spec_card(card) {
        Some(c) => if ctx.registry.cards@.contains_key(c.def) {
            let def = ctx.registry.cards@[c.def];
            let k0 = with_keywords(Seq::empty(), def.keywords@);
            let k1 = if c.upgraded { with_keywords(k0, def.upgraded_keywords@) } else { k0 };
            let k2 = if c.flags.ethereal { with_keyword(k1, CardKeyword::Ethereal) } else { k1 };
            let k3 = if c.flags.temporary { with_keyword(k2, CardKeyword::Temporary) } else { k2 };
            let k4 = if c.flags.purge_on_use { with_keyword(k3, CardKeyword::PurgeOnUse) } else { k3 };
            let k5 = if c.flags.zero_cost_this_turn { with_keyword(k4, CardKeyword::FreeThisTurn) } else { k4 };
            let corrupted = match ctx.state.spec_player_creature_id() {
                Some(pc) => ctx.state.spec_first_power(pc, CORRUPTION_POWER) is Some,
                None => false,
            };
            if ctx.scope == CardTextScope::Hand && def.card_type == CardType::Skill && corrupted {
                with_keyword(k5, CardKeyword::Exhaust)
            } else {
                k5
            }
        } else {
            Seq::empty()
        },
        None => Seq::empty(),
    }
}

fn push_keywords(keywords: &mut Vec<CardKeyword>, more: &Vec<CardKeyword>)
    ensures
        final(keywords)@ == with_keywords(old(keywords)@, more@),
{
    let n = more.len();
    let ghost start = keywords@;
    for i in 0..n
        invariant
            n == more@.len(),
            keywords@ == with_keywords(start, more@.take(i as int)),
    {
        proof {
            assert(more@.take((i + 1) as int).drop_last() =~= more@.take(i as int));
        }
        push_keyword(keywords, more[i]);
    }
    proof {
        assert(more@.take(n as int) =~= more@);
    }
}

/// Works out the keywords a card shows.
pub fn describe_keywords(ctx: &CardTextCtx<'_>, card: CardInstanceId) -> (r: Vec<CardKeyword>)
    ensures
        r@ == card_keywords(ctx, card),
        r@.no_duplicates(),
{
    let mut keywords: Vec<CardKeyword> = Vec::new();
    let c = match ctx.state.card(card) {
        Some(c) => c,
        None => return keywords,
    };
    let def = match ctx.registry.cards.get(c.def) {
        Some(d) => d,
        None => return keywords,
    };
    push_keywords(&mut keywords, &def.keywords);
    if c.upgraded {
        push_keywords(&mut keywords, &def.upgraded_keywords);
    }
    if c.flags.ethereal {
        push_keyword(&mut keywords, CardKeyword::Ethereal);
    }
    if c.flags.temporary {
        push_keyword(&mut keywords, CardKeyword::Temporary);
    }
    if c.flags.purge_on_use {
        push_keyword(&mut keywords, CardKeyword::PurgeOnUse);
    }
    if c.flags.zero_cost_this_turn {
        push_keyword(&mut keywords, CardKeyword::FreeThisTurn);
    }
    let corrupted = match ctx.state.player_creature_id() {
        Some(pc) => ctx.state.has_power(pc, CORRUPTION_POWER),
        None => false,
    };
    if ctx.scope == CardTextScope::Hand && def.card_type == CardType::Skill && corrupted {
        push_keyword(&mut keywords, CardKeyword::Exhaust);
    }
    proof {
        let d = ctx.registry.cards@[c.def];
        let k0 = with_keywords(Seq::empty(), d.keywords@);
        lemma_with_keywords_no_duplicates(Seq::empty(), d.keywords@);
        lemma_with_keywords_no_duplicates(k0, d.upgraded_keywords@);
        let k1 = if c.upgraded { with_keywords(k0, d.upgraded_keywords@) } else { k0 };
        lemma_with_keyword_no_duplicates(k1, CardKeyword::Ethereal);
        let k2 = if c.flags.ethereal { with_keyword(k1, CardKeyword::Ethereal) } else { k1 };
        lemma_with_keyword_no_duplicates(k2, CardKeyword::Temporary);
        let k3 = if c.flags.temporary { with_keyword(k2, CardKeyword::Temporary) } else { k2 };
        lemma_with_keyword_no_duplicates(k3, CardKeyword::PurgeOnUse);
        let k4 = if c.flags.purge_on_use { with_keyword(k3, CardKeyword::PurgeOnUse) } else { k3 };
        lemma_with_keyword_no_duplicates(k4, CardKeyword::FreeThisTurn);
        let k5 = if c.flags.zero_cost_this_turn { with_keyword(k4, CardKeyword::FreeThisTurn) } else { k4 };
        lemma_with_keyword_no_duplicates(k5, CardKeyword::Exhaust);
    }
    keywords
}

/// The text a card shows: its lines and its keywords.
pub fn describe_card(ctx: &CardTextCtx<'_>, card: CardInstanceId) -> (r: CardText)
    requires
        text_ready(ctx, card),
    ensures
        lines_view(r.lines@) == card_lines(ctx, card),
        r.keywords@ == card_keywords(ctx, card),
        r.keywords@.no_duplicates(),
{
    let lines = describe_lines(ctx, card);
    let keywords = describe_keywords(ctx, card);
    CardText { lines, keywords }
}

/// The cost in one resource a card shows in hand: a fixed cost after every
/// cost rule of the combat, never below zero; other costs as they are.
pub open spec fn shown_resource_cost(ctx: &CardTextCtx, player: PlayerId, card: CardInstanceId, resource: ResourceKind, cost: CardCost) -> CardCost {
    match cost {
        CardCost::Fixed(base) => {
            let after = cost_fold(
                ctx.state,
                ctx.registry,
                combat_powers(ctx.state).len(),
                ResourceCostCalc { player, card, resource, base_cost: base, cost: base },
            ).cost;
            CardCost::Fixed(if after > 0 { after } else { 0 })
        },
        _ => cost,
    }
}

fn display_resource_cost(ctx: &CardTextCtx<'_>, player: PlayerId, card: CardInstanceId, resource: ResourceKind, cost: CardCost) -> (r: CardCost)
    ensures
        r == shown_resource_cost(ctx, player, card, resource, cost),
{
    match cost {
        CardCost::Fixed(base) => {
            let calc = ResourceCostCalc { player, card, resource, base_cost: base, cost: base };
            let after = pipeline_modify_resource_cost(ctx.registry, ctx.state, calc);
            CardCost::Fixed(if after.cost > 0 { after.cost } else { 0 })
        },
        _ => cost,
    }
}

/// The costs a card shows: its definition's (upgraded or not) with this
/// turn's changes, and in hand each fixed cost after the combat's cost rules.
pub open spec fn card_display_costs(ctx: &CardTextCtx, card: CardInstanceId) -> CardCosts {
    match ctx.state.spec_card(card) {
        Some(c) => {
            let def_costs = if ctx.registry.cards@.contains_key(c.def) {
                ctx.registry.cards@[c.def].spec_costs_for(c.upgraded)
            } else {
                c.costs
            };
            let costs = c.spec_costs_with_temporary(def_costs);
            if ctx.scope != CardTextScope::Hand {
                costs
            } else {
                match ctx.state.spec_player_id() {
                    Some(p) => CardCosts {
                        energy: shown_resource_cost(ctx, p, card, ResourceKind::Energy, costs.energy),
                        stars: shown_resource_cost(ctx, p, card, ResourceKind::Stars, costs.stars),
                    },
                    None => costs,
                }
            }
        },
        None => CardCosts { energy: CardCost::NoCost, stars: CardCost::NoCost },
    }
}

pub fn display_costs(ctx: &CardTextCtx<'_>, card: CardInstanceId) -> (r: CardCosts)
    ensures
        r == card_display_costs(ctx, card),
{
    let c = match ctx.state.card(card) {
        Some(c) => c,
        None => return CardCosts::default(),
    };
    let def_costs = match ctx.registry.cards.get(c.def) {
        Some(def) => def.costs_for(c.upgraded),
        None => c.costs,
    };
    let costs = c.costs_with_temporary(def_costs);
    if ctx.scope != CardTextScope::Hand {
        return costs;
    }
    let player = match ctx.state.player_id() {
        Some(p) => p,
        None => return costs,
    };
    CardCosts {
        energy: display_resource_cost(ctx, player, card, ResourceKind::Energy, costs.energy),
        stars: display_resource_cost(ctx, player, card, ResourceKind::Stars, costs.stars),
    }
}

} // verus!
