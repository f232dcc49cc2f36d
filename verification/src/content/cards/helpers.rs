//! Building blocks of the cards' play bodies.
use vstd::prelude::*;

use super::{CardPlayCtx, CardTag, CardType};
use crate::amount::Amount;
use crate::effect::{
    CardFilter, DamageAllEnemiesOp, DamageFlags, DamageKind, DamageOp, Effect, RandomDamageOp, Source,
};
use crate::ids::{CardInstanceId, CreatureId, PowerId};
use crate::registry_static::StaticRegistry;
use crate::state::{CardState, CombatStats, GameState, ResourceKind, TurnStats};

verus! {

/// The card instance is upgraded.
pub open spec fn spec_is_upgraded(state: &GameState, card: CardInstanceId) -> bool {
    match state.spec_card(card) {
        Some(c) => c.upgraded,
        None => false,
    }
}

/// `base`, plus `upgrade_delta` when the card is upgraded.
pub open spec fn spec_value(state: &GameState, card: CardInstanceId, base: int, upgrade_delta: int) -> int {
    base + if spec_is_upgraded(state, card) {
        upgrade_delta
    } else {
        0
    }
}

/// One attack of the player's creature for `amount`, from the card.
pub open spec fn attack_op(state: &GameState, card: CardInstanceId, target: CreatureId, amount: int) -> Effect {
    Effect::DealDamage(
        DamageOp {
            source: Some(Source::Card(card)),
            dealer: state.spec_player_creature_id(),
            target,
            base_amount: Amount::whole(amount),
            kind: DamageKind::Attack,
            flags: DamageFlags { ignores_block: false },
        },
    )
}

/// `hits` attacks for `amount` each.
pub open spec fn attacks(state: &GameState, card: CardInstanceId, target: CreatureId, amount: int, hits: nat) -> Seq<Effect> {
    Seq::new(hits, |i: int| attack_op(state, card, target, amount))
}

pub open spec fn spec_strike_like(
    state: &GameState,
    card: CardInstanceId,
    target: Option<CreatureId>,
    base: int,
    upgrade_delta: int,
    hits: nat,
) -> Seq<Effect> {
    match target {
        Some(t) => attacks(state, card, t, spec_value(state, card, base, upgrade_delta), hits),
        None => Seq::empty(),
    }
}

pub open spec fn spec_all_enemy_attack(state: &GameState, card: CardInstanceId, amount: int, hit_count: u8) -> Effect {
    Effect::DealDamageToAllEnemies(
        DamageAllEnemiesOp {
            source: Some(Source::Card(card)),
            dealer: state.spec_player_creature_id(),
            base_amount: Amount::whole(amount),
            kind: DamageKind::Attack,
            flags: DamageFlags { ignores_block: false },
            hit_count,
        },
    )
}

pub open spec fn spec_random_enemy_attack(state: &GameState, card: CardInstanceId, amount: int, hit_count: u8) -> Effect {
    Effect::DealDamageToRandomEnemy(
        RandomDamageOp {
            source: Some(Source::Card(card)),
            dealer: state.spec_player_creature_id(),
            base_amount: Amount::whole(amount),
            kind: DamageKind::Attack,
            flags: DamageFlags { ignores_block: false },
            hit_count,
        },
    )
}

pub open spec fn spec_block_self(state: &GameState, card: CardInstanceId, base: int, upgrade_delta: int) -> Seq<Effect> {
    match state.spec_player_creature_id() {
        Some(t) => seq![
            Effect::GainBlock {
                target: t,
                amount: Amount::whole(spec_value(state, card, base, upgrade_delta)),
                source: Some(Source::Card(card)),
            },
        ],
        None => Seq::empty(),
    }
}

pub open spec fn spec_lose_self_hp(state: &GameState, card: CardInstanceId, amount: int) -> Seq<Effect> {
    match state.spec_player_creature_id() {
        Some(t) => seq![
            Effect::LoseHp { target: t, amount: Amount::whole(amount), source: Some(Source::Card(card)) },
        ],
        None => Seq::empty(),
    }
}

pub open spec fn spec_draw_cards(state: &GameState, card: CardInstanceId, count: u8) -> Seq<Effect> {
    match state.spec_card(card) {
        Some(c) => seq![Effect::DrawCards { player: c.owner, count }],
        None => Seq::empty(),
    }
}

pub open spec fn spec_gain_resource(state: &GameState, card: CardInstanceId, resource: ResourceKind, amount: i32) -> Seq<Effect> {
    match state.spec_card(card) {
        Some(c) => seq![Effect::GainResource { player: c.owner, resource, amount }],
        None => Seq::empty(),
    }
}

pub open spec fn spec_apply_power(target: CreatureId, card: CardInstanceId, power: PowerId, amount: int) -> Effect {
    Effect::ApplyPower { target, power, amount: Amount::whole(amount), source: Some(Source::Card(card)) }
}

pub open spec fn spec_apply_self_power(state: &GameState, card: CardInstanceId, power: PowerId, amount: int) -> Seq<Effect> {
    match state.spec_player_creature_id() {
        Some(t) => seq![spec_apply_power(t, card, power, amount)],
        None => Seq::empty(),
    }
}

/// The card's definition in the registry has the given type.
pub open spec fn spec_card_is_type(state: &GameState, registry: &StaticRegistry, card: CardInstanceId, card_type: CardType) -> bool {
    match state.spec_card(card) {
        Some(c) => registry.cards@.contains_key(c.def) && registry.cards@[c.def].card_type == card_type,
        None => false,
    }
}

/// The card matches the filter.
pub open spec fn spec_card_matches_filter(state: &GameState, registry: &StaticRegistry, card: CardInstanceId, filter: CardFilter) -> bool {
    match filter {
        CardFilter::Any => true,
        CardFilter::Attack => spec_card_is_type(state, registry, card, CardType::Attack),
        CardFilter::NonAttack => match state.spec_card(card) {
            Some(c) => registry.cards@.contains_key(c.def) && registry.cards@[c.def].card_type != CardType::Attack,
            None => false,
        },
    }
}

/// The player's hand, bottom to top.
pub open spec fn spec_hand(state: &GameState) -> Seq<CardInstanceId> {
    match state.combat {
        Some(c) => c.player.piles.hand@,
        None => Seq::empty(),
    }
}

/// The card's definition carries the tag.
pub open spec fn spec_has_tag(registry: &StaticRegistry, c: CardState, tag: CardTag) -> bool {
    registry.cards@.contains_key(c.def) && registry.cards@[c.def].tags@.contains(tag)
}

/// The cards of the combat whose definition carries the tag.
pub open spec fn spec_tagged_cards(state: &GameState, registry: &StaticRegistry, tag: CardTag) -> Seq<CardState> {
    match state.combat {
        Some(c) => c.cards@.filter(|cs: CardState| spec_has_tag(registry, cs, tag)),
        None => Seq::empty(),
    }
}

pub fn is_upgraded(ctx: &CardPlayCtx<'_>, card: CardInstanceId) -> (r: bool)
    ensures
        r == spec_is_upgraded(ctx.state, card),
{
    match ctx.state.card(card) {
        Some(c) => c.upgraded,
        None => false,
    }
}

pub fn value(ctx: &CardPlayCtx<'_>, card: CardInstanceId, base: i32, upgrade_delta: i32) -> (r: i32)
    requires
        i32::MIN <= base + upgrade_delta <= i32::MAX,
        0 <= upgrade_delta,
    ensures
        r == spec_value(ctx.state, card, base as int, upgrade_delta as int),
{
    base + if is_upgraded(ctx, card) {
        upgrade_delta
    } else {
        0
    }
}

/// `hits` attacks against `target` for `amount` each.
pub fn attack_effects(ctx: &CardPlayCtx<'_>, card: CardInstanceId, target: CreatureId, amount: i32, hits: u8) -> (r: Vec<Effect>)
    ensures
        r@ == attacks(ctx.state, card, target, amount as int, hits as nat),
{
    let mut out: Vec<Effect> = Vec::new();
    let dealer = ctx.state.player_creature_id();
    let mut i: u8 = 0;
    while i < hits
        invariant
            i <= hits,
            dealer == ctx.state.spec_player_creature_id(),
            out@ =~= attacks(ctx.state, card, target, amount as int, i as nat),
        decreases hits - i,
    {
        out.push(
            Effect::DealDamage(
                DamageOp {
                    source: Some(Source::Card(card)),
                    dealer,
                    target,
                    base_amount: Amount::from_i32(amount),
                    kind: DamageKind::Attack,
                    flags: DamageFlags { ignores_block: false },
                },
            ),
        );
        i = i + 1;
    }
    out
}

/// A targeted attack for `base` (plus `upgrade_delta` upgraded), `hits` times; nothing without a target.
pub fn strike_like(
    ctx: &CardPlayCtx<'_>,
    card: CardInstanceId,
    target: Option<CreatureId>,
    base: i32,
    upgrade_delta: i32,
    hits: u8,
) -> (r: Vec<Effect>)
    requires
        i32::MIN <= base + upgrade_delta <= i32::MAX,
        0 <= upgrade_delta,
    ensures
        r@ == spec_strike_like(ctx.state, card, target, base as int, upgrade_delta as int, hits as nat),
{
    match target {
        Some(t) => attack_effects(ctx, card, t, value(ctx, card, base, upgrade_delta), hits),
        None => Vec::new(),
    }
}

pub fn all_enemy_attack(ctx: &CardPlayCtx<'_>, card: CardInstanceId, amount: i32, hit_count: u8) -> (r: Effect)
    ensures
        r == spec_all_enemy_attack(ctx.state, card, amount as int, hit_count),
{
    Effect::DealDamageToAllEnemies(
        DamageAllEnemiesOp {
            source: Some(Source::Card(card)),
            dealer: ctx.state.player_creature_id(),
            base_amount: Amount::from_i32(amount),
            kind: DamageKind::Attack,
            flags: DamageFlags { ignores_block: false },
            hit_count,
        },
    )
}

pub fn random_enemy_attack(ctx: &CardPlayCtx<'_>, card: CardInstanceId, amount: i32, hit_count: u8) -> (r: Effect)
    ensures
        r == spec_random_enemy_attack(ctx.state, card, amount as int, hit_count),
{
    Effect::DealDamageToRandomEnemy(
        RandomDamageOp {
            source: Some(Source::Card(card)),
            dealer: ctx.state.player_creature_id(),
            base_amount: Amount::from_i32(amount),
            kind: DamageKind::Attack,
            flags: DamageFlags { ignores_block: false },
            hit_count,
        },
    )
}

/// Block for the player's creature; nothing outside a combat.
pub fn block_self(ctx: &CardPlayCtx<'_>, card: CardInstanceId, base: i32, upgrade_delta: i32) -> (r: Vec<Effect>)
    requires
        i32::MIN <= base + upgrade_delta <= i32::MAX,
        0 <= upgrade_delta,
    ensures
        r@ == spec_block_self(ctx.state, card, base as int, upgrade_delta as int),
{
    match ctx.state.player_creature_id() {
        Some(t) => {
            let amount = Amount::from_i32(value(ctx, card, base, upgrade_delta));
            let mut v: Vec<Effect> = Vec::new();
            v.push(Effect::GainBlock { target: t, amount, source: Some(Source::Card(card)) });
            v
        },
        None => Vec::new(),
    }
}

/// The player loses HP from the card.
pub fn lose_self_hp(ctx: &CardPlayCtx<'_>, card: CardInstanceId, amount: i32) -> (r: Vec<Effect>)
    ensures
        r@ == spec_lose_self_hp(ctx.state, card, amount as int),
{
    match ctx.state.player_creature_id() {
        Some(t) => {
            let mut v: Vec<Effect> = Vec::new();
            v.push(Effect::LoseHp { target: t, amount: Amount::from_i32(amount), source: Some(Source::Card(card)) });
            v
        },
        None => Vec::new(),
    }
}

/// The card's owner draws `count` cards.
pub fn draw_cards(ctx: &CardPlayCtx<'_>, card: CardInstanceId, count: u8) -> (r: Vec<Effect>)
    ensures
        r@ == spec_draw_cards(ctx.state, card, count),
{
    match ctx.state.card(card) {
        Some(c) => {
            let mut v: Vec<Effect> = Vec::new();
            v.push(Effect::DrawCards { player: c.owner, count });
            v
        },
        None => Vec::new(),
    }
}

/// The card's owner gains `amount` of the resource.
pub fn gain_resource(ctx: &CardPlayCtx<'_>, card: CardInstanceId, resource: ResourceKind, amount: i32) -> (r: Vec<Effect>)
    ensures
        r@ == spec_gain_resource(ctx.state, card, resource, amount),
{
    match ctx.state.card(card) {
        Some(c) => {
            let mut v: Vec<Effect> = Vec::new();
            v.push(Effect::GainResource { player: c.owner, resource, amount });
            v
        },
        None => Vec::new(),
    }
}

/// The card's owner gains `amount` energy.
pub fn gain_energy(ctx: &CardPlayCtx<'_>, card: CardInstanceId, amount: i32) -> (r: Vec<Effect>)
    ensures
        r@ == spec_gain_resource(ctx.state, card, ResourceKind::Energy, amount),
{
    gain_resource(ctx, card, ResourceKind::Energy, amount)
}

/// A power for the player's creature; nothing outside a combat.
pub fn apply_self_power(ctx: &CardPlayCtx<'_>, card: CardInstanceId, power: PowerId, amount: i32) -> (r: Vec<Effect>)
    ensures
        r@ == spec_apply_self_power(ctx.state, card, power, amount as int),
{
    match ctx.state.player_creature_id() {
        Some(t) => {
            let mut v: Vec<Effect> = Vec::new();
            v.push(apply_power(t, card, power, amount));
            v
        },
        None => Vec::new(),
    }
}

/// A power for any creature, from the card.
pub fn apply_power(target: CreatureId, card: CardInstanceId, power: PowerId, amount: i32) -> (r: Effect)
    ensures
        r == spec_apply_power(target, card, power, amount as int),
{
    Effect::ApplyPower { target, power, amount: Amount::from_i32(amount), source: Some(Source::Card(card)) }
}

/// The card's definition has the given type.
pub fn card_is_type(state: &GameState, registry: &StaticRegistry, card: CardInstanceId, card_type: CardType) -> (r: bool)
    ensures
        r == spec_card_is_type(state, registry, card, card_type),
{
    match state.card(card) {
        Some(c) => match registry.cards.get(c.def) {
            Some(def) => def.card_type == card_type,
            None => false,
        },
        None => false,
    }
}

pub fn card_matches_filter(ctx: &CardPlayCtx<'_>, card: CardInstanceId, filter: CardFilter) -> (r: bool)
    ensures
        r == spec_card_matches_filter(ctx.state, ctx.registry, card, filter),
{
    match filter {
        CardFilter::Any => true,
        CardFilter::Attack => card_is_type(ctx.state, ctx.registry, card, CardType::Attack),
        CardFilter::NonAttack => match ctx.state.card(card) {
            Some(c) => match ctx.registry.cards.get(c.def) {
                Some(def) => def.card_type != CardType::Attack,
                None => false,
            },
            None => false,
        },
    }
}

/// The cards of the hand that match the filter, bottom to top.
pub fn hand_matching(ctx: &CardPlayCtx<'_>, filter: CardFilter) -> (r: Vec<CardInstanceId>)
    ensures
        r@ == spec_hand(ctx.state).filter(|c: CardInstanceId| spec_card_matches_filter(ctx.state, ctx.registry, c, filter)),
{
    let mut out: Vec<CardInstanceId> = Vec::new();
    let combat = match ctx.state.combat() {
        Some(c) => c,
        None => return out,
    };
    let hand = &combat.player.piles.hand;
    let n = hand.len();
    for i in 0..n
        invariant
            n == hand@.len(),
            hand@ == spec_hand(ctx.state),
            out@ == hand@.take(i as int).filter(|c: CardInstanceId| spec_card_matches_filter(ctx.state, ctx.registry, c, filter)),
    {
        proof {
            reveal_with_fuel(Seq::filter, 1);
            assert(hand@.take((i + 1) as int).drop_last() =~= hand@.take(i as int));
        }
        if card_matches_filter(ctx, hand[i], filter) {
            out.push(hand[i]);
        }
    }
    proof {
        assert(hand@.take(n as int) =~= hand@);
    }
    out
}

/// The cards of the hand of the given type, bottom to top.
pub fn hand_matching_type(ctx: &CardPlayCtx<'_>, card_type: CardType) -> (r: Vec<CardInstanceId>)
    ensures
        r@ == spec_hand(ctx.state).filter(|c: CardInstanceId| spec_card_is_type(ctx.state, ctx.registry, c, card_type)),
{
    let mut out: Vec<CardInstanceId> = Vec::new();
    let combat = match ctx.state.combat() {
        Some(c) => c,
        None => return out,
    };
    let hand = &combat.player.piles.hand;
    let n = hand.len();
    for i in 0..n
        invariant
            n == hand@.len(),
            hand@ == spec_hand(ctx.state),
            out@ == hand@.take(i as int).filter(|c: CardInstanceId| spec_card_is_type(ctx.state, ctx.registry, c, card_type)),
    {
        proof {
            reveal_with_fuel(Seq::filter, 1);
            assert(hand@.take((i + 1) as int).drop_last() =~= hand@.take(i as int));
        }
        if card_is_type(ctx.state, ctx.registry, hand[i], card_type) {
            out.push(hand[i]);
        }
    }
    proof {
        assert(hand@.take(n as int) =~= hand@);
    }
    out
}

/// How many cards of the hand have the given type.
pub fn count_hand_type(ctx: &CardPlayCtx<'_>, card_type: CardType) -> (r: i32)
    ensures
        r == spec_hand(ctx.state).filter(|c: CardInstanceId| spec_card_is_type(ctx.state, ctx.registry, c, card_type)).len() as i32,
{
    hand_matching_type(ctx, card_type).len() as i32
}

/// How many cards of the combat carry the tag.
pub fn count_all_tag(ctx: &CardPlayCtx<'_>, tag: CardTag) -> (r: i32)
    ensures
        r == spec_tagged_cards(ctx.state, ctx.registry, tag).len() as i32,
{
    let combat = match ctx.state.combat() {
        Some(c) => c,
        None => return 0,
    };
    let cards = &combat.cards;
    let n = cards.len();
    let mut count: usize = 0;
    for i in 0..n
        invariant
            n == cards@.len(),
            ctx.state.combat == Some(*combat),
            count == cards@.take(i as int).filter(|cs: CardState| spec_has_tag(ctx.registry, cs, tag)).len(),
            count <= i,
    {
        proof {
            reveal_with_fuel(Seq::filter, 1);
            assert(cards@.take((i + 1) as int).drop_last() =~= cards@.take(i as int));
        }
        let has = match ctx.registry.cards.get(cards[i].def) {
            Some(def) => def.has_tag(tag),
            None => false,
        };
        if has {
            count = count + 1;
        }
    }
    proof {
        assert(cards@.take(n as int) =~= cards@);
    }
    count as i32
}

/// The player's exhaust pile, bottom to top.
pub open spec fn spec_exhaust(state: &GameState) -> Seq<CardInstanceId> {
    match state.combat {
        Some(c) => c.player.piles.exhaust@,
        None => Seq::empty(),
    }
}

/// The player's discard pile, bottom to top.
pub open spec fn spec_discard(state: &GameState) -> Seq<CardInstanceId> {
    match state.combat {
        Some(c) => c.player.piles.discard@,
        None => Seq::empty(),
    }
}

/// The block of the player's creature, 0 without one.
pub open spec fn spec_player_block(state: &GameState) -> int {
    match state.spec_player_creature_id() {
        Some(id) => match state.spec_creature(id) {
            Some(cr) => cr.block as int,
            None => 0,
        },
        None => 0,
    }
}

pub open spec fn spec_turn_stats(state: &GameState) -> Option<TurnStats> {
    match state.combat {
        Some(c) => Some(c.turn_stats),
        None => None,
    }
}

pub open spec fn spec_combat_stats(state: &GameState) -> Option<CombatStats> {
    match state.combat {
        Some(c) => Some(c.combat_stats),
        None => None,
    }
}

pub fn hand_len(state: &GameState) -> (r: usize)
    ensures
        r == spec_hand(state).len(),
{
    match state.combat() {
        Some(c) => c.player.piles.hand.len(),
        None => 0,
    }
}

pub fn exhaust_len(state: &GameState) -> (r: usize)
    ensures
        r == spec_exhaust(state).len(),
{
    match state.combat() {
        Some(c) => c.player.piles.exhaust.len(),
        None => 0,
    }
}

/// The top card of the player's discard pile.
pub fn discard_top(state: &GameState) -> (r: Option<CardInstanceId>)
    ensures
        r == (if spec_discard(state).len() > 0 { Some(spec_discard(state).last()) } else { None::<CardInstanceId> }),
{
    match state.combat() {
        Some(c) => {
            let n = c.player.piles.discard.len();
            if n > 0 {
                Some(c.player.piles.discard[n - 1])
            } else {
                None
            }
        },
        None => None,
    }
}

pub fn player_block(state: &GameState) -> (r: i32)
    ensures
        r == spec_player_block(state),
{
    match state.player_creature_id() {
        Some(id) => match state.creature(id) {
            Some(cr) => cr.block,
            None => 0,
        },
        None => 0,
    }
}

pub fn turn_stats(state: &GameState) -> (r: Option<TurnStats>)
    ensures
        r == spec_turn_stats(state),
{
    match state.combat() {
        Some(c) => Some(c.turn_stats),
        None => None,
    }
}

pub fn combat_stats(state: &GameState) -> (r: Option<CombatStats>)
    ensures
        r == spec_combat_stats(state),
{
    match state.combat() {
        Some(c) => Some(c.combat_stats),
        None => None,
    }
}

/// `a` followed by `b`.
pub fn concat(a: Vec<Effect>, b: Vec<Effect>) -> (r: Vec<Effect>)
    ensures
        r@ == a@ + b@,
{
    let mut a = a;
    let mut b = b;
    a.append(&mut b);
    a
}

/// `a` followed by `e`.
pub fn push(a: Vec<Effect>, e: Effect) -> (r: Vec<Effect>)
    ensures
        r@ == a@.push(e),
{
    let mut a = a;
    a.push(e);
    a
}

/// The one effect `e`.
pub fn one(e: Effect) -> (r: Vec<Effect>)
    ensures
        r@ == seq![e],
{
    let mut v: Vec<Effect> = Vec::new();
    v.push(e);
    v
}

} // verus!
