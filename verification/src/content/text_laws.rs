//! What a card's text shows, stated with the catalogue's own numbers: the
//! amounts a card's lines show, in a pile and while no power changes them.
use vstd::prelude::*;

use crate::amount::pow10;
use crate::content::card_text::ironclad::{ironclad_lines, lemma_ironclad_lines_nonempty};
use crate::content::card_text::{
    card_lines, s_apply_power_line, s_block, s_damage, s_damage_all, s_preview_damage, s_val, CardTextCtx,
    CardTextScope,
};
use crate::content::cards::ironclad::ironclad_table;
use crate::content::laws::{is_upgraded_card, up};
use crate::ids::{CardId, CardInstanceId};
use crate::pipeline::{combat_powers, damage_fold, pipeline_damage, ModifyPhase};
use crate::registry_static::{holds_catalogue, StaticRegistry};
use crate::state::GameState;
use crate::text::int_text;

verus! {

/// A number a card's text works out is its base, plus the upgrade's delta
/// when the card is upgraded.
pub proof fn lemma_text_value(ctx: &CardTextCtx, card: CardInstanceId, base: int, delta: int)
    ensures
        s_val(ctx, card, base, delta) == base + if is_upgraded_card(ctx.state, card) { delta } else { 0 },
{
}

/// The line a card shows for one attack of `n`.
pub open spec fn deal_line(n: int) -> (Seq<char>, Seq<char>) {
    ("Deal "@ + int_text(n) + " damage."@, "造成"@ + int_text(n) + "点伤害。"@)
}

/// The line a card shows for applying `n` Vulnerable.
pub open spec fn vulnerable_line(n: int) -> (Seq<char>, Seq<char>) {
    ("Apply "@ + int_text(n) + " Vulnerable."@, "给予"@ + int_text(n) + "层易伤。"@)
}

/// With no power in the combat, damage rules leave any amount as it is.
pub proof fn lemma_no_powers_no_change(state: &GameState, registry: &StaticRegistry, phase: ModifyPhase, calc: crate::rules::DamageCalc)
    requires
        combat_powers(state).len() == 0,
    ensures
        damage_fold(state, registry, phase, 0, calc) == Some(calc),
        pipeline_damage(state, registry, calc) == Some(calc),
{
}

/// A card of the catalogue's Ironclad pool shows its Ironclad lines.
proof fn lemma_ironclad_card_lines(ctx: &CardTextCtx, card: CardInstanceId, i: int)
    requires
        holds_catalogue(ctx.registry),
        0 <= i < ironclad_table().len(),
        ctx.state.spec_card(card) matches Some(c) && c.def == ironclad_table()[i].id,
    ensures
        card_lines(ctx, card) == ironclad_lines(ctx, ironclad_table()[i].id, card),
{
    let k = ironclad_table()[i].id;
    assert(ironclad_table()[i].describes(ctx.registry.cards@[k]));
    lemma_ironclad_lines_nonempty(ctx, card, i);
}

proof fn lemma_strike_card_lines(ctx: &CardTextCtx, card: CardInstanceId)
    requires
        holds_catalogue(ctx.registry),
        ctx.state.spec_card(card) matches Some(c) && c.def == CardId::StrikeIronclad,
    ensures
        card_lines(ctx, card) == ironclad_lines(ctx, CardId::StrikeIronclad, card),
{
    assert(ironclad_table()[72].id == CardId::StrikeIronclad);
    lemma_ironclad_card_lines(ctx, card, 72);
}

proof fn lemma_bash_card_lines(ctx: &CardTextCtx, card: CardInstanceId)
    requires
        holds_catalogue(ctx.registry),
        ctx.state.spec_card(card) matches Some(c) && c.def == CardId::Bash,
    ensures
        card_lines(ctx, card) == ironclad_lines(ctx, CardId::Bash, card),
{
    assert(ironclad_table()[5].id == CardId::Bash);
    lemma_ironclad_card_lines(ctx, card, 5);
}

/// In a pile, or while no power changes damage, the damage a card shows is
/// the amount it works out.
proof fn lemma_shown_damage(ctx: &CardTextCtx, card: CardInstanceId, n: int)
    requires
        ctx.scope == CardTextScope::Pile || combat_powers(ctx.state).len() == 0,
        0 <= n <= i32::MAX,
    ensures
        s_preview_damage(ctx, card, n) == n,
{
    assert(pow10(0) == 1);
}

/// The line a card shows for an attack of `n` on every enemy.
pub open spec fn all_line(n: int) -> (Seq<char>, Seq<char>) {
    ("Deal "@ + int_text(n) + " damage to ALL enemies."@, "对所有敌人造成"@ + int_text(n) + "点伤害。"@)
}

/// The line a card shows for `n` Block.
pub open spec fn block_line(n: int) -> (Seq<char>, Seq<char>) {
    ("Gain "@ + int_text(n) + " Block."@, "获得"@ + int_text(n) + "点格挡。"@)
}

/// In a pile, a card's damage, all-enemy damage and Block lines show the
/// base amount, plus the upgrade's delta when the card is upgraded.
pub proof fn lemma_pile_amount_lines(ctx: &CardTextCtx, card: CardInstanceId, base: int, delta: int)
    requires
        ctx.scope == CardTextScope::Pile,
    ensures
        s_damage(ctx, card, base, delta) == deal_line(base + if is_upgraded_card(ctx.state, card) { delta } else { 0 }),
        s_damage_all(ctx, card, base, delta) == all_line(base + if is_upgraded_card(ctx.state, card) { delta } else { 0 }),
        s_block(ctx, card, base, delta) == block_line(base + if is_upgraded_card(ctx.state, card) { delta } else { 0 }),
{
}

/// In a pile, Anger shows damage 6 (8 upgraded).
pub proof fn lemma_anger_text(ctx: &CardTextCtx, card: CardInstanceId)
    requires
        ctx.scope == CardTextScope::Pile,
    ensures
        ironclad_lines(ctx, CardId::Anger, card).len() == 2,
        ironclad_lines(ctx, CardId::Anger, card)[0] == deal_line(up(ctx.state, card, 6, 8)),
{
}

/// In a pile, Bludgeon shows damage 32 (42 upgraded).
pub proof fn lemma_bludgeon_text(ctx: &CardTextCtx, card: CardInstanceId)
    requires
        ctx.scope == CardTextScope::Pile,
    ensures
        ironclad_lines(ctx, CardId::Bludgeon, card).len() == 1,
        ironclad_lines(ctx, CardId::Bludgeon, card)[0] == deal_line(up(ctx.state, card, 32, 42)),
{
}

/// In a pile, DefendIronclad shows Block 5 (8 upgraded).
pub proof fn lemma_defend_ironclad_text(ctx: &CardTextCtx, card: CardInstanceId)
    requires
        ctx.scope == CardTextScope::Pile,
    ensures
        ironclad_lines(ctx, CardId::DefendIronclad, card).len() == 1,
        ironclad_lines(ctx, CardId::DefendIronclad, card)[0] == block_line(up(ctx.state, card, 5, 8)),
{
}

/// In a pile, IronWave shows Block 5 (7 upgraded), damage 5 (7 upgraded).
pub proof fn lemma_iron_wave_text(ctx: &CardTextCtx, card: CardInstanceId)
    requires
        ctx.scope == CardTextScope::Pile,
    ensures
        ironclad_lines(ctx, CardId::IronWave, card).len() == 2,
        ironclad_lines(ctx, CardId::IronWave, card)[0] == block_line(up(ctx.state, card, 5, 7)),
        ironclad_lines(ctx, CardId::IronWave, card)[1] == deal_line(up(ctx.state, card, 5, 7)),
{
}

/// In a pile, ShrugItOff shows Block 8 (11 upgraded).
pub proof fn lemma_shrug_it_off_text(ctx: &CardTextCtx, card: CardInstanceId)
    requires
        ctx.scope == CardTextScope::Pile,
    ensures
        ironclad_lines(ctx, CardId::ShrugItOff, card).len() == 2,
        ironclad_lines(ctx, CardId::ShrugItOff, card)[0] == block_line(up(ctx.state, card, 8, 11)),
{
}

/// In a pile, Thunderclap shows damage to all enemies 4 (7 upgraded).
pub proof fn lemma_thunderclap_text(ctx: &CardTextCtx, card: CardInstanceId)
    requires
        ctx.scope == CardTextScope::Pile,
    ensures
        ironclad_lines(ctx, CardId::Thunderclap, card).len() == 2,
        ironclad_lines(ctx, CardId::Thunderclap, card)[0] == all_line(up(ctx.state, card, 4, 7)),
{
}

/// A Strike of the catalogue shows the damage its play deals: 6, or 9
/// upgraded, in a pile, and in hand too while no power changes damage.
#[verifier::rlimit(50)]
pub proof fn lemma_strike_text(ctx: &CardTextCtx, card: CardInstanceId)
    requires
        holds_catalogue(ctx.registry),
        ctx.state.spec_card(card) matches Some(c) && c.def == CardId::StrikeIronclad,
        ctx.scope == CardTextScope::Pile || combat_powers(ctx.state).len() == 0,
    ensures
        card_lines(ctx, card) == seq![deal_line(if is_upgraded_card(ctx.state, card) { 9 } else { 6 })],
{
    lemma_strike_card_lines(ctx, card);
    let n: int = if is_upgraded_card(ctx.state, card) { 9 } else { 6 };
    lemma_shown_damage(ctx, card, n);
    assert(ironclad_lines(ctx, CardId::StrikeIronclad, card) =~= seq![deal_line(n)]);
}

/// A Bash of the catalogue, in a pile, shows the damage and the Vulnerable
/// its play gives: 8 and 2, or 10 and 3 upgraded.
#[verifier::rlimit(100)]
pub proof fn lemma_bash_text(ctx: &CardTextCtx, card: CardInstanceId)
    requires
        holds_catalogue(ctx.registry),
        ctx.state.spec_card(card) matches Some(c) && c.def == CardId::Bash,
        ctx.scope == CardTextScope::Pile,
    ensures
        card_lines(ctx, card) == seq![
            deal_line(if is_upgraded_card(ctx.state, card) { 10 } else { 8 }),
            vulnerable_line(if is_upgraded_card(ctx.state, card) { 3 } else { 2 }),
        ],
{
    lemma_bash_card_lines(ctx, card);
    let d: int = if is_upgraded_card(ctx.state, card) { 10 } else { 8 };
    let n: int = if is_upgraded_card(ctx.state, card) { 3 } else { 2 };
    lemma_shown_damage(ctx, card, d);
    lemma_vulnerable_line(n);
    assert(ironclad_lines(ctx, CardId::Bash, card) =~= seq![deal_line(d), vulnerable_line(n)]);
}

proof fn lemma_vulnerable_line(n: int)
    ensures
        s_apply_power_line("Vulnerable", "易伤", n) == vulnerable_line(n),
{
    reveal_strlit("Apply ");
    reveal_strlit(" ");
    reveal_strlit("Vulnerable");
    reveal_strlit(".");
    reveal_strlit(" Vulnerable.");
    reveal_strlit("给予");
    reveal_strlit("层");
    reveal_strlit("易伤");
    reveal_strlit("。");
    reveal_strlit("层易伤。");
    assert(("Apply "@ + int_text(n) + " "@ + "Vulnerable"@ + "."@) =~= ("Apply "@ + int_text(n) + " Vulnerable."@));
    assert(("给予"@ + int_text(n) + "层"@ + "易伤"@ + "。"@) =~= ("给予"@ + int_text(n) + "层易伤。"@));
}

} // verus!
