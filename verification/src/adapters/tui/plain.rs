//! The combat as plain text, one line at a time, for terminals without the
//! full-screen interface.
use vstd::prelude::*;

use crate::adapters::tui::driver::{block_suffix, block_suffix_text, pad_display, padded};
use crate::adapters::tui::view::{
    format_power_list, power_list_text, power_views_view, strings_view, CardView, CombatSnapshot, CreatureView,
};
use crate::assets::localization::{phase_label, Localization};
use crate::state::MAX_CARDS_IN_HAND;
use crate::text::{append_str, digits, int_text, owned, push_char, push_digits, push_int};

verus! {

/// The text, followed by spaces up to `width` characters.
pub open spec fn left_aligned(s: Seq<char>, width: nat) -> Seq<char> {
    if s.len() >= width {
        s
    } else {
        s + Seq::new((width - s.len()) as nat, |i: int| ' ')
    }
}

/// The texts joined by the separator.
pub open spec fn joined(parts: Seq<Seq<char>>, sep: Seq<char>) -> Seq<char>
    decreases parts.len(),
{
    if parts.len() == 0 {
        seq![]
    } else if parts.len() == 1 {
        parts[0]
    } else {
        joined(parts.drop_last(), sep) + sep + parts.last()
    }
}

/// The title line: title, seed, phase and language.
pub open spec fn header_text(s: &CombatSnapshot, loc: &Localization) -> Seq<char> {
    loc.spec_ui("app.title")@ + " | "@ + loc.spec_ui("label.seed")@ + " "@ + digits(s.seed as nat) + " | "@
        + loc.spec_ui("label.phase")@ + " "@ + phase_label(loc.spec_language(), s.phase)@ + " | lang "@
        + loc.spec_language().spec_code()@
}

/// The player's line: HP, block, energy and stars.
pub open spec fn player_text(s: &CombatSnapshot, loc: &Localization) -> Seq<char> {
    let base = loc.spec_ui("label.player")@ + ": "@ + loc.spec_ui("label.hp")@ + " "@ + int_text(s.player.hp as int) + "/"@
        + int_text(s.player.max_hp as int) + block_suffix_text(s.player.block, loc) + "  "@
        + loc.spec_ui("label.energy")@ + " "@ + int_text(s.energy as int) + "/"@ + int_text(s.max_energy as int);
    if s.stars > 0 {
        base + "  "@ + loc.spec_ui("label.stars")@ + " "@ + int_text(s.stars as int)
    } else {
        base
    }
}

/// The line of a creature's powers, indented.
pub open spec fn status_text(indent: Seq<char>, c: CreatureView, loc: &Localization) -> Seq<char> {
    indent + loc.spec_ui("label.status")@ + ": "@ + power_list_text(power_views_view(c.powers@))
}

/// The counts of the piles.
pub open spec fn piles_text(s: &CombatSnapshot, loc: &Localization) -> Seq<char> {
    loc.spec_ui("label.piles")@ + ": "@ + loc.spec_ui("label.draw")@ + " "@ + digits(s.draw_pile@.len()) + "  "@
        + loc.spec_ui("label.discard")@ + " "@ + digits(s.discard_pile@.len()) + "  "@ + loc.spec_ui("label.exhaust")@
        + " "@ + digits(s.exhaust_pile@.len())
}

/// A monster's lines: its number, label, HP, block, intent and death, then
/// its powers where it has any.
pub open spec fn monster_head(m: CreatureView, index: int, loc: &Localization) -> Seq<char> {
    let base = "  "@ + digits((index + 1) as nat) + ". "@ + m.label@ + "  "@ + loc.spec_ui("label.hp")@ + " "@ + int_text(
        m.hp as int,
    ) + "/"@ + int_text(m.max_hp as int) + block_suffix_text(m.block, loc) + "  "@ + loc.spec_ui("label.intent")@ + " "@
        + m.intent@;
    if m.alive {
        base
    } else {
        base + "  "@ + loc.spec_ui("label.dead")@
    }
}

pub open spec fn monster_lines(m: CreatureView, index: int, loc: &Localization) -> Seq<Seq<char>> {
    let head = monster_head(m, index, loc);
    if m.powers@.len() == 0 {
        seq![head]
    } else {
        seq![head, status_text("     "@, m, loc)]
    }
}

pub open spec fn monsters_lines(ms: Seq<CreatureView>, loc: &Localization) -> Seq<Seq<char>>
    decreases ms.len(),
{
    if ms.len() == 0 {
        seq![]
    } else {
        monsters_lines(ms.drop_last(), loc) + monster_lines(ms.last(), ms.len() - 1, loc)
    }
}

/// A card's lines: its number, cost, label, type and keywords, then its
/// description, indented.
pub open spec fn card_head(c: CardView, index: int) -> Seq<char> {
    let base = "  "@ + digits((index + 1) as nat) + ". "@ + left_aligned(c.cost@, 8) + " "@ + padded(c.label@, 28) + "  "@
        + c.card_type@;
    if c.keywords@.len() == 0 {
        base
    } else {
        base + "  ["@ + joined(strings_view(c.keywords@), ", "@) + "]"@
    }
}

pub open spec fn card_lines_text(c: CardView, index: int) -> Seq<Seq<char>> {
    seq![card_head(c, index)] + strings_view(c.description@).map_values(|l: Seq<char>| "      "@ + l)
}

pub open spec fn hand_lines(cs: Seq<CardView>) -> Seq<Seq<char>>
    decreases cs.len(),
{
    if cs.len() == 0 {
        seq![]
    } else {
        hand_lines(cs.drop_last()) + card_lines_text(cs.last(), cs.len() - 1)
    }
}

/// The lines above the monsters: header, player, the player's powers where
/// there are any, piles, a blank line and the monsters' heading.
pub open spec fn top_text(s: &CombatSnapshot, loc: &Localization) -> Seq<Seq<char>> {
    let status = if s.player.powers@.len() > 0 {
        seq![status_text(seq![], s.player, loc)]
    } else {
        seq![]
    };
    seq![header_text(s, loc), player_text(s, loc)] + status + seq![piles_text(s, loc), seq![], loc.spec_ui("label.monsters")@ + ":"@]
}

/// The monsters, or `none`; a blank line; the hand's heading.
pub open spec fn middle_text(s: &CombatSnapshot, loc: &Localization) -> Seq<Seq<char>> {
    let none = if s.monsters@.len() == 0 {
        seq!["  "@ + loc.spec_ui("label.none")@]
    } else {
        seq![]
    };
    monsters_lines(s.monsters@, loc) + none + seq![
        seq![],
        loc.spec_ui("label.hand")@ + " "@ + digits(s.hand@.len()) + "/"@ + digits(MAX_CARDS_IN_HAND as nat) + ":"@,
    ]
}

/// The hand, or `empty`; a blank line; the messages' heading and the messages.
pub open spec fn bottom_text(s: &CombatSnapshot, messages: Seq<Seq<char>>, loc: &Localization) -> Seq<Seq<char>> {
    let empty = if s.hand@.len() == 0 {
        seq!["  "@ + loc.spec_ui("label.empty")@]
    } else {
        seq![]
    };
    hand_lines(s.hand@) + empty + seq![seq![], loc.spec_ui("label.messages")@ + ":"@] + messages.map_values(
        |m: Seq<char>| "  "@ + m,
    )
}

/// The whole screen: the header, the player, the monsters, the hand and the
/// messages, with their headings.
pub open spec fn snapshot_text(s: &CombatSnapshot, messages: Seq<Seq<char>>, loc: &Localization) -> Seq<Seq<char>> {
    top_text(s, loc) + middle_text(s, loc) + bottom_text(s, messages, loc)
}

/// Every label of the hand fits the width arithmetic.
pub open spec fn labels_fit(s: &CombatSnapshot) -> bool {
    forall|i: int| 0 <= i < s.hand@.len() ==> (#[trigger] s.hand@[i]).label@.len() <= usize::MAX / 2
}

fn pad_chars(value: &str, width: usize) -> (r: String)
    ensures
        r@ == left_aligned(value@, width as nat),
{
    let mut s = owned(value);
    let n = value.unicode_len();
    if n >= width {
        return s;
    }
    let k = width - n;
    for i in 0..k
        invariant
            s@ == value@ + Seq::new(i as nat, |j: int| ' '),
    {
        push_char(&mut s, ' ');
        proof {
            assert(value@ + Seq::new((i + 1) as nat, |j: int| ' ') =~= (value@ + Seq::new(i as nat, |j: int| ' ')).push(' '));
        }
    }
    s
}

fn join_strings(parts: &Vec<String>, sep: &str) -> (r: String)
    ensures
        r@ == joined(strings_view(parts@), sep@),
{
    let mut s = String::new();
    let n = parts.len();
    for i in 0..n
        invariant
            n == parts@.len(),
            s@ == joined(strings_view(parts@.take(i as int)), sep@),
    {
        proof {
            assert(strings_view(parts@.take((i + 1) as int)).drop_last() =~= strings_view(parts@.take(i as int)));
        }
        if i > 0 {
            s.append(sep);
        }
        s.append(parts[i].as_str());
    }
    proof {
        assert(parts@.take(n as int) =~= parts@);
    }
    s
}

fn push_line(out: &mut Vec<String>, line: String)
    ensures
        strings_view(final(out)@) == strings_view(old(out)@).push(line@),
{
    let ghost before = out@;
    out.push(line);
    assert(strings_view(out@) =~= strings_view(before).push(line@));
}

fn status_line_exec(indent: &str, c: &CreatureView, loc: &Localization) -> (r: String)
    ensures
        r@ == status_text(indent@, *c, loc),
{
    let s = owned(indent);
    let s = append_str(s, loc.ui("label.status"));
    let s = append_str(s, ": ");
    let list = format_power_list(&c.powers);
    append_str(s, list.as_str())
}

fn header_line(s: &CombatSnapshot, loc: &Localization) -> (r: String)
    ensures
        r@ == header_text(s, loc),
{
    let mut h = owned(loc.ui("app.title"));
    h.append(" | ");
    h.append(loc.ui("label.seed"));
    h.append(" ");
    push_digits(&mut h, s.seed);
    h.append(" | ");
    h.append(loc.ui("label.phase"));
    h.append(" ");
    h.append(loc.phase(s.phase));
    h.append(" | lang ");
    h.append(loc.language().code());
    h
}

fn player_line(s: &CombatSnapshot, loc: &Localization) -> (r: String)
    ensures
        r@ == player_text(s, loc),
{
    let mut p = owned(loc.ui("label.player"));
    p.append(": ");
    p.append(loc.ui("label.hp"));
    p.append(" ");
    push_int(&mut p, s.player.hp as i64);
    p.append("/");
    push_int(&mut p, s.player.max_hp as i64);
    let b = block_suffix(s.player.block, loc);
    p.append(b.as_str());
    p.append("  ");
    p.append(loc.ui("label.energy"));
    p.append(" ");
    push_int(&mut p, s.energy as i64);
    p.append("/");
    push_int(&mut p, s.max_energy as i64);
    if s.stars > 0 {
        p.append("  ");
        p.append(loc.ui("label.stars"));
        p.append(" ");
        push_int(&mut p, s.stars as i64);
    }
    p
}

fn piles_line(s: &CombatSnapshot, loc: &Localization) -> (r: String)
    ensures
        r@ == piles_text(s, loc),
{
    let mut pl = owned(loc.ui("label.piles"));
    pl.append(": ");
    pl.append(loc.ui("label.draw"));
    pl.append(" ");
    push_digits(&mut pl, s.draw_pile.len() as u64);
    pl.append("  ");
    pl.append(loc.ui("label.discard"));
    pl.append(" ");
    push_digits(&mut pl, s.discard_pile.len() as u64);
    pl.append("  ");
    pl.append(loc.ui("label.exhaust"));
    pl.append(" ");
    push_digits(&mut pl, s.exhaust_pile.len() as u64);
    pl
}

fn monster_head_exec(m: &CreatureView, index: usize, loc: &Localization) -> (r: String)
    requires
        index < usize::MAX,
    ensures
        r@ == monster_head(*m, index as int, loc),
{
    let mut s = owned("  ");
    push_digits(&mut s, (index + 1) as u64);
    s.append(". ");
    s.append(m.label.as_str());
    s.append("  ");
    s.append(loc.ui("label.hp"));
    s.append(" ");
    push_int(&mut s, m.hp as i64);
    s.append("/");
    push_int(&mut s, m.max_hp as i64);
    let b = block_suffix(m.block, loc);
    s.append(b.as_str());
    s.append("  ");
    s.append(loc.ui("label.intent"));
    s.append(" ");
    s.append(m.intent.as_str());
    if !m.alive {
        s.append("  ");
        s.append(loc.ui("label.dead"));
    }
    s
}

fn monster_lines_exec(out: &mut Vec<String>, m: &CreatureView, index: usize, loc: &Localization)
    requires
        index < usize::MAX,
    ensures
        strings_view(final(out)@) == strings_view(old(out)@) + monster_lines(*m, index as int, loc),
{
    let ghost before = strings_view(out@);
    let head = monster_head_exec(m, index, loc);
    push_line(out, head);
    if m.powers.len() > 0 {
        let st = status_line_exec("     ", m, loc);
        push_line(out, st);
    }
    proof {
        assert(strings_view(out@) =~= before + monster_lines(*m, index as int, loc));
    }
}

fn card_head_exec(c: &CardView, index: usize) -> (r: String)
    requires
        index < usize::MAX,
        c.label@.len() <= usize::MAX / 2,
    ensures
        r@ == card_head(*c, index as int),
{
    let mut s = owned("  ");
    push_digits(&mut s, (index + 1) as u64);
    s.append(". ");
    let cost = pad_chars(c.cost.as_str(), 8);
    s.append(cost.as_str());
    s.append(" ");
    let label = pad_display(c.label.as_str(), 28);
    s.append(label.as_str());
    s.append("  ");
    s.append(c.card_type.as_str());
    if c.keywords.len() > 0 {
        s.append("  [");
        let k = join_strings(&c.keywords, ", ");
        s.append(k.as_str());
        s.append("]");
    }
    s
}

fn card_lines_exec(out: &mut Vec<String>, c: &CardView, index: usize)
    requires
        index < usize::MAX,
        c.label@.len() <= usize::MAX / 2,
    ensures
        strings_view(final(out)@) == strings_view(old(out)@) + card_lines_text(*c, index as int),
{
    let ghost before = strings_view(out@);
    let head = card_head_exec(c, index);
    push_line(out, head);
    let n = c.description.len();
    for i in 0..n
        invariant
            n == c.description@.len(),
            strings_view(out@) == before + seq![card_head(*c, index as int)] + strings_view(c.description@.take(i as int)).map_values(
                |l: Seq<char>| "      "@ + l,
            ),
    {
        let line = append_str(owned("      "), c.description[i].as_str());
        push_line(out, line);
        proof {
            assert(strings_view(c.description@.take((i + 1) as int)).map_values(|l: Seq<char>| "      "@ + l) =~= strings_view(
                c.description@.take(i as int),
            ).map_values(|l: Seq<char>| "      "@ + l).push(line@));
        }
    }
    proof {
        assert(c.description@.take(n as int) =~= c.description@);
        assert(strings_view(out@) =~= before + card_lines_text(*c, index as int));
    }
}

fn push_top(out: &mut Vec<String>, snapshot: &CombatSnapshot, loc: &Localization)
    ensures
        strings_view(final(out)@) == strings_view(old(out)@) + top_text(snapshot, loc),
{
    let ghost before = strings_view(out@);
    push_line(out, header_line(snapshot, loc));
    push_line(out, player_line(snapshot, loc));
    if snapshot.player.powers.len() > 0 {
        proof {
            reveal_strlit("");
        }
        let st = status_line_exec("", &snapshot.player, loc);
        push_line(out, st);
    }
    push_line(out, piles_line(snapshot, loc));
    push_line(out, String::new());
    push_line(out, append_str(owned(loc.ui("label.monsters")), ":"));
    proof {
        assert(strings_view(out@) =~= before + top_text(snapshot, loc));
    }
}

fn push_middle(out: &mut Vec<String>, snapshot: &CombatSnapshot, loc: &Localization)
    ensures
        strings_view(final(out)@) == strings_view(old(out)@) + middle_text(snapshot, loc),
{
    let ghost top = strings_view(out@);
    let nm = snapshot.monsters.len();
    for i in 0..nm
        invariant
            nm == snapshot.monsters@.len(),
            strings_view(out@) == top + monsters_lines(snapshot.monsters@.take(i as int), loc),
    {
        proof {
            assert(snapshot.monsters@.take((i + 1) as int).drop_last() =~= snapshot.monsters@.take(i as int));
        }
        monster_lines_exec(out, &snapshot.monsters[i], i, loc);
        proof {
            assert(strings_view(out@) =~= top + monsters_lines(snapshot.monsters@.take((i + 1) as int), loc));
        }
    }
    proof {
        assert(snapshot.monsters@.take(nm as int) =~= snapshot.monsters@);
    }
    if nm == 0 {
        push_line(out, append_str(owned("  "), loc.ui("label.none")));
    }
    push_line(out, String::new());
    let mut hh = owned(loc.ui("label.hand"));
    hh.append(" ");
    push_digits(&mut hh, snapshot.hand.len() as u64);
    hh.append("/");
    push_digits(&mut hh, MAX_CARDS_IN_HAND as u64);
    hh.append(":");
    push_line(out, hh);
    proof {
        assert(strings_view(out@) =~= top + middle_text(snapshot, loc));
    }
}

fn push_bottom(out: &mut Vec<String>, snapshot: &CombatSnapshot, messages: &Vec<String>, loc: &Localization)
    requires
        labels_fit(snapshot),
    ensures
        strings_view(final(out)@) == strings_view(old(out)@) + bottom_text(snapshot, strings_view(messages@), loc),
{
    let ghost mid = strings_view(out@);
    let nh = snapshot.hand.len();
    for i in 0..nh
        invariant
            nh == snapshot.hand@.len(),
            labels_fit(snapshot),
            strings_view(out@) == mid + hand_lines(snapshot.hand@.take(i as int)),
    {
        proof {
            assert(snapshot.hand@.take((i + 1) as int).drop_last() =~= snapshot.hand@.take(i as int));
            assert(snapshot.hand@[i as int].label@.len() <= usize::MAX / 2);
        }
        card_lines_exec(out, &snapshot.hand[i], i);
        proof {
            assert(strings_view(out@) =~= mid + hand_lines(snapshot.hand@.take((i + 1) as int)));
        }
    }
    proof {
        assert(snapshot.hand@.take(nh as int) =~= snapshot.hand@);
    }
    if nh == 0 {
        push_line(out, append_str(owned("  "), loc.ui("label.empty")));
    }
    push_line(out, String::new());
    push_line(out, append_str(owned(loc.ui("label.messages")), ":"));
    let ghost heads = strings_view(out@);
    let nmsg = messages.len();
    for i in 0..nmsg
        invariant
            nmsg == messages@.len(),
            strings_view(out@) == heads + strings_view(messages@.take(i as int)).map_values(|m: Seq<char>| "  "@ + m),
    {
        let line = append_str(owned("  "), messages[i].as_str());
        push_line(out, line);
        proof {
            assert(strings_view(messages@.take((i + 1) as int)).map_values(|m: Seq<char>| "  "@ + m) =~= strings_view(
                messages@.take(i as int),
            ).map_values(|m: Seq<char>| "  "@ + m).push(line@));
        }
    }
    proof {
        assert(messages@.take(nmsg as int) =~= messages@);
        reveal_strlit("");
        assert(strings_view(out@) =~= mid + bottom_text(snapshot, strings_view(messages@), loc));
    }
}

/// The lines of the plain screen, top to bottom.
pub fn render_snapshot(snapshot: &CombatSnapshot, messages: &Vec<String>, loc: &Localization) -> (r: Vec<String>)
    requires
        labels_fit(snapshot),
    ensures
        strings_view(r@) == snapshot_text(snapshot, strings_view(messages@), loc),
{
    let mut out: Vec<String> = Vec::new();
    push_top(&mut out, snapshot, loc);
    push_middle(&mut out, snapshot, loc);
    push_bottom(&mut out, snapshot, messages, loc);
    proof {
        assert(strings_view(out@) =~= snapshot_text(snapshot, strings_view(messages@), loc));
    }
    out
}

} // verus!
