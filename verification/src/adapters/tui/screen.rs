//! The content of the full-screen interface: styled text for each panel, and
//! the selection of a card and a monster.
use vstd::prelude::*;

use crate::adapters::tui::animation::{effect_role, AnimationClock, VisualEffect};
use crate::adapters::tui::profile::TerminalProfile;
use crate::adapters::tui::symbols::{symbol_text, Symbols, UiSymbol};
use crate::adapters::tui::theme::{role_style, Theme, UiRole, UiStyle};
use crate::adapters::tui::view::{
    format_power_list, power_list_text, power_views_view, CardView, CombatSnapshot, CreatureView, PowerView,
};
use crate::adapters::tui::driver::{after_message, MessageLog};
use crate::assets::localization::{phase_label, Language, Localization};
use crate::content::cards::TargetType;
use crate::state::{CardCost, CardCosts, MAX_CARDS_IN_HAND};
use crate::text::{append_str, digits, int_text, owned, push_digits, push_int, seq_contains_sub};

verus! {

/// A piece of text in one style.
#[derive(Clone, Debug)]
pub struct StyledSpan {
    pub text: String,
    pub style: UiStyle,
}

impl View for StyledSpan {
    type V = (Seq<char>, UiStyle);

    open spec fn view(&self) -> (Seq<char>, UiStyle) {
        (self.text@, self.style)
    }
}

pub open spec fn spans_view(v: Seq<StyledSpan>) -> Seq<(Seq<char>, UiStyle)> {
    v.map_values(|s: StyledSpan| s@)
}

/// The style of an unstyled span.
pub open spec fn raw_style() -> UiStyle {
    UiStyle { fg: None, bg: None, bold: false, dim: false, reversed: false }
}

fn span(text: String, style: UiStyle) -> (r: StyledSpan)
    ensures
        r@ == (text@, style),
{
    StyledSpan { text, style }
}

fn raw(text: &str) -> (r: StyledSpan)
    ensures
        r@ == (text@, raw_style()),
{
    StyledSpan { text: owned(text), style: UiStyle { fg: None, bg: None, bold: false, dim: false, reversed: false } }
}

fn push_span(out: &mut Vec<StyledSpan>, s: StyledSpan)
    ensures
        spans_view(final(out)@) == spans_view(old(out)@).push(s@),
{
    let ghost before = out@;
    out.push(s);
    assert(spans_view(out@) =~= spans_view(before).push(s@));
}

// ---------------------------------------------------------------------------
// Selection
// ---------------------------------------------------------------------------

/// Where the arrow keys act.
#[derive(Clone, Copy, Debug, PartialEq, Eq, Structural)]
pub enum Focus {
    Hand,
    Monsters,
}

/// How many of the first `n` monsters are alive.
pub open spec fn alive_before(ms: Seq<CreatureView>, n: int) -> nat
    decreases n,
{
    if n <= 0 {
        0
    } else {
        alive_before(ms, n - 1) + (if ms[n - 1].alive { 1nat } else { 0nat })
    }
}

/// The first living monster's position, if any.
pub open spec fn first_alive(ms: Seq<CreatureView>) -> Option<int> {
    if exists|i: int| 0 <= i < ms.len() && ms[i].alive {
        Some(choose|i: int| 0 <= i < ms.len() && ms[i].alive && forall|j: int| 0 <= j < i ==> !ms[j].alive)
    } else {
        None
    }
}

/// The monster a card is played at, counted among the living: the selected
/// one when it is alive, else the first living one.
pub open spec fn alive_index_of_selection(ms: Seq<CreatureView>, selected: int) -> Option<usize> {
    if 0 <= selected < ms.len() {
        if ms[selected].alive {
            Some(alive_before(ms, selected) as usize)
        } else {
            match first_alive(ms) {
                Some(i) => Some(alive_before(ms, i) as usize),
                None => None,
            }
        }
    } else {
        None
    }
}

/// The monster shown as selected: the selected one when it is alive, else
/// the first living one.
pub open spec fn display_index_of_selection(ms: Seq<CreatureView>, selected: int) -> Option<usize> {
    if 0 <= selected < ms.len() && ms[selected].alive {
        Some(selected as usize)
    } else {
        match first_alive(ms) {
            Some(i) => Some(i as usize),
            None => None,
        }
    }
}

proof fn lemma_alive_before_bound(ms: Seq<CreatureView>, n: int)
    requires
        0 <= n <= ms.len(),
    ensures
        alive_before(ms, n) <= n,
    decreases n,
{
    if n > 0 {
        lemma_alive_before_bound(ms, n - 1);
    }
}

fn first_alive_exec(monsters: &Vec<CreatureView>) -> (r: Option<usize>)
    ensures
        match r {
            Some(i) => first_alive(monsters@) == Some(i as int) && i < monsters@.len(),
            None => first_alive(monsters@) is None,
        },
{
    let n = monsters.len();
    for i in 0..n
        invariant
            n == monsters@.len(),
            forall|j: int| 0 <= j < i ==> !monsters@[j].alive,
    {
        if monsters[i].alive {
            proof {
                let w = choose|k: int| 0 <= k < monsters@.len() && monsters@[k].alive && forall|j: int| 0 <= j < k ==> !monsters@[j].alive;
                assert(0 <= w < monsters@.len() && monsters@[w].alive && forall|j: int| 0 <= j < w ==> !monsters@[j].alive) by {
                    assert(monsters@[i as int].alive && forall|j: int| 0 <= j < i ==> !monsters@[j].alive);
                }
                if w < i {
                } else if w > i {
                    assert(!monsters@[i as int].alive);
                }
            }
            return Some(i);
        }
    }
    None
}

fn alive_count_before(monsters: &Vec<CreatureView>, end: usize) -> (r: usize)
    requires
        end <= monsters@.len(),
    ensures
        r == alive_before(monsters@, end as int),
{
    let mut count: usize = 0;
    for i in 0..end
        invariant
            end <= monsters@.len(),
            count == alive_before(monsters@, i as int),
    {
        proof {
            lemma_alive_before_bound(monsters@, i as int);
        }
        if monsters[i].alive {
            count = count + 1;
        }
    }
    count
}

pub fn selected_alive_monster_index(snapshot: &CombatSnapshot, selected_monster: usize) -> (r: Option<usize>)
    ensures
        r == alive_index_of_selection(snapshot.monsters@, selected_monster as int),
{
    if selected_monster >= snapshot.monsters.len() {
        return None;
    }
    if snapshot.monsters[selected_monster].alive {
        Some(alive_count_before(&snapshot.monsters, selected_monster))
    } else {
        match first_alive_exec(&snapshot.monsters) {
            Some(i) => Some(alive_count_before(&snapshot.monsters, i)),
            None => None,
        }
    }
}

pub fn selected_display_monster_index(snapshot: &CombatSnapshot, selected_monster: usize) -> (r: Option<usize>)
    ensures
        r == display_index_of_selection(snapshot.monsters@, selected_monster as int),
{
    if selected_monster < snapshot.monsters.len() && snapshot.monsters[selected_monster].alive {
        Some(selected_monster)
    } else {
        first_alive_exec(&snapshot.monsters)
    }
}

/// A card aimed at one enemy.
pub fn card_targets_monster(target: TargetType) -> (r: bool)
    ensures
        r == (target == TargetType::Enemy),
{
    match target {
        TargetType::Enemy => true,
        _ => false,
    }
}

/// The selected card is aimed at one enemy, and some monster is alive.
pub open spec fn selection_targets_monster(snapshot: &CombatSnapshot, hand_index: int) -> bool {
    &&& 0 <= hand_index < snapshot.hand@.len()
    &&& snapshot.hand@[hand_index].target == TargetType::Enemy
    &&& first_alive(snapshot.monsters@) is Some
}

pub fn selected_card_targets_monster(snapshot: &CombatSnapshot, hand_index: usize) -> (r: bool)
    ensures
        r == selection_targets_monster(snapshot, hand_index as int),
{
    if hand_index >= snapshot.hand.len() {
        return false;
    }
    card_targets_monster(snapshot.hand[hand_index].target) && first_alive_exec(&snapshot.monsters).is_some()
}

/// The width of a monster's label column: the panel less 16, between 10 and 24.
pub fn monster_label_width(area_width: u16) -> (r: u16)
    ensures
        r == (if area_width < 26 { 10 } else if area_width > 40 { 24 } else { area_width - 16 }),
{
    let w = area_width.saturating_sub(16);
    if w < 10 {
        10
    } else if w > 24 {
        24
    } else {
        w
    }
}

/// The role of an HP bar: low at a quarter of the maximum or under.
pub fn hp_role(hp: i32, max_hp: i32) -> (r: UiRole)
    ensures
        r == (if max_hp > 0 && hp * 4 <= max_hp { UiRole::HpLow } else { UiRole::HpNormal }),
{
    if max_hp > 0 && (hp as i64) * 4 <= max_hp as i64 {
        UiRole::HpLow
    } else {
        UiRole::HpNormal
    }
}

/// `♥ hp/max`, then the block where there is any.
pub open spec fn hp_label_text(hp: i32, max_hp: i32, block: i32, unicode: bool) -> Seq<char> {
    let base = symbol_text(unicode, UiSymbol::Heart)@ + " "@ + int_text(hp as int) + "/"@ + int_text(max_hp as int);
    if block > 0 {
        base + "  "@ + symbol_text(unicode, UiSymbol::Block)@ + " "@ + int_text(block as int)
    } else {
        base
    }
}

fn hp_label(hp: i32, max_hp: i32, block: i32, symbols: Symbols) -> (r: String)
    ensures
        r@ == hp_label_text(hp, max_hp, block, symbols.spec_unicode()),
{
    let mut s = owned(symbols.get(UiSymbol::Heart));
    s.append(" ");
    push_int(&mut s, hp as i64);
    s.append("/");
    push_int(&mut s, max_hp as i64);
    if block > 0 {
        s.append("  ");
        s.append(symbols.get(UiSymbol::Block));
        s.append(" ");
        push_int(&mut s, block as i64);
    }
    s
}

pub fn monster_hp_label(monster: &CreatureView, symbols: Symbols) -> (r: String)
    ensures
        r@ == hp_label_text(monster.hp, monster.max_hp, monster.block, symbols.spec_unicode()),
{
    hp_label(monster.hp, monster.max_hp, monster.block, symbols)
}

// ---------------------------------------------------------------------------
// Spans
// ---------------------------------------------------------------------------

/// One resource's cost: nothing for no cost (or zero, where zero is hidden);
/// else a space after earlier spans, the symbol and the cost.
pub open spec fn resource_cost_spans(
    before: Seq<(Seq<char>, UiStyle)>,
    cost: CardCost,
    symbol: Seq<char>,
    style: UiStyle,
    loc: Localization,
    hide_zero: bool,
) -> Seq<(Seq<char>, UiStyle)> {
    if cost == CardCost::NoCost || (hide_zero && cost == CardCost::Fixed(0)) {
        before
    } else {
        let spaced = if before.len() > 0 { before.push((" "@, raw_style())) } else { before };
        spaced.push((symbol + " "@, style)).push((loc.spec_cost(cost), style))
    }
}

pub fn append_resource_cost(
    spans: &mut Vec<StyledSpan>,
    cost: CardCost,
    symbol: &'static str,
    style: UiStyle,
    loc: Localization,
    hide_zero: bool,
)
    ensures
        spans_view(final(spans)@) == resource_cost_spans(spans_view(old(spans)@), cost, symbol@, style, loc, hide_zero),
{
    let skip = match cost {
        CardCost::NoCost => true,
        CardCost::Fixed(0) => hide_zero,
        _ => false,
    };
    if skip {
        return;
    }
    if spans.len() > 0 {
        push_span(spans, raw(" "));
    }
    push_span(spans, span(append_str(owned(symbol), " "), style));
    push_span(spans, span(loc.cost(cost), style));
}

/// The cost of a card: energy, then stars unless zero; `-` when neither shows.
pub open spec fn cost_spans_text(costs: CardCosts, unicode: bool, loc: Localization, mode: crate::adapters::tui::profile::ColorMode) -> Seq<(Seq<char>, UiStyle)> {
    let e = resource_cost_spans(seq![], costs.energy, symbol_text(unicode, UiSymbol::Energy)@, role_style(mode, UiRole::Energy), loc, false);
    let s = resource_cost_spans(e, costs.stars, symbol_text(unicode, UiSymbol::Star)@, role_style(mode, UiRole::Prompt), loc, true);
    if s.len() == 0 {
        seq![("-  "@, role_style(mode, UiRole::Muted))]
    } else {
        s.push(("  "@, raw_style()))
    }
}

pub fn card_cost_spans(costs: CardCosts, symbols: Symbols, loc: Localization, theme: Theme) -> (r: Vec<StyledSpan>)
    ensures
        spans_view(r@) == cost_spans_text(costs, symbols.spec_unicode(), loc, theme.spec_profile().color),
{
    let mut spans: Vec<StyledSpan> = Vec::new();
    proof {
        assert(spans_view(spans@) =~= seq![]);
    }
    append_resource_cost(&mut spans, costs.energy, symbols.get(UiSymbol::Energy), theme.style(UiRole::Energy), loc, false);
    append_resource_cost(&mut spans, costs.stars, symbols.get(UiSymbol::Star), theme.style(UiRole::Prompt), loc, true);
    if spans.len() == 0 {
        push_span(&mut spans, span(owned("-  "), theme.style(UiRole::Muted)));
        proof {
            assert(spans_view(spans@) =~= seq![("-  "@, role_style(theme.spec_profile().color, UiRole::Muted))]);
        }
    } else {
        push_span(&mut spans, raw("  "));
    }
    spans
}

/// A monster's intent line: the label, muted, then the intent, highlighted.
pub open spec fn intent_line_text(monster: CreatureView, mode: crate::adapters::tui::profile::ColorMode, unicode: bool, loc: Localization, selected: bool) -> Seq<(Seq<char>, UiStyle)> {
    let value_style = if selected { role_style(mode, UiRole::CardSelected) } else { role_style(mode, UiRole::LogWarning) };
    seq![
        ("    "@, raw_style()),
        (loc.spec_ui("label.intent")@ + " "@, role_style(mode, UiRole::Muted)),
        (symbol_text(unicode, UiSymbol::Intent)@ + " "@ + monster.intent@, value_style),
    ]
}

pub fn monster_intent_line(monster: &CreatureView, theme: Theme, symbols: Symbols, loc: Localization, selected: bool) -> (r: Vec<StyledSpan>)
    ensures
        spans_view(r@) == intent_line_text(*monster, theme.spec_profile().color, symbols.spec_unicode(), loc, selected),
{
    let value_style = if selected { theme.style(UiRole::CardSelected) } else { theme.style(UiRole::LogWarning) };
    let mut spans: Vec<StyledSpan> = Vec::new();
    push_span(&mut spans, raw("    "));
    push_span(&mut spans, span(append_str(owned(loc.ui("label.intent")), " "), theme.style(UiRole::Muted)));
    let v = append_str(append_str(owned(symbols.get(UiSymbol::Intent)), " "), monster.intent.as_str());
    push_span(&mut spans, span(v, value_style));
    proof {
        assert(spans_view(spans@) =~= intent_line_text(*monster, theme.spec_profile().color, symbols.spec_unicode(), loc, selected));
    }
    spans
}

/// A line of powers: the label, muted, then the powers or the word for none.
pub open spec fn status_line_text(label: Seq<char>, none: Seq<char>, powers: Seq<(Seq<char>, i32)>, mode: crate::adapters::tui::profile::ColorMode, selected: bool) -> Seq<(Seq<char>, UiStyle)> {
    let value = if powers.len() == 0 { none } else { power_list_text(powers) };
    let value_style = if selected {
        role_style(mode, UiRole::CardSelected)
    } else if powers.len() == 0 {
        role_style(mode, UiRole::Muted)
    } else {
        role_style(mode, UiRole::LogWarning)
    };
    seq![(label + ": "@, role_style(mode, UiRole::Muted)), (value, value_style)]
}

pub fn status_line(label: &str, none: &str, powers: &Vec<PowerView>, theme: Theme, selected: bool) -> (r: Vec<StyledSpan>)
    ensures
        spans_view(r@) == status_line_text(label@, none@, power_views_view(powers@), theme.spec_profile().color, selected),
{
    let value = if powers.len() == 0 { owned(none) } else { format_power_list(powers) };
    let value_style = if selected {
        theme.style(UiRole::CardSelected)
    } else if powers.len() == 0 {
        theme.style(UiRole::Muted)
    } else {
        theme.style(UiRole::LogWarning)
    };
    let mut spans: Vec<StyledSpan> = Vec::new();
    push_span(&mut spans, span(append_str(owned(label), ": "), theme.style(UiRole::Muted)));
    push_span(&mut spans, span(value, value_style));
    proof {
        assert(spans_view(spans@) =~= status_line_text(label@, none@, power_views_view(powers@), theme.spec_profile().color, selected));
    }
    spans
}

/// A pile's line: its symbol, muted, then its label and count.
pub open spec fn pile_line_text(unicode: bool, mode: crate::adapters::tui::profile::ColorMode, label: Seq<char>, symbol: UiSymbol, count: nat) -> Seq<(Seq<char>, UiStyle)> {
    seq![
        (symbol_text(unicode, symbol)@ + " "@, role_style(mode, UiRole::Muted)),
        (label + ": "@ + digits(count), role_style(mode, UiRole::Base)),
    ]
}

pub fn pile_line(symbols: Symbols, theme: Theme, label: &str, symbol: UiSymbol, count: usize) -> (r: Vec<StyledSpan>)
    ensures
        spans_view(r@) == pile_line_text(symbols.spec_unicode(), theme.spec_profile().color, label@, symbol, count as nat),
{
    let mut spans: Vec<StyledSpan> = Vec::new();
    push_span(&mut spans, span(append_str(owned(symbols.get(symbol)), " "), theme.style(UiRole::Muted)));
    let mut t = append_str(owned(label), ": ");
    push_digits(&mut t, count as u64);
    push_span(&mut spans, span(t, theme.style(UiRole::Base)));
    proof {
        assert(spans_view(spans@) =~= pile_line_text(symbols.spec_unicode(), theme.spec_profile().color, label@, symbol, count as nat));
    }
    spans
}

/// The style of a message: a warning where it reports a refused or failed step.
pub open spec fn message_role(message: Seq<char>, loc: Localization) -> UiRole {
    if seq_contains_sub(message, loc.spec_ui("status.rejected")@) || seq_contains_sub(message, loc.spec_ui("status.failed")@) {
        UiRole::LogWarning
    } else {
        UiRole::Log
    }
}

pub fn message_style(message: &str, loc: Localization, theme: Theme) -> (r: UiStyle)
    ensures
        r == role_style(theme.spec_profile().color, message_role(message@, loc)),
{
    let chars = crate::text::str_chars(message);
    if crate::text::chars_contain(&chars, loc.ui("status.rejected")) || crate::text::chars_contain(&chars, loc.ui("status.failed")) {
        theme.style(UiRole::LogWarning)
    } else {
        theme.style(UiRole::Log)
    }
}

// ---------------------------------------------------------------------------
// The full-screen interface's state
// ---------------------------------------------------------------------------

/// A key the interface reacts to.
#[derive(Clone, Copy, Debug, PartialEq, Eq, Structural)]
pub enum UiKey {
    Esc,
    Char(char),
    Tab,
    Left,
    Right,
    Up,
    Down,
    Enter,
    Other,
}

/// What the interface must do after a key.
#[derive(Clone, Copy, Debug, PartialEq, Eq, Structural)]
pub enum KeyAction {
    /// Nothing beyond the change of state.
    Stay,
    Quit,
    EndTurn,
    Restart,
    ToggleLanguage,
    /// Play the card at this hand index.
    PlayCard(usize),
    /// Select the card at this hand index, if the hand has one there.
    SelectCard(usize),
}

/// The selection and the clock of the full-screen interface.
#[derive(Clone, Copy, Debug)]
pub struct ScreenState {
    pub selected_card: usize,
    pub selected_monster: usize,
    pub focus: Focus,
    pub show_help: bool,
    pub clock: AnimationClock,
}

/// `n - 1`, not below zero.
pub open spec fn last_index(n: nat) -> nat {
    if n == 0 {
        0
    } else {
        (n - 1) as nat
    }
}

pub open spec fn min_nat(a: nat, b: nat) -> nat {
    if a <= b {
        a
    } else {
        b
    }
}

/// The key's action. Arrow keys, Tab and `?`/`h` only change the state.
pub open spec fn key_action(key: UiKey, selected_card: usize) -> KeyAction {
    match key {
        UiKey::Esc => KeyAction::Quit,
        UiKey::Char(c) => if c == 'q' {
            KeyAction::Quit
        } else if c == 'e' {
            KeyAction::EndTurn
        } else if c == 'r' {
            KeyAction::Restart
        } else if c == 'l' {
            KeyAction::ToggleLanguage
        } else if '1' <= c && c <= '9' {
            KeyAction::SelectCard((c as u32 - '1' as u32) as usize)
        } else {
            KeyAction::Stay
        },
        UiKey::Enter => KeyAction::PlayCard(selected_card),
        _ => KeyAction::Stay,
    }
}

impl ScreenState {
    pub fn new() -> (r: ScreenState)
        ensures
            r.selected_card == 0,
            r.selected_monster == 0,
            r.focus == Focus::Hand,
            !r.show_help,
            r.clock.spec_tick() == 0,
    {
        ScreenState { selected_card: 0, selected_monster: 0, focus: Focus::Hand, show_help: false, clock: AnimationClock::default() }
    }

    /// Acts on a pressed key. Tab switches the focus; `?` and `h` toggle the
    /// help; the arrows move the selection within the snapshot; the rest is
    /// for the caller to do.
    pub fn handle_key(&mut self, key: UiKey, snapshot: &CombatSnapshot) -> (r: KeyAction)
        ensures
            r == key_action(key, old(self).selected_card),
            final(self).clock == old(self).clock,
            key == UiKey::Tab ==> final(self).focus == (if old(self).focus == Focus::Hand { Focus::Monsters } else { Focus::Hand })
                && final(self).selected_card == old(self).selected_card
                && final(self).selected_monster == old(self).selected_monster,
            (key == UiKey::Char('?') || key == UiKey::Char('h')) ==> final(self).show_help == !old(self).show_help,
            !(key == UiKey::Char('?') || key == UiKey::Char('h')) ==> final(self).show_help == old(self).show_help,
            key == UiKey::Up ==> final(self).selected_monster == (if old(self).selected_monster == 0 { 0 } else { (old(self).selected_monster - 1) as usize })
                && final(self).focus == Focus::Monsters,
            key == UiKey::Down ==> final(self).selected_monster == min_nat(
                (old(self).selected_monster + 1) as nat,
                last_index(snapshot.monsters@.len()),
            ) && final(self).focus == Focus::Monsters,
            key == UiKey::Left && snapshot.hand@.len() > 0 ==> final(self).selected_card == (if old(self).selected_card == 0 { 0 } else { (old(self).selected_card - 1) as usize }),
            key == UiKey::Right && snapshot.hand@.len() > 0 ==> final(self).selected_card == min_nat(
                (old(self).selected_card + 1) as nat,
                last_index(snapshot.hand@.len()),
            ),
            (key == UiKey::Left || key == UiKey::Right) && snapshot.hand@.len() == 0 ==> final(self).selected_card == 0
                && final(self).focus == Focus::Hand,
            !(key == UiKey::Tab || key == UiKey::Up || key == UiKey::Down || key == UiKey::Left || key == UiKey::Right)
                ==> final(self).selected_card == old(self).selected_card && final(self).selected_monster == old(self).selected_monster
                && final(self).focus == old(self).focus,
    {
        match key {
            UiKey::Esc => KeyAction::Quit,
            UiKey::Char(c) => {
                if c == 'q' {
                    KeyAction::Quit
                } else if c == '?' || c == 'h' {
                    self.show_help = !self.show_help;
                    KeyAction::Stay
                } else if c == 'e' {
                    KeyAction::EndTurn
                } else if c == 'r' {
                    KeyAction::Restart
                } else if c == 'l' {
                    KeyAction::ToggleLanguage
                } else if '1' <= c && c <= '9' {
                    KeyAction::SelectCard((c as u32 - '1' as u32) as usize)
                } else {
                    KeyAction::Stay
                }
            },
            UiKey::Tab => {
                self.toggle_focus();
                KeyAction::Stay
            },
            UiKey::Left => {
                self.select_previous_card(snapshot);
                KeyAction::Stay
            },
            UiKey::Right => {
                self.select_next_card(snapshot);
                KeyAction::Stay
            },
            UiKey::Up => {
                self.select_previous_monster();
                KeyAction::Stay
            },
            UiKey::Down => {
                self.select_next_monster(snapshot);
                KeyAction::Stay
            },
            UiKey::Enter => KeyAction::PlayCard(self.selected_card),
            UiKey::Other => KeyAction::Stay,
        }
    }

    /// Moves the focus between the hand and the monsters.
    pub fn toggle_focus(&mut self)
        ensures
            final(self).focus == (if old(self).focus == Focus::Hand { Focus::Monsters } else { Focus::Hand }),
            final(self).selected_card == old(self).selected_card,
            final(self).selected_monster == old(self).selected_monster,
            final(self).show_help == old(self).show_help,
            final(self).clock == old(self).clock,
    {
        self.focus = match self.focus {
            Focus::Hand => Focus::Monsters,
            Focus::Monsters => Focus::Hand,
        };
    }

    /// The card to the left, stopping at the first; with an empty hand, the
    /// first place and the focus on the hand.
    pub fn select_previous_card(&mut self, snapshot: &CombatSnapshot)
        ensures
            snapshot.hand@.len() > 0 ==> final(self).selected_card == (if old(self).selected_card == 0 {
                0
            } else {
                (old(self).selected_card - 1) as usize
            }),
            snapshot.hand@.len() == 0 ==> final(self).selected_card == 0 && final(self).focus == Focus::Hand
                && final(self).selected_monster == old(self).selected_monster,
            final(self).show_help == old(self).show_help,
            final(self).clock == old(self).clock,
    {
        if snapshot.hand.len() == 0 {
            self.selected_card = 0;
            self.focus = Focus::Hand;
            return;
        }
        let i = self.selected_card.saturating_sub(1);
        self.select_card_in_snapshot(i, snapshot);
    }

    /// The card to the right, stopping at the last; with an empty hand, the
    /// first place and the focus on the hand.
    pub fn select_next_card(&mut self, snapshot: &CombatSnapshot)
        ensures
            snapshot.hand@.len() > 0 ==> final(self).selected_card == min_nat(
                (old(self).selected_card + 1) as nat,
                last_index(snapshot.hand@.len()),
            ),
            snapshot.hand@.len() == 0 ==> final(self).selected_card == 0 && final(self).focus == Focus::Hand
                && final(self).selected_monster == old(self).selected_monster,
            final(self).show_help == old(self).show_help,
            final(self).clock == old(self).clock,
    {
        if snapshot.hand.len() == 0 {
            self.selected_card = 0;
            self.focus = Focus::Hand;
            return;
        }
        let max = snapshot.hand.len() - 1;
        let next = self.selected_card.saturating_add(1);
        let i = if next < max { next } else { max };
        self.select_card_in_snapshot(i, snapshot);
    }

    /// The monster above, stopping at the first; the focus moves to the monsters.
    pub fn select_previous_monster(&mut self)
        ensures
            final(self).selected_monster == (if old(self).selected_monster == 0 { 0 } else { (old(self).selected_monster - 1) as usize }),
            final(self).focus == Focus::Monsters,
            final(self).selected_card == old(self).selected_card,
            final(self).show_help == old(self).show_help,
            final(self).clock == old(self).clock,
    {
        self.selected_monster = self.selected_monster.saturating_sub(1);
        self.focus = Focus::Monsters;
    }

    /// The monster below, stopping at the last shown; the focus moves to the monsters.
    pub fn select_next_monster(&mut self, snapshot: &CombatSnapshot)
        ensures
            final(self).selected_monster == min_nat(
                (old(self).selected_monster + 1) as nat,
                last_index(snapshot.monsters@.len()),
            ),
            final(self).focus == Focus::Monsters,
            final(self).selected_card == old(self).selected_card,
            final(self).show_help == old(self).show_help,
            final(self).clock == old(self).clock,
    {
        let max = snapshot.monsters.len().saturating_sub(1);
        let next = self.selected_monster.saturating_add(1);
        self.selected_monster = if next < max { next } else { max };
        self.focus = Focus::Monsters;
    }

    /// Selects a card and moves the focus to where it is played.
    pub fn select_card_in_snapshot(&mut self, hand_index: usize, snapshot: &CombatSnapshot)
        ensures
            final(self).selected_card == hand_index,
            final(self).clock == old(self).clock,
            final(self).show_help == old(self).show_help,
            selection_targets_monster(snapshot, hand_index as int) ==> final(self).focus == Focus::Monsters,
            !selection_targets_monster(snapshot, hand_index as int) ==> final(self).focus == Focus::Hand
                && final(self).selected_monster == old(self).selected_monster,
            selection_targets_monster(snapshot, hand_index as int) ==> Some(final(self).selected_monster)
                == display_index_of_selection(snapshot.monsters@, old(self).selected_monster as int),
    {
        self.selected_card = hand_index;
        self.sync_focus_to_selected_card(snapshot);
    }

    /// The focus follows the selected card: on the monsters for a card aimed
    /// at one, with a living monster selected; else on the hand.
    pub fn sync_focus_to_selected_card(&mut self, snapshot: &CombatSnapshot)
        ensures
            final(self).selected_card == old(self).selected_card,
            final(self).clock == old(self).clock,
            final(self).show_help == old(self).show_help,
            selection_targets_monster(snapshot, old(self).selected_card as int) ==> final(self).focus == Focus::Monsters
                && Some(final(self).selected_monster) == display_index_of_selection(
                snapshot.monsters@,
                old(self).selected_monster as int,
            ),
            !selection_targets_monster(snapshot, old(self).selected_card as int) ==> final(self).focus == Focus::Hand
                && final(self).selected_monster == old(self).selected_monster,
    {
        if selected_card_targets_monster(snapshot, self.selected_card) {
            self.focus = Focus::Monsters;
            match selected_display_monster_index(snapshot, self.selected_monster) {
                Some(i) => {
                    self.selected_monster = i;
                },
                None => {},
            }
        } else {
            self.focus = Focus::Hand;
        }
    }

    /// Keeps the selection within the hand and the monsters shown.
    pub fn clamp_to_snapshot(&mut self, snapshot: &CombatSnapshot)
        ensures
            final(self).selected_card == min_nat(old(self).selected_card as nat, last_index(snapshot.hand@.len())),
            final(self).selected_monster == min_nat(old(self).selected_monster as nat, last_index(snapshot.monsters@.len())),
            final(self).focus == old(self).focus,
            final(self).clock == old(self).clock,
            final(self).show_help == old(self).show_help,
    {
        let hand_max = snapshot.hand.len().saturating_sub(1);
        if self.selected_card > hand_max {
            self.selected_card = hand_max;
        }
        let monster_max = snapshot.monsters.len().saturating_sub(1);
        if self.selected_monster > monster_max {
            self.selected_monster = monster_max;
        }
    }

    /// After the combat changed: clamps the selection, then lets the focus
    /// follow the selected card.
    pub fn clamp_selection(&mut self, snapshot: &CombatSnapshot)
        ensures
            final(self).selected_card == min_nat(old(self).selected_card as nat, last_index(snapshot.hand@.len())),
            final(self).clock == old(self).clock,
            final(self).show_help == old(self).show_help,
    {
        self.clamp_to_snapshot(snapshot);
        self.sync_focus_to_selected_card(snapshot);
    }

    /// Selects the card at the index where the hand has one; else says there
    /// is none.
    pub fn select_card(&mut self, hand_index: usize, snapshot: &CombatSnapshot, loc: Localization, messages: &mut MessageLog)
        requires
            hand_index < usize::MAX,
        ensures
            hand_index < snapshot.hand@.len() ==> final(self).selected_card == hand_index
                && final(messages).spec_messages() == old(messages).spec_messages(),
            hand_index >= snapshot.hand@.len() ==> *final(self) == *old(self) && final(messages).spec_messages()
                == after_message(old(messages).spec_messages(), loc.spec_no_card_text((hand_index + 1) as usize)),
    {
        if hand_index >= snapshot.hand.len() {
            messages.push_message(loc.format_no_card_at_hand_index(hand_index + 1));
            return;
        }
        self.select_card_in_snapshot(hand_index, snapshot);
    }

    /// The monster a card is played at: the selected one, or the first
    /// living one, counted among the living monsters.
    pub fn play_target(&self, snapshot: &CombatSnapshot) -> (r: Option<usize>)
        ensures
            r == alive_index_of_selection(snapshot.monsters@, self.selected_monster as int),
    {
        selected_alive_monster_index(snapshot, self.selected_monster)
    }
}

/// After clamping, a selection points into the hand and the monsters shown
/// whenever they are not empty.
pub proof fn lemma_clamped_selection_in_range(selected: nat, len: nat)
    ensures
        len > 0 ==> min_nat(selected, last_index(len)) < len,
        min_nat(selected, last_index(len)) <= selected,
{
}

/// Switches between the two languages and says so.
pub fn toggle_language(loc: &mut Localization, messages: &mut MessageLog)
    ensures
        final(loc).spec_language() == (if old(loc).spec_language() == Language::Eng { Language::Zhs } else { Language::Eng }),
        final(messages).spec_messages() == after_message(old(messages).spec_messages(), final(loc).spec_language_changed_text()),
{
    let next = match loc.language() {
        Language::Eng => Language::Zhs,
        Language::Zhs => Language::Eng,
    };
    loc.set_language(next);
    let text = loc.format_language_changed();
    messages.push_message(text);
}

// ---------------------------------------------------------------------------
// Panels
// ---------------------------------------------------------------------------

/// The header: the pulsing title, the seed, the phase, the language and, on a
/// wide screen, the terminal profile.
pub open spec fn header_spans_text(
    snapshot: &CombatSnapshot,
    loc: Localization,
    profile: TerminalProfile,
    tick: u64,
    wide: bool,
) -> Seq<(Seq<char>, UiStyle)> {
    let mode = profile.color;
    let title = role_style(
        mode,
        effect_role(VisualEffect::Pulse { first: UiRole::Title, second: UiRole::Prompt, period_ticks: 12 }, profile.animation, tick),
    );
    let base = seq![
        (loc.spec_ui("app.title")@, title),
        ("  "@, raw_style()),
        (loc.spec_ui("label.seed")@ + " "@ + digits(snapshot.seed as nat), role_style(mode, UiRole::Muted)),
        ("  "@, raw_style()),
        (loc.spec_ui("label.phase")@ + " "@ + phase_label(loc.spec_language(), snapshot.phase)@, role_style(mode, UiRole::Energy)),
        ("  "@, raw_style()),
        ("lang "@ + loc.spec_language().spec_code()@, role_style(mode, UiRole::Muted)),
    ];
    if wide {
        base + seq![("  "@, raw_style()), (crate::adapters::tui::profile::profile_label(profile), role_style(mode, UiRole::Panel))]
    } else {
        base
    }
}

pub fn header_spans(snapshot: &CombatSnapshot, loc: Localization, theme: Theme, clock: AnimationClock, wide: bool) -> (r: Vec<StyledSpan>)
    ensures
        spans_view(r@) == header_spans_text(snapshot, loc, theme.spec_profile(), clock.spec_tick(), wide),
{
    let profile = theme_profile(theme);
    let title_style = VisualEffect::Pulse { first: UiRole::Title, second: UiRole::Prompt, period_ticks: 12 }.style(
        theme,
        profile.animation,
        clock.tick(),
    );
    let mut spans: Vec<StyledSpan> = Vec::new();
    push_span(&mut spans, span(owned(loc.ui("app.title")), title_style));
    push_span(&mut spans, raw("  "));
    let mut seed = append_str(owned(loc.ui("label.seed")), " ");
    push_digits(&mut seed, snapshot.seed);
    push_span(&mut spans, span(seed, theme.style(UiRole::Muted)));
    push_span(&mut spans, raw("  "));
    let phase = append_str(append_str(owned(loc.ui("label.phase")), " "), loc.phase(snapshot.phase));
    push_span(&mut spans, span(phase, theme.style(UiRole::Energy)));
    push_span(&mut spans, raw("  "));
    push_span(&mut spans, span(append_str(owned("lang "), loc.language().code()), theme.style(UiRole::Muted)));
    if wide {
        push_span(&mut spans, raw("  "));
        push_span(&mut spans, span(profile.label(), theme.style(UiRole::Panel)));
    }
    proof {
        assert(spans_view(spans@) =~= header_spans_text(snapshot, loc, theme.spec_profile(), clock.spec_tick(), wide));
    }
    spans
}

fn theme_profile(theme: Theme) -> (r: TerminalProfile)
    ensures
        r == theme.spec_profile(),
{
    theme.profile()
}

/// The player's resources: energy, stars where there are any, and the hand's size.
pub open spec fn resource_spans_text(snapshot: &CombatSnapshot, unicode: bool, mode: crate::adapters::tui::profile::ColorMode, loc: Localization) -> Seq<(Seq<char>, UiStyle)> {
    let energy = role_style(mode, UiRole::Energy);
    let base = seq![
        (symbol_text(unicode, UiSymbol::Energy)@ + " "@, energy),
        (int_text(snapshot.energy as int) + "/"@ + int_text(snapshot.max_energy as int), energy),
    ];
    let stars = if snapshot.stars > 0 {
        seq![("  "@, raw_style()), (symbol_text(unicode, UiSymbol::Star)@ + " "@ + int_text(snapshot.stars as int), energy)]
    } else {
        seq![]
    };
    base + stars + seq![
        ("  "@, raw_style()),
        (loc.spec_ui("label.hand")@ + " "@ + digits(snapshot.hand@.len()), role_style(mode, UiRole::Base)),
        ("/"@ + digits(MAX_CARDS_IN_HAND as nat), role_style(mode, UiRole::Muted)),
    ]
}

/// What the player's panel shows.
pub struct PlayerPanel {
    pub hp_label: String,
    pub hp_role: UiRole,
    pub resources: Vec<StyledSpan>,
    pub status: Vec<StyledSpan>,
    pub piles: Vec<Vec<StyledSpan>>,
}

pub fn player_panel(snapshot: &CombatSnapshot, loc: Localization, theme: Theme, symbols: Symbols) -> (r: PlayerPanel)
    ensures
        r.hp_label@ == hp_label_text(snapshot.player.hp, snapshot.player.max_hp, snapshot.player.block, symbols.spec_unicode()),
        r.hp_role == (if snapshot.player.max_hp > 0 && snapshot.player.hp * 4 <= snapshot.player.max_hp {
            UiRole::HpLow
        } else {
            UiRole::HpNormal
        }),
        spans_view(r.resources@) == resource_spans_text(snapshot, symbols.spec_unicode(), theme.spec_profile().color, loc),
        spans_view(r.status@) == status_line_text(
            loc.spec_ui("label.status")@,
            loc.spec_ui("label.none")@,
            power_views_view(snapshot.player.powers@),
            theme.spec_profile().color,
            false,
        ),
        r.piles@.len() == 3,
        spans_view(r.piles@[0]@) == pile_line_text(symbols.spec_unicode(), theme.spec_profile().color, loc.spec_ui("label.draw")@, UiSymbol::Draw, snapshot.draw_pile@.len()),
        spans_view(r.piles@[1]@) == pile_line_text(symbols.spec_unicode(), theme.spec_profile().color, loc.spec_ui("label.discard")@, UiSymbol::Discard, snapshot.discard_pile@.len()),
        spans_view(r.piles@[2]@) == pile_line_text(symbols.spec_unicode(), theme.spec_profile().color, loc.spec_ui("label.exhaust")@, UiSymbol::Exhaust, snapshot.exhaust_pile@.len()),
{
    let p = &snapshot.player;
    let energy = theme.style(UiRole::Energy);
    let mut resources: Vec<StyledSpan> = Vec::new();
    push_span(&mut resources, span(append_str(owned(symbols.get(UiSymbol::Energy)), " "), energy));
    let mut e = String::new();
    push_int(&mut e, snapshot.energy as i64);
    e.append("/");
    push_int(&mut e, snapshot.max_energy as i64);
    proof {
        reveal_strlit("");
    }
    push_span(&mut resources, span(e, energy));
    if snapshot.stars > 0 {
        push_span(&mut resources, raw("  "));
        let mut s = append_str(owned(symbols.get(UiSymbol::Star)), " ");
        push_int(&mut s, snapshot.stars as i64);
        push_span(&mut resources, span(s, energy));
    }
    push_span(&mut resources, raw("  "));
    let mut h = append_str(owned(loc.ui("label.hand")), " ");
    push_digits(&mut h, snapshot.hand.len() as u64);
    push_span(&mut resources, span(h, theme.style(UiRole::Base)));
    let mut m = owned("/");
    push_digits(&mut m, MAX_CARDS_IN_HAND as u64);
    push_span(&mut resources, span(m, theme.style(UiRole::Muted)));
    proof {
        assert(spans_view(resources@) =~= resource_spans_text(snapshot, symbols.spec_unicode(), theme.spec_profile().color, loc));
    }
    let mut piles: Vec<Vec<StyledSpan>> = Vec::new();
    piles.push(pile_line(symbols, theme, loc.ui("label.draw"), UiSymbol::Draw, snapshot.draw_pile.len()));
    piles.push(pile_line(symbols, theme, loc.ui("label.discard"), UiSymbol::Discard, snapshot.discard_pile.len()));
    piles.push(pile_line(symbols, theme, loc.ui("label.exhaust"), UiSymbol::Exhaust, snapshot.exhaust_pile.len()));
    PlayerPanel {
        hp_label: hp_label(p.hp, p.max_hp, p.block, symbols),
        hp_role: hp_role(p.hp, p.max_hp),
        resources,
        status: status_line(loc.ui("label.status"), loc.ui("label.none"), &p.powers, theme, false),
        piles,
    }
}

/// What one monster's rows show.
pub struct MonsterRow {
    pub label: Vec<StyledSpan>,
    pub hp_label: String,
    pub hp_role: UiRole,
    pub intent: Vec<StyledSpan>,
    pub status: Vec<StyledSpan>,
}

/// The label spans of a monster: the marker (pulsing while the monsters have
/// the focus), its number, its label and, for a dead one, the mark of death.
pub open spec fn monster_label_text(
    monster: CreatureView,
    index: int,
    selected: bool,
    focus: Focus,
    profile: TerminalProfile,
    unicode: bool,
    tick: u64,
    loc: Localization,
) -> Seq<(Seq<char>, UiStyle)> {
    let mode = profile.color;
    let selected_style = role_style(mode, UiRole::CardSelected);
    let label_style = if monster.alive { role_style(mode, UiRole::Monster) } else { role_style(mode, UiRole::CardDisabled) };
    let row_style = if selected { selected_style } else { label_style };
    let index_style = if selected { selected_style } else { role_style(mode, UiRole::Muted) };
    let marker_style = if selected && focus == Focus::Monsters {
        role_style(
            mode,
            effect_role(VisualEffect::Pulse { first: UiRole::Prompt, second: UiRole::Energy, period_ticks: 8 }, profile.animation, tick),
        )
    } else {
        role_style(mode, UiRole::Muted)
    };
    let marker = if selected { symbol_text(unicode, UiSymbol::Prompt)@ } else { " "@ };
    let base = seq![
        (marker + " "@, marker_style),
        (digits((index + 1) as nat) + ". "@, index_style),
        (monster.label@, row_style),
    ];
    if monster.alive {
        base
    } else {
        base.push((
            " "@ + symbol_text(unicode, UiSymbol::Dead)@ + " "@ + loc.spec_ui("label.dead")@,
            if selected { selected_style } else { role_style(mode, UiRole::Defeat) },
        ))
    }
}

pub fn monster_row(
    monster: &CreatureView,
    index: usize,
    selected: bool,
    focus: Focus,
    loc: Localization,
    theme: Theme,
    symbols: Symbols,
    clock: AnimationClock,
) -> (r: MonsterRow)
    requires
        index < usize::MAX,
    ensures
        spans_view(r.label@) == monster_label_text(*monster, index as int, selected, focus, theme.spec_profile(), symbols.spec_unicode(), clock.spec_tick(), loc),
        r.hp_label@ == hp_label_text(monster.hp, monster.max_hp, monster.block, symbols.spec_unicode()),
        r.hp_role == (if monster.max_hp > 0 && monster.hp * 4 <= monster.max_hp { UiRole::HpLow } else { UiRole::HpNormal }),
        spans_view(r.intent@) == intent_line_text(*monster, theme.spec_profile().color, symbols.spec_unicode(), loc, selected),
        spans_view(r.status@) == status_line_text(
            loc.spec_ui("label.status")@,
            loc.spec_ui("label.none")@,
            power_views_view(monster.powers@),
            theme.spec_profile().color,
            selected,
        ),
{
    let profile = theme_profile(theme);
    let selected_style = theme.style(UiRole::CardSelected);
    let label_style = if monster.alive { theme.style(UiRole::Monster) } else { theme.style(UiRole::CardDisabled) };
    let row_style = if selected { selected_style } else { label_style };
    let index_style = if selected { selected_style } else { theme.style(UiRole::Muted) };
    let marker_style = if selected && focus == Focus::Monsters {
        VisualEffect::Pulse { first: UiRole::Prompt, second: UiRole::Energy, period_ticks: 8 }.style(theme, profile.animation, clock.tick())
    } else {
        theme.style(UiRole::Muted)
    };
    let marker = if selected { symbols.get(UiSymbol::Prompt) } else { " " };
    let mut label: Vec<StyledSpan> = Vec::new();
    push_span(&mut label, span(append_str(owned(marker), " "), marker_style));
    let mut n = String::new();
    push_digits(&mut n, (index + 1) as u64);
    n.append(". ");
    proof {
        reveal_strlit("");
    }
    push_span(&mut label, span(n, index_style));
    push_span(&mut label, span(owned(monster.label.as_str()), row_style));
    if !monster.alive {
        let d = append_str(append_str(append_str(owned(" "), symbols.get(UiSymbol::Dead)), " "), loc.ui("label.dead"));
        push_span(&mut label, span(d, if selected { selected_style } else { theme.style(UiRole::Defeat) }));
    }
    proof {
        assert(spans_view(label@) =~= monster_label_text(*monster, index as int, selected, focus, theme.spec_profile(), symbols.spec_unicode(), clock.spec_tick(), loc));
    }
    MonsterRow {
        label,
        hp_label: monster_hp_label(monster, symbols),
        hp_role: hp_role(monster.hp, monster.max_hp),
        intent: monster_intent_line(monster, theme, symbols, loc, selected),
        status: status_line(loc.ui("label.status"), loc.ui("label.none"), &monster.powers, theme, selected),
    }
}

/// One line of the hand: marker, number (right-aligned in two columns),
/// cost, label and type.
pub open spec fn hand_line_text(
    card: CardView,
    index: int,
    selected: bool,
    focus: Focus,
    profile: TerminalProfile,
    unicode: bool,
    tick: u64,
    loc: Localization,
) -> Seq<(Seq<char>, UiStyle)> {
    let mode = profile.color;
    let marker = if selected { symbol_text(unicode, UiSymbol::Prompt)@ } else { " "@ };
    let marker_style = if selected && focus == Focus::Monsters {
        role_style(
            mode,
            effect_role(VisualEffect::Pulse { first: UiRole::Prompt, second: UiRole::Energy, period_ticks: 8 }, profile.animation, tick),
        )
    } else {
        role_style(mode, UiRole::Muted)
    };
    let line_style = if selected { role_style(mode, UiRole::CardSelected) } else { role_style(mode, UiRole::CardPlayable) };
    let number = digits((index + 1) as nat);
    let aligned = if number.len() < 2 { " "@ + number } else { number };
    seq![(marker + " "@, marker_style), (aligned + ". "@, line_style)] + cost_spans_text(card.costs, unicode, loc, mode) + seq![
        (card.label@, line_style),
        ("  "@, raw_style()),
        (card.card_type@, line_style),
    ]
}

pub fn hand_line(
    card: &CardView,
    index: usize,
    selected: bool,
    focus: Focus,
    loc: Localization,
    theme: Theme,
    symbols: Symbols,
    clock: AnimationClock,
) -> (r: Vec<StyledSpan>)
    requires
        index < usize::MAX,
    ensures
        spans_view(r@) == hand_line_text(*card, index as int, selected, focus, theme.spec_profile(), symbols.spec_unicode(), clock.spec_tick(), loc),
{
    let profile = theme_profile(theme);
    let marker = if selected { symbols.get(UiSymbol::Prompt) } else { " " };
    let marker_style = if selected && focus == Focus::Monsters {
        VisualEffect::Pulse { first: UiRole::Prompt, second: UiRole::Energy, period_ticks: 8 }.style(theme, profile.animation, clock.tick())
    } else {
        theme.style(UiRole::Muted)
    };
    let line_style = if selected { theme.style(UiRole::CardSelected) } else { theme.style(UiRole::CardPlayable) };
    let mut spans: Vec<StyledSpan> = Vec::new();
    push_span(&mut spans, span(append_str(owned(marker), " "), marker_style));
    let mut number = String::new();
    if index + 1 < 10 {
        number.append(" ");
    }
    push_digits(&mut number, (index + 1) as u64);
    number.append(". ");
    proof {
        reveal_strlit("");
        reveal_strlit(" ");
        let d = digits((index + 1) as nat);
        crate::text::lemma_digits_len((index + 1) as nat);
    }
    push_span(&mut spans, span(number, line_style));
    let ghost head = spans_view(spans@);
    let costs = card_cost_spans(card.costs, symbols, loc, theme);
    let nc = costs.len();
    for i in 0..nc
        invariant
            nc == costs@.len(),
            spans_view(spans@) == head + spans_view(costs@.take(i as int)),
    {
        let c = StyledSpan { text: owned(costs[i].text.as_str()), style: costs[i].style };
        push_span(&mut spans, c);
        proof {
            assert(spans_view(costs@.take((i + 1) as int)) =~= spans_view(costs@.take(i as int)).push(costs@[i as int]@));
        }
    }
    proof {
        assert(costs@.take(nc as int) =~= costs@);
    }
    push_span(&mut spans, span(owned(card.label.as_str()), line_style));
    push_span(&mut spans, raw("  "));
    push_span(&mut spans, span(owned(card.card_type.as_str()), line_style));
    proof {
        assert(spans_view(spans@) =~= hand_line_text(*card, index as int, selected, focus, theme.spec_profile(), symbols.spec_unicode(), clock.spec_tick(), loc));
    }
    spans
}

/// The footer: the prompt symbol and the short or the full help.
pub open spec fn footer_spans_text(show_help: bool, unicode: bool, mode: crate::adapters::tui::profile::ColorMode, loc: Localization) -> Seq<(Seq<char>, UiStyle)> {
    seq![
        (symbol_text(unicode, UiSymbol::Prompt)@ + " "@, role_style(mode, UiRole::Prompt)),
        (loc.spec_ui(if show_help { "help.tui.full" } else { "help.tui.compact" })@, role_style(mode, UiRole::Muted)),
    ]
}

pub fn footer_spans(show_help: bool, loc: Localization, theme: Theme, symbols: Symbols) -> (r: Vec<StyledSpan>)
    ensures
        spans_view(r@) == footer_spans_text(show_help, symbols.spec_unicode(), theme.spec_profile().color, loc),
{
    let key = if show_help { "help.tui.full" } else { "help.tui.compact" };
    let mut spans: Vec<StyledSpan> = Vec::new();
    push_span(&mut spans, span(append_str(owned(symbols.get(UiSymbol::Prompt)), " "), theme.style(UiRole::Prompt)));
    push_span(&mut spans, span(owned(loc.ui(key)), theme.style(UiRole::Muted)));
    proof {
        assert(spans_view(spans@) =~= footer_spans_text(show_help, symbols.spec_unicode(), theme.spec_profile().color, loc));
    }
    spans
}

} // verus!
