//! The demo combat the interface drives: its setup, the command line, the
//! message list and what each action of the player asks of the combat.
use vstd::prelude::*;

use crate::adapters::tui::parse::{parse_u64, parse_usize, parsed_u64, parsed_usize, UiInput};
use crate::adapters::tui::profile::args_view;
use crate::adapters::tui::view::{card_label, strings_view, CombatSnapshot};
use crate::assets::localization::{language_of_code, Language, Localization};
use crate::content::cards::TargetType;
use crate::content::scenarios::{is_random_nibbit_combat, random_nibbit_combat};
use crate::engine::{Command, Engine};
use crate::ids::{CardInstanceId, CreatureId};
use crate::log::card_instance_text;
use crate::registry_static::StaticRegistry;
use crate::state::{CombatPhase, Side, BASE_HAND_DRAW_COUNT};
use crate::text::{append_str, chars_start_with, chars_from, int_text, owned, push_int, str_chars, string_of};

verus! {

/// Cards in the demo deck.
pub const DEMO_DECK_SIZE: usize = 25;

/// Nibbits fielded when the command line names no count.
pub const DEFAULT_NIBBIT_COUNT: usize = 3;

/// The player's HP in the demo combat.
pub const PLAYER_MAX_HP: i32 = 80;

/// The player's energy per turn in the demo combat.
pub const PLAYER_MAX_ENERGY: i32 = 3;

/// Messages kept on screen.
pub const MAX_MESSAGES: usize = 8;

// ---------------------------------------------------------------------------
// Command line
// ---------------------------------------------------------------------------

/// What follows the prefix in the first argument that starts with it.
pub open spec fn arg_with_prefix(args: Seq<Seq<char>>, prefix: Seq<char>) -> Option<Seq<char>>
    decreases args.len(),
{
    if args.len() == 0 {
        None
    } else if args[0].len() >= prefix.len() && args[0].subrange(0, prefix.len() as int) == prefix {
        Some(args[0].subrange(prefix.len() as int, args[0].len() as int))
    } else {
        arg_with_prefix(args.drop_first(), prefix)
    }
}

fn arg_value(args: &Vec<String>, prefix: &str) -> (r: Option<Vec<char>>)
    ensures
        match r {
            Some(v) => arg_with_prefix(args_view(args@), prefix@) == Some(v@),
            None => arg_with_prefix(args_view(args@), prefix@) is None,
        },
{
    let n = args.len();
    let mut i: usize = 0;
    proof {
        assert(args_view(args@).skip(0) =~= args_view(args@));
    }
    while i < n
        invariant
            n == args@.len(),
            i <= n,
            arg_with_prefix(args_view(args@), prefix@) == arg_with_prefix(args_view(args@).skip(i as int), prefix@),
        decreases n - i,
    {
        proof {
            assert(args_view(args@).skip(i as int)[0] == args@[i as int]@);
            assert(args_view(args@).skip(i as int).drop_first() =~= args_view(args@).skip(i + 1));
        }
        let a = str_chars(args[i].as_str());
        if chars_start_with(&a, prefix) {
            let start = prefix.unicode_len();
            return Some(chars_from(&a, start));
        }
        i = i + 1;
    }
    None
}

/// The seed of `--seed=N`: the first such argument, if its value is a number.
pub fn parse_seed(args: &Vec<String>) -> (r: Option<u64>)
    ensures
        r == match arg_with_prefix(args_view(args@), "--seed="@) {
            Some(v) => parsed_u64(v),
            None => None,
        },
{
    match arg_value(args, "--seed=") {
        Some(v) => parse_u64(&v),
        None => None,
    }
}

/// The language of `--lang=CODE`: the first such argument, if its code is known.
pub fn parse_language(args: &Vec<String>) -> (r: Option<Language>)
    ensures
        r == match arg_with_prefix(args_view(args@), "--lang="@) {
            Some(v) => language_of_code(v),
            None => None,
        },
{
    match arg_value(args, "--lang=") {
        Some(v) => {
            let code = string_of(&v);
            Language::from_code(code.as_str())
        },
        None => None,
    }
}

/// The count of `--nibbits=N`: the first such argument, if its value is a
/// number above zero.
pub fn parse_nibbit_count(args: &Vec<String>) -> (r: Option<usize>)
    ensures
        r == match arg_with_prefix(args_view(args@), "--nibbits="@) {
            Some(v) => match parsed_usize(v) {
                Some(c) => if c > 0 { Some(c) } else { None },
                None => None,
            },
            None => None,
        },
{
    match arg_value(args, "--nibbits=") {
        Some(v) => match parse_usize(&v) {
            Some(c) => if c > 0 { Some(c) } else { None },
            None => None,
        },
        None => None,
    }
}

// ---------------------------------------------------------------------------
// The demo combat
// ---------------------------------------------------------------------------

/// The demo combat: a random deck of 25 cards against the Nibbits, with the
/// demo player's HP and energy and the usual opening hand.
pub fn build_demo_engine<'a>(registry: &'a StaticRegistry, seed: u64, nibbit_count: usize) -> (r: Engine<'a>)
    requires
        nibbit_count < u32::MAX,
    ensures
        r.registry == registry,
        is_random_nibbit_combat(
            r.state,
            registry,
            seed,
            nibbit_count,
            DEMO_DECK_SIZE,
            PLAYER_MAX_HP,
            PLAYER_MAX_ENERGY,
            BASE_HAND_DRAW_COUNT,
        ),
{
    let state = random_nibbit_combat(
        registry,
        seed,
        nibbit_count,
        DEMO_DECK_SIZE,
        PLAYER_MAX_HP,
        PLAYER_MAX_ENERGY,
        BASE_HAND_DRAW_COUNT,
    );
    Engine::with_registry(state, registry)
}

/// The target a card's play is aimed at: for a card aimed at an enemy or any
/// creature, the living monster at the index, else the first living
/// monster; no target for cards aimed elsewhere or at every enemy; for a card
/// without a definition, the monster at the index.
pub open spec fn resolved_target(engine: &Engine, card: CardInstanceId, monster_index: Option<usize>) -> Option<CreatureId> {
    match engine.state.combat {
        None => None,
        Some(_) => {
            let ids = engine.state.spec_alive_monster_ids();
            let explicit = match monster_index {
                Some(i) => if i < ids.len() { Some(ids[i as int]) } else { None },
                None => None,
            };
            let first = if ids.len() > 0 { Some(ids[0]) } else { None };
            let target_type = match engine.state.spec_card(card) {
                Some(c) => if engine.registry.cards@.contains_key(c.def) {
                    Some(engine.registry.cards@[c.def].target)
                } else {
                    None
                },
                None => None,
            };
            match target_type {
                Some(TargetType::AnyCreature) | Some(TargetType::Enemy) => if explicit is Some {
                    explicit
                } else {
                    first
                },
                Some(_) => None,
                None => explicit,
            }
        },
    }
}

pub fn resolve_target(engine: &Engine<'_>, card: CardInstanceId, monster_index: Option<usize>) -> (r: Option<CreatureId>)
    ensures
        r == resolved_target(engine, card, monster_index),
{
    if engine.state.combat().is_none() {
        return None;
    }
    let ids = engine.state.alive_monster_ids();
    let explicit = match monster_index {
        Some(i) => if i < ids.len() { Some(ids[i]) } else { None },
        None => None,
    };
    let target_type = match engine.state.card(card) {
        Some(c) => match engine.registry.cards.get(c.def) {
            Some(def) => Some(def.target),
            None => None,
        },
        None => None,
    };
    match target_type {
        Some(TargetType::AnyCreature) | Some(TargetType::Enemy) => match explicit {
            Some(t) => Some(t),
            None => if ids.len() > 0 { Some(ids[0]) } else { None },
        },
        Some(_) => None,
        None => explicit,
    }
}

// ---------------------------------------------------------------------------
// Text layout
// ---------------------------------------------------------------------------

/// The columns a character takes: two for the wide East Asian ranges, one else.
pub open spec fn char_width(c: char) -> nat {
    let code = c as u32;
    if (0x1100 <= code && code <= 0x115F) || (0x2E80 <= code && code <= 0xA4CF) || (0xAC00 <= code && code <= 0xD7A3)
        || (0xF900 <= code && code <= 0xFAFF) || (0xFE10 <= code && code <= 0xFE19) || (0xFE30 <= code && code
        <= 0xFE6F) || (0xFF00 <= code && code <= 0xFF60) || (0xFFE0 <= code && code <= 0xFFE6) {
        2
    } else {
        1
    }
}

/// The columns a text takes.
pub open spec fn text_width(s: Seq<char>) -> nat
    decreases s.len(),
{
    if s.len() == 0 {
        0
    } else {
        text_width(s.drop_last()) + char_width(s.last())
    }
}

pub fn char_display_width(ch: char) -> (r: usize)
    ensures
        r == char_width(ch),
{
    let code = ch as u32;
    if (0x1100 <= code && code <= 0x115F) || (0x2E80 <= code && code <= 0xA4CF) || (0xAC00 <= code && code <= 0xD7A3)
        || (0xF900 <= code && code <= 0xFAFF) || (0xFE10 <= code && code <= 0xFE19) || (0xFE30 <= code && code
        <= 0xFE6F) || (0xFF00 <= code && code <= 0xFF60) || (0xFFE0 <= code && code <= 0xFFE6) {
        2
    } else {
        1
    }
}

proof fn lemma_text_width_bound(s: Seq<char>)
    ensures
        text_width(s) <= 2 * s.len(),
    decreases s.len(),
{
    if s.len() > 0 {
        lemma_text_width_bound(s.drop_last());
    }
}

/// The columns the text takes on a terminal.
pub fn display_width(value: &str) -> (r: usize)
    requires
        value@.len() <= usize::MAX / 2,
    ensures
        r == text_width(value@),
{
    let n = value.unicode_len();
    let mut w: usize = 0;
    for i in 0..n
        invariant
            n == value@.len(),
            n <= usize::MAX / 2,
            w == text_width(value@.take(i as int)),
    {
        proof {
            assert(value@.take((i + 1) as int).drop_last() =~= value@.take(i as int));
            lemma_text_width_bound(value@.take(i as int));
        }
        w = w + char_display_width(value.get_char(i));
    }
    proof {
        assert(value@.take(n as int) =~= value@);
    }
    w
}

/// `n` spaces.
pub open spec fn spaces(n: nat) -> Seq<char> {
    Seq::new(n, |i: int| ' ')
}

/// The text, followed by spaces until it takes at least `min_width` columns.
pub open spec fn padded(s: Seq<char>, min_width: nat) -> Seq<char> {
    if text_width(s) >= min_width {
        s
    } else {
        s + spaces((min_width - text_width(s)) as nat)
    }
}

pub fn pad_display(value: &str, min_width: usize) -> (r: String)
    requires
        value@.len() <= usize::MAX / 2,
    ensures
        r@ == padded(value@, min_width as nat),
{
    let width = display_width(value);
    let mut s = owned(value);
    if width >= min_width {
        return s;
    }
    let k = min_width - width;
    for i in 0..k
        invariant
            s@ == value@ + spaces(i as nat),
    {
        crate::text::push_char(&mut s, ' ');
        proof {
            assert(value@ + spaces((i + 1) as nat) =~= (value@ + spaces(i as nat)).push(' '));
        }
    }
    s
}

/// Spaces add one column each.
pub proof fn lemma_spaces_width(s: Seq<char>, n: nat)
    ensures
        text_width(s + spaces(n)) == text_width(s) + n,
    decreases n,
{
    if n > 0 {
        lemma_spaces_width(s, (n - 1) as nat);
        assert((s + spaces(n)).drop_last() =~= s + spaces((n - 1) as nat));
    } else {
        assert(s + spaces(0) =~= s);
    }
}

/// Padding never makes a text narrower than asked, and keeps the text in front.
pub proof fn lemma_padded_width(s: Seq<char>, min_width: nat)
    ensures
        text_width(padded(s, min_width)) >= min_width,
        padded(s, min_width).subrange(0, s.len() as int) == s,
{
    if text_width(s) < min_width {
        lemma_spaces_width(s, (min_width - text_width(s)) as nat);
        assert((s + spaces((min_width - text_width(s)) as nat)).subrange(0, s.len() as int) =~= s);
    } else {
        assert(s.subrange(0, s.len() as int) =~= s);
    }
}

/// `  block N` for a positive block, nothing else.
pub open spec fn block_suffix_text(block: i32, loc: &Localization) -> Seq<char> {
    if block > 0 {
        "  "@ + loc.spec_ui("label.block")@ + " "@ + int_text(block as int)
    } else {
        ""@
    }
}

pub fn block_suffix(block: i32, loc: &Localization) -> (r: String)
    ensures
        r@ == block_suffix_text(block, loc),
{
    if block > 0 {
        let s = owned("  ");
        let s = append_str(s, loc.ui("label.block"));
        let mut s = append_str(s, " ");
        push_int(&mut s, block as i64);
        s
    } else {
        proof {
            reveal_strlit("");
        }
        String::new()
    }
}

// ---------------------------------------------------------------------------
// Messages and input
// ---------------------------------------------------------------------------

/// The messages on screen, oldest first; at most `MAX_MESSAGES` of them.
pub struct MessageLog {
    messages: Vec<String>,
}

/// The messages after one more: the oldest leaves when the list is full.
pub open spec fn after_message(messages: Seq<Seq<char>>, message: Seq<char>) -> Seq<Seq<char>> {
    if messages.len() == MAX_MESSAGES {
        messages.drop_first().push(message)
    } else {
        messages.push(message)
    }
}

/// The messages after each new one in turn.
pub open spec fn after_messages(messages: Seq<Seq<char>>, new: Seq<Seq<char>>) -> Seq<Seq<char>>
    decreases new.len(),
{
    if new.len() == 0 {
        messages
    } else {
        after_message(after_messages(messages, new.drop_last()), new.last())
    }
}

impl MessageLog {
    #[verifier::type_invariant]
    spec fn within_limit(self) -> bool {
        self.messages@.len() <= MAX_MESSAGES
    }

    pub closed spec fn spec_messages(&self) -> Seq<Seq<char>> {
        strings_view(self.messages@)
    }

    /// The list without messages.
    pub fn empty() -> (r: MessageLog)
        ensures
            r.spec_messages() == Seq::<Seq<char>>::empty(),
    {
        let r = MessageLog { messages: Vec::new() };
        assert(r.spec_messages() =~= Seq::<Seq<char>>::empty());
        r
    }

    /// The list with its first message.
    pub fn new(first: String) -> (r: MessageLog)
        ensures
            r.spec_messages() == seq![first@],
    {
        let mut messages: Vec<String> = Vec::new();
        messages.push(first);
        let r = MessageLog { messages };
        assert(r.spec_messages() =~= seq![first@]);
        r
    }

    pub fn push_message(&mut self, message: String)
        ensures
            final(self).spec_messages() == after_message(old(self).spec_messages(), message@),
            final(self).spec_messages().len() <= MAX_MESSAGES,
            final(self).spec_messages().last() == message@,
    {
        proof {
            use_type_invariant(&*self);
        }
        let mut messages = Vec::new();
        std::mem::swap(&mut messages, &mut self.messages);
        let ghost before = messages@;
        if messages.len() == MAX_MESSAGES {
            messages.remove(0);
        }
        messages.push(message);
        proof {
            assert(strings_view(messages@) =~= after_message(strings_view(before), message@));
        }
        self.messages = messages;
    }

    /// Each message in turn.
    pub fn push_messages(&mut self, messages: Vec<String>)
        ensures
            final(self).spec_messages() == after_messages(old(self).spec_messages(), strings_view(messages@)),
            final(self).spec_messages().len() <= MAX_MESSAGES,
            messages@.len() > 0 ==> final(self).spec_messages().last() == messages@.last()@,
    {
        proof {
            use_type_invariant(&*self);
        }
        let n = messages.len();
        for i in 0..n
            invariant
                n == messages@.len(),
                self.spec_messages() == after_messages(old(self).spec_messages(), strings_view(messages@).take(i as int)),
                i > 0 ==> self.spec_messages().last() == messages@[i - 1]@,
                self.spec_messages().len() <= MAX_MESSAGES,
        {
            let m = owned(messages[i].as_str());
            self.push_message(m);
            proof {
                let vs = strings_view(messages@);
                assert(vs.take(i + 1).drop_last() =~= vs.take(i as int));
                assert(vs.take(i + 1).last() == messages@[i as int]@);
            }
        }
        proof {
            assert(strings_view(messages@).take(n as int) =~= strings_view(messages@));
        }
    }

    pub fn messages(&self) -> (r: &Vec<String>)
        ensures
            strings_view(r@) == self.spec_messages(),
    {
        &self.messages
    }
}

/// What the player asks of the combat.
#[derive(Clone, Copy, Debug, PartialEq, Eq, Structural)]
pub enum CombatUiAction {
    PlayHandCard { hand_index: usize, monster_index: Option<usize> },
    EndTurn,
    Restart,
}

/// What the interface does after a line of input.
#[derive(Clone, Copy, Debug, PartialEq, Eq, Structural)]
pub enum InputOutcome {
    Quit,
    Continue,
    Submit(CombatUiAction),
}

/// Acts on a parsed line: help and language changes and invalid input are
/// answered with a message; combat actions are handed on.
pub fn handle_input(input: UiInput, loc: &mut Localization, messages: &mut MessageLog) -> (r: InputOutcome)
    ensures
        match input {
            UiInput::Quit => r == InputOutcome::Quit,
            UiInput::Restart => r == InputOutcome::Submit(CombatUiAction::Restart),
            UiInput::EndTurn => r == InputOutcome::Submit(CombatUiAction::EndTurn),
            UiInput::Play { hand, monster } => r == InputOutcome::Submit(
                CombatUiAction::PlayHandCard { hand_index: hand, monster_index: monster },
            ),
            _ => r == InputOutcome::Continue,
        },
        match input {
            UiInput::SetLanguage(language) => final(loc).spec_language() == language,
            _ => *final(loc) == *old(loc),
        },
        match input {
            UiInput::Help => final(messages).spec_messages() == after_message(
                old(messages).spec_messages(),
                old(loc).spec_ui("help.full")@,
            ),
            UiInput::SetLanguage(language) => final(messages).spec_messages() == after_message(
                old(messages).spec_messages(),
                final(loc).spec_language_changed_text(),
            ),
            UiInput::Invalid(m) => final(messages).spec_messages() == after_message(old(messages).spec_messages(), m@),
            _ => final(messages).spec_messages() == old(messages).spec_messages(),
        },
{
    match input {
        UiInput::Quit => InputOutcome::Quit,
        UiInput::Help => {
            let text = owned(loc.ui("help.full"));
            messages.push_message(text);
            InputOutcome::Continue
        },
        UiInput::SetLanguage(language) => {
            loc.set_language(language);
            let text = loc.format_language_changed();
            messages.push_message(text);
            InputOutcome::Continue
        },
        UiInput::Restart => InputOutcome::Submit(CombatUiAction::Restart),
        UiInput::EndTurn => InputOutcome::Submit(CombatUiAction::EndTurn),
        UiInput::Play { hand, monster } => InputOutcome::Submit(
            CombatUiAction::PlayHandCard { hand_index: hand, monster_index: monster },
        ),
        UiInput::Empty => InputOutcome::Continue,
        UiInput::Invalid(message) => {
            messages.push_message(message);
            InputOutcome::Continue
        },
    }
}

// ---------------------------------------------------------------------------
// The driver
// ---------------------------------------------------------------------------

/// What an action comes to: messages to show at once, or a command for the
/// combat, with the label its result is reported under.
pub enum SubmitPlan {
    Reply(Vec<String>),
    Run { label: String, command: Command },
}

/// The demo combat and how to build it again.
pub struct LocalCombatDriver<'a> {
    pub registry: &'a StaticRegistry,
    pub engine: Engine<'a>,
    pub seed: u64,
    pub nibbit_count: usize,
}

/// The label a played card is reported under.
pub open spec fn played_card_label(engine: &Engine, card: CardInstanceId, loc: &Localization) -> Seq<char> {
    loc.spec_play_card_text(
        match engine.state.spec_card(card) {
            Some(c) => if engine.registry.cards@.contains_key(c.def) {
                loc.spec_entity_name(engine.registry.cards@[c.def].loc_key)
            } else {
                card_instance_text(card)
            },
            None => card_instance_text(card),
        },
    )
}

impl<'a> LocalCombatDriver<'a> {
    pub fn new(registry: &'a StaticRegistry, seed: u64, nibbit_count: usize) -> (r: LocalCombatDriver<'a>)
        requires
            nibbit_count < u32::MAX,
        ensures
            r.registry == registry,
            r.engine.registry == registry,
            r.seed == seed,
            r.nibbit_count == nibbit_count,
            is_random_nibbit_combat(
                r.engine.state,
                registry,
                seed,
                nibbit_count,
                DEMO_DECK_SIZE,
                PLAYER_MAX_HP,
                PLAYER_MAX_ENERGY,
                BASE_HAND_DRAW_COUNT,
            ),
    {
        let engine = build_demo_engine(registry, seed, nibbit_count);
        LocalCombatDriver { registry, engine, seed, nibbit_count }
    }

    /// A new demo combat, with the next seed (wrapping at the end of `u64`).
    pub fn restart(&mut self)
        requires
            old(self).nibbit_count < u32::MAX,
        ensures
            final(self).seed == vstd::wrapping::u64_specs::wrapping_add(old(self).seed, 1),
            final(self).registry == old(self).registry,
            final(self).nibbit_count == old(self).nibbit_count,
            final(self).engine.registry == old(self).registry,
            is_random_nibbit_combat(
                final(self).engine.state,
                old(self).registry,
                final(self).seed,
                old(self).nibbit_count,
                DEMO_DECK_SIZE,
                PLAYER_MAX_HP,
                PLAYER_MAX_ENERGY,
                BASE_HAND_DRAW_COUNT,
            ),
    {
        self.seed = self.seed.wrapping_add(1);
        self.engine = build_demo_engine(self.registry, self.seed, self.nibbit_count);
    }

    pub fn snapshot(&self, loc: &Localization) -> (r: CombatSnapshot)
        requires
            crate::adapters::tui::view::snapshot_ready(&self.engine.state, self.engine.registry),
        ensures
            crate::adapters::tui::view::snapshot_of(r, &self.engine, loc),
    {
        CombatSnapshot::from_engine(&self.engine, loc)
    }

    /// What an action comes to. A restart happens at once and is answered
    /// with the new seed. Ending the turn is a command for the player's side.
    /// Playing a card is refused, with a message, outside combat, outside the
    /// player's action phase, or for an index past the hand; else it is a
    /// command to play that card at its resolved target.
    pub fn submit(&mut self, action: CombatUiAction, loc: &Localization) -> (r: SubmitPlan)
        requires
            old(self).nibbit_count < u32::MAX,
            action matches CombatUiAction::PlayHandCard { hand_index, .. } ==> hand_index < usize::MAX,
        ensures
            action != CombatUiAction::Restart ==> *final(self) == *old(self),
            match action {
                CombatUiAction::Restart => {
                    &&& final(self).seed == vstd::wrapping::u64_specs::wrapping_add(old(self).seed, 1)
                    &&& final(self).nibbit_count == old(self).nibbit_count
                    &&& final(self).registry == old(self).registry
                    &&& is_random_nibbit_combat(
                        final(self).engine.state,
                        old(self).registry,
                        final(self).seed,
                        old(self).nibbit_count,
                        DEMO_DECK_SIZE,
                        PLAYER_MAX_HP,
                        PLAYER_MAX_ENERGY,
                        BASE_HAND_DRAW_COUNT,
                    )
                    &&& r matches SubmitPlan::Reply(m) && strings_view(m@) == seq![loc.spec_started_text(final(self).seed)]
                },
                CombatUiAction::EndTurn => r matches SubmitPlan::Run { label, command } && label@ == loc.spec_ui(
                    "action.end_turn",
                )@ && command == (Command::EndTurn { side: Side::Player }),
                CombatUiAction::PlayHandCard { hand_index, monster_index } => match old(self).engine.state.combat {
                    None => r matches SubmitPlan::Reply(m) && strings_view(m@) == seq![loc.spec_ui("error.no_active_combat")@],
                    Some(c) => if c.phase != CombatPhase::PlayerAction {
                        r matches SubmitPlan::Reply(m) && strings_view(m@) == seq![loc.spec_ui("error.not_player_action_phase")@]
                    } else if hand_index >= c.player.piles.hand@.len() {
                        r matches SubmitPlan::Reply(m) && strings_view(m@) == seq![loc.spec_no_card_text((hand_index + 1) as usize)]
                    } else {
                        let card = c.player.piles.hand@[hand_index as int];
                        r matches SubmitPlan::Run { label, command } && label@ == played_card_label(&old(self).engine, card, loc)
                            && command == (Command::PlayCard {
                            player: c.player.id,
                            card,
                            target: resolved_target(&old(self).engine, card, monster_index),
                        })
                    },
                },
            },
    {
        match action {
            CombatUiAction::Restart => {
                self.restart();
                let mut m: Vec<String> = Vec::new();
                m.push(loc.format_started_test_combat(self.seed));
                assert(strings_view(m@) =~= seq![loc.spec_started_text(self.seed)]);
                SubmitPlan::Reply(m)
            },
            CombatUiAction::EndTurn => SubmitPlan::Run {
                label: owned(loc.ui("action.end_turn")),
                command: Command::EndTurn { side: Side::Player },
            },
            CombatUiAction::PlayHandCard { hand_index, monster_index } => {
                let combat = match self.engine.state.combat() {
                    Some(c) => c,
                    None => return reply_one(owned(loc.ui("error.no_active_combat"))),
                };
                if combat.phase != CombatPhase::PlayerAction {
                    return reply_one(owned(loc.ui("error.not_player_action_phase")));
                }
                if hand_index >= combat.player.piles.hand.len() {
                    return reply_one(loc.format_no_card_at_hand_index(hand_index + 1));
                }
                let card = combat.player.piles.hand[hand_index];
                let target = resolve_target(&self.engine, card, monster_index);
                let player = combat.player.id;
                let name = card_label(&self.engine, card, loc);
                let label = loc.format_play_card(name.as_str());
                SubmitPlan::Run { label, command: Command::PlayCard { player, card, target } }
            },
        }
    }
}

fn reply_one(message: String) -> (r: SubmitPlan)
    ensures
        r matches SubmitPlan::Reply(m) && strings_view(m@) == seq![message@],
{
    let mut m: Vec<String> = Vec::new();
    m.push(message);
    assert(strings_view(m@) =~= seq![message@]);
    SubmitPlan::Reply(m)
}

} // verus!
