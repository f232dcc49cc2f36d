//! The symbols of the interface, in Unicode or in plain ASCII.
use vstd::prelude::*;

use crate::adapters::tui::profile::TerminalProfile;

verus! {

#[derive(Clone, Copy, Debug, PartialEq, Eq, Structural)]
pub enum UiSymbol {
    Block,
    Dead,
    Discard,
    Draw,
    Energy,
    Exhaust,
    Heart,
    Intent,
    Prompt,
    Star,
}

/// The symbol set a terminal can show.
#[derive(Clone, Copy, Debug)]
pub struct Symbols {
    unicode: bool,
}

/// The text of a symbol, in Unicode or in ASCII.
pub open spec fn symbol_text(unicode: bool, symbol: UiSymbol) -> &'static str {
    match (unicode, symbol) {
        (true, UiSymbol::Block) => "\u{25a3}",
        (false, UiSymbol::Block) => "BLK",
        (true, UiSymbol::Dead) => "\u{2715}",
        (false, UiSymbol::Dead) => "X",
        (true, UiSymbol::Discard) => "\u{21b4}",
        (false, UiSymbol::Discard) => "DIS",
        (true, UiSymbol::Draw) => "\u{21b1}",
        (false, UiSymbol::Draw) => "DRW",
        (true, UiSymbol::Energy) => "\u{25c8}",
        (false, UiSymbol::Energy) => "E",
        (true, UiSymbol::Exhaust) => "\u{25c7}",
        (false, UiSymbol::Exhaust) => "EXH",
        (true, UiSymbol::Heart) => "\u{2665}",
        (false, UiSymbol::Heart) => "HP",
        (true, UiSymbol::Intent) => "\u{25b8}",
        (false, UiSymbol::Intent) => ">",
        (true, UiSymbol::Prompt) => "\u{203a}",
        (false, UiSymbol::Prompt) => ">",
        (true, UiSymbol::Star) => "\u{2605}",
        (false, UiSymbol::Star) => "S",
    }
}

impl Symbols {
    pub closed spec fn spec_unicode(self) -> bool {
        self.unicode
    }

    /// Unicode symbols where the terminal shows Unicode.
    pub fn new(profile: TerminalProfile) -> (r: Symbols)
        ensures
            r.spec_unicode() == profile.unicode,
    {
        Symbols { unicode: profile.unicode }
    }

    pub fn get(self, symbol: UiSymbol) -> (r: &'static str)
        ensures
            r == symbol_text(self.spec_unicode(), symbol),
    {
        match (self.unicode, symbol) {
            (true, UiSymbol::Block) => "\u{25a3}",
            (false, UiSymbol::Block) => "BLK",
            (true, UiSymbol::Dead) => "\u{2715}",
            (false, UiSymbol::Dead) => "X",
            (true, UiSymbol::Discard) => "\u{21b4}",
            (false, UiSymbol::Discard) => "DIS",
            (true, UiSymbol::Draw) => "\u{21b1}",
            (false, UiSymbol::Draw) => "DRW",
            (true, UiSymbol::Energy) => "\u{25c8}",
            (false, UiSymbol::Energy) => "E",
            (true, UiSymbol::Exhaust) => "\u{25c7}",
            (false, UiSymbol::Exhaust) => "EXH",
            (true, UiSymbol::Heart) => "\u{2665}",
            (false, UiSymbol::Heart) => "HP",
            (true, UiSymbol::Intent) => "\u{25b8}",
            (false, UiSymbol::Intent) => ">",
            (true, UiSymbol::Prompt) => "\u{203a}",
            (false, UiSymbol::Prompt) => ">",
            (true, UiSymbol::Star) => "\u{2605}",
            (false, UiSymbol::Star) => "S",
        }
    }
}

} // verus!
