# clire_combat

A deck-building combat's content and its terminal interface, written in Verus:
the card, power, curse, token, orb and monster rules, the card text in English
and Simplified Chinese, the combat setup, and what the terminal shows of a
combat, each function with a contract that Verus proves.

## Layout

- `src/` — the verified library.
  - `state.rs`, `setup.rs`, `rng.rs`, `engine.rs`, `log.rs`: the combat's
    state, how a combat is set up and shuffled, commands and step reports.
  - `amount.rs`: exact decimal quantities, computed by `rust_decimal` behind
    small trusted wrappers.
  - `registry.rs`, `registry_static.rs`: definitions keyed by id.
  - `pipeline.rs`, `rules.rs`, `effect.rs`: how powers modify damage, block
    and costs, and how rules answer yes/no questions.
  - `content/`: cards (Ironclad, curses, tokens), powers, monsters, orbs,
    encounters, potions, relics, scenarios, and the card text.
  - `assets/`: localization tables, fallback labels, rich-text stripping.
  - `adapters/`: input parsing, the terminal profile, theme and symbols, the
    snapshot of a combat, the plain-text screen, the full-screen panels and
    selection, step summaries and the step log's format.
- `tests/` — tests run against the compiled library.
- `app/` — the program: environment and command line, stdin/stdout, the log
  file, and the ratatui/crossterm screen.
