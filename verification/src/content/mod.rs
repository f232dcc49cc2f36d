pub mod cards;
pub mod powers;
pub mod card_text;
pub mod monsters;
pub mod orbs;
pub mod encounters;
pub mod potions;
pub mod relics;
pub mod scenarios;
pub mod laws;
pub mod text_laws;
pub mod token_laws;
pub mod orb_laws;
pub mod power_event_laws;
