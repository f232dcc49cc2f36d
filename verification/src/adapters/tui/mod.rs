pub mod animation;
pub mod parse;
pub mod profile;
pub mod symbols;
pub mod theme;
pub mod view;
pub mod driver;
pub mod summary;
pub mod plain;
pub mod screen;
