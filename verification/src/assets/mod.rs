pub mod localization;
pub mod rich_text;
pub mod tables;
