//! Changing the color of a chocobo's plumage by feeding it fruits.

pub mod dye;
pub mod lang;
pub mod meal;
pub mod menu;
pub mod rgb;
pub mod snack;

pub use dye::{Category, Dye};
pub use lang::{Lang, ParseLangError};
pub use meal::make_meal;
pub use menu::make_menu;
pub use rgb::{ParseHexError, Rgb};
pub use snack::{Snack, SnackList};
