//! Sticker album bookkeeping: collections of numbered stickers, which of them
//! have been collected, how many duplicates are at hand, and the SQLite store
//! that keeps all of it between runs.
//!
//! The crate holds the album's state and rules. Drawing the widgets is left to
//! the program that embeds it: every action a user can take on screen is a
//! function here, and the program calls it when the widget reports the action.

pub mod album;
pub mod card;
pub mod card_adder;
pub mod collection;
pub mod collection_adder;
pub mod collection_settings;
pub mod db;
pub mod sqlite;
pub mod text;
