//! A single sticker of a collection.

use vstd::prelude::*;
use crate::db::{DbError, DbHandler, DbStage};

verus! {

/// A sticker: its printed number, its row in the store, whether it has been
/// collected, and how many spare copies are at hand.
#[derive(Debug, Clone, Copy, PartialEq, Eq, Structural)]
pub struct Card {
    pub label: u32,
    pub id: u32,
    pub checked: bool,
    pub duplicates: u32,
}

impl Card {
    /// A card with exactly the given fields.
    pub fn new(label: u32, id: u32, checked: bool, duplicates: u32) -> (card: Self)
        ensures
            card == (Card { label, id, checked, duplicates }),
    {
        Self { label, id, checked, duplicates }
    }

    /// Whether there is a spare copy to give away.
    pub fn has_duplicates(&self) -> (r: bool)
        ensures
            r == (self.duplicates >= 1),
    {
        self.duplicates >= 1
    }

    /// Marks the card as collected or not, and stores the mark. The card
    /// carries the new mark whether or not the store took it.
    pub fn set_checked(&mut self, checked: bool, db_handler: &DbHandler) -> (r: Result<(), DbError>)
        ensures
            *final(self) == (Card { checked, ..*old(self) }),
            r matches Err(e) ==> e.stage == DbStage::Statement || e.stage == DbStage::Query,
    {
        self.checked = checked;
        db_handler.update_card(self.id, self.checked)
    }

    /// Counts one more spare copy and stores the count. The card carries the
    /// new count whether or not the store took it.
    pub fn add_duplicate(&mut self, db_handler: &DbHandler) -> (r: Result<(), DbError>)
        requires
            old(self).duplicates < u32::MAX,
        ensures
            *final(self) == (Card { duplicates: (old(self).duplicates + 1) as u32, ..*old(self) }),
            r matches Err(e) ==> e.stage == DbStage::Query,
    {
        self.duplicates = self.duplicates + 1;
        db_handler.update_card_duplicates(self)
    }

    /// Counts one spare copy less and stores the count; with no spare copy
    /// there is nothing to do, and nothing is stored.
    pub fn remove_duplicate(&mut self, db_handler: &DbHandler) -> (r: Result<(), DbError>)
        ensures
            old(self).duplicates >= 1 ==> *final(self) == (Card {
                duplicates: (old(self).duplicates - 1) as u32,
                ..*old(self)
            }),
            old(self).duplicates == 0 ==> *final(self) == *old(self) && r is Ok,
            r matches Err(e) ==> e.stage == DbStage::Query,
    {
        if self.duplicates >= 1 {
            self.duplicates = self.duplicates - 1;
            db_handler.update_card_duplicates(self)
        } else {
            Ok(())
        }
    }
}

} // verus!
