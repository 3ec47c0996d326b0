//! A named collection of stickers.

use vstd::prelude::*;
use crate::card::Card;
use crate::db::{DbError, DbHandler, DbStage};

verus! {

/// A collection as the store lists it: its row and its name.
#[derive(Debug)]
pub struct Collection {
    pub id: u32,
    pub name: String,
}

impl Collection {
    /// A collection with exactly the given fields.
    pub fn new(id: u32, name: String) -> (collection: Self)
        ensures
            collection.id == id,
            collection.name == name,
    {
        Self { id, name }
    }

    /// Makes this collection the selected one: loads its cards and its name
    /// from the store and puts them on screen, as `show_loaded` does. Where
    /// the store fails, nothing changes.
    pub fn select(
        &self,
        cards: &mut Vec<Card>,
        db_handler: &DbHandler,
        selected_collection: &mut Option<u32>,
        selected_collection_name: &mut Option<String>,
    ) -> (r: Result<(), DbError>)
        ensures
            r is Ok ==> {
                &&& *final(selected_collection) == Some(self.id)
                &&& *final(selected_collection_name) is Some
            },
            r matches Err(e) ==> {
                &&& *final(cards) == *old(cards)
                &&& *final(selected_collection) == *old(selected_collection)
                &&& *final(selected_collection_name) == *old(selected_collection_name)
                &&& (e.stage == DbStage::Statement || e.stage == DbStage::Query)
            },
    {
        let loaded = db_handler.get_cards_from_collection(self.id)?;
        let name = db_handler.get_collection_name(self.id)?;
        self.show_loaded(loaded, name, cards, selected_collection, selected_collection_name);
        Ok(())
    }

    /// Puts this collection on screen as the selected one, with the cards
    /// and the name that the store gave for it: `loaded` takes the place of
    /// the cards shown before, and the selection is this collection's id
    /// under the name `name`.
    pub fn show_loaded(
        &self,
        loaded: Vec<Card>,
        name: String,
        cards: &mut Vec<Card>,
        selected_collection: &mut Option<u32>,
        selected_collection_name: &mut Option<String>,
    )
        ensures
            *final(cards) == loaded,
            *final(selected_collection) == Some(self.id),
            *final(selected_collection_name) == Some(name),
    {
        *cards = loaded;
        *selected_collection = Some(self.id);
        *selected_collection_name = Some(name);
    }
}

} // verus!
