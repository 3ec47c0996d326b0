//! The album as a whole: the store, what is on screen, and the forms.

use vstd::prelude::*;
use vstd::string::StringExecFns;
use crate::card::Card;
use crate::card_adder::CardAdder;
use crate::collection::Collection;
use crate::collection_adder::CollectionAdder;
use crate::collection_settings::{visible_positions, CollectionSettings};
use crate::db::{DbError, DbHandler, DbStage};

verus! {

/// Everything the album's window works on.
pub struct App {
    pub db_handler: DbHandler,
    /// The cards of the selected collection.
    pub cards: Vec<Card>,
    pub collections: Vec<Collection>,
    pub collection_adder: CollectionAdder,
    pub collection_settings: CollectionSettings,
    pub selected_collection_id: Option<u32>,
    pub selected_collection_name: Option<String>,
    pub card_adder: CardAdder,
}

/// The title above the cards: the selected collection's name, or a general
/// word where none is selected, and a colon.
pub open spec fn heading_text(selected_name: Option<String>) -> Seq<char> {
    match selected_name {
        Some(name) => name@ + ":"@,
        None => "Carduri"@ + ":"@,
    }
}

/// Whether the card at `position` among those shown is the last of its row,
/// in a grid `columns` wide. A grid without columns has no rows to end.
pub open spec fn closes_row(position: usize, columns: usize) -> bool {
    columns != 0 && position % columns == columns - 1
}

impl App {
    /// The album as it opens: the collections that the store lists, shown
    /// as `with_collections` shows them.
    pub fn new(db_handler: DbHandler) -> (r: Result<App, DbError>)
        ensures
            match r {
                Ok(app) => {
                    &&& app.db_handler == db_handler
                    &&& app.cards@.len() == 0
                    &&& app.selected_collection_id is None
                    &&& app.selected_collection_name is None
                    &&& app.collection_settings.show_collected
                    &&& app.collection_settings.show_not_collected
                    &&& app.collection_adder.collection_name@.len() == 0
                    &&& app.collection_adder.size == 0
                    &&& app.card_adder.card_label@.len() == 0
                    &&& !app.card_adder.show_popup
                },
                Err(e) => e.stage == DbStage::Statement || e.stage == DbStage::Query,
            },
    {
        let collections = db_handler.get_collections()?;
        Ok(App::with_collections(db_handler, collections))
    }

    /// The album as it opens on the store `db_handler`, once `collections`
    /// has been read from it: these collections, none selected, no cards on
    /// screen, empty forms and open filters.
    pub fn with_collections(db_handler: DbHandler, collections: Vec<Collection>) -> (app: App)
        ensures
            app.db_handler == db_handler,
            app.collections == collections,
            app.cards@.len() == 0,
            app.selected_collection_id is None,
            app.selected_collection_name is None,
            app.collection_settings.show_collected,
            app.collection_settings.show_not_collected,
            app.collection_adder.collection_name@.len() == 0,
            app.collection_adder.size == 0,
            app.card_adder.card_label@.len() == 0,
            !app.card_adder.show_popup,
    {
        App {
            db_handler,
            cards: Vec::new(),
            collections,
            collection_adder: CollectionAdder::new(),
            collection_settings: CollectionSettings::new(),
            selected_collection_id: None,
            selected_collection_name: None,
            card_adder: CardAdder::new(),
        }
    }

    /// The title above the cards.
    pub fn heading(&self) -> (title: String)
        ensures
            title@ == heading_text(self.selected_collection_name),
    {
        let name = match &self.selected_collection_name {
            Some(name) => name.clone(),
            None => String::from_str("Carduri"),
        };
        name.concat(":")
    }

    /// The positions in `cards` of the cards that the filters let through.
    pub fn visible_cards(&self) -> (positions: Vec<usize>)
        ensures
            positions@ == visible_positions(self.collection_settings, self.cards@),
    {
        self.collection_settings.visible_cards(&self.cards)
    }

    /// Whether the grid row ends behind the card at `position` among those
    /// shown.
    pub fn ends_row(position: usize, columns: usize) -> (ends: bool)
        ensures
            ends == closes_row(position, columns),
    {
        columns != 0 && position % columns == columns - 1
    }
}

} // verus!
