//! Adding a collection, with its stickers numbered from 1.

use vstd::prelude::*;
use crate::collection::Collection;
use crate::db::{DbError, DbHandler, DbStage};
use crate::text::{trim, trimmed};

verus! {

/// The form that adds a collection: the name typed for it and the number of
/// stickers it is to hold.
pub struct CollectionAdder {
    pub collection_name: String,
    pub size: u32,
}

impl CollectionAdder {
    /// An empty form: no name, no stickers.
    pub fn new() -> (adder: Self)
        ensures
            adder.collection_name@.len() == 0,
            adder.size == 0,
    {
        Self { collection_name: String::new(), size: 0 }
    }

    /// Submits the form. A name that is empty once trimmed adds nothing and
    /// gives `Ok(false)`. Any other name is stored, trimmed, with stickers 1
    /// to `size`; the new collection is shown as `show_added` shows it, under
    /// the id that the store gave it. Where the store fails, nothing changes.
    pub fn add_collection(
        &mut self,
        collections: &mut Vec<Collection>,
        db_handler: &mut DbHandler,
    ) -> (r: Result<bool, DbError>)
        ensures
            match r {
                Ok(true) => {
                    &&& trimmed(old(self).collection_name@).len() > 0
                    &&& final(collections)@.len() == old(collections)@.len() + 1
                    &&& final(collections)@.drop_last() == old(collections)@
                    &&& final(collections)@.last().name@ == trimmed(old(self).collection_name@)
                    &&& final(self).collection_name@.len() == 0
                    &&& final(self).size == 0
                },
                Ok(false) => {
                    &&& trimmed(old(self).collection_name@).len() == 0
                    &&& *final(collections) == *old(collections)
                    &&& *final(self) == *old(self)
                },
                Err(e) => {
                    &&& trimmed(old(self).collection_name@).len() > 0
                    &&& *final(collections) == *old(collections)
                    &&& *final(self) == *old(self)
                    &&& (e.stage == DbStage::Statement || e.stage == DbStage::Query || e.stage
                        == DbStage::Transaction)
                },
            },
    {
        let name = trim(self.collection_name.as_str());
        if name.is_empty() {
            return Ok(false);
        }
        let name = name.to_owned();
        let collection_id = db_handler.add_collection(&name, self.size)?;
        self.show_added(collection_id, name, collections);
        assert(final(collections)@.drop_last() =~= old(collections)@);
        Ok(true)
    }

    /// Shows the collection that the store took under the id
    /// `collection_id` and the name `name`: appends it to `collections` and
    /// empties the form.
    pub fn show_added(
        &mut self,
        collection_id: u32,
        name: String,
        collections: &mut Vec<Collection>,
    )
        ensures
            final(collections)@ == old(collections)@.push(
                (Collection { id: collection_id, name }),
            ),
            final(self).collection_name@.len() == 0,
            final(self).size == 0,
    {
        collections.push(Collection::new(collection_id, name));
        self.collection_name = String::new();
        self.size = 0;
    }
}

} // verus!
