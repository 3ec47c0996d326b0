//! The SQLite store behind the album.
//!
//! Two tables hold everything: `collections` (id, name, size) and `cards`
//! (id, collection_id, card_number, collected, duplicates). What a query
//! returns depends on the file on disk, so the contracts here say which step
//! an error comes from and how rows are turned into values, never what the
//! database holds.

use vstd::prelude::*;
use crate::card::Card;
use crate::collection::Collection;
use crate::sqlite::{
    begin, commit, execute, open_connection, prepare, prepare_in, query_cards, query_collections,
    query_number, query_text, run, run_named, too_long_to_bind,
};

verus! {

/// The step of a database operation that failed.
#[derive(Debug, Clone, Copy, PartialEq, Eq, Structural)]
pub enum DbStage {
    /// Opening the database file.
    Connection,
    /// Creating the tables.
    Schema,
    /// Compiling an SQL statement.
    Statement,
    /// Running a compiled statement or reading its result.
    Query,
    /// Filling a new collection with its cards in one transaction.
    Transaction,
}

/// A failed database operation: the step that failed and what SQLite said.
#[derive(Debug)]
pub struct DbError {
    pub stage: DbStage,
    pub source: rusqlite::Error,
}

impl DbError {
    /// The outcome of a call into SQLite, with a failure marked as one of the
    /// step `stage`.
    pub fn at<T>(stage: DbStage, outcome: Result<T, rusqlite::Error>) -> (r: Result<T, DbError>)
        ensures
            r == match outcome {
                Ok(value) => Ok::<T, DbError>(value),
                Err(source) => Err(DbError { stage, source }),
            },
    {
        match outcome {
            Ok(value) => Ok(value),
            Err(source) => Err(DbError { stage, source }),
        }
    }
}

/// The values of the rows that were read without error, in their order.
pub open spec fn ok_values<T>(rows: Seq<Result<T, rusqlite::Error>>) -> Seq<T>
    decreases rows.len(),
{
    if rows.len() == 0 {
        Seq::empty()
    } else {
        let before = ok_values(rows.drop_last());
        match rows.last() {
            Ok(value) => before.push(value),
            Err(_) => before,
        }
    }
}

/// Keeps the rows that were read without error and drops the others.
pub fn successful_rows<T>(rows: Vec<Result<T, rusqlite::Error>>) -> (kept: Vec<T>)
    ensures
        kept@ == ok_values(rows@),
{
    let mut kept: Vec<T> = Vec::new();
    let ghost all = rows@;
    for row in it: rows
        invariant
            it.seq() == all,
            kept@ == ok_values(all.take(it.index() as int)),
    {
        proof {
            let done = all.take(it.index() + 1);
            assert(done.drop_last() =~= all.take(it.index() as int));
        }
        match row {
            Ok(value) => {
                kept.push(value);
            },
            Err(_) => {},
        }
    }
    assert(all.take(all.len() as int) =~= all);
    kept
}

/// The largest label that a query found, or 0 where it found none.
pub fn label_or_zero(found: Result<u32, rusqlite::Error>) -> (label: u32)
    ensures
        label == match found {
            Ok(value) => value,
            Err(_) => 0u32,
        },
{
    match found {
        Ok(value) => value,
        Err(_) => 0,
    }
}

/// The integer that SQLite stores for a boolean: 1 for true, 0 for false.
pub fn stored_flag(flag: bool) -> (stored: u32)
    ensures
        stored == if flag { 1u32 } else { 0u32 },
{
    if flag {
        1
    } else {
        0
    }
}

/// The label of the card to insert next into a collection of `size` cards
/// of which `inserted` are in: the labels run from 1 to `size`, so it is one
/// more than `inserted`, until all are in.
pub open spec fn label_after(inserted: u32, size: u32) -> Option<u32> {
    if inserted < size {
        Some((inserted + 1) as u32)
    } else {
        None
    }
}

/// The labels still to insert, in their order, once `inserted` cards of
/// `size` are in.
pub open spec fn labels_after(inserted: u32, size: u32) -> Seq<u32>
    decreases size - inserted,
{
    match label_after(inserted, size) {
        Some(label) => seq![label] + labels_after(label, size),
        None => Seq::empty(),
    }
}

/// A new collection of `size` cards gets the labels 1 to `size`, each once,
/// in ascending order; the labels left after `inserted` of them are those
/// above `inserted`.
pub proof fn lemma_labels_after(inserted: u32, size: u32)
    requires
        inserted <= size,
    ensures
        labels_after(inserted, size).len() == size - inserted,
        forall|k: int|
            0 <= k < size - inserted ==> #[trigger] labels_after(inserted, size)[k] == inserted + 1
                + k,
    decreases size - inserted,
{
    if inserted < size {
        lemma_labels_after((inserted + 1) as u32, size);
    }
}

/// The label of the card to insert next into a collection of `size` cards
/// of which `inserted` are in, or none when all are in.
pub fn next_card_label(inserted: u32, size: u32) -> (next: Option<u32>)
    ensures
        next == label_after(inserted, size),
{
    if inserted < size {
        Some(inserted + 1)
    } else {
        None
    }
}

/// The card that a row of the `cards` table holds. The row gives, in the
/// table's order, the columns id, card_number, collected and duplicates.
pub open spec fn card_of_row(row: (u32, u32, bool, u32)) -> Card {
    Card { id: row.0, label: row.1, checked: row.2, duplicates: row.3 }
}

/// The card that a row of the `cards` table holds.
pub fn card_from_row(row: (u32, u32, bool, u32)) -> (card: Card)
    ensures
        card == card_of_row(row),
{
    Card::new(row.1, row.0, row.2, row.3)
}

/// The cards that rows of the `cards` table hold, row by row.
pub fn cards_from_rows(rows: Vec<(u32, u32, bool, u32)>) -> (cards: Vec<Card>)
    ensures
        cards@ == rows@.map_values(|row: (u32, u32, bool, u32)| card_of_row(row)),
{
    let mut cards: Vec<Card> = Vec::new();
    let mut i: usize = 0;
    while i < rows.len()
        invariant
            i <= rows.len(),
            cards@ == rows@.take(i as int).map_values(|row: (u32, u32, bool, u32)| card_of_row(row)),
        decreases rows.len() - i,
    {
        cards.push(card_from_row(rows[i]));
        i = i + 1;
        assert(cards@ =~= rows@.take(i as int).map_values(
            |row: (u32, u32, bool, u32)| card_of_row(row),
        ));
    }
    assert(rows@.take(rows.len() as int) =~= rows@);
    cards
}

/// The collection that a row of the `collections` table holds. The row
/// gives, in the table's order, the columns id and name.
pub fn collection_from_row(row: (u32, String)) -> (collection: Collection)
    ensures
        collection.id == row.0,
        collection.name == row.1,
{
    Collection::new(row.0, row.1)
}

/// The collections that rows of the `collections` table hold, row by row.
pub fn collections_from_rows(rows: Vec<(u32, String)>) -> (collections: Vec<Collection>)
    ensures
        collections@.len() == rows@.len(),
        forall|i: int|
            0 <= i < rows@.len() ==> (#[trigger] collections@[i]).id == rows@[i].0
                && collections@[i].name == rows@[i].1,
{
    let mut collections: Vec<Collection> = Vec::new();
    let ghost all = rows@;
    for row in it: rows
        invariant
            it.seq() == all,
            collections@.len() == it.index(),
            forall|i: int|
                0 <= i < it.index() ==> (#[trigger] collections@[i]).id == all[i].0
                    && collections@[i].name == all[i].1,
    {
        collections.push(collection_from_row(row));
    }
    collections
}

/// No parameters.
fn no_params() -> (params: Vec<u32>)
    ensures
        params@ == Seq::<u32>::empty(),
{
    Vec::new()
}

/// The parameter `a`.
fn one_param(a: u32) -> (params: Vec<u32>)
    ensures
        params@ == seq![a],
{
    let mut params: Vec<u32> = Vec::new();
    params.push(a);
    params
}

/// The parameters `a` and `b`, in this order.
fn two_params(a: u32, b: u32) -> (params: Vec<u32>)
    ensures
        params@ == seq![a, b],
{
    let mut params: Vec<u32> = Vec::new();
    params.push(a);
    params.push(b);
    params
}

/// The parameters `a`, `b` and `c`, in this order.
fn three_params(a: u32, b: u32, c: u32) -> (params: Vec<u32>)
    ensures
        params@ == seq![a, b, c],
{
    let mut params: Vec<u32> = Vec::new();
    params.push(a);
    params.push(b);
    params.push(c);
    params
}

/// The album's database: one open connection, with both tables in place.
pub struct DbHandler {
    connection: rusqlite::Connection,
}

impl DbHandler {
    /// Opens the database at `db_path`, creating the file and the tables
    /// where they are missing. The directory that holds the file must exist.
    /// A path that holds a NUL character names no file and is refused.
    pub fn new(db_path: &str) -> (r: Result<DbHandler, DbError>)
        ensures
            db_path@.contains('\0') ==> (r matches Err(e) && e.stage == DbStage::Connection),
            r matches Err(e) ==> e.stage == DbStage::Connection || e.stage == DbStage::Schema,
    {
        let connection = DbError::at(DbStage::Connection, open_connection(db_path))?;
        DbError::at(DbStage::Schema, Self::init(&connection))?;
        Ok(DbHandler { connection })
    }

    /// Creates the two tables unless they exist, `collections` first.
    fn init(conn: &rusqlite::Connection) -> (r: Result<(), rusqlite::Error>) {
        let none = no_params();
        execute(
            conn,
            "CREATE TABLE IF NOT EXISTS collections (
            id INTEGER PRIMARY KEY AUTOINCREMENT,
            name TEXT NOT NULL,
            size INTEGER
            )",
            &none,
        )?;
        execute(
            conn,
            "CREATE TABLE IF NOT EXISTS cards (
             id INTEGER PRIMARY KEY AUTOINCREMENT,
             collection_id INTEGER NOT NULL,
             card_number INTEGER NOT NULL,
             collected BOOLEAN NOT NULL,
             duplicates INTEGER DEFAULT 0,
             FOREIGN KEY (collection_id) REFERENCES collections(id)
        )",
            &none,
        )?;
        Ok(())
    }

    /// All collections in the store. A row that cannot be read as an id and a
    /// name is left out.
    pub fn get_collections(&self) -> (r: Result<Vec<Collection>, DbError>)
        ensures
            r matches Err(e) ==> e.stage == DbStage::Statement || e.stage == DbStage::Query,
    {
        let mut stmt = DbError::at(
            DbStage::Statement,
            prepare(&self.connection, "SELECT id, name, size FROM collections"),
        )?;
        let rows = DbError::at(DbStage::Query, query_collections(&mut stmt))?;
        Ok(collections_from_rows(successful_rows(rows)))
    }

    /// The cards of collection `id`, by ascending label. A row that cannot be
    /// read as a card is left out.
    pub fn get_cards_from_collection(&self, id: u32) -> (r: Result<Vec<Card>, DbError>)
        ensures
            r matches Err(e) ==> e.stage == DbStage::Statement || e.stage == DbStage::Query,
    {
        let mut stmt = DbError::at(
            DbStage::Statement,
            prepare(
                &self.connection,
                "SELECT * FROM cards WHERE collection_id = ?1 ORDER BY card_number",
            ),
        )?;
        let params = one_param(id);
        let rows = DbError::at(DbStage::Query, query_cards(&mut stmt, &params))?;
        Ok(cards_from_rows(successful_rows(rows)))
    }

    /// Stores whether card `id` has been collected.
    pub fn update_card(&self, id: u32, status: bool) -> (r: Result<(), DbError>)
        ensures
            r matches Err(e) ==> e.stage == DbStage::Statement || e.stage == DbStage::Query,
    {
        let mut stmt = DbError::at(
            DbStage::Statement,
            prepare(&self.connection, "UPDATE cards SET collected = ?1 WHERE id = ?2 "),
        )?;
        let params = two_params(stored_flag(status), id);
        DbError::at(DbStage::Query, run(&mut stmt, &params))?;
        Ok(())
    }

    /// Inserts the cards labelled 1 to `size` into collection `collection_id`,
    /// none of them collected, all or none: the first failure abandons the
    /// transaction.
    fn generate_cards(&mut self, collection_id: u32, size: u32) -> (r: Result<(), rusqlite::Error>) {
        let tx = begin(&mut self.connection)?;
        {
            let mut stmt = prepare_in(
                &tx,
                "INSERT INTO cards (collection_id, card_number, collected) VALUES (?1, ?2, false)",
            )?;
            let mut inserted: u32 = 0;
            let mut next = next_card_label(inserted, size);
            while next.is_some()
                invariant
                    inserted <= size,
                    next == label_after(inserted, size),
                decreases size - inserted,
            {
                let label = next.unwrap();
                let params = two_params(collection_id, label);
                run(&mut stmt, &params)?;
                inserted = label;
                next = next_card_label(inserted, size);
            }
        }
        commit(tx)
    }

    /// Adds a collection called `name` with cards 1 to `size`, and returns
    /// its id. A name too long for SQLite to take is refused, and nothing is
    /// stored.
    pub fn add_collection(&mut self, name: &String, size: u32) -> (r: Result<u32, DbError>)
        ensures
            too_long_to_bind(name@) ==> (r matches Err(e) && (e.stage == DbStage::Statement
                || e.stage == DbStage::Query)),
            r matches Err(e) ==> e.stage == DbStage::Statement || e.stage == DbStage::Query
                || e.stage == DbStage::Transaction,
    {
        let last_id = self.insert_collection(name, size)?;
        DbError::at(DbStage::Transaction, self.generate_cards(last_id, size))?;
        Ok(last_id)
    }

    /// Inserts the row of a new collection and returns the id SQLite gave it.
    /// A name too long for SQLite to take is refused before anything is
    /// inserted.
    fn insert_collection(&self, name: &String, size: u32) -> (r: Result<u32, DbError>)
        ensures
            too_long_to_bind(name@) ==> r is Err,
            r matches Err(e) ==> e.stage == DbStage::Statement || e.stage == DbStage::Query,
    {
        {
            let mut stmt = DbError::at(
                DbStage::Statement,
                prepare(&self.connection, "INSERT INTO collections (name, size) VALUES (?1,?2)"),
            )?;
            DbError::at(DbStage::Query, run_named(&mut stmt, name, size))?;
        }
        self.last_insert_id()
    }

    /// The id of the row that this connection inserted last.
    fn last_insert_id(&self) -> (r: Result<u32, DbError>)
        ensures
            r matches Err(e) ==> e.stage == DbStage::Statement || e.stage == DbStage::Query,
    {
        let mut stmt = DbError::at(
            DbStage::Statement,
            prepare(&self.connection, "SELECT last_insert_rowid()"),
        )?;
        let none = no_params();
        DbError::at(DbStage::Query, query_number(&mut stmt, &none))
    }

    /// Deletes collection `collection_id`: its cards first, then the
    /// collection itself.
    pub fn delete_collection(&self, collection_id: u32) -> (r: Result<(), DbError>)
        ensures
            r matches Err(e) ==> e.stage == DbStage::Query,
    {
        let params = one_param(collection_id);
        DbError::at(
            DbStage::Query,
            execute(&self.connection, "DELETE FROM cards WHERE collection_id = ?1", &params),
        )?;
        DbError::at(
            DbStage::Query,
            execute(&self.connection, "DELETE FROM collections WHERE id = ?1", &params),
        )?;
        Ok(())
    }

    /// The name of collection `collection_id`.
    pub fn get_collection_name(&self, collection_id: u32) -> (r: Result<String, DbError>)
        ensures
            r matches Err(e) ==> e.stage == DbStage::Statement || e.stage == DbStage::Query,
    {
        let mut stmt = DbError::at(
            DbStage::Statement,
            prepare(&self.connection, "SELECT name FROM collections WHERE id = ?1"),
        )?;
        let params = one_param(collection_id);
        DbError::at(DbStage::Query, query_text(&mut stmt, &params))
    }

    /// The largest label among the cards of collection `collection_id`, or 0
    /// where the query gives none (an empty collection, above all).
    pub fn get_max_label_for_collection(&self, collection_id: u32) -> (r: Result<u32, DbError>)
        ensures
            r matches Err(e) ==> e.stage == DbStage::Statement,
    {
        let mut stmt = DbError::at(
            DbStage::Statement,
            prepare(&self.connection, "SELECT max(card_number) FROM cards WHERE collection_id = ?1"),
        )?;
        let params = one_param(collection_id);
        Ok(label_or_zero(query_number(&mut stmt, &params)))
    }

    /// Adds a card labelled `card_number`, not yet collected, to collection
    /// `collection_id`, and returns its id.
    pub fn add_card(&self, card_number: u32, collection_id: u32) -> (r: Result<u32, DbError>)
        ensures
            r matches Err(e) ==> e.stage == DbStage::Statement || e.stage == DbStage::Query,
    {
        let params = three_params(collection_id, card_number, stored_flag(false));
        DbError::at(
            DbStage::Query,
            execute(
                &self.connection,
                "INSERT INTO cards (collection_id, card_number, collected) VALUES (?1,?2,?3)",
                &params,
            ),
        )?;
        self.last_insert_id()
    }

    /// Stores the number of duplicates that `card` holds. The card itself is
    /// left as it is.
    pub fn update_card_duplicates(&self, card: &mut Card) -> (r: Result<(), DbError>)
        ensures
            *final(card) == *old(card),
            r matches Err(e) ==> e.stage == DbStage::Query,
    {
        let params = two_params(card.duplicates, card.id);
        DbError::at(
            DbStage::Query,
            execute(&self.connection, "UPDATE cards SET duplicates = ?1 WHERE id = ?2", &params),
        )?;
        Ok(())
    }
}

} // verus!
