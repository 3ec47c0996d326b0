use sticker_album::card::Card;
use sticker_album::db::{
    card_from_row, cards_from_rows, collection_from_row, collections_from_rows, label_or_zero,
    next_card_label, stored_flag, successful_rows, DbError, DbHandler, DbStage,
};

fn memory_store() -> DbHandler {
    DbHandler::new(":memory:").expect("an in-memory database opens")
}

#[test]
fn new_store_is_empty() {
    let db = memory_store();
    assert!(db.get_collections().unwrap().is_empty());
    assert!(db.get_cards_from_collection(1).unwrap().is_empty());
}

#[test]
fn new_store_fails_in_a_missing_directory() {
    let r = DbHandler::new("/no-such-directory-for-stickers/deeper/stick.db");
    match r {
        Ok(_) => panic!("opened a database in a directory that does not exist"),
        Err(e) => assert_eq!(e.stage, DbStage::Connection),
    }
}

#[test]
fn add_collection_generates_its_cards() {
    let mut db = memory_store();
    let id: u32 = db.add_collection(&String::from("Animals"), 4).unwrap();
    assert_eq!(id, 1);
    let cards = db.get_cards_from_collection(id).unwrap();
    assert_eq!(cards.len(), 4);
    assert_eq!(cards[0], Card::new(1, 1, false, 0));
    assert_eq!(cards[1], Card::new(2, 2, false, 0));
    assert_eq!(cards[2], Card::new(3, 3, false, 0));
    assert_eq!(cards[3], Card::new(4, 4, false, 0));
}

#[test]
fn add_collection_of_size_zero_has_no_cards() {
    let mut db = memory_store();
    let id: u32 = db.add_collection(&String::from("Empty"), 0).unwrap();
    assert!(db.get_cards_from_collection(id).unwrap().is_empty());
    assert_eq!(db.get_collections().unwrap().len(), 1);
}

#[test]
fn collections_are_listed_with_id_and_name() {
    let mut db = memory_store();
    let first: u32 = db.add_collection(&String::from("Animals"), 2).unwrap();
    let second: u32 = db.add_collection(&String::from("Cars"), 3).unwrap();
    assert_eq!((first, second), (1, 2));
    let listed = db.get_collections().unwrap();
    assert_eq!(listed.len(), 2);
    assert_eq!(listed[0].id, 1);
    assert_eq!(listed[0].name, "Animals");
    assert_eq!(listed[1].id, 2);
    assert_eq!(listed[1].name, "Cars");
}

#[test]
fn cards_belong_to_their_collection() {
    let mut db = memory_store();
    let first: u32 = db.add_collection(&String::from("Animals"), 2).unwrap();
    let second: u32 = db.add_collection(&String::from("Cars"), 3).unwrap();
    let of_first = db.get_cards_from_collection(first).unwrap();
    let of_second = db.get_cards_from_collection(second).unwrap();
    assert_eq!(of_first.len(), 2);
    assert_eq!(of_second.len(), 3);
    assert_eq!(of_second[0], Card::new(1, 3, false, 0));
    assert_eq!(of_second[2], Card::new(3, 5, false, 0));
}

#[test]
fn collection_name_is_read_back() {
    let mut db = memory_store();
    let id: u32 = db.add_collection(&String::from("World Cup"), 1).unwrap();
    assert_eq!(db.get_collection_name(id).unwrap(), "World Cup");
}

#[test]
fn collection_name_of_unknown_id_is_a_query_error() {
    let db = memory_store();
    match db.get_collection_name(77) {
        Ok(name) => panic!("found a name: {}", name),
        Err(e) => {
            assert_eq!(e.stage, DbStage::Query);
            assert!(matches!(e.source, rusqlite::Error::QueryReturnedNoRows));
        }
    }
}

#[test]
fn max_label_of_an_empty_collection_is_zero() {
    let mut db = memory_store();
    let id: u32 = db.add_collection(&String::from("Empty"), 0).unwrap();
    assert_eq!(db.get_max_label_for_collection(id).unwrap(), 0);
    assert_eq!(db.get_max_label_for_collection(99).unwrap(), 0);
}

#[test]
fn max_label_is_the_largest_card_number() {
    let mut db = memory_store();
    let id: u32 = db.add_collection(&String::from("Animals"), 5).unwrap();
    assert_eq!(db.get_max_label_for_collection(id).unwrap(), 5);
    db.add_card(40, id).unwrap();
    db.add_card(7, id).unwrap();
    assert_eq!(db.get_max_label_for_collection(id).unwrap(), 40);
}

#[test]
fn add_card_stores_an_uncollected_card() {
    let mut db = memory_store();
    let id: u32 = db.add_collection(&String::from("Animals"), 2).unwrap();
    let card_id: u32 = db.add_card(9, id).unwrap();
    assert_eq!(card_id, 3);
    let cards = db.get_cards_from_collection(id).unwrap();
    assert_eq!(cards.len(), 3);
    assert_eq!(cards[2], Card::new(9, 3, false, 0));
}

#[test]
fn cards_come_back_by_ascending_label() {
    let mut db = memory_store();
    let id: u32 = db.add_collection(&String::from("Animals"), 0).unwrap();
    db.add_card(30, id).unwrap();
    db.add_card(10, id).unwrap();
    db.add_card(20, id).unwrap();
    let cards = db.get_cards_from_collection(id).unwrap();
    let labels: Vec<u32> = cards.iter().map(|c| c.label).collect();
    assert_eq!(labels, vec![10, 20, 30]);
    let ids: Vec<u32> = cards.iter().map(|c| c.id).collect();
    assert_eq!(ids, vec![2, 3, 1]);
}

#[test]
fn update_card_stores_the_mark() {
    let mut db = memory_store();
    let id: u32 = db.add_collection(&String::from("Animals"), 3).unwrap();
    db.update_card(2, true).unwrap();
    let cards = db.get_cards_from_collection(id).unwrap();
    assert!(!cards[0].checked);
    assert!(cards[1].checked);
    assert!(!cards[2].checked);
    db.update_card(2, false).unwrap();
    let cards = db.get_cards_from_collection(id).unwrap();
    assert!(!cards[1].checked);
}

#[test]
fn update_card_duplicates_stores_the_count() {
    let mut db = memory_store();
    let id: u32 = db.add_collection(&String::from("Animals"), 2).unwrap();
    let mut card = Card::new(1, 1, false, 6);
    db.update_card_duplicates(&mut card).unwrap();
    assert_eq!(card, Card::new(1, 1, false, 6));
    let cards = db.get_cards_from_collection(id).unwrap();
    assert_eq!(cards[0].duplicates, 6);
    assert_eq!(cards[1].duplicates, 0);
}

#[test]
fn delete_collection_removes_it_and_its_cards() {
    let mut db = memory_store();
    let first: u32 = db.add_collection(&String::from("Animals"), 2).unwrap();
    let second: u32 = db.add_collection(&String::from("Cars"), 3).unwrap();
    db.delete_collection(first).unwrap();
    let listed = db.get_collections().unwrap();
    assert_eq!(listed.len(), 1);
    assert_eq!(listed[0].id, second);
    assert!(db.get_cards_from_collection(first).unwrap().is_empty());
    assert_eq!(db.get_cards_from_collection(second).unwrap().len(), 3);
}

#[test]
fn delete_of_unknown_collection_succeeds() {
    let db = memory_store();
    assert!(db.delete_collection(5).is_ok());
}

#[test]
fn successful_rows_keeps_the_ok_rows_in_order() {
    let rows: Vec<Result<u32, rusqlite::Error>> = vec![
        Ok(1),
        Err(rusqlite::Error::QueryReturnedNoRows),
        Ok(3),
        Err(rusqlite::Error::InvalidQuery),
        Ok(2),
    ];
    assert_eq!(successful_rows(rows), vec![1, 3, 2]);
}

#[test]
fn successful_rows_of_nothing_is_nothing() {
    let rows: Vec<Result<Card, rusqlite::Error>> = Vec::new();
    assert!(successful_rows(rows).is_empty());
    let failed: Vec<Result<Card, rusqlite::Error>> = vec![Err(rusqlite::Error::InvalidQuery)];
    assert!(successful_rows(failed).is_empty());
}

#[test]
fn label_or_zero_takes_the_label_or_zero() {
    assert_eq!(label_or_zero(Ok(12)), 12);
    assert_eq!(label_or_zero(Ok(u32::MAX)), u32::MAX);
    assert_eq!(label_or_zero(Err(rusqlite::Error::QueryReturnedNoRows)), 0);
}

#[test]
fn stored_flag_is_one_or_zero() {
    assert_eq!(stored_flag(true), 1);
    assert_eq!(stored_flag(false), 0);
}

#[test]
fn error_carries_its_stage_and_its_source() {
    let passed: Result<u32, DbError> = DbError::at(DbStage::Query, Ok(5));
    assert_eq!(passed.unwrap(), 5);
    let failed: Result<u32, DbError> =
        DbError::at(DbStage::Transaction, Err(rusqlite::Error::InvalidQuery));
    match failed {
        Ok(value) => panic!("a failure came back as {}", value),
        Err(e) => {
            assert_eq!(e.stage, DbStage::Transaction);
            assert!(matches!(e.source, rusqlite::Error::InvalidQuery));
        }
    }
}

#[test]
fn a_failed_statement_is_a_query_error() {
    let db = DbHandler::new(":memory:").unwrap();
    let mut first = Card::new(1, 1, false, 0);
    assert!(db.update_card_duplicates(&mut first).is_ok());
    let mut store = DbHandler::new(":memory:").unwrap();
    let id: u32 = store.add_collection(&String::from("Animals"), 1).unwrap();
    assert_eq!(id, 1);
    assert!(store.delete_collection(id).is_ok());
    match store.get_collection_name(id) {
        Ok(name) => panic!("a deleted collection still has the name {}", name),
        Err(e) => assert_eq!(e.stage, DbStage::Query),
    }
}

#[test]
fn a_path_with_a_nul_character_is_refused() {
    match DbHandler::new("stick\0er.db") {
        Ok(_) => panic!("opened a database under a name that holds a NUL character"),
        Err(e) => {
            assert_eq!(e.stage, DbStage::Connection);
            assert!(matches!(e.source, rusqlite::Error::NulError(_)));
        }
    }
    match DbHandler::new("\0") {
        Ok(_) => panic!("opened a database under a name that is a NUL character"),
        Err(e) => assert_eq!(e.stage, DbStage::Connection),
    }
}

#[test]
fn a_name_too_long_to_bind_is_refused() {
    let mut db = memory_store();
    let length: usize = 2147483647;
    let name = "a".repeat(length);
    match db.add_collection(&name, 3) {
        Ok(id) => panic!("stored a name of {} bytes as collection {}", length, id),
        Err(e) => assert_eq!(e.stage, DbStage::Query),
    }
    assert!(db.get_collections().unwrap().is_empty());
    assert!(db.get_cards_from_collection(1).unwrap().is_empty());
}

#[test]
fn a_long_name_within_the_limit_is_stored() {
    let mut db = memory_store();
    let length: usize = 100000;
    let name = "ț".repeat(length);
    let id: u32 = db.add_collection(&name, 1).unwrap();
    assert_eq!(db.get_collection_name(id).unwrap(), name);
}

#[test]
fn next_card_label_counts_from_one_to_the_size() {
    assert_eq!(next_card_label(0, 0), None);
    assert_eq!(next_card_label(0, 1), Some(1));
    assert_eq!(next_card_label(1, 1), None);
    assert_eq!(next_card_label(0, 3), Some(1));
    assert_eq!(next_card_label(1, 3), Some(2));
    assert_eq!(next_card_label(2, 3), Some(3));
    assert_eq!(next_card_label(3, 3), None);
    assert_eq!(next_card_label(7, 3), None);
    assert_eq!(next_card_label(u32::MAX - 1, u32::MAX), Some(u32::MAX));
    assert_eq!(next_card_label(u32::MAX, u32::MAX), None);
}

#[test]
fn next_card_label_yields_each_label_once_in_order() {
    let size: u32 = 6;
    let mut labels: Vec<u32> = Vec::new();
    let mut inserted: u32 = 0;
    while let Some(label) = next_card_label(inserted, size) {
        labels.push(label);
        inserted = label;
    }
    assert_eq!(labels, vec![1, 2, 3, 4, 5, 6]);
}

#[test]
fn card_from_row_reads_id_number_mark_and_duplicates() {
    assert_eq!(card_from_row((7, 40, true, 2)), Card::new(40, 7, true, 2));
    assert_eq!(card_from_row((1, 2, false, 0)), Card::new(2, 1, false, 0));
    let card = card_from_row((11, 22, false, 33));
    assert_eq!(card.id, 11);
    assert_eq!(card.label, 22);
    assert!(!card.checked);
    assert_eq!(card.duplicates, 33);
}

#[test]
fn cards_from_rows_keeps_the_rows_in_order() {
    let rows: Vec<(u32, u32, bool, u32)> = vec![(3, 10, false, 0), (1, 20, true, 4), (2, 30, false, 1)];
    assert_eq!(
        cards_from_rows(rows),
        vec![Card::new(10, 3, false, 0), Card::new(20, 1, true, 4), Card::new(30, 2, false, 1)]
    );
    assert!(cards_from_rows(Vec::new()).is_empty());
}

#[test]
fn collection_from_row_reads_id_and_name() {
    let collection = collection_from_row((5, String::from("Cars")));
    assert_eq!(collection.id, 5);
    assert_eq!(collection.name, "Cars");
}

#[test]
fn collections_from_rows_keeps_the_rows_in_order() {
    let rows: Vec<(u32, String)> =
        vec![(9, String::from("z")), (2, String::from("b")), (9, String::from("again"))];
    let collections = collections_from_rows(rows);
    assert_eq!(collections.len(), 3);
    assert_eq!((collections[0].id, collections[0].name.as_str()), (9, "z"));
    assert_eq!((collections[1].id, collections[1].name.as_str()), (2, "b"));
    assert_eq!((collections[2].id, collections[2].name.as_str()), (9, "again"));
    assert!(collections_from_rows(Vec::new()).is_empty());
}

#[test]
fn generated_cards_are_labelled_from_one_with_ascending_ids() {
    let mut db = memory_store();
    let first: u32 = db.add_collection(&String::from("Animals"), 2).unwrap();
    let second: u32 = db.add_collection(&String::from("Cars"), 5).unwrap();
    let cards = db.get_cards_from_collection(second).unwrap();
    let labels: Vec<u32> = cards.iter().map(|c| c.label).collect();
    assert_eq!(labels, vec![1, 2, 3, 4, 5]);
    let ids: Vec<u32> = cards.iter().map(|c| c.id).collect();
    assert_eq!(ids, vec![3, 4, 5, 6, 7]);
    assert!(cards.iter().all(|c| !c.checked && c.duplicates == 0));
    assert_eq!(db.get_cards_from_collection(first).unwrap().len(), 2);
}
