//! Adding one sticker to the selected collection.

use vstd::prelude::*;
use crate::card::Card;
use crate::db::{DbError, DbHandler, DbStage};
use crate::text::{
    first_solid, is_blank, lemma_number_is_solid, lemma_trimmed, parse_number, parsed_number, trim,
    trimmed,
};

verus! {

/// The form that adds a sticker: the text typed as its number, and whether
/// the notice about a bad number is on screen.
pub struct CardAdder {
    pub card_label: String,
    pub show_popup: bool,
}

/// What the typed text asks for.
#[derive(Debug, Clone, Copy, PartialEq, Eq, Structural)]
pub enum LabelInput {
    /// This number.
    Number(u32),
    /// Nothing was typed: the number after the collection's largest.
    Blank,
    /// Something that is no sticker number.
    Invalid,
}

/// What came of submitting the form.
#[derive(Debug)]
pub enum Submission {
    /// This card was stored and appended to the cards on screen.
    Added(Card),
    /// The text is no sticker number; the notice is now on screen.
    Rejected,
    /// Nothing was typed and the collection's largest number is the largest
    /// there is.
    Exhausted,
    /// The store failed.
    Failed(DbError),
}

/// What `text` asks for, white space at its ends aside.
pub open spec fn label_input(text: Seq<char>) -> LabelInput {
    match parsed_number(trimmed(text)) {
        Some(number) => LabelInput::Number(number),
        None => if trimmed(text).len() == 0 {
            LabelInput::Blank
        } else {
            LabelInput::Invalid
        },
    }
}

/// A number typed with nothing around it is read as that number.
pub proof fn lemma_number_is_read(text: Seq<char>)
    requires
        parsed_number(text) is Some,
    ensures
        label_input(text) == LabelInput::Number(parsed_number(text)->Some_0),
{
    lemma_number_is_solid(text);
}

/// Nothing but white space, or nothing at all, is read as blank.
pub proof fn lemma_blank_is_read(text: Seq<char>)
    requires
        forall|i: int| 0 <= i < text.len() ==> is_blank(#[trigger] text[i]),
    ensures
        label_input(text) == LabelInput::Blank,
{
    lemma_trimmed(text);
    if trimmed(text).len() > 0 {
        let start = first_solid(text, 0);
        assert(trimmed(text).first() == text[start]);
    }
}

/// Reads what the typed text asks for.
pub fn read_label(text: &str) -> (input: LabelInput)
    ensures
        input == label_input(text@),
{
    let inner = trim(text);
    match parse_number(inner) {
        Some(number) => LabelInput::Number(number),
        None => {
            if inner.is_empty() {
                LabelInput::Blank
            } else {
                LabelInput::Invalid
            }
        },
    }
}

/// The number after `largest`, where there is one.
pub fn next_label(largest: u32) -> (next: Option<u32>)
    ensures
        next == if largest < u32::MAX {
            Some((largest + 1) as u32)
        } else {
            None
        },
{
    if largest < u32::MAX {
        Some(largest + 1)
    } else {
        None
    }
}

/// Appends to `cards` the card that the store took under the id `card_id`:
/// numbered `card_number`, not collected, without duplicates.
pub fn append_card(cards: &mut Vec<Card>, card_number: u32, card_id: u32) -> (card: Card)
    ensures
        card == (Card { label: card_number, id: card_id, checked: false, duplicates: 0 }),
        final(cards)@ == old(cards)@.push(card),
{
    let card = Card::new(card_number, card_id, false, 0);
    cards.push(card);
    card
}

impl CardAdder {
    /// An empty form, with no notice on screen.
    pub fn new() -> (adder: CardAdder)
        ensures
            adder.card_label@.len() == 0,
            !adder.show_popup,
    {
        CardAdder { card_label: String::new(), show_popup: false }
    }

    /// Submits the form for collection `collection_id`. A number is added as
    /// typed; an empty text adds the number after the collection's largest;
    /// any other text puts the notice on screen and adds nothing. The text
    /// stays as typed.
    pub fn submit(
        &mut self,
        db_handler: &mut DbHandler,
        cards: &mut Vec<Card>,
        collection_id: u32,
    ) -> (r: Submission)
        ensures
            final(self).card_label == old(self).card_label,
            match r {
                Submission::Added(card) => {
                    &&& label_input(old(self).card_label@) != LabelInput::Invalid
                    &&& label_input(old(self).card_label@) matches LabelInput::Number(number)
                        ==> card.label == number
                    &&& label_input(old(self).card_label@) == LabelInput::Blank ==> card.label >= 1
                    &&& !card.checked
                    &&& card.duplicates == 0
                    &&& final(cards)@ == old(cards)@.push(card)
                    &&& final(self).show_popup == old(self).show_popup
                },
                Submission::Rejected => {
                    &&& label_input(old(self).card_label@) == LabelInput::Invalid
                    &&& final(cards)@ == old(cards)@
                    &&& final(self).show_popup
                },
                Submission::Exhausted => {
                    &&& label_input(old(self).card_label@) == LabelInput::Blank
                    &&& final(cards)@ == old(cards)@
                    &&& final(self).show_popup == old(self).show_popup
                },
                Submission::Failed(e) => {
                    &&& label_input(old(self).card_label@) != LabelInput::Invalid
                    &&& final(cards)@ == old(cards)@
                    &&& final(self).show_popup == old(self).show_popup
                    &&& (e.stage == DbStage::Statement || e.stage == DbStage::Query)
                },
            },
    {
        let label = match read_label(self.card_label.as_str()) {
            LabelInput::Number(number) => number,
            LabelInput::Blank => {
                let largest = match db_handler.get_max_label_for_collection(collection_id) {
                    Ok(largest) => largest,
                    Err(e) => {
                        return Submission::Failed(e);
                    },
                };
                match next_label(largest) {
                    Some(next) => next,
                    None => {
                        return Submission::Exhausted;
                    },
                }
            },
            LabelInput::Invalid => {
                self.show_popup = true;
                return Submission::Rejected;
            },
        };
        match self.add_new_card(label, collection_id, db_handler, cards) {
            Ok(card) => Submission::Added(card),
            Err(e) => Submission::Failed(e),
        }
    }

    /// Stores a new card numbered `card_number` in collection
    /// `collection_id` and appends it to `cards` as `append_card` does,
    /// under the id that the store gave it. Where the store fails, `cards`
    /// stays as it is.
    pub fn add_new_card(
        &self,
        card_number: u32,
        collection_id: u32,
        db_handler: &mut DbHandler,
        cards: &mut Vec<Card>,
    ) -> (r: Result<Card, DbError>)
        ensures
            match r {
                Ok(card) => {
                    &&& card.label == card_number
                    &&& !card.checked
                    &&& card.duplicates == 0
                    &&& final(cards)@ == old(cards)@.push(card)
                },
                Err(e) => {
                    &&& final(cards)@ == old(cards)@
                    &&& (e.stage == DbStage::Statement || e.stage == DbStage::Query)
                },
            },
    {
        let card_id = db_handler.add_card(card_number, collection_id)?;
        Ok(append_card(cards, card_number, card_id))
    }
}

} // verus!
