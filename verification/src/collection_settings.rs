//! Which stickers of the selected collection are shown, and deleting that
//! collection.

use vstd::prelude::*;
use crate::card::Card;
use crate::collection::Collection;
use crate::db::{DbError, DbHandler, DbStage};

verus! {

/// The two filters on the stickers shown.
#[derive(Debug, Clone, Copy, PartialEq, Eq, Structural)]
pub struct CollectionSettings {
    pub show_collected: bool,
    pub show_not_collected: bool,
}

/// The positions in `cards`, in ascending order, of the cards that
/// `settings` lets through.
pub open spec fn visible_positions(settings: CollectionSettings, cards: Seq<Card>) -> Seq<usize>
    decreases cards.len(),
{
    if cards.len() == 0 {
        Seq::empty()
    } else {
        let before = visible_positions(settings, cards.drop_last());
        if settings.lets_through(cards.last()) {
            before.push((cards.len() - 1) as usize)
        } else {
            before
        }
    }
}

/// The positions shown are exactly those of the cards let through, each
/// once, in ascending order.
pub proof fn lemma_visible_positions(settings: CollectionSettings, cards: Seq<Card>)
    requires
        cards.len() <= usize::MAX,
    ensures
        forall|k: int|
            0 <= k < visible_positions(settings, cards).len() ==> {
                let at = #[trigger] visible_positions(settings, cards)[k];
                at < cards.len() && settings.lets_through(cards[at as int])
            },
        forall|j: int, k: int|
            0 <= j < k < visible_positions(settings, cards).len()
                ==> visible_positions(settings, cards)[j] < visible_positions(settings, cards)[k],
        forall|i: int|
            0 <= i < cards.len() && settings.lets_through(#[trigger] cards[i])
                ==> visible_positions(settings, cards).contains(i as usize),
    decreases cards.len(),
{
    if cards.len() > 0 {
        let shorter = cards.drop_last();
        let before = visible_positions(settings, shorter);
        let all = visible_positions(settings, cards);
        lemma_visible_positions(settings, shorter);
        assert forall|i: int| 0 <= i < cards.len() && settings.lets_through(#[trigger] cards[i])
            implies all.contains(i as usize) by {
            if i < shorter.len() {
                assert(shorter[i] == cards[i]);
                let k = choose|k: int| 0 <= k < before.len() && before[k] == i as usize;
                assert(all[k] == i as usize);
            } else {
                assert(all[all.len() - 1] == i as usize);
            }
        }
    }
}

/// With both filters open every card is shown.
pub proof fn lemma_open_filters(settings: CollectionSettings, cards: Seq<Card>)
    requires
        settings.show_collected,
        settings.show_not_collected,
        cards.len() <= usize::MAX,
    ensures
        visible_positions(settings, cards).len() == cards.len(),
        forall|i: int| 0 <= i < cards.len() ==> #[trigger] visible_positions(settings, cards)[i] == i,
    decreases cards.len(),
{
    if cards.len() > 0 {
        lemma_open_filters(settings, cards.drop_last());
    }
}

/// With both filters closed no card is shown.
pub proof fn lemma_closed_filters(settings: CollectionSettings, cards: Seq<Card>)
    requires
        !settings.show_collected,
        !settings.show_not_collected,
    ensures
        visible_positions(settings, cards).len() == 0,
    decreases cards.len(),
{
    if cards.len() > 0 {
        lemma_closed_filters(settings, cards.drop_last());
    }
}

/// Each card passes exactly one of the two filters: what the first shows
/// alone and what the second shows alone add up to all the cards.
pub proof fn lemma_filters_split(cards: Seq<Card>)
    ensures
        visible_positions(
            CollectionSettings { show_collected: true, show_not_collected: false },
            cards,
        ).len() + visible_positions(
            CollectionSettings { show_collected: false, show_not_collected: true },
            cards,
        ).len() == cards.len(),
    decreases cards.len(),
{
    if cards.len() > 0 {
        lemma_filters_split(cards.drop_last());
    }
}

impl CollectionSettings {
    /// Both filters open: every sticker is shown.
    pub fn new() -> (settings: Self)
        ensures
            settings.show_collected,
            settings.show_not_collected,
    {
        Self { show_collected: true, show_not_collected: true }
    }

    /// Whether the filters let `card` through: a collected card needs the
    /// first filter, any other card the second.
    pub open spec fn lets_through(self, card: Card) -> bool {
        (self.show_collected && card.checked) || (self.show_not_collected && !card.checked)
    }

    /// Whether `card` is shown.
    pub fn shows(&self, card: &Card) -> (shown: bool)
        ensures
            shown == self.lets_through(*card),
    {
        (self.show_collected && card.checked) || (self.show_not_collected && !card.checked)
    }

    /// The positions in `cards` of the cards shown, in ascending order.
    pub fn visible_cards(&self, cards: &Vec<Card>) -> (positions: Vec<usize>)
        ensures
            positions@ == visible_positions(*self, cards@),
    {
        let mut positions: Vec<usize> = Vec::new();
        let mut i: usize = 0;
        while i < cards.len()
            invariant
                i <= cards.len(),
                positions@ == visible_positions(*self, cards@.take(i as int)),
            decreases cards.len() - i,
        {
            assert(cards@.take(i + 1).drop_last() =~= cards@.take(i as int));
            if self.shows(&cards[i]) {
                positions.push(i);
            }
            i = i + 1;
        }
        assert(cards@.take(cards.len() as int) =~= cards@);
        positions
    }

    /// Deletes the selected collection from the store and from
    /// `collections`, clears the cards on screen and the selection. With no
    /// collection selected, or where the store fails, nothing changes.
    pub fn delete_selected(
        &self,
        db_handler: &DbHandler,
        collections: &mut Vec<Collection>,
        cards: &mut Vec<Card>,
        selected_collection: &mut Option<u32>,
        selected_collection_name: &mut Option<String>,
    ) -> (r: Result<(), DbError>)
        ensures
            *old(selected_collection) is None ==> r is Ok,
            match (r, *old(selected_collection)) {
                (Ok(_), Some(id)) => {
                    &&& final(collections)@ == old(collections)@.filter(
                        |c: Collection| c.id != id,
                    )
                    &&& final(cards)@.len() == 0
                    &&& *final(selected_collection) is None
                    &&& *final(selected_collection_name) is None
                },
                (Err(e), _) => {
                    &&& *final(collections) == *old(collections)
                    &&& *final(cards) == *old(cards)
                    &&& *final(selected_collection) == *old(selected_collection)
                    &&& *final(selected_collection_name) == *old(selected_collection_name)
                    &&& e.stage == DbStage::Query
                },
                (Ok(_), None) => {
                    &&& *final(collections) == *old(collections)
                    &&& *final(cards) == *old(cards)
                    &&& *final(selected_collection) == *old(selected_collection)
                    &&& *final(selected_collection_name) == *old(selected_collection_name)
                },
            },
    {
        let id = match *selected_collection {
            Some(id) => id,
            None => {
                return Ok(());
            },
        };
        match db_handler.delete_collection(id) {
            Ok(()) => {},
            Err(e) => {
                return Err(e);
            },
        }
        *selected_collection = None;
        *selected_collection_name = None;
        cards.clear();
        remove_collection(collections, id);
        Ok(())
    }
}

/// Drops every collection whose id is `id`, and keeps the others in their
/// order.
pub fn remove_collection(collections: &mut Vec<Collection>, id: u32)
    ensures
        final(collections)@ == old(collections)@.filter(|c: Collection| c.id != id),
{
    let mut all: Vec<Collection> = Vec::new();
    std::mem::swap(collections, &mut all);
    let ghost before = all@;
    let ghost keep = |c: Collection| c.id != id;
    assert(before.take(0) =~= Seq::empty());
    assert(Seq::<Collection>::empty().filter(keep) =~= Seq::empty()) by {
        reveal(Seq::filter);
    }
    for collection in it: all
        invariant
            it.seq() == before,
            keep == (|c: Collection| c.id != id),
            collections@ == before.take(it.index() as int).filter(keep),
    {
        proof {
            let done = before.take(it.index() as int);
            assert(before.take(it.index() + 1) =~= done.push(collection));
            done.lemma_filter_push(collection, keep);
        }
        if collection.id != id {
            collections.push(collection);
        }
    }
    assert(before.take(before.len() as int) =~= before);
}

} // verus!
