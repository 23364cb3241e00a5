use vstd::prelude::*;

verus! {

/// A catalog item that can be put in a playlist.
#[derive(Clone, Debug, PartialEq, Eq)]
pub enum ItemId {
    Track(String),
    Episode(String),
}

/// The identity of a catalog item, as plain values.
pub enum ItemKey {
    Track(Seq<char>),
    Episode(Seq<char>),
}

impl View for ItemId {
    type V = ItemKey;

    open spec fn view(&self) -> ItemKey {
        match self {
            ItemId::Track(s) => ItemKey::Track(s@),
            ItemId::Episode(s) => ItemKey::Episode(s@),
        }
    }
}

/// What the account is playing.
#[derive(Debug, PartialEq, Eq)]
pub enum Playing {
    /// Nothing is playing.
    Nothing,
    /// A file of the user's own, which has no catalog identifier.
    Local,
    /// A catalog item.
    Item(ItemId),
}

/// What a run does with the item that is playing.
#[derive(Debug, PartialEq, Eq)]
pub enum MovePlan {
    /// Tell the user that nothing is playing, and stop.
    NothingPlaying,
    /// Tell the user that a local file cannot be moved, and stop.
    LocalItem,
    /// Remove every occurrence of `item` from `playlist`, then add it.
    Move { playlist: String, item: ItemId },
}

/// `l` with every occurrence of `k` taken out, the rest in order.
pub open spec fn without(l: Seq<ItemKey>, k: ItemKey) -> Seq<ItemKey> {
    l.filter(|x: ItemKey| x != k)
}

/// How many times `k` stands in `l`.
pub open spec fn occurrences(l: Seq<ItemKey>, k: ItemKey) -> nat {
    l.filter(|x: ItemKey| x == k).len()
}

/// A playlist after every occurrence of `k` was removed and `k` was added,
/// which the service does at the end.
pub open spec fn moved_to_end(l: Seq<ItemKey>, k: ItemKey) -> Seq<ItemKey> {
    without(l, k).push(k)
}

/// The target playlist's contents `l` after a plan has been carried out.
pub open spec fn playlist_after(plan: MovePlan, l: Seq<ItemKey>) -> Seq<ItemKey> {
    match plan {
        MovePlan::Move { playlist: _, item } => moved_to_end(l, item@),
        _ => l,
    }
}

/// Decides what to do with the item that is playing, given the target
/// playlist: stop with a notice when nothing or a local file is playing, and
/// otherwise move the item to the end of the playlist.
pub fn plan_move(playing: Playing, playlist: String) -> (r: MovePlan)
    ensures
        match playing {
            Playing::Nothing => r == MovePlan::NothingPlaying,
            Playing::Local => r == MovePlan::LocalItem,
            Playing::Item(item) => r == (MovePlan::Move { playlist, item }),
        },
        forall|l: Seq<ItemKey>| #[trigger]
            playlist_after(r, l) == match playing {
                Playing::Item(item) => moved_to_end(l, item@),
                _ => l,
            },
{
    match playing {
        Playing::Nothing => MovePlan::NothingPlaying,
        Playing::Local => MovePlan::LocalItem,
        Playing::Item(item) => MovePlan::Move { playlist, item },
    }
}

proof fn lemma_none_left(l: Seq<ItemKey>, k: ItemKey)
    ensures
        occurrences(without(l, k), k) == 0,
    decreases l.len(),
{
    reveal(Seq::filter);
    if l.len() > 0 {
        let init = l.drop_last();
        lemma_none_left(init, k);
        let w = without(init, k);
        if l.last() != k {
            assert(without(l, k) == w.push(l.last()));
            assert(w.push(l.last()).drop_last() =~= w);
        } else {
            assert(without(l, k) == w);
        }
    }
}

/// After a move, the playlist holds the item exactly once, as its last
/// entry, and every other entry stays as it was, in the same order.
pub proof fn lemma_move_keeps_one(l: Seq<ItemKey>, k: ItemKey)
    ensures
        occurrences(moved_to_end(l, k), k) == 1,
        moved_to_end(l, k).last() == k,
        without(moved_to_end(l, k), k) == without(l, k),
{
    let w = without(l, k);
    lemma_none_left(l, k);
    reveal(Seq::filter);
    assert(w.push(k).drop_last() =~= w);
    lemma_without_twice(l, k);
}

proof fn lemma_without_twice(l: Seq<ItemKey>, k: ItemKey)
    ensures
        without(without(l, k), k) == without(l, k),
    decreases l.len(),
{
    reveal(Seq::filter);
    if l.len() > 0 {
        let init = l.drop_last();
        lemma_without_twice(init, k);
        let w = without(init, k);
        if l.last() != k {
            assert(without(l, k) == w.push(l.last()));
            assert(w.push(l.last()).drop_last() =~= w);
        } else {
            assert(without(l, k) == w);
        }
    }
}

} // verus!
