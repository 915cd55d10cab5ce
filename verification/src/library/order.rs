//! The order in which tracks, albums and artists are listed.

use crate::library::album::{Album, AlbumView};
use crate::library::artist::{Artist, ArtistView};
use crate::library::track::{Track, TrackView};
use vstd::prelude::*;
use vstd::utf8::encode_utf8;

verus! {

/// `text` in lower case, as Unicode defines it.
pub uninterp spec fn lowercase(text: Seq<char>) -> Seq<char>;

/// `str::to_lowercase` of the standard library returns the lower case
/// equivalent of the text as a new `String`. The result depends on the text
/// alone; what it is for a given text is left to the standard library.
pub assume_specification[ str::to_lowercase ](text: &str) -> (lower: String)
    ensures
        lower@ == lowercase(text@),
;

/// Whether `a` comes before `b` when bytes are compared one by one from the
/// front: at the first place where they differ `a` holds the smaller byte,
/// or `a` ends there and `b` does not.
pub open spec fn bytes_precede(a: Seq<u8>, b: Seq<u8>) -> bool
    decreases a.len(),
{
    if b.len() == 0 {
        false
    } else if a.len() == 0 {
        true
    } else if a[0] != b[0] {
        a[0] < b[0]
    } else {
        bytes_precede(a.drop_first(), b.drop_first())
    }
}

/// Whether `a` comes before `b` in the order of their UTF-8 bytes, which is
/// the order in which texts are sorted.
pub open spec fn text_precedes(a: Seq<char>, b: Seq<char>) -> bool {
    bytes_precede(encode_utf8(a), encode_utf8(b))
}

/// Whether `a` comes before `b` in the order in which texts are sorted.
pub fn precedes(a: &str, b: &str) -> (before: bool)
    ensures
        before == text_precedes(a@, b@),
{
    let x = a.as_bytes();
    let y = b.as_bytes();
    let mut i: usize = 0;
    assert(x@.subrange(0, x@.len() as int) =~= x@);
    assert(y@.subrange(0, y@.len() as int) =~= y@);
    loop
        invariant
            i <= x@.len(),
            i <= y@.len(),
            x@ == encode_utf8(a@),
            y@ == encode_utf8(b@),
            bytes_precede(x@, y@) == bytes_precede(
                x@.subrange(i as int, x@.len() as int),
                y@.subrange(i as int, y@.len() as int),
            ),
        decreases x@.len() - i,
    {
        let ghost rest_x = x@.subrange(i as int, x@.len() as int);
        let ghost rest_y = y@.subrange(i as int, y@.len() as int);
        if i >= y.len() {
            return false;
        }
        if i >= x.len() {
            return true;
        }
        assert(rest_x[0] == x@[i as int]);
        assert(rest_y[0] == y@[i as int]);
        if x[i] != y[i] {
            return x[i] < y[i];
        }
        assert(rest_x.drop_first() =~= x@.subrange(i + 1, x@.len() as int));
        assert(rest_y.drop_first() =~= y@.subrange(i + 1, y@.len() as int));
        i += 1;
    }
}

/// What can be put in order.
pub trait Ranked: View + Sized {
    /// Whether `a` is listed before `b`.
    spec fn ranks_before(a: Self::V, b: Self::V) -> bool;

    /// Whether `self` is listed before `other`.
    fn sorts_before(&self, other: &Self) -> (before: bool)
        ensures
            before == Self::ranks_before(self@, other@),
    ;
}

/// The name by which a track is sorted where numbers do not decide: its
/// title, else its file path, in lower case.
pub open spec fn sort_name(track: TrackView) -> Seq<char> {
    lowercase(track.display_name())
}

impl Ranked for Track {
    /// Tracks are sorted by artist, then by album, then by track number
    /// where both have one, else by name.
    open spec fn ranks_before(a: TrackView, b: TrackView) -> bool {
        if a.artist != b.artist {
            text_precedes(a.artist, b.artist)
        } else if a.album != b.album {
            text_precedes(a.album, b.album)
        } else {
            match (a.number, b.number) {
                (Some(x), Some(y)) => x < y,
                _ => text_precedes(sort_name(a), sort_name(b)),
            }
        }
    }

    fn sorts_before(&self, other: &Self) -> (before: bool) {
        if self.artist != other.artist {
            precedes(self.artist.as_str(), other.artist.as_str())
        } else if self.album != other.album {
            precedes(self.album.as_str(), other.album.as_str())
        } else {
            match (self.number, other.number) {
                (Some(x), Some(y)) => x < y,
                _ => {
                    let own = self.display_name().as_str().to_lowercase();
                    let others = other.display_name().as_str().to_lowercase();
                    precedes(own.as_str(), others.as_str())
                },
            }
        }
    }
}

/// Whether `a` is listed before `b` among names of which `first` always
/// comes first and the others follow in the order of their lower case.
pub open spec fn name_ranks_before(a: Seq<char>, b: Seq<char>, first: Seq<char>) -> bool {
    if a == first && b != first {
        true
    } else if b == first {
        false
    } else {
        text_precedes(lowercase(a), lowercase(b))
    }
}

/// Whether the name `a` is listed before the name `b`, where `first` always
/// comes first.
fn name_sorts_before(a: &String, b: &String, first: &str) -> (before: bool)
    ensures
        before == name_ranks_before(a@, b@, first@),
{
    let first = first.to_owned();
    let a_first = *a == first;
    let b_first = *b == first;
    if a_first && !b_first {
        true
    } else if b_first {
        false
    } else {
        precedes(a.as_str().to_lowercase().as_str(), b.as_str().to_lowercase().as_str())
    }
}

impl Ranked for Album {
    /// The pseudo-album of all albums comes first; the others follow by
    /// name, whatever the case of the letters.
    open spec fn ranks_before(a: AlbumView, b: AlbumView) -> bool {
        name_ranks_before(a.name, b.name, "All Albums"@)
    }

    fn sorts_before(&self, other: &Self) -> (before: bool) {
        name_sorts_before(&self.name, &other.name, "All Albums")
    }
}

impl Ranked for Artist {
    /// The pseudo-artist of all artists comes first; the others follow by
    /// name, whatever the case of the letters.
    open spec fn ranks_before(a: ArtistView, b: ArtistView) -> bool {
        name_ranks_before(a.name, b.name, "All Artists"@)
    }

    fn sorts_before(&self, other: &Self) -> (before: bool) {
        name_sorts_before(&self.name, &other.name, "All Artists")
    }
}

/// The views of a sequence of values, in the same order.
pub open spec fn views<T: View>(items: Seq<T>) -> Seq<T::V> {
    items.map_values(|item: T| item@)
}

/// The place at which `item` goes into `sorted`: behind the last entry that
/// it is not listed before.
pub open spec fn insert_place<T: Ranked>(sorted: Seq<T::V>, item: T::V) -> int
    decreases sorted.len(),
{
    if sorted.len() > 0 && T::ranks_before(item, sorted.last()) {
        insert_place::<T>(sorted.drop_last(), item)
    } else {
        sorted.len() as int
    }
}

/// `items` in their listed order: each item in turn goes behind the last
/// of the items before it that it is not listed before. Items of which
/// neither is listed before the other keep their order.
pub open spec fn sorted<T: Ranked>(items: Seq<T::V>) -> Seq<T::V>
    decreases items.len(),
{
    if items.len() == 0 {
        items
    } else {
        let before = sorted::<T>(items.drop_last());
        before.insert(insert_place::<T>(before, items.last()), items.last())
    }
}

/// `insert_place` is a place of `sorted`; the entry behind it, if any, is
/// one that `item` is listed before, and the entry before it, if any, is
/// one that `item` is not listed before.
pub proof fn lemma_insert_place<T: Ranked>(sorted: Seq<T::V>, item: T::V)
    ensures
        0 <= insert_place::<T>(sorted, item) <= sorted.len(),
        insert_place::<T>(sorted, item) < sorted.len() ==> T::ranks_before(
            item,
            sorted[insert_place::<T>(sorted, item)],
        ),
        insert_place::<T>(sorted, item) > 0 ==> !T::ranks_before(
            item,
            sorted[insert_place::<T>(sorted, item) - 1],
        ),
    decreases sorted.len(),
{
    if sorted.len() > 0 && T::ranks_before(item, sorted.last()) {
        lemma_insert_place::<T>(sorted.drop_last(), item);
    }
}

/// Sorting keeps the items: the result holds each item as often as the
/// input does.
pub proof fn lemma_sorted_keeps_items<T: Ranked>(items: Seq<T::V>)
    ensures
        sorted::<T>(items).len() == items.len(),
        sorted::<T>(items).to_multiset() == items.to_multiset(),
    decreases items.len(),
{
    if items.len() > 0 {
        let before = sorted::<T>(items.drop_last());
        lemma_sorted_keeps_items::<T>(items.drop_last());
        lemma_insert_place::<T>(before, items.last());
        vstd::seq_lib::to_multiset_insert(
            before,
            insert_place::<T>(before, items.last()),
            items.last(),
        );
        assert(items.drop_last().push(items.last()) =~= items);
        vstd::seq_lib::to_multiset_build(items.drop_last(), items.last());
    }
}

/// In the sorted result no item is followed directly by one that is listed
/// before it, provided that of two items at most one is listed before the
/// other.
pub proof fn lemma_sorted_is_ordered<T: Ranked>(items: Seq<T::V>, i: int)
    requires
        forall|a: T::V, b: T::V| !(T::ranks_before(a, b) && #[trigger] T::ranks_before(b, a)),
        0 <= i,
        i + 1 < sorted::<T>(items).len(),
    ensures
        !T::ranks_before(sorted::<T>(items)[i + 1], sorted::<T>(items)[i]),
    decreases items.len(),
{
    if items.len() > 0 {
        let before = sorted::<T>(items.drop_last());
        let item = items.last();
        let place = insert_place::<T>(before, item);
        lemma_insert_place::<T>(before, item);
        let after = before.insert(place, item);
        if i + 1 < place {
            assert(after[i] == before[i] && after[i + 1] == before[i + 1]);
            lemma_sorted_is_ordered::<T>(items.drop_last(), i);
        } else if i + 1 == place {
            assert(after[i] == before[i] && after[i + 1] == item);
        } else if i == place {
            assert(after[i] == item && after[i + 1] == before[i]);
        } else {
            assert(after[i] == before[i - 1] && after[i + 1] == before[i]);
            lemma_sorted_is_ordered::<T>(items.drop_last(), i - 1);
        }
    }
}

/// Of two byte strings at most one comes before the other.
pub proof fn lemma_bytes_precede_one_way(a: Seq<u8>, b: Seq<u8>)
    ensures
        !(bytes_precede(a, b) && bytes_precede(b, a)),
    decreases a.len(),
{
    if a.len() > 0 && b.len() > 0 && a[0] == b[0] {
        lemma_bytes_precede_one_way(a.drop_first(), b.drop_first());
    }
}

/// Of two tracks, two albums or two artists at most one is listed before
/// the other, so that `lemma_sorted_is_ordered` holds of each of the three
/// orders.
pub proof fn lemma_ranks_one_way()
    ensures
        forall|a: TrackView, b: TrackView|
            !(Track::ranks_before(a, b) && #[trigger] Track::ranks_before(b, a)),
        forall|a: AlbumView, b: AlbumView|
            !(Album::ranks_before(a, b) && #[trigger] Album::ranks_before(b, a)),
        forall|a: ArtistView, b: ArtistView|
            !(Artist::ranks_before(a, b) && #[trigger] Artist::ranks_before(b, a)),
{
    assert forall|a: Seq<char>, b: Seq<char>| !(text_precedes(a, b) && #[trigger] text_precedes(
        b,
        a,
    )) by {
        lemma_bytes_precede_one_way(encode_utf8(a), encode_utf8(b));
    }
}

/// The place at which `item` goes into `sorted`.
fn find_place<T: Ranked>(sorted: &Vec<T>, item: &T) -> (place: usize)
    ensures
        place == insert_place::<T>(views(sorted@), item@),
        place <= sorted@.len(),
{
    let mut place: usize = sorted.len();
    assert(views(sorted@).subrange(0, place as int) =~= views(sorted@));
    while place > 0
        invariant
            place <= sorted.len(),
            insert_place::<T>(views(sorted@), item@) == insert_place::<T>(
                views(sorted@).subrange(0, place as int),
                item@,
            ),
        decreases place,
    {
        let ghost seen = views(sorted@).subrange(0, place as int);
        assert(seen.last() == sorted@[place - 1]@);
        if !item.sorts_before(&sorted[place - 1]) {
            return place;
        }
        assert(seen.drop_last() =~= views(sorted@).subrange(0, place - 1));
        place -= 1;
    }
    place
}

/// Puts `items` into their listed order.
pub fn sort<T: Ranked>(items: Vec<T>) -> (ordered: Vec<T>)
    ensures
        views(ordered@) == sorted::<T>(views(items@)),
{
    let ghost all = views(items@);
    let mut rest = items;
    let mut ordered: Vec<T> = Vec::new();
    let ghost mut done: int = 0;
    assert(views(ordered@) =~= sorted::<T>(all.subrange(0, 0)));
    assert(views(rest@) =~= all.subrange(0, all.len() as int));
    while rest.len() > 0
        invariant
            0 <= done <= all.len(),
            views(rest@) == all.subrange(done, all.len() as int),
            views(ordered@) == sorted::<T>(all.subrange(0, done)),
        decreases rest.len(),
    {
        let ghost before = views(ordered@);
        let ghost remaining = views(rest@);
        assert(remaining.len() == rest@.len());
        assert(done < all.len());
        let ghost unsorted = rest@;
        let item = rest.remove(0);
        assert forall|k: int| 0 <= k < rest@.len() implies views(rest@)[k] == all[done + 1 + k] by {
            assert(rest@[k] == unsorted[k + 1]);
            assert(remaining[k + 1] == unsorted[k + 1]@);
        }
        assert(views(rest@) =~= all.subrange(done + 1, all.len() as int));
        assert(item@ == remaining[0]);
        let place = find_place(&ordered, &item);
        let ghost taken = all.subrange(0, done + 1);
        assert(taken.drop_last() =~= all.subrange(0, done));
        assert(taken.last() == item@);
        ordered.insert(place, item);
        assert(views(ordered@) =~= before.insert(place as int, item@));
        proof {
            done = done + 1;
        }
    }
    assert(all.subrange(0, done) =~= all);
    ordered
}

} // verus!
