//! What holds of the operations taken together: across a creation and the
//! lookup that follows it, across whole runs of creations, across a deletion.
//!
//! The statements are about the functions on maps that the operations are
//! proved to compute, so they hold of every run of the executable operations.

use crate::handlers::{
    add_book_spec, created, delete_book_spec, delete_missing, deleted, duplicate_title, find_spec,
    found, not_found, update_spec, updated,
};
use crate::models::{BookResSpec, BookSpec};
use crate::store::{
    is_listing, is_max_id, lemma_max_id_exists, lemma_max_id_is, next_id, title_taken,
    titles_unique,
};
use vstd::prelude::*;

verus! {

/// The catalogue after the books of `payloads` were submitted for creation
/// one after another, first to last.
pub open spec fn add_all(books: Map<u32, BookSpec>, payloads: Seq<BookSpec>) -> Map<
    u32,
    BookSpec,
>
    decreases payloads.len(),
{
    if payloads.len() == 0 {
        books
    } else {
        add_book_spec(add_all(books, payloads.drop_last()), payloads.last()).0
    }
}

/// Whether the titles of `payloads` differ from one another.
pub open spec fn distinct_titles(payloads: Seq<BookSpec>) -> bool {
    forall|i: int, j: int|
        0 <= i < j < payloads.len() ==> (#[trigger] payloads[i]).title != (
        #[trigger] payloads[j]).title
}

/// The catalogue that holds the books of `payloads` under the identifiers
/// 1, 2, 3 and so on, in their order.
pub open spec fn numbered(payloads: Seq<BookSpec>) -> Map<u32, BookSpec> {
    Map::new(|id: u32| 1 <= id <= payloads.len(), |id: u32| payloads[id - 1])
}

/// A creation whose title is in use changes nothing and is answered with the
/// refusal that names the title.
pub proof fn lemma_duplicate_title_refused(books: Map<u32, BookSpec>, payload: BookSpec)
    requires
        title_taken(books, payload.title),
    ensures
        add_book_spec(books, payload) == (books, duplicate_title(payload.title)),
{
}

/// A creation never makes two books share a title.
pub proof fn lemma_add_book_keeps_titles_unique(books: Map<u32, BookSpec>, payload: BookSpec)
    requires
        titles_unique(books),
    ensures
        titles_unique(add_book_spec(books, payload).0),
{
}

/// However many creations are attempted, one after another, in a catalogue
/// in which no two books share a title: no two books share one afterwards.
pub proof fn lemma_creations_keep_titles_unique(
    books: Map<u32, BookSpec>,
    payloads: Seq<BookSpec>,
)
    requires
        titles_unique(books),
    ensures
        titles_unique(add_all(books, payloads)),
    decreases payloads.len(),
{
    if payloads.len() > 0 {
        lemma_creations_keep_titles_unique(books, payloads.drop_last());
        lemma_add_book_keeps_titles_unique(
            add_all(books, payloads.drop_last()),
            payloads.last(),
        );
    }
}

/// In a catalogue that started empty and has seen nothing but creations, no
/// two books share a title.
pub proof fn lemma_titles_unique_from_empty(payloads: Seq<BookSpec>)
    ensures
        titles_unique(add_all(Map::empty(), payloads)),
{
    lemma_creations_keep_titles_unique(Map::empty(), payloads);
}

/// A deletion never makes two books share a title.
pub proof fn lemma_delete_book_keeps_titles_unique(books: Map<u32, BookSpec>, id: u32)
    requires
        titles_unique(books),
    ensures
        titles_unique(delete_book_spec(books, id).0),
{
}

/// An update does not look at the titles of the other books. It keeps the
/// titles apart exactly when no other book has the new title.
pub proof fn lemma_update_keeps_titles_unique(
    books: Map<u32, BookSpec>,
    id: u32,
    payload: BookSpec,
)
    requires
        titles_unique(books),
        books.contains_key(id),
    ensures
        titles_unique(update_spec(books, id, payload).0) <==> !title_taken(
            books.remove(id),
            payload.title,
        ),
{
    let after = update_spec(books, id, payload).0;
    if title_taken(books.remove(id), payload.title) {
        let other = choose|other: u32| #[trigger]
            books.remove(id).contains_key(other) && books.remove(id)[other].title
                == payload.title;
        assert(after.contains_key(other) && after.contains_key(id));
    } else {
        assert forall|a: u32, b: u32|
            #![trigger after.contains_key(a), after.contains_key(b)]
            after.contains_key(a) && after.contains_key(b) && a != b implies after[a].title
            != after[b].title by {
            if a == id {
                assert(books.remove(id).contains_key(b));
            } else if b == id {
                assert(books.remove(id).contains_key(a));
            } else {
                assert(books.contains_key(a) && books.contains_key(b));
            }
        }
    }
}

/// A creation that is not refused stores the book under a positive
/// identifier that was not in use, leaves every other book as it was, and a
/// lookup of that identifier right afterwards shows the book just created.
pub proof fn lemma_created_book_is_found(books: Map<u32, BookSpec>, payload: BookSpec)
    requires
        books.dom().finite(),
        !books.contains_key(u32::MAX),
        !title_taken(books, payload.title),
    ensures
        ({
            let (after, res) = add_book_spec(books, payload);
            let id = next_id(books) as u32;
            &&& res == created(id, payload)
            &&& 1 <= id == next_id(books)
            &&& !books.contains_key(id)
            &&& after == books.insert(id, payload)
            &&& after.len() == books.len() + 1
            &&& find_spec(after, id) == found(id, payload)
        }),
{
    lemma_max_id_exists(books);
}

/// After an update of a stored book, a lookup of its identifier shows the
/// new title and author.
pub proof fn lemma_updated_book_is_found(books: Map<u32, BookSpec>, id: u32, payload: BookSpec)
    requires
        books.contains_key(id),
    ensures
        ({
            let (after, res) = update_spec(books, id, payload);
            &&& res == updated(id, payload)
            &&& after.dom() == books.dom()
            &&& find_spec(after, id) == found(id, payload)
        }),
{
    assert(books.insert(id, payload).dom() =~= books.dom());
}

/// After a deletion, a lookup of the identifier finds nothing, whether or
/// not anything was stored under it before.
pub proof fn lemma_deleted_book_is_not_found(books: Map<u32, BookSpec>, id: u32)
    ensures
        find_spec(delete_book_spec(books, id).0, id) == not_found(),
        books.contains_key(id) ==> delete_book_spec(books, id).1 == deleted(id),
{
}

/// The life of one book: created, it is found as submitted; updated, it is
/// found as updated; deleted, it is found no more.
pub proof fn lemma_round_trip(books: Map<u32, BookSpec>, first: BookSpec, second: BookSpec)
    requires
        books.dom().finite(),
        !books.contains_key(u32::MAX),
        !title_taken(books, first.title),
    ensures
        ({
            let id = next_id(books) as u32;
            let (stored, res_created) = add_book_spec(books, first);
            let (changed, res_updated) = update_spec(stored, id, second);
            let (emptied, res_deleted) = delete_book_spec(changed, id);
            &&& res_created == created(id, first)
            &&& find_spec(stored, id) == found(id, first)
            &&& res_updated == updated(id, second)
            &&& find_spec(changed, id) == found(id, second)
            &&& res_deleted == deleted(id)
            &&& find_spec(emptied, id) == not_found()
            &&& emptied == books
        }),
{
    lemma_created_book_is_found(books, first);
    let id = next_id(books) as u32;
    assert(books.insert(id, first).insert(id, second).remove(id) =~= books);
}

/// Identifiers are not issued once and for all: when the book created last
/// is deleted, the next creation gets its identifier again.
pub proof fn lemma_identifier_issued_again(books: Map<u32, BookSpec>, payload: BookSpec)
    requires
        books.dom().finite(),
        !books.contains_key(u32::MAX),
        !title_taken(books, payload.title),
    ensures
        ({
            let id = next_id(books) as u32;
            let stored = add_book_spec(books, payload).0;
            next_id(delete_book_spec(stored, id).0) == id
        }),
{
    lemma_created_book_is_found(books, payload);
    let id = next_id(books) as u32;
    assert(books.insert(id, payload).remove(id) =~= books);
}

/// A deletion of an identifier under which nothing is stored is refused and
/// changes nothing: the catalogue is as large as it was.
pub proof fn lemma_delete_missing_changes_nothing(books: Map<u32, BookSpec>, id: u32)
    requires
        !books.contains_key(id),
    ensures
        delete_book_spec(books, id) == (books, delete_missing(id)),
        delete_book_spec(books, id).1.status == 404,
        delete_book_spec(books, id).0.len() == books.len(),
{
}

/// Creations with titles that differ from one another, submitted to an empty
/// catalogue, all succeed, and the books get the identifiers 1, 2, 3 and so
/// on in the order of their submission.
pub proof fn lemma_creations_are_numbered(payloads: Seq<BookSpec>)
    requires
        distinct_titles(payloads),
        payloads.len() <= u32::MAX,
    ensures
        add_all(Map::empty(), payloads) == numbered(payloads),
        numbered(payloads).dom().finite(),
        numbered(payloads).len() == payloads.len(),
    decreases payloads.len(),
{
    let n = payloads.len();
    if n == 0 {
        assert(numbered(payloads) =~= Map::empty());
    } else {
        let earlier = payloads.drop_last();
        let before = numbered(earlier);
        lemma_creations_are_numbered(earlier);
        assert(!title_taken(before, payloads.last().title)) by {
            if title_taken(before, payloads.last().title) {
                let id = choose|id: u32| #[trigger]
                    before.contains_key(id) && before[id].title == payloads.last().title;
                assert(payloads[id - 1].title != payloads[n - 1].title);
            }
        }
        assert(is_max_id(before, (n - 1) as u32));
        lemma_max_id_is(before, (n - 1) as u32);
        assert(before.insert(n as u32, payloads.last()) =~= numbered(payloads));
    }
}

/// After `n` creations with titles that differ from one another and no
/// deletion, a list of the catalogue has exactly `n` entries; each entry is
/// one of the created books under the identifier it was given, and each
/// created book is one of the entries.
pub proof fn lemma_listing_after_creations(payloads: Seq<BookSpec>, entries: Seq<BookResSpec>)
    requires
        distinct_titles(payloads),
        payloads.len() <= u32::MAX,
        is_listing(entries, add_all(Map::empty(), payloads)),
    ensures
        entries.len() == payloads.len(),
        forall|i: int|
            0 <= i < entries.len() ==> 1 <= (#[trigger] entries[i]).id <= payloads.len()
                && entries[i] == payloads[entries[i].id - 1].with_id(entries[i].id),
        forall|j: int|
            0 <= j < payloads.len() ==> exists|i: int|
                0 <= i < entries.len() && #[trigger] entries[i] == (#[trigger] payloads[j]).with_id(
                    (j + 1) as u32,
                ),
{
    lemma_creations_are_numbered(payloads);
    let books = numbered(payloads);
    assert forall|i: int| 0 <= i < entries.len() implies 1 <= (#[trigger] entries[i]).id
        <= payloads.len() && entries[i] == payloads[entries[i].id - 1].with_id(
        entries[i].id,
    ) by {
        assert(books.contains_key(entries[i].id));
        assert(books[entries[i].id] == entries[i].book());
    }
    assert forall|j: int| 0 <= j < payloads.len() implies exists|i: int|
        0 <= i < entries.len() && #[trigger] entries[i] == (#[trigger] payloads[j]).with_id(
            (j + 1) as u32,
        ) by {
        let id = (j + 1) as u32;
        assert(books.contains_key(id));
        let i = choose|i: int| 0 <= i < entries.len() && #[trigger] entries[i].id == id;
        assert(books[entries[i].id] == entries[i].book());
        assert(entries[i] == payloads[j].with_id(id));
    }
}

} // verus!
