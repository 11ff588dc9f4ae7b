//! The catalogue: the one owner of all book records, from identifier to book.
//!
//! In specifications a catalogue is a finite `Map<u32, BookSpec>`. The
//! predicates and functions on such maps that the contracts of this crate are
//! written in stand here too.

use crate::models::{Book, BookRes, BookResSpec, BookSpec};
use std::collections::HashMap;
use vstd::prelude::*;
use vstd::std_specs::iter::IteratorSpec;

verus! {

/// Whether some stored book has exactly this title.
pub open spec fn title_taken(books: Map<u32, BookSpec>, title: Seq<char>) -> bool {
    exists|id: u32| #[trigger] books.contains_key(id) && books[id].title == title
}

/// Whether no two stored books share a title.
pub open spec fn titles_unique(books: Map<u32, BookSpec>) -> bool {
    forall|a: u32, b: u32|
        #![trigger books.contains_key(a), books.contains_key(b)]
        books.contains_key(a) && books.contains_key(b) && a != b ==> books[a].title
            != books[b].title
}

/// Whether `top` is the largest identifier in use, or zero where none is.
pub open spec fn is_max_id(books: Map<u32, BookSpec>, top: u32) -> bool {
    &&& forall|id: u32| #[trigger] books.contains_key(id) ==> id <= top
    &&& (top == 0 || books.contains_key(top))
}

/// The largest identifier in use, or zero where none is.
pub open spec fn max_id(books: Map<u32, BookSpec>) -> u32 {
    choose|top: u32| is_max_id(books, top)
}

/// The identifier that the next created book gets: one more than the largest
/// in use, so 1 in an empty catalogue. It is not a counter: once the book
/// with the largest identifier is deleted, that identifier is issued again.
pub open spec fn next_id(books: Map<u32, BookSpec>) -> int {
    max_id(books) + 1
}

/// Whether `entries` lists `books`: every stored book once, under its
/// identifier, and nothing else. The order is left open.
pub open spec fn is_listing(entries: Seq<BookResSpec>, books: Map<u32, BookSpec>) -> bool {
    &&& entries.len() == books.len()
    &&& forall|i: int|
        0 <= i < entries.len() ==> books.contains_key(#[trigger] entries[i].id)
            && books[entries[i].id] == entries[i].book()
    &&& forall|i: int, j: int|
        0 <= i < j < entries.len() ==> #[trigger] entries[i].id != #[trigger] entries[j].id
    &&& forall|id: u32| #[trigger]
        books.contains_key(id) ==> exists|i: int|
            0 <= i < entries.len() && #[trigger] entries[i].id == id
}

/// No identifier is the largest in use but the one that is.
pub proof fn lemma_max_id_is(books: Map<u32, BookSpec>, top: u32)
    requires
        is_max_id(books, top),
    ensures
        max_id(books) == top,
{
    let chosen = max_id(books);
    assert(is_max_id(books, chosen));
}

/// Every finite catalogue has a largest identifier.
pub proof fn lemma_max_id_exists(books: Map<u32, BookSpec>)
    requires
        books.dom().finite(),
    ensures
        is_max_id(books, max_id(books)),
    decreases books.dom().len(),
{
    if books.dom().is_empty() {
        assert(is_max_id(books, 0));
    } else {
        let id = books.dom().choose();
        let rest = books.remove(id);
        lemma_max_id_exists(rest);
        let top = max_id(rest);
        if id > top {
            assert(is_max_id(books, id));
        } else {
            assert forall|other: u32| #[trigger] books.contains_key(other) implies other
                <= top by {
                assert(other == id || rest.contains_key(other));
            }
            assert(is_max_id(books, top));
        }
    }
}

/// The identifier issued next is positive, and not in use wherever the
/// largest possible identifier is not.
pub proof fn lemma_next_id_fresh(books: Map<u32, BookSpec>)
    requires
        books.dom().finite(),
    ensures
        next_id(books) >= 1,
        !books.contains_key(u32::MAX) ==> next_id(books) <= u32::MAX && !books.contains_key(
            next_id(books) as u32,
        ),
{
    lemma_max_id_exists(books);
}

/// The catalogue of books.
pub struct BookStore {
    books: HashMap<u32, Book>,
}

impl View for BookStore {
    type V = Map<u32, BookSpec>;

    closed spec fn view(&self) -> Map<u32, BookSpec> {
        Map::new(|id: u32| self.books@.contains_key(id), |id: u32| self.books@[id]@)
    }
}

impl BookStore {
    /// A catalogue never holds more than finitely many books.
    pub proof fn lemma_finite(&self)
        ensures
            self@.dom().finite(),
    {
        assert(self@.dom() =~= self.books@.dom());
    }

    /// An empty catalogue.
    pub fn new() -> (store: BookStore)
        ensures
            store@ == Map::<u32, BookSpec>::empty(),
    {
        BookStore { books: HashMap::new() }
    }

    /// Stores `book` under `id`, in place of whatever was stored there.
    pub fn insert(&mut self, id: u32, book: Book)
        ensures
            final(self)@ == old(self)@.insert(id, book@),
    {
        let _ = self.books.insert(id, book);
    }

    /// The book stored under `id`, if there is one.
    pub fn get(&self, id: u32) -> (found: Option<&Book>)
        ensures
            match found {
                Some(book) => self@.contains_key(id) && self@[id] == book@,
                None => !self@.contains_key(id),
            },
    {
        self.books.get(&id)
    }

    /// Whether a book is stored under `id`.
    pub fn contains(&self, id: u32) -> (present: bool)
        ensures
            present == self@.contains_key(id),
    {
        self.books.contains_key(&id)
    }

    /// Deletes the book stored under `id`, and says whether there was one.
    pub fn remove(&mut self, id: u32) -> (removed: bool)
        ensures
            removed == old(self)@.contains_key(id),
            final(self)@ == old(self)@.remove(id),
    {
        self.books.remove(&id).is_some()
    }

    /// The number of stored books.
    pub fn len(&self) -> (n: usize)
        ensures
            n == self@.len(),
    {
        assert(self@.dom() =~= self.books@.dom());
        self.books.len()
    }

    /// Every stored book with its identifier, in no particular order.
    pub fn list(&self) -> (entries: Vec<BookRes>)
        ensures
            is_listing(entries.deep_view(), self@),
    {
        let mut entries: Vec<BookRes> = Vec::new();
        let ghost pairs = self.books.iter().remaining();
        for entry in it: self.books.iter()
            invariant
                it.seq() == pairs,
                entries@.len() == it.index(),
                forall|i: int|
                    0 <= i < it.index() ==> (#[trigger] entries@[i])@ == it.seq()[i].1@.with_id(
                        *it.seq()[i].0,
                    ),
        {
            let (id, book) = entry;
            entries.push(book.to_res(*id));
        }
        proof {
            let listed = entries.deep_view();
            assert(self@.dom() =~= self.books@.dom());
            assert(listed.len() == self@.len());
            assert forall|i: int| 0 <= i < listed.len() implies self@.contains_key(
                #[trigger] listed[i].id,
            ) && self@[listed[i].id] == listed[i].book() by {
                assert(self.books@.contains_key(*pairs[i].0));
            }
            assert forall|i: int, j: int| 0 <= i < j < listed.len() implies #[trigger] listed[i].id
                != #[trigger] listed[j].id by {
                assert(self.books@.contains_key(*pairs[i].0));
                assert(self.books@.contains_key(*pairs[j].0));
                assert(pairs[i] != pairs[j]);
            }
            assert forall|id: u32| #[trigger] self@.contains_key(id) implies exists|i: int|
                0 <= i < listed.len() && #[trigger] listed[i].id == id by {
                assert(self.books@.contains_key(id));
                assert(pairs.contains((&id, &self.books@[id])));
                let i = choose|i: int| 0 <= i < pairs.len() && pairs[i] == (&id, &self.books@[id]);
                assert(listed[i].id == id);
            }
        }
        entries
    }

    /// Whether some stored book has exactly this title.
    pub fn has_title(&self, title: &String) -> (taken: bool)
        ensures
            taken == title_taken(self@, title@),
    {
        for entry in it: self.books.iter()
            invariant
                forall|i: int| 0 <= i < it.index() ==> it.seq()[i].1.title@ != title@,
        {
            let (_, book) = entry;
            if book.title == *title {
                assert(self@.contains_key(*it.seq()[it.index()].0));
                return true;
            }
        }
        false
    }

    /// The largest identifier in use, or zero where none is.
    pub fn max_id(&self) -> (top: u32)
        ensures
            top == max_id(self@),
    {
        let mut top: u32 = 0;
        for entry in it: self.books.iter()
            invariant
                forall|i: int| 0 <= i < it.index() ==> *it.seq()[i].0 <= top,
                top == 0 || exists|i: int| 0 <= i < it.index() && *it.seq()[i].0 == top,
        {
            let (id, _) = entry;
            if *id > top {
                top = *id;
            }
        }
        proof {
            lemma_max_id_is(self@, top);
        }
        top
    }

    /// The identifier for the next created book.
    pub fn next_id(&self) -> (id: u32)
        requires
            !self@.contains_key(u32::MAX),
        ensures
            id == next_id(self@),
    {
        proof {
            self.lemma_finite();
            lemma_max_id_exists(self@);
        }
        self.max_id() + 1
    }
}

} // verus!
