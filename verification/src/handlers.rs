//! The five operations of the service. Each takes what the router extracted
//! from a request and the catalogue, and returns the response envelope; the
//! three that write also change the catalogue.
//!
//! What an operation does is first written down as a function on maps
//! (`add_book_spec`, `find_spec`, `update_spec`, `delete_book_spec`), and the
//! executable operation is proved to compute exactly that. The caller holds
//! the catalogue exclusively for the length of one call, so the check of a
//! title and the insertion that follows it are one step.

use crate::models::{Book, BookRes, BookResSpec, BookSpec, ResponseSpec, ResponseType};
use crate::store::{
    is_listing, lemma_next_id_fresh, next_id, title_taken, titles_unique, BookStore,
};
use crate::text::{
    created_message, created_text, delete_missing_message, delete_missing_text, deleted_message,
    deleted_text, duplicate_title_message, duplicate_title_text, found_message, found_text,
    internal_error_message, internal_error_text, listed_message, listed_text, not_found_message,
    not_found_text, update_missing_message, update_missing_text, updated_message, updated_text,
};
use vstd::prelude::*;

verus! {

/// The response to a creation that stored `book` under `id`.
pub open spec fn created(id: u32, book: BookSpec) -> ResponseSpec<Option<BookResSpec>> {
    ResponseSpec { message: created_text(), status: 201, data: Some(book.with_id(id)) }
}

/// The response that refuses a creation because `title` is already in use.
pub open spec fn duplicate_title(title: Seq<char>) -> ResponseSpec<Option<BookResSpec>> {
    ResponseSpec { message: duplicate_title_text(title), status: 400, data: None }
}

/// The response to a lookup that found `book` under `id`.
pub open spec fn found(id: u32, book: BookSpec) -> ResponseSpec<Option<BookResSpec>> {
    ResponseSpec { message: found_text(), status: 200, data: Some(book.with_id(id)) }
}

/// The response to a lookup that found nothing.
pub open spec fn not_found() -> ResponseSpec<Option<BookResSpec>> {
    ResponseSpec { message: not_found_text(), status: 404, data: None }
}

/// The response to an update that left `book` stored under `id`.
pub open spec fn updated(id: u32, book: BookSpec) -> ResponseSpec<Option<BookResSpec>> {
    ResponseSpec { message: updated_text(), status: 200, data: Some(book.with_id(id)) }
}

/// The response that refuses an update because there is no such book.
pub open spec fn update_missing() -> ResponseSpec<Option<BookResSpec>> {
    ResponseSpec { message: update_missing_text(), status: 400, data: None }
}

/// The response to a deletion of the book that was stored under `id`.
pub open spec fn deleted(id: u32) -> ResponseSpec<Option<BookSpec>> {
    ResponseSpec { message: deleted_text(id), status: 202, data: None }
}

/// The response that refuses a deletion because nothing is stored under `id`.
pub open spec fn delete_missing(id: u32) -> ResponseSpec<Option<BookSpec>> {
    ResponseSpec { message: delete_missing_text(id), status: 404, data: None }
}

/// The response to a request that could not be served for a reason of the
/// service's own, such as a catalogue that can no longer be locked.
pub open spec fn internal_error() -> ResponseSpec<Option<BookResSpec>> {
    ResponseSpec { message: internal_error_text(), status: 500, data: None }
}

/// Creation: refused where the title is in use, and then nothing changes;
/// otherwise the book is stored under the next identifier.
pub open spec fn add_book_spec(books: Map<u32, BookSpec>, payload: BookSpec) -> (
    Map<u32, BookSpec>,
    ResponseSpec<Option<BookResSpec>>,
) {
    if title_taken(books, payload.title) {
        (books, duplicate_title(payload.title))
    } else {
        let id = next_id(books) as u32;
        (books.insert(id, payload), created(id, payload))
    }
}

/// Lookup by identifier.
pub open spec fn find_spec(books: Map<u32, BookSpec>, id: u32) -> ResponseSpec<
    Option<BookResSpec>,
> {
    if books.contains_key(id) {
        found(id, books[id])
    } else {
        not_found()
    }
}

/// Update: the book stored under `id` is replaced as a whole, whatever titles
/// the other books have; refused where nothing is stored under `id`, and then
/// nothing changes.
pub open spec fn update_spec(books: Map<u32, BookSpec>, id: u32, payload: BookSpec) -> (
    Map<u32, BookSpec>,
    ResponseSpec<Option<BookResSpec>>,
) {
    if books.contains_key(id) {
        (books.insert(id, payload), updated(id, payload))
    } else {
        (books, update_missing())
    }
}

/// Deletion: refused where nothing is stored under `id`, and then nothing
/// changes.
pub open spec fn delete_book_spec(books: Map<u32, BookSpec>, id: u32) -> (
    Map<u32, BookSpec>,
    ResponseSpec<Option<BookSpec>>,
) {
    if books.contains_key(id) {
        (books.remove(id), deleted(id))
    } else {
        (books, delete_missing(id))
    }
}

/// Whether `res` is the response that lists `books`.
pub open spec fn lists_all(
    res: ResponseSpec<Seq<BookResSpec>>,
    books: Map<u32, BookSpec>,
) -> bool {
    &&& res.message == listed_text()
    &&& res.status == 200
    &&& is_listing(res.data, books)
}

/// Creates a book from `payload`, unless its title is in use.
///
/// A new book needs an identifier larger than every one in use, so where the
/// title is free the largest identifier there is must be free too.
pub fn add_book(payload: Book, db: &mut BookStore) -> (res: ResponseType<Option<BookRes>>)
    requires
        !title_taken(old(db)@, payload@.title) ==> !old(db)@.contains_key(u32::MAX),
    ensures
        (final(db)@, res@) == add_book_spec(old(db)@, payload@),
        res.status == 201 || res.status == 400,
        res.status == 400 <==> title_taken(old(db)@, payload@.title),
        res.status == 400 ==> final(db)@ == old(db)@,
        res.status == 201 ==> res.data is Some && 1 <= res.data->0.id == next_id(old(db)@)
            && !old(db)@.contains_key(res.data->0.id),
        titles_unique(old(db)@) ==> titles_unique(final(db)@),
{
    if db.has_title(&payload.title) {
        return ResponseType {
            message: duplicate_title_message(&payload.title),
            status: 400,
            data: None,
        };
    }
    proof {
        db.lemma_finite();
        lemma_next_id_fresh(db@);
    }
    let id = db.next_id();
    let shown = payload.to_res(id);
    db.insert(id, payload);
    ResponseType { message: created_message(), status: 201, data: Some(shown) }
}

/// Lists every stored book, in no particular order.
pub fn find_all(db: &BookStore) -> (res: ResponseType<Vec<BookRes>>)
    ensures
        lists_all(res@, db@),
{
    ResponseType { message: listed_message(), status: 200, data: db.list() }
}

/// Looks up the book stored under `id`.
pub fn find(id: u32, db: &BookStore) -> (res: ResponseType<Option<BookRes>>)
    ensures
        res@ == find_spec(db@, id),
{
    match db.get(id) {
        Some(book) => ResponseType {
            message: found_message(),
            status: 200,
            data: Some(book.to_res(id)),
        },
        None => ResponseType { message: not_found_message(), status: 404, data: None },
    }
}

/// Replaces the book stored under `id` by `payload`.
pub fn update(id: u32, payload: Book, db: &mut BookStore) -> (res: ResponseType<Option<BookRes>>)
    ensures
        (final(db)@, res@) == update_spec(old(db)@, id, payload@),
{
    if !db.contains(id) {
        return ResponseType { message: update_missing_message(), status: 400, data: None };
    }
    let shown = payload.to_res(id);
    db.insert(id, payload);
    ResponseType { message: updated_message(), status: 200, data: Some(shown) }
}

/// Deletes the book stored under `id`.
pub fn delete_book(id: u32, db: &mut BookStore) -> (res: ResponseType<Option<Book>>)
    ensures
        (final(db)@, res@) == delete_book_spec(old(db)@, id),
{
    if db.remove(id) {
        ResponseType { message: deleted_message(id), status: 202, data: None }
    } else {
        ResponseType { message: delete_missing_message(id), status: 404, data: None }
    }
}

/// The response for a request that the service could not serve.
pub fn internal_error_response() -> (res: ResponseType<Option<BookRes>>)
    ensures
        res@ == internal_error(),
{
    ResponseType { message: internal_error_message(), status: 500, data: None }
}

} // verus!
