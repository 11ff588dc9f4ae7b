//! The records that the service stores and the envelopes it answers with,
//! each with the mathematical value that contracts speak of.

use vstd::prelude::*;

verus! {

/// A stored book. Its identifier is not part of it: it is the key under
/// which the catalogue holds it.
#[derive(Debug, PartialEq, Eq)]
pub struct Book {
    pub title: String,
    pub author: String,
}

/// What a `Book` is in specifications: its two texts as sequences of
/// characters.
pub struct BookSpec {
    pub title: Seq<char>,
    pub author: Seq<char>,
}

/// A book joined with the identifier it is stored under, as responses show it.
#[derive(Debug, PartialEq, Eq)]
pub struct BookRes {
    pub id: u32,
    pub title: String,
    pub author: String,
}

/// What a `BookRes` is in specifications.
pub struct BookResSpec {
    pub id: u32,
    pub title: Seq<char>,
    pub author: Seq<char>,
}

/// The envelope of every response: a message for the reader, a status that
/// mirrors the HTTP status code, and a payload whose shape depends on the
/// operation.
#[derive(Debug, PartialEq, Eq)]
pub struct ResponseType<T> {
    pub message: String,
    pub status: u16,
    pub data: T,
}

/// What a `ResponseType` is in specifications; `D` is the deep view of its
/// payload.
pub struct ResponseSpec<D> {
    pub message: Seq<char>,
    pub status: u16,
    pub data: D,
}

impl BookSpec {
    /// This book as a response shows it when it is stored under `id`.
    pub open spec fn with_id(self, id: u32) -> BookResSpec {
        BookResSpec { id, title: self.title, author: self.author }
    }
}

impl BookResSpec {
    /// The book that this projection shows, without its identifier.
    pub open spec fn book(self) -> BookSpec {
        BookSpec { title: self.title, author: self.author }
    }
}

impl View for Book {
    type V = BookSpec;

    open spec fn view(&self) -> BookSpec {
        BookSpec { title: self.title@, author: self.author@ }
    }
}

impl DeepView for Book {
    type V = BookSpec;

    open spec fn deep_view(&self) -> BookSpec {
        self@
    }
}

impl View for BookRes {
    type V = BookResSpec;

    open spec fn view(&self) -> BookResSpec {
        BookResSpec { id: self.id, title: self.title@, author: self.author@ }
    }
}

impl DeepView for BookRes {
    type V = BookResSpec;

    open spec fn deep_view(&self) -> BookResSpec {
        self@
    }
}

impl<T: DeepView> View for ResponseType<T> {
    type V = ResponseSpec<T::V>;

    open spec fn view(&self) -> ResponseSpec<T::V> {
        ResponseSpec {
            message: self.message@,
            status: self.status,
            data: self.data.deep_view(),
        }
    }
}

impl<T: DeepView> DeepView for ResponseType<T> {
    type V = ResponseSpec<T::V>;

    open spec fn deep_view(&self) -> ResponseSpec<T::V> {
        self@
    }
}

impl Clone for Book {
    fn clone(&self) -> (copy: Book)
        ensures
            copy@ == self@,
    {
        Book { title: self.title.clone(), author: self.author.clone() }
    }
}

impl Clone for BookRes {
    fn clone(&self) -> (copy: BookRes)
        ensures
            copy@ == self@,
    {
        BookRes { id: self.id, title: self.title.clone(), author: self.author.clone() }
    }
}

impl Book {
    /// The projection of this book under the identifier `id`.
    pub fn to_res(&self, id: u32) -> (res: BookRes)
        ensures
            res@ == self@.with_id(id),
    {
        BookRes { id, title: self.title.clone(), author: self.author.clone() }
    }
}

} // verus!
