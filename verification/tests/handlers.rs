use book_store::handlers::{
    add_book, delete_book, find, find_all, internal_error_response, update,
};
use book_store::models::{Book, BookRes, ResponseType};
use book_store::store::BookStore;

fn book(title: &str, author: &str) -> Book {
    Book { title: title.to_string(), author: author.to_string() }
}

fn shown(id: u32, title: &str, author: &str) -> BookRes {
    BookRes { id, title: title.to_string(), author: author.to_string() }
}

#[test]
fn create_then_duplicate_then_get_then_delete() {
    let mut db = BookStore::new();

    let created = add_book(book("Dune", "Herbert"), &mut db);
    assert_eq!(created.status, 201);
    assert_eq!(created.data.as_ref().map(|b| b.id), Some(1));
    assert_eq!(created.data, Some(shown(1, "Dune", "Herbert")));

    let refused = add_book(book("Dune", "X"), &mut db);
    assert_eq!(refused.status, 400);
    assert_eq!(refused.message, "Title Dune sudah pernah ditambahkan");
    assert_eq!(refused.data, None);
    assert_eq!(db.len(), 1);

    let got = find(1, &db);
    assert_eq!(got.status, 200);
    assert_eq!(got.data, Some(shown(1, "Dune", "Herbert")));

    let gone = delete_book(1, &mut db);
    assert_eq!(gone.status, 202);

    let missing = find(1, &db);
    assert_eq!(missing.status, 404);
    assert_eq!(missing.data, None);
}

#[test]
fn create_answers_with_the_whole_envelope() {
    let mut db = BookStore::new();
    let res = add_book(book("Emma", "Austen"), &mut db);
    assert_eq!(
        res,
        ResponseType {
            message: "book created".to_string(),
            status: 201,
            data: Some(shown(1, "Emma", "Austen")),
        }
    );
}

#[test]
fn create_numbers_books_from_one() {
    let mut db = BookStore::new();
    let titles = ["A", "B", "C", "D"];
    for (i, title) in titles.iter().enumerate() {
        let res = add_book(book(title, "someone"), &mut db);
        assert_eq!(res.status, 201);
        assert_eq!(res.data.map(|b| b.id), Some(i as u32 + 1));
    }
    assert_eq!(db.len(), 4);
}

#[test]
fn created_id_is_positive_and_was_free() {
    let mut db = BookStore::new();
    db.insert(0, book("Zero", "nobody"));
    db.insert(41, book("Forty-one", "nobody"));
    assert!(!db.contains(42));
    let res = add_book(book("Next", "somebody"), &mut db);
    let id = res.data.as_ref().map(|b| b.id);
    assert_eq!(id, Some(42));
    assert_eq!(find(42, &db).data, Some(shown(42, "Next", "somebody")));
    assert_eq!(find(41, &db).data, Some(shown(41, "Forty-one", "nobody")));
    assert_eq!(db.len(), 3);
}

#[test]
fn duplicate_title_never_changes_the_catalogue() {
    let mut db = BookStore::new();
    add_book(book("Dune", "Herbert"), &mut db);
    add_book(book("Emma", "Austen"), &mut db);
    for author in ["Herbert", "X", ""] {
        let res = add_book(book("Dune", author), &mut db);
        assert_eq!(
            res,
            ResponseType {
                message: "Title Dune sudah pernah ditambahkan".to_string(),
                status: 400,
                data: None,
            }
        );
        assert_eq!(db.len(), 2);
        assert_eq!(find(1, &db).data, Some(shown(1, "Dune", "Herbert")));
        assert_eq!(find(2, &db).data, Some(shown(2, "Emma", "Austen")));
        assert_eq!(find(3, &db).status, 404);
    }
}

#[test]
fn titles_are_compared_exactly() {
    let mut db = BookStore::new();
    assert_eq!(add_book(book("Dune", "Herbert"), &mut db).status, 201);
    assert_eq!(add_book(book("dune", "Herbert"), &mut db).status, 201);
    assert_eq!(add_book(book("Dune ", "Herbert"), &mut db).status, 201);
    assert_eq!(add_book(book("", "Herbert"), &mut db).status, 201);
    assert_eq!(add_book(book("", "Other"), &mut db).status, 400);
    assert_eq!(db.len(), 4);
}

#[test]
fn creations_alone_keep_titles_apart() {
    let mut db = BookStore::new();
    for title in ["A", "B", "A", "C", "B", "A", "D"] {
        add_book(book(title, "someone"), &mut db);
    }
    let listing = find_all(&db).data;
    let mut titles: Vec<String> = listing.iter().map(|b| b.title.clone()).collect();
    titles.sort();
    assert_eq!(titles, vec!["A", "B", "C", "D"]);
}

#[test]
fn round_trip_of_one_book() {
    let mut db = BookStore::new();
    let id = add_book(book("T", "A"), &mut db).data.map(|b| b.id);
    assert_eq!(id, Some(1));
    assert_eq!(find(1, &db).data, Some(shown(1, "T", "A")));

    let res = update(1, book("T2", "A2"), &mut db);
    assert_eq!(
        res,
        ResponseType {
            message: "Berhasil mengupdate data buku".to_string(),
            status: 200,
            data: Some(shown(1, "T2", "A2")),
        }
    );
    assert_eq!(find(1, &db).data, Some(shown(1, "T2", "A2")));

    let res = delete_book(1, &mut db);
    assert_eq!(
        res,
        ResponseType {
            message: "Buku dengan id 1 berhasil dihapus".to_string(),
            status: 202,
            data: None,
        }
    );
    assert_eq!(
        find(1, &db),
        ResponseType { message: "Buku tidak ditemukan".to_string(), status: 404, data: None }
    );
}

#[test]
fn find_shows_the_stored_book() {
    let mut db = BookStore::new();
    db.insert(7, book("Seven", "Author"));
    assert_eq!(
        find(7, &db),
        ResponseType {
            message: "Berhasil mendapatkan data buku".to_string(),
            status: 200,
            data: Some(shown(7, "Seven", "Author")),
        }
    );
    assert_eq!(find(8, &db).status, 404);
    assert_eq!(find(0, &db).status, 404);
}

#[test]
fn list_of_an_empty_catalogue_is_a_success() {
    let db = BookStore::new();
    assert_eq!(
        find_all(&db),
        ResponseType {
            message: "Berhasil mendapatkan semua buku".to_string(),
            status: 200,
            data: vec![],
        }
    );
}

#[test]
fn list_holds_each_created_book_once() {
    let mut db = BookStore::new();
    let submitted = [("Dune", "Herbert"), ("Emma", "Austen"), ("Ulysses", "Joyce")];
    for (title, author) in submitted {
        assert_eq!(add_book(book(title, author), &mut db).status, 201);
    }
    let res = find_all(&db);
    assert_eq!(res.status, 200);
    let mut listing = res.data;
    assert_eq!(listing.len(), 3);
    listing.sort_by_key(|b| b.id);
    assert_eq!(
        listing,
        vec![
            shown(1, "Dune", "Herbert"),
            shown(2, "Emma", "Austen"),
            shown(3, "Ulysses", "Joyce"),
        ]
    );
}

#[test]
fn update_of_a_missing_book_is_refused() {
    let mut db = BookStore::new();
    add_book(book("Dune", "Herbert"), &mut db);
    let res = update(2, book("Emma", "Austen"), &mut db);
    assert_eq!(
        res,
        ResponseType {
            message: "Data buku tidak ada di system".to_string(),
            status: 400,
            data: None,
        }
    );
    assert_eq!(db.len(), 1);
    assert_eq!(find(1, &db).data, Some(shown(1, "Dune", "Herbert")));
    assert_eq!(find(2, &db).status, 404);
}

#[test]
fn update_does_not_compare_titles() {
    let mut db = BookStore::new();
    add_book(book("Dune", "Herbert"), &mut db);
    add_book(book("Emma", "Austen"), &mut db);
    let res = update(2, book("Dune", "Someone else"), &mut db);
    assert_eq!(res.status, 200);
    assert_eq!(find(1, &db).data, Some(shown(1, "Dune", "Herbert")));
    assert_eq!(find(2, &db).data, Some(shown(2, "Dune", "Someone else")));
}

#[test]
fn update_replaces_both_fields() {
    let mut db = BookStore::new();
    add_book(book("Dune", "Herbert"), &mut db);
    update(1, book("Dune", ""), &mut db);
    assert_eq!(find(1, &db).data, Some(shown(1, "Dune", "")));
}

#[test]
fn delete_of_a_missing_book_changes_nothing() {
    let mut db = BookStore::new();
    add_book(book("Dune", "Herbert"), &mut db);
    add_book(book("Emma", "Austen"), &mut db);
    let res = delete_book(3, &mut db);
    assert_eq!(
        res,
        ResponseType {
            message: "Buku dengan id 3 tidak ditemukan".to_string(),
            status: 404,
            data: None,
        }
    );
    assert_eq!(db.len(), 2);
    let again = delete_book(3, &mut db);
    assert_eq!(again.status, 404);
    assert_eq!(db.len(), 2);
}

#[test]
fn delete_twice_is_refused_the_second_time() {
    let mut db = BookStore::new();
    add_book(book("Dune", "Herbert"), &mut db);
    assert_eq!(delete_book(1, &mut db).status, 202);
    assert_eq!(delete_book(1, &mut db).status, 404);
    assert_eq!(db.len(), 0);
}

#[test]
fn delete_messages_quote_the_identifier() {
    let mut db = BookStore::new();
    db.insert(120, book("Dune", "Herbert"));
    assert_eq!(delete_book(120, &mut db).message, "Buku dengan id 120 berhasil dihapus");
    assert_eq!(delete_book(120, &mut db).message, "Buku dengan id 120 tidak ditemukan");
    assert_eq!(delete_book(0, &mut db).message, "Buku dengan id 0 tidak ditemukan");
    assert_eq!(
        delete_book(4294967295, &mut db).message,
        "Buku dengan id 4294967295 tidak ditemukan"
    );
}

#[test]
fn identifier_of_the_last_book_is_issued_again() {
    let mut db = BookStore::new();
    add_book(book("A", "a"), &mut db);
    add_book(book("B", "b"), &mut db);
    assert_eq!(delete_book(2, &mut db).status, 202);
    let res = add_book(book("C", "c"), &mut db);
    assert_eq!(res.data, Some(shown(2, "C", "c")));
}

#[test]
fn identifier_below_the_largest_is_not_issued_again() {
    let mut db = BookStore::new();
    add_book(book("A", "a"), &mut db);
    add_book(book("B", "b"), &mut db);
    assert_eq!(delete_book(1, &mut db).status, 202);
    let res = add_book(book("C", "c"), &mut db);
    assert_eq!(res.data, Some(shown(3, "C", "c")));
}

#[test]
fn deleted_title_can_be_created_again() {
    let mut db = BookStore::new();
    add_book(book("Dune", "Herbert"), &mut db);
    delete_book(1, &mut db);
    let res = add_book(book("Dune", "Herbert"), &mut db);
    assert_eq!(res.status, 201);
    assert_eq!(res.data, Some(shown(1, "Dune", "Herbert")));
}

#[test]
fn internal_error_is_status_500() {
    assert_eq!(
        internal_error_response(),
        ResponseType {
            message: "Terjadi kesalahan pada server".to_string(),
            status: 500,
            data: None,
        }
    );
}

#[test]
fn create_up_to_the_last_identifier() {
    let mut db = BookStore::new();
    db.insert(4294967294, book("Last but one", "x"));
    let res = add_book(book("Last", "y"), &mut db);
    assert_eq!(res.status, 201);
    assert_eq!(res.data, Some(shown(4294967295, "Last", "y")));
    assert!(db.contains(4294967295));
}

#[test]
fn duplicate_title_is_refused_in_a_full_catalogue() {
    let mut db = BookStore::new();
    db.insert(4294967295, book("Last", "y"));
    let res = add_book(book("Last", "z"), &mut db);
    assert_eq!(res.status, 400);
    assert_eq!(res.message, "Title Last sudah pernah ditambahkan");
    assert_eq!(db.len(), 1);
    assert_eq!(find(4294967295, &db).data, Some(shown(4294967295, "Last", "y")));
}
