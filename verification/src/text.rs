//! The wording of the responses: the fixed messages, and those that quote a
//! title or an identifier.

use vstd::prelude::*;

verus! {

/// The character that stands for a single decimal digit.
pub open spec fn digit(d: nat) -> char {
    if d == 0 {
        '0'
    } else if d == 1 {
        '1'
    } else if d == 2 {
        '2'
    } else if d == 3 {
        '3'
    } else if d == 4 {
        '4'
    } else if d == 5 {
        '5'
    } else if d == 6 {
        '6'
    } else if d == 7 {
        '7'
    } else if d == 8 {
        '8'
    } else {
        '9'
    }
}

/// A number in decimal notation, most significant digit first, without
/// leading zeros.
pub open spec fn decimal(n: nat) -> Seq<char>
    decreases n,
{
    if n < 10 {
        seq![digit(n)]
    } else {
        decimal(n / 10).push(digit(n % 10))
    }
}

/// The message of a successful creation.
pub open spec fn created_text() -> Seq<char> {
    "book created"@
}

/// The message that refuses a creation because `title` is already in use.
pub open spec fn duplicate_title_text(title: Seq<char>) -> Seq<char> {
    "Title "@ + title + " sudah pernah ditambahkan"@
}

/// The message that goes with the list of all books.
pub open spec fn listed_text() -> Seq<char> {
    "Berhasil mendapatkan semua buku"@
}

/// The message that goes with a book that was looked up and found.
pub open spec fn found_text() -> Seq<char> {
    "Berhasil mendapatkan data buku"@
}

/// The message of a lookup that found nothing.
pub open spec fn not_found_text() -> Seq<char> {
    "Buku tidak ditemukan"@
}

/// The message of a successful update.
pub open spec fn updated_text() -> Seq<char> {
    "Berhasil mengupdate data buku"@
}

/// The message that refuses an update because there is no such book.
pub open spec fn update_missing_text() -> Seq<char> {
    "Data buku tidak ada di system"@
}

/// The message that confirms the deletion of the book stored under `id`.
pub open spec fn deleted_text(id: u32) -> Seq<char> {
    "Buku dengan id "@ + decimal(id as nat) + " berhasil dihapus"@
}

/// The message that refuses a deletion because nothing is stored under `id`.
pub open spec fn delete_missing_text(id: u32) -> Seq<char> {
    "Buku dengan id "@ + decimal(id as nat) + " tidak ditemukan"@
}

/// The message of a request that could not be served for a reason of the
/// service's own.
pub open spec fn internal_error_text() -> Seq<char> {
    "Terjadi kesalahan pada server"@
}

/// The one-character text of a decimal digit.
fn digit_str(d: u32) -> (s: &'static str)
    requires
        d < 10,
    ensures
        s@ == seq![digit(d as nat)],
{
    proof {
        reveal_strlit("0");
        reveal_strlit("1");
        reveal_strlit("2");
        reveal_strlit("3");
        reveal_strlit("4");
        reveal_strlit("5");
        reveal_strlit("6");
        reveal_strlit("7");
        reveal_strlit("8");
        reveal_strlit("9");
    }
    let s = if d == 0 {
        "0"
    } else if d == 1 {
        "1"
    } else if d == 2 {
        "2"
    } else if d == 3 {
        "3"
    } else if d == 4 {
        "4"
    } else if d == 5 {
        "5"
    } else if d == 6 {
        "6"
    } else if d == 7 {
        "7"
    } else if d == 8 {
        "8"
    } else {
        "9"
    };
    assert(s@ =~= seq![digit(d as nat)]);
    s
}

/// Writes `n` in decimal notation.
pub fn decimal_string(n: u32) -> (s: String)
    ensures
        s@ == decimal(n as nat),
    decreases n,
{
    if n < 10 {
        String::from_str(digit_str(n))
    } else {
        let mut s = decimal_string(n / 10);
        s.append(digit_str(n % 10));
        assert(s@ =~= decimal(n as nat));
        s
    }
}

/// The message of a successful creation.
pub fn created_message() -> (s: String)
    ensures
        s@ == created_text(),
{
    String::from_str("book created")
}

/// The message that refuses a creation because `title` is already in use.
pub fn duplicate_title_message(title: &String) -> (s: String)
    ensures
        s@ == duplicate_title_text(title@),
{
    let mut s = String::from_str("Title ");
    s.append(title.as_str());
    s.append(" sudah pernah ditambahkan");
    s
}

/// The message that goes with the list of all books.
pub fn listed_message() -> (s: String)
    ensures
        s@ == listed_text(),
{
    String::from_str("Berhasil mendapatkan semua buku")
}

/// The message that goes with a book that was looked up and found.
pub fn found_message() -> (s: String)
    ensures
        s@ == found_text(),
{
    String::from_str("Berhasil mendapatkan data buku")
}

/// The message of a lookup that found nothing.
pub fn not_found_message() -> (s: String)
    ensures
        s@ == not_found_text(),
{
    String::from_str("Buku tidak ditemukan")
}

/// The message of a successful update.
pub fn updated_message() -> (s: String)
    ensures
        s@ == updated_text(),
{
    String::from_str("Berhasil mengupdate data buku")
}

/// The message that refuses an update because there is no such book.
pub fn update_missing_message() -> (s: String)
    ensures
        s@ == update_missing_text(),
{
    String::from_str("Data buku tidak ada di system")
}

/// The message that confirms the deletion of the book stored under `id`.
pub fn deleted_message(id: u32) -> (s: String)
    ensures
        s@ == deleted_text(id),
{
    let mut s = String::from_str("Buku dengan id ");
    let number = decimal_string(id);
    s.append(number.as_str());
    s.append(" berhasil dihapus");
    s
}

/// The message that refuses a deletion because nothing is stored under `id`.
pub fn delete_missing_message(id: u32) -> (s: String)
    ensures
        s@ == delete_missing_text(id),
{
    let mut s = String::from_str("Buku dengan id ");
    let number = decimal_string(id);
    s.append(number.as_str());
    s.append(" tidak ditemukan");
    s
}

/// The message of a request that could not be served for a reason of the
/// service's own.
pub fn internal_error_message() -> (s: String)
    ensures
        s@ == internal_error_text(),
{
    String::from_str("Terjadi kesalahan pada server")
}

} // verus!
