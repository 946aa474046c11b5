//! The lookup of a book at the Open Library catalogue: what is asked and how the answer
//! is read.
use crate::books::{Book, BookView};
use crate::reply::{text_reply, Reply, Status};
use vstd::prelude::*;
use vstd::string::*;

verus! {

/// Configuration of the lookup: the URL under which the catalogue answers.
#[derive(Debug)]
pub struct Settings {
    pub base_url: String,
}

/// Query of the lookup endpoint.
#[derive(Debug)]
pub struct Params {
    pub title: String,
}

/// A book as the catalogue describes it.
#[derive(Debug)]
pub struct OpenLibBook {
    pub title: String,
    pub author_name: Option<Vec<String>>,
    pub key: String,
}

/// The catalogue's answer to a search.
#[derive(Debug)]
pub struct SearchResponse {
    pub docs: Vec<OpenLibBook>,
}

/// `text` with `+` in place of every space.
pub open spec fn escaped(text: Seq<char>) -> Seq<char> {
    Seq::new(text.len(), |i: int| if text[i] == ' ' { '+' } else { text[i] })
}

/// The address that searches the catalogue under `base_url` for `title`.
pub open spec fn search_address(base_url: Seq<char>, title: Seq<char>) -> Seq<char> {
    base_url + "/search.json?q="@ + escaped(title) + "&fields=title,author_name,key"@
}

/// The names, with `, ` between them.
pub open spec fn joined(names: Seq<Seq<char>>) -> Seq<char>
    decreases names.len(),
{
    if names.len() == 0 {
        Seq::empty()
    } else if names.len() == 1 {
        names[0]
    } else {
        joined(names.drop_last()) + ", "@ + names.last()
    }
}

/// The authors of a book in one line: the names with `, ` between them, or `Unknown`
/// where the catalogue names none.
pub open spec fn author_line(names: Option<Seq<Seq<char>>>) -> Seq<char> {
    match names {
        Some(names) => joined(names),
        None => "Unknown"@,
    }
}

/// `title` with `+` in place of every space.
pub fn escape_title(title: &str) -> (r: String)
    ensures
        r@ == escaped(title@),
{
    let chars = crate::text::chars_of(title);
    let mut r = String::new();
    let mut i: usize = 0;
    while i < chars.len()
        invariant
            i <= chars.len(),
            chars@ == title@,
            r@ == escaped(title@).take(i as int),
        decreases chars.len() - i,
    {
        if chars[i] == ' ' {
            proof {
                reveal_strlit("+");
            }
            r.append("+");
        } else {
            r.append(title.substring_char(i, i + 1));
        }
        assert(r@ =~= escaped(title@).take(i + 1));
        i = i + 1;
    }
    assert(escaped(title@).take(chars.len() as int) =~= escaped(title@));
    r
}

/// The address that searches the catalogue for `title`.
pub fn search_url(settings: &Settings, title: &str) -> (url: String)
    ensures
        url@ == search_address(settings.base_url@, title@),
{
    let mut url = settings.base_url.clone();
    url.append("/search.json?q=");
    url.append(escape_title(title).as_str());
    url.append("&fields=title,author_name,key");
    url
}

/// How the catalogue's HTTP status is read: anything but 200 is a failure of the lookup,
/// not a book that was not found.
pub fn check_status(status: u16) -> (r: Result<(), String>)
    ensures
        match r {
            Ok(_) => status == 200,
            Err(text) => status != 200 && text@ == "Failed to fetch book data"@,
        },
{
    if status == 200 {
        Ok(())
    } else {
        Err(String::from_str("Failed to fetch book data"))
    }
}

impl SearchResponse {
    /// The book that the search found: the first that the catalogue lists, if it lists
    /// any.
    pub fn first(self) -> (book: Option<OpenLibBook>)
        ensures
            match book {
                Some(book) => self.docs.len() > 0 && book == self.docs[0],
                None => self.docs.len() == 0,
            },
    {
        let mut docs = self.docs;
        if docs.len() == 0 {
            None
        } else {
            Some(docs.swap_remove(0))
        }
    }
}

impl OpenLibBook {
    /// The authors in one line.
    pub fn authors(&self) -> (line: String)
        ensures
            line@ == author_line(self.author_name.deep_view()),
    {
        match &self.author_name {
            None => String::from_str("Unknown"),
            Some(names) => {
                let mut line = String::new();
                let mut i: usize = 0;
                while i < names.len()
                    invariant
                        i <= names.len(),
                        line@ == joined(names.deep_view().take(i as int)),
                    decreases names.len() - i,
                {
                    let ghost before = names.deep_view().take(i as int);
                    let ghost after = names.deep_view().take(i + 1);
                    assert(after.drop_last() =~= before);
                    assert(after.last() == names[i as int]@);
                    if i > 0 {
                        line.append(", ");
                    }
                    line.append(names[i].as_str());
                    assert(line@ =~= joined(after));
                    i = i + 1;
                }
                assert(names.deep_view().take(names.len() as int) =~= names.deep_view());
                line
            },
        }
    }
}

impl vstd::std_specs::convert::FromSpecImpl<OpenLibBook> for Book {
    /// The conversion is stated over views, in the contract of `from`.
    open spec fn obeys_from_spec() -> bool {
        false
    }

    open spec fn from_spec(value: OpenLibBook) -> Book {
        arbitrary()
    }
}

impl From<OpenLibBook> for Book {
    /// The book that the catalogue describes, as this service holds books: not stored yet,
    /// with its authors in one line.
    fn from(value: OpenLibBook) -> (book: Book)
        ensures
            book@ == (BookView {
                title: value.title@,
                author: author_line(value.author_name.deep_view()),
                id: None,
            }),
    {
        let author = value.authors();
        Book { title: value.title, author, id: None }
    }
}

/// The answer of the lookup endpoint: the book, 404 where the catalogue lists none, 500
/// where the lookup failed (`found` is `Err`).
pub fn search_book(found: Result<Option<OpenLibBook>, String>) -> (reply: Reply<OpenLibBook>)
    ensures
        match found {
            Ok(Some(book)) => reply.is_json(Status::Success, book),
            Ok(None) => reply.is_text(Status::NotFound, "Book not found"@),
            Err(_) => reply.is_text(Status::InternalServerError, "Error searching for book"@),
        },
{
    match found {
        Ok(Some(book)) => Reply::Json { status: Status::Success, value: book },
        Ok(None) => text_reply(Status::NotFound, "Book not found"),
        Err(_) => text_reply(Status::InternalServerError, "Error searching for book"),
    }
}

} // verus!
