//! Books and the rules of the endpoints that manage them.
use crate::reply::{text_reply, Reply, Status};
use vstd::prelude::*;

verus! {

/// A book; `id` is its identifier in the record store, where it is stored.
#[derive(Debug)]
pub struct Book {
    pub title: String,
    pub author: String,
    pub id: Option<i64>,
}

/// `Book` as plain values, for contracts.
pub struct BookView {
    pub title: Seq<char>,
    pub author: Seq<char>,
    pub id: Option<int>,
}

impl View for Book {
    type V = BookView;

    open spec fn view(&self) -> BookView {
        BookView {
            title: self.title@,
            author: self.author@,
            id: match self.id {
                Some(id) => Some(id as int),
                None => None,
            },
        }
    }
}

/// Body of the request that creates a book.
#[derive(Debug)]
pub struct BookParams {
    pub title: String,
    pub author: String,
}

/// Query of the search for books: a book is found by its title or by its author.
#[derive(Debug)]
pub struct FindBookParams {
    pub title: Option<String>,
    pub author: Option<String>,
}

impl FindBookParams {
    /// Whether neither title nor author is given.
    pub open spec fn spec_is_empty(&self) -> bool {
        self.title is None && self.author is None
    }

    /// Whether `book` has the title or the author that is given.
    pub open spec fn spec_matches(&self, book: BookView) -> bool {
        ||| self.title.deep_view() == Some(book.title)
        ||| self.author.deep_view() == Some(book.author)
    }

    /// Whether neither title nor author is given.
    #[verifier::when_used_as_spec(spec_is_empty)]
    pub fn is_empty(&self) -> (r: bool)
        ensures
            r == self.spec_is_empty(),
    {
        self.title.is_none() && self.author.is_none()
    }

    /// Whether `book` has the title or the author that is given.
    pub fn matches(&self, book: &Book) -> (r: bool)
        ensures
            r == self.spec_matches(book@),
    {
        let by_title = match &self.title {
            Some(title) => *title == book.title,
            None => false,
        };
        let by_author = match &self.author {
            Some(author) => *author == book.author,
            None => false,
        };
        by_title || by_author
    }
}

/// The book that the request `params` makes, once the store has given it `id`.
pub fn create_book(params: BookParams, id: i64) -> (book: Book)
    ensures
        book@ == (BookView { title: params.title@, author: params.author@, id: Some(id as int) }),
{
    Book { title: params.title, author: params.author, id: Some(id) }
}

/// The answer to the request for one book: the book, or 404 where none was found.
pub fn get_book_by_id(found: Option<Book>) -> (reply: Reply<Book>)
    ensures
        match found {
            Some(book) => reply.is_json(Status::Success, book),
            None => reply.is_text(Status::NotFound, "Book not found"@),
        },
{
    match found {
        Some(book) => Reply::Json { status: Status::Success, value: book },
        None => text_reply(Status::NotFound, "Book not found"),
    }
}

/// What a search for books answers before the store is asked: 400 where neither title
/// nor author is given.
pub fn find_books(params: &FindBookParams) -> (r: Result<(), Reply<Vec<Book>>>)
    ensures
        match r {
            Ok(_) => !params.spec_is_empty(),
            Err(reply) => params.spec_is_empty() && reply.is_text(
                Status::BadRequest,
                "No search parameters provided"@,
            ),
        },
{
    if params.is_empty() {
        Err(text_reply(Status::BadRequest, "No search parameters provided"))
    } else {
        Ok(())
    }
}

/// What a search for books answers once the store was asked: the books found, 404 where
/// there are none, 500 where the store failed (`found` is `None`).
pub fn find_books_reply(found: Option<Vec<Book>>) -> (reply: Reply<Vec<Book>>)
    ensures
        match found {
            None => reply.is_text(Status::InternalServerError, "Error fetching books"@),
            Some(books) => if books.len() == 0 {
                reply.is_text(Status::NotFound, "No books found"@)
            } else {
                reply.is_json(Status::Success, books)
            },
        },
{
    match found {
        None => text_reply(Status::InternalServerError, "Error fetching books"),
        Some(books) => if books.len() == 0 {
            text_reply(Status::NotFound, "No books found")
        } else {
            Reply::Json { status: Status::Success, value: books }
        },
    }
}

} // verus!
