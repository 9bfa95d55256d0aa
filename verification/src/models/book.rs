//! Books stored in the document database.
use vstd::prelude::*;
use super::validation::{
    check_length, check_opt_length, check_range, finish, length_errors, opt_length_errors,
    opt_range_errors, opt_view, outcome, range_errors, Field, FieldError, Rule, ValidationErrors,
};

verus! {

/// A stored book; `id` holds the twelve bytes of the document's object id.
pub struct Book {
    pub id: Option<[u8; 12]>,
    pub title: Option<String>,
    pub pages: Option<u16>,
}

/// The body of a request that creates a book.
pub struct NewBook {
    pub title: String,
    pub pages: u16,
}

/// The rules a new book breaks: a title of at least 2 characters and
/// between 2 and 2000 pages.
pub open spec fn new_book_errors(b: NewBook) -> Seq<FieldError> {
    length_errors(Field::Title, b.title@, 2) + range_errors(
        Field::Pages,
        b.pages as int,
        Some(2),
        Some(2000),
    )
}

impl NewBook {
    pub fn validate(&self) -> (res: Result<(), ValidationErrors>)
        ensures
            outcome(new_book_errors(*self), res),
    {
        let mut errors: Vec<FieldError> = Vec::new();
        check_length(&mut errors, Field::Title, self.title.as_str(), 2);
        check_range(&mut errors, Field::Pages, self.pages as i64, Some(2), Some(2000));
        assert(errors@ =~= new_book_errors(*self));
        finish(errors)
    }
}

/// The body of a request that updates a book; absent fields are left alone.
pub struct UpdateBook {
    pub title: Option<String>,
    pub pages: Option<u16>,
}

/// The view of an optional page count.
pub open spec fn opt_pages(p: Option<u16>) -> Option<int> {
    match p {
        Some(v) => Some(v as int),
        None => None,
    }
}

/// The rules an update breaks: the same as for a new book, on the fields present.
pub open spec fn update_book_errors(b: UpdateBook) -> Seq<FieldError> {
    opt_length_errors(Field::Title, opt_view(b.title), 2) + opt_range_errors(
        Field::Pages,
        opt_pages(b.pages),
        Some(2),
        Some(2000),
    )
}

impl UpdateBook {
    pub fn validate(&self) -> (res: Result<(), ValidationErrors>)
        ensures
            outcome(update_book_errors(*self), res),
    {
        let mut errors: Vec<FieldError> = Vec::new();
        check_opt_length(&mut errors, Field::Title, &self.title, 2);
        match self.pages {
            Some(p) => check_range(&mut errors, Field::Pages, p as i64, Some(2), Some(2000)),
            None => {},
        }
        assert(errors@ =~= update_book_errors(*self));
        finish(errors)
    }
}

/// The title rule of a book, as reported: fewer than 2 characters.
pub open spec fn short_title(title: Seq<char>) -> Seq<FieldError> {
    if title.len() < 2 {
        seq![FieldError { field: Field::Title, rule: Rule::Length { min: 2 } }]
    } else {
        seq![]
    }
}

/// The page rule of a book, as reported: a count outside 2..=2000, with both
/// bounds named.
pub open spec fn pages_out_of_range(pages: u16) -> Seq<FieldError> {
    if pages < 2 || pages > 2000 {
        seq![FieldError { field: Field::Pages, rule: Rule::Range { min: Some(2), max: Some(2000) } }]
    } else {
        seq![]
    }
}

/// A new book is refused exactly when its title has fewer than 2 characters
/// or its page count lies outside 2..=2000; the title is reported first, and
/// the page rule names both bounds.
pub proof fn lemma_new_book_rules(b: NewBook)
    ensures
        new_book_errors(b) == short_title(b.title@) + pages_out_of_range(b.pages),
{
}

/// A book update is checked as a new book is, on the fields it carries: with
/// both fields present it breaks the rules a new book with them breaks, and
/// a missing field breaks none.
pub proof fn lemma_update_book_rules(b: UpdateBook)
    ensures
        b.title matches Some(t) ==> (b.pages matches Some(p) ==> update_book_errors(b)
            == new_book_errors(NewBook { title: t, pages: p })),
        update_book_errors(b) == (match b.title {
            Some(t) => short_title(t@),
            None => seq![],
        }) + (match b.pages {
            Some(p) => pages_out_of_range(p),
            None => seq![],
        }),
{
}

/// Query parameters of a book listing.
pub struct BookListQuery {
    pub title: Option<String>,
    pub limit: Option<String>,
    pub total: Option<String>,
    pub skip: Option<String>,
    pub projection: Option<String>,
}

/// Query parameters of a single book.
pub struct BookItemQuery {
    pub completed: Option<bool>,
    pub text: Option<String>,
    pub projection: Option<String>,
}

} // verus!
