//! Books stored in the relational database and their request bodies.
use vstd::prelude::*;
use super::validation::{
    check_length, check_opt_length, check_range, finish, length_errors, opt_length_errors,
    opt_range_errors, opt_view, outcome, range_errors, Field, FieldError, Rule, ValidationErrors,
};

verus! {

/// A stored book; `id` holds the 128 bits of its UUID.
pub struct Book {
    pub id: u128,
    pub title: Option<String>,
    pub author: Option<String>,
    pub description: Option<String>,
    pub is_published: Option<bool>,
    pub copies_sold: Option<i32>,
}

/// The body of a request that creates a book; `is_published` and
/// `copies_sold` default to false and 0.
pub struct CreateBook {
    pub title: String,
    pub author: String,
    pub description: String,
    pub is_published: bool,
    pub copies_sold: i64,
}

/// The rules a new book breaks: title, author and description of at least 2
/// characters each, and no negative sales.
pub open spec fn create_book_errors(b: CreateBook) -> Seq<FieldError> {
    length_errors(Field::Title, b.title@, 2) + length_errors(Field::Author, b.author@, 2)
        + length_errors(Field::Description, b.description@, 2) + range_errors(
        Field::CopiesSold,
        b.copies_sold as int,
        Some(0),
        None,
    )
}

impl CreateBook {
    pub fn validate(&self) -> (res: Result<(), ValidationErrors>)
        ensures
            outcome(create_book_errors(*self), res),
    {
        let mut errors: Vec<FieldError> = Vec::new();
        check_length(&mut errors, Field::Title, self.title.as_str(), 2);
        check_length(&mut errors, Field::Author, self.author.as_str(), 2);
        check_length(&mut errors, Field::Description, self.description.as_str(), 2);
        check_range(&mut errors, Field::CopiesSold, self.copies_sold, Some(0), None);
        assert(errors@ =~= create_book_errors(*self));
        finish(errors)
    }
}

/// The body of a request that updates a book; absent fields are left alone.
pub struct UpdateBook {
    pub title: Option<String>,
    pub author: Option<String>,
    pub description: Option<String>,
    pub is_published: Option<bool>,
    pub copies_sold: Option<i64>,
}

/// The rules an update breaks: texts present with fewer than 2 characters;
/// the sales figure is not checked.
pub open spec fn update_book_errors(b: UpdateBook) -> Seq<FieldError> {
    opt_length_errors(Field::Title, opt_view(b.title), 2) + opt_length_errors(
        Field::Author,
        opt_view(b.author),
        2,
    ) + opt_length_errors(Field::Description, opt_view(b.description), 2)
}

impl UpdateBook {
    pub fn validate(&self) -> (res: Result<(), ValidationErrors>)
        ensures
            outcome(update_book_errors(*self), res),
    {
        let mut errors: Vec<FieldError> = Vec::new();
        check_opt_length(&mut errors, Field::Title, &self.title, 2);
        check_opt_length(&mut errors, Field::Author, &self.author, 2);
        check_opt_length(&mut errors, Field::Description, &self.description, 2);
        assert(errors@ =~= update_book_errors(*self));
        finish(errors)
    }
}

/// A text rule of a relational book, as reported: fewer than 2 characters.
pub open spec fn too_short(field: Field, text: Seq<char>) -> Seq<FieldError> {
    if text.len() < 2 {
        seq![FieldError { field, rule: Rule::Length { min: 2 } }]
    } else {
        seq![]
    }
}

/// A new relational book is refused exactly when its title, author or
/// description has fewer than 2 characters, or its sales are negative (a
/// rule with a lower bound of 0 and no upper bound); reported in that order.
pub proof fn lemma_create_book_rules(b: CreateBook)
    ensures
        create_book_errors(b) == too_short(Field::Title, b.title@) + too_short(
            Field::Author,
            b.author@,
        ) + too_short(Field::Description, b.description@) + (if b.copies_sold < 0 {
            seq![FieldError { field: Field::CopiesSold, rule: Rule::Range { min: Some(0), max: None } }]
        } else {
            seq![]
        }),
{
}

/// An update of a relational book checks the texts it carries as a new book
/// does, and not its sales.
pub proof fn lemma_update_book_rules(b: UpdateBook)
    ensures
        update_book_errors(b) == (match b.title {
            Some(t) => too_short(Field::Title, t@),
            None => seq![],
        }) + (match b.author {
            Some(t) => too_short(Field::Author, t@),
            None => seq![],
        }) + (match b.description {
            Some(t) => too_short(Field::Description, t@),
            None => seq![],
        }),
{
}

} // verus!
