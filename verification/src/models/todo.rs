//! Todos stored in the document database.
use vstd::prelude::*;
use super::validation::{
    check_length, check_opt_length, finish, length_errors, opt_length_errors,
    opt_view, outcome, Field, FieldError, Rule, ValidationErrors,
};

verus! {

/// A stored todo; `id` holds the twelve bytes of the document's object id.
pub struct Todo {
    pub id: Option<[u8; 12]>,
    pub text: Option<String>,
    pub completed: Option<bool>,
}

impl Default for Todo {
    fn default() -> (res: Self)
        ensures
            res.id is None,
            res.text is None,
            res.completed is None,
    {
        Todo { id: None, text: None, completed: None }
    }
}

/// The body of a request that creates a todo; `completed` defaults to false.
pub struct NewTodo {
    pub text: String,
    pub completed: bool,
}

/// The rules a new todo breaks: a text of at least 2 characters.
pub open spec fn new_todo_errors(t: NewTodo) -> Seq<FieldError> {
    length_errors(Field::Text, t.text@, 2)
}

impl NewTodo {
    pub fn validate(&self) -> (res: Result<(), ValidationErrors>)
        ensures
            outcome(new_todo_errors(*self), res),
    {
        let mut errors: Vec<FieldError> = Vec::new();
        check_length(&mut errors, Field::Text, self.text.as_str(), 2);
        assert(errors@ =~= new_todo_errors(*self));
        finish(errors)
    }
}

/// The body of a request that updates a todo; absent fields are left alone.
pub struct Update {
    pub text: Option<String>,
    pub completed: Option<bool>,
}

/// The rules an update breaks: a present text of fewer than 2 characters.
pub open spec fn update_todo_errors(t: Update) -> Seq<FieldError> {
    opt_length_errors(Field::Text, opt_view(t.text), 2)
}

impl Update {
    pub fn validate(&self) -> (res: Result<(), ValidationErrors>)
        ensures
            outcome(update_todo_errors(*self), res),
    {
        let mut errors: Vec<FieldError> = Vec::new();
        check_opt_length(&mut errors, Field::Text, &self.text, 2);
        assert(errors@ =~= update_todo_errors(*self));
        finish(errors)
    }
}

/// Query parameters of a todo listing.
pub struct TodoListQuery {
    pub completed: Option<bool>,
    pub text: Option<String>,
    pub limit: Option<String>,
    pub total: Option<String>,
    pub skip: Option<String>,
    pub projection: Option<String>,
}

impl TodoListQuery {
    /// The requested page size, as given.
    pub fn get_limit(&self) -> (res: Option<String>)
        ensures
            opt_view(res) == opt_view(self.limit),
    {
        match &self.limit {
            Some(l) => Some(l.clone()),
            None => None,
        }
    }

    /// Drops the page size, leaving the other parameters.
    pub fn clear_limit(&mut self)
        ensures
            final(self).limit is None,
            final(self).completed == old(self).completed,
            final(self).text == old(self).text,
            final(self).total == old(self).total,
            final(self).skip == old(self).skip,
            final(self).projection == old(self).projection,
    {
        self.limit = None;
    }

    /// The requested projection, as given.
    pub fn get_projection(&self) -> (res: Option<String>)
        ensures
            opt_view(res) == opt_view(self.projection),
    {
        match &self.projection {
            Some(p) => Some(p.clone()),
            None => None,
        }
    }

    /// Drops the projection, leaving the other parameters.
    pub fn clear_projection(&mut self)
        ensures
            final(self).projection is None,
            final(self).completed == old(self).completed,
            final(self).text == old(self).text,
            final(self).limit == old(self).limit,
            final(self).total == old(self).total,
            final(self).skip == old(self).skip,
    {
        self.projection = None;
    }
}

/// Query parameters of a single todo.
pub struct TodoItemQuery {
    pub completed: Option<bool>,
    pub text: Option<String>,
    pub projection: Option<String>,
}

/// A new todo is refused exactly when its text has fewer than 2 characters.
pub proof fn lemma_new_todo_rules(t: NewTodo)
    ensures
        new_todo_errors(t) == (if t.text@.len() < 2 {
            seq![FieldError { field: Field::Text, rule: Rule::Length { min: 2 } }]
        } else {
            seq![]
        }),
{
}

/// A todo update is checked as a new todo is when it carries a text, and
/// passes when it carries none.
pub proof fn lemma_update_todo_rules(u: Update)
    ensures
        u.text matches Some(t) ==> update_todo_errors(u) == new_todo_errors(
            NewTodo { text: t, completed: false },
        ),
        u.text is None ==> update_todo_errors(u).len() == 0,
{
}

} // verus!
