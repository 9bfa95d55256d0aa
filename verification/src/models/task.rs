//! Tasks stored in the relational database, their request bodies and the
//! command-line arguments that carry the same fields.
use vstd::prelude::*;
use vstd::std_specs::convert::FromSpecImpl;
use super::validation::{
    check_length, check_opt_length, finish, length_errors, opt_length_errors, opt_view, outcome,
    Field, FieldError, Rule, ValidationErrors,
};

verus! {

/// A stored task; `id` holds the 128 bits of its UUID.
pub struct Task {
    pub id: u128,
    pub title: String,
    pub description: Option<String>,
    pub completed: bool,
}

/// The body of a request that updates a task; absent fields are left alone.
pub struct UpdateTask {
    pub title: Option<String>,
    pub description: Option<String>,
    pub completed: Option<bool>,
}

/// The rules an update breaks: a present title of fewer than 2 characters.
pub open spec fn update_task_errors(t: UpdateTask) -> Seq<FieldError> {
    opt_length_errors(Field::Title, opt_view(t.title), 2)
}

impl UpdateTask {
    pub fn validate(&self) -> (res: Result<(), ValidationErrors>)
        ensures
            outcome(update_task_errors(*self), res),
    {
        let mut errors: Vec<FieldError> = Vec::new();
        check_opt_length(&mut errors, Field::Title, &self.title, 2);
        assert(errors@ =~= update_task_errors(*self));
        finish(errors)
    }
}

/// The body of a request that creates a task.
pub struct CreateTask {
    pub title: String,
    pub description: String,
    pub completed: bool,
}

/// The rules a new task breaks: a title of at least 2 characters and a
/// description of at least 4.
pub open spec fn create_task_errors(t: CreateTask) -> Seq<FieldError> {
    length_errors(Field::Title, t.title@, 2) + length_errors(Field::Description, t.description@, 4)
}

impl CreateTask {
    pub fn validate(&self) -> (res: Result<(), ValidationErrors>)
        ensures
            outcome(create_task_errors(*self), res),
    {
        let mut errors: Vec<FieldError> = Vec::new();
        check_length(&mut errors, Field::Title, self.title.as_str(), 2);
        check_length(&mut errors, Field::Description, self.description.as_str(), 4);
        assert(errors@ =~= create_task_errors(*self));
        finish(errors)
    }
}

/// Command-line arguments of a task update.
pub struct UpdateTaskArgs {
    pub title: Option<String>,
    pub description: Option<String>,
    pub completed: Option<bool>,
}

/// Command-line arguments of a task creation.
pub struct CreateTaskArgs {
    pub title: String,
    pub description: String,
    pub completed: bool,
}

impl From<UpdateTaskArgs> for UpdateTask {
    fn from(args: UpdateTaskArgs) -> (res: Self) {
        UpdateTask { title: args.title, description: args.description, completed: args.completed }
    }
}

impl FromSpecImpl<UpdateTaskArgs> for UpdateTask {
    open spec fn obeys_from_spec() -> bool {
        true
    }

    open spec fn from_spec(args: UpdateTaskArgs) -> UpdateTask {
        UpdateTask { title: args.title, description: args.description, completed: args.completed }
    }
}

impl From<CreateTaskArgs> for CreateTask {
    fn from(args: CreateTaskArgs) -> (res: Self) {
        CreateTask { title: args.title, description: args.description, completed: args.completed }
    }
}

impl FromSpecImpl<CreateTaskArgs> for CreateTask {
    open spec fn obeys_from_spec() -> bool {
        true
    }

    open spec fn from_spec(args: CreateTaskArgs) -> CreateTask {
        CreateTask { title: args.title, description: args.description, completed: args.completed }
    }
}

/// A new task is refused exactly when its title has fewer than 2 characters
/// or its description fewer than 4; the title is reported first.
pub proof fn lemma_create_task_rules(t: CreateTask)
    ensures
        create_task_errors(t) == (if t.title@.len() < 2 {
            seq![FieldError { field: Field::Title, rule: Rule::Length { min: 2 } }]
        } else {
            seq![]
        }) + (if t.description@.len() < 4 {
            seq![FieldError { field: Field::Description, rule: Rule::Length { min: 4 } }]
        } else {
            seq![]
        }),
{
}

/// A task update is refused exactly when it carries a title of fewer than 2
/// characters, the rule a new task's title follows; its description is not
/// checked.
pub proof fn lemma_update_task_rules(u: UpdateTask)
    ensures
        update_task_errors(u) == (match u.title {
            Some(t) => if t@.len() < 2 {
                seq![FieldError { field: Field::Title, rule: Rule::Length { min: 2 } }]
            } else {
                seq![]
            },
            None => seq![],
        }),
{
}

} // verus!
