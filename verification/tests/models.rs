use playground::models::book::{NewBook, UpdateBook};
use playground::models::sql_book::{CreateBook, UpdateBook as SqlUpdateBook};
use playground::models::task::{CreateTask, CreateTaskArgs, UpdateTask, UpdateTaskArgs};
use playground::models::todo::{NewTodo, Todo, TodoListQuery, Update};
use playground::models::validation::{Field, FieldError, Rule, ValidationErrors};

fn fields(r: Result<(), ValidationErrors>) -> Vec<FieldError> {
    match r {
        Ok(()) => vec![],
        Err(e) => e.errors,
    }
}

#[test]
fn new_book_rules() {
    assert!(NewBook { title: "Ab".to_string(), pages: 2 }.validate().is_ok());
    assert!(NewBook { title: "Ab".to_string(), pages: 2000 }.validate().is_ok());
    assert_eq!(
        fields(NewBook { title: "A".to_string(), pages: 2001 }.validate()),
        vec![
            FieldError { field: Field::Title, rule: Rule::Length { min: 2 } },
            FieldError { field: Field::Pages, rule: Rule::Range { min: Some(2), max: Some(2000) } },
        ]
    );
    assert_eq!(fields(NewBook { title: "Abc".to_string(), pages: 1 }.validate()).len(), 1);
    // Length counts characters, not bytes.
    assert!(NewBook { title: "\u{e9}".to_string(), pages: 10 }.validate().is_err());
    assert!(NewBook { title: "\u{e9}\u{e9}".to_string(), pages: 10 }.validate().is_ok());
}

#[test]
fn update_book_rules() {
    assert!(UpdateBook { title: None, pages: None }.validate().is_ok());
    assert!(UpdateBook { title: Some("x".to_string()), pages: None }.validate().is_err());
    assert!(UpdateBook { title: None, pages: Some(0) }.validate().is_err());
    assert!(UpdateBook { title: Some("xy".to_string()), pages: Some(5) }.validate().is_ok());
}

#[test]
fn todo_rules() {
    assert!(NewTodo { text: "Buy food".to_string(), completed: false }.validate().is_ok());
    assert_eq!(
        fields(NewTodo { text: "B".to_string(), completed: false }.validate()),
        vec![FieldError { field: Field::Text, rule: Rule::Length { min: 2 } }]
    );
    assert!(Update { text: None, completed: Some(true) }.validate().is_ok());
    assert!(Update { text: Some(String::new()), completed: None }.validate().is_err());
    let t = Todo::default();
    assert!(t.id.is_none() && t.text.is_none() && t.completed.is_none());
}

#[test]
fn task_rules() {
    let ok = CreateTask { title: "Ti".to_string(), description: "Desc".to_string(), completed: false };
    assert!(ok.validate().is_ok());
    let bad = CreateTask { title: "T".to_string(), description: "abc".to_string(), completed: true };
    assert_eq!(
        fields(bad.validate()),
        vec![
            FieldError { field: Field::Title, rule: Rule::Length { min: 2 } },
            FieldError { field: Field::Description, rule: Rule::Length { min: 4 } },
        ]
    );
    assert!(UpdateTask { title: Some("a".to_string()), description: None, completed: None }.validate().is_err());
    assert!(UpdateTask { title: None, description: Some("a".to_string()), completed: None }.validate().is_ok());
}

#[test]
fn sql_book_rules() {
    let ok = CreateBook {
        title: "Dune".to_string(),
        author: "Fh".to_string(),
        description: "Sand".to_string(),
        is_published: true,
        copies_sold: 0,
    };
    assert!(ok.validate().is_ok());
    let bad = CreateBook {
        title: "D".to_string(),
        author: "F".to_string(),
        description: "S".to_string(),
        is_published: false,
        copies_sold: -1,
    };
    assert_eq!(
        fields(bad.validate()).iter().map(|e| e.field).collect::<Vec<_>>(),
        vec![Field::Title, Field::Author, Field::Description, Field::CopiesSold]
    );
    let up = SqlUpdateBook {
        title: None,
        author: Some("A".to_string()),
        description: None,
        is_published: None,
        copies_sold: Some(-5),
    };
    assert_eq!(fields(up.validate()), vec![FieldError { field: Field::Author, rule: Rule::Length { min: 2 } }]);
}

#[test]
fn task_args_convert_field_by_field() {
    let c: CreateTask = CreateTaskArgs { title: "t".to_string(), description: "d".to_string(), completed: true }.into();
    assert_eq!((c.title.as_str(), c.description.as_str(), c.completed), ("t", "d", true));
    let u: UpdateTask = UpdateTaskArgs { title: None, description: Some("d".to_string()), completed: Some(false) }.into();
    assert_eq!((u.title, u.description, u.completed), (None, Some("d".to_string()), Some(false)));
}

#[test]
fn todo_list_query_parameters() {
    let mut q = TodoListQuery {
        completed: Some(true),
        text: None,
        limit: Some("10".to_string()),
        total: None,
        skip: Some("5".to_string()),
        projection: Some("text".to_string()),
    };
    assert_eq!(q.get_limit(), Some("10".to_string()));
    assert_eq!(q.get_projection(), Some("text".to_string()));
    q.clear_limit();
    q.clear_projection();
    assert_eq!(q.get_limit(), None);
    assert_eq!(q.get_projection(), None);
    assert_eq!(q.skip, Some("5".to_string()));
    assert_eq!(q.completed, Some(true));
}

#[test]
fn field_names_and_codes() {
    assert_eq!(Field::CopiesSold.name(), "copies_sold");
    assert_eq!(Rule::Length { min: 2 }.code(), "length");
    assert_eq!(Rule::Range { min: None, max: None }.code(), "range");
}
