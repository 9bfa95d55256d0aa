use playground::answers::{
    delete_book_answer, delete_report, delete_todo_answer, drop_report, sql_update_error_answer,
    update_missing_answer,
};
use playground::cli::{color_bool, color_title, format_option, Errors};
use playground::commands::{
    plan_subcommand, CommandPlan, DeleteTask, GetTask, ResourceAction, Subcommands, TaskAction,
    TaskSubcommand, UpdateCommand,
};
use playground::errors::SqlxError;
use playground::models::task::{CreateTaskArgs, UpdateTaskArgs};
use playground::models::validation::{Field, FieldError, Rule, ValidationErrors};

const ID: &str = "550e8400-e29b-41d4-a716-446655440000";
const ID_BITS: u128 = 0x550e8400_e29b_41d4_a716_446655440000;

fn tasks(action: TaskAction) -> Subcommands {
    Subcommands::Tasks(TaskSubcommand { action })
}

#[test]
fn optional_text_is_shown() {
    assert_eq!(format_option(&Some("hi".to_string())), "hi");
    assert_eq!(format_option(&None), "None");
}

fn one_of(shown: String, forms: [String; 3]) -> bool {
    forms.iter().any(|f| *f == shown)
}

#[test]
fn marks_and_titles_carry_their_escape_codes() {
    assert!(one_of(
        color_bool(&true),
        [
            "\x1b[38;5;10m\u{2714}\x1b[39m".to_string(),
            "\x1b[m\u{2714}\x1b[m".to_string(),
            String::new(),
        ],
    ));
    assert!(one_of(
        color_bool(&false),
        [
            "\x1b[38;5;9m\u{2718}\x1b[39m".to_string(),
            "\x1b[m\u{2718}\x1b[m".to_string(),
            String::new(),
        ],
    ));
    assert!(one_of(
        color_title("Tasks"),
        [
            "\x1b[38;5;2m\x1b[1mTasks\x1b[0m".to_string(),
            "\x1b[m\x1b[1mTasks\x1b[0m".to_string(),
            String::new(),
        ],
    ));
}

#[test]
fn error_texts() {
    assert_eq!(Errors::Uuid("bad".to_string()).to_string(), "error: id is wrong bad");
    assert_eq!(Errors::Io("x".to_string()).to_string(), "error: id is wrong x");
    assert_eq!(Errors::Fas("x".to_string()).to_string(), "SQLX error111 x");
    assert_eq!(Errors::Sqlx("RowNotFound".to_string()).to_string(), "SQLX error RowNotFound");
    assert_eq!(Errors::Validation("t".to_string()).to_string(), "Custom Validation error: t");
    assert_eq!(Errors::SerdeJson("eof".to_string()).to_string(), "eof");
}

#[test]
fn validation_message_lists_fields_and_codes() {
    let v = ValidationErrors {
        errors: vec![
            FieldError { field: Field::Title, rule: Rule::Length { min: 2 } },
            FieldError { field: Field::Pages, rule: Rule::Range { min: Some(2), max: Some(2000) } },
        ],
    };
    assert_eq!(
        Errors::from_validation(&v),
        Errors::Validation("title: [\"length\"], pages: [\"range\"]".to_string())
    );
    assert_eq!(Errors::from_validation(&ValidationErrors { errors: vec![] }), Errors::Validation(String::new()));
}

#[test]
fn system_commands_spawn_in_order() {
    match plan_subcommand(Subcommands::Systems(ResourceAction::Update)) {
        Ok(CommandPlan::Spawn { announce, commands }) => {
            assert_eq!(announce, Some("system update here!!"));
            assert_eq!(commands, vec!["task -a", "cargo run -p clapper -r -- cluster read"]);
        },
        _ => panic!("spawn expected"),
    }
    match plan_subcommand(Subcommands::Systems(ResourceAction::Read)) {
        Ok(CommandPlan::Spawn { announce, commands }) => {
            assert_eq!(announce, None);
            assert_eq!(commands, vec!["task cargo:build"]);
        },
        _ => panic!("spawn expected"),
    }
    assert!(matches!(plan_subcommand(Subcommands::Cluster(ResourceAction::Read)), Ok(CommandPlan::ListPods)));
    assert!(matches!(
        plan_subcommand(Subcommands::Cluster(ResourceAction::Delete)),
        Ok(CommandPlan::Report { label: "deleteClusteraaaa" })
    ));
    assert!(matches!(
        plan_subcommand(Subcommands::Cluster(ResourceAction::Create)),
        Ok(CommandPlan::Report { label: "update_cluster" })
    ));
    assert!(matches!(plan_subcommand(Subcommands::Users(ResourceAction::Create)), Ok(CommandPlan::Nothing)));
}

#[test]
fn task_commands_check_ids_and_bodies() {
    match plan_subcommand(tasks(TaskAction::Get(GetTask { id: ID.to_string() }))) {
        Ok(CommandPlan::GetTask(id)) => assert_eq!(id, ID_BITS),
        _ => panic!("get expected"),
    }
    assert!(matches!(
        plan_subcommand(tasks(TaskAction::Get(GetTask { id: "nope".to_string() }))),
        Err(Errors::Uuid(_))
    ));
    let bad = CreateTaskArgs { title: "T".to_string(), description: "Desc".to_string(), completed: false };
    assert_eq!(
        plan_subcommand(tasks(TaskAction::Create(bad))).err(),
        Some(Errors::Validation("title: [\"length\"]".to_string()))
    );
    // The body is checked before the id.
    let update = UpdateCommand {
        id: "nope".to_string(),
        body: UpdateTaskArgs { title: Some("x".to_string()), description: None, completed: None },
    };
    assert!(matches!(plan_subcommand(tasks(TaskAction::Update(update))), Err(Errors::Validation(_))));
    let update = UpdateCommand {
        id: "nope".to_string(),
        body: UpdateTaskArgs { title: Some("xy".to_string()), description: None, completed: None },
    };
    assert!(matches!(plan_subcommand(tasks(TaskAction::Update(update))), Err(Errors::Uuid(_))));
}

#[test]
fn delete_keeps_good_ids_and_reports_bad_ones() {
    let ids = vec!["bad".to_string(), ID.to_string(), "also-bad".to_string()];
    match plan_subcommand(tasks(TaskAction::Delete(DeleteTask { id: ids }))) {
        Ok(CommandPlan::DeleteTasks { ids, rejected }) => {
            assert_eq!(ids, vec![ID_BITS]);
            let names: Vec<&str> = rejected.iter().map(|(id, _)| id.as_str()).collect();
            assert_eq!(names, vec!["bad", "also-bad"]);
            assert!(rejected.iter().all(|(_, reason)| !reason.is_empty()));
        },
        _ => panic!("delete expected"),
    }
}

#[test]
fn handler_answers() {
    assert_eq!(delete_todo_answer(Ok(1), "a"), (200, "successfully deleted!".to_string()));
    assert_eq!(delete_todo_answer(Ok(0), "a"), (404, "Item with specified ID a not found!".to_string()));
    assert_eq!(delete_todo_answer(Err(()), "a"), (404, "item with specified ID a not found!".to_string()));
    assert_eq!(delete_book_answer(Ok(2), "b"), (404, "item with specified ID b not found!".to_string()));
    assert_eq!(delete_book_answer(Ok(1), "b"), (200, "successfully deleted!".to_string()));
    assert_eq!(update_missing_answer("c"), (404, "not found item with ID c".to_string()));
    assert_eq!(
        sql_update_error_answer(&SqlxError::ColumnNotFound("age".to_string()), "e".to_string()),
        (400, "age".to_string())
    );
    assert_eq!(sql_update_error_answer(&SqlxError::PoolClosed, "closed".to_string()), (500, "closed".to_string()));
    assert_eq!(drop_report(3), "Deleted all items");
    assert_eq!(drop_report(0), "No items found");
    assert_eq!(delete_report(1, "d"), "Deleted item with ID: d");
    assert_eq!(delete_report(0, "d"), "Item with ID: d not found");
}
