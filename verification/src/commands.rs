//! The commands of the command-line tool and the work each one asks for.
use vstd::prelude::*;
use vstd::string::*;
use crate::cli::{validation_message, Errors};
use crate::ids::{parse_uuid, uuid_parse_of};
use crate::models::task::{
    create_task_errors, update_task_errors, CreateTask, CreateTaskArgs, UpdateTask, UpdateTaskArgs,
};

verus! {

/// The tool's arguments: a subcommand and how much to debug.
pub struct Args {
    pub subcommand: Subcommands,
    pub debug: u8,
}

/// The four families of commands. The user, system and cluster families
/// take one of the four plain actions.
pub enum Subcommands {
    Users(ResourceAction),
    Systems(ResourceAction),
    Cluster(ResourceAction),
    Tasks(TaskSubcommand),
}

/// The actions on users, systems and clusters.
#[derive(Debug, Clone, Copy, PartialEq, Eq, Structural)]
pub enum ResourceAction {
    Create,
    Update,
    Delete,
    Read,
}

/// The task commands.
pub struct TaskSubcommand {
    pub action: TaskAction,
}

pub enum TaskAction {
    /// Create a new Task
    Create(CreateTaskArgs),
    /// Update a Task
    Update(UpdateCommand),
    /// Get a Task by ID
    Get(GetTask),
    /// Delete a Task by ID
    Delete(DeleteTask),
    /// Read Tasks
    List,
    /// Drop all Tasks
    Drop,
}

pub struct GetTask {
    /// Task ID
    pub id: String,
}

pub struct DeleteTask {
    /// Task IDs
    pub id: Vec<String>,
}

pub struct UpdateCommand {
    /// Task ID
    pub id: String,
    pub body: UpdateTaskArgs,
}

/// The work a command asks for.
pub enum CommandPlan {
    /// Nothing beyond ending well.
    Nothing,
    /// List the pods and deployments of the cluster.
    ListPods,
    /// Print `label`, then the command's arguments in their debug form.
    Report { label: &'static str },
    /// Print `announce`, if any, then start each shell command in order.
    Spawn { announce: Option<&'static str>, commands: Vec<&'static str> },
    /// Insert the task.
    CreateTask(CreateTask),
    /// List all tasks.
    ListTasks,
    /// Delete the tasks with the ids that are UUIDs; report each other id
    /// with the reason it was refused.
    DeleteTasks { ids: Vec<u128>, rejected: Vec<(String, String)> },
    /// Show the task with this id.
    GetTask(u128),
    /// Update the task with this id; `id_text` is the id as given.
    UpdateTask { id_text: String, id: u128, body: UpdateTask },
    /// Delete all tasks.
    DropTasks,
}

/// The ids among `ids` that are UUIDs, in order.
pub open spec fn accepted_ids(ids: Seq<String>) -> Seq<u128>
    decreases ids.len(),
{
    if ids.len() == 0 {
        seq![]
    } else {
        let rest = accepted_ids(ids.drop_last());
        match uuid_parse_of(ids.last()@) {
            Ok(v) => rest.push(v),
            Err(_) => rest,
        }
    }
}

/// The ids among `ids` that are no UUIDs, each with the error text, in order.
pub open spec fn rejected_ids(ids: Seq<String>) -> Seq<(Seq<char>, Seq<char>)>
    decreases ids.len(),
{
    if ids.len() == 0 {
        seq![]
    } else {
        let rest = rejected_ids(ids.drop_last());
        match uuid_parse_of(ids.last()@) {
            Ok(_) => rest,
            Err(e) => rest.push((ids.last()@, e)),
        }
    }
}

/// Every id of a delete command is either accepted or rejected, never both
/// and never dropped.
pub proof fn lemma_delete_ids_partition(ids: Seq<String>)
    ensures
        accepted_ids(ids).len() + rejected_ids(ids).len() == ids.len(),
    decreases ids.len(),
{
    if ids.len() > 0 {
        lemma_delete_ids_partition(ids.drop_last());
    }
}

/// The view of a list of rejected ids.
pub open spec fn rejected_view(r: Seq<(String, String)>) -> Seq<(Seq<char>, Seq<char>)> {
    r.map_values(|p: (String, String)| (p.0@, p.1@))
}

/// The task a creation command describes.
pub open spec fn create_task_of(args: CreateTaskArgs) -> CreateTask {
    CreateTask { title: args.title, description: args.description, completed: args.completed }
}

/// The update an update command describes.
pub open spec fn update_task_of(args: UpdateTaskArgs) -> UpdateTask {
    UpdateTask { title: args.title, description: args.description, completed: args.completed }
}

/// The plan of a system command: the message printed and the shell commands.
pub open spec fn system_plan(a: ResourceAction) -> (Option<Seq<char>>, Seq<Seq<char>>) {
    match a {
        ResourceAction::Create => (
            Some("system apply here!!!!!"@),
            seq![
                "kubectl apply -f https://raw.githubusercontent.com/metallb/metallb/v0.13.11/config/manifests/metallb-native.yaml"@,
            ],
        ),
        ResourceAction::Update => (
            Some("system update here!!"@),
            seq!["task -a"@, "cargo run -p clapper -r -- cluster read"@],
        ),
        ResourceAction::Delete => (
            Some("system delete here!!"@),
            seq![
                "kubectl delete -f https://raw.githubusercontent.com/metallb/metallb/v0.13.11/config/manifests/metallb-native.yaml"@,
            ],
        ),
        ResourceAction::Read => (None, seq!["task cargo:build"@]),
    }
}

/// The view of an optional announcement.
pub open spec fn announce_view(a: Option<&'static str>) -> Option<Seq<char>> {
    match a {
        Some(s) => Some(s@),
        None => None,
    }
}

fn system_commands(a: ResourceAction) -> (res: (Option<&'static str>, Vec<&'static str>))
    ensures
        announce_view(res.0) == system_plan(a).0,
        res.1@.map_values(|c: &'static str| c@) == system_plan(a).1,
{
    let mut commands: Vec<&'static str> = Vec::new();
    let announce = match a {
        ResourceAction::Create => {
            commands.push(
                "kubectl apply -f https://raw.githubusercontent.com/metallb/metallb/v0.13.11/config/manifests/metallb-native.yaml",
            );
            Some("system apply here!!!!!")
        },
        ResourceAction::Update => {
            commands.push("task -a");
            commands.push("cargo run -p clapper -r -- cluster read");
            Some("system update here!!")
        },
        ResourceAction::Delete => {
            commands.push(
                "kubectl delete -f https://raw.githubusercontent.com/metallb/metallb/v0.13.11/config/manifests/metallb-native.yaml",
            );
            Some("system delete here!!")
        },
        ResourceAction::Read => {
            commands.push("task cargo:build");
            None
        },
    };
    assert(commands@.map_values(|c: &'static str| c@) =~= system_plan(a).1);
    (announce, commands)
}

/// Splits the ids of a delete command into UUIDs and refused ones.
fn split_ids(ids: &Vec<String>) -> (res: (Vec<u128>, Vec<(String, String)>))
    ensures
        res.0@ == accepted_ids(ids@),
        rejected_view(res.1@) == rejected_ids(ids@),
{
    let n = ids.len();
    let mut accepted: Vec<u128> = Vec::new();
    let mut rejected: Vec<(String, String)> = Vec::new();
    let mut i: usize = 0;
    while i < n
        invariant
            n == ids@.len(),
            i <= n,
            accepted@ == accepted_ids(ids@.take(i as int)),
            rejected_view(rejected@) == rejected_ids(ids@.take(i as int)),
        decreases n - i,
    {
        let ghost prefix = ids@.take(i + 1);
        assert(prefix.drop_last() =~= ids@.take(i as int));
        assert(prefix.last() == ids@[i as int]);
        let ghost before = rejected@;
        match parse_uuid(ids[i].as_str()) {
            Ok(v) => {
                accepted.push(v);
            },
            Err(e) => {
                rejected.push((ids[i].clone(), e));
                assert(rejected_view(rejected@) =~= rejected_view(before).push((ids@[i as int]@, e@)));
            },
        }
        i = i + 1;
    }
    assert(ids@.take(n as int) =~= ids@);
    (accepted, rejected)
}

/// What a task command asks for, or the error it ends in.
pub open spec fn task_plan_ok(action: TaskAction, plan: CommandPlan) -> bool {
    match action {
        TaskAction::Create(args) => {
            &&& plan == CommandPlan::CreateTask(create_task_of(args))
            &&& create_task_errors(create_task_of(args)).len() == 0
        },
        TaskAction::List => plan == CommandPlan::ListTasks,
        TaskAction::Drop => plan == CommandPlan::DropTasks,
        TaskAction::Get(g) => {
            &&& plan matches CommandPlan::GetTask(id)
            &&& uuid_parse_of(g.id@) == Ok::<u128, Seq<char>>(id)
        },
        TaskAction::Delete(d) => {
            &&& plan matches CommandPlan::DeleteTasks { ids, rejected }
            &&& ids@ == accepted_ids(d.id@)
            &&& rejected_view(rejected@) == rejected_ids(d.id@)
        },
        TaskAction::Update(u) => {
            &&& plan matches CommandPlan::UpdateTask { id_text, id, body }
            &&& body == update_task_of(u.body)
            &&& update_task_errors(body).len() == 0
            &&& id_text@ == u.id@
            &&& uuid_parse_of(u.id@) == Ok::<u128, Seq<char>>(id)
        },
    }
}

/// The error a task command ends in, if it ends in one: a creation or
/// update that breaks a validation rule, then an id that is no UUID.
pub open spec fn task_plan_err(action: TaskAction, e: Errors) -> bool {
    match action {
        TaskAction::Create(args) => {
            let errs = create_task_errors(create_task_of(args));
            &&& errs.len() > 0
            &&& e matches Errors::Validation(m)
            &&& m@ == validation_message(errs)
        },
        TaskAction::Get(g) => {
            &&& uuid_parse_of(g.id@) matches Err(t)
            &&& e matches Errors::Uuid(m)
            &&& m@ == t
        },
        TaskAction::Update(u) => {
            let errs = update_task_errors(update_task_of(u.body));
            if errs.len() > 0 {
                &&& e matches Errors::Validation(m)
                &&& m@ == validation_message(errs)
            } else {
                &&& uuid_parse_of(u.id@) matches Err(t)
                &&& e matches Errors::Uuid(m)
                &&& m@ == t
            }
        },
        _ => false,
    }
}

/// The work that the command `cmd` asks for, or the error it ends in.
pub fn plan_subcommand(cmd: Subcommands) -> (res: Result<CommandPlan, Errors>)
    ensures
        match cmd {
            Subcommands::Users(_) => res matches Ok(CommandPlan::Nothing),
            Subcommands::Cluster(a) => match a {
                ResourceAction::Read => res matches Ok(CommandPlan::ListPods),
                ResourceAction::Delete => res matches Ok(CommandPlan::Report { label })
                    && label@ == "deleteClusteraaaa"@,
                _ => res matches Ok(CommandPlan::Report { label }) && label@ == "update_cluster"@,
            },
            Subcommands::Systems(a) => {
                &&& res matches Ok(CommandPlan::Spawn { announce, commands })
                &&& announce_view(announce) == system_plan(a).0
                &&& commands@.map_values(|c: &'static str| c@) == system_plan(a).1
            },
            Subcommands::Tasks(t) => match res {
                Ok(plan) => task_plan_ok(t.action, plan),
                Err(e) => task_plan_err(t.action, e),
            },
        },
{
    match cmd {
        Subcommands::Users(_) => Ok(CommandPlan::Nothing),
        Subcommands::Cluster(a) => match a {
            ResourceAction::Read => Ok(CommandPlan::ListPods),
            ResourceAction::Delete => Ok(CommandPlan::Report { label: "deleteClusteraaaa" }),
            _ => Ok(CommandPlan::Report { label: "update_cluster" }),
        },
        Subcommands::Systems(a) => {
            let (announce, commands) = system_commands(a);
            Ok(CommandPlan::Spawn { announce, commands })
        },
        Subcommands::Tasks(t) => match t.action {
            TaskAction::Create(args) => {
                let data: CreateTask = CreateTask {
                    title: args.title,
                    description: args.description,
                    completed: args.completed,
                };
                match data.validate() {
                    Ok(()) => Ok(CommandPlan::CreateTask(data)),
                    Err(e) => Err(Errors::from_validation(&e)),
                }
            },
            TaskAction::List => Ok(CommandPlan::ListTasks),
            TaskAction::Drop => Ok(CommandPlan::DropTasks),
            TaskAction::Get(g) => match parse_uuid(g.id.as_str()) {
                Ok(id) => Ok(CommandPlan::GetTask(id)),
                Err(e) => Err(Errors::Uuid(e)),
            },
            TaskAction::Delete(d) => {
                let (ids, rejected) = split_ids(&d.id);
                Ok(CommandPlan::DeleteTasks { ids, rejected })
            },
            TaskAction::Update(u) => {
                let body = UpdateTask {
                    title: u.body.title,
                    description: u.body.description,
                    completed: u.body.completed,
                };
                match body.validate() {
                    Err(e) => Err(Errors::from_validation(&e)),
                    Ok(()) => match parse_uuid(u.id.as_str()) {
                        Ok(id) => Ok(CommandPlan::UpdateTask { id_text: u.id, id, body }),
                        Err(e) => Err(Errors::Uuid(e)),
                    },
                }
            },
        },
    }
}

/// The manifest of the load balancer that the system commands install and
/// remove.
pub open spec fn metallb_manifest() -> Seq<char> {
    "https://raw.githubusercontent.com/metallb/metallb/v0.13.11/config/manifests/metallb-native.yaml"@
}

/// The system commands: `create` applies the load balancer's manifest and
/// `delete` deletes that same manifest, each one kubectl command announced by
/// its own line; `update` runs the task list and then reads the cluster;
/// `read` builds, announcing nothing.
pub proof fn lemma_system_commands()
    ensures
        system_plan(ResourceAction::Create) == (
            Some("system apply here!!!!!"@),
            seq!["kubectl apply -f "@ + metallb_manifest()],
        ),
        system_plan(ResourceAction::Delete) == (
            Some("system delete here!!"@),
            seq!["kubectl delete -f "@ + metallb_manifest()],
        ),
        system_plan(ResourceAction::Update) == (
            Some("system update here!!"@),
            seq!["task -a"@, "cargo run -p clapper -r -- cluster read"@],
        ),
        system_plan(ResourceAction::Read) == (None::<Seq<char>>, seq!["task cargo:build"@]),
{
    reveal_strlit("https://raw.githubusercontent.com/metallb/metallb/v0.13.11/config/manifests/metallb-native.yaml");
    reveal_strlit("kubectl apply -f ");
    reveal_strlit("kubectl delete -f ");
    reveal_strlit("kubectl apply -f https://raw.githubusercontent.com/metallb/metallb/v0.13.11/config/manifests/metallb-native.yaml");
    reveal_strlit("kubectl delete -f https://raw.githubusercontent.com/metallb/metallb/v0.13.11/config/manifests/metallb-native.yaml");
    assert("kubectl apply -f "@ + metallb_manifest() =~= "kubectl apply -f https://raw.githubusercontent.com/metallb/metallb/v0.13.11/config/manifests/metallb-native.yaml"@);
    assert("kubectl delete -f "@ + metallb_manifest() =~= "kubectl delete -f https://raw.githubusercontent.com/metallb/metallb/v0.13.11/config/manifests/metallb-native.yaml"@);
    assert(system_plan(ResourceAction::Create).1 =~= seq!["kubectl apply -f "@ + metallb_manifest()]);
    assert(system_plan(ResourceAction::Delete).1 =~= seq!["kubectl delete -f "@ + metallb_manifest()]);
}

/// A task command plans the task or the update its arguments carry: the
/// title, the description and the completed flag pass unchanged.
pub proof fn lemma_task_plans_carry_arguments(action: TaskAction, plan: CommandPlan)
    requires
        task_plan_ok(action, plan),
    ensures
        action matches TaskAction::Create(args) ==> {
            &&& plan matches CommandPlan::CreateTask(t)
            &&& t.title == args.title
            &&& t.description == args.description
            &&& t.completed == args.completed
        },
        action matches TaskAction::Update(u) ==> {
            &&& plan matches CommandPlan::UpdateTask { body, .. }
            &&& body.title == u.body.title
            &&& body.description == u.body.description
            &&& body.completed == u.body.completed
        },
{
}

} // verus!
