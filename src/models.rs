//! Task and user records and the shapes in which handlers return them.
//! Identifiers are UUIDs as 128-bit values; times are milliseconds since the
//! Unix epoch.

use vstd::prelude::*;

verus! {

/// A stored task.
#[derive(Clone, Debug, PartialEq, Eq)]
pub struct Task {
    pub id: u128,
    pub name: String,
    pub description: Option<String>,
    pub user_id: u128,
    pub created_at: i64,
    pub updated_at: i64,
}

/// The body of a task creation request.
#[derive(Clone, Debug, PartialEq, Eq)]
pub struct CreateTaskSchema {
    pub name: String,
    pub description: Option<String>,
}

/// A stored user of the local variant.
#[derive(Clone, Debug, PartialEq, Eq)]
pub struct User {
    pub id: u128,
    pub name: String,
    pub email: String,
    pub password: String,
    pub role: String,
    pub verified: bool,
    pub created_at: Option<i64>,
    pub updated_at: Option<i64>,
}

/// The body of a registration request.
#[derive(Clone, Debug, PartialEq, Eq)]
pub struct RegisterUserSchema {
    pub name: String,
    pub email: String,
    pub password: String,
}

/// The body of a login request.
#[derive(Clone, Debug, PartialEq, Eq)]
pub struct LoginUserSchema {
    pub email: String,
    pub password: String,
}

/// A user as handlers return it: no password.
#[derive(Clone, Debug, PartialEq, Eq)]
pub struct UserResponse {
    pub id: u128,
    pub name: String,
    pub email: String,
    pub role: String,
    pub verified: bool,
    pub created_at: Option<i64>,
    pub updated_at: Option<i64>,
}

/// A task as handlers return it.
#[derive(Clone, Debug, PartialEq, Eq)]
pub struct TaskResponse {
    pub id: u128,
    pub name: String,
    pub user_id: u128,
    pub description: Option<String>,
    pub created_at: i64,
    pub updated_at: i64,
}

/// A list of tasks with its length.
#[derive(Clone, Debug, PartialEq, Eq)]
pub struct TaskListResponse {
    pub tasks: Vec<TaskResponse>,
    pub total: usize,
}

/// The response shape of a task: the same fields.
pub open spec fn task_response_of(t: Task) -> TaskResponse {
    TaskResponse {
        id: t.id,
        name: t.name,
        user_id: t.user_id,
        description: t.description,
        created_at: t.created_at,
        updated_at: t.updated_at,
    }
}

/// The response shape of a user: every field but the password.
pub open spec fn user_response_of(u: User) -> UserResponse {
    UserResponse {
        id: u.id,
        name: u.name,
        email: u.email,
        role: u.role,
        verified: u.verified,
        created_at: u.created_at,
        updated_at: u.updated_at,
    }
}

impl From<Task> for TaskResponse {
    fn from(t: Task) -> (r: TaskResponse) {
        TaskResponse {
            id: t.id,
            name: t.name,
            user_id: t.user_id,
            description: t.description,
            created_at: t.created_at,
            updated_at: t.updated_at,
        }
    }
}

impl vstd::std_specs::convert::FromSpecImpl<Task> for TaskResponse {
    open spec fn obeys_from_spec() -> bool {
        true
    }

    open spec fn from_spec(t: Task) -> TaskResponse {
        task_response_of(t)
    }
}

impl From<User> for UserResponse {
    fn from(u: User) -> (r: UserResponse) {
        UserResponse {
            id: u.id,
            name: u.name,
            email: u.email,
            role: u.role,
            verified: u.verified,
            created_at: u.created_at,
            updated_at: u.updated_at,
        }
    }
}

impl vstd::std_specs::convert::FromSpecImpl<User> for UserResponse {
    open spec fn obeys_from_spec() -> bool {
        true
    }

    open spec fn from_spec(u: User) -> UserResponse {
        user_response_of(u)
    }
}

/// The list response of tasks: each in its response shape, in order, and
/// their number.
pub open spec fn task_list_of(tasks: Seq<Task>) -> Seq<TaskResponse> {
    tasks.map_values(|t: Task| task_response_of(t))
}

impl TaskListResponse {
    /// The list response of tasks: each in its response shape, in order,
    /// with their number as the total.
    pub fn from_tasks(tasks: Vec<Task>) -> (r: TaskListResponse)
        ensures
            r.tasks@ == task_list_of(tasks@),
            r.total == tasks@.len(),
    {
        let ghost all = tasks@;
        let mut rest = tasks;
        let mut out: Vec<TaskResponse> = Vec::new();
        while rest.len() > 0
            invariant
                out@.len() + rest@.len() == all.len(),
                out@ == task_list_of(all.take(out@.len() as int)),
                rest@ == all.skip(out@.len() as int),
            decreases rest@.len(),
        {
            let t = rest.remove(0);
            let ghost k = out@.len() as int;
            out.push(TaskResponse::from(t));
            assert(out@ =~= task_list_of(all.take(k + 1)));
            assert(rest@ =~= all.skip(k + 1));
        }
        assert(all.take(all.len() as int) =~= all);
        let total = out.len();
        TaskListResponse { tasks: out, total }
    }
}

impl From<Vec<Task>> for TaskListResponse {
    fn from(tasks: Vec<Task>) -> (r: TaskListResponse) {
        TaskListResponse::from_tasks(tasks)
    }
}

impl vstd::std_specs::convert::FromSpecImpl<Vec<Task>> for TaskListResponse {
    open spec fn obeys_from_spec() -> bool {
        false
    }

    /// Not stated here: `from_tasks` carries the contract.
    open spec fn from_spec(tasks: Vec<Task>) -> TaskListResponse {
        arbitrary()
    }
}

} // verus!
