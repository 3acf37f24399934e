use task_api_guard::handlers::{
    account_deletion, admin_token, directory_deletion, directory_listing, password_check, task_deletion, task_owner,
    user_deleted_message, user_from_directory,
};
use task_api_guard::logging::{LogFormat, LogOutput, LoggingConfig};
use task_api_guard::models::{Task, TaskListResponse, TaskResponse, User, UserResponse};
use task_api_guard::provider::Config;

const OWNER: &str = "5f0c4d2a-1b3e-4c5d-8e9f-0a1b2c3d4e5f";

fn task(id: u128, name: &str) -> Task {
    Task { id, name: name.to_string(), description: None, user_id: 7, created_at: 10, updated_at: 20 }
}

fn provider_config() -> Config {
    Config {
        database_url: "postgres://db".to_string(),
        host: "0.0.0.0".to_string(),
        port: 8080,
        keycloak_url: "http://kc:8080".to_string(),
        realm: "tasks".to_string(),
        admin_client_id: "admin-cli".to_string(),
        admin_client_secret: "SECRET-REDACTED".to_string(),
        audience: "task-api".to_string(),
    }
}

#[test]
fn task_response_keeps_fields() {
    let r = TaskResponse::from(Task { id: 1, name: "n".to_string(), description: Some("d".to_string()), user_id: 2, created_at: 3, updated_at: 4 });
    assert_eq!(r, TaskResponse { id: 1, name: "n".to_string(), user_id: 2, description: Some("d".to_string()), created_at: 3, updated_at: 4 });
}

#[test]
fn task_list_counts_tasks_in_order() {
    let l = TaskListResponse::from(vec![task(1, "a"), task(2, "b"), task(3, "c")]);
    assert_eq!(l.total, 3);
    assert_eq!(l.tasks.iter().map(|t| t.id).collect::<Vec<_>>(), vec![1, 2, 3]);
    assert_eq!(l.tasks[1].name, "b");
    let empty = TaskListResponse::from_tasks(vec![]);
    assert_eq!(empty.total, 0);
    assert!(empty.tasks.is_empty());
}

#[test]
fn user_response_drops_password() {
    let u = User {
        id: 9,
        name: "Bo".to_string(),
        email: "bo@example.com".to_string(),
        password: "hash".to_string(),
        role: "user".to_string(),
        verified: false,
        created_at: Some(1),
        updated_at: None,
    };
    let r = UserResponse::from(u);
    assert_eq!(r.id, 9);
    assert_eq!(r.name, "Bo");
    assert_eq!(r.role, "user");
    assert_eq!(r.created_at, Some(1));
    assert_eq!(r.updated_at, None);
}

#[test]
fn logging_config_defaults() {
    let c = LoggingConfig::from_vars(None, None, None);
    assert_eq!(c.level, "info");
    assert_eq!(c.format, LogFormat::Pretty);
    assert_eq!(c.output, LogOutput::Stdout);
    assert!(!c.writes_file());
}

#[test]
fn logging_config_from_values() {
    let c = LoggingConfig::from_vars(Some("debug".to_string()), Some("json".to_string()), Some("/var/log/app".to_string()));
    assert_eq!(c.level, "debug");
    assert_eq!(c.format, LogFormat::Json);
    assert_eq!(c.output, LogOutput::File { directory: "/var/log/app".to_string() });
    assert!(c.writes_file());
    let d = LoggingConfig::from_vars(None, Some("JSON".to_string()), Some("stdout".to_string()));
    assert_eq!(d.format, LogFormat::Pretty);
    assert_eq!(d.output, LogOutput::Stdout);
}

#[test]
fn provider_endpoints() {
    let c = provider_config();
    assert_eq!(c.token_endpoint(), "http://kc:8080/realms/tasks/protocol/openid-connect/token");
    assert_eq!(c.users_endpoint(), "http://kc:8080/admin/realms/tasks/users");
    let id = uuid::Uuid::parse_str(OWNER).unwrap().as_u128();
    assert_eq!(c.user_endpoint(id), format!("http://kc:8080/admin/realms/tasks/users/{}", OWNER));
}

#[test]
fn task_owner_parses_subject() {
    assert_eq!(task_owner(OWNER).unwrap(), uuid::Uuid::parse_str(OWNER).unwrap().as_u128());
    let e = task_owner("nope").unwrap_err();
    assert_eq!(e.status, 400);
    assert_eq!(e.error, "Invalid user ID format");
}

#[test]
fn task_deletion_outcomes() {
    assert_eq!(task_deletion(1).unwrap(), 204);
    let e = task_deletion(0).unwrap_err();
    assert_eq!((e.status, e.error.as_str()), (404, "Task not found"));
}

#[test]
fn account_and_password_outcomes() {
    assert!(account_deletion(2).is_ok());
    assert_eq!(account_deletion(0).unwrap_err().status, 404);
    assert!(password_check(true).is_ok());
    let e = password_check(false).unwrap_err();
    assert_eq!((e.status, e.error.as_str()), (401, "Invalid email or password"));
}

#[test]
fn admin_token_outcomes() {
    assert_eq!(admin_token(200, Some("tok".to_string())).unwrap(), "tok");
    assert_eq!(admin_token(401, Some("tok".to_string())).unwrap_err().error, "Invalid admin credentials");
    assert_eq!(admin_token(200, None).unwrap_err().error, "No access token in response");
}

#[test]
fn directory_outcomes() {
    assert!(directory_listing(200).is_ok());
    assert_eq!(directory_listing(502).unwrap_err().error, "Keycloak API error");
    assert!(directory_deletion(204, String::new()).is_ok());
    let nf = directory_deletion(404, String::new()).unwrap_err();
    assert_eq!((nf.status, nf.error.as_str()), (404, "User not found in Keycloak"));
    let other = directory_deletion(409, "conflict".to_string()).unwrap_err();
    assert_eq!(other.status, 500);
    assert_eq!(other.details, Some("conflict".to_string()));
}

#[test]
fn directory_user_defaults() {
    let r = user_from_directory(Some(OWNER), "null".to_string(), None, None, None);
    assert_eq!(r.id, uuid::Uuid::parse_str(OWNER).unwrap().as_u128());
    assert_eq!(r.name, "unknown");
    assert_eq!(r.email, "");
    assert_eq!(r.role, "null");
    assert!(r.verified);
    assert_eq!(r.created_at, Some(0));
    assert_eq!(r.updated_at, Some(0));
    let n = user_from_directory(Some("bad"), "\"admin\"".to_string(), Some("kim".to_string()), Some("k@x".to_string()), Some(1234));
    assert_eq!(n.id, 0);
    assert_eq!(n.name, "kim");
    assert_eq!(n.created_at, Some(1234));
}

#[test]
fn deletion_message_names_user() {
    let id = uuid::Uuid::parse_str(OWNER).unwrap().as_u128();
    assert_eq!(user_deleted_message(id), format!("User {} deleted successfully", OWNER));
}
