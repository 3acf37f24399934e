use task_api_guard::role::Role;

#[test]
fn role_admin_text_is_admin() {
    assert_eq!(Role::from_text("admin"), Role::Admin);
    assert_eq!(Role::from_text("ADMIN"), Role::Admin);
    assert_eq!(Role::from_text("Admin"), Role::Admin);
}

#[test]
fn role_user_text_is_user() {
    assert_eq!(Role::from_text("user"), Role::User);
    assert_eq!(Role::from_text("USER"), Role::User);
}

#[test]
fn role_unknown_text_falls_back_to_user() {
    assert_eq!(Role::from_text("superuser"), Role::User);
    assert_eq!(Role::from_text(""), Role::User);
    assert_eq!(Role::from_text(" admin"), Role::User);
    assert_eq!(Role::from_text("\"admin\""), Role::User);
}

#[test]
fn role_from_string_matches_from_text() {
    assert_eq!(Role::from("Admin".to_string()), Role::Admin);
    assert_eq!(Role::from("guest".to_string()), Role::User);
}

#[test]
fn role_names() {
    assert_eq!(Role::User.to_string(), "user");
    assert_eq!(Role::Admin.to_string(), "admin");
}
