use task_api_guard::claims::Claims;
use task_api_guard::error::AuthError;
use task_api_guard::identity::{
    claims_for_user, finish_local_authentication, has_role, resolve_provider, start_local_authentication,
    subject_id, LocalStep, Profile, ProfileLookup, ProviderClaims,
};
use task_api_guard::role::Role;

const KEY: &[u8] = b"identity-test-secret";
const AT: u64 = 1_700_000_000;
const SUBJECT: &str = "67e55044-10b1-426f-9247-bb680e5fe0c8";

fn uuid_value(s: &str) -> u128 {
    uuid::Uuid::parse_str(s).unwrap().as_u128()
}

fn token_for(sub: &str, iat: u64, exp: u64) -> String {
    let mut m = serde_json::Map::new();
    m.insert("sub".to_string(), serde_json::Value::String(sub.to_string()));
    m.insert("iat".to_string(), serde_json::Value::from(iat));
    m.insert("exp".to_string(), serde_json::Value::from(exp));
    jsonwebtoken::encode(
        &jsonwebtoken::Header::default(),
        &serde_json::Value::Object(m),
        &jsonwebtoken::EncodingKey::from_secret(KEY),
    )
    .unwrap()
}

fn profile(id: u128, role: &str) -> Profile {
    Profile {
        id,
        name: "Ada".to_string(),
        email: "ada@example.com".to_string(),
        role: role.to_string(),
        verified: true,
        created_at: Some(1),
        updated_at: Some(2),
    }
}

#[test]
fn local_authentication_attaches_token_subject() {
    let header = format!("Bearer {}", token_for(SUBJECT, AT - 1, AT + 60));
    let step = start_local_authentication(Some(&header), KEY, AT);
    let id = uuid_value(SUBJECT);
    match step {
        LocalStep::FetchProfile { claims, id: got } => {
            assert_eq!(got, id);
            let identity = finish_local_authentication(claims, got, ProfileLookup::Found(profile(id, "user"))).unwrap();
            assert_eq!(identity.subject, SUBJECT);
            assert_eq!(identity.role, Role::User);
            assert_eq!(identity.profile, Some(profile(id, "user")));
        }
        LocalStep::Reject(e) => panic!("rejected: {:?}", e),
    }
}

#[test]
fn local_authentication_takes_role_from_profile() {
    let id = uuid_value(SUBJECT);
    let claims = Claims { sub: SUBJECT.to_string(), iat: 1, exp: 2 };
    let identity = finish_local_authentication(claims, id, ProfileLookup::Found(profile(id, "ADMIN"))).unwrap();
    assert_eq!(identity.role, Role::Admin);
}

#[test]
fn local_authentication_rejects_malformed_subject() {
    let header = format!("Bearer {}", token_for("not-a-uuid", AT - 1, AT + 60));
    assert_eq!(start_local_authentication(Some(&header), KEY, AT), LocalStep::Reject(AuthError::MalformedSubject));
}

#[test]
fn local_authentication_rejects_missing_header() {
    assert_eq!(start_local_authentication(None, KEY, AT), LocalStep::Reject(AuthError::MalformedAuthHeader));
}

#[test]
fn local_authentication_rejects_expired_token() {
    let header = format!("Bearer {}", token_for(SUBJECT, AT - 100, AT - 50));
    assert_eq!(start_local_authentication(Some(&header), KEY, AT), LocalStep::Reject(AuthError::InvalidToken));
}

#[test]
fn local_authentication_unknown_subject() {
    let id = uuid_value(SUBJECT);
    let claims = Claims { sub: SUBJECT.to_string(), iat: 1, exp: 2 };
    assert_eq!(finish_local_authentication(claims.clone(), id, ProfileLookup::NotFound), Err(AuthError::SubjectNotFound));
    assert_eq!(
        finish_local_authentication(claims, id, ProfileLookup::Found(profile(id + 1, "user"))),
        Err(AuthError::SubjectNotFound)
    );
}

#[test]
fn local_authentication_store_unavailable() {
    let id = uuid_value(SUBJECT);
    let claims = Claims { sub: SUBJECT.to_string(), iat: 1, exp: 2 };
    assert_eq!(finish_local_authentication(claims, id, ProfileLookup::Unavailable), Err(AuthError::UpstreamUnavailable));
}

#[test]
fn subject_id_parses_uuid() {
    let c = Claims { sub: SUBJECT.to_string(), iat: 1, exp: 2 };
    assert_eq!(subject_id(&c), Ok(uuid_value(SUBJECT)));
    let bad = Claims { sub: "42".to_string(), iat: 1, exp: 2 };
    assert_eq!(subject_id(&bad), Err(AuthError::MalformedSubject));
}

#[test]
fn login_claims_name_the_user() {
    let id = uuid_value(SUBJECT);
    let c = claims_for_user(id, 5000);
    assert_eq!(c.sub, SUBJECT);
    assert_eq!(c.iat, 5000);
    assert_eq!(c.exp, 5000 + 24 * 3600);
}

#[test]
fn provider_identity_requires_audience() {
    let c = ProviderClaims { subject: "kc-1".to_string(), audience: vec!["other".to_string()], roles: vec![Role::User] };
    assert_eq!(resolve_provider(Some(c), "task-api"), Err(AuthError::AudienceMismatch));
    assert_eq!(resolve_provider(None, "task-api"), Err(AuthError::InvalidToken));
}

#[test]
fn provider_identity_role_from_roles() {
    let c = ProviderClaims {
        subject: "kc-1".to_string(),
        audience: vec!["account".to_string(), "task-api".to_string()],
        roles: vec![Role::User, Role::Admin],
    };
    let i = resolve_provider(Some(c), "task-api").unwrap();
    assert_eq!(i.subject, "kc-1");
    assert_eq!(i.role, Role::Admin);
    assert_eq!(i.profile, None);
    let u = ProviderClaims { subject: "kc-2".to_string(), audience: vec!["task-api".to_string()], roles: vec![] };
    assert_eq!(resolve_provider(Some(u), "task-api").unwrap().role, Role::User);
}

#[test]
fn has_role_finds_members() {
    assert!(has_role(&vec![Role::User, Role::Admin], Role::Admin));
    assert!(!has_role(&vec![Role::User], Role::Admin));
    assert!(!has_role(&vec![], Role::User));
}
