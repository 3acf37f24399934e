//! Turning verified claims into the request-scoped identity, for the local
//! variant (subject looked up in the profile store) and the provider variant
//! (claims are self-sufficient).

use vstd::prelude::*;
use crate::claims::{Claims, ClaimsView, TOKEN_LIFETIME, in_force};
use crate::error::AuthError;
use crate::role::{Role, role_from_text};
use crate::text::str_equal;
use crate::token::{bearer_prefix, bearer_token_of, claims_result_matches, hs256_claims, header_view, local_outcome, verify_local};

verus! {

/// What `uuid::Uuid::parse_str` yields for a text, as a 128-bit value;
/// `None` where the text is not a UUID.
pub uninterp spec fn uuid_of(s: Seq<char>) -> Option<u128>;

/// What `uuid::Uuid::to_string` yields for a 128-bit value.
pub uninterp spec fn uuid_text_of(id: u128) -> Seq<char>;

/// Relies on `uuid::Uuid::parse_str`: whether the text is a UUID in one of
/// the accepted forms, and its value; a function of the text alone.
#[verifier::external_body]
pub(crate) fn parse_uuid(s: &str) -> (r: Option<u128>)
    ensures
        r == uuid_of(s@),
{
    uuid::Uuid::parse_str(s).ok().map(|u| u.as_u128())
}

/// Relies on `uuid::Uuid`'s `Display`: the hyphenated lower-case text of a
/// value, a function of the value alone.
#[verifier::external_body]
pub(crate) fn uuid_text(id: u128) -> (r: String)
    ensures
        r@ == uuid_text_of(id),
{
    uuid::Uuid::from_u128(id).to_string()
}

/// A profile as the local credential store returns it.
#[derive(Clone, Debug, PartialEq, Eq)]
pub struct Profile {
    pub id: u128,
    pub name: String,
    pub email: String,
    pub role: String,
    pub verified: bool,
    /// Milliseconds since the Unix epoch.
    pub created_at: Option<i64>,
    /// Milliseconds since the Unix epoch.
    pub updated_at: Option<i64>,
}

/// The authenticated caller, attached to one request and read by the
/// stages inside it.
#[derive(Clone, Debug, PartialEq, Eq)]
pub struct Identity {
    pub subject: String,
    pub role: Role,
    pub profile: Option<Profile>,
}

impl Profile {
    /// A field-by-field copy.
    pub fn duplicate(&self) -> (r: Profile)
        ensures
            r == *self,
    {
        Profile {
            id: self.id,
            name: self.name.clone(),
            email: self.email.clone(),
            role: self.role.clone(),
            verified: self.verified,
            created_at: self.created_at,
            updated_at: self.updated_at,
        }
    }
}

impl Identity {
    /// A field-by-field copy.
    pub fn duplicate(&self) -> (r: Identity)
        ensures
            r == *self,
    {
        let profile = match &self.profile {
            Some(p) => Some(p.duplicate()),
            None => None,
        };
        Identity { subject: self.subject.clone(), role: self.role, profile }
    }
}

/// An identity as mathematical values: subject and role.
pub type IdentityView = (Seq<char>, Role);

impl View for Identity {
    type V = IdentityView;

    open spec fn view(&self) -> IdentityView {
        (self.subject@, self.role)
    }
}

/// The answer of the profile store to "fetch profile by subject id".
#[derive(Clone, Debug, PartialEq, Eq)]
pub enum ProfileLookup {
    Found(Profile),
    NotFound,
    Unavailable,
}

/// What the local variant does next after the header and the token have
/// been checked: fetch the profile of a subject, or reject.
#[derive(Clone, Debug, PartialEq, Eq)]
pub enum LocalStep {
    FetchProfile { claims: Claims, id: u128 },
    Reject(AuthError),
}

/// The subject identifier that claims name, or `MalformedSubject`.
pub open spec fn subject_outcome(c: ClaimsView) -> Result<(ClaimsView, u128), AuthError> {
    match uuid_of(c.0) {
        Some(id) => Ok((c, id)),
        None => Err(AuthError::MalformedSubject),
    }
}

/// The first half of local authentication: header, token, then subject.
pub open spec fn start_outcome(h: Option<Seq<char>>, secret: Seq<u8>, now: u64) -> Result<(ClaimsView, u128), AuthError> {
    match local_outcome(h, secret, now) {
        Ok(c) => subject_outcome(c),
        Err(e) => Err(e),
    }
}

/// The second half of local authentication: the store's answer for the
/// subject `id` turned into an identity.
pub open spec fn finish_outcome(c: ClaimsView, id: u128, lookup: ProfileLookup) -> Result<IdentityView, AuthError> {
    match lookup {
        ProfileLookup::Found(p) => if p.id == id {
            Ok((c.0, role_from_text(p.role@)))
        } else {
            Err(AuthError::SubjectNotFound)
        },
        ProfileLookup::NotFound => Err(AuthError::SubjectNotFound),
        ProfileLookup::Unavailable => Err(AuthError::UpstreamUnavailable),
    }
}

/// Whether a step matches a spec outcome of the first half.
pub open spec fn step_matches(s: LocalStep, v: Result<(ClaimsView, u128), AuthError>) -> bool {
    match s {
        LocalStep::FetchProfile { claims, id } => v == Ok::<(ClaimsView, u128), AuthError>((claims@, id)),
        LocalStep::Reject(e) => v == Err::<(ClaimsView, u128), AuthError>(e),
    }
}

/// Whether an exec identity result matches a spec outcome.
pub open spec fn identity_result_matches(r: Result<Identity, AuthError>, v: Result<IdentityView, AuthError>) -> bool {
    match r {
        Ok(i) => v == Ok::<IdentityView, AuthError>(i@),
        Err(e) => v == Err::<IdentityView, AuthError>(e),
    }
}

/// The subject identifier that claims name, or `MalformedSubject` where the
/// subject is not a UUID.
pub fn subject_id(claims: &Claims) -> (r: Result<u128, AuthError>)
    ensures
        match r {
            Ok(id) => subject_outcome(claims@) == Ok::<(ClaimsView, u128), AuthError>((claims@, id)),
            Err(e) => subject_outcome(claims@) == Err::<(ClaimsView, u128), AuthError>(e),
        },
{
    match parse_uuid(claims.sub.as_str()) {
        Some(id) => Ok(id),
        None => Err(AuthError::MalformedSubject),
    }
}

/// Starts local authentication of a request: checks the header and the
/// token at `now`, then the subject, and says which profile to fetch.
pub fn start_local_authentication(header: Option<&str>, secret: &[u8], now: u64) -> (r: LocalStep)
    ensures
        step_matches(r, start_outcome(header_view(header), secret@, now)),
{
    let verified = verify_local(header, secret, now);
    assert(claims_result_matches(verified, local_outcome(header_view(header), secret@, now)));
    match verified {
        Err(e) => LocalStep::Reject(e),
        Ok(claims) => match subject_id(&claims) {
            Ok(id) => LocalStep::FetchProfile { claims, id },
            Err(e) => LocalStep::Reject(e),
        },
    }
}

/// Finishes local authentication with the store's answer for subject `id`:
/// a found profile of that id gives an identity with the token's subject
/// and the profile's role; no profile gives `SubjectNotFound`; an
/// unreachable store gives `UpstreamUnavailable`.
pub fn finish_local_authentication(claims: Claims, id: u128, lookup: ProfileLookup) -> (r: Result<Identity, AuthError>)
    ensures
        identity_result_matches(r, finish_outcome(claims@, id, lookup)),
        match (r, lookup) {
            (Ok(i), ProfileLookup::Found(p)) => i.profile == Some(p),
            _ => true,
        },
{
    match lookup {
        ProfileLookup::Found(p) => if p.id == id {
            let role = Role::from_text(p.role.as_str());
            Ok(Identity { subject: claims.sub, role, profile: Some(p) })
        } else {
            Err(AuthError::SubjectNotFound)
        },
        ProfileLookup::NotFound => Err(AuthError::SubjectNotFound),
        ProfileLookup::Unavailable => Err(AuthError::UpstreamUnavailable),
    }
}

/// Claims for a login of the user `id` at `now`, valid for `TOKEN_LIFETIME`.
pub fn claims_for_user(id: u128, now: u64) -> (r: Claims)
    requires
        now + TOKEN_LIFETIME <= u64::MAX,
    ensures
        r.sub@ == uuid_text_of(id),
        r.iat == now,
        r.exp == now + TOKEN_LIFETIME,
{
    Claims::issue(uuid_text(id), now)
}

/// Claims of a token checked by the identity provider: subject, audiences
/// and the realm and client roles it carries.
#[derive(Clone, Debug, PartialEq, Eq)]
pub struct ProviderClaims {
    pub subject: String,
    pub audience: Vec<String>,
    pub roles: Vec<Role>,
}

/// The role that a set of provider roles confers: `Admin` when any of them
/// is `Admin`, else `User`.
pub open spec fn provider_role(roles: Seq<Role>) -> Role {
    if roles.contains(Role::Admin) {
        Role::Admin
    } else {
        Role::User
    }
}

/// Whether `aud` is among the audiences of a token.
pub open spec fn audience_listed(audience: Seq<String>, aud: Seq<char>) -> bool {
    exists|i: int| 0 <= i < audience.len() && (#[trigger] audience[i])@ == aud
}

/// The outcome of the provider variant for decoded claims.
pub open spec fn provider_outcome(decoded: Option<ProviderClaims>, expected_audience: Seq<char>) -> Result<IdentityView, AuthError> {
    match decoded {
        None => Err(AuthError::InvalidToken),
        Some(c) => if audience_listed(c.audience@, expected_audience) {
            Ok((c.subject@, provider_role(c.roles@)))
        } else {
            Err(AuthError::AudienceMismatch)
        },
    }
}

/// Whether `role` is among `roles`.
pub fn has_role(roles: &Vec<Role>, role: Role) -> (r: bool)
    ensures
        r == roles@.contains(role),
{
    let mut i: usize = 0;
    while i < roles.len()
        invariant
            i <= roles@.len(),
            forall|k: int| 0 <= k < i ==> roles@[k] != role,
        decreases roles@.len() - i,
    {
        if roles[i] == role {
            return true;
        }
        i = i + 1;
    }
    false
}

/// Resolves the claims of a provider-checked token (`None` where the
/// provider rejected it) into an identity. The expected audience must be
/// among the token's audiences; the identity's role is `Admin` when any of
/// the token's roles is `Admin`. This cannot fail for other reasons.
pub fn resolve_provider(decoded: Option<ProviderClaims>, expected_audience: &str) -> (r: Result<Identity, AuthError>)
    ensures
        identity_result_matches(r, provider_outcome(decoded, expected_audience@)),
        r matches Ok(i) ==> i.profile is None,
{
    match decoded {
        None => Err(AuthError::InvalidToken),
        Some(c) => {
            let mut i: usize = 0;
            let mut listed = false;
            while i < c.audience.len()
                invariant
                    i <= c.audience@.len(),
                    listed == exists|k: int| 0 <= k < i && (#[trigger] c.audience@[k])@ == expected_audience@,
                decreases c.audience@.len() - i,
            {
                if str_equal(c.audience[i].as_str(), expected_audience) {
                    listed = true;
                }
                i = i + 1;
            }
            if !listed {
                return Err(AuthError::AudienceMismatch);
            }
            let role = if has_role(&c.roles, Role::Admin) {
                Role::Admin
            } else {
                Role::User
            };
            Ok(Identity { subject: c.subject, role, profile: None })
        }
    }
}

/// A non-empty token that carries a valid HS256 signature under the secret
/// and claims in force at `now`, sent as `Bearer <token>`, passes the first
/// half of local authentication; with the profile of its subject, the
/// resulting identity carries the token's subject claim.
pub proof fn lemma_signed_token_identifies_subject(
    token: Seq<char>,
    secret: Seq<u8>,
    now: u64,
    c: ClaimsView,
    id: u128,
    p: Profile,
)
    requires
        token.len() > 0,
        hs256_claims(token, secret) == Some(c),
        in_force(c, now),
        uuid_of(c.0) == Some(id),
        p.id == id,
    ensures
        start_outcome(Some(bearer_prefix() + token), secret, now) == Ok::<(ClaimsView, u128), AuthError>((c, id)),
        finish_outcome(c, id, ProfileLookup::Found(p)) == Ok::<IdentityView, AuthError>((c.0, role_from_text(p.role@))),
{
    reveal_strlit("Bearer ");
    let h = bearer_prefix() + token;
    assert(h.subrange(0, 7) =~= bearer_prefix());
    assert(h.subrange(7, h.len() as int) =~= token);
    assert(bearer_token_of(Some(h)) == Some(token));
}

/// Verifying the same header twice, at two times at which its claims are in
/// force, gives the same claims and the same subject id, from which, with
/// the store's answer, the identity (subject and role) is formed.
pub proof fn lemma_verification_repeatable(
    h: Option<Seq<char>>,
    secret: Seq<u8>,
    now1: u64,
    now2: u64,
)
    requires
        bearer_token_of(h) matches Some(t) && (hs256_claims(t, secret) matches Some(c) && in_force(c, now1)
            && in_force(c, now2)),
    ensures
        local_outcome(h, secret, now1) is Ok,
        local_outcome(h, secret, now1) == local_outcome(h, secret, now2),
        start_outcome(h, secret, now1) == start_outcome(h, secret, now2),
{
}

} // verus!
