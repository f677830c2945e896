//! Authentication: the claims a token carries, reading the `Authorization`
//! header, and the mock identities of development mode.

use vstd::prelude::*;
use crate::clock::now_millis;
use crate::text::{concat, own, strip_prefix, text_eq};

verus! {

/// What an access token says of its bearer: the subject (a user id), email
/// address, name, expiry and issue instants (seconds since the epoch), and
/// roles.
#[derive(Debug, Clone)]
pub struct Claims {
    pub sub: String,
    pub email: String,
    pub name: String,
    pub exp: usize,
    pub iat: usize,
    pub roles: Option<Vec<String>>,
}

/// The roles include `role`.
pub open spec fn has_role(roles: Option<Vec<String>>, role: Seq<char>) -> bool {
    match roles {
        Some(v) => exists|i: int| 0 <= i < v@.len() && #[trigger] v@[i]@ == role,
        None => false,
    }
}

/// Roles: every role in the list is held, wherever it stands in it; no role
/// is held that the list does not hold, nor any without a list; and adding
/// a role to the end of a list adds exactly that role to those held.
pub proof fn law_roles_are_the_listed_ones(v: Vec<String>, w: Vec<String>, x: String, i: int, role: Seq<char>)
    ensures
        0 <= i < v@.len() ==> has_role(Some(v), v@[i]@),
        has_role(Some(v), role) ==> v@.map_values(|s: String| s@).contains(role),
        !has_role(None, role),
        w@ == v@.push(x) ==> (has_role(Some(w), role) <==> (has_role(Some(v), role) || x@ == role)),
{
    if 0 <= i < v@.len() {
        let r = v@[i]@;
        let roles = Some(v);
        assert(roles->0@[i]@ == r);
        assert(has_role(roles, r));
    }
    if has_role(Some(v), role) {
        let k = choose|k: int| 0 <= k < v@.len() && #[trigger] v@[k]@ == role;
        assert(v@.map_values(|s: String| s@)[k] == role);
    }
    if w@ == v@.push(x) {
        let rv = Some(v);
        let rw = Some(w);
        if has_role(rw, role) {
            let k = choose|k: int| 0 <= k < w@.len() && #[trigger] w@[k]@ == role;
            if k < v@.len() {
                assert(w@[k] == v@[k]);
                assert(rv->0@[k]@ == role);
            } else {
                assert(w@[k] == x);
            }
        }
        if has_role(rv, role) {
            let k = choose|k: int| 0 <= k < v@.len() && #[trigger] v@[k]@ == role;
            assert(w@[k] == v@[k]);
            assert(rw->0@[k]@ == role);
        }
        if x@ == role {
            assert(w@[v@.len() as int] == x);
            assert(rw->0@[v@.len() as int]@ == role);
        }
    }
}

/// Whether the list of roles, where there is one, holds `role`.
fn holds_role(roles: &Option<Vec<String>>, role: &str) -> (r: bool)
    ensures
        r == has_role(*roles, role@),
{
    match roles {
        Some(list) => {
            let mut i: usize = 0;
            while i < list.len()
                invariant
                    i <= list.len(),
                    roles is Some,
                    list@ == roles->0@,
                    forall|j: int| 0 <= j < i ==> list@[j]@ != role@,
                decreases list.len() - i,
            {
                if text_eq(list[i].as_str(), role) {
                    assert(list@[i as int]@ == role@);
                    return true;
                }
                i = i + 1;
            }
            false
        },
        None => false,
    }
}

impl Claims {
    /// Whether the roles include `admin`.
    pub fn is_admin(&self) -> (r: bool)
        ensures
            r == has_role(self.roles, "admin"@),
    {
        holds_role(&self.roles, "admin")
    }

    /// Whether the roles include `organizer`.
    pub fn is_organizer(&self) -> (r: bool)
        ensures
            r == has_role(self.roles, "organizer"@),
    {
        holds_role(&self.roles, "organizer")
    }
}

/// Where tokens are issued: the Keycloak realm and the API's client id.
#[derive(Debug, Clone)]
pub struct KeycloakConfig {
    pub realm_url: String,
    pub client_id: String,
}

impl KeycloakConfig {
    pub fn new(realm_url: String, client_id: String) -> (r: Self)
        ensures
            r.realm_url == realm_url,
            r.client_id == client_id,
    {
        KeycloakConfig { realm_url, client_id }
    }
}

/// The token of an `Authorization` header: what follows `Bearer `; a
/// header of any other form carries none.
pub fn bearer_token(header: &str) -> (r: Option<&str>)
    ensures
        r is Some <==> "Bearer "@.is_prefix_of(header@),
        r matches Some(token) ==> token@ == header@.subrange(7, header@.len() as int),
{
    proof {
        reveal_strlit("Bearer ");
    }
    strip_prefix(header, "Bearer ")
}

/// Whether development mode's mock authentication is on.
#[derive(Debug, Clone, Copy)]
pub struct MockAuthConfig {
    pub enabled: bool,
}

impl MockAuthConfig {
    pub fn new(enabled: bool) -> (r: Self)
        ensures
            r.enabled == enabled,
    {
        MockAuthConfig { enabled }
    }
}

/// The subject, email address and name of a mock user: four known users,
/// and one stand-in for every other name.
pub open spec fn mock_identity(user_id: Seq<char>) -> (Seq<char>, Seq<char>, Seq<char>) {
    if user_id == "dev-user"@ {
        ("550e8400-e29b-41d4-a716-446655440001"@, "dev@aquanorway.no"@, "Development User"@)
    } else if user_id == "admin-user"@ {
        ("550e8400-e29b-41d4-a716-446655440010"@, "admin@aqio.no"@, "Admin User"@)
    } else if user_id == "john-doe"@ {
        ("550e8400-e29b-41d4-a716-446655440011"@, "john.doe@salmonfarm.no"@, "John Doe"@)
    } else if user_id == "jane-smith"@ {
        ("550e8400-e29b-41d4-a716-446655440012"@, "jane.smith@troutco.no"@, "Jane Smith"@)
    } else {
        ("550e8400-e29b-41d4-a716-446655440099"@, "unknown@example.no"@, "Unknown User"@)
    }
}

/// A mock token lasts an hour.
pub const MOCK_TOKEN_SECONDS: i64 = 3600;

/// `c` are the claims of mock user `user_id`, issued at `now` (seconds),
/// valid for an hour, without roles (instants as `usize` values).
pub open spec fn mock_claims(c: Claims, user_id: Seq<char>, now: i64) -> bool {
    let (sub, email, name) = mock_identity(user_id);
    &&& c.sub@ == sub
    &&& c.email@ == email
    &&& c.name@ == name
    &&& c.iat == now as usize
    &&& c.exp == (now + MOCK_TOKEN_SECONDS) as usize
    &&& c.roles is None
}

/// Largest instant, in seconds, that the clock gives.
pub const LATEST_SECONDS: i64 = 9_000_000_000_000;

/// The claims of mock user `user_id`, issued at `now` (seconds since the
/// epoch).
pub fn create_mock_claims_at(user_id: &str, now: i64) -> (r: Claims)
    requires
        0 <= now <= LATEST_SECONDS,
    ensures
        mock_claims(r, user_id@, now),
{
    let (sub, email, name) = if text_eq(user_id, "dev-user") {
        ("550e8400-e29b-41d4-a716-446655440001", "dev@aquanorway.no", "Development User")
    } else if text_eq(user_id, "admin-user") {
        ("550e8400-e29b-41d4-a716-446655440010", "admin@aqio.no", "Admin User")
    } else if text_eq(user_id, "john-doe") {
        ("550e8400-e29b-41d4-a716-446655440011", "john.doe@salmonfarm.no", "John Doe")
    } else if text_eq(user_id, "jane-smith") {
        ("550e8400-e29b-41d4-a716-446655440012", "jane.smith@troutco.no", "Jane Smith")
    } else {
        ("550e8400-e29b-41d4-a716-446655440099", "unknown@example.no", "Unknown User")
    };
    Claims {
        sub: own(sub),
        email: own(email),
        name: own(name),
        exp: (now + MOCK_TOKEN_SECONDS) as usize,
        iat: now as usize,
        roles: None,
    }
}

/// The current instant in whole seconds since the epoch.
pub fn now_seconds() -> (r: i64)
    ensures
        0 <= r <= LATEST_SECONDS,
{
    now_millis() / 1000
}

/// The claims of mock user `user_id`, issued now.
pub fn create_mock_claims(user_id: &str) -> (r: Claims)
    ensures
        exists|now: i64| 0 <= now <= LATEST_SECONDS && mock_claims(r, user_id@, now),
{
    create_mock_claims_at(user_id, now_seconds())
}

/// Status with which a request without valid credentials is refused.
pub const UNAUTHORIZED: u16 = 401;

/// The mock user named by an `Authorization` header: `Bearer mock-<name>`
/// names `<name>`, no header names `dev-user`, and any other header names
/// nobody.
pub open spec fn mock_user_named(header: Option<Seq<char>>) -> Option<Seq<char>> {
    match header {
        None => Some("dev-user"@),
        Some(h) => if "Bearer mock-"@.is_prefix_of(h) {
            Some(h.subrange(12, h.len() as int))
        } else {
            None
        },
    }
}

/// The text of a header, where there is one.
pub open spec fn header_text(header: Option<&str>) -> Option<Seq<char>> {
    match header {
        Some(h) => Some(h@),
        None => None,
    }
}

/// Mock authentication of a request with `Authorization` header `header`,
/// at `now` (seconds): refused (401) when mock authentication is off or the
/// header names no mock user, and otherwise the claims of the user it
/// names.
pub fn mock_authenticate(config: &MockAuthConfig, header: Option<&str>, now: i64) -> (r: Result<Claims, u16>)
    requires
        0 <= now <= LATEST_SECONDS,
    ensures
        match r {
            Ok(c) => config.enabled && (mock_user_named(header_text(header)) matches Some(user) && mock_claims(
                c,
                user,
                now,
            )),
            Err(status) => status == UNAUTHORIZED && (!config.enabled || mock_user_named(header_text(header)) is None),
        },
{
    if !config.enabled {
        return Err(UNAUTHORIZED);
    }
    match header {
        Some(h) => {
            proof {
                reveal_strlit("Bearer mock-");
            }
            match strip_prefix(h, "Bearer mock-") {
                Some(user_id) => Ok(create_mock_claims_at(user_id, now)),
                None => Err(UNAUTHORIZED),
            }
        },
        None => Ok(create_mock_claims_at("dev-user", now)),
    }
}

/// A mock login asks for a user by name.
#[derive(Debug, Clone)]
pub struct LoginRequest {
    pub username: Option<String>,
}

/// Who a mock user is.
#[derive(Debug, Clone)]
pub struct MockUser {
    pub id: String,
    pub email: String,
    pub name: String,
}

/// The answer to a mock login: a token that names the user, and who it is.
#[derive(Debug, Clone)]
pub struct LoginResponse {
    pub access_token: String,
    pub token_type: String,
    pub user: MockUser,
}

/// `u` is mock user `user_id`.
pub open spec fn is_mock_user(u: MockUser, user_id: Seq<char>) -> bool {
    let (sub, email, name) = mock_identity(user_id);
    u.id@ == sub && u.email@ == email && u.name@ == name
}

/// The answer to a mock login as `request.username` (`dev-user` when none
/// is given): the bearer token `mock-<name>` and the user it names.
pub fn mock_login(request: LoginRequest) -> (r: LoginResponse)
    ensures
        ({
            let user = match request.username {
                Some(u) => u@,
                None => "dev-user"@,
            };
            &&& r.access_token@ == "mock-"@ + user
            &&& r.token_type@ == "Bearer"@
            &&& is_mock_user(r.user, user)
        }),
{
    let username = match request.username {
        Some(u) => u,
        None => own("dev-user"),
    };
    let claims = create_mock_claims(username.as_str());
    LoginResponse {
        access_token: concat("mock-", username.as_str()),
        token_type: own("Bearer"),
        user: MockUser { id: claims.sub, email: claims.email, name: claims.name },
    }
}

/// Who the bearer of `claims` is; a request without claims is refused
/// (401).
pub fn mock_user_info(claims: Option<Claims>) -> (r: Result<MockUser, u16>)
    ensures
        match claims {
            Some(c) => r matches Ok(u) && u.id == c.sub && u.email == c.email && u.name == c.name,
            None => r == Err::<MockUser, u16>(UNAUTHORIZED),
        },
{
    match claims {
        Some(c) => Ok(MockUser { id: c.sub, email: c.email, name: c.name }),
        None => Err(UNAUTHORIZED),
    }
}

} // verus!
