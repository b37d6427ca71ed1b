use vstd::prelude::*;

verus! {

/// A user as the identity provider reports it: the fields that the service
/// passes on, and the fields that it never passes on.
#[derive(Clone, Debug, PartialEq, Eq)]
pub struct UserRecord {
    pub id: Option<String>,
    pub username: Option<String>,
    pub first_name: Option<String>,
    pub last_name: Option<String>,
    pub email: Option<String>,
    pub email_verified: Option<bool>,
    pub attributes: Option<Vec<(String, Vec<String>)>>,
    pub enabled: Option<bool>,
    pub access: Option<Vec<(String, bool)>>,
    pub application_roles: Option<Vec<(String, Vec<String>)>>,
    pub client_roles: Option<Vec<(String, Vec<String>)>>,
    pub created_timestamp: Option<i64>,
    pub disableable_credential_types: Option<Vec<String>>,
    pub federation_link: Option<String>,
    pub groups: Option<Vec<String>>,
    pub not_before: Option<i32>,
    pub origin: Option<String>,
    pub realm_roles: Option<Vec<String>>,
    pub required_actions: Option<Vec<String>>,
    pub self_link: Option<String>,
    pub service_account_client_id: Option<String>,
    pub totp: Option<bool>,
}

/// The filters that a user search hands to the identity provider.
#[derive(Clone, Debug, PartialEq, Eq)]
pub struct UserSearch {
    pub email: Option<String>,
    pub email_verified: Option<bool>,
    pub enabled: Option<bool>,
    pub first_name: Option<String>,
    pub last_name: Option<String>,
    pub username: Option<String>,
}

/// A failed call to the identity provider.
#[derive(Clone, Debug, PartialEq, Eq)]
pub enum KeycloakFailure {
    /// The request did not get an answer.
    Network(String),
    /// The provider answered with a status that is not a success.
    Http { status: u16, text: String },
}

/// The error of a request to the identity provider.
#[derive(Clone, Debug, PartialEq, Eq)]
pub enum RequestError<T> {
    /// A failure before the provider was asked (configuration, token).
    Other(String),
    /// The provider's own failure.
    Keycloak(T),
}

/// The public view of a user: identity, names, e-mail, attributes and whether
/// it is enabled; everything else is left out.
pub open spec fn public_user(v: UserRecord) -> UserRecord {
    UserRecord {
        id: v.id,
        username: v.username,
        first_name: v.first_name,
        last_name: v.last_name,
        email: v.email,
        email_verified: v.email_verified,
        attributes: v.attributes,
        enabled: v.enabled,
        access: None,
        application_roles: None,
        client_roles: None,
        created_timestamp: None,
        disableable_credential_types: None,
        federation_link: None,
        groups: None,
        not_before: None,
        origin: None,
        realm_roles: None,
        required_actions: None,
        self_link: None,
        service_account_client_id: None,
        totp: None,
    }
}

/// Keeps the public fields of a user and clears all others.
pub fn safe_user_data(v: UserRecord) -> (r: UserRecord)
    ensures
        r == public_user(v),
        r.id == v.id && r.username == v.username && r.first_name == v.first_name && r.last_name == v.last_name,
        r.email == v.email && r.email_verified == v.email_verified && r.attributes == v.attributes,
        r.enabled == v.enabled,
        r.access is None && r.application_roles is None && r.client_roles is None,
        r.created_timestamp is None && r.disableable_credential_types is None && r.federation_link is None,
        r.groups is None && r.not_before is None && r.origin is None && r.realm_roles is None,
        r.required_actions is None && r.self_link is None && r.service_account_client_id is None,
        r.totp is None,
{
    UserRecord {
        id: v.id,
        username: v.username,
        first_name: v.first_name,
        last_name: v.last_name,
        email: v.email,
        email_verified: v.email_verified,
        attributes: v.attributes,
        enabled: v.enabled,
        access: None,
        application_roles: None,
        client_roles: None,
        created_timestamp: None,
        disableable_credential_types: None,
        federation_link: None,
        groups: None,
        not_before: None,
        origin: None,
        realm_roles: None,
        required_actions: None,
        self_link: None,
        service_account_client_id: None,
        totp: None,
    }
}

/// The public view of each user, in order.
pub fn sanitize_users(users: Vec<UserRecord>) -> (r: Vec<UserRecord>)
    ensures
        r@.len() == users@.len(),
        forall|i: int| 0 <= i < users@.len() ==> #[trigger] r@[i] == public_user(users@[i]),
{
    let ghost given = users@;
    let mut rest = users;
    let mut r: Vec<UserRecord> = Vec::new();
    let n = rest.len();
    let mut i: usize = 0;
    while i < n
        invariant
            n == given.len(),
            i <= n,
            rest@ == given.skip(i as int),
            r@.len() == i,
            forall|j: int| 0 <= j < i ==> #[trigger] r@[j] == public_user(given[j]),
        decreases n - i,
    {
        let u = rest.remove(0);
        proof {
            assert(u == given[i as int]);
            assert(rest@ =~= given.skip(i + 1));
        }
        r.push(safe_user_data(u));
        i = i + 1;
    }
    r
}

/// The search filters taken from an optional example user: its e-mail, e-mail
/// status, enabled flag, first and last name and username; none without one.
pub fn user_search(search: Option<UserRecord>) -> (r: UserSearch)
    ensures
        r == match search {
            Some(u) => UserSearch {
                email: u.email,
                email_verified: u.email_verified,
                enabled: u.enabled,
                first_name: u.first_name,
                last_name: u.last_name,
                username: u.username,
            },
            None => UserSearch {
                email: None,
                email_verified: None,
                enabled: None,
                first_name: None,
                last_name: None,
                username: None,
            },
        },
{
    match search {
        Some(u) => UserSearch {
            email: u.email,
            email_verified: u.email_verified,
            enabled: u.enabled,
            first_name: u.first_name,
            last_name: u.last_name,
            username: u.username,
        },
        None => UserSearch {
            email: None,
            email_verified: None,
            enabled: None,
            first_name: None,
            last_name: None,
            username: None,
        },
    }
}

/// The answer to a lookup of one user: its public view, nothing when the
/// provider answers 404, the provider's failure otherwise.
pub open spec fn user_lookup(outcome: Result<UserRecord, KeycloakFailure>) -> Result<Option<UserRecord>, RequestError<KeycloakFailure>> {
    match outcome {
        Ok(u) => Ok(Some(public_user(u))),
        Err(KeycloakFailure::Http { status, text }) => if status == 404 {
            Ok(None)
        } else {
            Err(RequestError::Keycloak(KeycloakFailure::Http { status, text }))
        },
        Err(e) => Err(RequestError::Keycloak(e)),
    }
}

/// Turns the provider's answer to a lookup of one user into the service's answer.
pub fn realm_user(outcome: Result<UserRecord, KeycloakFailure>) -> (r: Result<Option<UserRecord>, RequestError<KeycloakFailure>>)
    ensures
        r == user_lookup(outcome),
{
    match outcome {
        Ok(u) => Ok(Some(safe_user_data(u))),
        Err(KeycloakFailure::Http { status, text }) => if status == 404 {
            Ok(None)
        } else {
            Err(RequestError::Keycloak(KeycloakFailure::Http { status, text }))
        },
        Err(e) => Err(RequestError::Keycloak(e)),
    }
}

/// Turns the provider's answer to a user search into the service's answer:
/// the public view of each user found, or the provider's failure.
pub fn realm_users(outcome: Result<Vec<UserRecord>, KeycloakFailure>) -> (r: Result<Vec<UserRecord>, RequestError<KeycloakFailure>>)
    ensures
        outcome is Ok <==> r is Ok,
        r matches Ok(v) ==> outcome matches Ok(users) && v@.len() == users@.len()
            && forall|i: int| 0 <= i < users@.len() ==> #[trigger] v@[i] == public_user(users@[i]),
        outcome matches Err(e) ==> r == Err::<Vec<UserRecord>, RequestError<KeycloakFailure>>(RequestError::Keycloak(e)),
{
    match outcome {
        Ok(users) => Ok(sanitize_users(users)),
        Err(e) => Err(RequestError::Keycloak(e)),
    }
}

/// `s` without the slashes at its end.
pub open spec fn without_trailing_slashes(s: Seq<char>) -> Seq<char>
    decreases s.len(),
{
    if s.len() > 0 && s.last() == '/' {
        without_trailing_slashes(s.drop_last())
    } else {
        s
    }
}

/// `s` without the slashes at its end.
pub fn trim_trailing_slashes(s: &str) -> (r: String)
    ensures
        r@ == without_trailing_slashes(s@),
{
    let n = s.unicode_len();
    let mut end: usize = n;
    proof {
        assert(s@.subrange(0, n as int) =~= s@);
    }
    while end > 0 && s.get_char(end - 1) == '/'
        invariant
            n == s@.len(),
            end <= n,
            without_trailing_slashes(s@.subrange(0, end as int)) == without_trailing_slashes(s@),
        decreases end,
    {
        proof {
            assert(s@.subrange(0, end as int).drop_last() =~= s@.subrange(0, end - 1));
        }
        end = end - 1;
    }
    String::from_str(s.substring_char(0, end))
}

/// The base address of the identity provider's API: its address without trailing slashes.
pub fn admin_base_path(kc_url: &str) -> (r: String)
    ensures
        r@ == without_trailing_slashes(kc_url@),
{
    trim_trailing_slashes(kc_url)
}

/// The address of the realm's token endpoint.
pub fn token_url(kc_url: &str, realm: &str) -> (r: String)
    ensures
        r@ == without_trailing_slashes(kc_url@) + "/realms/"@ + realm@ + "/protocol/openid-connect/token"@,
{
    let mut url = trim_trailing_slashes(kc_url);
    url.append("/realms/");
    url.append(realm);
    url.append("/protocol/openid-connect/token");
    url
}

/// The form of a client-credentials token request.
pub fn token_form(client_id: &str, client_secret: &str) -> (r: Vec<(String, String)>)
    ensures
        r@.len() == 3,
        r@[0].0@ == "grant_type"@ && r@[0].1@ == "client_credentials"@,
        r@[1].0@ == "client_id"@ && r@[1].1@ == client_id@,
        r@[2].0@ == "client_secret"@ && r@[2].1@ == client_secret@,
{
    let mut r: Vec<(String, String)> = Vec::new();
    r.push((String::from_str("grant_type"), String::from_str("client_credentials")));
    r.push((String::from_str("client_id"), String::from_str(client_id)));
    r.push((String::from_str("client_secret"), String::from_str(client_secret)));
    r
}

/// The value of the Authorization header that carries `token`.
pub fn bearer_header(token: &str) -> (r: String)
    ensures
        r@ == "Bearer "@ + token@,
{
    let mut h = String::from_str("Bearer ");
    h.append(token);
    h
}

} // verus!
