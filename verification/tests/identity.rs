use sikola::auth::{
    claims_or_rejection, decode_key_or_rejection, load_decode_key, optional_claims, public_key,
    token_algorithm, token_audiences, JWTClaims, TokenAlgorithm,
};
use sikola::error::ApiError;
use sikola::identity::{
    admin_base_path, bearer_header, realm_user, realm_users, safe_user_data, sanitize_users,
    token_form, token_url, trim_trailing_slashes, user_search, KeycloakFailure, RequestError,
    UserRecord, UserSearch,
};
use sikola::middleware::request_id_label;

fn full_user(n: &str) -> UserRecord {
    UserRecord {
        id: Some(format!("id-{n}")),
        username: Some(n.to_string()),
        first_name: Some("Ada".to_string()),
        last_name: Some("Lovelace".to_string()),
        email: Some(format!("{n}@example.org")),
        email_verified: Some(true),
        attributes: Some(vec![("class".to_string(), vec!["7b".to_string()])]),
        enabled: Some(true),
        access: Some(vec![("manage".to_string(), true)]),
        application_roles: Some(vec![("app".to_string(), vec!["r".to_string()])]),
        client_roles: Some(vec![("client".to_string(), vec!["admin".to_string()])]),
        created_timestamp: Some(1700000000000),
        disableable_credential_types: Some(vec!["otp".to_string()]),
        federation_link: Some("ldap".to_string()),
        groups: Some(vec!["teachers".to_string()]),
        not_before: Some(3),
        origin: Some("origin".to_string()),
        realm_roles: Some(vec!["admin".to_string()]),
        required_actions: Some(vec!["VERIFY_EMAIL".to_string()]),
        self_link: Some("self".to_string()),
        service_account_client_id: Some("svc".to_string()),
        totp: Some(true),
    }
}

fn public_only(n: &str) -> UserRecord {
    let u = full_user(n);
    UserRecord {
        access: None,
        application_roles: None,
        client_roles: None,
        created_timestamp: None,
        disableable_credential_types: None,
        federation_link: None,
        groups: None,
        not_before: None,
        origin: None,
        realm_roles: None,
        required_actions: None,
        self_link: None,
        service_account_client_id: None,
        totp: None,
        ..u
    }
}

#[test]
fn safe_user_data_keeps_public_fields_only() {
    assert_eq!(safe_user_data(full_user("ada")), public_only("ada"));
    assert_eq!(safe_user_data(safe_user_data(full_user("ada"))), public_only("ada"));
}

#[test]
fn sanitize_users_keeps_order() {
    let out = sanitize_users(vec![full_user("a"), full_user("b")]);
    assert_eq!(out, vec![public_only("a"), public_only("b")]);
    assert!(sanitize_users(Vec::new()).is_empty());
}

#[test]
fn realm_user_outcomes() {
    assert_eq!(realm_user(Ok(full_user("a"))), Ok(Some(public_only("a"))));
    assert_eq!(
        realm_user(Err(KeycloakFailure::Http { status: 404, text: "not found".to_string() })),
        Ok(None)
    );
    let forbidden = KeycloakFailure::Http { status: 403, text: "no".to_string() };
    assert_eq!(realm_user(Err(forbidden.clone())), Err(RequestError::Keycloak(forbidden)));
    let net = KeycloakFailure::Network("down".to_string());
    assert_eq!(realm_user(Err(net.clone())), Err(RequestError::Keycloak(net)));
}

#[test]
fn realm_users_outcomes() {
    assert_eq!(realm_users(Ok(vec![full_user("x")])), Ok(vec![public_only("x")]));
    let net = KeycloakFailure::Network("down".to_string());
    assert_eq!(realm_users(Err(net.clone())), Err(RequestError::Keycloak(net)));
}

#[test]
fn user_search_takes_filters_from_example() {
    let s = user_search(Some(full_user("ada")));
    assert_eq!(
        s,
        UserSearch {
            email: Some("ada@example.org".to_string()),
            email_verified: Some(true),
            enabled: Some(true),
            first_name: Some("Ada".to_string()),
            last_name: Some("Lovelace".to_string()),
            username: Some("ada".to_string()),
        }
    );
    let none = user_search(None);
    assert_eq!(none.email, None);
    assert_eq!(none.username, None);
    assert_eq!(none.enabled, None);
}

#[test]
fn token_request_values() {
    assert_eq!(
        token_url("https://kc.example.org//", "sikola"),
        "https://kc.example.org/realms/sikola/protocol/openid-connect/token"
    );
    assert_eq!(token_url("http://kc", "r"), "http://kc/realms/r/protocol/openid-connect/token");
    assert_eq!(trim_trailing_slashes("///"), "");
    assert_eq!(trim_trailing_slashes("a/b/"), "a/b");
    assert_eq!(trim_trailing_slashes(&trim_trailing_slashes("x//")), "x");
    assert_eq!(admin_base_path("http://kc/"), "http://kc");
    let form = token_form("client", "client-secret-value");
    assert_eq!(
        form,
        vec![
            ("grant_type".to_string(), "client_credentials".to_string()),
            ("client_id".to_string(), "client".to_string()),
            ("client_secret".to_string(), "client-secret-value".to_string()),
        ]
    );
    assert_eq!(bearer_header("abc"), "Bearer abc");
}

#[test]
fn decode_key_is_built() {
    assert!(public_key().is_ok());
    assert!(load_decode_key().is_ok());
    let bad = jsonwebtoken::DecodingKey::from_rsa_components("not base64!", "AQAB");
    assert!(matches!(decode_key_or_rejection(bad), Err(ApiError::InvalidDecodeKey)));
    assert!(decode_key_or_rejection(public_key()).is_ok());
}

#[test]
fn rsa_components_follow_unpadded_url_safe_base64() {
    let accepted = |n: &str| jsonwebtoken::DecodingKey::from_rsa_components(n, "AQAB").is_ok();
    assert!(accepted("AQ"));
    assert!(accepted("AQA"));
    assert!(accepted("-_-_"));
    assert!(accepted(""));
    assert!(!accepted("AR"));
    assert!(!accepted("AQB"));
    assert!(!accepted("A"));
    assert!(!accepted("AB+/"));
    assert!(!accepted("AQ=="));
    assert!(!accepted("AQ\n"));
    assert!(matches!(
        decode_key_or_rejection(jsonwebtoken::DecodingKey::from_rsa_components("AR", "AQAB")),
        Err(ApiError::InvalidDecodeKey)
    ));
}

#[test]
fn token_algorithm_is_rs256() {
    assert_eq!(token_algorithm(), TokenAlgorithm::RS256);
}

#[test]
fn claims_outcomes() {
    let c = JWTClaims { sub: 7, aud: "account".to_string(), preferred_username: "ada".to_string() };
    assert_eq!(claims_or_rejection(Some(c.clone())), Ok(c.clone()));
    assert_eq!(claims_or_rejection(None), Err(ApiError::TokenRejected));
    assert_eq!(optional_claims(Ok(c.clone())), Some(c));
    assert_eq!(optional_claims(Err(ApiError::TokenRejected)), None);
    assert_eq!(token_audiences(), vec!["account".to_string()]);
}

#[test]
fn request_id_labels() {
    assert_eq!(request_id_label(Some("abc-1")), "abc-1");
    assert_eq!(request_id_label(None), "missing");
}
