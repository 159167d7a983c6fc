use parallel_markets_client::{
    bearer_value, decode_response, is_header_safe, oauth_header, Client, ClientError, Endpoint,
    EntityType, Error, ErrorKind, JsonValue, ProfileResponse, Scope, Union, AUTHORIZE_PATH,
    REFRESH_PATH, TOKEN_PATH,
};

fn client(scopes: &[Scope]) -> Client {
    Client::new(
        "https://demo-api.parallelmarkets.com/v1/",
        "client-id",
        "client-secret",
        "https://example.com/callback",
        scopes,
    )
}

fn convert(v: &serde_json::Value) -> JsonValue {
    match v {
        serde_json::Value::Null => JsonValue::Null,
        serde_json::Value::Bool(b) => JsonValue::Bool(*b),
        serde_json::Value::Number(n) => JsonValue::Number(n.to_string()),
        serde_json::Value::String(s) => JsonValue::Str(s.clone()),
        serde_json::Value::Array(items) => JsonValue::Array(items.iter().map(convert).collect()),
        serde_json::Value::Object(m) => {
            JsonValue::Object(m.iter().map(|(k, x)| (k.clone(), convert(x))).collect())
        }
    }
}

#[test]
fn missing_scope_is_refused_before_any_request() {
    let c = client(&[Scope::Profile]);
    for (e, s) in [
        (Endpoint::Accreditations, Scope::AccreditationStatus),
        (Endpoint::Identity, Scope::Identity),
    ] {
        match c.request(&e, "token") {
            Err(Error::ApiError(ErrorKind::ScopeNotEnabled(m))) => assert_eq!(m, s),
            _ => panic!("expected a scope failure"),
        }
    }
    let none = client(&[]);
    assert!(matches!(
        none.request(&Endpoint::Profile, "token"),
        Err(Error::ApiError(ErrorKind::ScopeNotEnabled(Scope::Profile)))
    ));
}

#[test]
fn scope_message_names_the_scope() {
    assert_eq!(
        ErrorKind::ScopeNotEnabled(Scope::Identity).message(),
        "Scope not enabled: 'identity'"
    );
    assert_eq!(
        ErrorKind::ScopeNotEnabled(Scope::AccreditationStatus).message(),
        "Scope not enabled: 'accreditation_status'"
    );
}

#[test]
fn dependency_lookup_needs_no_scope() {
    let c = client(&[]);
    let q = c.request(&Endpoint::DependencyIdentity("VXNlcjoyODIw".to_string()), "tok").unwrap();
    assert_eq!(q.path, "identity/VXNlcjoyODIw");
    assert_eq!(q.authorization, "Bearer tok");
    assert_eq!(q.headers.len(), 1);
    let auth = q.headers.get(reqwest::header::AUTHORIZATION).unwrap();
    assert_eq!(auth.to_str().unwrap(), "Bearer tok");
    assert!(auth.is_sensitive());
}

#[test]
fn endpoint_paths() {
    let c = client(&[Scope::Profile, Scope::Identity, Scope::AccreditationStatus]);
    assert_eq!(c.request(&Endpoint::Profile, "t").unwrap().path, "me");
    assert_eq!(c.request(&Endpoint::Accreditations, "t").unwrap().path, "accreditations");
    assert_eq!(c.request(&Endpoint::Identity, "t").unwrap().path, "identity");
}

#[test]
fn end_to_end_profile_with_two_scopes() {
    let c = client(&[Scope::Profile, Scope::AccreditationStatus]);
    match c.request(&Endpoint::Identity, "abc") {
        Err(Error::ApiError(k)) => {
            assert_eq!(k, ErrorKind::ScopeNotEnabled(Scope::Identity));
            assert_eq!(k.message(), "Scope not enabled: 'identity'");
        }
        _ => panic!("expected a scope failure"),
    }
    let q = c.request(&Endpoint::Profile, "abc").unwrap();
    assert_eq!(q.path, "me");
    assert_eq!(q.authorization, "Bearer abc");
    assert_eq!(q.headers.len(), 1);
    let auth = q.headers.get(reqwest::header::AUTHORIZATION).unwrap();
    assert_eq!(auth.to_str().unwrap(), "Bearer abc");
    assert!(auth.is_sensitive());
    let body = r#"{"id": "RW50aXR5OjE=", "type": "individual",
        "profile": {"first_name": "Ada", "last_name": "Lovelace", "email": "ada@example.com"},
        "user_id": "VXNlcjox",
        "user_profile": {"first_name": "Ada", "last_name": "Lovelace", "email": "ada@example.com"},
        "user_providing_for": "self", "access_expires_at": null, "access_revoked_by": null}"#;
    let v = convert(&serde_json::from_str(body).unwrap());
    let r: ProfileResponse = decode_response(&v).unwrap();
    assert_eq!(r.id, "RW50aXR5OjE=");
    assert_eq!(r.entity_type, EntityType::Individual);
    match r.profile {
        Union::Left(p) => {
            assert_eq!(p.first_name, "Ada");
            assert_eq!(p.last_name, "Lovelace");
            assert_eq!(p.email.as_deref(), Some("ada@example.com"));
        }
        Union::Right(_) => panic!("wrong shape"),
    }
    assert_eq!(r.user_id, "VXNlcjox");
    assert_eq!(r.user_profile.last_name, "Lovelace");
}

#[test]
fn token_that_no_header_can_carry() {
    let c = client(&[Scope::Profile]);
    assert!(matches!(
        c.request(&Endpoint::Profile, "bad\ntoken"),
        Err(Error::ClientError(ClientError::InvalidToken))
    ));
    assert!(oauth_header("bad\u{7f}").is_none());
    let h = oauth_header("tab\tok").unwrap();
    assert_eq!(h.len(), 1);
    assert_eq!(h.get("authorization").unwrap().as_bytes(), b"Bearer tab\tok");
    assert!(h.get("authorization").unwrap().is_sensitive());
    assert!(!is_header_safe("a\rb"));
    assert!(is_header_safe("caf\u{e9}"));
}

#[test]
fn bearer_text() {
    assert_eq!(bearer_value("xyz"), "Bearer xyz");
    assert_eq!(bearer_value(""), "Bearer ");
}

#[test]
fn oauth2_settings_carry_scopes_by_name() {
    let c = client(&[Scope::Identity, Scope::Profile]);
    let s = c.oauth2_settings();
    assert_eq!(s.client_id, "client-id");
    assert_eq!(s.client_secret, "client-secret");
    assert_eq!(s.redirect_url, "https://example.com/callback");
    assert_eq!(s.authorize_path, AUTHORIZE_PATH);
    assert_eq!(s.authorize_path, "oauth/authorize");
    assert_eq!(s.token_path, TOKEN_PATH);
    assert_eq!(s.token_path, "oauth/token");
    assert_eq!(s.refresh_path, REFRESH_PATH);
    assert_eq!(s.refresh_path, "oauth/refresh");
    assert_eq!(s.scopes, vec!["identity".to_string(), "profile".to_string()]);
    assert_eq!(c.scopes(), &[Scope::Identity, Scope::Profile]);
    assert_eq!(c.api_url(), "https://demo-api.parallelmarkets.com/v1/");
}
