use base64::engine::general_purpose::URL_SAFE_NO_PAD;
use base64::Engine;
use serde_json::Value;
use teams_auth::consent::annotate_consent_error;
use teams_auth::error::TeamsError;
use teams_auth::token::{provided_token_info, provided_token_warnings, read_provided_token};

fn jwt_with(members: Vec<(&str, Value)>) -> String {
    let mut payload: serde_json::Map<String, Value> = serde_json::Map::new();
    for (key, value) in members {
        payload.insert(key.to_string(), value);
    }
    let payload = Value::Object(payload);
    format!("header.{}.sig", URL_SAFE_NO_PAD.encode(payload.to_string()))
}

#[test]
fn read_provided_token_strips_bearer_prefix_and_whitespace() {
    assert_eq!(
        read_provided_token("  Bearer abc.def.ghi  ").unwrap(),
        "abc.def.ghi"
    );
    assert_eq!(read_provided_token("abc.def.ghi").unwrap(), "abc.def.ghi");
}

#[test]
fn read_provided_token_rejects_empty() {
    assert!(matches!(
        read_provided_token("   "),
        Err(TeamsError::InvalidInput(_))
    ));
    assert!(matches!(
        read_provided_token(""),
        Err(TeamsError::InvalidInput(_))
    ));
}

#[test]
fn provided_token_info_extracts_expiry_and_scope() {
    let token = jwt_with(vec![
        ("aud", Value::from("https://graph.microsoft.com")),
        ("tid", Value::from("tenant-1")),
        ("scp", Value::from("User.Read Chat.ReadWrite")),
        ("exp", Value::from(4_102_444_800_i64)),
    ]);

    let info = provided_token_info("work", token.clone()).unwrap();

    assert_eq!(info.access_token, token);
    assert_eq!(info.profile, "work");
    assert_eq!(info.token_type, "Bearer");
    assert!(info.refresh_token.is_none());
    assert_eq!(info.scope.as_deref(), Some("User.Read Chat.ReadWrite"));
    assert!(info.expires_at.is_some());
    assert!(!info.is_expired());
}

#[test]
fn provided_token_info_rejects_non_jwt() {
    let err = provided_token_info("work", "not-a-jwt".into()).unwrap_err();
    assert!(matches!(err, TeamsError::InvalidInput(_)));
}

#[test]
fn provided_token_warnings_flag_expired_and_no_refresh() {
    let token = jwt_with(vec![
        ("aud", Value::from("https://graph.microsoft.com")),
        ("scp", Value::from("User.Read")),
        ("exp", Value::from(1_000_i64)),
    ]);
    let info = provided_token_info("work", token).unwrap();
    let claims = info.unverified_claims();

    let warnings = provided_token_warnings(&info, claims.as_ref());

    assert!(warnings.iter().any(|w| w.contains("already expired")));
    assert!(warnings.iter().any(|w| w.contains("cannot be refreshed")));
}

#[test]
fn provided_token_warnings_flag_non_graph_audience() {
    let token = jwt_with(vec![
        ("aud", Value::from("https://outlook.office.com")),
        ("scp", Value::from("User.Read")),
        ("exp", Value::from(4_102_444_800_i64)),
    ]);
    let info = provided_token_info("work", token).unwrap();
    let claims = info.unverified_claims();

    let warnings = provided_token_warnings(&info, claims.as_ref());

    assert!(warnings.iter().any(|w| w.contains("not Microsoft Graph")));
}

#[test]
fn annotate_consent_error_adds_guidance_with_requested_scopes() {
    let error = TeamsError::AuthError("Token refresh failed: AADSTS65001: no consent".into());
    let annotated = annotate_consent_error(error, "work", Some("User.Read People.Read"));

    let TeamsError::AuthError(message) = annotated else {
        panic!("expected AuthError");
    };
    assert!(message.contains("AADSTS65001"));
    assert!(message
        .contains("teams --profile work auth consent-url --scopes \"User.Read People.Read\""));
    assert!(message.contains("--profile work auth login"));
}

#[test]
fn annotate_consent_error_omits_scopes_flag_without_override() {
    let error = TeamsError::AuthError("consent_required".into());
    let annotated = annotate_consent_error(error, "default", None);

    let TeamsError::AuthError(message) = annotated else {
        panic!("expected AuthError");
    };
    assert!(message.contains("`teams --profile default auth consent-url`"));
    assert!(!message.contains("--scopes"));
}

#[test]
fn annotate_consent_error_passes_through_other_errors() {
    let error = TeamsError::AuthError("Token refresh failed: AADSTS70008 expired".into());
    let annotated = annotate_consent_error(error, "default", None);

    let TeamsError::AuthError(message) = annotated else {
        panic!("expected AuthError");
    };
    assert!(!message.contains("consent-url"));
}
