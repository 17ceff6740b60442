use base64::engine::general_purpose::{STANDARD, URL_SAFE_NO_PAD};
use base64::Engine;
use teams_auth::claims::{
    claims_from_raw, decode_unverified_claims, payload_segment, Audience, JwtError, Member, RawClaims,
    TokenClaims,
};
use teams_auth::error::TeamsError;
use teams_auth::time::{has_come, show_expiry, Timestamp};
use teams_auth::token::{
    provided_token_info, provided_token_info_from, provided_token_warnings,
    provided_token_warnings_at, read_provided_token, token_diagnostics, token_warnings, TokenInfo,
};

const EXPIRED: &str =
    "Token is already expired. Capture a fresh token and run `teams auth login --token` again.";
const NO_EXPIRY: &str = "Token has no 'exp' claim, so its expiry is unknown; commands will keep using it until Graph rejects it.";
const NO_REFRESH: &str = "Provided tokens have no refresh token and cannot be refreshed automatically; re-run `teams auth login --token` when it expires.";

fn jwt(payload: &str) -> String {
    format!("header.{}.sig", URL_SAFE_NO_PAD.encode(payload))
}

fn at(secs: i64, nanos: u32) -> Timestamp {
    Timestamp { secs, nanos }
}

fn no_claims() -> TokenClaims {
    TokenClaims {
        aud: None,
        tid: None,
        appid: None,
        azp: None,
        preferred_username: None,
        upn: None,
        scp: None,
        has_roles: false,
        exp: None,
    }
}

fn raw() -> RawClaims {
    RawClaims {
        aud: Member::Absent,
        tid: Member::Absent,
        appid: Member::Absent,
        azp: Member::Absent,
        preferred_username: Member::Absent,
        upn: Member::Absent,
        scp: Member::Absent,
        roles: Member::Absent,
        exp: Member::Absent,
    }
}

fn info(expires_at: Option<Timestamp>) -> TokenInfo {
    TokenInfo {
        access_token: "t".into(),
        expires_at,
        token_type: "Bearer".into(),
        scope: None,
        refresh_token: None,
        profile: "work".into(),
    }
}

#[test]
fn one_bearer_prefix_is_stripped() {
    assert_eq!(read_provided_token("bearer tok").unwrap(), "tok");
    assert_eq!(read_provided_token("Bearer   tok").unwrap(), "tok");
    assert_eq!(read_provided_token("bearer \t\n tok").unwrap(), "tok");
    assert_eq!(read_provided_token("\nBearer tok\r\n").unwrap(), "tok");
    assert_eq!(read_provided_token("BEARER tok").unwrap(), "BEARER tok");
    assert_eq!(read_provided_token("Bearer Bearer tok").unwrap(), "Bearer tok");
    assert_eq!(read_provided_token("Bearer bearer tok").unwrap(), "bearer tok");
    assert_eq!(read_provided_token("Bearer ").unwrap(), "Bearer");
    assert_eq!(read_provided_token("a b").unwrap(), "a b");
}

#[test]
fn an_empty_token_is_refused_with_advice() {
    assert_eq!(
        read_provided_token(" \u{2003}\n").unwrap_err(),
        TeamsError::InvalidInput(
            "No token provided. Pass it as `--token <TOKEN>` or pipe it via stdin.".into()
        )
    );
}

#[test]
fn a_token_is_stored_as_it_is() {
    let token = jwt(r#"{"exp":1000,"scp":"  User.Read \n"}"#);
    let info = provided_token_info("work", token.clone()).unwrap();
    assert_eq!(info.access_token, token);
    assert_eq!(info.expires_at, Some(at(1000, 0)));
    assert_eq!(info.scope.as_deref(), Some("User.Read"));
    assert_eq!(info.refresh_token, None);
    assert_eq!(info.token_type, "Bearer");
    assert_eq!(info.profile, "work");
}

#[test]
fn a_blank_scope_is_no_scope() {
    for payload in [r#"{"scp":""}"#, r#"{"scp":" \t"}"#, r#"{"scp":null}"#, "{}"] {
        assert_eq!(provided_token_info("p", jwt(payload)).unwrap().scope, None);
    }
}

#[test]
fn an_expiry_outside_of_the_calendar_is_no_expiry() {
    let expiry = |exp: i64| {
        let mut claims = no_claims();
        claims.exp = Some(exp);
        provided_token_info_from("p", "t".into(), Ok(claims)).unwrap().expires_at
    };
    assert_eq!(expiry(8_210_266_876_799), Some(at(8_210_266_876_799, 0)));
    assert_eq!(expiry(8_210_266_876_800), None);
    assert_eq!(expiry(-8_334_601_228_800), Some(at(-8_334_601_228_800, 0)));
    assert_eq!(expiry(-8_334_601_228_801), None);
    assert_eq!(expiry(i64::MAX), None);
    assert_eq!(expiry(i64::MIN), None);
}

#[test]
fn each_decoding_failure_is_told() {
    let told = |token: &str| match provided_token_info("p", token.to_string()) {
        Err(TeamsError::InvalidInput(message)) => message,
        other => panic!("{:?}", other),
    };
    let around = |why: &str| {
        format!("Provided value is not a valid JWT access token ({why}). Paste the raw Bearer token from your Teams/Outlook session.")
    };
    assert_eq!(told("a.b"), around("expected three segments separated by dots"));
    assert_eq!(told("a.b.c.d"), around("expected three segments separated by dots"));
    assert_eq!(told("a.!.c"), around("the payload is not base64url"));
    assert_eq!(told(&format!("a.{}.c", STANDARD.encode("{}"))), around("the payload is not base64url"));
    assert_eq!(told(&jwt("[1]")), around("the payload is not a JSON object"));
    assert_eq!(told(&jwt("not json")), around("the payload is not a JSON object"));
    assert_eq!(told(&jwt(r#"{"exp":"soon"}"#)), around("a claim has an unexpected type"));
    assert_eq!(told(&jwt(r#"{"exp":1.5}"#)), around("a claim has an unexpected type"));
    assert_eq!(told(&jwt(r#"{"scp":["a"]}"#)), around("a claim has an unexpected type"));
}

#[test]
fn the_payload_is_the_second_of_three_segments() {
    assert_eq!(payload_segment("h.p.s"), Ok("p"));
    assert_eq!(payload_segment(".."), Ok(""));
    assert_eq!(payload_segment("h.p"), Err(JwtError::Segments));
    assert_eq!(payload_segment(""), Err(JwtError::Segments));
    assert_eq!(payload_segment("h.p.s.x"), Err(JwtError::Segments));
}

#[test]
fn claims_are_read_from_the_payload() {
    let claims = decode_unverified_claims(&jwt(
        r#"{"aud":"https://graph.microsoft.com","tid":"t1","appid":"app","azp":"other","preferred_username":null,"upn":"u@x","scp":"A B","exp":-7,"roles":["r"]}"#,
    ))
    .unwrap();
    assert_eq!(claims.audience().as_deref(), Some("https://graph.microsoft.com"));
    assert_eq!(claims.is_graph_audience(), Some(true));
    assert_eq!(claims.auth_type(), "delegated");
    assert_eq!(claims.tid.as_deref(), Some("t1"));
    assert_eq!(claims.app_id().as_deref(), Some("app"));
    assert_eq!(claims.user_name().as_deref(), Some("u@x"));
    assert_eq!(claims.exp, Some(-7));
    assert!(claims.has_roles);
}

#[test]
fn header_and_signature_make_no_difference() {
    let payload = URL_SAFE_NO_PAD.encode(r#"{"tid":"t1"}"#);
    for token in [format!("h.{payload}.s"), format!(".{payload}."), format!("{{}}.{payload}.?")] {
        assert_eq!(decode_unverified_claims(&token).unwrap().tid.as_deref(), Some("t1"));
    }
}

#[test]
fn members_are_checked_for_their_kind() {
    let mut good = raw();
    good.aud = Member::Other;
    good.azp = Member::Text("a".into());
    good.roles = Member::Other;
    good.exp = Member::Number(Some(5));
    let claims = claims_from_raw(good).unwrap();
    assert_eq!(claims.audience(), None);
    assert_eq!(claims.is_graph_audience(), Some(false));
    assert_eq!(claims.auth_type(), "application");
    assert_eq!(claims.app_id().as_deref(), Some("a"));
    assert_eq!(claims.exp, Some(5));

    let mut bad = raw();
    bad.upn = Member::Number(Some(1));
    assert_eq!(claims_from_raw(bad).unwrap_err(), JwtError::Claim);
    let mut bad = raw();
    bad.exp = Member::Number(None);
    assert_eq!(claims_from_raw(bad).unwrap_err(), JwtError::Claim);
    let mut bad = raw();
    bad.tid = Member::Other;
    assert_eq!(claims_from_raw(bad).unwrap_err(), JwtError::Claim);

    let none = claims_from_raw(raw()).unwrap();
    assert_eq!(none.is_graph_audience(), None);
    assert_eq!(none.auth_type(), "unknown");
}

#[test]
fn graph_audiences() {
    let graph = |name: &str| {
        let mut claims = no_claims();
        claims.aud = Some(Audience::Named(name.into()));
        claims.is_graph_audience()
    };
    assert_eq!(graph("https://graph.microsoft.com"), Some(true));
    assert_eq!(graph("https://graph.microsoft.com/"), Some(true));
    assert_eq!(graph("00000003-0000-0000-c000-000000000000"), Some(true));
    assert_eq!(graph("https://outlook.office.com"), Some(false));
    assert_eq!(graph("https://graph.microsoft.com.evil"), Some(false));
}

#[test]
fn diagnostics_show_the_claims() {
    assert!(token_diagnostics(None).is_none());
    let mut claims = no_claims();
    claims.aud = Some(Audience::Named("https://graph.microsoft.com".into()));
    claims.tid = Some("tenant".into());
    claims.appid = Some("app".into());
    claims.azp = Some("azp".into());
    claims.preferred_username = Some("user".into());
    claims.upn = Some("upn".into());
    let shown = token_diagnostics(Some(&claims)).unwrap();
    assert_eq!(shown.audience.as_deref(), Some("https://graph.microsoft.com"));
    assert_eq!(shown.is_graph_audience, Some(true));
    assert_eq!(shown.auth_type, "unknown");
    assert_eq!(shown.tenant_id.as_deref(), Some("tenant"));
    assert_eq!(shown.app_id.as_deref(), Some("app"));
    assert_eq!(shown.user.as_deref(), Some("user"));
}

#[test]
fn audience_warnings_are_exact() {
    assert!(token_warnings(None).is_empty());
    let mut claims = no_claims();
    assert!(token_warnings(Some(&claims)).is_empty());
    claims.aud = Some(Audience::Named("https://graph.microsoft.com".into()));
    assert!(token_warnings(Some(&claims)).is_empty());
    claims.aud = Some(Audience::Named("x".into()));
    assert_eq!(
        token_warnings(Some(&claims)),
        vec!["Token audience is 'x', not Microsoft Graph. Graph commands require a Microsoft Graph access token."]
    );
    claims.aud = Some(Audience::Unnamed);
    assert_eq!(
        token_warnings(Some(&claims)),
        vec!["Token audience is 'unknown audience', not Microsoft Graph. Graph commands require a Microsoft Graph access token."]
    );
}

#[test]
fn warnings_on_a_provided_token_are_exact() {
    let now = at(100, 5);
    assert_eq!(
        provided_token_warnings_at(&info(Some(at(100, 5))), None, now),
        vec![EXPIRED, NO_REFRESH]
    );
    assert_eq!(
        provided_token_warnings_at(&info(Some(at(100, 6))), None, now),
        vec![NO_REFRESH]
    );
    assert_eq!(
        provided_token_warnings_at(&info(None), None, now),
        vec![NO_EXPIRY, NO_REFRESH]
    );
    let mut claims = no_claims();
    claims.aud = Some(Audience::Unnamed);
    let all = provided_token_warnings_at(&info(Some(at(0, 0))), Some(&claims), now);
    assert_eq!(all.len(), 3);
    assert_eq!(&all[1..], [EXPIRED, NO_REFRESH]);
}

#[test]
fn the_clock_decides_on_expiry() {
    assert!(info(Some(at(1, 0))).is_expired());
    assert!(!info(Some(at(4_102_444_800, 0))).is_expired());
    assert!(!info(None).is_expired());
    assert_eq!(provided_token_warnings(&info(Some(at(1, 0))), None), vec![EXPIRED, NO_REFRESH]);
    assert_eq!(
        provided_token_warnings(&info(Some(at(4_102_444_800, 0))), None),
        vec![NO_REFRESH]
    );
}

#[test]
fn an_expiry_that_has_come_stays_come() {
    let expiry = at(10, 3);
    assert!(!has_come(expiry, at(10, 2)));
    assert!(!has_come(expiry, at(9, 999)));
    assert!(has_come(expiry, at(10, 3)));
    assert!(has_come(expiry, at(11, 0)));
    assert!(info(Some(expiry)).is_expired_at(at(12, 0)));
}

#[test]
fn expiries_are_shown_in_rfc3339() {
    assert_eq!(show_expiry(None), None);
    assert_eq!(show_expiry(Some(at(0, 0))).as_deref(), Some("1970-01-01T00:00:00+00:00"));
    assert_eq!(
        show_expiry(Some(at(4_102_444_800, 0))).as_deref(),
        Some("2100-01-01T00:00:00+00:00")
    );
    assert_eq!(
        show_expiry(Some(at(1_431_648_000, 500_000_000))).as_deref(),
        Some("2015-05-15T00:00:00.500+00:00")
    );
    assert_eq!(show_expiry(Some(at(0, 1_000_000_000))), None);
    assert_eq!(
        show_expiry(Some(at(59, 1_000_000_000))).as_deref(),
        Some("1970-01-01T00:00:60+00:00")
    );
    assert_eq!(show_expiry(Some(at(59, 2_000_000_000))), None);
    assert_eq!(show_expiry(Some(at(-1, 1_999_999_999))).is_some(), true);
    assert_eq!(show_expiry(Some(at(i64::MAX, 0))), None);
}
