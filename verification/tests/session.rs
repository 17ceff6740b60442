use base64::engine::general_purpose::URL_SAFE_NO_PAD;
use base64::Engine;
use teams_auth::command::AuthCommand;
use teams_auth::error::TeamsError;
use teams_auth::report::Report;
use teams_auth::session::{
    accepts, resume, resume_at, start, Action, Defaults, Event, Outcome, Refresh, Session, Step,
};
use teams_auth::time::Timestamp;
use teams_auth::token::TokenInfo;

fn defaults() -> Defaults {
    Defaults {
        public_client_id: "public".into(),
        redirect_uri: "http://localhost".into(),
        delegated_scopes: "User.Read".into(),
    }
}

fn jwt(payload: &str) -> String {
    format!("header.{}.sig", URL_SAFE_NO_PAD.encode(payload))
}

fn token(access_token: &str) -> TokenInfo {
    TokenInfo {
        access_token: access_token.into(),
        expires_at: Some(Timestamp { secs: 0, nanos: 0 }),
        token_type: "Bearer".into(),
        scope: Some("S".into()),
        refresh_token: Some("r".into()),
        profile: "work".into(),
    }
}

fn asked(step: Step) -> (Session, Action) {
    match step {
        Step::Continue { session, action } => (session, action),
        other => panic!("{:?}", other),
    }
}

fn ended(step: Step) -> Outcome {
    match step {
        Step::Finished(outcome) => outcome,
        other => panic!("{:?}", other),
    }
}

fn go(session: Session, event: Event) -> Step {
    assert!(accepts(&session, &event));
    resume_at(session, event, &defaults(), Timestamp { secs: 50, nanos: 0 })
}

fn login(token: Option<&str>, client_credentials: bool, device_code: bool) -> AuthCommand {
    AuthCommand::Login {
        client_credentials,
        device_code,
        token: token.map(|t| t.to_string()),
        client_id: Some("given-client".into()),
        client_secret: Some("given-secret".into()),
        tenant_id: Some("given-tenant".into()),
        scopes: Some("given-scopes".into()),
    }
}

fn failure(text: &str) -> TeamsError {
    TeamsError::Other(text.into())
}

#[test]
fn a_given_token_is_stored_then_indexed_then_reported() {
    let jwt = jwt(r#"{"aud":"https://graph.microsoft.com","exp":10,"scp":"A"}"#);
    let (session, action) = asked(start(login(Some(&format!(" Bearer {jwt} ")), true, true), "work"));
    match action {
        Action::StoreToken { profile, token } => {
            assert_eq!(profile, "work");
            assert_eq!(token.access_token, jwt);
            assert!(token.refresh_token.is_none());
        }
        other => panic!("{:?}", other),
    }
    let (session, action) = asked(go(session, Event::Done(Ok(()))));
    assert!(matches!(action, Action::AddProfile { profile } if profile == "work"));
    match ended(go(session, Event::Done(Ok(())))) {
        Outcome::Printed(Report::LoggedInWithToken {
            message,
            profile,
            expires_at,
            scope,
            auto_refresh,
            token_diagnostics,
            warnings,
        }) => {
            assert_eq!(message, "Authenticated successfully with provided token");
            assert_eq!(profile, "work");
            assert_eq!(expires_at.as_deref(), Some("1970-01-01T00:00:10+00:00"));
            assert_eq!(scope.as_deref(), Some("A"));
            assert!(!auto_refresh);
            assert_eq!(token_diagnostics.unwrap().is_graph_audience, Some(true));
            assert_eq!(warnings.len(), 2);
            assert!(warnings[0].contains("already expired"));
        }
        other => panic!("{:?}", other),
    }
}

#[test]
fn the_time_matters_only_to_an_expiry() {
    let report = |payload: &str, secs: i64| {
        let (session, _) = asked(start(login(Some(&jwt(payload)), false, false), "p"));
        let (session, _) = asked(go(session, Event::Done(Ok(()))));
        let now = Timestamp { secs, nanos: 0 };
        format!("{:?}", resume_at(session, Event::Done(Ok(())), &defaults(), now))
    };
    assert_eq!(report("{}", 0), report("{}", 100));
    assert_ne!(report(r#"{"exp":10}"#, 9), report(r#"{"exp":10}"#, 10));

    // By the machine's clock the report is the same as at any other time.
    let (session, _) = asked(start(login(Some(&jwt("{}")), false, false), "p"));
    let (session, _) = asked(go(session, Event::Done(Ok(()))));
    let step = resume(session, Event::Done(Ok(())), &defaults());
    assert_eq!(format!("{:?}", step), report("{}", 0));
}

#[test]
fn dash_reads_standard_input() {
    let (session, action) = asked(start(login(Some("-"), false, false), "p"));
    assert!(matches!(action, Action::ReadStdin));
    let (_, action) = asked(go(session, Event::Input(Ok(jwt("{}")))));
    assert!(matches!(action, Action::StoreToken { .. }));

    let (session, _) = asked(start(login(Some("-"), false, false), "p"));
    assert!(matches!(
        ended(go(session, Event::Input(Err("broken".into())))),
        Outcome::Failed(TeamsError::InvalidInput(m)) if m == "Failed to read token from stdin: broken"
    ));
}

#[test]
fn an_undecodable_token_stores_nothing() {
    for given in ["", "  ", "nope", "a.b.c"] {
        assert!(matches!(
            ended(start(login(Some(given), false, false), "p")),
            Outcome::Failed(TeamsError::InvalidInput(_))
        ));
    }
}

#[test]
fn client_credentials_are_resolved_in_order() {
    let (session, action) = asked(start(login(None, true, true), "p"));
    assert!(matches!(action, Action::ResolveClientId { profile, given }
        if profile == "p" && given.as_deref() == Some("given-client")));
    let (session, action) = asked(go(session, Event::Choice(Some("c".into()))));
    assert!(matches!(action, Action::ResolveTenantId { profile, given }
        if profile == "p" && given.as_deref() == Some("given-tenant")));
    let (session, action) = asked(go(session, Event::Choice(Some("t".into()))));
    assert!(matches!(action, Action::ResolveClientSecret { given }
        if given.as_deref() == Some("given-secret")));
    let (session, action) = asked(go(session, Event::Choice(Some("s".into()))));
    assert!(matches!(action, Action::AuthenticateApp { profile, client_id, client_secret, tenant_id }
        if profile == "p" && client_id == "c" && client_secret == "s" && tenant_id == "t"));
    let (session, action) = asked(go(session, Event::Token(Ok(token("tok")))));
    assert!(matches!(action, Action::StoreToken { profile, token }
        if profile == "p" && token.access_token == "tok"));
    let (session, _) = asked(go(session, Event::Done(Ok(()))));
    assert!(matches!(
        ended(go(session, Event::Done(Ok(())))),
        Outcome::Printed(Report::LoggedIn { message, profile, expires_at, scope })
            if message == "Authenticated successfully" && profile == "p"
                && expires_at.as_deref() == Some("1970-01-01T00:00:00+00:00")
                && scope.as_deref() == Some("S")
    ));
}

#[test]
fn missing_client_credentials_are_told() {
    let told = |step: Step| match ended(step) {
        Outcome::Failed(TeamsError::InvalidInput(m)) => m,
        other => panic!("{:?}", other),
    };
    let (session, _) = asked(start(login(None, true, false), "p"));
    assert_eq!(
        told(go(session, Event::Choice(None))),
        "Client ID is required for client credentials flow. Use --client-id or set TEAMS_CLI_CLIENT_ID"
    );
    let (session, _) = asked(start(login(None, true, false), "p"));
    let (session, _) = asked(go(session, Event::Choice(Some("c".into()))));
    assert_eq!(
        told(go(session, Event::Choice(None))),
        "Tenant ID is required for client credentials flow. Use --tenant-id or set TEAMS_CLI_TENANT_ID"
    );
    let (session, _) = asked(start(login(None, true, false), "p"));
    let (session, _) = asked(go(session, Event::Choice(Some("c".into()))));
    let (session, _) = asked(go(session, Event::Choice(Some("t".into()))));
    assert_eq!(
        told(go(session, Event::Choice(None))),
        "Client secret is required for client credentials flow. Use --client-secret or set TEAMS_CLI_CLIENT_SECRET"
    );
}

#[test]
fn delegated_logins_use_what_was_resolved() {
    for device_code in [true, false] {
        let (session, action) = asked(start(login(None, false, device_code), "p"));
        assert!(matches!(action, Action::ResolveDelegatedClientId { given, .. }
            if given.as_deref() == Some("given-client")));
        let (session, action) = asked(go(session, Event::Checked(Ok("c".into()))));
        assert!(matches!(action, Action::ResolveDelegatedTenantId { given, .. }
            if given.as_deref() == Some("given-tenant")));
        let (session, action) = asked(go(session, Event::Value("t".into())));
        assert!(matches!(action, Action::ResolveDelegatedScopes { given, .. }
            if given.as_deref() == Some("given-scopes")));
        let (_, action) = asked(go(session, Event::Value("s".into())));
        match action {
            Action::AuthenticateDeviceCode { client_id, tenant_id, scopes, .. } if device_code => {
                assert_eq!((client_id, tenant_id, scopes), ("c".into(), "t".into(), "s".into()))
            }
            Action::AuthenticateAuthCode { client_id, tenant_id, scopes, .. } if !device_code => {
                assert_eq!((client_id, tenant_id, scopes), ("c".into(), "t".into(), "s".into()))
            }
            other => panic!("{:?}", other),
        }
    }
}

#[test]
fn a_failed_request_ends_the_login_with_its_failure() {
    let (session, _) = asked(start(login(None, false, false), "p"));
    assert!(matches!(
        ended(go(session, Event::Checked(Err(failure("no client"))))),
        Outcome::Failed(TeamsError::Other(m)) if m == "no client"
    ));
    let (session, _) = asked(start(login(Some(&jwt("{}")), false, false), "p"));
    assert!(matches!(
        ended(go(session, Event::Done(Err(failure("keyring"))))),
        Outcome::Failed(TeamsError::Other(m)) if m == "keyring"
    ));
}

#[test]
fn a_plain_refresh_reuses_the_stored_scope() {
    let (session, action) = asked(start(AuthCommand::Refresh { scopes: None }, "p"));
    assert!(matches!(action, Action::ResolveScopesOverride { given: None, .. }));
    let (session, action) = asked(go(session, Event::Choice(None)));
    assert!(matches!(action, Action::RefreshToken { profile, scopes: None } if profile == "p"));
    let refresh = Refresh { token: token("t"), requested_scope: Some("R".into()) };
    assert!(matches!(
        ended(go(session, Event::Refreshed(Ok(refresh)))),
        Outcome::Printed(Report::Refreshed { message, requested_scope, granted_scope, .. })
            if message == "Token refreshed successfully"
                && requested_scope.as_deref() == Some("R")
                && granted_scope.as_deref() == Some("S")
    ));
}

#[test]
fn a_refresh_without_consent_names_the_override() {
    let (session, _) = asked(start(AuthCommand::Refresh { scopes: Some("X".into()) }, "p"));
    let (session, action) = asked(go(session, Event::Choice(Some("X Y".into()))));
    assert!(matches!(action, Action::RefreshToken { scopes: Some(s), .. } if s == "X Y"));
    assert!(matches!(
        ended(go(session, Event::Refreshed(Err(TeamsError::AuthError("AADSTS65001".into()))))),
        Outcome::Failed(TeamsError::AuthError(m))
            if m.contains("teams --profile p auth consent-url --scopes \"X Y\"")
    ));
}

#[test]
fn consent_url_is_reported() {
    let command = AuthCommand::ConsentUrl { client_id: None, tenant_id: None, scopes: None };
    let (session, _) = asked(start(command, "p"));
    let (session, _) = asked(go(session, Event::Checked(Ok("c".into()))));
    let (session, _) = asked(go(session, Event::Value("t".into())));
    match ended(go(session, Event::Value("openid".into()))) {
        Outcome::Printed(Report::ConsentUrl {
            admin_consent_url,
            client_id,
            tenant_id,
            scope,
            redirect_uri,
        }) => {
            assert_eq!(
                admin_consent_url,
                "https://login.microsoftonline.com/t/v2.0/adminconsent?client_id=c&scope=openid&redirect_uri=http%3A%2F%2Flocalhost"
            );
            assert_eq!(client_id, "c");
            assert_eq!(tenant_id, "t");
            assert_eq!(scope, "openid");
            assert_eq!(redirect_uri, "http://localhost");
        }
        other => panic!("{:?}", other),
    }
}

#[test]
fn doctor_reports_with_and_without_a_token() {
    for (client, app, reply) in [
        ("public", "oso", Ok(token(&jwt(r#"{"aud":"x","azp":"z","upn":"u"}"#)))),
        ("mine", "byo", Ok(token("opaque"))),
        ("mine", "byo", Err(failure("none"))),
    ] {
        let has_token = reply.is_ok();
        let decodable = app == "oso";
        let command = AuthCommand::Doctor { client_id: Some(client.into()), tenant_id: None };
        let (session, _) = asked(start(command, "p"));
        let (session, _) = asked(go(session, Event::Checked(Ok(client.into()))));
        let (session, action) = asked(go(session, Event::Value("t".into())));
        assert!(matches!(action, Action::ResolveToken { profile } if profile == "p"));
        let (session, action) = asked(go(session, Event::Token(reply)));
        assert!(matches!(action, Action::ResolveDelegatedScopes { given: None, .. }));
        match ended(go(session, Event::Value("A".into()))) {
            Outcome::Printed(Report::Doctor {
                auth_app,
                authenticated,
                warnings,
                token,
                default_delegated_scopes,
                resolved_delegated_scopes,
                ..
            }) => {
                assert_eq!(auth_app, app);
                assert_eq!(authenticated, has_token);
                assert_eq!(warnings.len(), decodable as usize);
                assert_eq!(token.is_some(), has_token);
                assert_eq!(default_delegated_scopes, "User.Read");
                assert_eq!(resolved_delegated_scopes, "A");
                if let Some(token) = token {
                    assert_eq!(token.auth_type, "unknown");
                    assert_eq!(token.app_id.as_deref(), if decodable { Some("z") } else { None });
                    assert_eq!(token.user.as_deref(), if decodable { Some("u") } else { None });
                }
            }
            other => panic!("{:?}", other),
        }
    }
}

#[test]
fn status_tells_whether_there_is_a_token() {
    let (session, _) = asked(start(AuthCommand::Status, "p"));
    assert!(matches!(
        ended(go(session, Event::Token(Ok(token("opaque"))))),
        Outcome::Printed(Report::Status { authenticated: true, token_diagnostics: None, .. })
    ));
    let (session, _) = asked(start(AuthCommand::Status, "p"));
    assert!(matches!(
        ended(go(session, Event::Token(Err(failure("none"))))),
        Outcome::SignedOut(Report::SignedOut { authenticated: false, profile }) if profile == "p"
    ));
}

#[test]
fn status_tells_that_a_graph_token_is_one() {
    let graph = jwt(r#"{"aud":"https://graph.microsoft.com","scp":"User.Read"}"#);
    let (session, _) = asked(start(AuthCommand::Status, "p"));
    match ended(go(session, Event::Token(Ok(token(&graph))))) {
        Outcome::Printed(Report::Status { token_diagnostics: Some(shown), warnings, .. }) => {
            assert_eq!(shown.is_graph_audience, Some(true));
            assert_eq!(shown.auth_type, "delegated");
            assert!(warnings.is_empty());
        }
        other => panic!("{:?}", other),
    }
}

#[test]
fn profiles_are_listed_as_they_are() {
    let (session, action) = asked(start(AuthCommand::List, "p"));
    assert!(matches!(action, Action::ListProfiles));
    let listed = vec!["b".to_string(), "a".to_string()];
    assert!(matches!(
        ended(go(session, Event::Profiles(listed.clone()))),
        Outcome::Printed(Report::Profiles { profiles, active }) if profiles == listed && active == "p"
    ));
}

#[test]
fn switching_needs_a_token_but_not_a_saved_configuration() {
    let (session, action) = asked(start(AuthCommand::Switch { name: "q".into() }, "p"));
    assert!(matches!(action, Action::ResolveToken { profile } if profile == "q"));
    assert!(matches!(
        ended(go(session, Event::Token(Err(failure("none"))))),
        Outcome::Failed(TeamsError::Other(_))
    ));
    for saved in [Ok(()), Err(failure("read-only"))] {
        let (session, _) = asked(start(AuthCommand::Switch { name: "q".into() }, "p"));
        let (session, action) = asked(go(session, Event::Token(Ok(token("t")))));
        assert!(matches!(action, Action::SaveDefaultProfile { name } if name == "q"));
        assert!(matches!(
            ended(go(session, Event::Done(saved))),
            Outcome::Printed(Report::Switched { message, profile })
                if message == "Switched to profile 'q'" && profile == "q"
        ));
    }
}

#[test]
fn logging_out_of_all_profiles_goes_through_the_list() {
    let listed: Vec<String> = (0..12).map(|i| format!("p{i}")).collect();
    let command = AuthCommand::Logout { profile: Some("ignored".into()), all: true };
    let (session, action) = asked(start(command, "p"));
    assert!(matches!(action, Action::ListProfiles));
    let mut step = go(session, Event::Profiles(listed.clone()));
    for name in &listed {
        let (session, action) = asked(step);
        assert!(matches!(action, Action::DeleteToken { profile } if &profile == name));
        let (session, action) = asked(go(session, Event::Done(Ok(()))));
        assert!(matches!(action, Action::RemoveProfile { profile } if &profile == name));
        step = go(session, Event::Done(Ok(())));
    }
    assert!(matches!(
        ended(step),
        Outcome::Printed(Report::LoggedOut { message }) if message == "Logged out from 12 profile(s)"
    ));
}

#[test]
fn logging_out_of_all_profiles_stops_at_the_first_failure() {
    let (session, _) = asked(start(AuthCommand::Logout { profile: None, all: true }, "p"));
    let step = go(session, Event::Profiles(vec!["a".into(), "b".into()]));
    let (session, _) = asked(step);
    assert!(matches!(
        ended(go(session, Event::Done(Err(failure("locked"))))),
        Outcome::Failed(TeamsError::Other(m)) if m == "locked"
    ));
    let (session, _) = asked(start(AuthCommand::Logout { profile: None, all: true }, "p"));
    assert!(matches!(
        ended(go(session, Event::Profiles(vec![]))),
        Outcome::Printed(Report::LoggedOut { message }) if message == "Logged out from 0 profile(s)"
    ));
}

#[test]
fn logging_out_of_one_profile() {
    for (given, target) in [(Some("x"), "x"), (None, "active")] {
        let command = AuthCommand::Logout { profile: given.map(|p| p.to_string()), all: false };
        let (session, action) = asked(start(command, "active"));
        assert!(matches!(action, Action::DeleteToken { profile } if profile == target));
        let (session, action) = asked(go(session, Event::Done(Ok(()))));
        assert!(matches!(action, Action::RemoveProfile { profile } if profile == target));
        assert!(matches!(
            ended(go(session, Event::Done(Ok(())))),
            Outcome::Printed(Report::LoggedOut { message })
                if message == format!("Logged out from profile '{target}'")
        ));
    }
}

#[test]
fn the_token_is_printed_bare_unless_json_is_asked_for() {
    for format in ["bearer", "JSON", ""] {
        let (session, _) = asked(start(AuthCommand::Token { format: format.into() }, "p"));
        assert!(matches!(
            ended(go(session, Event::Token(Ok(token("tok"))))),
            Outcome::Bearer(t) if t == "tok"
        ));
    }
    let (session, _) = asked(start(AuthCommand::Token { format: "json".into() }, "p"));
    assert!(matches!(
        ended(go(session, Event::Token(Ok(token("tok"))))),
        Outcome::Printed(Report::Token { access_token, token_type, expires_at, token_diagnostics: None })
            if access_token == "tok" && token_type == "Bearer"
                && expires_at.as_deref() == Some("1970-01-01T00:00:00+00:00")
    ));
}

#[test]
fn a_session_takes_no_answer_of_another_kind() {
    let (session, _) = asked(start(AuthCommand::Status, "p"));
    assert!(accepts(&session, &Event::Token(Err(failure("x")))));
    assert!(!accepts(&session, &Event::Done(Ok(()))));
    assert!(!accepts(&session, &Event::Choice(None)));
}

#[test]
fn failures_show_their_text() {
    assert_eq!(TeamsError::AuthError("a".to_string()).message(), "a");
    assert_eq!(TeamsError::InvalidInput("b".to_string()).message(), "b");
    assert_eq!(failure("c").message(), "c");
}

#[test]
fn the_clock_is_read_when_a_session_goes_on() {
    let (session, _) = asked(start(login(Some(&jwt(r#"{"exp":10}"#)), false, false), "p"));
    let (session, _) = asked(resume(session, Event::Done(Ok(())), &defaults()));
    match ended(resume(session, Event::Done(Ok(())), &defaults())) {
        Outcome::Printed(Report::LoggedInWithToken { warnings, .. }) => {
            assert!(warnings[0].contains("already expired"))
        }
        other => panic!("{:?}", other),
    }
}
