use teams_auth::consent::{
    annotate_consent_error, delegated_admin_consent_url, graph_admin_consent_scopes,
};
use teams_auth::error::TeamsError;

#[test]
fn scopes_are_qualified_one_for_one() {
    assert_eq!(
        graph_admin_consent_scopes("openid  User.Read\thttps://other.example/Do offline_access"),
        "openid https://graph.microsoft.com/User.Read https://other.example/Do offline_access"
    );
    assert_eq!(
        graph_admin_consent_scopes("profile email openid.read http://x"),
        "profile email https://graph.microsoft.com/openid.read https://graph.microsoft.com/http://x"
    );
    assert_eq!(graph_admin_consent_scopes(" \n"), "");
}

#[test]
fn qualifying_twice_changes_nothing() {
    for scopes in ["User.Read  openid", "", "https://x/y Chat.ReadWrite", "a\u{3000}b"] {
        let once = graph_admin_consent_scopes(scopes);
        assert_eq!(graph_admin_consent_scopes(&once), once);
    }
}

#[test]
fn consent_url_is_exact() {
    assert_eq!(
        delegated_admin_consent_url(
            "client-1",
            "contoso.com",
            "User.Read offline_access",
            "http://localhost:8400/callback"
        ),
        "https://login.microsoftonline.com/contoso.com/v2.0/adminconsent?client_id=client-1&scope=https%3A%2F%2Fgraph.microsoft.com%2FUser.Read%20offline_access&redirect_uri=http%3A%2F%2Flocalhost%3A8400%2Fcallback"
    );
}

#[test]
fn encoded_values_cannot_leave_their_place() {
    let url = delegated_admin_consent_url("c", "t", "a&b=c#d%é~-._Z9", "r&x");
    let (_, query) = url.split_once('?').unwrap();
    let pairs: Vec<&str> = query.split('&').collect();
    assert_eq!(
        pairs,
        vec![
            "client_id=c",
            "scope=https%3A%2F%2Fgraph.microsoft.com%2Fa%26b%3Dc%23d%25%C3%A9~-._Z9",
            "redirect_uri=r%26x"
        ]
    );
}

#[test]
fn different_scopes_have_different_urls() {
    let url = |scopes: &str| delegated_admin_consent_url("c", "t", scopes, "r");
    assert_ne!(url("a b"), url("a%20b"));
    assert_ne!(url("a b"), url("b a"));
    assert_eq!(url("a b"), url("  a \n b "));
}

#[test]
fn guidance_is_exact() {
    let shown = annotate_consent_error(
        TeamsError::AuthError("AADSTS65001".into()),
        "work",
        Some("User.Read"),
    );
    assert_eq!(
        shown,
        TeamsError::AuthError(
            "AADSTS65001\n\nThe requested scopes have not been consented for this app. Grant admin consent (run `teams --profile work auth consent-url --scopes \"User.Read\"` for the URL) and retry, or run `teams --profile work auth login` for interactive consent.".into()
        )
    );
}

#[test]
fn failures_of_other_kinds_are_not_annotated() {
    for error in [
        TeamsError::InvalidInput("AADSTS65001".to_string()),
        TeamsError::Other("consent_required".to_string()),
    ] {
        let text = format!("{:?}", error);
        assert_eq!(format!("{:?}", annotate_consent_error(error, "p", None)), text);
    }
}
