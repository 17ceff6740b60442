//! What a command prints when it succeeds, and the pieces that are put together for it.

use crate::claims::TokenClaims;
use crate::consent::{consent_url, delegated_admin_consent_url};
use crate::session::Defaults;
use crate::text::{same, Text, Texts};
use crate::time::{expiry_text, show_expiry, Timestamp};
use crate::token::{
    claims_warnings, diagnostics, provided_token_warnings_at, provided_warnings, token_diagnostics,
    token_warnings, TokenDiagnostics, TokenInfo,
};
use vstd::prelude::*;

verus! {

/// What `auth doctor` prints of the current token.
#[derive(Debug)]
pub struct DoctorToken<S = String> {
    pub expires_at: Option<S>,
    pub scope: Option<S>,
    pub auth_type: S,
    pub audience: Option<S>,
    pub is_graph_audience: Option<bool>,
    pub tenant_id: Option<S>,
    pub app_id: Option<S>,
    pub user: Option<S>,
}

impl View for DoctorToken {
    type V = DoctorToken<Text>;

    open spec fn view(&self) -> DoctorToken<Text> {
        DoctorToken {
            expires_at: self.expires_at.deep_view(),
            scope: self.scope.deep_view(),
            auth_type: self.auth_type@,
            audience: self.audience.deep_view(),
            is_graph_audience: self.is_graph_audience,
            tenant_id: self.tenant_id.deep_view(),
            app_id: self.app_id.deep_view(),
            user: self.user.deep_view(),
        }
    }
}

impl DeepView for DoctorToken {
    type V = DoctorToken<Text>;

    open spec fn deep_view(&self) -> DoctorToken<Text> {
        self@
    }
}

/// What a command prints: a record whose fields are those of the variant. `S` is a text and `L`
/// a list of texts.
#[allow(inconsistent_fields)]
#[derive(Debug)]
pub enum Report<S = String, L = Vec<String>> {
    /// `auth login` by one of the flows.
    LoggedIn { message: S, profile: S, expires_at: Option<S>, scope: Option<S> },
    /// `auth login --token`.
    LoggedInWithToken {
        message: S,
        profile: S,
        expires_at: Option<S>,
        scope: Option<S>,
        auto_refresh: bool,
        token_diagnostics: Option<TokenDiagnostics<S>>,
        warnings: L,
    },
    /// `auth refresh`.
    Refreshed {
        message: S,
        profile: S,
        requested_scope: Option<S>,
        granted_scope: Option<S>,
        expires_at: Option<S>,
    },
    /// `auth consent-url`.
    ConsentUrl { admin_consent_url: S, client_id: S, tenant_id: S, scope: S, redirect_uri: S },
    /// `auth doctor`.
    Doctor {
        profile: S,
        auth_app: S,
        client_id: S,
        tenant_id: S,
        admin_consent_url: S,
        default_delegated_scopes: S,
        resolved_delegated_scopes: S,
        redirect_uri: S,
        authenticated: bool,
        warnings: L,
        token: Option<DoctorToken<S>>,
    },
    /// `auth status` with a token.
    Status {
        authenticated: bool,
        profile: S,
        expires_at: Option<S>,
        scope: Option<S>,
        token_diagnostics: Option<TokenDiagnostics<S>>,
        warnings: L,
    },
    /// `auth status` without a token.
    SignedOut { authenticated: bool, profile: S },
    /// `auth list`.
    Profiles { profiles: L, active: S },
    /// `auth switch`.
    Switched { message: S, profile: S },
    /// `auth logout`.
    LoggedOut { message: S },
    /// `auth token --format json`.
    Token {
        access_token: S,
        token_type: S,
        expires_at: Option<S>,
        token_diagnostics: Option<TokenDiagnostics<S>>,
    },
}

impl View for Report {
    type V = Report<Text, Texts>;

    open spec fn view(&self) -> Report<Text, Texts> {
        match self {
            Report::LoggedIn { message, profile, expires_at, scope } => Report::LoggedIn {
                message: message@,
                profile: profile@,
                expires_at: expires_at.deep_view(),
                scope: scope.deep_view(),
            },
            Report::LoggedInWithToken {
                message,
                profile,
                expires_at,
                scope,
                auto_refresh,
                token_diagnostics,
                warnings,
            } => Report::LoggedInWithToken {
                message: message@,
                profile: profile@,
                expires_at: expires_at.deep_view(),
                scope: scope.deep_view(),
                auto_refresh: *auto_refresh,
                token_diagnostics: token_diagnostics.deep_view(),
                warnings: warnings.deep_view(),
            },
            Report::Refreshed {
                message,
                profile,
                requested_scope,
                granted_scope,
                expires_at,
            } => Report::Refreshed {
                message: message@,
                profile: profile@,
                requested_scope: requested_scope.deep_view(),
                granted_scope: granted_scope.deep_view(),
                expires_at: expires_at.deep_view(),
            },
            Report::ConsentUrl {
                admin_consent_url,
                client_id,
                tenant_id,
                scope,
                redirect_uri,
            } => Report::ConsentUrl {
                admin_consent_url: admin_consent_url@,
                client_id: client_id@,
                tenant_id: tenant_id@,
                scope: scope@,
                redirect_uri: redirect_uri@,
            },
            Report::Doctor {
                profile,
                auth_app,
                client_id,
                tenant_id,
                admin_consent_url,
                default_delegated_scopes,
                resolved_delegated_scopes,
                redirect_uri,
                authenticated,
                warnings,
                token,
            } => Report::Doctor {
                profile: profile@,
                auth_app: auth_app@,
                client_id: client_id@,
                tenant_id: tenant_id@,
                admin_consent_url: admin_consent_url@,
                default_delegated_scopes: default_delegated_scopes@,
                resolved_delegated_scopes: resolved_delegated_scopes@,
                redirect_uri: redirect_uri@,
                authenticated: *authenticated,
                warnings: warnings.deep_view(),
                token: token.deep_view(),
            },
            Report::Status {
                authenticated,
                profile,
                expires_at,
                scope,
                token_diagnostics,
                warnings,
            } => Report::Status {
                authenticated: *authenticated,
                profile: profile@,
                expires_at: expires_at.deep_view(),
                scope: scope.deep_view(),
                token_diagnostics: token_diagnostics.deep_view(),
                warnings: warnings.deep_view(),
            },
            Report::SignedOut { authenticated, profile } => Report::SignedOut {
                authenticated: *authenticated,
                profile: profile@,
            },
            Report::Profiles { profiles, active } => Report::Profiles {
                profiles: profiles.deep_view(),
                active: active@,
            },
            Report::Switched { message, profile } => Report::Switched {
                message: message@,
                profile: profile@,
            },
            Report::LoggedOut { message } => Report::LoggedOut { message: message@ },
            Report::Token {
                access_token,
                token_type,
                expires_at,
                token_diagnostics,
            } => Report::Token {
                access_token: access_token@,
                token_type: token_type@,
                expires_at: expires_at.deep_view(),
                token_diagnostics: token_diagnostics.deep_view(),
            },
        }
    }
}

/// The report on a login by one of the flows.
pub open spec fn login_report(profile: Text, token: TokenInfo<Text>) -> Report<Text, Texts> {
    Report::LoggedIn {
        message: "Authenticated successfully"@,
        profile,
        expires_at: expiry_text(token.expires_at),
        scope: token.scope,
    }
}

/// The report on a login by one of the flows.
pub fn report_login(profile: String, token: TokenInfo) -> (r: Report)
    ensures
        r@ == login_report(profile@, token@),
{
    Report::LoggedIn {
        message: "Authenticated successfully".to_owned(),
        profile,
        expires_at: show_expiry(token.expires_at),
        scope: token.scope,
    }
}

/// The report on a login with a provided token, at the time `now`.
pub open spec fn provided_login_report(
    profile: Text,
    token: TokenInfo<Text>,
    now: Timestamp,
) -> Report<Text, Texts> {
    Report::LoggedInWithToken {
        message: "Authenticated successfully with provided token"@,
        profile,
        expires_at: expiry_text(token.expires_at),
        scope: token.scope,
        auto_refresh: false,
        token_diagnostics: diagnostics(token.claims()),
        warnings: provided_warnings(token.expires_at, token.claims(), now),
    }
}

/// The report on a login with a provided token, at the time `now`.
pub fn report_provided_login(profile: String, token: TokenInfo, now: Timestamp) -> (r: Report)
    ensures
        r@ == provided_login_report(profile@, token@, now),
{
    let claims = token.unverified_claims();
    let warnings = provided_token_warnings_at(&token, claims.as_ref(), now);
    Report::LoggedInWithToken {
        message: "Authenticated successfully with provided token".to_owned(),
        profile,
        expires_at: show_expiry(token.expires_at),
        scope: token.scope,
        auto_refresh: false,
        token_diagnostics: token_diagnostics(claims.as_ref()),
        warnings,
    }
}

/// The report on a refresh for which `requested_scope` was asked and `token` was given.
pub open spec fn refresh_report(
    profile: Text,
    token: TokenInfo<Text>,
    requested_scope: Option<Text>,
) -> Report<Text, Texts> {
    Report::Refreshed {
        message: "Token refreshed successfully"@,
        profile,
        requested_scope,
        granted_scope: token.scope,
        expires_at: expiry_text(token.expires_at),
    }
}

/// The report on a refresh for which `requested_scope` was asked and `token` was given.
pub fn report_refresh(profile: String, token: TokenInfo, requested_scope: Option<String>) -> (r:
    Report)
    ensures
        r@ == refresh_report(profile@, token@, requested_scope.deep_view()),
{
    Report::Refreshed {
        message: "Token refreshed successfully".to_owned(),
        profile,
        requested_scope,
        granted_scope: token.scope,
        expires_at: show_expiry(token.expires_at),
    }
}

/// The report on the consent URL for `scopes`.
pub open spec fn consent_report(
    client_id: Text,
    tenant_id: Text,
    scopes: Text,
    defaults: Defaults<Text>,
) -> Report<Text, Texts> {
    Report::ConsentUrl {
        admin_consent_url: consent_url(client_id, tenant_id, scopes, defaults.redirect_uri),
        client_id,
        tenant_id,
        scope: scopes,
        redirect_uri: defaults.redirect_uri,
    }
}

/// The report on the consent URL for `scopes`.
pub fn report_consent(
    client_id: String,
    tenant_id: String,
    scopes: String,
    defaults: &Defaults,
) -> (r: Report)
    ensures
        r@ == consent_report(client_id@, tenant_id@, scopes@, defaults@),
{
    let admin_consent_url = delegated_admin_consent_url(
        client_id.as_str(),
        tenant_id.as_str(),
        scopes.as_str(),
        defaults.redirect_uri.as_str(),
    );
    Report::ConsentUrl {
        admin_consent_url,
        client_id,
        tenant_id,
        scope: scopes,
        redirect_uri: defaults.redirect_uri.clone(),
    }
}

/// What `auth doctor` prints of `token`.
pub open spec fn doctor_token(token: TokenInfo<Text>) -> DoctorToken<Text> {
    let shown = diagnostics(token.claims());
    DoctorToken {
        expires_at: expiry_text(token.expires_at),
        scope: token.scope,
        auth_type: match shown {
            Some(shown) => shown.auth_type,
            None => "unknown"@,
        },
        audience: match shown {
            Some(shown) => shown.audience,
            None => None,
        },
        is_graph_audience: match shown {
            Some(shown) => shown.is_graph_audience,
            None => None,
        },
        tenant_id: match shown {
            Some(shown) => shown.tenant_id,
            None => None,
        },
        app_id: match shown {
            Some(shown) => shown.app_id,
            None => None,
        },
        user: match shown {
            Some(shown) => shown.user,
            None => None,
        },
    }
}

fn show_doctor_token(token: TokenInfo, claims: Option<&TokenClaims>) -> (r: DoctorToken)
    requires
        claims.deep_view() == token@.claims(),
    ensures
        r@ == doctor_token(token@),
{
    let expires_at = show_expiry(token.expires_at);
    match token_diagnostics(claims) {
        Some(shown) => DoctorToken {
            expires_at,
            scope: token.scope,
            auth_type: shown.auth_type,
            audience: shown.audience,
            is_graph_audience: shown.is_graph_audience,
            tenant_id: shown.tenant_id,
            app_id: shown.app_id,
            user: shown.user,
        },
        None => DoctorToken {
            expires_at,
            scope: token.scope,
            auth_type: "unknown".to_owned(),
            audience: None,
            is_graph_audience: None,
            tenant_id: None,
            app_id: None,
            user: None,
        },
    }
}

/// The report of `auth doctor`.
pub open spec fn doctor_report(
    profile: Text,
    client_id: Text,
    tenant_id: Text,
    token: Option<TokenInfo<Text>>,
    scopes: Text,
    defaults: Defaults<Text>,
) -> Report<Text, Texts> {
    Report::Doctor {
        profile,
        auth_app: if client_id == defaults.public_client_id {
            "oso"@
        } else {
            "byo"@
        },
        client_id,
        tenant_id,
        admin_consent_url: consent_url(client_id, tenant_id, scopes, defaults.redirect_uri),
        default_delegated_scopes: defaults.delegated_scopes,
        resolved_delegated_scopes: scopes,
        redirect_uri: defaults.redirect_uri,
        authenticated: token is Some,
        warnings: match token {
            Some(token) => claims_warnings(token.claims()),
            None => seq![],
        },
        token: match token {
            Some(token) => Some(doctor_token(token)),
            None => None,
        },
    }
}

/// The report of `auth doctor`.
pub fn report_doctor(
    profile: String,
    client_id: String,
    tenant_id: String,
    token: Option<TokenInfo>,
    scopes: String,
    defaults: &Defaults,
) -> (r: Report)
    ensures
        r@ == doctor_report(
            profile@,
            client_id@,
            tenant_id@,
            token.deep_view(),
            scopes@,
            defaults@,
        ),
{
    let auth_app = if same(client_id.as_str(), defaults.public_client_id.as_str()) {
        "oso"
    } else {
        "byo"
    };
    let admin_consent_url = delegated_admin_consent_url(
        client_id.as_str(),
        tenant_id.as_str(),
        scopes.as_str(),
        defaults.redirect_uri.as_str(),
    );
    let authenticated = token.is_some();
    let (warnings, shown) = match token {
        Some(token) => {
            let claims = token.unverified_claims();
            let warnings = token_warnings(claims.as_ref());
            (warnings, Some(show_doctor_token(token, claims.as_ref())))
        },
        None => (token_warnings(None), None),
    };
    Report::Doctor {
        profile,
        auth_app: auth_app.to_owned(),
        client_id,
        tenant_id,
        admin_consent_url,
        default_delegated_scopes: defaults.delegated_scopes.clone(),
        resolved_delegated_scopes: scopes,
        redirect_uri: defaults.redirect_uri.clone(),
        authenticated,
        warnings,
        token: shown,
    }
}

/// The report of `auth status` on a profile with this token.
pub open spec fn status_report(profile: Text, token: TokenInfo<Text>) -> Report<Text, Texts> {
    Report::Status {
        authenticated: true,
        profile,
        expires_at: expiry_text(token.expires_at),
        scope: token.scope,
        token_diagnostics: diagnostics(token.claims()),
        warnings: claims_warnings(token.claims()),
    }
}

/// The report of `auth status` on a profile with this token.
pub fn report_status(profile: String, token: TokenInfo) -> (r: Report)
    ensures
        r@ == status_report(profile@, token@),
{
    let claims = token.unverified_claims();
    Report::Status {
        authenticated: true,
        profile,
        expires_at: show_expiry(token.expires_at),
        scope: token.scope,
        token_diagnostics: token_diagnostics(claims.as_ref()),
        warnings: token_warnings(claims.as_ref()),
    }
}

/// The report of `auth token --format json`.
pub open spec fn token_report(token: TokenInfo<Text>) -> Report<Text, Texts> {
    Report::Token {
        access_token: token.access_token,
        token_type: token.token_type,
        expires_at: expiry_text(token.expires_at),
        token_diagnostics: diagnostics(token.claims()),
    }
}

/// The report of `auth token --format json`.
pub fn report_token(token: TokenInfo) -> (r: Report)
    ensures
        r@ == token_report(token@),
{
    let claims = token.unverified_claims();
    Report::Token {
        access_token: token.access_token,
        token_type: token.token_type,
        expires_at: show_expiry(token.expires_at),
        token_diagnostics: token_diagnostics(claims.as_ref()),
    }
}

/// The report of `auth switch`.
pub open spec fn switch_report(name: Text) -> Report<Text, Texts> {
    Report::Switched { message: "Switched to profile '"@ + name + "'"@, profile: name }
}

/// The report of `auth switch`.
pub fn report_switch(name: String) -> (r: Report)
    ensures
        r@ == switch_report(name@),
{
    Report::Switched {
        message: "Switched to profile '".to_owned().concat(name.as_str()).concat("'"),
        profile: name,
    }
}

/// The digit of `n`, which is below ten.
pub open spec fn digit(n: nat) -> Text {
    if n == 0 {
        "0"@
    } else if n == 1 {
        "1"@
    } else if n == 2 {
        "2"@
    } else if n == 3 {
        "3"@
    } else if n == 4 {
        "4"@
    } else if n == 5 {
        "5"@
    } else if n == 6 {
        "6"@
    } else if n == 7 {
        "7"@
    } else if n == 8 {
        "8"@
    } else {
        "9"@
    }
}

/// The decimal digits of `n`.
pub open spec fn decimal(n: nat) -> Text
    decreases n,
{
    if n < 10 {
        digit(n)
    } else {
        decimal(n / 10) + digit(n % 10)
    }
}

fn show_decimal(n: usize) -> (r: String)
    ensures
        r@ == decimal(n as nat),
    decreases n,
{
    let last = match n % 10 {
        0 => "0",
        1 => "1",
        2 => "2",
        3 => "3",
        4 => "4",
        5 => "5",
        6 => "6",
        7 => "7",
        8 => "8",
        _ => "9",
    };
    if n < 10 {
        last.to_owned()
    } else {
        show_decimal(n / 10).concat(last)
    }
}

/// The report of `auth logout --all` after `count` profiles.
pub open spec fn logout_all_report(count: nat) -> Report<Text, Texts> {
    Report::LoggedOut { message: "Logged out from "@ + decimal(count) + " profile(s)"@ }
}

/// The report of `auth logout --all` after `count` profiles.
pub fn report_logout_all(count: usize) -> (r: Report)
    ensures
        r@ == logout_all_report(count as nat),
{
    Report::LoggedOut {
        message: "Logged out from ".to_owned().concat(show_decimal(count).as_str()).concat(
            " profile(s)",
        ),
    }
}

/// The report of `auth logout` on one profile.
pub open spec fn logout_report(target: Text) -> Report<Text, Texts> {
    Report::LoggedOut { message: "Logged out from profile '"@ + target + "'"@ }
}

/// The report of `auth logout` on one profile.
pub fn report_logout(target: String) -> (r: Report)
    ensures
        r@ == logout_report(target@),
{
    Report::LoggedOut {
        message: "Logged out from profile '".to_owned().concat(target.as_str()).concat("'"),
    }
}

/// The number that a text of decimal digits says; none where it is no such text.
pub open spec fn number_read(s: Text) -> Option<nat>
    decreases s.len(),
{
    if s.len() == 0 {
        None
    } else if !('0' <= s.last() <= '9') {
        None
    } else if s.len() == 1 {
        Some((s.last() as int - '0' as int) as nat)
    } else {
        match number_read(s.drop_last()) {
            Some(n) => Some((10 * n + (s.last() as int - '0' as int)) as nat),
            None => None,
        }
    }
}

/// The decimal digits of a number read as that number, and do not begin with a needless zero.
pub proof fn law_decimal_reads_as_its_number(n: nat)
    ensures
        number_read(decimal(n)) == Some(n),
        decimal(n).len() > 1 ==> decimal(n)[0] != '0',
    decreases n,
{
    reveal_strlit("0");
    reveal_strlit("1");
    reveal_strlit("2");
    reveal_strlit("3");
    reveal_strlit("4");
    reveal_strlit("5");
    reveal_strlit("6");
    reveal_strlit("7");
    reveal_strlit("8");
    reveal_strlit("9");
    if n >= 10 {
        law_decimal_reads_as_its_number(n / 10);
        let s = decimal(n);
        assert(s.drop_last() =~= decimal(n / 10));
        assert(s.last() == digit(n % 10)[0]);
        assert(s[0] == decimal(n / 10)[0]);
        if decimal(n / 10).len() == 1 {
            assert(number_read(decimal(n / 10)) == Some((decimal(n / 10)[0] as int - '0' as int) as nat));
        }
    }
}

} // verus!
