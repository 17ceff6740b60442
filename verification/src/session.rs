//! A command as a conversation. The library asks for one thing at a time: a setting, a reply of
//! the identity platform, a change to the keyring. The program does it and hands back what came
//! of it, and the library answers with the next request or with how the command ends.

use crate::claims::token_claims;
use crate::command::AuthCommand;
use crate::consent::{annotate_consent_error, annotated};
use crate::error::{result_view, TeamsError};
use crate::report::{
    consent_report, doctor_report, login_report, logout_all_report, logout_report,
    provided_login_report, refresh_report, report_consent, report_doctor, report_login,
    report_logout, report_logout_all, report_provided_login, report_refresh, report_status,
    report_switch, report_token, status_report, switch_report, token_report, Report,
};
use crate::text::{same, Text, Texts};
use crate::time::{clock_reading, shown_by_the_clock, time_to_judge, Timestamp};
use crate::token::{
    provided_info, provided_token, provided_token_info, read_provided_token, TokenInfo,
};
use vstd::prelude::*;

verus! {

/// Settings that the program is built with.
#[derive(Debug)]
pub struct Defaults<S = String> {
    /// The client id of the app that comes with the program.
    pub public_client_id: S,
    /// Where the identity platform sends the user back to.
    pub redirect_uri: S,
    /// The delegated scopes that are asked for when none are configured.
    pub delegated_scopes: S,
}

impl View for Defaults {
    type V = Defaults<Text>;

    open spec fn view(&self) -> Defaults<Text> {
        Defaults {
            public_client_id: self.public_client_id@,
            redirect_uri: self.redirect_uri@,
            delegated_scopes: self.delegated_scopes@,
        }
    }
}

/// What a delegated client, tenant and scopes are resolved for.
#[derive(Debug, Clone, Copy, PartialEq, Eq, Structural)]
pub enum Purpose {
    /// A login by device code.
    DeviceCode,
    /// A login by authorization code with proof key.
    AuthCode,
    /// The consent URL.
    Consent,
}

/// What came of a refresh: the new token, and the scope that was asked for.
#[derive(Debug)]
pub struct Refresh<S = String> {
    pub token: TokenInfo<S>,
    pub requested_scope: Option<S>,
}

impl View for Refresh {
    type V = Refresh<Text>;

    open spec fn view(&self) -> Refresh<Text> {
        Refresh { token: self.token@, requested_scope: self.requested_scope.deep_view() }
    }
}

/// A request to the program.
#[allow(inconsistent_fields)]
#[derive(Debug)]
pub enum Action<S = String> {
    /// Read standard input to its end. Answered by `Event::Input`.
    ReadStdin,
    /// The client id of a profile, if any is given or configured. Answered by `Event::Choice`.
    ResolveClientId { profile: S, given: Option<S> },
    /// The tenant id of a profile, if any is given or configured. Answered by `Event::Choice`.
    ResolveTenantId { profile: S, given: Option<S> },
    /// The client secret, if any is given or configured. Answered by `Event::Choice`.
    ResolveClientSecret { given: Option<S> },
    /// The client id for delegated flows. Answered by `Event::Checked`.
    ResolveDelegatedClientId { profile: S, given: Option<S> },
    /// The tenant id for delegated flows. Answered by `Event::Value`.
    ResolveDelegatedTenantId { profile: S, given: Option<S> },
    /// The scopes for delegated flows. Answered by `Event::Value`.
    ResolveDelegatedScopes { profile: S, given: Option<S> },
    /// The scopes that override those of the stored token, if any. Answered by `Event::Choice`.
    ResolveScopesOverride { profile: S, given: Option<S> },
    /// A token by client credentials. Answered by `Event::Token`.
    AuthenticateApp { profile: S, client_id: S, client_secret: S, tenant_id: S },
    /// A token by device code. Answered by `Event::Token`.
    AuthenticateDeviceCode { profile: S, client_id: S, tenant_id: S, scopes: S },
    /// A token by authorization code with proof key. Answered by `Event::Token`.
    AuthenticateAuthCode { profile: S, client_id: S, tenant_id: S, scopes: S },
    /// Redeem the refresh token of a profile, for these scopes or for those of the stored token.
    /// Answered by `Event::Refreshed`.
    RefreshToken { profile: S, scopes: Option<S> },
    /// The current token of a profile. Answered by `Event::Token`.
    ResolveToken { profile: S },
    /// Keep a token in the keyring. Answered by `Event::Done`.
    StoreToken { profile: S, token: TokenInfo<S> },
    /// Add a profile to the index of profiles. Answered by `Event::Done`.
    AddProfile { profile: S },
    /// Remove a token from the keyring. Answered by `Event::Done`.
    DeleteToken { profile: S },
    /// Remove a profile from the index of profiles. Answered by `Event::Done`.
    RemoveProfile { profile: S },
    /// The index of profiles. Answered by `Event::Profiles`.
    ListProfiles,
    /// Make a profile the default one in the configuration. Answered by `Event::Done`.
    SaveDefaultProfile { name: S },
}

/// What came of a request.
#[derive(Debug)]
pub enum Event<S = String, L = Vec<String>> {
    /// What was read, or why it could not be.
    Input(Result<S, S>),
    /// A setting that may be missing.
    Choice(Option<S>),
    /// A setting.
    Value(S),
    /// A setting, or why there is none.
    Checked(Result<S, TeamsError<S>>),
    /// A token, or why there is none.
    Token(Result<TokenInfo<S>, TeamsError<S>>),
    /// A refreshed token, or why there is none.
    Refreshed(Result<Refresh<S>, TeamsError<S>>),
    /// The profiles.
    Profiles(L),
    /// It is done, or why it is not.
    Done(Result<(), TeamsError<S>>),
}

/// How a command ends.
#[derive(Debug)]
pub enum Outcome<S = String, L = Vec<String>> {
    /// Print the report; the command succeeded.
    Printed(Report<S, L>),
    /// Print the report and exit with status one: there is no token.
    SignedOut(Report<S, L>),
    /// Print the bare token; the command succeeded.
    Bearer(S),
    /// The command failed.
    Failed(TeamsError<S>),
}

/// Where a command stands between a request and its answer.
#[allow(inconsistent_fields)]
#[derive(Debug)]
pub enum Session<S = String, L = Vec<String>> {
    /// `auth login --token -` waits for standard input.
    ReadingToken { profile: S },
    /// `auth login --token` waits for the keyring.
    StoringProvided { profile: S, token: TokenInfo<S> },
    /// `auth login --token` waits for the index.
    IndexingProvided { profile: S, token: TokenInfo<S> },
    /// `auth login --client-credentials` waits for the client id.
    AppClientId { profile: S, tenant_id: Option<S>, client_secret: Option<S> },
    /// `auth login --client-credentials` waits for the tenant id.
    AppTenantId { profile: S, client_id: S, client_secret: Option<S> },
    /// `auth login --client-credentials` waits for the client secret.
    AppSecret { profile: S, client_id: S, tenant_id: S },
    /// A delegated login or `auth consent-url` waits for the client id.
    DelegatedClientId { profile: S, purpose: Purpose, tenant_id: Option<S>, scopes: Option<S> },
    /// A delegated login or `auth consent-url` waits for the tenant id.
    DelegatedTenantId { profile: S, purpose: Purpose, client_id: S, scopes: Option<S> },
    /// A delegated login or `auth consent-url` waits for the scopes.
    DelegatedScopes { profile: S, purpose: Purpose, client_id: S, tenant_id: S },
    /// A login waits for the identity platform.
    Authenticating { profile: S },
    /// A login waits for the keyring.
    StoringGranted { profile: S, token: TokenInfo<S> },
    /// A login waits for the index.
    IndexingGranted { profile: S, token: TokenInfo<S> },
    /// `auth refresh` waits for the scope override.
    RefreshOverride { profile: S },
    /// `auth refresh` waits for the identity platform.
    Refreshing { profile: S, scopes: Option<S> },
    /// `auth doctor` waits for the client id.
    DoctorClientId { profile: S, tenant_id: Option<S> },
    /// `auth doctor` waits for the tenant id.
    DoctorTenantId { profile: S, client_id: S },
    /// `auth doctor` waits for the current token.
    DoctorToken { profile: S, client_id: S, tenant_id: S },
    /// `auth doctor` waits for the scopes.
    DoctorScopes { profile: S, client_id: S, tenant_id: S, token: Option<TokenInfo<S>> },
    /// `auth status` waits for the current token.
    Status { profile: S },
    /// `auth list` waits for the index.
    Listing { profile: S },
    /// `auth switch` waits for the token of the profile.
    SwitchToken { name: S },
    /// `auth switch` waits for the configuration.
    SwitchSave { name: S },
    /// `auth logout --all` waits for the index.
    LogoutListing,
    /// `auth logout --all` waits for the keyring at one profile; `rest` are still to come.
    LogoutAllDeleting { current: S, rest: L, total: usize },
    /// `auth logout --all` waits for the index at one profile; `rest` are still to come.
    LogoutAllRemoving { current: S, rest: L, total: usize },
    /// `auth logout` waits for the keyring.
    LogoutDeleting { target: S },
    /// `auth logout` waits for the index.
    LogoutRemoving { target: S },
    /// `auth token` waits for the current token.
    Exporting { format: S },
}

/// What comes next: a request, or the end.
#[derive(Debug)]
pub enum Step<S = String, L = Vec<String>> {
    Continue { session: Session<S, L>, action: Action<S> },
    Finished(Outcome<S, L>),
}

impl View for Action {
    type V = Action<Text>;

    open spec fn view(&self) -> Action<Text> {
        match self {
            Action::ReadStdin => Action::ReadStdin,
            Action::ResolveClientId { profile, given } => Action::ResolveClientId {
                profile: profile@,
                given: given.deep_view(),
            },
            Action::ResolveTenantId { profile, given } => Action::ResolveTenantId {
                profile: profile@,
                given: given.deep_view(),
            },
            Action::ResolveClientSecret { given } => Action::ResolveClientSecret {
                given: given.deep_view(),
            },
            Action::ResolveDelegatedClientId { profile, given } => Action::ResolveDelegatedClientId {
                profile: profile@,
                given: given.deep_view(),
            },
            Action::ResolveDelegatedTenantId { profile, given } => Action::ResolveDelegatedTenantId {
                profile: profile@,
                given: given.deep_view(),
            },
            Action::ResolveDelegatedScopes { profile, given } => Action::ResolveDelegatedScopes {
                profile: profile@,
                given: given.deep_view(),
            },
            Action::ResolveScopesOverride { profile, given } => Action::ResolveScopesOverride {
                profile: profile@,
                given: given.deep_view(),
            },
            Action::AuthenticateApp {
                profile,
                client_id,
                client_secret,
                tenant_id,
            } => Action::AuthenticateApp {
                profile: profile@,
                client_id: client_id@,
                client_secret: client_secret@,
                tenant_id: tenant_id@,
            },
            Action::AuthenticateDeviceCode {
                profile,
                client_id,
                tenant_id,
                scopes,
            } => Action::AuthenticateDeviceCode {
                profile: profile@,
                client_id: client_id@,
                tenant_id: tenant_id@,
                scopes: scopes@,
            },
            Action::AuthenticateAuthCode {
                profile,
                client_id,
                tenant_id,
                scopes,
            } => Action::AuthenticateAuthCode {
                profile: profile@,
                client_id: client_id@,
                tenant_id: tenant_id@,
                scopes: scopes@,
            },
            Action::RefreshToken { profile, scopes } => Action::RefreshToken {
                profile: profile@,
                scopes: scopes.deep_view(),
            },
            Action::ResolveToken { profile } => Action::ResolveToken {
                profile: profile@,
            },
            Action::StoreToken { profile, token } => Action::StoreToken {
                profile: profile@,
                token: token@,
            },
            Action::AddProfile { profile } => Action::AddProfile {
                profile: profile@,
            },
            Action::DeleteToken { profile } => Action::DeleteToken {
                profile: profile@,
            },
            Action::RemoveProfile { profile } => Action::RemoveProfile {
                profile: profile@,
            },
            Action::ListProfiles => Action::ListProfiles,
            Action::SaveDefaultProfile { name } => Action::SaveDefaultProfile {
                name: name@,
            },
        }
    }
}

impl View for Event {
    type V = Event<Text, Texts>;

    open spec fn view(&self) -> Event<Text, Texts> {
        match self {
            Event::Input(Ok(text)) => Event::Input(Ok(text@)),
            Event::Input(Err(why)) => Event::Input(Err(why@)),
            Event::Choice(choice) => Event::Choice(choice.deep_view()),
            Event::Value(value) => Event::Value(value@),
            Event::Checked(value) => Event::Checked(result_view(*value)),
            Event::Token(token) => Event::Token(result_view(*token)),
            Event::Refreshed(refresh) => Event::Refreshed(result_view(*refresh)),
            Event::Profiles(profiles) => Event::Profiles(profiles.deep_view()),
            Event::Done(done) => Event::Done(result_view(*done)),
        }
    }
}

impl View for Outcome {
    type V = Outcome<Text, Texts>;

    open spec fn view(&self) -> Outcome<Text, Texts> {
        match self {
            Outcome::Printed(report) => Outcome::Printed(report@),
            Outcome::SignedOut(report) => Outcome::SignedOut(report@),
            Outcome::Bearer(token) => Outcome::Bearer(token@),
            Outcome::Failed(error) => Outcome::Failed(error@),
        }
    }
}

impl View for Session {
    type V = Session<Text, Texts>;

    open spec fn view(&self) -> Session<Text, Texts> {
        match self {
            Session::ReadingToken { profile } => Session::ReadingToken {
                profile: profile@,
            },
            Session::StoringProvided { profile, token } => Session::StoringProvided {
                profile: profile@,
                token: token@,
            },
            Session::IndexingProvided { profile, token } => Session::IndexingProvided {
                profile: profile@,
                token: token@,
            },
            Session::AppClientId { profile, tenant_id, client_secret } => Session::AppClientId {
                profile: profile@,
                tenant_id: tenant_id.deep_view(),
                client_secret: client_secret.deep_view(),
            },
            Session::AppTenantId { profile, client_id, client_secret } => Session::AppTenantId {
                profile: profile@,
                client_id: client_id@,
                client_secret: client_secret.deep_view(),
            },
            Session::AppSecret { profile, client_id, tenant_id } => Session::AppSecret {
                profile: profile@,
                client_id: client_id@,
                tenant_id: tenant_id@,
            },
            Session::DelegatedClientId {
                profile,
                purpose,
                tenant_id,
                scopes,
            } => Session::DelegatedClientId {
                profile: profile@,
                purpose: *purpose,
                tenant_id: tenant_id.deep_view(),
                scopes: scopes.deep_view(),
            },
            Session::DelegatedTenantId {
                profile,
                purpose,
                client_id,
                scopes,
            } => Session::DelegatedTenantId {
                profile: profile@,
                purpose: *purpose,
                client_id: client_id@,
                scopes: scopes.deep_view(),
            },
            Session::DelegatedScopes {
                profile,
                purpose,
                client_id,
                tenant_id,
            } => Session::DelegatedScopes {
                profile: profile@,
                purpose: *purpose,
                client_id: client_id@,
                tenant_id: tenant_id@,
            },
            Session::Authenticating { profile } => Session::Authenticating {
                profile: profile@,
            },
            Session::StoringGranted { profile, token } => Session::StoringGranted {
                profile: profile@,
                token: token@,
            },
            Session::IndexingGranted { profile, token } => Session::IndexingGranted {
                profile: profile@,
                token: token@,
            },
            Session::RefreshOverride { profile } => Session::RefreshOverride {
                profile: profile@,
            },
            Session::Refreshing { profile, scopes } => Session::Refreshing {
                profile: profile@,
                scopes: scopes.deep_view(),
            },
            Session::DoctorClientId { profile, tenant_id } => Session::DoctorClientId {
                profile: profile@,
                tenant_id: tenant_id.deep_view(),
            },
            Session::DoctorTenantId { profile, client_id } => Session::DoctorTenantId {
                profile: profile@,
                client_id: client_id@,
            },
            Session::DoctorToken { profile, client_id, tenant_id } => Session::DoctorToken {
                profile: profile@,
                client_id: client_id@,
                tenant_id: tenant_id@,
            },
            Session::DoctorScopes { profile, client_id, tenant_id, token } => Session::DoctorScopes {
                profile: profile@,
                client_id: client_id@,
                tenant_id: tenant_id@,
                token: token.deep_view(),
            },
            Session::Status { profile } => Session::Status {
                profile: profile@,
            },
            Session::Listing { profile } => Session::Listing {
                profile: profile@,
            },
            Session::SwitchToken { name } => Session::SwitchToken {
                name: name@,
            },
            Session::SwitchSave { name } => Session::SwitchSave {
                name: name@,
            },
            Session::LogoutListing => Session::LogoutListing,
            Session::LogoutAllDeleting { current, rest, total } => Session::LogoutAllDeleting {
                current: current@,
                rest: rest.deep_view(),
                total: *total,
            },
            Session::LogoutAllRemoving { current, rest, total } => Session::LogoutAllRemoving {
                current: current@,
                rest: rest.deep_view(),
                total: *total,
            },
            Session::LogoutDeleting { target } => Session::LogoutDeleting {
                target: target@,
            },
            Session::LogoutRemoving { target } => Session::LogoutRemoving {
                target: target@,
            },
            Session::Exporting { format } => Session::Exporting {
                format: format@,
            },
        }
    }
}

impl View for Step {
    type V = Step<Text, Texts>;

    open spec fn view(&self) -> Step<Text, Texts> {
        match self {
            Step::Continue { session, action } => Step::Continue {
                session: session@,
                action: action@,
            },
            Step::Finished(outcome) => Step::Finished(outcome@),
        }
    }
}

/// Whether `event` is an answer to what `session` waits for.
pub open spec fn expects<S, L>(session: Session<S, L>, event: Event<S, L>) -> bool {
    match session {
        Session::ReadingToken { .. } => event is Input,
        Session::StoringProvided { .. } => event is Done,
        Session::IndexingProvided { .. } => event is Done,
        Session::AppClientId { .. } => event is Choice,
        Session::AppTenantId { .. } => event is Choice,
        Session::AppSecret { .. } => event is Choice,
        Session::DelegatedClientId { .. } => event is Checked,
        Session::DelegatedTenantId { .. } => event is Value,
        Session::DelegatedScopes { .. } => event is Value,
        Session::Authenticating { .. } => event is Token,
        Session::StoringGranted { .. } => event is Done,
        Session::IndexingGranted { .. } => event is Done,
        Session::RefreshOverride { .. } => event is Choice,
        Session::Refreshing { .. } => event is Refreshed,
        Session::DoctorClientId { .. } => event is Checked,
        Session::DoctorTenantId { .. } => event is Value,
        Session::DoctorToken { .. } => event is Token,
        Session::DoctorScopes { .. } => event is Value,
        Session::Status { .. } => event is Token,
        Session::Listing { .. } => event is Profiles,
        Session::SwitchToken { .. } => event is Token,
        Session::SwitchSave { .. } => event is Done,
        Session::LogoutListing => event is Profiles,
        Session::LogoutAllDeleting { .. } => event is Done,
        Session::LogoutAllRemoving { .. } => event is Done,
        Session::LogoutDeleting { .. } => event is Done,
        Session::LogoutRemoving { .. } => event is Done,
        Session::Exporting { .. } => event is Token,
    }
}

/// A request, with where the command then stands.
pub open spec fn ask(session: Session<Text, Texts>, action: Action<Text>) -> Step<Text, Texts> {
    Step::Continue { session, action }
}

/// The end of a command that succeeded.
pub open spec fn succeed(report: Report<Text, Texts>) -> Step<Text, Texts> {
    Step::Finished(Outcome::Printed(report))
}

/// The end of a command that failed.
pub open spec fn fail(error: TeamsError<Text>) -> Step<Text, Texts> {
    Step::Finished(Outcome::Failed(error))
}

/// `auth login --token` once the text that holds the token is there: a token that can be decoded
/// is stored, anything else is refused.
pub open spec fn token_given(profile: Text, raw: Text) -> Step<Text, Texts> {
    match provided_token(raw) {
        Err(error) => fail(error),
        Ok(access_token) => match provided_info(
            profile,
            access_token,
            token_claims(access_token),
        ) {
            Err(error) => fail(error),
            Ok(token) => ask(
                Session::StoringProvided { profile, token },
                Action::StoreToken { profile, token },
            ),
        },
    }
}

/// `auth logout --all` when all of its `total` profiles but `rest` are logged out.
pub open spec fn logout_of_rest(rest: Texts, total: usize) -> Step<Text, Texts> {
    if rest.len() > 0 {
        ask(
            Session::LogoutAllDeleting { current: rest[0], rest: rest.skip(1), total },
            Action::DeleteToken { profile: rest[0] },
        )
    } else {
        succeed(logout_all_report(total as nat))
    }
}

/// How a command begins.
pub open spec fn begin(command: AuthCommand<Text>, profile: Text) -> Step<Text, Texts> {
    match command {
        AuthCommand::Login {
            client_credentials,
            device_code,
            token,
            client_id,
            client_secret,
            tenant_id,
            scopes,
        } => if token is Some {
            if token->0 == "-"@ {
                ask(Session::ReadingToken { profile }, Action::ReadStdin)
            } else {
                token_given(profile, token->0)
            }
        } else if client_credentials {
            ask(
                Session::AppClientId { profile, tenant_id, client_secret },
                Action::ResolveClientId { profile, given: client_id },
            )
        } else {
            ask(
                Session::DelegatedClientId {
                    profile,
                    purpose: if device_code {
                        Purpose::DeviceCode
                    } else {
                        Purpose::AuthCode
                    },
                    tenant_id,
                    scopes,
                },
                Action::ResolveDelegatedClientId { profile, given: client_id },
            )
        },
        AuthCommand::Refresh { scopes } => ask(
            Session::RefreshOverride { profile },
            Action::ResolveScopesOverride { profile, given: scopes },
        ),
        AuthCommand::Status => ask(Session::Status { profile }, Action::ResolveToken { profile }),
        AuthCommand::ConsentUrl { client_id, tenant_id, scopes } => ask(
            Session::DelegatedClientId { profile, purpose: Purpose::Consent, tenant_id, scopes },
            Action::ResolveDelegatedClientId { profile, given: client_id },
        ),
        AuthCommand::Doctor { client_id, tenant_id } => ask(
            Session::DoctorClientId { profile, tenant_id },
            Action::ResolveDelegatedClientId { profile, given: client_id },
        ),
        AuthCommand::List => ask(Session::Listing { profile }, Action::ListProfiles),
        AuthCommand::Switch { name } => ask(
            Session::SwitchToken { name },
            Action::ResolveToken { profile: name },
        ),
        AuthCommand::Logout { profile: given, all } => if all {
            ask(Session::LogoutListing, Action::ListProfiles)
        } else {
            let target = match given {
                Some(target) => target,
                None => profile,
            };
            ask(Session::LogoutDeleting { target }, Action::DeleteToken { profile: target })
        },
        AuthCommand::Token { format } => ask(
            Session::Exporting { format },
            Action::ResolveToken { profile },
        ),
    }
}

/// How a command goes on from where it stands, by what came of its request and the time.
pub open spec fn next(
    session: Session<Text, Texts>,
    event: Event<Text, Texts>,
    defaults: Defaults<Text>,
    now: Timestamp,
) -> Step<Text, Texts>
    recommends
        expects(session, event),
{
    match (session, event) {
        // login --token
        (Session::ReadingToken { profile }, Event::Input(Ok(raw))) => token_given(profile, raw),
        (Session::ReadingToken { .. }, Event::Input(Err(why))) => fail(
            TeamsError::InvalidInput("Failed to read token from stdin: "@ + why),
        ),
        (Session::StoringProvided { profile, token }, Event::Done(Ok(_))) => ask(
            Session::IndexingProvided { profile, token },
            Action::AddProfile { profile },
        ),
        (Session::IndexingProvided { profile, token }, Event::Done(Ok(_))) => succeed(
            provided_login_report(profile, token, now),
        ),
        // login --client-credentials
        (
            Session::AppClientId { profile, tenant_id, client_secret },
            Event::Choice(Some(client_id)),
        ) => ask(
            Session::AppTenantId { profile, client_id, client_secret },
            Action::ResolveTenantId { profile, given: tenant_id },
        ),
        (Session::AppClientId { .. }, Event::Choice(None)) => fail(
            TeamsError::InvalidInput(
                "Client ID is required for client credentials flow. Use --client-id or set TEAMS_CLI_CLIENT_ID"@,
            ),
        ),
        (
            Session::AppTenantId { profile, client_id, client_secret },
            Event::Choice(Some(tenant_id)),
        ) => ask(
            Session::AppSecret { profile, client_id, tenant_id },
            Action::ResolveClientSecret { given: client_secret },
        ),
        (Session::AppTenantId { .. }, Event::Choice(None)) => fail(
            TeamsError::InvalidInput(
                "Tenant ID is required for client credentials flow. Use --tenant-id or set TEAMS_CLI_TENANT_ID"@,
            ),
        ),
        (
            Session::AppSecret { profile, client_id, tenant_id },
            Event::Choice(Some(client_secret)),
        ) => ask(
            Session::Authenticating { profile },
            Action::AuthenticateApp { profile, client_id, client_secret, tenant_id },
        ),
        (Session::AppSecret { .. }, Event::Choice(None)) => fail(
            TeamsError::InvalidInput(
                "Client secret is required for client credentials flow. Use --client-secret or set TEAMS_CLI_CLIENT_SECRET"@,
            ),
        ),
        // delegated login, consent-url
        (
            Session::DelegatedClientId { profile, purpose, tenant_id, scopes },
            Event::Checked(Ok(client_id)),
        ) => ask(
            Session::DelegatedTenantId { profile, purpose, client_id, scopes },
            Action::ResolveDelegatedTenantId { profile, given: tenant_id },
        ),
        (
            Session::DelegatedTenantId { profile, purpose, client_id, scopes },
            Event::Value(tenant_id),
        ) => ask(
            Session::DelegatedScopes { profile, purpose, client_id, tenant_id },
            Action::ResolveDelegatedScopes { profile, given: scopes },
        ),
        (
            Session::DelegatedScopes { profile, purpose, client_id, tenant_id },
            Event::Value(scopes),
        ) => match purpose {
            Purpose::DeviceCode => ask(
                Session::Authenticating { profile },
                Action::AuthenticateDeviceCode { profile, client_id, tenant_id, scopes },
            ),
            Purpose::AuthCode => ask(
                Session::Authenticating { profile },
                Action::AuthenticateAuthCode { profile, client_id, tenant_id, scopes },
            ),
            Purpose::Consent => succeed(consent_report(client_id, tenant_id, scopes, defaults)),
        },
        (Session::Authenticating { profile }, Event::Token(Ok(token))) => ask(
            Session::StoringGranted { profile, token },
            Action::StoreToken { profile, token },
        ),
        (Session::StoringGranted { profile, token }, Event::Done(Ok(_))) => ask(
            Session::IndexingGranted { profile, token },
            Action::AddProfile { profile },
        ),
        (Session::IndexingGranted { profile, token }, Event::Done(Ok(_))) => succeed(
            login_report(profile, token),
        ),
        // refresh
        (Session::RefreshOverride { profile }, Event::Choice(scopes)) => ask(
            Session::Refreshing { profile, scopes },
            Action::RefreshToken { profile, scopes },
        ),
        (Session::Refreshing { profile, .. }, Event::Refreshed(Ok(refresh))) => succeed(
            refresh_report(profile, refresh.token, refresh.requested_scope),
        ),
        (Session::Refreshing { profile, scopes }, Event::Refreshed(Err(error))) => fail(
            annotated(error, profile, scopes),
        ),
        // doctor
        (Session::DoctorClientId { profile, tenant_id }, Event::Checked(Ok(client_id))) => ask(
            Session::DoctorTenantId { profile, client_id },
            Action::ResolveDelegatedTenantId { profile, given: tenant_id },
        ),
        (Session::DoctorTenantId { profile, client_id }, Event::Value(tenant_id)) => ask(
            Session::DoctorToken { profile, client_id, tenant_id },
            Action::ResolveToken { profile },
        ),
        (Session::DoctorToken { profile, client_id, tenant_id }, Event::Token(token)) => ask(
            Session::DoctorScopes {
                profile,
                client_id,
                tenant_id,
                token: match token {
                    Ok(token) => Some(token),
                    Err(_) => None,
                },
            },
            Action::ResolveDelegatedScopes { profile, given: None },
        ),
        (
            Session::DoctorScopes { profile, client_id, tenant_id, token },
            Event::Value(scopes),
        ) => succeed(doctor_report(profile, client_id, tenant_id, token, scopes, defaults)),
        // status, list
        (Session::Status { profile }, Event::Token(Ok(token))) => succeed(
            status_report(profile, token),
        ),
        (Session::Status { profile }, Event::Token(Err(_))) => Step::Finished(
            Outcome::SignedOut(Report::SignedOut { authenticated: false, profile }),
        ),
        (Session::Listing { profile }, Event::Profiles(profiles)) => succeed(
            Report::Profiles { profiles, active: profile },
        ),
        // switch
        (Session::SwitchToken { name }, Event::Token(Ok(_))) => ask(
            Session::SwitchSave { name },
            Action::SaveDefaultProfile { name },
        ),
        (Session::SwitchSave { name }, Event::Done(_)) => succeed(switch_report(name)),
        // logout
        (Session::LogoutListing, Event::Profiles(profiles)) => logout_of_rest(
            profiles,
            profiles.len() as usize,
        ),
        (Session::LogoutAllDeleting { current, rest, total }, Event::Done(Ok(_))) => ask(
            Session::LogoutAllRemoving { current, rest, total },
            Action::RemoveProfile { profile: current },
        ),
        (Session::LogoutAllRemoving { rest, total, .. }, Event::Done(Ok(_))) => logout_of_rest(
            rest,
            total,
        ),
        (Session::LogoutDeleting { target }, Event::Done(Ok(_))) => ask(
            Session::LogoutRemoving { target },
            Action::RemoveProfile { profile: target },
        ),
        (Session::LogoutRemoving { target }, Event::Done(Ok(_))) => succeed(logout_report(target)),
        // token
        (Session::Exporting { format }, Event::Token(Ok(token))) => if format == "json"@ {
            succeed(token_report(token))
        } else {
            Step::Finished(Outcome::Bearer(token.access_token))
        },
        // any other failure ends the command
        (_, Event::Checked(Err(error))) => fail(error),
        (_, Event::Token(Err(error))) => fail(error),
        (_, Event::Done(Err(error))) => fail(error),
        (_, _) => arbitrary(),
    }
}

/// Whether `event` is an answer to what `session` waits for.
pub fn accepts(session: &Session, event: &Event) -> (r: bool)
    ensures
        r == expects(session@, event@),
{
    match (session, event) {
        (Session::ReadingToken { .. }, Event::Input(_)) => true,
        (Session::StoringProvided { .. }, Event::Done(_)) => true,
        (Session::IndexingProvided { .. }, Event::Done(_)) => true,
        (Session::AppClientId { .. }, Event::Choice(_)) => true,
        (Session::AppTenantId { .. }, Event::Choice(_)) => true,
        (Session::AppSecret { .. }, Event::Choice(_)) => true,
        (Session::DelegatedClientId { .. }, Event::Checked(_)) => true,
        (Session::DelegatedTenantId { .. }, Event::Value(_)) => true,
        (Session::DelegatedScopes { .. }, Event::Value(_)) => true,
        (Session::Authenticating { .. }, Event::Token(_)) => true,
        (Session::StoringGranted { .. }, Event::Done(_)) => true,
        (Session::IndexingGranted { .. }, Event::Done(_)) => true,
        (Session::RefreshOverride { .. }, Event::Choice(_)) => true,
        (Session::Refreshing { .. }, Event::Refreshed(_)) => true,
        (Session::DoctorClientId { .. }, Event::Checked(_)) => true,
        (Session::DoctorTenantId { .. }, Event::Value(_)) => true,
        (Session::DoctorToken { .. }, Event::Token(_)) => true,
        (Session::DoctorScopes { .. }, Event::Value(_)) => true,
        (Session::Status { .. }, Event::Token(_)) => true,
        (Session::Listing { .. }, Event::Profiles(_)) => true,
        (Session::SwitchToken { .. }, Event::Token(_)) => true,
        (Session::SwitchSave { .. }, Event::Done(_)) => true,
        (Session::LogoutListing, Event::Profiles(_)) => true,
        (Session::LogoutAllDeleting { .. }, Event::Done(_)) => true,
        (Session::LogoutAllRemoving { .. }, Event::Done(_)) => true,
        (Session::LogoutDeleting { .. }, Event::Done(_)) => true,
        (Session::LogoutRemoving { .. }, Event::Done(_)) => true,
        (Session::Exporting { .. }, Event::Token(_)) => true,
        (_, _) => false,
    }
}

fn take_token(profile: String, raw: &str) -> (r: Step)
    ensures
        r@ == token_given(profile@, raw@),
{
    let access_token = match read_provided_token(raw) {
        Ok(access_token) => access_token,
        Err(error) => {
            return Step::Finished(Outcome::Failed(error));
        },
    };
    match provided_token_info(profile.as_str(), access_token) {
        Ok(token) => Step::Continue {
            action: Action::StoreToken { profile: profile.clone(), token: token.clone() },
            session: Session::StoringProvided { profile, token },
        },
        Err(error) => Step::Finished(Outcome::Failed(error)),
    }
}

fn log_out_rest(rest: Vec<String>, total: usize) -> (r: Step)
    ensures
        r@ == logout_of_rest(rest.deep_view(), total),
{
    let mut rest = rest;
    let ghost all = rest.deep_view();
    if rest.len() > 0 {
        let current = rest.remove(0);
        assert(rest.deep_view() =~= all.skip(1));
        Step::Continue {
            action: Action::DeleteToken { profile: current.clone() },
            session: Session::LogoutAllDeleting { current, rest, total },
        }
    } else {
        Step::Finished(Outcome::Printed(report_logout_all(total)))
    }
}

/// Begins a command for a profile.
pub fn start(command: AuthCommand, profile: &str) -> (r: Step)
    ensures
        r@ == begin(command@, profile@),
{
    let profile = profile.to_owned();
    match command {
        AuthCommand::Login {
            client_credentials,
            device_code,
            token,
            client_id,
            client_secret,
            tenant_id,
            scopes,
        } => {
            if let Some(arg) = token {
                if same(arg.as_str(), "-") {
                    Step::Continue {
                        session: Session::ReadingToken { profile },
                        action: Action::ReadStdin,
                    }
                } else {
                    take_token(profile, arg.as_str())
                }
            } else if client_credentials {
                Step::Continue {
                    action: Action::ResolveClientId { profile: profile.clone(), given: client_id },
                    session: Session::AppClientId { profile, tenant_id, client_secret },
                }
            } else {
                let purpose = if device_code {
                    Purpose::DeviceCode
                } else {
                    Purpose::AuthCode
                };
                Step::Continue {
                    action: Action::ResolveDelegatedClientId {
                        profile: profile.clone(),
                        given: client_id,
                    },
                    session: Session::DelegatedClientId { profile, purpose, tenant_id, scopes },
                }
            }
        },
        AuthCommand::Refresh { scopes } => Step::Continue {
            action: Action::ResolveScopesOverride { profile: profile.clone(), given: scopes },
            session: Session::RefreshOverride { profile },
        },
        AuthCommand::Status => Step::Continue {
            action: Action::ResolveToken { profile: profile.clone() },
            session: Session::Status { profile },
        },
        AuthCommand::ConsentUrl { client_id, tenant_id, scopes } => Step::Continue {
            action: Action::ResolveDelegatedClientId { profile: profile.clone(), given: client_id },
            session: Session::DelegatedClientId {
                profile,
                purpose: Purpose::Consent,
                tenant_id,
                scopes,
            },
        },
        AuthCommand::Doctor { client_id, tenant_id } => Step::Continue {
            action: Action::ResolveDelegatedClientId { profile: profile.clone(), given: client_id },
            session: Session::DoctorClientId { profile, tenant_id },
        },
        AuthCommand::List => Step::Continue {
            session: Session::Listing { profile },
            action: Action::ListProfiles,
        },
        AuthCommand::Switch { name } => Step::Continue {
            action: Action::ResolveToken { profile: name.clone() },
            session: Session::SwitchToken { name },
        },
        AuthCommand::Logout { profile: given, all } => {
            if all {
                Step::Continue { session: Session::LogoutListing, action: Action::ListProfiles }
            } else {
                let target = match given {
                    Some(target) => target,
                    None => profile,
                };
                Step::Continue {
                    action: Action::DeleteToken { profile: target.clone() },
                    session: Session::LogoutDeleting { target },
                }
            }
        },
        AuthCommand::Token { format } => Step::Continue {
            session: Session::Exporting { format },
            action: Action::ResolveToken { profile },
        },
    }
}

/// Goes on with a command at the time `now`, once its request is answered.
pub fn resume_at(session: Session, event: Event, defaults: &Defaults, now: Timestamp) -> (r: Step)
    requires
        expects(session@, event@),
    ensures
        r@ == next(session@, event@, defaults@, now),
{
    match (session, event) {
        // login --token
        (Session::ReadingToken { profile }, Event::Input(Ok(raw))) => take_token(
            profile,
            raw.as_str(),
        ),
        (Session::ReadingToken { .. }, Event::Input(Err(why))) => Step::Finished(
            Outcome::Failed(
                TeamsError::InvalidInput(
                    "Failed to read token from stdin: ".to_owned().concat(why.as_str()),
                ),
            ),
        ),
        (Session::StoringProvided { profile, token }, Event::Done(Ok(_))) => Step::Continue {
            action: Action::AddProfile { profile: profile.clone() },
            session: Session::IndexingProvided { profile, token },
        },
        (Session::IndexingProvided { profile, token }, Event::Done(Ok(_))) => Step::Finished(
            Outcome::Printed(report_provided_login(profile, token, now)),
        ),
        // login --client-credentials
        (
            Session::AppClientId { profile, tenant_id, client_secret },
            Event::Choice(Some(client_id)),
        ) => Step::Continue {
            action: Action::ResolveTenantId { profile: profile.clone(), given: tenant_id },
            session: Session::AppTenantId { profile, client_id, client_secret },
        },
        (Session::AppClientId { .. }, Event::Choice(None)) => Step::Finished(
            Outcome::Failed(
                TeamsError::InvalidInput(
                    "Client ID is required for client credentials flow. Use --client-id or set TEAMS_CLI_CLIENT_ID".to_owned(),
                ),
            ),
        ),
        (
            Session::AppTenantId { profile, client_id, client_secret },
            Event::Choice(Some(tenant_id)),
        ) => Step::Continue {
            session: Session::AppSecret { profile, client_id, tenant_id },
            action: Action::ResolveClientSecret { given: client_secret },
        },
        (Session::AppTenantId { .. }, Event::Choice(None)) => Step::Finished(
            Outcome::Failed(
                TeamsError::InvalidInput(
                    "Tenant ID is required for client credentials flow. Use --tenant-id or set TEAMS_CLI_TENANT_ID".to_owned(),
                ),
            ),
        ),
        (
            Session::AppSecret { profile, client_id, tenant_id },
            Event::Choice(Some(client_secret)),
        ) => Step::Continue {
            action: Action::AuthenticateApp {
                profile: profile.clone(),
                client_id,
                client_secret,
                tenant_id,
            },
            session: Session::Authenticating { profile },
        },
        (Session::AppSecret { .. }, Event::Choice(None)) => Step::Finished(
            Outcome::Failed(
                TeamsError::InvalidInput(
                    "Client secret is required for client credentials flow. Use --client-secret or set TEAMS_CLI_CLIENT_SECRET".to_owned(),
                ),
            ),
        ),
        // delegated login, consent-url
        (
            Session::DelegatedClientId { profile, purpose, tenant_id, scopes },
            Event::Checked(Ok(client_id)),
        ) => Step::Continue {
            action: Action::ResolveDelegatedTenantId { profile: profile.clone(), given: tenant_id },
            session: Session::DelegatedTenantId { profile, purpose, client_id, scopes },
        },
        (
            Session::DelegatedTenantId { profile, purpose, client_id, scopes },
            Event::Value(tenant_id),
        ) => Step::Continue {
            action: Action::ResolveDelegatedScopes { profile: profile.clone(), given: scopes },
            session: Session::DelegatedScopes { profile, purpose, client_id, tenant_id },
        },
        (
            Session::DelegatedScopes { profile, purpose, client_id, tenant_id },
            Event::Value(scopes),
        ) => match purpose {
            Purpose::DeviceCode => Step::Continue {
                action: Action::AuthenticateDeviceCode {
                    profile: profile.clone(),
                    client_id,
                    tenant_id,
                    scopes,
                },
                session: Session::Authenticating { profile },
            },
            Purpose::AuthCode => Step::Continue {
                action: Action::AuthenticateAuthCode {
                    profile: profile.clone(),
                    client_id,
                    tenant_id,
                    scopes,
                },
                session: Session::Authenticating { profile },
            },
            Purpose::Consent => Step::Finished(
                Outcome::Printed(report_consent(client_id, tenant_id, scopes, defaults)),
            ),
        },
        (Session::Authenticating { profile }, Event::Token(Ok(token))) => Step::Continue {
            action: Action::StoreToken { profile: profile.clone(), token: token.clone() },
            session: Session::StoringGranted { profile, token },
        },
        (Session::StoringGranted { profile, token }, Event::Done(Ok(_))) => Step::Continue {
            action: Action::AddProfile { profile: profile.clone() },
            session: Session::IndexingGranted { profile, token },
        },
        (Session::IndexingGranted { profile, token }, Event::Done(Ok(_))) => Step::Finished(
            Outcome::Printed(report_login(profile, token)),
        ),
        // refresh
        (Session::RefreshOverride { profile }, Event::Choice(scopes)) => Step::Continue {
            action: Action::RefreshToken { profile: profile.clone(), scopes: scopes.clone() },
            session: Session::Refreshing { profile, scopes },
        },
        (Session::Refreshing { profile, .. }, Event::Refreshed(Ok(refresh))) => Step::Finished(
            Outcome::Printed(report_refresh(profile, refresh.token, refresh.requested_scope)),
        ),
        (Session::Refreshing { profile, scopes }, Event::Refreshed(Err(error))) => {
            let requested = match &scopes {
                Some(scopes) => Some(scopes.as_str()),
                None => None,
            };
            Step::Finished(
                Outcome::Failed(annotate_consent_error(error, profile.as_str(), requested)),
            )
        },
        // doctor
        (
            Session::DoctorClientId { profile, tenant_id },
            Event::Checked(Ok(client_id)),
        ) => Step::Continue {
            action: Action::ResolveDelegatedTenantId { profile: profile.clone(), given: tenant_id },
            session: Session::DoctorTenantId { profile, client_id },
        },
        (Session::DoctorTenantId { profile, client_id }, Event::Value(tenant_id)) => Step::Continue {
            action: Action::ResolveToken { profile: profile.clone() },
            session: Session::DoctorToken { profile, client_id, tenant_id },
        },
        (
            Session::DoctorToken { profile, client_id, tenant_id },
            Event::Token(reply),
        ) => {
            let token = match reply {
                Ok(token) => Some(token),
                Err(_) => None,
            };
            Step::Continue {
                action: Action::ResolveDelegatedScopes { profile: profile.clone(), given: None },
                session: Session::DoctorScopes { profile, client_id, tenant_id, token },
            }
        },
        (
            Session::DoctorScopes { profile, client_id, tenant_id, token },
            Event::Value(scopes),
        ) => Step::Finished(
            Outcome::Printed(
                report_doctor(profile, client_id, tenant_id, token, scopes, defaults),
            ),
        ),
        // status, list
        (Session::Status { profile }, Event::Token(Ok(token))) => Step::Finished(
            Outcome::Printed(report_status(profile, token)),
        ),
        (Session::Status { profile }, Event::Token(Err(_))) => Step::Finished(
            Outcome::SignedOut(Report::SignedOut { authenticated: false, profile }),
        ),
        (Session::Listing { profile }, Event::Profiles(profiles)) => Step::Finished(
            Outcome::Printed(Report::Profiles { profiles, active: profile }),
        ),
        // switch
        (Session::SwitchToken { name }, Event::Token(Ok(_))) => Step::Continue {
            action: Action::SaveDefaultProfile { name: name.clone() },
            session: Session::SwitchSave { name },
        },
        (Session::SwitchSave { name }, Event::Done(_)) => Step::Finished(
            Outcome::Printed(report_switch(name)),
        ),
        // logout
        (Session::LogoutListing, Event::Profiles(profiles)) => {
            let total: usize = profiles.len();
            log_out_rest(profiles, total)
        },
        (
            Session::LogoutAllDeleting { current, rest, total },
            Event::Done(Ok(_)),
        ) => Step::Continue {
            action: Action::RemoveProfile { profile: current.clone() },
            session: Session::LogoutAllRemoving { current, rest, total },
        },
        (Session::LogoutAllRemoving { rest, total, .. }, Event::Done(Ok(_))) => log_out_rest(
            rest,
            total,
        ),
        (Session::LogoutDeleting { target }, Event::Done(Ok(_))) => Step::Continue {
            action: Action::RemoveProfile { profile: target.clone() },
            session: Session::LogoutRemoving { target },
        },
        (Session::LogoutRemoving { target }, Event::Done(Ok(_))) => Step::Finished(
            Outcome::Printed(report_logout(target)),
        ),
        // token
        (Session::Exporting { format }, Event::Token(Ok(token))) => {
            if same(format.as_str(), "json") {
                Step::Finished(Outcome::Printed(report_token(token)))
            } else {
                Step::Finished(Outcome::Bearer(token.access_token))
            }
        },
        // any other failure ends the command
        (_, Event::Checked(Err(error))) => Step::Finished(Outcome::Failed(error)),
        (_, Event::Token(Err(error))) => Step::Finished(Outcome::Failed(error)),
        (_, Event::Done(Err(error))) => Step::Finished(Outcome::Failed(error)),
        (_, _) => vstd::pervasive::unreached(),
    }
}

/// The expiry that the answer has judged: that of a provided token, once it is stored and indexed.
pub open spec fn judged_expiry(
    session: Session<Text, Texts>,
    event: Event<Text, Texts>,
) -> Option<Timestamp> {
    match (session, event) {
        (Session::IndexingProvided { token, .. }, Event::Done(Ok(_))) => token.expires_at,
        _ => None,
    }
}

/// Goes on with a command by the machine's clock, once its request is answered. The clock is read
/// only where there is an expiry to judge.
pub fn resume(session: Session, event: Event, defaults: &Defaults) -> (r: Step)
    requires
        expects(session@, event@),
    ensures
        exists|now: Timestamp|
            clock_reading(now) && r@ == #[trigger] next(session@, event@, defaults@, now),
        judged_expiry(session@, event@) is None ==> forall|now: Timestamp|
            r@ == #[trigger] next(session@, event@, defaults@, now),
        (exists|t: Timestamp|
            shown_by_the_clock(t) && r@ == #[trigger] next(session@, event@, defaults@, t)) || (
        forall|t: Timestamp| r@ == #[trigger] next(session@, event@, defaults@, t)),
{
    let judged = match (&session, &event) {
        (Session::IndexingProvided { token, .. }, Event::Done(Ok(_))) => token.expires_at,
        _ => None,
    };
    let now = time_to_judge(judged);
    resume_at(session, event, defaults, now)
}

} // verus!
