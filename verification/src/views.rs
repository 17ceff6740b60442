//! What contracts see of a value: each of its texts as characters, under its own name, and nothing
//! left out.

use crate::claims::{decoded_view, Audience, JwtError, Member, RawClaims, TokenClaims};
use crate::command::AuthCommand;
use crate::error::{result_view, TeamsError};
use crate::report::{DoctorToken, Report};
use crate::session::{Action, Defaults, Event, Outcome, Refresh, Session, Step};
use crate::text::{Text, Texts};
use crate::token::{TokenDiagnostics, TokenInfo};
use vstd::prelude::*;

verus! {

/// A stored token is seen with all that it holds.
pub proof fn law_view_of_token(token: TokenInfo)
    ensures
        token@.access_token == token.access_token@,
        token@.expires_at == token.expires_at,
        token@.token_type == token.token_type@,
        token@.scope == token.scope.deep_view(),
        token@.refresh_token == token.refresh_token.deep_view(),
        token@.profile == token.profile@,
        token.deep_view() == token@,
{
}

/// What a user is shown of a token is seen with all that it holds.
pub proof fn law_view_of_diagnostics(diagnostics: TokenDiagnostics)
    ensures
        diagnostics@.audience == diagnostics.audience.deep_view(),
        diagnostics@.is_graph_audience == diagnostics.is_graph_audience,
        diagnostics@.auth_type == diagnostics.auth_type@,
        diagnostics@.tenant_id == diagnostics.tenant_id.deep_view(),
        diagnostics@.app_id == diagnostics.app_id.deep_view(),
        diagnostics@.user == diagnostics.user.deep_view(),
        diagnostics.deep_view() == diagnostics@,
{
}

/// What `auth doctor` prints of a token is seen with all that it holds.
pub proof fn law_view_of_doctor_token(doctor_token: DoctorToken)
    ensures
        doctor_token@.expires_at == doctor_token.expires_at.deep_view(),
        doctor_token@.scope == doctor_token.scope.deep_view(),
        doctor_token@.auth_type == doctor_token.auth_type@,
        doctor_token@.audience == doctor_token.audience.deep_view(),
        doctor_token@.is_graph_audience == doctor_token.is_graph_audience,
        doctor_token@.tenant_id == doctor_token.tenant_id.deep_view(),
        doctor_token@.app_id == doctor_token.app_id.deep_view(),
        doctor_token@.user == doctor_token.user.deep_view(),
        doctor_token.deep_view() == doctor_token@,
{
}

/// Claims are seen with all that they hold.
pub proof fn law_view_of_claims(claims: TokenClaims)
    ensures
        claims.aud is None <==> claims@.aud is None,
        claims.aud == Some(Audience::<String>::Unnamed) <==> claims@.aud == Some(
            Audience::<Text>::Unnamed,
        ),
        claims.aud matches Some(Audience::Named(name)) ==> claims@.aud == Some(
            Audience::Named(name@),
        ),
        claims@.tid == claims.tid.deep_view(),
        claims@.appid == claims.appid.deep_view(),
        claims@.azp == claims.azp.deep_view(),
        claims@.preferred_username == claims.preferred_username.deep_view(),
        claims@.upn == claims.upn.deep_view(),
        claims@.scp == claims.scp.deep_view(),
        claims@.has_roles == claims.has_roles,
        claims@.exp == claims.exp,
        claims.deep_view() == claims@,
{
}

/// Claims whose kinds are not checked yet are seen with all that they hold.
pub proof fn law_view_of_raw_claims(raw: RawClaims)
    ensures
        raw@.aud == raw.aud@,
        raw@.tid == raw.tid@,
        raw@.appid == raw.appid@,
        raw@.azp == raw.azp@,
        raw@.preferred_username == raw.preferred_username@,
        raw@.upn == raw.upn@,
        raw@.scp == raw.scp@,
        raw@.roles == raw.roles@,
        raw@.exp == raw.exp@,
{
}

/// A member of a JSON object is seen as what it is.
pub proof fn law_view_of_member(member: Member)
    ensures
        member is Absent ==> member@ is Absent,
        member is Null ==> member@ is Null,
        member matches Member::Number(x) ==> member@ == Member::<Text>::Number(x),
        member matches Member::Text(x) ==> member@ == Member::<Text>::Text(x@),
        member is Other ==> member@ is Other,
{
}

/// A failure is seen as what it is, with its text.
pub proof fn law_view_of_error(error: TeamsError)
    ensures
        error matches TeamsError::AuthError(x) ==> error@ == TeamsError::<Text>::AuthError(x@),
        error matches TeamsError::InvalidInput(x) ==> error@ == TeamsError::<Text>::InvalidInput(
            x@,
        ),
        error matches TeamsError::Other(x) ==> error@ == TeamsError::<Text>::Other(x@),
{
}

/// An outcome is seen as what it is: a value by its view, a failure by its own.
pub proof fn law_view_of_results<T: View>(
    value: T,
    error: TeamsError,
    claims: TokenClaims,
    why: JwtError,
)
    ensures
        result_view(Ok::<T, TeamsError>(value)) == Ok::<T::V, TeamsError<Text>>(value@),
        result_view(Err::<T, TeamsError>(error)) == Err::<T::V, TeamsError<Text>>(error@),
        decoded_view(Ok(claims)) == Ok::<TokenClaims<Text>, JwtError>(claims@),
        decoded_view(Err(why)) == Err::<TokenClaims<Text>, JwtError>(why),
{
}

/// The settings that the program is built with are seen as they are.
pub proof fn law_view_of_defaults(defaults: Defaults)
    ensures
        defaults@.public_client_id == defaults.public_client_id@,
        defaults@.redirect_uri == defaults.redirect_uri@,
        defaults@.delegated_scopes == defaults.delegated_scopes@,
{
}

/// What came of a refresh is seen with all that it holds.
pub proof fn law_view_of_refresh(refresh: Refresh)
    ensures
        refresh@.token == refresh.token@,
        refresh@.requested_scope == refresh.requested_scope.deep_view(),
{
}

/// A command is seen with all that the user gave for it.
pub proof fn law_view_of_command(command: AuthCommand)
    ensures
        command matches AuthCommand::Login {
            client_credentials,
            device_code,
            token,
            client_id,
            client_secret,
            tenant_id,
            scopes,
        } ==> command@ == (AuthCommand::<Text>::Login {
            client_credentials: client_credentials,
            device_code: device_code,
            token: token.deep_view(),
            client_id: client_id.deep_view(),
            client_secret: client_secret.deep_view(),
            tenant_id: tenant_id.deep_view(),
            scopes: scopes.deep_view(),
        }),
        command matches AuthCommand::Refresh {
            scopes,
        } ==> command@ == (AuthCommand::<Text>::Refresh {
            scopes: scopes.deep_view(),
        }),
        command is Status ==> command@ is Status,
        command matches AuthCommand::ConsentUrl {
            client_id,
            tenant_id,
            scopes,
        } ==> command@ == (AuthCommand::<Text>::ConsentUrl {
            client_id: client_id.deep_view(),
            tenant_id: tenant_id.deep_view(),
            scopes: scopes.deep_view(),
        }),
        command matches AuthCommand::Doctor {
            client_id,
            tenant_id,
        } ==> command@ == (AuthCommand::<Text>::Doctor {
            client_id: client_id.deep_view(),
            tenant_id: tenant_id.deep_view(),
        }),
        command is List ==> command@ is List,
        command matches AuthCommand::Switch { name } ==> command@ == (AuthCommand::<Text>::Switch {
            name: name@,
        }),
        command matches AuthCommand::Logout {
            profile,
            all,
        } ==> command@ == (AuthCommand::<Text>::Logout {
            profile: profile.deep_view(),
            all: all,
        }),
        command matches AuthCommand::Token { format } ==> command@ == (AuthCommand::<Text>::Token {
            format: format@,
        }),
{
}

/// A request is seen with all that it holds.
pub proof fn law_view_of_action(action: Action)
    ensures
        action is ReadStdin ==> action@ is ReadStdin,
        action matches Action::ResolveClientId {
            profile,
            given,
        } ==> action@ == (Action::<Text>::ResolveClientId {
            profile: profile@,
            given: given.deep_view(),
        }),
        action matches Action::ResolveTenantId {
            profile,
            given,
        } ==> action@ == (Action::<Text>::ResolveTenantId {
            profile: profile@,
            given: given.deep_view(),
        }),
        action matches Action::ResolveClientSecret {
            given,
        } ==> action@ == (Action::<Text>::ResolveClientSecret {
            given: given.deep_view(),
        }),
        action matches Action::ResolveDelegatedClientId {
            profile,
            given,
        } ==> action@ == (Action::<Text>::ResolveDelegatedClientId {
            profile: profile@,
            given: given.deep_view(),
        }),
        action matches Action::ResolveDelegatedTenantId {
            profile,
            given,
        } ==> action@ == (Action::<Text>::ResolveDelegatedTenantId {
            profile: profile@,
            given: given.deep_view(),
        }),
        action matches Action::ResolveDelegatedScopes {
            profile,
            given,
        } ==> action@ == (Action::<Text>::ResolveDelegatedScopes {
            profile: profile@,
            given: given.deep_view(),
        }),
        action matches Action::ResolveScopesOverride {
            profile,
            given,
        } ==> action@ == (Action::<Text>::ResolveScopesOverride {
            profile: profile@,
            given: given.deep_view(),
        }),
        action matches Action::AuthenticateApp {
            profile,
            client_id,
            client_secret,
            tenant_id,
        } ==> action@ == (Action::<Text>::AuthenticateApp {
            profile: profile@,
            client_id: client_id@,
            client_secret: client_secret@,
            tenant_id: tenant_id@,
        }),
        action matches Action::AuthenticateDeviceCode {
            profile,
            client_id,
            tenant_id,
            scopes,
        } ==> action@ == (Action::<Text>::AuthenticateDeviceCode {
            profile: profile@,
            client_id: client_id@,
            tenant_id: tenant_id@,
            scopes: scopes@,
        }),
        action matches Action::AuthenticateAuthCode {
            profile,
            client_id,
            tenant_id,
            scopes,
        } ==> action@ == (Action::<Text>::AuthenticateAuthCode {
            profile: profile@,
            client_id: client_id@,
            tenant_id: tenant_id@,
            scopes: scopes@,
        }),
        action matches Action::RefreshToken {
            profile,
            scopes,
        } ==> action@ == (Action::<Text>::RefreshToken {
            profile: profile@,
            scopes: scopes.deep_view(),
        }),
        action matches Action::ResolveToken {
            profile,
        } ==> action@ == (Action::<Text>::ResolveToken {
            profile: profile@,
        }),
        action matches Action::StoreToken {
            profile,
            token,
        } ==> action@ == (Action::<Text>::StoreToken {
            profile: profile@,
            token: token@,
        }),
        action matches Action::AddProfile { profile } ==> action@ == (Action::<Text>::AddProfile {
            profile: profile@,
        }),
        action matches Action::DeleteToken { profile } ==> action@ == (Action::<Text>::DeleteToken {
            profile: profile@,
        }),
        action matches Action::RemoveProfile {
            profile,
        } ==> action@ == (Action::<Text>::RemoveProfile {
            profile: profile@,
        }),
        action is ListProfiles ==> action@ is ListProfiles,
        action matches Action::SaveDefaultProfile {
            name,
        } ==> action@ == (Action::<Text>::SaveDefaultProfile {
            name: name@,
        }),
{
}

/// An answer is seen with all that it holds.
pub proof fn law_view_of_event(event: Event)
    ensures
        event matches Event::Input(Ok(text)) ==> event@ == Event::<Text, Texts>::Input(Ok(text@)),
        event matches Event::Input(Err(why)) ==> event@ == Event::<Text, Texts>::Input(Err(why@)),
        event matches Event::Choice(choice) ==> event@ == Event::<Text, Texts>::Choice(
            choice.deep_view(),
        ),
        event matches Event::Value(value) ==> event@ == Event::<Text, Texts>::Value(value@),
        event matches Event::Checked(Ok(value)) ==> event@ == Event::<Text, Texts>::Checked(
            Ok(value@),
        ),
        event matches Event::Checked(Err(error)) ==> event@ == Event::<Text, Texts>::Checked(
            Err(error@),
        ),
        event matches Event::Token(Ok(token)) ==> event@ == Event::<Text, Texts>::Token(Ok(token@)),
        event matches Event::Token(Err(error)) ==> event@ == Event::<Text, Texts>::Token(
            Err(error@),
        ),
        event matches Event::Refreshed(Ok(refresh)) ==> event@ == Event::<Text, Texts>::Refreshed(
            Ok(refresh@),
        ),
        event matches Event::Refreshed(Err(error)) ==> event@ == Event::<Text, Texts>::Refreshed(
            Err(error@),
        ),
        event matches Event::Profiles(profiles) ==> event@ == Event::<Text, Texts>::Profiles(
            profiles.deep_view(),
        ),
        event matches Event::Done(Ok(done)) ==> event@ == Event::<Text, Texts>::Done(Ok(done@)),
        event matches Event::Done(Err(error)) ==> event@ == Event::<Text, Texts>::Done(Err(error@)),
{
}

/// An end is seen as what it is.
pub proof fn law_view_of_outcome(outcome: Outcome)
    ensures
        outcome matches Outcome::Printed(x) ==> outcome@ == Outcome::<Text, Texts>::Printed(x@),
        outcome matches Outcome::SignedOut(x) ==> outcome@ == Outcome::<Text, Texts>::SignedOut(x@),
        outcome matches Outcome::Bearer(x) ==> outcome@ == Outcome::<Text, Texts>::Bearer(x@),
        outcome matches Outcome::Failed(x) ==> outcome@ == Outcome::<Text, Texts>::Failed(x@),
{
}

/// A step is seen as what it is.
pub proof fn law_view_of_step(step: Step)
    ensures
        step matches Step::Continue {
            session,
            action,
        } ==> step@ == (Step::<Text, Texts>::Continue {
            session: session@,
            action: action@,
        }),
        step matches Step::Finished(x) ==> step@ == Step::<Text, Texts>::Finished(x@),
{
}

/// Where a command stands is seen with all that it remembers.
pub proof fn law_view_of_session(session: Session)
    ensures
        session matches Session::ReadingToken {
            profile,
        } ==> session@ == (Session::<Text, Texts>::ReadingToken {
            profile: profile@,
        }),
        session matches Session::StoringProvided {
            profile,
            token,
        } ==> session@ == (Session::<Text, Texts>::StoringProvided {
            profile: profile@,
            token: token@,
        }),
        session matches Session::IndexingProvided {
            profile,
            token,
        } ==> session@ == (Session::<Text, Texts>::IndexingProvided {
            profile: profile@,
            token: token@,
        }),
        session matches Session::AppClientId {
            profile,
            tenant_id,
            client_secret,
        } ==> session@ == (Session::<Text, Texts>::AppClientId {
            profile: profile@,
            tenant_id: tenant_id.deep_view(),
            client_secret: client_secret.deep_view(),
        }),
        session matches Session::AppTenantId {
            profile,
            client_id,
            client_secret,
        } ==> session@ == (Session::<Text, Texts>::AppTenantId {
            profile: profile@,
            client_id: client_id@,
            client_secret: client_secret.deep_view(),
        }),
        session matches Session::AppSecret {
            profile,
            client_id,
            tenant_id,
        } ==> session@ == (Session::<Text, Texts>::AppSecret {
            profile: profile@,
            client_id: client_id@,
            tenant_id: tenant_id@,
        }),
        session matches Session::DelegatedClientId {
            profile,
            purpose,
            tenant_id,
            scopes,
        } ==> session@ == (Session::<Text, Texts>::DelegatedClientId {
            profile: profile@,
            purpose: purpose,
            tenant_id: tenant_id.deep_view(),
            scopes: scopes.deep_view(),
        }),
        session matches Session::DelegatedTenantId {
            profile,
            purpose,
            client_id,
            scopes,
        } ==> session@ == (Session::<Text, Texts>::DelegatedTenantId {
            profile: profile@,
            purpose: purpose,
            client_id: client_id@,
            scopes: scopes.deep_view(),
        }),
        session matches Session::DelegatedScopes {
            profile,
            purpose,
            client_id,
            tenant_id,
        } ==> session@ == (Session::<Text, Texts>::DelegatedScopes {
            profile: profile@,
            purpose: purpose,
            client_id: client_id@,
            tenant_id: tenant_id@,
        }),
        session matches Session::Authenticating {
            profile,
        } ==> session@ == (Session::<Text, Texts>::Authenticating {
            profile: profile@,
        }),
        session matches Session::StoringGranted {
            profile,
            token,
        } ==> session@ == (Session::<Text, Texts>::StoringGranted {
            profile: profile@,
            token: token@,
        }),
        session matches Session::IndexingGranted {
            profile,
            token,
        } ==> session@ == (Session::<Text, Texts>::IndexingGranted {
            profile: profile@,
            token: token@,
        }),
        session matches Session::RefreshOverride {
            profile,
        } ==> session@ == (Session::<Text, Texts>::RefreshOverride {
            profile: profile@,
        }),
        session matches Session::Refreshing {
            profile,
            scopes,
        } ==> session@ == (Session::<Text, Texts>::Refreshing {
            profile: profile@,
            scopes: scopes.deep_view(),
        }),
        session matches Session::DoctorClientId {
            profile,
            tenant_id,
        } ==> session@ == (Session::<Text, Texts>::DoctorClientId {
            profile: profile@,
            tenant_id: tenant_id.deep_view(),
        }),
        session matches Session::DoctorTenantId {
            profile,
            client_id,
        } ==> session@ == (Session::<Text, Texts>::DoctorTenantId {
            profile: profile@,
            client_id: client_id@,
        }),
        session matches Session::DoctorToken {
            profile,
            client_id,
            tenant_id,
        } ==> session@ == (Session::<Text, Texts>::DoctorToken {
            profile: profile@,
            client_id: client_id@,
            tenant_id: tenant_id@,
        }),
        session matches Session::DoctorScopes {
            profile,
            client_id,
            tenant_id,
            token,
        } ==> session@ == (Session::<Text, Texts>::DoctorScopes {
            profile: profile@,
            client_id: client_id@,
            tenant_id: tenant_id@,
            token: token.deep_view(),
        }),
        session matches Session::Status {
            profile,
        } ==> session@ == (Session::<Text, Texts>::Status {
            profile: profile@,
        }),
        session matches Session::Listing {
            profile,
        } ==> session@ == (Session::<Text, Texts>::Listing {
            profile: profile@,
        }),
        session matches Session::SwitchToken {
            name,
        } ==> session@ == (Session::<Text, Texts>::SwitchToken {
            name: name@,
        }),
        session matches Session::SwitchSave {
            name,
        } ==> session@ == (Session::<Text, Texts>::SwitchSave {
            name: name@,
        }),
        session is LogoutListing ==> session@ is LogoutListing,
        session matches Session::LogoutAllDeleting {
            current,
            rest,
            total,
        } ==> session@ == (Session::<Text, Texts>::LogoutAllDeleting {
            current: current@,
            rest: rest.deep_view(),
            total: total,
        }),
        session matches Session::LogoutAllRemoving {
            current,
            rest,
            total,
        } ==> session@ == (Session::<Text, Texts>::LogoutAllRemoving {
            current: current@,
            rest: rest.deep_view(),
            total: total,
        }),
        session matches Session::LogoutDeleting {
            target,
        } ==> session@ == (Session::<Text, Texts>::LogoutDeleting {
            target: target@,
        }),
        session matches Session::LogoutRemoving {
            target,
        } ==> session@ == (Session::<Text, Texts>::LogoutRemoving {
            target: target@,
        }),
        session matches Session::Exporting {
            format,
        } ==> session@ == (Session::<Text, Texts>::Exporting {
            format: format@,
        }),
{
}

/// What is printed is seen with all that it holds.
pub proof fn law_view_of_report(report: Report)
    ensures
        report matches Report::LoggedIn {
            message,
            profile,
            expires_at,
            scope,
        } ==> report@ == (Report::<Text, Texts>::LoggedIn {
            message: message@,
            profile: profile@,
            expires_at: expires_at.deep_view(),
            scope: scope.deep_view(),
        }),
        report matches Report::LoggedInWithToken {
            message,
            profile,
            expires_at,
            scope,
            auto_refresh,
            token_diagnostics,
            warnings,
        } ==> report@ == (Report::<Text, Texts>::LoggedInWithToken {
            message: message@,
            profile: profile@,
            expires_at: expires_at.deep_view(),
            scope: scope.deep_view(),
            auto_refresh: auto_refresh,
            token_diagnostics: token_diagnostics.deep_view(),
            warnings: warnings.deep_view(),
        }),
        report matches Report::Refreshed {
            message,
            profile,
            requested_scope,
            granted_scope,
            expires_at,
        } ==> report@ == (Report::<Text, Texts>::Refreshed {
            message: message@,
            profile: profile@,
            requested_scope: requested_scope.deep_view(),
            granted_scope: granted_scope.deep_view(),
            expires_at: expires_at.deep_view(),
        }),
        report matches Report::ConsentUrl {
            admin_consent_url,
            client_id,
            tenant_id,
            scope,
            redirect_uri,
        } ==> report@ == (Report::<Text, Texts>::ConsentUrl {
            admin_consent_url: admin_consent_url@,
            client_id: client_id@,
            tenant_id: tenant_id@,
            scope: scope@,
            redirect_uri: redirect_uri@,
        }),
        report matches Report::Doctor {
            profile,
            auth_app,
            client_id,
            tenant_id,
            admin_consent_url,
            default_delegated_scopes,
            resolved_delegated_scopes,
            redirect_uri,
            authenticated,
            warnings,
            token,
        } ==> report@ == (Report::<Text, Texts>::Doctor {
            profile: profile@,
            auth_app: auth_app@,
            client_id: client_id@,
            tenant_id: tenant_id@,
            admin_consent_url: admin_consent_url@,
            default_delegated_scopes: default_delegated_scopes@,
            resolved_delegated_scopes: resolved_delegated_scopes@,
            redirect_uri: redirect_uri@,
            authenticated: authenticated,
            warnings: warnings.deep_view(),
            token: token.deep_view(),
        }),
        report matches Report::Status {
            authenticated,
            profile,
            expires_at,
            scope,
            token_diagnostics,
            warnings,
        } ==> report@ == (Report::<Text, Texts>::Status {
            authenticated: authenticated,
            profile: profile@,
            expires_at: expires_at.deep_view(),
            scope: scope.deep_view(),
            token_diagnostics: token_diagnostics.deep_view(),
            warnings: warnings.deep_view(),
        }),
        report matches Report::SignedOut {
            authenticated,
            profile,
        } ==> report@ == (Report::<Text, Texts>::SignedOut {
            authenticated: authenticated,
            profile: profile@,
        }),
        report matches Report::Profiles {
            profiles,
            active,
        } ==> report@ == (Report::<Text, Texts>::Profiles {
            profiles: profiles.deep_view(),
            active: active@,
        }),
        report matches Report::Switched {
            message,
            profile,
        } ==> report@ == (Report::<Text, Texts>::Switched {
            message: message@,
            profile: profile@,
        }),
        report matches Report::LoggedOut {
            message,
        } ==> report@ == (Report::<Text, Texts>::LoggedOut {
            message: message@,
        }),
        report matches Report::Token {
            access_token,
            token_type,
            expires_at,
            token_diagnostics,
        } ==> report@ == (Report::<Text, Texts>::Token {
            access_token: access_token@,
            token_type: token_type@,
            expires_at: expires_at.deep_view(),
            token_diagnostics: token_diagnostics.deep_view(),
        }),
{
}

} // verus!
