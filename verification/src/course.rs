//! The course of each command, from its first request over the answers to what is printed in the
//! end.

use crate::claims::{token_claims, Audience, JwtError, TokenClaims};
use crate::command::AuthCommand;
use crate::consent::{annotated, consent_url};
use crate::conversation::{
    is_done, law_logout_all_goes_through_every_profile, lemma_asking, played, proper, Reply,
};
use crate::error::TeamsError;
use crate::report::{law_decimal_reads_as_its_number, number_read, DoctorToken, Report};
use crate::session::{
    begin, expects, next, Action, Defaults, Event, Outcome, Refresh, Session, Step,
};
use crate::text::{Text, Texts};
use crate::time::{expiry_text, Timestamp};
use crate::token::{
    claims_warnings, diagnostics, provided_info, provided_token, provided_warnings, TokenInfo,
};
use vstd::prelude::*;

verus! {

/// A step of a command, by the texts that it holds.
pub type TextStep = Step<Text, Texts>;

/// A request of a command, by the texts that it holds.
pub type TextAction = Action<Text>;

/// The only tokens that a login by one of the flows asks the keyring to keep are those that the
/// identity platform granted: what is to be kept, for the profile of the command, is in every field
/// the token of the reply before, and that reply was to a request for a token of that profile.
pub proof fn law_login_keeps_what_was_granted(
    command: AuthCommand<Text>,
    profile: Text,
    replies: Seq<Reply>,
    defaults: Defaults<Text>,
)
    requires
        command matches AuthCommand::Login { token: None, .. },
        proper(begin(command, profile), replies, defaults),
    ensures
        played(begin(command, profile), replies, defaults) matches Step::Continue {
            session,
            action,
        } ==> {
            &&& !(session is ReadingToken || session is StoringProvided
                || session is IndexingProvided)
            &&& action matches Action::StoreToken { profile: keeper, token } ==> keeper == profile
                && replies.len() > 0 && replies.last().0 == Event::<Text, Texts>::Token(Ok(token))
                && (played(
                begin(command, profile),
                replies.drop_last(),
                defaults,
            ) matches Step::Continue { action: asked, .. } && match asked {
                Action::AuthenticateApp { profile: p, .. } => p == profile,
                Action::AuthenticateDeviceCode { profile: p, .. } => p == profile,
                Action::AuthenticateAuthCode { profile: p, .. } => p == profile,
                _ => false,
            })
        },
    decreases replies.len(),
{
    if replies.len() > 0 {
        law_login_keeps_what_was_granted(command, profile, replies.drop_last(), defaults);
        lemma_asking(command, profile, replies.drop_last(), defaults);
    }
}

/// A token that the identity platform grants to a login is kept, in every field as it was granted;
/// then the profile is added to the index; and then the login is reported, with the expiry and the
/// scope of that token.
pub proof fn law_granted_token_is_kept_and_reported(
    command: AuthCommand<Text>,
    profile: Text,
    replies: Seq<Reply>,
    token: TokenInfo<Text>,
    defaults: Defaults<Text>,
    now: Timestamp,
)
    requires
        proper(begin(command, profile), replies, defaults),
        played(begin(command, profile), replies, defaults) matches Step::Continue { action, .. } && (
        action is AuthenticateApp || action is AuthenticateDeviceCode
            || action is AuthenticateAuthCode),
    ensures
        ({
            &&& played(begin(command, profile), replies, defaults) matches Step::Continue {
                session: s0,
                ..
            }
            &&& next(s0, Event::Token(Ok(token)), defaults, now) matches Step::Continue {
                session: s1,
                action: a1,
            }
            &&& a1 == (Action::StoreToken { profile, token })
            &&& next(s1, Event::Done(Ok(())), defaults, now) matches Step::Continue {
                session: s2,
                action: a2,
            }
            &&& a2 == (TextAction::AddProfile { profile })
            &&& next(s2, Event::Done(Ok(())), defaults, now) == TextStep::Finished(
                Outcome::Printed(
                    Report::LoggedIn {
                        message: "Authenticated successfully"@,
                        profile,
                        expires_at: expiry_text(token.expires_at),
                        scope: token.scope,
                    },
                ),
            )
        }),
{
    lemma_asking(command, profile, replies, defaults);
}

/// What is missing for a login by client credentials is told by its own name, and nothing is asked
/// of the identity platform.
pub proof fn law_missing_credentials_are_named(
    profile: Text,
    device_code: bool,
    given_client_id: Option<Text>,
    given_client_secret: Option<Text>,
    given_tenant_id: Option<Text>,
    scopes: Option<Text>,
    client_id: Text,
    tenant_id: Text,
    defaults: Defaults<Text>,
    now: Timestamp,
)
    ensures
        ({
            &&& begin(
                AuthCommand::Login {
                    client_credentials: true,
                    device_code,
                    token: None,
                    client_id: given_client_id,
                    client_secret: given_client_secret,
                    tenant_id: given_tenant_id,
                    scopes,
                },
                profile,
            ) matches Step::Continue { session: s0, .. }
            &&& next(s0, Event::Choice(None), defaults, now) == TextStep::Finished(
                Outcome::Failed(
                    TeamsError::InvalidInput(
                        "Client ID is required for client credentials flow. Use --client-id or set TEAMS_CLI_CLIENT_ID"@,
                    ),
                ),
            )
            &&& next(s0, Event::Choice(Some(client_id)), defaults, now) matches Step::Continue {
                session: s1,
                ..
            }
            &&& next(s1, Event::Choice(None), defaults, now) == TextStep::Finished(
                Outcome::Failed(
                    TeamsError::InvalidInput(
                        "Tenant ID is required for client credentials flow. Use --tenant-id or set TEAMS_CLI_TENANT_ID"@,
                    ),
                ),
            )
            &&& next(s1, Event::Choice(Some(tenant_id)), defaults, now) matches Step::Continue {
                session: s2,
                ..
            }
            &&& next(s2, Event::Choice(None), defaults, now) == TextStep::Finished(
                Outcome::Failed(
                    TeamsError::InvalidInput(
                        "Client secret is required for client credentials flow. Use --client-secret or set TEAMS_CLI_CLIENT_SECRET"@,
                    ),
                ),
            )
        }),
{
}

/// What a given token leads to: a token that is there and can be decoded is kept with what it says
/// of itself, the profile is added to the index, and the login is reported with what the token
/// says, with the warnings of that time, and as one that is never refreshed by itself.
pub proof fn law_given_token_is_kept_and_reported(
    client_credentials: bool,
    device_code: bool,
    client_id: Option<Text>,
    client_secret: Option<Text>,
    tenant_id: Option<Text>,
    scopes: Option<Text>,
    profile: Text,
    raw: Text,
    defaults: Defaults<Text>,
    now: Timestamp,
)
    ensures
        ({
            let first = begin(
                AuthCommand::Login {
                    client_credentials,
                    device_code,
                    token: Some(raw),
                    client_id,
                    client_secret,
                    tenant_id,
                    scopes,
                },
                profile,
            );
            let read = begin(
                AuthCommand::Login {
                    client_credentials,
                    device_code,
                    token: Some("-"@),
                    client_id,
                    client_secret,
                    tenant_id,
                    scopes,
                },
                profile,
            );
            &&& read matches Step::Continue { session, action }
            &&& action is ReadStdin
            &&& {
                let step = next(session, Event::Input(Ok(raw)), defaults, now);
                &&& raw != "-"@ ==> first == step
                &&& match provided_token(raw) {
                    Err(error) => step == TextStep::Finished(Outcome::Failed(error)),
                    Ok(access_token) => match token_claims(access_token) {
                        Err(why) => step == TextStep::Finished(
                            Outcome::Failed(
                                provided_info(
                                    profile,
                                    access_token,
                                    Err::<TokenClaims<Text>, JwtError>(why),
                                )->Err_0,
                            ),
                        ),
                        Ok(claims) => {
                            let token = provided_info(
                                profile,
                                access_token,
                                Ok::<TokenClaims<Text>, JwtError>(claims),
                            )->Ok_0;
                            &&& step matches Step::Continue { session: s0, action: a0 }
                            &&& a0 == (Action::StoreToken { profile, token })
                            &&& next(s0, Event::Done(Ok(())), defaults, now) matches Step::Continue {
                                session: s1,
                                action: a1,
                            }
                            &&& a1 == (TextAction::AddProfile { profile })
                            &&& next(s1, Event::Done(Ok(())), defaults, now) == TextStep::Finished(
                                Outcome::Printed(
                                    Report::LoggedInWithToken {
                                        message: "Authenticated successfully with provided token"@,
                                        profile,
                                        expires_at: expiry_text(token.expires_at),
                                        scope: token.scope,
                                        auto_refresh: false,
                                        token_diagnostics: diagnostics(Some(claims)),
                                        warnings: provided_warnings(
                                            token.expires_at,
                                            Some(claims),
                                            now,
                                        ),
                                    },
                                ),
                            )
                        },
                    },
                }
            }
        }),
{
}

/// The report on a login with a token, whatever that token is, has its expiry and scope, what it
/// says of itself, and the warnings of that time.
pub proof fn law_login_with_a_token_is_reported_with_what_it_says(
    profile: Text,
    token: TokenInfo<Text>,
    defaults: Defaults<Text>,
    now: Timestamp,
)
    ensures
        ({
            let claims = match token_claims(token.access_token) {
                Ok(claims) => Some(claims),
                Err(_) => None,
            };
            next(
                Session::IndexingProvided { profile, token },
                Event::Done(Ok(())),
                defaults,
                now,
            ) == TextStep::Finished(
                Outcome::Printed(
                    Report::LoggedInWithToken {
                        message: "Authenticated successfully with provided token"@,
                        profile,
                        expires_at: expiry_text(token.expires_at),
                        scope: token.scope,
                        auto_refresh: false,
                        token_diagnostics: diagnostics(claims),
                        warnings: provided_warnings(token.expires_at, claims, now),
                    },
                ),
            )
        }),
{
}

/// A refresh redeems the refresh token of the profile for the scopes of the override, if any, and
/// reports what was asked for, what was granted and until when; a refusal is shown with guidance
/// for just those scopes.
pub proof fn law_refresh_reports_what_was_granted(
    given: Option<Text>,
    profile: Text,
    resolved: Option<Text>,
    refresh: Refresh<Text>,
    error: TeamsError<Text>,
    defaults: Defaults<Text>,
    now: Timestamp,
)
    ensures
        ({
            &&& begin(AuthCommand::Refresh { scopes: given }, profile) matches Step::Continue {
                session: s0,
                action: a0,
            }
            &&& a0 == (Action::ResolveScopesOverride { profile, given })
            &&& next(s0, Event::Choice(resolved), defaults, now) matches Step::Continue {
                session: s1,
                action: a1,
            }
            &&& a1 == (Action::RefreshToken { profile, scopes: resolved })
            &&& next(s1, Event::Refreshed(Ok(refresh)), defaults, now) == TextStep::Finished(
                Outcome::Printed(
                    Report::Refreshed {
                        message: "Token refreshed successfully"@,
                        profile,
                        requested_scope: refresh.requested_scope,
                        granted_scope: refresh.token.scope,
                        expires_at: expiry_text(refresh.token.expires_at),
                    },
                ),
            )
            &&& next(s1, Event::Refreshed(Err(error)), defaults, now) == TextStep::Finished(
                Outcome::Failed(annotated(error, profile, resolved)),
            )
        }),
{
}

/// `auth consent-url` asks for the client id, the tenant id and the scopes, and prints them as they
/// were resolved, with the consent URL for just these.
pub proof fn law_consent_url_is_printed_with_what_it_is_for(
    profile: Text,
    given_client_id: Option<Text>,
    given_tenant_id: Option<Text>,
    given_scopes: Option<Text>,
    client_id: Text,
    tenant_id: Text,
    scopes: Text,
    defaults: Defaults<Text>,
    now: Timestamp,
)
    ensures
        ({
            &&& begin(
                AuthCommand::ConsentUrl {
                    client_id: given_client_id,
                    tenant_id: given_tenant_id,
                    scopes: given_scopes,
                },
                profile,
            ) matches Step::Continue { session: s0, action: a0 }
            &&& a0 == (Action::ResolveDelegatedClientId { profile, given: given_client_id })
            &&& next(s0, Event::Checked(Ok(client_id)), defaults, now) matches Step::Continue {
                session: s1,
                action: a1,
            }
            &&& a1 == (Action::ResolveDelegatedTenantId { profile, given: given_tenant_id })
            &&& next(s1, Event::Value(tenant_id), defaults, now) matches Step::Continue {
                session: s2,
                action: a2,
            }
            &&& a2 == (Action::ResolveDelegatedScopes { profile, given: given_scopes })
            &&& next(s2, Event::Value(scopes), defaults, now) == TextStep::Finished(
                Outcome::Printed(
                    Report::ConsentUrl {
                        admin_consent_url: consent_url(
                            client_id,
                            tenant_id,
                            scopes,
                            defaults.redirect_uri,
                        ),
                        client_id,
                        tenant_id,
                        scope: scopes,
                        redirect_uri: defaults.redirect_uri,
                    },
                ),
            )
        }),
{
}

/// `auth doctor` asks for the client id, the tenant id, the current token and the scopes that are
/// configured, and prints them as they were resolved. Its consent URL is the one that
/// `auth consent-url` prints for the same client, tenant and scopes; and the app is the program's
/// own exactly where the client is.
pub proof fn law_doctor_prints_what_was_resolved(
    profile: Text,
    given_client_id: Option<Text>,
    given_tenant_id: Option<Text>,
    client_id: Text,
    tenant_id: Text,
    found: Result<TokenInfo<Text>, TeamsError<Text>>,
    scopes: Text,
    defaults: Defaults<Text>,
    now: Timestamp,
)
    ensures
        ({
            &&& begin(
                AuthCommand::Doctor { client_id: given_client_id, tenant_id: given_tenant_id },
                profile,
            ) matches Step::Continue { session: s0, action: a0 }
            &&& a0 == (Action::ResolveDelegatedClientId { profile, given: given_client_id })
            &&& next(s0, Event::Checked(Ok(client_id)), defaults, now) matches Step::Continue {
                session: s1,
                action: a1,
            }
            &&& a1 == (Action::ResolveDelegatedTenantId { profile, given: given_tenant_id })
            &&& next(s1, Event::Value(tenant_id), defaults, now) matches Step::Continue {
                session: s2,
                action: a2,
            }
            &&& a2 == (TextAction::ResolveToken { profile })
            &&& next(s2, Event::Token(found), defaults, now) matches Step::Continue {
                session: s3,
                action: a3,
            }
            &&& a3 == (Action::ResolveDelegatedScopes { profile, given: None::<Text> })
            &&& next(s3, Event::Value(scopes), defaults, now) matches Step::Finished(
                Outcome::Printed(
                    Report::Doctor {
                        profile: shown_profile,
                        auth_app,
                        client_id: shown_client_id,
                        tenant_id: shown_tenant_id,
                        admin_consent_url,
                        default_delegated_scopes,
                        resolved_delegated_scopes,
                        redirect_uri,
                        authenticated,
                        warnings,
                        token,
                    },
                ),
            )
            &&& {
                &&& shown_profile == profile
                &&& shown_client_id == client_id
                &&& shown_tenant_id == tenant_id
                &&& resolved_delegated_scopes == scopes
                &&& default_delegated_scopes == defaults.delegated_scopes
                &&& redirect_uri == defaults.redirect_uri
                &&& admin_consent_url == consent_url(
                    client_id,
                    tenant_id,
                    scopes,
                    defaults.redirect_uri,
                )
                &&& client_id == defaults.public_client_id ==> auth_app == "oso"@
                &&& client_id != defaults.public_client_id ==> auth_app == "byo"@
                &&& authenticated == found is Ok
                &&& token is Some <==> found is Ok
                &&& found is Err ==> warnings.len() == 0
            }
        }),
{
}

/// What `auth doctor` prints of the token that was found is what that token itself says, where it
/// can be decoded, and its audience is warned of as by `auth status`.
pub proof fn law_doctor_prints_what_the_token_says(
    profile: Text,
    given_client_id: Option<Text>,
    given_tenant_id: Option<Text>,
    client_id: Text,
    tenant_id: Text,
    token: TokenInfo<Text>,
    scopes: Text,
    defaults: Defaults<Text>,
    now: Timestamp,
)
    ensures
        ({
            &&& begin(
                AuthCommand::Doctor { client_id: given_client_id, tenant_id: given_tenant_id },
                profile,
            ) matches Step::Continue { session: s0, .. }
            &&& next(s0, Event::Checked(Ok(client_id)), defaults, now) matches Step::Continue {
                session: s1,
                ..
            }
            &&& next(s1, Event::Value(tenant_id), defaults, now) matches Step::Continue {
                session: s2,
                ..
            }
            &&& next(s2, Event::Token(Ok(token)), defaults, now) matches Step::Continue {
                session: s3,
                ..
            }
            &&& next(s3, Event::Value(scopes), defaults, now) matches Step::Finished(
                Outcome::Printed(Report::Doctor { warnings, token: Some(shown), .. }),
            )
            &&& shown.expires_at == expiry_text(token.expires_at)
            &&& shown.scope == token.scope
            &&& token_claims(token.access_token) is Err ==> warnings.len() == 0 && shown.auth_type
                == "unknown"@ && shown.audience is None && shown.is_graph_audience is None
                && shown.tenant_id is None && shown.app_id is None && shown.user is None
            &&& token_claims(token.access_token) matches Ok(claims) ==> warnings == claims_warnings(
                Some(claims),
            ) && (diagnostics(Some(claims)) matches Some(said) && shown == (DoctorToken {
                expires_at: shown.expires_at,
                scope: shown.scope,
                auth_type: said.auth_type,
                audience: said.audience,
                is_graph_audience: said.is_graph_audience,
                tenant_id: said.tenant_id,
                app_id: said.app_id,
                user: said.user,
            }))
            &&& begin(AuthCommand::Status, profile) matches Step::Continue { session: t0, .. }
            &&& next(t0, Event::Token(Ok(token)), defaults, now) matches Step::Finished(
                Outcome::Printed(Report::Status { warnings: of_status, .. }),
            )
            &&& warnings == of_status
        }),
{
}

/// `auth status` on a profile with a token prints the profile, the token's expiry and scope and
/// what the token says of itself; and it warns, by the name of the audience, exactly where the
/// token can be decoded and has an audience other than Microsoft Graph.
pub proof fn law_status_tells_of_the_token(
    profile: Text,
    token: TokenInfo<Text>,
    name: Text,
    defaults: Defaults<Text>,
    now: Timestamp,
)
    ensures
        ({
            &&& begin(AuthCommand::Status, profile) matches Step::Continue {
                session: s0,
                action: a0,
            }
            &&& a0 == (TextAction::ResolveToken { profile })
            &&& next(s0, Event::Token(Ok(token)), defaults, now) matches Step::Finished(
                Outcome::Printed(
                    Report::Status {
                        authenticated,
                        profile: shown_profile,
                        expires_at,
                        scope,
                        token_diagnostics,
                        warnings,
                    },
                ),
            )
            &&& {
                let foreign = token_claims(token.access_token) matches Ok(claims) && claims.aud is Some
                    && claims.aud != Some(Audience::Named("https://graph.microsoft.com"@)) && claims.aud
                    != Some(Audience::Named("https://graph.microsoft.com/"@)) && claims.aud != Some(
                    Audience::Named("00000003-0000-0000-c000-000000000000"@),
                );
                &&& authenticated
                &&& shown_profile == profile
                &&& expires_at == expiry_text(token.expires_at)
                &&& scope == token.scope
                &&& token_claims(token.access_token) is Err ==> token_diagnostics is None
                &&& token_claims(token.access_token) matches Ok(claims) ==> token_diagnostics
                    == diagnostics(Some(claims))
                &&& !foreign ==> warnings.len() == 0
                &&& foreign ==> warnings.len() == 1 && (
                token_claims(token.access_token)->Ok_0.aud == Some(Audience::Named(name))
                    ==> warnings[0] == "Token audience is '"@ + name
                    + "', not Microsoft Graph. Graph commands require a Microsoft Graph access token."@)
                    && (token_claims(token.access_token)->Ok_0.aud == Some(Audience::<Text>::Unnamed)
                    ==> warnings[0] == "Token audience is '"@ + "unknown audience"@
                    + "', not Microsoft Graph. Graph commands require a Microsoft Graph access token."@)
            }
        }),
{
}

/// `auth status` on a profile without a token prints just that, and the exit status tells it too.
pub proof fn law_status_tells_that_there_is_no_token(
    profile: Text,
    error: TeamsError<Text>,
    defaults: Defaults<Text>,
    now: Timestamp,
)
    ensures
        begin(AuthCommand::Status, profile) matches Step::Continue { session: s0, .. } && next(
            s0,
            Event::Token(Err(error)),
            defaults,
            now,
        ) == TextStep::Finished(
            Outcome::SignedOut(Report::SignedOut { authenticated: false, profile }),
        ),
{
}

/// `auth list` prints the profiles as the index lists them, and which of them is active.
pub proof fn law_list_prints_the_index(
    profile: Text,
    profiles: Texts,
    defaults: Defaults<Text>,
    now: Timestamp,
)
    ensures
        ({
            &&& begin(AuthCommand::List, profile) matches Step::Continue { session: s0, action: a0 }
            &&& a0 is ListProfiles
            &&& next(s0, Event::Profiles(profiles), defaults, now) == TextStep::Finished(
                Outcome::Printed(Report::Profiles { profiles, active: profile }),
            )
        }),
{
}

/// `auth switch` looks for the token of the profile to switch to, makes that profile the default
/// one, and reports it whether or not the configuration could be saved; without a token it fails as
/// the search did and changes nothing.
pub proof fn law_switch_is_to_the_named_profile(
    profile: Text,
    name: Text,
    token: TokenInfo<Text>,
    saved: Result<(), TeamsError<Text>>,
    error: TeamsError<Text>,
    defaults: Defaults<Text>,
    now: Timestamp,
)
    ensures
        ({
            &&& begin(AuthCommand::Switch { name }, profile) matches Step::Continue {
                session: s0,
                action: a0,
            }
            &&& a0 == (TextAction::ResolveToken { profile: name })
            &&& next(s0, Event::Token(Err(error)), defaults, now) == TextStep::Finished(
                Outcome::Failed(error),
            )
            &&& next(s0, Event::Token(Ok(token)), defaults, now) matches Step::Continue {
                session: s1,
                action: a1,
            }
            &&& a1 == (TextAction::SaveDefaultProfile { name })
            &&& next(s1, Event::Done(saved), defaults, now) == TextStep::Finished(
                Outcome::Printed(
                    Report::Switched {
                        message: "Switched to profile '"@ + name + "'"@,
                        profile: name,
                    },
                ),
            )
        }),
{
}

/// `auth logout` deletes the token of the given profile, else of the active one, removes that
/// profile from the index, and names it.
pub proof fn law_logout_is_of_the_given_profile(
    profile: Text,
    given: Option<Text>,
    defaults: Defaults<Text>,
    now: Timestamp,
)
    ensures
        ({
            let target = if given is Some {
                given->0
            } else {
                profile
            };
            &&& begin(
                AuthCommand::Logout { profile: given, all: false },
                profile,
            ) matches Step::Continue { session: s0, action: a0 }
            &&& a0 == (TextAction::DeleteToken { profile: target })
            &&& next(s0, Event::Done(Ok(())), defaults, now) matches Step::Continue {
                session: s1,
                action: a1,
            }
            &&& a1 == (TextAction::RemoveProfile { profile: target })
            &&& next(s1, Event::Done(Ok(())), defaults, now) == TextStep::Finished(
                Outcome::Printed(
                    Report::LoggedOut { message: "Logged out from profile '"@ + target + "'"@ },
                ),
            )
        }),
{
}

/// `auth logout --all` asks for the index, whichever profile is given; and once every listed
/// profile is deleted and removed, it says in decimal digits how many were listed.
pub proof fn law_logout_all_counts_the_profiles(
    profile: Text,
    given: Option<Text>,
    profiles: Texts,
    replies: Seq<Reply>,
    defaults: Defaults<Text>,
)
    requires
        profiles.len() <= usize::MAX,
        replies.len() == 2 * profiles.len() + 1,
        replies[0].0 == Event::<Text, Texts>::Profiles(profiles),
        forall|i: int| 1 <= i < replies.len() ==> is_done((#[trigger] replies[i]).0),
    ensures
        begin(AuthCommand::Logout { profile: given, all: true }, profile) matches Step::Continue {
            action,
            ..
        } && action is ListProfiles,
        played(
            begin(AuthCommand::Logout { profile: given, all: true }, profile),
            replies,
            defaults,
        ) matches Step::Finished(Outcome::Printed(Report::LoggedOut { message })) && exists|
            digits: Text,
        |
            message == "Logged out from "@ + digits + " profile(s)"@ && #[trigger] number_read(digits)
                == Some(profiles.len()),
{
    law_logout_all_goes_through_every_profile(given, profile, profiles, replies, defaults);
    law_decimal_reads_as_its_number(profiles.len());
}

/// `auth token` asks for the token of the active profile and prints it as it is: bare, or in a
/// record with its type, its expiry and what it says of itself where the format is `json`.
pub proof fn law_token_is_printed_as_it_is(
    profile: Text,
    format: Text,
    token: TokenInfo<Text>,
    defaults: Defaults<Text>,
    now: Timestamp,
)
    ensures
        ({
            &&& begin(AuthCommand::Token { format }, profile) matches Step::Continue {
                session: s0,
                action: a0,
            }
            &&& a0 == (TextAction::ResolveToken { profile })
            &&& {
                let end = next(s0, Event::Token(Ok(token)), defaults, now);
                &&& format != "json"@ ==> end == TextStep::Finished(
                    Outcome::Bearer(token.access_token),
                )
                &&& format == "json"@ ==> end == TextStep::Finished(
                    Outcome::Printed(
                        Report::Token {
                            access_token: token.access_token,
                            token_type: token.token_type,
                            expires_at: expiry_text(token.expires_at),
                            token_diagnostics: match token_claims(token.access_token) {
                                Ok(claims) => diagnostics(Some(claims)),
                                Err(_) => None,
                            },
                        },
                    ),
                )
            }
        }),
{
}

/// A request that fails ends the command with just that failure; but for a refresh, which adds
/// guidance, for `auth status` and `auth doctor`, to which no token is an answer, and for
/// `auth switch`, which goes on where the configuration cannot be saved.
pub proof fn law_failures_are_shown_as_they_came(
    session: Session<Text, Texts>,
    error: TeamsError<Text>,
    why: Text,
    defaults: Defaults<Text>,
    now: Timestamp,
)
    ensures
        ({
            let failed = TextStep::Finished(Outcome::Failed(error));
            &&& expects(session, Event::Checked(Err(error))) ==> next(
                session,
                Event::Checked(Err(error)),
                defaults,
                now,
            ) == failed
            &&& expects(session, Event::Token(Err(error))) && !(session is Status) && !(
            session is DoctorToken) ==> next(session, Event::Token(Err(error)), defaults, now)
                == failed
            &&& expects(session, Event::Done(Err(error))) && !(session is SwitchSave) ==> next(
                session,
                Event::Done(Err(error)),
                defaults,
                now,
            ) == failed
            &&& expects(session, Event::Input(Err(why))) ==> next(
                session,
                Event::Input(Err(why)),
                defaults,
                now,
            ) == TextStep::Finished(
                Outcome::Failed(
                    TeamsError::InvalidInput("Failed to read token from stdin: "@ + why),
                ),
            )
        }),
{
}

} // verus!
