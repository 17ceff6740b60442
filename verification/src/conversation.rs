//! What holds of whole conversations, whatever the keyring, the configuration and the identity
//! platform reply.

use crate::claims::token_claims;
use crate::command::AuthCommand;
use crate::consent::annotated;
use crate::error::TeamsError;
use crate::report::{consent_report, logout_all_report, switch_report, token_report};
use crate::session::{
    begin, expects, fail, judged_expiry, logout_of_rest, next, succeed, token_given, Action, Defaults,
    Event, Outcome, Session, Step,
};
use crate::text::{Text, Texts};
use crate::time::Timestamp;
use crate::token::{provided_token, TokenInfo};
use vstd::prelude::*;

verus! {

/// An answer, and when it came.
pub type Reply = (Event<Text, Texts>, Timestamp);

/// The answer that a request was done.
pub open spec fn is_done(event: Event<Text, Texts>) -> bool {
    event matches Event::Done(Ok(_))
}

/// The step after `step`, once `reply` has come.
pub open spec fn advanced(step: Step<Text, Texts>, reply: Reply, defaults: Defaults<Text>) -> Step<
    Text,
    Texts,
> {
    match step {
        Step::Continue { session, .. } => next(session, reply.0, defaults, reply.1),
        Step::Finished(_) => step,
    }
}

/// The step that a conversation is at after these replies.
pub open spec fn played(
    first: Step<Text, Texts>,
    replies: Seq<Reply>,
    defaults: Defaults<Text>,
) -> Step<Text, Texts>
    decreases replies.len(),
{
    if replies.len() == 0 {
        first
    } else {
        advanced(played(first, replies.drop_last(), defaults), replies.last(), defaults)
    }
}

/// `reply` answers the request of `step`.
pub open spec fn answers(step: Step<Text, Texts>, reply: Reply) -> bool {
    match step {
        Step::Continue { session, .. } => expects(session, reply.0),
        Step::Finished(_) => false,
    }
}

/// Each reply answers the request before it, and none comes after the end.
pub open spec fn proper(
    first: Step<Text, Texts>,
    replies: Seq<Reply>,
    defaults: Defaults<Text>,
) -> bool
    decreases replies.len(),
{
    replies.len() == 0 || (proper(first, replies.drop_last(), defaults) && answers(
        played(first, replies.drop_last(), defaults),
        replies.last(),
    ))
}

/// The profile that a session works for.
pub open spec fn session_profile(session: Session<Text, Texts>) -> Option<Text> {
    match session {
        Session::ReadingToken { profile } => Some(profile),
        Session::StoringProvided { profile, .. } => Some(profile),
        Session::IndexingProvided { profile, .. } => Some(profile),
        Session::AppClientId { profile, .. } => Some(profile),
        Session::AppTenantId { profile, .. } => Some(profile),
        Session::AppSecret { profile, .. } => Some(profile),
        Session::DelegatedClientId { profile, .. } => Some(profile),
        Session::DelegatedTenantId { profile, .. } => Some(profile),
        Session::DelegatedScopes { profile, .. } => Some(profile),
        Session::Authenticating { profile } => Some(profile),
        Session::StoringGranted { profile, .. } => Some(profile),
        Session::IndexingGranted { profile, .. } => Some(profile),
        Session::RefreshOverride { profile } => Some(profile),
        Session::Refreshing { profile, .. } => Some(profile),
        Session::DoctorClientId { profile, .. } => Some(profile),
        Session::DoctorTenantId { profile, .. } => Some(profile),
        Session::DoctorToken { profile, .. } => Some(profile),
        Session::DoctorScopes { profile, .. } => Some(profile),
        Session::Status { profile } => Some(profile),
        Session::Listing { profile } => Some(profile),
        _ => None,
    }
}

/// The session of `step`, where it has one with a profile, works for `profile`.
pub open spec fn works_for(step: Step<Text, Texts>, profile: Text) -> bool {
    step matches Step::Continue { session, .. } ==> (session_profile(session) matches Some(p)
        ==> p == profile)
}

/// A session that works for a profile works for the one that its command was given for.
pub proof fn law_profile_is_kept(
    command: AuthCommand<Text>,
    profile: Text,
    replies: Seq<Reply>,
    defaults: Defaults<Text>,
)
    requires
        proper(begin(command, profile), replies, defaults),
    ensures
        works_for(played(begin(command, profile), replies, defaults), profile),
    decreases replies.len(),
{
    if replies.len() > 0 {
        law_profile_is_kept(command, profile, replies.drop_last(), defaults);
    }
}

/// `step` waits for the keyring to keep `token` for `profile`.
pub open spec fn stores(step: Step<Text, Texts>, profile: Text, token: TokenInfo<Text>) -> bool {
    step matches Step::Continue { action, .. } && action == (Action::StoreToken { profile, token })
}

/// `step` waits for the index to take in `profile`.
pub open spec fn indexes(step: Step<Text, Texts>, profile: Text) -> bool {
    step matches Step::Continue { action, .. } && action == (Action::<Text>::AddProfile { profile })
}

/// `step` ends with the report on a login.
pub open spec fn logged_in(step: Step<Text, Texts>) -> bool {
    step matches Step::Finished(Outcome::Printed(report)) && (report is LoggedIn
        || report is LoggedInWithToken)
}

/// What a session waits to have stored is what it asked for.
proof fn lemma_storing(
    command: AuthCommand<Text>,
    profile: Text,
    replies: Seq<Reply>,
    defaults: Defaults<Text>,
)
    requires
        proper(begin(command, profile), replies, defaults),
    ensures
        played(begin(command, profile), replies, defaults) matches Step::Continue {
            session: Session::StoringProvided { profile: p, token },
            action,
        } ==> action == (Action::StoreToken { profile: p, token }),
        played(begin(command, profile), replies, defaults) matches Step::Continue {
            session: Session::StoringGranted { profile: p, token },
            action,
        } ==> action == (Action::StoreToken { profile: p, token }),
{
    if replies.len() > 0 {
        let before = played(begin(command, profile), replies.drop_last(), defaults);
        assert(answers(before, replies.last()));
    }
}

/// A session waits for the identity platform to grant a login exactly where its request asks for
/// that, and the request is for the profile of the session.
pub proof fn lemma_asking(
    command: AuthCommand<Text>,
    profile: Text,
    replies: Seq<Reply>,
    defaults: Defaults<Text>,
)
    requires
        proper(begin(command, profile), replies, defaults),
    ensures
        played(begin(command, profile), replies, defaults) matches Step::Continue {
            session,
            action,
        } ==> {
            &&& session is Authenticating <==> match action {
                Action::AuthenticateApp { profile: p, .. } => p == profile,
                Action::AuthenticateDeviceCode { profile: p, .. } => p == profile,
                Action::AuthenticateAuthCode { profile: p, .. } => p == profile,
                _ => false,
            }
            &&& (action is AuthenticateApp || action is AuthenticateDeviceCode
                || action is AuthenticateAuthCode) ==> session == (Session::<
                Text,
                Texts,
            >::Authenticating { profile })
            &&& session matches Session::Authenticating { profile: p } ==> p == profile
        },
{
    if replies.len() > 0 {
        let before = played(begin(command, profile), replies.drop_last(), defaults);
        assert(answers(before, replies.last()));
        law_profile_is_kept(command, profile, replies.drop_last(), defaults);
    }
}

/// `session` waits for the index to take in a profile that is logging in.
spec fn indexing(session: Session<Text, Texts>) -> bool {
    session is IndexingProvided || session is IndexingGranted
}

/// A login is reported only by a session whose profile was indexed.
proof fn lemma_before_logged_in(step: Step<Text, Texts>, reply: Reply, defaults: Defaults<Text>)
    requires
        answers(step, reply),
        logged_in(advanced(step, reply, defaults)),
    ensures
        step is Continue,
        indexing(step->session),
        is_done(reply.0),
{
}

/// A session waits for the index only when the keyring has kept the token.
proof fn lemma_before_indexing(step: Step<Text, Texts>, reply: Reply, defaults: Defaults<Text>)
    requires
        answers(step, reply),
        advanced(step, reply, defaults) is Continue,
        indexing(advanced(step, reply, defaults)->session),
    ensures
        step is Continue,
        step->session is StoringProvided || step->session is StoringGranted,
        is_done(reply.0),
        session_profile(step->session) is Some,
        indexes(advanced(step, reply, defaults), session_profile(step->session)->0),
{
}

/// A login is reported only when its last two requests were to keep a token for the profile and
/// to add the profile to the index, in this order, and both were done.
pub proof fn law_login_is_reported_once_stored_and_indexed(
    command: AuthCommand<Text>,
    profile: Text,
    replies: Seq<Reply>,
    defaults: Defaults<Text>,
)
    requires
        proper(begin(command, profile), replies, defaults),
        logged_in(played(begin(command, profile), replies, defaults)),
    ensures
        replies.len() >= 2,
        is_done(replies[replies.len() - 1].0),
        is_done(replies[replies.len() - 2].0),
        indexes(
            played(begin(command, profile), replies.take(replies.len() - 1), defaults),
            profile,
        ),
        exists|token: TokenInfo<Text>|
            #[trigger] stores(
                played(begin(command, profile), replies.take(replies.len() - 2), defaults),
                profile,
                token,
            ),
{
    let first = begin(command, profile);
    let n = replies.len();
    assert(n > 0);
    let r1 = replies.drop_last();
    assert(replies.take(n - 1) =~= r1);
    lemma_before_logged_in(played(first, r1, defaults), replies.last(), defaults);
    assert(proper(first, r1, defaults));
    assert(r1.len() > 0);
    let r2 = r1.drop_last();
    assert(replies.take(n - 2) =~= r2);
    lemma_before_indexing(played(first, r2, defaults), r1.last(), defaults);
    assert(proper(first, r2, defaults));
    law_profile_is_kept(command, profile, r2, defaults);
    lemma_storing(command, profile, r2, defaults);
    let session = played(first, r2, defaults)->session;
    let token = if session is StoringProvided {
        session->StoringProvided_token
    } else {
        session->StoringGranted_token
    };
    assert(stores(played(first, r2, defaults), profile, token));
}

/// A session that keeps a token that the user gave.
pub open spec fn takes_given_token(session: Session<Text, Texts>) -> bool {
    session is ReadingToken || session is StoringProvided || session is IndexingProvided
}

/// A request to the identity platform.
pub open spec fn asks_platform(action: Action<Text>) -> bool {
    ||| action is AuthenticateApp
    ||| action is AuthenticateDeviceCode
    ||| action is AuthenticateAuthCode
    ||| action is RefreshToken
}

/// A login with a given token never asks the identity platform for one, whatever other flags are
/// set.
pub proof fn law_given_token_asks_no_platform(
    command: AuthCommand<Text>,
    profile: Text,
    replies: Seq<Reply>,
    defaults: Defaults<Text>,
)
    requires
        command matches AuthCommand::Login { token: Some(_), .. },
        proper(begin(command, profile), replies, defaults),
    ensures
        played(begin(command, profile), replies, defaults) matches Step::Continue {
            session,
            action,
        } ==> takes_given_token(session) && !asks_platform(action),
    decreases replies.len(),
{
    if replies.len() > 0 {
        law_given_token_asks_no_platform(command, profile, replies.drop_last(), defaults);
    }
}

/// A given token is kept exactly where something is left of it and it can be decoded, and it is
/// kept as it is; otherwise the login fails on invalid input and nothing is kept.
pub proof fn law_only_decodable_tokens_are_kept(profile: Text, raw: Text)
    ensures
        token_given(profile, raw) matches Step::Continue { action, .. } ==> provided_token(
            raw,
        ) is Ok && token_claims(provided_token(raw)->Ok_0) is Ok && (
        action matches Action::StoreToken { profile: p, token } && p == profile
            && token.access_token == provided_token(raw)->Ok_0 && token.refresh_token is None
            && token.profile == profile),
        token_given(profile, raw) matches Step::Finished(outcome) ==> (outcome matches Outcome::Failed(
            error,
        ) && error is InvalidInput) && (provided_token(raw) is Err || token_claims(
            provided_token(raw)->Ok_0,
        ) is Err),
{
}

/// The failure that a reply carries: where standard input could not be read, invalid input, with
/// the reason.
pub open spec fn failure(event: Event<Text, Texts>) -> Option<TeamsError<Text>> {
    match event {
        Event::Input(Err(why)) => Some(
            TeamsError::InvalidInput("Failed to read token from stdin: "@ + why),
        ),
        Event::Checked(Err(error)) => Some(error),
        Event::Token(Err(error)) => Some(error),
        Event::Refreshed(Err(error)) => Some(error),
        Event::Done(Err(error)) => Some(error),
        _ => None,
    }
}

/// A failed request ends the command with its failure, to which a refresh adds guidance where
/// consent is missing. Three requests may fail: `auth status` and `auth doctor` report that there
/// is no token, and `auth switch` goes on without saving.
pub proof fn law_failures_end_the_command(
    session: Session<Text, Texts>,
    event: Event<Text, Texts>,
    defaults: Defaults<Text>,
    now: Timestamp,
)
    requires
        expects(session, event),
        failure(event) is Some,
    ensures
        ({
            let error = failure(event)->0;
            let step = next(session, event, defaults, now);
            match session {
                Session::Refreshing { profile, scopes } => step == fail(
                    annotated(error, profile, scopes),
                ),
                Session::Status { .. } => step matches Step::Finished(Outcome::SignedOut(_)),
                Session::DoctorToken { .. } => step matches Step::Continue {
                    session: Session::DoctorScopes { token: None, .. },
                    ..
                },
                Session::SwitchSave { name } => step == succeed(switch_report(name)),
                _ => step == fail(error),
            }
        }),
{
}

/// The time makes a difference only where the expiry of a provided token is judged.
pub proof fn law_time_matters_to_a_judged_expiry_only(
    session: Session<Text, Texts>,
    event: Event<Text, Texts>,
    defaults: Defaults<Text>,
    now: Timestamp,
    other: Timestamp,
)
    requires
        expects(session, event),
        judged_expiry(session, event) is None,
    ensures
        next(session, event, defaults, now) == next(session, event, defaults, other),
{
}

/// How many requests are still to come at most, apart from those for the profiles that
/// `auth logout --all` goes through.
pub open spec fn stages_left(session: Session<Text, Texts>) -> nat {
    match session {
        Session::ReadingToken { .. } => 3,
        Session::StoringProvided { .. } => 2,
        Session::IndexingProvided { .. } => 1,
        Session::AppClientId { .. } => 6,
        Session::AppTenantId { .. } => 5,
        Session::AppSecret { .. } => 4,
        Session::DelegatedClientId { .. } => 6,
        Session::DelegatedTenantId { .. } => 5,
        Session::DelegatedScopes { .. } => 4,
        Session::Authenticating { .. } => 3,
        Session::StoringGranted { .. } => 2,
        Session::IndexingGranted { .. } => 1,
        Session::RefreshOverride { .. } => 2,
        Session::Refreshing { .. } => 1,
        Session::DoctorClientId { .. } => 4,
        Session::DoctorTenantId { .. } => 3,
        Session::DoctorToken { .. } => 2,
        Session::DoctorScopes { .. } => 1,
        Session::Status { .. } => 1,
        Session::Listing { .. } => 1,
        Session::SwitchToken { .. } => 2,
        Session::SwitchSave { .. } => 1,
        Session::LogoutListing => 1,
        Session::LogoutAllDeleting { .. } => 0,
        Session::LogoutAllRemoving { .. } => 0,
        Session::LogoutDeleting { .. } => 2,
        Session::LogoutRemoving { .. } => 1,
        Session::Exporting { .. } => 1,
    }
}

/// How many requests are still to come for the profiles that `auth logout --all` goes through.
pub open spec fn profile_requests_left(session: Session<Text, Texts>) -> nat {
    match session {
        Session::LogoutAllDeleting { rest, .. } => 2 * rest.len() + 2,
        Session::LogoutAllRemoving { rest, .. } => 2 * rest.len() + 1,
        _ => 0,
    }
}

/// Every command comes to an end: each answer brings it nearer.
pub proof fn law_commands_end(
    session: Session<Text, Texts>,
    event: Event<Text, Texts>,
    defaults: Defaults<Text>,
    now: Timestamp,
)
    requires
        expects(session, event),
    ensures
        next(session, event, defaults, now) matches Step::Continue { session: after, .. } ==> {
            ||| stages_left(after) < stages_left(session)
            ||| stages_left(after) == stages_left(session) && profile_requests_left(after)
                < profile_requests_left(session)
        },
{
}

/// The request of `auth logout --all` over `profiles` after `done` deletions and removals.
pub open spec fn logout_request(profiles: Texts, done: int) -> Action<Text> {
    if done % 2 == 0 {
        Action::DeleteToken { profile: profiles[done / 2] }
    } else {
        Action::RemoveProfile { profile: profiles[done / 2] }
    }
}

/// Where `auth logout --all` stands after `done` deletions and removals.
spec fn logout_at(profiles: Texts, done: int) -> Step<Text, Texts> {
    let i = done / 2;
    if done % 2 == 0 {
        logout_of_rest(profiles.skip(i), profiles.len() as usize)
    } else {
        Step::Continue {
            session: Session::LogoutAllRemoving {
                current: profiles[i],
                rest: profiles.skip(i + 1),
                total: profiles.len() as usize,
            },
            action: Action::RemoveProfile { profile: profiles[i] },
        }
    }
}

proof fn lemma_logout_at(
    profile: Option<Text>,
    active: Text,
    profiles: Texts,
    replies: Seq<Reply>,
    defaults: Defaults<Text>,
)
    requires
        1 <= replies.len() <= 2 * profiles.len() + 1,
        replies[0].0 == Event::<Text, Texts>::Profiles(profiles),
        forall|i: int| 1 <= i < replies.len() ==> is_done((#[trigger] replies[i]).0),
    ensures
        played(begin(AuthCommand::Logout { profile, all: true }, active), replies, defaults)
            == logout_at(profiles, replies.len() - 1),
    decreases replies.len(),
{
    let first = begin(AuthCommand::Logout { profile, all: true }, active);
    let before = replies.drop_last();
    if replies.len() == 1 {
        assert(played(first, before, defaults) == first);
        assert(profiles.skip(0) =~= profiles);
    } else {
        assert(is_done(replies.last().0));
        lemma_logout_at(profile, active, profiles, before, defaults);
        let done = before.len() - 1;
        let i = done / 2;
        if done % 2 == 0 {
            assert(profiles.skip(i).skip(1) =~= profiles.skip(i + 1));
        }
    }
}

/// `auth logout --all`, as long as every request is done, deletes the token of each listed profile
/// and then removes that profile from the index, in the order of the list and nothing else; and
/// once it has gone through the list it reports how many profiles there were.
pub proof fn law_logout_all_goes_through_every_profile(
    profile: Option<Text>,
    active: Text,
    profiles: Texts,
    replies: Seq<Reply>,
    defaults: Defaults<Text>,
)
    requires
        profiles.len() <= usize::MAX,
        1 <= replies.len() <= 2 * profiles.len() + 1,
        replies[0].0 == Event::<Text, Texts>::Profiles(profiles),
        forall|i: int| 1 <= i < replies.len() ==> is_done((#[trigger] replies[i]).0),
    ensures
        ({
            let step = played(
                begin(AuthCommand::Logout { profile, all: true }, active),
                replies,
                defaults,
            );
            let done = replies.len() - 1;
            if done < 2 * profiles.len() {
                step matches Step::Continue { action, .. } && action == logout_request(
                    profiles,
                    done,
                )
            } else {
                step == succeed(logout_all_report(profiles.len()))
            }
        }),
{
    lemma_logout_at(profile, active, profiles, replies, defaults);
}

/// A refresh is asked for exactly the scopes that override those of the stored token, and for no
/// scopes of its own where nothing overrides them; so a plain refresh never narrows a broader
/// login.
pub proof fn law_refresh_asks_for_the_override_alone(
    scopes: Option<Text>,
    profile: Text,
    resolved: Option<Text>,
    now: Timestamp,
    defaults: Defaults<Text>,
)
    ensures
        begin(AuthCommand::Refresh { scopes }, profile) matches Step::Continue { action, .. }
            && action == (Action::ResolveScopesOverride { profile, given: scopes }),
        played(
            begin(AuthCommand::Refresh { scopes }, profile),
            seq![(Event::<Text, Texts>::Choice(resolved), now)],
            defaults,
        ) matches Step::Continue { action, .. } && action == (Action::RefreshToken {
            profile,
            scopes: resolved,
        }),
{
    let replies = seq![(Event::<Text, Texts>::Choice(resolved), now)];
    assert(replies.drop_last() =~= Seq::empty());
    assert(played(begin(AuthCommand::Refresh { scopes }, profile), replies.drop_last(), defaults)
        == begin(AuthCommand::Refresh { scopes }, profile));
}

/// The default profile is changed only by `auth switch`, and only to a profile that was found to
/// have a token.
pub proof fn law_switch_needs_a_token(
    session: Session<Text, Texts>,
    event: Event<Text, Texts>,
    defaults: Defaults<Text>,
    now: Timestamp,
    command: AuthCommand<Text>,
    profile: Text,
)
    requires
        expects(session, event),
    ensures
        next(session, event, defaults, now) matches Step::Continue {
            action: Action::SaveDefaultProfile { name },
            ..
        } ==> session == (Session::<Text, Texts>::SwitchToken { name }) && (event matches Event::Token(
            reply,
        ) && reply is Ok),
        begin(command, profile) matches Step::Continue { session: started, action } ==> !(
        action is SaveDefaultProfile) && (started matches Session::SwitchToken { name } ==> action
            == (Action::<Text>::ResolveToken { profile: name })),
        next(session, event, defaults, now) matches Step::Continue { session: after, .. } ==> !(
        after is SwitchToken),
{
}

/// The exit status tells that there is no token exactly where `auth status` found none.
pub proof fn law_signed_out_means_no_token(
    session: Session<Text, Texts>,
    event: Event<Text, Texts>,
    defaults: Defaults<Text>,
    now: Timestamp,
)
    requires
        expects(session, event),
    ensures
        next(session, event, defaults, now) matches Step::Finished(Outcome::SignedOut(_))
            <==> session is Status && (event matches Event::Token(reply) && reply is Err),
{
}

/// `auth token` prints the bare token in every format but `json`.
pub proof fn law_token_is_printed_bare_unless_json(
    format: Text,
    token: TokenInfo<Text>,
    defaults: Defaults<Text>,
    now: Timestamp,
)
    ensures
        next(Session::Exporting { format }, Event::Token(Ok(token)), defaults, now) == (if format
            == "json"@ {
            succeed(token_report(token))
        } else {
            Step::Finished(Outcome::Bearer(token.access_token))
        }),
{
}

/// `-` as the given token reads standard input; any other given token is taken as it stands and
/// standard input is left alone. What standard input holds is treated as a given token is.
pub proof fn law_dash_reads_standard_input(
    command: AuthCommand<Text>,
    profile: Text,
    raw: Text,
    defaults: Defaults<Text>,
    now: Timestamp,
)
    requires
        command matches AuthCommand::Login { token: Some(_), .. },
    ensures
        begin(command, profile) matches Step::Continue { action, .. } && action is ReadStdin
            <==> command->token == Some("-"@),
        command->token != Some("-"@) ==> begin(command, profile) == token_given(
            profile,
            command->token->0,
        ),
        next(Session::ReadingToken { profile }, Event::Input(Ok(raw)), defaults, now)
            == token_given(profile, raw),
{
}

/// `event` is the kind of answer that `action` asks for.
pub open spec fn fits(action: Action<Text>, event: Event<Text, Texts>) -> bool {
    match action {
        Action::ReadStdin => event is Input,
        Action::ResolveClientId { .. } => event is Choice,
        Action::ResolveTenantId { .. } => event is Choice,
        Action::ResolveClientSecret { .. } => event is Choice,
        Action::ResolveDelegatedClientId { .. } => event is Checked,
        Action::ResolveDelegatedTenantId { .. } => event is Value,
        Action::ResolveDelegatedScopes { .. } => event is Value,
        Action::ResolveScopesOverride { .. } => event is Choice,
        Action::AuthenticateApp { .. } => event is Token,
        Action::AuthenticateDeviceCode { .. } => event is Token,
        Action::AuthenticateAuthCode { .. } => event is Token,
        Action::RefreshToken { .. } => event is Refreshed,
        Action::ResolveToken { .. } => event is Token,
        Action::StoreToken { .. } => event is Done,
        Action::AddProfile { .. } => event is Done,
        Action::DeleteToken { .. } => event is Done,
        Action::RemoveProfile { .. } => event is Done,
        Action::ListProfiles => event is Profiles,
        Action::SaveDefaultProfile { .. } => event is Done,
    }
}

/// A session takes exactly the answers that its request asks for. So a program that answers each
/// request in kind never hands a session an answer that it does not take.
pub proof fn law_answers_in_kind_are_taken(
    command: AuthCommand<Text>,
    profile: Text,
    replies: Seq<Reply>,
    defaults: Defaults<Text>,
    answer: Event<Text, Texts>,
)
    requires
        proper(begin(command, profile), replies, defaults),
    ensures
        played(begin(command, profile), replies, defaults) matches Step::Continue {
            session,
            action,
        } ==> (expects(session, answer) <==> fits(action, answer)),
{
    if replies.len() > 0 {
        let before = played(begin(command, profile), replies.drop_last(), defaults);
        assert(answers(before, replies.last()));
    }
}

proof fn lemma_play_three(
    first: Step<Text, Texts>,
    a: Reply,
    b: Reply,
    c: Reply,
    defaults: Defaults<Text>,
)
    ensures
        played(first, seq![a], defaults) == advanced(first, a, defaults),
        played(first, seq![a, b], defaults) == advanced(advanced(first, a, defaults), b, defaults),
        played(first, seq![a, b, c], defaults) == advanced(
            advanced(advanced(first, a, defaults), b, defaults),
            c,
            defaults,
        ),
{
    assert(seq![a].drop_last() =~= Seq::<Reply>::empty());
    assert(played(first, Seq::<Reply>::empty(), defaults) == first);
    assert(seq![a, b].drop_last() =~= seq![a]);
    assert(seq![a, b, c].drop_last() =~= seq![a, b]);
}

/// A login by client credentials resolves the client id, the tenant id and the client secret, in
/// this order and each from what the user gave for it, and asks the identity platform with what
/// was resolved.
pub proof fn law_client_credentials_are_those_resolved(
    profile: Text,
    device_code: bool,
    given_client_id: Option<Text>,
    given_client_secret: Option<Text>,
    given_tenant_id: Option<Text>,
    scopes: Option<Text>,
    client_id: Text,
    client_secret: Text,
    tenant_id: Text,
    now: Timestamp,
    defaults: Defaults<Text>,
)
    ensures
        ({
            let first = begin(
                AuthCommand::Login {
                    client_credentials: true,
                    device_code,
                    token: None,
                    client_id: given_client_id,
                    client_secret: given_client_secret,
                    tenant_id: given_tenant_id,
                    scopes,
                },
                profile,
            );
            let a = (Event::<Text, Texts>::Choice(Some(client_id)), now);
            let b = (Event::<Text, Texts>::Choice(Some(tenant_id)), now);
            let c = (Event::<Text, Texts>::Choice(Some(client_secret)), now);
            &&& first matches Step::Continue { action, .. } && action == (Action::ResolveClientId {
                profile,
                given: given_client_id,
            })
            &&& played(first, seq![a], defaults) matches Step::Continue { action, .. } && action
                == (Action::ResolveTenantId { profile, given: given_tenant_id })
            &&& played(first, seq![a, b], defaults) matches Step::Continue { action, .. } && action
                == (Action::ResolveClientSecret { given: given_client_secret })
            &&& played(first, seq![a, b, c], defaults) matches Step::Continue { action, .. }
                && action == (Action::AuthenticateApp {
                profile,
                client_id,
                client_secret,
                tenant_id,
            })
        }),
{
    let first = begin(
        AuthCommand::Login {
            client_credentials: true,
            device_code,
            token: None,
            client_id: given_client_id,
            client_secret: given_client_secret,
            tenant_id: given_tenant_id,
            scopes,
        },
        profile,
    );
    let a = (Event::<Text, Texts>::Choice(Some(client_id)), now);
    let b = (Event::<Text, Texts>::Choice(Some(tenant_id)), now);
    let c = (Event::<Text, Texts>::Choice(Some(client_secret)), now);
    lemma_play_three(first, a, b, c, defaults);
}

/// A delegated login resolves the client id, the tenant id and the scopes, in this order and each
/// from what the user gave for it, and asks the identity platform with what was resolved: by
/// device code where the user asked for that, else by authorization code.
pub proof fn law_delegated_login_uses_what_was_resolved(
    profile: Text,
    device_code: bool,
    given_client_id: Option<Text>,
    given_client_secret: Option<Text>,
    given_tenant_id: Option<Text>,
    given_scopes: Option<Text>,
    client_id: Text,
    tenant_id: Text,
    scopes: Text,
    now: Timestamp,
    defaults: Defaults<Text>,
)
    ensures
        ({
            let first = begin(
                AuthCommand::Login {
                    client_credentials: false,
                    device_code,
                    token: None,
                    client_id: given_client_id,
                    client_secret: given_client_secret,
                    tenant_id: given_tenant_id,
                    scopes: given_scopes,
                },
                profile,
            );
            let a = (Event::<Text, Texts>::Checked(Ok(client_id)), now);
            let b = (Event::<Text, Texts>::Value(tenant_id), now);
            let c = (Event::<Text, Texts>::Value(scopes), now);
            &&& first matches Step::Continue { action, .. } && action == (
            Action::ResolveDelegatedClientId { profile, given: given_client_id })
            &&& played(first, seq![a], defaults) matches Step::Continue { action, .. } && action
                == (Action::ResolveDelegatedTenantId { profile, given: given_tenant_id })
            &&& played(first, seq![a, b], defaults) matches Step::Continue { action, .. } && action
                == (Action::ResolveDelegatedScopes { profile, given: given_scopes })
            &&& played(first, seq![a, b, c], defaults) matches Step::Continue { action, .. }
                && action == (if device_code {
                Action::AuthenticateDeviceCode { profile, client_id, tenant_id, scopes }
            } else {
                Action::AuthenticateAuthCode { profile, client_id, tenant_id, scopes }
            })
        }),
{
    let first = begin(
        AuthCommand::Login {
            client_credentials: false,
            device_code,
            token: None,
            client_id: given_client_id,
            client_secret: given_client_secret,
            tenant_id: given_tenant_id,
            scopes: given_scopes,
        },
        profile,
    );
    let a = (Event::<Text, Texts>::Checked(Ok(client_id)), now);
    let b = (Event::<Text, Texts>::Value(tenant_id), now);
    let c = (Event::<Text, Texts>::Value(scopes), now);
    lemma_play_three(first, a, b, c, defaults);
}

/// `auth consent-url` resolves the client id, the tenant id and the scopes, in this order and each
/// from what the user gave for it, and reports the consent URL for what was resolved, without any
/// other request.
pub proof fn law_consent_url_is_for_what_was_resolved(
    profile: Text,
    given_client_id: Option<Text>,
    given_tenant_id: Option<Text>,
    given_scopes: Option<Text>,
    client_id: Text,
    tenant_id: Text,
    scopes: Text,
    now: Timestamp,
    defaults: Defaults<Text>,
)
    ensures
        ({
            let first = begin(
                AuthCommand::ConsentUrl {
                    client_id: given_client_id,
                    tenant_id: given_tenant_id,
                    scopes: given_scopes,
                },
                profile,
            );
            let a = (Event::<Text, Texts>::Checked(Ok(client_id)), now);
            let b = (Event::<Text, Texts>::Value(tenant_id), now);
            let c = (Event::<Text, Texts>::Value(scopes), now);
            &&& first matches Step::Continue { action, .. } && action == (
            Action::ResolveDelegatedClientId { profile, given: given_client_id })
            &&& played(first, seq![a], defaults) matches Step::Continue { action, .. } && action
                == (Action::ResolveDelegatedTenantId { profile, given: given_tenant_id })
            &&& played(first, seq![a, b], defaults) matches Step::Continue { action, .. } && action
                == (Action::ResolveDelegatedScopes { profile, given: given_scopes })
            &&& played(first, seq![a, b, c], defaults) == succeed(
                consent_report(client_id, tenant_id, scopes, defaults),
            )
        }),
{
    let first = begin(
        AuthCommand::ConsentUrl {
            client_id: given_client_id,
            tenant_id: given_tenant_id,
            scopes: given_scopes,
        },
        profile,
    );
    let a = (Event::<Text, Texts>::Checked(Ok(client_id)), now);
    let b = (Event::<Text, Texts>::Value(tenant_id), now);
    let c = (Event::<Text, Texts>::Value(scopes), now);
    lemma_play_three(first, a, b, c, defaults);
}

} // verus!
