//! Access tokens: taking one from the user, what is stored of it, and what the user is told
//! about it.

use crate::claims::{
    decode_unverified_claims, decoded_view, token_claims, Audience, JwtError, TokenClaims,
};
use crate::error::{result_view, TeamsError};
use crate::text::{
    begins_with, blank, lemma_trimmed_around, lemma_trimmed_empty, lemma_trimmed_ends,
    lemma_trimmed_fixed, strip_prefix, trim, trimmed, white_space, Text, Texts,
};
use crate::time::{
    clock_reading, from_timestamp, has_come, reached, representable, shown_by_the_clock, time_to_judge, Timestamp,
};
use vstd::prelude::*;

verus! {

/// A token as it is stored.
#[derive(Debug)]
pub struct TokenInfo<S = String> {
    pub access_token: S,
    pub expires_at: Option<Timestamp>,
    pub token_type: S,
    pub scope: Option<S>,
    pub refresh_token: Option<S>,
    pub profile: S,
}

impl View for TokenInfo {
    type V = TokenInfo<Text>;

    open spec fn view(&self) -> TokenInfo<Text> {
        TokenInfo {
            access_token: self.access_token@,
            expires_at: self.expires_at,
            token_type: self.token_type@,
            scope: self.scope.deep_view(),
            refresh_token: self.refresh_token.deep_view(),
            profile: self.profile@,
        }
    }
}

impl Clone for TokenInfo {
    fn clone(&self) -> (r: Self)
        ensures
            r@ == self@,
    {
        TokenInfo {
            access_token: self.access_token.clone(),
            expires_at: self.expires_at,
            token_type: self.token_type.clone(),
            scope: self.scope.clone(),
            refresh_token: self.refresh_token.clone(),
            profile: self.profile.clone(),
        }
    }
}

impl DeepView for TokenInfo {
    type V = TokenInfo<Text>;

    open spec fn deep_view(&self) -> TokenInfo<Text> {
        self@
    }
}

/// An expiry has come by the time `now`. A token without an expiry is never expired.
pub open spec fn expired_at(expires_at: Option<Timestamp>, now: Timestamp) -> bool {
    match expires_at {
        Some(at) => reached(at, now),
        None => false,
    }
}

impl TokenInfo<Text> {
    /// What the token says of itself, where it can be decoded.
    pub open spec fn claims(self) -> Option<TokenClaims<Text>> {
        match token_claims(self.access_token) {
            Ok(claims) => Some(claims),
            Err(_) => None,
        }
    }
}

impl TokenInfo {
    /// The token's expiry has come by the time `now`.
    pub fn is_expired_at(&self, now: Timestamp) -> (r: bool)
        ensures
            r == expired_at(self.expires_at, now),
    {
        match self.expires_at {
            Some(at) => has_come(at, now),
            None => false,
        }
    }

    /// The token's expiry has come by the machine's clock, which is read only where the token has
    /// an expiry.
    pub fn is_expired(&self) -> (r: bool)
        ensures
            exists|now: Timestamp|
                clock_reading(now) && r == #[trigger] expired_at(self.expires_at, now),
            self.expires_at is Some ==> exists|t: Timestamp|
                shown_by_the_clock(t) && r == #[trigger] expired_at(self.expires_at, t),
    {
        let now = time_to_judge(self.expires_at);
        self.is_expired_at(now)
    }

    /// What the token says of itself, where it can be decoded.
    pub fn unverified_claims(&self) -> (r: Option<TokenClaims>)
        ensures
            r.deep_view() == self@.claims(),
    {
        match decode_unverified_claims(self.access_token.as_str()) {
            Ok(claims) => Some(claims),
            Err(_) => None,
        }
    }
}

/// `s` without a leading `Bearer ` or `bearer `.
pub open spec fn without_bearer(s: Text) -> Text {
    if begins_with(s, "Bearer "@) {
        s.skip("Bearer "@.len() as int)
    } else if begins_with(s, "bearer "@) {
        s.skip("bearer "@.len() as int)
    } else {
        s
    }
}

/// The token in what the user gave: without surrounding white space and without one leading
/// `Bearer `; none where nothing is left.
pub open spec fn provided_token(raw: Text) -> Result<Text, TeamsError<Text>> {
    let token = trimmed(without_bearer(trimmed(raw)));
    if token.len() == 0 {
        Err(
            TeamsError::InvalidInput(
                "No token provided. Pass it as `--token <TOKEN>` or pipe it via stdin."@,
            ),
        )
    } else {
        Ok(token)
    }
}

/// Reads the access token out of `raw`, the value of `auth login --token` or what standard input
/// held. Any surrounding white space and an accidental `Bearer ` prefix are stripped.
pub fn read_provided_token(raw: &str) -> (r: Result<String, TeamsError>)
    ensures
        result_view(r) == provided_token(raw@),
{
    let given = trim(raw);
    let bare = match strip_prefix(given, "Bearer ") {
        Some(rest) => rest,
        None => match strip_prefix(given, "bearer ") {
            Some(rest) => rest,
            None => given,
        },
    };
    let token = trim(bare);
    if token.is_empty() {
        return Err(
            TeamsError::InvalidInput(
                "No token provided. Pass it as `--token <TOKEN>` or pipe it via stdin.".to_owned(),
            ),
        );
    }
    Ok(token.to_owned())
}

/// The scope that a token grants: its scope claim without surrounding white space, if anything is
/// left of it.
pub open spec fn granted_scope(scp: Option<Text>) -> Option<Text> {
    match scp {
        Some(s) if trimmed(s).len() > 0 => Some(trimmed(s)),
        _ => None,
    }
}

/// The expiry that a token states, where the calendar holds it.
pub open spec fn stated_expiry(exp: Option<i64>) -> Option<Timestamp> {
    match exp {
        Some(secs) if representable(secs as int, 0) => Some(Timestamp { secs, nanos: 0 }),
        _ => None,
    }
}

/// What is stored of a provided token: the token as it is, its stated expiry and scope, and no
/// refresh token. A value that is no decodable token is refused.
pub open spec fn provided_info(
    profile: Text,
    access_token: Text,
    decoded: Result<TokenClaims<Text>, JwtError>,
) -> Result<TokenInfo<Text>, TeamsError<Text>> {
    match decoded {
        Ok(claims) => Ok(
            TokenInfo {
                access_token,
                expires_at: stated_expiry(claims.exp),
                token_type: "Bearer"@,
                scope: granted_scope(claims.scp),
                refresh_token: None,
                profile,
            },
        ),
        Err(error) => Err(
            TeamsError::InvalidInput(
                "Provided value is not a valid JWT access token ("@ + error.text()
                    + "). Paste the raw Bearer token from your Teams/Outlook session."@,
            ),
        ),
    }
}

/// What is stored of a provided token of which `decoded` is the outcome of decoding it.
pub fn provided_token_info_from(
    profile: &str,
    access_token: String,
    decoded: Result<TokenClaims, JwtError>,
) -> (r: Result<TokenInfo, TeamsError>)
    ensures
        result_view(r) == provided_info(
            profile@,
            access_token@,
            decoded_view(decoded),
        ),
{
    let claims = match decoded {
        Ok(claims) => claims,
        Err(error) => {
            return Err(
                TeamsError::InvalidInput(
                    "Provided value is not a valid JWT access token (".to_owned().concat(
                        error.message(),
                    ).concat("). Paste the raw Bearer token from your Teams/Outlook session."),
                ),
            );
        },
    };
    let expires_at = match claims.exp {
        Some(secs) => from_timestamp(secs, 0),
        None => None,
    };
    let scope = match &claims.scp {
        Some(scp) => {
            let scope = trim(scp.as_str());
            if scope.is_empty() {
                None
            } else {
                Some(scope.to_owned())
            }
        },
        None => None,
    };
    Ok(
        TokenInfo {
            access_token,
            expires_at,
            token_type: "Bearer".to_owned(),
            scope,
            refresh_token: None,
            profile: profile.to_owned(),
        },
    )
}

/// Builds what is stored of an access token captured outside of this program, for instance from a
/// browser session. The token is decoded unverified to recover its expiry and its granted scopes;
/// a value that is not decodable is refused. No refresh token is available.
pub fn provided_token_info(profile: &str, access_token: String) -> (r: Result<
    TokenInfo,
    TeamsError,
>)
    ensures
        result_view(r) == provided_info(profile@, access_token@, token_claims(access_token@)),
{
    let decoded = decode_unverified_claims(access_token.as_str());
    provided_token_info_from(profile, access_token, decoded)
}

/// What a user is shown of a token's claims.
#[derive(Debug)]
pub struct TokenDiagnostics<S = String> {
    pub audience: Option<S>,
    pub is_graph_audience: Option<bool>,
    pub auth_type: S,
    pub tenant_id: Option<S>,
    pub app_id: Option<S>,
    pub user: Option<S>,
}

impl View for TokenDiagnostics {
    type V = TokenDiagnostics<Text>;

    open spec fn view(&self) -> TokenDiagnostics<Text> {
        TokenDiagnostics {
            audience: self.audience.deep_view(),
            is_graph_audience: self.is_graph_audience,
            auth_type: self.auth_type@,
            tenant_id: self.tenant_id.deep_view(),
            app_id: self.app_id.deep_view(),
            user: self.user.deep_view(),
        }
    }
}

impl DeepView for TokenDiagnostics {
    type V = TokenDiagnostics<Text>;

    open spec fn deep_view(&self) -> TokenDiagnostics<Text> {
        self@
    }
}

/// What a user is shown of a token's claims, where it has any.
pub open spec fn diagnostics(claims: Option<TokenClaims<Text>>) -> Option<TokenDiagnostics<Text>> {
    match claims {
        Some(claims) => Some(
            TokenDiagnostics {
                audience: claims.audience_name(),
                is_graph_audience: claims.graph_audience(),
                auth_type: claims.auth_kind(),
                tenant_id: claims.tid,
                app_id: claims.app(),
                user: claims.user(),
            },
        ),
        None => None,
    }
}

/// What a user is shown of a token's claims, where it has any.
pub fn token_diagnostics(claims: Option<&TokenClaims>) -> (r: Option<TokenDiagnostics>)
    ensures
        r.deep_view() == diagnostics(claims.deep_view()),
{
    match claims {
        Some(claims) => Some(
            TokenDiagnostics {
                audience: claims.audience(),
                is_graph_audience: claims.is_graph_audience(),
                auth_type: claims.auth_type().to_owned(),
                tenant_id: claims.tid.clone(),
                app_id: claims.app_id(),
                user: claims.user_name(),
            },
        ),
        None => None,
    }
}

/// The warning that a token is not meant for Microsoft Graph.
pub open spec fn audience_warning(audience: Option<Text>) -> Text {
    let name = match audience {
        Some(name) => name,
        None => "unknown audience"@,
    };
    "Token audience is '"@ + name
        + "', not Microsoft Graph. Graph commands require a Microsoft Graph access token."@
}

/// The warnings about a token with these claims: one where it has an audience other than
/// Microsoft Graph, else none.
pub open spec fn claims_warnings(claims: Option<TokenClaims<Text>>) -> Texts {
    match claims {
        Some(claims) if claims.graph_audience() == Some(false) => seq![
            audience_warning(claims.audience_name()),
        ],
        _ => seq![],
    }
}

/// The warnings about a token with these claims.
pub fn token_warnings(claims: Option<&TokenClaims>) -> (r: Vec<String>)
    ensures
        r.deep_view() == claims_warnings(claims.deep_view()),
{
    let mut warnings: Vec<String> = Vec::new();
    if let Some(claims) = claims {
        if let Some(graph) = claims.is_graph_audience() {
            if !graph {
                let audience = match claims.audience() {
                    Some(audience) => audience,
                    None => "unknown audience".to_owned(),
                };
                warnings.push(
                    "Token audience is '".to_owned().concat(audience.as_str()).concat(
                        "', not Microsoft Graph. Graph commands require a Microsoft Graph access token.",
                    ),
                );
            }
        }
    }
    assert(warnings.deep_view() =~= claims_warnings(claims.deep_view()));
    warnings
}

/// The warning about a token that is expired already.
pub open spec fn expired_warning() -> Text {
    "Token is already expired. Capture a fresh token and run `teams auth login --token` again."@
}

/// The warning about a token that does not say when it expires.
pub open spec fn no_expiry_warning() -> Text {
    "Token has no 'exp' claim, so its expiry is unknown; commands will keep using it until Graph rejects it."@
}

/// The warning that goes with every provided token.
pub open spec fn no_refresh_warning() -> Text {
    "Provided tokens have no refresh token and cannot be refreshed automatically; re-run `teams auth login --token` when it expires."@
}

/// The warnings about the expiry of a token at the time `now`.
pub open spec fn expiry_warnings(expires_at: Option<Timestamp>, now: Timestamp) -> Texts {
    match expires_at {
        Some(at) => if reached(at, now) {
            seq![expired_warning()]
        } else {
            seq![]
        },
        None => seq![no_expiry_warning()],
    }
}

/// The warnings about a provided token at the time `now`.
pub open spec fn provided_warnings(
    expires_at: Option<Timestamp>,
    claims: Option<TokenClaims<Text>>,
    now: Timestamp,
) -> Texts {
    claims_warnings(claims) + expiry_warnings(expires_at, now) + seq![no_refresh_warning()]
}

/// The warnings about a provided token at the time `now`: it may not be meant for Microsoft Graph,
/// it may be expired already, or may not say when it expires, and it can never be refreshed.
pub fn provided_token_warnings_at(
    token: &TokenInfo,
    claims: Option<&TokenClaims>,
    now: Timestamp,
) -> (r: Vec<String>)
    ensures
        r.deep_view() == provided_warnings(token.expires_at, claims.deep_view(), now),
{
    let mut warnings = token_warnings(claims);
    match token.expires_at {
        Some(_) => {
            if token.is_expired_at(now) {
                warnings.push(
                    "Token is already expired. Capture a fresh token and run `teams auth login --token` again.".to_owned(),
                );
            }
        },
        None => {
            warnings.push(
                "Token has no 'exp' claim, so its expiry is unknown; commands will keep using it until Graph rejects it.".to_owned(),
            );
        },
    }
    assert(warnings.deep_view() =~= claims_warnings(claims.deep_view()) + expiry_warnings(
        token.expires_at,
        now,
    ));
    let ghost before = warnings.deep_view();
    warnings.push(
        "Provided tokens have no refresh token and cannot be refreshed automatically; re-run `teams auth login --token` when it expires.".to_owned(),
    );
    assert(warnings.deep_view() =~= before + seq![no_refresh_warning()]);
    warnings
}

/// The warnings about a provided token by the machine's clock: it may not be meant for Microsoft
/// Graph, it may be expired already, or may not say when it expires, and it can never be
/// refreshed. The clock is read only where the token has an expiry.
pub fn provided_token_warnings(token: &TokenInfo, claims: Option<&TokenClaims>) -> (r: Vec<String>)
    ensures
        exists|now: Timestamp|
            clock_reading(now) && r.deep_view() == #[trigger] provided_warnings(
                token.expires_at,
                claims.deep_view(),
                now,
            ),
        token.expires_at is Some ==> exists|t: Timestamp|
            shown_by_the_clock(t) && r.deep_view() == #[trigger] provided_warnings(
                token.expires_at,
                claims.deep_view(),
                t,
            ),
{
    let now = time_to_judge(token.expires_at);
    provided_token_warnings_at(token, claims, now)
}

/// White space around what the user gave makes no difference.
pub proof fn law_surrounding_white_space_is_stripped(front: Text, raw: Text, back: Text)
    requires
        blank(front),
        blank(back),
    ensures
        provided_token(front + raw + back) == provided_token(raw),
{
    lemma_trimmed_around(front, raw, back);
}

/// A token that was taken is not empty and has no white space at either end.
pub proof fn law_taken_token_is_clean(raw: Text)
    ensures
        provided_token(raw) matches Ok(token) ==> token.len() > 0 && !white_space(token[0])
            && !white_space(token.last()),
{
    lemma_trimmed_ends(without_bearer(trimmed(raw)));
}

/// Nothing but white space is refused.
pub proof fn law_blank_token_is_refused(raw: Text)
    requires
        blank(raw),
    ensures
        provided_token(raw) is Err,
{
    reveal_strlit("Bearer ");
    reveal_strlit("bearer ");
    lemma_trimmed_around(raw, Seq::empty(), Seq::empty());
    assert(raw + Seq::<char>::empty() + Seq::<char>::empty() =~= raw);
}

/// An accidental `Bearer ` or `bearer ` before a token, with any white space between, makes no
/// difference; and a token without such a prefix of its own is taken as it is.
pub proof fn law_bearer_prefix_is_stripped(between: Text, token: Text)
    requires
        token.len() > 0,
        !white_space(token[0]),
        !white_space(token.last()),
        blank(between),
    ensures
        without_bearer(token) == token ==> provided_token(token) == Ok::<Text, TeamsError<Text>>(
            token,
        ),
        provided_token("Bearer "@ + between + token) == Ok::<Text, TeamsError<Text>>(token),
        provided_token("bearer "@ + between + token) == Ok::<Text, TeamsError<Text>>(token),
{
    reveal_strlit("Bearer ");
    reveal_strlit("bearer ");
    lemma_trimmed_fixed(token);
    let upper = "Bearer "@ + between + token;
    let lower = "bearer "@ + between + token;
    lemma_trimmed_fixed(upper);
    lemma_trimmed_fixed(lower);
    assert(upper.take(7) =~= "Bearer "@);
    assert(lower.take(7) =~= "bearer "@);
    assert(lower.take(7)[0] != "Bearer "@[0]);
    assert(upper.skip(7) =~= between + token + Seq::<char>::empty());
    assert(lower.skip(7) =~= between + token + Seq::<char>::empty());
    lemma_trimmed_around(between, token, Seq::empty());
}

/// What is stored of a provided token is the token as it was given, for the profile it was given
/// for, without a refresh token; and a token is stored exactly where it can be decoded.
pub proof fn law_provided_token_is_stored_as_it_is(profile: Text, access_token: Text)
    ensures
        provided_info(profile, access_token, token_claims(access_token)) is Ok <==> token_claims(
            access_token,
        ) is Ok,
        provided_info(profile, access_token, token_claims(access_token)) matches Ok(info)
            ==> info.access_token == access_token && info.profile == profile
            && info.refresh_token is None && info.claims() == Some(
            token_claims(access_token)->Ok_0,
        ),
        provided_info(profile, access_token, token_claims(access_token)) matches Err(error)
            ==> error is InvalidInput,
{
}

/// An expiry that has come stays come.
pub proof fn law_expired_token_stays_expired(
    expires_at: Option<Timestamp>,
    now: Timestamp,
    later: Timestamp,
)
    requires
        expired_at(expires_at, now),
        reached(now, later),
    ensures
        expired_at(expires_at, later),
{
}

/// The warnings about a provided token: it is warned of a foreign audience, of an expiry that has
/// come and of a missing expiry exactly where each holds; and the warning that it cannot be
/// refreshed always closes the list.
pub proof fn law_provided_warnings_say_what_holds(
    expires_at: Option<Timestamp>,
    claims: Option<TokenClaims<Text>>,
    now: Timestamp,
)
    ensures
        ({
            let warnings = provided_warnings(expires_at, claims, now);
            &&& warnings.len() > 0
            &&& warnings.last() == no_refresh_warning()
            &&& warnings.contains(expired_warning()) <==> expired_at(expires_at, now)
            &&& warnings.contains(no_expiry_warning()) <==> expires_at is None
            &&& (exists|audience: Option<Text>|
                warnings.contains(#[trigger] audience_warning(audience))) <==> (claims is Some
                && claims->0.graph_audience() == Some(false))
        }),
{
    let warnings = provided_warnings(expires_at, claims, now);
    let first = claims_warnings(claims);
    let second = expiry_warnings(expires_at, now);
    reveal_strlit("Token audience is '");
    reveal_strlit(
        "Token is already expired. Capture a fresh token and run `teams auth login --token` again.",
    );
    reveal_strlit(
        "Token has no 'exp' claim, so its expiry is unknown; commands will keep using it until Graph rejects it.",
    );
    reveal_strlit(
        "Provided tokens have no refresh token and cannot be refreshed automatically; re-run `teams auth login --token` when it expires.",
    );
    assert forall|audience: Option<Text>| (#[trigger] audience_warning(audience))[6] == 'a'
        && audience_warning(audience)[0] == 'T' by {
        assert(audience_warning(audience)[6] == "Token audience is '"@[6]);
    }
    assert(expired_warning()[6] == 'i');
    assert(no_expiry_warning()[6] == 'h');
    assert(no_refresh_warning()[0] == 'P' && expired_warning()[0] == 'T'
        && no_expiry_warning()[0] == 'T');
    if first.len() > 0 {
        assert(warnings[0] == audience_warning(claims->0.audience_name()));
    }
    if second.len() > 0 {
        assert(warnings[first.len() as int] == second[0]);
    }
}

/// Where the user gives a token, that token is taken: whatever white space is around it, and
/// whether `Bearer ` or `bearer ` is before it or not.
pub proof fn law_given_token_is_taken(front: Text, between: Text, token: Text, back: Text)
    requires
        blank(front),
        blank(between),
        blank(back),
        token.len() > 0,
        !white_space(token[0]),
        !white_space(token.last()),
    ensures
        token.len() >= 7 && (token.take(7) == "Bearer "@ || token.take(7) == "bearer "@)
            || provided_token(front + token + back) == Ok::<Text, TeamsError<Text>>(token),
        provided_token(front + ("Bearer "@ + between + token) + back) == Ok::<
            Text,
            TeamsError<Text>,
        >(token),
        provided_token(front + ("bearer "@ + between + token) + back) == Ok::<
            Text,
            TeamsError<Text>,
        >(token),
{
    reveal_strlit("Bearer ");
    reveal_strlit("bearer ");
    law_bearer_prefix_is_stripped(between, token);
    law_surrounding_white_space_is_stripped(front, token, back);
    law_surrounding_white_space_is_stripped(front, "Bearer "@ + between + token, back);
    law_surrounding_white_space_is_stripped(front, "bearer "@ + between + token, back);
}

/// Only where the user gives nothing but white space is there no token, and then it is said how
/// to give one.
pub proof fn law_only_nothing_is_refused(raw: Text)
    ensures
        provided_token(raw) is Err <==> blank(raw),
        provided_token(raw) matches Err(error) ==> error == TeamsError::InvalidInput(
            "No token provided. Pass it as `--token <TOKEN>` or pipe it via stdin."@,
        ),
{
    reveal_strlit("Bearer ");
    reveal_strlit("bearer ");
    if blank(raw) {
        law_blank_token_is_refused(raw);
    } else {
        let given = trimmed(raw);
        lemma_trimmed_empty(raw);
        lemma_trimmed_ends(raw);
        let bare = without_bearer(given);
        if bare != given {
            // What is left behind the prefix ends as the given text does.
            if bare.len() == 0 {
                assert(given.take(7).last() == given.last());
                assert(white_space(' '));
            } else {
                assert(bare.last() == given.last());
            }
        }
        lemma_trimmed_empty(bare);
    }
}

/// What is stored of a decodable token: its stated expiry to the second, where the calendar holds
/// it, its scope claim without the white space around it, where anything is left, and nothing by
/// which it could be refreshed.
pub proof fn law_stored_record_says_what_the_claims_say(
    profile: Text,
    access_token: Text,
    claims: TokenClaims<Text>,
    front: Text,
    scope: Text,
    back: Text,
)
    requires
        blank(front),
        blank(back),
        scope.len() > 0 ==> !white_space(scope[0]) && !white_space(scope.last()),
    ensures
        provided_info(profile, access_token, Ok(claims)) matches Ok(info) && {
            &&& info.access_token == access_token
            &&& info.profile == profile
            &&& info.token_type == "Bearer"@
            &&& info.refresh_token is None
            &&& claims.exp is None ==> info.expires_at is None
            &&& claims.exp matches Some(secs) ==> (if -8_334_601_228_800 <= secs
                <= 8_210_266_876_799 {
                info.expires_at == Some(Timestamp { secs, nanos: 0 })
            } else {
                info.expires_at is None
            })
            &&& claims.scp is None ==> info.scope is None
            &&& claims.scp == Some(front + scope + back) ==> info.scope == (if scope.len() > 0 {
                Some(scope)
            } else {
                None
            })
        },
{
    lemma_trimmed_around(front, scope, back);
    lemma_trimmed_fixed(scope);
}

/// Where a given value cannot be decoded, the user is told that, and why.
pub proof fn law_refused_value_is_told_why(profile: Text, access_token: Text, error: JwtError)
    ensures
        provided_info(profile, access_token, Err(error)) == Err::<
            TokenInfo<Text>,
            TeamsError<Text>,
        >(
            TeamsError::InvalidInput(
                "Provided value is not a valid JWT access token ("@ + (match error {
                    JwtError::Segments => "expected three segments separated by dots"@,
                    JwtError::Encoding => "the payload is not base64url"@,
                    JwtError::Json => "the payload is not a JSON object"@,
                    JwtError::Claim => "a claim has an unexpected type"@,
                }) + "). Paste the raw Bearer token from your Teams/Outlook session."@,
            ),
        ),
{
}

/// A token is warned of for its audience exactly where it has one that is not Microsoft Graph, once
/// and by the name that the token gives it.
pub proof fn law_foreign_audience_is_named(claims: TokenClaims<Text>, name: Text)
    ensures
        claims_warnings(None).len() == 0,
        claims.aud is None ==> claims_warnings(Some(claims)).len() == 0,
        claims.aud == Some(Audience::Named(name)) ==> claims_warnings(Some(claims)) == (if name
            == "https://graph.microsoft.com"@ || name == "https://graph.microsoft.com/"@ || name
            == "00000003-0000-0000-c000-000000000000"@ {
            seq![]
        } else {
            seq![
                "Token audience is '"@ + name
                    + "', not Microsoft Graph. Graph commands require a Microsoft Graph access token."@,
            ]
        }),
        claims.aud == Some(Audience::<Text>::Unnamed) ==> claims_warnings(Some(claims)) == seq![
            "Token audience is '"@ + "unknown audience"@
                + "', not Microsoft Graph. Graph commands require a Microsoft Graph access token."@,
        ],
{
}

/// A token is expired once its expiry is not later than the time; without an expiry it never is.
pub proof fn law_token_expires_at_its_expiry(at: Timestamp, now: Timestamp)
    ensures
        !expired_at(None, now),
        at.secs < now.secs ==> expired_at(Some(at), now),
        at.secs > now.secs ==> !expired_at(Some(at), now),
        at.secs == now.secs ==> (expired_at(Some(at), now) <==> at.nanos <= now.nanos),
{
}

/// The warnings about a provided token, in their order: those about its audience, then that it is
/// expired, where its expiry is not later than the time, or that its expiry is unknown, where it
/// has none, and in the end that it cannot be refreshed.
pub proof fn law_provided_warnings_in_order(
    expires_at: Option<Timestamp>,
    claims: Option<TokenClaims<Text>>,
    now: Timestamp,
)
    ensures
        ({
            let warnings = provided_warnings(expires_at, claims, now);
            let audience = claims_warnings(claims);
            let expiry = warnings.subrange(audience.len() as int, warnings.len() - 1);
            &&& warnings.len() > audience.len()
            &&& warnings.take(audience.len() as int) == audience
            &&& warnings.last()
                == "Provided tokens have no refresh token and cannot be refreshed automatically; re-run `teams auth login --token` when it expires."@
            &&& expires_at is None ==> expiry == seq![
                "Token has no 'exp' claim, so its expiry is unknown; commands will keep using it until Graph rejects it."@,
            ]
            &&& expires_at matches Some(at) ==> (if at.secs < now.secs || (at.secs == now.secs
                && at.nanos <= now.nanos) {
                expiry
                    == seq![
                    "Token is already expired. Capture a fresh token and run `teams auth login --token` again."@,
                ]
            } else {
                expiry.len() == 0
            })
        }),
{
    let warnings = provided_warnings(expires_at, claims, now);
    let audience = claims_warnings(claims);
    assert(warnings.take(audience.len() as int) =~= audience);
    assert(warnings.subrange(audience.len() as int, warnings.len() - 1) =~= expiry_warnings(
        expires_at,
        now,
    ));
}

/// What the user is shown of a token is what its claims say: the application by its `appid`, else
/// by its `azp`; the user by their preferred name, else by their principal name; and the token is
/// delegated where it has scopes, an application's where it has roles alone.
pub proof fn law_diagnostics_say_what_the_claims_say(claims: TokenClaims<Text>)
    ensures
        diagnostics(None) is None,
        diagnostics(Some(claims)) matches Some(shown) && {
            &&& shown.audience is Some <==> (claims.aud matches Some(Audience::Named(_)))
            &&& shown.audience matches Some(name) ==> claims.aud == Some(Audience::Named(name))
            &&& shown.is_graph_audience is None <==> claims.aud is None
            &&& shown.is_graph_audience == Some(true) <==> shown.audience == Some(
                "https://graph.microsoft.com"@,
            ) || shown.audience == Some("https://graph.microsoft.com/"@) || shown.audience == Some(
                "00000003-0000-0000-c000-000000000000"@,
            )
            &&& shown.tenant_id == claims.tid
            &&& claims.appid is Some ==> shown.app_id == claims.appid
            &&& claims.appid is None ==> shown.app_id == claims.azp
            &&& claims.preferred_username is Some ==> shown.user == claims.preferred_username
            &&& claims.preferred_username is None ==> shown.user == claims.upn
            &&& claims.scp is Some ==> shown.auth_type == "delegated"@
            &&& claims.scp is None && claims.has_roles ==> shown.auth_type == "application"@
            &&& claims.scp is None && !claims.has_roles ==> shown.auth_type == "unknown"@
        },
{
}

/// The claims of a stored token are those that its access token states, where it can be decoded.
pub proof fn law_stored_token_keeps_its_claims(token: TokenInfo<Text>)
    ensures
        token.claims() is Some <==> token_claims(token.access_token) is Ok,
        token.claims() matches Some(claims) ==> token_claims(token.access_token) == Ok::<
            TokenClaims<Text>,
            JwtError,
        >(claims),
{
}

} // verus!
