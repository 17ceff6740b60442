//! The claims of an access token, read from its JSON Web Token form without verifying it.

use crate::text::{
    cut, joined, law_cut_parts_make_up_the_text, lemma_cut_behind, same, split_at_char, Text,
};
use base64::Engine;
use vstd::prelude::*;
use vstd::utf8::encode_utf8;

verus! {

/// `base64::DecodeError`: why bytes are not base64.
#[verifier::external_type_specification]
#[verifier::external_body]
pub struct ExDecodeError(base64::DecodeError);

/// `serde_json::Error`: why bytes are not JSON.
#[verifier::external_type_specification]
#[verifier::external_body]
pub struct ExJsonError(serde_json::Error);

/// `serde_json::Value`: a JSON value.
#[verifier::external_type_specification]
#[verifier::external_body]
pub struct ExJsonValue(serde_json::Value);

/// `serde_json::Map`: the members of a JSON object.
#[verifier::external_type_specification]
#[verifier::external_body]
#[verifier::reject_recursive_types(K)]
#[verifier::reject_recursive_types(V)]
pub struct ExJsonMap<K, V>(serde_json::Map<K, V>);

/// A member of a JSON object, as far as claims need it.
#[derive(Debug)]
pub enum Member<S = String> {
    /// The object has no such member.
    Absent,
    /// `null`.
    Null,
    /// A number, with its value where it is an integer of 64 bits.
    Number(Option<i64>),
    /// A string.
    Text(S),
    /// A boolean, an array or an object.
    Other,
}

impl View for Member {
    type V = Member<Text>;

    open spec fn view(&self) -> Member<Text> {
        match self {
            Member::Absent => Member::Absent,
            Member::Null => Member::Null,
            Member::Number(n) => Member::Number(*n),
            Member::Text(s) => Member::Text(s@),
            Member::Other => Member::Other,
        }
    }
}

/// The bytes that a text in the URL-safe base64 alphabet without padding stands for, as
/// `base64` decodes it; none where it is no such text.
pub uninterp spec fn base64url_bytes(encoded: Seq<u8>) -> Option<Seq<u8>>;

/// Calls `base64::Engine::decode` of the engine `URL_SAFE_NO_PAD`, whose result depends on the
/// given bytes alone.
#[verifier::external_body]
fn base64url_decode(encoded: &[u8]) -> (r: Result<Vec<u8>, base64::DecodeError>)
    ensures
        match r {
            Ok(bytes) => base64url_bytes(encoded@) == Some(bytes@),
            Err(_) => base64url_bytes(encoded@) is None,
        },
{
    base64::engine::general_purpose::URL_SAFE_NO_PAD.decode(encoded)
}

/// What a `serde_json::Map` holds: the kind and content of each member, by its name.
pub uninterp spec fn object_members(object: serde_json::Map<String, serde_json::Value>) -> Map<
    Seq<char>,
    Member<Seq<char>>,
>;

/// The members of the JSON object that `bytes` spell, as `serde_json` reads it; none where they
/// spell no JSON object.
pub uninterp spec fn json_object(bytes: Seq<u8>) -> Option<Map<Seq<char>, Member<Seq<char>>>>;

/// Calls `serde_json::from_slice` for an object, whose result depends on the given bytes alone.
#[verifier::external_body]
fn parse_object(bytes: &[u8]) -> (r: Result<
    serde_json::Map<String, serde_json::Value>,
    serde_json::Error,
>)
    ensures
        match r {
            Ok(object) => json_object(bytes@) == Some(object_members(object)),
            Err(_) => json_object(bytes@) is None,
        },
{
    serde_json::from_slice(bytes)
}

/// The member `key` of an object with these members.
pub open spec fn member_of(members: Map<Text, Member<Text>>, key: Text) -> Member<Text> {
    if members.contains_key(key) {
        members[key]
    } else {
        Member::Absent
    }
}

/// Calls `serde_json::Map::get`, which finds the member of that name where there is one, and
/// tells the variants of `serde_json::Value` apart.
#[verifier::external_body]
fn member(object: &serde_json::Map<String, serde_json::Value>, key: &str) -> (r: Member)
    ensures
        r@ == member_of(object_members(*object), key@),
{
    match object.get(key) {
        None => Member::Absent,
        Some(serde_json::Value::Null) => Member::Null,
        Some(serde_json::Value::Number(n)) => Member::Number(n.as_i64()),
        Some(serde_json::Value::String(s)) => Member::Text(s.clone()),
        Some(serde_json::Value::Bool(_)) => Member::Other,
        Some(serde_json::Value::Array(_)) => Member::Other,
        Some(serde_json::Value::Object(_)) => Member::Other,
    }
}

/// Why a value is not a decodable access token.
#[derive(Debug, Clone, Copy, PartialEq, Eq, Structural)]
pub enum JwtError {
    /// It is not three segments with dots between.
    Segments,
    /// Its payload is not base64.
    Encoding,
    /// Its payload is not a JSON object.
    Json,
    /// A claim has a value of the wrong kind.
    Claim,
}

impl JwtError {
    /// What the user is told.
    pub open spec fn text(self) -> Text {
        match self {
            JwtError::Segments => "expected three segments separated by dots"@,
            JwtError::Encoding => "the payload is not base64url"@,
            JwtError::Json => "the payload is not a JSON object"@,
            JwtError::Claim => "a claim has an unexpected type"@,
        }
    }

    /// What the user is told.
    pub fn message(&self) -> (r: &'static str)
        ensures
            r@ == self.text(),
    {
        match self {
            JwtError::Segments => "expected three segments separated by dots",
            JwtError::Encoding => "the payload is not base64url",
            JwtError::Json => "the payload is not a JSON object",
            JwtError::Claim => "a claim has an unexpected type",
        }
    }
}

/// The claim that says whom a token is meant for.
#[derive(Debug)]
pub enum Audience<S = String> {
    /// It names one audience.
    Named(S),
    /// It is something other than one name.
    Unnamed,
}

/// The claims that matter here, before their kinds are checked.
#[derive(Debug)]
pub struct RawClaims<S = String> {
    pub aud: Member<S>,
    pub tid: Member<S>,
    pub appid: Member<S>,
    pub azp: Member<S>,
    pub preferred_username: Member<S>,
    pub upn: Member<S>,
    pub scp: Member<S>,
    pub roles: Member<S>,
    pub exp: Member<S>,
}

impl View for RawClaims {
    type V = RawClaims<Text>;

    open spec fn view(&self) -> RawClaims<Text> {
        RawClaims {
            aud: self.aud@,
            tid: self.tid@,
            appid: self.appid@,
            azp: self.azp@,
            preferred_username: self.preferred_username@,
            upn: self.upn@,
            scp: self.scp@,
            roles: self.roles@,
            exp: self.exp@,
        }
    }
}

/// The claims of an access token.
#[derive(Debug)]
pub struct TokenClaims<S = String> {
    /// Whom the token is meant for.
    pub aud: Option<Audience<S>>,
    /// The tenant.
    pub tid: Option<S>,
    /// The application, in tokens of the first version.
    pub appid: Option<S>,
    /// The application, in tokens of the second version.
    pub azp: Option<S>,
    /// The user, in tokens of the second version.
    pub preferred_username: Option<S>,
    /// The user, in tokens of the first version.
    pub upn: Option<S>,
    /// The delegated permissions.
    pub scp: Option<S>,
    /// Whether application permissions are listed.
    pub has_roles: bool,
    /// The expiry, in seconds since the Unix epoch.
    pub exp: Option<i64>,
}

impl View for TokenClaims {
    type V = TokenClaims<Text>;

    open spec fn view(&self) -> TokenClaims<Text> {
        TokenClaims {
            aud: match self.aud {
                None => None,
                Some(Audience::Named(s)) => Some(Audience::Named(s@)),
                Some(Audience::Unnamed) => Some(Audience::Unnamed),
            },
            tid: self.tid.deep_view(),
            appid: self.appid.deep_view(),
            azp: self.azp.deep_view(),
            preferred_username: self.preferred_username.deep_view(),
            upn: self.upn.deep_view(),
            scp: self.scp.deep_view(),
            has_roles: self.has_roles,
            exp: self.exp,
        }
    }
}

impl DeepView for TokenClaims {
    type V = TokenClaims<Text>;

    open spec fn deep_view(&self) -> TokenClaims<Text> {
        self@
    }
}

/// The names that tokens give Microsoft Graph as their audience: its address, with or without the
/// closing slash, and its application id.
pub open spec fn graph_name(audience: Text) -> bool {
    ||| audience == "https://graph.microsoft.com"@
    ||| audience == "https://graph.microsoft.com/"@
    ||| audience == "00000003-0000-0000-c000-000000000000"@
}

impl TokenClaims<Text> {
    /// The audience, where the token names one.
    pub open spec fn audience_name(self) -> Option<Text> {
        match self.aud {
            Some(Audience::Named(name)) => Some(name),
            _ => None,
        }
    }

    /// Whether the audience is Microsoft Graph, where the token has an audience.
    pub open spec fn graph_audience(self) -> Option<bool> {
        match self.aud {
            None => None,
            Some(Audience::Named(name)) => Some(graph_name(name)),
            Some(Audience::Unnamed) => Some(false),
        }
    }

    /// How the token was had: on behalf of a user, by an application alone, or neither is known.
    pub open spec fn auth_kind(self) -> Text {
        if self.scp is Some {
            "delegated"@
        } else if self.has_roles {
            "application"@
        } else {
            "unknown"@
        }
    }

    /// The application, by either claim.
    pub open spec fn app(self) -> Option<Text> {
        if self.appid is Some {
            self.appid
        } else {
            self.azp
        }
    }

    /// The user, by either claim.
    pub open spec fn user(self) -> Option<Text> {
        if self.preferred_username is Some {
            self.preferred_username
        } else {
            self.upn
        }
    }
}

impl TokenClaims {
    /// The audience, where the token names one.
    pub fn audience(&self) -> (r: Option<String>)
        ensures
            r.deep_view() == self@.audience_name(),
    {
        match &self.aud {
            Some(Audience::Named(name)) => Some(name.clone()),
            _ => None,
        }
    }

    /// Whether the audience is Microsoft Graph, where the token has an audience.
    pub fn is_graph_audience(&self) -> (r: Option<bool>)
        ensures
            r == self@.graph_audience(),
    {
        match &self.aud {
            None => None,
            Some(Audience::Named(name)) => Some(
                same(name.as_str(), "https://graph.microsoft.com") || same(
                    name.as_str(),
                    "https://graph.microsoft.com/",
                ) || same(name.as_str(), "00000003-0000-0000-c000-000000000000"),
            ),
            Some(Audience::Unnamed) => Some(false),
        }
    }

    /// How the token was had: on behalf of a user, by an application alone, or neither is known.
    pub fn auth_type(&self) -> (r: &'static str)
        ensures
            r@ == self@.auth_kind(),
    {
        if self.scp.is_some() {
            "delegated"
        } else if self.has_roles {
            "application"
        } else {
            "unknown"
        }
    }

    /// The application, by either claim.
    pub fn app_id(&self) -> (r: Option<String>)
        ensures
            r.deep_view() == self@.app(),
    {
        if self.appid.is_some() {
            self.appid.clone()
        } else {
            self.azp.clone()
        }
    }

    /// The user, by either claim.
    pub fn user_name(&self) -> (r: Option<String>)
        ensures
            r.deep_view() == self@.user(),
    {
        if self.preferred_username.is_some() {
            self.preferred_username.clone()
        } else {
            self.upn.clone()
        }
    }
}

/// A claim that is a text where it is there; outermost `None` where it is something else.
pub open spec fn text_claim<S>(m: Member<S>) -> Option<Option<S>> {
    match m {
        Member::Absent | Member::Null => Some(None),
        Member::Text(s) => Some(Some(s)),
        _ => None,
    }
}

/// A claim that is an integer where it is there; outermost `None` where it is something else.
pub open spec fn integer_claim<S>(m: Member<S>) -> Option<Option<i64>> {
    match m {
        Member::Absent | Member::Null => Some(None),
        Member::Number(Some(n)) => Some(Some(n)),
        _ => None,
    }
}

/// The kinds of all claims are as they should be.
pub open spec fn well_kinded<S>(raw: RawClaims<S>) -> bool {
    &&& text_claim(raw.tid) is Some
    &&& text_claim(raw.appid) is Some
    &&& text_claim(raw.azp) is Some
    &&& text_claim(raw.preferred_username) is Some
    &&& text_claim(raw.upn) is Some
    &&& text_claim(raw.scp) is Some
    &&& integer_claim(raw.exp) is Some
}

/// The claims that well-kinded members state.
pub open spec fn stated_claims<S>(raw: RawClaims<S>) -> TokenClaims<S> {
    TokenClaims {
        aud: match raw.aud {
            Member::Absent | Member::Null => None,
            Member::Text(name) => Some(Audience::Named(name)),
            _ => Some(Audience::Unnamed),
        },
        tid: text_claim(raw.tid)->0,
        appid: text_claim(raw.appid)->0,
        azp: text_claim(raw.azp)->0,
        preferred_username: text_claim(raw.preferred_username)->0,
        upn: text_claim(raw.upn)->0,
        scp: text_claim(raw.scp)->0,
        has_roles: !(raw.roles is Absent || raw.roles is Null),
        exp: integer_claim(raw.exp)->0,
    }
}

/// The outcome of a decoding, by views.
pub open spec fn decoded_view(r: Result<TokenClaims, JwtError>) -> Result<
    TokenClaims<Text>,
    JwtError,
> {
    match r {
        Ok(claims) => Ok(claims@),
        Err(error) => Err(error),
    }
}

/// The claims that `raw` states, where every claim is of its kind.
pub open spec fn checked_claims(raw: RawClaims<Text>) -> Result<TokenClaims<Text>, JwtError> {
    if well_kinded(raw) {
        Ok(stated_claims(raw))
    } else {
        Err(JwtError::Claim)
    }
}

fn take_text(m: Member) -> (r: Result<Option<String>, JwtError>)
    ensures
        match r {
            Ok(s) => text_claim(m@) == Some(s.deep_view()),
            Err(e) => text_claim(m@) is None && e == JwtError::Claim,
        },
{
    match m {
        Member::Absent => Ok(None),
        Member::Null => Ok(None),
        Member::Text(s) => Ok(Some(s)),
        Member::Number(_) => Err(JwtError::Claim),
        Member::Other => Err(JwtError::Claim),
    }
}

fn take_integer(m: Member) -> (r: Result<Option<i64>, JwtError>)
    ensures
        match r {
            Ok(n) => integer_claim(m@) == Some(n),
            Err(e) => integer_claim(m@) is None && e == JwtError::Claim,
        },
{
    match m {
        Member::Absent => Ok(None),
        Member::Null => Ok(None),
        Member::Number(Some(n)) => Ok(Some(n)),
        Member::Number(None) => Err(JwtError::Claim),
        Member::Text(_) => Err(JwtError::Claim),
        Member::Other => Err(JwtError::Claim),
    }
}

/// The claims that `raw` states, where every claim is of its kind.
pub fn claims_from_raw(raw: RawClaims) -> (r: Result<TokenClaims, JwtError>)
    ensures
        decoded_view(r) == checked_claims(raw@),
{
    let aud = match raw.aud {
        Member::Absent => None,
        Member::Null => None,
        Member::Text(name) => Some(Audience::Named(name)),
        Member::Number(_) => Some(Audience::Unnamed),
        Member::Other => Some(Audience::Unnamed),
    };
    let has_roles = match raw.roles {
        Member::Absent => false,
        Member::Null => false,
        _ => true,
    };
    let tid = take_text(raw.tid)?;
    let appid = take_text(raw.appid)?;
    let azp = take_text(raw.azp)?;
    let preferred_username = take_text(raw.preferred_username)?;
    let upn = take_text(raw.upn)?;
    let scp = take_text(raw.scp)?;
    let exp = take_integer(raw.exp)?;
    Ok(TokenClaims { aud, tid, appid, azp, preferred_username, upn, scp, has_roles, exp })
}

/// The members of a payload that matter here.
pub open spec fn raw_claims(members: Map<Text, Member<Text>>) -> RawClaims<Text> {
    RawClaims {
        aud: member_of(members, "aud"@),
        tid: member_of(members, "tid"@),
        appid: member_of(members, "appid"@),
        azp: member_of(members, "azp"@),
        preferred_username: member_of(members, "preferred_username"@),
        upn: member_of(members, "upn"@),
        scp: member_of(members, "scp"@),
        roles: member_of(members, "roles"@),
        exp: member_of(members, "exp"@),
    }
}

/// The claims that a payload, still in base64, states.
pub open spec fn payload_claims(payload: Text) -> Result<TokenClaims<Text>, JwtError> {
    match base64url_bytes(encode_utf8(payload)) {
        None => Err(JwtError::Encoding),
        Some(bytes) => match json_object(bytes) {
            None => Err(JwtError::Json),
            Some(members) => checked_claims(raw_claims(members)),
        },
    }
}

/// The claims that a token states: those of the second of its three segments.
pub open spec fn token_claims(token: Text) -> Result<TokenClaims<Text>, JwtError> {
    let segments = cut(token, '.');
    if segments.len() == 3 {
        payload_claims(segments[1])
    } else {
        Err(JwtError::Segments)
    }
}

/// The payload of a token: the second of three segments with dots between.
pub fn payload_segment<'a>(token: &'a str) -> (r: Result<&'a str, JwtError>)
    ensures
        match r {
            Ok(payload) => cut(token@, '.').len() == 3 && payload@ == cut(token@, '.')[1],
            Err(e) => cut(token@, '.').len() != 3 && e == JwtError::Segments,
        },
{
    let segments = split_at_char(token, '.');
    assert(segments.deep_view().len() == segments.len());
    if segments.len() == 3 {
        Ok(segments[1])
    } else {
        Err(JwtError::Segments)
    }
}

/// Reads the claims of an access token. The signature is not looked at, so nothing that the
/// claims say is to be relied on.
pub fn decode_unverified_claims(token: &str) -> (r: Result<TokenClaims, JwtError>)
    ensures
        decoded_view(r) == token_claims(token@),
{
    let payload = payload_segment(token)?;
    let bytes = match base64url_decode(payload.as_bytes()) {
        Ok(bytes) => bytes,
        Err(_) => {
            return Err(JwtError::Encoding);
        },
    };
    let object = match parse_object(bytes.as_slice()) {
        Ok(object) => object,
        Err(_) => {
            return Err(JwtError::Json);
        },
    };
    claims_from_raw(
        RawClaims {
            aud: member(&object, "aud"),
            tid: member(&object, "tid"),
            appid: member(&object, "appid"),
            azp: member(&object, "azp"),
            preferred_username: member(&object, "preferred_username"),
            upn: member(&object, "upn"),
            scp: member(&object, "scp"),
            roles: member(&object, "roles"),
            exp: member(&object, "exp"),
        },
    )
}

/// The claims of a token are those of its payload: header and signature make no difference.
pub proof fn law_claims_are_those_of_the_payload(header: Text, payload: Text, signature: Text)
    requires
        !header.contains('.'),
        !payload.contains('.'),
        !signature.contains('.'),
    ensures
        token_claims(header + seq!['.'] + payload + seq!['.'] + signature) == payload_claims(payload),
{
    let rest = payload + seq!['.'] + signature;
    assert(header + seq!['.'] + payload + seq!['.'] + signature =~= header + seq!['.'] + rest);
    lemma_cut_behind(header, '.', rest);
    lemma_cut_behind(payload, '.', signature);
    lemma_cut_behind(signature, '.', Seq::empty());
}

/// A token is three segments with dots between; of anything else just that is said.
pub proof fn law_tokens_have_three_segments(token: Text)
    ensures
        token_claims(token) == Err::<TokenClaims<Text>, JwtError>(JwtError::Segments) <==> !(exists|
            i: int,
            j: int,
        |
            0 <= i < j < token.len() && #[trigger] token[i] == '.' && #[trigger] token[j] == '.'
                && forall|k: int| 0 <= k < token.len() && #[trigger] token[k] == '.' ==> k == i || k
                == j),
{
    let segments = cut(token, '.');
    law_cut_parts_make_up_the_text(token, '.');
    let dot = seq!['.'];
    if segments.len() == 3 {
        assert(segments.skip(1).skip(1) =~= seq![segments[2]]);
        let (h, p, s) = (segments[0], segments[1], segments[2]);
        assert(joined(seq![s], dot) == s);
        assert(joined(segments.skip(1), dot) == p + dot + s);
        assert(token =~= h + dot + (p + dot + s));
        let i = h.len() as int;
        let j = (h.len() + 1 + p.len()) as int;
        assert(token[i] == '.' && token[j] == '.');
        assert forall|k: int| 0 <= k < token.len() && #[trigger] token[k] == '.' implies k == i || k
            == j by {
            if k < i {
                assert(h[k] == '.');
            } else if i < k < j {
                assert(p[k - i - 1] == '.');
            } else if k > j {
                assert(s[k - j - 1] == '.');
            }
        }
    } else if exists|i: int, j: int|
        0 <= i < j < token.len() && #[trigger] token[i] == '.' && #[trigger] token[j] == '.'
            && forall|k: int| 0 <= k < token.len() && #[trigger] token[k] == '.' ==> k == i || k
            == j {
        let (i, j) = choose|i: int, j: int|
            0 <= i < j < token.len() && #[trigger] token[i] == '.' && #[trigger] token[j] == '.'
                && forall|k: int| 0 <= k < token.len() && #[trigger] token[k] == '.' ==> k == i || k
                == j;
        let (h, p, s) = (token.take(i), token.subrange(i + 1, j), token.skip(j + 1));
        let rest = p + dot + s;
        assert(token =~= h + dot + rest);
        assert forall|k: int| 0 <= k < s.len() implies s[k] != '.' by {
            assert(s[k] == token[j + 1 + k]);
        }
        assert forall|k: int| 0 <= k < p.len() implies p[k] != '.' by {
            assert(p[k] == token[i + 1 + k]);
        }
        assert forall|k: int| 0 <= k < h.len() implies h[k] != '.' by {
            assert(h[k] == token[k]);
        }
        lemma_cut_behind(h, '.', rest);
        lemma_cut_behind(p, '.', s);
        lemma_cut_behind(s, '.', Seq::empty());
        assert(segments.len() == 3);
    }
}

/// Of a payload that is not base64, and of one that is no JSON object, just that is said.
pub proof fn law_undecodable_payloads_are_told_apart(payload: Text)
    ensures
        payload_claims(payload) == Err::<TokenClaims<Text>, JwtError>(JwtError::Encoding)
            <==> base64url_bytes(encode_utf8(payload)) is None,
        payload_claims(payload) == Err::<TokenClaims<Text>, JwtError>(JwtError::Json) <==> (
        base64url_bytes(encode_utf8(payload)) matches Some(bytes) && json_object(bytes) is None),
        payload_claims(payload) != Err::<TokenClaims<Text>, JwtError>(JwtError::Segments),
{
}

/// Each claim is the member of its own name: `s` or `n` is that claim exactly where the member is
/// that text or that integer, and a member that is missing or null is no claim.
pub proof fn law_claims_are_the_members_of_the_payload(
    payload: Text,
    bytes: Seq<u8>,
    members: Map<Text, Member<Text>>,
    s: Text,
    n: i64,
)
    requires
        base64url_bytes(encode_utf8(payload)) == Some(bytes),
        json_object(bytes) == Some(members),
    ensures
        payload_claims(payload) matches Ok(claims) ==> {
            &&& claims.aud == Some(Audience::Named(s)) <==> members.contains_key("aud"@)
                && members["aud"@] == Member::Text(s)
            &&& claims.tid == Some(s) <==> members.contains_key("tid"@) && members["tid"@]
                == Member::Text(s)
            &&& claims.appid == Some(s) <==> members.contains_key("appid"@) && members["appid"@]
                == Member::Text(s)
            &&& claims.azp == Some(s) <==> members.contains_key("azp"@) && members["azp"@]
                == Member::Text(s)
            &&& claims.preferred_username == Some(s) <==> members.contains_key("preferred_username"@) && members["preferred_username"@]
                == Member::Text(s)
            &&& claims.upn == Some(s) <==> members.contains_key("upn"@) && members["upn"@]
                == Member::Text(s)
            &&& claims.scp == Some(s) <==> members.contains_key("scp"@) && members["scp"@]
                == Member::Text(s)
            &&& claims.exp == Some(n) <==> members.contains_key("exp"@) && members["exp"@]
                == Member::<Text>::Number(Some(n))
            &&& claims.aud is None <==> (members.contains_key("aud"@) ==> members["aud"@] is Absent
                || members["aud"@] is Null)
            &&& !claims.has_roles <==> (members.contains_key("roles"@) ==> members["roles"@] is Absent
                || members["roles"@] is Null)
        },
{
}

/// A payload is refused for its claims exactly where one of them is of the wrong kind: a text was
/// due and there is a number, a boolean, a list or a record, or an integer was due for the expiry.
pub proof fn law_claims_of_the_wrong_kind_are_refused(
    payload: Text,
    bytes: Seq<u8>,
    members: Map<Text, Member<Text>>,
)
    requires
        base64url_bytes(encode_utf8(payload)) == Some(bytes),
        json_object(bytes) == Some(members),
    ensures
        payload_claims(payload) is Ok || payload_claims(payload) == Err::<
            TokenClaims<Text>,
            JwtError,
        >(JwtError::Claim),
        payload_claims(payload) is Err <==> {
            ||| members.contains_key("tid"@) && (members["tid"@] is Number || members["tid"@] is Other)
            ||| members.contains_key("appid"@) && (members["appid"@] is Number
                || members["appid"@] is Other)
            ||| members.contains_key("azp"@) && (members["azp"@] is Number || members["azp"@] is Other)
            ||| members.contains_key("preferred_username"@) && (
            members["preferred_username"@] is Number || members["preferred_username"@] is Other)
            ||| members.contains_key("upn"@) && (members["upn"@] is Number || members["upn"@] is Other)
            ||| members.contains_key("scp"@) && (members["scp"@] is Number || members["scp"@] is Other)
            ||| members.contains_key("exp"@) && (members["exp"@] is Text || members["exp"@] is Other
                || members["exp"@] == Member::<Text>::Number(None))
        },
{
}

/// The audience is Microsoft Graph where the token names its address, with or without the closing
/// slash, or its application id; any other audience is not, and where there is none nothing is
/// said.
pub proof fn law_graph_goes_by_three_names(claims: TokenClaims<Text>, name: Text)
    ensures
        claims.graph_audience() is None <==> claims.aud is None,
        claims.aud == Some(Audience::Named(name)) ==> claims.audience_name() == Some(name) && (
        claims.graph_audience() == Some(true) <==> name == "https://graph.microsoft.com"@ || name
            == "https://graph.microsoft.com/"@ || name == "00000003-0000-0000-c000-000000000000"@),
        claims.aud == Some(Audience::<Text>::Unnamed) ==> claims.audience_name() is None
            && claims.graph_audience() == Some(false),
        claims.aud is None ==> claims.audience_name() is None,
{
}

/// The reasons for which a token is refused are told apart, each in its own words.
pub proof fn law_reasons_read_differently(error: JwtError)
    ensures
        error.text() == "expected three segments separated by dots"@ <==> error
            == JwtError::Segments,
        error.text() == "the payload is not base64url"@ <==> error == JwtError::Encoding,
        error.text() == "the payload is not a JSON object"@ <==> error == JwtError::Json,
        error.text() == "a claim has an unexpected type"@ <==> error == JwtError::Claim,
{
    reveal_strlit("expected three segments separated by dots");
    reveal_strlit("the payload is not base64url");
    reveal_strlit("the payload is not a JSON object");
    reveal_strlit("a claim has an unexpected type");
    assert(error.text().len() == "expected three segments separated by dots"@.len() <==> error
        == JwtError::Segments);
}

} // verus!
