//! Admin consent: which scopes a consent URL asks for, the URL itself, and the guidance that is
//! added where consent is missing.

use crate::encoding::{
    law_encoded_values_are_query_safe, law_encoding_is_injective, percent_encode, percent_encoded,
    query_safe,
};
use crate::error::TeamsError;
use crate::text::{
    begins_with, blank, contains, cut, has, join, joined, law_blank_has_no_words,
    law_joined_lists_are_separated_once, law_solid_text_is_one_word, law_white_space_parts_words,
    lemma_cut_behind, lemma_words_are_solid, lemma_words_of_joined, same, solid, split_words,
    stands_at, starts_with, white_space, words, Text,
};
use vstd::prelude::*;

verus! {

/// The scopes that the identity platform itself defines.
pub open spec fn identity_scope(scope: Text) -> bool {
    ||| scope == "openid"@
    ||| scope == "profile"@
    ||| scope == "email"@
    ||| scope == "offline_access"@
}

/// A scope as a consent URL names it: an absolute scope and an identity scope as they are, any
/// other as a permission of Microsoft Graph.
pub open spec fn qualified_scope(scope: Text) -> Text {
    if begins_with(scope, "https://"@) || identity_scope(scope) {
        scope
    } else {
        "https://graph.microsoft.com/"@ + scope
    }
}

/// Each word of `scopes` as a consent URL names it, with single spaces between.
pub open spec fn consent_scopes(scopes: Text) -> Text {
    joined(words(scopes).map_values(|scope: Text| qualified_scope(scope)), " "@)
}

/// The scopes that a consent URL asks for: each word of `scopes`, in order, qualified as a
/// permission of Microsoft Graph unless it is absolute or an identity scope.
pub fn graph_admin_consent_scopes(scopes: &str) -> (r: String)
    ensures
        r@ == consent_scopes(scopes@),
{
    let all = split_words(scopes);
    let mut named: Vec<String> = Vec::new();
    let mut i: usize = 0;
    while i < all.len()
        invariant
            i <= all.len(),
            named.deep_view() == all.deep_view().take(i as int).map_values(
                |scope: Text| qualified_scope(scope),
            ),
        decreases all.len() - i,
    {
        let ghost before = named.deep_view();
        let scope = all[i];
        let keep = starts_with(scope, "https://") || same(scope, "openid") || same(scope, "profile")
            || same(scope, "email") || same(scope, "offline_access");
        let name = if keep {
            scope.to_owned()
        } else {
            "https://graph.microsoft.com/".to_owned().concat(scope)
        };
        named.push(name);
        proof {
            assert(named.deep_view() =~= before.push(name@));
            assert(all.deep_view().take(i + 1) =~= all.deep_view().take(i as int).push(scope@));
            assert(named.deep_view() =~= all.deep_view().take(i + 1).map_values(
                |scope: Text| qualified_scope(scope),
            ));
        }
        i = i + 1;
    }
    assert(all.deep_view().take(i as int) =~= all.deep_view());
    join(&named, " ")
}

/// The refusal says that consent is missing.
pub open spec fn lacks_consent(message: Text) -> bool {
    has(message, "AADSTS65001"@) || has(message, "consent_required"@)
}

/// The command that prints the consent URL, naming the scopes that were asked for.
pub open spec fn consent_command(profile: Text, requested_scopes: Option<Text>) -> Text {
    match requested_scopes {
        Some(scopes) => "teams --profile "@ + profile + " auth consent-url --scopes \""@ + scopes
            + "\""@,
        None => "teams --profile "@ + profile + " auth consent-url"@,
    }
}

/// What is added behind a refusal that says that consent is missing.
pub open spec fn consent_guidance(profile: Text, requested_scopes: Option<Text>) -> Text {
    "\n\nThe requested scopes have not been consented for this app. Grant admin consent (run `"@
        + consent_command(profile, requested_scopes)
        + "` for the URL) and retry, or run `teams --profile "@ + profile
        + " auth login` for interactive consent."@
}

/// The failure as the user sees it.
pub open spec fn annotated(
    error: TeamsError<Text>,
    profile: Text,
    requested_scopes: Option<Text>,
) -> TeamsError<Text> {
    match error {
        TeamsError::AuthError(message) if lacks_consent(message) => TeamsError::AuthError(
            message + consent_guidance(profile, requested_scopes),
        ),
        other => other,
    }
}

/// Turns the identity platform's consent-required rejection of a refresh-token redemption into
/// actionable guidance; any other failure comes back as it is. The platform rejects the whole
/// request when any requested scope lacks consent. When an explicit scope override failed, the
/// guidance names it, so that the consent URL covers the exact scopes that were rejected.
pub fn annotate_consent_error(
    error: TeamsError,
    profile: &str,
    requested_scopes: Option<&str>,
) -> (r: TeamsError)
    ensures
        r@ == annotated(error@, profile@, requested_scopes.deep_view()),
{
    match error {
        TeamsError::AuthError(message) => {
            if contains(message.as_str(), "AADSTS65001") || contains(
                message.as_str(),
                "consent_required",
            ) {
                let command = match requested_scopes {
                    Some(scopes) => "teams --profile ".to_owned().concat(profile).concat(
                        " auth consent-url --scopes \"",
                    ).concat(scopes).concat("\""),
                    None => "teams --profile ".to_owned().concat(profile).concat(
                        " auth consent-url",
                    ),
                };
                let guidance =
                    "\n\nThe requested scopes have not been consented for this app. Grant admin consent (run `".to_owned().concat(
                command.as_str()).concat(
                    "` for the URL) and retry, or run `teams --profile ",
                ).concat(profile).concat(" auth login` for interactive consent.");
                TeamsError::AuthError(message.concat(guidance.as_str()))
            } else {
                TeamsError::AuthError(message)
            }
        },
        other => other,
    }
}

/// The address at which an administrator of `tenant_id` consents to `delegated_scopes`.
pub open spec fn consent_url(
    client_id: Text,
    tenant_id: Text,
    delegated_scopes: Text,
    redirect_uri: Text,
) -> Text {
    "https://login.microsoftonline.com/"@ + tenant_id + "/v2.0/adminconsent?client_id="@ + client_id
        + "&scope="@ + percent_encoded(consent_scopes(delegated_scopes)) + "&redirect_uri="@
        + percent_encoded(redirect_uri)
}

/// The address at which an administrator of `tenant_id` consents to `delegated_scopes` for the
/// app `client_id`.
pub fn delegated_admin_consent_url(
    client_id: &str,
    tenant_id: &str,
    delegated_scopes: &str,
    redirect_uri: &str,
) -> (r: String)
    ensures
        r@ == consent_url(client_id@, tenant_id@, delegated_scopes@, redirect_uri@),
{
    let scopes = graph_admin_consent_scopes(delegated_scopes);
    "https://login.microsoftonline.com/".to_owned().concat(tenant_id).concat(
        "/v2.0/adminconsent?client_id=",
    ).concat(client_id).concat("&scope=").concat(percent_encode(scopes.as_str()).as_str()).concat(
        "&redirect_uri=",
    ).concat(percent_encode(redirect_uri).as_str())
}

/// A solid scope stays solid when it is qualified, and is then in its final form.
proof fn lemma_qualified_scope(scope: Text)
    requires
        solid(scope),
        scope.len() > 0,
    ensures
        solid(qualified_scope(scope)),
        qualified_scope(scope).len() > 0,
        begins_with(qualified_scope(scope), "https://"@) || identity_scope(qualified_scope(scope)),
        qualified_scope(qualified_scope(scope)) == qualified_scope(scope),
{
    reveal_strlit("https://");
    reveal_strlit("https://graph.microsoft.com/");
    let graph = "https://graph.microsoft.com/"@;
    let q = qualified_scope(scope);
    if q != scope {
        assert(q == graph + scope);
        assert(q.take(8) =~= "https://"@);
        assert forall|i: int| 0 <= i < q.len() implies !white_space(#[trigger] q[i]) by {
            if i >= graph.len() {
                assert(q[i] == scope[i - graph.len()]);
            }
        }
    }
}

/// The scopes of a consent URL are the words that were given, one for one and in their order,
/// each qualified; and each of them is absolute or an identity scope.
pub proof fn law_consent_scopes_keep_each_scope(scopes: Text)
    ensures
        words(consent_scopes(scopes)) == words(scopes).map_values(
            |scope: Text| qualified_scope(scope),
        ),
        forall|i: int|
            0 <= i < words(consent_scopes(scopes)).len() ==> {
                let scope = #[trigger] words(consent_scopes(scopes))[i];
                begins_with(scope, "https://"@) || identity_scope(scope)
            },
{
    let given = words(scopes);
    let named = given.map_values(|scope: Text| qualified_scope(scope));
    lemma_words_are_solid(scopes);
    assert forall|i: int| 0 <= i < named.len() implies solid(#[trigger] named[i]) && named[i].len()
        > 0 && (begins_with(named[i], "https://"@) || identity_scope(named[i])) by {
        assert(solid(given[i]));
        lemma_qualified_scope(given[i]);
    }
    lemma_words_of_joined(named);
}

/// Qualifying scopes that are qualified already changes nothing.
pub proof fn law_consent_scopes_idempotent(scopes: Text)
    ensures
        consent_scopes(consent_scopes(scopes)) == consent_scopes(scopes),
{
    let given = words(scopes);
    let named = given.map_values(|scope: Text| qualified_scope(scope));
    law_consent_scopes_keep_each_scope(scopes);
    lemma_words_are_solid(scopes);
    assert forall|i: int| 0 <= i < named.len() implies qualified_scope(#[trigger] named[i])
        == named[i] by {
        assert(solid(given[i]));
        lemma_qualified_scope(given[i]);
    }
    assert(named.map_values(|scope: Text| qualified_scope(scope)) =~= named);
}

/// One client, tenant and redirect address: two consent URLs are the same only where they ask for
/// the same scopes.
pub proof fn law_consent_url_determines_scopes(
    client_id: Text,
    tenant_id: Text,
    redirect_uri: Text,
    scopes1: Text,
    scopes2: Text,
)
    requires
        consent_url(client_id, tenant_id, scopes1, redirect_uri) == consent_url(
            client_id,
            tenant_id,
            scopes2,
            redirect_uri,
        ),
    ensures
        consent_scopes(scopes1) == consent_scopes(scopes2),
{
    let front = "https://login.microsoftonline.com/"@ + tenant_id
        + "/v2.0/adminconsent?client_id="@ + client_id + "&scope="@;
    let url1 = consent_url(client_id, tenant_id, scopes1, redirect_uri);
    let url2 = consent_url(client_id, tenant_id, scopes2, redirect_uri);
    let e1 = percent_encoded(consent_scopes(scopes1));
    let e2 = percent_encoded(consent_scopes(scopes2));
    let back = "&redirect_uri="@ + percent_encoded(redirect_uri);
    assert(url1 =~= front + e1 + back);
    assert(url2 =~= front + e2 + back);
    assert(e1.len() == e2.len());
    assert(e1 =~= url1.subrange(front.len() as int, (front.len() + e1.len()) as int));
    assert(e2 =~= url2.subrange(front.len() as int, (front.len() + e2.len()) as int));
    law_encoding_is_injective(consent_scopes(scopes1), consent_scopes(scopes2));
}

/// A refusal that says that consent is missing keeps its text in front, and the guidance behind
/// it holds the consent command, with the scope override where there was one, and the command
/// for an interactive login.
pub proof fn law_guidance_keeps_the_refusal_and_names_the_commands(
    message: Text,
    profile: Text,
    requested_scopes: Option<Text>,
)
    requires
        lacks_consent(message),
    ensures
        annotated(TeamsError::AuthError(message), profile, requested_scopes) matches TeamsError::AuthError(
            shown,
        ) && begins_with(shown, message) && has(
            shown,
            "`"@ + consent_command(profile, requested_scopes) + "`"@,
        ) && has(shown, "`teams --profile "@ + profile + " auth login`"@) && (
        requested_scopes matches Some(scopes) ==> has(
            shown,
            " auth consent-url --scopes \""@ + scopes + "\""@,
        )),
{
    reveal_strlit("`");
    reveal_strlit("` for the URL) and retry, or run `teams --profile ");
    reveal_strlit("`teams --profile ");
    reveal_strlit(" auth login` for interactive consent.");
    reveal_strlit(" auth login`");
    reveal_strlit(
        "\n\nThe requested scopes have not been consented for this app. Grant admin consent (run `",
    );
    let lead =
        "\n\nThe requested scopes have not been consented for this app. Grant admin consent (run `"@;
    let command = consent_command(profile, requested_scopes);
    let middle = "` for the URL) and retry, or run `teams --profile "@;
    let close = " auth login` for interactive consent."@;
    let shown = message + consent_guidance(profile, requested_scopes);
    assert(shown.take(message.len() as int) =~= message);
    let at = message.len() + lead.len();
    let quoted = "`"@ + command + "`"@;
    assert(shown.subrange(at - 1, at - 1 + quoted.len()) =~= quoted);
    assert(stands_at(shown, quoted, at - 1));
    let login = "`teams --profile "@ + profile + " auth login`"@;
    let from = at + command.len() + middle.len() - 17;
    assert("`teams --profile "@ =~= middle.skip(middle.len() - 17));
    assert(close.take(12) =~= " auth login`"@);
    assert(shown.subrange(from, from + login.len()) =~= login);
    assert(stands_at(shown, login, from));
    if let Some(scopes) = requested_scopes {
        let named = " auth consent-url --scopes \""@ + scopes + "\""@;
        let start = (at + "teams --profile "@.len() + profile.len()) as int;
        assert(shown.subrange(start, start + named.len()) =~= named);
        assert(stands_at(shown, named, start));
    }
}

/// Any failure but an identity platform's refusal for missing consent is shown as it is.
pub proof fn law_other_failures_are_shown_as_they_are(
    error: TeamsError<Text>,
    profile: Text,
    requested_scopes: Option<Text>,
)
    requires
        error matches TeamsError::AuthError(message) ==> !lacks_consent(message),
    ensures
        annotated(error, profile, requested_scopes) == error,
{
}

/// Nowhere in `s` does `--s` begin, not even at its end.
spec fn starts_no_scopes_flag(s: Text) -> bool {
    forall|k: int|
        0 <= k < s.len() && #[trigger] s[k] == '-' ==> k + 2 < s.len() && (s[k + 1] != '-' || s[k
            + 2] != 's')
}

proof fn lemma_guidance_starts_no_scopes_flag()
    ensures
        starts_no_scopes_flag(
            "\n\nThe requested scopes have not been consented for this app. Grant admin consent (run `"@,
        ),
        starts_no_scopes_flag("teams --profile "@),
        starts_no_scopes_flag(" auth consent-url"@),
        starts_no_scopes_flag("` for the URL) and retry, or run `teams --profile "@),
        starts_no_scopes_flag(" auth login` for interactive consent."@),
{
    reveal_strlit(
        "\n\nThe requested scopes have not been consented for this app. Grant admin consent (run `",
    );
    reveal_strlit("teams --profile ");
    reveal_strlit(" auth consent-url");
    reveal_strlit("` for the URL) and retry, or run `teams --profile ");
    reveal_strlit(" auth login` for interactive consent.");
}

/// The flag does not begin in a text that does not hold it, where a character that the flag has
/// not got stands right behind that text.
proof fn lemma_flag_crosses_no_border(front: Text, part: Text, back: Text, i: int)
    requires
        !(has(part, "--scopes"@)),
        back.len() > 0,
        back[0] == ' ' || back[0] == '\n' || back[0] == '`',
        front.len() <= i < front.len() + part.len(),
    ensures
        !stands_at(front + part + back, "--scopes"@, i),
{
    reveal_strlit("--scopes");
    let flag = "--scopes"@;
    let s = front + part + back;
    if stands_at(s, flag, i) {
        let window = s.subrange(i, i + 8);
        let at = i - front.len();
        if at + 8 <= part.len() {
            assert(part.subrange(at, at + 8) =~= window);
            assert(stands_at(part, flag, at));
        } else {
            let border = part.len() - at;
            assert(window[border] == back[0]);
            assert(flag[border] == back[0]);
        }
    }
}

/// The flag does not begin in a text in which `--s` does not.
proof fn lemma_flag_starts_elsewhere(front: Text, part: Text, back: Text, i: int)
    requires
        starts_no_scopes_flag(part),
        front.len() <= i < front.len() + part.len(),
    ensures
        !stands_at(front + part + back, "--scopes"@, i),
{
    reveal_strlit("--scopes");
    let flag = "--scopes"@;
    let s = front + part + back;
    if stands_at(s, flag, i) {
        let window = s.subrange(i, i + 8);
        let k = i - front.len();
        assert(window[0] == part[k]);
        assert(window[1] == part[k + 1]);
        assert(window[2] == part[k + 2]);
    }
}

/// Where no scopes were asked for explicitly, the guidance speaks of no `--scopes` flag, unless
/// the refusal or the name of the profile does.
pub proof fn law_guidance_without_override_has_no_scopes_flag(message: Text, profile: Text)
    requires
        lacks_consent(message),
        !(has(message, "--scopes"@)),
        !(has(profile, "--scopes"@)),
    ensures
        annotated(TeamsError::AuthError(message), profile, None) matches TeamsError::AuthError(shown)
            && !(has(shown, "--scopes"@)),
{
    reveal_strlit(
        "\n\nThe requested scopes have not been consented for this app. Grant admin consent (run `",
    );
    reveal_strlit(" auth consent-url");
    reveal_strlit(" auth login` for interactive consent.");
    reveal_strlit("--scopes");
    let lead =
        "\n\nThe requested scopes have not been consented for this app. Grant admin consent (run `"@;
    let call = "teams --profile "@;
    let verb = " auth consent-url"@;
    let middle = "` for the URL) and retry, or run `teams --profile "@;
    let close = " auth login` for interactive consent."@;
    let shown = message + consent_guidance(profile, None);
    lemma_guidance_starts_no_scopes_flag();
    let p1 = message + lead;
    let p2 = p1 + call;
    let p3 = p2 + profile;
    let p4 = p3 + verb;
    let p5 = p4 + middle;
    let p6 = p5 + profile;
    let b6 = close;
    let b5 = profile + b6;
    let b4 = middle + b5;
    let b3 = verb + b4;
    let b2 = profile + b3;
    let b1 = call + b2;
    let b0 = lead + b1;
    let empty = Seq::<char>::empty();
    assert(shown =~= empty + message + b0);
    assert(shown =~= message + lead + b1);
    assert(shown =~= p1 + call + b2);
    assert(shown =~= p2 + profile + b3);
    assert(shown =~= p3 + verb + b4);
    assert(shown =~= p4 + middle + b5);
    assert(shown =~= p5 + profile + b6);
    assert(shown =~= p6 + close + empty);
    assert forall|i: int| !#[trigger] stands_at(shown, "--scopes"@, i) by {
        if 0 <= i < message.len() {
            lemma_flag_crosses_no_border(empty, message, b0, i);
        } else if message.len() <= i < p1.len() {
            lemma_flag_starts_elsewhere(message, lead, b1, i);
        } else if p1.len() <= i < p2.len() {
            lemma_flag_starts_elsewhere(p1, call, b2, i);
        } else if p2.len() <= i < p3.len() {
            lemma_flag_crosses_no_border(p2, profile, b3, i);
        } else if p3.len() <= i < p4.len() {
            lemma_flag_starts_elsewhere(p3, verb, b4, i);
        } else if p4.len() <= i < p5.len() {
            lemma_flag_starts_elsewhere(p4, middle, b5, i);
        } else if p5.len() <= i < p6.len() {
            lemma_flag_crosses_no_border(p5, profile, b6, i);
        } else if p6.len() <= i < shown.len() {
            lemma_flag_starts_elsewhere(p6, close, empty, i);
        }
    }
}

/// A scope that is one word, neither absolute nor one of the identity platform's own, is asked for
/// as the permission of Microsoft Graph by that whole name; so two such scopes are never named
/// alike.
pub proof fn law_graph_scope_is_named_whole(scope: Text, other: Text)
    requires
        solid(scope),
        scope.len() > 0,
        !(scope.len() >= 8 && scope.take(8) == "https://"@),
        scope != "openid"@ && scope != "profile"@ && scope != "email"@ && scope
            != "offline_access"@,
    ensures
        consent_scopes(scope) == "https://graph.microsoft.com/"@ + scope,
        consent_scopes(scope).skip("https://graph.microsoft.com/"@.len() as int) == scope,
        solid(other) && other.len() > 0 && !(other.len() >= 8 && other.take(8) == "https://"@)
            && other != "openid"@ && other != "profile"@ && other != "email"@ && other
            != "offline_access"@ && consent_scopes(other) == consent_scopes(scope) ==> other
            == scope,
{
    lemma_consent_scope_of_word(scope);
    let graph = "https://graph.microsoft.com/"@;
    assert((graph + scope).skip(graph.len() as int) =~= scope);
    if solid(other) && other.len() > 0 && !(other.len() >= 8 && other.take(8) == "https://"@) && other
        != "openid"@ && other != "profile"@ && other != "email"@ && other != "offline_access"@ {
        lemma_consent_scope_of_word(other);
        assert((graph + other).skip(graph.len() as int) =~= other);
    }
}

proof fn lemma_consent_scope_of_word(scope: Text)
    requires
        solid(scope),
        scope.len() > 0,
    ensures
        consent_scopes(scope) == if (scope.len() >= 8 && scope.take(8) == "https://"@) || scope
            == "openid"@ || scope == "profile"@ || scope == "email"@ || scope == "offline_access"@ {
            scope
        } else {
            "https://graph.microsoft.com/"@ + scope
        },
{
    reveal_strlit("https://");
    law_solid_text_is_one_word(scope);
    let named = words(scope).map_values(|scope: Text| qualified_scope(scope));
    assert(named =~= seq![qualified_scope(scope)]);
    assert(joined(named, " "@) == qualified_scope(scope));
}

/// An absolute scope, and a scope of the identity platform's own, is asked for as it is.
pub proof fn law_other_scopes_are_named_as_they_are(scope: Text)
    requires
        solid(scope),
        (scope.len() >= 8 && scope.take(8) == "https://"@) || scope == "openid"@ || scope
            == "profile"@ || scope == "email"@ || scope == "offline_access"@,
    ensures
        consent_scopes(scope) == scope,
{
    reveal_strlit("openid");
    reveal_strlit("profile");
    reveal_strlit("email");
    reveal_strlit("offline_access");
    lemma_consent_scope_of_word(scope);
}

/// Scopes are asked for one by one, in the order in which they were given, whatever white space is
/// between them, and with one space between; and where none are given, none are asked for.
pub proof fn law_scopes_are_named_one_by_one(a: Text, gap: Text, b: Text)
    requires
        blank(gap),
    ensures
        consent_scopes(gap).len() == 0,
        consent_scopes(gap + b) == consent_scopes(b),
        consent_scopes(a + gap) == consent_scopes(a),
        gap.len() > 0 && !blank(a) && !blank(b) ==> consent_scopes(a + gap + b) == consent_scopes(a)
            + " "@ + consent_scopes(b),
{
    let named = |s: Text| words(s).map_values(|scope: Text| qualified_scope(scope));
    let none = Seq::<char>::empty();
    law_blank_has_no_words(gap);
    law_blank_has_no_words(none);
    assert(named(gap) =~= Seq::<Text>::empty());
    assert(none + gap + b =~= gap + b);
    assert(a + gap + none =~= a + gap);
    if gap.len() > 0 {
        law_white_space_parts_words(none, gap, b);
        law_white_space_parts_words(a, gap, none);
        law_white_space_parts_words(a, gap, b);
        assert(words(gap + b) =~= words(b));
        assert(words(a + gap) =~= words(a));
        law_blank_has_no_words(a);
        law_blank_has_no_words(b);
        if !blank(a) && !blank(b) {
            assert(named(a + gap + b) =~= named(a) + named(b));
            law_joined_lists_are_separated_once(named(a), named(b), " "@);
        }
    } else {
        assert(gap + b =~= b);
        assert(a + gap =~= a);
    }
}

/// The consent URL is an address of the identity platform under the tenant, and its query names
/// the client, the scopes and the redirect address, each under its own name and nothing else: no
/// scope and no redirect address, however written, adds a parameter.
pub proof fn law_consent_url_as_it_is_read(
    client_id: Text,
    tenant_id: Text,
    scopes: Text,
    redirect_uri: Text,
)
    ensures
        ({
            let url = consent_url(client_id, tenant_id, scopes, redirect_uri);
            let address = "https://login.microsoftonline.com/"@ + tenant_id
                + "/v2.0/adminconsent?"@;
            let query = url.skip(address.len() as int);
            &&& begins_with(url, address)
            &&& begins_with(query, "client_id="@ + client_id + "&scope="@)
            &&& query.skip(("client_id="@ + client_id + "&scope="@).len() as int) == percent_encoded(
                consent_scopes(scopes),
            ) + "&redirect_uri="@ + percent_encoded(redirect_uri)
            &&& !client_id.contains('&') ==> cut(query, '&') == seq![
                "client_id="@ + client_id,
                "scope="@ + percent_encoded(consent_scopes(scopes)),
                "redirect_uri="@ + percent_encoded(redirect_uri),
            ]
        }),
{
    reveal_strlit("https://login.microsoftonline.com/");
    reveal_strlit("/v2.0/adminconsent?client_id=");
    reveal_strlit("/v2.0/adminconsent?");
    reveal_strlit("client_id=");
    reveal_strlit("&scope=");
    reveal_strlit("scope=");
    reveal_strlit("&redirect_uri=");
    reveal_strlit("redirect_uri=");
    let url = consent_url(client_id, tenant_id, scopes, redirect_uri);
    let address = "https://login.microsoftonline.com/"@ + tenant_id + "/v2.0/adminconsent?"@;
    let query = url.skip(address.len() as int);
    let first = "client_id="@ + client_id;
    let second = "scope="@ + percent_encoded(consent_scopes(scopes));
    let third = "redirect_uri="@ + percent_encoded(redirect_uri);
    assert("/v2.0/adminconsent?client_id="@ =~= "/v2.0/adminconsent?"@ + "client_id="@);
    assert("&scope="@ =~= seq!['&'] + "scope="@);
    assert("&redirect_uri="@ =~= seq!['&'] + "redirect_uri="@);
    let rest = second + seq!['&'] + third;
    assert(url =~= address + (first + seq!['&'] + rest));
    assert(url.take(address.len() as int) =~= address);
    assert(query =~= first + seq!['&'] + rest);
    let opening = "client_id="@ + client_id + "&scope="@;
    assert(query.take(opening.len() as int) =~= opening);
    assert(query.skip(opening.len() as int) =~= percent_encoded(consent_scopes(scopes))
        + "&redirect_uri="@ + percent_encoded(redirect_uri));
    if !client_id.contains('&') {
        lemma_no_ampersand("client_id="@, client_id);
        lemma_encoded_has_no_ampersand(consent_scopes(scopes));
        lemma_no_ampersand("scope="@, percent_encoded(consent_scopes(scopes)));
        lemma_encoded_has_no_ampersand(redirect_uri);
        lemma_no_ampersand("redirect_uri="@, percent_encoded(redirect_uri));
        lemma_cut_behind(first, '&', rest);
        lemma_cut_behind(second, '&', third);
        lemma_cut_behind(third, '&', Seq::empty());
        assert(cut(query, '&') =~= seq![first, second, third]);
    }
}

proof fn lemma_no_ampersand(name: Text, value: Text)
    requires
        !name.contains('&'),
        !value.contains('&'),
    ensures
        !(name + value).contains('&'),
{
    if (name + value).contains('&') {
        let i = choose|i: int| 0 <= i < (name + value).len() && (name + value)[i] == '&';
        if i < name.len() {
            assert(name[i] == '&');
        } else {
            assert(value[i - name.len()] == '&');
        }
    }
}

proof fn lemma_encoded_has_no_ampersand(s: Text)
    ensures
        !percent_encoded(s).contains('&'),
{
    law_encoded_values_are_query_safe(s);
    assert forall|i: int| 0 <= i < percent_encoded(s).len() implies percent_encoded(s)[i] != '&' by {
        assert(query_safe(percent_encoded(s)[i]));
    }
}

/// Guidance is added to a refusal of the identity platform that speaks of `AADSTS65001` or of
/// `consent_required`, and to nothing else.
pub proof fn law_guidance_is_for_missing_consent_alone(
    error: TeamsError<Text>,
    profile: Text,
    requested_scopes: Option<Text>,
)
    ensures
        annotated(error, profile, requested_scopes) != error <==> (error matches TeamsError::AuthError(
            message,
        ) && (has(message, "AADSTS65001"@) || has(message, "consent_required"@))),
        annotated(error, profile, requested_scopes) is AuthError <==> error is AuthError,
{
    reveal_strlit(
        "\n\nThe requested scopes have not been consented for this app. Grant admin consent (run `",
    );
    if let TeamsError::AuthError(message) = error {
        assert((message + consent_guidance(profile, requested_scopes)).len() > message.len());
    }
}

/// What the user reads where consent is missing: the refusal, then the command that prints the
/// consent URL, for the profile and with the scopes that were asked for, then the command for an
/// interactive login of the profile.
pub proof fn law_guidance_as_it_is_read(message: Text, profile: Text, scopes: Text)
    requires
        has(message, "AADSTS65001"@) || has(message, "consent_required"@),
    ensures
        annotated(TeamsError::AuthError(message), profile, None) matches TeamsError::AuthError(shown)
            && shown == message
            + "\n\nThe requested scopes have not been consented for this app. Grant admin consent (run `"@
            + "teams --profile "@ + profile + " auth consent-url"@
            + "` for the URL) and retry, or run `teams --profile "@ + profile
            + " auth login` for interactive consent."@,
        annotated(TeamsError::AuthError(message), profile, Some(scopes)) matches TeamsError::AuthError(
            shown,
        ) && shown == message
            + "\n\nThe requested scopes have not been consented for this app. Grant admin consent (run `"@
            + "teams --profile "@ + profile + " auth consent-url --scopes \""@ + scopes + "\""@
            + "` for the URL) and retry, or run `teams --profile "@ + profile
            + " auth login` for interactive consent."@,
{
    let lead =
        "\n\nThe requested scopes have not been consented for this app. Grant admin consent (run `"@;
    let middle = "` for the URL) and retry, or run `teams --profile "@;
    let close = " auth login` for interactive consent."@;
    let call = "teams --profile "@;
    let plain = " auth consent-url"@;
    let named = " auth consent-url --scopes \""@;
    assert(message + consent_guidance(profile, None) =~= message + lead + call + profile + plain
        + middle + profile + close);
    assert(message + consent_guidance(profile, Some(scopes)) =~= message + lead + call + profile
        + named + scopes + "\""@ + middle + profile + close);
}

} // verus!
