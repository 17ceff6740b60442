//! Text as sequences of characters: trimming, word splitting, joining and searching.

use vstd::prelude::*;

verus! {

/// The characters of a text.
pub type Text = Seq<char>;

/// The characters of each text of a list.
pub type Texts = Seq<Seq<char>>;

/// The code points with the Unicode `White_Space` property.
pub open spec fn white_space(c: char) -> bool {
    ||| '\u{9}' <= c <= '\u{d}'
    ||| c == ' '
    ||| c == '\u{85}'
    ||| c == '\u{a0}'
    ||| c == '\u{1680}'
    ||| '\u{2000}' <= c <= '\u{200a}'
    ||| c == '\u{2028}'
    ||| c == '\u{2029}'
    ||| c == '\u{202f}'
    ||| c == '\u{205f}'
    ||| c == '\u{3000}'
}

/// `char::is_whitespace` of the standard library: true exactly on the code points that the
/// Unicode Character Database lists under `White_Space`.
pub assume_specification[ char::is_whitespace ](c: char) -> (r: bool)
    ensures
        r == white_space(c),
;

/// No character of `s` is white space.
pub open spec fn solid(s: Text) -> bool {
    forall|i: int| 0 <= i < s.len() ==> !white_space(#[trigger] s[i])
}

/// Every character of `s` is white space.
pub open spec fn blank(s: Text) -> bool {
    forall|i: int| 0 <= i < s.len() ==> white_space(#[trigger] s[i])
}

/// `s` without the white space at its start.
pub open spec fn trim_start(s: Text) -> Text
    decreases s.len(),
{
    if s.len() > 0 && white_space(s[0]) {
        trim_start(s.skip(1))
    } else {
        s
    }
}

/// `s` without the white space at its end.
pub open spec fn trim_end(s: Text) -> Text
    decreases s.len(),
{
    if s.len() > 0 && white_space(s.last()) {
        trim_end(s.drop_last())
    } else {
        s
    }
}

/// `s` without the white space at either end.
pub open spec fn trimmed(s: Text) -> Text {
    trim_end(trim_start(s))
}

/// The length of the longest solid prefix of `s`.
pub open spec fn word_len(s: Text) -> nat
    decreases s.len(),
{
    if s.len() > 0 && !white_space(s[0]) {
        1 + word_len(s.skip(1))
    } else {
        0
    }
}

/// The words of `s`: its maximal solid stretches, in order.
pub open spec fn words(s: Text) -> Texts
    decreases s.len(),
{
    if s.len() == 0 {
        Seq::empty()
    } else if white_space(s[0]) {
        words(s.skip(1))
    } else {
        let n = word_len(s);
        if 0 < n <= s.len() {
            seq![s.take(n as int)] + words(s.skip(n as int))
        } else {
            Seq::empty()
        }
    }
}

/// The texts of `parts` one after the other, with `sep` between neighbours.
pub open spec fn joined(parts: Texts, sep: Text) -> Text
    decreases parts.len(),
{
    if parts.len() == 0 {
        Seq::empty()
    } else if parts.len() == 1 {
        parts[0]
    } else {
        parts[0] + sep + joined(parts.skip(1), sep)
    }
}

/// `s` begins with `prefix`.
pub open spec fn begins_with(s: Text, prefix: Text) -> bool {
    prefix.len() <= s.len() && s.take(prefix.len() as int) == prefix
}

/// `pat` stands in `s` at position `i`.
pub open spec fn stands_at(s: Text, pat: Text, i: int) -> bool {
    0 <= i && i + pat.len() <= s.len() && s.subrange(i, i + pat.len()) == pat
}

/// `pat` stands somewhere in `s`.
pub open spec fn has(s: Text, pat: Text) -> bool {
    exists|i: int| #[trigger] stands_at(s, pat, i)
}

/// `s` cut at each `sep`; the separators belong to no part.
pub open spec fn cut(s: Text, sep: char) -> Texts
    decreases s.len(),
{
    if s.len() == 0 {
        seq![Seq::empty()]
    } else if s[0] == sep {
        seq![Seq::<char>::empty()] + cut(s.skip(1), sep)
    } else {
        let rest = cut(s.skip(1), sep);
        rest.update(0, seq![s[0]] + rest[0])
    }
}

/// The characters of `s`, in order.
pub fn chars_of(s: &str) -> (r: Vec<char>)
    ensures
        r@ == s@,
{
    let mut r: Vec<char> = Vec::new();
    for c in it: s.chars()
        invariant
            r@ == it.seq().take(it.index() as int),
    {
        r.push(c);
    }
    r
}

/// `a` and `b` hold the same characters.
pub fn same(a: &str, b: &str) -> (r: bool)
    ensures
        r == (a@ == b@),
{
    a.to_owned() == b.to_owned()
}

/// `s` without the white space at either end.
pub fn trim<'a>(s: &'a str) -> (r: &'a str)
    ensures
        r@ == trimmed(s@),
{
    let chars = chars_of(s);
    let mut i: usize = 0;
    assert(s@.skip(0) =~= s@);
    while i < chars.len() && chars[i].is_whitespace()
        invariant
            chars@ == s@,
            i <= s@.len(),
            trim_start(s@) == trim_start(s@.skip(i as int)),
        decreases s@.len() - i,
    {
        assert(s@.skip(i as int).skip(1) =~= s@.skip(i + 1));
        i = i + 1;
    }
    let mut j: usize = chars.len();
    assert(s@.subrange(i as int, j as int) =~= s@.skip(i as int));
    while i < j && chars[j - 1].is_whitespace()
        invariant
            chars@ == s@,
            i <= j <= s@.len(),
            trimmed(s@) == trim_end(s@.subrange(i as int, j as int)),
        decreases j,
    {
        assert(s@.subrange(i as int, j as int).drop_last() =~= s@.subrange(i as int, j - 1));
        j = j - 1;
    }
    s.substring_char(i, j)
}

/// What is left behind white space at the start begins with no white space; it is empty exactly
/// where there was nothing else.
proof fn lemma_trim_start(s: Text)
    ensures
        trim_start(s).len() > 0 ==> !white_space(trim_start(s)[0]),
        trim_start(s).len() == 0 <==> blank(s),
    decreases s.len(),
{
    if s.len() > 0 && white_space(s[0]) {
        lemma_trim_start(s.skip(1));
        assert(blank(s) ==> blank(s.skip(1)));
        if blank(s.skip(1)) {
            assert forall|i: int| 0 <= i < s.len() implies white_space(#[trigger] s[i]) by {
                if i > 0 {
                    assert(s[i] == s.skip(1)[i - 1]);
                }
            }
        }
    }
}

/// What is left before white space at the end is a prefix that ends with no white space.
proof fn lemma_trim_end(s: Text)
    ensures
        trim_end(s).len() <= s.len(),
        trim_end(s) == s.take(trim_end(s).len() as int),
        trim_end(s).len() > 0 ==> !white_space(trim_end(s).last()),
    decreases s.len(),
{
    if s.len() > 0 && white_space(s.last()) {
        lemma_trim_end(s.drop_last());
        let n = trim_end(s).len() as int;
        assert(s.drop_last().take(n) =~= s.take(n));
    } else {
        assert(s.take(s.len() as int) =~= s);
    }
}

/// A trimmed text has no white space at either end.
pub proof fn lemma_trimmed_ends(s: Text)
    ensures
        trimmed(s).len() > 0 ==> !white_space(trimmed(s)[0]) && !white_space(trimmed(s).last()),
{
    let t = trim_start(s);
    lemma_trim_start(s);
    lemma_trim_end(t);
    if trimmed(s).len() > 0 {
        assert(trimmed(s)[0] == t[0]);
    }
}

/// Nothing is left of a text when it is trimmed exactly where it is blank.
pub proof fn lemma_trimmed_empty(s: Text)
    ensures
        trimmed(s).len() == 0 <==> blank(s),
{
    let t = trim_start(s);
    lemma_trim_start(s);
    if t.len() > 0 {
        lemma_trim_end_some(t);
    }
}

/// Trimming at the end never reaches a start that is not white space.
proof fn lemma_trim_end_some(s: Text)
    requires
        s.len() > 0,
        !white_space(s[0]),
    ensures
        trim_end(s).len() > 0,
    decreases s.len(),
{
    if white_space(s.last()) {
        assert(s.len() > 1);
        lemma_trim_end_some(s.drop_last());
    }
}

/// Trimming leaves a text without white space at its ends as it is.
pub proof fn lemma_trimmed_fixed(s: Text)
    requires
        s.len() > 0 ==> !white_space(s[0]) && !white_space(s.last()),
    ensures
        trimmed(s) == s,
{
}

proof fn lemma_trim_start_front(front: Text, s: Text)
    requires
        blank(front),
    ensures
        trim_start(front + s) == trim_start(s),
    decreases front.len(),
{
    if front.len() > 0 {
        assert(white_space(front[0]));
        assert((front + s).skip(1) =~= front.skip(1) + s);
        assert(blank(front.skip(1)));
        lemma_trim_start_front(front.skip(1), s);
    } else {
        assert(front + s =~= s);
    }
}

proof fn lemma_trim_start_back(s: Text, back: Text)
    requires
        !blank(s),
    ensures
        trim_start(s + back) == trim_start(s) + back,
    decreases s.len(),
{
    assert(s.len() > 0);
    if white_space(s[0]) {
        assert((s + back).skip(1) =~= s.skip(1) + back);
        if blank(s.skip(1)) {
            assert forall|i: int| 0 <= i < s.len() implies white_space(#[trigger] s[i]) by {
                if i > 0 {
                    assert(s[i] == s.skip(1)[i - 1]);
                }
            }
        }
        lemma_trim_start_back(s.skip(1), back);
    }
}

proof fn lemma_trim_end_back(s: Text, back: Text)
    requires
        blank(back),
    ensures
        trim_end(s + back) == trim_end(s),
    decreases back.len(),
{
    if back.len() > 0 {
        assert(white_space(back.last()));
        assert((s + back).drop_last() =~= s + back.drop_last());
        assert(blank(back.drop_last()));
        lemma_trim_end_back(s, back.drop_last());
    } else {
        assert(s + back =~= s);
    }
}

/// White space around a text makes no difference to its trimmed form.
pub proof fn lemma_trimmed_around(front: Text, s: Text, back: Text)
    requires
        blank(front),
        blank(back),
    ensures
        trimmed(front + s + back) == trimmed(s),
{
    assert(front + s + back =~= front + (s + back));
    lemma_trim_start_front(front, s + back);
    if blank(s) {
        assert(blank(s + back));
        lemma_trim_start(s);
        lemma_trim_start(s + back);
        assert(trim_start(s + back) =~= trim_start(s));
    } else {
        lemma_trim_start_back(s, back);
        lemma_trim_end_back(trim_start(s), back);
    }
}

/// The words of `s`: its maximal solid stretches, in order.
pub fn split_words<'a>(s: &'a str) -> (r: Vec<&'a str>)
    ensures
        r.deep_view() == words(s@),
{
    let chars = chars_of(s);
    let mut r: Vec<&'a str> = Vec::new();
    let mut i: usize = 0;
    assert(s@.skip(0) =~= s@);
    assert(r.deep_view() + words(s@) =~= words(s@));
    while i < chars.len()
        invariant
            chars@ == s@,
            i <= s@.len(),
            words(s@) == r.deep_view() + words(s@.skip(i as int)),
        decreases s@.len() - i,
    {
        let ghost rest = s@.skip(i as int);
        if chars[i].is_whitespace() {
            assert(rest.skip(1) =~= s@.skip(i + 1));
            i = i + 1;
        } else {
            let mut j: usize = i;
            assert(rest.skip(0) =~= rest);
            while j < chars.len() && !chars[j].is_whitespace()
                invariant
                    chars@ == s@,
                    rest == s@.skip(i as int),
                    i <= j <= s@.len(),
                    word_len(rest) == j - i + word_len(s@.skip(j as int)),
                decreases s@.len() - j,
            {
                assert(s@.skip(j as int).skip(1) =~= s@.skip(j + 1));
                j = j + 1;
            }
            assert(word_len(rest) == j - i);
            assert(j > i);
            let ghost before = r.deep_view();
            let word = s.substring_char(i, j);
            r.push(word);
            assert(rest.take(j - i) =~= word@);
            assert(rest.skip(j - i) =~= s@.skip(j as int));
            assert(r.deep_view() =~= before.push(word@));
            assert(r.deep_view() + words(s@.skip(j as int)) =~= before + (seq![word@] + words(
                s@.skip(j as int),
            )));
            i = j;
        }
    }
    assert(r.deep_view() + words(s@.skip(i as int)) =~= r.deep_view());
    r
}

/// Adding one more part at the end.
proof fn lemma_joined_push(parts: Texts, last: Text, sep: Text)
    requires
        parts.len() > 0,
    ensures
        joined(parts.push(last), sep) == joined(parts, sep) + sep + last,
    decreases parts.len(),
{
    if parts.len() == 1 {
        assert(parts.push(last).skip(1) =~= seq![last]);
        assert(joined(seq![last], sep) == last);
    } else {
        lemma_joined_push(parts.skip(1), last, sep);
        assert(parts.push(last).skip(1) =~= parts.skip(1).push(last));
        assert(joined(parts.push(last), sep) =~= joined(parts, sep) + sep + last);
    }
}

/// Every word is solid and holds at least one character.
pub proof fn lemma_words_are_solid(s: Text)
    ensures
        forall|i: int|
            0 <= i < words(s).len() ==> solid(#[trigger] words(s)[i]) && words(s)[i].len() > 0,
    decreases s.len(),
{
    if s.len() > 0 {
        if white_space(s[0]) {
            lemma_words_are_solid(s.skip(1));
            assert(words(s) == words(s.skip(1)));
        } else {
            lemma_word_len(s);
            let n = word_len(s);
            let rest = s.skip(n as int);
            lemma_words_are_solid(rest);
            assert forall|i: int| 0 <= i < words(s).len() implies solid(#[trigger] words(s)[i])
                && words(s)[i].len() > 0 by {
                if i > 0 {
                    assert(words(s)[i] == words(rest)[i - 1]);
                }
            }
        }
    }
}

/// The longest solid prefix is solid, and what follows it begins with white space.
proof fn lemma_word_len(s: Text)
    ensures
        word_len(s) <= s.len(),
        solid(s.take(word_len(s) as int)),
        word_len(s) < s.len() ==> white_space(s[word_len(s) as int]),
    decreases s.len(),
{
    if s.len() > 0 && !white_space(s[0]) {
        lemma_word_len(s.skip(1));
        let n = word_len(s);
        assert forall|i: int| 0 <= i < n implies !white_space(#[trigger] s.take(n as int)[i]) by {
            if i > 0 {
                assert(s.take(n as int)[i] == s.skip(1).take(n - 1)[i - 1]);
            }
        }
    }
}

/// The longest solid prefix of a solid text followed by white space, or by nothing, is that text.
proof fn lemma_word_len_exact(w: Text, rest: Text)
    requires
        solid(w),
        rest.len() > 0 ==> white_space(rest[0]),
    ensures
        word_len(w + rest) == w.len(),
    decreases w.len(),
{
    if w.len() > 0 {
        assert(!white_space(w[0]));
        assert((w + rest).skip(1) =~= w.skip(1) + rest);
        assert forall|i: int| 0 <= i < w.skip(1).len() implies !white_space(
            #[trigger] w.skip(1)[i],
        ) by {
            assert(w.skip(1)[i] == w[i + 1]);
        }
        lemma_word_len_exact(w.skip(1), rest);
    } else {
        assert(w + rest =~= rest);
    }
}

/// Joining solid texts with single spaces and splitting the result gives those texts back.
pub proof fn lemma_words_of_joined(parts: Texts)
    requires
        forall|i: int| 0 <= i < parts.len() ==> solid(#[trigger] parts[i]) && parts[i].len() > 0,
    ensures
        words(joined(parts, " "@)) == parts,
    decreases parts.len(),
{
    reveal_strlit(" ");
    if parts.len() == 0 {
        assert(words(joined(parts, " "@)) =~= parts);
    } else {
        let w = parts[0];
        let tail = parts.skip(1);
        let rest = if parts.len() == 1 {
            Seq::<char>::empty()
        } else {
            " "@ + joined(tail, " "@)
        };
        let s = joined(parts, " "@);
        assert(s =~= w + rest);
        assert forall|i: int| 0 <= i < tail.len() implies solid(#[trigger] tail[i]) && tail[i].len()
            > 0 by {
            assert(tail[i] == parts[i + 1]);
        }
        lemma_words_of_joined(tail);
        lemma_word_len_exact(w, rest);
        assert(!white_space(w[0]));
        assert(s.take(w.len() as int) =~= w);
        assert(s.skip(w.len() as int) =~= rest);
        if parts.len() > 1 {
            assert(rest.skip(1) =~= joined(tail, " "@));
        } else {
            assert(tail =~= Seq::empty());
        }
        assert(words(rest) == tail);
        assert(seq![w] + tail =~= parts);
    }
}

/// The texts of `parts` one after the other, with `sep` between neighbours.
pub fn join(parts: &Vec<String>, sep: &str) -> (r: String)
    ensures
        r@ == joined(parts.deep_view(), sep@),
{
    let mut r = String::new();
    let mut i: usize = 0;
    while i < parts.len()
        invariant
            i <= parts.len(),
            r@ == joined(parts.deep_view().take(i as int), sep@),
        decreases parts.len() - i,
    {
        let ghost done = parts.deep_view().take(i as int);
        if i > 0 {
            r.append(sep);
        }
        r.append(parts[i].as_str());
        proof {
            assert(parts.deep_view().take(i + 1) =~= done.push(parts[i as int]@));
            if i > 0 {
                lemma_joined_push(done, parts[i as int]@, sep@);
            } else {
                assert(r@ =~= parts[0]@);
            }
        }
        i = i + 1;
    }
    assert(parts.deep_view().take(i as int) =~= parts.deep_view());
    r
}

/// `s` begins with `prefix`.
pub fn starts_with(s: &str, prefix: &str) -> (r: bool)
    ensures
        r == begins_with(s@, prefix@),
{
    let n: usize = prefix.unicode_len();
    if s.unicode_len() < n {
        return false;
    }
    assert(s@.subrange(0, n as int) =~= s@.take(n as int));
    same(s.substring_char(0, n), prefix)
}

/// What stands behind `prefix` in `s`, where `s` begins with it.
pub fn strip_prefix<'a>(s: &'a str, prefix: &str) -> (r: Option<&'a str>)
    ensures
        r.deep_view() == if begins_with(s@, prefix@) {
            Some(s@.skip(prefix@.len() as int))
        } else {
            None
        },
{
    if starts_with(s, prefix) {
        let rest = s.substring_char(prefix.unicode_len(), s.unicode_len());
        assert(rest@ =~= s@.skip(prefix@.len() as int));
        Some(rest)
    } else {
        None
    }
}

/// `pat` stands somewhere in `s`.
pub fn contains(s: &str, pat: &str) -> (r: bool)
    ensures
        r == has(s@, pat@),
{
    let chars = chars_of(s);
    let wanted = chars_of(pat);
    if chars.len() < wanted.len() {
        return false;
    }
    let places: usize = chars.len() - wanted.len();
    let mut i: usize = 0;
    loop
        invariant
            chars@ == s@,
            wanted@ == pat@,
            i <= places == chars.len() - wanted.len(),
            forall|k: int| 0 <= k < i ==> !#[trigger] stands_at(s@, pat@, k),
        decreases places - i,
    {
        let mut j: usize = 0;
        while j < wanted.len() && chars[i + j] == wanted[j]
            invariant
                chars@ == s@,
                wanted@ == pat@,
                i <= places == chars.len() - wanted.len(),
                j <= pat@.len(),
                forall|k: int| 0 <= k < j ==> s@[i + k] == #[trigger] pat@[k],
            decreases pat@.len() - j,
        {
            j = j + 1;
        }
        if j == wanted.len() {
            assert(s@.subrange(i as int, i + pat@.len()) =~= pat@);
            assert(stands_at(s@, pat@, i as int));
            return true;
        }
        assert(s@.subrange(i as int, i + pat@.len())[j as int] != pat@[j as int]);
        if i == places {
            return false;
        }
        i = i + 1;
    }
}

/// The parts of a cut text are never none.
proof fn lemma_cut_some(s: Text, sep: char)
    ensures
        cut(s, sep).len() > 0,
    decreases s.len(),
{
    if s.len() > 0 {
        lemma_cut_some(s.skip(1), sep);
    }
}

/// Cutting behind a text without the separator gives that text and the parts of what follows.
pub proof fn lemma_cut_behind(part: Text, sep: char, rest: Text)
    requires
        !part.contains(sep),
    ensures
        cut(part, sep) == seq![part],
        cut(part + seq![sep] + rest, sep) == seq![part] + cut(rest, sep),
    decreases part.len(),
{
    let s = part + seq![sep] + rest;
    if part.len() == 0 {
        assert(s.skip(1) =~= rest);
        assert(part =~= Seq::empty());
    } else {
        let tail = part.skip(1);
        assert(part.contains(part[0]));
        assert forall|c: char| tail.contains(c) implies part.contains(c) by {
            let i = choose|i: int| 0 <= i < tail.len() && tail[i] == c;
            assert(part[i + 1] == c);
        }
        lemma_cut_behind(tail, sep, rest);
        assert(s.skip(1) =~= tail + seq![sep] + rest);
        assert(seq![part[0]] + tail =~= part);
        assert(cut(part, sep) =~= seq![part]);
        assert(cut(s, sep) =~= seq![part] + cut(rest, sep));
    }
}

/// `s` cut at each `sep`; the separators belong to no part.
pub fn split_at_char<'a>(s: &'a str, sep: char) -> (r: Vec<&'a str>)
    ensures
        r.deep_view() == cut(s@, sep),
{
    let chars = chars_of(s);
    let mut r: Vec<&'a str> = Vec::new();
    let mut i: usize = 0;
    let mut j: usize = 0;
    assert(s@.skip(0) =~= s@);
    proof {
        lemma_cut_some(s@, sep);
        assert(r.deep_view() + cut(s@, sep).update(0, s@.subrange(0, 0) + cut(s@, sep)[0])
            =~= cut(s@, sep));
    }
    while j < chars.len()
        invariant
            chars@ == s@,
            i <= j <= s@.len(),
            ({
                let rest = cut(s@.skip(j as int), sep);
                cut(s@, sep) == r.deep_view() + rest.update(
                    0,
                    s@.subrange(i as int, j as int) + rest[0],
                )
            }),
        decreases s@.len() - j,
    {
        let ghost rest = cut(s@.skip(j as int), sep);
        let ghost tail = cut(s@.skip(j + 1), sep);
        assert(s@.skip(j as int).skip(1) =~= s@.skip(j + 1));
        proof {
            lemma_cut_some(s@.skip(j as int), sep);
            lemma_cut_some(s@.skip(j + 1), sep);
        }
        if chars[j] == sep {
            let ghost before = r.deep_view();
            let part = s.substring_char(i, j);
            r.push(part);
            proof {
                assert(r.deep_view() =~= before.push(part@));
                assert(rest =~= seq![Seq::<char>::empty()] + tail);
                assert(part@ + rest[0] =~= part@);
                assert(s@.subrange(j + 1, j + 1) + tail[0] =~= tail[0]);
                assert(tail.update(0, s@.subrange(j + 1, j + 1) + tail[0]) =~= tail);
                assert(before + rest.update(0, part@ + rest[0]) =~= r.deep_view() + tail);
            }
            i = j + 1;
        } else {
            proof {
                assert(s@.subrange(i as int, j as int) + (seq![s@[j as int]] + tail[0])
                    =~= s@.subrange(i as int, j + 1) + tail[0]);
                assert(rest.update(0, s@.subrange(i as int, j as int) + rest[0]) =~= tail.update(
                    0,
                    s@.subrange(i as int, j + 1) + tail[0],
                ));
            }
        }
        j = j + 1;
    }
    let ghost before = r.deep_view();
    let part = s.substring_char(i, j);
    r.push(part);
    proof {
        assert(s@.skip(j as int) =~= Seq::empty());
        let rest = cut(s@.skip(j as int), sep);
        assert(rest =~= seq![Seq::<char>::empty()]);
        assert(part@ + rest[0] =~= part@);
        assert(r.deep_view() =~= before.push(part@));
        assert(before + rest.update(0, part@ + rest[0]) =~= r.deep_view());
    }
    r
}

/// A text has words exactly where it is not blank.
pub proof fn law_blank_has_no_words(s: Text)
    ensures
        words(s).len() == 0 <==> blank(s),
    decreases s.len(),
{
    if s.len() > 0 {
        if white_space(s[0]) {
            law_blank_has_no_words(s.skip(1));
            assert(blank(s) ==> blank(s.skip(1)));
            assert forall|i: int| blank(s.skip(1)) && 0 <= i < s.len() implies white_space(
                #[trigger] s[i],
            ) by {
                if i > 0 {
                    assert(s[i] == s.skip(1)[i - 1]);
                }
            }
        } else {
            lemma_word_len(s);
        }
    }
}

/// A solid text is one word.
pub proof fn law_solid_text_is_one_word(s: Text)
    requires
        solid(s),
        s.len() > 0,
    ensures
        words(s) == seq![s],
{
    lemma_word_len_exact(s, Seq::empty());
    assert(s + Seq::<char>::empty() =~= s);
    assert(!white_space(s[0]));
    assert(s.take(s.len() as int) =~= s);
    assert(words(s.skip(s.len() as int)) =~= Seq::<Text>::empty());
    assert(words(s) =~= seq![s]);
}

/// White space parts words and is no part of them: the words on both sides of it are the words of
/// the whole.
pub proof fn law_white_space_parts_words(a: Text, gap: Text, b: Text)
    requires
        blank(gap),
        gap.len() > 0,
    ensures
        words(a + gap + b) == words(a) + words(b),
{
    assert(a + gap + b =~= a + (gap + b));
    assert(white_space(gap[0]));
    lemma_words_before_white_space(a, gap + b);
    lemma_words_behind_white_space(gap, b);
}

proof fn lemma_words_behind_white_space(front: Text, s: Text)
    requires
        blank(front),
    ensures
        words(front + s) == words(s),
    decreases front.len(),
{
    if front.len() > 0 {
        assert(white_space(front[0]));
        assert((front + s).skip(1) =~= front.skip(1) + s);
        assert(blank(front.skip(1)));
        lemma_words_behind_white_space(front.skip(1), s);
    } else {
        assert(front + s =~= s);
    }
}

proof fn lemma_words_before_white_space(a: Text, rest: Text)
    requires
        rest.len() > 0,
        white_space(rest[0]),
    ensures
        words(a + rest) == words(a) + words(rest),
    decreases a.len(),
{
    let s = a + rest;
    if a.len() == 0 {
        assert(s =~= rest);
        assert(words(a) + words(rest) =~= words(rest));
    } else if white_space(a[0]) {
        assert(s.skip(1) =~= a.skip(1) + rest);
        lemma_words_before_white_space(a.skip(1), rest);
    } else {
        lemma_word_len(a);
        let n = word_len(a) as int;
        let w = a.take(n);
        let tail = a.skip(n);
        assert(s =~= w + (tail + rest));
        assert(white_space((tail + rest)[0]));
        lemma_word_len_exact(w, tail + rest);
        assert(s.take(n) =~= w);
        assert(s.skip(n) =~= tail + rest);
        lemma_words_before_white_space(tail, rest);
        assert(words(s) =~= words(a) + words(rest));
    }
}

/// Joining puts the separator between neighbours and nowhere else: lists that are joined one after
/// the other have one separator between them.
pub proof fn law_joined_lists_are_separated_once(front: Texts, back: Texts, sep: Text)
    requires
        front.len() > 0,
        back.len() > 0,
    ensures
        joined(front + back, sep) == joined(front, sep) + sep + joined(back, sep),
        joined(seq![front[0]], sep) == front[0],
        joined(Seq::empty(), sep).len() == 0,
    decreases front.len(),
{
    if front.len() == 1 {
        assert((front + back).skip(1) =~= back);
    } else {
        law_joined_lists_are_separated_once(front.skip(1), back, sep);
        assert((front + back).skip(1) =~= front.skip(1) + back);
        assert(joined(front + back, sep) =~= joined(front, sep) + sep + joined(back, sep));
    }
}

/// A text begins with another exactly where it is that text with something behind it.
pub proof fn law_text_behind_a_prefix(prefix: Text, rest: Text, s: Text)
    ensures
        begins_with(prefix + rest, prefix),
        begins_with(s, prefix) ==> s == prefix + s.skip(prefix.len() as int),
{
    assert((prefix + rest).take(prefix.len() as int) =~= prefix);
    if begins_with(s, prefix) {
        assert(s =~= s.take(prefix.len() as int) + s.skip(prefix.len() as int));
    }
}

/// A text holds another exactly where it is that text with something before and behind it.
pub proof fn law_text_holds_its_parts(front: Text, pat: Text, back: Text, s: Text)
    ensures
        has(front + pat + back, pat),
        has(s, pat) ==> exists|i: int|
            0 <= i && i + pat.len() <= s.len() && s == #[trigger] s.take(i) + pat + s.skip(
                i + pat.len(),
            ),
{
    let whole = front + pat + back;
    assert(whole.subrange(front.len() as int, (front.len() + pat.len()) as int) =~= pat);
    assert(stands_at(whole, pat, front.len() as int));
    if has(s, pat) {
        let i = choose|i: int| #[trigger] stands_at(s, pat, i);
        assert(s =~= s.take(i) + s.subrange(i, i + pat.len()) + s.skip(i + pat.len()));
    }
}

/// The parts of a cut text hold no separator, and with one separator between neighbours they are
/// the text again.
pub proof fn law_cut_parts_make_up_the_text(s: Text, sep: char)
    ensures
        joined(cut(s, sep), seq![sep]) == s,
        cut(s, sep).len() > 0,
        forall|i: int| 0 <= i < cut(s, sep).len() ==> !(#[trigger] cut(s, sep)[i]).contains(sep),
    decreases s.len(),
{
    let parts = cut(s, sep);
    if s.len() == 0 {
        assert(joined(parts, seq![sep]) =~= s);
    } else {
        let rest = cut(s.skip(1), sep);
        law_cut_parts_make_up_the_text(s.skip(1), sep);
        if s[0] == sep {
            assert(parts.skip(1) =~= rest);
            assert(joined(parts, seq![sep]) =~= seq![sep] + s.skip(1));
            assert(joined(parts, seq![sep]) =~= s);
            assert forall|i: int| 0 <= i < parts.len() implies !(#[trigger] parts[i]).contains(
                sep,
            ) by {
                if i > 0 {
                    assert(parts[i] == rest[i - 1]);
                }
            }
        } else {
            assert(parts.skip(1) =~= rest.skip(1));
            assert(joined(parts, seq![sep]) =~= seq![s[0]] + joined(rest, seq![sep]));
            assert(joined(parts, seq![sep]) =~= s);
            assert forall|i: int| 0 <= i < parts.len() implies !(#[trigger] parts[i]).contains(
                sep,
            ) by {
                if i > 0 {
                    assert(parts[i] == rest[i]);
                } else {
                    assert(!rest[0].contains(sep));
                    if parts[0].contains(sep) {
                        let k = choose|k: int| 0 <= k < parts[0].len() && parts[0][k] == sep;
                        assert(k > 0);
                        assert(rest[0][k - 1] == sep);
                    }
                }
            }
        }
    }
}

} // verus!
