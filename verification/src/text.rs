//! Character and string helpers shared by the parsers and transformers.
use vstd::prelude::*;

verus! {

/// What `char::to_lowercase` yields first for a character.
pub uninterp spec fn spec_lowercase_first(c: char) -> char;

/// Whether a character has the Unicode `Uppercase` property.
pub uninterp spec fn spec_is_uppercase(c: char) -> bool;

pub open spec fn is_ascii_char(c: char) -> bool {
    (c as u32) < 128
}

pub open spec fn is_ascii_upper(c: char) -> bool {
    'A' <= c && c <= 'Z'
}

/// The ASCII lower-case form of a character (identity outside `A..=Z`).
pub open spec fn ascii_lower(c: char) -> char {
    if is_ascii_upper(c) {
        ((c as u32) + 32) as char
    } else {
        c
    }
}

/// Appends one character; `String::push`.
#[verifier::external_body]
pub(crate) fn push_char(s: &mut String, c: char)
    ensures
        final(s)@ == old(s)@.push(c),
{
    s.push(c)
}

/// The first character that `char::to_lowercase` yields.  The standard
/// library documents that the iterator yields one or more characters and
/// that ASCII letters map to their ASCII lower case; for other characters the
/// result is left to the Unicode tables and only named here.
#[verifier::external_body]
pub(crate) fn lowercase_first(c: char) -> (r: char)
    ensures
        r == spec_lowercase_first(c),
        is_ascii_char(c) ==> r == ascii_lower(c),
{
    match c.to_lowercase().next() {
        Some(l) => l,
        None => c,
    }
}

/// `char::is_uppercase`.  For ASCII characters the Unicode `Uppercase`
/// property holds exactly of `A..=Z`; other characters are left to the
/// Unicode tables and only named here.
#[verifier::external_body]
pub(crate) fn is_uppercase(c: char) -> (r: bool)
    ensures
        r == spec_is_uppercase(c),
        is_ascii_char(c) ==> (r <==> is_ascii_upper(c)),
{
    c.is_uppercase()
}

/// `char::from_u32`: the character of a code point, none for a surrogate
/// or a number past the last code point.
#[verifier::external_body]
pub(crate) fn char_from_u32(n: u32) -> (r: Option<char>)
    ensures
        (n < 0xD800 || (0xE000 <= n && n <= 0x10FFFF)) ==> r == Some(n as char),
        !(n < 0xD800 || (0xE000 <= n && n <= 0x10FFFF)) ==> r is None,
{
    char::from_u32(n)
}

/// `char::is_ascii_uppercase`.
pub fn is_ascii_uppercase(c: char) -> (r: bool)
    ensures
        r == is_ascii_upper(c),
{
    'A' <= c && c <= 'Z'
}

/// The characters of a string slice, in order.
pub fn chars_of(s: &str) -> (v: Vec<char>)
    ensures
        v@ == s@,
{
    let n: usize = s.unicode_len();
    let mut v: Vec<char> = Vec::new();
    let mut i: usize = 0;
    while i < n
        invariant
            n == s@.len(),
            i <= n,
            v@ == s@.subrange(0, i as int),
        decreases n - i,
    {
        v.push(s.get_char(i));
        i = i + 1;
    }
    assert(v@ =~= s@);
    v
}

/// A string made of the given characters.
pub fn string_of(v: &[char]) -> (s: String)
    ensures
        s@ == v@,
{
    let mut s = String::new();
    let mut i: usize = 0;
    while i < v.len()
        invariant
            i <= v@.len(),
            s@ == v@.subrange(0, i as int),
        decreases v@.len() - i,
    {
        push_char(&mut s, v[i]);
        assert(v@.subrange(0, i + 1) =~= v@.subrange(0, i as int).push(v@[i as int]));
        i = i + 1;
    }
    assert(v@.subrange(0, v@.len() as int) =~= v@);
    s
}

/// A string of one character.
pub fn string_of_char(c: char) -> (s: String)
    ensures
        s@ == seq![c],
{
    let mut s = String::new();
    push_char(&mut s, c);
    assert(s@ =~= seq![c]);
    s
}

/// Whether two string slices hold the same characters.
pub fn str_equal(a: &str, b: &str) -> (r: bool)
    ensures
        r == (a@ == b@),
{
    let n: usize = a.unicode_len();
    let m: usize = b.unicode_len();
    if n != m {
        return false;
    }
    let mut i: usize = 0;
    while i < n
        invariant
            n == a@.len(),
            m == b@.len(),
            n == m,
            i <= n,
            a@.subrange(0, i as int) == b@.subrange(0, i as int),
        decreases n - i,
    {
        if a.get_char(i) != b.get_char(i) {
            assert(a@[i as int] != b@[i as int]);
            return false;
        }
        assert(a@.subrange(0, i + 1) =~= a@.subrange(0, i as int).push(a@[i as int]));
        assert(b@.subrange(0, i + 1) =~= b@.subrange(0, i as int).push(b@[i as int]));
        i = i + 1;
    }
    assert(a@ =~= a@.subrange(0, n as int));
    assert(b@ =~= b@.subrange(0, n as int));
    true
}

/// Concatenation of two strings.
pub fn concat(a: &String, b: &str) -> (r: String)
    ensures
        r@ == a@ + b@,
{
    a.clone().concat(b)
}

/// Unicode `White_Space`, which `char::is_whitespace` tests.
pub open spec fn is_white_space(c: char) -> bool {
    ||| c == '\t' || c == '\n' || c == '\u{0B}' || c == '\u{0C}' || c == '\r' || c == ' '
    ||| c == '\u{85}' || c == '\u{A0}' || c == '\u{1680}'
    ||| ('\u{2000}' <= c && c <= '\u{200A}')
    ||| c == '\u{2028}' || c == '\u{2029}' || c == '\u{202F}' || c == '\u{205F}' || c == '\u{3000}'
}

pub fn is_whitespace(c: char) -> (r: bool)
    ensures
        r == is_white_space(c),
{
    c == '\t' || c == '\n' || c == '\u{0B}' || c == '\u{0C}' || c == '\r' || c == ' '
        || c == '\u{85}' || c == '\u{A0}' || c == '\u{1680}' || ('\u{2000}' <= c && c <= '\u{200A}')
        || c == '\u{2028}' || c == '\u{2029}' || c == '\u{202F}' || c == '\u{205F}' || c
        == '\u{3000}'
}

/// The number of white-space characters at the front.
pub open spec fn lead_ws(s: Seq<char>) -> nat
    decreases s.len(),
{
    if s.len() > 0 && is_white_space(s[0]) {
        1 + lead_ws(s.drop_first())
    } else {
        0
    }
}

/// The number of white-space characters at the back.
pub open spec fn trail_ws(s: Seq<char>) -> nat
    decreases s.len(),
{
    if s.len() > 0 && is_white_space(s.last()) {
        1 + trail_ws(s.drop_last())
    } else {
        0
    }
}

/// `str::trim`: the text without leading and trailing white space.
pub open spec fn trim_spec(s: Seq<char>) -> Seq<char> {
    let a = lead_ws(s) as int;
    let rest = s.subrange(a, s.len() as int);
    rest.subrange(0, rest.len() - trail_ws(rest))
}

proof fn lemma_lead_ws(s: Seq<char>, i: int)
    requires
        0 <= i <= s.len(),
        forall|j: int| 0 <= j < i ==> is_white_space(#[trigger] s[j]),
        i == s.len() || !is_white_space(s[i]),
    ensures
        lead_ws(s) == i,
    decreases i,
{
    if i > 0 {
        lemma_lead_ws(s.drop_first(), i - 1);
    }
}

proof fn lemma_trail_ws(s: Seq<char>, k: int)
    requires
        0 <= k <= s.len(),
        forall|j: int| s.len() - k <= j < s.len() ==> is_white_space(#[trigger] s[j]),
        k == s.len() || !is_white_space(s[s.len() - k - 1]),
    ensures
        trail_ws(s) == k,
    decreases k,
{
    if k > 0 {
        lemma_trail_ws(s.drop_last(), k - 1);
    }
}

/// `str::trim` on characters.
pub fn trim_chars(s: &[char]) -> (r: Vec<char>)
    ensures
        r@ == trim_spec(s@),
{
    let n: usize = s.len();
    let mut a: usize = 0;
    while a < n && is_whitespace(s[a])
        invariant
            n == s@.len(),
            a <= n,
            forall|j: int| 0 <= j < a ==> is_white_space(#[trigger] s@[j]),
        decreases n - a,
    {
        a = a + 1;
    }
    proof {
        lemma_lead_ws(s@, a as int);
    }
    let mut b: usize = n;
    while b > a && is_whitespace(s[b - 1])
        invariant
            n == s@.len(),
            a <= b <= n,
            forall|j: int| b <= j < n ==> is_white_space(#[trigger] s@[j]),
        decreases b,
    {
        b = b - 1;
    }
    let ghost rest = s@.subrange(a as int, n as int);
    proof {
        assert forall|j: int| rest.len() - (n - b) <= j < rest.len() implies is_white_space(
            #[trigger] rest[j],
        ) by {
            assert(rest[j] == s@[a + j]);
        }
        if b > a {
            assert(rest[rest.len() - (n - b) - 1] == s@[b - 1]);
        }
        lemma_trail_ws(rest, (n - b) as int);
    }
    let mut r: Vec<char> = Vec::new();
    let mut i: usize = a;
    while i < b
        invariant
            a <= i <= b <= n,
            n == s@.len(),
            r@ == s@.subrange(a as int, i as int),
        decreases b - i,
    {
        r.push(s[i]);
        assert(s@.subrange(a as int, i + 1) =~= s@.subrange(a as int, i as int).push(s@[i as int]));
        i = i + 1;
    }
    assert(r@ =~= trim_spec(s@));
    r
}

/// Removes the last character; `String::pop`.
pub fn pop_char(s: &mut String) -> (r: Option<char>)
    ensures
        old(s)@.len() == 0 ==> r is None && final(s)@ == old(s)@,
        old(s)@.len() > 0 ==> r == Some(old(s)@.last()) && final(s)@ == old(s)@.drop_last(),
{
    let v = chars_of(s.as_str());
    let n: usize = v.len();
    if n == 0 {
        return None;
    }
    let last = v[n - 1];
    let mut rest: Vec<char> = Vec::new();
    let mut i: usize = 0;
    while i < n - 1
        invariant
            n == v@.len(),
            n > 0,
            i <= n - 1,
            rest@ == v@.subrange(0, i as int),
        decreases n - 1 - i,
    {
        rest.push(v[i]);
        assert(v@.subrange(0, i + 1) =~= v@.subrange(0, i as int).push(v@[i as int]));
        i = i + 1;
    }
    *s = string_of(&rest);
    assert(rest@ =~= old(s)@.drop_last());
    Some(last)
}

/// `str::split` with a one-character separator.
pub open spec fn split_spec(s: Seq<char>, sep: char) -> Seq<Seq<char>>
    decreases s.len(),
{
    if s.len() == 0 {
        seq![Seq::<char>::empty()]
    } else {
        let parts = split_spec(s.drop_last(), sep);
        if s.last() == sep {
            parts.push(Seq::<char>::empty())
        } else {
            parts.update(parts.len() - 1, parts.last().push(s.last()))
        }
    }
}

/// `str::split_terminator`: `split` without a trailing empty piece.
pub open spec fn split_terminator_spec(s: Seq<char>, sep: char) -> Seq<Seq<char>> {
    let parts = split_spec(s, sep);
    if parts.last().len() == 0 {
        parts.drop_last()
    } else {
        parts
    }
}

proof fn lemma_split_nonempty(s: Seq<char>, sep: char)
    ensures
        split_spec(s, sep).len() >= 1,
    decreases s.len(),
{
    if s.len() > 0 {
        lemma_split_nonempty(s.drop_last(), sep);
    }
}

/// `str::split` with a one-character separator.
pub fn split_chars(s: &[char], sep: char) -> (r: Vec<Vec<char>>)
    ensures
        r@.len() == split_spec(s@, sep).len(),
        forall|i: int| 0 <= i < r@.len() ==> (#[trigger] r@[i])@ == split_spec(s@, sep)[i],
{
    let mut parts: Vec<Vec<char>> = Vec::new();
    let mut cur: Vec<char> = Vec::new();
    let mut i: usize = 0;
    while i < s.len()
        invariant
            i <= s@.len(),
            parts@.len() + 1 == split_spec(s@.subrange(0, i as int), sep).len(),
            forall|j: int| 0 <= j < parts@.len() ==> (#[trigger] parts@[j])@ == split_spec(s@.subrange(0, i as int), sep)[j],
            cur@ == split_spec(s@.subrange(0, i as int), sep).last(),
        decreases s@.len() - i,
    {
        proof {
            lemma_split_nonempty(s@.subrange(0, i as int), sep);
            assert(s@.subrange(0, i + 1).drop_last() =~= s@.subrange(0, i as int));
        }
        if s[i] == sep {
            parts.push(cur);
            cur = Vec::new();
            assert(cur@ =~= Seq::<char>::empty());
        } else {
            cur.push(s[i]);
        }
        i = i + 1;
    }
    proof {
        lemma_split_nonempty(s@, sep);
        assert(s@.subrange(0, s@.len() as int) =~= s@);
    }
    parts.push(cur);
    parts
}

/// `str::split_terminator` with a one-character separator.
pub fn split_terminator_chars(s: &[char], sep: char) -> (r: Vec<Vec<char>>)
    ensures
        r@.len() == split_terminator_spec(s@, sep).len(),
        forall|i: int| 0 <= i < r@.len() ==> (#[trigger] r@[i])@ == split_terminator_spec(s@, sep)[i],
{
    let mut parts = split_chars(s, sep);
    proof {
        lemma_split_nonempty(s@, sep);
    }
    let n: usize = parts.len();
    if parts[n - 1].len() == 0 {
        parts.pop();
    }
    parts
}

/// Where a character first occurs, or the length when it does not.
pub open spec fn find_spec(s: Seq<char>, c: char) -> nat
    decreases s.len(),
{
    if s.len() == 0 || s[0] == c {
        0
    } else {
        1 + find_spec(s.drop_first(), c)
    }
}

pub proof fn lemma_find(s: Seq<char>, c: char, i: int)
    requires
        0 <= i <= s.len(),
        forall|j: int| 0 <= j < i ==> s[j] != c,
        i == s.len() || s[i] == c,
    ensures
        find_spec(s, c) == i,
    decreases i,
{
    if i > 0 {
        lemma_find(s.drop_first(), c, i - 1);
    }
}

/// `str::splitn(2, sep)`: the text before the first separator, and the
/// text after it when there is one.
pub open spec fn split_once_spec(s: Seq<char>, sep: char) -> (Seq<char>, Option<Seq<char>>) {
    let i = find_spec(s, sep) as int;
    if i < s.len() {
        (s.subrange(0, i), Some(s.subrange(i + 1, s.len() as int)))
    } else {
        (s, None)
    }
}

pub fn split_once_chars(s: &[char], sep: char) -> (r: (Vec<char>, Option<Vec<char>>))
    ensures
        r.0@ == split_once_spec(s@, sep).0,
        match (r.1, split_once_spec(s@, sep).1) {
            (Some(a), Some(b)) => a@ == b,
            (None, None) => true,
            _ => false,
        },
{
    let mut i: usize = 0;
    while i < s.len() && s[i] != sep
        invariant
            i <= s@.len(),
            forall|j: int| 0 <= j < i ==> s@[j] != sep,
        decreases s@.len() - i,
    {
        i = i + 1;
    }
    proof {
        lemma_find(s@, sep, i as int);
    }
    let mut head: Vec<char> = Vec::new();
    let mut j: usize = 0;
    while j < i
        invariant
            j <= i <= s@.len(),
            head@ == s@.subrange(0, j as int),
        decreases i - j,
    {
        head.push(s[j]);
        assert(s@.subrange(0, j + 1) =~= s@.subrange(0, j as int).push(s@[j as int]));
        j = j + 1;
    }
    if i == s.len() {
        assert(head@ =~= s@);
        return (head, None);
    }
    let mut tail: Vec<char> = Vec::new();
    let mut k: usize = i + 1;
    while k < s.len()
        invariant
            i + 1 <= k <= s@.len(),
            tail@ == s@.subrange(i + 1, k as int),
        decreases s@.len() - k,
    {
        tail.push(s[k]);
        assert(s@.subrange(i + 1, k + 1) =~= s@.subrange(i + 1, k as int).push(s@[k as int]));
        k = k + 1;
    }
    (head, Some(tail))
}

} // verus!
