//! Operations on text, each stated over the sequence of characters.

use vstd::prelude::*;

verus! {

// ---- models ----

/// The characters with the Unicode property `White_Space`.
pub open spec fn is_white_space(c: char) -> bool {
    ||| '\u{9}' <= c <= '\u{d}'
    ||| c == ' '
    ||| c == '\u{85}'
    ||| c == '\u{a0}'
    ||| c == '\u{1680}'
    ||| '\u{2000}' <= c <= '\u{200a}'
    ||| c == '\u{2028}'
    ||| c == '\u{2029}'
    ||| c == '\u{202f}'
    ||| c == '\u{205f}'
    ||| c == '\u{3000}'
}

/// `s` without the white space at its start.
pub open spec fn trimmed_start(s: Seq<char>) -> Seq<char>
    decreases s.len(),
{
    if s.len() > 0 && is_white_space(s.first()) {
        trimmed_start(s.drop_first())
    } else {
        s
    }
}

/// `s` without the white space at its end.
pub open spec fn trimmed_end(s: Seq<char>) -> Seq<char>
    decreases s.len(),
{
    if s.len() > 0 && is_white_space(s.last()) {
        trimmed_end(s.drop_last())
    } else {
        s
    }
}

/// `s` without the white space at both ends.
pub open spec fn trimmed(s: Seq<char>) -> Seq<char> {
    trimmed_end(trimmed_start(s))
}

/// `s` without its leading copies of `prefix`, however many there are.
pub open spec fn without_leading(s: Seq<char>, prefix: Seq<char>) -> Seq<char>
    decreases s.len(),
{
    if prefix.len() > 0 && prefix.is_prefix_of(s) {
        without_leading(s.skip(prefix.len() as int), prefix)
    } else {
        s
    }
}

/// Whether `pattern` stands in `s` at index `i`.
pub open spec fn occurs_at(s: Seq<char>, pattern: Seq<char>, i: int) -> bool {
    0 <= i <= s.len() - pattern.len() && s.subrange(i, i + pattern.len()) == pattern
}

/// Whether `pattern` stands anywhere in `s`.
pub open spec fn occurs_in(s: Seq<char>, pattern: Seq<char>) -> bool {
    exists|i: int| occurs_at(s, pattern, i)
}

/// Whether `i` is the first index at which `pattern` stands in `s`.
pub open spec fn first_at(s: Seq<char>, pattern: Seq<char>, i: int) -> bool {
    occurs_at(s, pattern, i) && forall|j: int| 0 <= j < i ==> !occurs_at(s, pattern, j)
}

/// `s` with the first occurrence of `pattern` replaced by `with`.
pub open spec fn first_replaced(s: Seq<char>, pattern: Seq<char>, with: Seq<char>) -> Seq<char> {
    if exists|i: int| first_at(s, pattern, i) {
        let i = choose|i: int| first_at(s, pattern, i);
        s.take(i) + with + s.skip(i + pattern.len())
    } else {
        s
    }
}

/// `s` with every character `from` replaced by `to`.
pub open spec fn char_replaced(s: Seq<char>, from: char, to: char) -> Seq<char> {
    s.map_values(|c: char| if c == from { to } else { c })
}

/// The decimal digit of value `d`.
pub open spec fn digit(d: nat) -> char
    recommends
        d < 10,
{
    ('0' as nat + d) as char
}

/// `n` in decimal, without leading zeros.
pub open spec fn decimal_of(n: nat) -> Seq<char>
    decreases n,
{
    if n < 10 {
        seq![digit(n)]
    } else {
        decimal_of(n / 10).push(digit(n % 10))
    }
}

/// The texts that a sequence of strings holds.
pub open spec fn texts(strings: Seq<String>) -> Seq<Seq<char>> {
    strings.map_values(|s: String| s@)
}

/// The text that an optional string holds.
pub open spec fn text_in(s: Option<String>) -> Option<Seq<char>> {
    match s {
        Some(s) => Some(s@),
        None => None,
    }
}

/// What `String::from_utf8_lossy` makes of these bytes.
pub uninterp spec fn lossy_text(bytes: Seq<u8>) -> Seq<char>;

// ---- functions ----

/// Calls `String::from_utf8_lossy`.
///
/// Claimed: the text depends on the bytes alone, and `lossy_text` names it; bytes that are UTF-8 give
/// the text that they encode. Which replacement characters stand for other bytes is left to the name.
#[verifier::external_body]
pub(crate) fn from_utf8_lossy(bytes: &[u8]) -> (text: String)
    ensures
        text@ == lossy_text(bytes@),
        vstd::utf8::valid_utf8(bytes@) ==> text@ == vstd::utf8::decode_utf8(bytes@),
{
    String::from_utf8_lossy(bytes).into_owned()
}

/// The characters of `s`.
pub fn chars_of(s: &str) -> (chars: Vec<char>)
    ensures
        chars@ == s@,
{
    let mut chars: Vec<char> = Vec::new();
    for c in it: s.chars()
        invariant
            it.seq() == s@,
            chars@ == s@.take(it.index() as int),
    {
        chars.push(c);
    }
    assert(s@.take(s@.len() as int) == s@);
    chars
}

/// Whether `a` and `b` are the same text.
pub fn same(a: &str, b: &str) -> (equal: bool)
    ensures
        equal == (a@ == b@),
{
    a.to_owned() == b.to_owned()
}

/// `a` followed by `b`.
pub fn joined(a: &str, b: &str) -> (s: String)
    ensures
        s@ == a@ + b@,
{
    let mut s = a.to_owned();
    s.append(b);
    s
}

/// Adds `s` at the end of `strings`.
pub fn push_text(strings: &mut Vec<String>, s: &str)
    ensures
        texts(final(strings)@) == texts(old(strings)@).push(s@),
{
    strings.push(s.to_owned());
    assert(texts(strings@) =~= texts(old(strings)@).push(s@));
}

/// A copy of `strings`.
pub fn copied(strings: &Vec<String>) -> (copy: Vec<String>)
    ensures
        texts(copy@) == texts(strings@),
{
    let mut copy: Vec<String> = Vec::new();
    let mut i: usize = 0;
    while i < strings.len()
        invariant
            i <= strings.len(),
            texts(copy@) == texts(strings@).take(i as int),
        decreases strings.len() - i,
    {
        push_text(&mut copy, strings[i].as_str());
        assert(texts(strings@).take(i + 1) == texts(strings@).take(i as int).push(
            strings@[i as int]@,
        ));
        i = i + 1;
    }
    assert(texts(strings@).take(i as int) == texts(strings@));
    copy
}

/// Whether `pattern` stands in `chars` at index `at`.
fn matches_at(chars: &Vec<char>, pattern: &Vec<char>, at: usize) -> (found: bool)
    ensures
        found == occurs_at(chars@, pattern@, at as int),
{
    if pattern.len() > chars.len() || at > chars.len() - pattern.len() {
        return false;
    }
    let mut k: usize = 0;
    while k < pattern.len()
        invariant
            k <= pattern.len(),
            at + pattern.len() <= chars.len(),
            forall|j: int| 0 <= j < k ==> chars@[at + j] == pattern@[j],
        decreases pattern.len() - k,
    {
        if chars[at + k] != pattern[k] {
            assert(chars@.subrange(at as int, at + pattern@.len())[k as int] != pattern@[k as int]);
            return false;
        }
        k = k + 1;
    }
    assert(chars@.subrange(at as int, at + pattern@.len()) =~= pattern@);
    true
}

/// Whether `s` begins with `prefix`.
pub fn starts_with(s: &str, prefix: &str) -> (found: bool)
    ensures
        found == prefix@.is_prefix_of(s@),
{
    matches_at(&chars_of(s), &chars_of(prefix), 0)
}

/// Whether `pattern` stands anywhere in `s`.
pub fn contains(s: &str, pattern: &str) -> (found: bool)
    ensures
        found == occurs_in(s@, pattern@),
{
    match first_occurrence(&chars_of(s), &chars_of(pattern)) {
        Some(_) => true,
        None => false,
    }
}

/// The first index at which `pattern` stands in `chars`.
fn first_occurrence(chars: &Vec<char>, pattern: &Vec<char>) -> (at: Option<usize>)
    ensures
        match at {
            Some(i) => first_at(chars@, pattern@, i as int),
            None => !occurs_in(chars@, pattern@),
        },
{
    if pattern.len() > chars.len() {
        return None;
    }
    let last = chars.len() - pattern.len();
    let mut i: usize = 0;
    loop
        invariant
            i <= last,
            last == chars.len() - pattern.len(),
            forall|j: int| 0 <= j < i ==> !occurs_at(chars@, pattern@, j),
        decreases last - i,
    {
        if matches_at(chars, pattern, i) {
            return Some(i);
        }
        if i == last {
            return None;
        }
        i = i + 1;
    }
}

/// The index of the first `c` in `s`.
pub fn find(s: &str, c: char) -> (at: Option<usize>)
    ensures
        match at {
            Some(i) => s@.index_of_first(c) == Some(i as int),
            None => s@.index_of_first(c) is None,
        },
        at matches Some(i) ==> i < s@.len(),
{
    proof {
        s@.index_of_first_ensures(c);
    }
    let chars = chars_of(s);
    let mut i: usize = 0;
    while i < chars.len()
        invariant
            i <= chars.len(),
            chars@ == s@,
            forall|j: int| 0 <= j < i ==> s@[j] != c,
            match s@.index_of_first(c) {
                Some(index) => 0 <= index < s@.len() && s@[index] == c && forall|j: int|
                    0 <= j < index < s@.len() ==> s@[j] != c,
                None => !s@.contains(c),
            },
        decreases chars.len() - i,
    {
        if chars[i] == c {
            assert(s@[i as int] == c);
            return Some(i);
        }
        i = i + 1;
    }
    None
}

/// The index of the last `c` in `s`.
pub fn rfind(s: &str, c: char) -> (at: Option<usize>)
    ensures
        match at {
            Some(i) => s@.index_of_last(c) == Some(i as int),
            None => s@.index_of_last(c) is None,
        },
        at matches Some(i) ==> i < s@.len(),
{
    proof {
        s@.index_of_last_ensures(c);
    }
    let chars = chars_of(s);
    let mut i: usize = chars.len();
    while i > 0
        invariant
            i <= chars.len(),
            chars@ == s@,
            forall|j: int| i <= j < s@.len() ==> s@[j] != c,
            match s@.index_of_last(c) {
                Some(index) => 0 <= index < s@.len() && s@[index] == c && forall|j: int|
                    0 <= index < j < s@.len() ==> s@[j] != c,
                None => !s@.contains(c),
            },
        decreases i,
    {
        i = i - 1;
        if chars[i] == c {
            assert(s@[i as int] == c);
            return Some(i);
        }
    }
    None
}

/// Whether `c` is white space.
pub fn white_space(c: char) -> (found: bool)
    ensures
        found == is_white_space(c),
{
    ('\u{9}' <= c && c <= '\u{d}') || c == ' ' || c == '\u{85}' || c == '\u{a0}' || c == '\u{1680}'
        || ('\u{2000}' <= c && c <= '\u{200a}') || c == '\u{2028}' || c == '\u{2029}' || c
        == '\u{202f}' || c == '\u{205f}' || c == '\u{3000}'
}

/// `s` without the white space at both ends.
pub fn trim(s: &str) -> (t: &str)
    ensures
        t@ == trimmed(s@),
{
    let chars = chars_of(s);
    let mut from: usize = 0;
    assert(s@.skip(0) == s@);
    while from < chars.len() && white_space(chars[from])
        invariant
            from <= chars.len(),
            chars@ == s@,
            trimmed_start(s@) == trimmed_start(s@.skip(from as int)),
        decreases chars.len() - from,
    {
        assert(s@.skip(from as int).drop_first() == s@.skip(from + 1));
        from = from + 1;
    }
    let ghost rest = s@.skip(from as int);
    let mut to: usize = chars.len();
    assert(s@.subrange(from as int, to as int) == rest);
    while to > from && white_space(chars[to - 1])
        invariant
            from <= to <= chars.len(),
            chars@ == s@,
            trimmed_end(rest) == trimmed_end(s@.subrange(from as int, to as int)),
        decreases to,
    {
        assert(s@.subrange(from as int, to as int).drop_last() == s@.subrange(
            from as int,
            to - 1,
        ));
        to = to - 1;
    }
    s.substring_char(from, to)
}

/// `s` without its leading copies of `prefix`.
pub fn trim_start_matches<'a>(s: &'a str, prefix: &str) -> (t: &'a str)
    ensures
        t@ == without_leading(s@, prefix@),
{
    let chars = chars_of(s);
    let pattern = chars_of(prefix);
    let mut from: usize = 0;
    assert(s@.skip(0) == s@);
    while pattern.len() > 0 && matches_at(&chars, &pattern, from)
        invariant
            from <= chars.len(),
            chars@ == s@,
            pattern@ == prefix@,
            without_leading(s@, prefix@) == without_leading(s@.skip(from as int), prefix@),
        decreases chars.len() - from,
    {
        proof {
            let rest = s@.skip(from as int);
            assert(rest.subrange(0, prefix@.len() as int) == s@.subrange(
                from as int,
                from + prefix@.len(),
            ));
            assert(rest.skip(prefix@.len() as int) == s@.skip(from + prefix@.len()));
        }
        from = from + pattern.len();
    }
    proof {
        let rest = s@.skip(from as int);
        if prefix@.is_prefix_of(rest) {
            assert(s@.subrange(from as int, from + prefix@.len()) == rest.subrange(
                0,
                prefix@.len() as int,
            ));
        }
        assert(s@.subrange(from as int, s@.len() as int) == rest);
    }
    s.substring_char(from, chars.len())
}

/// `s` with the first occurrence of `pattern` replaced by `with`.
pub fn replace_first(s: &str, pattern: &str, with: &str) -> (t: String)
    ensures
        t@ == first_replaced(s@, pattern@, with@),
{
    let chars = chars_of(s);
    let wanted = chars_of(pattern);
    let end = chars.len();
    match first_occurrence(&chars, &wanted) {
        Some(i) => {
            assert(occurs_at(s@, pattern@, i as int));
            let mut t = s.substring_char(0, i).to_owned();
            t.append(with);
            t.append(s.substring_char(i + wanted.len(), end));
            proof {
                let k = choose|k: int| first_at(s@, pattern@, k);
                assert(first_at(s@, pattern@, i as int));
                assert(k == i);
                assert(s@.subrange(0, i as int) == s@.take(i as int));
                assert(s@.subrange(i + pattern@.len(), s@.len() as int) == s@.skip(
                    i + pattern@.len(),
                ));
            }
            t
        },
        None => s.to_owned(),
    }
}

/// `s` with every backslash replaced by a slash.
pub fn forward_slashes(s: &str) -> (t: String)
    ensures
        t@ == char_replaced(s@, '\\', '/'),
{
    let chars = chars_of(s);
    let mut t = String::new();
    let mut i: usize = 0;
    while i < chars.len()
        invariant
            i <= chars.len(),
            chars@ == s@,
            t@ == char_replaced(s@, '\\', '/').take(i as int),
        decreases chars.len() - i,
    {
        if chars[i] == '\\' {
            t.append("/");
            proof {
                reveal_strlit("/");
            }
        } else {
            t.append(s.substring_char(i, i + 1));
        }
        assert(t@ =~= char_replaced(s@, '\\', '/').take(i + 1));
        i = i + 1;
    }
    assert(t@ =~= char_replaced(s@, '\\', '/'));
    t
}

/// The decimal digit of value `d`.
fn digit_text(d: u8) -> (t: &'static str)
    requires
        d < 10,
    ensures
        t@ == seq![digit(d as nat)],
{
    proof {
        reveal_strlit("0");
        reveal_strlit("1");
        reveal_strlit("2");
        reveal_strlit("3");
        reveal_strlit("4");
        reveal_strlit("5");
        reveal_strlit("6");
        reveal_strlit("7");
        reveal_strlit("8");
        reveal_strlit("9");
    }
    match d {
        0 => "0",
        1 => "1",
        2 => "2",
        3 => "3",
        4 => "4",
        5 => "5",
        6 => "6",
        7 => "7",
        8 => "8",
        _ => "9",
    }
}

/// `n` in decimal.
pub fn decimal(n: u32) -> (t: String)
    ensures
        t@ == decimal_of(n as nat),
    decreases n,
{
    if n < 10 {
        digit_text(n as u8).to_owned()
    } else {
        let mut t = decimal(n / 10);
        t.append(digit_text((n % 10) as u8));
        assert(t@ =~= decimal_of(n as nat));
        t
    }
}

// ---- laws ----

/// Trimmed text has no white space at its ends, and trimming it again changes nothing.
pub proof fn law_trimmed(s: Seq<char>)
    ensures
        trimmed(s).len() > 0 ==> !is_white_space(trimmed(s).first()) && !is_white_space(
            trimmed(s).last(),
        ),
        trimmed(trimmed(s)) == trimmed(s),
{
    lemma_trimmed_start(s);
    lemma_trimmed_end(trimmed_start(s));
}

/// What is left at the start of `s` is not white space.
proof fn lemma_trimmed_start(s: Seq<char>)
    ensures
        trimmed_start(s).len() > 0 ==> !is_white_space(trimmed_start(s).first()),
    decreases s.len(),
{
    if s.len() > 0 && is_white_space(s.first()) {
        lemma_trimmed_start(s.drop_first());
    }
}

/// What is left at the end of `s` is not white space, and the start is as it was.
proof fn lemma_trimmed_end(s: Seq<char>)
    ensures
        trimmed_end(s).len() > 0 ==> !is_white_space(trimmed_end(s).last()) && trimmed_end(s).first()
            == s.first(),
        trimmed_end(s).len() <= s.len(),
    decreases s.len(),
{
    if s.len() > 0 && is_white_space(s.last()) {
        lemma_trimmed_end(s.drop_last());
    }
}

/// Once its leading copies are gone, the text does not begin with the prefix.
pub proof fn law_without_leading(s: Seq<char>, prefix: Seq<char>)
    requires
        prefix.len() > 0,
    ensures
        !prefix.is_prefix_of(without_leading(s, prefix)),
        without_leading(prefix + s, prefix) == without_leading(s, prefix),
    decreases s.len(),
{
    assert((prefix + s).subrange(0, prefix.len() as int) =~= prefix);
    assert((prefix + s).skip(prefix.len() as int) =~= s);
    if prefix.is_prefix_of(s) {
        law_without_leading(s.skip(prefix.len() as int), prefix);
    }
}

/// What does not begin with the prefix stays as it is, and so does everything where the prefix is empty.
pub proof fn law_without_leading_keeps(s: Seq<char>, prefix: Seq<char>)
    requires
        prefix.len() == 0 || !prefix.is_prefix_of(s),
    ensures
        without_leading(s, prefix) == s,
        prefix.len() > 0 ==> without_leading(prefix + s, prefix) == s,
{
    if prefix.len() > 0 {
        law_without_leading(s, prefix);
    }
}

/// White space is the tab, the line ends and form feeds, the space, and the spaces and separators of
/// Unicode; nothing else is.
pub proof fn law_white_space(c: char)
    ensures
        (c as nat) <= 127 ==> (is_white_space(c) <==> (c as nat) == 32 || 9 <= (c as nat) <= 13),
        127 < (c as nat) < 0x2000 ==> (is_white_space(c) <==> (c as nat) == 0x85 || (c as nat) == 0xa0
            || (c as nat) == 0x1680),
        0x2000 <= (c as nat) ==> (is_white_space(c) <==> (c as nat) <= 0x200a || (c as nat) == 0x2028
            || (c as nat) == 0x2029 || (c as nat) == 0x202f || (c as nat) == 0x205f || (c as nat) == 0x3000),
{
}

/// Trimming takes white space off the two ends and nothing else: what stays is one stretch of the
/// text, with white space alone before and behind it and none at its own ends.
pub proof fn law_trimming_takes_white_space(s: Seq<char>)
    ensures
        exists|i: int, j: int|
            {
                &&& 0 <= i <= j <= s.len()
                &&& trimmed(s) == #[trigger] s.subrange(i, j)
                &&& forall|k: int| 0 <= k < i ==> is_white_space(#[trigger] s[k])
                &&& forall|k: int| j <= k < s.len() ==> is_white_space(#[trigger] s[k])
                &&& i < j ==> !is_white_space(s[i]) && !is_white_space(s[j - 1])
            },
{
    let i = lemma_start_of(s);
    let rest = s.skip(i);
    let n = lemma_end_of(rest);
    let j = i + n;
    assert(trimmed(s) =~= s.subrange(i, j));
    assert forall|k: int| j <= k < s.len() implies is_white_space(#[trigger] s[k]) by {
        assert(s[k] == rest[k - i]);
    }
    if i < j {
        assert(s[j - 1] == rest[n - 1]);
    }
}

/// Text between white space is what trimming leaves of it.
pub proof fn law_trimmed_of_padded(before: Seq<char>, text: Seq<char>, after: Seq<char>)
    requires
        forall|k: int| 0 <= k < before.len() ==> is_white_space(#[trigger] before[k]),
        forall|k: int| 0 <= k < after.len() ==> is_white_space(#[trigger] after[k]),
        text.len() > 0 ==> !is_white_space(text.first()) && !is_white_space(text.last()),
    ensures
        trimmed(before + text + after) == text,
{
    let s = before + text + after;
    let i = lemma_start_of(s);
    let rest = s.skip(i);
    let n = lemma_end_of(rest);
    if text.len() > 0 {
        let start = before.len() as int;
        let end = (before.len() + text.len()) as int;
        assert(s[start] == text.first());
        assert(s[end - 1] == text.last());
        assert(i <= start);
        if i < start {
            assert(s[i] == before[i]);
        }
        assert(rest[end - 1 - i] == s[end - 1]);
        assert(end - i <= n);
        if end - i < n {
            assert(rest[n - 1] == s[i + n - 1]);
            assert(s[i + n - 1] == after[i + n - 1 - end]);
        }
        assert(trimmed(s) =~= text);
    } else {
        if i < s.len() {
            assert(s[i] == if i < before.len() {
                before[i]
            } else {
                after[i - before.len()]
            });
        }
        assert(trimmed(s) =~= text);
    }
}

/// Where the text without the white space at its start begins.
proof fn lemma_start_of(s: Seq<char>) -> (i: int)
    ensures
        0 <= i <= s.len(),
        trimmed_start(s) == s.skip(i),
        forall|k: int| 0 <= k < i ==> is_white_space(#[trigger] s[k]),
        i < s.len() ==> !is_white_space(s[i]),
    decreases s.len(),
{
    if s.len() > 0 && is_white_space(s.first()) {
        let i = lemma_start_of(s.drop_first());
        assert(s.drop_first().skip(i) =~= s.skip(i + 1));
        assert forall|k: int| 0 <= k < i + 1 implies is_white_space(#[trigger] s[k]) by {
            if k > 0 {
                assert(s[k] == s.drop_first()[k - 1]);
            }
        }
        i + 1
    } else {
        assert(s.skip(0) =~= s);
        0
    }
}

/// Where the text without the white space at its end ends.
proof fn lemma_end_of(s: Seq<char>) -> (j: int)
    ensures
        0 <= j <= s.len(),
        trimmed_end(s) == s.take(j),
        forall|k: int| j <= k < s.len() ==> is_white_space(#[trigger] s[k]),
        j > 0 ==> !is_white_space(s[j - 1]),
    decreases s.len(),
{
    if s.len() > 0 && is_white_space(s.last()) {
        let j = lemma_end_of(s.drop_last());
        assert(s.drop_last().take(j) =~= s.take(j));
        assert forall|k: int| j <= k < s.len() implies is_white_space(#[trigger] s[k]) by {
            if k < s.len() - 1 {
                assert(s[k] == s.drop_last()[k]);
            }
        }
        j
    } else {
        assert(s.take(s.len() as int) =~= s);
        s.len() as int
    }
}

/// A pattern occurs in a text exactly where the text is something, the pattern and something more.
pub proof fn law_occurs(s: Seq<char>, pattern: Seq<char>)
    ensures
        occurs_in(s, pattern) <==> exists|before: Seq<char>, after: Seq<char>|
            s == #[trigger] (before + pattern + after),
{
    if occurs_in(s, pattern) {
        let i = choose|i: int| occurs_at(s, pattern, i);
        let before = s.take(i);
        let after = s.skip(i + pattern.len());
        assert(s.subrange(i, i + pattern.len()) == pattern);
        assert(s =~= before + pattern + after);
    }
    if exists|before: Seq<char>, after: Seq<char>| s == #[trigger] (before + pattern + after) {
        let (before, after) = choose|before: Seq<char>, after: Seq<char>|
            s == #[trigger] (before + pattern + after);
        lemma_stands(before, pattern, after);
    }
}

/// A pattern between two texts stands behind the first of them.
proof fn lemma_stands(before: Seq<char>, pattern: Seq<char>, after: Seq<char>)
    ensures
        occurs_at(before + pattern + after, pattern, before.len() as int),
{
    let s = before + pattern + after;
    assert(s.subrange(before.len() as int, (before.len() + pattern.len()) as int) =~= pattern);
}

/// Of all occurrences the first is replaced, and what stands around it stays; a text in which the
/// pattern does not occur stays as it is.
pub proof fn law_first_is_replaced(
    before: Seq<char>,
    pattern: Seq<char>,
    after: Seq<char>,
    with: Seq<char>,
)
    ensures
        (forall|i: int|
            0 <= i < before.len() ==> #[trigger] (before + pattern + after).subrange(
                i,
                i + pattern.len(),
            ) != pattern) ==> first_replaced(before + pattern + after, pattern, with) == before
            + with + after,
        (forall|i: int|
            0 <= i <= before.len() - pattern.len() ==> #[trigger] before.subrange(
                i,
                i + pattern.len(),
            ) != pattern) ==> first_replaced(before, pattern, with) == before,
{
    let s = before + pattern + after;
    let at = before.len() as int;
    if forall|i: int|
        0 <= i < before.len() ==> #[trigger] s.subrange(i, i + pattern.len()) != pattern {
        lemma_stands(before, pattern, after);
        assert(first_at(s, pattern, at));
        let i = choose|i: int| first_at(s, pattern, i);
        assert(i == at);
        assert(s.take(at) =~= before);
        assert(s.skip(at + pattern.len()) =~= after);
    }
}

/// Replacing a character replaces each of its occurrences, and no other character.
pub proof fn law_char_replaced(s: Seq<char>, from: char, to: char)
    ensures
        char_replaced(s, from, to).len() == s.len(),
        forall|i: int|
            0 <= i < s.len() ==> {
                &&& s[i] == from ==> #[trigger] char_replaced(s, from, to)[i] == to
                &&& s[i] != from ==> char_replaced(s, from, to)[i] == s[i]
            },
{
}

/// The number that decimal digits stand for, the last of them being the units.
pub open spec fn number_of(digits: Seq<char>) -> nat
    decreases digits.len(),
{
    if digits.len() == 0 {
        0
    } else {
        10 * number_of(digits.drop_last()) + (digits.last() as nat - '0' as nat) as nat
    }
}

/// The digits of a number, read as a number, are that number; each is a digit, and there is no
/// leading zero.
pub proof fn law_decimal_reads_back(n: nat)
    ensures
        number_of(decimal_of(n)) == n,
        decimal_of(n).len() > 0,
        forall|i: int|
            0 <= i < decimal_of(n).len() ==> '0' <= #[trigger] decimal_of(n)[i] <= '9',
        decimal_of(n).len() > 1 ==> decimal_of(n).first() != '0',
    decreases n,
{
    if n >= 10 {
        let rest = decimal_of(n / 10);
        law_decimal_reads_back(n / 10);
        assert(decimal_of(n).drop_last() =~= rest);
        assert(decimal_of(n).first() == rest.first());
        if rest.len() == 1 {
            assert(n / 10 > 0);
            assert(rest.drop_last() =~= Seq::<char>::empty());
            assert(number_of(rest.drop_last()) == 0);
        }
    } else {
        assert(decimal_of(n).drop_last() =~= Seq::<char>::empty());
        assert(number_of(decimal_of(n).drop_last()) == 0);
    }
}

/// One more digit at the end of a number is one more digit at the end of its decimal; a single digit
/// is the character that lies its value above `0`.
pub proof fn law_decimal_of_one_more_digit(n: nat, d: nat)
    requires
        d < 10,
    ensures
        n > 0 ==> decimal_of(10 * n + d) == decimal_of(n) + decimal_of(d),
        decimal_of(d).len() == 1,
        decimal_of(d)[0] as nat == 48 + d,
{
    if n > 0 {
        assert((10 * n + d) / 10 == n && (10 * n + d) % 10 == d);
        assert(decimal_of(10 * n + d) =~= decimal_of(n) + decimal_of(d));
    }
}

/// The texts of strings are those of the strings at the same places.
pub proof fn law_texts(strings: Seq<String>, s: String)
    ensures
        texts(strings).len() == strings.len(),
        forall|i: int| 0 <= i < strings.len() ==> #[trigger] texts(strings)[i] == strings[i]@,
        text_in(Some(s)) == Some(s@),
        text_in(None) is None,
{
}

/// Different numbers are different in decimal.
pub proof fn law_decimal(a: nat, b: nat)
    requires
        decimal_of(a) == decimal_of(b),
    ensures
        a == b,
    decreases a,
{
    if a >= 10 && b >= 10 {
        assert(decimal_of(a).drop_last() =~= decimal_of(a / 10));
        assert(decimal_of(b).drop_last() =~= decimal_of(b / 10));
        law_decimal(a / 10, b / 10);
        assert(decimal_of(a).last() == digit(a % 10));
        assert(decimal_of(b).last() == digit(b % 10));
    } else if a < 10 && b < 10 {
        assert(decimal_of(a)[0] == digit(a));
        assert(decimal_of(b)[0] == digit(b));
    } else if a < 10 {
        assert(decimal_of(b).len() == decimal_of(b / 10).len() + 1);
    } else {
        assert(decimal_of(a).len() == decimal_of(a / 10).len() + 1);
    }
}

} // verus!
