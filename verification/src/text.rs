//! Character level text helpers, each specified over `Seq<char>`.

use vstd::prelude::*;

verus! {

/// `String::push` appends the character to the end of the string and changes nothing else.
pub assume_specification[ String::push ](s: &mut String, c: char)
    ensures
        final(s)@ == old(s)@.push(c),
;

/// The characters that carry the Unicode `White_Space` property.
pub open spec fn is_space(c: char) -> bool {
    ||| '\u{9}' <= c <= '\u{d}'
    ||| c == '\u{20}'
    ||| c == '\u{85}'
    ||| c == '\u{a0}'
    ||| c == '\u{1680}'
    ||| '\u{2000}' <= c <= '\u{200a}'
    ||| '\u{2028}' <= c <= '\u{2029}'
    ||| c == '\u{202f}'
    ||| c == '\u{205f}'
    ||| c == '\u{3000}'
}

/// Tells whether `c` is white space.
pub fn is_whitespace(c: char) -> (b: bool)
    ensures
        b == is_space(c),
{
    ('\u{9}' <= c && c <= '\u{d}') || c == '\u{20}' || c == '\u{85}' || c == '\u{a0}' || c
        == '\u{1680}' || ('\u{2000}' <= c && c <= '\u{200a}') || ('\u{2028}' <= c && c
        <= '\u{2029}') || c == '\u{202f}' || c == '\u{205f}' || c == '\u{3000}'
}

/// The position of the first `c` in `s`, or the length of `s` when there is none.
pub open spec fn find(s: Seq<char>, c: char) -> int
    decreases s.len(),
{
    if s.len() == 0 || s[0] == c {
        0
    } else {
        1 + find(s.skip(1), c)
    }
}

/// `find` returns the first position that holds `c`, and the length exactly when `c` is absent.
pub proof fn lemma_find(s: Seq<char>, c: char)
    ensures
        0 <= find(s, c) <= s.len(),
        forall|j: int| 0 <= j < find(s, c) ==> s[j] != c,
        find(s, c) < s.len() ==> s[find(s, c)] == c,
        find(s, c) < s.len() <==> s.contains(c),
    decreases s.len(),
{
    if s.len() > 0 && s[0] != c {
        let rest = s.skip(1);
        lemma_find(rest, c);
        assert forall|j: int| 0 <= j < find(s, c) implies s[j] != c by {
            if j > 0 {
                assert(s[j] == rest[j - 1]);
            }
        }
        if s.contains(c) {
            let j = choose|j: int| 0 <= j < s.len() && s[j] == c;
            assert(rest[j - 1] == c);
        }
    }
}

/// A position that holds `c` with no `c` before it is the position that `find` returns.
pub proof fn lemma_find_is(s: Seq<char>, c: char, i: int)
    requires
        0 <= i <= s.len(),
        forall|j: int| 0 <= j < i ==> s[j] != c,
        i == s.len() || s[i] == c,
    ensures
        find(s, c) == i,
{
    lemma_find(s, c);
}

/// Returns the position of the first `c` in `s`, or the number of characters of `s`.
pub fn find_char(s: &str, c: char) -> (i: usize)
    ensures
        i == find(s@, c),
        i <= s@.len(),
{
    let mut i: usize = 0;
    let n: usize = s.unicode_len();
    for d in it: s.chars()
        invariant
            i == it.index(),
            it.seq() == s@,
            n == s@.len(),
            forall|j: int| 0 <= j < i ==> s@[j] != c,
    {
        if d == c {
            proof {
                lemma_find_is(s@, c, i as int);
            }
            return i;
        }
        i = i + 1;
    }
    proof {
        lemma_find_is(s@, c, i as int);
    }
    i
}

/// `s` without the white space at its start.
pub open spec fn trimmed_start(s: Seq<char>) -> Seq<char>
    decreases s.len(),
{
    if s.len() > 0 && is_space(s[0]) {
        trimmed_start(s.skip(1))
    } else {
        s
    }
}

/// `s` without the white space at its end.
pub open spec fn trimmed_end(s: Seq<char>) -> Seq<char>
    decreases s.len(),
{
    if s.len() > 0 && is_space(s.last()) {
        trimmed_end(s.drop_last())
    } else {
        s
    }
}

/// `s` without the white space at either end.
pub open spec fn trimmed(s: Seq<char>) -> Seq<char> {
    trimmed_end(trimmed_start(s))
}

/// A text with white space at neither end.
pub open spec fn is_trimmed(s: Seq<char>) -> bool {
    s.len() > 0 ==> !is_space(s[0]) && !is_space(s.last())
}

proof fn lemma_trimmed_start_is(s: Seq<char>, a: int)
    requires
        0 <= a <= s.len(),
        forall|j: int| 0 <= j < a ==> is_space(s[j]),
        a < s.len() ==> !is_space(s[a]),
    ensures
        trimmed_start(s) == s.skip(a),
    decreases s.len(),
{
    if a == 0 {
        assert(s.skip(0) =~= s);
    } else {
        let rest = s.skip(1);
        assert forall|j: int| 0 <= j < a - 1 implies is_space(rest[j]) by {
            assert(rest[j] == s[j + 1]);
        }
        lemma_trimmed_start_is(rest, a - 1);
        assert(rest.skip(a - 1) =~= s.skip(a));
    }
}

proof fn lemma_trimmed_end_is(s: Seq<char>, b: int)
    requires
        0 <= b <= s.len(),
        forall|j: int| b <= j < s.len() ==> is_space(s[j]),
        b > 0 ==> !is_space(s[b - 1]),
    ensures
        trimmed_end(s) == s.take(b),
    decreases s.len(),
{
    if b == s.len() {
        assert(s.take(b) =~= s);
    } else {
        lemma_trimmed_end_is(s.drop_last(), b);
        assert(s.drop_last().take(b) =~= s.take(b));
    }
}

/// Trimming cuts out one stretch of the text: what it drops is white space, and what it
/// keeps has white space at neither end.
pub proof fn lemma_trimmed(s: Seq<char>) -> (bounds: (int, int))
    ensures
        0 <= bounds.0 <= bounds.1 <= s.len(),
        trimmed(s) == s.subrange(bounds.0, bounds.1),
        is_trimmed(trimmed(s)),
        forall|j: int| 0 <= j < bounds.0 ==> is_space(s[j]),
        forall|j: int| bounds.1 <= j < s.len() ==> is_space(s[j]),
{
    let a = lemma_first_kept(s);
    let t = s.skip(a);
    lemma_trimmed_start_is(s, a);
    let b = lemma_last_kept(t);
    lemma_trimmed_end_is(t, b);
    assert(t.take(b) =~= s.subrange(a, a + b));
    assert forall|j: int| a + b <= j < s.len() implies is_space(s[j]) by {
        assert(s[j] == t[j - a]);
    }
    if b > 0 {
        assert(t[0] == s[a]);
        assert(trimmed(s)[0] == t[0]);
        assert(trimmed(s).last() == t[b - 1]);
    }
    (a, a + b)
}

proof fn lemma_first_kept(s: Seq<char>) -> (a: int)
    ensures
        0 <= a <= s.len(),
        forall|j: int| 0 <= j < a ==> is_space(s[j]),
        a < s.len() ==> !is_space(s[a]),
    decreases s.len(),
{
    if s.len() > 0 && is_space(s[0]) {
        let rest = s.skip(1);
        let a = lemma_first_kept(rest);
        assert forall|j: int| 0 <= j < a + 1 implies is_space(s[j]) by {
            if j > 0 {
                assert(s[j] == rest[j - 1]);
            }
        }
        a + 1
    } else {
        0
    }
}

proof fn lemma_last_kept(s: Seq<char>) -> (b: int)
    ensures
        0 <= b <= s.len(),
        forall|j: int| b <= j < s.len() ==> is_space(s[j]),
        b > 0 ==> !is_space(s[b - 1]),
    decreases s.len(),
{
    if s.len() > 0 && is_space(s.last()) {
        let b = lemma_last_kept(s.drop_last());
        assert forall|j: int| b <= j < s.len() implies is_space(s[j]) by {
            if j < s.len() - 1 {
                assert(s[j] == s.drop_last()[j]);
            }
        }
        b
    } else {
        s.len() as int
    }
}

/// A text that has white space at neither end is what trimming returns of it.
pub proof fn lemma_trimmed_id(s: Seq<char>)
    requires
        is_trimmed(s),
    ensures
        trimmed(s) == s,
{
}

/// White space at the end of a text does not change what trimming returns.
pub proof fn lemma_trimmed_push(s: Seq<char>, c: char)
    requires
        is_space(c),
    ensures
        trimmed(s.push(c)) == trimmed(s),
    decreases s.len(),
{
    let t = s.push(c);
    if s.len() > 0 && is_space(s[0]) {
        assert(t.skip(1) =~= s.skip(1).push(c));
        lemma_trimmed_push(s.skip(1), c);
    } else if s.len() > 0 {
        assert(t.drop_last() =~= s);
    } else {
        assert(t.skip(1) =~= s);
        assert(trimmed_start(t) == trimmed_start(t.skip(1)));
    }
}

/// Returns `s` without the white space at either end.
pub fn trim(s: &str) -> (t: &str)
    ensures
        t@ == trimmed(s@),
{
    let mut i: usize = 0;
    let n: usize = s.unicode_len();
    let mut first: usize = n;
    let mut end: usize = 0;
    for c in it: s.chars()
        invariant
            i == it.index(),
            it.seq() == s@,
            n == s@.len(),
            first == n ==> end == 0 && forall|j: int| 0 <= j < i ==> is_space(s@[j]),
            first < n ==> first < end <= i && !is_space(s@[first as int]) && !is_space(
                s@[end - 1],
            ),
            first < n ==> forall|j: int| 0 <= j < first ==> is_space(s@[j]),
            forall|j: int| end <= j < i ==> is_space(s@[j]),
            first <= n,
    {
        if !is_whitespace(c) {
            if first == n {
                first = i;
            }
            end = i + 1;
        }
        i = i + 1;
    }
    proof {
        lemma_trimmed_start_is(s@, first as int);
        let t = s@.skip(first as int);
        let b: int = if first == n { 0 } else { end - first };
        if first < n {
            assert(t[b - 1] == s@[end - 1]);
            assert forall|j: int| b <= j < t.len() implies is_space(t[j]) by {
                assert(t[j] == s@[j + first]);
            }
        }
        lemma_trimmed_end_is(t, b);
        assert(t.take(b) =~= s@.subrange(first as int, first + b));
    }
    if first == n {
        s.substring_char(n, n)
    } else {
        s.substring_char(first, end)
    }
}

/// What stands before and after the first `c`, when there is one.
pub open spec fn split_at_first(s: Seq<char>, c: char) -> Option<(Seq<char>, Seq<char>)> {
    let i = find(s, c);
    if i < s.len() {
        Some((s.take(i), s.skip(i + 1)))
    } else {
        None
    }
}

/// Splits `s` at the first `c`.
pub fn split_once(s: &str, c: char) -> (parts: Option<(&str, &str)>)
    ensures
        parts is Some <==> split_at_first(s@, c) is Some,
        parts matches Some(p) ==> split_at_first(s@, c) == Some((p.0@, p.1@)),
{
    let n: usize = s.unicode_len();
    let i: usize = find_char(s, c);
    if i < n {
        Some((s.substring_char(0, i), s.substring_char(i + 1, n)))
    } else {
        None
    }
}

/// Tells whether two texts hold the same characters.
pub fn same_text(a: &str, b: &str) -> (same: bool)
    ensures
        same == (a@ == b@),
{
    let n: usize = a.unicode_len();
    if n != b.unicode_len() {
        return false;
    }
    let mut i: usize = 0;
    let mut others = b.chars();
    for c in it: a.chars()
        invariant
            i == it.index(),
            it.seq() == a@,
            n == a@.len(),
            n == b@.len(),
            vstd::std_specs::iter::IteratorSpec::remaining(&others) == b@.skip(i as int),
            forall|j: int| 0 <= j < i ==> a@[j] == b@[j],
    {
        proof {
            assert(b@.skip(i as int)[0] == b@[i as int]);
            assert(b@.skip(i as int).drop_first() =~= b@.skip(i + 1));
        }
        match others.next() {
            Some(d) => {
                if c != d {
                    return false;
                }
            },
            None => {},
        }
        i = i + 1;
    }
    assert(a@ =~= b@);
    true
}

/// What follows `prefix` in `s`, when `s` starts with it.
pub open spec fn after_prefix(s: Seq<char>, prefix: Seq<char>) -> Option<Seq<char>> {
    if prefix.is_prefix_of(s) {
        Some(s.skip(prefix.len() as int))
    } else {
        None
    }
}

/// Returns what follows `prefix` in `s`, when `s` starts with it.
pub fn strip_prefix<'a>(s: &'a str, prefix: &str) -> (rest: Option<&'a str>)
    ensures
        rest is Some <==> after_prefix(s@, prefix@) is Some,
        rest matches Some(r) ==> after_prefix(s@, prefix@) == Some(r@),
{
    let n: usize = s.unicode_len();
    let k: usize = prefix.unicode_len();
    if n < k {
        return None;
    }
    if same_text(s.substring_char(0, k), prefix) {
        Some(s.substring_char(k, n))
    } else {
        None
    }
}

/// The ASCII lower case of `c`; characters outside `A..=Z` stay as they are.
pub open spec fn ascii_lower(c: char) -> char {
    if 'A' <= c <= 'Z' {
        (c as u8 + 32) as char
    } else {
        c
    }
}

/// Each character of `s` in ASCII lower case.
pub open spec fn lowered(s: Seq<char>) -> Seq<char> {
    Seq::new(s.len(), |i: int| ascii_lower(s[i]))
}

/// Returns `s` with the letters `A..=Z` in lower case.
pub fn to_ascii_lowercase(s: &str) -> (t: String)
    ensures
        t@ == lowered(s@),
{
    let mut t = String::new();
    for c in it: s.chars()
        invariant
            it.seq() == s@,
            t@ == lowered(s@.take(it.index() as int)),
    {
        let d: char = if 'A' <= c && c <= 'Z' {
            ((c as u8) + 32) as char
        } else {
            c
        };
        t.push(d);
        assert(t@ =~= lowered(s@.take(it.index() as int + 1)));
    }
    assert(s@.take(s@.len() as int) =~= s@);
    t
}

/// The contents of a list of strings.
pub open spec fn texts(v: Seq<String>) -> Seq<Seq<char>> {
    Seq::new(v.len(), |i: int| v[i]@)
}

/// `s` without the carriage return at its end, where it has one.
pub open spec fn without_cr(s: Seq<char>) -> Seq<char> {
    if s.len() > 0 && s.last() == '\r' {
        s.drop_last()
    } else {
        s
    }
}

/// The lines of a text. A line ends at a line feed or a carriage return and a line feed;
/// the last line needs no ending, and an ending opens no further line.
pub open spec fn text_lines(s: Seq<char>) -> Seq<Seq<char>>
    decreases s.len(),
{
    let i = find(s, '\n');
    if s.len() == 0 {
        seq![]
    } else if 0 <= i < s.len() {
        seq![without_cr(s.take(i))] + text_lines(s.skip(i + 1))
    } else {
        seq![s]
    }
}

/// Splits a text into its lines.
pub fn lines(s: &str) -> (v: Vec<String>)
    ensures
        texts(v@) == text_lines(s@),
{
    let mut v: Vec<String> = Vec::new();
    let mut current = String::new();
    let mut length: usize = 0;
    let ghost mut start: int = 0;
    let n: usize = s.unicode_len();
    assert(s@.skip(0) =~= s@);
    for c in it: s.chars()
        invariant
            it.seq() == s@,
            n == s@.len(),
            0 <= start <= it.index() <= n,
            current@ == s@.subrange(start, it.index() as int),
            length == current@.len(),
            forall|j: int| 0 <= j < current@.len() ==> current@[j] != '\n',
            text_lines(s@) == texts(v@) + text_lines(s@.skip(start)),
    {
        let ghost i = it.index() as int;
        if c == '\n' {
            proof {
                let rest = s@.skip(start);
                assert(rest.take(i - start) =~= current@);
                assert(rest[i - start] == s@[i]);
                assert forall|j: int| 0 <= j < i - start implies rest[j] != '\n' by {
                    assert(rest[j] == current@[j]);
                }
                lemma_find_is(rest, '\n', i - start);
                assert(rest.skip(i - start + 1) =~= s@.skip(i + 1));
            }
            let ghost before = v@;
            if length > 0 && current.as_str().get_char(length - 1) == '\r' {
                let line = current.as_str().substring_char(0, length - 1).to_owned();
                assert(line@ =~= without_cr(current@));
                v.push(line);
            } else {
                v.push(current);
            }
            assert(texts(v@) =~= texts(before) + seq![
                without_cr(s@.subrange(start, i)),
            ]);
            proof {
                assert(text_lines(s@) =~= texts(v@) + text_lines(s@.skip(i + 1)));
                start = i + 1;
            }
            current = String::new();
            length = 0;
            assert(current@ =~= s@.subrange(start, i + 1));
        } else {
            let ghost before = current@;
            current.push(c);
            length = length + 1;
            assert(current@ =~= s@.subrange(start, i + 1));
            assert forall|j: int| 0 <= j < current@.len() implies current@[j] != '\n' by {
                if j < before.len() {
                    assert(current@[j] == before[j]);
                }
            }
        }
    }
    proof {
        let rest = s@.skip(start);
        assert(rest =~= current@);
        lemma_find_is(rest, '\n', rest.len() as int);
    }
    let ghost before = v@;
    if length > 0 {
        v.push(current);
        assert(texts(v@) =~= texts(before) + seq![s@.skip(start)]);
    } else {
        assert(texts(v@) =~= texts(before) + text_lines(s@.skip(start)));
    }
    v
}

} // verus!
