//! Laws of the text helpers.

use crate::text::{
    after_prefix, find, find_char, is_space, is_whitespace, lemma_find, lemma_find_is,
    lemma_trimmed, lines, lowered, same_text, split_at_first, split_once, strip_prefix, text_lines,
    texts, to_ascii_lowercase, trim, trimmed,
};
use vstd::prelude::*;

verus! {

/// Every character of the text is white space.
pub open spec fn is_blank(s: Seq<char>) -> bool {
    forall|i: int| 0 <= i < s.len() ==> is_space(#[trigger] s[i])
}

/// White space is told by its code point: the five controls from tab to carriage return, the
/// space, the next line and the no-break space, and the spaces and separators above them.
pub proof fn white_space_is_known(c: char, b: bool)
    requires
        call_ensures(is_whitespace, (c,), b),
    ensures
        b == is_space(c),
        b <==> seq![9u32, 10, 11, 12, 13, 32, 133, 160, 5760, 8192, 8193, 8194, 8195, 8196, 8197,
            8198, 8199, 8200, 8201, 8202, 8232, 8233, 8239, 8287, 12288].contains(c as u32),
{
    let codes = seq![9u32, 10, 11, 12, 13, 32, 133, 160, 5760, 8192, 8193, 8194, 8195, 8196, 8197,
            8198, 8199, 8200, 8201, 8202, 8232, 8233, 8239, 8287, 12288];
    let n = c as u32;
    assert(codes[0] == 9 && codes[1] == 10 && codes[2] == 11 && codes[3] == 12 && codes[4] == 13
        && codes[5] == 32 && codes[6] == 133 && codes[7] == 160 && codes[8] == 5760);
    assert(codes[9] == 8192 && codes[10] == 8193 && codes[11] == 8194 && codes[12] == 8195
        && codes[13] == 8196 && codes[14] == 8197 && codes[15] == 8198 && codes[16] == 8199
        && codes[17] == 8200 && codes[18] == 8201 && codes[19] == 8202 && codes[20] == 8232
        && codes[21] == 8233 && codes[22] == 8239 && codes[23] == 8287 && codes[24] == 12288);
}

/// Trimming drops the white space around a text, all of it and nothing else.
pub proof fn white_space_around_is_dropped(left: Seq<char>, s: Seq<char>, right: Seq<char>)
    requires
        is_blank(left),
        is_blank(right),
        s.len() > 0 ==> !is_space(s[0]) && !is_space(s.last()),
    ensures
        trimmed(left + s + right) == s,
{
    let t = left + s + right;
    let (a, b) = lemma_trimmed(t);
    let kept = t.subrange(a, b);
    if s.len() > 0 {
        assert(t[left.len() as int] == s[0]);
        assert(t[left.len() + s.len() - 1] == s.last());
        assert(a <= left.len());
        assert(b >= left.len() + s.len());
        if a < left.len() {
            assert(kept[0] == t[a] == left[a]);
            assert(false);
        }
        if b > left.len() + s.len() {
            assert(kept.last() == t[b - 1] == right[b - 1 - left.len() - s.len()]);
            assert(false);
        }
    } else if a < b {
        assert(kept[0] == t[a]);
        if a < left.len() {
            assert(t[a] == left[a]);
        } else {
            assert(t[a] == right[a - left.len()]);
        }
        assert(false);
    }
    assert(kept =~= s);
}

/// A call of `trim` cuts a text out of its argument: what it drops is white space, and what it
/// keeps has white space at neither end.
pub proof fn trim_drops_white_space(s: &str, t: &str) -> (ends: (Seq<char>, Seq<char>))
    requires
        call_ensures(trim, (s,), t),
    ensures
        is_blank(ends.0),
        is_blank(ends.1),
        s@ == ends.0 + t@ + ends.1,
        t@.len() > 0 ==> !is_space(t@[0]) && !is_space(t@.last()),
{
    let (a, b) = lemma_trimmed(s@);
    let left = s@.take(a);
    let right = s@.skip(b);
    assert(s@ =~= left + t@ + right);
    (left, right)
}

/// A text splits at the first place that holds the character, and nowhere where none does.
pub proof fn a_text_splits_at_the_first(left: Seq<char>, c: char, right: Seq<char>)
    requires
        !left.contains(c),
    ensures
        split_at_first(left.push(c) + right, c) == Some((left, right)),
        split_at_first(left, c) is None,
{
    let s = left.push(c) + right;
    assert forall|j: int| 0 <= j < left.len() implies s[j] != c by {
        assert(left[j] == s[j]);
        assert(left.contains(left[j]));
    }
    lemma_find_is(s, c, left.len() as int);
    assert(s.take(left.len() as int) =~= left);
    assert(s.skip(left.len() as int + 1) =~= right);
    lemma_find(left, c);
}

/// Calls that look for a character agree on its first place.
pub proof fn calls_find_the_first(s: &str, c: char, i: usize, parts: Option<(&str, &str)>)
    requires
        call_ensures(find_char, (s, c), i),
        call_ensures(split_once, (s, c), parts),
    ensures
        i <= s@.len(),
        forall|j: int| 0 <= j < i ==> s@[j] != c,
        parts is Some <==> s@.contains(c),
        i == s@.len() <==> !s@.contains(c),
        parts matches Some(p) ==> s@ == p.0@.push(c) + p.1@ && !p.0@.contains(c) && p.0@.len() == i,
{
    lemma_find(s@, c);
    if parts is Some {
        let p = parts->Some_0;
        assert(s@ =~= p.0@.push(c) + p.1@);
        if p.0@.contains(c) {
            let j = choose|j: int| 0 <= j < p.0@.len() && p.0@[j] == c;
            assert(s@[j] == c);
            assert(false);
        }
    }
}

/// What follows a prefix is the rest of the text, and only a text that starts with the prefix
/// has one.
pub proof fn a_prefix_leaves_the_rest(prefix: Seq<char>, rest: Seq<char>, s: Seq<char>)
    ensures
        after_prefix(prefix + rest, prefix) == Some(rest),
        after_prefix(s, prefix) is None ==> s != prefix + rest,
        after_prefix(s, prefix) matches Some(r) ==> s == prefix + r,
{
    assert(prefix.is_prefix_of(prefix + rest));
    assert((prefix + rest).skip(prefix.len() as int) =~= rest);
    if let Some(r) = after_prefix(s, prefix) {
        assert(s =~= prefix + r);
    }
}

/// A call of `strip_prefix` gives the rest of a text that starts with the prefix, and nothing
/// of any other.
pub proof fn strip_prefix_leaves_the_rest(s: &str, prefix: &str, rest: Option<&str>)
    requires
        call_ensures(strip_prefix, (s, prefix), rest),
    ensures
        rest matches Some(r) ==> s@ == prefix@ + r@,
        rest is None ==> forall|r: Seq<char>| s@ != #[trigger] (prefix@ + r),
{
    a_prefix_leaves_the_rest(prefix@, seq![], s@);
    assert forall|r: Seq<char>| rest is None implies s@ != #[trigger] (prefix@ + r) by {
        a_prefix_leaves_the_rest(prefix@, r, s@);
    }
}

/// Two texts are the same exactly when they have the same length and the same characters.
pub proof fn the_same_text_is_equal_everywhere(a: &str, b: &str, same: bool)
    requires
        call_ensures(same_text, (a, b), same),
    ensures
        same <==> a@.len() == b@.len() && forall|i: int| 0 <= i < a@.len() ==> a@[i] == b@[i],
{
    if a@.len() == b@.len() && forall|i: int| 0 <= i < a@.len() ==> a@[i] == b@[i] {
        assert(a@ =~= b@);
    }
}

/// Lower case changes the letters from A to Z alone: each becomes the letter 32 code points
/// above it, in its place.
pub proof fn lower_case_changes_capitals_alone(s: Seq<char>, i: int)
    requires
        0 <= i < s.len(),
    ensures
        lowered(s).len() == s.len(),
        65 <= s[i] as u32 <= 90 ==> lowered(s)[i] as u32 == s[i] as u32 + 32,
        !(65 <= s[i] as u32 <= 90) ==> lowered(s)[i] == s[i],
        lowered(lowered(s)) == lowered(s),
{
    assert(lowered(lowered(s)) =~= lowered(s));
}

/// A call of `to_ascii_lowercase` does the same to its argument.
pub proof fn to_ascii_lowercase_changes_capitals_alone(s: &str, t: String, i: int)
    requires
        call_ensures(to_ascii_lowercase, (s,), t),
        0 <= i < s@.len(),
    ensures
        t@.len() == s@.len(),
        65 <= s@[i] as u32 <= 90 ==> t@[i] as u32 == s@[i] as u32 + 32,
        !(65 <= s@[i] as u32 <= 90) ==> t@[i] == s@[i],
{
}

/// A line ends at a line feed, or at a carriage return and a line feed; the ending belongs to
/// no line. What follows the last ending is a line of its own, unless it is empty.
pub proof fn a_line_ends_at_a_line_feed(line: Seq<char>, rest: Seq<char>)
    requires
        !line.contains('\n'),
    ensures
        text_lines(seq![]) == Seq::<Seq<char>>::empty(),
        line.len() > 0 ==> text_lines(line) == seq![line],
        !(line.len() > 0 && line.last() == '\r') ==> text_lines(line.push('\n') + rest)
            == seq![line] + text_lines(rest),
        text_lines(line.push('\r').push('\n') + rest) == seq![line] + text_lines(rest),
{
    lemma_find(line, '\n');
    let whole = line.push('\n') + rest;
    assert forall|j: int| 0 <= j < line.len() implies whole[j] != '\n' by {
        assert(line.contains(line[j]));
    }
    lemma_find_is(whole, '\n', line.len() as int);
    assert(whole.take(line.len() as int) =~= line);
    assert(whole.skip(line.len() as int + 1) =~= rest);
    let other = line.push('\r').push('\n') + rest;
    assert forall|j: int| 0 <= j < line.len() + 1 implies other[j] != '\n' by {
        if j < line.len() {
            assert(line.contains(line[j]));
        }
    }
    lemma_find_is(other, '\n', line.len() as int + 1);
    assert(other.take(line.len() as int + 1) =~= line.push('\r'));
    assert(line.push('\r').drop_last() =~= line);
    assert(other.skip(line.len() as int + 2) =~= rest);
}

/// A line that is put behind the ending of a text is one more line, the last one.
pub proof fn a_further_line_comes_last(s: Seq<char>, line: Seq<char>)
    requires
        s.len() > 0 ==> s.last() == '\n',
        line.len() > 0,
        !line.contains('\n'),
    ensures
        text_lines(s + line) == text_lines(s).push(line),
    decreases s.len(),
{
    a_line_ends_at_a_line_feed(line, seq![]);
    let all = s + line;
    if s.len() == 0 {
        assert(all =~= line);
        assert(text_lines(s).push(line) =~= seq![line]);
    } else {
        let i = find(s, '\n');
        lemma_find(s, '\n');
        assert(s.contains(s.last()));
        assert forall|j: int| 0 <= j < i implies all[j] != '\n' by {
            assert(all[j] == s[j]);
        }
        assert(all[i] == s[i]);
        lemma_find_is(all, '\n', i);
        let rest = s.skip(i + 1);
        assert(all.take(i) =~= s.take(i));
        assert(all.skip(i + 1) =~= rest + line);
        if rest.len() > 0 {
            assert(rest.last() == s.last());
        }
        a_further_line_comes_last(rest, line);
        assert(text_lines(all) =~= text_lines(s).push(line));
    }
}

/// A call of `lines` gives the lines of its argument, each in its place.
pub proof fn lines_are_given_in_order(s: &str, v: Vec<String>)
    requires
        call_ensures(lines, (s,), v),
    ensures
        v@.len() == text_lines(s@).len(),
        forall|i: int| 0 <= i < v@.len() ==> (#[trigger] v@[i])@ == text_lines(s@)[i],
{
    assert forall|i: int| 0 <= i < v@.len() implies (#[trigger] v@[i])@ == text_lines(s@)[i] by {
        assert(texts(v@)[i] == v@[i]@);
    }
}

} // verus!
