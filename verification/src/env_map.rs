//! A map from text to text, kept in key order.

use crate::text::same_text;
use vstd::prelude::*;

verus! {

/// Lexicographic order by character: `a` stands strictly before `b`.
pub open spec fn text_before(a: Seq<char>, b: Seq<char>) -> bool
    decreases a.len(),
{
    if b.len() == 0 {
        false
    } else if a.len() == 0 {
        true
    } else if a[0] != b[0] {
        a[0] < b[0]
    } else {
        text_before(a.skip(1), b.skip(1))
    }
}

/// No text stands before itself.
pub proof fn text_before_irreflexive(a: Seq<char>)
    ensures
        !text_before(a, a),
    decreases a.len(),
{
    if a.len() > 0 {
        text_before_irreflexive(a.skip(1));
    }
}

/// What stands before a text stands before every text after it.
pub proof fn text_before_transitive(a: Seq<char>, b: Seq<char>, c: Seq<char>)
    requires
        text_before(a, b),
        text_before(b, c),
    ensures
        text_before(a, c),
    decreases a.len(),
{
    if a.len() > 0 && a[0] == b[0] && b[0] == c[0] {
        text_before_transitive(a.skip(1), b.skip(1), c.skip(1));
    }
}

/// Of two different texts, one stands before the other.
pub proof fn text_before_total(a: Seq<char>, b: Seq<char>)
    ensures
        a == b || text_before(a, b) || text_before(b, a),
    decreases a.len(),
{
    if a.len() > 0 && b.len() > 0 && a[0] == b[0] {
        text_before_total(a.skip(1), b.skip(1));
        if a.skip(1) == b.skip(1) {
            assert(a.len() == a.skip(1).len() + 1);
            assert(b.len() == b.skip(1).len() + 1);
            assert forall|i: int| 0 <= i < a.len() implies a[i] == b[i] by {
                if i > 0 {
                    assert(a[i] == a.skip(1)[i - 1]);
                    assert(b[i] == b.skip(1)[i - 1]);
                }
            }
            assert(a =~= b);
        }
    } else if a.len() == 0 && b.len() == 0 {
        assert(a =~= b);
    }
}

/// Tells whether `a` stands strictly before `b` in lexicographic order.
pub fn stands_before(a: &str, b: &str) -> (r: bool)
    ensures
        r == text_before(a@, b@),
{
    let n: usize = a.unicode_len();
    let m: usize = b.unicode_len();
    let mut i: usize = 0;
    let mut others = b.chars();
    assert(a@.skip(0) =~= a@);
    assert(b@.skip(0) =~= b@);
    for c in it: a.chars()
        invariant
            i == it.index(),
            it.seq() == a@,
            n == a@.len(),
            m == b@.len(),
            i <= m,
            vstd::std_specs::iter::IteratorSpec::remaining(&others) == b@.skip(i as int),
            text_before(a@, b@) == text_before(a@.skip(i as int), b@.skip(i as int)),
    {
        let ghost rest_a = a@.skip(i as int);
        let ghost rest_b = b@.skip(i as int);
        match others.next() {
            Some(d) => {
                assert(rest_a[0] == c);
                assert(rest_b[0] == d);
                if c != d {
                    return c < d;
                }
                assert(rest_a.skip(1) =~= a@.skip(i + 1));
                assert(rest_b.skip(1) =~= b@.skip(i + 1));
                assert(rest_b.drop_first() =~= b@.skip(i + 1));
            },
            None => {
                assert(rest_b.len() == 0);
                return false;
            },
        }
        i = i + 1;
    }
    assert(a@.skip(i as int).len() == 0);
    i < m
}

/// A map from text to text. The entries stand in strictly increasing key order, so each
/// key occurs once.
#[derive(Debug, PartialEq, Eq)]
pub struct EnvMap {
    entries: Vec<(String, String)>,
}

/// The keys of `s` increase strictly.
pub open spec fn keys_increase(s: Seq<(String, String)>) -> bool {
    forall|i: int, j: int|
        0 <= i < j < s.len() ==> text_before(#[trigger] s[i].0@, #[trigger] s[j].0@)
}

/// Position `i` of `s` holds the key `k`.
pub open spec fn key_at(s: Seq<(String, String)>, i: int, k: Seq<char>) -> bool {
    0 <= i < s.len() && s[i].0@ == k
}

/// The map that a list of entries with distinct keys stands for.
pub open spec fn entries_map(s: Seq<(String, String)>) -> Map<Seq<char>, Seq<char>> {
    Map::new(
        |k: Seq<char>| exists|i: int| key_at(s, i, k),
        |k: Seq<char>| s[choose|i: int| key_at(s, i, k)].1@,
    )
}

proof fn lemma_key_once(s: Seq<(String, String)>, i: int, j: int)
    requires
        keys_increase(s),
        0 <= i < s.len(),
        0 <= j < s.len(),
        s[i].0@ == s[j].0@,
    ensures
        i == j,
{
    text_before_irreflexive(s[i].0@);
    if i < j {
        assert(text_before(s[i].0@, s[j].0@));
    } else if j < i {
        assert(text_before(s[j].0@, s[i].0@));
    }
}

proof fn lemma_entry(s: Seq<(String, String)>, i: int)
    requires
        keys_increase(s),
        0 <= i < s.len(),
    ensures
        entries_map(s).contains_key(s[i].0@),
        entries_map(s)[s[i].0@] == s[i].1@,
{
    let k = s[i].0@;
    assert(key_at(s, i, k));
    let j = choose|j: int| key_at(s, j, k);
    lemma_key_once(s, i, j);
}

impl View for EnvMap {
    type V = Map<Seq<char>, Seq<char>>;

    closed spec fn view(&self) -> Map<Seq<char>, Seq<char>> {
        entries_map(self.entries@)
    }
}

impl Clone for EnvMap {
    fn clone(&self) -> (copy: Self)
        ensures
            copy@ == self@,
    {
        proof {
            use_type_invariant(self);
        }
        let mut entries: Vec<(String, String)> = Vec::new();
        for i in 0..self.entries.len()
            invariant
                entries@ == self.entries@.take(i as int),
        {
            entries.push((self.entries[i].0.clone(), self.entries[i].1.clone()));
            assert(entries@ =~= self.entries@.take(i + 1));
        }
        assert(entries@ =~= self.entries@);
        EnvMap { entries }
    }
}

impl EnvMap {
    #[verifier::type_invariant]
    spec fn ordered(self) -> bool {
        keys_increase(self.entries@)
    }

    /// The map without entries.
    pub fn new() -> (m: Self)
        ensures
            m@ == Map::<Seq<char>, Seq<char>>::empty(),
    {
        let m = EnvMap { entries: Vec::new() };
        assert(m@ =~= Map::<Seq<char>, Seq<char>>::empty());
        m
    }

    /// The first position whose key does not stand before `key`.
    fn position(&self, key: &str) -> (p: usize)
        ensures
            p <= self.entries@.len(),
            forall|i: int| 0 <= i < p ==> text_before(#[trigger] self.entries@[i].0@, key@),
            p < self.entries@.len() ==> !text_before(self.entries@[p as int].0@, key@),
    {
        let mut p: usize = 0;
        while p < self.entries.len() && stands_before(self.entries[p].0.as_str(), key)
            invariant
                p <= self.entries@.len(),
                forall|i: int| 0 <= i < p ==> text_before(#[trigger] self.entries@[i].0@, key@),
            decreases self.entries@.len() - p,
        {
            p = p + 1;
        }
        p
    }

    /// The value of `key`.
    pub fn get(&self, key: &str) -> (value: Option<&String>)
        ensures
            value is Some <==> self@.contains_key(key@),
            value matches Some(v) ==> v@ == self@[key@],
    {
        proof {
            use_type_invariant(self);
        }
        let p: usize = self.position(key);
        if p < self.entries.len() && same_text(self.entries[p].0.as_str(), key) {
            proof {
                lemma_entry(self.entries@, p as int);
            }
            return Some(&self.entries[p].1);
        }
        proof {
            if self@.contains_key(key@) {
                let i = choose|i: int| key_at(self.entries@, i, key@);
                text_before_irreflexive(key@);
                assert(p <= i);
                if p < i {
                    assert(text_before(self.entries@[p as int].0@, self.entries@[i].0@));
                }
            }
        }
        None
    }

    /// Gives `key` the value `value`, in place of the value that it had.
    pub fn insert(&mut self, key: String, value: String)
        ensures
            final(self)@ == old(self)@.insert(key@, value@),
    {
        proof {
            use_type_invariant(&*self);
        }
        let p: usize = self.position(key.as_str());
        let ghost before = self.entries@;
        let ghost k = key@;
        let ghost w = value@;
        let mut entries: Vec<(String, String)> = Vec::new();
        std::mem::swap(&mut entries, &mut self.entries);
        if p < entries.len() && same_text(entries[p].0.as_str(), key.as_str()) {
            entries.set(p, (key, value));
            proof {
                assert forall|i: int, j: int| 0 <= i < j < entries@.len() implies text_before(
                    #[trigger] entries@[i].0@,
                    #[trigger] entries@[j].0@,
                ) by {
                    assert(entries@[i].0@ == before[i].0@);
                    assert(entries@[j].0@ == before[j].0@);
                }
            }
        } else {
            entries.insert(p, (key, value));
            proof {
                if p < before.len() {
                    text_before_total(before[p as int].0@, k);
                }
                assert forall|i: int, j: int| 0 <= i < j < entries@.len() implies text_before(
                    #[trigger] entries@[i].0@,
                    #[trigger] entries@[j].0@,
                ) by {
                    let a = if i > p { i - 1 } else { i };
                    let b = if j > p { j - 1 } else { j };
                    if i == p {
                        assert(entries@[j] == before[b]);
                        if b > p {
                            assert(text_before(before[p as int].0@, before[b].0@));
                            text_before_transitive(k, before[p as int].0@, before[b].0@);
                        }
                    } else if j == p {
                        assert(entries@[i] == before[a]);
                        assert(text_before(before[a].0@, k));
                    } else {
                        assert(entries@[i] == before[a]);
                        assert(entries@[j] == before[b]);
                        assert(text_before(before[a].0@, before[b].0@));
                    }
                }
            }
        }
        proof {
            lemma_inserted(before, entries@, p as int, k, w);
        }
        self.entries = entries;
    }

    /// The entries in key order.
    pub fn entries(&self) -> (list: &Vec<(String, String)>)
        ensures
            keys_increase(list@),
            entries_map(list@) == self@,
    {
        proof {
            use_type_invariant(self);
        }
        &self.entries
    }
}

proof fn lemma_inserted(
    before: Seq<(String, String)>,
    after: Seq<(String, String)>,
    p: int,
    k: Seq<char>,
    w: Seq<char>,
)
    requires
        keys_increase(before),
        keys_increase(after),
        0 <= p < after.len(),
        after[p].0@ == k,
        after[p].1@ == w,
        ({
            ||| p < before.len() && before[p].0@ == k && after == before.update(p, after[p])
            ||| p <= before.len() && after == before.insert(p, after[p])
        }),
    ensures
        entries_map(after) == entries_map(before).insert(k, w),
{
    let m = entries_map(before);
    let n = entries_map(after);
    lemma_entry(after, p);
    assert forall|x: Seq<char>| n.contains_key(x) <==> #[trigger] m.insert(k, w).contains_key(
        x,
    ) by {
        if n.contains_key(x) && x != k {
            let i = choose|i: int| key_at(after, i, x);
            let a = if after.len() > before.len() && i > p { i - 1 } else { i };
            assert(key_at(before, a, x));
        }
        if m.contains_key(x) {
            let i = choose|i: int| key_at(before, i, x);
            let a = if after.len() > before.len() && i >= p { i + 1 } else { i };
            assert(key_at(after, a, x));
        }
    }
    assert forall|x: Seq<char>| #[trigger] n.contains_key(x) implies n[x] == m.insert(
        k,
        w,
    )[x] by {
        if x != k {
            let i = choose|i: int| key_at(after, i, x);
            let a = if after.len() > before.len() && i > p { i - 1 } else { i };
            assert(before[a] == after[i]);
            lemma_entry(before, a);
            lemma_entry(after, i);
        }
    }
    assert(n =~= m.insert(k, w));
}

} // verus!
