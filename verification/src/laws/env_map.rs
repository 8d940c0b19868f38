//! Laws of the map from text to text.

use crate::env_map::{
    entries_map, key_at, stands_before, text_before, text_before_irreflexive, text_before_total,
    text_before_transitive, EnvMap,
};
use vstd::prelude::*;

verus! {

/// Where two texts first differ, the smaller character decides which stands before the other,
/// and a text stands before every longer text that begins with it.
pub proof fn the_first_difference_decides(
    common: Seq<char>,
    a: char,
    b: char,
    after_a: Seq<char>,
    after_b: Seq<char>,
)
    requires
        a < b,
    ensures
        text_before(common.push(a) + after_a, common.push(b) + after_b),
        !text_before(common.push(b) + after_b, common.push(a) + after_a),
        text_before(common, common.push(a) + after_a),
        !text_before(common.push(a) + after_a, common),
    decreases common.len(),
{
    let x = common.push(a) + after_a;
    let y = common.push(b) + after_b;
    if common.len() == 0 {
        assert(x[0] == a && y[0] == b);
    } else {
        let c = common.skip(1);
        assert(x.skip(1) =~= c.push(a) + after_a);
        assert(y.skip(1) =~= c.push(b) + after_b);
        assert(x[0] == common[0] && y[0] == common[0]);
        the_first_difference_decides(c, a, b, after_a, after_b);
    }
}

/// A call of `stands_before` tells that order: of two texts that differ, it puts exactly one
/// first.
pub proof fn a_call_tells_the_order(a: &str, b: &str, ab: bool, ba: bool)
    requires
        call_ensures(stands_before, (a, b), ab),
        call_ensures(stands_before, (b, a), ba),
    ensures
        ab == text_before(a@, b@),
        a@ == b@ ==> !ab && !ba,
        a@ != b@ ==> ab != ba,
{
    text_before_irreflexive(a@);
    text_before_total(a@, b@);
    if ab && ba {
        text_before_transitive(a@, b@, a@);
    }
}

/// A new map has no value for any key.
pub proof fn a_new_map_is_empty(m: EnvMap, key: &str, value: Option<&String>)
    requires
        call_ensures(EnvMap::new, (), m),
        call_ensures(EnvMap::get, (&m, key), value),
    ensures
        value is None,
{
}

/// After a key was given a value, that is its value, and every other key has what it had.
pub proof fn a_value_is_found_again(
    m: &mut EnvMap,
    key: String,
    value: String,
    asked: &str,
    before: Option<&String>,
    after: Option<&String>,
)
    requires
        call_ensures(EnvMap::get, (&*old(m), asked), before),
        call_ensures(EnvMap::insert, (m, key, value), ()),
        call_ensures(EnvMap::get, (&*final(m), asked), after),
    ensures
        asked@ == key@ ==> (after matches Some(found) && found@ == value@),
        asked@ != key@ ==> (after is Some <==> before is Some),
        asked@ != key@ && after is Some ==> after->Some_0@ == before->Some_0@,
{
}

/// The list of entries holds each key once, in increasing order, with the value that a look
/// for the key finds, and it holds every key that has a value.
pub proof fn the_entries_are_the_map(
    m: EnvMap,
    list: &Vec<(String, String)>,
    i: int,
    j: int,
    key: &str,
    value: Option<&String>,
)
    requires
        call_ensures(EnvMap::entries, (&m,), list),
        call_ensures(EnvMap::get, (&m, key), value),
    ensures
        0 <= i < j < list@.len() ==> text_before(list@[i].0@, list@[j].0@),
        0 <= i < list@.len() && list@[i].0@ == key@ ==> (value matches Some(v) && v@
            == list@[i].1@),
        value is Some ==> exists|k: int| 0 <= k < list@.len() && (#[trigger] list@[k]).0@ == key@,
{
    let s = list@;
    if 0 <= i < j < s.len() {
        assert(text_before(s[i].0@, s[j].0@));
    }
    if 0 <= i < s.len() && s[i].0@ == key@ {
        assert(key_at(s, i, key@));
        let k = choose|k: int| key_at(s, k, key@);
        text_before_irreflexive(key@);
        if k < i {
            assert(text_before(s[k].0@, s[i].0@));
        } else if i < k {
            assert(text_before(s[i].0@, s[k].0@));
        }
    }
    if value is Some {
        assert(entries_map(s).contains_key(key@));
        let k = choose|k: int| key_at(s, k, key@);
        assert(s[k].0@ == key@);
    }
}

/// A copy of a map finds for every key what the map finds.
pub proof fn a_copy_is_the_same_map(
    m: EnvMap,
    copy: EnvMap,
    key: &str,
    value: Option<&String>,
    copied: Option<&String>,
)
    requires
        call_ensures(EnvMap::clone, (&m,), copy),
        call_ensures(EnvMap::get, (&m, key), value),
        call_ensures(EnvMap::get, (&copy, key), copied),
    ensures
        value is Some <==> copied is Some,
        value is Some ==> value->Some_0@ == copied->Some_0@,
{
}

} // verus!
