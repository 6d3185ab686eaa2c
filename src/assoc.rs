//! Association lists keyed by strings: a `Vec` of pairs whose keys are
//! unique, read as a map in which a later pair wins.

use vstd::prelude::*;

verus! {

/// The map that a sequence of key/value pairs describes; a later pair wins.
pub open spec fn assoc_map<V>(s: Seq<(Seq<char>, V)>) -> Map<Seq<char>, V>
    decreases s.len(),
{
    if s.len() == 0 {
        Map::empty()
    } else {
        assoc_map(s.drop_last()).insert(s.last().0, s.last().1)
    }
}

/// Whether no key occurs twice.
pub open spec fn keys_unique<V>(s: Seq<(Seq<char>, V)>) -> bool {
    forall|i: int, j: int| 0 <= i < s.len() && 0 <= j < s.len() && i != j ==> s[i].0 != s[j].0
}

/// The keys of a pair list, viewed.
pub open spec fn key_views<V>(s: Seq<(String, V)>) -> Seq<(Seq<char>, V)> {
    s.map_values(|p: (String, V)| (p.0@, p.1))
}

/// Replacing the value of a pair sets that key in the map.
pub proof fn lemma_assoc_update<V>(s: Seq<(Seq<char>, V)>, i: int, v: V)
    requires
        keys_unique(s),
        0 <= i < s.len(),
    ensures
        assoc_map(s.update(i, (s[i].0, v))) == assoc_map(s).insert(s[i].0, v),
        keys_unique(s.update(i, (s[i].0, v))),
    decreases s.len(),
{
    let t = s.update(i, (s[i].0, v));
    if i == s.len() - 1 {
        assert(t.drop_last() =~= s.drop_last());
        assert(assoc_map(t) =~= assoc_map(s).insert(s[i].0, v));
    } else {
        assert(t.drop_last() =~= s.drop_last().update(i, (s[i].0, v)));
        lemma_assoc_update(s.drop_last(), i, v);
        assert(s.last().0 != s[i].0);
        assert(assoc_map(t) =~= assoc_map(s).insert(s[i].0, v));
    }
}

/// Sets `key` to `value`: the pair with that key is replaced, or the pair is
/// appended where the key is new.
pub(crate) fn assoc_insert<V>(v: &mut Vec<(String, V)>, key: String, value: V)
    requires
        keys_unique(key_views(old(v)@)),
    ensures
        keys_unique(key_views(final(v)@)),
        assoc_map(key_views(final(v)@)) == assoc_map(key_views(old(v)@)).insert(key@, value),
        final(v)@.len() == old(v)@.len() || final(v)@.len() == old(v)@.len() + 1,
{
    let ghost s0 = key_views(v@);
    let mut i: usize = 0;
    while i < v.len()
        invariant
            v@ == old(v)@,
            s0 == key_views(v@),
            keys_unique(s0),
            i <= v.len(),
            forall|j: int| 0 <= j < i ==> s0[j].0 != key@,
        decreases v.len() - i,
    {
        if v[i].0 == key {
            v.set(i, (key, value));
            proof {
                lemma_assoc_update(s0, i as int, value);
                assert(key_views(v@) =~= s0.update(i as int, (s0[i as int].0, value)));
            }
            return;
        }
        i = i + 1;
    }
    v.push((key, value));
    proof {
        assert(key_views(v@) =~= s0.push((key@, value)));
        assert(key_views(v@).drop_last() =~= s0);
    }
}

} // verus!
