//! Maps from text keys to values, kept as a list of entries and read by the
//! last entry of a key.

use vstd::prelude::*;

verus! {

/// The entries of `s` as pairs of key text and value view.
pub open spec fn entries_view<V: View>(s: Seq<(String, V)>) -> Seq<(Seq<char>, V::V)> {
    Seq::new(s.len(), |i: int| (s[i].0@, s[i].1@))
}

/// The index of the last entry of `s` under `key`, or -1.
pub open spec fn last_index<W>(s: Seq<(Seq<char>, W)>, key: Seq<char>) -> int
    decreases s.len(),
{
    if s.len() == 0 {
        -1
    } else if s.last().0 == key {
        s.len() - 1
    } else {
        last_index(s.drop_last(), key)
    }
}

/// Whether `s` has an entry under `key`.
pub open spec fn has_key<W>(s: Seq<(Seq<char>, W)>, key: Seq<char>) -> bool {
    last_index(s, key) >= 0
}

/// The value that `s` holds under `key`.
pub open spec fn lookup<W>(s: Seq<(Seq<char>, W)>, key: Seq<char>) -> Option<W> {
    if has_key(s, key) {
        Some(s[last_index(s, key)].1)
    } else {
        None
    }
}

/// `s` with `value` under `key`: in place of the entry read under that key, or at the end.
pub open spec fn put<W>(s: Seq<(Seq<char>, W)>, key: Seq<char>, value: W) -> Seq<(Seq<char>, W)> {
    if has_key(s, key) {
        s.update(last_index(s, key), (key, value))
    } else {
        s.push((key, value))
    }
}

/// Whether no two entries of `s` stand under one key.
pub open spec fn unique_keys<W>(s: Seq<(Seq<char>, W)>) -> bool {
    forall|i: int, j: int| 0 <= i < j < s.len() ==> (#[trigger] s[i]).0 != (#[trigger] s[j]).0
}

/// The map that the entries of `s` make when they are stored one after the
/// other: of the entries under one key the last one is kept, where the first stood.
pub open spec fn collected<W>(s: Seq<(Seq<char>, W)>) -> Seq<(Seq<char>, W)>
    decreases s.len(),
{
    if s.len() == 0 {
        Seq::empty()
    } else {
        put(collected(s.drop_last()), s.last().0, s.last().1)
    }
}

/// The keys of `s`, in the order of its entries.
pub open spec fn keys<W>(s: Seq<(Seq<char>, W)>) -> Seq<Seq<char>> {
    Seq::new(s.len(), |i: int| s[i].0)
}

pub proof fn lemma_last_index<W>(s: Seq<(Seq<char>, W)>, key: Seq<char>)
    ensures
        -1 <= last_index(s, key) < s.len(),
        last_index(s, key) >= 0 ==> s[last_index(s, key)].0 == key,
        forall|j: int| last_index(s, key) < j < s.len() ==> s[j].0 != key,
    decreases s.len(),
{
    if s.len() > 0 && s.last().0 != key {
        let t = s.drop_last();
        lemma_last_index(t, key);
        assert forall|j: int| last_index(s, key) < j < s.len() implies s[j].0 != key by {
            if j < t.len() {
                assert(t[j] == s[j]);
            }
        }
    }
}

/// An index that holds `key`, with no later entry under it, is `last_index`.
pub proof fn lemma_last_index_is<W>(s: Seq<(Seq<char>, W)>, key: Seq<char>, k: int)
    requires
        -1 <= k < s.len(),
        k >= 0 ==> s[k].0 == key,
        forall|j: int| k < j < s.len() ==> s[j].0 != key,
    ensures
        last_index(s, key) == k,
{
    lemma_last_index(s, key);
}

/// A key is present exactly when it is among the keys.
pub proof fn lemma_has_key<W>(s: Seq<(Seq<char>, W)>, key: Seq<char>)
    ensures
        has_key(s, key) <==> keys(s).contains(key),
{
    lemma_last_index(s, key);
    if has_key(s, key) {
        assert(keys(s)[last_index(s, key)] == key);
    }
    if keys(s).contains(key) {
        let i = choose|i: int| 0 <= i < keys(s).len() && keys(s)[i] == key;
        assert(s[i].0 == key);
    }
}

/// After `put`, the key reads the new value and every other key reads as
/// before; and where no key stood twice, none does now.
pub proof fn lemma_put<W>(s: Seq<(Seq<char>, W)>, key: Seq<char>, value: W)
    ensures
        lookup(put(s, key, value), key) == Some(value),
        forall|other: Seq<char>|
            #![trigger lookup(put(s, key, value), other)]
            other != key ==> lookup(put(s, key, value), other) == lookup(s, other),
        unique_keys(s) ==> unique_keys(put(s, key, value)),
{
    lemma_last_index(s, key);
    let t = put(s, key, value);
    if has_key(s, key) {
        lemma_last_index_is(t, key, last_index(s, key));
    } else {
        lemma_last_index_is(t, key, s.len() as int);
    }
    assert forall|other: Seq<char>| #![trigger lookup(t, other)] other != key implies lookup(
        t,
        other,
    ) == lookup(s, other) by {
        lemma_last_index(s, other);
        lemma_last_index_is(t, other, last_index(s, other));
    }
    if unique_keys(s) {
        assert forall|i: int, j: int| 0 <= i < j < t.len() implies (#[trigger] t[i]).0 != (
        #[trigger] t[j]).0 by {
            if has_key(s, key) {
                assert(t[i].0 == s[i].0);
                assert(t[j].0 == s[j].0);
            } else if j < s.len() {
                assert(t[i] == s[i] && t[j] == s[j]);
            } else {
                assert(t[i] == s[i]);
            }
        }
    }
}

/// Collected entries hold every key once, and read as the entries they were collected from.
pub proof fn lemma_collected<W>(s: Seq<(Seq<char>, W)>)
    ensures
        unique_keys(collected(s)),
        forall|key: Seq<char>|
            #![trigger lookup(collected(s), key)]
            lookup(collected(s), key) == lookup(s, key),
        unique_keys(s) ==> collected(s) == s,
    decreases s.len(),
{
    if s.len() > 0 {
        let front = s.drop_last();
        let c = collected(front);
        lemma_collected(front);
        lemma_put(c, s.last().0, s.last().1);
        assert forall|key: Seq<char>| #![trigger lookup(collected(s), key)] lookup(
            collected(s),
            key,
        ) == lookup(s, key) by {
            lemma_last_index(s, key);
            lemma_last_index(front, key);
            if key != s.last().0 {
                assert(lookup(collected(s), key) == lookup(c, key));
                assert(lookup(c, key) == lookup(front, key));
                if last_index(front, key) >= 0 {
                    assert(front[last_index(front, key)] == s[last_index(front, key)]);
                }
            }
        }
        if unique_keys(s) {
            assert forall|i: int, j: int| 0 <= i < j < front.len() implies (
            #[trigger] front[i]).0 != (#[trigger] front[j]).0 by {
                assert(front[i] == s[i] && front[j] == s[j]);
            }
            lemma_last_index(front, s.last().0);
            if has_key(front, s.last().0) {
                let k = last_index(front, s.last().0);
                assert(front[k] == s[k]);
                assert(s[k].0 != s[s.len() - 1].0);
            }
            assert(c.push(s.last()) =~= s);
        }
    }
}

/// After an entry is appended, its key reads its value and every other key reads as before.
pub proof fn lemma_lookup_push<W>(s: Seq<(Seq<char>, W)>, k: Seq<char>, v: W)
    ensures
        forall|key: Seq<char>|
            #![trigger lookup(s.push((k, v)), key)]
            lookup(s.push((k, v)), key) == if key == k {
                Some(v)
            } else {
                lookup(s, key)
            },
        lookup(Seq::<(Seq<char>, W)>::empty(), k) is None,
{
    let t = s.push((k, v));
    assert(t.drop_last() =~= s);
    assert forall|key: Seq<char>| #![trigger lookup(t, key)] lookup(t, key) == if key == k {
        Some(v)
    } else {
        lookup(s, key)
    } by {
        lemma_last_index(s, key);
        if key != k {
            assert(last_index(t, key) == last_index(s, key));
            if last_index(s, key) >= 0 {
                assert(t[last_index(s, key)] == s[last_index(s, key)]);
            }
        }
    }
}

/// The index of the last entry of `v` under `key`.
pub fn find<V: View>(v: &Vec<(String, V)>, key: &str) -> (r: Option<usize>)
    ensures
        match r {
            Some(i) => i == last_index(entries_view(v@), key@) && i < v.len(),
            None => last_index(entries_view(v@), key@) == -1,
        },
{
    let wanted = key.to_owned();
    let mut j: usize = v.len();
    while j > 0
        invariant
            j <= v.len(),
            wanted@ == key@,
            forall|k: int| j <= k < v.len() ==> entries_view(v@)[k].0 != key@,
        decreases j,
    {
        j -= 1;
        if v[j].0 == wanted {
            proof {
                lemma_last_index_is(entries_view(v@), key@, j as int);
            }
            return Some(j);
        }
    }
    proof {
        lemma_last_index_is(entries_view(v@), key@, -1);
    }
    None
}

/// Whether `v` has an entry under `key`.
pub fn contains_key<V: View>(v: &Vec<(String, V)>, key: &str) -> (r: bool)
    ensures
        r == has_key(entries_view(v@), key@),
{
    find(v, key).is_some()
}

/// The value that `v` holds under `key`.
pub fn get<'a, V: View>(v: &'a Vec<(String, V)>, key: &str) -> (r: Option<&'a V>)
    ensures
        match r {
            Some(x) => lookup(entries_view(v@), key@) == Some(x@),
            None => lookup(entries_view(v@), key@) is None,
        },
{
    match find(v, key) {
        Some(i) => Some(&v[i].1),
        None => None,
    }
}

/// Stores `value` under `key`. Where no key stood twice, none does afterwards.
pub fn insert<V: View>(v: &mut Vec<(String, V)>, key: String, value: V)
    ensures
        entries_view(final(v)@) == put(entries_view(old(v)@), key@, value@),
        unique_keys(entries_view(old(v)@)) ==> unique_keys(entries_view(final(v)@)),
{
    proof {
        lemma_put(entries_view(v@), key@, value@);
    }
    match find(v, key.as_str()) {
        Some(i) => {
            v.set(i, (key, value));
        },
        None => {
            v.push((key, value));
        },
    }
    assert(entries_view(v@) =~= put(entries_view(old(v)@), key@, value@));
}

/// A copy of a list of text pairs.
pub fn clone_pairs(v: &Vec<(String, String)>) -> (r: Vec<(String, String)>)
    ensures
        entries_view(r@) == entries_view(v@),
{
    let mut r: Vec<(String, String)> = Vec::new();
    let mut i: usize = 0;
    while i < v.len()
        invariant
            i <= v.len(),
            r@.len() == i,
            forall|k: int| 0 <= k < i ==> r@[k].0@ == v@[k].0@ && r@[k].1@ == v@[k].1@,
        decreases v.len() - i,
    {
        r.push((v[i].0.clone(), v[i].1.clone()));
        i += 1;
    }
    assert(entries_view(r@) =~= entries_view(v@));
    r
}

/// A copy of a list of bytes.
pub fn clone_bytes(v: &Vec<u8>) -> (r: Vec<u8>)
    ensures
        r@ == v@,
{
    let mut r: Vec<u8> = Vec::new();
    let mut i: usize = 0;
    while i < v.len()
        invariant
            i <= v.len(),
            r@ == v@.take(i as int),
        decreases v.len() - i,
    {
        r.push(v[i]);
        i += 1;
    }
    assert(v@.take(v.len() as int) =~= v@);
    r
}

/// A copy of a list of secrets.
pub fn clone_secrets(v: &Vec<(String, Vec<u8>)>) -> (r: Vec<(String, Vec<u8>)>)
    ensures
        entries_view(r@) == entries_view(v@),
{
    let mut r: Vec<(String, Vec<u8>)> = Vec::new();
    let mut i: usize = 0;
    while i < v.len()
        invariant
            i <= v.len(),
            r@.len() == i,
            forall|k: int| 0 <= k < i ==> r@[k].0@ == v@[k].0@ && r@[k].1@ == v@[k].1@,
        decreases v.len() - i,
    {
        r.push((v[i].0.clone(), clone_bytes(&v[i].1)));
        i += 1;
    }
    assert(entries_view(r@) =~= entries_view(v@));
    r
}

/// The map that the entries of `v` make when they are stored one after the
/// other. It holds every key once.
pub fn collect<V: View>(v: Vec<(String, V)>) -> (r: Vec<(String, V)>)
    ensures
        entries_view(r@) == collected(entries_view(v@)),
        unique_keys(entries_view(r@)),
{
    let ghost all = entries_view(v@);
    let mut rest = v;
    let mut out: Vec<(String, V)> = Vec::new();
    assert(all.take(0) =~= Seq::<(Seq<char>, V::V)>::empty());
    assert(entries_view(out@) =~= Seq::<(Seq<char>, V::V)>::empty());
    assert(all.skip(0) =~= all);
    while rest.len() > 0
        invariant
            rest@.len() <= all.len(),
            entries_view(rest@) == all.skip(all.len() - rest@.len()),
            entries_view(out@) == collected(all.take(all.len() - rest@.len())),
        decreases rest.len(),
    {
        let ghost k = all.len() - rest@.len();
        let ghost before = entries_view(rest@);
        let ghost old_rest = rest@;
        let (key, value) = rest.remove(0);
        assert(before[0] == all[k]);
        assert(entries_view(rest@).len() == all.skip(k + 1).len());
        assert forall|i: int| 0 <= i < rest@.len() implies entries_view(rest@)[i] == all.skip(
            k + 1,
        )[i] by {
            assert(rest@[i] == old_rest[i + 1]);
            assert(before[i + 1] == all[k + 1 + i]);
        }
        assert(entries_view(rest@) =~= all.skip(k + 1));
        assert(all.take(k + 1).drop_last() =~= all.take(k));
        assert(all.take(k + 1).last() == all[k]);
        insert(&mut out, key, value);
    }
    assert(all.take(all.len() as int) =~= all);
    proof {
        lemma_collected(all);
    }
    out
}

} // verus!
