//! Association sequences: the shared model of the small
//! keyed collections in this crate (captured field bags, interner
//! caches, attribute bags). Keys are unique; the first match wins.

use vstd::prelude::*;

verus! {

/// Look up `key`; first match wins.
pub open spec fn assoc_lookup<K, V>(s: Seq<(K, V)>, key: K) -> Option<V>
    decreases s.len(),
{
    if s.len() == 0 {
        None
    } else if s[0].0 == key {
        Some(s[0].1)
    } else {
        assoc_lookup(s.drop_first(), key)
    }
}

/// The position of `key`, assuming it occurs.
pub open spec fn assoc_index<K, V>(s: Seq<(K, V)>, key: K) -> int {
    choose|i: int| 0 <= i < s.len() && s[i].0 == key
}

/// No key occurs twice.
pub open spec fn assoc_unique<K, V>(s: Seq<(K, V)>) -> bool {
    forall|i: int, j: int| 0 <= i < j < s.len() ==> s[i].0 != s[j].0
}

/// The sequence after storing `value` under `key`: an in-place
/// overwrite if the key is present, else an append.
pub open spec fn assoc_insert<K, V>(s: Seq<(K, V)>, key: K, value: V) -> Seq<(K, V)> {
    if assoc_lookup(s, key) is Some {
        s.update(assoc_index(s, key), (key, value))
    } else {
        s.push((key, value))
    }
}

/// The sequence after erasing `key`, if present.
pub open spec fn assoc_remove<K, V>(s: Seq<(K, V)>, key: K) -> Seq<(K, V)> {
    if assoc_lookup(s, key) is Some {
        s.remove(assoc_index(s, key))
    } else {
        s
    }
}

/// A successful lookup has a witness position.
pub proof fn lemma_assoc_some_index<K, V>(s: Seq<(K, V)>, key: K)
    requires
        assoc_lookup(s, key) is Some,
    ensures
        exists|i: int| 0 <= i < s.len() && s[i].0 == key,
    decreases s.len(),
{
    if s.len() > 0 {
        if s[0].0 == key {
            assert(0 <= 0 < s.len() && s[0].0 == key);
        } else {
            lemma_assoc_some_index(s.drop_first(), key);
            let j = choose|i: int|
                0 <= i < s.drop_first().len() && s.drop_first()[i].0 == key;
            assert(s[j + 1].0 == key);
        }
    }
}

/// An occurrence of the key makes the lookup succeed.
pub proof fn lemma_assoc_contains_some<K, V>(s: Seq<(K, V)>, key: K)
    requires
        exists|j: int| 0 <= j < s.len() && s[j].0 == key,
    ensures
        assoc_lookup(s, key) is Some,
    decreases s.len(),
{
    if s[0].0 == key {
    } else {
        let j = choose|j: int| 0 <= j < s.len() && s[j].0 == key;
        assert(s.drop_first()[j - 1].0 == key);
        lemma_assoc_contains_some(s.drop_first(), key);
    }
}

/// With unique keys, a match at position `i` pins `assoc_index`.
pub proof fn lemma_assoc_index<K, V>(s: Seq<(K, V)>, key: K, i: int)
    requires
        0 <= i < s.len(),
        s[i].0 == key,
        assoc_unique(s),
    ensures
        assoc_index(s, key) == i,
{
    let j = assoc_index(s, key);
    assert(0 <= j < s.len() && s[j].0 == key);
    if i < j {
        assert(s[i].0 != s[j].0);
    } else if j < i {
        assert(s[j].0 != s[i].0);
    }
}

/// A first match at position `i` determines the lookup result.
pub proof fn lemma_assoc_found<K, V>(s: Seq<(K, V)>, key: K, i: int)
    requires
        0 <= i < s.len(),
        s[i].0 == key,
        forall|j: int| 0 <= j < i ==> s[j].0 != key,
    ensures
        assoc_lookup(s, key) == Some(s[i].1),
    decreases s.len(),
{
    if i == 0 {
    } else {
        assert(s[0].0 != key);
        assert(s.drop_first()[i - 1] == s[i]);
        lemma_assoc_found(s.drop_first(), key, i - 1);
    }
}

/// If no entry has the key, the lookup fails.
pub proof fn lemma_assoc_absent<K, V>(s: Seq<(K, V)>, key: K)
    requires
        forall|j: int| 0 <= j < s.len() ==> s[j].0 != key,
    ensures
        assoc_lookup(s, key) is None,
    decreases s.len(),
{
    if s.len() > 0 {
        lemma_assoc_absent(s.drop_first(), key);
    }
}

/// Updating position `i` (an occurrence of `key`) changes only that
/// key's lookup.
pub proof fn lemma_assoc_update_other<K, V>(
    pre: Seq<(K, V)>,
    post: Seq<(K, V)>,
    key: K,
    value: V,
    i: int,
    k: K,
)
    requires
        0 <= i < pre.len(),
        pre[i].0 == key,
        post =~= pre.update(i, (key, value)),
        k != key,
    ensures
        assoc_lookup(post, k) == assoc_lookup(pre, k),
    decreases pre.len(),
{
    if pre.len() > 0 {
        if i == 0 {
            assert(post.drop_first() =~= pre.drop_first());
        } else {
            assert(post[0] == pre[0]);
            if pre[0].0 != k {
                assert(post.drop_first() =~= pre.drop_first().update(i - 1, (key, value)));
                lemma_assoc_update_other(
                    pre.drop_first(),
                    post.drop_first(),
                    key,
                    value,
                    i - 1,
                    k,
                );
            }
        }
    }
}

/// Appending a fresh key makes its lookup succeed and leaves all other
/// lookups unchanged.
pub proof fn lemma_assoc_absent_push<K, V>(pre: Seq<(K, V)>, key: K, value: V)
    requires
        assoc_lookup(pre, key) is None,
    ensures
        assoc_lookup(pre.push((key, value)), key) == Some(value),
        forall|k: K| k != key ==> assoc_lookup(pre.push((key, value)), k)
            == assoc_lookup(pre, k),
    decreases pre.len(),
{
    let post = pre.push((key, value));
    if pre.len() == 0 {
        assert(post[0].0 == key);
        assert forall|k: K| k != key implies assoc_lookup(post, k) == assoc_lookup(
            pre,
            k,
        ) by {
            assert(post.drop_first() =~= Seq::<(K, V)>::empty());
            assert(assoc_lookup(Seq::<(K, V)>::empty(), k) is None);
        }
    } else {
        lemma_assoc_absent_push(pre.drop_first(), key, value);
        assert(post.drop_first() =~= pre.drop_first().push((key, value)));
        assert forall|k: K| k != key implies assoc_lookup(post, k) == assoc_lookup(
            pre,
            k,
        ) by {
            if post[0].0 != k {
                assert(assoc_lookup(post.drop_first(), k) == assoc_lookup(
                    pre.drop_first(),
                    k,
                ));
            }
        }
    }
}

/// Removing the unique occurrence of `key` erases its lookup and
/// leaves all other lookups unchanged.
pub proof fn lemma_assoc_remove_effect<K, V>(
    pre: Seq<(K, V)>,
    post: Seq<(K, V)>,
    key: K,
    i: int,
)
    requires
        assoc_unique(pre),
        0 <= i < pre.len(),
        pre[i].0 == key,
        post =~= pre.remove(i),
    ensures
        assoc_unique(post),
        assoc_lookup(post, key) is None,
        forall|k: K| k != key ==> assoc_lookup(post, k) == assoc_lookup(pre, k),
{
    assert forall|j: int| 0 <= j < post.len() implies post[j].0 != key by {
        if j < i {
            assert(post[j] == pre[j]);
        } else {
            assert(post[j] == pre[j + 1]);
        }
    }
    lemma_assoc_absent(post, key);
    assert forall|k: K| k != key implies assoc_lookup(post, k) == assoc_lookup(pre, k) by {
        lemma_assoc_remove_other(pre, post, key, i, k);
    }
}

proof fn lemma_assoc_remove_other<K, V>(
    pre: Seq<(K, V)>,
    post: Seq<(K, V)>,
    key: K,
    i: int,
    k: K,
)
    requires
        0 <= i < pre.len(),
        pre[i].0 == key,
        post =~= pre.remove(i),
        k != key,
    ensures
        assoc_lookup(post, k) == assoc_lookup(pre, k),
    decreases pre.len(),
{
    if i == 0 {
        assert(post =~= pre.drop_first());
    } else {
        assert(post[0] == pre[0]);
        if pre[0].0 != k {
            assert(post.drop_first() =~= pre.drop_first().remove(i - 1));
            lemma_assoc_remove_other(pre.drop_first(), post.drop_first(), key, i - 1, k);
        }
    }
}

/// A lookup skips over a prefix that does not hold its key.
pub proof fn lemma_assoc_lookup_concat<K, V>(a: Seq<(K, V)>, b: Seq<(K, V)>, k: K)
    requires
        forall|i: int| 0 <= i < a.len() ==> a[i].0 != k,
    ensures
        assoc_lookup(a + b, k) == assoc_lookup(b, k),
    decreases a.len(),
{
    if a.len() == 0 {
        assert(a + b =~= b);
    } else {
        assert((a + b)[0] == a[0]);
        assert((a + b).drop_first() =~= a.drop_first() + b);
        lemma_assoc_lookup_concat(a.drop_first(), b, k);
    }
}

/// Erasing one key leaves every other lookup unchanged.
pub proof fn lemma_assoc_remove_lookup<K, V>(s: Seq<(K, V)>, key: K, k: K)
    requires
        assoc_unique(s),
        k != key,
    ensures
        assoc_lookup(assoc_remove(s, key), k) == assoc_lookup(s, k),
        assoc_unique(assoc_remove(s, key)),
{
    if assoc_lookup(s, key) is Some {
        lemma_assoc_some_index(s, key);
        let i = assoc_index(s, key);
        assert(0 <= i < s.len() && s[i].0 == key);
        lemma_assoc_remove_effect(s, s.remove(i), key, i);
    }
}

/// The effect of an in-place update (of the unique occurrence) or a
/// push of a fresh key, on every lookup.
pub proof fn lemma_assoc_insert_effect<K, V>(
    pre: Seq<(K, V)>,
    post: Seq<(K, V)>,
    key: K,
    value: V,
)
    requires
        assoc_unique(pre),
        assoc_lookup(pre, key) is Some ==> post =~= pre.update(
            assoc_index(pre, key),
            (key, value),
        ),
        assoc_lookup(pre, key) is None ==> post =~= pre.push((key, value)),
    ensures
        assoc_lookup(post, key) == Some(value),
        forall|k: K| k != key ==> assoc_lookup(post, k) == assoc_lookup(pre, k),
{
    if assoc_lookup(pre, key) is Some {
        lemma_assoc_some_index(pre, key);
        let i = assoc_index(pre, key);
        assert(forall|j: int| 0 <= j < i ==> pre[j].0 != key);
        lemma_assoc_found(post, key, i);
        assert forall|k: K| k != key implies assoc_lookup(post, k) == assoc_lookup(
            pre,
            k,
        ) by {
            lemma_assoc_update_other(pre, post, key, value, i, k);
        }
    } else {
        lemma_assoc_absent_push(pre, key, value);
    }
}

} // verus!
