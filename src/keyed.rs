use vstd::prelude::*;

verus! {

/// A record that is found by a textual key.
pub trait Keyed {
    spec fn key(&self) -> Seq<char>;

    fn key_ref(&self) -> (r: &String)
        ensures
            r@ == self.key(),
    ;
}

/// The position of the record of `v` with key `k`, if there is one.
pub fn find<T: Keyed>(v: &Vec<T>, k: &String) -> (r: Option<usize>)
    requires
        keys_unique(v@),
    ensures
        match r {
            Some(i) => keyed_at(v@, i as int, k@) && lookup(v@, k@) == Some(v@[i as int]),
            None => lookup(v@, k@) is None,
        },
{
    let mut i: usize = 0;
    while i < v.len()
        invariant
            i <= v@.len(),
            keys_unique(v@),
            forall|j: int| 0 <= j < i ==> v@[j].key() != k@,
        decreases v@.len() - i,
    {
        let key: &String = v[i].key_ref();
        if key.eq(k) {
            proof {
                lemma_lookup_at(v@, i as int);
            }
            return Some(i);
        }
        i += 1;
    }
    proof {
        lemma_lookup_absent(v@, k@);
    }
    None
}

/// No two records of `s` share a key.
pub open spec fn keys_unique<T: Keyed>(s: Seq<T>) -> bool {
    forall|i: int, j: int|
        0 <= i < s.len() && 0 <= j < s.len() && i != j ==> #[trigger] s[i].key() != #[trigger] s[j].key()
}

/// `s` holds a record with key `k` at position `i`.
pub open spec fn keyed_at<T: Keyed>(s: Seq<T>, i: int, k: Seq<char>) -> bool {
    0 <= i < s.len() && s[i].key() == k
}

/// The record of `s` with key `k`, if there is one.
pub open spec fn lookup<T: Keyed>(s: Seq<T>, k: Seq<char>) -> Option<T> {
    if exists|i: int| keyed_at(s, i, k) {
        Some(s[choose|i: int| keyed_at(s, i, k)])
    } else {
        None
    }
}

pub proof fn lemma_lookup_at<T: Keyed>(s: Seq<T>, i: int)
    requires
        keys_unique(s),
        0 <= i < s.len(),
    ensures
        lookup(s, s[i].key()) == Some(s[i]),
{
    assert(keyed_at(s, i, s[i].key()));
    let j = choose|j: int| keyed_at(s, j, s[i].key());
    assert(s[j].key() == s[i].key());
}

pub proof fn lemma_lookup_absent<T: Keyed>(s: Seq<T>, k: Seq<char>)
    requires
        forall|i: int| 0 <= i < s.len() ==> s[i].key() != k,
    ensures
        lookup(s, k) is None,
{
}

/// Appending a record with a fresh key makes it found under that key and
/// changes no other lookup.
pub proof fn lemma_lookup_push<T: Keyed>(s: Seq<T>, r: T)
    requires
        keys_unique(s),
        lookup(s, r.key()) is None,
    ensures
        keys_unique(s.push(r)),
        lookup(s.push(r), r.key()) == Some(r),
        forall|k: Seq<char>| k != r.key() ==> #[trigger] lookup(s.push(r), k) == lookup(s, k),
{
    let t = s.push(r);
    assert forall|i: int| 0 <= i < s.len() implies s[i].key() != r.key() by {
        if s[i].key() == r.key() {
            assert(keyed_at(s, i, r.key()));
        }
    }
    assert(keys_unique(t)) by {
        assert forall|i: int, j: int|
            0 <= i < t.len() && 0 <= j < t.len() && i != j implies #[trigger] t[i].key()
            != #[trigger] t[j].key() by {
            if i < s.len() && j < s.len() {
                assert(t[i] == s[i] && t[j] == s[j]);
            } else if i < s.len() {
                assert(t[i] == s[i]);
            } else if j < s.len() {
                assert(t[j] == s[j]);
            }
        }
    }
    assert(t[s.len() as int] == r);
    lemma_lookup_at(t, s.len() as int);
    assert forall|k: Seq<char>| k != r.key() implies #[trigger] lookup(t, k) == lookup(s, k) by {
        if exists|i: int| keyed_at(s, i, k) {
            let i = choose|i: int| keyed_at(s, i, k);
            lemma_lookup_at(s, i);
            assert(t[i] == s[i]);
            lemma_lookup_at(t, i);
        } else {
            assert forall|i: int| 0 <= i < t.len() implies t[i].key() != k by {
                if i < s.len() {
                    assert(t[i] == s[i]);
                    assert(!keyed_at(s, i, k));
                }
            }
            lemma_lookup_absent(t, k);
        }
    }
}

/// Replacing a record by one with the same key makes the new one found under
/// that key and changes no other lookup.
pub proof fn lemma_lookup_update<T: Keyed>(s: Seq<T>, i: int, r: T)
    requires
        keys_unique(s),
        0 <= i < s.len(),
        r.key() == s[i].key(),
    ensures
        keys_unique(s.update(i, r)),
        lookup(s.update(i, r), r.key()) == Some(r),
        forall|k: Seq<char>| k != r.key() ==> #[trigger] lookup(s.update(i, r), k) == lookup(s, k),
{
    let t = s.update(i, r);
    assert(keys_unique(t)) by {
        assert forall|a: int, b: int|
            0 <= a < t.len() && 0 <= b < t.len() && a != b implies #[trigger] t[a].key()
            != #[trigger] t[b].key() by {
            assert(t[a].key() == s[a].key());
            assert(t[b].key() == s[b].key());
        }
    }
    lemma_lookup_at(t, i);
    assert forall|k: Seq<char>| k != r.key() implies #[trigger] lookup(t, k) == lookup(s, k) by {
        if exists|j: int| keyed_at(s, j, k) {
            let j = choose|j: int| keyed_at(s, j, k);
            lemma_lookup_at(s, j);
            assert(j != i);
            assert(t[j] == s[j]);
            lemma_lookup_at(t, j);
        } else {
            assert forall|j: int| 0 <= j < t.len() implies t[j].key() != k by {
                assert(!keyed_at(s, j, k));
                if j != i {
                    assert(t[j] == s[j]);
                }
            }
            lemma_lookup_absent(t, k);
        }
    }
}

} // verus!
