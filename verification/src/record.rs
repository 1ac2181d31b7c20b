//! Lists of records identified by a textual key, as stored at a state address.
//!
//! Every family keeps, at one state address, a list of records; a record is
//! found by the first element whose key matches, and written by replacing that
//! first match (or appending when there is none).

use vstd::prelude::*;

verus! {

/// A value that can be copied with its view kept.
pub trait Duplicate: View + Sized {
    /// A copy of the value.
    fn duplicate(&self) -> (d: Self)
        ensures
            d@ == self@,
    ;
}

impl Duplicate for String {
    fn duplicate(&self) -> (d: Self) {
        self.clone()
    }
}

/// A record that is identified by a textual key.
pub trait Record: Duplicate {
    /// The key of a record, from its view.
    spec fn key_of(v: Self::V) -> Seq<char>;

    /// The key of the record.
    fn key(&self) -> (k: &String)
        ensures
            k@ == Self::key_of(self@),
    ;
}

/// The views of the elements of a list.
pub open spec fn views<T: View>(list: Seq<T>) -> Seq<T::V> {
    list.map_values(|t: T| t@)
}

/// Index of the first record of `s` whose key is `k`.
pub open spec fn index_of_key<T: Record>(s: Seq<T::V>, k: Seq<char>) -> Option<int>
    decreases s.len(),
{
    if s.len() == 0 {
        None
    } else {
        match index_of_key::<T>(s.drop_last(), k) {
            Some(i) => Some(i),
            None => if T::key_of(s.last()) == k {
                Some(s.len() - 1)
            } else {
                None
            },
        }
    }
}

/// `i` is the position of the first record of `s` with key `k`.
pub open spec fn is_first_match<T: Record>(s: Seq<T::V>, k: Seq<char>, i: int) -> bool {
    &&& 0 <= i < s.len()
    &&& T::key_of(s[i]) == k
    &&& forall|j: int| 0 <= j < i ==> T::key_of(#[trigger] s[j]) != k
}

/// No record of `s` has key `k`.
pub open spec fn lacks_key<T: Record>(s: Seq<T::V>, k: Seq<char>) -> bool {
    forall|j: int| 0 <= j < s.len() ==> T::key_of(#[trigger] s[j]) != k
}

/// The first record of `s` with key `k`, if any.
pub open spec fn lookup<T: Record>(s: Seq<T::V>, k: Seq<char>) -> Option<T::V> {
    match index_of_key::<T>(s, k) {
        Some(i) => Some(s[i]),
        None => None,
    }
}

/// `s` with its first record of key `k` removed (if any) and `v` appended.
pub open spec fn upsert<T: Record>(s: Seq<T::V>, k: Seq<char>, v: T::V) -> Seq<T::V> {
    match index_of_key::<T>(s, k) {
        Some(i) => s.remove(i).push(v),
        None => s.push(v),
    }
}

/// How many records of `s` have key `k`.
pub open spec fn count_key<T: Record>(s: Seq<T::V>, k: Seq<char>) -> nat
    decreases s.len(),
{
    if s.len() == 0 {
        0
    } else {
        count_key::<T>(s.drop_last(), k) + if T::key_of(s.last()) == k {
            1nat
        } else {
            0nat
        }
    }
}

/// No two records of `s` share a key.
pub open spec fn keys_unique<T: Record>(s: Seq<T::V>) -> bool {
    forall|i: int, j: int|
        0 <= i < j < s.len() ==> T::key_of(#[trigger] s[i]) != T::key_of(#[trigger] s[j])
}

/// At most one record of `s` has key `k`.
pub open spec fn at_most_one_key<T: Record>(s: Seq<T::V>, k: Seq<char>) -> bool {
    forall|i: int, j: int|
        0 <= i < j < s.len() && T::key_of(#[trigger] s[i]) == k ==> T::key_of(#[trigger] s[j])
            != k
}

/// A list whose keys are unique has at most one record of each key.
pub proof fn lemma_unique_has_at_most_one<T: Record>(s: Seq<T::V>, k: Seq<char>)
    requires
        keys_unique::<T>(s),
    ensures
        at_most_one_key::<T>(s, k),
{
}

/// A list without a record of key `k` has at most one of it.
pub proof fn lemma_lacking_has_at_most_one<T: Record>(s: Seq<T::V>, k: Seq<char>)
    requires
        lacks_key::<T>(s, k),
    ensures
        at_most_one_key::<T>(s, k),
{
}

/// `index_of_key` finds exactly the first match, and nothing when there is none.
pub proof fn lemma_index_of_key<T: Record>(s: Seq<T::V>, k: Seq<char>)
    ensures
        match index_of_key::<T>(s, k) {
            Some(i) => is_first_match::<T>(s, k, i),
            None => lacks_key::<T>(s, k),
        },
    decreases s.len(),
{
    if s.len() > 0 {
        lemma_index_of_key::<T>(s.drop_last(), k);
        match index_of_key::<T>(s.drop_last(), k) {
            Some(i) => {
                assert(forall|j: int| 0 <= j < i ==> s.drop_last()[j] == s[j]);
            },
            None => {
                assert(forall|j: int| 0 <= j < s.len() - 1 ==> s.drop_last()[j] == s[j]);
            },
        }
    }
}

/// A first match determines `index_of_key`.
pub proof fn lemma_first_match_is_index<T: Record>(s: Seq<T::V>, k: Seq<char>, i: int)
    requires
        is_first_match::<T>(s, k, i),
    ensures
        index_of_key::<T>(s, k) == Some(i),
{
    lemma_index_of_key::<T>(s, k);
    match index_of_key::<T>(s, k) {
        Some(j) => {
            if j < i {
                assert(T::key_of(s[j]) != k);
            } else if i < j {
                assert(T::key_of(s[i]) != k);
            }
        },
        None => {
            assert(T::key_of(s[i]) != k);
        },
    }
}

/// Absence of a key determines `index_of_key`.
pub proof fn lemma_lacks_key_is_none<T: Record>(s: Seq<T::V>, k: Seq<char>)
    requires
        lacks_key::<T>(s, k),
    ensures
        index_of_key::<T>(s, k) == None::<int>,
{
    lemma_index_of_key::<T>(s, k);
    match index_of_key::<T>(s, k) {
        Some(j) => {
            assert(T::key_of(s[j]) != k);
        },
        None => {},
    }
}

/// A copy of every element of `list`, in order.
pub fn copy_all<T: Duplicate>(list: &Vec<T>) -> (r: Vec<T>)
    ensures
        views(r@) == views(list@),
{
    let mut r: Vec<T> = Vec::new();
    let mut i: usize = 0;
    while i < list.len()
        invariant
            i <= list.len(),
            r@.len() == i,
            forall|j: int| 0 <= j < i ==> (#[trigger] r@[j])@ == list@[j]@,
        decreases list.len() - i,
    {
        r.push(list[i].duplicate());
        i = i + 1;
    }
    assert(views(r@) =~= views(list@));
    r
}

/// Position of the first record in `list` whose key is `key`.
pub fn position<T: Record>(list: &Vec<T>, key: &str) -> (r: Option<usize>)
    ensures
        match r {
            Some(i) => index_of_key::<T>(views(list@), key@) == Some(i as int),
            None => index_of_key::<T>(views(list@), key@) == None::<int>,
        },
        r matches Some(i) ==> i < list@.len(),
{
    let wanted = key.to_string();
    let mut i: usize = 0;
    while i < list.len()
        invariant
            wanted@ == key@,
            i <= list.len(),
            forall|j: int| 0 <= j < i ==> T::key_of(#[trigger] views(list@)[j]) != key@,
        decreases list.len() - i,
    {
        if *list[i].key() == wanted {
            proof {
                lemma_first_match_is_index::<T>(views(list@), key@, i as int);
            }
            return Some(i);
        }
        i = i + 1;
    }
    proof {
        lemma_lacks_key_is_none::<T>(views(list@), key@);
    }
    None
}

/// A copy of the first record in `list` whose key is `key`.
pub fn find<T: Record>(list: &Vec<T>, key: &str) -> (r: Option<T>)
    ensures
        match r {
            Some(t) => lookup::<T>(views(list@), key@) == Some(t@),
            None => lookup::<T>(views(list@), key@) == None::<T::V>,
        },
{
    match position(list, key) {
        Some(i) => Some(list[i].duplicate()),
        None => None,
    }
}

/// Replaces the first record of key `key` in `list` by `value`, which goes
/// to the end of the list; appends `value` when no record has that key.
pub fn upsert_record<T: Record>(list: &mut Vec<T>, key: &str, value: T)
    ensures
        views(final(list)@) == upsert::<T>(views(old(list)@), key@, value@),
{
    let ghost before = views(list@);
    match position(list, key) {
        Some(i) => {
            list.remove(i);
            assert(views(list@) =~= before.remove(i as int));
        },
        None => {},
    }
    let ghost mid = views(list@);
    list.push(value);
    assert(views(list@) =~= mid.push(value@));
}

/// After an upsert, the part before the appended record has no record of the key.
proof fn lemma_upsert_body_lacks_key<T: Record>(s: Seq<T::V>, k: Seq<char>, v: T::V)
    requires
        at_most_one_key::<T>(s, k),
    ensures
        lacks_key::<T>(upsert::<T>(s, k, v).drop_last(), k),
        upsert::<T>(s, k, v).last() == v,
        upsert::<T>(s, k, v).len() >= 1,
{
    lemma_index_of_key::<T>(s, k);
    match index_of_key::<T>(s, k) {
        Some(i) => {
            let t = s.remove(i);
            assert(upsert::<T>(s, k, v).drop_last() =~= t);
            assert forall|j: int| 0 <= j < t.len() implies T::key_of(#[trigger] t[j]) != k by {
                if j < i {
                    assert(t[j] == s[j]);
                } else {
                    assert(t[j] == s[j + 1]);
                    assert(T::key_of(s[i]) == k);
                }
            }
        },
        None => {
            assert(upsert::<T>(s, k, v).drop_last() =~= s);
        },
    }
}

/// Law: a record written under its own key is what a lookup of that key
/// then finds, provided the list had at most one record of that key.
pub proof fn law_lookup_after_upsert<T: Record>(s: Seq<T::V>, k: Seq<char>, v: T::V)
    requires
        at_most_one_key::<T>(s, k),
        T::key_of(v) == k,
    ensures
        lookup::<T>(upsert::<T>(s, k, v), k) == Some(v),
{
    let t = upsert::<T>(s, k, v);
    lemma_upsert_body_lacks_key::<T>(s, k, v);
    assert forall|j: int| 0 <= j < t.len() - 1 implies T::key_of(#[trigger] t[j]) != k by {
        assert(t[j] == t.drop_last()[j]);
    }
    lemma_first_match_is_index::<T>(t, k, t.len() - 1);
}

/// Law: writing a record under key `k` does not change what a lookup of any
/// other key finds.
pub proof fn law_lookup_other_after_upsert<T: Record>(
    s: Seq<T::V>,
    k: Seq<char>,
    v: T::V,
    other: Seq<char>,
)
    requires
        T::key_of(v) == k,
        other != k,
    ensures
        lookup::<T>(upsert::<T>(s, k, v), other) == lookup::<T>(s, other),
{
    lemma_index_of_key::<T>(s, k);
    lemma_index_of_key::<T>(s, other);
    let t = upsert::<T>(s, k, v);
    match index_of_key::<T>(s, k) {
        Some(i) => {
            let r = s.remove(i);
            assert(t =~= r.push(v));
            match index_of_key::<T>(s, other) {
                Some(m) => {
                    assert(m != i);
                    if m < i {
                        assert forall|j: int| 0 <= j < m implies T::key_of(#[trigger] t[j])
                            != other by {
                            assert(t[j] == s[j]);
                        }
                        assert(t[m] == s[m]);
                        lemma_first_match_is_index::<T>(t, other, m);
                    } else {
                        assert forall|j: int| 0 <= j < m - 1 implies T::key_of(#[trigger] t[j])
                            != other by {
                            if j < i {
                                assert(t[j] == s[j]);
                            } else {
                                assert(t[j] == s[j + 1]);
                            }
                        }
                        assert(t[m - 1] == s[m]);
                        lemma_first_match_is_index::<T>(t, other, m - 1);
                    }
                },
                None => {
                    assert forall|j: int| 0 <= j < t.len() implies T::key_of(#[trigger] t[j])
                        != other by {
                        if j == t.len() - 1 {
                            assert(t[j] == v);
                        } else if j < i {
                            assert(t[j] == s[j]);
                        } else {
                            assert(t[j] == s[j + 1]);
                        }
                    }
                    lemma_lacks_key_is_none::<T>(t, other);
                },
            }
        },
        None => {
            assert(t =~= s.push(v));
            match index_of_key::<T>(s, other) {
                Some(m) => {
                    assert forall|j: int| 0 <= j < m implies T::key_of(#[trigger] t[j])
                        != other by {
                        assert(t[j] == s[j]);
                    }
                    assert(t[m] == s[m]);
                    lemma_first_match_is_index::<T>(t, other, m);
                },
                None => {
                    assert forall|j: int| 0 <= j < t.len() implies T::key_of(#[trigger] t[j])
                        != other by {
                        if j < s.len() {
                            assert(t[j] == s[j]);
                        }
                    }
                    lemma_lacks_key_is_none::<T>(t, other);
                },
            }
        },
    }
}

/// Law: writing a record under its own key keeps the keys of a list unique.
pub proof fn law_upsert_keeps_keys_unique<T: Record>(s: Seq<T::V>, k: Seq<char>, v: T::V)
    requires
        keys_unique::<T>(s),
        T::key_of(v) == k,
    ensures
        keys_unique::<T>(upsert::<T>(s, k, v)),
{
    let t = upsert::<T>(s, k, v);
    lemma_unique_has_at_most_one::<T>(s, k);
    lemma_upsert_body_lacks_key::<T>(s, k, v);
    lemma_index_of_key::<T>(s, k);
    let body = t.drop_last();
    assert(keys_unique::<T>(body)) by {
        match index_of_key::<T>(s, k) {
            Some(i) => {
                assert(body =~= s.remove(i));
                assert forall|a: int, b: int| 0 <= a < b < body.len() implies T::key_of(
                    #[trigger] body[a],
                ) != T::key_of(#[trigger] body[b]) by {
                    let sa = if a < i {
                        a
                    } else {
                        a + 1
                    };
                    let sb = if b < i {
                        b
                    } else {
                        b + 1
                    };
                    assert(body[a] == s[sa]);
                    assert(body[b] == s[sb]);
                }
            },
            None => {
                assert(body =~= s);
            },
        }
    }
    assert forall|a: int, b: int| 0 <= a < b < t.len() implies T::key_of(#[trigger] t[a])
        != T::key_of(#[trigger] t[b]) by {
        assert(t[a] == body[a]);
        if b == t.len() - 1 {
            assert(t[b] == v);
        } else {
            assert(t[b] == body[b]);
        }
    }
}

/// Law: an upsert grows the list by one record exactly when no record had the key.
pub proof fn law_upsert_length<T: Record>(s: Seq<T::V>, k: Seq<char>, v: T::V)
    ensures
        upsert::<T>(s, k, v).len() == if lookup::<T>(s, k) is Some {
            s.len()
        } else {
            s.len() + 1
        },
{
    lemma_index_of_key::<T>(s, k);
}

/// Law: writing the same record twice under its own key leaves the list as
/// writing it once does, provided the list had at most one record of the key.
pub proof fn law_upsert_twice<T: Record>(s: Seq<T::V>, k: Seq<char>, v: T::V)
    requires
        at_most_one_key::<T>(s, k),
        T::key_of(v) == k,
    ensures
        upsert::<T>(upsert::<T>(s, k, v), k, v) == upsert::<T>(s, k, v),
{
    let t = upsert::<T>(s, k, v);
    lemma_upsert_body_lacks_key::<T>(s, k, v);
    assert forall|j: int| 0 <= j < t.len() - 1 implies T::key_of(#[trigger] t[j]) != k by {
        assert(t[j] == t.drop_last()[j]);
    }
    lemma_first_match_is_index::<T>(t, k, t.len() - 1);
    assert(t.remove(t.len() - 1).push(v) =~= t);
}

} // verus!
