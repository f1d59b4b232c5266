//! Ordering by an integer key: insertion sort and binary search over keyed records.

use vstd::prelude::*;

verus! {

broadcast use vstd::seq_lib::group_seq_properties, vstd::multiset::group_multiset_axioms;

/// Records ordered and looked up by an integer key.
pub trait Keyed {
    spec fn key_spec(&self) -> int;

    fn key(&self) -> (k: i128)
        ensures
            k == self.key_spec(),
    ;
}

/// Keys never decrease along the sequence.
pub open spec fn sorted_by_key<T: Keyed>(s: Seq<T>) -> bool {
    forall|i: int, j: int| 0 <= i < j < s.len() ==> s[i].key_spec() <= s[j].key_spec()
}

/// Keys strictly increase along the sequence, so every key occurs at most once.
pub open spec fn strictly_sorted_by_key<T: Keyed>(s: Seq<T>) -> bool {
    forall|i: int, j: int| 0 <= i < j < s.len() ==> s[i].key_spec() < s[j].key_spec()
}

/// Some record of the sequence carries the key.
pub open spec fn has_key<T: Keyed>(s: Seq<T>, key: int) -> bool {
    exists|i: int| 0 <= i < s.len() && s[i].key_spec() == key
}

/// Returns the records of `v` reordered so that keys never decrease.
pub fn sort_by_key<T: Keyed>(v: Vec<T>) -> (sorted: Vec<T>)
    ensures
        sorted_by_key(sorted@),
        sorted@.to_multiset() == v@.to_multiset(),
        sorted@.len() == v@.len(),
{
    let mut rest = v;
    let mut out: Vec<T> = Vec::new();
    while rest.len() > 0
        invariant
            sorted_by_key(out@),
            out@.to_multiset().add(rest@.to_multiset()) == v@.to_multiset(),
        decreases rest.len(),
    {
        let ghost before = rest@;
        let x = match rest.pop() {
            Some(x) => x,
            None => {
                assert(false);
                return out;
            },
        };
        proof {
            assert(before == rest@.push(x));
        }
        let k = x.key();
        let mut i: usize = 0;
        while i < out.len() && out[i].key() <= k
            invariant
                i <= out@.len(),
                forall|j: int| 0 <= j < i ==> out@[j].key_spec() <= k,
            decreases out@.len() - i,
        {
            i = i + 1;
        }
        let ghost old_out = out@;
        out.insert(i, x);
        proof {
            assert(out@ == old_out.insert(i as int, x));
            assert forall|a: int, b: int| 0 <= a < b < out@.len() implies out@[a].key_spec()
                <= out@[b].key_spec() by {
                if b < i {
                } else if b == i {
                } else if a < i {
                    assert(out@[a] == old_out[a]);
                    assert(out@[b] == old_out[b - 1]);
                    assert(old_out[i as int].key_spec() > k);
                } else if a == i {
                    assert(out@[b] == old_out[b - 1]);
                    assert(old_out[i as int].key_spec() > k);
                } else {
                    assert(out@[a] == old_out[a - 1]);
                    assert(out@[b] == old_out[b - 1]);
                }
            }
            assert(out@.to_multiset() == old_out.to_multiset().insert(x));
        }
    }
    proof {
        assert(rest@ == Seq::<T>::empty());
        assert(out@.to_multiset() == v@.to_multiset());
        out@.to_multiset_ensures();
        v@.to_multiset_ensures();
    }
    out
}

/// Finds the position of `key` in a strictly sorted vector.
pub fn search_by_key<T: Keyed>(v: &Vec<T>, key: i128) -> (found: Option<usize>)
    requires
        strictly_sorted_by_key(v@),
    ensures
        match found {
            Some(i) => i < v@.len() && v@[i as int].key_spec() == key,
            None => !has_key(v@, key as int),
        },
{
    let mut lo: usize = 0;
    let mut hi: usize = v.len();
    while lo < hi
        invariant
            lo <= hi <= v@.len(),
            strictly_sorted_by_key(v@),
            forall|j: int| 0 <= j < lo ==> v@[j].key_spec() < key,
            forall|j: int| hi <= j < v@.len() ==> v@[j].key_spec() > key,
        decreases hi - lo,
    {
        let mid = lo + (hi - lo) / 2;
        let k = v[mid].key();
        if k == key {
            return Some(mid);
        } else if k < key {
            lo = mid + 1;
        } else {
            hi = mid;
        }
    }
    None
}

/// In a strictly sorted sequence a key picks out a single position.
pub proof fn lemma_key_unique<T: Keyed>(s: Seq<T>, i: int, j: int)
    requires
        strictly_sorted_by_key(s),
        0 <= i < s.len(),
        0 <= j < s.len(),
        s[i].key_spec() == s[j].key_spec(),
    ensures
        i == j,
{
    if i < j {
        assert(s[i].key_spec() < s[j].key_spec());
    } else if j < i {
        assert(s[j].key_spec() < s[i].key_spec());
    }
}

} // verus!
