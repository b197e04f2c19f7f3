//! Lookups by string key over vectors of records, with the "last entry wins"
//! meaning of a map collected from them.
use vstd::prelude::*;

verus! {

/// A record that is found again by one string key.
pub trait Keyed {
    /// The key, as characters.
    spec fn key(&self) -> Seq<char>;

    /// The key itself.
    fn key_string(&self) -> (r: &String)
        ensures
            r@ == self.key(),
    ;
}

/// The last record in `s` whose key is `k`: what a map collected from `s`
/// (later entries replacing earlier ones) holds under `k`.
pub open spec fn last_with_key<T: Keyed>(s: Seq<T>, k: Seq<char>) -> Option<T>
    decreases s.len(),
{
    if s.len() == 0 {
        None
    } else if s.last().key() == k {
        Some(s.last())
    } else {
        last_with_key(s.drop_last(), k)
    }
}

/// Whether some record of `s` has the key `k`.
pub open spec fn has_key<T: Keyed>(s: Seq<T>, k: Seq<char>) -> bool {
    exists|i: int| 0 <= i < s.len() && #[trigger] s[i].key() == k
}

/// Index of the last record of `items` whose key is `key`.
pub fn find_last<T: Keyed>(items: &Vec<T>, key: &String) -> (r: Option<usize>)
    ensures
        match r {
            Some(i) => i < items@.len() && last_with_key(items@, key@) == Some(items@[i as int]),
            None => last_with_key(items@, key@) is None,
        },
{
    let mut i: usize = items.len();
    assert(items@.take(i as int) =~= items@);
    while i > 0
        invariant
            i <= items@.len(),
            last_with_key(items@, key@) == last_with_key(items@.take(i as int), key@),
        decreases i,
    {
        let k = items[i - 1].key_string();
        let ghost prefix = items@.take(i as int);
        assert(prefix.last() == items@[i - 1]);
        assert(prefix.drop_last() =~= items@.take(i - 1));
        if *k == *key {
            return Some(i - 1);
        }
        i = i - 1;
    }
    None
}


/// A lookup finds a record exactly when one has the key, and then finds the
/// last one: it has the key, and no later record has it.
pub proof fn lookups_find_the_last_record_with_the_key<T: Keyed>(s: Seq<T>, k: Seq<char>)
    ensures
        last_with_key(s, k) is None <==> !has_key(s, k),
        last_with_key(s, k) is Some ==> exists|i: int| 0 <= i < s.len() && s[i] == last_with_key(s, k)->0
            && #[trigger] s[i].key() == k && forall|j: int| i < j < s.len() ==> (#[trigger] s[j]).key() != k,
    decreases s.len(),
{
    if s.len() > 0 {
        let t = s.drop_last();
        lookups_find_the_last_record_with_the_key(t, k);
        if s.last().key() == k {
            let i = s.len() - 1;
            assert(s[i].key() == k);
        } else {
            if has_key(t, k) {
                let w = choose|i: int| 0 <= i < t.len() && #[trigger] t[i].key() == k;
                assert(s[w] == t[w]);
            }
            if has_key(s, k) {
                let w = choose|i: int| 0 <= i < s.len() && #[trigger] s[i].key() == k;
                assert(w < t.len());
                assert(t[w] == s[w]);
            }
            if last_with_key(t, k) is Some {
                let i = choose|i: int| 0 <= i < t.len() && t[i] == last_with_key(t, k)->0 && #[trigger] t[i].key()
                    == k && forall|j: int| i < j < t.len() ==> (#[trigger] t[j]).key() != k;
                assert(s[i] == t[i]);
                assert forall|j: int| i < j < s.len() implies (#[trigger] s[j]).key() != k by {
                    if j < t.len() {
                        assert(s[j] == t[j]);
                    }
                }
            }
        }
    }
}

} // verus!
