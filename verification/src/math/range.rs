//! The range of a set of samples, found through integer keys: whoever holds
//! the samples gives each a key that orders as the samples do, and leaves out
//! the samples that are not to count.

use vstd::prelude::*;

verus! {

/// Whether any key is present.
pub open spec fn any_present(keys: Seq<Option<i64>>) -> bool {
    exists|k: int| 0 <= k < keys.len() && (#[trigger] keys[k]) is Some
}

/// Whether `at` is the first position of the least key present.
pub open spec fn is_least_at(keys: Seq<Option<i64>>, at: int) -> bool {
    &&& 0 <= at < keys.len()
    &&& keys[at] is Some
    &&& forall|k: int| 0 <= k < keys.len() && (#[trigger] keys[k]) is Some ==> keys[at]->0 <= keys[k]->0
    &&& forall|k: int| 0 <= k < at && (#[trigger] keys[k]) is Some ==> keys[at]->0 < keys[k]->0
}

/// Whether `at` is the first position of the greatest key present.
pub open spec fn is_greatest_at(keys: Seq<Option<i64>>, at: int) -> bool {
    &&& 0 <= at < keys.len()
    &&& keys[at] is Some
    &&& forall|k: int| 0 <= k < keys.len() && (#[trigger] keys[k]) is Some ==> keys[k]->0 <= keys[at]->0
    &&& forall|k: int| 0 <= k < at && (#[trigger] keys[k]) is Some ==> keys[k]->0 < keys[at]->0
}

/// Finds the positions of the least and of the greatest key present, each
/// at its first occurrence. Gives `None` where no key is present.
pub fn extreme_positions(keys: &[Option<i64>]) -> (found: Option<(usize, usize)>)
    ensures
        found.is_some() <==> any_present(keys@),
        found matches Some((least, greatest)) ==> {
            &&& is_least_at(keys@, least as int)
            &&& is_greatest_at(keys@, greatest as int)
        },
{
    let mut found: Option<(usize, usize, i64, i64)> = None;
    let mut index: usize = 0;
    while index < keys.len()
        invariant
            index <= keys@.len(),
            found.is_none() ==> forall|k: int| 0 <= k < index ==> (#[trigger] keys@[k]) is None,
            found matches Some((least, greatest, low, high)) ==> {
                &&& least < index
                &&& greatest < index
                &&& keys@[least as int] == Some(low)
                &&& keys@[greatest as int] == Some(high)
                &&& is_least_at(keys@.take(index as int), least as int)
                &&& is_greatest_at(keys@.take(index as int), greatest as int)
            },
        decreases keys@.len() - index,
    {
        let ghost seen = keys@.take(index as int);
        let ghost next = keys@.take(index as int + 1);
        assert(forall|k: int| 0 <= k < index ==> next[k] == seen[k]);
        match keys[index] {
            None => {},
            Some(key) => {
                found = match found {
                    None => Some((index, index, key, key)),
                    Some((least, greatest, low, high)) => {
                        let (least, low) = if key < low {
                            (index, key)
                        } else {
                            (least, low)
                        };
                        let (greatest, high) = if key > high {
                            (index, key)
                        } else {
                            (greatest, high)
                        };
                        Some((least, greatest, low, high))
                    },
                };
            },
        }
        index = index + 1;
    }
    assert(keys@.take(index as int) == keys@);
    match found {
        None => None,
        Some((least, greatest, _, _)) => Some((least, greatest)),
    }
}

} // verus!
