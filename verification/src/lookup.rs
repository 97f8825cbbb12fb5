//! Lookup by key in a run of keyed entries, the first match winning.

use vstd::prelude::*;

verus! {

/// The value of the first entry at or after `start` whose key is `name`.
pub open spec fn first_from<V>(entries: Seq<(Seq<char>, V)>, name: Seq<char>, start: int) -> Option<V>
    decreases entries.len() - start,
{
    if start < 0 || start >= entries.len() {
        None
    } else if entries[start].0 == name {
        Some(entries[start].1)
    } else {
        first_from(entries, name, start + 1)
    }
}

/// The value of the first entry whose key is `name`.
pub open spec fn first_under<V>(entries: Seq<(Seq<char>, V)>, name: Seq<char>) -> Option<V> {
    first_from(entries, name, 0)
}

/// A lookup finds something exactly when some entry has the key, and what it
/// finds stands under that key with no earlier entry of the same key.
pub proof fn first_from_is_first_match<V>(entries: Seq<(Seq<char>, V)>, name: Seq<char>, start: int)
    requires
        0 <= start,
    ensures
        match first_from(entries, name, start) {
            Some(value) => exists|i: int|
                start <= i < entries.len() && #[trigger] entries[i].0 == name && entries[i].1
                    == value && forall|j: int| start <= j < i ==> #[trigger] entries[j].0 != name,
            None => forall|i: int| start <= i < entries.len() ==> #[trigger] entries[i].0 != name,
        },
    decreases entries.len() - start,
{
    if start < entries.len() && entries[start].0 != name {
        first_from_is_first_match(entries, name, start + 1);
        match first_from(entries, name, start + 1) {
            Some(value) => {
                let i = choose|i: int|
                    start + 1 <= i < entries.len() && #[trigger] entries[i].0 == name && entries[i].1
                        == value && forall|j: int|
                        start + 1 <= j < i ==> #[trigger] entries[j].0 != name;
                assert(start <= i < entries.len() && entries[i].0 == name && entries[i].1 == value
                    && forall|j: int| start <= j < i ==> #[trigger] entries[j].0 != name);
            },
            None => {},
        }
    } else if start < entries.len() {
        assert(entries[start].0 == name && entries[start].1 == first_from(entries, name, start)->0);
    }
}

} // verus!
