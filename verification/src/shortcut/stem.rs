//! The stem of a file name: what stands before its first `.`.

use vstd::prelude::*;
use vstd::string::*;

verus! {


/// No character of `s` is a `.`.
pub open spec fn dot_free(s: Seq<char>) -> bool {
    forall|i: int| 0 <= i < s.len() ==> s[i] != '.'
}

/// `stem` is what stands in `name` before its first `.`.
pub open spec fn is_stem_of(stem: Seq<char>, name: Seq<char>) -> bool {
    &&& stem.len() < name.len()
    &&& stem == name.take(stem.len() as int)
    &&& name[stem.len() as int] == '.'
    &&& dot_free(stem)
}

/// The part of `name` before its first `.`; `None` if `name` has no `.`.
pub open spec fn stem_of(name: Seq<char>) -> Option<Seq<char>> {
    match name.index_of_first('.') {
        Some(i) => Some(name.take(i)),
        None => None,
    }
}

/// `stem_of` finds the stem where there is one, and nothing where the name
/// has no `.`.
pub proof fn lemma_stem_of(name: Seq<char>)
    ensures
        match stem_of(name) {
            Some(stem) => is_stem_of(stem, name),
            None => dot_free(name),
        },
{
    name.index_of_first_ensures('.');
    match name.index_of_first('.') {
        Some(i) => {
            assert(name.take(i).len() == i);
            assert(name.take(i) == name.take(name.take(i).len() as int));
        },
        None => {
            assert forall|i: int| 0 <= i < name.len() implies name[i] != '.' by {
                if name[i] == '.' {
                    assert(name.contains('.'));
                }
            }
        },
    }
}

/// A name has one stem at most: whatever meets `is_stem_of` is `stem_of`.
pub proof fn lemma_stem_unique(stem: Seq<char>, name: Seq<char>)
    requires
        is_stem_of(stem, name),
    ensures
        stem_of(name) == Some(stem),
{
    lemma_stem_of(name);
    let k = stem.len() as int;
    assert(name.contains('.')) by {
        assert(name[k] == '.');
    }
    match stem_of(name) {
        Some(other) => {
            let j = other.len() as int;
            if j < k {
                assert(stem[j] == name[j]);
            } else if k < j {
                assert(other[k] == name[k]);
            }
            assert(other =~= stem);
        },
        None => {
            assert(name[k] != '.');
        },
    }
}

/// The part of a file name before its first `.`, if it has one.
pub fn derived_stem(name: &str) -> (stem: Option<String>)
    ensures
        stem.deep_view() == stem_of(name@),
{
    let n: usize = name.unicode_len();
    let mut i: usize = 0;
    while i < n
        invariant
            n == name@.len(),
            i <= n,
            forall|j: int| 0 <= j < i ==> name@[j] != '.',
        decreases n - i,
    {
        if name.get_char(i) == '.' {
            let prefix = name.substring_char(0, i);
            let stem = String::from_str(prefix);
            proof {
                assert(is_stem_of(stem@, name@));
                lemma_stem_unique(stem@, name@);
            }
            return Some(stem);
        }
        i = i + 1;
    }
    proof {
        lemma_stem_of(name@);
        if let Some(stem) = stem_of(name@) {
            assert(name@[stem.len() as int] == '.');
        }
    }
    None
}

} // verus!
