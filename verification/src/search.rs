//! The first element of a sequence that meets a condition.

use vstd::prelude::*;

verus! {

/// The position of the first element of `s` that meets `pred`, if any.
pub open spec fn first_index<A>(s: Seq<A>, pred: spec_fn(A) -> bool) -> Option<int>
    decreases s.len(),
{
    if s.len() == 0 {
        None
    } else if pred(s[0]) {
        Some(0)
    } else {
        match first_index(s.drop_first(), pred) {
            Some(i) => Some(i + 1),
            None => None,
        }
    }
}

/// What `first_index` finds: an element that meets the condition with none
/// before it that does, or, when it finds nothing, no such element at all.
pub proof fn lemma_first_index<A>(s: Seq<A>, pred: spec_fn(A) -> bool)
    ensures
        match first_index(s, pred) {
            Some(i) => 0 <= i < s.len() && pred(s[i]) && forall|j: int|
                0 <= j < i ==> !pred(#[trigger] s[j]),
            None => forall|j: int| 0 <= j < s.len() ==> !pred(#[trigger] s[j]),
        },
    decreases s.len(),
{
    if s.len() > 0 && !pred(s[0]) {
        let rest = s.drop_first();
        lemma_first_index(rest, pred);
        match first_index(rest, pred) {
            Some(i) => {
                assert forall|j: int| 0 <= j < i + 1 implies !pred(#[trigger] s[j]) by {
                    if j > 0 {
                        assert(s[j] == rest[j - 1]);
                    }
                }
            },
            None => {
                assert forall|j: int| 0 <= j < s.len() implies !pred(#[trigger] s[j]) by {
                    if j > 0 {
                        assert(s[j] == rest[j - 1]);
                    }
                }
            },
        }
    }
}

/// An element that meets the condition with none before it that does is the one found.
pub proof fn lemma_first_index_is<A>(s: Seq<A>, pred: spec_fn(A) -> bool, i: int)
    requires
        0 <= i < s.len(),
        pred(s[i]),
        forall|j: int| 0 <= j < i ==> !pred(#[trigger] s[j]),
    ensures
        first_index(s, pred) == Some(i),
{
    lemma_first_index(s, pred);
    match first_index(s, pred) {
        Some(k) => {
            if k < i {
                assert(!pred(s[k]));
            } else if k > i {
                assert(!pred(s[i]));
            }
        },
        None => {
            assert(!pred(s[i]));
        },
    }
}

} // verus!
