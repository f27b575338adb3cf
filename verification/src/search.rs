//! First-match lookup over a sequence, and the lemmas that connect it to the
//! index-based characterization an executable scan establishes.
use vstd::prelude::*;

verus! {

/// The first element of `items` satisfying `pred`, scanning from the front.
pub open spec fn first_match<T>(items: Seq<T>, pred: spec_fn(T) -> bool) -> Option<T>
    decreases items.len(),
{
    if items.len() == 0 {
        None
    } else if pred(items[0]) {
        Some(items[0])
    } else {
        first_match(items.drop_first(), pred)
    }
}

/// What `first_match` finds satisfies `pred` and is an element of `items`.
pub proof fn lemma_first_match_sound<T>(items: Seq<T>, pred: spec_fn(T) -> bool)
    ensures
        first_match(items, pred) matches Some(p) ==> pred(p) && items.contains(p),
    decreases items.len(),
{
    if items.len() > 0 && !pred(items[0]) {
        lemma_first_match_sound(items.drop_first(), pred);
        if first_match(items, pred) is Some {
            let p = first_match(items, pred)->Some_0;
            if items.drop_first().contains(p) {
                let j = choose|j: int|
                    0 <= j < items.drop_first().len() && items.drop_first()[j] == p;
                assert(items[j + 1] == p);
            }
        }
    }
}

/// `first_match` finds nothing exactly when no element satisfies `pred`.
pub proof fn lemma_first_match_none<T>(items: Seq<T>, pred: spec_fn(T) -> bool)
    ensures
        first_match(items, pred) is None <==> (forall|k: int|
            0 <= k < items.len() ==> !pred(#[trigger] items[k])),
    decreases items.len(),
{
    if items.len() > 0 && !pred(items[0]) {
        let d = items.drop_first();
        lemma_first_match_none(d, pred);
        if first_match(items, pred) is None {
            assert forall|k: int| 0 <= k < items.len() implies !pred(#[trigger] items[k]) by {
                if k > 0 {
                    assert(d[k - 1] == items[k]);
                }
            }
        }
        if first_match(items, pred) is Some {
            let k0 = choose|k: int| 0 <= k < d.len() && pred(#[trigger] d[k]);
            assert(d[k0] == items[k0 + 1]);
            assert(pred(items[k0 + 1]));
        }
    }
}

/// If `items[j]` satisfies `pred` and nothing before it does, then it is the
/// first match.
pub proof fn lemma_first_match_at<T>(items: Seq<T>, pred: spec_fn(T) -> bool, j: int)
    requires
        0 <= j < items.len(),
        pred(items[j]),
        forall|k: int| 0 <= k < j ==> !pred(#[trigger] items[k]),
    ensures
        first_match(items, pred) == Some(items[j]),
    decreases j,
{
    if j > 0 {
        lemma_first_match_at(items.drop_first(), pred, j - 1);
        assert(forall|k: int|
            0 <= k < items.drop_first().len() ==> items.drop_first()[k] == items[k + 1]);
        assert(items.drop_first()[j - 1] == items[j]);
    }
}

} // verus!
