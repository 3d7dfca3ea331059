use vstd::prelude::*;
use crate::scalar::{is_non_negative, is_non_negative_spec, strict_order, Scalar};

verus! {

/// The distance that a scan of `v` from its start keeps: the first
/// distance at or above zero, replaced by each later one that is at or
/// above zero and strictly below the one kept.
pub open spec fn hit_spec<T: Scalar>(v: Seq<T>) -> Option<T>
    decreases v.len(),
{
    if v.len() == 0 {
        None
    } else {
        let before = hit_spec(v.drop_last());
        let x = v.last();
        if !is_non_negative_spec(x) {
            before
        } else {
            match before {
                None => Some(x),
                Some(best) => if x.lt_spec(best) {
                    Some(x)
                } else {
                    Some(best)
                },
            }
        }
    }
}

/// Whether `x` is a visible distance of `v`: one of its distances, at or
/// above zero, with no distance at or above zero strictly below it.
pub open spec fn is_nearest<T: Scalar>(v: Seq<T>, x: T) -> bool {
    &&& exists|k: int| 0 <= k < v.len() && v[k] == x
    &&& is_non_negative_spec(x)
    &&& forall|j: int| 0 <= j < v.len() && is_non_negative_spec(#[trigger] v[j]) ==> !v[j].lt_spec(x)
}

/// Where `<` is a strict order, the scan keeps a visible distance, and
/// keeps none only where no distance is at or above zero. Without any
/// such order it still keeps one of the distances at or above zero.
pub proof fn lemma_hit_nearest<T: Scalar>(v: Seq<T>)
    ensures
        hit_spec(v) is None <==> forall|j: int|
            0 <= j < v.len() ==> !is_non_negative_spec(#[trigger] v[j]),
        hit_spec(v) matches Some(x) ==> is_non_negative_spec(x) && exists|k: int|
            0 <= k < v.len() && v[k] == x,
        strict_order::<T>() ==> (hit_spec(v) matches Some(x) ==> is_nearest(v, x)),
    decreases v.len(),
{
    if v.len() > 0 {
        let front = v.drop_last();
        let last = v.last();
        lemma_hit_nearest(front);
        assert forall|j: int| 0 <= j < front.len() implies front[j] == v[j] by {}
        match hit_spec(v) {
            None => {
                assert forall|j: int| 0 <= j < v.len() implies !is_non_negative_spec(
                    #[trigger] v[j],
                ) by {
                    if j < front.len() {
                        assert(front[j] == v[j]);
                    }
                }
            },
            Some(x) => {
                if hit_spec(front) == Some(x) {
                    let k = choose|k: int| 0 <= k < front.len() && front[k] == x;
                    assert(v[k] == x);
                } else {
                    assert(v[v.len() - 1] == x);
                }
                if strict_order::<T>() {
                    assert forall|j: int|
                        0 <= j < v.len() && is_non_negative_spec(#[trigger] v[j]) implies !v[j].lt_spec(
                        x,
                    ) by {
                        if j < front.len() {
                            assert(front[j] == v[j]);
                            let best = hit_spec(front)->Some_0;
                            assert(is_nearest(front, best));
                            assert(!front[j].lt_spec(best));
                            if x != best {
                                assert(x.lt_spec(best));
                                if v[j].lt_spec(x) {
                                    assert(v[j].lt_spec(best));
                                }
                            }
                        } else {
                            assert(v[j] == last);
                            if x == last {
                                assert(!last.lt_spec(last));
                            }
                        }
                    }
                }
            },
        }
        if hit_spec(v) is Some {
            assert(exists|j: int| 0 <= j < v.len() && is_non_negative_spec(#[trigger] v[j])) by {
                let x = hit_spec(v)->Some_0;
                let k = choose|k: int| 0 <= k < v.len() && v[k] == x;
                assert(is_non_negative_spec(v[k]));
            }
        }
    }
}

/// The choice of the visible one among the distances at which a ray meets
/// a surface. Distances below zero lie behind the ray's origin.
pub trait Hit<T> {
    /// The visible distance, if there is one.
    fn hit(&self) -> Option<T>;
}

impl<T: Scalar> Hit<T> for Vec<T> {
    /// The smallest distance at or above zero, the first of them where
    /// several are as small; `None` where every distance is below zero.
    fn hit(&self) -> (r: Option<T>)
        ensures
            r == hit_spec(self@),
            r is None <==> forall|j: int|
                0 <= j < self@.len() ==> !is_non_negative_spec(#[trigger] self@[j]),
            strict_order::<T>() ==> (r matches Some(x) ==> is_nearest(self@, x)),
    {
        let mut best: Option<T> = None;
        let mut i: usize = 0;
        while i < self.len()
            invariant
                i <= self@.len(),
                best == hit_spec(self@.take(i as int)),
            decreases self.len() - i,
        {
            let x = self[i];
            assert(self@.take(i + 1).drop_last() =~= self@.take(i as int));
            if is_non_negative(x) {
                best = match best {
                    None => Some(x),
                    Some(b) => if x.lt(b) {
                        Some(x)
                    } else {
                        Some(b)
                    },
                };
            }
            i += 1;
        }
        assert(self@.take(self@.len() as int) =~= self@);
        proof {
            lemma_hit_nearest(self@);
        }
        best
    }
}

} // verus!
