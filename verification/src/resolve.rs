//! The intersection resolver: pick the nearest hit among all scene objects.
//!
//! Each object reports, for a given ray, either no hit or the distance along
//! the ray at which it is hit. Distances are compared as unsigned keys: any
//! order-preserving encoding works, in particular the bit pattern of a
//! non-negative IEEE single-precision distance, whose unsigned order agrees
//! with the numeric order. This module selects the smallest distance, with
//! the first object in scene order winning ties.

use vstd::prelude::*;

verus! {

/// The index of the nearest-hit object and its distance key: the smallest
/// reported distance over all objects, ties broken in favor of the first
/// object in scene order. `None` exactly when no object reports a hit.
pub fn nearest_intersection(candidates: &Vec<Option<u32>>) -> (r: Option<(usize, u32)>)
    ensures
        r is None <==> (forall|j: int| 0 <= j < candidates@.len() ==> candidates@[j] is None),
        r matches Some((i, t)) ==> {
            &&& 0 <= i < candidates@.len()
            &&& candidates@[i as int] == Some(t)
            &&& forall|j: int|
                0 <= j < candidates@.len() && candidates@[j] is Some ==> t <= candidates@[j]->0
            &&& forall|j: int| 0 <= j < i && candidates@[j] is Some ==> t < candidates@[j]->0
        },
{
    let mut nearest: Option<(usize, u32)> = None;
    let mut k: usize = 0;
    while k < candidates.len()
        invariant
            k <= candidates@.len(),
            nearest is None <==> (forall|j: int| 0 <= j < k ==> candidates@[j] is None),
            nearest matches Some((i, t)) ==> {
                &&& 0 <= i < k
                &&& candidates@[i as int] == Some(t)
                &&& forall|j: int| 0 <= j < k && candidates@[j] is Some ==> t <= candidates@[j]->0
                &&& forall|j: int| 0 <= j < i && candidates@[j] is Some ==> t < candidates@[j]->0
            },
        decreases candidates@.len() - k,
    {
        if let Some(t) = candidates[k] {
            match nearest {
                None => {
                    nearest = Some((k, t));
                },
                Some((_, tmin)) => {
                    if t < tmin {
                        nearest = Some((k, t));
                    }
                },
            }
        }
        k = k + 1;
    }
    nearest
}

} // verus!
