//! Nearest-object lookup in longitude/latitude space.
//!
//! Used for pointer selection and hover: the query point is the geographic
//! position of the pointed-at map cell, the candidates are the current states
//! of the tracked objects. Distance is planar squared distance in degree
//! space — no great-circle correction, which is acceptable at interactive map
//! scale — and ties go to the first-encountered state, so catalog order is
//! stable under equal distances.

use vstd::prelude::*;

verus! {

use crate::geo::GroundPoint;
use crate::object::State;

/// Squared planar distance, in square microdegrees, between an object state
/// and a query point.
pub open spec fn spec_dist2(s: State, q: GroundPoint) -> int {
    (s.longitude - q.lon) * (s.longitude - q.lon) + (s.latitude - q.lat) * (s.latitude - q.lat)
}

/// Squared planar distance between a state and a query point, both in range.
fn dist2(s: &State, q: GroundPoint) -> (d: i64)
    requires
        s.wf(),
        q.wf(),
    ensures
        d == spec_dist2(*s, q),
{
    let dlon: i64 = s.longitude - q.lon;
    let dlat: i64 = s.latitude - q.lat;
    proof {
        assert(dlon * dlon <= 360_000_000i64 * 360_000_000i64) by (nonlinear_arith)
            requires
                -360_000_000 <= dlon <= 360_000_000,
        ;
        assert(dlat * dlat <= 180_000_000i64 * 180_000_000i64) by (nonlinear_arith)
            requires
                -180_000_000 <= dlat <= 180_000_000,
        ;
        assert(dlon * dlon >= 0) by (nonlinear_arith);
        assert(dlat * dlat >= 0) by (nonlinear_arith);
    }
    dlon * dlon + dlat * dlat
}

/// Index of the state nearest to the query point, or nothing for an empty
/// set. The result is the first index attaining the minimum squared planar
/// distance, so ties are broken in stable catalog order.
pub fn nearest(states: &Vec<State>, query: GroundPoint) -> (r: Option<usize>)
    requires
        query.wf(),
        forall|i: int| 0 <= i < states@.len() ==> (#[trigger] states@[i]).wf(),
    ensures
        r is None <==> states@.len() == 0,
        r matches Some(k) ==> {
            &&& 0 <= k < states@.len()
            &&& forall|i: int|
                0 <= i < states@.len() ==> spec_dist2(states@[k as int], query) <= #[trigger] spec_dist2(states@[i], query)
            &&& forall|i: int|
                0 <= i < k ==> spec_dist2(states@[k as int], query) < #[trigger] spec_dist2(states@[i], query)
        },
{
    if states.len() == 0 {
        return None;
    }
    let mut best: usize = 0;
    let mut best_d: i64 = dist2(&states[0], query);
    let mut idx: usize = 1;
    while idx < states.len()
        invariant
            1 <= idx <= states@.len(),
            0 <= best < idx,
            query.wf(),
            forall|i: int| 0 <= i < states@.len() ==> (#[trigger] states@[i]).wf(),
            best_d == spec_dist2(states@[best as int], query),
            forall|i: int| 0 <= i < idx ==> best_d <= #[trigger] spec_dist2(states@[i], query),
            forall|i: int| 0 <= i < best ==> best_d < #[trigger] spec_dist2(states@[i], query),
        decreases states@.len() - idx,
    {
        let d = dist2(&states[idx], query);
        if d < best_d {
            best = idx;
            best_d = d;
        }
        idx = idx + 1;
    }
    Some(best)
}

/// Law: on a single-object set, [`nearest`] answers index 0 for any query
/// point — the only index is the minimal one.
pub proof fn lemma_nearest_singleton(states: &Vec<State>, query: GroundPoint, r: Option<usize>)
    requires
        states@.len() == 1,
        call_ensures(nearest, (states, query), r),
    ensures
        r == Some(0usize),
{
}

} // verus!
