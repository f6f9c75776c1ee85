//! Ground-track trajectory sampling and antimeridian-safe segmentation.
//!
//! A trajectory covers one full orbital period at one-minute resolution
//! anchored to "now": the interior sample offsets are the whole minutes
//! 1 .. period (exclusive), the current-time point being the caller's. The
//! external propagator turns each offset into a ground point; this module
//! then joins consecutive points into two-point polyline segments, splitting
//! a pair that crosses the antimeridian at the sign-appropriate ±180° edge
//! and dropping a pair whose latitudes jump implausibly far between
//! one-minute samples (a defensive policy for rare propagation anomalies
//! near the poles), rather than failing the whole trajectory.

use vstd::math::abs;
use vstd::prelude::*;

verus! {

use crate::geo::{GroundPoint, DEG, MAX_LON};
use crate::object::{spec_period_minutes, Object};

/// One two-point polyline of the rendered ground track. Well-formed segments
/// never span more than 180 degrees of longitude, so none crosses the
/// antimeridian discontinuity directly.
#[derive(Clone, Copy, PartialEq, Eq, Structural, Debug)]
pub struct Segment {
    pub a: GroundPoint,
    pub b: GroundPoint,
}

impl Segment {
    /// Longitudinal span of the segment, in microdegrees.
    pub open spec fn lon_span(self) -> int {
        abs(self.a.lon - self.b.lon) as int
    }

    /// Both endpoints in range, and no more than 180 degrees apart in
    /// longitude.
    pub open spec fn wf(self) -> bool {
        self.a.wf() && self.b.wf() && self.lon_span() <= 180 * DEG
    }
}

/// Interior sample offsets for one orbital period: the whole minutes
/// 1 .. period, excluding both the current-time point (offset 0, handled
/// separately by the caller) and the period end itself.
pub fn sample_offsets(object: &Object) -> (offsets: Vec<u64>)
    requires
        object.wf(),
        spec_period_minutes(object@) <= usize::MAX,
    ensures
        offsets@.len() == if spec_period_minutes(object@) >= 1 {
            spec_period_minutes(object@) - 1
        } else {
            0
        },
        forall|i: int| 0 <= i < offsets@.len() ==> #[trigger] offsets@[i] == i + 1,
{
    let period: u64 = object.orbital_period_minutes();
    let mut offsets: Vec<u64> = Vec::new();
    let mut minute: u64 = 1;
    while minute < period
        invariant
            1 <= minute,
            period >= 1 ==> minute <= period,
            period == 0 ==> minute == 1,
            period == spec_period_minutes(object@),
            period <= usize::MAX,
            offsets@.len() == minute - 1,
            forall|i: int| 0 <= i < offsets@.len() ==> #[trigger] offsets@[i] == i + 1,
        decreases period - minute,
    {
        offsets.push(minute);
        minute = minute + 1;
    }
    offsets
}

/// The segments drawn for one consecutive sample pair: split in two at the
/// ±180° edge when the pair crosses the antimeridian, dropped entirely when
/// the latitudes jump by 90 degrees or more, one plain segment otherwise.
/// The split clamps at the edge on the side the pair leaves from — the side
/// of the first point, or of the crossing itself when the first point sits
/// exactly on the prime meridian — and re-enters from the opposite edge, so
/// each piece stays within 180 degrees.
pub open spec fn spec_pair_segments(p1: GroundPoint, p2: GroundPoint) -> Seq<Segment> {
    if abs(p1.lon - p2.lon) >= 180 * DEG {
        let edge: i64 = if p1.lon > 0 || (p1.lon == 0 && p2.lon < 0) {
            MAX_LON
        } else {
            (-MAX_LON) as i64
        };
        seq![
            Segment { a: p1, b: GroundPoint { lon: edge, lat: p2.lat } },
            Segment { a: GroundPoint { lon: (-edge) as i64, lat: p1.lat }, b: p2 },
        ]
    } else if abs(p1.lat - p2.lat) >= 90 * DEG {
        Seq::empty()
    } else {
        seq![Segment { a: p1, b: p2 }]
    }
}

/// All segments of the ground track through the given consecutive samples,
/// in order.
pub open spec fn spec_track_segments(points: Seq<GroundPoint>) -> Seq<Segment>
    decreases points.len(),
{
    if points.len() < 2 {
        Seq::empty()
    } else {
        spec_track_segments(points.drop_last()) + spec_pair_segments(
            points[points.len() - 2],
            points.last(),
        )
    }
}

/// Law: for any in-range consecutive pair, every segment the sampler emits
/// for it is in range and spans at most 180 degrees of longitude — in
/// particular, a pair that crosses the antimeridian is split rather than
/// drawn as one wrapping line.
pub proof fn lemma_pair_segments_wf(p1: GroundPoint, p2: GroundPoint)
    requires
        p1.wf(),
        p2.wf(),
    ensures
        forall|k: int|
            0 <= k < spec_pair_segments(p1, p2).len() ==> (#[trigger] spec_pair_segments(
                p1,
                p2,
            )[k]).wf(),
{
}

/// Law: a whole ground track through in-range samples consists only of
/// in-range segments of longitudinal span at most 180 degrees.
pub proof fn lemma_track_segments_wf(points: Seq<GroundPoint>)
    requires
        forall|i: int| 0 <= i < points.len() ==> (#[trigger] points[i]).wf(),
    ensures
        forall|k: int|
            0 <= k < spec_track_segments(points).len() ==> (#[trigger] spec_track_segments(
                points,
            )[k]).wf(),
    decreases points.len(),
{
    if points.len() >= 2 {
        let rest = points.drop_last();
        lemma_track_segments_wf(rest);
        lemma_pair_segments_wf(points[points.len() - 2], points.last());
        let left = spec_track_segments(rest);
        let right = spec_pair_segments(points[points.len() - 2], points.last());
        assert forall|k: int|
            0 <= k < spec_track_segments(points).len() implies (#[trigger] spec_track_segments(
            points,
        )[k]).wf() by {
            if k < left.len() {
                assert(spec_track_segments(points)[k] == left[k]);
            } else {
                assert(spec_track_segments(points)[k] == right[k - left.len()]);
            }
        }
    }
}

/// Joins consecutive ground-track samples into renderable polyline segments,
/// exactly as [`spec_track_segments`] describes them; every emitted segment
/// is in range and spans at most 180 degrees of longitude.
pub fn track_segments(points: &Vec<GroundPoint>) -> (segs: Vec<Segment>)
    requires
        forall|i: int| 0 <= i < points@.len() ==> (#[trigger] points@[i]).wf(),
    ensures
        segs@ == spec_track_segments(points@),
        forall|k: int| 0 <= k < segs@.len() ==> (#[trigger] segs@[k]).wf(),
{
    proof {
        lemma_track_segments_wf(points@);
    }
    let mut segs: Vec<Segment> = Vec::new();
    if points.len() < 2 {
        return segs;
    }
    let mut idx: usize = 1;
    while idx < points.len()
        invariant
            1 <= idx <= points@.len(),
            forall|i: int| 0 <= i < points@.len() ==> (#[trigger] points@[i]).wf(),
            segs@ == spec_track_segments(points@.take(idx as int)),
        decreases points@.len() - idx,
    {
        let p1 = points[idx - 1];
        let p2 = points[idx];
        let ghost before = segs@;
        let dlon: i64 = p1.lon - p2.lon;
        let dlat: i64 = p1.lat - p2.lat;
        if dlon >= 180 * DEG || -dlon >= 180 * DEG {
            let edge: i64 = if p1.lon > 0 || (p1.lon == 0 && p2.lon < 0) {
                MAX_LON
            } else {
                -MAX_LON
            };
            segs.push(Segment { a: p1, b: GroundPoint { lon: edge, lat: p2.lat } });
            segs.push(Segment { a: GroundPoint { lon: -edge, lat: p1.lat }, b: p2 });
        } else if dlat >= 90 * DEG || -dlat >= 90 * DEG {
            // a propagation anomaly: drop this single pair
        } else {
            segs.push(Segment { a: p1, b: p2 });
        }
        proof {
            assert(points@.take(idx + 1).drop_last() =~= points@.take(idx as int));
            assert(points@.take(idx + 1).last() == points@[idx as int]);
            assert(points@.take(idx + 1)[idx - 1] == points@[idx - 1]);
            assert(segs@ =~= before + spec_pair_segments(points@[idx - 1], points@[idx as int]));
        }
        idx = idx + 1;
    }
    proof {
        assert(points@.take(points@.len() as int) =~= points@);
    }
    segs
}

} // verus!
