//! Orbital element records and the tracked objects built from them.
//!
//! An [`ElementRecord`] carries, as plain scaled integers, the fields of one
//! fetched element set; an [`Object`] is a record that passed construction
//! validation, so its orbital period is well defined. The external orbital
//! propagator is constructed outside this crate from the same record; its
//! per-call numerical failures are separate from the construction failure
//! modeled here.

use vstd::prelude::*;

verus! {

use crate::geo::{valid_lat, valid_lon};

/// Scale of the dimensionless element fields: parts per 10^9.
pub const NANO: u64 = 1_000_000_000;

/// Seconds in one day.
pub const SECONDS_PER_DAY: u64 = 86_400;

/// Minutes in one day.
pub const MINUTES_PER_DAY: u64 = 1_440;

/// One fetched orbital element set, immutable once fetched.
///
/// Angles are in microdegrees; `drag_term` (per earth radius) and
/// `eccentricity` are in units of 10^-9; `mean_motion` is in revolutions per
/// day times 10^9; the epoch is in Unix seconds.
#[derive(Clone, Debug)]
pub struct ElementRecord {
    pub object_name: String,
    pub international_designator: String,
    pub norad_id: u64,
    pub epoch_seconds: i64,
    pub drag_term: i64,
    pub inclination: i64,
    pub right_ascension: i64,
    pub eccentricity: i64,
    pub argument_of_perigee: i64,
    pub mean_anomaly: i64,
    pub mean_motion: u64,
    pub revolution_number: u64,
}

/// Construction failure: the element set is non-physical (zero mean motion),
/// so no orbit — and no orbital period — can be derived from it.
#[derive(Clone, Copy, PartialEq, Eq, Structural, Debug)]
pub struct ElementsError;

/// A record whose mean motion allows a period to be derived.
pub open spec fn physical(r: ElementRecord) -> bool {
    r.mean_motion > 0
}

/// Orbital period in whole seconds: one day over the revolutions per day.
pub open spec fn spec_period_seconds(r: ElementRecord) -> int {
    (SECONDS_PER_DAY * NANO) as int / r.mean_motion as int
}

/// Orbital period in whole minutes.
pub open spec fn spec_period_minutes(r: ElementRecord) -> int {
    (MINUTES_PER_DAY * NANO) as int / r.mean_motion as int
}

/// A tracked object: an element record that passed construction validation.
#[derive(Clone, Debug)]
pub struct Object {
    record: ElementRecord,
}

impl View for Object {
    type V = ElementRecord;

    closed spec fn view(&self) -> ElementRecord {
        self.record
    }
}

impl Object {
    /// The construction invariant: the underlying record is physical.
    pub open spec fn wf(self) -> bool {
        physical(self@)
    }

    /// Builds a tracked object, rejecting a non-physical element set at
    /// construction so that no later period computation can divide by zero.
    pub fn from_elements(elements: ElementRecord) -> (r: Result<Object, ElementsError>)
        ensures
            r is Ok <==> physical(elements),
            r matches Ok(o) ==> o@ == elements && o.wf(),
    {
        if elements.mean_motion == 0 {
            Err(ElementsError)
        } else {
            Ok(Object { record: elements })
        }
    }

    /// The object's name.
    pub fn name(&self) -> (r: &String)
        ensures
            r@ == self@.object_name@,
    {
        &self.record.object_name
    }

    /// The international designator.
    pub fn cospar_id(&self) -> (r: &String)
        ensures
            r@ == self@.international_designator@,
    {
        &self.record.international_designator
    }

    /// The satellite catalog number.
    pub fn norad_id(&self) -> (r: u64)
        ensures
            r == self@.norad_id,
    {
        self.record.norad_id
    }

    /// The Unix timestamp of the elements' epoch, in seconds.
    pub fn epoch(&self) -> (r: i64)
        ensures
            r == self@.epoch_seconds,
    {
        self.record.epoch_seconds
    }

    /// Radiation pressure coefficient in 10^-9 per earth radius.
    pub fn drag_term(&self) -> (r: i64)
        ensures
            r == self@.drag_term,
    {
        self.record.drag_term
    }

    /// Angle between the equator and the orbit plane, in microdegrees.
    pub fn inclination(&self) -> (r: i64)
        ensures
            r == self@.inclination,
    {
        self.record.inclination
    }

    /// Right ascension of the ascending node, in microdegrees.
    pub fn right_ascension(&self) -> (r: i64)
        ensures
            r == self@.right_ascension,
    {
        self.record.right_ascension
    }

    /// The shape of the orbit, in units of 10^-9.
    pub fn eccentricity(&self) -> (r: i64)
        ensures
            r == self@.eccentricity,
    {
        self.record.eccentricity
    }

    /// Angle between the ascending node and the perigee, in microdegrees.
    pub fn argument_of_perigee(&self) -> (r: i64)
        ensures
            r == self@.argument_of_perigee,
    {
        self.record.argument_of_perigee
    }

    /// Satellite location angle measured from perigee, in microdegrees.
    pub fn mean_anomaly(&self) -> (r: i64)
        ensures
            r == self@.mean_anomaly,
    {
        self.record.mean_anomaly
    }

    /// Mean number of orbits per day, in revolutions per day times 10^9.
    pub fn mean_motion(&self) -> (r: u64)
        ensures
            r == self@.mean_motion,
    {
        self.record.mean_motion
    }

    /// The orbit number at epoch.
    pub fn revolution_number(&self) -> (r: u64)
        ensures
            r == self@.revolution_number,
    {
        self.record.revolution_number
    }

    /// Whole seconds elapsed from the elements' epoch to `now_seconds`:
    /// negative for an instant before the epoch. This is the elapsed time the
    /// external propagator is queried with.
    pub fn seconds_since_epoch(&self, now_seconds: i64) -> (r: i64)
        requires
            now_seconds - self@.epoch_seconds <= i64::MAX,
            now_seconds - self@.epoch_seconds >= i64::MIN,
        ensures
            r == now_seconds - self@.epoch_seconds,
    {
        now_seconds - self.record.epoch_seconds
    }

    /// Orbital period in whole seconds.
    pub fn orbital_period(&self) -> (s: u64)
        requires
            self.wf(),
        ensures
            s == spec_period_seconds(self@),
    {
        (SECONDS_PER_DAY * NANO) / self.record.mean_motion
    }

    /// Orbital period in whole minutes.
    pub fn orbital_period_minutes(&self) -> (m: u64)
        requires
            self.wf(),
        ensures
            m == spec_period_minutes(self@),
    {
        (MINUTES_PER_DAY * NANO) / self.record.mean_motion
    }
}

/// The geodetic state of an object at one query instant: longitude and
/// latitude in microdegrees, altitude in millimeters above the ellipsoid, and
/// ground speed in millimeters per second. Ephemeral: recomputed per query
/// and never persisted.
#[derive(Clone, Copy, PartialEq, Eq, Structural, Debug)]
pub struct State {
    pub longitude: i64,
    pub latitude: i64,
    pub altitude: i64,
    pub speed: i64,
}

impl State {
    /// Longitude and latitude are in range.
    pub open spec fn wf(self) -> bool {
        valid_lon(self.longitude as int) && valid_lat(self.latitude as int)
    }

    /// Geodetic latitude in microdegrees.
    pub fn latitude(&self) -> (r: i64)
        ensures
            r == self.latitude,
    {
        self.latitude
    }

    /// Geodetic longitude in microdegrees.
    pub fn longitude(&self) -> (r: i64)
        ensures
            r == self.longitude,
    {
        self.longitude
    }

    /// Height above the reference ellipsoid in millimeters.
    pub fn altitude(&self) -> (r: i64)
        ensures
            r == self.altitude,
    {
        self.altitude
    }

    /// Magnitude of the velocity in millimeters per second.
    pub fn speed(&self) -> (r: i64)
        ensures
            r == self.speed,
    {
        self.speed
    }
}

/// The subsequence of physical records, in order.
pub open spec fn physical_records(rs: Seq<ElementRecord>) -> Seq<ElementRecord>
    decreases rs.len(),
{
    if rs.len() == 0 {
        Seq::empty()
    } else if physical(rs.last()) {
        physical_records(rs.drop_last()).push(rs.last())
    } else {
        physical_records(rs.drop_last())
    }
}

/// Builds the active object set from freshly fetched records: each physical
/// record becomes an object, a non-physical one is dropped on its own without
/// aborting the rest, and catalog order is kept.
pub fn objects_from_elements(records: Vec<ElementRecord>) -> (objects: Vec<Object>)
    ensures
        objects@.len() == physical_records(records@).len(),
        forall|j: int|
            0 <= j < objects@.len() ==> #[trigger] objects@[j]@ == physical_records(records@)[j]
                && objects@[j].wf(),
{
    let ghost all = records@;
    let mut remaining = records;
    let mut objects: Vec<Object> = Vec::new();
    let ghost mut i: int = 0;
    while remaining.len() > 0
        invariant
            0 <= i <= all.len(),
            remaining@ == all.skip(i),
            objects@.len() == physical_records(all.take(i)).len(),
            forall|j: int|
                0 <= j < objects@.len() ==> #[trigger] objects@[j]@ == physical_records(
                    all.take(i),
                )[j] && objects@[j].wf(),
        decreases remaining@.len(),
    {
        let record = remaining.remove(0);
        proof {
            assert(record == all[i]);
            assert(remaining@ =~= all.skip(i + 1));
            assert(all.take(i + 1).drop_last() =~= all.take(i));
            assert(all.take(i + 1).last() == all[i]);
        }
        match Object::from_elements(record) {
            Ok(object) => {
                objects.push(object);
            },
            Err(_) => {},
        }
        proof {
            i = i + 1;
        }
    }
    proof {
        assert(all.take(i) =~= all);
    }
    objects
}

} // verus!
