//! The selectable satellite catalog groups and single objects.
//!
//! Each [`Satellite`] names either one object, identified upstream by its
//! international designator, or a whole named catalog group — exactly one of
//! the two, which [`lemma_query_forms`] states. The element sets themselves
//! are fetched and cached outside this crate, keyed by [`Satellite::cache_key`].

use vstd::prelude::*;

verus! {

/// A satellite group or single object offered for tracking.
#[derive(Clone, Copy, Eq, PartialEq, Ord, PartialOrd, Hash, Debug, Structural)]
pub enum Satellite {
    // Space stations
    Css,
    Iss,
    // Weather satellites
    Weather,
    Noaa,
    Goes,
    // Earth resources satellites
    EarthResources,
    SearchRescue,
    DisasterMonitoring,
    // Navigation satellites
    Gps,
    Glonass,
    Galileo,
    Beidou,
    // Scientific satellites
    SpaceEarthScience,
    Geodetic,
    Engineering,
    Education,
    // Miscellaneous satellites
    Dfh1,
    Military,
    RadarCalibration,
    CubeSats,
}

/// The name shown for each satellite.
pub open spec fn spec_display_name(s: Satellite) -> Seq<char> {
    match s {
        Satellite::Css => "CSS"@,
        Satellite::Iss => "ISS"@,
        Satellite::Weather => "Weather"@,
        Satellite::Noaa => "NOAA"@,
        Satellite::Goes => "GOES"@,
        Satellite::EarthResources => "Earth resources"@,
        Satellite::SearchRescue => "Search & rescue"@,
        Satellite::DisasterMonitoring => "Disaster monitoring"@,
        Satellite::Gps => "GPS Operational"@,
        Satellite::Glonass => "GLONASS Operational"@,
        Satellite::Galileo => "Galileo"@,
        Satellite::Beidou => "Beidou"@,
        Satellite::SpaceEarthScience => "Space & Earth Science"@,
        Satellite::Geodetic => "Geodetic"@,
        Satellite::Engineering => "Engineering"@,
        Satellite::Education => "Education"@,
        Satellite::Dfh1 => "DFH-1"@,
        Satellite::Military => "Military"@,
        Satellite::RadarCalibration => "Radar calibration"@,
        Satellite::CubeSats => "CubeSats"@,
    }
}

/// The lower-cased form of the display name, under which this satellite's
/// element sets are persisted: the deterministic storage key.
pub open spec fn spec_cache_key(s: Satellite) -> Seq<char> {
    match s {
        Satellite::Css => "css"@,
        Satellite::Iss => "iss"@,
        Satellite::Weather => "weather"@,
        Satellite::Noaa => "noaa"@,
        Satellite::Goes => "goes"@,
        Satellite::EarthResources => "earth resources"@,
        Satellite::SearchRescue => "search & rescue"@,
        Satellite::DisasterMonitoring => "disaster monitoring"@,
        Satellite::Gps => "gps operational"@,
        Satellite::Glonass => "glonass operational"@,
        Satellite::Galileo => "galileo"@,
        Satellite::Beidou => "beidou"@,
        Satellite::SpaceEarthScience => "space & earth science"@,
        Satellite::Geodetic => "geodetic"@,
        Satellite::Engineering => "engineering"@,
        Satellite::Education => "education"@,
        Satellite::Dfh1 => "dfh-1"@,
        Satellite::Military => "military"@,
        Satellite::RadarCalibration => "radar calibration"@,
        Satellite::CubeSats => "cubesats"@,
    }
}

/// The international designator of a satellite tracked as a single object.
pub open spec fn spec_cospar_id(s: Satellite) -> Option<Seq<char>> {
    match s {
        Satellite::Iss => Some("1998-067A"@),
        Satellite::Css => Some("2021-035A"@),
        Satellite::Dfh1 => Some("1970-034A"@),
        _ => None,
    }
}

/// The upstream catalog group name of a satellite tracked as a group.
pub open spec fn spec_group(s: Satellite) -> Option<Seq<char>> {
    match s {
        Satellite::Weather => Some("weather"@),
        Satellite::Noaa => Some("noaa"@),
        Satellite::Goes => Some("goes"@),
        Satellite::EarthResources => Some("resource"@),
        Satellite::SearchRescue => Some("sarsat"@),
        Satellite::DisasterMonitoring => Some("dmc"@),
        Satellite::Gps => Some("gps-ops"@),
        Satellite::Glonass => Some("glo-ops"@),
        Satellite::Galileo => Some("galileo"@),
        Satellite::Beidou => Some("beidou"@),
        Satellite::SpaceEarthScience => Some("science"@),
        Satellite::Geodetic => Some("geodetic"@),
        Satellite::Engineering => Some("engineering"@),
        Satellite::Education => Some("education"@),
        Satellite::Military => Some("military"@),
        Satellite::RadarCalibration => Some("radar"@),
        Satellite::CubeSats => Some("cubesat"@),
        _ => None,
    }
}

/// Law: every satellite is addressed upstream in exactly one of the two
/// forms — by international designator or by group name, never both, never
/// neither. This is why building a catalog query cannot fail.
pub proof fn lemma_query_forms(s: Satellite)
    ensures
        spec_cospar_id(s) is Some <==> spec_group(s) is None,
{
}

/// Law: distinct satellites never share a storage key, so each key maps to
/// one stored element array and a persist for one group can never clobber
/// another's cache.
pub proof fn lemma_cache_keys_distinct(a: Satellite, b: Satellite)
    requires
        spec_cache_key(a) == spec_cache_key(b),
    ensures
        a == b,
{
    reveal_strlit("css");
    reveal_strlit("iss");
    reveal_strlit("weather");
    reveal_strlit("noaa");
    reveal_strlit("goes");
    reveal_strlit("earth resources");
    reveal_strlit("search & rescue");
    reveal_strlit("disaster monitoring");
    reveal_strlit("gps operational");
    reveal_strlit("glonass operational");
    reveal_strlit("galileo");
    reveal_strlit("beidou");
    reveal_strlit("space & earth science");
    reveal_strlit("geodetic");
    reveal_strlit("engineering");
    reveal_strlit("education");
    reveal_strlit("dfh-1");
    reveal_strlit("military");
    reveal_strlit("radar calibration");
    reveal_strlit("cubesats");
    // every pair of keys differs in one of the first two characters
    assert("css"@[0] == 'c' && "css"@[1] == 's');
    assert("iss"@[0] == 'i' && "iss"@[1] == 's');
    assert("weather"@[0] == 'w' && "weather"@[1] == 'e');
    assert("noaa"@[0] == 'n' && "noaa"@[1] == 'o');
    assert("goes"@[0] == 'g' && "goes"@[1] == 'o');
    assert("earth resources"@[0] == 'e' && "earth resources"@[1] == 'a');
    assert("search & rescue"@[0] == 's' && "search & rescue"@[1] == 'e');
    assert("disaster monitoring"@[0] == 'd' && "disaster monitoring"@[1] == 'i');
    assert("gps operational"@[0] == 'g' && "gps operational"@[1] == 'p');
    assert("glonass operational"@[0] == 'g' && "glonass operational"@[1] == 'l');
    assert("galileo"@[0] == 'g' && "galileo"@[1] == 'a');
    assert("beidou"@[0] == 'b' && "beidou"@[1] == 'e');
    assert("space & earth science"@[0] == 's' && "space & earth science"@[1] == 'p');
    assert("geodetic"@[0] == 'g' && "geodetic"@[1] == 'e');
    assert("engineering"@[0] == 'e' && "engineering"@[1] == 'n');
    assert("education"@[0] == 'e' && "education"@[1] == 'd');
    assert("dfh-1"@[0] == 'd' && "dfh-1"@[1] == 'f');
    assert("military"@[0] == 'm' && "military"@[1] == 'i');
    assert("radar calibration"@[0] == 'r' && "radar calibration"@[1] == 'a');
    assert("cubesats"@[0] == 'c' && "cubesats"@[1] == 'u');
}

impl Satellite {
    /// The name shown for this satellite.
    pub fn display_name(&self) -> (r: &str)
        ensures
            r@ == spec_display_name(*self),
    {
        match self {
            Satellite::Css => "CSS",
            Satellite::Iss => "ISS",
            Satellite::Weather => "Weather",
            Satellite::Noaa => "NOAA",
            Satellite::Goes => "GOES",
            Satellite::EarthResources => "Earth resources",
            Satellite::SearchRescue => "Search & rescue",
            Satellite::DisasterMonitoring => "Disaster monitoring",
            Satellite::Gps => "GPS Operational",
            Satellite::Glonass => "GLONASS Operational",
            Satellite::Galileo => "Galileo",
            Satellite::Beidou => "Beidou",
            Satellite::SpaceEarthScience => "Space & Earth Science",
            Satellite::Geodetic => "Geodetic",
            Satellite::Engineering => "Engineering",
            Satellite::Education => "Education",
            Satellite::Dfh1 => "DFH-1",
            Satellite::Military => "Military",
            Satellite::RadarCalibration => "Radar calibration",
            Satellite::CubeSats => "CubeSats",
        }
    }

    /// The storage key for this satellite's cached element sets: the
    /// lower-cased display name.
    pub fn cache_key(&self) -> (r: &str)
        ensures
            r@ == spec_cache_key(*self),
    {
        match self {
            Satellite::Css => "css",
            Satellite::Iss => "iss",
            Satellite::Weather => "weather",
            Satellite::Noaa => "noaa",
            Satellite::Goes => "goes",
            Satellite::EarthResources => "earth resources",
            Satellite::SearchRescue => "search & rescue",
            Satellite::DisasterMonitoring => "disaster monitoring",
            Satellite::Gps => "gps operational",
            Satellite::Glonass => "glonass operational",
            Satellite::Galileo => "galileo",
            Satellite::Beidou => "beidou",
            Satellite::SpaceEarthScience => "space & earth science",
            Satellite::Geodetic => "geodetic",
            Satellite::Engineering => "engineering",
            Satellite::Education => "education",
            Satellite::Dfh1 => "dfh-1",
            Satellite::Military => "military",
            Satellite::RadarCalibration => "radar calibration",
            Satellite::CubeSats => "cubesats",
        }
    }

    /// The international designator, for a satellite tracked as a single
    /// object.
    pub fn cospar_id(&self) -> (r: Option<&str>)
        ensures
            r matches Some(id) ==> spec_cospar_id(*self) == Some(id@),
            r is Some <==> spec_cospar_id(*self) is Some,
    {
        match self {
            Satellite::Iss => Some("1998-067A"),
            Satellite::Css => Some("2021-035A"),
            Satellite::Dfh1 => Some("1970-034A"),
            _ => None,
        }
    }

    /// The upstream catalog group name, for a satellite tracked as a group.
    pub fn group(&self) -> (r: Option<&str>)
        ensures
            r matches Some(g) ==> spec_group(*self) == Some(g@),
            r is Some <==> spec_group(*self) is Some,
    {
        match self {
            Satellite::Weather => Some("weather"),
            Satellite::Noaa => Some("noaa"),
            Satellite::Goes => Some("goes"),
            Satellite::EarthResources => Some("resource"),
            Satellite::SearchRescue => Some("sarsat"),
            Satellite::DisasterMonitoring => Some("dmc"),
            Satellite::Gps => Some("gps-ops"),
            Satellite::Glonass => Some("glo-ops"),
            Satellite::Galileo => Some("galileo"),
            Satellite::Beidou => Some("beidou"),
            Satellite::SpaceEarthScience => Some("science"),
            Satellite::Geodetic => Some("geodetic"),
            Satellite::Engineering => Some("engineering"),
            Satellite::Education => Some("education"),
            Satellite::Military => Some("military"),
            Satellite::RadarCalibration => Some("radar"),
            Satellite::CubeSats => Some("cubesat"),
            _ => None,
        }
    }

    /// The upstream query parameter selecting this satellite's element sets:
    /// the designator field for a single object, the group field otherwise.
    /// Total, by [`lemma_query_forms`].
    pub fn query_parameter(&self) -> (r: (&str, &str))
        ensures
            spec_cospar_id(*self) matches Some(id) ==> r.0@ == "INTDES"@ && r.1@ == id,
            spec_group(*self) matches Some(g) ==> r.0@ == "GROUP"@ && r.1@ == g,
    {
        proof {
            lemma_query_forms(*self);
        }
        match self.cospar_id() {
            Some(id) => ("INTDES", id),
            None => {
                match self.group() {
                    Some(g) => ("GROUP", g),
                    None => {
                        // unreachable: one of the two forms always exists
                        proof {
                            assert(false);
                        }
                        ("GROUP", "")
                    },
                }
            },
        }
    }

    /// All satellites, in catalog display order.
    pub fn all() -> (r: Vec<Satellite>)
        ensures
            r@ == seq![
                Satellite::Css,
                Satellite::Iss,
                Satellite::Weather,
                Satellite::Noaa,
                Satellite::Goes,
                Satellite::EarthResources,
                Satellite::SearchRescue,
                Satellite::DisasterMonitoring,
                Satellite::Gps,
                Satellite::Glonass,
                Satellite::Galileo,
                Satellite::Beidou,
                Satellite::SpaceEarthScience,
                Satellite::Geodetic,
                Satellite::Engineering,
                Satellite::Education,
                Satellite::Dfh1,
                Satellite::Military,
                Satellite::RadarCalibration,
                Satellite::CubeSats,
            ],
    {
        let all: Vec<Satellite> = vec![
            Satellite::Css,
            Satellite::Iss,
            Satellite::Weather,
            Satellite::Noaa,
            Satellite::Goes,
            Satellite::EarthResources,
            Satellite::SearchRescue,
            Satellite::DisasterMonitoring,
            Satellite::Gps,
            Satellite::Glonass,
            Satellite::Galileo,
            Satellite::Beidou,
            Satellite::SpaceEarthScience,
            Satellite::Geodetic,
            Satellite::Engineering,
            Satellite::Education,
            Satellite::Dfh1,
            Satellite::Military,
            Satellite::RadarCalibration,
            Satellite::CubeSats,
        ];
        proof {
            assert(all@ =~= seq![
                Satellite::Css,
                Satellite::Iss,
                Satellite::Weather,
                Satellite::Noaa,
                Satellite::Goes,
                Satellite::EarthResources,
                Satellite::SearchRescue,
                Satellite::DisasterMonitoring,
                Satellite::Gps,
                Satellite::Glonass,
                Satellite::Galileo,
                Satellite::Beidou,
                Satellite::SpaceEarthScience,
                Satellite::Geodetic,
                Satellite::Engineering,
                Satellite::Education,
                Satellite::Dfh1,
                Satellite::Military,
                Satellite::RadarCalibration,
                Satellite::CubeSats,
            ]);
        }
        all
    }
}

/// One row of the satellite selection list: a satellite and whether it is
/// currently selected for tracking.
#[derive(Clone, Copy, PartialEq, Eq, Structural, Debug)]
pub struct Item {
    pub satellite: Satellite,
    pub selected: bool,
}

impl From<Satellite> for Item {
    /// A fresh, unselected list row.
    fn from(satellite: Satellite) -> (r: Item) {
        Item { satellite, selected: false }
    }
}

impl vstd::std_specs::convert::FromSpecImpl<Satellite> for Item {
    open spec fn obeys_from_spec() -> bool {
        true
    }

    open spec fn from_spec(satellite: Satellite) -> Item {
        Item { satellite, selected: false }
    }
}

} // verus!
