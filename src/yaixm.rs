//! The airspace dataset: features, their volumes and boundaries, and the
//! overlays (local agreements, obstacles, radio services) merged into them.
use vstd::prelude::*;

verus! {

/// ICAO airspace category of a feature.
#[derive(Clone, Copy, Debug, PartialEq, Eq, Structural)]
pub enum IcaoType {
    Atz,
    Awy,
    Cta,
    Ctr,
    D,
    DOther,
    Other,
    P,
    R,
    Tma,
}

/// ICAO airspace class.
#[derive(Clone, Copy, Debug, PartialEq, Eq, Structural)]
pub enum IcaoClass {
    A,
    B,
    C,
    D,
    E,
    F,
    G,
}

/// Domain-specific subtype of a feature.
#[derive(Clone, Copy, Debug, PartialEq, Eq, Structural)]
pub enum LocalType {
    Dz,
    Glider,
    Gvs,
    Hirta,
    Ils,
    Laser,
    Matz,
    NoAtz,
    Obstacle,
    Rat,
    Rmz,
    Ul,
    Tmz,
}

/// Qualifier rule tag of a feature or volume.
#[derive(Clone, Copy, Debug, PartialEq, Eq, Structural)]
pub enum Rule {
    Intense,
    Loa,
    NoSsr,
    Notam,
    Raz,
    Rmz,
    Si,
    Tra,
    Tmz,
}

/// Direction in which an arc is drawn.
#[derive(Clone, Copy, Debug, PartialEq, Eq, Structural)]
pub enum Direction {
    Clockwise,
    Anticlockwise,
}

/// An arc from the preceding boundary point to `to`, about `centre`.
/// Positions are written `DDMMSSN DDDMMSSW`; the radius as `<number> nm` or
/// `<number> km`.
#[derive(Clone, Debug)]
pub struct Arc {
    pub dir: Direction,
    pub radius: String,
    pub centre: String,
    pub to: String,
}

/// A full circle.
#[derive(Clone, Debug)]
pub struct Circle {
    pub radius: String,
    pub centre: String,
}

/// One segment of a volume's boundary.
#[derive(Clone, Debug)]
pub enum Boundary {
    Line(Vec<String>),
    Arc(Arc),
    Circle(Circle),
}

/// One lateral area of a feature, with its vertical limits.
/// Levels are `SFC`, `FL<n>` or `<n> ft`; the frequency is in kHz.
#[derive(Clone, Debug)]
pub struct Volume {
    pub id: Option<String>,
    pub name: Option<String>,
    pub lower: String,
    pub upper: String,
    pub boundary: Vec<Boundary>,
    pub icao_class: Option<IcaoClass>,
    pub frequency: Option<u32>,
    pub rules: Option<Vec<Rule>>,
    pub seq: Option<String>,
}

/// A named airspace entity made of one or more volumes.
#[derive(Clone, Debug)]
pub struct Feature {
    pub name: String,
    pub icao_type: IcaoType,
    pub icao_class: Option<IcaoClass>,
    pub id: Option<String>,
    pub local_type: Option<LocalType>,
    pub rules: Option<Vec<Rule>>,
    pub geometry: Vec<Volume>,
}

/// Replacement volumes for the volume with identifier `id`.
#[derive(Clone, Debug)]
pub struct Replacement {
    pub id: String,
    pub geometry: Vec<Volume>,
}

/// One area of a local agreement.
#[derive(Clone, Debug)]
pub struct LoaArea {
    pub name: String,
    pub add: Vec<Feature>,
    pub replace: Option<Vec<Replacement>>,
}

/// A local agreement.
#[derive(Clone, Debug)]
pub struct Loa {
    pub name: String,
    pub default: Option<bool>,
    pub areas: Vec<LoaArea>,
}

/// An obstacle: a position and its elevation (a level string).
#[derive(Clone, Debug)]
pub struct Obstacle {
    pub name: String,
    pub position: String,
    pub elevation: String,
}

/// A radio frequency (kHz) and the identifiers of the features and volumes
/// it serves.
#[derive(Clone, Debug)]
pub struct Service {
    pub frequency: u32,
    pub controls: Vec<String>,
}

/// Release metadata of a dataset.
#[derive(Clone, Debug)]
pub struct Release {
    pub airac_date: String,
    pub note: String,
    pub commit: String,
}

/// A complete dataset.
#[derive(Clone, Debug)]
pub struct Yaixm {
    pub airspace: Vec<Feature>,
    pub loa: Vec<Loa>,
    pub obstacle: Vec<Obstacle>,
    pub rat: Vec<Feature>,
    pub release: Release,
    pub service: Vec<Service>,
}

/// The rule tags of an optional list.
pub open spec fn rules_of(r: Option<Vec<Rule>>) -> Seq<Rule> {
    match r {
        Some(v) => v@,
        None => Seq::empty(),
    }
}

/// Whether a feature or its volume carries the rule `r`.
pub open spec fn has_rule(f: Feature, v: Volume, r: Rule) -> bool {
    rules_of(f.rules).contains(r) || rules_of(v.rules).contains(r)
}

/// Whether an optional rule list holds `r`.
pub fn rules_contain(rules: &Option<Vec<Rule>>, r: Rule) -> (b: bool)
    ensures
        b == rules_of(*rules).contains(r),
{
    match rules {
        None => false,
        Some(v) => {
            assert(rules_of(*rules) == v@);
            let mut i: usize = 0;
            while i < v.len()
                invariant
                    0 <= i <= v.len(),
                    rules_of(*rules) == v@,
                    forall|j: int| 0 <= j < i ==> v@[j] != r,
                decreases v.len() - i,
            {
                if v[i] == r {
                    assert(v@[i as int] == r);
                    assert(v@.contains(r));
                    return true;
                }
                i = i + 1;
            }
            assert(!v@.contains(r));
            false
        },
    }
}

/// Whether the feature or the volume carries the rule `r`.
pub fn feature_has_rule(f: &Feature, v: &Volume, r: Rule) -> (b: bool)
    ensures
        b == has_rule(*f, *v, r),
{
    rules_contain(&f.rules, r) || rules_contain(&v.rules, r)
}

} // verus!
