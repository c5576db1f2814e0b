use vstd::prelude::*;

use crate::angular::{converted, translate_to};
use crate::coords::{Position, PositionFull, PositionSpherical, PositionXYZ, RAzEl};
use crate::error::QueryError;
use crate::format::{Format, FormatSpecifier};
use crate::units::{UnitSpecifier, UnitsSpecifier};

verus! {

/// How an operation fills in an observer position the caller left out.
#[derive(Clone, Copy, Debug)]
pub enum PositionDefault<V> {
    /// Use this home position.
    Home(Position<V>),
    /// There is no sensible default: the position must be given.
    Required,
}

/// The settings a query runs with, once every omitted field is filled in.
#[derive(Clone, Copy, Debug)]
pub struct QuerySettings<V> {
    pub p: Position<V>,
    pub u: UnitSpecifier,
    pub f: FormatSpecifier,
}

/// The position a query runs at: the given one, else the operation's home
/// position, else `MissingParameter`.
pub fn resolve_position<V: Copy>(given: Option<Position<V>>, policy: PositionDefault<V>) -> (r:
    Result<Position<V>, QueryError>)
    ensures
        r == match given {
            Some(p) => Ok(p),
            None => match policy {
                PositionDefault::Home(h) => Ok(h),
                PositionDefault::Required => Err(QueryError::MissingParameter),
            },
        },
{
    match given {
        Some(p) => Ok(p),
        None => match policy {
            PositionDefault::Home(h) => Ok(h),
            PositionDefault::Required => Err(QueryError::MissingParameter),
        },
    }
}

/// Fills in every omitted request field: the position as `resolve_position`
/// does, the units as degrees, the format as text.
pub fn resolve_settings<V: Copy>(
    p: Option<Position<V>>,
    policy: PositionDefault<V>,
    u: Option<UnitSpecifier>,
    f: Option<FormatSpecifier>,
) -> (r: Result<QuerySettings<V>, QueryError>)
    ensures
        match r {
            Ok(s) => {
                &&& p is None ==> (policy matches PositionDefault::Home(h) && s.p == h)
                &&& p matches Some(q) ==> s.p == q
                &&& s.u == match u {
                    Some(v) => v,
                    None => UnitSpecifier::Degrees,
                }
                &&& s.f == match f {
                    Some(v) => v,
                    None => FormatSpecifier::Txt,
                }
            },
            Err(e) => e == QueryError::MissingParameter && p is None && policy is Required,
        },
{
    match resolve_position(p, policy) {
        Ok(pos) => {
            let units = UnitsSpecifier::resolve(u);
            let format = Format::resolve(f);
            Ok(QuerySettings { p: pos, u: units.u, f: format.f })
        },
        Err(e) => Err(e),
    }
}

/// The coordinate form a caller asks a position result in.
#[derive(Clone, Copy, Debug, PartialEq, Eq, Structural)]
pub enum CoordFormat {
    Xyz,
    Spherical,
    Azel,
}

/// A position result narrowed to one coordinate form.
#[derive(Clone, Copy, Debug)]
pub enum Coords<V> {
    Xyz(PositionXYZ<V>),
    Spherical(PositionSpherical<V>),
    Azel(RAzEl<V>),
}

/// Narrows a full position result to the requested coordinate form and puts
/// its angles in the requested units. Rectangular coordinates carry no
/// angles and are returned as they are.
pub fn select_coords<V: Copy, D: Fn(V) -> V, R: Fn(V) -> V>(
    full: PositionFull<V>,
    c: CoordFormat,
    u: UnitSpecifier,
    to_deg: D,
    to_rad: R,
) -> (r: Coords<V>)
    requires
        forall|x: V| to_deg.requires((x,)),
        forall|x: V| to_rad.requires((x,)),
    ensures
        match r {
            Coords::Xyz(x) => c == CoordFormat::Xyz && x == (PositionXYZ {
                x: full.x,
                y: full.y,
                z: full.z,
            }),
            Coords::Spherical(s) => {
                let narrowed = PositionSpherical {
                    r: full.r,
                    lon: full.lon,
                    lat: full.lat,
                    units: full.units,
                };
                &&& c == CoordFormat::Spherical
                &&& u == UnitSpecifier::Degrees ==> converted(narrowed, u, to_deg, s)
                &&& u == UnitSpecifier::Radians ==> converted(narrowed, u, to_rad, s)
            },
            Coords::Azel(a) => {
                let narrowed = RAzEl { az: full.lon, el: full.lat, r: full.r, units: full.units };
                &&& c == CoordFormat::Azel
                &&& u == UnitSpecifier::Degrees ==> converted(narrowed, u, to_deg, a)
                &&& u == UnitSpecifier::Radians ==> converted(narrowed, u, to_rad, a)
            },
        },
{
    match c {
        CoordFormat::Xyz => Coords::Xyz(PositionXYZ::from(full)),
        CoordFormat::Spherical => {
            let s = PositionSpherical::from(full);
            Coords::Spherical(translate_to(s, u, to_deg, to_rad))
        },
        CoordFormat::Azel => {
            let a = RAzEl::from(full);
            Coords::Azel(translate_to(a, u, to_deg, to_rad))
        },
    }
}

} // verus!
