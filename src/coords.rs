use vstd::prelude::*;

use crate::angular::{converted, lemma_round_trip, Angular};
use crate::units::UnitSpecifier;

verus! {

/// A surface point: latitude and longitude under the unit tag, altitude linear.
#[derive(Clone, Copy, Debug, PartialEq, Eq)]
pub struct Position<V> {
    pub lat: V,
    pub lon: V,
    pub alt: V,
    pub units: UnitSpecifier,
}

impl<V: Copy> Position<V> {
    /// `to_radians` then `to_degrees` gives what `to_degrees` gives: for a
    /// value in radians whenever the degree map is a function, for one in
    /// degrees when the degree map also undoes the radian map exactly.
    pub proof fn lemma_radians_then_degrees<D: Fn(V) -> V, R: Fn(V) -> V>(
        v: Self,
        to_deg: D,
        to_rad: R,
        direct: Self,
        in_radians: Self,
        back: Self,
    )
        requires
            forall|x: V, y: V, z: V|
                to_deg.ensures((x,), y) && to_deg.ensures((x,), z) ==> y == z,
            v.units == UnitSpecifier::Degrees ==> forall|x: V, y: V, z: V|
                to_rad.ensures((x,), y) && to_deg.ensures((y,), z) ==> z == x,
            converted(v, UnitSpecifier::Degrees, to_deg, direct),
            converted(v, UnitSpecifier::Radians, to_rad, in_radians),
            converted(in_radians, UnitSpecifier::Degrees, to_deg, back),
        ensures
            back == direct,
    {
        lemma_round_trip(v, to_deg, to_rad, direct, in_radians, back);
    }

    /// Which field stands at each place of `linear()` and `angular()`.
    pub proof fn lemma_field_places(p: Self)
        ensures
            p.linear().len() == 1,
            p.linear()[0] == p.alt,
            p.angular().len() == 2,
            p.angular()[0] == p.lat,
            p.angular()[1] == p.lon,
    {
    }

    /// A position from its fields.
    pub fn new(lat: V, lon: V, alt: V, units: UnitSpecifier) -> (r: Position<V>)
        ensures
            r == (Position { lat, lon, alt, units }),
    {
        Position { lat, lon, alt, units }
    }

    /// The value in degrees: itself when already in degrees, otherwise the angular
    /// fields mapped through `scale` and the tag changed; linear fields kept.
    pub fn to_degrees<F: Fn(V) -> V>(&self, scale: F) -> (r: Self)
        requires
            forall|x: V| scale.requires((x,)),
        ensures
            self.units == UnitSpecifier::Degrees ==> r == *self,
            self.units == UnitSpecifier::Radians ==> {
                &&& r.units == UnitSpecifier::Degrees
                &&& r.alt == self.alt
                &&& scale.ensures((self.lat,), r.lat)
                &&& scale.ensures((self.lon,), r.lon)
            },
    {
        match self.units {
            UnitSpecifier::Degrees => *self,
            UnitSpecifier::Radians => {
                let lat = scale(self.lat);
                let lon = scale(self.lon);
                Position { lat, lon, alt: self.alt, units: UnitSpecifier::Degrees }
            },
        }
    }

    /// The value in radians: itself when already in radians, otherwise the angular
    /// fields mapped through `scale` and the tag changed; linear fields kept.
    pub fn to_radians<F: Fn(V) -> V>(&self, scale: F) -> (r: Self)
        requires
            forall|x: V| scale.requires((x,)),
        ensures
            self.units == UnitSpecifier::Radians ==> r == *self,
            self.units == UnitSpecifier::Degrees ==> {
                &&& r.units == UnitSpecifier::Radians
                &&& r.alt == self.alt
                &&& scale.ensures((self.lat,), r.lat)
                &&& scale.ensures((self.lon,), r.lon)
            },
    {
        match self.units {
            UnitSpecifier::Radians => *self,
            UnitSpecifier::Degrees => {
                let lat = scale(self.lat);
                let lon = scale(self.lon);
                Position { lat, lon, alt: self.alt, units: UnitSpecifier::Radians }
            },
        }
    }
}

impl<V: Copy> Angular<V> for Position<V> {
    open spec fn tag(&self) -> UnitSpecifier {
        self.units
    }

    open spec fn linear(&self) -> Seq<V> {
        seq![self.alt]
    }

    open spec fn angular(&self) -> Seq<V> {
        seq![self.lat, self.lon]
    }

    proof fn lemma_fields_determine(a: Self, b: Self) {
        Self::lemma_field_places(a);
        Self::lemma_field_places(b);
    }

    fn units(&self) -> (r: UnitSpecifier) {
        self.units
    }

    fn to_degrees<F: Fn(V) -> V>(&self, scale: F) -> (r: Self) {
        let r = Position::to_degrees(self, scale);
        proof {
            Self::lemma_field_places(*self);
            Self::lemma_field_places(r);
        }
        r
    }

    fn to_radians<F: Fn(V) -> V>(&self, scale: F) -> (r: Self) {
        let r = Position::to_radians(self, scale);
        proof {
            Self::lemma_field_places(*self);
            Self::lemma_field_places(r);
        }
        r
    }
}

/// Range, azimuth and elevation: azimuth and elevation under the unit tag,
/// range linear.
#[derive(Clone, Copy, Debug, PartialEq, Eq)]
pub struct RAzEl<V> {
    pub az: V,
    pub el: V,
    pub r: V,
    pub units: UnitSpecifier,
}

impl<V: Copy> RAzEl<V> {
    /// `to_radians` then `to_degrees` gives what `to_degrees` gives: for a
    /// value in radians whenever the degree map is a function, for one in
    /// degrees when the degree map also undoes the radian map exactly.
    pub proof fn lemma_radians_then_degrees<D: Fn(V) -> V, R: Fn(V) -> V>(
        v: Self,
        to_deg: D,
        to_rad: R,
        direct: Self,
        in_radians: Self,
        back: Self,
    )
        requires
            forall|x: V, y: V, z: V|
                to_deg.ensures((x,), y) && to_deg.ensures((x,), z) ==> y == z,
            v.units == UnitSpecifier::Degrees ==> forall|x: V, y: V, z: V|
                to_rad.ensures((x,), y) && to_deg.ensures((y,), z) ==> z == x,
            converted(v, UnitSpecifier::Degrees, to_deg, direct),
            converted(v, UnitSpecifier::Radians, to_rad, in_radians),
            converted(in_radians, UnitSpecifier::Degrees, to_deg, back),
        ensures
            back == direct,
    {
        lemma_round_trip(v, to_deg, to_rad, direct, in_radians, back);
    }

    /// Which field stands at each place of `linear()` and `angular()`.
    pub proof fn lemma_field_places(p: Self)
        ensures
            p.linear().len() == 1,
            p.linear()[0] == p.r,
            p.angular().len() == 2,
            p.angular()[0] == p.az,
            p.angular()[1] == p.el,
    {
    }

    /// Packages an engine result, which is always in radians.
    pub fn from_engine(r: V, az: V, el: V) -> (out: RAzEl<V>)
        ensures
            out == (RAzEl { az, el, r, units: UnitSpecifier::Radians }),
    {
        RAzEl { az, el, r, units: UnitSpecifier::Radians }
    }

    /// The value in degrees: itself when already in degrees, otherwise the angular
    /// fields mapped through `scale` and the tag changed; linear fields kept.
    pub fn to_degrees<F: Fn(V) -> V>(&self, scale: F) -> (r: Self)
        requires
            forall|x: V| scale.requires((x,)),
        ensures
            self.units == UnitSpecifier::Degrees ==> r == *self,
            self.units == UnitSpecifier::Radians ==> {
                &&& r.units == UnitSpecifier::Degrees
                &&& r.r == self.r
                &&& scale.ensures((self.az,), r.az)
                &&& scale.ensures((self.el,), r.el)
            },
    {
        match self.units {
            UnitSpecifier::Degrees => *self,
            UnitSpecifier::Radians => {
                let az = scale(self.az);
                let el = scale(self.el);
                RAzEl { az, el, r: self.r, units: UnitSpecifier::Degrees }
            },
        }
    }

    /// The value in radians: itself when already in radians, otherwise the angular
    /// fields mapped through `scale` and the tag changed; linear fields kept.
    pub fn to_radians<F: Fn(V) -> V>(&self, scale: F) -> (r: Self)
        requires
            forall|x: V| scale.requires((x,)),
        ensures
            self.units == UnitSpecifier::Radians ==> r == *self,
            self.units == UnitSpecifier::Degrees ==> {
                &&& r.units == UnitSpecifier::Radians
                &&& r.r == self.r
                &&& scale.ensures((self.az,), r.az)
                &&& scale.ensures((self.el,), r.el)
            },
    {
        match self.units {
            UnitSpecifier::Radians => *self,
            UnitSpecifier::Degrees => {
                let az = scale(self.az);
                let el = scale(self.el);
                RAzEl { az, el, r: self.r, units: UnitSpecifier::Radians }
            },
        }
    }

    /// The same record with every numeric field mapped through `g` (for
    /// instance, each number rendered as text).
    pub fn map<W, G: Fn(V) -> W>(&self, g: G) -> (r: RAzEl<W>)
        requires
            forall|x: V| g.requires((x,)),
        ensures
            g.ensures((self.az,), r.az),
            g.ensures((self.el,), r.el),
            g.ensures((self.r,), r.r),
            r.units == self.units,
    {
        RAzEl { az: g(self.az), el: g(self.el), r: g(self.r), units: self.units }
    }
}

impl<V: Copy> Angular<V> for RAzEl<V> {
    open spec fn tag(&self) -> UnitSpecifier {
        self.units
    }

    open spec fn linear(&self) -> Seq<V> {
        seq![self.r]
    }

    open spec fn angular(&self) -> Seq<V> {
        seq![self.az, self.el]
    }

    proof fn lemma_fields_determine(a: Self, b: Self) {
        Self::lemma_field_places(a);
        Self::lemma_field_places(b);
    }

    fn units(&self) -> (r: UnitSpecifier) {
        self.units
    }

    fn to_degrees<F: Fn(V) -> V>(&self, scale: F) -> (r: Self) {
        let r = RAzEl::to_degrees(self, scale);
        proof {
            Self::lemma_field_places(*self);
            Self::lemma_field_places(r);
        }
        r
    }

    fn to_radians<F: Fn(V) -> V>(&self, scale: F) -> (r: Self) {
        let r = RAzEl::to_radians(self, scale);
        proof {
            Self::lemma_field_places(*self);
            Self::lemma_field_places(r);
        }
        r
    }
}

/// A location in spherical form: longitude and latitude under the unit tag,
/// range linear.
#[derive(Clone, Copy, Debug, PartialEq, Eq)]
pub struct PositionSpherical<V> {
    pub r: V,
    pub lon: V,
    pub lat: V,
    pub units: UnitSpecifier,
}

impl<V: Copy> PositionSpherical<V> {
    /// Which field stands at each place of `linear()` and `angular()`.
    pub proof fn lemma_field_places(p: Self)
        ensures
            p.linear().len() == 1,
            p.linear()[0] == p.r,
            p.angular().len() == 2,
            p.angular()[0] == p.lon,
            p.angular()[1] == p.lat,
    {
    }

    /// The value in degrees: itself when already in degrees, otherwise the angular
    /// fields mapped through `scale` and the tag changed; linear fields kept.
    pub fn to_degrees<F: Fn(V) -> V>(&self, scale: F) -> (r: Self)
        requires
            forall|x: V| scale.requires((x,)),
        ensures
            self.units == UnitSpecifier::Degrees ==> r == *self,
            self.units == UnitSpecifier::Radians ==> {
                &&& r.units == UnitSpecifier::Degrees
                &&& r.r == self.r
                &&& scale.ensures((self.lon,), r.lon)
                &&& scale.ensures((self.lat,), r.lat)
            },
    {
        match self.units {
            UnitSpecifier::Degrees => *self,
            UnitSpecifier::Radians => {
                let lon = scale(self.lon);
                let lat = scale(self.lat);
                PositionSpherical { r: self.r, lon, lat, units: UnitSpecifier::Degrees }
            },
        }
    }

    /// The value in radians: itself when already in radians, otherwise the angular
    /// fields mapped through `scale` and the tag changed; linear fields kept.
    pub fn to_radians<F: Fn(V) -> V>(&self, scale: F) -> (r: Self)
        requires
            forall|x: V| scale.requires((x,)),
        ensures
            self.units == UnitSpecifier::Radians ==> r == *self,
            self.units == UnitSpecifier::Degrees ==> {
                &&& r.units == UnitSpecifier::Radians
                &&& r.r == self.r
                &&& scale.ensures((self.lon,), r.lon)
                &&& scale.ensures((self.lat,), r.lat)
            },
    {
        match self.units {
            UnitSpecifier::Radians => *self,
            UnitSpecifier::Degrees => {
                let lon = scale(self.lon);
                let lat = scale(self.lat);
                PositionSpherical { r: self.r, lon, lat, units: UnitSpecifier::Radians }
            },
        }
    }

    /// The same record with every numeric field mapped through `g` (for
    /// instance, each number rendered as text).
    pub fn map<W, G: Fn(V) -> W>(&self, g: G) -> (r: PositionSpherical<W>)
        requires
            forall|x: V| g.requires((x,)),
        ensures
            g.ensures((self.r,), r.r),
            g.ensures((self.lon,), r.lon),
            g.ensures((self.lat,), r.lat),
            r.units == self.units,
    {
        PositionSpherical { r: g(self.r), lon: g(self.lon), lat: g(self.lat), units: self.units }
    }
}

impl<V: Copy> Angular<V> for PositionSpherical<V> {
    open spec fn tag(&self) -> UnitSpecifier {
        self.units
    }

    open spec fn linear(&self) -> Seq<V> {
        seq![self.r]
    }

    open spec fn angular(&self) -> Seq<V> {
        seq![self.lon, self.lat]
    }

    proof fn lemma_fields_determine(a: Self, b: Self) {
        Self::lemma_field_places(a);
        Self::lemma_field_places(b);
    }

    fn units(&self) -> (r: UnitSpecifier) {
        self.units
    }

    fn to_degrees<F: Fn(V) -> V>(&self, scale: F) -> (r: Self) {
        let r = PositionSpherical::to_degrees(self, scale);
        proof {
            Self::lemma_field_places(*self);
            Self::lemma_field_places(r);
        }
        r
    }

    fn to_radians<F: Fn(V) -> V>(&self, scale: F) -> (r: Self) {
        let r = PositionSpherical::to_radians(self, scale);
        proof {
            Self::lemma_field_places(*self);
            Self::lemma_field_places(r);
        }
        r
    }
}

/// One location in both rectangular and spherical form: longitude and
/// latitude under the unit tag, the rest linear.
#[derive(Clone, Copy, Debug, PartialEq, Eq)]
pub struct PositionFull<V> {
    pub x: V,
    pub y: V,
    pub z: V,
    pub r: V,
    pub lon: V,
    pub lat: V,
    pub units: UnitSpecifier,
}

impl<V: Copy> PositionFull<V> {
    /// `to_radians` then `to_degrees` gives what `to_degrees` gives: for a
    /// value in radians whenever the degree map is a function, for one in
    /// degrees when the degree map also undoes the radian map exactly.
    pub proof fn lemma_radians_then_degrees<D: Fn(V) -> V, R: Fn(V) -> V>(
        v: Self,
        to_deg: D,
        to_rad: R,
        direct: Self,
        in_radians: Self,
        back: Self,
    )
        requires
            forall|x: V, y: V, z: V|
                to_deg.ensures((x,), y) && to_deg.ensures((x,), z) ==> y == z,
            v.units == UnitSpecifier::Degrees ==> forall|x: V, y: V, z: V|
                to_rad.ensures((x,), y) && to_deg.ensures((y,), z) ==> z == x,
            converted(v, UnitSpecifier::Degrees, to_deg, direct),
            converted(v, UnitSpecifier::Radians, to_rad, in_radians),
            converted(in_radians, UnitSpecifier::Degrees, to_deg, back),
        ensures
            back == direct,
    {
        lemma_round_trip(v, to_deg, to_rad, direct, in_radians, back);
    }

    /// Which field stands at each place of `linear()` and `angular()`.
    pub proof fn lemma_field_places(p: Self)
        ensures
            p.linear().len() == 4,
            p.linear()[0] == p.x,
            p.linear()[1] == p.y,
            p.linear()[2] == p.z,
            p.linear()[3] == p.r,
            p.angular().len() == 2,
            p.angular()[0] == p.lon,
            p.angular()[1] == p.lat,
    {
    }

    /// Packages an engine result, which is always in radians.
    pub fn from_engine(x: V, y: V, z: V, r: V, lon: V, lat: V) -> (out: PositionFull<V>)
        ensures
            out == (PositionFull { x, y, z, r, lon, lat, units: UnitSpecifier::Radians }),
    {
        PositionFull { x, y, z, r, lon, lat, units: UnitSpecifier::Radians }
    }

    /// The value in degrees: itself when already in degrees, otherwise the angular
    /// fields mapped through `scale` and the tag changed; linear fields kept.
    pub fn to_degrees<F: Fn(V) -> V>(&self, scale: F) -> (r: Self)
        requires
            forall|x: V| scale.requires((x,)),
        ensures
            self.units == UnitSpecifier::Degrees ==> r == *self,
            self.units == UnitSpecifier::Radians ==> {
                &&& r.units == UnitSpecifier::Degrees
                &&& r.x == self.x
                &&& r.y == self.y
                &&& r.z == self.z
                &&& r.r == self.r
                &&& scale.ensures((self.lon,), r.lon)
                &&& scale.ensures((self.lat,), r.lat)
            },
    {
        match self.units {
            UnitSpecifier::Degrees => *self,
            UnitSpecifier::Radians => {
                let lon = scale(self.lon);
                let lat = scale(self.lat);
                PositionFull {
                    x: self.x,
                    y: self.y,
                    z: self.z,
                    r: self.r,
                    lon,
                    lat,
                    units: UnitSpecifier::Degrees,
                }
            },
        }
    }

    /// The value in radians: itself when already in radians, otherwise the angular
    /// fields mapped through `scale` and the tag changed; linear fields kept.
    pub fn to_radians<F: Fn(V) -> V>(&self, scale: F) -> (r: Self)
        requires
            forall|x: V| scale.requires((x,)),
        ensures
            self.units == UnitSpecifier::Radians ==> r == *self,
            self.units == UnitSpecifier::Degrees ==> {
                &&& r.units == UnitSpecifier::Radians
                &&& r.x == self.x
                &&& r.y == self.y
                &&& r.z == self.z
                &&& r.r == self.r
                &&& scale.ensures((self.lon,), r.lon)
                &&& scale.ensures((self.lat,), r.lat)
            },
    {
        match self.units {
            UnitSpecifier::Radians => *self,
            UnitSpecifier::Degrees => {
                let lon = scale(self.lon);
                let lat = scale(self.lat);
                PositionFull {
                    x: self.x,
                    y: self.y,
                    z: self.z,
                    r: self.r,
                    lon,
                    lat,
                    units: UnitSpecifier::Radians,
                }
            },
        }
    }

    /// The same record with every numeric field mapped through `g` (for
    /// instance, each number rendered as text).
    pub fn map<W, G: Fn(V) -> W>(&self, g: G) -> (r: PositionFull<W>)
        requires
            forall|x: V| g.requires((x,)),
        ensures
            g.ensures((self.x,), r.x),
            g.ensures((self.y,), r.y),
            g.ensures((self.z,), r.z),
            g.ensures((self.r,), r.r),
            g.ensures((self.lon,), r.lon),
            g.ensures((self.lat,), r.lat),
            r.units == self.units,
    {
        PositionFull {
            x: g(self.x),
            y: g(self.y),
            z: g(self.z),
            r: g(self.r),
            lon: g(self.lon),
            lat: g(self.lat),
            units: self.units,
        }
    }
}

impl<V: Copy> Angular<V> for PositionFull<V> {
    open spec fn tag(&self) -> UnitSpecifier {
        self.units
    }

    open spec fn linear(&self) -> Seq<V> {
        seq![self.x, self.y, self.z, self.r]
    }

    open spec fn angular(&self) -> Seq<V> {
        seq![self.lon, self.lat]
    }

    proof fn lemma_fields_determine(a: Self, b: Self) {
        Self::lemma_field_places(a);
        Self::lemma_field_places(b);
    }

    fn units(&self) -> (r: UnitSpecifier) {
        self.units
    }

    fn to_degrees<F: Fn(V) -> V>(&self, scale: F) -> (r: Self) {
        let r = PositionFull::to_degrees(self, scale);
        proof {
            Self::lemma_field_places(*self);
            Self::lemma_field_places(r);
        }
        r
    }

    fn to_radians<F: Fn(V) -> V>(&self, scale: F) -> (r: Self) {
        let r = PositionFull::to_radians(self, scale);
        proof {
            Self::lemma_field_places(*self);
            Self::lemma_field_places(r);
        }
        r
    }
}

/// A location in rectangular form, in kilometres; it carries no unit tag.
#[derive(Clone, Copy, Debug, PartialEq, Eq)]
pub struct PositionXYZ<V> {
    pub x: V,
    pub y: V,
    pub z: V,
}

impl<V: Copy> PositionXYZ<V> {
    /// The same record with every numeric field mapped through `g` (for
    /// instance, each number rendered as text).
    pub fn map<W, G: Fn(V) -> W>(&self, g: G) -> (r: PositionXYZ<W>)
        requires
            forall|x: V| g.requires((x,)),
        ensures
            g.ensures((self.x,), r.x),
            g.ensures((self.y,), r.y),
            g.ensures((self.z,), r.z),
    {
        PositionXYZ { x: g(self.x), y: g(self.y), z: g(self.z) }
    }
}

impl<V: Copy> From<PositionFull<V>> for PositionXYZ<V> {
    /// Keeps the rectangular coordinates.
    fn from(p: PositionFull<V>) -> (r: PositionXYZ<V>) {
        PositionXYZ { x: p.x, y: p.y, z: p.z }
    }
}

impl<V: Copy> vstd::std_specs::convert::FromSpecImpl<PositionFull<V>> for PositionXYZ<V> {
    open spec fn obeys_from_spec() -> bool {
        true
    }

    open spec fn from_spec(p: PositionFull<V>) -> PositionXYZ<V> {
        PositionXYZ { x: p.x, y: p.y, z: p.z }
    }
}

impl<V: Copy> From<PositionFull<V>> for PositionSpherical<V> {
    /// Keeps range, longitude, latitude and the unit tag.
    fn from(p: PositionFull<V>) -> (r: PositionSpherical<V>) {
        PositionSpherical { r: p.r, lon: p.lon, lat: p.lat, units: p.units }
    }
}

impl<V: Copy> vstd::std_specs::convert::FromSpecImpl<PositionFull<V>> for PositionSpherical<V> {
    open spec fn obeys_from_spec() -> bool {
        true
    }

    open spec fn from_spec(p: PositionFull<V>) -> PositionSpherical<V> {
        PositionSpherical { r: p.r, lon: p.lon, lat: p.lat, units: p.units }
    }
}

impl<V: Copy> From<PositionFull<V>> for RAzEl<V> {
    /// Reads longitude as azimuth and latitude as elevation, keeping range and
    /// tag. This is a reinterpretation for convenience, not an observer-centred
    /// azimuth and elevation unless the frame already is one.
    fn from(p: PositionFull<V>) -> (r: RAzEl<V>) {
        RAzEl { az: p.lon, el: p.lat, r: p.r, units: p.units }
    }
}

impl<V: Copy> vstd::std_specs::convert::FromSpecImpl<PositionFull<V>> for RAzEl<V> {
    open spec fn obeys_from_spec() -> bool {
        true
    }

    open spec fn from_spec(p: PositionFull<V>) -> RAzEl<V> {
        RAzEl { az: p.lon, el: p.lat, r: p.r, units: p.units }
    }
}

} // verus!
