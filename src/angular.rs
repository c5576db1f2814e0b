use vstd::prelude::*;

use crate::units::UnitSpecifier;

verus! {

/// A value whose fields split into angular ones, covered by a unit tag, and
/// linear ones, which no unit conversion touches.
///
/// Values are generic over the scalar type `V`; the degree/radian scale map
/// is handed in by the caller (for `f64`, `f64::to_degrees` and
/// `f64::to_radians`). Each record type also offers `to_degrees` and
/// `to_radians` as inherent methods whose contracts name its fields; this
/// trait states the same over `linear` and `angular`, so that the pipeline
/// and the conversion laws below are written once for every record type.
pub trait Angular<V>: Sized {
    /// The unit system the angular fields are expressed in.
    spec fn tag(&self) -> UnitSpecifier;

    /// The linear fields, in declaration order.
    spec fn linear(&self) -> Seq<V>;

    /// The angular fields, in declaration order.
    spec fn angular(&self) -> Seq<V>;

    /// A value is determined by its tag, its linear and its angular fields.
    proof fn lemma_fields_determine(a: Self, b: Self)
        requires
            a.tag() == b.tag(),
            a.linear() == b.linear(),
            a.angular() == b.angular(),
        ensures
            a == b,
    ;

    /// The current unit tag.
    fn units(&self) -> (r: UnitSpecifier)
        ensures
            r == self.tag(),
    ;

    /// The value in degrees: itself when already in degrees, otherwise each
    /// angular field mapped through `scale` and the tag set to degrees.
    fn to_degrees<F: Fn(V) -> V>(&self, scale: F) -> (r: Self)
        requires
            forall|x: V| scale.requires((x,)),
        ensures
            self.tag() == UnitSpecifier::Degrees ==> r == *self,
            self.tag() != UnitSpecifier::Degrees ==> {
                &&& r.tag() == UnitSpecifier::Degrees
                &&& r.linear() == self.linear()
                &&& r.angular().len() == self.angular().len()
                &&& forall|i: int|
                    0 <= i < self.angular().len() ==> scale.ensures(
                        (self.angular()[i],),
                        #[trigger] r.angular()[i],
                    )
            },
    ;

    /// The value in radians: itself when already in radians, otherwise each
    /// angular field mapped through `scale` and the tag set to radians.
    fn to_radians<F: Fn(V) -> V>(&self, scale: F) -> (r: Self)
        requires
            forall|x: V| scale.requires((x,)),
        ensures
            self.tag() == UnitSpecifier::Radians ==> r == *self,
            self.tag() != UnitSpecifier::Radians ==> {
                &&& r.tag() == UnitSpecifier::Radians
                &&& r.linear() == self.linear()
                &&& r.angular().len() == self.angular().len()
                &&& forall|i: int|
                    0 <= i < self.angular().len() ==> scale.ensures(
                        (self.angular()[i],),
                        #[trigger] r.angular()[i],
                    )
            },
    ;
}

/// `r` is `v` with its angular fields mapped through `scale`, its linear
/// fields kept, and the tag set to `target`.
pub open spec fn rescaled<V, T: Angular<V>, F: Fn(V) -> V>(
    v: T,
    target: UnitSpecifier,
    scale: F,
    r: T,
) -> bool {
    &&& r.tag() == target
    &&& r.linear() == v.linear()
    &&& r.angular().len() == v.angular().len()
    &&& forall|i: int|
        0 <= i < v.angular().len() ==> scale.ensures((v.angular()[i],), #[trigger] r.angular()[i])
}

/// `r` is what converting `v` into `target` gives: `v` itself when it is
/// already tagged `target`, its rescaled form otherwise. This is, spelled
/// out, what `Angular::to_degrees` and `Angular::to_radians` ensure.
pub open spec fn converted<V, T: Angular<V>, F: Fn(V) -> V>(
    v: T,
    target: UnitSpecifier,
    scale: F,
    r: T,
) -> bool {
    if v.tag() == target {
        r == v
    } else {
        rescaled(v, target, scale, r)
    }
}


/// Converts a result into the requested unit system, exactly once: `to_deg`
/// scales radians to degrees, `to_rad` degrees to radians.
pub fn translate_to<V, T: Angular<V>, D: Fn(V) -> V, R: Fn(V) -> V>(
    res: T,
    u: UnitSpecifier,
    to_deg: D,
    to_rad: R,
) -> (r: T)
    requires
        forall|x: V| to_deg.requires((x,)),
        forall|x: V| to_rad.requires((x,)),
    ensures
        u == UnitSpecifier::Degrees ==> converted(res, u, to_deg, r),
        u == UnitSpecifier::Radians ==> converted(res, u, to_rad, r),
        r.tag() == u,
{
    match u {
        UnitSpecifier::Degrees => res.to_degrees(to_deg),
        UnitSpecifier::Radians => res.to_radians(to_rad),
    }
}

/// Converting twice into the same unit system gives what converting once
/// gives: the second conversion finds the value already in place.
pub proof fn lemma_conversion_idempotent<V, T: Angular<V>, F: Fn(V) -> V>(
    v: T,
    target: UnitSpecifier,
    scale: F,
    once: T,
    twice: T,
)
    requires
        converted(v, target, scale, once),
        converted(once, target, scale, twice),
    ensures
        twice == once,
{
}

/// Converting a value already tagged with the target unit system gives the
/// value itself, whatever the scale map.
pub proof fn lemma_conversion_in_place<V, T: Angular<V>, F: Fn(V) -> V>(
    v: T,
    target: UnitSpecifier,
    scale: F,
    r: T,
)
    requires
        v.tag() == target,
        converted(v, target, scale, r),
    ensures
        r == v,
{
}

/// A conversion leaves every linear field as it was and tags the result
/// with the target unit system.
pub proof fn lemma_conversion_keeps_linear<V, T: Angular<V>, F: Fn(V) -> V>(
    v: T,
    target: UnitSpecifier,
    scale: F,
    r: T,
)
    requires
        converted(v, target, scale, r),
    ensures
        r.linear() == v.linear(),
        r.tag() == target,
{
}

/// Going to radians and then to degrees gives what going to degrees gives.
/// For a value in radians this needs only that the degree map is a function;
/// for a value in degrees the degree map must also undo the radian map
/// exactly (for floating-point maps that holds only up to rounding).
pub proof fn lemma_round_trip<V, T: Angular<V>, D: Fn(V) -> V, R: Fn(V) -> V>(
    v: T,
    to_deg: D,
    to_rad: R,
    direct: T,
    in_radians: T,
    back: T,
)
    requires
        forall|x: V, y: V, z: V|
            to_deg.ensures((x,), y) && to_deg.ensures((x,), z) ==> y == z,
        v.tag() == UnitSpecifier::Degrees ==> forall|x: V, y: V, z: V|
            to_rad.ensures((x,), y) && to_deg.ensures((y,), z) ==> z == x,
        converted(v, UnitSpecifier::Degrees, to_deg, direct),
        converted(v, UnitSpecifier::Radians, to_rad, in_radians),
        converted(in_radians, UnitSpecifier::Degrees, to_deg, back),
    ensures
        back == direct,
{
    if v.tag() == UnitSpecifier::Degrees {
        assert(back.angular() =~= v.angular()) by {
            assert forall|i: int| 0 <= i < v.angular().len() implies back.angular()[i]
                == v.angular()[i] by {
                assert(to_rad.ensures((v.angular()[i],), in_radians.angular()[i]));
                assert(to_deg.ensures((in_radians.angular()[i],), back.angular()[i]));
            }
        }
        T::lemma_fields_determine(back, v);
    } else if v.tag() == UnitSpecifier::Radians {
        assert(back.angular() =~= direct.angular()) by {
            assert forall|i: int| 0 <= i < v.angular().len() implies back.angular()[i]
                == direct.angular()[i] by {
                assert(to_deg.ensures((v.angular()[i],), back.angular()[i]));
                assert(to_deg.ensures((v.angular()[i],), direct.angular()[i]));
            }
        }
        T::lemma_fields_determine(back, direct);
    }
}

} // verus!
