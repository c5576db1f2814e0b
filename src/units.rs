use vstd::prelude::*;

verus! {

/// The unit system that tags every angle-bearing value.
///
/// Linear quantities (ranges, altitudes, rectangular coordinates) are never
/// covered by the tag.
#[derive(Clone, Copy, Debug, PartialEq, Eq, Structural)]
pub enum UnitSpecifier {
    Radians,
    Degrees,
}

/// Another name for the unit system type.
pub type UnitType = UnitSpecifier;

/// The lower-case word a unit system is written as, in text and in JSON.
pub open spec fn unit_name(u: UnitSpecifier) -> Seq<char> {
    match u {
        UnitSpecifier::Radians => seq!['r', 'a', 'd', 'i', 'a', 'n', 's'],
        UnitSpecifier::Degrees => seq!['d', 'e', 'g', 'r', 'e', 'e', 's'],
    }
}

impl UnitSpecifier {
    /// The word naming this unit system: `radians` or `degrees`.
    pub fn to_string(&self) -> (r: String)
        ensures
            r@ == unit_name(*self),
    {
        let r = match self {
            UnitSpecifier::Radians => String::from_str("radians"),
            UnitSpecifier::Degrees => String::from_str("degrees"),
        };
        proof {
            reveal_strlit("radians");
            reveal_strlit("degrees");
        }
        assert(r@ =~= unit_name(*self));
        r
    }
}

impl Default for UnitSpecifier {
    fn default() -> (r: Self)
        ensures
            r == UnitSpecifier::Degrees,
    {
        UnitSpecifier::Degrees
    }
}

/// The unit system used when a request names none.
pub fn default_degrees() -> (r: UnitSpecifier)
    ensures
        r == UnitSpecifier::Degrees,
{
    UnitSpecifier::Degrees
}

/// The requested output unit system of a query.
#[derive(Clone, Copy, Debug, PartialEq, Eq, Structural)]
pub struct UnitsSpecifier {
    pub u: UnitType,
}

impl UnitsSpecifier {
    /// Resolves an optional unit request: an absent one means degrees.
    pub fn resolve(u: Option<UnitType>) -> (r: UnitsSpecifier)
        ensures
            r.u == match u {
                Some(v) => v,
                None => UnitSpecifier::Degrees,
            },
    {
        match u {
            Some(v) => UnitsSpecifier { u: v },
            None => UnitsSpecifier { u: default_degrees() },
        }
    }
}

impl Default for UnitsSpecifier {
    fn default() -> (r: Self)
        ensures
            r.u == UnitSpecifier::Degrees,
    {
        UnitsSpecifier { u: default_degrees() }
    }
}

} // verus!
