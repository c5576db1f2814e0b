// Typed geometry and unit model of an ephemeris query service: unit-tagged
// records, their conversions and laws, request defaults, and the text and
// JSON encodings of results.
pub mod angular;
pub mod coords;
pub mod error;
pub mod format;
pub mod instant;
pub mod render;
pub mod request;
pub mod units;

pub use angular::{translate_to, Angular};
pub use coords::{Position, PositionFull, PositionSpherical, PositionXYZ, RAzEl};
pub use error::QueryError;
pub use instant::{default_datetime, DateTime};
pub use format::{default_format, format_as, keyed_json, Format, FormatSpecifier};
pub use units::{default_degrees, unit_name, UnitSpecifier, UnitType, UnitsSpecifier};
