use moontime::{
    default_degrees, default_format, format_as, keyed_json, Format, FormatSpecifier,
    PositionFull, PositionSpherical, PositionXYZ, RAzEl, UnitSpecifier, UnitsSpecifier,
};

fn as_text(x: f64) -> String {
    x.to_string()
}

fn as_json(x: f64) -> String {
    serde_json::to_string(&x).unwrap()
}

fn sample_azel() -> RAzEl<f64> {
    RAzEl { az: 1.0, el: 0.5, r: 100.0, units: UnitSpecifier::Radians }
}

#[test]
fn azel_text_rendering() {
    let text = sample_azel().map(as_text).to_string();
    assert_eq!(text, "az: 1, el: 0.5, r: 100, u: radians");
    let json = sample_azel().map(as_json).to_json();
    let out = format_as(&text, &json, FormatSpecifier::Txt, Some("foo"));
    assert_eq!(out, "az: 1, el: 0.5, r: 100, u: radians");
}

#[test]
fn azel_json_with_hint() {
    let a = sample_azel();
    let text = a.map(as_text).to_string();
    let json = a.map(as_json).to_json();
    let out = format_as(&text, &json, FormatSpecifier::Json, Some("foo"));
    assert_eq!(out, r#"{"foo":{"az":1.0,"el":0.5,"r":100.0,"units":"radians"}}"#);
    let parsed: serde_json::Value = serde_json::from_str(&out).unwrap();
    assert_eq!(parsed["foo"]["units"], "radians");
}

#[test]
fn json_without_hint_is_unwrapped() {
    let json = sample_azel().map(as_json).to_json();
    let out = format_as("ignored", &json, FormatSpecifier::Json, None);
    assert_eq!(out, r#"{"az":1.0,"el":0.5,"r":100.0,"units":"radians"}"#);
}

#[test]
fn hint_key_is_escaped() {
    let out = format_as("t", "1", FormatSpecifier::Json, Some("a\"b\\c"));
    assert_eq!(out, r#"{"a\"b\\c":1}"#);
    let out = format_as("t", "2", FormatSpecifier::Json, Some("solar time"));
    assert_eq!(out, r#"{"solar time":2}"#);
    let out = format_as("t", "3", FormatSpecifier::Json, Some("a\u{1}\n\t\u{8}\u{c}\r\u{1f}é"));
    assert_eq!(out, r#"{"a\u0001\n\t\b\f\r\u001fé":3}"#);
}

#[test]
fn keyed_json_frames_key_and_payload() {
    assert_eq!(keyed_json("\"et\"", "770515269.1848872"), r#"{"et":770515269.1848872}"#);
}

#[test]
fn full_position_renderings() {
    let f = PositionFull {
        x: 1.5,
        y: -2.0,
        z: 3.0,
        r: 4.0,
        lon: 0.5,
        lat: -0.25,
        units: UnitSpecifier::Degrees,
    };
    assert_eq!(
        f.map(as_text).to_string(),
        "x: 1.5 km, y: -2 km, z: 3 km, r: 4 km, lon: 0.5, lat: -0.25, u: degrees"
    );
    assert_eq!(
        f.map(as_json).to_json(),
        r#"{"x":1.5,"y":-2.0,"z":3.0,"r":4.0,"lon":0.5,"lat":-0.25,"units":"degrees"}"#
    );
    let xyz: PositionXYZ<f64> = f.into();
    assert_eq!(xyz.map(as_text).to_string(), "x: 1.5 km, y: -2 km, z: 3 km");
    assert_eq!(xyz.map(as_json).to_json(), r#"{"x":1.5,"y":-2.0,"z":3.0}"#);
    let s: PositionSpherical<f64> = f.into();
    assert_eq!(s.map(as_text).to_string(), "r: 4 km, lon: 0.5, lat: -0.25, u: degrees");
    assert_eq!(s.map(as_json).to_json(), r#"{"r":4.0,"lon":0.5,"lat":-0.25,"units":"degrees"}"#);
}

#[test]
fn unit_names() {
    assert_eq!(UnitSpecifier::Radians.to_string(), "radians");
    assert_eq!(UnitSpecifier::Degrees.to_string(), "degrees");
}

#[test]
fn defaults_are_degrees_and_text() {
    assert_eq!(default_degrees(), UnitSpecifier::Degrees);
    assert_eq!(UnitSpecifier::default(), UnitSpecifier::Degrees);
    assert_eq!(UnitsSpecifier::default().u, UnitSpecifier::Degrees);
    assert_eq!(UnitsSpecifier::resolve(None).u, UnitSpecifier::Degrees);
    assert_eq!(UnitsSpecifier::resolve(Some(UnitSpecifier::Radians)).u, UnitSpecifier::Radians);
    assert_eq!(default_format(), FormatSpecifier::Txt);
    assert_eq!(FormatSpecifier::default(), FormatSpecifier::Txt);
    assert_eq!(Format::default().f, FormatSpecifier::Txt);
    assert_eq!(Format::resolve(None).f, FormatSpecifier::Txt);
    assert_eq!(Format::resolve(Some(FormatSpecifier::Json)).f, FormatSpecifier::Json);
}
