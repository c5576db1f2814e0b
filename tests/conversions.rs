use moontime::{
    translate_to, Angular, Position, PositionFull, PositionSpherical, PositionXYZ, RAzEl,
    UnitSpecifier,
};

fn earth_from_sun() -> PositionFull<f64> {
    PositionFull {
        x: 145931759.53936464,
        y: 41434333.28598916,
        z: -1534006.420671329,
        r: 151707730.82743025,
        lon: 0.2766488084928851,
        lat: -0.010111762624525013,
        units: UnitSpecifier::Radians,
    }
}

#[test]
fn test_position_full_to_xyz_conversion() {
    let full = earth_from_sun();

    let xyz: PositionXYZ<f64> = full.into();
    assert_eq!(xyz.x, 145931759.53936464);
    assert_eq!(xyz.y, 41434333.28598916);
    assert_eq!(xyz.z, -1534006.420671329);
}

#[test]
fn test_position_full_to_spherical_conversion() {
    let full = PositionFull {
        x: -49025028.037208125,
        y: -143568040.1350961,
        z: 8398.000590592623,
        r: 151707730.82743022,
        lon: -1.8998572176894484,
        lat: 0.00005535644458642995,
        units: UnitSpecifier::Radians,
    };

    let spherical: PositionSpherical<f64> = full.into();
    assert_eq!(spherical.r, 151707730.82743022);
    assert_eq!(spherical.lon, -1.8998572176894484);
    assert_eq!(spherical.lat, 0.00005535644458642995);
    assert_eq!(spherical.units, UnitSpecifier::Radians);
}

#[test]
fn test_position_full_to_azel_conversion() {
    let full = earth_from_sun();

    let azel: RAzEl<f64> = full.into();
    assert_eq!(azel.az, 0.2766488084928851);
    assert_eq!(azel.el, -0.010111762624525013);
    assert_eq!(azel.r, 151707730.82743025);
    assert_eq!(azel.units, UnitSpecifier::Radians);
}

#[test]
fn degrees_twice_equals_degrees_once() {
    let p = Position::new(0.5, -1.0, 12.0, UnitSpecifier::Radians);
    let once = p.to_degrees(f64::to_degrees);
    assert_eq!(once.to_degrees(f64::to_degrees), once);
    let radians_once = once.to_radians(f64::to_radians);
    assert_eq!(radians_once.to_radians(f64::to_radians), radians_once);

    let a = RAzEl::from_engine(100.0, 1.0, 0.5);
    let a_deg = a.to_degrees(f64::to_degrees);
    assert_eq!(a_deg.to_degrees(f64::to_degrees), a_deg);

    let full = earth_from_sun();
    let f_deg = full.to_degrees(f64::to_degrees);
    assert_eq!(f_deg.to_degrees(f64::to_degrees), f_deg);
    let f_rad = f_deg.to_radians(f64::to_radians);
    assert_eq!(f_rad.to_radians(f64::to_radians), f_rad);
}

#[test]
fn radians_to_degrees_scales_by_180_over_pi() {
    let a = RAzEl::from_engine(100.0, std::f64::consts::PI, std::f64::consts::FRAC_PI_2);
    let d = a.to_degrees(f64::to_degrees);
    assert_eq!(d.az, 180.0);
    assert_eq!(d.el, 90.0);
    assert_eq!(d.r, 100.0);
    assert_eq!(d.units, UnitSpecifier::Degrees);
    assert_eq!(d.units(), UnitSpecifier::Degrees);
}

#[test]
fn round_trip_through_radians_within_tolerance() {
    let p = Position::new(7.5, -59.0, 3.25, UnitSpecifier::Degrees);
    let back = p.to_radians(f64::to_radians).to_degrees(f64::to_degrees);
    let direct = p.to_degrees(f64::to_degrees);
    assert!((back.lat - direct.lat).abs() < 1e-12);
    assert!((back.lon - direct.lon).abs() < 1e-12);
    assert_eq!(back.alt, direct.alt);
    assert_eq!(back.units, UnitSpecifier::Degrees);
}

#[test]
fn conversion_in_place_is_bitwise_identity() {
    let p = Position::new(0.1 + 0.2, -59.000000001, 1.5, UnitSpecifier::Degrees);
    let same = p.to_degrees(|x: f64| x * 2.0);
    assert_eq!(same.lat.to_bits(), p.lat.to_bits());
    assert_eq!(same.lon.to_bits(), p.lon.to_bits());
    assert_eq!(same, p);

    let full = earth_from_sun();
    assert_eq!(full.to_radians(f64::to_radians), full);
}

#[test]
fn linear_fields_survive_every_conversion() {
    let full = earth_from_sun();
    for converted in [
        full.to_degrees(f64::to_degrees),
        full.to_degrees(f64::to_degrees).to_radians(f64::to_radians),
    ] {
        assert_eq!(converted.x, full.x);
        assert_eq!(converted.y, full.y);
        assert_eq!(converted.z, full.z);
        assert_eq!(converted.r, full.r);
    }
    let p = Position::new(0.2, 0.3, 1737.4, UnitSpecifier::Radians).to_degrees(f64::to_degrees);
    assert_eq!(p.alt, 1737.4);
    let s = PositionSpherical { r: 42.0, lon: 10.0, lat: 20.0, units: UnitSpecifier::Degrees };
    assert_eq!(s.to_radians(f64::to_radians).r, 42.0);
}

#[test]
fn translate_to_applies_the_requested_units() {
    let a = RAzEl::from_engine(100.0, 1.0, 0.5);
    let d = translate_to(a, UnitSpecifier::Degrees, f64::to_degrees, f64::to_radians);
    assert_eq!(d.units, UnitSpecifier::Degrees);
    assert_eq!(d.az, 1.0f64.to_degrees());
    let r = translate_to(a, UnitSpecifier::Radians, f64::to_degrees, f64::to_radians);
    assert_eq!(r, a);
}

#[test]
fn sun_azel_triple_survives_degrees_and_back() {
    let azel = RAzEl::from_engine(151559808.5801367, 1.6349707743817739, 0.6110381109126339);
    let back = azel.to_degrees(f64::to_degrees).to_radians(f64::to_radians);
    assert!((back.az - azel.az).abs() < 1e-9);
    assert!((back.el - azel.el).abs() < 1e-9);
    assert_eq!(back.r, azel.r);
    assert_eq!(back.units, UnitSpecifier::Radians);
}

#[test]
fn engine_results_are_tagged_radians() {
    let f = PositionFull::from_engine(1.0, 2.0, 3.0, 4.0, 0.5, 0.25);
    assert_eq!(f.units, UnitSpecifier::Radians);
    assert_eq!((f.x, f.y, f.z, f.r, f.lon, f.lat), (1.0, 2.0, 3.0, 4.0, 0.5, 0.25));
}
