use globe_view::fixed::floor_div;
use globe_view::fixed::floor_mod;
use globe_view::fixed::SCALE;
use globe_view::fixed::TWO_PI_FP;
use globe_view::geo::cartesian;
use globe_view::geo::gpu_vertex;
use globe_view::geo::rotate;
use globe_view::geo::to_radians;
use globe_view::render::is_far_side;
use globe_view::render::vertex_count;
use globe_view::trig::cos_fp;
use globe_view::trig::sin_fp;

#[test]
fn floor_div_rounds_toward_negative_infinity() {
    assert_eq!(floor_div(7, 2), 3);
    assert_eq!(floor_div(-7, 2), -4);
    assert_eq!(floor_div(-8, 2), -4);
    assert_eq!(floor_div(-1, 720), -1);
    assert_eq!(floor_div(0, 720), 0);
}

#[test]
fn floor_mod_is_always_nonnegative() {
    assert_eq!(floor_mod(7, 5), 2);
    assert_eq!(floor_mod(-7, 5), 3);
    assert_eq!(floor_mod(-10, 5), 0);
    assert_eq!(floor_mod(-3277, TWO_PI_FP), 202610);
}

#[test]
fn to_radians_exact_at_cardinal_angles() {
    assert_eq!(to_radians(0), 0);
    assert_eq!(to_radians(180_000_000), 102944);
    assert_eq!(to_radians(-180_000_000), -102944);
    assert_eq!(to_radians(90_000_000), 51472);
    assert_eq!(to_radians(-90_000_000), -51472);
    assert_eq!(to_radians(59_334_591), 33934);
}

#[test]
fn trig_exact_at_cardinal_angles() {
    assert_eq!(sin_fp(0), 0);
    assert_eq!(cos_fp(0), SCALE);
    assert_eq!(sin_fp(51472), SCALE);
    assert_eq!(sin_fp(-51472), -SCALE);
    assert_eq!(sin_fp(102944), 0);
    assert_eq!(cos_fp(102944), -SCALE);
    assert_eq!(sin_fp(25736), 23172);
}

#[test]
fn trig_tracks_the_real_functions() {
    let mut a: i64 = -300_000;
    while a < 300_000 {
        let s = sin_fp(a) as f64 / SCALE as f64;
        let c = cos_fp(a) as f64 / SCALE as f64;
        let exact_s = (a as f64 / SCALE as f64).sin();
        let exact_c = (a as f64 / SCALE as f64).cos();
        assert!((s - exact_s).abs() < 5e-4, "sin off at {a}: {s} vs {exact_s}");
        assert!((c - exact_c).abs() < 5e-4, "cos off at {a}: {c} vs {exact_c}");
        a += 137;
    }
}

#[test]
fn cartesian_lies_on_the_unit_sphere() {
    let scale4 = (SCALE as f64).powi(4);
    for (lat_udeg, lon_udeg) in [
        (0i64, 0i64),
        (59_334_591, 18_063_240),
        (-19_002_846, 46_460_938),
        (89_000_000, -179_000_000),
        (-45_000_000, 120_000_000),
    ] {
        let lat = to_radians(lat_udeg);
        let lon = to_radians(lon_udeg);
        let (x, y, z) = cartesian(lat, lon);
        let norm2 = x as f64 * x as f64 + y as f64 * y as f64 + z as f64 * z as f64;
        assert!((norm2 / scale4 - 1.0).abs() < 1e-3, "off sphere at {lat_udeg},{lon_udeg}");
    }
}

#[test]
fn cartesian_matches_stated_convention_for_stockholm() {
    let lat = to_radians(59_334_591);
    let lon = to_radians(18_063_240);
    assert_eq!((lat, lon), (33934, 10330));
    let (x, y, z) = cartesian(lat, lon);
    assert_eq!((x, y, z), (169777208, 923631616, -520628936));
    // z carries the half-turn offset: cos(lat) * cos(lon + pi) < 0 here
    assert!(z < 0);
}

#[test]
fn identity_rotation_is_a_no_op() {
    for (lat_udeg, lon_udeg) in [
        (59_334_591i64, 18_063_240i64),
        (0, 0),
        (-19_002_846, 46_460_938),
        (40_730_610, -73_935_252),
    ] {
        let lat = to_radians(lat_udeg);
        let lon = to_radians(lon_udeg);
        let p = cartesian(lat, lon);
        let (x2, y2) = rotate(p, 0, 0);
        assert_eq!(x2, floor_div(p.0, SCALE));
        assert_eq!(y2, floor_div(p.1, SCALE));
    }
}

#[test]
fn gpu_and_overlay_paths_agree() {
    for (lat_udeg, lon_udeg) in [
        (59_334_591i64, 18_063_240i64),
        (51_509_865, -118_092),
        (-19_002_846, 46_460_938),
        (0, 0),
    ] {
        for (pitch, yaw) in [(0i64, 0i64), (1000, 2000), (-30000, 150000), (51472, 205886)] {
            let lat = to_radians(lat_udeg);
            let lon = to_radians(lon_udeg);
            let overlay = rotate(cartesian(lat, lon), pitch, yaw);
            let gpu = gpu_vertex(lat, lon, pitch, yaw);
            assert_eq!(overlay, gpu, "surfaces drifted at {lat_udeg},{lon_udeg},{pitch},{yaw}");
        }
    }
}

#[test]
fn gpu_path_known_values() {
    let lat = to_radians(59_334_591);
    let lon = to_radians(18_063_240);
    assert_eq!(gpu_vertex(lat, lon, 1000, 2000), (6140, 27699));
    assert_eq!(gpu_vertex(lat, lon, -30000, 150000), (-16441, 19555));
}

#[test]
fn vertex_count_is_bytes_over_eight() {
    assert_eq!(vertex_count(0), 0);
    assert_eq!(vertex_count(8), 1);
    assert_eq!(vertex_count(800), 100);
    assert_eq!(vertex_count(807), 100);
}

#[test]
fn depth_threshold_splits_hemispheres() {
    assert!(!is_far_side(0));
    assert!(!is_far_side(16384));
    assert!(is_far_side(16385));
    assert!(is_far_side(SCALE));
}
