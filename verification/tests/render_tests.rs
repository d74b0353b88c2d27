use globe_view::peer::demo_peers;
use globe_view::peer::Peer;
use globe_view::render::render_frame;

#[test]
fn frame_hands_both_passes_the_same_snapshot() {
    let mut peers = demo_peers();
    let frame = render_frame(&mut peers, 1000, 2000);
    assert_eq!(frame.pitch, 1000);
    assert_eq!(frame.yaw, 2000);
    assert_eq!(frame.dots.len(), 4);
}

#[test]
fn identity_frame_places_markers_at_known_pixels() {
    let mut peers = demo_peers();
    let frame = render_frame(&mut peers, 0, 0);
    assert_eq!(frame.dots[0], (416, 51)); // Stockholm
    assert_eq!(frame.dots[1], (359, 79)); // London
    assert_eq!(frame.dots[2], (97, 126)); // New York
    assert_eq!(frame.dots[3], (606, 478)); // Madagascar
}

#[test]
fn reprojection_is_idempotent() {
    let mut p = Peer::new(59_334_591, 18_063_240);
    p.rotate(1000, 2000);
    let once = (p.x(), p.y());
    p.rotate(1000, 2000);
    assert_eq!((p.x(), p.y()), once);
}

#[test]
fn repeated_frames_do_not_drift() {
    let mut peers = demo_peers();
    let first = render_frame(&mut peers, -30000, 150000);
    for _ in 0..100 {
        let again = render_frame(&mut peers, -30000, 150000);
        assert_eq!(again.dots, first.dots);
    }
    // and returning to the identity view restores the initial pixels
    let back = render_frame(&mut peers, 0, 0);
    assert_eq!(back.dots[0], (416, 51));
}

#[test]
fn construction_caches_the_identity_projection() {
    let p = Peer::new(59_334_591, 18_063_240);
    assert_eq!((p.lat(), p.lon()), (33934, 10330));
    assert_eq!((p.x(), p.y()), (5181, 28187));
    let mut q = Peer::new(59_334_591, 18_063_240);
    q.rotate(0, 0);
    assert_eq!((q.x(), q.y()), (p.x(), p.y()));
}

#[test]
fn hit_test_uses_per_axis_distance() {
    let p = Peer::new(59_334_591, 18_063_240);
    assert!(p.hit_test(416, 51, 360, 360, 10));
    assert!(p.hit_test(416 + 9, 51 - 9, 360, 360, 10));
    assert!(!p.hit_test(416 + 10, 51, 360, 360, 10));
    assert!(!p.hit_test(416, 51 + 10, 360, 360, 10));
    assert!(!p.hit_test(466, 51, 360, 360, 10));
}
