use particle_sim::projection::{interpolate, window_to_world, OrthographicProjection, Pixel, Viewport};
use particle_sim::vector::Vector3;

const VIEW: Viewport = Viewport { width: 1280, height: 720 };
const CENTRED: OrthographicProjection =
    OrthographicProjection { left: -6_400, right: 6_400, bottom: -3_600, top: 3_600 };

#[test]
fn centre_maps_to_the_origin() {
    let world = window_to_world(VIEW, CENTRED, Pixel { x: 640, y: 360 });
    assert_eq!(world, Vector3 { x: 0, y: 0, z: 0 });
}

#[test]
fn corners_map_to_the_extents() {
    assert_eq!(window_to_world(VIEW, CENTRED, Pixel { x: 0, y: 0 }), Vector3 { x: -6_400, y: 3_600, z: 0 });
    assert_eq!(window_to_world(VIEW, CENTRED, Pixel { x: 1280, y: 720 }), Vector3 { x: 6_400, y: -3_600, z: 0 });
    assert_eq!(window_to_world(VIEW, CENTRED, Pixel { x: 1280, y: 0 }), Vector3 { x: 6_400, y: 3_600, z: 0 });
    assert_eq!(window_to_world(VIEW, CENTRED, Pixel { x: 0, y: 720 }), Vector3 { x: -6_400, y: -3_600, z: 0 });
}

#[test]
fn y_axis_is_flipped() {
    let upper = window_to_world(VIEW, CENTRED, Pixel { x: 640, y: 180 });
    let lower = window_to_world(VIEW, CENTRED, Pixel { x: 640, y: 540 });
    assert_eq!(upper, Vector3 { x: 0, y: 1_800, z: 0 });
    assert_eq!(lower, Vector3 { x: 0, y: -1_800, z: 0 });
}

#[test]
fn off_centre_projection() {
    let projection = OrthographicProjection { left: 100, right: 300, bottom: 1_000, top: 2_000 };
    let view = Viewport { width: 200, height: 100 };
    assert_eq!(window_to_world(view, projection, Pixel { x: 50, y: 25 }), Vector3 { x: 150, y: 1_750, z: 0 });
}

#[test]
fn interpolation_rounds_down() {
    assert_eq!(interpolate(0, 10, 1, 3), 3);
    assert_eq!(interpolate(0, 10, 2, 3), 6);
    assert_eq!(interpolate(0, -10, 1, 3), -4);
    assert_eq!(interpolate(0, -10, 2, 3), -7);
    assert_eq!(interpolate(5, 5, 1, 2), 5);
    assert_eq!(interpolate(-7, 7, 0, 9), -7);
    assert_eq!(interpolate(-7, 7, 9, 9), 7);
}

#[test]
fn interpolation_spans_the_whole_range() {
    assert_eq!(interpolate(i64::MIN, i64::MAX, 0, u32::MAX), i64::MIN);
    assert_eq!(interpolate(i64::MIN, i64::MAX, u32::MAX, u32::MAX), i64::MAX);
    assert_eq!(interpolate(i64::MAX, i64::MIN, u32::MAX, u32::MAX), i64::MIN);
    assert_eq!(interpolate(i64::MIN, i64::MAX, 1, 2), -1);
    assert_eq!(interpolate(i64::MAX, i64::MIN, 1, 2), -1);
}

#[test]
fn mirrored_projection() {
    let projection = OrthographicProjection { left: 400, right: -400, bottom: 300, top: -300 };
    let view = Viewport { width: 800, height: 600 };
    assert_eq!(window_to_world(view, projection, Pixel { x: 0, y: 0 }), Vector3 { x: 400, y: -300, z: 0 });
    assert_eq!(window_to_world(view, projection, Pixel { x: 200, y: 150 }), Vector3 { x: 200, y: -150, z: 0 });
}
