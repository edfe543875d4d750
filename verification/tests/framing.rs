use space_thumbnails::framing::AuthoredCamera;
use space_thumbnails::framing::BoundingBox;
use space_thumbnails::framing::Far;
use space_thumbnails::framing::FovAxis;
use space_thumbnails::framing::Projection;
use space_thumbnails::framing::Rational;
use space_thumbnails::framing::Vec3;
use space_thumbnails::framing::Viewport;
use space_thumbnails::framing::authored_camera_framing;
use space_thumbnails::framing::fit_into_unit_cube;
use space_thumbnails::framing::setup_camera_surround_view;
use space_thumbnails::framing::transform_box;
use space_thumbnails::framing::transform_point;

#[test]
fn fit_scales_widest_axis_to_two() {
    let bbox = BoundingBox::new(Vec3::new(-1000, -500, 0), Vec3::new(1000, 500, 400));
    let t = fit_into_unit_cube(&bbox);
    assert_eq!(t.scale_num, 2);
    assert_eq!(t.den, 2000);
    assert_eq!(t.offset, Vec3::new(0, 0, -400));

    let r = transform_box(&t, &bbox);
    // widest axis extent is exactly 2: (max - min) / den == 2
    assert_eq!(r.max.x - r.min.x, 2 * r.den);
    // every axis is centered at the origin exactly
    assert_eq!(r.min.x + r.max.x, 0);
    assert_eq!(r.min.y + r.max.y, 0);
    assert_eq!(r.min.z + r.max.z, 0);
    // no axis exceeds 2
    assert!(r.max.y - r.min.y <= 2 * r.den);
    assert!(r.max.z - r.min.z <= 2 * r.den);
}

#[test]
fn fit_of_degenerate_box_clamps_extent() {
    let bbox = BoundingBox::new(Vec3::new(5, 5, 5), Vec3::new(5, 5, 5));
    let t = fit_into_unit_cube(&bbox);
    // a single-point box is treated as one least unit wide
    assert_eq!(t.den, 1);
    assert_eq!(t.scale_num, 2);
    assert_eq!(t.offset, Vec3::new(-10, -10, -10));
}

#[test]
fn orbit_framing_of_unit_box() {
    let bbox = BoundingBox::new(Vec3::new(-1, -1, -1), Vec3::new(1, 1, 1));
    let t = fit_into_unit_cube(&bbox);
    let centered = transform_box(&t, &bbox);
    let viewport = Viewport { width: 800, height: 800 };
    let pose = setup_camera_surround_view(&centered, &viewport);

    // factor = max((2 + 2) / 2, 2) = 2; eye = center + 2 * (2.5, 1.7, 2.5)
    assert_eq!(pose.eye.den, 20 * centered.den);
    assert_eq!(pose.eye.num.x as f64 / pose.eye.den as f64, 5.0);
    assert_eq!(pose.eye.num.y as f64 / pose.eye.den as f64, 3.4);
    assert_eq!(pose.eye.num.z as f64 / pose.eye.den as f64, 5.0);
    // looks at the center, which is the origin
    assert_eq!(pose.target.num, Vec3::new(0, 0, 0));
    assert_eq!(pose.up, Vec3::new(0, 1, 0));
    match pose.projection {
        Projection::Perspective { fov_degrees, fov_axis, aspect, near, far } => {
            assert_eq!(fov_degrees, Rational { num: 28, den: 1 });
            assert_eq!(fov_axis, FovAxis::Vertical);
            assert_eq!(aspect, Rational { num: 800, den: 800 });
            assert_eq!(near, Rational { num: 1, den: 100 });
            assert_eq!(far, Far::Infinite);
        },
        Projection::Orthographic { .. } => panic!("orbit framing must be perspective"),
    }
}

#[test]
fn authored_camera_uses_source_fov() {
    let bbox = BoundingBox::new(Vec3::new(-2, -2, -2), Vec3::new(2, 2, 2));
    let t = fit_into_unit_cube(&bbox);
    let meta = AuthoredCamera {
        horizontal_fov: Rational { num: 45, den: 1 },
        orthographic_width: Rational { num: 1, den: 1 },
        position: Vec3::new(8, 4, 8),
        look_at: Vec3::new(0, 0, 0),
        up: Vec3::new(0, 1, 0),
    };
    let viewport = Viewport { width: 400, height: 300 };
    let pose = authored_camera_framing(&meta, &t, &viewport);

    // pose is the authored position and look-at taken through the transform
    assert_eq!(pose.eye, transform_point(&t, &meta.position));
    assert_eq!(pose.target, transform_point(&t, &meta.look_at));
    assert_eq!(pose.up, Vec3::new(0, 1, 0));
    match pose.projection {
        Projection::Perspective { fov_degrees, fov_axis, aspect, near, far } => {
            assert_eq!(fov_degrees, Rational { num: 45, den: 1 });
            assert_eq!(fov_axis, FovAxis::Horizontal);
            assert_eq!(aspect, Rational { num: 400, den: 300 });
            assert_eq!(near, Rational { num: 1, den: 10 });
            assert_eq!(far, Far::Infinite);
        },
        Projection::Orthographic { .. } => panic!("a nonzero field of view must be perspective"),
    }
}

#[test]
fn authored_camera_zero_fov_is_orthographic() {
    let bbox = BoundingBox::new(Vec3::new(0, 0, 0), Vec3::new(4, 4, 4));
    let t = fit_into_unit_cube(&bbox);
    let meta = AuthoredCamera {
        horizontal_fov: Rational { num: 0, den: 1 },
        orthographic_width: Rational { num: 3, den: 1 },
        position: Vec3::new(0, 0, 10),
        look_at: Vec3::new(0, 0, 0),
        up: Vec3::new(0, 1, 0),
    };
    let viewport = Viewport { width: 200, height: 100 };
    let pose = authored_camera_framing(&meta, &t, &viewport);
    match pose.projection {
        Projection::Orthographic { left, right, bottom, top, near, far } => {
            assert_eq!(left, Rational { num: -3, den: 1 });
            assert_eq!(right, Rational { num: 3, den: 1 });
            // bottom and top are the width divided by the aspect ratio
            assert_eq!(bottom, Rational { num: -300, den: 200 });
            assert_eq!(top, Rational { num: 300, den: 200 });
            assert_eq!(near, Rational { num: 1, den: 10 });
            assert_eq!(far, Far::Finite(Rational { num: 100000, den: 1 }));
        },
        Projection::Perspective { .. } => panic!("a zero field of view must be orthographic"),
    }
}

#[test]
fn transform_point_applies_scale_and_offset() {
    let bbox = BoundingBox::new(Vec3::new(0, 0, 0), Vec3::new(10, 10, 10));
    let t = fit_into_unit_cube(&bbox);
    let p = transform_point(&t, &Vec3::new(10, 0, 5));
    // (2 * 10 - 10) / 10, (0 - 10) / 10, (2 * 5 - 10) / 10
    assert_eq!(p.num, Vec3::new(10, -10, 0));
    assert_eq!(p.den, 10);
}
