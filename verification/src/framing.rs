//! Camera auto-framing: pure math that centers an arbitrary model inside the
//! unit cube and derives a camera pose from its bounding volume.
//!
//! Model-space geometry is carried in fixed integer units (the boundary that
//! talks to the import backend quantises its coordinates into these units).
//! Every derived quantity is an exact rational: an integer numerator over a
//! positive integer denominator. This keeps the framing guarantees exact
//! instead of "within floating-point epsilon".

use vstd::prelude::*;

verus! {

/// Largest magnitude a model-space coordinate may have, in fixed units.
/// Keeps every product the framing math forms comfortably inside `i64`.
pub const COORD_LIMIT: i64 = 1_000_000_000;

/// A point or direction in model space, in fixed integer units.
#[derive(Clone, Copy, Debug, PartialEq, Eq, Structural)]
pub struct Vec3 {
    pub x: i64,
    pub y: i64,
    pub z: i64,
}

impl Vec3 {
    /// Every coordinate within the working range.
    pub open spec fn wf(self) -> bool {
        &&& -COORD_LIMIT <= self.x <= COORD_LIMIT
        &&& -COORD_LIMIT <= self.y <= COORD_LIMIT
        &&& -COORD_LIMIT <= self.z <= COORD_LIMIT
    }

    pub fn new(x: i64, y: i64, z: i64) -> (v: Vec3)
        ensures
            v == (Vec3 { x, y, z }),
    {
        Vec3 { x, y, z }
    }
}

/// An exact rational scalar. The denominator is always positive; the value
/// is `num / den`. Values are not kept in lowest terms.
#[derive(Clone, Copy, Debug, PartialEq, Eq, Structural)]
pub struct Rational {
    pub num: i64,
    pub den: i64,
}

impl Rational {
    pub open spec fn wf(self) -> bool {
        self.den > 0
    }
}

/// Axis-aligned bounding box of a model, in model space.
#[derive(Clone, Copy, Debug, PartialEq, Eq, Structural)]
pub struct BoundingBox {
    pub min: Vec3,
    pub max: Vec3,
}

impl BoundingBox {
    pub open spec fn wf(self) -> bool {
        &&& self.min.wf()
        &&& self.max.wf()
        &&& self.min.x <= self.max.x
        &&& self.min.y <= self.max.y
        &&& self.min.z <= self.max.z
    }

    pub open spec fn extent_x(self) -> int {
        self.max.x - self.min.x
    }

    pub open spec fn extent_y(self) -> int {
        self.max.y - self.min.y
    }

    pub open spec fn extent_z(self) -> int {
        self.max.z - self.min.z
    }

    /// The largest axis extent.
    pub open spec fn max_extent(self) -> int {
        vstd::math::max(
            vstd::math::max(self.extent_x(), self.extent_y()),
            self.extent_z(),
        )
    }

    /// The largest axis extent, clamped to one least unit for a degenerate
    /// (single-point) box. Dividing by a zero extent is undefined in the
    /// mathematical statement of the framing, so the library adopts the
    /// defensive policy of treating such a box as one least unit wide.
    pub open spec fn clamped_max_extent(self) -> int {
        if self.max_extent() == 0 {
            1
        } else {
            self.max_extent()
        }
    }

    pub fn new(min: Vec3, max: Vec3) -> (b: BoundingBox)
        ensures
            b == (BoundingBox { min, max }),
    {
        BoundingBox { min, max }
    }
}

/// The centering transform: a uniform scale composed with a translation,
/// `p  |->  (scale_num * p + offset) / den` on each axis. This is the
/// restricted form of affine matrix that `fit_into_unit_cube` produces.
#[derive(Clone, Copy, Debug, PartialEq, Eq, Structural)]
pub struct Transform {
    pub scale_num: i64,
    pub offset: Vec3,
    pub den: i64,
}

impl Transform {
    pub open spec fn wf(self) -> bool {
        &&& 0 < self.scale_num <= 2
        &&& 0 < self.den <= 2 * COORD_LIMIT
        &&& -2 * COORD_LIMIT <= self.offset.x <= 2 * COORD_LIMIT
        &&& -2 * COORD_LIMIT <= self.offset.y <= 2 * COORD_LIMIT
        &&& -2 * COORD_LIMIT <= self.offset.z <= 2 * COORD_LIMIT
    }

    /// Numerator of the transformed x coordinate (over `den`).
    pub open spec fn apply_x(self, x: int) -> int {
        self.scale_num * x + self.offset.x
    }

    pub open spec fn apply_y(self, y: int) -> int {
        self.scale_num * y + self.offset.y
    }

    pub open spec fn apply_z(self, z: int) -> int {
        self.scale_num * z + self.offset.z
    }
}

/// A point with exact rational coordinates sharing one denominator:
/// coordinate i is `num.i / den`.
#[derive(Clone, Copy, Debug, PartialEq, Eq, Structural)]
pub struct RatVec3 {
    pub num: Vec3,
    pub den: i64,
}

impl RatVec3 {
    pub open spec fn wf(self) -> bool {
        self.den > 0
    }
}

/// A bounding box with exact rational coordinates sharing one denominator.
#[derive(Clone, Copy, Debug, PartialEq, Eq, Structural)]
pub struct RatBox {
    pub min: Vec3,
    pub max: Vec3,
    pub den: i64,
}

impl RatBox {
    pub open spec fn wf(self) -> bool {
        &&& 0 < self.den <= 2 * COORD_LIMIT
        &&& self.min.x <= self.max.x
        &&& self.min.y <= self.max.y
        &&& self.min.z <= self.max.z
        &&& -4 * COORD_LIMIT <= self.min.x && self.max.x <= 4 * COORD_LIMIT
        &&& -4 * COORD_LIMIT <= self.min.y && self.max.y <= 4 * COORD_LIMIT
        &&& -4 * COORD_LIMIT <= self.min.z && self.max.z <= 4 * COORD_LIMIT
    }

    /// Numerator of the x extent (over `den`).
    pub open spec fn extent_num_x(self) -> int {
        self.max.x - self.min.x
    }

    pub open spec fn extent_num_y(self) -> int {
        self.max.y - self.min.y
    }

    pub open spec fn extent_num_z(self) -> int {
        self.max.z - self.min.z
    }

    /// Numerator of the largest axis extent (over `den`).
    pub open spec fn max_extent_num(self) -> int {
        vstd::math::max(
            vstd::math::max(self.extent_num_x(), self.extent_num_y()),
            self.extent_num_z(),
        )
    }
}

/// The fixed viewport of a render session.
#[derive(Clone, Copy, Debug, PartialEq, Eq, Structural)]
pub struct Viewport {
    pub width: u32,
    pub height: u32,
}

impl Viewport {
    pub open spec fn wf(self) -> bool {
        self.width > 0 && self.height > 0
    }
}

/// What `fit_into_unit_cube` yields: uniform scale `2 / maxExtent` composed
/// with a translation of minus the box center.
pub open spec fn spec_fit_into_unit_cube(bounds: BoundingBox) -> Transform {
    Transform {
        scale_num: 2,
        offset: Vec3 {
            x: (-(bounds.min.x + bounds.max.x)) as i64,
            y: (-(bounds.min.y + bounds.max.y)) as i64,
            z: (-(bounds.min.z + bounds.max.z)) as i64,
        },
        den: bounds.clamped_max_extent() as i64,
    }
}

/// Computes the transform that scales the box uniformly so its largest axis
/// extent becomes exactly 2 and translates its center to the origin:
/// `scale(2 / maxExtent) . translate(-center)`. A degenerate box (zero
/// extent on every axis) is treated as one least unit wide.
pub fn fit_into_unit_cube(bounds: &BoundingBox) -> (t: Transform)
    requires
        bounds.wf(),
    ensures
        t == spec_fit_into_unit_cube(*bounds),
        t.wf(),
{
    let ex = bounds.max.x - bounds.min.x;
    let ey = bounds.max.y - bounds.min.y;
    let ez = bounds.max.z - bounds.min.z;
    let mut me = if ex >= ey { ex } else { ey };
    if ez > me {
        me = ez;
    }
    if me == 0 {
        me = 1;
    }
    Transform {
        scale_num: 2,
        offset: Vec3 {
            x: -(bounds.min.x + bounds.max.x),
            y: -(bounds.min.y + bounds.max.y),
            z: -(bounds.min.z + bounds.max.z),
        },
        den: me,
    }
}

/// The image of a bounding box under a centering transform, coordinate by
/// coordinate.
pub open spec fn spec_transform_box(t: Transform, b: BoundingBox) -> RatBox {
    RatBox {
        min: Vec3 {
            x: t.apply_x(b.min.x as int) as i64,
            y: t.apply_y(b.min.y as int) as i64,
            z: t.apply_z(b.min.z as int) as i64,
        },
        max: Vec3 {
            x: t.apply_x(b.max.x as int) as i64,
            y: t.apply_y(b.max.y as int) as i64,
            z: t.apply_z(b.max.z as int) as i64,
        },
        den: t.den,
    }
}

/// Applies a centering transform to a bounding box. A positive uniform scale
/// keeps the min corner below the max corner on every axis.
pub fn transform_box(t: &Transform, b: &BoundingBox) -> (r: RatBox)
    requires
        t.wf(),
        b.wf(),
    ensures
        r == spec_transform_box(*t, *b),
        r.wf(),
{
    proof {
        vstd::arithmetic::mul::lemma_mul_inequality(b.min.x as int, b.max.x as int, t.scale_num as int);
        vstd::arithmetic::mul::lemma_mul_inequality(b.min.y as int, b.max.y as int, t.scale_num as int);
        vstd::arithmetic::mul::lemma_mul_inequality(b.min.z as int, b.max.z as int, t.scale_num as int);
        lemma_scale_bound(t.scale_num as int, b.min.x as int);
        lemma_scale_bound(t.scale_num as int, b.min.y as int);
        lemma_scale_bound(t.scale_num as int, b.min.z as int);
        lemma_scale_bound(t.scale_num as int, b.max.x as int);
        lemma_scale_bound(t.scale_num as int, b.max.y as int);
        lemma_scale_bound(t.scale_num as int, b.max.z as int);
    }
    RatBox {
        min: Vec3 {
            x: t.scale_num * b.min.x + t.offset.x,
            y: t.scale_num * b.min.y + t.offset.y,
            z: t.scale_num * b.min.z + t.offset.z,
        },
        max: Vec3 {
            x: t.scale_num * b.max.x + t.offset.x,
            y: t.scale_num * b.max.y + t.offset.y,
            z: t.scale_num * b.max.z + t.offset.z,
        },
        den: t.den,
    }
}

/// A product of a scale in `(0, 2]` and a coordinate within range stays
/// within twice the coordinate range.
proof fn lemma_scale_bound(s: int, c: int)
    requires
        0 < s <= 2,
        -COORD_LIMIT <= c <= COORD_LIMIT,
    ensures
        -2 * COORD_LIMIT <= s * c <= 2 * COORD_LIMIT,
{
    vstd::arithmetic::mul::lemma_mul_inequality(-COORD_LIMIT as int, c, s);
    vstd::arithmetic::mul::lemma_mul_inequality(c, COORD_LIMIT as int, s);
    vstd::arithmetic::mul::lemma_mul_is_commutative(s, c);
    vstd::arithmetic::mul::lemma_mul_is_commutative(s, -COORD_LIMIT as int);
    vstd::arithmetic::mul::lemma_mul_is_commutative(s, COORD_LIMIT as int);
    assert(-COORD_LIMIT * s >= -COORD_LIMIT * 2) by (nonlinear_arith)
        requires 0 < s <= 2;
    assert(COORD_LIMIT * s <= COORD_LIMIT * 2) by (nonlinear_arith)
        requires 0 < s <= 2;
}

/// Far clipping plane of a projection.
#[derive(Clone, Copy, Debug, PartialEq, Eq, Structural)]
pub enum Far {
    Infinite,
    Finite(Rational),
}

/// Which axis a perspective field of view is measured along.
#[derive(Clone, Copy, Debug, PartialEq, Eq, Structural)]
pub enum FovAxis {
    Vertical,
    Horizontal,
}

/// A camera projection, fully determined by plain values.
#[derive(Clone, Copy, Debug, PartialEq, Eq, Structural)]
pub enum Projection {
    Perspective {
        fov_degrees: Rational,
        fov_axis: FovAxis,
        aspect: Rational,
        near: Rational,
        far: Far,
    },
    Orthographic {
        left: Rational,
        right: Rational,
        bottom: Rational,
        top: Rational,
        near: Rational,
        far: Far,
    },
}

/// A complete camera placement: where the camera sits, what it looks at,
/// which way is up, and how it projects.
#[derive(Clone, Copy, Debug, PartialEq, Eq, Structural)]
pub struct CameraPose {
    pub eye: RatVec3,
    pub target: RatVec3,
    pub up: Vec3,
    pub projection: Projection,
}

/// The elevated three-quarter view: the camera sits at
/// `center + factor * (2.5, 1.7, 2.5)` where `factor` is
/// `max((extent.x + extent.z) / 2, extent.y)`, looks at the box center with
/// `(0, 1, 0)` up, and projects with a vertical field of view of 28 degrees,
/// near plane `1/100`, infinite far plane, and the viewport's aspect ratio.
pub open spec fn spec_orbit_pose(b: RatBox, vp: Viewport) -> CameraPose {
    let factor_num = vstd::math::max(
        b.extent_num_x() + b.extent_num_z(),
        2 * b.extent_num_y(),
    );
    CameraPose {
        eye: RatVec3 {
            num: Vec3 {
                x: (10 * (b.min.x + b.max.x) + factor_num * 25) as i64,
                y: (10 * (b.min.y + b.max.y) + factor_num * 17) as i64,
                z: (10 * (b.min.z + b.max.z) + factor_num * 25) as i64,
            },
            den: (20 * b.den) as i64,
        },
        target: RatVec3 {
            num: Vec3 {
                x: (b.min.x + b.max.x) as i64,
                y: (b.min.y + b.max.y) as i64,
                z: (b.min.z + b.max.z) as i64,
            },
            den: (2 * b.den) as i64,
        },
        up: Vec3 { x: 0, y: 1, z: 0 },
        projection: Projection::Perspective {
            fov_degrees: Rational { num: 28, den: 1 },
            fov_axis: FovAxis::Vertical,
            aspect: Rational { num: vp.width as i64, den: vp.height as i64 },
            near: Rational { num: 1, den: 100 },
            far: Far::Infinite,
        },
    }
}

/// Places the camera for the consistent elevated three-quarter view of a
/// centered model, independent of its shape.
pub fn setup_camera_surround_view(bbox: &RatBox, viewport: &Viewport) -> (pose: CameraPose)
    requires
        bbox.wf(),
        viewport.wf(),
    ensures
        pose == spec_orbit_pose(*bbox, *viewport),
        pose.eye.wf(),
        pose.target.wf(),
{
    let ex = bbox.max.x - bbox.min.x;
    let ey = bbox.max.y - bbox.min.y;
    let ez = bbox.max.z - bbox.min.z;
    let factor_num = if ex + ez >= 2 * ey { ex + ez } else { 2 * ey };
    CameraPose {
        eye: RatVec3 {
            num: Vec3 {
                x: 10 * (bbox.min.x + bbox.max.x) + factor_num * 25,
                y: 10 * (bbox.min.y + bbox.max.y) + factor_num * 17,
                z: 10 * (bbox.min.z + bbox.max.z) + factor_num * 25,
            },
            den: 20 * bbox.den,
        },
        target: RatVec3 {
            num: Vec3 {
                x: bbox.min.x + bbox.max.x,
                y: bbox.min.y + bbox.max.y,
                z: bbox.min.z + bbox.max.z,
            },
            den: 2 * bbox.den,
        },
        up: Vec3 { x: 0, y: 1, z: 0 },
        projection: Projection::Perspective {
            fov_degrees: Rational { num: 28, den: 1 },
            fov_axis: FovAxis::Vertical,
            aspect: Rational { num: viewport.width as i64, den: viewport.height as i64 },
            near: Rational { num: 1, den: 100 },
            far: Far::Infinite,
        },
    }
}

/// A camera authored inside the model source, as plain values. A zero
/// horizontal field of view marks an orthographic camera, as the import
/// backend reports it.
#[derive(Clone, Copy, Debug, PartialEq, Eq, Structural)]
pub struct AuthoredCamera {
    pub horizontal_fov: Rational,
    pub orthographic_width: Rational,
    pub position: Vec3,
    pub look_at: Vec3,
    pub up: Vec3,
}

impl AuthoredCamera {
    pub open spec fn wf(self) -> bool {
        &&& self.horizontal_fov.wf()
        &&& self.orthographic_width.wf()
        &&& -COORD_LIMIT <= self.orthographic_width.num <= COORD_LIMIT
        &&& self.orthographic_width.den <= COORD_LIMIT
        &&& self.position.wf()
        &&& self.look_at.wf()
    }
}

/// The image of a model-space point under a centering transform.
pub open spec fn spec_transform_point(t: Transform, p: Vec3) -> RatVec3 {
    RatVec3 {
        num: Vec3 {
            x: t.apply_x(p.x as int) as i64,
            y: t.apply_y(p.y as int) as i64,
            z: t.apply_z(p.z as int) as i64,
        },
        den: t.den,
    }
}

/// Applies a centering transform to a single model-space point.
pub fn transform_point(t: &Transform, p: &Vec3) -> (r: RatVec3)
    requires
        t.wf(),
        p.wf(),
    ensures
        r == spec_transform_point(*t, *p),
        r.wf(),
{
    proof {
        lemma_scale_bound(t.scale_num as int, p.x as int);
        lemma_scale_bound(t.scale_num as int, p.y as int);
        lemma_scale_bound(t.scale_num as int, p.z as int);
    }
    RatVec3 {
        num: Vec3 {
            x: t.scale_num * p.x + t.offset.x,
            y: t.scale_num * p.y + t.offset.y,
            z: t.scale_num * p.z + t.offset.z,
        },
        den: t.den,
    }
}

/// The pose an authored camera yields: its position and look-at point taken
/// through the centering transform, its up direction kept; a perspective
/// projection with the source's horizontal field of view when that is
/// nonzero, otherwise an orthographic projection with half-extents from the
/// source's orthographic width and the viewport's aspect ratio.
pub open spec fn spec_authored_pose(meta: AuthoredCamera, t: Transform, vp: Viewport) -> CameraPose {
    CameraPose {
        eye: spec_transform_point(t, meta.position),
        target: spec_transform_point(t, meta.look_at),
        up: meta.up,
        projection: if meta.horizontal_fov.num != 0 {
            Projection::Perspective {
                fov_degrees: meta.horizontal_fov,
                fov_axis: FovAxis::Horizontal,
                aspect: Rational { num: vp.width as i64, den: vp.height as i64 },
                near: Rational { num: 1, den: 10 },
                far: Far::Infinite,
            }
        } else {
            Projection::Orthographic {
                left: Rational {
                    num: (-meta.orthographic_width.num) as i64,
                    den: meta.orthographic_width.den,
                },
                right: meta.orthographic_width,
                bottom: Rational {
                    num: (-meta.orthographic_width.num * vp.height) as i64,
                    den: (meta.orthographic_width.den * vp.width) as i64,
                },
                top: Rational {
                    num: (meta.orthographic_width.num * vp.height) as i64,
                    den: (meta.orthographic_width.den * vp.width) as i64,
                },
                near: Rational { num: 1, den: 10 },
                far: Far::Finite(Rational { num: 100000, den: 1 }),
            }
        },
    }
}

/// Uses a camera embedded in the model source verbatim, composed with the
/// centering transform.
pub fn authored_camera_framing(meta: &AuthoredCamera, t: &Transform, viewport: &Viewport) -> (pose: CameraPose)
    requires
        meta.wf(),
        t.wf(),
        viewport.wf(),
    ensures
        pose == spec_authored_pose(*meta, *t, *viewport),
{
    let eye = transform_point(t, &meta.position);
    let target = transform_point(t, &meta.look_at);
    let projection = if meta.horizontal_fov.num != 0 {
        Projection::Perspective {
            fov_degrees: meta.horizontal_fov,
            fov_axis: FovAxis::Horizontal,
            aspect: Rational { num: viewport.width as i64, den: viewport.height as i64 },
            near: Rational { num: 1, den: 10 },
            far: Far::Infinite,
        }
    } else {
        proof {
            lemma_ortho_bound(meta.orthographic_width.num as int, viewport.height as int);
            lemma_ortho_bound(-(meta.orthographic_width.num as int), viewport.height as int);
            lemma_ortho_bound(meta.orthographic_width.den as int, viewport.width as int);
        }
        Projection::Orthographic {
            left: Rational {
                num: -meta.orthographic_width.num,
                den: meta.orthographic_width.den,
            },
            right: meta.orthographic_width,
            bottom: Rational {
                num: -meta.orthographic_width.num * (viewport.height as i64),
                den: meta.orthographic_width.den * (viewport.width as i64),
            },
            top: Rational {
                num: meta.orthographic_width.num * (viewport.height as i64),
                den: meta.orthographic_width.den * (viewport.width as i64),
            },
            near: Rational { num: 1, den: 10 },
            far: Far::Finite(Rational { num: 100000, den: 1 }),
        }
    };
    CameraPose { eye, target, up: meta.up, projection }
}

/// A product of a value within the coordinate range and a viewport side
/// fits comfortably inside `i64`.
proof fn lemma_ortho_bound(w: int, side: int)
    requires
        -COORD_LIMIT <= w <= COORD_LIMIT,
        0 <= side <= u32::MAX,
    ensures
        -COORD_LIMIT * (u32::MAX as int) <= w * side <= COORD_LIMIT * (u32::MAX as int),
{
    assert(-COORD_LIMIT * (u32::MAX as int) <= w * side <= COORD_LIMIT * (u32::MAX as int))
        by (nonlinear_arith)
        requires
            -COORD_LIMIT <= w <= COORD_LIMIT,
            0 <= side <= u32::MAX,
    ;
}

/// Fitting a box with some positive extent into the unit cube yields a
/// transformed box whose largest axis extent is exactly 2 and whose center
/// is exactly the origin, on every axis.
pub proof fn lemma_fit_into_unit_cube(b: BoundingBox)
    requires
        b.wf(),
        b.max_extent() > 0,
    ensures
        ({
            let r = spec_transform_box(spec_fit_into_unit_cube(b), b);
            &&& r.max_extent_num() == 2 * r.den
            &&& r.min.x + r.max.x == 0
            &&& r.min.y + r.max.y == 0
            &&& r.min.z + r.max.z == 0
        }),
{
    let t = spec_fit_into_unit_cube(b);
    let r = spec_transform_box(t, b);
    assert(r.extent_num_x() == 2 * b.extent_x());
    assert(r.extent_num_y() == 2 * b.extent_y());
    assert(r.extent_num_z() == 2 * b.extent_z());
    assert(r.max_extent_num() == 2 * b.max_extent());
}

} // verus!
