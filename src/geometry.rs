//! Robot-frame geometry: the pixel-to-robot transform, the depth-to-height
//! lookup, and the mirroring of poses for the back-facing layout.
use vstd::prelude::*;

verus! {

/// Largest magnitude of a linear-map coefficient, in micrometres per pixel.
pub const MAX_SCALE: i64 = 1_000_000_000;

/// Largest magnitude of a configured length (micrometres) or rotation
/// (millidegrees).
pub const MAX_EXTENT: i64 = 1_000_000_000_000;

/// Whether `v` lies in `[-limit, limit]`.
pub open spec fn within(v: int, limit: int) -> bool {
    -limit <= v <= limit
}

/// A robot-frame pose: position in micrometres, wrist rotation in millidegrees.
#[derive(Debug, Clone, Copy, PartialEq, Eq, Structural)]
pub struct Pose {
    pub x: i64,
    pub y: i64,
    pub z: i64,
    pub r: i64,
}

impl Pose {
    /// Every component lies within `MAX_EXTENT`.
    pub open spec fn bounded(&self) -> bool {
        &&& within(self.x as int, MAX_EXTENT as int)
        &&& within(self.y as int, MAX_EXTENT as int)
        &&& within(self.z as int, MAX_EXTENT as int)
        &&& within(self.r as int, MAX_EXTENT as int)
    }
}

/// The pose as commanded for a facing: unchanged when front-facing, else
/// mirrored (axes swapped and negated, rotation shifted by `mirror_rotation`).
pub open spec fn placed(facing: bool, p: Pose, mirror_rotation: i64) -> Pose {
    if facing {
        p
    } else {
        Pose { x: (-p.y) as i64, y: (-p.x) as i64, z: p.z, r: (p.r + mirror_rotation) as i64 }
    }
}

/// Mirrors `p` unless `facing` holds.
pub fn place(facing: bool, p: Pose, mirror_rotation: i64) -> (r: Pose)
    requires
        -i64::MAX <= p.x,
        -i64::MAX <= p.y,
        i64::MIN <= p.r + mirror_rotation <= i64::MAX,
    ensures
        r == placed(facing, p, mirror_rotation),
{
    if facing {
        p
    } else {
        Pose { x: -p.y, y: -p.x, z: p.z, r: p.r + mirror_rotation }
    }
}

/// A 2-D affine map from pixels to robot micrometres:
/// `(x, y) -> (a00 x + a01 y + b0, a10 x + a11 y + b1)`.
#[derive(Debug, Clone, Copy, PartialEq, Eq, Structural)]
pub struct AffineTransform {
    pub a00: i64,
    pub a01: i64,
    pub a10: i64,
    pub a11: i64,
    pub b0: i64,
    pub b1: i64,
}

/// Bounds the product of a coefficient and a pixel coordinate.
proof fn lemma_scaled_pixel(a: int, p: int)
    requires
        within(a, MAX_SCALE as int),
        within(p, 0x8000_0000),
    ensures
        within(a * p, MAX_SCALE * 0x8000_0000),
{
    assert(within(a * p, MAX_SCALE * 0x8000_0000)) by (nonlinear_arith)
        requires
            within(a, MAX_SCALE as int),
            within(p, 0x8000_0000),
    ;
}

impl AffineTransform {
    /// Coefficients within `MAX_SCALE`, translation within `MAX_EXTENT`.
    pub open spec fn bounded(&self) -> bool {
        &&& within(self.a00 as int, MAX_SCALE as int)
        &&& within(self.a01 as int, MAX_SCALE as int)
        &&& within(self.a10 as int, MAX_SCALE as int)
        &&& within(self.a11 as int, MAX_SCALE as int)
        &&& within(self.b0 as int, MAX_EXTENT as int)
        &&& within(self.b1 as int, MAX_EXTENT as int)
    }

    /// The robot-frame x of pixel `(px, py)`.
    pub open spec fn map_x(&self, px: int, py: int) -> int {
        self.a00 * px + self.a01 * py + self.b0
    }

    /// The robot-frame y of pixel `(px, py)`.
    pub open spec fn map_y(&self, px: int, py: int) -> int {
        self.a10 * px + self.a11 * py + self.b1
    }

    /// Maps a pixel position to the robot frame.
    pub fn apply(&self, px: i32, py: i32) -> (r: (i64, i64))
        requires
            self.bounded(),
        ensures
            r.0 == self.map_x(px as int, py as int),
            r.1 == self.map_y(px as int, py as int),
            within(r.0 as int, 2 * MAX_SCALE * 0x8000_0000 + MAX_EXTENT),
            within(r.1 as int, 2 * MAX_SCALE * 0x8000_0000 + MAX_EXTENT),
    {
        proof {
            lemma_scaled_pixel(self.a00 as int, px as int);
            lemma_scaled_pixel(self.a01 as int, py as int);
            lemma_scaled_pixel(self.a10 as int, px as int);
            lemma_scaled_pixel(self.a11 as int, py as int);
        }
        let x = self.a00 * (px as i64) + self.a01 * (py as i64) + self.b0;
        let y = self.a10 * (px as i64) + self.a11 * (py as i64) + self.b1;
        (x, y)
    }
}

/// The index of the robot height chosen for `depth`: the first `i`, from
/// `start` on, with `depth` above the midpoint of `bounds[i]` and
/// `bounds[i + 1]`; the last index when there is none.
pub open spec fn exceeded_index(bounds: Seq<i64>, depth: int, start: int) -> int
    decreases bounds.len() - start,
{
    if start + 1 >= bounds.len() {
        bounds.len() - 1
    } else if 2 * depth > bounds[start] + bounds[start + 1] {
        start
    } else {
        exceeded_index(bounds, depth, start + 1)
    }
}

/// The robot height for an object at `depth`.
pub open spec fn height_at(bounds: Seq<i64>, heights: Seq<i64>, depth: int) -> i64 {
    heights[exceeded_index(bounds, depth, 0)]
}

/// Looks up the robot height for a camera depth: scans the depth boundaries
/// in order, takes the height of the first interval whose midpoint `depth`
/// exceeds, and the last height when none matches.
pub fn height_for_depth(bounds: &Vec<i64>, heights: &Vec<i64>, depth: i32) -> (z: i64)
    requires
        bounds.len() >= 1,
        heights.len() == bounds.len(),
        forall|i: int| 0 <= i < bounds.len() ==> within(#[trigger] bounds[i] as int, MAX_EXTENT as int),
    ensures
        z == height_at(bounds@, heights@, depth as int),
{
    let n = bounds.len();
    let twice: i64 = 2 * (depth as i64);
    let mut i: usize = 0;
    while i + 1 < n
        invariant
            0 <= i < n,
            n == bounds.len(),
            heights.len() == n,
            twice == 2 * depth,
            forall|k: int| 0 <= k < bounds.len() ==> within(#[trigger] bounds[k] as int, MAX_EXTENT as int),
            exceeded_index(bounds@, depth as int, 0) == exceeded_index(bounds@, depth as int, i as int),
        decreases n - i,
    {
        if twice > bounds[i] + bounds[i + 1] {
            return heights[i];
        }
        i = i + 1;
    }
    heights[n - 1]
}

} // verus!
