use vstd::prelude::*;

verus! {

/// A point or vector in an object's local space, in fixed-point units.
#[derive(Clone, Copy, Debug, PartialEq, Eq, Structural)]
pub struct Point3 {
    pub x: i64,
    pub y: i64,
    pub z: i64,
}

/// An oriented box in an object's local space: its centre is `origin` and it
/// reaches `half_extents` from the centre along each axis.
#[derive(Clone, Copy, Debug, PartialEq, Eq, Structural)]
pub struct SelectionBox {
    pub origin: Point3,
    pub half_extents: Point3,
}

/// Whether corner `i` lies on the positive side of the box along x.
pub open spec fn corner_pos_x(i: int) -> bool {
    i % 4 == 1 || i % 4 == 2
}

/// Whether corner `i` lies on the positive side of the box along y.
pub open spec fn corner_pos_y(i: int) -> bool {
    i % 4 == 0 || i % 4 == 1
}

/// Whether corner `i` lies on the positive side of the box along z.
pub open spec fn corner_pos_z(i: int) -> bool {
    i >= 4
}

pub open spec fn offset(o: i64, h: i64, positive: bool) -> int {
    if positive {
        o + h
    } else {
        o - h
    }
}

/// Corner `i` (`0 <= i < 8`) of the box. Corners 0 to 3 go round the face at
/// negative z, starting at (-x, +y) and turning through +x first; corners 4 to
/// 7 go round the face at positive z in the same way, so that corner `i` and
/// corner `i + 4` differ in z alone.
pub open spec fn corner_spec(b: SelectionBox, i: int) -> Point3 {
    Point3 {
        x: offset(b.origin.x, b.half_extents.x, corner_pos_x(i)) as i64,
        y: offset(b.origin.y, b.half_extents.y, corner_pos_y(i)) as i64,
        z: offset(b.origin.z, b.half_extents.z, corner_pos_z(i)) as i64,
    }
}

pub open spec fn axis_fits(o: i64, h: i64) -> bool {
    i64::MIN <= o + h <= i64::MAX && i64::MIN <= o - h <= i64::MAX
}

/// Every corner of the box has coordinates that fit in `i64`.
pub open spec fn corners_fit(b: SelectionBox) -> bool {
    &&& axis_fits(b.origin.x, b.half_extents.x)
    &&& axis_fits(b.origin.y, b.half_extents.y)
    &&& axis_fits(b.origin.z, b.half_extents.z)
}

/// `pts` lists the eight corners of `b` in corner order.
pub open spec fn is_corner_list(b: SelectionBox, pts: Seq<Point3>) -> bool {
    pts.len() == 8 && forall|i: int| 0 <= i < 8 ==> #[trigger] pts[i] == corner_spec(b, i)
}

/// Edge `k` (`0 <= k < 12`) of the box as a pair of corner indices: first the
/// four edges round the face at negative z, then the four round the face at
/// positive z, then the four that join corner `i` to corner `i + 4`.
pub open spec fn edge_spec(k: int) -> (usize, usize) {
    if k < 8 {
        (k as usize, ((k / 4) * 4 + (k + 1) % 4) as usize)
    } else {
        ((k - 8) as usize, (k - 4) as usize)
    }
}

fn offset_exec(o: i64, h: i64, positive: bool) -> (r: i64)
    requires
        axis_fits(o, h),
    ensures
        r == offset(o, h, positive),
{
    if positive {
        o + h
    } else {
        o - h
    }
}

impl SelectionBox {
    /// Corner `i` of the box in local space.
    pub fn corner(&self, i: usize) -> (r: Point3)
        requires
            i < 8,
            corners_fit(*self),
        ensures
            r == corner_spec(*self, i as int),
    {
        let m = i % 4;
        Point3 {
            x: offset_exec(self.origin.x, self.half_extents.x, m == 1 || m == 2),
            y: offset_exec(self.origin.y, self.half_extents.y, m == 0 || m == 1),
            z: offset_exec(self.origin.z, self.half_extents.z, i >= 4),
        }
    }

    /// The eight corners of the box in local space, in corner order. The
    /// host turns them into world space with the object's transform.
    pub fn local_corners(&self) -> (r: Vec<Point3>)
        requires
            corners_fit(*self),
        ensures
            is_corner_list(*self, r@),
    {
        let mut r: Vec<Point3> = Vec::new();
        let mut i: usize = 0;
        while i < 8
            invariant
                i <= 8,
                corners_fit(*self),
                r@.len() == i,
                forall|j: int| 0 <= j < i ==> #[trigger] r@[j] == corner_spec(*self, j),
            decreases 8 - i,
        {
            let c = self.corner(i);
            r.push(c);
            i = i + 1;
        }
        r
    }
}

/// The twelve edges of a box as pairs of corner indices, for drawing its
/// wireframe from its corners.
pub fn box_edges() -> (r: Vec<(usize, usize)>)
    ensures
        r@.len() == 12,
        forall|k: int| 0 <= k < 12 ==> #[trigger] r@[k] == edge_spec(k),
{
    let mut r: Vec<(usize, usize)> = Vec::new();
    let mut k: usize = 0;
    while k < 12
        invariant
            k <= 12,
            r@.len() == k,
            forall|j: int| 0 <= j < k ==> #[trigger] r@[j] == edge_spec(j),
        decreases 12 - k,
    {
        let e = if k < 8 {
            (k, (k / 4) * 4 + (k + 1) % 4)
        } else {
            (k - 8, k - 4)
        };
        r.push(e);
        k = k + 1;
    }
    r
}

/// Computing the corners of a box twice gives the same points: the corner
/// list is determined by the box alone.
pub proof fn lemma_corners_idempotent(b: SelectionBox, first: Seq<Point3>, second: Seq<Point3>)
    requires
        is_corner_list(b, first),
        is_corner_list(b, second),
    ensures
        first == second,
{
    assert(first =~= second);
}

} // verus!
