use vstd::prelude::*;

verus! {

/// Which element array of a shape drives its evaluation. When several arrays
/// are populated the dispatch prefers triangles, then quads, then lines, then
/// points, matching the evaluation order used throughout the renderer.
#[derive(Clone, Copy, Debug, PartialEq, Eq, Structural)]
pub enum ElementKind {
    Triangles,
    Quads,
    Lines,
    Points,
    Empty,
}

/// The index structure of a shape: element arrays referring into parallel
/// vertex attribute arrays of length `num_vertices`. A well-formed shape
/// populates at most one element array and keeps every element index in
/// range.
#[derive(Clone, Debug)]
pub struct ShapeTopology {
    pub points: Vec<usize>,
    pub lines: Vec<(usize, usize)>,
    pub triangles: Vec<(usize, usize, usize)>,
    pub quads: Vec<(usize, usize, usize, usize)>,
    pub num_vertices: usize,
}

impl ShapeTopology {
    /// Every element index refers to an existing vertex.
    pub open spec fn indices_valid(self) -> bool {
        &&& forall|i: int| 0 <= i < self.points@.len() ==> self.points@[i] < self.num_vertices
        &&& forall|i: int| 0 <= i < self.lines@.len() ==> self.lines@[i].0 < self.num_vertices
            && self.lines@[i].1 < self.num_vertices
        &&& forall|i: int| 0 <= i < self.triangles@.len() ==> self.triangles@[i].0 < self.num_vertices
            && self.triangles@[i].1 < self.num_vertices
            && self.triangles@[i].2 < self.num_vertices
        &&& forall|i: int| 0 <= i < self.quads@.len() ==> self.quads@[i].0 < self.num_vertices
            && self.quads@[i].1 < self.num_vertices
            && self.quads@[i].2 < self.num_vertices
            && self.quads@[i].3 < self.num_vertices
    }

    /// At most one element array is populated.
    pub open spec fn single_kind(self) -> bool {
        let populated = (if self.points@.len() > 0 { 1 as int } else { 0 })
            + (if self.lines@.len() > 0 { 1 as int } else { 0 })
            + (if self.triangles@.len() > 0 { 1 as int } else { 0 })
            + (if self.quads@.len() > 0 { 1 as int } else { 0 });
        populated <= 1
    }

    /// The element kind the shape is evaluated as, by dispatch precedence.
    pub fn element_kind(&self) -> (k: ElementKind)
        ensures
            k is Triangles <==> self.triangles@.len() > 0,
            k is Quads <==> (self.triangles@.len() == 0 && self.quads@.len() > 0),
            k is Lines <==> (self.triangles@.len() == 0 && self.quads@.len() == 0
                && self.lines@.len() > 0),
            k is Points <==> (self.triangles@.len() == 0 && self.quads@.len() == 0
                && self.lines@.len() == 0 && self.points@.len() > 0),
            k is Empty <==> (self.triangles@.len() == 0 && self.quads@.len() == 0
                && self.lines@.len() == 0 && self.points@.len() == 0),
    {
        if self.triangles.len() > 0 {
            ElementKind::Triangles
        } else if self.quads.len() > 0 {
            ElementKind::Quads
        } else if self.lines.len() > 0 {
            ElementKind::Lines
        } else if self.points.len() > 0 {
            ElementKind::Points
        } else {
            ElementKind::Empty
        }
    }

    /// How many elements the dispatched array holds.
    pub fn element_count(&self) -> (n: usize)
        ensures
            self.triangles@.len() > 0 ==> n == self.triangles@.len(),
            self.triangles@.len() == 0 && self.quads@.len() > 0 ==> n == self.quads@.len(),
            self.triangles@.len() == 0 && self.quads@.len() == 0 && self.lines@.len() > 0
                ==> n == self.lines@.len(),
            self.triangles@.len() == 0 && self.quads@.len() == 0 && self.lines@.len() == 0
                ==> n == self.points@.len(),
    {
        if self.triangles.len() > 0 {
            self.triangles.len()
        } else if self.quads.len() > 0 {
            self.quads.len()
        } else if self.lines.len() > 0 {
            self.lines.len()
        } else {
            self.points.len()
        }
    }

    /// Checks the element arrays against the vertex count, deciding the
    /// index-validity invariant.
    pub fn check_indices(&self) -> (ok: bool)
        ensures
            ok == self.indices_valid(),
    {
        let n = self.num_vertices;
        let mut i: usize = 0;
        while i < self.points.len()
            invariant
                i <= self.points@.len(),
                n == self.num_vertices,
                forall|k: int| 0 <= k < i ==> self.points@[k] < n,
            decreases self.points@.len() - i,
        {
            if self.points[i] >= n {
                return false;
            }
            i = i + 1;
        }
        let mut i: usize = 0;
        while i < self.lines.len()
            invariant
                i <= self.lines@.len(),
                n == self.num_vertices,
                forall|k: int| 0 <= k < i ==> self.lines@[k].0 < n && self.lines@[k].1 < n,
            decreases self.lines@.len() - i,
        {
            let l = self.lines[i];
            if l.0 >= n || l.1 >= n {
                return false;
            }
            i = i + 1;
        }
        let mut i: usize = 0;
        while i < self.triangles.len()
            invariant
                i <= self.triangles@.len(),
                n == self.num_vertices,
                forall|k: int| 0 <= k < i ==> self.triangles@[k].0 < n && self.triangles@[k].1 < n
                    && self.triangles@[k].2 < n,
            decreases self.triangles@.len() - i,
        {
            let t = self.triangles[i];
            if t.0 >= n || t.1 >= n || t.2 >= n {
                return false;
            }
            i = i + 1;
        }
        let mut i: usize = 0;
        while i < self.quads.len()
            invariant
                i <= self.quads@.len(),
                n == self.num_vertices,
                forall|k: int| 0 <= k < i ==> self.quads@[k].0 < n && self.quads@[k].1 < n
                    && self.quads@[k].2 < n && self.quads@[k].3 < n,
            decreases self.quads@.len() - i,
        {
            let q = self.quads[i];
            if q.0 >= n || q.1 >= n || q.2 >= n || q.3 >= n {
                return false;
            }
            i = i + 1;
        }
        true
    }
}

/// The quad evaluation convention: a quad `(a, b, c, d)` is split into the
/// near triangle `(a, b, d)` and the far triangle `(c, d, b)`. The far
/// triangle is the one used when the interpolation coordinates satisfy
/// `u + v > 1`; its callers then also flip the coordinates. Area and normal
/// computations sum over both split triangles.
pub fn quad_split_triangle(
    quad: (usize, usize, usize, usize),
    far: bool,
) -> (t: (usize, usize, usize))
    ensures
        !far ==> t == ((quad.0, quad.1, quad.3)),
        far ==> t == ((quad.2, quad.3, quad.1)),
{
    if far {
        (quad.2, quad.3, quad.1)
    } else {
        (quad.0, quad.1, quad.3)
    }
}

} // verus!
