//! Mesh buffer builder: from a surface tessellation to flat render buffers.
//!
//! A [`Tessellation`] carries sample points, one normal per point, one UV
//! coordinate per point, and triangle or quad faces. Its scalars are the
//! raw 32-bit IEEE-754 encodings of the single-precision values the render
//! buffers hold; the host converts its native precision at the boundary and
//! this module never alters a scalar, it only selects and arranges them.
//!
//! Positions and normals are embedded into three components by a fixed rule
//! over the source dimension: a one-dimensional sample becomes `(x, 0, 0)`,
//! a two-dimensional one `(x, y, 0)`, and a three-or-higher-dimensional one
//! keeps its first three components. The rule is chosen once from the
//! source dimension, never per element.

use vstd::prelude::*;

verus! {

/// Bit pattern of single-precision zero, the padding for missing components.
pub const ZERO_BITS: u32 = 0;

/// The source dimension of a tessellation, as a closed set: every source of
/// three or more dimensions is handled alike (truncated to three).
#[derive(Clone, Copy, PartialEq, Eq, Structural, Debug)]
pub enum Dim {
    One,
    Two,
    Three,
}

impl Dim {
    /// How many leading components of a sample the projection reads.
    pub open spec fn spec_size(self) -> nat {
        match self {
            Dim::One => 1,
            Dim::Two => 2,
            Dim::Three => 3,
        }
    }

    /// How many leading components of a sample the projection reads.
    pub fn size(&self) -> (n: usize)
        ensures
            n == self.spec_size(),
    {
        match self {
            Dim::One => 1,
            Dim::Two => 2,
            Dim::Three => 3,
        }
    }

    /// Classifies a source dimension: one and two stand for themselves,
    /// everything above falls together with three.
    pub fn from_ambient(d: usize) -> (r: Dim)
        requires
            d >= 1,
        ensures
            d == 1 ==> r == Dim::One,
            d == 2 ==> r == Dim::Two,
            d >= 3 ==> r == Dim::Three,
    {
        if d == 1 {
            Dim::One
        } else if d == 2 {
            Dim::Two
        } else {
            Dim::Three
        }
    }
}

/// A three-component single-precision vector, each component carried as its
/// 32-bit IEEE-754 encoding.
#[derive(Clone, Copy, PartialEq, Eq, Structural, Debug)]
pub struct Vec3Bits {
    pub x: u32,
    pub y: u32,
    pub z: u32,
}

/// A two-component UV coordinate, each component carried as its 32-bit
/// IEEE-754 encoding.
#[derive(Clone, Copy, PartialEq, Eq, Structural, Debug)]
pub struct UvBits {
    pub u: u32,
    pub v: u32,
}

/// A face of the tessellation: an ordered triangle or quad of point indices.
#[derive(Clone, Copy, PartialEq, Eq, Structural, Debug)]
pub enum Face {
    Tri(u32, u32, u32),
    Quad(u32, u32, u32, u32),
}

/// Every index of the face points into a vertex list of length `n`.
pub open spec fn face_wf(f: Face, n: nat) -> bool {
    match f {
        Face::Tri(a, b, c) => a < n && b < n && c < n,
        Face::Quad(a, b, c, d) => a < n && b < n && c < n && d < n,
    }
}

/// The triangle-list indices a face contributes: a triangle stands as it
/// is, a quad `[a, b, c, d]` fans into the two triangles `(a, b, c)` and
/// `(a, c, d)`, keeping the source winding.
pub open spec fn face_indices(f: Face) -> Seq<u32> {
    match f {
        Face::Tri(a, b, c) => seq![a, b, c],
        Face::Quad(a, b, c, d) => seq![a, b, c, a, c, d],
    }
}

/// How many indices a face contributes: three for a triangle, six for a quad.
pub open spec fn face_index_count(f: Face) -> nat {
    match f {
        Face::Tri(..) => 3,
        Face::Quad(..) => 6,
    }
}

/// The fixed embedding of a sample into three components: the first
/// `dim.spec_size()` source components in order, then zero padding.
pub open spec fn spec_project(dim: Dim, coords: Seq<u32>) -> Vec3Bits
    recommends
        coords.len() >= dim.spec_size(),
{
    match dim {
        Dim::One => Vec3Bits { x: coords[0], y: ZERO_BITS, z: ZERO_BITS },
        Dim::Two => Vec3Bits { x: coords[0], y: coords[1], z: ZERO_BITS },
        Dim::Three => Vec3Bits { x: coords[0], y: coords[1], z: coords[2] },
    }
}

/// Embeds one sample into three components by the fixed projection rule.
pub fn project(dim: Dim, coords: &Vec<u32>) -> (r: Vec3Bits)
    requires
        coords@.len() >= dim.spec_size(),
    ensures
        r == spec_project(dim, coords@),
{
    match dim {
        Dim::One => Vec3Bits { x: coords[0], y: ZERO_BITS, z: ZERO_BITS },
        Dim::Two => Vec3Bits { x: coords[0], y: coords[1], z: ZERO_BITS },
        Dim::Three => Vec3Bits { x: coords[0], y: coords[1], z: coords[2] },
    }
}

/// An externally computed surface tessellation, ready for buffer building.
///
/// Each point and each normal is a list of at least `dim.spec_size()`
/// single-precision components in bit form; points, normals and UVs run in
/// parallel, and every face index points into the sample lists.
pub struct Tessellation {
    pub dim: Dim,
    pub points: Vec<Vec<u32>>,
    pub normals: Vec<Vec<u32>>,
    pub uvs: Vec<UvBits>,
    pub faces: Vec<Face>,
}

impl Tessellation {
    /// The tessellation invariant: parallel sample arrays, samples wide
    /// enough for the projection, and in-range face indices.
    pub open spec fn wf(self) -> bool {
        &&& self.normals@.len() == self.points@.len()
        &&& self.uvs@.len() == self.points@.len()
        &&& forall|i: int|
            0 <= i < self.points@.len() ==> self.points@[i]@.len() >= self.dim.spec_size()
        &&& forall|i: int|
            0 <= i < self.normals@.len() ==> self.normals@[i]@.len() >= self.dim.spec_size()
        &&& forall|i: int|
            0 <= i < self.faces@.len() ==> face_wf(self.faces@[i], self.points@.len())
    }

    /// Number of sample points.
    pub open spec fn spec_len(self) -> nat {
        self.points@.len()
    }

    /// Wraps tessellation data whose invariant the caller has established.
    pub fn new(
        dim: Dim,
        points: Vec<Vec<u32>>,
        normals: Vec<Vec<u32>>,
        uvs: Vec<UvBits>,
        faces: Vec<Face>,
    ) -> (r: Tessellation)
        requires
            (Tessellation { dim, points, normals, uvs, faces }).wf(),
        ensures
            r == (Tessellation { dim, points, normals, uvs, faces }),
            r.wf(),
    {
        Tessellation { dim, points, normals, uvs, faces }
    }

    /// Wraps tessellation data after checking the invariant at run time:
    /// returns the tessellation exactly when the invariant holds, and
    /// nothing otherwise. A violation signals an upstream contract breach,
    /// never data to be repaired.
    pub fn try_new(
        dim: Dim,
        points: Vec<Vec<u32>>,
        normals: Vec<Vec<u32>>,
        uvs: Vec<UvBits>,
        faces: Vec<Face>,
    ) -> (r: Option<Tessellation>)
        ensures
            r is Some <==> (Tessellation { dim, points, normals, uvs, faces }).wf(),
            r matches Some(t) ==> t == (Tessellation { dim, points, normals, uvs, faces }),
    {
        let t = Tessellation { dim, points, normals, uvs, faces };
        if t.is_well_formed() {
            Some(t)
        } else {
            None
        }
    }

    /// Decides the tessellation invariant at run time.
    pub fn is_well_formed(&self) -> (b: bool)
        ensures
            b == self.wf(),
    {
        let n = self.points.len();
        if self.normals.len() != n || self.uvs.len() != n {
            return false;
        }
        let width = self.dim.size();
        let mut i: usize = 0;
        while i < n
            invariant
                i <= n,
                n == self.points@.len(),
                n == self.normals@.len(),
                width == self.dim.spec_size(),
                forall|j: int| 0 <= j < i ==> self.points@[j]@.len() >= self.dim.spec_size(),
                forall|j: int| 0 <= j < i ==> self.normals@[j]@.len() >= self.dim.spec_size(),
            decreases n - i,
        {
            if self.points[i].len() < width || self.normals[i].len() < width {
                return false;
            }
            i += 1;
        }
        let mut k: usize = 0;
        while k < self.faces.len()
            invariant
                k <= self.faces@.len(),
                n == self.points@.len(),
                forall|j: int| 0 <= j < k ==> face_wf(self.faces@[j], self.points@.len()),
            decreases self.faces@.len() - k,
        {
            let in_range = match self.faces[k] {
                Face::Tri(a, b, c) => {
                    (a as usize) < n && (b as usize) < n && (c as usize) < n
                },
                Face::Quad(a, b, c, d) => {
                    (a as usize) < n && (b as usize) < n && (c as usize) < n && (d as usize) < n
                },
            };
            if !in_range {
                return false;
            }
            k += 1;
        }
        true
    }

    /// Produces the renderable triangle-list buffers: every sample projected
    /// into three components, UVs passed through, and each face flattened
    /// into triangle indices (quads fanned in source winding).
    pub fn build_triangle_buffers(&self) -> (r: MeshBuffers)
        requires
            self.wf(),
        ensures
            r.positions@ == spec_projected(self.dim, self.points@),
            r.normals@ == spec_projected(self.dim, self.normals@),
            r.uvs@ == self.uvs@,
            r.indices@ == spec_indices(self.faces@),
            r.positions@.len() == self.spec_len(),
            r.normals@.len() == self.spec_len(),
            r.uvs@.len() == self.spec_len(),
            r.indices@.len() == spec_index_count(self.faces@),
            forall|k: int|
                0 <= k < r.indices@.len() ==> (r.indices@[k] as nat) < self.spec_len(),
    {
        let n = self.points.len();
        let mut positions: Vec<Vec3Bits> = Vec::new();
        let mut normals: Vec<Vec3Bits> = Vec::new();
        let mut uvs: Vec<UvBits> = Vec::new();
        let mut i: usize = 0;
        while i < n
            invariant
                i <= n,
                n == self.points@.len(),
                self.wf(),
                positions@.len() == i,
                normals@.len() == i,
                uvs@.len() == i,
                forall|j: int| 0 <= j < i ==> positions@[j] == spec_project(
                    self.dim,
                    self.points@[j]@,
                ),
                forall|j: int| 0 <= j < i ==> normals@[j] == spec_project(
                    self.dim,
                    self.normals@[j]@,
                ),
                forall|j: int| 0 <= j < i ==> uvs@[j] == self.uvs@[j],
            decreases n - i,
        {
            positions.push(project(self.dim, &self.points[i]));
            normals.push(project(self.dim, &self.normals[i]));
            uvs.push(self.uvs[i]);
            i += 1;
        }
        let mut indices: Vec<u32> = Vec::new();
        let mut k: usize = 0;
        while k < self.faces.len()
            invariant
                k <= self.faces@.len(),
                indices@ == spec_indices(self.faces@.take(k as int)),
            decreases self.faces@.len() - k,
        {
            match self.faces[k] {
                Face::Tri(a, b, c) => {
                    indices.push(a);
                    indices.push(b);
                    indices.push(c);
                },
                Face::Quad(a, b, c, d) => {
                    indices.push(a);
                    indices.push(b);
                    indices.push(c);
                    indices.push(a);
                    indices.push(c);
                    indices.push(d);
                },
            }
            proof {
                let taken = self.faces@.take(k + 1);
                assert(taken.drop_last() =~= self.faces@.take(k as int));
                assert(taken.last() == self.faces@[k as int]);
                assert(indices@ =~= spec_indices(self.faces@.take(k as int)) + face_indices(
                    self.faces@[k as int],
                ));
            }
            k += 1;
        }
        proof {
            assert(self.faces@.take(self.faces@.len() as int) =~= self.faces@);
            assert(positions@ =~= spec_projected(self.dim, self.points@));
            assert(normals@ =~= spec_projected(self.dim, self.normals@));
            assert(uvs@ =~= self.uvs@);
            lemma_indices_len(self.faces@);
            lemma_indices_in_range(self.faces@, self.spec_len());
        }
        MeshBuffers { positions, normals, uvs, indices }
    }

    /// Produces the normal-visualization line list: for each sample, the
    /// projected sample followed by the projected end of its normal line.
    /// The host supplies each line end — the sample offset along its
    /// (optionally rescaled) normal, computed in the host's own arithmetic —
    /// and this builder pairs and projects them.
    pub fn build_normal_line_buffer(&self, line_ends: &Vec<Vec<u32>>) -> (r: Vec<Vec3Bits>)
        requires
            self.wf(),
            line_ends@.len() == self.spec_len(),
            forall|i: int|
                0 <= i < line_ends@.len() ==> line_ends@[i]@.len() >= self.dim.spec_size(),
        ensures
            r@ == spec_line_pairs(self.dim, self.points@, line_ends@),
            r@.len() == 2 * self.spec_len(),
            forall|i: int|
                0 <= i < self.spec_len() ==> r@[2 * i] == spec_project(
                    self.dim,
                    self.points@[i]@,
                ) && r@[2 * i + 1] == spec_project(self.dim, line_ends@[i]@),
    {
        let n = self.points.len();
        let mut out: Vec<Vec3Bits> = Vec::new();
        let mut i: usize = 0;
        while i < n
            invariant
                i <= n,
                n == self.points@.len(),
                self.wf(),
                line_ends@.len() == self.points@.len(),
                forall|j: int|
                    0 <= j < line_ends@.len() ==> line_ends@[j]@.len() >= self.dim.spec_size(),
                out@ == spec_line_pairs(
                    self.dim,
                    self.points@.take(i as int),
                    line_ends@.take(i as int),
                ),
            decreases n - i,
        {
            out.push(project(self.dim, &self.points[i]));
            out.push(project(self.dim, &line_ends[i]));
            proof {
                assert(out@ =~= spec_line_pairs(
                    self.dim,
                    self.points@.take(i as int + 1),
                    line_ends@.take(i as int + 1),
                ));
            }
            i += 1;
        }
        proof {
            assert(self.points@.take(n as int) =~= self.points@);
            assert(line_ends@.take(n as int) =~= line_ends@);
        }
        out
    }
}

/// The flat buffers of a triangle mesh: parallel position/normal/UV arrays
/// and a triangle-list index array.
#[derive(PartialEq, Eq, Debug)]
pub struct MeshBuffers {
    pub positions: Vec<Vec3Bits>,
    pub normals: Vec<Vec3Bits>,
    pub uvs: Vec<UvBits>,
    pub indices: Vec<u32>,
}

/// Every sample of `samples` projected by the fixed rule, in order.
pub open spec fn spec_projected(dim: Dim, samples: Seq<Vec<u32>>) -> Seq<Vec3Bits> {
    Seq::new(samples.len(), |i: int| spec_project(dim, samples[i]@))
}

/// The triangle-list indices of all faces, flattened in face order.
pub open spec fn spec_indices(faces: Seq<Face>) -> Seq<u32>
    decreases faces.len(),
{
    if faces.len() == 0 {
        Seq::empty()
    } else {
        spec_indices(faces.drop_last()) + face_indices(faces.last())
    }
}

/// Total number of triangle-list indices the faces contribute: three per
/// triangle and six per quad.
pub open spec fn spec_index_count(faces: Seq<Face>) -> nat
    decreases faces.len(),
{
    if faces.len() == 0 {
        0
    } else {
        spec_index_count(faces.drop_last()) + face_index_count(faces.last())
    }
}

/// The normal line list: pairs in point order, the projected sample at the
/// even slots and the projected line end at the odd ones.
pub open spec fn spec_line_pairs(dim: Dim, points: Seq<Vec<u32>>, ends: Seq<Vec<u32>>) -> Seq<
    Vec3Bits,
> {
    Seq::new(
        2 * points.len(),
        |k: int|
            if k % 2 == 0 {
                spec_project(dim, points[k / 2]@)
            } else {
                spec_project(dim, ends[k / 2]@)
            },
    )
}

/// The flattened index list is exactly as long as the per-face counts add
/// up to: three entries for each triangle and six for each quad.
pub proof fn lemma_indices_len(faces: Seq<Face>)
    ensures
        spec_indices(faces).len() == spec_index_count(faces),
    decreases faces.len(),
{
    if faces.len() == 0 {
    } else {
        lemma_indices_len(faces.drop_last());
    }
}

/// Every index the faces contribute stays inside a vertex list that all
/// faces point into: the flattened index list never dangles.
pub proof fn lemma_indices_in_range(faces: Seq<Face>, n: nat)
    requires
        forall|i: int| 0 <= i < faces.len() ==> face_wf(faces[i], n),
    ensures
        forall|k: int| 0 <= k < spec_indices(faces).len() ==> (spec_indices(faces)[k] as nat) < n,
    decreases faces.len(),
{
    if faces.len() == 0 {
    } else {
        lemma_indices_in_range(faces.drop_last(), n);
        assert(face_wf(faces.last(), n));
        assert forall|k: int| 0 <= k < spec_indices(faces).len() implies (spec_indices(faces)[k]
            as nat) < n by {
            let prefix = spec_indices(faces.drop_last());
            if k < prefix.len() {
                assert(spec_indices(faces)[k] == prefix[k]);
            } else {
                assert(spec_indices(faces)[k] == face_indices(faces.last())[k - prefix.len()]);
            }
        }
    }
}

/// A quad `[a, b, c, d]` contributes exactly the index run
/// `a, b, c, a, c, d`: two triangles fanned from the first corner, in the
/// source winding.
pub proof fn lemma_quad_fan_order(a: u32, b: u32, c: u32, d: u32)
    ensures
        face_indices(Face::Quad(a, b, c, d)) =~= seq![a, b, c, a, c, d],
{
}

/// The triangle buffers are a function of the tessellation alone: any two
/// outputs the builder's contract admits for one tessellation are equal,
/// so repeated calls with identical input return bit-identical buffers.
pub proof fn lemma_triangle_buffers_deterministic(t: Tessellation, r1: MeshBuffers, r2: MeshBuffers)
    requires
        r1.positions@ == spec_projected(t.dim, t.points@),
        r1.normals@ == spec_projected(t.dim, t.normals@),
        r1.uvs@ == t.uvs@,
        r1.indices@ == spec_indices(t.faces@),
        r2.positions@ == spec_projected(t.dim, t.points@),
        r2.normals@ == spec_projected(t.dim, t.normals@),
        r2.uvs@ == t.uvs@,
        r2.indices@ == spec_indices(t.faces@),
    ensures
        r1.positions@ == r2.positions@,
        r1.normals@ == r2.normals@,
        r1.uvs@ == r2.uvs@,
        r1.indices@ == r2.indices@,
{
}

/// The normal line list is a function of the tessellation and the supplied
/// line ends alone: its contract pins every slot, so repeated calls with
/// identical inputs return bit-identical buffers.
pub proof fn lemma_normal_lines_deterministic(
    t: Tessellation,
    ends: Seq<Vec<u32>>,
    r1: Seq<Vec3Bits>,
    r2: Seq<Vec3Bits>,
)
    requires
        r1 == spec_line_pairs(t.dim, t.points@, ends),
        r2 == spec_line_pairs(t.dim, t.points@, ends),
    ensures
        r1 == r2,
{
}

} // verus!
