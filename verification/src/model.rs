//! Geometry of the named models: the vertices of their meshes and the
//! axis-aligned box around them.
use vstd::prelude::*;
use crate::vector::Vec3;

verus! {

pub const MAX_INSTANCE_COUNT: usize = 128;

/// The smallest element of `s`; `i64::MAX` for the empty sequence.
pub open spec fn least(s: Seq<i64>) -> i64
    decreases s.len(),
{
    if s.len() == 0 {
        i64::MAX
    } else {
        let rest = least(s.drop_last());
        if s.last() < rest {
            s.last()
        } else {
            rest
        }
    }
}

/// The largest element of `s`; `i64::MIN` for the empty sequence.
pub open spec fn greatest(s: Seq<i64>) -> i64
    decreases s.len(),
{
    if s.len() == 0 {
        i64::MIN
    } else {
        let rest = greatest(s.drop_last());
        if s.last() > rest {
            s.last()
        } else {
            rest
        }
    }
}

/// `least` and `greatest` bound every element, and each is itself an element
/// of a sequence that has one.
pub proof fn law_extremes(s: Seq<i64>)
    ensures
        forall|i: int| 0 <= i < s.len() ==> least(s) <= #[trigger] s[i] <= greatest(s),
        s.len() > 0 ==> exists|i: int| 0 <= i < s.len() && #[trigger] s[i] == least(s),
        s.len() > 0 ==> exists|i: int| 0 <= i < s.len() && #[trigger] s[i] == greatest(s),
    decreases s.len(),
{
    if s.len() > 0 {
        let front = s.drop_last();
        law_extremes(front);
        assert forall|i: int| 0 <= i < s.len() implies least(s) <= #[trigger] s[i] <= greatest(
            s,
        ) by {
            if i < s.len() - 1 {
                assert(front[i] == s[i]);
            }
        }
        let last = s.len() - 1;
        if least(s) == s.last() {
            assert(s[last] == least(s));
        } else {
            let i = choose|i: int| 0 <= i < front.len() && #[trigger] front[i] == least(front);
            assert(s[i] == least(s));
        }
        if greatest(s) == s.last() {
            assert(s[last] == greatest(s));
        } else {
            let i = choose|i: int| 0 <= i < front.len() && #[trigger] front[i] == greatest(front);
            assert(s[i] == greatest(s));
        }
    }
}

/// The `x` coordinates of a sequence of points.
pub open spec fn xs(points: Seq<Vec3>) -> Seq<i64> {
    Seq::new(points.len(), |i: int| points[i].x)
}

/// The `y` coordinates of a sequence of points.
pub open spec fn ys(points: Seq<Vec3>) -> Seq<i64> {
    Seq::new(points.len(), |i: int| points[i].y)
}

/// The `z` coordinates of a sequence of points.
pub open spec fn zs(points: Seq<Vec3>) -> Seq<i64> {
    Seq::new(points.len(), |i: int| points[i].z)
}

/// The corner with the least coordinates of the box around `points`.
pub open spec fn lowest_corner(points: Seq<Vec3>) -> Vec3 {
    Vec3 { x: least(xs(points)), y: least(ys(points)), z: least(zs(points)) }
}

/// The corner with the greatest coordinates of the box around `points`.
pub open spec fn highest_corner(points: Seq<Vec3>) -> Vec3 {
    Vec3 { x: greatest(xs(points)), y: greatest(ys(points)), z: greatest(zs(points)) }
}

/// The vertices that the corners of the triangles name, in their order.
pub open spec fn referenced(vertices: Seq<Vec3>, indices: Seq<u32>) -> Seq<Vec3> {
    Seq::new(indices.len(), |k: int| vertices[indices[k] as int])
}

/// Every point lies in the box around the points.
pub proof fn law_box_holds_points(points: Seq<Vec3>)
    ensures
        forall|i: int|
            0 <= i < points.len() ==> (#[trigger] points[i]).within(
                lowest_corner(points),
                highest_corner(points),
            ),
{
    law_extremes(xs(points));
    law_extremes(ys(points));
    law_extremes(zs(points));
    assert forall|i: int| 0 <= i < points.len() implies (#[trigger] points[i]).within(
        lowest_corner(points),
        highest_corner(points),
    ) by {
        assert(xs(points)[i] == points[i].x);
        assert(ys(points)[i] == points[i].y);
        assert(zs(points)[i] == points[i].z);
    }
}

fn lower(a: i64, b: i64) -> (r: i64)
    ensures
        r == if b < a { b } else { a },
{
    if b < a {
        b
    } else {
        a
    }
}

fn higher(a: i64, b: i64) -> (r: i64)
    ensures
        r == if b > a { b } else { a },
{
    if b > a {
        b
    } else {
        a
    }
}

/// One mesh of a model.
pub struct Mesh {
    /// Vertex positions in model space.
    pub vertices: Vec<Vec3>,
    /// Least corner of the box around the vertices that triangles use.
    pub min: Vec3,
    /// Greatest corner of that box.
    pub max: Vec3,
}

/// The geometry of a model: its meshes and the box around all of them.
pub struct Model {
    pub meshes: Vec<Mesh>,
    pub min: Vec3,
    pub max: Vec3,
}

/// The least corners of a sequence of meshes.
pub open spec fn mesh_mins(meshes: Seq<Mesh>) -> Seq<Vec3> {
    Seq::new(meshes.len(), |i: int| meshes[i].min)
}

/// The greatest corners of a sequence of meshes.
pub open spec fn mesh_maxs(meshes: Seq<Mesh>) -> Seq<Vec3> {
    Seq::new(meshes.len(), |i: int| meshes[i].max)
}

impl Mesh {
    /// Builds a mesh from vertex positions and the vertex indices of its
    /// triangles, three per triangle.
    ///
    /// Returns `None` where the indices do not come in threes or one of them
    /// names no vertex. The box of the mesh is the box around the vertices
    /// that the triangles use; with no triangle it is the inverted box
    /// from `i64::MAX` to `i64::MIN`.
    pub fn new(vertices: Vec<Vec3>, indices: &Vec<u32>) -> (r: Option<Mesh>)
        ensures
            r.is_some() <==> (indices.len() % 3 == 0 && forall|k: int|
                0 <= k < indices.len() ==> (#[trigger] indices[k]) < vertices.len()),
            r matches Some(mesh) ==> {
                &&& mesh.vertices == vertices
                &&& mesh.min == lowest_corner(referenced(vertices@, indices@))
                &&& mesh.max == highest_corner(referenced(vertices@, indices@))
            },
    {
        if indices.len() % 3 != 0 {
            return None;
        }
        let mut min = Vec3 { x: i64::MAX, y: i64::MAX, z: i64::MAX };
        let mut max = Vec3 { x: i64::MIN, y: i64::MIN, z: i64::MIN };
        let ghost used = referenced(vertices@, indices@);
        let mut k: usize = 0;
        while k < indices.len()
            invariant
                k <= indices.len(),
                used == referenced(vertices@, indices@),
                forall|j: int| 0 <= j < k ==> (#[trigger] indices[j]) < vertices.len(),
                min == lowest_corner(used.take(k as int)),
                max == highest_corner(used.take(k as int)),
            decreases indices.len() - k,
        {
            let index = indices[k] as usize;
            if index >= vertices.len() {
                return None;
            }
            let vertex = vertices[index];
            proof {
                let before = used.take(k as int);
                let after = used.take(k as int + 1);
                assert(after.last() == vertex);
                assert(xs(after).drop_last() =~= xs(before));
                assert(ys(after).drop_last() =~= ys(before));
                assert(zs(after).drop_last() =~= zs(before));
            }
            min = Vec3 {
                x: lower(min.x, vertex.x),
                y: lower(min.y, vertex.y),
                z: lower(min.z, vertex.z),
            };
            max = Vec3 {
                x: higher(max.x, vertex.x),
                y: higher(max.y, vertex.y),
                z: higher(max.z, vertex.z),
            };
            k = k + 1;
        }
        assert(used.take(k as int) =~= used);
        Some(Mesh { vertices, min, max })
    }
}

impl Model {
    /// Builds a model from its meshes. Its box is the box around the boxes
    /// of the meshes; with no mesh it is the inverted box from `i64::MAX` to
    /// `i64::MIN`.
    pub fn new(meshes: Vec<Mesh>) -> (model: Model)
        ensures
            model.meshes == meshes,
            model.min == lowest_corner(mesh_mins(meshes@)),
            model.max == highest_corner(mesh_maxs(meshes@)),
    {
        let mut min = Vec3 { x: i64::MAX, y: i64::MAX, z: i64::MAX };
        let mut max = Vec3 { x: i64::MIN, y: i64::MIN, z: i64::MIN };
        let ghost mins = mesh_mins(meshes@);
        let ghost maxs = mesh_maxs(meshes@);
        let mut k: usize = 0;
        while k < meshes.len()
            invariant
                k <= meshes.len(),
                mins == mesh_mins(meshes@),
                maxs == mesh_maxs(meshes@),
                min == lowest_corner(mins.take(k as int)),
                max == highest_corner(maxs.take(k as int)),
            decreases meshes.len() - k,
        {
            let low = meshes[k].min;
            let high = meshes[k].max;
            proof {
                assert(mins.take(k as int + 1).last() == low);
                assert(maxs.take(k as int + 1).last() == high);
                assert(xs(mins.take(k as int + 1)).drop_last() =~= xs(mins.take(k as int)));
                assert(ys(mins.take(k as int + 1)).drop_last() =~= ys(mins.take(k as int)));
                assert(zs(mins.take(k as int + 1)).drop_last() =~= zs(mins.take(k as int)));
                assert(xs(maxs.take(k as int + 1)).drop_last() =~= xs(maxs.take(k as int)));
                assert(ys(maxs.take(k as int + 1)).drop_last() =~= ys(maxs.take(k as int)));
                assert(zs(maxs.take(k as int + 1)).drop_last() =~= zs(maxs.take(k as int)));
            }
            min = Vec3 { x: lower(min.x, low.x), y: lower(min.y, low.y), z: lower(min.z, low.z) };
            max = Vec3 {
                x: higher(max.x, high.x),
                y: higher(max.y, high.y),
                z: higher(max.z, high.z),
            };
            k = k + 1;
        }
        assert(mins.take(k as int) =~= mins);
        assert(maxs.take(k as int) =~= maxs);
        Model { meshes, min, max }
    }

    /// Whether the box of the model is a box: no corner coordinate of `min`
    /// above that of `max`.
    pub open spec fn bounded(&self) -> bool {
        &&& self.min.x <= self.max.x
        &&& self.min.y <= self.max.y
        &&& self.min.z <= self.max.z
    }
}

/// The models by name; a model is known by its index.
pub struct ModelMgr {
    pub name: Vec<String>,
    pub model: Vec<Model>,
}

impl ModelMgr {
    /// Names and models come in pairs.
    pub open spec fn wf(&self) -> bool {
        self.name.len() == self.model.len()
    }

    /// Checks `wf`.
    pub fn is_wf(&self) -> (ok: bool)
        ensures
            ok == self.wf(),
    {
        self.name.len() == self.model.len()
    }

    pub fn new() -> (mgr: ModelMgr)
        ensures
            mgr.wf(),
            mgr.name@.len() == 0,
    {
        let name = Vec::with_capacity(MAX_INSTANCE_COUNT);
        let model = Vec::with_capacity(MAX_INSTANCE_COUNT);
        ModelMgr { name, model }
    }

    /// Appends a model under `name` and returns its index.
    pub fn add(&mut self, model: Model, name: &str) -> (index: usize)
        requires
            old(self).wf(),
        ensures
            final(self).wf(),
            index == old(self).model.len(),
            final(self).model@ == old(self).model@.push(model),
            final(self).name@.len() == old(self).name@.len() + 1,
            final(self).name@.drop_last() == old(self).name@,
            final(self).name@.last()@ == name@,
    {
        self.name.push(name.to_owned());
        self.model.push(model);
        self.len() - 1
    }

    /// Number of models.
    pub fn len(&self) -> (n: usize)
        ensures
            n == self.model.len(),
    {
        self.model.len()
    }

    /// Index of the first model called `name`; `None` where no model has
    /// that name.
    pub fn get_with_name(&self, name: &str) -> (r: Option<usize>)
        ensures
            match r {
                Some(index) => {
                    &&& index < self.name.len()
                    &&& self.name[index as int]@ == name@
                    &&& forall|j: int| 0 <= j < index ==> (#[trigger] self.name[j])@ != name@
                },
                None => forall|j: int| 0 <= j < self.name.len() ==> (#[trigger] self.name[j])@
                    != name@,
            },
    {
        let wanted = name.to_owned();
        let mut index: usize = 0;
        while index < self.name.len()
            invariant
                index <= self.name.len(),
                wanted@ == name@,
                forall|j: int| 0 <= j < index ==> (#[trigger] self.name[j])@ != name@,
            decreases self.name.len() - index,
        {
            if self.name[index] == wanted {
                return Some(index);
            }
            index = index + 1;
        }
        None
    }
}

} // verus!
