//! The store that owns the primitives of a scene, and the encoding of its
//! collections into uniform blocks.
//!
//! Each kind of primitive has an ordered collection of its own. A primitive
//! has no identity but its index, which changes when an earlier one is
//! removed. The store keeps a flag that says its contents may have changed
//! since the blocks were last written; every call that can change a
//! collection raises it, and only a full re-encode lowers it.

use vstd::prelude::*;
use crate::error::SceneError;
use crate::shapes::{Cube, MengerSponge, Sphere, Triangle};
use crate::uniform_block::{
    CubesArray, MengerSpongeArray, SceneBuffers, SphereArray, TriangleArray, CAPACITY,
};

verus! {

/// The render mode of a store that has not been told another.
pub const DEFAULT_RENDER_MODE: i32 = 2;

pub struct ObjectHandeler {
    cpu_triangles: Vec<Triangle>,
    cpu_spheres: Vec<Sphere>,
    cpu_cubes: Vec<Cube>,
    cpu_menger_sponges: Vec<MengerSponge>,
    render_mode: i32,
    data_is_modified: bool,
}

/// `k` is the index of the first sphere in `items` that equals `target` as
/// numbers in every field.
pub open spec fn is_first_match(items: Seq<Sphere>, target: Sphere, k: int) -> bool {
    &&& 0 <= k < items.len()
    &&& items[k].same(target)
    &&& no_match(items.take(k), target)
}

/// No sphere in `items` equals `target` as numbers in every field.
pub open spec fn no_match(items: Seq<Sphere>, target: Sphere) -> bool {
    forall|i: int| 0 <= i < items.len() ==> !(#[trigger] items[i]).same(target)
}

/// Removes the element at `index` and hands it back, closing the gap; the
/// elements behind it move one place to the front. Fails, and removes
/// nothing, when `index` names no element.
pub fn remove_at<T>(items: &mut Vec<T>, index: usize) -> (r: Result<T, SceneError>)
    ensures
        r is Ok <==> index < old(items)@.len(),
        r is Ok ==> {
            &&& r->Ok_0 == old(items)@[index as int]
            &&& final(items)@ == old(items)@.remove(index as int)
        },
        r is Err ==> {
            &&& r->Err_0 == SceneError::IndexOutOfRange
            &&& final(items)@ == old(items)@
        },
{
    if index < items.len() {
        Ok(items.remove(index))
    } else {
        Err(SceneError::IndexOutOfRange)
    }
}

impl ObjectHandeler {
    pub closed spec fn triangles(&self) -> Seq<Triangle> {
        self.cpu_triangles@
    }

    pub closed spec fn spheres(&self) -> Seq<Sphere> {
        self.cpu_spheres@
    }

    pub closed spec fn cubes(&self) -> Seq<Cube> {
        self.cpu_cubes@
    }

    pub closed spec fn menger_sponges(&self) -> Seq<MengerSponge> {
        self.cpu_menger_sponges@
    }

    pub closed spec fn render_mode(&self) -> i32 {
        self.render_mode
    }

    /// Whether the contents may have changed since the last full re-encode.
    pub closed spec fn modified(&self) -> bool {
        self.data_is_modified
    }

    /// Both stores hold the same primitives in the same order.
    pub open spec fn same_objects(&self, other: &ObjectHandeler) -> bool {
        &&& self.triangles() == other.triangles()
        &&& self.spheres() == other.spheres()
        &&& self.cubes() == other.cubes()
        &&& self.menger_sponges() == other.menger_sponges()
    }

    /// An empty store with nothing to encode.
    pub fn new() -> (store: ObjectHandeler)
        ensures
            store.triangles() == Seq::<Triangle>::empty(),
            store.spheres() == Seq::<Sphere>::empty(),
            store.cubes() == Seq::<Cube>::empty(),
            store.menger_sponges() == Seq::<MengerSponge>::empty(),
            store.render_mode() == DEFAULT_RENDER_MODE,
            !store.modified(),
    {
        ObjectHandeler {
            cpu_triangles: Vec::new(),
            cpu_spheres: Vec::new(),
            cpu_cubes: Vec::new(),
            cpu_menger_sponges: Vec::new(),
            render_mode: DEFAULT_RENDER_MODE,
            data_is_modified: false,
        }
    }

    pub fn get_num_of_triangles(&self) -> (n: usize)
        ensures
            n == self.triangles().len(),
    {
        self.cpu_triangles.len()
    }

    pub fn get_num_of_spheres(&self) -> (n: usize)
        ensures
            n == self.spheres().len(),
    {
        self.cpu_spheres.len()
    }

    pub fn get_num_of_cubes(&self) -> (n: usize)
        ensures
            n == self.cubes().len(),
    {
        self.cpu_cubes.len()
    }

    pub fn get_num_of_menger_sponges(&self) -> (n: usize)
        ensures
            n == self.menger_sponges().len(),
    {
        self.cpu_menger_sponges.len()
    }

    /// The triangles for reading. The flag is left as it is.
    pub fn get_triangles(&self) -> (items: &Vec<Triangle>)
        ensures
            items@ == self.triangles(),
    {
        &self.cpu_triangles
    }

    /// The spheres for reading. The flag is left as it is.
    pub fn get_spheres(&self) -> (items: &Vec<Sphere>)
        ensures
            items@ == self.spheres(),
    {
        &self.cpu_spheres
    }

    /// The cubes for reading. The flag is left as it is.
    pub fn get_cubes(&self) -> (items: &Vec<Cube>)
        ensures
            items@ == self.cubes(),
    {
        &self.cpu_cubes
    }

    /// The Menger sponges for reading. The flag is left as it is.
    pub fn get_menger_sponges(&self) -> (items: &Vec<MengerSponge>)
        ensures
            items@ == self.menger_sponges(),
    {
        &self.cpu_menger_sponges
    }

    pub fn is_modified(&self) -> (m: bool)
        ensures
            m == self.modified(),
    {
        self.data_is_modified
    }

    pub fn get_render_mode(&self) -> (mode: i32)
        ensures
            mode == self.render_mode(),
    {
        self.render_mode
    }

    /// Hands out the triangles for reading and writing in place. The flag is
    /// raised at once, whatever the caller then does with them.
    pub fn get_triangles_reference(&mut self) -> (triangles: &mut Vec<Triangle>)
        ensures
            triangles@ == old(self).triangles(),
            final(self).triangles() == final(triangles)@,
            final(self).spheres() == old(self).spheres(),
            final(self).cubes() == old(self).cubes(),
            final(self).menger_sponges() == old(self).menger_sponges(),
            final(self).render_mode() == old(self).render_mode(),
            final(self).modified(),
    {
        self.data_is_modified = true;
        &mut self.cpu_triangles
    }

    /// Hands out the spheres for reading and writing in place. The flag is
    /// raised at once, whatever the caller then does with them.
    pub fn get_spheres_reference(&mut self) -> (spheres: &mut Vec<Sphere>)
        ensures
            spheres@ == old(self).spheres(),
            final(self).spheres() == final(spheres)@,
            final(self).triangles() == old(self).triangles(),
            final(self).cubes() == old(self).cubes(),
            final(self).menger_sponges() == old(self).menger_sponges(),
            final(self).render_mode() == old(self).render_mode(),
            final(self).modified(),
    {
        self.data_is_modified = true;
        &mut self.cpu_spheres
    }

    /// Hands out the cubes for reading and writing in place. The flag is
    /// raised at once, whatever the caller then does with them.
    pub fn get_cubes_reference(&mut self) -> (cubes: &mut Vec<Cube>)
        ensures
            cubes@ == old(self).cubes(),
            final(self).cubes() == final(cubes)@,
            final(self).triangles() == old(self).triangles(),
            final(self).spheres() == old(self).spheres(),
            final(self).menger_sponges() == old(self).menger_sponges(),
            final(self).render_mode() == old(self).render_mode(),
            final(self).modified(),
    {
        self.data_is_modified = true;
        &mut self.cpu_cubes
    }

    /// Hands out the Menger sponges for reading and writing in place. The
    /// flag is raised at once, whatever the caller then does with them.
    pub fn get_menger_sponges_reference(&mut self) -> (menger_sponges: &mut Vec<
        MengerSponge,
    >)
        ensures
            menger_sponges@ == old(self).menger_sponges(),
            final(self).menger_sponges() == final(menger_sponges)@,
            final(self).triangles() == old(self).triangles(),
            final(self).spheres() == old(self).spheres(),
            final(self).cubes() == old(self).cubes(),
            final(self).render_mode() == old(self).render_mode(),
            final(self).modified(),
    {
        self.data_is_modified = true;
        &mut self.cpu_menger_sponges
    }

    /// Removes the first sphere that equals `render_object` as numbers in
    /// every field, if there is one; the spheres behind it move one place to
    /// the front. Without such a sphere nothing changes, the flag included.
    pub fn remove_sphere(&mut self, render_object: Sphere)
        ensures
            final(self).triangles() == old(self).triangles(),
            final(self).cubes() == old(self).cubes(),
            final(self).menger_sponges() == old(self).menger_sponges(),
            final(self).render_mode() == old(self).render_mode(),
            forall|k: int|
                is_first_match(old(self).spheres(), render_object, k) ==> {
                    &&& final(self).spheres() == old(self).spheres().remove(k)
                    &&& final(self).modified()
                },
            no_match(old(self).spheres(), render_object) ==> {
                &&& final(self).spheres() == old(self).spheres()
                &&& final(self).modified() == old(self).modified()
            },
    {
        let n = self.cpu_spheres.len();
        let mut i: usize = 0;
        while i < n
            invariant
                n == self.cpu_spheres@.len(),
                i <= n,
                *self == *old(self),
                no_match(self.cpu_spheres@.take(i as int), render_object),
            decreases n - i,
        {
            if self.cpu_spheres[i].same_as(&render_object) {
                proof {
                    let items = old(self).spheres();
                    assert forall|k: int| is_first_match(items, render_object, k) implies k
                        == i by {
                        if k < i {
                            assert(items.take(i as int)[k] == items[k]);
                        } else if k > i {
                            assert(items.take(k)[i as int] == items[i as int]);
                        }
                    }
                }
                self.cpu_spheres.remove(i);
                self.data_is_modified = true;
                return;
            }
            i += 1;
        }
        assert(self.cpu_spheres@.take(n as int) =~= self.cpu_spheres@);
    }

    /// Removes the triangle at `index` and hands it back. Fails, and changes
    /// nothing, when `index` names no triangle.
    pub fn remove_triangle_at(&mut self, index: usize) -> (r: Result<Triangle, SceneError>)
        ensures
            r is Ok <==> index < old(self).triangles().len(),
            r is Ok ==> {
                &&& r->Ok_0 == old(self).triangles()[index as int]
                &&& final(self).triangles() == old(self).triangles().remove(index as int)
                &&& final(self).modified()
            },
            r is Err ==> {
                &&& r->Err_0 == SceneError::IndexOutOfRange
                &&& final(self).triangles() == old(self).triangles()
                &&& final(self).modified() == old(self).modified()
            },
            final(self).spheres() == old(self).spheres(),
            final(self).cubes() == old(self).cubes(),
            final(self).menger_sponges() == old(self).menger_sponges(),
            final(self).render_mode() == old(self).render_mode(),
    {
        let r = remove_at(&mut self.cpu_triangles, index);
        if r.is_ok() {
            self.data_is_modified = true;
        }
        r
    }

    /// Removes the sphere at `index` and hands it back. Fails, and changes
    /// nothing, when `index` names no sphere.
    pub fn remove_sphere_at(&mut self, index: usize) -> (r: Result<Sphere, SceneError>)
        ensures
            r is Ok <==> index < old(self).spheres().len(),
            r is Ok ==> {
                &&& r->Ok_0 == old(self).spheres()[index as int]
                &&& final(self).spheres() == old(self).spheres().remove(index as int)
                &&& final(self).modified()
            },
            r is Err ==> {
                &&& r->Err_0 == SceneError::IndexOutOfRange
                &&& final(self).spheres() == old(self).spheres()
                &&& final(self).modified() == old(self).modified()
            },
            final(self).triangles() == old(self).triangles(),
            final(self).cubes() == old(self).cubes(),
            final(self).menger_sponges() == old(self).menger_sponges(),
            final(self).render_mode() == old(self).render_mode(),
    {
        let r = remove_at(&mut self.cpu_spheres, index);
        if r.is_ok() {
            self.data_is_modified = true;
        }
        r
    }

    /// Removes the cube at `index` and hands it back. Fails, and changes
    /// nothing, when `index` names no cube.
    pub fn remove_cube_at(&mut self, index: usize) -> (r: Result<Cube, SceneError>)
        ensures
            r is Ok <==> index < old(self).cubes().len(),
            r is Ok ==> {
                &&& r->Ok_0 == old(self).cubes()[index as int]
                &&& final(self).cubes() == old(self).cubes().remove(index as int)
                &&& final(self).modified()
            },
            r is Err ==> {
                &&& r->Err_0 == SceneError::IndexOutOfRange
                &&& final(self).cubes() == old(self).cubes()
                &&& final(self).modified() == old(self).modified()
            },
            final(self).triangles() == old(self).triangles(),
            final(self).spheres() == old(self).spheres(),
            final(self).menger_sponges() == old(self).menger_sponges(),
            final(self).render_mode() == old(self).render_mode(),
    {
        let r = remove_at(&mut self.cpu_cubes, index);
        if r.is_ok() {
            self.data_is_modified = true;
        }
        r
    }

    /// Removes the Menger sponge at `index` and hands it back. Fails, and
    /// changes nothing, when `index` names no Menger sponge.
    pub fn remove_menger_sponge_at(&mut self, index: usize) -> (r: Result<
        MengerSponge,
        SceneError,
    >)
        ensures
            r is Ok <==> index < old(self).menger_sponges().len(),
            r is Ok ==> {
                &&& r->Ok_0 == old(self).menger_sponges()[index as int]
                &&& final(self).menger_sponges() == old(self).menger_sponges().remove(index as int)
                &&& final(self).modified()
            },
            r is Err ==> {
                &&& r->Err_0 == SceneError::IndexOutOfRange
                &&& final(self).menger_sponges() == old(self).menger_sponges()
                &&& final(self).modified() == old(self).modified()
            },
            final(self).triangles() == old(self).triangles(),
            final(self).spheres() == old(self).spheres(),
            final(self).cubes() == old(self).cubes(),
            final(self).render_mode() == old(self).render_mode(),
    {
        let r = remove_at(&mut self.cpu_menger_sponges, index);
        if r.is_ok() {
            self.data_is_modified = true;
        }
        r
    }

    pub fn add_triangle(&mut self, render_object: Triangle)
        ensures
            final(self).triangles() == old(self).triangles().push(render_object),
            final(self).spheres() == old(self).spheres(),
            final(self).cubes() == old(self).cubes(),
            final(self).menger_sponges() == old(self).menger_sponges(),
            final(self).render_mode() == old(self).render_mode(),
            final(self).modified(),
    {
        self.cpu_triangles.push(render_object);
        self.data_is_modified = true;
    }

    pub fn add_sphere(&mut self, render_object: Sphere)
        ensures
            final(self).spheres() == old(self).spheres().push(render_object),
            final(self).triangles() == old(self).triangles(),
            final(self).cubes() == old(self).cubes(),
            final(self).menger_sponges() == old(self).menger_sponges(),
            final(self).render_mode() == old(self).render_mode(),
            final(self).modified(),
    {
        self.cpu_spheres.push(render_object);
        self.data_is_modified = true;
    }

    pub fn add_cube(&mut self, render_object: Cube)
        ensures
            final(self).cubes() == old(self).cubes().push(render_object),
            final(self).triangles() == old(self).triangles(),
            final(self).spheres() == old(self).spheres(),
            final(self).menger_sponges() == old(self).menger_sponges(),
            final(self).render_mode() == old(self).render_mode(),
            final(self).modified(),
    {
        self.cpu_cubes.push(render_object);
        self.data_is_modified = true;
    }

    pub fn add_menger_sponge(&mut self, render_object: MengerSponge)
        ensures
            final(self).menger_sponges() == old(self).menger_sponges().push(render_object),
            final(self).triangles() == old(self).triangles(),
            final(self).spheres() == old(self).spheres(),
            final(self).cubes() == old(self).cubes(),
            final(self).render_mode() == old(self).render_mode(),
            final(self).modified(),
    {
        self.cpu_menger_sponges.push(render_object);
        self.data_is_modified = true;
    }

    /// Appends `render_objects` behind the triangles that are there, in their
    /// order.
    pub fn add_triangles_from(&mut self, render_objects: Vec<Triangle>)
        ensures
            final(self).triangles() == old(self).triangles() + render_objects@,
            final(self).spheres() == old(self).spheres(),
            final(self).cubes() == old(self).cubes(),
            final(self).menger_sponges() == old(self).menger_sponges(),
            final(self).render_mode() == old(self).render_mode(),
            final(self).modified(),
    {
        let mut render_objects = render_objects;
        self.cpu_triangles.append(&mut render_objects);
        self.data_is_modified = true;
    }

    /// Appends `render_objects` behind the spheres that are there, in their
    /// order.
    pub fn add_spheres_from(&mut self, render_objects: Vec<Sphere>)
        ensures
            final(self).spheres() == old(self).spheres() + render_objects@,
            final(self).triangles() == old(self).triangles(),
            final(self).cubes() == old(self).cubes(),
            final(self).menger_sponges() == old(self).menger_sponges(),
            final(self).render_mode() == old(self).render_mode(),
            final(self).modified(),
    {
        let mut render_objects = render_objects;
        self.cpu_spheres.append(&mut render_objects);
        self.data_is_modified = true;
    }

    /// Appends `render_objects` behind the cubes that are there, in their
    /// order.
    pub fn add_cubes_from(&mut self, render_objects: Vec<Cube>)
        ensures
            final(self).cubes() == old(self).cubes() + render_objects@,
            final(self).triangles() == old(self).triangles(),
            final(self).spheres() == old(self).spheres(),
            final(self).menger_sponges() == old(self).menger_sponges(),
            final(self).render_mode() == old(self).render_mode(),
            final(self).modified(),
    {
        let mut render_objects = render_objects;
        self.cpu_cubes.append(&mut render_objects);
        self.data_is_modified = true;
    }

    /// Appends `render_objects` behind the Menger sponges that are there, in
    /// their order.
    pub fn add_menger_sponges_from(&mut self, render_objects: Vec<MengerSponge>)
        ensures
            final(self).menger_sponges() == old(self).menger_sponges() + render_objects@,
            final(self).triangles() == old(self).triangles(),
            final(self).spheres() == old(self).spheres(),
            final(self).cubes() == old(self).cubes(),
            final(self).render_mode() == old(self).render_mode(),
            final(self).modified(),
    {
        let mut render_objects = render_objects;
        self.cpu_menger_sponges.append(&mut render_objects);
        self.data_is_modified = true;
    }

    /// A box is a cube: the same as `add_cube`.
    pub fn add_box(&mut self, render_object: Cube)
        ensures
            final(self).cubes() == old(self).cubes().push(render_object),
            final(self).triangles() == old(self).triangles(),
            final(self).spheres() == old(self).spheres(),
            final(self).menger_sponges() == old(self).menger_sponges(),
            final(self).render_mode() == old(self).render_mode(),
            final(self).modified(),
    {
        self.add_cube(render_object);
    }

    /// Moves the cubes out of `render_objects`, which is left empty, and
    /// appends them behind the cubes that are there.
    pub fn add_boxes_from(&mut self, render_objects: &mut Vec<Cube>)
        ensures
            final(self).cubes() == old(self).cubes() + old(render_objects)@,
            final(render_objects)@ == Seq::<Cube>::empty(),
            final(self).triangles() == old(self).triangles(),
            final(self).spheres() == old(self).spheres(),
            final(self).menger_sponges() == old(self).menger_sponges(),
            final(self).render_mode() == old(self).render_mode(),
            final(self).modified(),
    {
        self.cpu_cubes.append(render_objects);
        self.data_is_modified = true;
    }

    /// Replaces the cubes.
    pub fn set_boxes(&mut self, render_objects: Vec<Cube>)
        ensures
            final(self).cubes() == render_objects@,
            final(self).triangles() == old(self).triangles(),
            final(self).spheres() == old(self).spheres(),
            final(self).menger_sponges() == old(self).menger_sponges(),
            final(self).render_mode() == old(self).render_mode(),
            final(self).modified(),
    {
        self.cpu_cubes = render_objects;
        self.data_is_modified = true;
    }

    /// Replaces the spheres.
    pub fn set_spheres(&mut self, render_objects: Vec<Sphere>)
        ensures
            final(self).spheres() == render_objects@,
            final(self).triangles() == old(self).triangles(),
            final(self).cubes() == old(self).cubes(),
            final(self).menger_sponges() == old(self).menger_sponges(),
            final(self).render_mode() == old(self).render_mode(),
            final(self).modified(),
    {
        self.cpu_spheres = render_objects;
        self.data_is_modified = true;
    }

    pub fn set_render_mode(&mut self, mode: i32)
        ensures
            final(self).render_mode() == mode,
            final(self).same_objects(old(self)),
            final(self).modified(),
    {
        self.render_mode = mode;
        self.data_is_modified = true;
    }

    /// A fresh block that carries the triangles, zero beyond them. Fails when
    /// there are more than the block has slots.
    pub fn get_uniform_buffer_triangles(&self) -> (r: Result<TriangleArray, SceneError>)
        ensures
            r is Ok <==> self.triangles().len() <= CAPACITY,
            r is Err ==> r->Err_0 == SceneError::CapacityExceeded,
            r is Ok ==> {
                &&& r->Ok_0.encodes(self.triangles())
                &&& forall|i: int|
                    self.triangles().len() <= i < CAPACITY ==> r->Ok_0.slot_is_zero(i)
            },
    {
        let mut block = TriangleArray::new();
        let ghost fresh = block;
        match block.encode(&self.cpu_triangles) {
            Ok(()) => {
                assert forall|i: int|
                    self.triangles().len() <= i < CAPACITY implies block.slot_is_zero(i) by {
                    assert(block.slot_matches(&fresh, i) && fresh.slot_is_zero(i));
                }
                Ok(block)
            },
            Err(e) => Err(e),
        }
    }

    /// A fresh block that carries the spheres, zero beyond them. Fails when
    /// there are more than the block has slots.
    pub fn get_uniform_buffer_spheres(&self) -> (r: Result<SphereArray, SceneError>)
        ensures
            r is Ok <==> self.spheres().len() <= CAPACITY,
            r is Err ==> r->Err_0 == SceneError::CapacityExceeded,
            r is Ok ==> {
                &&& r->Ok_0.encodes(self.spheres())
                &&& forall|i: int|
                    self.spheres().len() <= i < CAPACITY ==> r->Ok_0.slot_is_zero(i)
            },
    {
        let mut block = SphereArray::new();
        let ghost fresh = block;
        match block.encode(&self.cpu_spheres) {
            Ok(()) => {
                assert forall|i: int|
                    self.spheres().len() <= i < CAPACITY implies block.slot_is_zero(i) by {
                    assert(block.slot_matches(&fresh, i) && fresh.slot_is_zero(i));
                }
                Ok(block)
            },
            Err(e) => Err(e),
        }
    }

    /// A fresh block that carries the cubes, zero beyond them. Fails when
    /// there are more than the block has slots.
    pub fn get_uniform_buffer_cubes(&self) -> (r: Result<CubesArray, SceneError>)
        ensures
            r is Ok <==> self.cubes().len() <= CAPACITY,
            r is Err ==> r->Err_0 == SceneError::CapacityExceeded,
            r is Ok ==> {
                &&& r->Ok_0.encodes(self.cubes())
                &&& forall|i: int|
                    self.cubes().len() <= i < CAPACITY ==> r->Ok_0.slot_is_zero(i)
            },
    {
        let mut block = CubesArray::new();
        let ghost fresh = block;
        match block.encode(&self.cpu_cubes) {
            Ok(()) => {
                assert forall|i: int|
                    self.cubes().len() <= i < CAPACITY implies block.slot_is_zero(i) by {
                    assert(block.slot_matches(&fresh, i) && fresh.slot_is_zero(i));
                }
                Ok(block)
            },
            Err(e) => Err(e),
        }
    }

    /// A fresh block that carries the Menger sponges, zero beyond them. Fails
    /// when there are more than the block has slots.
    pub fn get_uniform_buffer_menger_sponges(&self) -> (r: Result<
        MengerSpongeArray,
        SceneError,
    >)
        ensures
            r is Ok <==> self.menger_sponges().len() <= CAPACITY,
            r is Err ==> r->Err_0 == SceneError::CapacityExceeded,
            r is Ok ==> {
                &&& r->Ok_0.encodes(self.menger_sponges())
                &&& forall|i: int|
                    self.menger_sponges().len() <= i < CAPACITY ==> r->Ok_0.slot_is_zero(i)
            },
    {
        let mut block = MengerSpongeArray::new();
        let ghost fresh = block;
        match block.encode(&self.cpu_menger_sponges) {
            Ok(()) => {
                assert forall|i: int|
                    self.menger_sponges().len() <= i < CAPACITY implies block.slot_is_zero(i) by {
                    assert(block.slot_matches(&fresh, i) && fresh.slot_is_zero(i));
                }
                Ok(block)
            },
            Err(e) => Err(e),
        }
    }

    /// Every collection fits into a block.
    pub open spec fn fits(&self) -> bool {
        &&& self.triangles().len() <= CAPACITY
        &&& self.spheres().len() <= CAPACITY
        &&& self.cubes().len() <= CAPACITY
        &&& self.menger_sponges().len() <= CAPACITY
    }

    /// Brings `buffers` up to date where the store has changed.
    ///
    /// With the flag down nothing is done and `Ok(false)` comes back. With the
    /// flag up and every collection within capacity, all four blocks are
    /// written again, slots beyond the counts are left alone, the flag is
    /// lowered last, and `Ok(true)` comes back. With the flag up and a
    /// collection over capacity the call fails: the buffers are as they were
    /// and the flag stays up. The primitives are never changed.
    pub fn update(&mut self, buffers: &mut SceneBuffers) -> (r: Result<bool, SceneError>)
        ensures
            final(self).same_objects(old(self)),
            final(self).render_mode() == old(self).render_mode(),
            r == if !old(self).modified() {
                Ok::<bool, SceneError>(false)
            } else if old(self).fits() {
                Ok::<bool, SceneError>(true)
            } else {
                Err::<bool, SceneError>(SceneError::CapacityExceeded)
            },
            r == Ok::<bool, SceneError>(true) ==> {
                &&& !final(self).modified()
                &&& final(buffers).encodes(
                    old(self).triangles(),
                    old(self).spheres(),
                    old(self).cubes(),
                    old(self).menger_sponges(),
                )
                &&& final(buffers).keeps_unpopulated(old(buffers))
            },
            r != Ok::<bool, SceneError>(true) ==> {
                &&& final(self).modified() == old(self).modified()
                &&& *final(buffers) == *old(buffers)
            },
    {
        if !self.data_is_modified {
            return Ok(false);
        }
        if self.cpu_triangles.len() > CAPACITY || self.cpu_spheres.len() > CAPACITY
            || self.cpu_cubes.len() > CAPACITY || self.cpu_menger_sponges.len() > CAPACITY {
            return Err(SceneError::CapacityExceeded);
        }
        let _ = buffers.triangles.encode(&self.cpu_triangles);
        let _ = buffers.spheres.encode(&self.cpu_spheres);
        let _ = buffers.cubes.encode(&self.cpu_cubes);
        let _ = buffers.menger_sponges.encode(&self.cpu_menger_sponges);
        self.data_is_modified = false;
        Ok(true)
    }
}

} // verus!
