//! The uniform blocks that the shader reads: for each kind of primitive a set
//! of parallel arrays with one slot per primitive.
//!
//! A slot is four scalars, sixteen bytes, which is the stride that the layout
//! rule for arrays in a uniform block asks for. A vector fills the first three
//! components and a scalar the first; the rest of a written slot is zero.
//! Slots at and beyond `number_of_objects` are never read by the shader and
//! are left as they were.

use vstd::prelude::*;
use crate::error::SceneError;
use crate::scalar::ZERO;
use crate::shapes::{Cube, MengerSponge, Sphere, Triangle};

verus! {

/// The number of slots of every array in a block.
pub const CAPACITY: usize = 128;

/// The slot that carries the vector `v`.
pub open spec fn vector_slot(v: [u32; 3]) -> Seq<u32> {
    seq![v[0], v[1], v[2], ZERO]
}

/// The slot that carries the scalar `s`.
pub open spec fn scalar_slot(s: u32) -> Seq<u32> {
    seq![s, ZERO, ZERO, ZERO]
}

/// The slot that carries nothing.
pub open spec fn zero_slot() -> Seq<u32> {
    seq![ZERO, ZERO, ZERO, ZERO]
}

/// The vector in the first three components of a slot.
pub open spec fn slot_vector(slot: [u32; 4]) -> [u32; 3] {
    [slot[0], slot[1], slot[2]]
}

/// The scalar in the first component of a slot.
pub open spec fn slot_scalar(slot: [u32; 4]) -> u32 {
    slot[0]
}

pub fn pad_vector(v: &[u32; 3]) -> (slot: [u32; 4])
    ensures
        slot@ == vector_slot(*v),
        slot_vector(slot) == *v,
{
    let slot: [u32; 4] = [v[0], v[1], v[2], ZERO];
    assert(slot@ =~= vector_slot(*v));
    assert(slot_vector(slot) =~= *v);
    slot
}

pub fn pad_scalar(s: u32) -> (slot: [u32; 4])
    ensures
        slot@ == scalar_slot(s),
        slot_scalar(slot) == s,
{
    let slot: [u32; 4] = [s, ZERO, ZERO, ZERO];
    assert(slot@ =~= scalar_slot(s));
    slot
}

pub fn unpad_vector(slot: &[u32; 4]) -> (v: [u32; 3])
    ensures
        v == slot_vector(*slot),
{
    [slot[0], slot[1], slot[2]]
}

pub fn unpad_scalar(slot: &[u32; 4]) -> (s: u32)
    ensures
        s == slot_scalar(*slot),
{
    slot[0]
}

/// A vector read back from the slot that carries it is the vector that was
/// written.
pub proof fn lemma_vector_slot_round_trip(v: [u32; 3], slot: [u32; 4])
    requires
        slot@ == vector_slot(v),
    ensures
        slot_vector(slot) == v,
        slot[3] == ZERO,
{
    assert(slot_vector(slot) =~= v);
}

/// A scalar read back from the slot that carries it is the scalar that was
/// written.
pub proof fn lemma_scalar_slot_round_trip(s: u32, slot: [u32; 4])
    requires
        slot@ == scalar_slot(s),
    ensures
        slot_scalar(slot) == s,
        slot[1] == ZERO,
        slot[2] == ZERO,
        slot[3] == ZERO,
{
}

pub struct SphereArray {
    pub number_of_objects: usize,
    pub positions: [[u32; 4]; CAPACITY],
    pub colors: [[u32; 4]; CAPACITY],
    pub radius: [[u32; 4]; CAPACITY],
}

impl SphereArray {
    /// Slot `i` carries the sphere `s`.
    pub open spec fn slot_holds(&self, i: int, s: Sphere) -> bool {
        &&& self.positions[i]@ == vector_slot(s.pos)
        &&& self.colors[i]@ == vector_slot(s.color)
        &&& self.radius[i]@ == scalar_slot(s.radius)
    }

    /// Slot `i` is zero in every array.
    pub open spec fn slot_is_zero(&self, i: int) -> bool {
        &&& self.positions[i]@ == zero_slot()
        &&& self.colors[i]@ == zero_slot()
        &&& self.radius[i]@ == zero_slot()
    }

    /// Slot `i` is the same in both blocks.
    pub open spec fn slot_matches(&self, other: &SphereArray, i: int) -> bool {
        &&& self.positions[i] == other.positions[i]
        &&& self.colors[i] == other.colors[i]
        &&& self.radius[i] == other.radius[i]
    }

    /// The block carries exactly `items`, in order, from slot 0 on.
    pub open spec fn encodes(&self, items: Seq<Sphere>) -> bool {
        &&& items.len() <= CAPACITY
        &&& self.number_of_objects == items.len()
        &&& forall|i: int| 0 <= i < items.len() ==> self.slot_holds(i, #[trigger] items[i])
    }

    /// The sphere read back from slot `i`.
    pub open spec fn decoded(&self, i: int) -> Sphere {
        Sphere {
            pos: slot_vector(self.positions[i]),
            color: slot_vector(self.colors[i]),
            radius: slot_scalar(self.radius[i]),
        }
    }

    /// A block with no objects and every slot zero.
    pub fn new() -> (block: Self)
        ensures
            block.number_of_objects == 0,
            block.encodes(Seq::empty()),
            forall|i: int| 0 <= i < CAPACITY ==> block.slot_is_zero(i),
    {
        let zero: [u32; 4] = [ZERO, ZERO, ZERO, ZERO];
        assert(zero@ =~= zero_slot());
        SphereArray {
            number_of_objects: 0,
            positions: [zero; CAPACITY],
            colors: [zero; CAPACITY],
            radius: [zero; CAPACITY],
        }
    }

    /// Writes `items` into the block from slot 0 on and sets the count. Fails,
    /// and writes nothing, when there are more items than slots.
    pub fn encode(&mut self, items: &Vec<Sphere>) -> (r: Result<(), SceneError>)
        ensures
            r is Ok <==> items.len() <= CAPACITY,
            r is Err ==> {
                &&& r->Err_0 == SceneError::CapacityExceeded
                &&& *final(self) == *old(self)
            },
            r is Ok ==> {
                &&& final(self).encodes(items@)
                &&& forall|i: int|
                    items.len() <= i < CAPACITY ==> final(self).slot_matches(old(self), i)
            },
    {
        let n = items.len();
        if n > CAPACITY {
            return Err(SceneError::CapacityExceeded);
        }
        let mut counter: usize = 0;
        while counter < n
            invariant
                n == items.len(),
                n <= CAPACITY,
                counter <= n,
                self.number_of_objects == old(self).number_of_objects,
                forall|i: int| 0 <= i < counter ==> self.slot_holds(i, #[trigger] items@[i]),
                forall|i: int|
                    counter <= i < CAPACITY ==> #[trigger] self.positions[i] == old(
                        self,
                    ).positions[i],
                forall|i: int|
                    counter <= i < CAPACITY ==> #[trigger] self.colors[i] == old(self).colors[i],
                forall|i: int|
                    counter <= i < CAPACITY ==> #[trigger] self.radius[i] == old(self).radius[i],
            decreases n - counter,
        {
            let sphere = &items[counter];
            self.positions[counter] = pad_vector(&sphere.pos);
            self.colors[counter] = pad_vector(&sphere.color);
            self.radius[counter] = pad_scalar(sphere.radius);
            counter += 1;
        }
        self.number_of_objects = n;
        Ok(())
    }

    /// Reads the sphere in slot `index` back, where the slot is populated.
    pub fn sphere_at(&self, index: usize) -> (r: Option<Sphere>)
        ensures
            r == if index < self.number_of_objects && index < CAPACITY {
                Some(self.decoded(index as int))
            } else {
                None
            },
    {
        if index < self.number_of_objects && index < CAPACITY {
            Some(
                Sphere {
                    pos: unpad_vector(&self.positions[index]),
                    color: unpad_vector(&self.colors[index]),
                    radius: unpad_scalar(&self.radius[index]),
                },
            )
        } else {
            None
        }
    }

    /// A block that carries `items` has their number as its count, and reading
    /// back any populated slot gives the item that was written there; what
    /// pads the slot is zero.
    pub proof fn lemma_decode_recovers(&self, items: Seq<Sphere>)
        requires
            self.encodes(items),
        ensures
            self.number_of_objects == items.len(),
            forall|i: int|
                0 <= i < items.len() ==> {
                    &&& #[trigger] self.decoded(i) == items[i]
                    &&& self.positions[i][3] == ZERO
                    &&& self.colors[i][3] == ZERO
                    &&& self.radius[i][1] == ZERO
                    &&& self.radius[i][2] == ZERO
                    &&& self.radius[i][3] == ZERO
                },
    {
        assert forall|i: int| 0 <= i < items.len() implies {
            &&& #[trigger] self.decoded(i) == items[i]
            &&& self.positions[i][3] == ZERO
            &&& self.colors[i][3] == ZERO
            &&& self.radius[i][1] == ZERO
            &&& self.radius[i][2] == ZERO
            &&& self.radius[i][3] == ZERO
        } by {
            assert(self.slot_holds(i, items[i]));
            lemma_vector_slot_round_trip(items[i].pos, self.positions[i]);
            lemma_vector_slot_round_trip(items[i].color, self.colors[i]);
            lemma_scalar_slot_round_trip(items[i].radius, self.radius[i]);
        }
    }
}

/// Each vertex has an array of its own: slot `i` of `v3` carries the third
/// vertex of triangle `i`. The shader derives the normal itself, so `norm` is
/// written as zero.
pub struct TriangleArray {
    pub number_of_objects: usize,
    pub v1: [[u32; 4]; CAPACITY],
    pub v2: [[u32; 4]; CAPACITY],
    pub v3: [[u32; 4]; CAPACITY],
    pub norm: [[u32; 4]; CAPACITY],
    pub color_triangles: [[u32; 4]; CAPACITY],
}

impl TriangleArray {
    /// Slot `i` carries the triangle `t`.
    pub open spec fn slot_holds(&self, i: int, t: Triangle) -> bool {
        &&& self.v1[i]@ == vector_slot(t.v1)
        &&& self.v2[i]@ == vector_slot(t.v2)
        &&& self.v3[i]@ == vector_slot(t.v3)
        &&& self.norm[i]@ == zero_slot()
        &&& self.color_triangles[i]@ == vector_slot(t.color)
    }

    /// Slot `i` is zero in every array.
    pub open spec fn slot_is_zero(&self, i: int) -> bool {
        &&& self.v1[i]@ == zero_slot()
        &&& self.v2[i]@ == zero_slot()
        &&& self.v3[i]@ == zero_slot()
        &&& self.norm[i]@ == zero_slot()
        &&& self.color_triangles[i]@ == zero_slot()
    }

    /// Slot `i` is the same in both blocks.
    pub open spec fn slot_matches(&self, other: &TriangleArray, i: int) -> bool {
        &&& self.v1[i] == other.v1[i]
        &&& self.v2[i] == other.v2[i]
        &&& self.v3[i] == other.v3[i]
        &&& self.norm[i] == other.norm[i]
        &&& self.color_triangles[i] == other.color_triangles[i]
    }

    /// The block carries exactly `items`, in order, from slot 0 on.
    pub open spec fn encodes(&self, items: Seq<Triangle>) -> bool {
        &&& items.len() <= CAPACITY
        &&& self.number_of_objects == items.len()
        &&& forall|i: int| 0 <= i < items.len() ==> self.slot_holds(i, #[trigger] items[i])
    }

    /// The triangle read back from slot `i`.
    pub open spec fn decoded(&self, i: int) -> Triangle {
        Triangle {
            v1: slot_vector(self.v1[i]),
            v2: slot_vector(self.v2[i]),
            v3: slot_vector(self.v3[i]),
            color: slot_vector(self.color_triangles[i]),
        }
    }

    /// A block with no objects and every slot zero.
    pub fn new() -> (block: Self)
        ensures
            block.number_of_objects == 0,
            block.encodes(Seq::empty()),
            forall|i: int| 0 <= i < CAPACITY ==> block.slot_is_zero(i),
    {
        let zero: [u32; 4] = [ZERO, ZERO, ZERO, ZERO];
        assert(zero@ =~= zero_slot());
        TriangleArray {
            number_of_objects: 0,
            v1: [zero; CAPACITY],
            v2: [zero; CAPACITY],
            v3: [zero; CAPACITY],
            norm: [zero; CAPACITY],
            color_triangles: [zero; CAPACITY],
        }
    }

    /// Writes `items` into the block from slot 0 on and sets the count. Fails,
    /// and writes nothing, when there are more items than slots.
    pub fn encode(&mut self, items: &Vec<Triangle>) -> (r: Result<(), SceneError>)
        ensures
            r is Ok <==> items.len() <= CAPACITY,
            r is Err ==> {
                &&& r->Err_0 == SceneError::CapacityExceeded
                &&& *final(self) == *old(self)
            },
            r is Ok ==> {
                &&& final(self).encodes(items@)
                &&& forall|i: int|
                    items.len() <= i < CAPACITY ==> final(self).slot_matches(old(self), i)
            },
    {
        let n = items.len();
        if n > CAPACITY {
            return Err(SceneError::CapacityExceeded);
        }
        let mut counter: usize = 0;
        while counter < n
            invariant
                n == items.len(),
                n <= CAPACITY,
                counter <= n,
                self.number_of_objects == old(self).number_of_objects,
                forall|i: int| 0 <= i < counter ==> self.slot_holds(i, #[trigger] items@[i]),
                forall|i: int|
                    counter <= i < CAPACITY ==> #[trigger] self.v1[i] == old(self).v1[i],
                forall|i: int|
                    counter <= i < CAPACITY ==> #[trigger] self.v2[i] == old(self).v2[i],
                forall|i: int|
                    counter <= i < CAPACITY ==> #[trigger] self.v3[i] == old(self).v3[i],
                forall|i: int|
                    counter <= i < CAPACITY ==> #[trigger] self.norm[i] == old(self).norm[i],
                forall|i: int|
                    counter <= i < CAPACITY ==> #[trigger] self.color_triangles[i] == old(
                        self,
                    ).color_triangles[i],
            decreases n - counter,
        {
            let triangle = &items[counter];
            self.v1[counter] = pad_vector(&triangle.v1);
            self.v2[counter] = pad_vector(&triangle.v2);
            self.v3[counter] = pad_vector(&triangle.v3);
            let unused: [u32; 4] = [ZERO, ZERO, ZERO, ZERO];
            assert(unused@ =~= zero_slot());
            self.norm[counter] = unused;
            self.color_triangles[counter] = pad_vector(&triangle.color);
            counter += 1;
        }
        self.number_of_objects = n;
        Ok(())
    }

    /// Reads the triangle in slot `index` back, where the slot is populated.
    pub fn triangle_at(&self, index: usize) -> (r: Option<Triangle>)
        ensures
            r == if index < self.number_of_objects && index < CAPACITY {
                Some(self.decoded(index as int))
            } else {
                None
            },
    {
        if index < self.number_of_objects && index < CAPACITY {
            Some(
                Triangle {
                    v1: unpad_vector(&self.v1[index]),
                    v2: unpad_vector(&self.v2[index]),
                    v3: unpad_vector(&self.v3[index]),
                    color: unpad_vector(&self.color_triangles[index]),
                },
            )
        } else {
            None
        }
    }

    /// A block that carries `items` has their number as its count, and reading
    /// back any populated slot gives the item that was written there; what
    /// pads the slot is zero.
    pub proof fn lemma_decode_recovers(&self, items: Seq<Triangle>)
        requires
            self.encodes(items),
        ensures
            self.number_of_objects == items.len(),
            forall|i: int|
                0 <= i < items.len() ==> {
                    &&& #[trigger] self.decoded(i) == items[i]
                    &&& self.v1[i][3] == ZERO
                    &&& self.v2[i][3] == ZERO
                    &&& self.v3[i][3] == ZERO
                    &&& self.norm[i]@ == zero_slot()
                    &&& self.color_triangles[i][3] == ZERO
                },
    {
        assert forall|i: int| 0 <= i < items.len() implies {
            &&& #[trigger] self.decoded(i) == items[i]
            &&& self.v1[i][3] == ZERO
            &&& self.v2[i][3] == ZERO
            &&& self.v3[i][3] == ZERO
            &&& self.norm[i]@ == zero_slot()
            &&& self.color_triangles[i][3] == ZERO
        } by {
            assert(self.slot_holds(i, items[i]));
            lemma_vector_slot_round_trip(items[i].v1, self.v1[i]);
            lemma_vector_slot_round_trip(items[i].v2, self.v2[i]);
            lemma_vector_slot_round_trip(items[i].v3, self.v3[i]);
            lemma_vector_slot_round_trip(items[i].color, self.color_triangles[i]);
        }
    }
}

pub struct CubesArray {
    pub number_of_objects: usize,
    pub pos_cubes: [[u32; 4]; CAPACITY],
    pub dim_cubes: [[u32; 4]; CAPACITY],
    pub color_cubes: [[u32; 4]; CAPACITY],
}

impl CubesArray {
    /// Slot `i` carries the cube `t`.
    pub open spec fn slot_holds(&self, i: int, t: Cube) -> bool {
        &&& self.pos_cubes[i]@ == vector_slot(t.pos)
        &&& self.dim_cubes[i]@ == vector_slot(t.dim)
        &&& self.color_cubes[i]@ == vector_slot(t.color)
    }

    /// Slot `i` is zero in every array.
    pub open spec fn slot_is_zero(&self, i: int) -> bool {
        &&& self.pos_cubes[i]@ == zero_slot()
        &&& self.dim_cubes[i]@ == zero_slot()
        &&& self.color_cubes[i]@ == zero_slot()
    }

    /// Slot `i` is the same in both blocks.
    pub open spec fn slot_matches(&self, other: &CubesArray, i: int) -> bool {
        &&& self.pos_cubes[i] == other.pos_cubes[i]
        &&& self.dim_cubes[i] == other.dim_cubes[i]
        &&& self.color_cubes[i] == other.color_cubes[i]
    }

    /// The block carries exactly `items`, in order, from slot 0 on.
    pub open spec fn encodes(&self, items: Seq<Cube>) -> bool {
        &&& items.len() <= CAPACITY
        &&& self.number_of_objects == items.len()
        &&& forall|i: int| 0 <= i < items.len() ==> self.slot_holds(i, #[trigger] items[i])
    }

    /// The cube read back from slot `i`.
    pub open spec fn decoded(&self, i: int) -> Cube {
        Cube {
            pos: slot_vector(self.pos_cubes[i]),
            dim: slot_vector(self.dim_cubes[i]),
            color: slot_vector(self.color_cubes[i]),
        }
    }

    /// A block with no objects and every slot zero.
    pub fn new() -> (block: Self)
        ensures
            block.number_of_objects == 0,
            block.encodes(Seq::empty()),
            forall|i: int| 0 <= i < CAPACITY ==> block.slot_is_zero(i),
    {
        let zero: [u32; 4] = [ZERO, ZERO, ZERO, ZERO];
        assert(zero@ =~= zero_slot());
        CubesArray {
            number_of_objects: 0,
            pos_cubes: [zero; CAPACITY],
            dim_cubes: [zero; CAPACITY],
            color_cubes: [zero; CAPACITY],
        }
    }

    /// Writes `items` into the block from slot 0 on and sets the count. Fails,
    /// and writes nothing, when there are more items than slots.
    pub fn encode(&mut self, items: &Vec<Cube>) -> (r: Result<(), SceneError>)
        ensures
            r is Ok <==> items.len() <= CAPACITY,
            r is Err ==> {
                &&& r->Err_0 == SceneError::CapacityExceeded
                &&& *final(self) == *old(self)
            },
            r is Ok ==> {
                &&& final(self).encodes(items@)
                &&& forall|i: int|
                    items.len() <= i < CAPACITY ==> final(self).slot_matches(old(self), i)
            },
    {
        let n = items.len();
        if n > CAPACITY {
            return Err(SceneError::CapacityExceeded);
        }
        let mut counter: usize = 0;
        while counter < n
            invariant
                n == items.len(),
                n <= CAPACITY,
                counter <= n,
                self.number_of_objects == old(self).number_of_objects,
                forall|i: int| 0 <= i < counter ==> self.slot_holds(i, #[trigger] items@[i]),
                forall|i: int|
                    counter <= i < CAPACITY ==> #[trigger] self.pos_cubes[i] == old(
                        self,
                    ).pos_cubes[i],
                forall|i: int|
                    counter <= i < CAPACITY ==> #[trigger] self.dim_cubes[i] == old(
                        self,
                    ).dim_cubes[i],
                forall|i: int|
                    counter <= i < CAPACITY ==> #[trigger] self.color_cubes[i] == old(
                        self,
                    ).color_cubes[i],
            decreases n - counter,
        {
            let cube = &items[counter];
            self.pos_cubes[counter] = pad_vector(&cube.pos);
            self.dim_cubes[counter] = pad_vector(&cube.dim);
            self.color_cubes[counter] = pad_vector(&cube.color);
            counter += 1;
        }
        self.number_of_objects = n;
        Ok(())
    }

    /// Reads the cube in slot `index` back, where the slot is populated.
    pub fn cube_at(&self, index: usize) -> (r: Option<Cube>)
        ensures
            r == if index < self.number_of_objects && index < CAPACITY {
                Some(self.decoded(index as int))
            } else {
                None
            },
    {
        if index < self.number_of_objects && index < CAPACITY {
            Some(
                Cube {
                    pos: unpad_vector(&self.pos_cubes[index]),
                    dim: unpad_vector(&self.dim_cubes[index]),
                    color: unpad_vector(&self.color_cubes[index]),
                },
            )
        } else {
            None
        }
    }

    /// A block that carries `items` has their number as its count, and reading
    /// back any populated slot gives the item that was written there; what
    /// pads the slot is zero.
    pub proof fn lemma_decode_recovers(&self, items: Seq<Cube>)
        requires
            self.encodes(items),
        ensures
            self.number_of_objects == items.len(),
            forall|i: int|
                0 <= i < items.len() ==> {
                    &&& #[trigger] self.decoded(i) == items[i]
                    &&& self.pos_cubes[i][3] == ZERO
                    &&& self.dim_cubes[i][3] == ZERO
                    &&& self.color_cubes[i][3] == ZERO
                },
    {
        assert forall|i: int| 0 <= i < items.len() implies {
            &&& #[trigger] self.decoded(i) == items[i]
            &&& self.pos_cubes[i][3] == ZERO
            &&& self.dim_cubes[i][3] == ZERO
            &&& self.color_cubes[i][3] == ZERO
        } by {
            assert(self.slot_holds(i, items[i]));
            lemma_vector_slot_round_trip(items[i].pos, self.pos_cubes[i]);
            lemma_vector_slot_round_trip(items[i].dim, self.dim_cubes[i]);
            lemma_vector_slot_round_trip(items[i].color, self.color_cubes[i]);
        }
    }
}

pub struct MengerSpongeArray {
    pub number_of_objects: usize,
    pub pos_menger_sponges: [[u32; 4]; CAPACITY],
    pub iterations_menger_sponges: [[u32; 4]; CAPACITY],
    pub color_menger_sponges: [[u32; 4]; CAPACITY],
}

impl MengerSpongeArray {
    /// Slot `i` carries the sponge `t`.
    pub open spec fn slot_holds(&self, i: int, t: MengerSponge) -> bool {
        &&& self.pos_menger_sponges[i]@ == vector_slot(t.pos)
        &&& self.iterations_menger_sponges[i]@ == scalar_slot(t.iterations)
        &&& self.color_menger_sponges[i]@ == vector_slot(t.color)
    }

    /// Slot `i` is zero in every array.
    pub open spec fn slot_is_zero(&self, i: int) -> bool {
        &&& self.pos_menger_sponges[i]@ == zero_slot()
        &&& self.iterations_menger_sponges[i]@ == zero_slot()
        &&& self.color_menger_sponges[i]@ == zero_slot()
    }

    /// Slot `i` is the same in both blocks.
    pub open spec fn slot_matches(&self, other: &MengerSpongeArray, i: int) -> bool {
        &&& self.pos_menger_sponges[i] == other.pos_menger_sponges[i]
        &&& self.iterations_menger_sponges[i] == other.iterations_menger_sponges[i]
        &&& self.color_menger_sponges[i] == other.color_menger_sponges[i]
    }

    /// The block carries exactly `items`, in order, from slot 0 on.
    pub open spec fn encodes(&self, items: Seq<MengerSponge>) -> bool {
        &&& items.len() <= CAPACITY
        &&& self.number_of_objects == items.len()
        &&& forall|i: int| 0 <= i < items.len() ==> self.slot_holds(i, #[trigger] items[i])
    }

    /// The sponge read back from slot `i`.
    pub open spec fn decoded(&self, i: int) -> MengerSponge {
        MengerSponge {
            pos: slot_vector(self.pos_menger_sponges[i]),
            iterations: slot_scalar(self.iterations_menger_sponges[i]),
            color: slot_vector(self.color_menger_sponges[i]),
        }
    }

    /// A block with no objects and every slot zero.
    pub fn new() -> (block: Self)
        ensures
            block.number_of_objects == 0,
            block.encodes(Seq::empty()),
            forall|i: int| 0 <= i < CAPACITY ==> block.slot_is_zero(i),
    {
        let zero: [u32; 4] = [ZERO, ZERO, ZERO, ZERO];
        assert(zero@ =~= zero_slot());
        MengerSpongeArray {
            number_of_objects: 0,
            pos_menger_sponges: [zero; CAPACITY],
            iterations_menger_sponges: [zero; CAPACITY],
            color_menger_sponges: [zero; CAPACITY],
        }
    }

    /// Writes `items` into the block from slot 0 on and sets the count. Fails,
    /// and writes nothing, when there are more items than slots.
    pub fn encode(&mut self, items: &Vec<MengerSponge>) -> (r: Result<(), SceneError>)
        ensures
            r is Ok <==> items.len() <= CAPACITY,
            r is Err ==> {
                &&& r->Err_0 == SceneError::CapacityExceeded
                &&& *final(self) == *old(self)
            },
            r is Ok ==> {
                &&& final(self).encodes(items@)
                &&& forall|i: int|
                    items.len() <= i < CAPACITY ==> final(self).slot_matches(old(self), i)
            },
    {
        let n = items.len();
        if n > CAPACITY {
            return Err(SceneError::CapacityExceeded);
        }
        let mut counter: usize = 0;
        while counter < n
            invariant
                n == items.len(),
                n <= CAPACITY,
                counter <= n,
                self.number_of_objects == old(self).number_of_objects,
                forall|i: int| 0 <= i < counter ==> self.slot_holds(i, #[trigger] items@[i]),
                forall|i: int|
                    counter <= i < CAPACITY ==> #[trigger] self.pos_menger_sponges[i] == old(
                        self,
                    ).pos_menger_sponges[i],
                forall|i: int|
                    counter <= i < CAPACITY ==> #[trigger] self.iterations_menger_sponges[i] == old(
                        self,
                    ).iterations_menger_sponges[i],
                forall|i: int|
                    counter <= i < CAPACITY ==> #[trigger] self.color_menger_sponges[i] == old(
                        self,
                    ).color_menger_sponges[i],
            decreases n - counter,
        {
            let sponge = &items[counter];
            self.pos_menger_sponges[counter] = pad_vector(&sponge.pos);
            self.iterations_menger_sponges[counter] = pad_scalar(sponge.iterations);
            self.color_menger_sponges[counter] = pad_vector(&sponge.color);
            counter += 1;
        }
        self.number_of_objects = n;
        Ok(())
    }

    /// Reads the sponge in slot `index` back, where the slot is populated.
    pub fn menger_sponge_at(&self, index: usize) -> (r: Option<MengerSponge>)
        ensures
            r == if index < self.number_of_objects && index < CAPACITY {
                Some(self.decoded(index as int))
            } else {
                None
            },
    {
        if index < self.number_of_objects && index < CAPACITY {
            Some(
                MengerSponge {
                    pos: unpad_vector(&self.pos_menger_sponges[index]),
                    iterations: unpad_scalar(&self.iterations_menger_sponges[index]),
                    color: unpad_vector(&self.color_menger_sponges[index]),
                },
            )
        } else {
            None
        }
    }

    /// A block that carries `items` has their number as its count, and reading
    /// back any populated slot gives the item that was written there; what
    /// pads the slot is zero.
    pub proof fn lemma_decode_recovers(&self, items: Seq<MengerSponge>)
        requires
            self.encodes(items),
        ensures
            self.number_of_objects == items.len(),
            forall|i: int|
                0 <= i < items.len() ==> {
                    &&& #[trigger] self.decoded(i) == items[i]
                    &&& self.pos_menger_sponges[i][3] == ZERO
                    &&& self.iterations_menger_sponges[i][1] == ZERO
                    &&& self.iterations_menger_sponges[i][2] == ZERO
                    &&& self.iterations_menger_sponges[i][3] == ZERO
                    &&& self.color_menger_sponges[i][3] == ZERO
                },
    {
        assert forall|i: int| 0 <= i < items.len() implies {
            &&& #[trigger] self.decoded(i) == items[i]
            &&& self.pos_menger_sponges[i][3] == ZERO
            &&& self.iterations_menger_sponges[i][1] == ZERO
            &&& self.iterations_menger_sponges[i][2] == ZERO
            &&& self.iterations_menger_sponges[i][3] == ZERO
            &&& self.color_menger_sponges[i][3] == ZERO
        } by {
            assert(self.slot_holds(i, items[i]));
            lemma_vector_slot_round_trip(items[i].pos, self.pos_menger_sponges[i]);
            lemma_scalar_slot_round_trip(items[i].iterations, self.iterations_menger_sponges[i]);
            lemma_vector_slot_round_trip(items[i].color, self.color_menger_sponges[i]);
        }
    }
}

/// The blocks of all four kinds, as the renderer binds them for a frame.
pub struct SceneBuffers {
    pub triangles: TriangleArray,
    pub spheres: SphereArray,
    pub cubes: CubesArray,
    pub menger_sponges: MengerSpongeArray,
}

impl SceneBuffers {
    /// Each block carries the collection of its kind.
    pub open spec fn encodes(
        &self,
        triangles: Seq<Triangle>,
        spheres: Seq<Sphere>,
        cubes: Seq<Cube>,
        menger_sponges: Seq<MengerSponge>,
    ) -> bool {
        &&& self.triangles.encodes(triangles)
        &&& self.spheres.encodes(spheres)
        &&& self.cubes.encodes(cubes)
        &&& self.menger_sponges.encodes(menger_sponges)
    }

    /// In each block, the slots at and beyond its count are as in `before`.
    pub open spec fn keeps_unpopulated(&self, before: &SceneBuffers) -> bool {
        &&& forall|i: int|
            self.triangles.number_of_objects <= i < CAPACITY ==> self.triangles.slot_matches(
                &before.triangles,
                i,
            )
        &&& forall|i: int|
            self.spheres.number_of_objects <= i < CAPACITY ==> self.spheres.slot_matches(
                &before.spheres,
                i,
            )
        &&& forall|i: int|
            self.cubes.number_of_objects <= i < CAPACITY ==> self.cubes.slot_matches(
                &before.cubes,
                i,
            )
        &&& forall|i: int|
            self.menger_sponges.number_of_objects <= i < CAPACITY
                ==> self.menger_sponges.slot_matches(&before.menger_sponges, i)
    }

    /// Blocks with no objects and every slot zero.
    pub fn new() -> (buffers: Self)
        ensures
            buffers.encodes(Seq::empty(), Seq::empty(), Seq::empty(), Seq::empty()),
            forall|i: int|
                0 <= i < CAPACITY ==> buffers.triangles.slot_is_zero(i)
                    && buffers.spheres.slot_is_zero(i) && buffers.cubes.slot_is_zero(i)
                    && buffers.menger_sponges.slot_is_zero(i),
    {
        SceneBuffers {
            triangles: TriangleArray::new(),
            spheres: SphereArray::new(),
            cubes: CubesArray::new(),
            menger_sponges: MengerSpongeArray::new(),
        }
    }
}

} // verus!
