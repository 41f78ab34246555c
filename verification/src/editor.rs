//! The decisions of one pass of the editor panel over a collection.
//!
//! The panel shows the elements one after another, from index 0 upwards. For
//! each it reports the value as the user left it and whether removal was
//! asked for. A response without removal is written back in place and the
//! pass goes on to the next index. The first response that asks for removal
//! removes that element and ends the pass over this collection: the elements
//! behind it have moved one place to the front and are shown, from their new
//! indices, in the next pass. So within a pass no element is shown twice, and
//! none is removed but the one that was asked for.
//!
//! The panel itself draws widgets and belongs to the program. It can drive a
//! pass step by step with `begin_pass` and `apply_response`, or collect the
//! responses of a whole traversal first and hand them to `run_pass`.

use vstd::prelude::*;
use crate::error::SceneError;
use crate::object_handler::ObjectHandeler;
use crate::shapes::{Cube, MengerSponge, Sphere};

verus! {

/// What the panel does next in a pass.
#[derive(Clone, Copy, Debug, PartialEq, Eq, Structural)]
pub enum PassStep {
    /// Show the element at this index and report the response.
    Show(usize),
    /// The pass over this collection is over.
    Finished,
}

/// What the panel reports for one element that it has shown.
#[derive(Debug)]
pub struct ItemResponse<T> {
    /// The element as the user left it.
    pub value: T,
    /// Whether the user asked for its removal.
    pub remove: bool,
}

/// The first step of a pass over `len` elements.
pub open spec fn first_step(len: nat) -> PassStep {
    if len > 0 {
        PassStep::Show(0)
    } else {
        PassStep::Finished
    }
}

/// The step that follows the response for `index` in a pass over a
/// collection that had `len` elements when the response came.
pub open spec fn step_after(len: nat, index: int, remove: bool) -> PassStep {
    if !remove && index + 1 < len {
        PassStep::Show((index + 1) as usize)
    } else {
        PassStep::Finished
    }
}

/// The collection after the response for `index`.
pub open spec fn after_response<T>(items: Seq<T>, index: int, value: T, remove: bool) -> Seq<T> {
    if remove {
        items.remove(index)
    } else {
        items.update(index, value)
    }
}

/// Among the first `n` responses, `k` is the first that asks for removal.
pub open spec fn is_first_removal<T>(responses: Seq<ItemResponse<T>>, n: int, k: int) -> bool {
    &&& 0 <= k < n
    &&& responses[k].remove
    &&& forall|j: int| 0 <= j < k ==> !(#[trigger] responses[j]).remove
}

/// None of the first `n` responses asks for removal.
pub open spec fn no_removal<T>(responses: Seq<ItemResponse<T>>, n: int) -> bool {
    forall|j: int| 0 <= j < n ==> !(#[trigger] responses[j]).remove
}

/// `items` with the values of the first `k` responses written in place.
pub open spec fn edited<T>(items: Seq<T>, responses: Seq<ItemResponse<T>>, k: int) -> Seq<T> {
    Seq::new(
        items.len(),
        |i: int|
            if i < k {
                responses[i].value
            } else {
                items[i]
            },
    )
}

/// The number of elements that a pass can show: each needs a response.
pub open spec fn shown(items_len: nat, responses_len: nat) -> int {
    if items_len <= responses_len {
        items_len as int
    } else {
        responses_len as int
    }
}

/// The index of the first of the first `n` responses that asks for removal.
pub open spec fn first_removal<T>(responses: Seq<ItemResponse<T>>, n: int) -> Option<int> {
    if exists|k: int| is_first_removal(responses, n, k) {
        Some(choose|k: int| is_first_removal(responses, n, k))
    } else {
        None
    }
}

/// The collection after a whole pass with these responses: the values of
/// the responses before the first removal written in place, and the element
/// of the first removal taken out.
pub open spec fn pass_result<T>(items: Seq<T>, responses: Seq<ItemResponse<T>>) -> Seq<T> {
    let n = shown(items.len(), responses.len());
    match first_removal(responses, n) {
        Some(k) => edited(items, responses, k).remove(k),
        None => edited(items, responses, n),
    }
}

/// There is at most one first removal, and `first_removal` names it.
pub proof fn lemma_first_removal<T>(responses: Seq<ItemResponse<T>>, n: int, k: int)
    requires
        is_first_removal(responses, n, k),
    ensures
        first_removal(responses, n) == Some(k),
{
    let c = choose|c: int| is_first_removal(responses, n, c);
    if c < k {
        assert(!responses[c].remove);
    } else if k < c {
        assert(!responses[k].remove);
    }
}

/// Where no response asks for removal, `first_removal` names none.
pub proof fn lemma_no_removal<T>(responses: Seq<ItemResponse<T>>, n: int)
    requires
        no_removal(responses, n),
    ensures
        first_removal(responses, n).is_none(),
{
    if exists|k: int| is_first_removal(responses, n, k) {
        let c = choose|c: int| is_first_removal(responses, n, c);
        assert(!responses[c].remove);
    }
}

/// A pass in which the response for index `k` is the first to ask for removal
/// leaves one element fewer. The elements before `k` are as their responses
/// left them. The elements behind `k` are untouched, each one place to the
/// front: none of them is removed, and none is skipped.
pub proof fn lemma_removal_keeps_the_rest<T>(
    items: Seq<T>,
    responses: Seq<ItemResponse<T>>,
    k: int,
)
    requires
        is_first_removal(responses, shown(items.len(), responses.len()), k),
    ensures
        pass_result(items, responses).len() == items.len() - 1,
        forall|i: int| 0 <= i < k ==> pass_result(items, responses)[i] == responses[i].value,
        forall|i: int|
            k <= i < items.len() - 1 ==> pass_result(items, responses)[i] == items[i + 1],
{
    lemma_first_removal(responses, shown(items.len(), responses.len()), k);
}

/// A pass in which no response asks for removal keeps the length and writes
/// every response in place.
pub proof fn lemma_pass_without_removal<T>(items: Seq<T>, responses: Seq<ItemResponse<T>>)
    requires
        no_removal(responses, shown(items.len(), responses.len())),
    ensures
        pass_result(items, responses).len() == items.len(),
        forall|i: int|
            0 <= i < shown(items.len(), responses.len()) ==> pass_result(items, responses)[i]
                == responses[i].value,
        forall|i: int|
            shown(items.len(), responses.len()) <= i < items.len() ==> pass_result(
                items,
                responses,
            )[i] == items[i],
{
    lemma_no_removal(responses, shown(items.len(), responses.len()));
}

pub fn begin_pass<T>(items: &Vec<T>) -> (step: PassStep)
    ensures
        step == first_step(items@.len()),
{
    if items.len() > 0 {
        PassStep::Show(0)
    } else {
        PassStep::Finished
    }
}

/// Applies the response for the element at `index` and says how the pass
/// goes on. Fails, and changes nothing, when `index` names no element.
pub fn apply_response<T>(items: &mut Vec<T>, index: usize, value: T, remove: bool) -> (r: Result<
    PassStep,
    SceneError,
>)
    ensures
        r is Ok <==> index < old(items)@.len(),
        r is Ok ==> {
            &&& final(items)@ == after_response(old(items)@, index as int, value, remove)
            &&& r->Ok_0 == step_after(old(items)@.len(), index as int, remove)
        },
        r is Err ==> r->Err_0 == SceneError::IndexOutOfRange && final(items)@ == old(items)@,
{
    let len = items.len();
    if index >= len {
        return Err(SceneError::IndexOutOfRange);
    }
    if remove {
        items.remove(index);
        Ok(PassStep::Finished)
    } else {
        items[index] = value;
        if index + 1 < len {
            Ok(PassStep::Show(index + 1))
        } else {
            Ok(PassStep::Finished)
        }
    }
}

/// Runs a whole pass with the responses of one traversal, `responses[i]`
/// being the response for the element at index `i`. Elements without a
/// response are not shown. Hands back the index that was removed, if any.
pub fn run_pass<T: Copy>(items: &mut Vec<T>, responses: &Vec<ItemResponse<T>>) -> (removed: Option<
    usize,
>)
    ensures
        final(items)@ == pass_result(old(items)@, responses@),
        match first_removal(responses@, shown(old(items)@.len(), responses@.len())) {
            Some(k) => removed == Some(k as usize),
            None => removed.is_none(),
        },
{
    let mut step = begin_pass(items);
    let ghost n = shown(old(items)@.len(), responses@.len());
    loop
        invariant
            n == shown(old(items)@.len(), responses@.len()),
            items@.len() == old(items)@.len(),
            match step {
                PassStep::Show(i) => i < items@.len() && i <= responses@.len() && no_removal(
                    responses@,
                    i as int,
                ) && items@ == edited(old(items)@, responses@, i as int),
                PassStep::Finished => no_removal(responses@, n) && items@ == edited(
                    old(items)@,
                    responses@,
                    n,
                ),
            },
        decreases
                match step {
                    PassStep::Show(i) => items@.len() - i,
                    PassStep::Finished => 0,
                },
    {
        let index = match step {
            PassStep::Show(i) => i,
            PassStep::Finished => {
                proof {
                    lemma_no_removal(responses@, n);
                }
                return None;
            },
        };
        if index >= responses.len() {
            assert(items@ =~= edited(old(items)@, responses@, n));
            proof {
                lemma_no_removal(responses@, n);
            }
            return None;
        }
        let response = &responses[index];
        let ghost before = items@;
        match apply_response(items, index, response.value, response.remove) {
            Ok(next) => {
                if response.remove {
                    proof {
                        lemma_first_removal(responses@, n, index as int);
                    }
                    return Some(index);
                }
                assert(items@ =~= edited(old(items)@, responses@, index + 1));
                proof {
                    if next == PassStep::Finished {
                        assert(index + 1 == items@.len());
                        assert(items@ =~= edited(old(items)@, responses@, n));
                    }
                }
                step = next;
            },
            Err(_) => {
                return None;
            },
        }
    }
}

/// The responses of one traversal of the object tree. A section of the tree
/// that is folded shows nothing and has no responses.
pub struct TreeResponses {
    pub spheres: Vec<ItemResponse<Sphere>>,
    pub cubes: Vec<ItemResponse<Cube>>,
    pub menger_sponges: Vec<ItemResponse<MengerSponge>>,
}

/// The index that a pass over the object tree removed from each collection.
#[derive(Clone, Copy, Debug, PartialEq, Eq)]
pub struct TreeRemovals {
    pub sphere: Option<usize>,
    pub cube: Option<usize>,
    pub menger_sponge: Option<usize>,
}

/// What `run_pass` hands back for a collection and its responses.
pub open spec fn removed_index<T>(items: Seq<T>, responses: Seq<ItemResponse<T>>) -> Option<
    usize,
> {
    match first_removal(responses, shown(items.len(), responses.len())) {
        Some(k) => Some(k as usize),
        None => None,
    }
}

/// A pass without responses changes nothing.
pub proof fn lemma_pass_without_responses<T>(items: Seq<T>, responses: Seq<ItemResponse<T>>)
    requires
        responses.len() == 0,
    ensures
        pass_result(items, responses) == items,
        removed_index(items, responses).is_none(),
{
    lemma_no_removal(responses, 0);
    assert(edited(items, responses, 0) =~= items);
}

/// One pass of the editor panel over the object tree: a pass over the
/// spheres, one over the cubes and one over the Menger sponges, each with the
/// responses of its section. The triangles are not in the tree. A removal in
/// one collection ends the pass over that collection only. The store's flag
/// is raised when any section had a response.
pub fn collapsing_objects_tree(
    object_handeler: &mut ObjectHandeler,
    responses: &TreeResponses,
) -> (removed: TreeRemovals)
    ensures
        final(object_handeler).spheres() == pass_result(
            old(object_handeler).spheres(),
            responses.spheres@,
        ),
        final(object_handeler).cubes() == pass_result(
            old(object_handeler).cubes(),
            responses.cubes@,
        ),
        final(object_handeler).menger_sponges() == pass_result(
            old(object_handeler).menger_sponges(),
            responses.menger_sponges@,
        ),
        final(object_handeler).triangles() == old(object_handeler).triangles(),
        final(object_handeler).render_mode() == old(object_handeler).render_mode(),
        final(object_handeler).modified() == (old(object_handeler).modified()
            || responses.spheres@.len() > 0 || responses.cubes@.len() > 0
            || responses.menger_sponges@.len() > 0),
        removed.sphere == removed_index(old(object_handeler).spheres(), responses.spheres@),
        removed.cube == removed_index(old(object_handeler).cubes(), responses.cubes@),
        removed.menger_sponge == removed_index(
            old(object_handeler).menger_sponges(),
            responses.menger_sponges@,
        ),
{
    proof {
        if responses.spheres@.len() == 0 {
            lemma_pass_without_responses(object_handeler.spheres(), responses.spheres@);
        }
        if responses.cubes@.len() == 0 {
            lemma_pass_without_responses(object_handeler.cubes(), responses.cubes@);
        }
        if responses.menger_sponges@.len() == 0 {
            lemma_pass_without_responses(
                object_handeler.menger_sponges(),
                responses.menger_sponges@,
            );
        }
    }
    let mut removed = TreeRemovals { sphere: None, cube: None, menger_sponge: None };
    if responses.spheres.len() > 0 {
        let spheres = object_handeler.get_spheres_reference();
        removed.sphere = run_pass(spheres, &responses.spheres);
    }
    if responses.cubes.len() > 0 {
        let cubes = object_handeler.get_cubes_reference();
        removed.cube = run_pass(cubes, &responses.cubes);
    }
    if responses.menger_sponges.len() > 0 {
        let menger_sponges = object_handeler.get_menger_sponges_reference();
        removed.menger_sponge = run_pass(menger_sponges, &responses.menger_sponges);
    }
    removed
}

} // verus!
