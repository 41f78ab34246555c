use raymarch_scene::editor::{
    apply_response, begin_pass, collapsing_objects_tree, run_pass, ItemResponse, PassStep,
    TreeRemovals, TreeResponses,
};
use raymarch_scene::error::SceneError;
use raymarch_scene::object_handler::ObjectHandeler;
use raymarch_scene::shapes::{Cube, MengerSponge, Sphere};
use raymarch_scene::uniform_block::SceneBuffers;

fn v(x: f32, y: f32, z: f32) -> [u32; 3] {
    [x.to_bits(), y.to_bits(), z.to_bits()]
}

fn sphere(n: usize) -> Sphere {
    let f = n as f32;
    Sphere::new(v(f, f + 0.25, -f), v(0.1 * f, 0.5, 1.0), (f + 0.5).to_bits())
}

fn cube(n: usize) -> Cube {
    let f = n as f32;
    Cube::new(v(f, 0.0, 1.0), v(0.4, 2.0 + f, 0.4), v(0.8, 0.1, 0.3))
}

fn sponge(n: usize) -> MengerSponge {
    let f = n as f32;
    MengerSponge::new(v(2.0 * f, 0.0, 0.0), (f + 1.0).to_bits(), v(0.8, 0.1, 0.3))
}

fn keep<T>(value: T) -> ItemResponse<T> {
    ItemResponse { value, remove: false }
}

fn remove<T>(value: T) -> ItemResponse<T> {
    ItemResponse { value, remove: true }
}

#[test]
fn a_pass_starts_at_the_first_element() {
    assert_eq!(begin_pass(&vec![1, 2, 3]), PassStep::Show(0));
    assert_eq!(begin_pass(&vec![7]), PassStep::Show(0));
    assert_eq!(begin_pass(&Vec::<u8>::new()), PassStep::Finished);
}

#[test]
fn a_kept_response_is_written_and_the_pass_goes_on() {
    let mut items = vec![10, 20, 30];
    assert_eq!(apply_response(&mut items, 0, 11, false), Ok(PassStep::Show(1)));
    assert_eq!(items, vec![11, 20, 30]);
    assert_eq!(apply_response(&mut items, 1, 20, false), Ok(PassStep::Show(2)));
    assert_eq!(apply_response(&mut items, 2, 33, false), Ok(PassStep::Finished));
    assert_eq!(items, vec![11, 20, 33]);
}

#[test]
fn a_removal_ends_the_pass() {
    let mut items = vec![10, 20, 30];
    assert_eq!(apply_response(&mut items, 0, 99, true), Ok(PassStep::Finished));
    assert_eq!(items, vec![20, 30]);
    let mut items = vec![10, 20, 30];
    assert_eq!(apply_response(&mut items, 2, 99, true), Ok(PassStep::Finished));
    assert_eq!(items, vec![10, 20]);
}

#[test]
fn a_response_for_no_element_is_refused() {
    let mut items = vec![10, 20, 30];
    assert_eq!(apply_response(&mut items, 3, 99, false), Err(SceneError::IndexOutOfRange));
    assert_eq!(apply_response(&mut items, 3, 99, true), Err(SceneError::IndexOutOfRange));
    assert_eq!(apply_response(&mut items, usize::MAX, 99, false), Err(SceneError::IndexOutOfRange));
    assert_eq!(items, vec![10, 20, 30]);
    let mut none: Vec<i32> = Vec::new();
    assert_eq!(apply_response(&mut none, 0, 1, true), Err(SceneError::IndexOutOfRange));
}

#[test]
fn removing_the_middle_sphere_keeps_its_neighbours() {
    let mut items = vec![sphere(0), sphere(1), sphere(2)];
    let responses = vec![keep(sphere(0)), remove(sphere(1)), keep(sphere(2))];
    assert_eq!(run_pass(&mut items, &responses), Some(1));
    assert_eq!(items, vec![sphere(0), sphere(2)]);

    let responses = vec![keep(sphere(0)), keep(sphere(2))];
    assert_eq!(run_pass(&mut items, &responses), None);
    assert_eq!(items, vec![sphere(0), sphere(2)]);
}

#[test]
fn stepping_through_a_removal_shows_no_element_twice() {
    let mut store = ObjectHandeler::new();
    store.add_spheres_from(vec![sphere(0), sphere(1), sphere(2)]);
    let mut shown = Vec::new();
    {
        let spheres = store.get_spheres_reference();
        let mut step = begin_pass(spheres);
        while let PassStep::Show(i) = step {
            shown.push(spheres[i]);
            let value = spheres[i];
            step = apply_response(spheres, i, value, i == 1).unwrap();
        }
    }
    assert_eq!(shown, vec![sphere(0), sphere(1)]);
    assert_eq!(store.get_num_of_spheres(), 2);
    assert_eq!(store.get_spheres_reference().clone(), vec![sphere(0), sphere(2)]);
}

#[test]
fn the_element_behind_a_removal_is_not_removed_with_it() {
    let mut items = vec![10, 20, 30, 40];
    let responses = vec![keep(10), remove(20), remove(30), remove(40)];
    assert_eq!(run_pass(&mut items, &responses), Some(1));
    assert_eq!(items, vec![10, 30, 40]);
}

#[test]
fn responses_behind_a_removal_are_not_written() {
    let mut items = vec![10, 20, 30, 40];
    let responses = vec![keep(11), remove(21), keep(31), keep(41)];
    assert_eq!(run_pass(&mut items, &responses), Some(1));
    assert_eq!(items, vec![11, 30, 40]);
}

#[test]
fn a_pass_without_removal_writes_every_response() {
    let mut items = vec![10, 20, 30];
    let responses = vec![keep(11), keep(21), keep(31)];
    assert_eq!(run_pass(&mut items, &responses), None);
    assert_eq!(items, vec![11, 21, 31]);
}

#[test]
fn a_pass_shows_only_elements_that_have_a_response() {
    let mut items = vec![10, 20, 30];
    assert_eq!(run_pass(&mut items, &vec![keep(11)]), None);
    assert_eq!(items, vec![11, 20, 30]);
    assert_eq!(run_pass(&mut items, &Vec::new()), None);
    assert_eq!(items, vec![11, 20, 30]);
    assert_eq!(run_pass(&mut items, &vec![keep(1), keep(2), keep(3), remove(4)]), None);
    assert_eq!(items, vec![1, 2, 3]);
    let mut none: Vec<i32> = Vec::new();
    assert_eq!(run_pass(&mut none, &vec![remove(1)]), None);
    assert!(none.is_empty());
}

#[test]
fn removing_the_first_or_the_last() {
    let mut items = vec![10, 20, 30];
    assert_eq!(run_pass(&mut items, &vec![remove(10), keep(21), keep(31)]), Some(0));
    assert_eq!(items, vec![20, 30]);
    let mut items = vec![10, 20, 30];
    assert_eq!(run_pass(&mut items, &vec![keep(11), keep(21), remove(30)]), Some(2));
    assert_eq!(items, vec![11, 21]);
    let mut items = vec![10];
    assert_eq!(run_pass(&mut items, &vec![remove(10)]), Some(0));
    assert!(items.is_empty());
}

#[test]
fn the_tree_passes_over_each_collection() {
    let mut store = ObjectHandeler::new();
    store.add_spheres_from(vec![sphere(0), sphere(1), sphere(2)]);
    store.add_cubes_from(vec![cube(0), cube(1)]);
    store.add_menger_sponges_from(vec![sponge(0), sponge(1)]);
    let mut buffers = SceneBuffers::new();
    assert_eq!(store.update(&mut buffers), Ok(true));

    let responses = TreeResponses {
        spheres: vec![keep(sphere(0)), remove(sphere(1)), keep(sphere(2))],
        cubes: vec![keep(cube(5)), keep(cube(6))],
        menger_sponges: vec![remove(sponge(0)), remove(sponge(1))],
    };
    let removed = collapsing_objects_tree(&mut store, &responses);
    assert_eq!(removed, TreeRemovals { sphere: Some(1), cube: None, menger_sponge: Some(0) });
    assert!(store.is_modified());
    assert_eq!(store.get_spheres_reference().clone(), vec![sphere(0), sphere(2)]);
    assert_eq!(store.get_cubes_reference().clone(), vec![cube(5), cube(6)]);
    assert_eq!(store.get_menger_sponges_reference().clone(), vec![sponge(1)]);
}

#[test]
fn a_folded_tree_touches_nothing() {
    let mut store = ObjectHandeler::new();
    store.add_spheres_from(vec![sphere(0), sphere(1)]);
    store.add_cubes_from(vec![cube(0)]);
    let mut buffers = SceneBuffers::new();
    assert_eq!(store.update(&mut buffers), Ok(true));
    let responses =
        TreeResponses { spheres: Vec::new(), cubes: Vec::new(), menger_sponges: Vec::new() };
    let removed = collapsing_objects_tree(&mut store, &responses);
    assert_eq!(removed, TreeRemovals { sphere: None, cube: None, menger_sponge: None });
    assert!(!store.is_modified());
    assert_eq!(store.get_num_of_spheres(), 2);
    assert_eq!(store.get_num_of_cubes(), 1);
}

#[test]
fn one_open_section_raises_the_flag() {
    let mut store = ObjectHandeler::new();
    store.add_cubes_from(vec![cube(0)]);
    let mut buffers = SceneBuffers::new();
    assert_eq!(store.update(&mut buffers), Ok(true));
    let responses =
        TreeResponses { spheres: Vec::new(), cubes: vec![keep(cube(0))], menger_sponges: Vec::new() };
    collapsing_objects_tree(&mut store, &responses);
    assert!(store.is_modified());
    assert_eq!(store.get_cubes_reference().clone(), vec![cube(0)]);
}
