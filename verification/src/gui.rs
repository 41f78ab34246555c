//! The state behind the editor panel, and what one frame's responses do to
//! it, to the store and to the camera.
//!
//! The panel is drawn by the program. While drawing, it changes nothing: it
//! shows copies and collects what the user did into a `GuiResponses`. When
//! the traversal is over, `GuiHandeler::update_gui` applies the responses in
//! a fixed order: pointer and scroll wheel, then the object tree, then the
//! object creator.

use vstd::prelude::*;
use crate::camera::Camera;
use crate::editor::{
    collapsing_objects_tree, pass_result, removed_index, TreeRemovals, TreeResponses,
};
use crate::input_handler::{
    orbit_asked, pan_asked, zoomed, CameraMotion, FrameInput, MouseHandler,
};
use crate::object_handler::ObjectHandeler;
use crate::scalar::{HALF, ONE, ZERO};
use crate::shapes::{Cube, Sphere};

verus! {

/// The kinds of primitive that the creator can make.
#[derive(Clone, Copy, Debug, PartialEq, Eq, Structural)]
pub enum ShapeKind {
    Sphere,
    Cube,
}

/// Which parts of the panel are open.
#[derive(Clone, Copy, Debug, PartialEq, Eq)]
pub struct StateHandeler {
    /// Whether the creator is open.
    pub create_object: bool,
}

impl StateHandeler {
    pub fn new() -> (state: StateHandeler)
        ensures
            !state.create_object,
    {
        StateHandeler { create_object: false }
    }
}

/// What the creator's widgets report in one frame. While the creator is
/// closed only `open_clicked` is looked at; while it is open, everything but
/// `open_clicked`.
#[derive(Clone, Copy, Debug, PartialEq, Eq)]
pub struct CreatorResponse {
    pub open_clicked: bool,
    /// The kind chosen in the selector.
    pub selected: ShapeKind,
    /// The staged sphere as the user left it.
    pub sphere: Sphere,
    /// The staged cube as the user left it.
    pub cube: Cube,
    pub create_clicked: bool,
    pub discard_clicked: bool,
}

/// The object creator: a staged primitive of each kind that it can make, and
/// the kind that is selected.
#[derive(Clone, Copy, Debug, PartialEq, Eq)]
pub struct CreateRenderObjectGui {
    pub sphere: Sphere,
    pub cube: Cube,
    pub selected: ShapeKind,
}

/// The sphere that the creator starts from: at the origin, mid grey, with
/// radius one.
pub open spec fn shell_sphere() -> Sphere {
    Sphere { pos: [ZERO, ZERO, ZERO], color: [HALF, HALF, HALF], radius: ONE }
}

/// The cube that the creator starts from: at the origin, mid grey, with
/// extent one along each axis.
pub open spec fn shell_cube() -> Cube {
    Cube { pos: [ZERO, ZERO, ZERO], dim: [ONE, ONE, ONE], color: [HALF, HALF, HALF] }
}

/// The creator after a frame's response.
pub open spec fn creator_after(
    gui: CreateRenderObjectGui,
    active: bool,
    response: CreatorResponse,
) -> CreateRenderObjectGui {
    if active {
        match response.selected {
            ShapeKind::Sphere => CreateRenderObjectGui {
                sphere: response.sphere,
                cube: gui.cube,
                selected: ShapeKind::Sphere,
            },
            ShapeKind::Cube => CreateRenderObjectGui {
                sphere: gui.sphere,
                cube: response.cube,
                selected: ShapeKind::Cube,
            },
        }
    } else if response.open_clicked {
        CreateRenderObjectGui {
            sphere: shell_sphere(),
            cube: shell_cube(),
            selected: gui.selected,
        }
    } else {
        gui
    }
}

/// Whether the creator is open after a frame's response.
pub open spec fn active_after(active: bool, response: CreatorResponse) -> bool {
    if active {
        !response.create_clicked && !response.discard_clicked
    } else {
        response.open_clicked
    }
}

/// Whether a frame's response creates a primitive of `kind`.
pub open spec fn creates(active: bool, response: CreatorResponse, kind: ShapeKind) -> bool {
    active && response.create_clicked && response.selected == kind
}

impl CreateRenderObjectGui {
    /// A creator with the shell objects staged and the sphere selected.
    pub fn new() -> (gui: CreateRenderObjectGui)
        ensures
            gui == (CreateRenderObjectGui {
                sphere: shell_sphere(),
                cube: shell_cube(),
                selected: ShapeKind::Sphere,
            }),
    {
        CreateRenderObjectGui {
            sphere: Sphere::new([ZERO, ZERO, ZERO], [HALF, HALF, HALF], ONE),
            cube: Cube::new([ZERO, ZERO, ZERO], [ONE, ONE, ONE], [HALF, HALF, HALF]),
            selected: ShapeKind::Sphere,
        }
    }

    /// Stages the shell objects again. The selection stays.
    pub fn create_new_shell_objects(&mut self)
        ensures
            *final(self) == (CreateRenderObjectGui {
                sphere: shell_sphere(),
                cube: shell_cube(),
                selected: old(self).selected,
            }),
    {
        self.sphere = Sphere::new([ZERO, ZERO, ZERO], [HALF, HALF, HALF], ONE);
        self.cube = Cube::new([ZERO, ZERO, ZERO], [ONE, ONE, ONE], [HALF, HALF, HALF]);
    }

    /// Applies one frame's response.
    ///
    /// While the creator is closed, a click on its opener opens it on fresh
    /// shell objects. While it is open, the selection and the staged
    /// primitive of the selected kind are taken from the response; a click on
    /// the create button then appends that primitive to the store, closes the
    /// creator and sets `should_update_objects`; a click on the discard
    /// button closes the creator.
    pub fn show(
        &mut self,
        create_object_gui_active: &mut bool,
        response: &CreatorResponse,
        object_handeler: &mut ObjectHandeler,
        should_update_objects: &mut bool,
    )
        ensures
            *final(self) == creator_after(*old(self), *old(create_object_gui_active), *response),
            *final(create_object_gui_active) == active_after(
                *old(create_object_gui_active),
                *response,
            ),
            final(object_handeler).spheres() == if creates(
                *old(create_object_gui_active),
                *response,
                ShapeKind::Sphere,
            ) {
                old(object_handeler).spheres().push(response.sphere)
            } else {
                old(object_handeler).spheres()
            },
            final(object_handeler).cubes() == if creates(
                *old(create_object_gui_active),
                *response,
                ShapeKind::Cube,
            ) {
                old(object_handeler).cubes().push(response.cube)
            } else {
                old(object_handeler).cubes()
            },
            final(object_handeler).triangles() == old(object_handeler).triangles(),
            final(object_handeler).menger_sponges() == old(object_handeler).menger_sponges(),
            final(object_handeler).render_mode() == old(object_handeler).render_mode(),
            final(object_handeler).modified() == (old(object_handeler).modified() || (*old(
                create_object_gui_active,
            ) && response.create_clicked)),
            *final(should_update_objects) == (*old(should_update_objects) || (*old(
                create_object_gui_active,
            ) && response.create_clicked)),
    {
        if *create_object_gui_active {
            self.selected = response.selected;
            match self.selected {
                ShapeKind::Sphere => {
                    self.sphere = response.sphere;
                    if response.create_clicked {
                        *create_object_gui_active = false;
                        object_handeler.add_sphere(self.sphere);
                        *should_update_objects = true;
                    }
                },
                ShapeKind::Cube => {
                    self.cube = response.cube;
                    if response.create_clicked {
                        *create_object_gui_active = false;
                        object_handeler.add_cube(self.cube);
                        *should_update_objects = true;
                    }
                },
            }
            if response.discard_clicked {
                *create_object_gui_active = false;
            }
        } else {
            if response.open_clicked {
                self.create_new_shell_objects();
                *create_object_gui_active = true;
            }
        }
    }
}

/// Everything that the panel and the input devices report in one frame.
pub struct GuiResponses {
    pub input: FrameInput,
    pub tree: TreeResponses,
    pub creator: CreatorResponse,
}

/// What a frame leaves for the caller: the camera motion to carry out, and
/// the indices that the object tree removed.
#[derive(Clone, Copy, Debug, PartialEq, Eq)]
pub struct GuiOutcome {
    pub motion: CameraMotion,
    pub removed: TreeRemovals,
}

/// The state of the panel across frames.
#[derive(Clone, Copy, Debug, PartialEq, Eq)]
pub struct GuiHandeler {
    pub state_handeler: StateHandeler,
    pub create_object_gui: CreateRenderObjectGui,
    pub mouse_handler: MouseHandler,
}

/// The object tree had a response in some section.
pub open spec fn tree_touched(tree: &TreeResponses) -> bool {
    tree.spheres@.len() > 0 || tree.cubes@.len() > 0 || tree.menger_sponges@.len() > 0
}

impl GuiHandeler {
    /// A panel with the creator closed.
    pub fn new() -> (gui: GuiHandeler)
        ensures
            !gui.state_handeler.create_object,
            gui.create_object_gui == (CreateRenderObjectGui {
                sphere: shell_sphere(),
                cube: shell_cube(),
                selected: ShapeKind::Sphere,
            }),
            gui.mouse_handler.rotation_pos == [ZERO, ONE, ZERO],
            gui.mouse_handler.update_axis,
    {
        GuiHandeler {
            state_handeler: StateHandeler::new(),
            create_object_gui: CreateRenderObjectGui::new(),
            mouse_handler: MouseHandler::new(),
        }
    }

    /// Applies one frame's responses: first the pointer and the scroll wheel
    /// to the camera, then the object tree to the store, then the creator.
    /// `should_update_objects` says afterwards whether this frame touched the
    /// store: the object tree had a response, or a primitive was created.
    pub fn update_gui(
        &mut self,
        responses: &GuiResponses,
        object_handeler: &mut ObjectHandeler,
        should_update_objects: &mut bool,
        camera: &mut Camera,
    ) -> (outcome: GuiOutcome)
        ensures
            final(self).mouse_handler == old(self).mouse_handler,
            final(self).create_object_gui == creator_after(
                old(self).create_object_gui,
                old(self).state_handeler.create_object,
                responses.creator,
            ),
            final(self).state_handeler.create_object == active_after(
                old(self).state_handeler.create_object,
                responses.creator,
            ),
            *final(camera) == zoomed(*old(camera), responses.input.zoomed_fov),
            outcome.motion.orbit == orbit_asked(
                responses.input.pointer,
                old(self).mouse_handler.rotation_pos,
                MouseHandler::ROTATE_SENSITIVITY,
            ),
            outcome.motion.pan == pan_asked(
                responses.input.pointer,
                MouseHandler::MOVE_SENSITIVITY,
            ),
            outcome.removed.sphere == removed_index(
                old(object_handeler).spheres(),
                responses.tree.spheres@,
            ),
            outcome.removed.cube == removed_index(
                old(object_handeler).cubes(),
                responses.tree.cubes@,
            ),
            outcome.removed.menger_sponge == removed_index(
                old(object_handeler).menger_sponges(),
                responses.tree.menger_sponges@,
            ),
            final(object_handeler).spheres() == {
                let passed = pass_result(old(object_handeler).spheres(), responses.tree.spheres@);
                if creates(
                    old(self).state_handeler.create_object,
                    responses.creator,
                    ShapeKind::Sphere,
                ) {
                    passed.push(responses.creator.sphere)
                } else {
                    passed
                }
            },
            final(object_handeler).cubes() == {
                let passed = pass_result(old(object_handeler).cubes(), responses.tree.cubes@);
                if creates(
                    old(self).state_handeler.create_object,
                    responses.creator,
                    ShapeKind::Cube,
                ) {
                    passed.push(responses.creator.cube)
                } else {
                    passed
                }
            },
            final(object_handeler).menger_sponges() == pass_result(
                old(object_handeler).menger_sponges(),
                responses.tree.menger_sponges@,
            ),
            final(object_handeler).triangles() == old(object_handeler).triangles(),
            final(object_handeler).render_mode() == old(object_handeler).render_mode(),
            *final(should_update_objects) == (tree_touched(&responses.tree) || (old(
                self,
            ).state_handeler.create_object && responses.creator.create_clicked)),
            final(object_handeler).modified() == (old(object_handeler).modified()
                || *final(should_update_objects)),
    {
        *should_update_objects = false;
        let motion = self.mouse_handler.handle(&responses.input, camera);
        let removed = collapsing_objects_tree(object_handeler, &responses.tree);
        if responses.tree.spheres.len() > 0 || responses.tree.cubes.len() > 0
            || responses.tree.menger_sponges.len() > 0 {
            *should_update_objects = true;
        }
        self.create_object_gui.show(
            &mut self.state_handeler.create_object,
            &responses.creator,
            object_handeler,
            should_update_objects,
        );
        GuiOutcome { motion, removed }
    }
}

} // verus!
