//! Scene state for an interactive ray-marching viewer: the primitives of a
//! scene, the store that owns them, the packing of the store into
//! fixed-capacity uniform-block arrays, and the decisions that the editor
//! panel and the pointer and keyboard handlers take each frame.
//!
//! Every scalar is an IEEE-754 single-precision number carried as its bit
//! pattern in a `u32`. The library moves, compares and packs scalars; it never
//! does arithmetic on them.

pub mod camera;
pub mod editor;
pub mod error;
pub mod gui;
pub mod input_handler;
pub mod object_handler;
pub mod scalar;
pub mod shapes;
pub mod uniform_block;
