//! Runtime core of a small real-time 3D rendering engine.
//!
//! The crate models the engine's own state and decisions as plain verified
//! data: the window/context manager ([`game_window`]), the per-frame event
//! dispatch ([`frame`]), the renderer's viewport state ([`renderer`]), and
//! the asset loaders that turn raw model and image bytes into render-ready
//! CPU-side resources ([`model`], [`textures`]). The operating-system and
//! GPU calls themselves (SDL, OpenGL) live outside this crate; they hand
//! plain values in and take plain values back.

use vstd::prelude::*;

pub mod frame;
pub mod game_window;
pub mod model;
pub mod renderer;
pub mod textures;

verus! {

/// Why loading an asset (3D model or image) failed.
#[derive(Clone, Copy, PartialEq, Eq, Structural, Debug)]
pub enum LoadError {
    /// The bytes could not be parsed as a supported 3D-model format.
    ObjParse,
    /// The position/normal/texcoord arrays of a sub-mesh disagree on the
    /// vertex count, or the position array length is not a multiple of 3.
    InconsistentVertexData,
    /// An index of a sub-mesh does not reference a vertex of that sub-mesh.
    IndexOutOfRange,
    /// The bytes could not be decoded as a supported image format.
    ImageDecode,
    /// The decoded image is not one of the four supported 8-bit channel
    /// layouts (single-channel, dual-channel, RGB, RGBA).
    UnsupportedPixelLayout,
}

} // verus!
