//! The renderer's own state: the compiled shader program handle and the
//! current viewport dimensions. The draw calls that consume this state are
//! issued outside this crate; the invariant they rely on — the viewport
//! matching the window's drawable size — is maintained by the frame loop's
//! event dispatch ([`crate::frame::handle_events`]).

use vstd::prelude::*;

verus! {

/// The abstract value of a [`Renderer`].
pub ghost struct RendererView {
    pub program: u32,
    pub viewport_width: u32,
    pub viewport_height: u32,
}

/// The renderer: a linked shader program handle (opaque, produced by the
/// external shader-compilation collaborator) and the viewport it draws
/// into.
pub struct Renderer {
    program: u32,
    viewport_width: u32,
    viewport_height: u32,
}

impl View for Renderer {
    type V = RendererView;

    closed spec fn view(&self) -> RendererView {
        RendererView {
            program: self.program,
            viewport_width: self.viewport_width,
            viewport_height: self.viewport_height,
        }
    }
}

/// What `set_viewport` does to the renderer state.
pub open spec fn spec_set_viewport(r: RendererView, width: u32, height: u32) -> RendererView {
    RendererView { viewport_width: width, viewport_height: height, ..r }
}

impl Renderer {
    /// A renderer drawing with the given linked program into a viewport of
    /// the given size.
    pub fn create_renderer(program: u32, width: u32, height: u32) -> (r: Renderer)
        ensures
            r@ == (RendererView { program: program, viewport_width: width, viewport_height: height }),
    {
        Renderer { program, viewport_width: width, viewport_height: height }
    }

    /// Points the renderer at a new viewport; called whenever the window's
    /// drawable size changes.
    pub fn set_viewport(&mut self, width: u32, height: u32)
        ensures
            final(self)@ == spec_set_viewport(old(self)@, width, height),
    {
        self.viewport_width = width;
        self.viewport_height = height;
    }

    /// The shader program the renderer draws with.
    pub fn program(&self) -> (p: u32)
        ensures
            p == self@.program,
    {
        self.program
    }

    /// The viewport's current dimensions.
    pub fn viewport(&self) -> (r: (u32, u32))
        ensures
            r.0 == self@.viewport_width,
            r.1 == self@.viewport_height,
    {
        (self.viewport_width, self.viewport_height)
    }
}

} // verus!
