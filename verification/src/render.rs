//! Rendering hooks: renderer markers and the pixel-access interface.
//!
//! Pixel data itself is moved by the backend; this layer carries the
//! renderer and format vocabulary and the entity references the render
//! hooks receive.

use vstd::prelude::*;

use crate::output::Output;
use crate::types::Geometry;
use crate::view::View;

verus! {

use core::marker::PhantomData;

/// A renderer-specific pixel-format marker.
pub trait PixelFormat: Sized {
    /// The backend code of this format.
    spec fn spec_bits(&self) -> u32;

    /// Returns the backend code of this format.
    fn as_bits(&self) -> (r: u32)
        ensures
            r == self.spec_bits(),
    ;
}

/// A renderer-specific texture marker.
pub trait Texture {

}

/// The pixel-access interface of a renderer.
pub trait Renderer: Sized {
    /// The pixel format this renderer understands.
    type PixelFormat: PixelFormat;

    /// The texture type this renderer understands.
    type Texture: Texture;

    /// Writes pixel data in the given format to the output's framebuffer;
    /// a geometry out of bounds is clamped by the backend.
    fn pixels_write(&mut self, format: Self::PixelFormat, geometry: Geometry, data: &[u8]);

    /// Reads pixel data in the given format from the output's
    /// framebuffer; a geometry out of bounds is clamped, and `geometry`
    /// is updated to the extent of the returned data.
    fn pixels_read(&self, format: Self::PixelFormat, geometry: &mut Geometry) -> Vec<u8>;
}

/// The pixel format of the headless renderer; it carries no pixels.
pub struct NoPixelFormat;

impl PixelFormat for NoPixelFormat {
    open spec fn spec_bits(&self) -> u32 {
        0
    }

    fn as_bits(&self) -> u32 {
        0
    }
}

/// The texture of the headless renderer; it carries no pixels.
pub struct NoTexture;

impl Texture for NoTexture {

}

/// The pixel formats the GLES2 renderer understands.
#[derive(Debug, Clone, Copy, PartialEq, Eq, Structural, Hash)]
pub enum GLES2PixelFormat {
    /// Eight bits per channel, red-green-blue-alpha: backend code 0.
    RGBA8888,
}

impl PixelFormat for GLES2PixelFormat {
    open spec fn spec_bits(&self) -> u32 {
        0
    }

    fn as_bits(&self) -> u32 {
        0
    }
}

/// A headless renderer: writes are discarded and reads return no data.
pub struct NoRenderer<'a> {
    lifetime: PhantomData<&'a ()>,
}

impl<'a> NoRenderer<'a> {
    /// Creates the headless renderer.
    pub fn new() -> NoRenderer<'a> {
        NoRenderer { lifetime: PhantomData }
    }
}

impl<'a> Renderer for NoRenderer<'a> {
    type PixelFormat = NoPixelFormat;

    type Texture = NoTexture;

    fn pixels_write(&mut self, format: NoPixelFormat, geometry: Geometry, data: &[u8]) {
    }

    fn pixels_read(&self, format: NoPixelFormat, geometry: &mut Geometry) -> Vec<u8> {
        Vec::new()
    }
}

/// The OpenGL ES 2 renderer.  Its pixel operations ride on the backend's
/// rendering context and are driven from outside this layer.
pub struct GLES2Renderer<'a> {
    lifetime: PhantomData<&'a ()>,
}

impl<'a> GLES2Renderer<'a> {
    /// Creates the GLES2 renderer marker.
    pub fn new() -> GLES2Renderer<'a> {
        GLES2Renderer { lifetime: PhantomData }
    }
}

/// The renderer active on an output during a render hook.
pub enum RenderInstance<'a> {
    /// The OpenGL ES 2 renderer.
    GLES2(GLES2Renderer<'a>),
    /// The headless renderer.
    Headless(NoRenderer<'a>),
}

/// An output as seen by the render hooks.
#[derive(Debug)]
pub struct RenderOutput {
    output: Output,
}

impl RenderOutput {
    /// The handle of the rendered output.
    pub closed spec fn id(self) -> u64 {
        self.output.id()
    }

    /// Wraps a raw backend handle of an output in render phase.
    pub fn from_handle(handle: u64) -> (r: RenderOutput)
        requires
            handle != 0,
        ensures
            r.id() == handle,
    {
        RenderOutput { output: Output::from_handle(handle) }
    }

    /// The output being rendered.
    pub fn output(&self) -> (r: &Output)
        ensures
            r.id() == self.id(),
    {
        &self.output
    }
}

/// A view as seen by the render hooks.
#[derive(Debug)]
pub struct RenderView {
    view: View,
}

impl RenderView {
    /// The handle of the rendered view.
    pub closed spec fn id(self) -> u64 {
        self.view.id()
    }

    /// Wraps a raw backend handle of a view in render phase.
    pub fn from_handle(handle: u64) -> (r: RenderView)
        requires
            handle != 0,
        ensures
            r.id() == handle,
    {
        RenderView { view: View::from_handle(handle) }
    }

    /// The view being rendered.
    pub fn view(&self) -> (r: &View)
        ensures
            r.id() == self.id(),
    {
        &self.view
    }
}

} // verus!
