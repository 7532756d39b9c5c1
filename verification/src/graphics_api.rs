//! The graphics APIs an XR projection can be built for, and the clip-space
//! conventions that the projection takes from them.
use vstd::prelude::*;

verus! {

/// A graphics API, in the order of the OpenXR SDK's `GraphicsAPI`.
#[derive(PartialEq, Eq, Copy, Clone, Debug, Structural)]
pub enum GraphicsAPI {
    GraphicsVulkan,
    GraphicsOpenGL,
    GraphicsOpenGLES,
    GraphicsD2D,
}

impl GraphicsAPI {
    /// Whether clip space has positive Y pointing down, so that a projection
    /// takes its height as `tan(down) - tan(up)`: Vulkan only.
    pub fn clip_space_y_down(&self) -> (r: bool)
        ensures
            r == (*self == GraphicsAPI::GraphicsVulkan),
    {
        *self == GraphicsAPI::GraphicsVulkan
    }

    /// Whether clip space Z runs from -1 to 1, so that a projection offsets
    /// Z by the near plane: OpenGL and OpenGL ES. Others use 0 to 1.
    pub fn clip_space_z_from_minus_one(&self) -> (r: bool)
        ensures
            r == (*self == GraphicsAPI::GraphicsOpenGL || *self == GraphicsAPI::GraphicsOpenGLES),
    {
        *self == GraphicsAPI::GraphicsOpenGL || *self == GraphicsAPI::GraphicsOpenGLES
    }
}

} // verus!
