//! Plain-value core of a thin OpenGL / OpenXR helper library.
//!
//! Everything here computes on integers, strings and vectors: the GL and
//! OpenXR calls themselves are made by the caller, which hands the results
//! to these functions and performs the actions they return.
use vstd::prelude::*;

pub mod app_state;
pub mod gl_consts;
pub mod gl_errors;
pub mod gl_program;
pub mod graphics_api;
pub mod ownership;
pub mod pixels;
pub mod png_image;
pub mod raster;
pub mod shaders;
pub mod text;
pub mod vertex_layout;
pub mod xr_errors;
pub mod xr_frame;
pub mod xr_protocol;

verus! {

} // verus!
