//! OpenGL enumerant values used by the library's decisions.
//!
//! The values are those of the OpenGL ES 3 / OpenGL 4 registry, which the
//! `gl` crate's generated bindings also carry.
use vstd::prelude::*;

verus! {

pub const NO_ERROR: u32 = 0x0000;

pub const TRIANGLES: u32 = 0x0004;

pub const TEXTURE_2D: u32 = 0x0DE1;

pub const UNSIGNED_BYTE: u32 = 0x1401;

pub const UNSIGNED_SHORT: u32 = 0x1403;

pub const UNSIGNED_INT: u32 = 0x1405;

pub const FLOAT: u32 = 0x1406;

pub const RED: u32 = 0x1903;

pub const RGB: u32 = 0x1907;

pub const RGBA: u32 = 0x1908;

pub const TEXTURE0: u32 = 0x84C0;

pub const RGBA8: u32 = 0x8058;

pub const SRGB8_ALPHA8: u32 = 0x8C43;

pub const RGBA8_SNORM: u32 = 0x8F97;

pub const ARRAY_BUFFER: u32 = 0x8892;

pub const ELEMENT_ARRAY_BUFFER: u32 = 0x8893;

pub const FRAGMENT_SHADER: u32 = 0x8B30;

pub const VERTEX_SHADER: u32 = 0x8B31;

} // verus!
