//! GLSL sources of the library's shaders.
pub mod flat_color;
pub mod masked_solid;
pub mod raw_texture;
pub mod sun_phong;
pub mod sun_phong_mvp;
