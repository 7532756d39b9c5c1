//! GLSL of the shader that paints each vertex its own colour.
use vstd::prelude::*;

verus! {

/// Transforms the position by `matrix` and passes the vertex colour through.
pub const VERTEX_SHADER: &'static str = "
uniform mat4 matrix;

attribute vec3 position;
attribute vec3 color;

varying vec3 vColor;

void main() {
    gl_Position = matrix * vec4(position, 1.0) ;
    vColor = color;
}
            ";

/// Paints the interpolated vertex colour, opaque.
pub const FRAGMENT_SHADER: &'static str = "
varying vec3 vColor;

void main() {
    gl_FragColor = vec4(vColor, 1.0);
}
            ";

} // verus!
