//! GLSL of the sun-lit shader that takes separate projection, view and model matrices.
use vstd::prelude::*;

verus! {

/// Transforms the position by projection, view and model, and the normal by the model.
pub const VERTEX_SOURCE: &'static str = "
attribute vec4 a_position;
attribute vec3 a_normal;

varying vec3 v_normal;

uniform mat4 u_model;
uniform mat4 u_view;
uniform mat4 u_projection;

void main()
{
    mat4 pvm = u_projection * u_view * u_model;
    gl_Position = pvm * a_position;
    v_normal = mat3(u_model) * a_normal;
}
";

/// Lights `color` by the angle between the normal and `sun_direction`, plus an ambient term. The doubled braces are part of the text.
pub const FRAGMENT_SOURCE: &'static str = "#ifdef GL_ES
precision highp float;
#endif
varying vec3 v_normal;
uniform vec3 sun_direction;
uniform vec3 color;
void main()
{{
    vec3 N = normalize(v_normal);
    vec3 SD = normalize(sun_direction);
    float ambient=0.1;

    float lum = ambient+max(0.0, dot(N,SD));
    gl_FragColor = vec4(color*lum, 1.0);
}}";

/// The vertex shader's GLSL source.
pub fn shader_v_src() -> (s: &'static str)
    ensures
        s@ == VERTEX_SOURCE@,
{
    VERTEX_SOURCE
}

/// The fragment shader's GLSL source.
pub fn shader_f_src() -> (s: &'static str)
    ensures
        s@ == FRAGMENT_SOURCE@,
{
    FRAGMENT_SOURCE
}

} // verus!
