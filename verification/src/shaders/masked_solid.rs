//! GLSL of the shader that mixes a foreground and a background colour through the red channel of a mask texture.
use vstd::prelude::*;

verus! {

/// Passes the texture coordinate through and transforms the position by `u_matrix`.
pub const VERTEX_SOURCE: &'static str = "
attribute vec4 a_position;
attribute vec2 a_texCoord;

varying vec2 v_texCoord;

uniform mat4 u_matrix;

void main()
{
    gl_Position = u_matrix * a_position;
    v_texCoord = a_texCoord;
}
";

/// Mixes `color_bg` and `color_fg` by the red channel of `tex`. The doubled braces are part of the text.
pub const FRAGMENT_SOURCE: &'static str = "#ifdef GL_ES
precision highp float;
#endif
varying vec2 v_texCoord;
uniform sampler2D tex;
uniform vec4 color_fg;
uniform vec4 color_bg;
void main()
{{
    float alpha = texture2D(tex, v_texCoord).r;
    gl_FragColor = mix(color_bg, color_fg, alpha);
}}";

/// The vertex shader's GLSL source.
pub fn shader_v_src() -> (s: &'static str)
    ensures
        s@ == VERTEX_SOURCE@,
{
    VERTEX_SOURCE
}

/// The fragment shader's GLSL source.
pub fn shader_f_src() -> (s: &'static str)
    ensures
        s@ == FRAGMENT_SOURCE@,
{
    FRAGMENT_SOURCE
}

} // verus!
