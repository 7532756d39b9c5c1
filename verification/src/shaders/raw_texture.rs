//! GLSL of the shader that paints a texture as it is.
use vstd::prelude::*;
use crate::gl_consts::TEXTURE_2D;

verus! {

/// Passes the texture coordinate through and transforms the position by `u_matrix`.
pub const VERTEX_SOURCE: &'static str = "
attribute vec4 a_position;
attribute vec2 a_texcoord;
varying vec2 v_texcoord;
uniform mat4 u_matrix;
void main()
{
    gl_Position = u_matrix * a_position;
    v_texcoord = a_texcoord;
}
";

/// The line that enables external (camera or video) textures.
pub const EXTERNAL_IMAGE_DIRECTIVE: &'static str = "#extension GL_OES_EGL_image_external : require\n";

/// The fragment source before the sampler type.
pub const FRAGMENT_HEAD: &'static str = "\n#ifdef GL_ES\nprecision highp float;\n#endif\nvarying vec2 v_texcoord;\nuniform ";

/// The fragment source after the sampler type.
pub const FRAGMENT_TAIL: &'static str = " tex;\nvoid main()\n{\n    gl_FragColor = texture2D(tex, v_texcoord);\n}";

/// The vertex shader's GLSL source.
pub fn shader_v_src() -> (s: &'static str)
    ensures
        s@ == VERTEX_SOURCE@,
{
    VERTEX_SOURCE
}

/// The directive line and the sampler type for textures bound at `texture_target`:
/// none and `sampler2D` for `TEXTURE_2D`, the external-image extension and
/// `samplerExternalOES` for any other target.
pub open spec fn fragment_parts(texture_target: u32) -> (Seq<char>, Seq<char>) {
    if texture_target != TEXTURE_2D {
        (EXTERNAL_IMAGE_DIRECTIVE@, "samplerExternalOES"@)
    } else {
        (""@, "sampler2D"@)
    }
}

/// The fragment shader source for textures bound at `texture_target`.
pub open spec fn fragment_source(texture_target: u32) -> Seq<char> {
    let (directive, sampler) = fragment_parts(texture_target);
    directive + FRAGMENT_HEAD@ + sampler + FRAGMENT_TAIL@
}

/// The fragment shader's GLSL source for textures bound at `texture_target`.
pub fn shader_f_src(texture_target: u32) -> (s: String)
    ensures
        s@ == fragment_source(texture_target),
{
    let (extension_directive, sampler_type) = if texture_target != TEXTURE_2D {
        (EXTERNAL_IMAGE_DIRECTIVE, "samplerExternalOES")
    } else {
        ("", "sampler2D")
    };
    let mut s = String::from_str(extension_directive);
    s.append(FRAGMENT_HEAD);
    s.append(sampler_type);
    s.append(FRAGMENT_TAIL);
    s
}

} // verus!
