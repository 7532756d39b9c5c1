use gl_thin::shaders::{flat_color, masked_solid, raw_texture, sun_phong, sun_phong_mvp};

fn expected_raw_texture_fragment(texture_target: u32) -> String {
    let (extension_directive, sampler_type) = if texture_target != gl::TEXTURE_2D {
        (
            "#extension GL_OES_EGL_image_external : require\n",
            "samplerExternalOES",
        )
    } else {
        ("", "sampler2D")
    };
    format!(
        "{}
#ifdef GL_ES
precision highp float;
#endif
varying vec2 v_texcoord;
uniform {} tex;
void main()
{{
    gl_FragColor = texture2D(tex, v_texcoord);
}}",
        extension_directive, sampler_type
    )
}

#[test]
fn masked_solid_shader_sources() {
    assert_eq!(masked_solid::shader_v_src(), "
attribute vec4 a_position;
attribute vec2 a_texCoord;

varying vec2 v_texCoord;

uniform mat4 u_matrix;

void main()
{
    gl_Position = u_matrix * a_position;
    v_texCoord = a_texCoord;
}
");
    assert_eq!(masked_solid::shader_f_src(), "#ifdef GL_ES
precision highp float;
#endif
varying vec2 v_texCoord;
uniform sampler2D tex;
uniform vec4 color_fg;
uniform vec4 color_bg;
void main()
{{
    float alpha = texture2D(tex, v_texCoord).r;
    gl_FragColor = mix(color_bg, color_fg, alpha);
}}");
}

#[test]
fn sun_phong_shader_sources() {
    assert_eq!(sun_phong::shader_v_src(), "
attribute vec4 a_position;
attribute vec3 a_normal;

varying vec3 v_normal;

uniform mat4 u_matrix;

void main()
{
    gl_Position = u_matrix * a_position;
    v_normal = mat3(u_matrix) * a_normal;
}
");
    assert_eq!(sun_phong::shader_f_src(), "#ifdef GL_ES
precision highp float;
#endif
varying vec3 v_normal;
uniform vec3 sun_direction;
uniform vec3 color;
void main()
{{
    vec3 N = normalize(v_normal);
    vec3 SD = normalize(sun_direction);
    float ambient=0.1;

    float lum = ambient+max(0.0, dot(N,SD));
    gl_FragColor = vec4(color*lum, 1.0);
}}");
}

#[test]
fn sun_phong_mvp_shader_sources() {
    assert_eq!(sun_phong_mvp::shader_v_src(), "
attribute vec4 a_position;
attribute vec3 a_normal;

varying vec3 v_normal;

uniform mat4 u_model;
uniform mat4 u_view;
uniform mat4 u_projection;

void main()
{
    mat4 pvm = u_projection * u_view * u_model;
    gl_Position = pvm * a_position;
    v_normal = mat3(u_model) * a_normal;
}
");
    assert_eq!(sun_phong_mvp::shader_f_src(), "#ifdef GL_ES
precision highp float;
#endif
varying vec3 v_normal;
uniform vec3 sun_direction;
uniform vec3 color;
void main()
{{
    vec3 N = normalize(v_normal);
    vec3 SD = normalize(sun_direction);
    float ambient=0.1;

    float lum = ambient+max(0.0, dot(N,SD));
    gl_FragColor = vec4(color*lum, 1.0);
}}");
}

#[test]
fn flat_color_shader_sources() {
    assert_eq!(flat_color::VERTEX_SHADER, "
uniform mat4 matrix;

attribute vec3 position;
attribute vec3 color;

varying vec3 vColor;

void main() {
    gl_Position = matrix * vec4(position, 1.0) ;
    vColor = color;
}
            ");
    assert_eq!(flat_color::FRAGMENT_SHADER, "
varying vec3 vColor;

void main() {
    gl_FragColor = vec4(vColor, 1.0);
}
            ");
}

#[test]
fn raw_texture_vertex_source() {
    assert_eq!(raw_texture::shader_v_src(), "
attribute vec4 a_position;
attribute vec2 a_texcoord;
varying vec2 v_texcoord;
uniform mat4 u_matrix;
void main()
{
    gl_Position = u_matrix * a_position;
    v_texcoord = a_texcoord;
}
");
}

#[test]
fn raw_texture_fragment_for_2d_textures() {
    let s = raw_texture::shader_f_src(gl::TEXTURE_2D);
    assert_eq!(s, expected_raw_texture_fragment(gl::TEXTURE_2D));
    assert!(s.contains("uniform sampler2D tex;"));
    assert!(!s.contains("#extension"));
}

#[test]
fn raw_texture_fragment_for_external_textures() {
    let external_oes = 0x8D65;
    let s = raw_texture::shader_f_src(external_oes);
    assert_eq!(s, expected_raw_texture_fragment(external_oes));
    assert!(s.starts_with("#extension GL_OES_EGL_image_external : require\n"));
    assert!(s.contains("uniform samplerExternalOES tex;"));
    assert!(s.ends_with("}"));
    assert!(!s.contains("{{"));
}

#[test]
fn masked_and_sun_fragment_sources_keep_doubled_braces() {
    assert!(masked_solid::shader_f_src().contains("{{"));
    assert!(sun_phong::shader_f_src().ends_with("}}"));
}
