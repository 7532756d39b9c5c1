use gl_thin::gl_consts;
use gl_thin::gl_errors::{last_gl_error, GLErrorWrapper, GlErrorDrain, MessageForError};
use gl_thin::gl_program::{from_glchar_to_u8, uniform_location_result};
use gl_thin::ownership::{BufferOwnership, Ownership};
use gl_thin::pixels::{bytes_per_pixel, check_pixel_data_len};
use gl_thin::vertex_layout::{
    attribute_layout, attribute_pointer, buffer_byte_count, gl_offset_for, ActiveTextureUnit,
    ArrayBufferType, AttribPointer, BufferTarget, ElementArrayBufferType, FragmentShader,
    GPUState, ShaderFlavor, VertexShader,
};

fn ok<T, E>(r: Result<T, E>) -> T {
    match r {
        Ok(v) => v,
        Err(_) => panic!("expected success"),
    }
}

fn str_message(e: &GLErrorWrapper) -> String {
    match &e.message {
        MessageForError::Str(s) => s.clone(),
        _ => panic!("expected a string message"),
    }
}

fn cstr_message(e: &GLErrorWrapper) -> Vec<u8> {
    match &e.message {
        MessageForError::CStr(s) => s.clone(),
        _ => panic!("expected a C string message"),
    }
}

#[test]
fn gl_constants_match_the_gl_crate() {
    assert_eq!(gl_consts::NO_ERROR, gl::NO_ERROR);
    assert_eq!(gl_consts::TRIANGLES, gl::TRIANGLES);
    assert_eq!(gl_consts::TEXTURE_2D, gl::TEXTURE_2D);
    assert_eq!(gl_consts::UNSIGNED_BYTE, gl::UNSIGNED_BYTE);
    assert_eq!(gl_consts::UNSIGNED_SHORT, gl::UNSIGNED_SHORT);
    assert_eq!(gl_consts::UNSIGNED_INT, gl::UNSIGNED_INT);
    assert_eq!(gl_consts::FLOAT, gl::FLOAT);
    assert_eq!(gl_consts::RED, gl::RED);
    assert_eq!(gl_consts::RGB, gl::RGB);
    assert_eq!(gl_consts::RGBA, gl::RGBA);
    assert_eq!(gl_consts::TEXTURE0, gl::TEXTURE0);
    assert_eq!(gl_consts::ARRAY_BUFFER, gl::ARRAY_BUFFER);
    assert_eq!(gl_consts::ELEMENT_ARRAY_BUFFER, gl::ELEMENT_ARRAY_BUFFER);
    assert_eq!(gl_consts::FRAGMENT_SHADER, gl::FRAGMENT_SHADER);
    assert_eq!(gl_consts::VERTEX_SHADER, gl::VERTEX_SHADER);
}

#[test]
fn buffer_targets_and_shader_flavors() {
    assert_eq!(ArrayBufferType::TARGET, gl::ARRAY_BUFFER);
    assert_eq!(ElementArrayBufferType::TARGET, gl::ELEMENT_ARRAY_BUFFER);
    assert_eq!(VertexShader::FLAVOR, gl::VERTEX_SHADER);
    assert_eq!(FragmentShader::FLAVOR, gl::FRAGMENT_SHADER);
}

#[test]
fn ownership_unwrap_gives_the_handle() {
    assert_eq!(*Ownership::Owned(7u32).unwrap(), 7);
    assert_eq!(*Ownership::Borrowed(9u32).unwrap(), 9);
}

#[test]
fn only_owned_handles_are_released() {
    assert_eq!(Ownership::Owned(7u32).handle_to_release(), Some(&7u32));
    assert_eq!(Ownership::Borrowed(7u32).handle_to_release(), None);
    assert_eq!(Ownership::<u32>::Empty.handle_to_release(), None);
}

#[test]
fn buffer_ownership_as_slice() {
    let data = [1u16, 2, 3];
    let borrowed = BufferOwnership::from(&data[..]);
    assert_eq!(borrowed.as_slice(), &[1u16, 2, 3]);
    let owned: BufferOwnership<'_, u8> = BufferOwnership::from(vec![4u8, 5]);
    assert_eq!(owned.as_slice(), &[4u8, 5]);
    let empty_vec: BufferOwnership<'_, u8> = BufferOwnership::from(vec![]);
    assert_eq!(empty_vec.as_slice().len(), 0);
    let array = [7u32, 8, 9, 10];
    let from_array = BufferOwnership::from(&array);
    assert_eq!(from_array.as_slice(), &[7u32, 8, 9, 10]);
    assert!(matches!(from_array, BufferOwnership::Reference(_)));
    assert!(matches!(owned, BufferOwnership::Owned(_)));
}

#[test]
fn gl_error_constructors() {
    let e = GLErrorWrapper::new(0x500);
    assert_eq!(e.code, 0x500);
    assert!(matches!(e.message, MessageForError::Empty));
    let e = GLErrorWrapper::with_message(b"bad shader".to_vec());
    assert_eq!(e.code, 0);
    assert_eq!(cstr_message(&e), b"bad shader".to_vec());
    let e = GLErrorWrapper::with_message2("oops".to_string());
    assert_eq!(e.code, 0);
    assert_eq!(str_message(&e), "oops");
}

#[test]
fn drain_reports_last_error_before_no_error() {
    assert!(last_gl_error(&[0]).is_ok());
    assert!(last_gl_error(&[]).is_ok());
    let e = last_gl_error(&[0x500, 0x502, 0, 0x501]).unwrap_err();
    assert_eq!(e.code, 0x502);
    assert!(matches!(e.message, MessageForError::Empty));
    assert_eq!(last_gl_error(&[0x505]).unwrap_err().code, 0x505);
    assert!(last_gl_error(&[0, 0x500]).is_ok());
}

#[test]
fn drain_state_machine_steps() {
    let mut d = GlErrorDrain::new();
    assert!(d.observe(0x500));
    assert!(d.observe(0x506));
    assert!(!d.observe(gl::NO_ERROR));
    assert!(d.finished);
    assert_eq!(d.last_error, Some(0x506));
    assert_eq!(d.outcome().unwrap_err().code, 0x506);

    let mut clean = GlErrorDrain::new();
    assert!(!clean.observe(0));
    assert!(clean.outcome().is_ok());
}

#[test]
fn bytes_per_pixel_by_format() {
    assert_eq!(ok(bytes_per_pixel(gl::RGB, 1)), 3);
    assert_eq!(ok(bytes_per_pixel(gl::RED, 2)), 2);
    assert_eq!(ok(bytes_per_pixel(gl::RGBA, 4)), 16);
    let e = bytes_per_pixel(0x1234, 1).unwrap_err();
    assert_eq!(e.code, 0);
    assert_eq!(str_message(&e), "unhandled format 0x1234");
    let e = bytes_per_pixel(gl::DEPTH_COMPONENT, 4).unwrap_err();
    assert_eq!(str_message(&e), "unhandled format 0x1902");
}

#[test]
fn pixel_data_length_check() {
    assert!(check_pixel_data_len(2, 3, gl::RGB, 1, 18).is_ok());
    let e = check_pixel_data_len(2, 3, gl::RGB, 1, 17).unwrap_err();
    assert_eq!(str_message(&e), "size mismatch : 2*3*3 != 17");
    let e = check_pixel_data_len(256, 64, gl::RGBA, 1, 3).unwrap_err();
    assert_eq!(str_message(&e), "size mismatch : 256*64*4 != 3");
    let e = check_pixel_data_len(2, 2, 0x8000, 1, 4).unwrap_err();
    assert_eq!(str_message(&e), "unhandled format 0x8000");
    assert!(check_pixel_data_len(0, 5, gl::RED, 1, 0).is_ok());
}

#[test]
fn texture_units_and_gpu_state() {
    assert_eq!(ActiveTextureUnit(0).gl_arg(), gl::TEXTURE0);
    assert_eq!(ActiveTextureUnit(3).gl_arg(), gl::TEXTURE3);
    let mut state = GPUState::new();
    assert_eq!(state.active_texture_unit().0, 0);
    assert_eq!(state.set_active_texture(ActiveTextureUnit(2)), gl::TEXTURE2);
    assert_eq!(state.active_texture_unit().0, 2);
}

#[test]
fn byte_sizes_of_vertex_data() {
    assert_eq!(buffer_byte_count(15, 4), 60);
    assert_eq!(buffer_byte_count(0, 4), 0);
    assert_eq!(gl_offset_for(3, 4), 12);
    assert_eq!(gl_offset_for(0, 2), 0);
}

#[test]
fn attribute_layout_of_xyzuv_vertices() {
    let plan = attribute_layout(5, 4, &[(7, 3, 0), (9, 2, 3)]);
    assert_eq!(plan.len(), 2);
    assert!(
        plan[0]
            == AttribPointer {
                location: 7,
                width: 3,
                stride_bytes: 20,
                offset_bytes: 0
            }
    );
    assert!(
        plan[1]
            == AttribPointer {
                location: 9,
                width: 2,
                stride_bytes: 20,
                offset_bytes: 12
            }
    );
    let one = attribute_pointer(1, 3, 6, 3, 4);
    assert_eq!((one.stride_bytes, one.offset_bytes), (24, 12));
    assert!(attribute_layout(5, 4, &[]).is_empty());
}

#[test]
fn glchar_bytes() {
    assert_eq!(from_glchar_to_u8(vec![65, -1, 0, -128]), vec![65u8, 255, 0, 128]);
    assert!(from_glchar_to_u8(vec![]).is_empty());
}

#[test]
fn uniform_location_interpretation() {
    assert_eq!(ok(uniform_location_result(4, "tex")), 4);
    assert_eq!(ok(uniform_location_result(0, "u_matrix")), 0);
    let e = uniform_location_result(-1, "color_fg").unwrap_err();
    assert_eq!(e.code, 0);
    assert_eq!(cstr_message(&e), b"no attribute named color_fg".to_vec());
}
