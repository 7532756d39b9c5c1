//! Pixel formats and the check of pixel data against a texture's size.
use vstd::prelude::*;
use crate::gl_consts::{RED, RGB, RGBA};
use crate::gl_errors::{GLErrorWrapper, MessageForError};
use crate::text::{
    decimal_text, format_decimal_i32, format_decimal_usize, format_lower_hex_u32, lower_hex_text,
};

verus! {

/// How many components a pixel of `format` has, for the formats handled.
pub open spec fn channel_count(format: u32) -> Option<nat> {
    if format == RGB {
        Some(3)
    } else if format == RED {
        Some(1)
    } else if format == RGBA {
        Some(4)
    } else {
        None
    }
}

/// The message for a pixel format that is not handled.
pub open spec fn unhandled_format_text(format: u32) -> Seq<char> {
    "unhandled format 0x"@ + lower_hex_text(format as nat)
}

/// The message for pixel data whose length does not match the texture.
pub open spec fn size_mismatch_text(width: i32, height: i32, bpp: usize, len: usize) -> Seq<char> {
    "size mismatch : "@ + decimal_text(width as int) + "*"@ + decimal_text(height as int) + "*"@
        + decimal_text(bpp as int) + " != "@ + decimal_text(len as int)
}

/// Whether `r` is an error with code 0 and the string message `text`.
pub open spec fn is_message_error(r: GLErrorWrapper, text: Seq<char>) -> bool {
    &&& r.code == 0
    &&& r.message matches MessageForError::Str(m) && m@ == text
}

/// Bytes per pixel of `format` when each component takes `component_size`
/// bytes; an error for formats other than `RGB`, `RED` and `RGBA`.
pub fn bytes_per_pixel(format: u32, component_size: usize) -> (r: Result<usize, GLErrorWrapper>)
    requires
        component_size <= usize::MAX / 4,
    ensures
        match channel_count(format) {
            Some(n) => r == Ok::<usize, GLErrorWrapper>((n * component_size) as usize),
            None => r matches Err(e) && is_message_error(e, unhandled_format_text(format)),
        },
{
    let alpha: usize = if format == RGB {
        3
    } else if format == RED {
        1
    } else if format == RGBA {
        4
    } else {
        let mut msg = String::from_str("unhandled format 0x");
        let hex = format_lower_hex_u32(format);
        msg.append(hex.as_str());
        proof {
            reveal_strlit("unhandled format 0x");
        }
        return Err(GLErrorWrapper::with_message2(msg));
    };
    Ok(alpha * component_size)
}

/// The bytes that `width` by `height` pixels of `bpp` bytes take, as the
/// size check computes them: the product of the sides taken as `usize`.
pub open spec fn expected_pixel_len(width: i32, height: i32, bpp: usize) -> int {
    ((width * height) as i32 as usize) * bpp
}

/// Whether the size check can compute its product without overflow.
pub open spec fn pixel_check_in_range(width: i32, height: i32, format: u32, component_size: usize) -> bool {
    channel_count(format) is Some ==> {
        let bpp = (channel_count(format).unwrap() * component_size) as usize;
        &&& i32::MIN <= width * height <= i32::MAX
        &&& expected_pixel_len(width, height, bpp) <= usize::MAX
    }
}

/// The pixel data of a texture of non-negative area holds, for each pixel,
/// one component of `component_size` bytes per channel: four channels for
/// RGBA, three for RGB, one for RED.
pub proof fn lemma_pixel_len_counts_components(width: i32, height: i32, component_size: usize)
    requires
        0 <= width * height <= i32::MAX,
        component_size <= usize::MAX / 4,
    ensures
        channel_count(RGBA) == Some(4nat),
        channel_count(RGB) == Some(3nat),
        channel_count(RED) == Some(1nat),
        expected_pixel_len(width, height, (4 * component_size) as usize) == width * height * 4
            * component_size,
        expected_pixel_len(width, height, (3 * component_size) as usize) == width * height * 3
            * component_size,
        expected_pixel_len(width, height, (1 * component_size) as usize) == width * height
            * component_size,
{
    let area: int = width * height;
    assert((width * height) as i32 as usize == area);
    assert(area * (4 * component_size) == area * 4 * component_size) by (nonlinear_arith);
    assert(area * (3 * component_size) == area * 3 * component_size) by (nonlinear_arith);
    assert(area * (1 * component_size) == area * component_size) by (nonlinear_arith);
}

/// Checks that `len` pixel components match a `width` by `height` image of
/// `format`, as writing pixels into a texture requires: the format must be
/// handled, and `len` must equal the pixel count times the bytes per pixel.
pub fn check_pixel_data_len(
    width: i32,
    height: i32,
    format: u32,
    component_size: usize,
    len: usize,
) -> (r: Result<(), GLErrorWrapper>)
    requires
        component_size <= usize::MAX / 4,
        pixel_check_in_range(width, height, format, component_size),
    ensures
        match channel_count(format) {
            None => r matches Err(e) && is_message_error(e, unhandled_format_text(format)),
            Some(n) => {
                let bpp = (n * component_size) as usize;
                if expected_pixel_len(width, height, bpp) != len {
                    r matches Err(e) && is_message_error(e, size_mismatch_text(width, height, bpp, len))
                } else {
                    r is Ok
                }
            },
        },
        0 <= width * height ==> {
            &&& format == RGBA ==> (r is Ok <==> len == width * height * 4 * component_size)
            &&& format == RGB ==> (r is Ok <==> len == width * height * 3 * component_size)
            &&& format == RED ==> (r is Ok <==> len == width * height * component_size)
        },
{
    proof {
        if 0 <= width * height && channel_count(format) is Some {
            lemma_pixel_len_counts_components(width, height, component_size);
        }
    }
    let bpp = match bytes_per_pixel(format, component_size) {
        Ok(b) => b,
        Err(e) => return Err(e),
    };
    let area: i32 = width * height;
    if (area as usize) * bpp != len {
        let mut msg = String::from_str("size mismatch : ");
        msg.append(format_decimal_i32(width).as_str());
        msg.append("*");
        msg.append(format_decimal_i32(height).as_str());
        msg.append("*");
        msg.append(format_decimal_usize(bpp).as_str());
        msg.append(" != ");
        msg.append(format_decimal_usize(len).as_str());
        proof {
            reveal_strlit("size mismatch : ");
            reveal_strlit("*");
            reveal_strlit(" != ");
        }
        return Err(GLErrorWrapper::with_message2(msg));
    }
    Ok(())
}

} // verus!
