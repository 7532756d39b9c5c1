//! The plain-value steps of querying a linked GL program.
use vstd::prelude::*;
use vstd::utf8::encode_utf8;
use crate::gl_errors::{GLErrorWrapper, MessageForError, is_c_string_content};

verus! {

/// The bytes of a GL info log, whose characters GL hands out as C `char`s.
pub fn from_glchar_to_u8(src: Vec<i8>) -> (r: Vec<u8>)
    ensures
        r.len() == src.len(),
        forall|i: int| 0 <= i < src.len() ==> #[trigger] r@[i] == src@[i] as u8,
{
    let mut r: Vec<u8> = Vec::with_capacity(src.len());
    let mut i: usize = 0;
    while i < src.len()
        invariant
            i <= src.len(),
            r.len() == i,
            forall|j: int| 0 <= j < i ==> #[trigger] r@[j] == src@[j] as u8,
        decreases src.len() - i,
    {
        r.push(src[i] as u8);
        i = i + 1;
    }
    r
}

/// The UTF-8 bytes of the message for a uniform that the program lacks.
pub open spec fn missing_uniform_message(name: Seq<char>) -> Seq<u8> {
    encode_utf8("no attribute named "@ + name)
}

/// Interprets what `glGetUniformLocation` returned for `name`: a negative
/// location means the program has no such uniform, which is an error whose
/// message names it; otherwise the location is returned unsigned.
pub fn uniform_location_result(raw: i32, name: &str) -> (r: Result<u32, GLErrorWrapper>)
    requires
        raw < 0 ==> is_c_string_content(missing_uniform_message(name@)),
    ensures
        raw >= 0 ==> r == Ok::<u32, GLErrorWrapper>(raw as u32),
        raw < 0 ==> r is Err,
        r matches Err(e) ==> e.code == 0 && (e.message matches MessageForError::CStr(m)
            && m@ == missing_uniform_message(name@)),
{
    if raw < 0 {
        let mut s = String::from_str("no attribute named ");
        s.append(name);
        proof {
            reveal_strlit("no attribute named ");
        }
        let bytes = s.as_str().as_bytes_vec();
        return Err(GLErrorWrapper::with_message(bytes));
    }
    Ok(raw as u32)
}

} // verus!
