//! The decisions of the OpenXR setup and event loops, over plain result
//! codes: which results are failures, how a two-call array query proceeds,
//! what a polled event means for a loop, and whether the runtime accepts the
//! GL version.
use vstd::prelude::*;
use crate::gl_consts::{RGBA8, RGBA8_SNORM, SRGB8_ALPHA8};
use crate::text::{decimal_text, format_decimal_u16, format_decimal_u32};
use crate::xr_errors::{LoopStatus, XrErrorWrapped};
use vstd::arithmetic::div_mod::lemma_fundamental_div_mod_converse;

verus! {

/// `ERROR_SIZE_INSUFFICIENT`: the buffer passed to an array query was too
/// small.
pub open spec fn spec_error_size_insufficient() -> i32 {
    -11i32
}

/// Reads `openxr_sys::Result::ERROR_SIZE_INSUFFICIENT`, which the crate
/// defines as `-11`.
#[verifier::external_body]
pub fn error_size_insufficient() -> (code: i32)
    ensures
        code == spec_error_size_insufficient(),
{
    openxr_sys::Result::ERROR_SIZE_INSUFFICIENT.into_raw()
}

/// Reads `openxr_sys::SessionState::READY`, which the crate defines as `2`.
#[verifier::external_body]
pub fn session_state_ready() -> (state: i32)
    ensures
        state == 2,
{
    openxr_sys::SessionState::READY.into_raw()
}

/// Reads `openxr_sys::SessionState::STOPPING`, which the crate defines as `6`.
#[verifier::external_body]
pub fn session_state_stopping() -> (state: i32)
    ensures
        state == 6,
{
    openxr_sys::SessionState::STOPPING.into_raw()
}

/// OpenXR results are failures when negative: success and the qualified
/// successes are returned as `Ok`, failures as `Err`, the code unchanged.
pub fn cvt(code: i32) -> (r: Result<i32, i32>)
    ensures
        code >= 0 ==> r == Ok::<i32, i32>(code),
        code < 0 ==> r == Err::<i32, i32>(code),
{
    if code >= 0 {
        Ok(code)
    } else {
        Err(code)
    }
}

/// What to do next in an OpenXR two-call array query.
#[derive(PartialEq, Eq, Structural)]
pub enum FetchAction {
    /// Make a buffer of `capacity` elements (growing it from its current
    /// length) and call the getter again with that capacity.
    Fill { capacity: u32 },
    /// Truncate the buffer to `len` elements and return it.
    Finish { len: u32 },
    /// Return this failure code.
    Fail(i32),
}

/// The next step of a two-call array query after the first call, which asks
/// for the element count: a failure ends the query, else a buffer of the
/// reported count is filled.
pub fn fetch_after_count(code: i32, count: u32) -> (r: FetchAction)
    ensures
        code < 0 ==> r == FetchAction::Fail(code),
        code >= 0 ==> r == (FetchAction::Fill { capacity: count }),
{
    match cvt(code) {
        Ok(_) => FetchAction::Fill { capacity: count },
        Err(e) => FetchAction::Fail(e),
    }
}

/// The next step of a two-call array query after a call that was given a
/// buffer: on success the buffer is cut to the count written, a buffer too
/// small is grown to the count the runtime now asks for and the call made
/// again, any other failure ends the query.
pub fn fetch_after_fill(code: i32, count: u32) -> (r: FetchAction)
    ensures
        code >= 0 ==> r == (FetchAction::Finish { len: count }),
        code == spec_error_size_insufficient() ==> r == (FetchAction::Fill { capacity: count }),
        code < 0 && code != spec_error_size_insufficient() ==> r == FetchAction::Fail(code),
{
    match cvt(code) {
        Ok(_) => FetchAction::Finish { len: count },
        Err(e) => {
            if e == error_size_insufficient() {
                FetchAction::Fill { capacity: count }
            } else {
                FetchAction::Fail(e)
            }
        },
    }
}

/// What one poll of the OpenXR event queue gave.
pub enum XrPoll {
    /// No event was waiting.
    NoEvent,
    /// The session changed to the state with this code.
    SessionStateChanged(i32),
    /// Some other event.
    OtherEvent,
    /// Polling failed with this result code.
    Failed(i32),
}

/// The next step of waiting for the session to become ready.
#[derive(PartialEq, Eq, Structural)]
pub enum ReadyWait {
    /// Poll again.
    KeepPolling,
    /// The session is ready.
    Ready,
    /// Give up with this result code.
    Failed(i32),
}

/// Waiting for readiness: the session becoming `READY` ends the wait, a
/// failed poll ends it with the failure, anything else means polling again.
pub fn await_ready_step(poll: XrPoll) -> (r: ReadyWait)
    ensures
        match poll {
            XrPoll::SessionStateChanged(s) => r == (if s == 2 {
                ReadyWait::Ready
            } else {
                ReadyWait::KeepPolling
            }),
            XrPoll::Failed(c) => r == ReadyWait::Failed(c),
            _ => r == ReadyWait::KeepPolling,
        },
{
    match poll {
        XrPoll::NoEvent => ReadyWait::KeepPolling,
        XrPoll::SessionStateChanged(s) => {
            if s == session_state_ready() {
                ReadyWait::Ready
            } else {
                ReadyWait::KeepPolling
            }
        },
        XrPoll::OtherEvent => ReadyWait::KeepPolling,
        XrPoll::Failed(c) => ReadyWait::Failed(c),
    }
}

/// The next step of emptying the event queue once per frame.
#[derive(PartialEq, Eq, Structural)]
pub enum EventDrain {
    /// Poll again.
    KeepPolling,
    /// Stop polling and report this status.
    Done(LoopStatus),
    /// Stop polling and report this result code.
    Failed(i32),
}

/// Emptying the event queue: the session `STOPPING` asks the loop to stop,
/// an empty queue lets it carry on, a failed poll is reported, and any other
/// event is skipped.
pub fn drain_events_step(poll: XrPoll) -> (r: EventDrain)
    ensures
        match poll {
            XrPoll::SessionStateChanged(s) => r == (if s == 6 {
                EventDrain::Done(LoopStatus::PleaseStop)
            } else {
                EventDrain::KeepPolling
            }),
            XrPoll::NoEvent => r == EventDrain::Done(LoopStatus::Groovy),
            XrPoll::Failed(c) => r == EventDrain::Failed(c),
            XrPoll::OtherEvent => r == EventDrain::KeepPolling,
        },
{
    match poll {
        XrPoll::SessionStateChanged(s) => {
            if s == session_state_stopping() {
                EventDrain::Done(LoopStatus::PleaseStop)
            } else {
                EventDrain::KeepPolling
            }
        },
        XrPoll::NoEvent => EventDrain::Done(LoopStatus::Groovy),
        XrPoll::Failed(c) => EventDrain::Failed(c),
        XrPoll::OtherEvent => EventDrain::KeepPolling,
    }
}

/// The packed form of an OpenXR version: major in the top 16 bits, minor in
/// the next 16, patch in the low 32.
pub open spec fn version_raw(major: u16, minor: u16, patch: u32) -> int {
    major * 0x1_0000_0000_0000 + minor * 0x1_0000_0000 + patch
}

/// Packs a version with `openxr_sys::Version::new`, which shifts the major
/// number by 48 bits and the minor by 32 and ors them with the patch.
#[verifier::external_body]
pub fn xr_version(major: u16, minor: u16, patch: u32) -> (raw: u64)
    ensures
        raw == version_raw(major, minor, patch),
{
    openxr_sys::Version::new(major, minor, patch).into_raw()
}

/// How a packed version reads: `major.minor.patch`.
pub open spec fn version_text(raw: u64) -> Seq<char> {
    decimal_text((raw / 0x1_0000_0000_0000) as int) + "."@ + decimal_text(
        ((raw / 0x1_0000_0000) % 0x1_0000) as int,
    ) + "."@ + decimal_text((raw % 0x1_0000_0000) as int)
}

/// Reads the parts of a packed version with `openxr_sys::Version`'s
/// `major`, `minor` and `patch`, which shift and truncate the packed value.
#[verifier::external_body]
fn xr_version_parts(raw: u64) -> (parts: (u16, u16, u32))
    ensures
        parts.0 == raw / 0x1_0000_0000_0000,
        parts.1 == (raw / 0x1_0000_0000) % 0x1_0000,
        parts.2 == raw % 0x1_0000_0000,
{
    let v = openxr_sys::Version::from_raw(raw);
    (v.major(), v.minor(), v.patch())
}

/// Writes a packed version as `major.minor.patch`, as its `Display` does.
pub fn version_to_string(raw: u64) -> (r: String)
    ensures
        r@ == version_text(raw),
{
    let (major, minor, patch) = xr_version_parts(raw);
    let mut s = format_decimal_u16(major);
    s.append(".");
    s.append(format_decimal_u16(minor).as_str());
    s.append(".");
    s.append(format_decimal_u32(patch).as_str());
    proof {
        reveal_strlit(".");
    }
    s
}

/// The GL version a runtime is asked to accept: the context's major and
/// minor numbers, each cut to 16 bits, with patch 0.
pub open spec fn gl_version_raw(gl_major: i32, gl_minor: i32) -> int {
    version_raw(gl_major as u16, gl_minor as u16, 0)
}

/// The message for a runtime that needs a newer GL than the context has.
pub open spec fn version_refusal_text(min_supported: u64, gl_version: u64) -> Seq<char> {
    "OpenXR runtime doesn't support the OpenGL version "@ + version_text(min_supported) + " > "@
        + version_text(gl_version)
}

/// Checks the GL context's version against the lowest version the runtime
/// supports (`min_supported`, packed): an error when the runtime's minimum
/// is above the context's version.
pub fn check_version_requirements(min_supported: u64, gl_major: i32, gl_minor: i32) -> (r: Result<
    (),
    XrErrorWrapped,
>)
    ensures
        r is Ok <==> min_supported <= gl_version_raw(gl_major, gl_minor),
        r matches Err(e) ==> e.spec_xr_err() is None && e.detail@ == version_refusal_text(
            min_supported,
            gl_version_raw(gl_major, gl_minor) as u64,
        ),
{
    let gl_version = xr_version(gl_major as u16, gl_minor as u16, 0);
    if min_supported > gl_version {
        let mut s = String::from_str("OpenXR runtime doesn't support the OpenGL version ");
        s.append(version_to_string(min_supported).as_str());
        s.append(" > ");
        s.append(version_to_string(gl_version).as_str());
        proof {
            reveal_strlit("OpenXR runtime doesn't support the OpenGL version ");
            reveal_strlit(" > ");
        }
        return Err(XrErrorWrapped::simple(s));
    }
    Ok(())
}

/// A version of the runtime check is passed by every later GL version: the
/// packed order is the order of (major, minor).
pub proof fn lemma_version_check_monotonic(
    min_supported: u64,
    major1: u16,
    minor1: u16,
    major2: u16,
    minor2: u16,
)
    requires
        major1 < major2 || (major1 == major2 && minor1 <= minor2),
        min_supported <= version_raw(major1, minor1, 0),
    ensures
        min_supported <= version_raw(major2, minor2, 0),
{
    if major1 < major2 {
        assert(major1 * 0x1_0000_0000_0000 + minor1 * 0x1_0000_0000 < major2 * 0x1_0000_0000_0000)
            by (nonlinear_arith)
            requires
                major1 < major2,
                minor1 < 0x1_0000,
        ;
    }
}

/// Packing a version keeps its parts apart: they can be read back, and the
/// packed version reads `major.minor.patch`.
pub proof fn lemma_version_round_trip(major: u16, minor: u16, patch: u32)
    ensures
        version_raw(major, minor, patch) <= u64::MAX,
        version_raw(major, minor, patch) / 0x1_0000_0000_0000 == major,
        (version_raw(major, minor, patch) / 0x1_0000_0000) % 0x1_0000 == minor,
        version_raw(major, minor, patch) % 0x1_0000_0000 == patch,
        version_text(version_raw(major, minor, patch) as u64) == decimal_text(major as int) + "."@
            + decimal_text(minor as int) + "."@ + decimal_text(patch as int),
{
    let v = version_raw(major, minor, patch);
    let low: int = minor * 0x1_0000_0000 + patch;
    assert(0 <= low < 0x1_0000_0000_0000) by (nonlinear_arith)
        requires
            low == minor * 0x1_0000_0000 + patch,
            0 <= minor < 0x1_0000,
            0 <= patch < 0x1_0000_0000,
    ;
    assert(v <= u64::MAX) by (nonlinear_arith)
        requires
            v == major * 0x1_0000_0000_0000 + low,
            0 <= major < 0x1_0000,
            0 <= low < 0x1_0000_0000_0000,
    ;
    lemma_fundamental_div_mod_converse(v, 0x1_0000_0000_0000, major as int, low);
    let q: int = major * 0x1_0000 + minor;
    assert(v == q * 0x1_0000_0000 + patch) by (nonlinear_arith)
        requires
            v == major * 0x1_0000_0000_0000 + minor * 0x1_0000_0000 + patch,
            q == major * 0x1_0000 + minor,
    ;
    lemma_fundamental_div_mod_converse(v, 0x1_0000_0000, q, patch as int);
    lemma_fundamental_div_mod_converse(q, 0x1_0000, major as int, minor as int);
}

/// Whether a swapchain can use the GL internal format `fmt` with a context
/// of GL major version `gl_major`: 8-bit RGBA, signed-normalized RGBA, and
/// sRGB with alpha from GL 3 on.
pub open spec fn acceptable_swapchain_format(fmt: u32, gl_major: i32) -> bool {
    fmt == RGBA8 || fmt == RGBA8_SNORM || (fmt == SRGB8_ALPHA8 && gl_major >= 3)
}

/// 8-bit RGBA and signed-normalized RGBA suit a context of any GL version,
/// and what suits a context keeps suiting every later GL major version.
pub proof fn lemma_swapchain_acceptance_grows(fmt: u32, major: i32, later_major: i32)
    requires
        major <= later_major,
    ensures
        acceptable_swapchain_format(RGBA8, major),
        acceptable_swapchain_format(RGBA8_SNORM, major),
        acceptable_swapchain_format(fmt, major) ==> acceptable_swapchain_format(fmt, later_major),
        acceptable_swapchain_format(SRGB8_ALPHA8, later_major) || later_major < 3,
{
}

/// Whether a swapchain can use the GL internal format `fmt`.
pub fn is_acceptable_swapchain_format(fmt: u32, gl_major: i32) -> (r: bool)
    ensures
        r == acceptable_swapchain_format(fmt, gl_major),
        fmt == RGBA8 || fmt == RGBA8_SNORM ==> r,
        fmt == SRGB8_ALPHA8 ==> (r <==> gl_major >= 3),
        fmt != RGBA8 && fmt != RGBA8_SNORM && fmt != SRGB8_ALPHA8 ==> !r,
{
    fmt == RGBA8 || fmt == RGBA8_SNORM || (fmt == SRGB8_ALPHA8 && gl_major >= 3)
}

/// The message when the runtime offers no usable swapchain format.
pub open spec fn no_swapchain_format_text() -> Seq<char> {
    "failed to find a supported swapchain format"@
}

/// Picks the first format, in the runtime's order of preference, that the
/// graphics binding accepts, given whether each one is accepted: its index,
/// or an error when none is.
pub fn first_accepted_format(accepted: &[bool]) -> (r: Result<usize, XrErrorWrapped>)
    ensures
        match r {
            Ok(k) => k < accepted.len() && accepted@[k as int] && forall|j: int|
                0 <= j < k ==> !#[trigger] accepted@[j],
            Err(e) => (forall|j: int| 0 <= j < accepted.len() ==> !#[trigger] accepted@[j])
                && e.spec_xr_err() is None && e.detail@ == no_swapchain_format_text(),
        },
{
    let mut i: usize = 0;
    while i < accepted.len()
        invariant
            i <= accepted.len(),
            forall|j: int| 0 <= j < i ==> !#[trigger] accepted@[j],
        decreases accepted.len() - i,
    {
        if accepted[i] {
            return Ok(i);
        }
        i = i + 1;
    }
    proof {
        reveal_strlit("failed to find a supported swapchain format");
    }
    Err(XrErrorWrapped::simple(String::from_str("failed to find a supported swapchain format")))
}

/// The text of the buffer that `xrResultToString` filled: empty when the
/// call failed (its first byte is then cleared), else the bytes before the
/// first zero byte; `None` when the buffer holds no zero byte at all.
pub open spec fn result_string_text(call_succeeded: bool, buffer: Seq<u8>) -> Option<Seq<u8>> {
    if !call_succeeded && buffer.len() > 0 {
        Some(Seq::empty())
    } else if exists|k: int| 0 <= k < buffer.len() && buffer[k] == 0 {
        let k = choose|k: int| 0 <= k < buffer.len() && buffer[k] == 0 && forall|j: int| 0 <= j < k ==> buffer[j] != 0;
        Some(buffer.take(k))
    } else {
        None
    }
}

/// Reads the C string that `xrResultToString` wrote into `buffer`, as the
/// error description does: a failed call counts as an empty string, a
/// buffer without terminating zero has no string.
pub fn result_string_bytes(call_succeeded: bool, buffer: &[u8]) -> (r: Option<Vec<u8>>)
    ensures
        match r {
            Some(v) => result_string_text(call_succeeded, buffer@) == Some(v@),
            None => result_string_text(call_succeeded, buffer@) is None,
        },
{
    if !call_succeeded && buffer.len() > 0 {
        return Some(Vec::new());
    }
    let mut out: Vec<u8> = Vec::new();
    let mut i: usize = 0;
    while i < buffer.len()
        invariant
            i <= buffer.len(),
            out@ == buffer@.take(i as int),
            forall|j: int| 0 <= j < i ==> buffer@[j] != 0,
            call_succeeded || buffer.len() == 0,
        decreases buffer.len() - i,
    {
        if buffer[i] == 0 {
            proof {
                let b = buffer@;
                assert(0 <= i < b.len() && b[i as int] == 0);
                let k = choose|k: int|
                    0 <= k < b.len() && b[k] == 0 && forall|j: int| 0 <= j < k ==> b[j] != 0;
                assert(0 <= k < b.len() && b[k] == 0 && forall|j: int| 0 <= j < k ==> b[j] != 0);
                if k < i {
                    assert(b[k] != 0);
                }
                if k > i {
                    assert(b[i as int] != 0);
                }
                assert(k == i);
            }
            return Some(out);
        }
        out.push(buffer[i]);
        i = i + 1;
        assert(out@ =~= buffer@.take(i as int));
    }
    None
}

/// The outcome of painting all views of a frame, given the failures met
/// along the way in order: the first of them, or success.
pub fn first_malfunction<E>(malfunctions: Vec<E>) -> (r: Result<(), E>)
    ensures
        malfunctions.len() == 0 ==> r is Ok,
        malfunctions.len() > 0 ==> r == Err::<(), E>(malfunctions@[0]),
{
    let mut malfunctions = malfunctions;
    if malfunctions.len() == 0 {
        Ok(())
    } else {
        Err(malfunctions.remove(0))
    }
}

/// The OpenGL ES graphics binding of an OpenXR session on Android, whose
/// swapchain formats are GL internal-format enumerants.
pub struct AndroidOpenGLES {}

impl AndroidOpenGLES {
    /// Swapchain formats are taken as they come from the runtime.
    pub fn raise_format(format: i64) -> (r: i64)
        ensures
            r == format,
    {
        format
    }

    /// Swapchain formats are given to the runtime as they are.
    pub fn lower_format(format: i64) -> (r: i64)
        ensures
            r == format,
    {
        format
    }
}

} // verus!
