use gl_thin::xr_errors::{fallback_text, format_xr_result_debug, LoopStatus, XrErrorWrapped};
use gl_thin::xr_protocol::{
    await_ready_step, check_version_requirements, cvt, drain_events_step, error_size_insufficient,
    fetch_after_count, fetch_after_fill, session_state_ready, session_state_stopping,
    version_to_string, xr_version, AndroidOpenGLES, EventDrain, FetchAction, ReadyWait, XrPoll,
};

fn ok<T, E>(r: Result<T, E>) -> T {
    match r {
        Ok(v) => v,
        Err(_) => panic!("expected success"),
    }
}

#[test]
fn xr_error_constructors_and_text() {
    let e = XrErrorWrapped::new("bad handle".to_string(), "failed to begin session".to_string());
    assert_eq!(e.xr_err.as_deref(), Some("bad handle"));
    assert_eq!(e.detail, "failed to begin session");
    assert_eq!(e.describe(), "failed to begin session: bad handle");
    let e = XrErrorWrapped::simple("failed to find a supported swapchain format".to_string());
    assert!(e.xr_err.is_none());
    assert_eq!(e.describe(), "failed to find a supported swapchain format");
}

#[test]
fn xr_error_build_with_and_without_instance() {
    let e = XrErrorWrapped::build(-2, Some("runtime text".to_string()), "failed to poll".to_string());
    assert_eq!(e.xr_err.as_deref(), Some("runtime text"));
    assert_eq!(e.detail, "failed to poll");
    let e = XrErrorWrapped::build(-11, None, "failed to wait".to_string());
    assert_eq!(e.xr_err.as_deref(), Some("OpenXR failed ERROR_SIZE_INSUFFICIENT"));
    assert_eq!(
        e.describe(),
        "failed to wait: OpenXR failed ERROR_SIZE_INSUFFICIENT"
    );
    let original = format!("OpenXR failed {:?}", openxr_sys::Result::ERROR_RUNTIME_FAILURE);
    let e = XrErrorWrapped::build(-2, None, String::new());
    assert_eq!(e.xr_err.unwrap(), original);
}

#[test]
fn xr_result_debug_names() {
    assert_eq!(format_xr_result_debug(0), "SUCCESS");
    assert_eq!(format_xr_result_debug(-1), "ERROR_VALIDATION_FAILURE");
    assert_eq!(format_xr_result_debug(-999_999), "-999999");
}

#[test]
fn loop_status_equality() {
    assert!(LoopStatus::PleaseStop == LoopStatus::PleaseStop);
    assert!(LoopStatus::PleaseStop != LoopStatus::Groovy);
}

#[test]
fn cvt_splits_successes_and_failures() {
    assert_eq!(cvt(0), Ok(0));
    assert_eq!(cvt(4), Ok(4));
    assert_eq!(cvt(-11), Err(-11));
    assert_eq!(cvt(i32::MIN), Err(i32::MIN));
}

#[test]
fn xr_constants_come_from_openxr_sys() {
    assert_eq!(error_size_insufficient(), -11);
    assert_eq!(
        error_size_insufficient(),
        openxr_sys::Result::ERROR_SIZE_INSUFFICIENT.into_raw()
    );
    assert_eq!(session_state_ready(), openxr_sys::SessionState::READY.into_raw());
    assert_eq!(session_state_stopping(), openxr_sys::SessionState::STOPPING.into_raw());
}

#[test]
fn two_call_array_query_steps() {
    assert!(fetch_after_count(0, 3) == FetchAction::Fill { capacity: 3 });
    assert!(fetch_after_count(-1, 3) == FetchAction::Fail(-1));
    assert!(fetch_after_fill(0, 2) == FetchAction::Finish { len: 2 });
    assert!(fetch_after_fill(-11, 5) == FetchAction::Fill { capacity: 5 });
    assert!(fetch_after_fill(-3, 5) == FetchAction::Fail(-3));
    assert!(fetch_after_fill(1, 4) == FetchAction::Finish { len: 4 });
}

#[test]
fn waiting_for_a_ready_session() {
    assert!(await_ready_step(XrPoll::NoEvent) == ReadyWait::KeepPolling);
    assert!(await_ready_step(XrPoll::OtherEvent) == ReadyWait::KeepPolling);
    assert!(await_ready_step(XrPoll::SessionStateChanged(1)) == ReadyWait::KeepPolling);
    assert!(await_ready_step(XrPoll::SessionStateChanged(2)) == ReadyWait::Ready);
    assert!(await_ready_step(XrPoll::Failed(-2)) == ReadyWait::Failed(-2));
}

#[test]
fn draining_events_once_per_frame() {
    assert!(drain_events_step(XrPoll::NoEvent) == EventDrain::Done(LoopStatus::Groovy));
    assert!(
        drain_events_step(XrPoll::SessionStateChanged(6)) == EventDrain::Done(LoopStatus::PleaseStop)
    );
    assert!(drain_events_step(XrPoll::SessionStateChanged(5)) == EventDrain::KeepPolling);
    assert!(drain_events_step(XrPoll::OtherEvent) == EventDrain::KeepPolling);
    assert!(drain_events_step(XrPoll::Failed(-8)) == EventDrain::Failed(-8));
}

#[test]
fn version_packing_matches_openxr_sys() {
    assert_eq!(xr_version(1, 2, 3), 0x0001_0002_0000_0003);
    assert_eq!(
        xr_version(3, 1, 0),
        openxr_sys::Version::new(3, 1, 0).into_raw()
    );
    assert_eq!(version_to_string(xr_version(3, 2, 17)), "3.2.17");
    assert_eq!(
        version_to_string(xr_version(65535, 0, 4_000_000_000)),
        openxr_sys::Version::new(65535, 0, 4_000_000_000).to_string()
    );
}

#[test]
fn version_requirements() {
    let min = xr_version(3, 2, 0);
    assert!(check_version_requirements(min, 3, 2).is_ok());
    assert!(check_version_requirements(min, 3, 3).is_ok());
    assert!(check_version_requirements(min, 4, 0).is_ok());
    let e = check_version_requirements(min, 3, 1).unwrap_err();
    assert!(e.xr_err.is_none());
    assert_eq!(
        e.detail,
        "OpenXR runtime doesn't support the OpenGL version 3.2.0 > 3.1.0"
    );
    // the context's numbers are cut to 16 bits, as `as u16` does
    assert!(check_version_requirements(min, -1, -1).is_ok());
    assert!(check_version_requirements(min, 65536 + 3, 1).is_err());
}

#[test]
fn android_formats_pass_through() {
    assert_eq!(AndroidOpenGLES::raise_format(0x8058), 0x8058);
    assert_eq!(AndroidOpenGLES::lower_format(-5), -5);
}

#[test]
fn fallback_description_names_the_code() {
    assert_eq!(fallback_text("ERROR_HANDLE_INVALID"), "OpenXR failed ERROR_HANDLE_INVALID");
    assert_eq!(fallback_text(""), "OpenXR failed ");
}
