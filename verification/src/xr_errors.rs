//! Errors of OpenXR calls, annotated with what the library was doing.
use vstd::prelude::*;

verus! {

/// An OpenXR failure: the runtime's description of the result code, if
/// there is one, and what the library was trying to do.
pub struct XrErrorWrapped {
    pub xr_err: Option<String>,
    pub detail: String,
}

/// The name std's `Debug` gives an OpenXR result code: the name of the
/// result constant, or the number for codes the crate does not name.
pub uninterp spec fn xr_result_debug_text(code: i32) -> Seq<char>;

/// Writes an OpenXR result code with `openxr_sys::Result`'s `Debug`, which
/// depends on the code alone; the contract names its output.
#[verifier::external_body]
pub fn format_xr_result_debug(code: i32) -> (r: String)
    ensures
        r@ == xr_result_debug_text(code),
{
    format!("{:?}", openxr_sys::Result::from_raw(code))
}

/// The text of an optional string.
pub open spec fn option_text(s: Option<String>) -> Option<Seq<char>> {
    match s {
        Some(t) => Some(t@),
        None => None,
    }
}

/// How an error reads: `detail: runtime message`, or `detail` alone.
pub open spec fn error_text(xr_err: Option<Seq<char>>, detail: Seq<char>) -> Seq<char> {
    match xr_err {
        Some(m) => detail + ": "@ + m,
        None => detail,
    }
}

/// The runtime description used for a code when no instance can describe it.
pub open spec fn fallback_description(code: i32) -> Seq<char> {
    "OpenXR failed "@ + xr_result_debug_text(code)
}

/// The runtime description used when no instance can describe a failure
/// whose result code has the name `debug_name`.
pub fn fallback_text(debug_name: &str) -> (r: String)
    ensures
        r@ == "OpenXR failed "@ + debug_name@,
{
    let mut s = String::from_str("OpenXR failed ");
    s.append(debug_name);
    proof {
        reveal_strlit("OpenXR failed ");
    }
    s
}

impl XrErrorWrapped {
    /// The text of the runtime's description, if any.
    pub open spec fn spec_xr_err(&self) -> Option<Seq<char>> {
        option_text(self.xr_err)
    }

    /// An error with a runtime description and a detail.
    pub fn new(xr_err: String, detail: String) -> (r: Self)
        ensures
            r.spec_xr_err() == Some(xr_err@),
            r.detail@ == detail@,
    {
        XrErrorWrapped { xr_err: Some(xr_err), detail }
    }

    /// An error with a detail only.
    pub fn simple(detail: String) -> (r: Self)
        ensures
            r.spec_xr_err() is None,
            r.detail@ == detail@,
    {
        XrErrorWrapped { xr_err: None, detail }
    }

    /// An error for a failed call that returned `code`: described by
    /// `instance_message` (the instance's text for the code) where there is an
    /// instance to ask, else by `OpenXR failed` and the code's name.
    pub fn build(code: i32, instance_message: Option<String>, msg: String) -> (r: Self)
        ensures
            r.spec_xr_err() == Some(
                match instance_message {
                    Some(m) => m@,
                    None => fallback_description(code),
                },
            ),
            r.detail@ == msg@,
    {
        let x = match instance_message {
            Some(m) => m,
            None => fallback_text(format_xr_result_debug(code).as_str()),
        };
        XrErrorWrapped::new(x, msg)
    }

    /// How the error reads in messages.
    pub fn describe(&self) -> (r: String)
        ensures
            r@ == error_text(self.spec_xr_err(), self.detail@),
    {
        let mut s = String::from_str(self.detail.as_str());
        match &self.xr_err {
            Some(m) => {
                s.append(": ");
                s.append(m.as_str());
                proof {
                    reveal_strlit(": ");
                }
            },
            None => {},
        }
        s
    }
}

/// The outcome of the event processing loop.
#[derive(PartialEq, Eq, Structural)]
pub enum LoopStatus {
    /// The XR session is stopping.
    PleaseStop,
    /// Nothing weird happened, carry on.
    Groovy,
}

} // verus!
