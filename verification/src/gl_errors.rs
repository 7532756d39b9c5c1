//! GL error values and the rule by which pending GL errors are reported.
use vstd::prelude::*;
use crate::gl_consts::NO_ERROR;

verus! {

/// What accompanies a GL error: nothing, the bytes of a C string (never a
/// zero byte), or a Rust string.
#[derive(Clone)]
pub enum MessageForError {
    Empty,
    CStr(Vec<u8>),
    Str(String),
}

/// An error from the GL: either a GL error code, or code 0 with a message.
#[derive(Clone)]
pub struct GLErrorWrapper {
    pub code: u32,
    pub message: MessageForError,
}

/// Bytes that a C string can hold: no zero byte among them.
pub open spec fn is_c_string_content(bytes: Seq<u8>) -> bool {
    forall|i: int| 0 <= i < bytes.len() ==> bytes[i] != 0u8
}

impl GLErrorWrapper {
    /// Code 0 with the bytes of a C string as message.
    pub fn with_message(msg: Vec<u8>) -> (r: Self)
        requires
            is_c_string_content(msg@),
        ensures
            r.code == 0,
            r.message matches MessageForError::CStr(m) && m@ == msg@,
    {
        GLErrorWrapper { code: 0, message: MessageForError::CStr(msg) }
    }

    /// Code 0 with a string message.
    pub fn with_message2(msg: String) -> (r: Self)
        ensures
            r.code == 0,
            r.message matches MessageForError::Str(m) && m@ == msg@,
    {
        GLErrorWrapper { code: 0, message: MessageForError::Str(msg) }
    }

    /// A GL error code without message.
    pub fn new(code: u32) -> (r: Self)
        ensures
            r.code == code,
            r.message is Empty,
    {
        GLErrorWrapper { code, message: MessageForError::Empty }
    }
}

/// Where the first `NO_ERROR` stands in `codes`, or its length if none does.
pub open spec fn first_no_error(codes: Seq<u32>) -> nat
    decreases codes.len(),
{
    if codes.len() == 0 {
        0
    } else if codes[0] == NO_ERROR {
        0
    } else {
        1 + first_no_error(codes.drop_first())
    }
}

/// The error that draining the GL error queue reports when `glGetError`
/// returns `codes` in turn: the last code before the first `NO_ERROR`.
pub open spec fn drained_error(codes: Seq<u32>) -> Option<u32> {
    let k = first_no_error(codes);
    if k == 0 {
        None
    } else {
        Some(codes[k - 1])
    }
}

/// Drains the GL error queue one `glGetError` result at a time.
pub struct GlErrorDrain {
    /// The last error code seen so far.
    pub last_error: Option<u32>,
    /// Whether `NO_ERROR` has been seen, which ends the draining.
    pub finished: bool,
}

impl GlErrorDrain {
    /// Nothing seen yet.
    pub fn new() -> (r: Self)
        ensures
            r.last_error is None,
            !r.finished,
    {
        GlErrorDrain { last_error: None, finished: false }
    }

    /// Takes the next `glGetError` result; returns whether to ask again.
    pub fn observe(&mut self, code: u32) -> (keep_polling: bool)
        requires
            !old(self).finished,
        ensures
            keep_polling == (code != NO_ERROR),
            final(self).finished == (code == NO_ERROR),
            final(self).last_error == (if code == NO_ERROR {
                old(self).last_error
            } else {
                Some(code)
            }),
    {
        if code == NO_ERROR {
            self.finished = true;
            false
        } else {
            self.last_error = Some(code);
            true
        }
    }

    /// The result of the drain: the last error seen, if any.
    pub fn outcome(&self) -> (r: Result<(), GLErrorWrapper>)
        ensures
            match self.last_error {
                Some(e) => r matches Err(w) && w.code == e && w.message is Empty,
                None => r is Ok,
            },
    {
        match self.last_error {
            Some(e) => Err(GLErrorWrapper::new(e)),
            None => Ok(()),
        }
    }
}

/// Runs a drain over the successive results of `glGetError`, stopping at the
/// first `NO_ERROR`, and returns what it reports.
pub fn last_gl_error(codes: &[u32]) -> (r: Result<(), GLErrorWrapper>)
    ensures
        match drained_error(codes@) {
            Some(e) => r matches Err(w) && w.code == e && w.message is Empty,
            None => r is Ok,
        },
        r is Ok <==> (codes@.len() == 0 || codes@[0] == NO_ERROR),
        r matches Err(w) ==> exists|k: int|
            1 <= k <= codes@.len() && w.code == #[trigger] codes@[k - 1] && w.message is Empty
                && (forall|j: int| 0 <= j < k ==> codes@[j] != NO_ERROR) && (k == codes@.len()
                || codes@[k] == NO_ERROR),
{
    proof {
        let k = first_no_error(codes@) as int;
        lemma_first_no_error_facts(codes@);
        lemma_drained_error_is_last_before_stop(codes@, k);
        if k > 0 {
            assert(codes@[k - 1] == codes@[k - 1]);
        }
    }
    let mut drain = GlErrorDrain::new();
    let mut i: usize = 0;
    while i < codes.len()
        invariant
            i <= codes.len(),
            i <= first_no_error(codes@),
            !drain.finished,
            drain.last_error == (if i == 0 {
                None
            } else {
                Some(codes@[i - 1])
            }),
            forall|j: int| 0 <= j < i ==> codes@[j] != NO_ERROR,
        decreases codes.len() - i,
    {
        if !drain.observe(codes[i]) {
            proof {
                lemma_first_no_error_at(codes@, i as int);
            }
            return drain.outcome();
        }
        i = i + 1;
        proof {
            lemma_first_no_error_bound(codes@, i as int);
        }
    }
    proof {
        lemma_first_no_error_at(codes@, i as int);
    }
    drain.outcome()
}

/// Codes that `glGetError` would return after the first `NO_ERROR` do not
/// change what draining reports, since draining stops there.
pub proof fn lemma_drain_stops_at_no_error(codes: Seq<u32>, more: Seq<u32>)
    requires
        first_no_error(codes) < codes.len(),
    ensures
        first_no_error(codes + more) == first_no_error(codes),
        drained_error(codes + more) == drained_error(codes),
    decreases codes.len(),
{
    if codes[0] != NO_ERROR {
        assert((codes + more).drop_first() =~= codes.drop_first() + more);
        lemma_drain_stops_at_no_error(codes.drop_first(), more);
    }
}

/// Draining a queue that held no error reports none, and draining one whose
/// only error was `code` reports `code`.
pub proof fn lemma_drain_single(code: u32)
    requires
        code != NO_ERROR,
    ensures
        drained_error(seq![NO_ERROR]) is None,
        drained_error(seq![code, NO_ERROR]) == Some(code),
{
    assert(seq![code, NO_ERROR].drop_first() =~= seq![NO_ERROR]);
}

/// Draining reports the code just before the first `NO_ERROR`: when no code
/// before `k` is `NO_ERROR` and `k` is the end or holds `NO_ERROR`, it
/// reports nothing for `k == 0` and `codes[k - 1]` otherwise.
pub proof fn lemma_drained_error_is_last_before_stop(codes: Seq<u32>, k: int)
    requires
        0 <= k <= codes.len(),
        forall|j: int| 0 <= j < k ==> codes[j] != NO_ERROR,
        k == codes.len() || codes[k] == NO_ERROR,
    ensures
        k == 0 ==> drained_error(codes) is None,
        k > 0 ==> drained_error(codes) == Some(codes[k - 1]),
{
    lemma_first_no_error_at(codes, k);
}

/// The first `NO_ERROR` stands where no code before it is one, at the end or
/// on a `NO_ERROR`.
proof fn lemma_first_no_error_facts(codes: Seq<u32>)
    ensures
        first_no_error(codes) <= codes.len(),
        forall|j: int| 0 <= j < first_no_error(codes) ==> codes[j] != NO_ERROR,
        first_no_error(codes) == codes.len() || codes[first_no_error(codes) as int] == NO_ERROR,
    decreases codes.len(),
{
    if codes.len() > 0 && codes[0] != NO_ERROR {
        lemma_first_no_error_facts(codes.drop_first());
        assert forall|j: int| 0 <= j < first_no_error(codes) implies codes[j] != NO_ERROR by {
            if j > 0 {
                assert(codes[j] == codes.drop_first()[j - 1]);
            }
        }
    }
}

/// When no code before `i` is `NO_ERROR`, the first one is at `i` or later.
proof fn lemma_first_no_error_bound(codes: Seq<u32>, i: int)
    requires
        0 <= i <= codes.len(),
        forall|j: int| 0 <= j < i ==> codes[j] != NO_ERROR,
    ensures
        i <= first_no_error(codes),
    decreases i,
{
    if i > 0 {
        lemma_first_no_error_bound(codes.drop_first(), i - 1);
    }
}

/// When no code before `i` is `NO_ERROR` and `i` is the end or holds
/// `NO_ERROR`, the first one is at `i`.
proof fn lemma_first_no_error_at(codes: Seq<u32>, i: int)
    requires
        0 <= i <= codes.len(),
        forall|j: int| 0 <= j < i ==> codes[j] != NO_ERROR,
        i == codes.len() || codes[i] == NO_ERROR,
    ensures
        first_no_error(codes) == i,
    decreases i,
{
    if i > 0 {
        lemma_first_no_error_at(codes.drop_first(), i - 1);
    }
}

} // verus!
