//! The swapchain protocol of painting one view of a frame: acquire an
//! image, wait for it, paint it, release it; a failed call gives up on the
//! view and is reported as a malfunction of the frame.
use vstd::prelude::*;
use crate::xr_errors::{fallback_description, XrErrorWrapped};
use crate::xr_protocol::first_malfunction;

verus! {

/// The swapchain calls made for each view, in order.
#[derive(PartialEq, Eq, Structural, Copy, Clone)]
pub enum ViewStage {
    /// `xrAcquireSwapchainImage`.
    Acquire,
    /// `xrWaitSwapchainImage`.
    Wait,
    /// Painting the acquired image, which cannot fail.
    Paint,
    /// `xrReleaseSwapchainImage`.
    Release,
}

/// What follows a call made for a view.
pub enum ViewStep {
    /// Go on with this call.
    Next(ViewStage),
    /// The view is painted and its image released.
    Done,
    /// Give up on the view and record this malfunction.
    Malfunction(XrErrorWrapped),
}

/// What the frame reports when the call of `stage` fails.
pub open spec fn stage_failure_text(stage: ViewStage) -> Seq<char> {
    match stage {
        ViewStage::Acquire => "failed to acquire swapchain image"@,
        ViewStage::Wait => "failed to wait for swapchain image"@,
        ViewStage::Paint => "failed to paint"@,
        ViewStage::Release => "failed to release swapchain image"@,
    }
}

/// The call that follows a successful `stage`, or `None` after the last.
pub open spec fn next_stage(stage: ViewStage) -> Option<ViewStage> {
    match stage {
        ViewStage::Acquire => Some(ViewStage::Wait),
        ViewStage::Wait => Some(ViewStage::Paint),
        ViewStage::Paint => Some(ViewStage::Release),
        ViewStage::Release => None,
    }
}

/// The message for a failed call of `stage`.
fn stage_failure_detail(stage: ViewStage) -> (s: String)
    ensures
        s@ == stage_failure_text(stage),
{
    proof {
        reveal_strlit("failed to acquire swapchain image");
        reveal_strlit("failed to wait for swapchain image");
        reveal_strlit("failed to paint");
        reveal_strlit("failed to release swapchain image");
    }
    match stage {
        ViewStage::Acquire => String::from_str("failed to acquire swapchain image"),
        ViewStage::Wait => String::from_str("failed to wait for swapchain image"),
        ViewStage::Paint => String::from_str("failed to paint"),
        ViewStage::Release => String::from_str("failed to release swapchain image"),
    }
}

/// The next step of a view after the call of `stage` gave `outcome` (the
/// failure code when it failed): a success goes on to the next call or ends
/// the view; a failure gives up on the view with a malfunction that names
/// the call and describes the code without asking an instance. Painting
/// always goes on to the release.
pub fn view_step(stage: ViewStage, outcome: Result<(), i32>) -> (r: ViewStep)
    ensures
        stage == ViewStage::Paint || outcome is Ok ==> match next_stage(stage) {
            Some(s) => r == ViewStep::Next(s),
            None => r is Done,
        },
        stage != ViewStage::Paint && outcome is Err ==> (r matches ViewStep::Malfunction(e)
            && e.spec_xr_err() == Some(fallback_description(outcome->Err_0))
            && e.detail@ == stage_failure_text(stage)),
{
    match (stage, outcome) {
        (ViewStage::Paint, _) => ViewStep::Next(ViewStage::Release),
        (_, Err(code)) => ViewStep::Malfunction(
            XrErrorWrapped::build(code, None, stage_failure_detail(stage)),
        ),
        (ViewStage::Acquire, Ok(())) => ViewStep::Next(ViewStage::Wait),
        (ViewStage::Wait, Ok(())) => ViewStep::Next(ViewStage::Paint),
        (ViewStage::Release, Ok(())) => ViewStep::Done,
    }
}

/// Painting all the views of a frame: every view is attempted in order,
/// whatever failed before it, and the failures are kept in the order met.
pub struct FramePaint {
    /// The view being painted; `view_count` once all are done.
    pub view: usize,
    /// How many views the frame has.
    pub view_count: usize,
    /// The next call for the current view.
    pub stage: ViewStage,
    /// The failures met so far, in order.
    pub malfunctions: Vec<XrErrorWrapped>,
}

impl FramePaint {
    /// A frame of `view_count` views, none painted yet.
    pub fn new(view_count: usize) -> (r: Self)
        ensures
            r.view == 0,
            r.view_count == view_count,
            r.stage == ViewStage::Acquire,
            r.malfunctions@.len() == 0,
    {
        FramePaint { view: 0, view_count, stage: ViewStage::Acquire, malfunctions: Vec::new() }
    }

    /// The call to make next and the view it is for; `None` once every view
    /// has been attempted.
    pub fn current_call(&self) -> (r: Option<(usize, ViewStage)>)
        ensures
            self.view < self.view_count ==> r == Some((self.view, self.stage)),
            self.view >= self.view_count ==> r is None,
    {
        if self.view < self.view_count {
            Some((self.view, self.stage))
        } else {
            None
        }
    }

    /// Takes the outcome of the current call (the failure code when it
    /// failed): the view goes on to its next call; a finished view, or one
    /// whose call failed, hands over to the next view, and the failure is
    /// kept.
    pub fn record(&mut self, outcome: Result<(), i32>)
        requires
            old(self).view < old(self).view_count,
        ensures
            final(self).view_count == old(self).view_count,
            old(self).stage == ViewStage::Paint || outcome is Ok ==> {
                &&& final(self).malfunctions@ == old(self).malfunctions@
                &&& match next_stage(old(self).stage) {
                    Some(s) => final(self).view == old(self).view && final(self).stage == s,
                    None => final(self).view == old(self).view + 1 && final(self).stage
                        == ViewStage::Acquire,
                }
            },
            old(self).stage != ViewStage::Paint && outcome is Err ==> {
                &&& final(self).view == old(self).view + 1
                &&& final(self).stage == ViewStage::Acquire
                &&& final(self).malfunctions@.len() == old(self).malfunctions@.len() + 1
                &&& final(self).malfunctions@.take(old(self).malfunctions@.len() as int)
                    == old(self).malfunctions@
                &&& final(self).malfunctions@.last().spec_xr_err() == Some(
                    fallback_description(outcome->Err_0),
                )
                &&& final(self).malfunctions@.last().detail@ == stage_failure_text(old(self).stage)
            },
    {
        match view_step(self.stage, outcome) {
            ViewStep::Next(s) => {
                self.stage = s;
            },
            ViewStep::Done => {
                self.view = self.view + 1;
                self.stage = ViewStage::Acquire;
            },
            ViewStep::Malfunction(e) => {
                self.malfunctions.push(e);
                self.view = self.view + 1;
                self.stage = ViewStage::Acquire;
                assert(self.malfunctions@.take(old(self).malfunctions@.len() as int)
                    =~= old(self).malfunctions@);
            },
        }
    }

    /// How the frame ends once its views were attempted: it fails with the
    /// first failure met, and goes on to be submitted when there was none.
    pub fn finish(self) -> (r: Result<(), XrErrorWrapped>)
        ensures
            self.malfunctions@.len() == 0 ==> r is Ok,
            self.malfunctions@.len() > 0 ==> r == Err::<(), XrErrorWrapped>(self.malfunctions@[0]),
    {
        first_malfunction(self.malfunctions)
    }
}

/// How many more calls a frame can take at most: four per view left, less
/// the calls the current view has made.
pub open spec fn calls_left(f: FramePaint) -> int {
    4 * (f.view_count - f.view) - match f.stage {
        ViewStage::Acquire => 0int,
        ViewStage::Wait => 1,
        ViewStage::Paint => 2,
        ViewStage::Release => 3,
    }
}

/// Every recorded outcome brings the frame closer to its end: the views
/// cannot be attempted forever, and a failure never stops the later views
/// from being attempted.
pub proof fn lemma_frame_progress(before: FramePaint, after: FramePaint, outcome: Result<(), i32>)
    requires
        before.view < before.view_count,
        after.view_count == before.view_count,
        before.stage == ViewStage::Paint || outcome is Ok ==> match next_stage(before.stage) {
            Some(s) => after.view == before.view && after.stage == s,
            None => after.view == before.view + 1 && after.stage == ViewStage::Acquire,
        },
        before.stage != ViewStage::Paint && outcome is Err ==> after.view == before.view + 1
            && after.stage == ViewStage::Acquire,
    ensures
        0 <= calls_left(after) < calls_left(before),
        after.view <= after.view_count,
{
}

} // verus!
