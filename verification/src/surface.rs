use vstd::prelude::*;

verus! {

/// Width the surface is configured with before the compositor reports a size.
pub const INITIAL_WIDTH: u32 = 1920;

/// Height the surface is configured with before the compositor reports a size.
pub const INITIAL_HEIGHT: u32 = 1080;

/// The size the presentation surface is configured with; never zero in
/// either dimension.
pub struct SurfaceExtent {
    width: u32,
    height: u32,
}

impl View for SurfaceExtent {
    type V = (u32, u32);

    closed spec fn view(&self) -> (u32, u32) {
        (self.width, self.height)
    }
}

/// The extent after the compositor reports `width` by `height`: a report
/// that is empty in either dimension leaves it as it was.
pub open spec fn resized(extent: (u32, u32), width: u32, height: u32) -> (u32, u32) {
    if width > 0 && height > 0 {
        (width, height)
    } else {
        extent
    }
}

/// A report that is non-empty in both dimensions becomes the extent; any other
/// report leaves the extent as it was.
pub proof fn lemma_report_sets_extent(extent: (u32, u32), width: u32, height: u32)
    ensures
        width > 0 && height > 0 ==> resized(extent, width, height).0 == width && resized(
            extent,
            width,
            height,
        ).1 == height,
        width == 0 || height == 0 ==> resized(extent, width, height) == extent,
{
}

/// Reporting the same size twice has the effect of reporting it once.
pub proof fn lemma_resize_idempotent(extent: (u32, u32), width: u32, height: u32)
    ensures
        resized(resized(extent, width, height), width, height) == resized(extent, width, height),
{
}

/// The extent after a series of reports, starting from `extent`.
pub open spec fn resized_by_all(extent: (u32, u32), reports: Seq<(u32, u32)>) -> (u32, u32)
    decreases reports.len(),
{
    if reports.len() == 0 {
        extent
    } else {
        resized(resized_by_all(extent, reports.drop_last()), reports.last().0, reports.last().1)
    }
}

pub open spec fn non_empty_report(report: (u32, u32)) -> bool {
    report.0 > 0 && report.1 > 0
}

/// Reports that are all empty leave the extent as it was.
pub proof fn lemma_empty_reports_keep_extent(extent: (u32, u32), reports: Seq<(u32, u32)>)
    requires
        forall|j: int| 0 <= j < reports.len() ==> !non_empty_report(#[trigger] reports[j]),
    ensures
        resized_by_all(extent, reports) == extent,
    decreases reports.len(),
{
    if reports.len() > 0 {
        let rest = reports.drop_last();
        assert forall|j: int| 0 <= j < rest.len() implies !non_empty_report(#[trigger] rest[j]) by {
            assert(rest[j] == reports[j]);
        }
        lemma_empty_reports_keep_extent(extent, rest);
        assert(!non_empty_report(reports[reports.len() - 1]));
    }
}

/// After a series of reports, the extent is the last report that was non-empty
/// in both dimensions.
pub proof fn lemma_last_non_empty_report_wins(
    extent: (u32, u32),
    reports: Seq<(u32, u32)>,
    i: int,
)
    requires
        0 <= i < reports.len(),
        non_empty_report(reports[i]),
        forall|j: int| i < j < reports.len() ==> !non_empty_report(#[trigger] reports[j]),
    ensures
        resized_by_all(extent, reports) == reports[i],
    decreases reports.len(),
{
    let last = reports.len() - 1;
    if i < last {
        let rest = reports.drop_last();
        assert forall|j: int| i < j < rest.len() implies !non_empty_report(#[trigger] rest[j]) by {
            assert(rest[j] == reports[j]);
        }
        assert(rest[i] == reports[i]);
        lemma_last_non_empty_report_wins(extent, rest, i);
        assert(!non_empty_report(reports[last]));
    }
}

impl SurfaceExtent {
    #[verifier::type_invariant]
    spec fn non_empty(self) -> bool {
        self.width > 0 && self.height > 0
    }

    /// The extent the surface starts with.
    pub fn initial() -> (e: SurfaceExtent)
        ensures
            e@ == (INITIAL_WIDTH, INITIAL_HEIGHT),
            e@ == (1920u32, 1080u32),
    {
        SurfaceExtent { width: INITIAL_WIDTH, height: INITIAL_HEIGHT }
    }

    pub fn width(&self) -> (w: u32)
        ensures
            w == self@.0,
            w > 0,
    {
        proof {
            use_type_invariant(self);
        }
        self.width
    }

    pub fn height(&self) -> (h: u32)
        ensures
            h == self@.1,
            h > 0,
    {
        proof {
            use_type_invariant(self);
        }
        self.height
    }

    /// Takes a size reported by the compositor. A size that is zero in either
    /// dimension is ignored; any other becomes the new extent. Returns whether
    /// the surface must be configured again.
    pub fn resize(&mut self, width: u32, height: u32) -> (reconfigure: bool)
        ensures
            reconfigure == (width > 0 && height > 0),
            final(self)@ == resized(old(self)@, width, height),
            reconfigure ==> final(self)@ == (width, height),
            !reconfigure ==> final(self)@ == old(self)@,
            final(self)@.0 > 0,
            final(self)@.1 > 0,
    {
        proof {
            use_type_invariant(&*self);
        }
        if width > 0 && height > 0 {
            *self = SurfaceExtent { width, height };
            true
        } else {
            false
        }
    }
}

/// What acquiring the next frame of the surface gave back.
#[derive(Clone, Copy, Debug, PartialEq, Eq, Structural)]
pub enum FrameStatus {
    Success,
    Suboptimal,
    Timeout,
    Occluded,
    Outdated,
    Lost,
    Validation,
}

/// What the renderer does with an acquired frame.
#[derive(Clone, Copy, Debug, PartialEq, Eq, Structural)]
pub enum FrameAction {
    /// Record and present the frame.
    Draw,
    /// Drop this frame and wait for the next refresh.
    Skip,
    /// Give up: the surface is in a state the renderer does not handle.
    Abort,
}

pub open spec fn action_for(status: FrameStatus) -> FrameAction {
    match status {
        FrameStatus::Success => FrameAction::Draw,
        FrameStatus::Occluded | FrameStatus::Timeout => FrameAction::Skip,
        _ => FrameAction::Abort,
    }
}

/// Only a frame acquired with success is drawn; an occluded window or a
/// timed-out wait skips the frame, and every other outcome gives up.
pub proof fn lemma_frame_actions(status: FrameStatus)
    ensures
        (action_for(status) == FrameAction::Draw) <==> (status == FrameStatus::Success),
        (action_for(status) == FrameAction::Skip) <==> (status == FrameStatus::Occluded || status
            == FrameStatus::Timeout),
        (action_for(status) == FrameAction::Abort) <==> (status == FrameStatus::Suboptimal
            || status == FrameStatus::Outdated || status == FrameStatus::Lost || status
            == FrameStatus::Validation),
{
}

/// Decides what to do with the frame that the surface handed out: draw on
/// success, skip when the window is occluded or the wait timed out, and give up
/// on anything else.
pub fn frame_action(status: FrameStatus) -> (a: FrameAction)
    ensures
        a == action_for(status),
{
    match status {
        FrameStatus::Success => FrameAction::Draw,
        FrameStatus::Occluded | FrameStatus::Timeout => FrameAction::Skip,
        _ => FrameAction::Abort,
    }
}

} // verus!
