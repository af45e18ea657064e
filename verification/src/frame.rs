use vstd::prelude::*;
use crate::flags::{CompileOutcome, Flags};

verus! {

/// Where a frame of the panel stands between two steps: the point from which
/// the next step goes on, or the outcome it waits for.
#[derive(Clone, Copy, PartialEq, Eq, Structural, Debug)]
pub enum FramePhase {
    /// Nothing served yet (the controls' requests are recorded).
    Start,
    /// Next: the export resize.
    ExportResize,
    /// Next: the compile request.
    Compile,
    /// Waiting for how the compilation went.
    AwaitCompile,
    /// Waiting for whether the preview launch was accepted.
    AwaitPreviewLaunch,
    /// Next: the preview collection.
    PreviewCollect,
    /// Waiting for whether the preview was collected.
    AwaitPreviewCollect,
    /// Next: the export launch.
    ExportLaunch,
    /// Waiting for whether the export launch was accepted.
    AwaitExportLaunch,
    /// Next: the export collection.
    ExportCollect,
    /// Waiting for whether the export was collected.
    AwaitExportCollect,
    /// The frame is over.
    Finished,
}

/// What the application does next in the frame.
#[derive(Clone, Copy, PartialEq, Eq, Structural, Debug)]
pub enum FrameAction {
    /// Rebuild the preview histogram and evaluator at the preview resolution.
    RebuildPreview,
    /// Rebuild the export evaluator at the export resolution.
    RebuildExport,
    /// Compile the functions and hand them to both evaluators; answer with
    /// `FrameEvent::Compiled`.
    Compile,
    /// Try to launch a preview evaluation, a snapshot or not, with the
    /// current flags; answer with `FrameEvent::Launched`.
    LaunchPreview { snapshot: bool },
    /// Announce that a snapshot was launched.
    AnnounceSnapshot,
    /// Collect the preview evaluation if it has finished; answer with
    /// `FrameEvent::Collected`.
    CollectPreview,
    /// Redraw the preview image from its histogram.
    Redraw,
    /// Try to launch an export evaluation; answer with `FrameEvent::Launched`.
    LaunchExport,
    /// Report that the export was refused because a task is in progress.
    ReportExportBusy,
    /// Collect and write out the export if it has finished; answer with
    /// `FrameEvent::Collected`.
    CollectExport,
    /// Nothing more to do in this frame.
    Done,
}

/// The outcome of the last action, handed to the next step.
#[derive(Clone, Copy)]
pub enum FrameEvent {
    /// The last action has no outcome to report.
    Ready,
    /// How the compilation went.
    Compiled(CompileOutcome),
    /// Whether a launch was accepted.
    Launched(bool),
    /// Whether an evaluation was collected.
    Collected(bool),
}

impl FrameEvent {
    /// The compile outcome reported (an unavailable evaluator if none is).
    pub open spec fn compile_outcome(self) -> CompileOutcome {
        match self {
            FrameEvent::Compiled(o) => o,
            _ => CompileOutcome::EvaluatorUnavailable,
        }
    }

    /// Whether a launch was reported accepted.
    pub open spec fn accepted(self) -> bool {
        match self {
            FrameEvent::Launched(b) => b,
            _ => false,
        }
    }

    /// Whether a collection was reported.
    pub open spec fn collected(self) -> bool {
        match self {
            FrameEvent::Collected(b) => b,
            _ => false,
        }
    }
}

/// New flags, the phase to go on from, and the action to perform.
pub type FrameStep = (Flags, FramePhase, FrameAction);

/// From the start: a pending preview resize is taken and rebuilt first.
pub open spec fn from_start(f: Flags) -> FrameStep {
    if f.update_preveiw_resolution {
        (f.preview_resize_taken(), FramePhase::ExportResize, FrameAction::RebuildPreview)
    } else {
        from_export_resize(f)
    }
}

/// A pending export resize is taken and rebuilt.
pub open spec fn from_export_resize(f: Flags) -> FrameStep {
    if f.update_export_resolution {
        (f.export_resize_taken(), FramePhase::Compile, FrameAction::RebuildExport)
    } else {
        from_compile(f)
    }
}

/// A pending compile request is taken and compiled.
pub open spec fn from_compile(f: Flags) -> FrameStep {
    if f.update_evaluator_functions {
        (f.compile_request_taken(), FramePhase::AwaitCompile, FrameAction::Compile)
    } else {
        from_preview_launch(f)
    }
}

/// A pending preview is launched, as a snapshot when one is pending.
pub open spec fn from_preview_launch(f: Flags) -> FrameStep {
    if f.run_preveiw_evaluator {
        (f, FramePhase::AwaitPreviewLaunch, FrameAction::LaunchPreview { snapshot: f.snapshot_preveiw })
    } else {
        from_preview_collect(f)
    }
}

/// A preview launch came out `accepted`; an accepted snapshot is announced.
pub open spec fn on_preview_launch(f: Flags, accepted: bool) -> FrameStep {
    let g = f.after_preview_launch(accepted);
    if accepted && f.snapshot_preveiw {
        (g, FramePhase::PreviewCollect, FrameAction::AnnounceSnapshot)
    } else {
        from_preview_collect(g)
    }
}

/// The preview is collected if it has finished.
pub open spec fn from_preview_collect(f: Flags) -> FrameStep {
    (f, FramePhase::AwaitPreviewCollect, FrameAction::CollectPreview)
}

/// The preview collection came out `done`; then a pending redraw is taken.
pub open spec fn on_preview_collect(f: Flags, done: bool) -> FrameStep {
    let g = if done { f.after_preview_collect() } else { f };
    if g.update_preveiw_image {
        (g.redraw_taken(), FramePhase::ExportLaunch, FrameAction::Redraw)
    } else {
        from_export_launch(g)
    }
}

/// A pending export is launched.
pub open spec fn from_export_launch(f: Flags) -> FrameStep {
    if f.run_export_evaluator {
        (f, FramePhase::AwaitExportLaunch, FrameAction::LaunchExport)
    } else {
        from_export_collect(f)
    }
}

/// An export launch came out `accepted`; a refusal is reported.
pub open spec fn on_export_launch(f: Flags, accepted: bool) -> FrameStep {
    let g = f.after_export_launch(accepted);
    if !accepted {
        (g, FramePhase::ExportCollect, FrameAction::ReportExportBusy)
    } else {
        from_export_collect(g)
    }
}

/// The export is collected if it has finished.
pub open spec fn from_export_collect(f: Flags) -> FrameStep {
    (f, FramePhase::AwaitExportCollect, FrameAction::CollectExport)
}

/// The export collection came out `done`; the frame is over.
pub open spec fn on_export_collect(f: Flags, done: bool) -> FrameStep {
    let g = if done { f.after_export_collect() } else { f };
    (g, FramePhase::Finished, FrameAction::Done)
}

/// One step of a frame: from the flags `f` and the phase `p`, given the
/// outcome `e` of the last action.
pub open spec fn frame_step_spec(f: Flags, p: FramePhase, e: FrameEvent) -> FrameStep {
    match p {
        FramePhase::Start => from_start(f),
        FramePhase::ExportResize => from_export_resize(f),
        FramePhase::Compile => from_compile(f),
        FramePhase::AwaitCompile => from_preview_launch(f.compiled(e.compile_outcome())),
        FramePhase::AwaitPreviewLaunch => on_preview_launch(f, e.accepted()),
        FramePhase::PreviewCollect => from_preview_collect(f),
        FramePhase::AwaitPreviewCollect => on_preview_collect(f, e.collected()),
        FramePhase::ExportLaunch => from_export_launch(f),
        FramePhase::AwaitExportLaunch => on_export_launch(f, e.accepted()),
        FramePhase::ExportCollect => from_export_collect(f),
        FramePhase::AwaitExportCollect => on_export_collect(f, e.collected()),
        FramePhase::Finished => (f, FramePhase::Finished, FrameAction::Done),
    }
}

/// How far into the frame a phase is.
pub open spec fn phase_rank(p: FramePhase) -> int {
    match p {
        FramePhase::Start => 0,
        FramePhase::ExportResize => 1,
        FramePhase::Compile => 2,
        FramePhase::AwaitCompile => 3,
        FramePhase::AwaitPreviewLaunch => 4,
        FramePhase::PreviewCollect => 5,
        FramePhase::AwaitPreviewCollect => 6,
        FramePhase::ExportLaunch => 7,
        FramePhase::AwaitExportLaunch => 8,
        FramePhase::ExportCollect => 9,
        FramePhase::AwaitExportCollect => 10,
        FramePhase::Finished => 11,
    }
}

/// Past each serving point of the frame, the request it serves is no longer
/// pending.
pub open spec fn served_so_far(f: Flags, p: FramePhase) -> bool {
    &&& phase_rank(p) >= 1 ==> !f.update_preveiw_resolution
    &&& phase_rank(p) >= 2 ==> !f.update_export_resolution
    &&& phase_rank(p) >= 3 ==> !f.update_evaluator_functions
    &&& phase_rank(p) >= 7 ==> !f.update_preveiw_image
}

fn step_from_start(f: &mut Flags) -> (r: (FramePhase, FrameAction))
    ensures
        (*final(f), r.0, r.1) == from_start(*old(f)),
{
    if f.take_preview_resize() {
        (FramePhase::ExportResize, FrameAction::RebuildPreview)
    } else {
        step_from_export_resize(f)
    }
}

fn step_from_export_resize(f: &mut Flags) -> (r: (FramePhase, FrameAction))
    ensures
        (*final(f), r.0, r.1) == from_export_resize(*old(f)),
{
    if f.take_export_resize() {
        (FramePhase::Compile, FrameAction::RebuildExport)
    } else {
        step_from_compile(f)
    }
}

fn step_from_compile(f: &mut Flags) -> (r: (FramePhase, FrameAction))
    ensures
        (*final(f), r.0, r.1) == from_compile(*old(f)),
{
    if f.take_compile_request() {
        (FramePhase::AwaitCompile, FrameAction::Compile)
    } else {
        step_from_preview_launch(f)
    }
}

fn step_from_preview_launch(f: &mut Flags) -> (r: (FramePhase, FrameAction))
    ensures
        (*final(f), r.0, r.1) == from_preview_launch(*old(f)),
{
    if f.run_preveiw_evaluator {
        (FramePhase::AwaitPreviewLaunch, FrameAction::LaunchPreview { snapshot: f.snapshot_preveiw })
    } else {
        (FramePhase::AwaitPreviewCollect, FrameAction::CollectPreview)
    }
}

fn step_from_export_launch(f: &mut Flags) -> (r: (FramePhase, FrameAction))
    ensures
        (*final(f), r.0, r.1) == from_export_launch(*old(f)),
{
    if f.run_export_evaluator {
        (FramePhase::AwaitExportLaunch, FrameAction::LaunchExport)
    } else {
        (FramePhase::AwaitExportCollect, FrameAction::CollectExport)
    }
}

impl Flags {
    /// One step of a frame of the panel. The application starts each frame
    /// at `FramePhase::Start`, after recording the controls' requests, and
    /// repeats: it performs the returned action, reports its outcome as the
    /// next event (`FrameEvent::Ready` when it has none), and goes on from
    /// the returned phase, until the action is `FrameAction::Done`. The order
    /// of the work is: preview resize, export resize, compilation, preview
    /// launch (and snapshot announcement), preview collection, redraw, export
    /// launch (and refusal report), export collection.
    pub fn frame_step(&mut self, phase: FramePhase, event: FrameEvent) -> (r: (FramePhase, FrameAction))
        ensures
            (*final(self), r.0, r.1) == frame_step_spec(*old(self), phase, event),
    {
        match phase {
            FramePhase::Start => step_from_start(self),
            FramePhase::ExportResize => step_from_export_resize(self),
            FramePhase::Compile => step_from_compile(self),
            FramePhase::AwaitCompile => {
                let outcome = match event {
                    FrameEvent::Compiled(o) => o,
                    _ => CompileOutcome::EvaluatorUnavailable,
                };
                self.finish_compile(outcome);
                step_from_preview_launch(self)
            },
            FramePhase::AwaitPreviewLaunch => {
                let accepted = match event {
                    FrameEvent::Launched(b) => b,
                    _ => false,
                };
                if self.preview_launched(accepted) {
                    (FramePhase::PreviewCollect, FrameAction::AnnounceSnapshot)
                } else {
                    (FramePhase::AwaitPreviewCollect, FrameAction::CollectPreview)
                }
            },
            FramePhase::PreviewCollect => (FramePhase::AwaitPreviewCollect, FrameAction::CollectPreview),
            FramePhase::AwaitPreviewCollect => {
                let done = match event {
                    FrameEvent::Collected(b) => b,
                    _ => false,
                };
                if done {
                    self.preview_collected();
                }
                if self.take_redraw() {
                    (FramePhase::ExportLaunch, FrameAction::Redraw)
                } else {
                    step_from_export_launch(self)
                }
            },
            FramePhase::ExportLaunch => step_from_export_launch(self),
            FramePhase::AwaitExportLaunch => {
                let accepted = match event {
                    FrameEvent::Launched(b) => b,
                    _ => false,
                };
                if self.export_launched(accepted) {
                    (FramePhase::ExportCollect, FrameAction::ReportExportBusy)
                } else {
                    (FramePhase::AwaitExportCollect, FrameAction::CollectExport)
                }
            },
            FramePhase::ExportCollect => (FramePhase::AwaitExportCollect, FrameAction::CollectExport),
            FramePhase::AwaitExportCollect => {
                let done = match event {
                    FrameEvent::Collected(b) => b,
                    _ => false,
                };
                if done {
                    self.export_collected();
                }
                (FramePhase::Finished, FrameAction::Done)
            },
            FramePhase::Finished => (FramePhase::Finished, FrameAction::Done),
        }
    }
}

/// Every step of a frame moves it forward until it is over, and the frame
/// is over exactly when the step says `Done`: a frame takes at most twelve
/// steps.
pub proof fn lemma_frame_moves_forward(f: Flags, p: FramePhase, e: FrameEvent)
    ensures
        p != FramePhase::Finished ==> phase_rank(frame_step_spec(f, p, e).1) > phase_rank(p),
        (frame_step_spec(f, p, e).2 == FrameAction::Done) <==> (frame_step_spec(f, p, e).1
            == FramePhase::Finished),
{
}

/// Each resize, compile and redraw request is served at its point of the
/// frame: a step that takes a pending request returns the action that serves
/// it (rebuild, compile, redraw), and past that point the request stays taken whatever the later
/// outcomes. So when the frame is over, none of these requests is pending,
/// whether raised in this frame or left from before.
pub proof fn lemma_frame_serves_requests(f: Flags, p: FramePhase, e: FrameEvent)
    requires
        served_so_far(f, p),
    ensures
        served_so_far(frame_step_spec(f, p, e).0, frame_step_spec(f, p, e).1),
        served_so_far(f, FramePhase::Start),
        f.update_preveiw_resolution && !frame_step_spec(f, p, e).0.update_preveiw_resolution
            ==> frame_step_spec(f, p, e).2 == FrameAction::RebuildPreview,
        f.update_export_resolution && !frame_step_spec(f, p, e).0.update_export_resolution
            ==> frame_step_spec(f, p, e).2 == FrameAction::RebuildExport,
        f.update_evaluator_functions && !frame_step_spec(f, p, e).0.update_evaluator_functions
            ==> frame_step_spec(f, p, e).2 == FrameAction::Compile,
        f.update_preveiw_image && !frame_step_spec(f, p, e).0.update_preveiw_image
            ==> frame_step_spec(f, p, e).2 == FrameAction::Redraw,
        p == FramePhase::Finished ==> {
            &&& !f.update_preveiw_resolution
            &&& !f.update_export_resolution
            &&& !f.update_evaluator_functions
            &&& !f.update_preveiw_image
        },
{
}

/// The start of a frame serves, in this order, the first pending one of: the
/// preview resize, the export resize, the compile request, the preview
/// launch; with none of them pending it goes to the preview collection. Each
/// serving step clears only the request it serves, and going on from a later
/// point is the same as starting when the earlier requests are not pending.
pub proof fn lemma_frame_start(f: Flags, e: FrameEvent, e2: FrameEvent)
    ensures
        f.update_preveiw_resolution ==> frame_step_spec(f, FramePhase::Start, e) == (
            Flags { update_preveiw_resolution: false, ..f },
            FramePhase::ExportResize,
            FrameAction::RebuildPreview,
        ),
        f.update_export_resolution ==> frame_step_spec(f, FramePhase::ExportResize, e) == (
            Flags { update_export_resolution: false, ..f },
            FramePhase::Compile,
            FrameAction::RebuildExport,
        ),
        f.update_evaluator_functions ==> frame_step_spec(f, FramePhase::Compile, e) == (
            Flags { update_evaluator_functions: false, ..f },
            FramePhase::AwaitCompile,
            FrameAction::Compile,
        ),
        !f.update_preveiw_resolution ==> frame_step_spec(f, FramePhase::Start, e)
            == frame_step_spec(f, FramePhase::ExportResize, e2),
        !f.update_export_resolution ==> frame_step_spec(f, FramePhase::ExportResize, e)
            == frame_step_spec(f, FramePhase::Compile, e2),
        !f.update_evaluator_functions && f.run_preveiw_evaluator ==> frame_step_spec(
            f,
            FramePhase::Compile,
            e,
        ) == (f, FramePhase::AwaitPreviewLaunch, FrameAction::LaunchPreview { snapshot: f.snapshot_preveiw }),
        !f.update_evaluator_functions && !f.run_preveiw_evaluator ==> frame_step_spec(
            f,
            FramePhase::Compile,
            e,
        ) == (f, FramePhase::AwaitPreviewCollect, FrameAction::CollectPreview),
{
}

/// After a compilation, the frame goes on to the preview launch with the
/// flags as the compile outcome left them.
pub proof fn lemma_frame_after_compile(f: Flags, o: CompileOutcome, e: FrameEvent)
    requires
        !f.update_evaluator_functions,
    ensures
        frame_step_spec(f, FramePhase::AwaitCompile, FrameEvent::Compiled(o))
            == frame_step_spec(f.compiled(o), FramePhase::Compile, e),
{
}

/// A refused preview launch changes no flag and the frame still collects the
/// preview, so an evaluation that has finished is collected and the next
/// frame's launch can be accepted. An accepted launch consumes the request;
/// a snapshot is announced and disables the controls before the collection.
pub proof fn lemma_frame_preview_launch(f: Flags, e: FrameEvent)
    ensures
        e != FrameEvent::Launched(true) ==> frame_step_spec(f, FramePhase::AwaitPreviewLaunch, e)
            == (f, FramePhase::AwaitPreviewCollect, FrameAction::CollectPreview),
        f.snapshot_preveiw ==> frame_step_spec(f, FramePhase::AwaitPreviewLaunch, FrameEvent::Launched(true))
            == (
            Flags {
                run_preveiw_evaluator: false,
                update_preveiw_histogram: true,
                disable_ui_flag: true,
                ..f
            },
            FramePhase::PreviewCollect,
            FrameAction::AnnounceSnapshot,
        ),
        !f.snapshot_preveiw ==> frame_step_spec(f, FramePhase::AwaitPreviewLaunch, FrameEvent::Launched(true))
            == (
            Flags { run_preveiw_evaluator: false, update_preveiw_histogram: true, ..f },
            FramePhase::AwaitPreviewCollect,
            FrameAction::CollectPreview,
        ),
        frame_step_spec(f, FramePhase::PreviewCollect, e) == (
            f,
            FramePhase::AwaitPreviewCollect,
            FrameAction::CollectPreview,
        ),
{
}

/// A collected preview ends the snapshot, enables the controls, keeps a
/// pending preview request, and is redrawn at once. Without a collection a
/// pending redraw is served; with none the frame goes on to the export.
pub proof fn lemma_frame_preview_collect(f: Flags, e: FrameEvent, e2: FrameEvent)
    ensures
        frame_step_spec(f, FramePhase::AwaitPreviewCollect, FrameEvent::Collected(true)) == (
            Flags {
                update_preveiw_histogram: false,
                update_preveiw_image: false,
                snapshot_preveiw: false,
                disable_ui_flag: false,
                ..f
            },
            FramePhase::ExportLaunch,
            FrameAction::Redraw,
        ),
        e != FrameEvent::Collected(true) && f.update_preveiw_image ==> frame_step_spec(
            f,
            FramePhase::AwaitPreviewCollect,
            e,
        ) == (Flags { update_preveiw_image: false, ..f }, FramePhase::ExportLaunch, FrameAction::Redraw),
        e != FrameEvent::Collected(true) && !f.update_preveiw_image ==> frame_step_spec(
            f,
            FramePhase::AwaitPreviewCollect,
            e,
        ) == frame_step_spec(f, FramePhase::ExportLaunch, e2),
{
}

/// The export part of a frame. A pending export is launched, otherwise the
/// export is collected. A refused launch changes no flag, is reported, and
/// the export is still collected; an accepted one disables the controls and
/// waits. A collected export enables the controls again and ends the frame;
/// without a collection the frame ends with the flags unchanged. A finished
/// frame stays finished.
pub proof fn lemma_frame_export(f: Flags, e: FrameEvent)
    ensures
        f.run_export_evaluator ==> frame_step_spec(f, FramePhase::ExportLaunch, e) == (
            f,
            FramePhase::AwaitExportLaunch,
            FrameAction::LaunchExport,
        ),
        !f.run_export_evaluator ==> frame_step_spec(f, FramePhase::ExportLaunch, e) == (
            f,
            FramePhase::AwaitExportCollect,
            FrameAction::CollectExport,
        ),
        e != FrameEvent::Launched(true) ==> frame_step_spec(f, FramePhase::AwaitExportLaunch, e) == (
            f,
            FramePhase::ExportCollect,
            FrameAction::ReportExportBusy,
        ),
        frame_step_spec(f, FramePhase::AwaitExportLaunch, FrameEvent::Launched(true)) == (
            Flags {
                disable_ui_flag: true,
                run_export_evaluator: false,
                check_export_evaluator: true,
                ..f
            },
            FramePhase::AwaitExportCollect,
            FrameAction::CollectExport,
        ),
        frame_step_spec(f, FramePhase::ExportCollect, e) == (
            f,
            FramePhase::AwaitExportCollect,
            FrameAction::CollectExport,
        ),
        frame_step_spec(f, FramePhase::AwaitExportCollect, FrameEvent::Collected(true)) == (
            Flags { check_export_evaluator: false, disable_ui_flag: false, ..f },
            FramePhase::Finished,
            FrameAction::Done,
        ),
        e != FrameEvent::Collected(true) ==> frame_step_spec(f, FramePhase::AwaitExportCollect, e) == (
            f,
            FramePhase::Finished,
            FrameAction::Done,
        ),
        frame_step_spec(f, FramePhase::Finished, e) == (f, FramePhase::Finished, FrameAction::Done),
{
}

} // verus!
