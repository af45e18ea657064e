use vstd::prelude::*;
use crate::params::PreviewParams;
use crate::task::{EvaluatorTask, lemma_one_evaluation_at_a_time};

verus! {

/// What the application still has to do, and the state of its controls.
#[derive(Clone, Copy)]
pub struct Flags {
    pub run_preveiw_evaluator: bool,
    pub update_preveiw_resolution: bool,
    pub update_preveiw_histogram: bool,
    pub update_evaluator_functions: bool,
    pub update_preveiw_image: bool,
    pub snapshot_preveiw: bool,
    pub run_export_evaluator: bool,
    pub update_export_resolution: bool,
    pub check_export_evaluator: bool,
    pub disable_ui_flag: bool,
    pub compile_failed: bool,
}

/// A request made through the controls of the panel.
#[derive(Clone, Copy)]
pub enum UiRequest {
    /// A transform, variable or weight slider, or the preview iteration
    /// count, changed: evaluate the preview again.
    Preview,
    /// A colour, gamma, brightness or contrast control changed: redraw the
    /// preview from its histogram.
    Redraw,
    /// The preview resolution changed.
    PreviewResize,
    /// The export resolution changed.
    ExportResize,
    /// The "compile functions" button was pressed.
    Compile,
    /// The "snapshot" button was pressed.
    Snapshot,
    /// The "export" button was pressed.
    Export,
}

/// How installing freshly compiled functions went.
#[derive(Clone, Copy, PartialEq, Eq, Structural)]
pub enum CompileOutcome {
    /// The functions' text did not compile.
    ModuleError,
    /// One of the evaluators could not be obtained; nothing was installed.
    EvaluatorUnavailable,
    /// The functions were handed to both evaluators, which accepted them or
    /// not.
    Installed { preview_ok: bool, export_ok: bool },
}

/// The flags the application starts with: a preview run and a compilation of
/// the functions are pending, nothing else.
pub open spec fn initial_flags() -> Flags {
    Flags {
        run_preveiw_evaluator: true,
        update_preveiw_resolution: false,
        update_preveiw_histogram: false,
        update_evaluator_functions: true,
        update_preveiw_image: false,
        snapshot_preveiw: false,
        run_export_evaluator: false,
        update_export_resolution: false,
        check_export_evaluator: false,
        disable_ui_flag: false,
        compile_failed: false,
    }
}

impl Flags {
    /// The flags after the preview-resize request was taken.
    pub open spec fn preview_resize_taken(self) -> Flags {
        Flags { update_preveiw_resolution: false, ..self }
    }

    /// The flags after the export-resize request was taken.
    pub open spec fn export_resize_taken(self) -> Flags {
        Flags { update_export_resolution: false, ..self }
    }

    /// The flags after the compile request was taken.
    pub open spec fn compile_request_taken(self) -> Flags {
        Flags { update_evaluator_functions: false, ..self }
    }

    /// The flags after the redraw request was taken.
    pub open spec fn redraw_taken(self) -> Flags {
        Flags { update_preveiw_image: false, ..self }
    }

    /// The flags after the control request `req`.
    pub open spec fn requested(self, req: UiRequest) -> Flags {
        match req {
            UiRequest::Preview => Flags { run_preveiw_evaluator: true, ..self },
            UiRequest::Redraw => Flags { update_preveiw_image: true, ..self },
            UiRequest::PreviewResize => Flags {
                update_preveiw_resolution: true,
                update_preveiw_histogram: true,
                update_preveiw_image: true,
                ..self
            },
            UiRequest::ExportResize => Flags { update_export_resolution: true, ..self },
            UiRequest::Compile => Flags { update_evaluator_functions: true, ..self },
            UiRequest::Snapshot => Flags {
                snapshot_preveiw: true,
                run_preveiw_evaluator: true,
                ..self
            },
            UiRequest::Export => Flags { run_export_evaluator: true, ..self },
        }
    }

    /// The flags after installing compiled functions went as `outcome`.
    pub open spec fn compiled(self, outcome: CompileOutcome) -> Flags {
        match outcome {
            CompileOutcome::ModuleError => Flags { compile_failed: true, ..self },
            CompileOutcome::EvaluatorUnavailable => self,
            CompileOutcome::Installed { preview_ok, export_ok } => if preview_ok && export_ok {
                Flags { run_preveiw_evaluator: true, compile_failed: false, ..self }
            } else {
                Flags { compile_failed: true, ..self }
            },
        }
    }

    /// The flags after trying to launch a preview evaluation, which the
    /// evaluator `accepted` or not. A refused launch stays pending.
    pub open spec fn after_preview_launch(self, accepted: bool) -> Flags {
        if accepted {
            Flags {
                run_preveiw_evaluator: false,
                update_preveiw_histogram: true,
                disable_ui_flag: self.disable_ui_flag || self.snapshot_preveiw,
                ..self
            }
        } else {
            self
        }
    }

    /// The flags after the preview evaluation's histogram was collected.
    pub open spec fn after_preview_collect(self) -> Flags {
        Flags {
            update_preveiw_histogram: false,
            update_preveiw_image: true,
            snapshot_preveiw: false,
            disable_ui_flag: false,
            ..self
        }
    }

    /// The flags after trying to launch an export evaluation, which the
    /// evaluator `accepted` or not. A refused launch stays pending.
    pub open spec fn after_export_launch(self, accepted: bool) -> Flags {
        if accepted {
            Flags {
                disable_ui_flag: true,
                run_export_evaluator: false,
                check_export_evaluator: true,
                ..self
            }
        } else {
            self
        }
    }

    /// The flags after the export evaluation was collected and written out.
    pub open spec fn after_export_collect(self) -> Flags {
        Flags { check_export_evaluator: false, disable_ui_flag: false, ..self }
    }

    /// The flags the application starts with.
    pub fn new() -> (r: Self)
        ensures
            r == initial_flags(),
    {
        Flags {
            run_preveiw_evaluator: true,
            update_preveiw_resolution: false,
            update_preveiw_histogram: false,
            update_evaluator_functions: true,
            update_preveiw_image: false,
            snapshot_preveiw: false,
            run_export_evaluator: false,
            update_export_resolution: false,
            check_export_evaluator: false,
            disable_ui_flag: false,
            compile_failed: false,
        }
    }

    /// Records a request made through the controls.
    pub fn request(&mut self, req: UiRequest)
        ensures
            *final(self) == old(self).requested(req),
    {
        match req {
            UiRequest::Preview => {
                self.run_preveiw_evaluator = true;
            },
            UiRequest::Redraw => {
                self.update_preveiw_image = true;
            },
            UiRequest::PreviewResize => {
                self.update_preveiw_resolution = true;
                self.update_preveiw_histogram = true;
                self.update_preveiw_image = true;
            },
            UiRequest::ExportResize => {
                self.update_export_resolution = true;
            },
            UiRequest::Compile => {
                self.update_evaluator_functions = true;
            },
            UiRequest::Snapshot => {
                self.snapshot_preveiw = true;
                self.run_preveiw_evaluator = true;
            },
            UiRequest::Export => {
                self.run_export_evaluator = true;
            },
        }
    }

    /// Whether the preview has to be rebuilt at its new resolution; the
    /// request is consumed.
    pub fn take_preview_resize(&mut self) -> (r: bool)
        ensures
            r == old(self).update_preveiw_resolution,
            *final(self) == old(self).preview_resize_taken(),
    {
        let r = self.update_preveiw_resolution;
        self.update_preveiw_resolution = false;
        r
    }

    /// Whether the export evaluator has to be rebuilt at its new resolution;
    /// the request is consumed.
    pub fn take_export_resize(&mut self) -> (r: bool)
        ensures
            r == old(self).update_export_resolution,
            *final(self) == old(self).export_resize_taken(),
    {
        let r = self.update_export_resolution;
        self.update_export_resolution = false;
        r
    }

    /// Whether the functions have to be compiled and installed; the request
    /// is consumed.
    pub fn take_compile_request(&mut self) -> (r: bool)
        ensures
            r == old(self).update_evaluator_functions,
            *final(self) == old(self).compile_request_taken(),
    {
        let r = self.update_evaluator_functions;
        self.update_evaluator_functions = false;
        r
    }

    /// Records how installing compiled functions went: success schedules a
    /// preview and clears the error, a failure sets the error, and an
    /// unavailable evaluator changes nothing.
    pub fn finish_compile(&mut self, outcome: CompileOutcome)
        ensures
            *final(self) == old(self).compiled(outcome),
    {
        match outcome {
            CompileOutcome::ModuleError => {
                self.compile_failed = true;
            },
            CompileOutcome::EvaluatorUnavailable => {},
            CompileOutcome::Installed { preview_ok, export_ok } => {
                if preview_ok && export_ok {
                    self.run_preveiw_evaluator = true;
                    self.compile_failed = false;
                } else {
                    self.compile_failed = true;
                }
            },
        }
    }

    /// Records the attempt to launch a preview evaluation. The result says
    /// whether a snapshot has just been launched (the caller announces it).
    pub fn preview_launched(&mut self, accepted: bool) -> (snapshot: bool)
        ensures
            *final(self) == old(self).after_preview_launch(accepted),
            snapshot == (accepted && old(self).snapshot_preveiw),
    {
        if accepted {
            self.run_preveiw_evaluator = false;
            self.update_preveiw_histogram = true;
            if self.snapshot_preveiw {
                self.disable_ui_flag = true;
                return true;
            }
        }
        false
    }

    /// Records that the preview's histogram was collected.
    pub fn preview_collected(&mut self)
        ensures
            *final(self) == old(self).after_preview_collect(),
    {
        self.update_preveiw_histogram = false;
        self.update_preveiw_image = true;
        self.snapshot_preveiw = false;
        self.disable_ui_flag = false;
    }

    /// Whether the preview image has to be redrawn; the request is consumed.
    pub fn take_redraw(&mut self) -> (r: bool)
        ensures
            r == old(self).update_preveiw_image,
            *final(self) == old(self).redraw_taken(),
    {
        let r = self.update_preveiw_image;
        self.update_preveiw_image = false;
        r
    }

    /// Records the attempt to launch an export evaluation. The result says
    /// whether it was refused because a task is in progress (the caller
    /// reports it).
    pub fn export_launched(&mut self, accepted: bool) -> (refused: bool)
        ensures
            *final(self) == old(self).after_export_launch(accepted),
            refused == !accepted,
    {
        if accepted {
            self.disable_ui_flag = true;
            self.run_export_evaluator = false;
            self.check_export_evaluator = true;
        }
        !accepted
    }

    /// Records that the export was collected and written out.
    pub fn export_collected(&mut self)
        ensures
            *final(self) == old(self).after_export_collect(),
    {
        self.check_export_evaluator = false;
        self.disable_ui_flag = false;
    }
}

/// The iteration count of the next preview evaluation: the snapshot count
/// while a snapshot is pending, the ordinary count otherwise.
pub fn preview_iterations(flags: &Flags, params: &PreviewParams) -> (r: u64)
    ensures
        r == if flags.snapshot_preveiw {
            params.num_snapshot_iters.value
        } else {
            params.num_iters.value
        },
{
    if flags.snapshot_preveiw {
        params.get_num_snapshot_iters()
    } else {
        params.get_num_iters()
    }
}

/// A snapshot disables the controls from its launch until its histogram is
/// collected, and collecting it ends the snapshot and schedules a redraw.
pub proof fn lemma_snapshot_disables_controls(f: Flags)
    ensures
        f.requested(UiRequest::Snapshot).run_preveiw_evaluator,
        f.requested(UiRequest::Snapshot).after_preview_launch(true).disable_ui_flag,
        !f.requested(UiRequest::Snapshot).after_preview_launch(true).run_preveiw_evaluator,
        !f.requested(UiRequest::Snapshot).after_preview_launch(true).after_preview_collect().disable_ui_flag,
        !f.requested(UiRequest::Snapshot).after_preview_launch(true).after_preview_collect().snapshot_preveiw,
        f.requested(UiRequest::Snapshot).after_preview_launch(true).after_preview_collect().update_preveiw_image,
{
}

/// The compile error shows exactly when the last installation that reached
/// the evaluators, or the last compilation, failed; a successful
/// installation schedules a preview evaluation.
pub proof fn lemma_compile_failed_tracks_last_outcome(f: Flags, preview_ok: bool, export_ok: bool)
    ensures
        f.compiled(CompileOutcome::ModuleError).compile_failed,
        f.compiled(CompileOutcome::Installed { preview_ok, export_ok }).compile_failed == !(preview_ok && export_ok),
        (preview_ok && export_ok) ==> f.compiled(CompileOutcome::Installed { preview_ok, export_ok }).run_preveiw_evaluator,
        f.compiled(CompileOutcome::EvaluatorUnavailable) == f,
{
}

/// A preview requested while an evaluation is under way is not lost: the
/// launch is refused and the request stays pending; once the running
/// evaluation has finished and been collected, the next launch is accepted
/// and consumes the request.
pub proof fn lemma_busy_preview_request_is_kept(f: Flags, t: EvaluatorTask)
    requires
        t.is_running(),
    ensures
        !t.start_accepted(),
        f.requested(UiRequest::Preview).after_preview_launch(t.start_accepted()).run_preveiw_evaluator,
        t.collected(true).start_accepted(),
        !f.requested(UiRequest::Preview).after_preview_launch(t.start_accepted()).after_preview_launch(
            t.collected(true).start_accepted(),
        ).run_preveiw_evaluator,
{
    lemma_one_evaluation_at_a_time(t);
}

/// Each control request raises exactly the flags of its work and leaves every
/// other flag as it was: a preview, redraw, resize, compile, snapshot or
/// export request is never lost and never cancels another one.
pub proof fn lemma_requests_raise_their_flags(f: Flags)
    ensures
        f.requested(UiRequest::Preview) == (Flags { run_preveiw_evaluator: true, ..f }),
        f.requested(UiRequest::Redraw) == (Flags { update_preveiw_image: true, ..f }),
        f.requested(UiRequest::PreviewResize) == (Flags {
            update_preveiw_resolution: true,
            update_preveiw_histogram: true,
            update_preveiw_image: true,
            ..f
        }),
        f.requested(UiRequest::ExportResize) == (Flags { update_export_resolution: true, ..f }),
        f.requested(UiRequest::Compile) == (Flags { update_evaluator_functions: true, ..f }),
        f.requested(UiRequest::Snapshot) == (Flags {
            snapshot_preveiw: true,
            run_preveiw_evaluator: true,
            ..f
        }),
        f.requested(UiRequest::Export) == (Flags { run_export_evaluator: true, ..f }),
{
}

/// Taking a request clears that request and nothing else.
pub proof fn lemma_takes_clear_only_their_request(f: Flags)
    ensures
        f.preview_resize_taken() == (Flags { update_preveiw_resolution: false, ..f }),
        f.export_resize_taken() == (Flags { update_export_resolution: false, ..f }),
        f.compile_request_taken() == (Flags { update_evaluator_functions: false, ..f }),
        f.redraw_taken() == (Flags { update_preveiw_image: false, ..f }),
{
}

/// Installing compiled functions: a text that does not compile, or an
/// evaluator that refuses them, shows the compile error; success clears it
/// and asks for a preview; an unavailable evaluator changes nothing. No other
/// flag is touched.
pub proof fn lemma_compile_outcomes(f: Flags, preview_ok: bool, export_ok: bool)
    ensures
        f.compiled(CompileOutcome::ModuleError) == (Flags { compile_failed: true, ..f }),
        f.compiled(CompileOutcome::EvaluatorUnavailable) == f,
        preview_ok && export_ok ==> f.compiled(CompileOutcome::Installed { preview_ok, export_ok })
            == (Flags { run_preveiw_evaluator: true, compile_failed: false, ..f }),
        !(preview_ok && export_ok) ==> f.compiled(CompileOutcome::Installed { preview_ok, export_ok })
            == (Flags { compile_failed: true, ..f }),
{
}

/// Launching and collecting evaluations. A refused launch changes nothing, so
/// its request stays pending. An accepted preview launch consumes the request
/// and waits for the histogram, disabling the controls for a snapshot.
/// Collecting the preview ends the wait and the snapshot, asks for a redraw
/// and enables the controls, and leaves a pending preview request (raised
/// while the run was going) pending. An accepted export disables the controls
/// until it is collected, and collecting it enables them again.
pub proof fn lemma_launches_and_collections(f: Flags)
    ensures
        f.after_preview_launch(false) == f,
        f.after_preview_launch(true) == (Flags {
            run_preveiw_evaluator: false,
            update_preveiw_histogram: true,
            disable_ui_flag: f.disable_ui_flag || f.snapshot_preveiw,
            ..f
        }),
        f.after_preview_collect() == (Flags {
            update_preveiw_histogram: false,
            update_preveiw_image: true,
            snapshot_preveiw: false,
            disable_ui_flag: false,
            ..f
        }),
        f.after_preview_collect().run_preveiw_evaluator == f.run_preveiw_evaluator,
        f.after_export_launch(false) == f,
        f.after_export_launch(true) == (Flags {
            disable_ui_flag: true,
            run_export_evaluator: false,
            check_export_evaluator: true,
            ..f
        }),
        f.after_export_collect() == (Flags {
            check_export_evaluator: false,
            disable_ui_flag: false,
            ..f
        }),
{
}

/// The application starts with a preview run and a compilation of the
/// functions pending, the controls enabled, no error shown and nothing else
/// to do.
pub proof fn lemma_initial_flags()
    ensures
        initial_flags().run_preveiw_evaluator,
        initial_flags().update_evaluator_functions,
        !initial_flags().update_preveiw_resolution,
        !initial_flags().update_preveiw_histogram,
        !initial_flags().update_preveiw_image,
        !initial_flags().snapshot_preveiw,
        !initial_flags().run_export_evaluator,
        !initial_flags().update_export_resolution,
        !initial_flags().check_export_evaluator,
        !initial_flags().disable_ui_flag,
        !initial_flags().compile_failed,
{
}

} // verus!
