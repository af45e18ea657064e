use ifs_render::flags::{preview_iterations, CompileOutcome, Flags, UiRequest};
use ifs_render::frame::{FrameAction, FrameEvent, FramePhase};
use ifs_render::params::PreviewParams;
use ifs_render::task::{EvaluatorTask, TaskError};

#[test]
fn task_runs_one_evaluation_at_a_time() {
    let mut t = EvaluatorTask::new();
    assert!(!t.check_eval(true));
    assert_eq!(t.try_start(), Ok(()));
    assert_eq!(t.try_start(), Err(TaskError::InProgress));
    assert!(!t.check_eval(false));
    assert!(t.check_eval(true));
    assert!(!t.collect(false));
    assert!(t.check_eval(true));
    assert!(t.collect(true));
    assert!(!t.check_eval(true));
    assert!(!t.collect(true));
    assert_eq!(t.try_start(), Ok(()));
}

fn flag_tuple(f: &Flags) -> [bool; 11] {
    [
        f.run_preveiw_evaluator,
        f.update_preveiw_resolution,
        f.update_preveiw_histogram,
        f.update_evaluator_functions,
        f.update_preveiw_image,
        f.snapshot_preveiw,
        f.run_export_evaluator,
        f.update_export_resolution,
        f.check_export_evaluator,
        f.disable_ui_flag,
        f.compile_failed,
    ]
}

#[test]
fn flags_start_with_preview_and_compile_pending() {
    let f = Flags::new();
    assert_eq!(
        flag_tuple(&f),
        [true, false, false, true, false, false, false, false, false, false, false]
    );
}

#[test]
fn requests_set_their_flags() {
    let mut f = Flags::new();
    f.run_preveiw_evaluator = false;
    f.update_evaluator_functions = false;
    f.request(UiRequest::PreviewResize);
    assert!(f.update_preveiw_resolution && f.update_preveiw_histogram && f.update_preveiw_image);
    assert!(!f.run_preveiw_evaluator);
    f.request(UiRequest::Snapshot);
    assert!(f.snapshot_preveiw && f.run_preveiw_evaluator);
    f.request(UiRequest::Export);
    assert!(f.run_export_evaluator);
    f.request(UiRequest::ExportResize);
    assert!(f.update_export_resolution);
    f.request(UiRequest::Compile);
    assert!(f.update_evaluator_functions);
}

#[test]
fn takes_consume_requests_once() {
    let mut f = Flags::new();
    f.request(UiRequest::Redraw);
    f.request(UiRequest::PreviewResize);
    f.request(UiRequest::ExportResize);
    assert!(f.take_preview_resize());
    assert!(!f.take_preview_resize());
    assert!(f.take_export_resize());
    assert!(!f.take_export_resize());
    assert!(f.take_compile_request());
    assert!(!f.take_compile_request());
    assert!(f.take_redraw());
    assert!(!f.take_redraw());
    assert!(f.update_preveiw_histogram);
}

#[test]
fn compile_outcomes() {
    let mut f = Flags::new();
    f.run_preveiw_evaluator = false;
    f.finish_compile(CompileOutcome::ModuleError);
    assert!(f.compile_failed);
    assert!(!f.run_preveiw_evaluator);
    f.finish_compile(CompileOutcome::EvaluatorUnavailable);
    assert!(f.compile_failed);
    f.finish_compile(CompileOutcome::Installed { preview_ok: true, export_ok: false });
    assert!(f.compile_failed);
    f.finish_compile(CompileOutcome::Installed { preview_ok: true, export_ok: true });
    assert!(!f.compile_failed);
    assert!(f.run_preveiw_evaluator);
}

#[test]
fn snapshot_disables_controls_until_collected() {
    let mut f = Flags::new();
    f.request(UiRequest::Snapshot);
    assert!(!f.preview_launched(false));
    assert!(f.run_preveiw_evaluator);
    assert!(!f.disable_ui_flag);
    assert!(f.preview_launched(true));
    assert!(f.disable_ui_flag);
    assert!(!f.run_preveiw_evaluator);
    assert!(f.update_preveiw_histogram);
    f.preview_collected();
    assert!(!f.disable_ui_flag);
    assert!(!f.snapshot_preveiw);
    assert!(!f.update_preveiw_histogram);
    assert!(f.update_preveiw_image);
}

#[test]
fn ordinary_preview_launch_leaves_controls_enabled() {
    let mut f = Flags::new();
    assert!(!f.preview_launched(true));
    assert!(!f.disable_ui_flag);
    assert!(!f.run_preveiw_evaluator);
}

#[test]
fn export_launch_and_collection() {
    let mut f = Flags::new();
    f.request(UiRequest::Export);
    assert!(f.export_launched(false));
    assert!(f.run_export_evaluator);
    assert!(!f.export_launched(true));
    assert!(!f.run_export_evaluator);
    assert!(f.check_export_evaluator);
    assert!(f.disable_ui_flag);
    f.export_collected();
    assert!(!f.check_export_evaluator);
    assert!(!f.disable_ui_flag);
}

#[test]
fn busy_preview_request_is_kept() {
    let mut f = Flags::new();
    let mut t = EvaluatorTask::new();
    assert!(t.try_start().is_ok());
    f.run_preveiw_evaluator = false;
    f.request(UiRequest::Preview);
    let accepted = t.try_start().is_ok();
    f.preview_launched(accepted);
    assert!(f.run_preveiw_evaluator);
    assert!(t.collect(true));
    let accepted = t.try_start().is_ok();
    f.preview_launched(accepted);
    assert!(!f.run_preveiw_evaluator);
}

#[test]
fn preview_iterations_follow_snapshot_flag() {
    let p = PreviewParams::new(2);
    let mut f = Flags::new();
    assert_eq!(preview_iterations(&f, &p), 1000000);
    f.request(UiRequest::Snapshot);
    assert_eq!(preview_iterations(&f, &p), 10000000);
}

#[test]
fn one_frame_serves_every_resize_compile_and_redraw_request() {
    let mut f = Flags::new();
    for req in [UiRequest::PreviewResize, UiRequest::ExportResize, UiRequest::Compile, UiRequest::Redraw] {
        f.request(req);
    }
    if f.take_preview_resize() {}
    if f.take_export_resize() {}
    if f.take_compile_request() {
        f.finish_compile(CompileOutcome::Installed { preview_ok: true, export_ok: true });
    }
    if f.run_preveiw_evaluator {
        f.preview_launched(true);
    }
    f.preview_collected();
    assert!(f.update_preveiw_image);
    f.take_redraw();
    if f.run_export_evaluator {
        f.export_launched(false);
    }
    assert!(!f.update_preveiw_resolution);
    assert!(!f.update_export_resolution);
    assert!(!f.update_evaluator_functions);
    assert!(!f.update_preveiw_image);
}

/// Drives one frame with the given outcomes and returns the actions asked for.
fn drive_frame(
    f: &mut Flags,
    compile: CompileOutcome,
    preview_accepted: bool,
    preview_done: bool,
    export_accepted: bool,
    export_done: bool,
) -> Vec<FrameAction> {
    let mut actions = vec![];
    let mut phase = FramePhase::Start;
    let mut event = FrameEvent::Ready;
    for _ in 0..12 {
        let (next, action) = f.frame_step(phase, event);
        phase = next;
        actions.push(action);
        event = match action {
            FrameAction::Compile => FrameEvent::Compiled(compile),
            FrameAction::LaunchPreview { .. } => FrameEvent::Launched(preview_accepted),
            FrameAction::CollectPreview => FrameEvent::Collected(preview_done),
            FrameAction::LaunchExport => FrameEvent::Launched(export_accepted),
            FrameAction::CollectExport => FrameEvent::Collected(export_done),
            FrameAction::Done => break,
            _ => FrameEvent::Ready,
        };
    }
    assert_eq!(phase, FramePhase::Finished);
    actions
}

#[test]
fn first_frame_compiles_launches_and_serves_requests() {
    let mut f = Flags::new();
    f.request(UiRequest::Redraw);
    f.request(UiRequest::PreviewResize);
    let actions = drive_frame(
        &mut f,
        CompileOutcome::Installed { preview_ok: true, export_ok: true },
        true,
        false,
        false,
        false,
    );
    assert_eq!(
        actions,
        vec![
            FrameAction::RebuildPreview,
            FrameAction::Compile,
            FrameAction::LaunchPreview { snapshot: false },
            FrameAction::CollectPreview,
            FrameAction::Redraw,
            FrameAction::CollectExport,
            FrameAction::Done,
        ]
    );
    assert!(!f.update_preveiw_resolution && !f.update_evaluator_functions && !f.update_preveiw_image);
    assert!(!f.run_preveiw_evaluator);
    assert!(f.update_preveiw_histogram);
    assert!(!f.compile_failed);
}

#[test]
fn snapshot_and_busy_export_frame() {
    let mut f = Flags::new();
    f.run_preveiw_evaluator = false;
    f.update_evaluator_functions = false;
    for r in [UiRequest::Snapshot, UiRequest::Export, UiRequest::ExportResize] {
        f.request(r);
    }
    let actions = drive_frame(&mut f, CompileOutcome::ModuleError, true, true, false, false);
    assert_eq!(
        actions,
        vec![
            FrameAction::RebuildExport,
            FrameAction::LaunchPreview { snapshot: true },
            FrameAction::AnnounceSnapshot,
            FrameAction::CollectPreview,
            FrameAction::Redraw,
            FrameAction::LaunchExport,
            FrameAction::ReportExportBusy,
            FrameAction::CollectExport,
            FrameAction::Done,
        ]
    );
    assert!(!f.snapshot_preveiw && !f.disable_ui_flag);
    assert!(f.run_export_evaluator);
    assert!(!f.update_preveiw_image && !f.update_export_resolution);
    assert!(!f.compile_failed);
}

#[test]
fn failed_compile_frame_reports_error_and_skips_preview() {
    let mut f = Flags::new();
    f.run_preveiw_evaluator = false;
    let actions = drive_frame(&mut f, CompileOutcome::ModuleError, true, false, true, true);
    assert_eq!(
        actions,
        vec![FrameAction::Compile, FrameAction::CollectPreview, FrameAction::CollectExport, FrameAction::Done]
    );
    assert!(f.compile_failed);
    assert!(!f.update_evaluator_functions);
}

#[test]
fn finished_frame_stays_finished() {
    let mut f = Flags::new();
    let (phase, action) = f.frame_step(FramePhase::Finished, FrameEvent::Launched(true));
    assert_eq!(phase, FramePhase::Finished);
    assert_eq!(action, FrameAction::Done);
    assert!(f.run_preveiw_evaluator && f.update_evaluator_functions);
}
