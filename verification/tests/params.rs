use ifs_render::params::{iterations_per_thread, ExportParams, FormulacParams, PreviewParams};

#[test]
fn preview_settings_start_values() {
    let p = PreviewParams::new(8);
    assert_eq!(p.get_frame(), [1000, 1000]);
    assert_eq!(p.get_num_iters(), 1000000);
    assert_eq!(p.get_num_snapshot_iters(), 10000000);
    assert_eq!(p.get_num_threads(), 8);
    assert_eq!(p.frame[0].text, "1000");
    assert_eq!(p.num_snapshot_iters.text, "10000000");
    assert_eq!(p.num_threads.text, "8");
}

#[test]
fn preview_frame_follows_edited_boxes() {
    let mut p = PreviewParams::new(1);
    p.frame[0].text = "640".to_string();
    p.frame[1].text = "480".to_string();
    assert!(p.frame[0].update().is_ok());
    assert!(p.frame[1].update().is_ok());
    assert_eq!(p.get_frame(), [640, 480]);
    p.frame[1].text = "big".to_string();
    assert!(p.frame[1].update().is_err());
    assert_eq!(p.get_frame(), [640, 480]);
}

#[test]
fn export_settings_start_values() {
    let e = ExportParams::new(4);
    assert_eq!(e.get_frame(), [2000, 2000]);
    assert_eq!(e.get_num_iters(), 1000000);
    assert_eq!(e.get_file_name(), "output.png");
    assert_eq!(e.num_threads.value, 4);
}

#[test]
fn export_thread_count_reads_iterations() {
    let mut e = ExportParams::new(4);
    assert_eq!(e.get_num_threads(), 1000000);
    e.num_iters.text = "25".to_string();
    assert!(e.num_iters.update().is_ok());
    assert_eq!(e.get_num_threads(), 25);
}

#[test]
fn evaluator_settings_hold_thread_count() {
    let p = FormulacParams { num_threads: 6 };
    assert_eq!(p.num_threads, 6);
}

#[test]
fn iterations_are_split_evenly_between_threads() {
    assert_eq!(iterations_per_thread(1000000, 8), 125000);
    assert_eq!(iterations_per_thread(10, 3), 3);
    assert_eq!(iterations_per_thread(2, 5), 0);
    assert_eq!(iterations_per_thread(0, 1), 0);
}
