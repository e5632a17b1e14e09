use nannou_imageutil::capture::{CaptureError, CaptureHelper};

#[test]
fn construction_fixes_output_dimensions() {
    let mut helper = CaptureHelper::from_main_window(1, 4, [64, 64]);
    helper.render_image(10);
    let req = helper.write_to_file(String::from("out/1.png"), true).unwrap();
    assert_eq!(req.width, 64);
    assert_eq!(req.height, 64);
    assert_eq!(req.path, "out/1.png");
}

#[test]
fn dimensions_kept_over_many_frames() {
    let mut helper = CaptureHelper::from_main_window(1, 1, [1920, 1080]);
    for frame in 0..5u64 {
        helper.render_image(frame * 100);
        let req = helper.write_to_file(format!("out/{}.png", frame), true).unwrap();
        assert_eq!(req.width, 1920);
        assert_eq!(req.height, 1080);
    }
    assert_eq!(helper.close(true), Ok(5));
}

#[test]
fn from_window_id_rejects_missing_window() {
    let built = CaptureHelper::from_window_id(9, false, 4, [32, 32]);
    assert!(matches!(built, Err(CaptureError::InvalidWindow)));
}

#[test]
fn from_window_id_builds_for_existing_window() {
    let mut helper = CaptureHelper::from_window_id(9, true, 4, [32, 32]).unwrap();
    helper.render_image(3);
    let req = helper.write_to_file(String::from("out/a.png"), true).unwrap();
    assert_eq!(req.width, 32);
    assert_eq!(req.height, 32);
    assert_eq!(req.snapshot.content, 3);
}

#[test]
fn second_write_without_render_is_refused() {
    let mut helper = CaptureHelper::from_main_window(1, 4, [64, 64]);
    helper.render_image(5);
    assert!(helper.write_to_file(String::from("out/1.png"), true).is_ok());
    let second = helper.write_to_file(String::from("out/2.png"), true);
    assert!(matches!(second, Err(CaptureError::NoPendingSnapshot)));
}

#[test]
fn write_before_any_render_is_refused() {
    let mut helper = CaptureHelper::from_main_window(1, 4, [64, 64]);
    let first = helper.write_to_file(String::from("out/1.png"), true);
    assert!(matches!(first, Err(CaptureError::NoPendingSnapshot)));
}

#[test]
fn write_persists_only_the_last_of_repeated_renders() {
    let mut helper = CaptureHelper::from_main_window(1, 4, [64, 64]);
    helper.render_image(100);
    helper.render_image(200);
    helper.render_image(300);
    let req = helper.write_to_file(String::from("out/last.png"), true).unwrap();
    assert_eq!(req.snapshot.content, 300);
    assert_eq!(req.snapshot.frame, 2);
    // The overwritten intermediate frames were dropped, never written:
    // exactly one read is in flight.
    assert_eq!(helper.active_snapshots(), 1);
}

#[test]
fn close_drains_every_in_flight_read() {
    let mut helper = CaptureHelper::from_main_window(1, 4, [64, 64]);
    helper.render_image(1);
    helper.write_to_file(String::from("out/1.png"), true).unwrap();
    helper.render_image(2);
    helper.write_to_file(String::from("out/2.png"), true).unwrap();
    assert_eq!(helper.active_snapshots(), 2);
    assert_eq!(helper.close(true), Ok(2));
    assert_eq!(helper.active_snapshots(), 0);
}

#[test]
fn close_timeout_changes_nothing_and_may_be_retried() {
    let mut helper = CaptureHelper::from_main_window(1, 4, [64, 64]);
    helper.render_image(1);
    helper.write_to_file(String::from("out/1.png"), true).unwrap();
    assert_eq!(helper.close(false), Err(CaptureError::MapTimeout));
    assert_eq!(helper.active_snapshots(), 1);
    assert_eq!(helper.close(true), Ok(1));
    assert_eq!(helper.active_snapshots(), 0);
}

#[test]
fn display_without_render_shows_previous_content() {
    let mut helper = CaptureHelper::from_main_window(1, 4, [64, 64]);
    assert_eq!(helper.display_in_window(), None);
    helper.render_image(42);
    assert_eq!(helper.display_in_window(), Some(42));
    // A write consumes the snapshot but leaves the target's content:
    // displaying again re-shows the same frame, with no implicit render.
    helper.write_to_file(String::from("out/1.png"), true).unwrap();
    assert_eq!(helper.display_in_window(), Some(42));
    assert_eq!(helper.display_in_window(), Some(42));
}

#[test]
fn refused_read_loses_the_frame() {
    let mut helper = CaptureHelper::from_main_window(1, 4, [64, 64]);
    helper.render_image(8);
    // The worker pool refused the read: the write times out, nothing is
    // in flight, and the snapshot was consumed all the same.
    let refused = helper.write_to_file(String::from("out/1.png"), false);
    assert!(matches!(refused, Err(CaptureError::MapTimeout)));
    assert_eq!(helper.active_snapshots(), 0);
    let again = helper.write_to_file(String::from("out/1.png"), true);
    assert!(matches!(again, Err(CaptureError::NoPendingSnapshot)));
}

#[test]
fn single_frame_end_to_end() {
    // One 64 by 64 frame with a circle drawn: render, write, close.
    let circle_content = 7;
    let mut helper = CaptureHelper::from_main_window(1, 4, [64, 64]);
    helper.render_image(circle_content);
    let req = helper.write_to_file(String::from("out/1.png"), true).unwrap();
    assert_eq!(req.path, "out/1.png");
    assert_eq!((req.width, req.height), (64, 64));
    assert_eq!(req.snapshot.content, circle_content);
    assert_eq!(helper.close(true), Ok(1));
}

#[test]
fn two_frames_end_to_end_are_distinct() {
    // Two animated frames, each rendered and written in turn: after the
    // drain both writes went out, and they carry distinct content.
    let mut helper = CaptureHelper::from_main_window(1, 4, [64, 64]);
    helper.render_image(10);
    let first = helper.write_to_file(String::from("out/1.png"), true).unwrap();
    helper.render_image(20);
    let second = helper.write_to_file(String::from("out/2.png"), true).unwrap();
    assert_eq!(helper.close(true), Ok(2));
    assert_ne!(first.snapshot.content, second.snapshot.content);
    assert_ne!(first.snapshot.frame, second.snapshot.frame);
    assert_ne!(first.path, second.path);
}
