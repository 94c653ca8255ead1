use screencast::capture::{CaptureTarget, Frame, MonitorEntry, ScapCapturer, VideoErrors, XCapCapturer, Yuv420Layout};

#[test]
fn test_scap_capturer_creation() {
    // The system lists one display (and a window).
    let targets: Vec<CaptureTarget<&str, &str>> =
        vec![CaptureTarget::Window("terminal"), CaptureTarget::Display("primary")];
    let capturer = ScapCapturer::new(targets);
    assert!(capturer.is_ok(), "Should be able to create ScapCapturer");
}

#[test]
fn primary_display_is_the_first_display() {
    let targets: Vec<CaptureTarget<u32, u32>> = vec![
        CaptureTarget::Window(1),
        CaptureTarget::Display(2),
        CaptureTarget::Display(3),
    ];
    match ScapCapturer::get_primary_display(targets) {
        Ok(CaptureTarget::Display(id)) => assert_eq!(id, 2),
        _ => panic!("Expected the first display"),
    }
    let capturer = ScapCapturer::new(vec![CaptureTarget::<u32, u32>::Display(5)]).unwrap();
    assert!(matches!(capturer.target(), CaptureTarget::Display(5)));
}

#[test]
fn no_display_means_no_monitor() {
    let targets: Vec<CaptureTarget<u32, u32>> = vec![CaptureTarget::Window(1)];
    assert_eq!(ScapCapturer::get_primary_display(targets).err(), Some(VideoErrors::NoMonitorFound));
    let none: Vec<CaptureTarget<u32, u32>> = Vec::new();
    assert_eq!(ScapCapturer::new(none).err(), Some(VideoErrors::NoMonitorFound));
}

#[test]
fn primary_monitor_is_the_first_reporting_primary() {
    let monitors: Result<Vec<MonitorEntry<&str>>, ()> = Ok(vec![
        MonitorEntry { monitor: "left", is_primary: None },
        MonitorEntry { monitor: "middle", is_primary: Some(false) },
        MonitorEntry { monitor: "right", is_primary: Some(true) },
        MonitorEntry { monitor: "other", is_primary: Some(true) },
    ]);
    assert_eq!(XCapCapturer::get_primary_monitor(monitors), Some("right"));
    let failed: Result<Vec<MonitorEntry<&str>>, &str> = Err("no display server");
    assert_eq!(XCapCapturer::get_primary_monitor(failed), None);
}

#[test]
fn xcap_capturer_needs_a_primary_monitor() {
    let none: Result<Vec<MonitorEntry<u8>>, ()> =
        Ok(vec![MonitorEntry { monitor: 1, is_primary: Some(false) }]);
    assert_eq!(XCapCapturer::new(none).err(), Some(VideoErrors::NoMonitorFound));
    let one: Result<Vec<MonitorEntry<u8>>, ()> =
        Ok(vec![MonitorEntry { monitor: 4, is_primary: Some(true) }]);
    assert_eq!(*XCapCapturer::new(one).ok().unwrap().monitor(), 4);
}

#[test]
fn yuv_layout_of_an_even_frame() {
    let frame = Frame { width: 4, height: 2, data: vec![0; 32] };
    let layout = Yuv420Layout::for_frame(&frame).unwrap();
    assert_eq!(layout, Yuv420Layout { width: 4, height: 2, y_size: 8, uv_size: 2 });
    assert_eq!(layout.total(), 12);
}

#[test]
fn yuv_layout_refuses_odd_or_short_frames() {
    let odd = Frame { width: 3, height: 2, data: vec![0; 24] };
    assert_eq!(Yuv420Layout::for_frame(&odd), Err(VideoErrors::CannotCapture));
    let short = Frame { width: 2, height: 2, data: vec![0; 15] };
    assert_eq!(Yuv420Layout::for_frame(&short), Err(VideoErrors::CannotCapture));
}

#[test]
fn video_error_messages() {
    assert_eq!(VideoErrors::NoMonitorFound.message(), "No monitor found to record.");
    assert_eq!(VideoErrors::CannotCapture.message(), "An error occurred during screen capturing.");
}
