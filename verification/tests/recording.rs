use winrec::clock::FpsClock;
use winrec::frame::Image;
use winrec::geometry::Geometry;
use winrec::recorder::{CaptureTick, Recorder};
use winrec::settings::RecordSettings;
use winrec::window::Window;

fn image(tag: u8) -> Image {
    let mut data = vec![0u8; 2 * 2 * 4];
    data[0] = tag;
    Image::new(data, Geometry::new(0, 0, 2, 2))
}

fn good_tick(tag: u8) -> CaptureTick {
    CaptureTick { frame: Some(image(tag)), stop_signal: false }
}

fn recorder(fps: u32) -> Recorder {
    Recorder::new(
        Window::new(1, Geometry::new(0, 0, 2, 2)),
        fps,
        RecordSettings::new(fps, 0, 60, 10, 0, 0, false),
    )
}

#[test]
fn test_clock_intervals() {
    let clock = FpsClock::new(10);
    assert_eq!(clock.interval_ns, 100_000_000);
    assert_eq!(clock.sleep_time(30_000_000), 70_000_000);
    assert_eq!(clock.sleep_time(100_000_000), 0);
    assert_eq!(clock.sleep_time(250_000_000), 0);
    let oneshot = FpsClock::for_delay_ms(500);
    assert_eq!(oneshot.interval_ns, 500_000_000);
}

#[test]
fn test_clock_average_interval_over_twenty_ticks() {
    // at 10 frames per second, 20 ticks with varying work still span
    // 20 * 100 ms: the average inter-tick interval is exactly 100 ms
    let clock = FpsClock::new(10);
    let mut total: u64 = 0;
    for i in 0..20u64 {
        let work = (i * 7_000_000) % 100_000_000;
        total += work + clock.sleep_time(work);
    }
    assert_eq!(total, 2_000_000_000);
    assert_eq!(total / 20, 100_000_000);
}

#[test]
fn test_sync_recording_count_for_short_duration() {
    // 0.3 s at 10 frames per second: exactly 3 frames, within the 3 +/- 1 band
    let rec = recorder(10);
    let ticks: Vec<CaptureTick> = (0..10).map(|i| good_tick(i as u8)).collect();
    let (frames, skipped) = rec.record_sync(&ticks, Some(300));
    assert_eq!(frames.images.len(), 3);
    assert_eq!(frames.fps, 10);
    assert_eq!(skipped, 0);
    assert!((frames.images.len() as i64 - 3).abs() <= 1);
}

#[test]
fn test_sync_recording_keeps_capture_order() {
    let rec = recorder(10);
    let ticks: Vec<CaptureTick> = (0..5).map(|i| good_tick(10 + i as u8)).collect();
    let (frames, _) = rec.record_sync(&ticks, Some(10_000));
    assert_eq!(frames.images.len(), 5);
    for (i, img) in frames.images.iter().enumerate() {
        assert_eq!(img.data[0], 10 + i as u8);
    }
}

#[test]
fn test_sync_recording_skips_failed_captures() {
    let rec = recorder(10);
    let ticks = vec![
        good_tick(1),
        CaptureTick { frame: None, stop_signal: false },
        good_tick(3),
        CaptureTick { frame: Some(image(4)), stop_signal: true },
        good_tick(5),
    ];
    let (frames, skipped) = rec.record_sync(&ticks, None);
    assert_eq!(skipped, 1);
    assert_eq!(frames.images.len(), 3);
    assert_eq!(frames.images[0].data[0], 1);
    assert_eq!(frames.images[1].data[0], 3);
    assert_eq!(frames.images[2].data[0], 4);
}

#[test]
fn test_stop_signal_ends_recording_after_its_capture() {
    let rec = recorder(10);
    let ticks = vec![
        good_tick(1),
        CaptureTick { frame: Some(image(2)), stop_signal: true },
        good_tick(3),
    ];
    let (frames, _) = rec.record_sync(&ticks, None);
    assert_eq!(frames.images.len(), 2);
}

#[test]
fn test_async_recording_is_non_empty() {
    // the worker loop of the command-driven mode: no duration cap, the
    // stop signal comes while the command runs; at least one frame is kept
    let rec = recorder(10);
    let ticks = vec![
        good_tick(1),
        good_tick(2),
        CaptureTick { frame: Some(image(3)), stop_signal: true },
        good_tick(4),
    ];
    let (frames, skipped) = rec.record_async(&ticks);
    assert!(!frames.images.is_empty());
    assert_eq!(frames.images.len(), 3);
    assert_eq!(skipped, 0);
}

#[test]
fn test_recording_with_no_ticks_is_empty() {
    let rec = recorder(10);
    let (frames, skipped) = rec.record_sync(&Vec::new(), Some(300));
    assert!(frames.images.is_empty());
    assert_eq!(skipped, 0);
}
