use scg::frame::{frame_sleep_us, FrameClock, TARGET_FPS};
use scg::logger::{log_stat, test_log, Level};
use scg::overlay::{fps_draw_system, fps_text, frame_time_text};
use scg::window::window_conf;

#[test]
fn begin_frame_carries_partial_milliseconds() {
    let mut clock = FrameClock::new(1_000);
    assert_eq!(clock.begin_frame(1_000), 0);
    assert_eq!(clock.begin_frame(9_333), 8);
    assert_eq!(clock.simulated_until_us, 9_000);
    assert_eq!(clock.begin_frame(17_666), 8);
    assert_eq!(clock.begin_frame(18_000), 1);
    assert_eq!(clock.simulated_until_us, 18_000);
}

#[test]
fn begin_frame_with_earlier_time_is_zero() {
    let mut clock = FrameClock::new(50_000);
    assert_eq!(clock.begin_frame(10_000), 0);
    assert_eq!(clock.simulated_until_us, 50_000);
}

#[test]
fn refresh_stats_once_a_second() {
    let mut clock = FrameClock::new(0);
    assert!(!clock.refresh_stats(999_999, 60, 16_000));
    assert_eq!((clock.fps, clock.frame_time_us), (0, 0));
    assert!(clock.refresh_stats(1_000_000, 60, 16_000));
    assert_eq!((clock.fps, clock.frame_time_us, clock.stats_since_us), (60, 16_000, 1_000_000));
    assert!(!clock.refresh_stats(1_500_000, 120, 8_000));
    assert_eq!(clock.fps, 60);
    assert!(clock.refresh_stats(2_000_001, 120, 8_000));
    assert_eq!(clock.fps, 120);
}

#[test]
fn sleep_fills_the_frame_period() {
    assert_eq!(frame_sleep_us(TARGET_FPS, 0, 0), 8_333);
    assert_eq!(frame_sleep_us(TARGET_FPS, 100, 3_100), 5_333);
    assert_eq!(frame_sleep_us(TARGET_FPS, 0, 8_333), 0);
    assert_eq!(frame_sleep_us(TARGET_FPS, 0, 20_000), 0);
    assert_eq!(frame_sleep_us(0, 0, 0), 0);
    assert_eq!(frame_sleep_us(60, 500, 100), 16_666);
}

#[test]
fn overlay_texts() {
    assert_eq!(fps_text(120), "FPS: 120");
    assert_eq!(fps_text(0), "FPS: 0");
    assert_eq!(fps_text(-5), "FPS: -5");
    assert_eq!(fps_text(i32::MIN), "FPS: -2147483648");
    assert_eq!(frame_time_text(8_333), "Frame Time: 8.33 ms");
    assert_eq!(frame_time_text(16_666), "Frame Time: 16.67 ms");
    assert_eq!(frame_time_text(0), "Frame Time: 0.00 ms");
    assert_eq!(frame_time_text(1_005), "Frame Time: 1.01 ms");
    assert_eq!(frame_time_text(123_456_789), "Frame Time: 123456.79 ms");
}

#[test]
fn overlay_lines_placement() {
    let lines = fps_draw_system(8_333, 120);
    assert_eq!(lines.len(), 2);
    assert_eq!(lines[0].text, "FPS: 120");
    assert_eq!((lines[0].x, lines[0].y, lines[0].size), (20, 50, 30));
    assert_eq!(lines[1].text, "Frame Time: 8.33 ms");
    assert_eq!((lines[1].x, lines[1].y, lines[1].size), (20, 80, 30));
}

#[test]
fn stat_record() {
    let r = log_stat("frames: 10");
    assert_eq!(r.level, Level::Info);
    assert_eq!(r.target, "stat");
    assert_eq!(r.message, "frames: 10");
}

#[test]
fn test_log_records() {
    let records = test_log();
    let levels: Vec<Level> = records.iter().map(|r| r.level).collect();
    assert_eq!(levels, vec![Level::Trace, Level::Debug, Level::Info, Level::Warn, Level::Error, Level::Info]);
    assert_eq!(records[0].message, "This is a trace message");
    assert_eq!(records[3].message, "This is an warn message");
    assert_eq!(records[4].target, "scg");
    assert_eq!(records[5].target, "stat");
    assert_eq!(records[5].message, "This is a stat message");
}

#[test]
fn window_settings() {
    let conf = window_conf();
    assert_eq!(conf.title, "Macroquad + Hecs + ResourceManager");
    assert_eq!((conf.width, conf.height), (800, 600));
    assert!(!conf.fullscreen);
    assert!(conf.high_dpi);
    assert_eq!(conf.sample_count, 1);
    assert!(!conf.vsync);
}

#[test]
fn begin_frame_caps_huge_gaps() {
    let mut clock = FrameClock::new(0);
    assert_eq!(clock.begin_frame(u64::MAX), u32::MAX);
    assert_eq!(clock.simulated_until_us, u32::MAX as u64 * 1000);
}
