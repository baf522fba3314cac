use coop_kernel::menu::{write_label, MenuLabel};
use coop_kernel::oled::{
    after_frame, app_info_lines, boot_progress_lines, elapsed_of, line_top, partition_row_top,
    sparkle_shown, FrameStep, FINAL_HOLD_MS, FRAME_MS, LINE_SPACING, PARTITION_SIZE_COLUMN,
    RIPPLE_MS, RISE_MS, SPARKLE_END_MS, SPARKLE_START_MS,
};
use coop_kernel::screen::{fill_visible_lines, line_at, Scroller};

const PREFIX: [&str; 7] =
    ["TrustG33k OS", "-----------", "App Name", "kernel", "Version", "0.1.0", "Partitions"];
const SUFFIX: [&str; 2] = ["Use buttons", "UP/DOWN to scroll"];

fn partition_lines() -> Vec<MenuLabel> {
    vec![
        write_label(&["app", ": ", "1MB"]),
        write_label(&["data", ": ", "512KB"]),
        write_label(&["ota_0", ": ", "1MB"]),
        write_label(&["ota_1", ": ", "1MB"]),
    ]
}

#[test]
fn line_at_walks_heading_partitions_footer() {
    let partitions = partition_lines();
    assert_eq!(line_at(0, &PREFIX, &partitions, &SUFFIX), Some("TrustG33k OS"));
    assert_eq!(line_at(6, &PREFIX, &partitions, &SUFFIX), Some("Partitions"));
    assert_eq!(line_at(7, &PREFIX, &partitions, &SUFFIX), Some("app: 1MB"));
    assert_eq!(line_at(10, &PREFIX, &partitions, &SUFFIX), Some("ota_1: 1MB"));
    assert_eq!(line_at(11, &PREFIX, &partitions, &SUFFIX), Some("Use buttons"));
    assert_eq!(line_at(12, &PREFIX, &partitions, &SUFFIX), Some("UP/DOWN to scroll"));
    assert_eq!(line_at(13, &PREFIX, &partitions, &SUFFIX), None);
    assert_eq!(line_at(usize::MAX, &PREFIX, &partitions, &SUFFIX), None);
}

#[test]
fn line_at_with_empty_sections() {
    let none: [MenuLabel; 0] = [];
    assert_eq!(line_at(0, &[], &none, &[]), None);
    assert_eq!(line_at(0, &[], &none, &SUFFIX), Some("Use buttons"));
    let partitions = partition_lines();
    assert_eq!(line_at(0, &[], &partitions, &[]), Some("app: 1MB"));
    assert_eq!(line_at(4, &[], &partitions, &[]), None);
}

#[test]
fn fill_shows_five_lines_from_the_start() {
    let partitions = partition_lines();
    let mut buffer = vec!["stale"];
    fill_visible_lines(&mut buffer, &PREFIX, &partitions, &SUFFIX, 0, 13);
    assert_eq!(buffer, vec!["TrustG33k OS", "-----------", "App Name", "kernel", "Version"]);
    fill_visible_lines(&mut buffer, &PREFIX, &partitions, &SUFFIX, 5, 13);
    assert_eq!(buffer, vec!["0.1.0", "Partitions", "app: 1MB", "data: 512KB", "ota_0: 1MB"]);
}

#[test]
fn fill_is_cut_at_the_end_of_the_screen() {
    let partitions = partition_lines();
    let mut buffer = Vec::new();
    fill_visible_lines(&mut buffer, &PREFIX, &partitions, &SUFFIX, 10, 13);
    assert_eq!(buffer, vec!["ota_1: 1MB", "Use buttons", "UP/DOWN to scroll"]);
    fill_visible_lines(&mut buffer, &PREFIX, &partitions, &SUFFIX, 12, 13);
    assert_eq!(buffer, vec!["UP/DOWN to scroll"]);
}

#[test]
fn fill_clears_when_there_is_nothing_to_show() {
    let partitions = partition_lines();
    let mut buffer = vec!["stale"];
    fill_visible_lines(&mut buffer, &PREFIX, &partitions, &SUFFIX, 0, 0);
    assert!(buffer.is_empty());
    let mut buffer = vec!["stale"];
    fill_visible_lines(&mut buffer, &PREFIX, &partitions, &SUFFIX, 13, 13);
    assert!(buffer.is_empty());
    let mut buffer = vec!["stale"];
    fill_visible_lines(&mut buffer, &PREFIX, &partitions, &SUFFIX, 20, 13);
    assert!(buffer.is_empty());
}

#[test]
fn fill_follows_the_total_it_is_given() {
    let partitions = partition_lines();
    let mut buffer = Vec::new();
    // A smaller total cuts the window short.
    fill_visible_lines(&mut buffer, &PREFIX, &partitions, &SUFFIX, 0, 3);
    assert_eq!(buffer, vec!["TrustG33k OS", "-----------", "App Name"]);
    // A larger total cannot show lines that do not exist.
    fill_visible_lines(&mut buffer, &PREFIX, &partitions, &SUFFIX, 11, usize::MAX);
    assert_eq!(buffer, vec!["Use buttons", "UP/DOWN to scroll"]);
    fill_visible_lines(&mut buffer, &PREFIX, &partitions, &SUFFIX, usize::MAX - 2, usize::MAX);
    assert!(buffer.is_empty());
}

#[test]
fn scroller_moves_one_line_per_press() {
    let mut scroller = Scroller::new();
    assert_eq!(scroller, Scroller { offset: 0, up_pressed: false, down_pressed: false });
    assert!(scroller.step(false, true, 13));
    assert_eq!(scroller.offset, 1);
    assert!(!scroller.step(false, true, 13));
    assert_eq!(scroller.offset, 1);
    assert!(!scroller.step(false, false, 13));
    assert!(scroller.step(true, false, 13));
    assert_eq!(scroller.offset, 0);
    assert!(!scroller.step(true, false, 13));
}

#[test]
fn scroller_stays_on_the_screen() {
    let mut scroller = Scroller::new();
    assert!(!scroller.step(true, false, 13));
    assert_eq!(scroller.offset, 0);
    scroller.step(false, false, 13);
    let mut moves = 0;
    for _ in 0..20 {
        if scroller.step(false, true, 13) {
            moves += 1;
        }
        scroller.step(false, false, 13);
    }
    assert_eq!(moves, 8);
    assert_eq!(scroller.offset, 8);
}

#[test]
fn scroller_does_not_scroll_a_short_screen() {
    let mut scroller = Scroller::new();
    assert!(!scroller.step(false, true, 5));
    scroller.step(false, false, 5);
    assert!(!scroller.step(false, true, 3));
    scroller.step(false, false, 3);
    assert!(!scroller.step(false, true, 0));
    scroller.step(false, false, 0);
    assert!(scroller.step(false, true, 6));
    assert_eq!(scroller.offset, 1);
}

#[test]
fn scroller_reads_up_before_down() {
    let mut scroller = Scroller { offset: 8, up_pressed: false, down_pressed: false };
    // Up frees the line that down then takes back.
    assert!(scroller.step(true, true, 13));
    assert_eq!(scroller, Scroller { offset: 8, up_pressed: true, down_pressed: true });
}

#[test]
fn layout_constants() {
    assert_eq!(LINE_SPACING, 12);
    assert_eq!(PARTITION_SIZE_COLUMN, 72);
    assert_eq!(RISE_MS, 900);
    assert_eq!(RIPPLE_MS, 1500);
    assert_eq!(SPARKLE_START_MS, 1100);
    assert_eq!(SPARKLE_END_MS, 1400);
    assert_eq!(FRAME_MS, 33);
    assert_eq!(FINAL_HOLD_MS, 400);
}

#[test]
fn lines_are_twelve_pixels_apart() {
    assert_eq!(line_top(0), 0);
    assert_eq!(line_top(1), 12);
    assert_eq!(line_top(4), 48);
    assert_eq!(partition_row_top(0), 12);
    assert_eq!(partition_row_top(3), 48);
}

#[test]
fn fixed_screens() {
    assert_eq!(boot_progress_lines("Starting..."), ["Booting ESP32", "Starting..."]);
    assert_eq!(app_info_lines("kernel", "0.1.0"), ["TrustG33k", "kernel", "Version", "0.1.0"]);
}

#[test]
fn elapsed_is_capped_at_the_span() {
    assert_eq!(elapsed_of(0, RISE_MS), 0);
    assert_eq!(elapsed_of(450, RISE_MS), 450);
    assert_eq!(elapsed_of(900, RISE_MS), 900);
    assert_eq!(elapsed_of(901, RISE_MS), 900);
    assert_eq!(elapsed_of(u32::MAX, RIPPLE_MS), 1500);
}

#[test]
fn sparkle_window_is_inclusive() {
    assert!(!sparkle_shown(1099));
    assert!(sparkle_shown(1100));
    assert!(sparkle_shown(1400));
    assert!(!sparkle_shown(1401));
    assert!(!sparkle_shown(0));
}

#[test]
fn animation_runs_forty_seven_frames() {
    assert_eq!(after_frame(0), FrameStep::Next { delay_ms: 33, t_ms: 33 });
    assert_eq!(after_frame(1485), FrameStep::Next { delay_ms: 33, t_ms: 1518 });
    assert_eq!(after_frame(1499), FrameStep::Next { delay_ms: 33, t_ms: 1532 });
    assert_eq!(after_frame(1500), FrameStep::Last { hold_ms: 400 });
    assert_eq!(after_frame(u32::MAX), FrameStep::Last { hold_ms: 400 });
    let mut frames = 1;
    let mut t_ms = 0;
    let mut waited = 0;
    loop {
        match after_frame(t_ms) {
            FrameStep::Next { delay_ms, t_ms: next } => {
                waited += delay_ms;
                t_ms = next;
                frames += 1;
            }
            FrameStep::Last { hold_ms } => {
                waited += hold_ms;
                break;
            }
        }
    }
    assert_eq!(frames, 47);
    assert_eq!(t_ms, 1518);
    assert_eq!(waited, 46 * 33 + 400);
}
