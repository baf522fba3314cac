//! Layout and timing of what the display shows.
//!
//! Drawing is up to whoever owns the panel. This module says where each
//! line of text goes and how the boot animation moves through time.

use vstd::prelude::*;

verus! {

/// Vertical distance between two lines of text, in pixels.
pub const LINE_SPACING: i32 = 12;

/// Column at which the partition table shows the sizes, in pixels.
pub const PARTITION_SIZE_COLUMN: i32 = 72;

/// Duration of the rise of the title, in milliseconds.
pub const RISE_MS: u32 = 900;

/// Duration of the ripples, and with them of the animation, in milliseconds.
pub const RIPPLE_MS: u32 = 1_500;

/// First millisecond at which the sparkle shows.
pub const SPARKLE_START_MS: u32 = 1_100;

/// Last millisecond at which the sparkle shows.
pub const SPARKLE_END_MS: u32 = 1_400;

/// Time between two frames, in milliseconds.
pub const FRAME_MS: u32 = 33;

/// Time for which the last frame stays, in milliseconds.
pub const FINAL_HOLD_MS: u32 = 400;

/// What follows a frame of the animation.
#[derive(Clone, Copy, Debug, PartialEq, Eq, Structural)]
pub enum FrameStep {
    /// Wait for `delay_ms`, then draw the frame for time `t_ms`.
    Next { delay_ms: u32, t_ms: u32 },
    /// Wait for `hold_ms`; the animation is over.
    Last { hold_ms: u32 },
}

/// Top edge of the text line at `index`, counted from the top of the panel.
pub fn line_top(index: usize) -> (y: i32)
    requires
        index * LINE_SPACING <= i32::MAX,
    ensures
        y == index * LINE_SPACING,
{
    (index as i32) * LINE_SPACING
}

/// Top edge of the row for the partition at `index`, below the heading of
/// the partition table.
pub fn partition_row_top(index: usize) -> (y: i32)
    requires
        (index + 1) * LINE_SPACING <= i32::MAX,
    ensures
        y == (index + 1) * LINE_SPACING,
{
    ((index + 1) as i32) * LINE_SPACING
}

/// The two lines of the boot progress screen.
pub fn boot_progress_lines<'a>(message: &'a str) -> (lines: [&'a str; 2])
    ensures
        lines@[0]@ == "Booting ESP32"@,
        lines@[1]@ == message@,
{
    ["Booting ESP32", message]
}

/// The four lines of the application information screen.
pub fn app_info_lines<'a>(app_name: &'a str, app_version: &'a str) -> (lines: [&'a str; 4])
    ensures
        lines@[0]@ == "TrustG33k"@,
        lines@[1]@ == app_name@,
        lines@[2]@ == "Version"@,
        lines@[3]@ == app_version@,
{
    ["TrustG33k", app_name, "Version", app_version]
}

/// Milliseconds of the span `span_ms` that have passed at time `t_ms`: the
/// time itself, capped at the span. Over the span it is the fraction of the
/// rise, or of the ripples, that is done.
pub fn elapsed_of(t_ms: u32, span_ms: u32) -> (elapsed: u32)
    ensures
        elapsed == if t_ms <= span_ms { t_ms } else { span_ms },
{
    if t_ms <= span_ms {
        t_ms
    } else {
        span_ms
    }
}

/// Whether the sparkle shows in the frame for time `t_ms`.
pub fn sparkle_shown(t_ms: u32) -> (shown: bool)
    ensures
        shown == (SPARKLE_START_MS <= t_ms <= SPARKLE_END_MS),
{
    SPARKLE_START_MS <= t_ms && t_ms <= SPARKLE_END_MS
}

/// What follows the frame for time `t_ms`: the next frame 33 ms later, or,
/// once the ripples are over, the final hold.
pub fn after_frame(t_ms: u32) -> (step: FrameStep)
    ensures
        t_ms >= RIPPLE_MS ==> step == (FrameStep::Last { hold_ms: FINAL_HOLD_MS }),
        t_ms < RIPPLE_MS ==> step == (FrameStep::Next {
            delay_ms: FRAME_MS,
            t_ms: (t_ms + FRAME_MS) as u32,
        }),
{
    if t_ms >= RIPPLE_MS {
        FrameStep::Last { hold_ms: FINAL_HOLD_MS }
    } else {
        FrameStep::Next { delay_ms: FRAME_MS, t_ms: t_ms.saturating_add(FRAME_MS) }
    }
}

/// Number of frames that the animation still draws from time `t_ms` on, the
/// frame for `t_ms` included.
pub open spec fn frames_from(t_ms: int) -> nat
    decreases RIPPLE_MS + FRAME_MS - t_ms,
{
    if t_ms >= RIPPLE_MS {
        1
    } else {
        1 + frames_from(t_ms + FRAME_MS)
    }
}

/// The animation ends: each frame but the last leaves fewer frames to draw,
/// and from time zero it draws 47 frames, the last at 1518 ms.
pub proof fn lemma_animation_ends(t_ms: u32)
    ensures
        t_ms < RIPPLE_MS ==> frames_from(t_ms + FRAME_MS) < frames_from(t_ms as int),
        frames_from(0) == 47,
{
    reveal_with_fuel(frames_from, 48);
}

} // verus!
