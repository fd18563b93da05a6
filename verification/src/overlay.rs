//! Timing and placement rules of the animated overlay window. The window
//! itself is drawn by the shell; the library fixes how long it must stay
//! visible and where it stands on the screen.

use vstd::prelude::*;

verus! {

/// Duration of one animation frame, in milliseconds.
pub const FRAME_DURATION_MS: u64 = 150;

/// Frames of the intro animation.
pub const INTRO_FRAMES: u64 = 5;

/// Frames of the outro animation.
pub const OUTRO_FRAMES: u64 = 4;

/// Running-animation cycles the overlay shows at the very least.
pub const MIN_RUNNING_CYCLES: u64 = 2;

/// Frames in one running-animation cycle.
pub const FRAMES_PER_CYCLE: u64 = 2;

/// The least time the overlay stays visible: the intro plus the minimum
/// number of running cycles.
pub open spec fn min_display_ms_spec() -> int {
    FRAME_DURATION_MS * (INTRO_FRAMES + MIN_RUNNING_CYCLES * FRAMES_PER_CYCLE)
}

/// How long to keep the overlay up after the pipeline finished `elapsed_ms`
/// milliseconds into its minimum display window.
pub open spec fn display_wait_spec(elapsed_ms: u64) -> int {
    if elapsed_ms >= min_display_ms_spec() {
        0
    } else {
        min_display_ms_spec() - elapsed_ms
    }
}

/// The minimum overlay display time, in milliseconds.
pub fn min_display_ms() -> (r: u64)
    ensures
        r as int == min_display_ms_spec(),
{
    FRAME_DURATION_MS * (INTRO_FRAMES + MIN_RUNNING_CYCLES * FRAMES_PER_CYCLE)
}

/// The wait still owed to the overlay once the pipeline has finished, so the
/// animation never visibly truncates.
pub fn remaining_display_wait(elapsed_ms: u64) -> (r: u64)
    ensures
        r as int == display_wait_spec(elapsed_ms),
        elapsed_ms + r >= min_display_ms_spec(),
{
    let min = min_display_ms();
    if elapsed_ms >= min {
        0
    } else {
        min - elapsed_ms
    }
}

/// The wait that lets the outro animation complete before the overlay is
/// hidden, with a small buffer.
pub fn outro_wait_ms() -> (r: u64)
    ensures
        r as int == FRAME_DURATION_MS * OUTRO_FRAMES + 100,
{
    FRAME_DURATION_MS * OUTRO_FRAMES + 100
}

/// Where the overlay stands: at a fixed offset from the bottom-right corner
/// of the screen, above the taskbar.
pub fn overlay_position(screen_width: u32, screen_height: u32) -> (r: (i32, i32))
    requires
        screen_width <= i32::MAX,
        screen_height <= i32::MAX,
    ensures
        r.0 as int == screen_width - 120,
        r.1 as int == screen_height - 150,
{
    (screen_width as i32 - 120, screen_height as i32 - 150)
}

/// Law: the overlay's visible time honors the minimum display duration even
/// when the pipeline completes instantly — the elapsed time plus the wait
/// still owed always covers the intro and the minimum running cycles.
pub proof fn lemma_overlay_minimum_display(elapsed_ms: u64)
    ensures
        elapsed_ms + display_wait_spec(elapsed_ms) >= FRAME_DURATION_MS * (INTRO_FRAMES
            + MIN_RUNNING_CYCLES * FRAMES_PER_CYCLE),
{
}

} // verus!
