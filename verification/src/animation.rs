//! Frame selection: maps elapsed time to the index of the sprite-sheet frame
//! to display, and maps a frame index to the sub-rectangle of the sheet.

use vstd::prelude::*;

verus! {

/// Milliseconds each animation frame stays on screen.
pub const FRAME_DURATION_MS: u64 = 120;

/// Number of frames in the sprite strip.
pub const FRAME_COUNT: u64 = 4;

/// The frame shown after `elapsed_ms` milliseconds, for the fixed
/// 120 ms / 4-frame strip of this demo.
pub open spec fn spec_frame_index(elapsed_ms: int) -> int {
    (elapsed_ms / (FRAME_DURATION_MS as int)) % (FRAME_COUNT as int)
}

/// Frame selector with explicit parameters: how long each frame lasts and how
/// many frames the strip holds.
pub fn frame_index(elapsed_ms: u64, frame_duration_ms: u64, frame_count: u64) -> (idx: u64)
    requires
        frame_duration_ms > 0,
        frame_count > 0,
    ensures
        idx == (elapsed_ms as int / frame_duration_ms as int) % (frame_count as int),
        idx < frame_count,
{
    (elapsed_ms / frame_duration_ms) % frame_count
}

/// Frame selector specialised to this demo's strip: 4 frames of 120 ms each.
pub fn animation_frame(elapsed_ms: u64) -> (idx: u64)
    ensures
        idx == spec_frame_index(elapsed_ms as int),
        idx < FRAME_COUNT,
{
    frame_index(elapsed_ms, FRAME_DURATION_MS, FRAME_COUNT)
}

/// The frame index is a pure function of elapsed time and always lands in
/// `[0, 3]`, for every non-negative elapsed duration.
pub proof fn lemma_frame_index_range(elapsed_ms: int)
    requires
        elapsed_ms >= 0,
    ensures
        0 <= spec_frame_index(elapsed_ms) <= 3,
{
}

} // verus!
