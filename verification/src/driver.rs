//! The per-iteration decision of the main loop. The unverified shell drains
//! the window system's events, measures elapsed time, and hands both to
//! [`step`]; it then performs the returned action (draw a frame, or stop) and
//! sleeps out the iteration's time budget.

use vstd::prelude::*;
use crate::animation::spec_frame_index;
use crate::animation::animation_frame;
use crate::color::COUNTER_MODULUS;
use crate::color::Rgb;
use crate::color::spec_background_color;
use crate::color::spec_next_counter;
use crate::color::background_color;
use crate::color::next_counter;
use crate::geometry::TILE_WIDTH;
use crate::geometry::TILE_HEIGHT;
use crate::geometry::Point;
use crate::geometry::Rect;
use crate::geometry::spec_frame_region;
use crate::geometry::spec_screen_position;
use crate::geometry::screen_position_fits;
use crate::geometry::frame_region;
use crate::geometry::screen_position;
use crate::input::InputEvent;
use crate::input::any_quit;
use crate::input::should_quit;

verus! {

/// The animated subject: a world-space position and the sprite-sheet region
/// currently on display.
#[derive(Clone, Copy, PartialEq, Eq, Structural, Debug)]
pub struct Entity {
    pub position: Point,
    pub display_region: Rect,
}

impl Entity {
    /// A new entity at `position`, showing the first frame of the strip.
    pub fn new(position: Point) -> (entity: Entity)
        ensures
            entity.position == position,
            entity.display_region == spec_frame_region(0),
    {
        Entity { position, display_region: frame_region(0) }
    }

    /// Recompute the displayed region from elapsed time. Only the region's
    /// x-origin varies; the position is left untouched.
    pub fn update(&mut self, elapsed_ms: u64)
        ensures
            final(self).position == old(self).position,
            final(self).display_region == spec_frame_region(
                spec_frame_index(elapsed_ms as int),
            ),
    {
        let frame = animation_frame(elapsed_ms);
        self.display_region = frame_region(frame);
    }
}

/// State the loop threads from one iteration to the next.
#[derive(Clone, Copy, PartialEq, Eq, Structural, Debug)]
pub struct LoopState {
    /// Color-cycle counter; see [`crate::color`].
    pub counter: u8,
}

/// The loop's invariant: the counter has wrapped below its modulus.
pub open spec fn loop_state_inv(state: LoopState) -> bool {
    state.counter < COUNTER_MODULUS
}

impl LoopState {
    /// The state before the first iteration.
    pub fn new() -> (state: LoopState)
        ensures
            state.counter == 0,
            loop_state_inv(state),
    {
        LoopState { counter: 0 }
    }
}

/// One frame's worth of drawing: clear the canvas to `background`, blit
/// `sprite_src` from the sprite sheet onto `sprite_dest`, present.
#[derive(Clone, Copy, PartialEq, Eq, Structural, Debug)]
pub struct RenderCommand {
    pub background: Rgb,
    pub sprite_src: Rect,
    pub sprite_dest: Rect,
}

/// What one iteration does: stop cleanly, or draw a frame.
#[derive(Clone, Copy, PartialEq, Eq, Structural, Debug)]
pub enum LoopAction {
    Halt,
    Render(RenderCommand),
}

/// The drawing owed for counter value `counter` and entity `entity` on a
/// canvas of the given size.
pub open spec fn spec_render_command(
    counter: int,
    entity: Entity,
    canvas_width: u32,
    canvas_height: u32,
) -> RenderCommand {
    RenderCommand {
        background: spec_background_color(counter),
        sprite_src: entity.display_region,
        sprite_dest: Rect {
            x: spec_screen_position(entity.position, canvas_width, canvas_height).x,
            y: spec_screen_position(entity.position, canvas_width, canvas_height).y,
            width: TILE_WIDTH,
            height: TILE_HEIGHT,
        },
    }
}

/// One iteration of the loop. A quit event among the drained `events` halts
/// it before any update or render; otherwise the counter advances, the
/// entity's frame is recomputed from `elapsed_ms`, and the returned command
/// says exactly what to draw.
pub fn step(
    state: &mut LoopState,
    entity: &mut Entity,
    events: &Vec<InputEvent>,
    elapsed_ms: u64,
    canvas_width: u32,
    canvas_height: u32,
) -> (action: LoopAction)
    requires
        loop_state_inv(*old(state)),
        screen_position_fits(old(entity).position, canvas_width, canvas_height),
    ensures
        loop_state_inv(*final(state)),
        final(entity).position == old(entity).position,
        any_quit(events@) ==> {
            &&& action is Halt
            &&& *final(state) == *old(state)
            &&& *final(entity) == *old(entity)
        },
        !any_quit(events@) ==> {
            &&& final(state).counter == spec_next_counter(old(state).counter as int)
            &&& final(entity).display_region == spec_frame_region(
                spec_frame_index(elapsed_ms as int),
            )
            &&& action == LoopAction::Render(
                spec_render_command(
                    final(state).counter as int,
                    *final(entity),
                    canvas_width,
                    canvas_height,
                ),
            )
        },
{
    if should_quit(events) {
        return LoopAction::Halt;
    }
    state.counter = next_counter(state.counter);
    entity.update(elapsed_ms);
    let background = background_color(state.counter);
    let dest_origin = screen_position(entity.position, canvas_width, canvas_height);
    let sprite_dest = Rect {
        x: dest_origin.x,
        y: dest_origin.y,
        width: TILE_WIDTH,
        height: TILE_HEIGHT,
    };
    LoopAction::Render(RenderCommand { background, sprite_src: entity.display_region, sprite_dest })
}

} // verus!
