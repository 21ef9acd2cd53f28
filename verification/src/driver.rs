//! One turn of the driver: movement, then a full repaint. The caller owns
//! the loop around it — draw the frame, block for the next event, decide
//! whether it quits — because only this part computes.

use vstd::prelude::*;

use crate::grid::TileMap;
use crate::input::TerminalEvent;
use crate::movement::next_entities;
use crate::movement::on_event;
use crate::render::RenderBuffer;
use crate::render::buffer_frame;
use crate::render::is_frame;
use crate::render::render;
use crate::world::Vec2;
use crate::world::World;
use crate::world::player_pos;

verus! {

/// Runs the movement system on the latest event, then recomposes the
/// frame from the updated store, handing back the player's position for
/// the cursor.
pub fn tick(ev: &TerminalEvent, m: &TileMap, world: &mut World, buf: &mut RenderBuffer) -> (cursor:
    Vec2)
    requires
        m.wf(),
        old(world).wf(*m),
        m.width <= u32::MAX,
        m.height <= u32::MAX,
    ensures
        final(world).entities@ == next_entities(old(world).entities@, ev.0, *m),
        final(world).wf(*m),
        is_frame(buffer_frame(*final(buf)), *m, final(world).entities@),
        cursor == player_pos(final(world).entities@),
{
    on_event(ev, m, world);
    render(buf, m, world)
}

} // verus!
