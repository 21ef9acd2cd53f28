//! Collision resolution and the movement system: one input event moves the
//! player by one tile, or not at all.

use vstd::prelude::*;

use crate::dir::Dir8;
use crate::dir::dir_delta;
use crate::dir::key_dir;
use crate::dir::key_to_dir;
use crate::grid::TileMap;
use crate::input::InputEvent;
use crate::input::KeyCode;
use crate::input::TerminalEvent;
use crate::world::Body;
use crate::world::Entity;
use crate::world::Vec2;
use crate::world::World;
use crate::world::bodies_of;
use crate::world::body_in_bounds;
use crate::world::has_sole_player;
use crate::world::is_player;
use crate::world::player_index;
use crate::world::sole_player_at;

verus! {

/// A move into (x, y) is illegal when the target lies outside the map
/// rectangle, or a blocking body already occupies it. Terrain is not
/// consulted: a wall tile stops nobody unless a blocking body sits on it.
pub open spec fn blocked_at(x: int, y: int, m: TileMap, bodies: Seq<Body>) -> bool {
    !m.spec_in_bounds(x, y) || exists|i: int|
        0 <= i < bodies.len() && (#[trigger] bodies[i]).is_block && bodies[i].pos.x == x
            && bodies[i].pos.y == y
}

/// The collision resolver: decides whether a move into (x, y) is illegal.
/// Pure; reads the map rectangle and the given bodies, nothing else.
pub fn is_block(x: i64, y: i64, m: &TileMap, bodies: &Vec<Body>) -> (r: bool)
    ensures
        r == blocked_at(x as int, y as int, *m, bodies@),
        !m.spec_in_bounds(x as int, y as int) ==> r,
        m.spec_in_bounds(x as int, y as int) && (exists|i: int|
            0 <= i < bodies@.len() && (#[trigger] bodies@[i]).is_block && bodies@[i].pos.x == x
                && bodies@[i].pos.y == y) ==> r,
        m.spec_in_bounds(x as int, y as int) && (forall|i: int|
            0 <= i < bodies@.len() ==> !((#[trigger] bodies@[i]).is_block && bodies@[i].pos.x == x
                && bodies@[i].pos.y == y)) ==> !r,
{
    if x < 0 || y < 0 {
        return true;
    }
    if x as u64 >= m.width as u64 || y as u64 >= m.height as u64 {
        return true;
    }
    let n = bodies.len();
    let mut i: usize = 0;
    while i < n
        invariant
            n == bodies@.len(),
            i <= n,
            forall|j: int|
                0 <= j < i ==> !((#[trigger] bodies@[j]).is_block && bodies@[j].pos.x == x
                    && bodies@[j].pos.y == y),
        decreases n - i,
    {
        let b = &bodies[i];
        if b.is_block && b.pos.x as i64 == x && b.pos.y as i64 == y {
            return true;
        }
        i = i + 1;
    }
    false
}

/// The movement key carried by an event, if any.
pub open spec fn event_key(ev: Option<InputEvent>) -> Option<char> {
    match ev {
        Some(InputEvent::Key(k)) => match k.code {
            KeyCode::Char(c) => Some(c),
            _ => None,
        },
        _ => None,
    }
}

/// The direction an event asks for: a key press whose character is one of
/// the eight movement keys; anything else asks for none.
pub open spec fn event_dir(ev: Option<InputEvent>) -> Option<Dir8> {
    match event_key(ev) {
        Some(c) => key_dir(c),
        None => None,
    }
}

/// The entity whose body has moved to `pos`; every other component kept.
pub open spec fn with_body_at(e: Entity, pos: Vec2) -> Entity {
    Entity { body: Some(Body { pos, is_block: e.body->Some_0.is_block }), ..e }
}

/// What one movement step leaves in the store: the player's body shifted
/// one tile along the requested direction when the target is legal, and
/// the store untouched otherwise. Candidate coordinates are computed over
/// the unbounded integers, so a step off the low edge is out of bounds,
/// never wrapped.
pub open spec fn next_entities(s: Seq<Entity>, ev: Option<InputEvent>, m: TileMap) -> Seq<Entity> {
    match event_dir(ev) {
        None => s,
        Some(d) => {
            let p = player_index(s);
            let pos = s[p].body->Some_0.pos;
            let cx = pos.x + dir_delta(d).0;
            let cy = pos.y + dir_delta(d).1;
            if blocked_at(cx, cy, m, bodies_of(s)) {
                s
            } else {
                s.update(p, with_body_at(s[p], Vec2 { x: cx as u32, y: cy as u32 }))
            }
        },
    }
}

/// The movement system. Consumes the latest event; on a recognized key it
/// moves the sole player one tile in that direction unless the collision
/// resolver rejects the target, in which case the move is silently
/// dropped. Any other event is a no-op. The map rectangle must fit the
/// u32 coordinates entities carry.
pub fn on_event(ev: &TerminalEvent, m: &TileMap, world: &mut World)
    requires
        old(world).wf(*m),
        m.width <= u32::MAX,
        m.height <= u32::MAX,
    ensures
        final(world).entities@ == next_entities(old(world).entities@, ev.0, *m),
        final(world).wf(*m),
{
    let ghost s0 = world.entities@;
    let c = match &ev.0 {
        Some(InputEvent::Key(k)) => match k.code {
            KeyCode::Char(c) => c,
            _ => {
                return ;
            },
        },
        _ => {
            return ;
        },
    };
    let dir = match key_to_dir(c) {
        Some(d) => d,
        None => {
            return ;
        },
    };
    let p = world.find_player();
    let pbody = match world.entities[p].body {
        Some(b) => b,
        None => {
            proof {
                assert(sole_player_at(s0, player_index(s0)));
            }
            return ;
        },
    };
    let (dx, dy) = dir.to_vec();
    let cx: i64 = pbody.pos.x as i64 + dx as i64;
    let cy: i64 = pbody.pos.y as i64 + dy as i64;
    let bodies = world.bodies();
    if !is_block(cx, cy, m, &bodies) {
        let mut e = world.entities[p];
        e.body = Some(Body { pos: Vec2 { x: cx as u32, y: cy as u32 }, is_block: pbody.is_block });
        world.entities[p] = e;
        proof {
            let s1 = world.entities@;
            assert(s1 == s0.update(p as int, with_body_at(s0[p as int], e.body->Some_0.pos)));
            assert(sole_player_at(s1, p as int));
            assert(has_sole_player(s1));
            assert(player_index(s1) == p as int) by {
                let q = player_index(s1);
                assert(sole_player_at(s1, q));
            }
            assert forall|i: int| 0 <= i < s1.len() implies body_in_bounds(
                #[trigger] s1[i],
                *m,
            ) by {
                if i != p as int {
                    assert(body_in_bounds(s0[i], *m));
                }
            }
        }
    }
}

/// An absent event, a non-key event, or an unrecognized key leaves the
/// entity store exactly as it was.
pub proof fn lemma_noop_event(s: Seq<Entity>, ev: Option<InputEvent>, m: TileMap)
    requires
        event_dir(ev) is None,
    ensures
        next_entities(s, ev, m) == s,
{
}

} // verus!
