//! The render system: composes the character frame a turn is drawn as.
//! Writing the frame to a terminal is left to the surrounding program.

use vstd::prelude::*;

use crate::grid::TileMap;
use crate::tile::tile_char;
use crate::world::Body;
use crate::world::Entity;
use crate::world::Vec2;
use crate::world::World;
use crate::world::player_pos;

verus! {

/// The frame buffer reused across turns: one row of glyphs per map row.
#[derive(Clone, Debug)]
pub struct RenderBuffer {
    pub rows: Vec<Vec<char>>,
}

impl Default for RenderBuffer {
    /// An empty buffer; the first render fills it.
    fn default() -> (r: Self)
        ensures
            r.rows@.len() == 0,
    {
        RenderBuffer { rows: Vec::new() }
    }
}

/// The glyph of the last entity in `s` that is drawn at (x, y): an entity
/// carries a glyph there when it has both a body at (x, y) and an image.
/// Later entities overdraw earlier ones.
pub open spec fn draw_at(s: Seq<Entity>, x: int, y: int) -> Option<char>
    decreases s.len(),
{
    if s.len() == 0 {
        None
    } else {
        let e = s.last();
        if e.body is Some && e.img is Some && e.body->Some_0.pos.x == x && e.body->Some_0.pos.y
            == y {
            Some(e.img->Some_0.0)
        } else {
            draw_at(s.drop_last(), x, y)
        }
    }
}

/// The character shown at cell (x, y): the topmost entity glyph there,
/// or the glyph of the terrain tile under it.
pub open spec fn frame_cell(m: TileMap, s: Seq<Entity>, x: int, y: int) -> char {
    match draw_at(s, x, y) {
        Some(c) => c,
        None => tile_char(m.tile_at(x, y)),
    }
}

/// `f` is the frame that map `m` and entities `s` compose: height rows of
/// width glyphs, each cell as `frame_cell` gives it.
pub open spec fn is_frame(f: Seq<Seq<char>>, m: TileMap, s: Seq<Entity>) -> bool {
    &&& f.len() == m.height
    &&& forall|y: int| 0 <= y < m.height ==> (#[trigger] f[y]).len() == m.width
    &&& forall|x: int, y: int|
        0 <= x < m.width && 0 <= y < m.height ==> #[trigger] f[y][x] == frame_cell(m, s, x, y)
}

/// The rows a buffer holds, as a sequence of glyph rows.
pub open spec fn buffer_frame(b: RenderBuffer) -> Seq<Seq<char>> {
    Seq::new(b.rows@.len(), |y: int| b.rows@[y]@)
}

/// The character cell (x, y) is drawn as.
fn cell_at(m: &TileMap, world: &World, x: usize, y: usize) -> (c: char)
    requires
        m.wf(),
        x < m.width,
        y < m.height,
    ensures
        c == frame_cell(*m, world.entities@, x as int, y as int),
{
    let n = world.entities.len();
    proof {
        assert(world.entities@.take(n as int) =~= world.entities@);
    }
    let mut i: usize = n;
    while i > 0
        invariant
            n == world.entities@.len(),
            i <= n,
            draw_at(world.entities@, x as int, y as int) == draw_at(
                world.entities@.take(i as int),
                x as int,
                y as int,
            ),
        decreases i,
    {
        i = i - 1;
        proof {
            assert(world.entities@.take(i + 1).drop_last() =~= world.entities@.take(i as int));
            assert(world.entities@.take(i + 1).last() == world.entities@[i as int]);
        }
        let e = &world.entities[i];
        match (e.body, e.img) {
            (Some(b), Some(img)) => {
                if b.pos.x as usize == x && b.pos.y as usize == y {
                    return img.0;
                }
            },
            _ => {},
        }
    }
    m.index(x, y).to_char()
}

/// The render system. Recomposes the whole frame from the map and every
/// entity that has both a body and an image — a full repaint, later
/// entities overdrawing earlier ones — and hands back the player's
/// position, where the caller parks the cursor.
pub fn render(buf: &mut RenderBuffer, m: &TileMap, world: &World) -> (cursor: Vec2)
    requires
        m.wf(),
        world.wf(*m),
    ensures
        is_frame(buffer_frame(*final(buf)), *m, world.entities@),
        cursor == player_pos(world.entities@),
{
    let mut rows: Vec<Vec<char>> = Vec::new();
    let mut y: usize = 0;
    while y < m.height
        invariant
            m.wf(),
            y <= m.height,
            rows@.len() == y,
            forall|yy: int| 0 <= yy < y ==> (#[trigger] rows@[yy])@.len() == m.width,
            forall|xx: int, yy: int|
                0 <= xx < m.width && 0 <= yy < y ==> #[trigger] (rows@[yy])@[xx] == frame_cell(
                    *m,
                    world.entities@,
                    xx,
                    yy,
                ),
        decreases m.height - y,
    {
        let mut row: Vec<char> = Vec::new();
        let mut x: usize = 0;
        while x < m.width
            invariant
                m.wf(),
                y < m.height,
                x <= m.width,
                row@.len() == x,
                forall|xx: int|
                    0 <= xx < x ==> #[trigger] row@[xx] == frame_cell(
                        *m,
                        world.entities@,
                        xx,
                        y as int,
                    ),
            decreases m.width - x,
        {
            row.push(cell_at(m, world, x, y));
            x = x + 1;
        }
        rows.push(row);
        y = y + 1;
    }
    buf.rows = rows;
    let p = world.find_player();
    let pbody = match world.entities[p].body {
        Some(b) => b,
        None => {
            proof {
                assert(false);
            }
            Body { pos: Vec2 { x: 0, y: 0 }, is_block: false }
        },
    };
    pbody.pos
}

/// Rendering is deterministic: two frames composed from the same map and
/// the same entity sequence are equal, cell for cell and as wholes.
pub proof fn lemma_render_deterministic(
    f1: Seq<Seq<char>>,
    f2: Seq<Seq<char>>,
    m: TileMap,
    s: Seq<Entity>,
)
    requires
        is_frame(f1, m, s),
        is_frame(f2, m, s),
    ensures
        f1 == f2,
{
    assert forall|y: int| 0 <= y < f1.len() implies f1[y] =~= f2[y] by {
        assert(f1[y].len() == m.width);
        assert(f2[y].len() == m.width);
        assert forall|x: int| 0 <= x < f1[y].len() implies f1[y][x] == f2[y][x] by {
            assert(f1[y][x] == frame_cell(m, s, x, y));
            assert(f2[y][x] == frame_cell(m, s, x, y));
        }
    }
    assert(f1 =~= f2);
}

} // verus!
