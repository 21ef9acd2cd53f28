use gridwalk::dir::{key_to_dir, Dir8};
use gridwalk::grid::TileMap;
use gridwalk::input::{should_quit, InputEvent, KeyCode, KeyEvent, TerminalEvent};
use gridwalk::movement::{is_block, on_event};
use gridwalk::render::{render, RenderBuffer};
use gridwalk::tile::Tile;
use gridwalk::world::{Actor, Body, Entity, Img, Player, SetupError, Vec2, World};

fn entity(pos: Option<(u32, u32)>, is_block: bool, glyph: Option<char>, player: bool) -> Entity {
    Entity {
        actor: Some(Actor { hp: 10 }),
        body: pos.map(|(x, y)| Body {
            pos: Vec2 { x, y },
            is_block,
        }),
        img: glyph.map(Img),
        player: if player { Some(Player) } else { None },
    }
}

fn key(c: char) -> TerminalEvent {
    TerminalEvent(Some(InputEvent::Key(KeyEvent {
        code: KeyCode::Char(c),
        ctrl: false,
    })))
}

fn small_world() -> (TileMap, World) {
    let map = TileMap::new(10, 10, Tile::Floor);
    let ents = vec![
        entity(Some((2, 2)), true, Some('@'), true),
        entity(Some((3, 3)), true, Some('D'), false),
    ];
    let world = World::new(ents, &map).expect("valid setup");
    (map, world)
}

fn player_position(world: &World) -> Vec2 {
    let i = world.find_player();
    world.entities[i].body.expect("player body").pos
}

#[test]
fn tile_glyphs() {
    assert_eq!(Tile::Empty.to_char(), ' ');
    assert_eq!(Tile::Wall.to_char(), '#');
    assert_eq!(Tile::Floor.to_char(), '.');
}

#[test]
fn map_new_index_and_set() {
    let mut map = TileMap::new(4, 3, Tile::Floor);
    assert_eq!(map.width, 4);
    assert_eq!(map.height, 3);
    for y in 0..3 {
        for x in 0..4 {
            assert_eq!(map.index(x, y), Tile::Floor);
        }
    }
    map.set_tile(2, 1, Tile::Wall);
    assert_eq!(map.index(2, 1), Tile::Wall);
    assert_eq!(map.index(1, 1), Tile::Floor);
    assert_eq!(map.index(2, 0), Tile::Floor);
    assert!(map.in_bounds(3, 2));
    assert!(!map.in_bounds(4, 2));
    assert!(!map.in_bounds(3, 3));
}

#[test]
fn dir_deltas() {
    assert_eq!(Dir8::D7.to_vec(), (-1, -1));
    assert_eq!(Dir8::D8.to_vec(), (0, -1));
    assert_eq!(Dir8::D9.to_vec(), (1, -1));
    assert_eq!(Dir8::D4.to_vec(), (-1, 0));
    assert_eq!(Dir8::D6.to_vec(), (1, 0));
    assert_eq!(Dir8::D1.to_vec(), (-1, 1));
    assert_eq!(Dir8::D2.to_vec(), (0, 1));
    assert_eq!(Dir8::D3.to_vec(), (1, 1));
}

#[test]
fn key_mapping_is_case_insensitive() {
    for (lo, up, dir) in [
        ('q', 'Q', Dir8::D7),
        ('w', 'W', Dir8::D8),
        ('e', 'E', Dir8::D9),
        ('a', 'A', Dir8::D4),
        ('d', 'D', Dir8::D6),
        ('z', 'Z', Dir8::D1),
        ('x', 'X', Dir8::D2),
        ('c', 'C', Dir8::D3),
    ] {
        assert_eq!(key_to_dir(lo), Some(dir));
        assert_eq!(key_to_dir(up), Some(dir));
    }
    assert_eq!(key_to_dir('p'), None);
    assert_eq!(key_to_dir('1'), None);
    assert_eq!(key_to_dir(' '), None);
}

#[test]
fn out_of_bounds_targets_are_blocked() {
    let map = TileMap::new(10, 10, Tile::Floor);
    let bodies = Vec::new();
    assert!(is_block(-1, 0, &map, &bodies));
    assert!(is_block(0, -1, &map, &bodies));
    assert!(is_block(-1, -1, &map, &bodies));
    assert!(is_block(10, 5, &map, &bodies));
    assert!(is_block(5, 10, &map, &bodies));
    assert!(is_block(1_000_000, 1_000_000, &map, &bodies));
    assert!(!is_block(0, 0, &map, &bodies));
    assert!(!is_block(9, 9, &map, &bodies));
}

#[test]
fn coincident_bodies_block_only_when_flagged() {
    let map = TileMap::new(10, 10, Tile::Floor);
    let blocker = vec![Body {
        pos: Vec2 { x: 3, y: 3 },
        is_block: true,
    }];
    assert!(is_block(3, 3, &map, &blocker));
    assert!(!is_block(4, 3, &map, &blocker));
    let bystander = vec![Body {
        pos: Vec2 { x: 3, y: 3 },
        is_block: false,
    }];
    assert!(!is_block(3, 3, &map, &bystander));
}

#[test]
fn unrecognized_input_is_a_no_op() {
    let (map, mut world) = small_world();
    on_event(&key('p'), &map, &mut world);
    assert_eq!(player_position(&world), Vec2 { x: 2, y: 2 });
    on_event(&TerminalEvent(None), &map, &mut world);
    assert_eq!(player_position(&world), Vec2 { x: 2, y: 2 });
    on_event(&TerminalEvent(Some(InputEvent::Other)), &map, &mut world);
    assert_eq!(player_position(&world), Vec2 { x: 2, y: 2 });
    let esc = TerminalEvent(Some(InputEvent::Key(KeyEvent {
        code: KeyCode::Esc,
        ctrl: false,
    })));
    on_event(&esc, &map, &mut world);
    assert_eq!(player_position(&world), Vec2 { x: 2, y: 2 });
}

#[test]
fn blocked_move_is_dropped_and_free_move_taken() {
    let (map, mut world) = small_world();
    // SE from (2,2) runs into the blocker at (3,3)
    on_event(&key('c'), &map, &mut world);
    assert_eq!(player_position(&world), Vec2 { x: 2, y: 2 });
    // E from (2,2) lands on the unoccupied (3,2)
    on_event(&key('d'), &map, &mut world);
    assert_eq!(player_position(&world), Vec2 { x: 3, y: 2 });
}

#[test]
fn edge_moves_are_rejected_not_wrapped() {
    let map = TileMap::new(10, 10, Tile::Floor);
    let ents = vec![entity(Some((0, 0)), true, Some('@'), true)];
    let mut world = World::new(ents, &map).expect("valid setup");
    on_event(&key('q'), &map, &mut world);
    assert_eq!(player_position(&world), Vec2 { x: 0, y: 0 });
    on_event(&key('w'), &map, &mut world);
    assert_eq!(player_position(&world), Vec2 { x: 0, y: 0 });
    on_event(&key('a'), &map, &mut world);
    assert_eq!(player_position(&world), Vec2 { x: 0, y: 0 });
}

#[test]
fn walls_do_not_stop_movement_by_themselves() {
    // terrain is not consulted by the resolver: a wall tile without a
    // blocking body is walked onto
    let mut map = TileMap::new(10, 10, Tile::Floor);
    map.set_tile(3, 2, Tile::Wall);
    let ents = vec![entity(Some((2, 2)), true, Some('@'), true)];
    let mut world = World::new(ents, &map).expect("valid setup");
    on_event(&key('d'), &map, &mut world);
    assert_eq!(player_position(&world), Vec2 { x: 3, y: 2 });
}

#[test]
fn render_composes_terrain_and_entities() {
    let mut map = TileMap::new(4, 3, Tile::Floor);
    map.set_tile(1, 0, Tile::Wall);
    map.set_tile(3, 2, Tile::Empty);
    let ents = vec![
        entity(Some((2, 1)), true, Some('@'), true),
        entity(Some((0, 2)), true, Some('D'), false),
    ];
    let world = World::new(ents, &map).expect("valid setup");
    let mut buf = RenderBuffer::default();
    let cursor = render(&mut buf, &map, &world);
    let frame: Vec<String> = buf.rows.iter().map(|r| r.iter().collect()).collect();
    assert_eq!(frame, vec![".#..", "..@.", "D.. "]);
    assert_eq!(cursor, Vec2 { x: 2, y: 1 });
}

#[test]
fn render_draws_later_entities_over_earlier_ones() {
    let map = TileMap::new(2, 1, Tile::Floor);
    let ents = vec![
        entity(Some((0, 0)), false, Some('a'), true),
        entity(Some((0, 0)), false, Some('b'), false),
    ];
    let world = World::new(ents, &map).expect("valid setup");
    let mut buf = RenderBuffer::default();
    render(&mut buf, &map, &world);
    assert_eq!(buf.rows, vec![vec!['b', '.']]);
}

#[test]
fn render_skips_entities_missing_a_body_or_an_image() {
    let map = TileMap::new(2, 1, Tile::Floor);
    let ents = vec![
        entity(Some((0, 0)), false, None, true),
        entity(None, false, Some('g'), false),
    ];
    let world = World::new(ents, &map).expect("valid setup");
    let mut buf = RenderBuffer::default();
    render(&mut buf, &map, &world);
    assert_eq!(buf.rows, vec![vec!['.', '.']]);
}

#[test]
fn render_is_deterministic() {
    let (map, mut world) = small_world();
    on_event(&key('d'), &map, &mut world);
    let mut buf1 = RenderBuffer::default();
    let mut buf2 = RenderBuffer::default();
    let c1 = render(&mut buf1, &map, &world);
    let c2 = render(&mut buf2, &map, &world);
    assert_eq!(buf1.rows, buf2.rows);
    assert_eq!(c1, c2);
    // and rendering into a reused buffer repaints it fully
    let c3 = render(&mut buf1, &map, &world);
    assert_eq!(buf1.rows, buf2.rows);
    assert_eq!(c3, c2);
}

#[test]
fn setup_rejects_zero_players() {
    let map = TileMap::new(10, 10, Tile::Floor);
    let ents = vec![entity(Some((3, 3)), true, Some('D'), false)];
    assert_eq!(World::new(ents, &map).unwrap_err(), SetupError::NoPlayer);
    assert_eq!(
        World::new(Vec::new(), &map).unwrap_err(),
        SetupError::NoPlayer
    );
}

#[test]
fn setup_rejects_two_players() {
    let map = TileMap::new(10, 10, Tile::Floor);
    let ents = vec![
        entity(Some((2, 2)), true, Some('@'), true),
        entity(Some((3, 3)), true, Some('D'), true),
    ];
    assert_eq!(
        World::new(ents, &map).unwrap_err(),
        SetupError::MultiplePlayers
    );
}

#[test]
fn setup_rejects_a_bodiless_player() {
    let map = TileMap::new(10, 10, Tile::Floor);
    let ents = vec![entity(None, false, None, true)];
    assert_eq!(
        World::new(ents, &map).unwrap_err(),
        SetupError::PlayerWithoutBody
    );
}

#[test]
fn setup_rejects_a_stray_body() {
    let map = TileMap::new(10, 10, Tile::Floor);
    let ents = vec![
        entity(Some((2, 2)), true, Some('@'), true),
        entity(Some((10, 3)), true, Some('D'), false),
    ];
    assert_eq!(
        World::new(ents, &map).unwrap_err(),
        SetupError::BodyOutOfBounds
    );
}

#[test]
fn quit_is_escape_or_control_c() {
    let esc = InputEvent::Key(KeyEvent {
        code: KeyCode::Esc,
        ctrl: false,
    });
    let ctrl_c = InputEvent::Key(KeyEvent {
        code: KeyCode::Char('c'),
        ctrl: true,
    });
    let plain_c = InputEvent::Key(KeyEvent {
        code: KeyCode::Char('c'),
        ctrl: false,
    });
    let q = InputEvent::Key(KeyEvent {
        code: KeyCode::Char('q'),
        ctrl: false,
    });
    assert!(should_quit(&esc));
    assert!(should_quit(&ctrl_c));
    assert!(!should_quit(&plain_c));
    assert!(!should_quit(&q));
    assert!(!should_quit(&InputEvent::Other));
}

#[test]
fn one_tick_moves_and_repaints() {
    let (map, mut world) = small_world();
    let mut buf = RenderBuffer::default();
    let cursor = gridwalk::driver::tick(&key('d'), &map, &mut world, &mut buf);
    assert_eq!(cursor, Vec2 { x: 3, y: 2 });
    assert_eq!(buf.rows[2][3], '@');
    assert_eq!(buf.rows[3][3], 'D');
    assert_eq!(buf.rows[2][2], '.');
}
