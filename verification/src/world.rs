//! The entity store: a fixed set of entities, each an aggregate of optional
//! components, validated once at setup and then owned by the turn driver.

use vstd::prelude::*;

use crate::grid::TileMap;

verus! {

/// A grid coordinate pair.
#[derive(Copy, Clone, Debug, PartialEq, Eq, Structural, Hash)]
pub struct Vec2 {
    pub x: u32,
    pub y: u32,
}

/// Unique tag that marks the only player-controlled entity.
#[derive(Copy, Clone, Debug, PartialEq, Eq, Structural, Hash)]
pub struct Player;

/// A living creature; hp is carried but not consumed by this core.
#[derive(Copy, Clone, Debug)]
pub struct Actor {
    pub hp: u32,
}

/// A positioned body; `is_block` marks it as obstructing movement into
/// its tile.
#[derive(Copy, Clone, Debug)]
pub struct Body {
    pub pos: Vec2,
    pub is_block: bool,
}

/// The glyph an entity is drawn with.
#[derive(Copy, Clone, Debug)]
pub struct Img(pub char);

/// One entity: an aggregate of optional components.
#[derive(Copy, Clone, Debug)]
pub struct Entity {
    pub actor: Option<Actor>,
    pub body: Option<Body>,
    pub img: Option<Img>,
    pub player: Option<Player>,
}

/// Whether this entity carries the player tag.
pub open spec fn is_player(e: Entity) -> bool {
    e.player is Some
}

/// Index `i` holds the one and only player-tagged entity of `s`.
pub open spec fn sole_player_at(s: Seq<Entity>, i: int) -> bool {
    &&& 0 <= i < s.len()
    &&& is_player(s[i])
    &&& forall|j: int| 0 <= j < s.len() && j != i ==> !is_player(s[j])
}

/// Exactly one entity of `s` is player-tagged.
pub open spec fn has_sole_player(s: Seq<Entity>) -> bool {
    exists|i: int| sole_player_at(s, i)
}

/// No entity of `s` is player-tagged.
pub open spec fn has_no_player(s: Seq<Entity>) -> bool {
    forall|i: int| 0 <= i < s.len() ==> !is_player(s[i])
}

/// At least two entities of `s` are player-tagged.
pub open spec fn has_several_players(s: Seq<Entity>) -> bool {
    exists|i: int, j: int|
        0 <= i < j < s.len() && is_player(s[i]) && is_player(s[j])
}

/// The index of the sole player-tagged entity.
pub open spec fn player_index(s: Seq<Entity>) -> int {
    choose|i: int| sole_player_at(s, i)
}

/// The position of the sole player's body.
pub open spec fn player_pos(s: Seq<Entity>) -> Vec2 {
    s[player_index(s)].body->Some_0.pos
}

/// An entity that obstructs movement or is drawn must sit inside the map.
pub open spec fn body_in_bounds(e: Entity, m: TileMap) -> bool {
    match e.body {
        Some(b) => (b.is_block || e.img is Some) ==> m.spec_in_bounds(
            b.pos.x as int,
            b.pos.y as int,
        ),
        None => true,
    }
}

/// The bodies of `s`, one per entity that has one, in entity order.
pub open spec fn bodies_of(s: Seq<Entity>) -> Seq<Body>
    decreases s.len(),
{
    if s.len() == 0 {
        Seq::empty()
    } else {
        bodies_of(s.drop_last()) + match s.last().body {
            Some(b) => seq![b],
            None => Seq::empty(),
        }
    }
}

/// Why an entity set was rejected at setup.
#[derive(Copy, Clone, Debug, PartialEq, Eq, Structural, Hash)]
pub enum SetupError {
    /// No entity carries the player tag.
    NoPlayer,
    /// More than one entity carries the player tag.
    MultiplePlayers,
    /// The player-tagged entity has no body to move.
    PlayerWithoutBody,
    /// A blocking or drawn body lies outside the map rectangle.
    BodyOutOfBounds,
}

/// The validated entity store.
#[derive(Clone, Debug)]
pub struct World {
    pub entities: Vec<Entity>,
}

impl World {
    /// Setup left the store in a state the systems rely on: exactly one
    /// player tag, a body under it, and every blocking or drawn body
    /// inside the map.
    pub open spec fn wf(self, m: TileMap) -> bool {
        &&& has_sole_player(self.entities@)
        &&& self.entities@[player_index(self.entities@)].body is Some
        &&& forall|i: int|
            0 <= i < self.entities@.len() ==> body_in_bounds(#[trigger] self.entities@[i], m)
    }

    /// Validates an entity set against `map` and takes ownership of it.
    /// Fails fast on a malformed set instead of letting a turn run on it.
    pub fn new(entities: Vec<Entity>, map: &TileMap) -> (r: Result<World, SetupError>)
        ensures
            r is Ok <==> {
                &&& has_sole_player(entities@)
                &&& entities@[player_index(entities@)].body is Some
                &&& forall|i: int|
                    0 <= i < entities@.len() ==> body_in_bounds(#[trigger] entities@[i], *map)
            },
            r is Ok ==> (r->Ok_0).entities@ == entities@ && (r->Ok_0).wf(*map),
            r == Result::<World, SetupError>::Err(SetupError::NoPlayer) <==> has_no_player(
                entities@,
            ),
            r == Result::<World, SetupError>::Err(SetupError::MultiplePlayers)
                <==> has_several_players(entities@),
            r == Result::<World, SetupError>::Err(SetupError::PlayerWithoutBody) <==> (
            has_sole_player(entities@) && entities@[player_index(entities@)].body is None),
    {
        let n = entities.len();
        let mut found: Option<usize> = None;
        let mut i: usize = 0;
        while i < n
            invariant
                n == entities@.len(),
                i <= n,
                match found {
                    None => forall|j: int| 0 <= j < i ==> !is_player(entities@[j]),
                    Some(p) => {
                        &&& p < i
                        &&& is_player(entities@[p as int])
                        &&& forall|j: int| 0 <= j < i && j != p ==> !is_player(entities@[j])
                    },
                },
            decreases n - i,
        {
            if entities[i].player.is_some() {
                match found {
                    None => {
                        found = Some(i);
                    },
                    Some(p) => {
                        proof {
                            assert(has_several_players(entities@));
                            assert forall|k: int| !sole_player_at(entities@, k) by {
                                if k != p {
                                    assert(is_player(entities@[p as int]));
                                } else {
                                    assert(is_player(entities@[i as int]));
                                }
                            }
                        }
                        return Err(SetupError::MultiplePlayers);
                    },
                }
            }
            i = i + 1;
        }
        let p = match found {
            None => {
                proof {
                    assert(has_no_player(entities@));
                    assert forall|k: int| !sole_player_at(entities@, k) by {}
                    assert(!has_several_players(entities@));
                }
                return Err(SetupError::NoPlayer);
            },
            Some(p) => p,
        };
        proof {
            assert(sole_player_at(entities@, p as int));
            assert(player_index(entities@) == p as int) by {
                let q = player_index(entities@);
                assert(sole_player_at(entities@, q));
            }
            assert(!has_no_player(entities@));
            assert(!has_several_players(entities@)) by {
                if has_several_players(entities@) {
                    let (a, b) = choose|a: int, b: int|
                        0 <= a < b < entities@.len() && is_player(entities@[a]) && is_player(
                            entities@[b],
                        );
                    assert(a == p as int || b == p as int);
                }
            }
        }
        if entities[p].body.is_none() {
            return Err(SetupError::PlayerWithoutBody);
        }
        let mut k: usize = 0;
        while k < n
            invariant
                n == entities@.len(),
                k <= n,
                !has_no_player(entities@),
                !has_several_players(entities@),
                has_sole_player(entities@),
                entities@[player_index(entities@)].body is Some,
                forall|j: int| 0 <= j < k ==> body_in_bounds(#[trigger] entities@[j], *map),
            decreases n - k,
        {
            let e = &entities[k];
            match e.body {
                Some(b) => {
                    if (b.is_block || e.img.is_some()) && !map.in_bounds(
                        b.pos.x as usize,
                        b.pos.y as usize,
                    ) {
                        return Err(SetupError::BodyOutOfBounds);
                    }
                },
                None => {},
            }
            k = k + 1;
        }
        Ok(World { entities })
    }

    /// The index of the sole player-tagged entity.
    pub fn find_player(&self) -> (i: usize)
        requires
            has_sole_player(self.entities@),
        ensures
            i as int == player_index(self.entities@),
            sole_player_at(self.entities@, i as int),
    {
        let n = self.entities.len();
        let mut i: usize = 0;
        while i < n
            invariant
                n == self.entities@.len(),
                i <= n,
                has_sole_player(self.entities@),
                forall|j: int| 0 <= j < i ==> !is_player(self.entities@[j]),
            decreases n - i,
        {
            if self.entities[i].player.is_some() {
                proof {
                    let q = player_index(self.entities@);
                    assert(sole_player_at(self.entities@, q));
                    assert(q == i as int);
                }
                return i;
            }
            i = i + 1;
        }
        proof {
            let q = player_index(self.entities@);
            assert(sole_player_at(self.entities@, q));
            assert(false);
        }
        0
    }

    /// All bodies in entity order, the form the collision resolver reads.
    pub fn bodies(&self) -> (r: Vec<Body>)
        ensures
            r@ == bodies_of(self.entities@),
    {
        let n = self.entities.len();
        let mut r: Vec<Body> = Vec::new();
        let mut i: usize = 0;
        while i < n
            invariant
                n == self.entities@.len(),
                i <= n,
                r@ == bodies_of(self.entities@.take(i as int)),
            decreases n - i,
        {
            proof {
                assert(self.entities@.take(i + 1).drop_last() =~= self.entities@.take(i as int));
                assert(self.entities@.take(i + 1).last() == self.entities@[i as int]);
            }
            match self.entities[i].body {
                Some(b) => {
                    r.push(b);
                },
                None => {},
            }
            i = i + 1;
        }
        proof {
            assert(self.entities@.take(n as int) =~= self.entities@);
        }
        r
    }
}

} // verus!
