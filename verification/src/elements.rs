//! The elements of the game: directions, grid positions with wrap-around
//! movement, wall clusters, the snake itself, and the fruit.

use vstd::prelude::*;
use rand::Rng;

use crate::constants::{GRID_WIDTH, GRID_HEIGHT, FRUIT_PLACEMENT_TRIES};

verus! {

/// One of the four directions the snake (or a growing wall) can move in.
#[derive(Copy, Clone, PartialEq, Eq, Structural, Debug)]
pub enum Direction {
    Up,
    Down,
    Left,
    Right,
}

/// The direction that undoes `d`: the two vertical and the two horizontal
/// directions form opposite pairs.
pub open spec fn opposite_of(d: Direction) -> Direction {
    match d {
        Direction::Up => Direction::Down,
        Direction::Down => Direction::Up,
        Direction::Left => Direction::Right,
        Direction::Right => Direction::Left,
    }
}

/// Whether `b` is the exact reversal of `a`.
pub open spec fn is_opposite(a: Direction, b: Direction) -> bool {
    b == opposite_of(a)
}

/// The direction a raw random draw in `[0, 5)` is mapped to.  Two draws map
/// to `Left`, so the sampling is deliberately kept as uneven as the game
/// always had it.
pub open spec fn direction_of_draw(n: int) -> Direction {
    if n <= 1 {
        Direction::Left
    } else if n <= 2 {
        Direction::Right
    } else if n <= 3 {
        Direction::Down
    } else {
        Direction::Up
    }
}

/// Relies on `rand::thread_rng` and `rand::Rng::gen_range`: a draw from
/// `low..high` lies in that range and panics only when the range is empty.
#[verifier::external_body]
fn random_below(bound: i16) -> (r: i16)
    requires
        bound > 0,
    ensures
        0 <= r < bound,
{
    rand::thread_rng().gen_range(0..bound)
}

impl Direction {
    /// Maps a raw draw onto a direction exactly as [`direction_of_draw`]
    /// describes.
    pub fn from_draw(n: i16) -> (d: Direction)
        ensures
            d == direction_of_draw(n as int),
    {
        if n <= 1 {
            Direction::Left
        } else if n <= 2 {
            Direction::Right
        } else if n <= 3 {
            Direction::Down
        } else {
            Direction::Up
        }
    }

    /// Draws a random direction.  Every outcome is the image of a draw in
    /// `[0, 5)`.
    pub fn random_direction() -> (d: Direction)
        ensures
            exists|n: int| 0 <= n < 5 && d == direction_of_draw(n),
    {
        let n = random_below(5);
        let d = Direction::from_draw(n);
        proof {
            assert(d == direction_of_draw(n as int));
        }
        d
    }
}

/// A cell of the grid.  Wrap-around movement keeps coordinates inside
/// `[0, GRID_WIDTH) x [0, GRID_HEIGHT)`; a position built directly from raw
/// coordinates carries whatever it was given.
#[derive(Copy, Clone, PartialEq, Eq, Structural, Debug)]
pub struct Position {
    pub x: i16,
    pub y: i16,
}

/// Whether a position lies inside the grid.
pub open spec fn in_grid(p: Position) -> bool {
    0 <= p.x < GRID_WIDTH && 0 <= p.y < GRID_HEIGHT
}

/// Wrap-around of a single coordinate: a coordinate below zero becomes
/// `size - 1`, one above `size - 1` becomes zero, and anything inside the
/// axis is kept.
pub open spec fn wrap(v: int, size: int) -> int {
    if v < 0 {
        size - 1
    } else if v > size - 1 {
        0
    } else {
        v
    }
}

/// The cell reached by moving one step from `p` in direction `d`, with
/// wrap-around applied to each axis independently.
pub open spec fn step_pos(p: Position, d: Direction) -> Position {
    let nx = match d {
        Direction::Left => p.x - 1,
        Direction::Right => p.x + 1,
        _ => p.x as int,
    };
    let ny = match d {
        Direction::Up => p.y - 1,
        Direction::Down => p.y + 1,
        _ => p.y as int,
    };
    Position {
        x: wrap(nx, GRID_WIDTH as int) as i16,
        y: wrap(ny, GRID_HEIGHT as int) as i16,
    }
}

impl Position {
    /// Builds a position from raw coordinates, unchecked.
    pub fn new(x: i16, y: i16) -> (p: Position)
        ensures
            p == (Position { x, y }),
    {
        Position { x, y }
    }

    /// Moves one step from `(x, y)` in the given direction and wraps the
    /// result onto the grid.  This is the only place wrap-around is defined;
    /// all movement routes through it, and its result always lies inside
    /// the grid.
    pub fn new_by_direction(x: i16, y: i16, direction: Direction) -> (p: Position)
        ensures
            p == step_pos((Position { x, y }), direction),
            in_grid(p),
    {
        let mut nx: i32 = x as i32;
        let mut ny: i32 = y as i32;
        match direction {
            Direction::Up => {
                ny = ny - 1;
            }
            Direction::Down => {
                ny = ny + 1;
            }
            Direction::Left => {
                nx = nx - 1;
            }
            Direction::Right => {
                nx = nx + 1;
            }
        }
        let gw: i32 = GRID_WIDTH as i32;
        let gh: i32 = GRID_HEIGHT as i32;
        if nx < 0 {
            nx = gw - 1;
        } else if nx > gw - 1 {
            nx = 0;
        }
        if ny < 0 {
            ny = gh - 1;
        } else if ny > gh - 1 {
            ny = 0;
        }
        Position { x: nx as i16, y: ny as i16 }
    }
}

/// Stepping somewhere and then stepping back in the opposite direction
/// returns to the starting cell, for every cell of the grid and every
/// direction: the grid is a torus.
pub proof fn lemma_step_round_trip(p: Position, d: Direction)
    requires
        in_grid(p),
    ensures
        step_pos(step_pos(p, d), opposite_of(d)) == p,
{
}

/// Wrap-around at the four edges: stepping off one side of the grid lands
/// on the opposite side.
pub proof fn lemma_step_wraps(x: i16, y: i16)
    requires
        0 <= x < GRID_WIDTH,
        0 <= y < GRID_HEIGHT,
    ensures
        step_pos((Position { x: 0, y }), Direction::Left) == (Position {
            x: (GRID_WIDTH - 1) as i16,
            y,
        }),
        step_pos((Position { x: (GRID_WIDTH - 1) as i16, y }), Direction::Right) == (Position {
            x: 0,
            y,
        }),
        step_pos((Position { x, y: 0 }), Direction::Up) == (Position {
            x,
            y: (GRID_HEIGHT - 1) as i16,
        }),
        step_pos((Position { x, y: (GRID_HEIGHT - 1) as i16 }), Direction::Down) == (Position {
            x,
            y: 0,
        }),
{
}

/// A destructible cluster of cells: a random-walk path of a configured
/// length starting at a spawn point.  The path may revisit cells; no
/// deduplication is performed.
pub struct Wall {
    pub blocks: Vec<Position>,
}

/// The length a wall built with the given requested size actually has: the
/// origin cell is always present, and each further cell adds one.
pub open spec fn wall_len(size: i16) -> int {
    if size < 1 {
        1
    } else {
        size as int
    }
}

/// The shape every freshly built wall has: after the origin, each cell is
/// one wrapped step away from its predecessor, and so lies inside the grid.
pub open spec fn wall_shape(w: Wall, size: i16) -> bool {
    &&& w.blocks@.len() == wall_len(size)
    &&& forall|i: int|
        1 <= i < w.blocks@.len() ==> in_grid(#[trigger] w.blocks@[i]) && (exists|d: Direction|
            w.blocks@[i] == #[trigger] step_pos(w.blocks@[i - 1], d))
}

/// Whether any wall of the collection contains the position.
pub open spec fn pos_in_walls(position: Position, walls: Seq<Wall>) -> bool {
    exists|i: int| 0 <= i < walls.len() && #[trigger] walls[i].blocks@.contains(position)
}

/// Whether any of the positions lies in any wall of the collection.
pub open spec fn any_pos_in_walls(positions: Seq<Position>, walls: Seq<Wall>) -> bool {
    exists|i: int|
        0 <= i < positions.len() && pos_in_walls(#[trigger] positions[i], walls)
}

impl Wall {
    /// Builds a wall of `size` cells: the first is the origin, each next one
    /// is the previous moved one wrapped step in a random direction.
    pub fn new(x: i16, y: i16, size: i16) -> (w: Wall)
        ensures
            wall_shape(w, size),
            w.blocks@[0] == (Position { x, y }),
    {
        let mut blocks: Vec<Position> = Vec::new();
        blocks.push(Position::new(x, y));
        let mut x_counter = x;
        let mut y_counter = y;
        let mut i: i16 = 1;
        while i < size
            invariant
                1 <= i,
                i as int <= wall_len(size),
                blocks@.len() == i as int,
                blocks@[0] == (Position { x, y }),
                blocks@[i - 1] == (Position { x: x_counter, y: y_counter }),
                forall|j: int|
                    1 <= j < blocks@.len() ==> in_grid(#[trigger] blocks@[j]) && (exists|
                        d: Direction,
                    | blocks@[j] == #[trigger] step_pos(blocks@[j - 1], d)),
            decreases size - i,
        {
            let direction = Direction::random_direction();
            let position = Position::new_by_direction(x_counter, y_counter, direction);
            let ghost prev = blocks@;
            blocks.push(position);
            proof {
                let nb = blocks@;
                assert forall|j: int|
                    1 <= j < nb.len() implies in_grid(#[trigger] nb[j]) && (exists|d: Direction|
                    nb[j] == #[trigger] step_pos(nb[j - 1], d)) by {
                    if j < i as int {
                        assert(nb[j] == prev[j]);
                        assert(nb[j - 1] == prev[j - 1]);
                        assert(in_grid(prev[j]) && (exists|d: Direction|
                            prev[j] == #[trigger] step_pos(prev[j - 1], d)));
                    } else {
                        assert(nb[j] == position);
                        assert(nb[j - 1] == prev[i - 1]);
                        assert(nb[j] == step_pos(nb[j - 1], direction));
                    }
                }
            }
            x_counter = position.x;
            y_counter = position.y;
            i = i + 1;
        }
        Wall { blocks }
    }

    /// Membership test against this wall's cell sequence.
    pub fn contains_position(&self, position: Position) -> (r: bool)
        ensures
            r == self.blocks@.contains(position),
    {
        let mut i: usize = 0;
        while i < self.blocks.len()
            invariant
                i <= self.blocks@.len(),
                forall|j: int| 0 <= j < i ==> self.blocks@[j] != position,
            decreases self.blocks@.len() - i,
        {
            if self.blocks[i] == position {
                proof {
                    assert(self.blocks@[i as int] == position);
                }
                return true;
            }
            i = i + 1;
        }
        false
    }

    /// True if any wall of the collection contains the position.
    pub fn position_in_walls(position: Position, walls: &Vec<Wall>) -> (r: bool)
        ensures
            r == pos_in_walls(position, walls@),
    {
        let mut i: usize = 0;
        while i < walls.len()
            invariant
                i <= walls@.len(),
                forall|j: int| 0 <= j < i ==> !#[trigger] walls@[j].blocks@.contains(position),
            decreases walls@.len() - i,
        {
            if walls[i].contains_position(position) {
                return true;
            }
            i = i + 1;
        }
        false
    }

    /// True if any of the given positions lies in any wall of the collection.
    pub fn any_position_in_walls(positions: &Vec<Position>, walls: &Vec<Wall>) -> (r: bool)
        ensures
            r == any_pos_in_walls(positions@, walls@),
    {
        let mut i: usize = 0;
        while i < positions.len()
            invariant
                i <= positions@.len(),
                forall|j: int| 0 <= j < i ==> !pos_in_walls(#[trigger] positions@[j], walls@),
            decreases positions@.len() - i,
        {
            if Wall::position_in_walls(positions[i], walls) {
                return true;
            }
            i = i + 1;
        }
        false
    }
}

/// The outcome of the most recent snake move.
#[derive(Copy, Clone, PartialEq, Eq, Structural, Debug)]
pub enum SnakeAction {
    SelfCollision,
    AteFruit,
    WallCollision,
}

/// The moving body: a head cell, a trailing sequence of body cells (the
/// most recently vacated first), the current direction, the outcome of the
/// last move, and the empowerment flag.
pub struct Snake {
    pub head: Position,
    pub body: Vec<Position>,
    pub direction: Direction,
    pub state: Option<SnakeAction>,
    pub empowered: bool,
}

/// The body after the old head has been pushed onto its front.
pub open spec fn pushed_body(head: Position, body: Seq<Position>) -> Seq<Position> {
    body.insert(0, head)
}

/// The outcome of one move, evaluated in strict priority order on the new
/// head and the pushed body: fruit first, then self-collision, then wall
/// contact anywhere along the snake, else a normal move.
pub open spec fn action_spec(
    head: Position,
    body: Seq<Position>,
    direction: Direction,
    fruit_pos: Position,
    walls: Seq<Wall>,
) -> Option<SnakeAction> {
    let new_head = step_pos(head, direction);
    let pushed = pushed_body(head, body);
    if new_head == fruit_pos {
        Some(SnakeAction::AteFruit)
    } else if pushed.contains(new_head) {
        Some(SnakeAction::SelfCollision)
    } else if pos_in_walls(new_head, walls) || any_pos_in_walls(pushed, walls) {
        Some(SnakeAction::WallCollision)
    } else {
        None
    }
}

/// The body after one move: on a normal move the tail cell is dropped so
/// the length stays constant; on any other outcome the pushed body is kept
/// (on a fruit the snake has grown by one).
pub open spec fn body_after_move(
    head: Position,
    body: Seq<Position>,
    direction: Direction,
    fruit_pos: Position,
    walls: Seq<Wall>,
) -> Seq<Position> {
    let pushed = pushed_body(head, body);
    if action_spec(head, body, direction, fruit_pos, walls) is None {
        pushed.drop_last()
    } else {
        pushed
    }
}

impl Snake {
    /// A fresh snake: head at the given cell, empty body, facing right,
    /// no outcome yet, not empowered.
    pub fn new(x: i16, y: i16) -> (s: Snake)
        ensures
            s.head == (Position { x, y }),
            s.body@ == Seq::<Position>::empty(),
            s.direction == Direction::Right,
            s.state is None,
            !s.empowered,
    {
        Snake {
            head: Position::new(x, y),
            body: Vec::new(),
            direction: Direction::Right,
            state: None,
            empowered: false,
        }
    }

    /// Whether the head coincides with any body cell.
    pub fn self_collision(&self) -> (r: bool)
        ensures
            r == self.body@.contains(self.head),
    {
        let mut i: usize = 0;
        while i < self.body.len()
            invariant
                i <= self.body@.len(),
                forall|j: int| 0 <= j < i ==> self.body@[j] != self.head,
            decreases self.body@.len() - i,
        {
            if self.body[i] == self.head {
                proof {
                    assert(self.body@[i as int] == self.head);
                }
                return true;
            }
            i = i + 1;
        }
        false
    }

    /// Performs one move: the head advances one wrapped step in the current
    /// direction, the old head joins the body, and the outcome is evaluated
    /// in priority order against the fruit and the walls.
    pub fn update(&mut self, fruit: &Fruit, walls: &Vec<Wall>)
        ensures
            final(self).head == step_pos(old(self).head, old(self).direction),
            final(self).direction == old(self).direction,
            final(self).empowered == old(self).empowered,
            final(self).state == action_spec(
                old(self).head,
                old(self).body@,
                old(self).direction,
                fruit.pos,
                walls@,
            ),
            final(self).body@ == body_after_move(
                old(self).head,
                old(self).body@,
                old(self).direction,
                fruit.pos,
                walls@,
            ),
    {
        let new_head = Position::new_by_direction(self.head.x, self.head.y, self.direction);
        self.body.insert(0, self.head);
        self.head = new_head;

        if self.head == fruit.pos {
            self.state = Some(SnakeAction::AteFruit);
        } else if self.self_collision() {
            self.state = Some(SnakeAction::SelfCollision);
        } else if Wall::position_in_walls(self.head, walls) || Wall::any_position_in_walls(
            &self.body,
            walls,
        ) {
            self.state = Some(SnakeAction::WallCollision);
        } else {
            self.body.pop();
            self.state = None;
        }
    }

    /// Clears the body and the empowerment flag; head, direction and the
    /// recorded outcome stay as they are.
    pub fn reset(&mut self)
        ensures
            final(self).body@ == Seq::<Position>::empty(),
            !final(self).empowered,
            final(self).head == old(self).head,
            final(self).direction == old(self).direction,
            final(self).state == old(self).state,
    {
        self.body = Vec::new();
        self.empowered = false;
    }

    /// Whether the snake currently holds the wall-destroying power.
    pub fn is_empowered(&self) -> (r: bool)
        ensures
            r == self.empowered,
    {
        self.empowered
    }

    /// The current head cell.
    pub fn get_head(&self) -> (p: Position)
        ensures
            p == self.head,
    {
        self.head
    }

    /// Clears the empowerment flag.
    pub fn remove_power(&mut self)
        ensures
            *final(self) == (Snake { empowered: false, ..*old(self) }),
    {
        self.empowered = false;
    }

    /// Sets the empowerment flag.
    pub fn empower(&mut self)
        ensures
            *final(self) == (Snake { empowered: true, ..*old(self) }),
    {
        self.empowered = true;
    }

    /// Sets the direction unconditionally; rejecting a reversal is the
    /// caller's duty, via [`crate::game::Game::opposite`].
    pub fn set_direction(&mut self, direction: Direction)
        ensures
            *final(self) == (Snake { direction, ..*old(self) }),
    {
        self.direction = direction;
    }

    /// The current direction.
    pub fn get_direction(&self) -> (d: Direction)
        ensures
            d == self.direction,
    {
        self.direction
    }

    /// The outcome of the most recent move, if any move happened yet.
    pub fn get_state(&self) -> (s: Option<SnakeAction>)
        ensures
            s == self.state,
    {
        self.state
    }
}

/// A single fruit cell.
pub struct Fruit {
    pub pos: Position,
}

/// Whether the walls leave at least one grid cell uncovered.  Fruit
/// placement succeeds exactly on such wall collections.
pub open spec fn free_cell_exists(walls: Seq<Wall>) -> bool {
    exists|p: Position| in_grid(p) && !pos_in_walls(p, walls)
}

/// A uniformly random cell of the grid, from independent draws on each axis.
pub fn random_grid_position() -> (p: Position)
    ensures
        in_grid(p),
{
    let x = random_below(GRID_WIDTH);
    let y = random_below(GRID_HEIGHT);
    Position::new(x, y)
}

impl Fruit {
    /// A fruit at the given cell.
    pub fn new(x: i16, y: i16) -> (f: Fruit)
        ensures
            f.pos == (Position { x, y }),
    {
        Fruit { pos: Position::new(x, y) }
    }

    /// Moves the fruit to a random cell that no wall contains.  Random cells
    /// are sampled a bounded number of times; if all samples land in walls,
    /// a scan of the whole grid finds a free cell.  Only when the walls
    /// cover every cell of the grid is the fruit left where it was.
    pub fn regenerate_outside_walls(&mut self, walls: &Vec<Wall>)
        ensures
            free_cell_exists(walls@) ==> in_grid(final(self).pos) && !pos_in_walls(
                final(self).pos,
                walls@,
            ),
            !free_cell_exists(walls@) ==> final(self).pos == old(self).pos,
    {
        let mut tries: u32 = 0;
        while tries < FRUIT_PLACEMENT_TRIES
            invariant
                *self == *old(self),
            decreases FRUIT_PLACEMENT_TRIES - tries,
        {
            let candidate = random_grid_position();
            if !Wall::position_in_walls(candidate, walls) {
                self.pos = candidate;
                proof {
                    assert(in_grid(candidate) && !pos_in_walls(candidate, walls@));
                }
                return ;
            }
            tries = tries + 1;
        }
        let mut x: i16 = 0;
        while x < GRID_WIDTH
            invariant
                *self == *old(self),
                0 <= x <= GRID_WIDTH,
                forall|p: Position|
                    in_grid(p) && p.x < x ==> #[trigger] pos_in_walls(p, walls@),
            decreases GRID_WIDTH - x,
        {
            let mut y: i16 = 0;
            while y < GRID_HEIGHT
                invariant
                    *self == *old(self),
                    0 <= x < GRID_WIDTH,
                    0 <= y <= GRID_HEIGHT,
                    forall|p: Position|
                        in_grid(p) && p.x < x ==> #[trigger] pos_in_walls(p, walls@),
                    forall|p: Position|
                        in_grid(p) && p.x == x && p.y < y ==> #[trigger] pos_in_walls(p, walls@),
                decreases GRID_HEIGHT - y,
            {
                let candidate = Position::new(x, y);
                if !Wall::position_in_walls(candidate, walls) {
                    self.pos = candidate;
                    proof {
                        assert(in_grid(candidate) && !pos_in_walls(candidate, walls@));
                    }
                    return ;
                }
                y = y + 1;
            }
            x = x + 1;
        }
        proof {
            assert(!free_cell_exists(walls@)) by {
                assert forall|p: Position| in_grid(p) implies pos_in_walls(p, walls@) by {
                    assert(p.x < GRID_WIDTH);
                }
            }
        }
    }
}

/// The reversal relation holds exactly for the four opposite pairs; a
/// same-direction or perpendicular change is never a reversal.
pub proof fn lemma_opposite_pairs(a: Direction, b: Direction)
    ensures
        is_opposite(a, b) <==> ((a == Direction::Up && b == Direction::Down) || (a
            == Direction::Down && b == Direction::Up) || (a == Direction::Left && b
            == Direction::Right) || (a == Direction::Right && b == Direction::Left)),
{
}

} // verus!
