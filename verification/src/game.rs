//! The game state and its per-tick orchestration: applying a pending input
//! direction, moving the snake, and reacting to the outcome by updating the
//! score, the walls, the fruit and the empowerment counters.

use vstd::prelude::*;

use crate::constants::{
    FIRST_WALL_INIT_X, FIRST_WALL_INIT_Y, FRUIT_INIT_X, FRUIT_INIT_Y, MAX_WALLS_DESTROYABLE,
    SNAKE_INIT_X, SNAKE_INIT_Y, WALL_SIZE,
};
use crate::elements::{
    Direction, Fruit, Position, Snake, SnakeAction, Wall, is_opposite, wall_shape, in_grid,
    pos_in_walls, free_cell_exists, random_grid_position,
};

verus! {

/// The whole state of a run: the snake, the fruit, the wall collection, the
/// score, and how many walls the current power has destroyed so far.
pub struct Game {
    pub snake: Snake,
    pub fruit: Fruit,
    pub walls: Vec<Wall>,
    pub score: i16,
    pub destroyed_walls: i16,
}

/// The state invariant every reachable game satisfies: the score never goes
/// negative, and the destroyed-wall counter stays strictly below the
/// configured maximum because reaching it resets the counter within the
/// same tick.
pub open spec fn game_wf(g: Game) -> bool {
    0 <= g.score && 0 <= g.destroyed_walls < MAX_WALLS_DESTROYABLE
}

/// The direction the snake actually moves in this tick: a pending input is
/// applied unless it is the exact reversal of the current direction, which
/// is rejected.
pub open spec fn applied_direction(s: Snake, input: Option<Direction>) -> Direction {
    match input {
        Some(d) => if is_opposite(s.direction, d) {
            s.direction
        } else {
            d
        },
        None => s.direction,
    }
}

/// The outcome one tick of the given game produces, before the state is
/// mutated: the snake's move evaluated against the current fruit and walls,
/// in the direction left after input handling.
pub open spec fn tick_action(pre: Game, input: Option<Direction>) -> Option<SnakeAction> {
    crate::elements::action_spec(
        pre.snake.head,
        pre.snake.body@,
        applied_direction(pre.snake, input),
        pre.fruit.pos,
        pre.walls@,
    )
}

/// How one tick transforms the game: the full relation between the state
/// before (`pre`) and after (`post`), for a pending input direction.
pub open spec fn tick_post(pre: Game, input: Option<Direction>, post: Game) -> bool {
    let dir = applied_direction(pre.snake, input);
    let new_head = crate::elements::step_pos(pre.snake.head, dir);
    let pushed = crate::elements::pushed_body(pre.snake.head, pre.snake.body@);
    let action = tick_action(pre, input);
    &&& post.snake.direction == dir
    &&& post.snake.head == new_head
    &&& post.snake.state == action
    &&& match action {
        Some(SnakeAction::AteFruit) => {
            &&& post.score == pre.score + 1
            &&& post.snake.body@ == pushed
            &&& post.snake.empowered == ((pre.score + 1) % (
            crate::constants::APPLES_PER_POWER as int) == 0)
            &&& post.walls@.len() == pre.walls@.len() + 1
            &&& (forall|i: int|
                0 <= i < pre.walls@.len() ==> #[trigger] post.walls@[i] == pre.walls@[i])
            &&& wall_shape(post.walls@.last(), WALL_SIZE)
            &&& in_grid(post.walls@.last().blocks@[0])
            &&& (free_cell_exists(post.walls@) ==> in_grid(post.fruit.pos) && !pos_in_walls(
                post.fruit.pos,
                post.walls@,
            ))
            &&& (!free_cell_exists(post.walls@) ==> post.fruit.pos == pre.fruit.pos)
            &&& post.destroyed_walls == pre.destroyed_walls
        },
        Some(SnakeAction::SelfCollision) => {
            &&& post.score == 0
            &&& post.snake.body@ == Seq::<Position>::empty()
            &&& !post.snake.empowered
            &&& post.walls@ == Seq::<Wall>::empty()
            &&& post.fruit == pre.fruit
            &&& post.destroyed_walls == pre.destroyed_walls
        },
        Some(SnakeAction::WallCollision) => {
            if pre.snake.empowered {
                &&& post.walls@ == pre.walls@.filter(|w: Wall| !w.blocks@.contains(new_head))
                &&& post.snake.body@ == pushed
                &&& post.fruit == pre.fruit
                &&& post.score == pre.score
                &&& (if pre.destroyed_walls + 1 == MAX_WALLS_DESTROYABLE as int {
                    post.destroyed_walls == 0 && !post.snake.empowered
                } else {
                    post.destroyed_walls == pre.destroyed_walls + 1 && post.snake.empowered
                })
            } else {
                &&& post.score == 0
                &&& post.snake.body@ == Seq::<Position>::empty()
                &&& !post.snake.empowered
                &&& post.walls@ == Seq::<Wall>::empty()
                &&& post.fruit == pre.fruit
                &&& post.destroyed_walls == pre.destroyed_walls
            }
        },
        None => {
            &&& post.score == pre.score
            &&& post.snake.body@ == pushed.drop_last()
            &&& post.snake.empowered == pre.snake.empowered
            &&& post.walls@ == pre.walls@
            &&& post.fruit == pre.fruit
            &&& post.destroyed_walls == pre.destroyed_walls
        },
    }
}

impl Game {
    /// The fixed initial configuration: snake and fruit at their starting
    /// cells, one seed wall, score and counter at zero.
    pub fn new() -> (g: Game)
        ensures
            g.snake.head == (Position { x: SNAKE_INIT_X, y: SNAKE_INIT_Y }),
            g.snake.body@ == Seq::<Position>::empty(),
            g.snake.direction == Direction::Right,
            g.snake.state is None,
            !g.snake.empowered,
            g.fruit.pos == (Position { x: FRUIT_INIT_X, y: FRUIT_INIT_Y }),
            g.walls@.len() == 1,
            wall_shape(g.walls@[0], WALL_SIZE),
            g.walls@[0].blocks@[0] == (Position { x: FIRST_WALL_INIT_X, y: FIRST_WALL_INIT_Y }),
            g.score == 0,
            g.destroyed_walls == 0,
            game_wf(g),
    {
        let mut walls: Vec<Wall> = Vec::new();
        walls.push(Wall::new(FIRST_WALL_INIT_X, FIRST_WALL_INIT_Y, WALL_SIZE));
        Game {
            snake: Snake::new(SNAKE_INIT_X, SNAKE_INIT_Y),
            fruit: Fruit::new(FRUIT_INIT_X, FRUIT_INIT_Y),
            walls,
            score: 0,
            destroyed_walls: 0,
        }
    }

    /// A game assembled from explicitly given parts, for drivers and tests
    /// that start a run from a chosen state.
    pub fn from_parts(
        snake: Snake,
        fruit: Fruit,
        walls: Vec<Wall>,
        score: i16,
        destroyed_walls: i16,
    ) -> (g: Game)
        ensures
            g.snake == snake,
            g.fruit == fruit,
            g.walls == walls,
            g.score == score,
            g.destroyed_walls == destroyed_walls,
    {
        Game { snake, fruit, walls, score, destroyed_walls }
    }

    /// Whether the requested direction is the exact reversal of the snake's
    /// current direction; such a request must be rejected.
    pub fn opposite(&self, direction: Direction) -> (r: bool)
        ensures
            r == is_opposite(self.snake.direction, direction),
    {
        (self.snake.get_direction() == Direction::Up && direction == Direction::Down)
            || (self.snake.get_direction() == Direction::Down && direction == Direction::Up)
            || (self.snake.get_direction() == Direction::Left && direction == Direction::Right)
            || (self.snake.get_direction() == Direction::Right && direction == Direction::Left)
    }

    /// Spawns one new wall cluster at a random grid cell, keeping every
    /// existing wall as it is.
    pub fn add_wall(&mut self)
        ensures
            final(self).walls@.len() == old(self).walls@.len() + 1,
            forall|i: int|
                0 <= i < old(self).walls@.len() ==> #[trigger] final(self).walls@[i] == old(
                    self,
                ).walls@[i],
            wall_shape(final(self).walls@.last(), WALL_SIZE),
            in_grid(final(self).walls@.last().blocks@[0]),
            final(self).snake == old(self).snake,
            final(self).fruit == old(self).fruit,
            final(self).score == old(self).score,
            final(self).destroyed_walls == old(self).destroyed_walls,
    {
        let origin = random_grid_position();
        self.walls.push(Wall::new(origin.x, origin.y, WALL_SIZE));
    }

    /// Deletes every wall that contains the given position, keeping the
    /// others in their order, and counts one more destroyed wall.
    pub fn remove_wall(&mut self, position: Position)
        requires
            old(self).destroyed_walls < i16::MAX,
        ensures
            final(self).walls@ == old(self).walls@.filter(
                |w: Wall| !w.blocks@.contains(position),
            ),
            final(self).destroyed_walls == old(self).destroyed_walls + 1,
            final(self).snake == old(self).snake,
            final(self).fruit == old(self).fruit,
            final(self).score == old(self).score,
    {
        let ghost orig = self.walls@;
        let ghost pred = |w: Wall| !w.blocks@.contains(position);
        let n = self.walls.len();
        let mut kept: Vec<Wall> = Vec::new();
        let mut k: usize = 0;
        while k < n
            invariant
                k <= n,
                n == orig.len(),
                self.walls@ == orig.subrange(k as int, n as int),
                kept@ == orig.subrange(0, k as int).filter(pred),
                pred == (|w: Wall| !w.blocks@.contains(position)),
                self.snake == old(self).snake,
                self.fruit == old(self).fruit,
                self.score == old(self).score,
                self.destroyed_walls == old(self).destroyed_walls,
            decreases n - k,
        {
            let w = self.walls.remove(0);
            proof {
                assert(w == orig[k as int]);
                assert(orig.subrange(k as int, n as int).remove(0) =~= orig.subrange(
                    k + 1,
                    n as int,
                ));
            }
            if !w.contains_position(position) {
                kept.push(w);
            }
            proof {
                let s1 = orig.subrange(0, k + 1);
                let s0 = orig.subrange(0, k as int);
                assert(s1.drop_last() =~= s0);
                assert(s1.last() == orig[k as int]);
                reveal(Seq::filter);
                assert(s1.filter(pred) == if pred(orig[k as int]) {
                    s0.filter(pred).push(orig[k as int])
                } else {
                    s0.filter(pred)
                });
            }
            k = k + 1;
        }
        proof {
            assert(orig.subrange(0, n as int) =~= orig);
        }
        self.walls = kept;
        self.destroyed_walls = self.destroyed_walls + 1;
    }

    /// One simulation step.  A pending input direction is applied unless it
    /// reverses the snake; the snake moves; and the outcome is folded back
    /// into the state: a fruit raises the score, spawns a wall, relocates
    /// the fruit and re-evaluates empowerment; a self-collision or a wall
    /// collision without power ends the run (score and body cleared, walls
    /// removed); a wall collision with power destroys the walls under the
    /// head instead.
    pub fn tick(&mut self, input: Option<Direction>)
        requires
            game_wf(*old(self)),
            old(self).score < i16::MAX,
        ensures
            tick_post(*old(self), input, *final(self)),
            game_wf(*final(self)),
    {
        if let Some(d) = input {
            if !self.opposite(d) {
                self.snake.set_direction(d);
            }
        }
        self.snake.update(&self.fruit, &self.walls);
        match self.snake.get_state() {
            Some(SnakeAction::AteFruit) => {
                self.score = self.score + 1;
                self.add_wall();
                self.fruit.regenerate_outside_walls(&self.walls);
                if self.score % crate::constants::APPLES_PER_POWER == 0 {
                    self.snake.empower();
                } else {
                    self.snake.remove_power();
                }
            },
            Some(SnakeAction::SelfCollision) => {
                self.score = 0;
                self.snake.reset();
                self.walls.clear();
            },
            Some(SnakeAction::WallCollision) => {
                if self.snake.is_empowered() {
                    let head = self.snake.get_head();
                    self.remove_wall(head);
                    proof {
                        let spec_head = crate::elements::step_pos(
                            old(self).snake.head,
                            applied_direction(old(self).snake, input),
                        );
                        assert((|w: Wall| !w.blocks@.contains(head)) =~= (|w: Wall|
                        !w.blocks@.contains(spec_head)));
                    }
                    if self.destroyed_walls == MAX_WALLS_DESTROYABLE {
                        self.snake.remove_power();
                        self.destroyed_walls = 0;
                    }
                } else {
                    self.score = 0;
                    self.snake.reset();
                    self.walls.clear();
                }
            },
            None => {},
        }
    }
}

/// Eating the fruit takes priority over every other outcome: whenever the
/// new head lands on the fruit cell, the move is `AteFruit`, whatever the
/// body or the walls hold at that cell.
pub proof fn lemma_fruit_priority(
    head: Position,
    body: Seq<Position>,
    direction: Direction,
    fruit_pos: Position,
    walls: Seq<Wall>,
)
    requires
        crate::elements::step_pos(head, direction) == fruit_pos,
    ensures
        crate::elements::action_spec(head, body, direction, fruit_pos, walls) == Some(
            SnakeAction::AteFruit,
        ),
{
}

/// A tick that eats the fruit grows the body by exactly one cell relative
/// to the state before the tick.
pub proof fn lemma_ate_fruit_grows(pre: Game, input: Option<Direction>, post: Game)
    requires
        tick_post(pre, input, post),
        tick_action(pre, input) == Some(SnakeAction::AteFruit),
    ensures
        post.snake.body@.len() == pre.snake.body@.len() + 1,
{
    pre.snake.body@.insert_ensures(0, pre.snake.head);
}

/// A move whose next head cell already lies on the body (and misses the
/// fruit) is a self-collision.
pub proof fn lemma_self_collision_detected(
    head: Position,
    body: Seq<Position>,
    direction: Direction,
    fruit_pos: Position,
    walls: Seq<Wall>,
)
    requires
        body.contains(crate::elements::step_pos(head, direction)),
        crate::elements::step_pos(head, direction) != fruit_pos,
    ensures
        crate::elements::action_spec(head, body, direction, fruit_pos, walls) == Some(
            SnakeAction::SelfCollision,
        ),
{
    let nh = crate::elements::step_pos(head, direction);
    let j = choose|j: int| 0 <= j < body.len() && body[j] == nh;
    body.insert_ensures(0, head);
    let pushed = crate::elements::pushed_body(head, body);
    assert(pushed[j + 1] == nh);
    assert(pushed.contains(nh));
}

/// After the game has processed a self-collision the run is over: the score
/// is zero, the body and the wall collection are empty, and the power is
/// gone.
pub proof fn lemma_self_collision_resets(pre: Game, input: Option<Direction>, post: Game)
    requires
        tick_post(pre, input, post),
        tick_action(pre, input) == Some(SnakeAction::SelfCollision),
    ensures
        post.score == 0,
        post.snake.body@.len() == 0,
        post.walls@.len() == 0,
        !post.snake.empowered,
{
}

/// A wall collision of an empowered snake destroys exactly the walls that
/// contain the head cell: a wall survives the tick if and only if it was
/// there before and does not contain the head.  Short of the configured
/// maximum, the destroyed-wall counter grows by exactly one.
pub proof fn lemma_empowered_wall_destruction(
    pre: Game,
    input: Option<Direction>,
    post: Game,
    w: Wall,
)
    requires
        tick_post(pre, input, post),
        tick_action(pre, input) == Some(SnakeAction::WallCollision),
        pre.snake.empowered,
    ensures
        post.walls@.contains(w) <==> (pre.walls@.contains(w) && !w.blocks@.contains(
            crate::elements::step_pos(pre.snake.head, applied_direction(pre.snake, input)),
        )),
        pre.destroyed_walls + 1 < MAX_WALLS_DESTROYABLE ==> post.destroyed_walls
            == pre.destroyed_walls + 1,
{
    let nh = crate::elements::step_pos(pre.snake.head, applied_direction(pre.snake, input));
    let pred = |x: Wall| !x.blocks@.contains(nh);
    assert(post.walls@ == pre.walls@.filter(pred));
    if post.walls@.contains(w) {
        pre.walls@.lemma_filter_contains_rev(pred, w);
        let i = choose|i: int| 0 <= i < post.walls@.len() && post.walls@[i] == w;
        pre.walls@.lemma_filter_pred(pred, i);
    }
    if pre.walls@.contains(w) && pred(w) {
        let i = choose|i: int| 0 <= i < pre.walls@.len() && pre.walls@[i] == w;
        pre.walls@.lemma_filter_contains(pred, i);
    }
}

/// The tick in which the destroyed-wall counter would reach the configured
/// maximum clears the empowerment and resets the counter to zero.
pub proof fn lemma_power_exhaustion(pre: Game, input: Option<Direction>, post: Game)
    requires
        tick_post(pre, input, post),
        tick_action(pre, input) == Some(SnakeAction::WallCollision),
        pre.snake.empowered,
        pre.destroyed_walls + 1 == MAX_WALLS_DESTROYABLE,
    ensures
        post.destroyed_walls == 0,
        !post.snake.empowered,
{
}

} // verus!
