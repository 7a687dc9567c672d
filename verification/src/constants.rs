//! The configured parameters of the game: grid dimensions, initial element
//! positions, wall cluster size, and the empowerment thresholds.

use vstd::prelude::*;

verus! {

/// Width of the toroidal grid, in cells.
pub const GRID_WIDTH: i16 = 20;

/// Height of the toroidal grid, in cells.
pub const GRID_HEIGHT: i16 = 20;

/// Number of cells in a freshly spawned wall cluster.
pub const WALL_SIZE: i16 = 8;

/// Starting cell of the snake's head.
pub const SNAKE_INIT_X: i16 = 5;

/// Starting cell of the snake's head.
pub const SNAKE_INIT_Y: i16 = 5;

/// Starting cell of the fruit.
pub const FRUIT_INIT_X: i16 = 15;

/// Starting cell of the fruit.
pub const FRUIT_INIT_Y: i16 = 15;

/// Origin cell of the wall cluster present at the start of a run.
pub const FIRST_WALL_INIT_X: i16 = 10;

/// Origin cell of the wall cluster present at the start of a run.
pub const FIRST_WALL_INIT_Y: i16 = 10;

/// Eating this many fruits in total (a multiple of it) empowers the snake.
pub const APPLES_PER_POWER: i16 = 5;

/// An empowered snake may destroy this many walls before the power expires.
pub const MAX_WALLS_DESTROYABLE: i16 = 3;

/// How many random cells fruit placement samples before falling back to a
/// deterministic scan of the grid for a free cell.
pub const FRUIT_PLACEMENT_TRIES: u32 = 400;

} // verus!
