use vstd::prelude::*;

use crate::direction::Direction;
use crate::rng::RngSource;

verus! {

/// A grid cell, addressed by column `x` and row `y`.
#[derive(Clone, Copy, Debug, PartialEq, Eq, Structural)]
pub struct Point {
    pub x: u32,
    pub y: u32,
}

/// The authoritative state of one game: a fixed grid, the snake's body
/// (head first), the committed and the pending travel direction, the
/// food cell, the score, and the terminal flag.
pub struct SnakeGame {
    width: u32,
    height: u32,
    snake: Vec<Point>,
    direction: Direction,
    next_direction: Direction,
    food: Point,
    score: u32,
    game_over: bool,
}

/// Does `p` lie on the `w` by `h` grid and off the body `body`?
pub open spec fn free_cell(w: u32, h: u32, body: Seq<Point>, p: Point) -> bool {
    p.x < w && p.y < h && !body.contains(p)
}

/// Is some cell of the `w` by `h` grid off the body `body`?
pub open spec fn has_free_cell(w: u32, h: u32, body: Seq<Point>) -> bool {
    exists|p: Point| free_cell(w, h, body, p)
}

/// The column reached by moving one cell from `p` in direction `d`
/// (negative when the move leaves the grid to the left).
pub open spec fn step_x(p: Point, d: Direction) -> int {
    match d {
        Direction::Left => p.x - 1,
        Direction::Right => p.x + 1,
        _ => p.x as int,
    }
}

/// The row reached by moving one cell from `p` in direction `d`
/// (negative when the move leaves the grid upward).
pub open spec fn step_y(p: Point, d: Direction) -> int {
    match d {
        Direction::Up => p.y - 1,
        Direction::Down => p.y + 1,
        _ => p.y as int,
    }
}

/// Does the coordinate pair `(x, y)` lie on the `w` by `h` grid?
pub open spec fn in_grid(w: u32, h: u32, x: int, y: int) -> bool {
    0 <= x < w && 0 <= y < h
}

/// The fixed three-cell horizontal body every game starts from, head first.
pub open spec fn initial_body() -> Seq<Point> {
    seq![(Point { x: 10, y: 8 }), (Point { x: 9, y: 8 }), (Point { x: 8, y: 8 })]
}

/// The cell the head moves into on the next tick, committed to the
/// pending direction (meaningful only when that cell is on the grid).
pub open spec fn next_head(pre: SnakeGame) -> Point {
    (Point {
        x: step_x(pre.head(), pre.pending()) as u32,
        y: step_y(pre.head(), pre.pending()) as u32,
    })
}

impl SnakeGame {
    /// Number of columns of the grid.
    pub closed spec fn width(self) -> u32 {
        self.width
    }

    /// Number of rows of the grid.
    pub closed spec fn height(self) -> u32 {
        self.height
    }

    /// The snake's body, head first, tail last.
    pub closed spec fn body(self) -> Seq<Point> {
        self.snake@
    }

    /// The direction the snake is currently committed to moving in.
    pub closed spec fn heading(self) -> Direction {
        self.direction
    }

    /// The direction that will be committed on the next tick.
    pub closed spec fn pending(self) -> Direction {
        self.next_direction
    }

    /// The cell currently holding food.
    pub closed spec fn food(self) -> Point {
        self.food
    }

    /// Number of food cells eaten so far.
    pub closed spec fn score(self) -> u32 {
        self.score
    }

    /// The terminal flag: true once the game has ended.
    pub closed spec fn over(self) -> bool {
        self.game_over
    }

    /// The head cell.
    pub open spec fn head(self) -> Point {
        self.body()[0]
    }

    /// Does `p` lie on this game's grid?
    pub open spec fn cell_in_grid(self, p: Point) -> bool {
        p.x < self.width() && p.y < self.height()
    }

    /// Well-formedness, established by construction and preserved by
    /// every operation:
    /// - the grid is non-empty and its cell count fits the score type;
    /// - the body holds the three initial cells plus one per food eaten;
    /// - the body never overlaps itself and stays on the grid;
    /// - the food lies on the grid, and off the body while the game runs;
    /// - the pending direction is never the reverse of the committed one.
    pub open spec fn wf(self) -> bool {
        &&& 1 <= self.width()
        &&& 1 <= self.height()
        &&& self.width() as int * self.height() as int <= u32::MAX as int
        &&& self.body().len() == self.score() + 3
        &&& self.body().no_duplicates()
        &&& forall|i: int| 0 <= i < self.body().len() ==> self.cell_in_grid(#[trigger] self.body()[i])
        &&& self.cell_in_grid(self.food())
        &&& self.pending() != self.heading().opposite()
        &&& !self.over() ==> !self.body().contains(self.food())
    }
}

/// Do `a` and `b` agree on everything a host can observe?
pub open spec fn same_view(a: SnakeGame, b: SnakeGame) -> bool {
    &&& b.width() == a.width()
    &&& b.height() == a.height()
    &&& b.body() == a.body()
    &&& b.heading() == a.heading()
    &&& b.pending() == a.pending()
    &&& b.food() == a.food()
    &&& b.score() == a.score()
    &&& b.over() == a.over()
}

/// A tick that ended the game: the terminal flag is set and nothing
/// else moves.
pub open spec fn dead_step(pre: SnakeGame, post: SnakeGame) -> bool {
    &&& post.over()
    &&& post.body() == pre.body()
    &&& post.food() == pre.food()
    &&& post.score() == pre.score()
}

/// A tick that ate the food: the head cell is prepended, the tail is
/// kept, the score rises by one, and a fresh food cell off the grown
/// body is chosen -- unless the body now covers the whole grid, in
/// which case the game ends with the food left where it was.
pub open spec fn grow_step(pre: SnakeGame, post: SnakeGame) -> bool {
    let grown = seq![next_head(pre)] + pre.body();
    &&& post.body() == grown
    &&& post.score() == pre.score() + 1
    &&& (post.over() <==> !has_free_cell(pre.width(), pre.height(), grown))
    &&& (!post.over() ==> free_cell(pre.width(), pre.height(), grown, post.food()))
    &&& (post.over() ==> post.food() == pre.food())
}

/// An ordinary move: the head cell is prepended, the previous tail cell
/// is dropped, and food and score stay put.
pub open spec fn slide_step(pre: SnakeGame, post: SnakeGame) -> bool {
    &&& !post.over()
    &&& post.body() == seq![next_head(pre)] + pre.body().drop_last()
    &&& post.food() == pre.food()
    &&& post.score() == pre.score()
}

/// Everything one call of [`SnakeGame::tick`] does, as a relation
/// between the state before and the state after.
///
/// On a terminal state nothing happens.  Otherwise the pending
/// direction is committed, and the cell one step ahead of the head
/// decides: off the grid or on the body ends the game; the food cell
/// grows the snake; any other cell slides it.
pub open spec fn tick_post(pre: SnakeGame, post: SnakeGame) -> bool {
    if pre.over() {
        same_view(pre, post)
    } else {
        let d = pre.pending();
        let nx = step_x(pre.head(), d);
        let ny = step_y(pre.head(), d);
        &&& post.width() == pre.width()
        &&& post.height() == pre.height()
        &&& post.heading() == d
        &&& post.pending() == d
        &&& if !in_grid(pre.width(), pre.height(), nx, ny) {
            dead_step(pre, post)
        } else if pre.body().contains(next_head(pre)) {
            dead_step(pre, post)
        } else if next_head(pre) == pre.food() {
            grow_step(pre, post)
        } else {
            slide_step(pre, post)
        }
    }
}

/// Everything one call of [`SnakeGame::change_direction`] does: on a
/// live state the request is recorded as the pending direction unless
/// it reverses the committed heading, in which case it is dropped; a
/// terminal state ignores it; nothing else moves.
pub open spec fn request_post(pre: SnakeGame, dir: Direction, post: SnakeGame) -> bool {
    &&& post.width() == pre.width()
    &&& post.height() == pre.height()
    &&& post.body() == pre.body()
    &&& post.heading() == pre.heading()
    &&& post.food() == pre.food()
    &&& post.score() == pre.score()
    &&& post.over() == pre.over()
    &&& post.pending() == (if !pre.over() && dir != pre.heading().opposite() {
        dir
    } else {
        pre.pending()
    })
}

/// A body that never overlaps itself and stays on a `w` by `h` grid
/// has at most as many cells as the grid.
proof fn lemma_body_fits_grid(s: Seq<Point>, w: u32, h: u32)
    requires
        s.no_duplicates(),
        forall|i: int| 0 <= i < s.len() ==> (#[trigger] s[i]).x < w && s[i].y < h,
    ensures
        s.len() <= w as int * h as int,
{
    let f = |p: Point| p.x as int * h as int + p.y as int;
    let ids = s.map_values(f);
    assert(ids.no_duplicates()) by {
        assert forall|i: int, j: int|
            0 <= i < ids.len() && 0 <= j < ids.len() && i != j implies ids[i] != ids[j] by {
            let p = s[i];
            let q = s[j];
            assert(p.x != q.x || p.y != q.y);
            assert(p.x as int * h as int + p.y as int != q.x as int * h as int + q.y as int)
                by (nonlinear_arith)
                requires
                    p.y < h,
                    q.y < h,
                    p.x != q.x || p.y != q.y,
            ;
        }
    }
    ids.unique_seq_to_set();
    let cell_count = w as int * h as int;
    assert(ids.to_set().subset_of(vstd::set_lib::set_int_range(0, cell_count))) by {
        assert forall|e: int| ids.to_set().contains(e) implies vstd::set_lib::set_int_range(
            0,
            cell_count,
        ).contains(e) by {
            assert(ids.contains(e));
            let k = choose|k: int| 0 <= k < ids.len() && ids[k] == e;
            let xx = s[k].x as int;
            let yy = s[k].y as int;
            assert(ids[k] == xx * h as int + yy);
            assert(0 <= xx * h as int + yy < cell_count) by (nonlinear_arith)
                requires
                    0 <= xx < w as int,
                    0 <= yy < h as int,
                    cell_count == w as int * h as int,
            ;
        }
    }
    vstd::set_lib::lemma_int_range(0, cell_count);
    vstd::set_lib::lemma_len_subset(ids.to_set(), vstd::set_lib::set_int_range(0, cell_count));
}

/// Is `p` one of the cells of `cells`?
fn contains_point(cells: &Vec<Point>, p: Point) -> (r: bool)
    ensures
        r == cells@.contains(p),
{
    let mut i: usize = 0;
    while i < cells.len()
        invariant
            i <= cells@.len(),
            forall|j: int| 0 <= j < i ==> cells@[j] != p,
        decreases cells@.len() - i,
    {
        if cells[i] == p {
            return true;
        }
        i = i + 1;
    }
    false
}

impl SnakeGame {
    /// Picks a new food cell: samples the random source a bounded number
    /// of times, then falls back to scanning the grid for a free cell.
    /// If the body covers the whole grid (the board is won), the game is
    /// ended instead and the food is left where it was.
    fn spawn_food<R: RngSource>(&mut self, rng: &mut R)
        requires
            1 <= old(self).width(),
            1 <= old(self).height(),
            !old(self).over(),
        ensures
            final(self).width() == old(self).width(),
            final(self).height() == old(self).height(),
            final(self).body() == old(self).body(),
            final(self).heading() == old(self).heading(),
            final(self).pending() == old(self).pending(),
            final(self).score() == old(self).score(),
            has_free_cell(old(self).width(), old(self).height(), old(self).body()) ==> {
                &&& !final(self).over()
                &&& free_cell(
                    old(self).width(),
                    old(self).height(),
                    old(self).body(),
                    final(self).food(),
                )
            },
            !has_free_cell(old(self).width(), old(self).height(), old(self).body()) ==> {
                &&& final(self).over()
                &&& final(self).food() == old(self).food()
            },
    {
        let mut tries: u32 = 0;
        while tries < 128
            invariant
                *self == *old(self),
                !self.over(),
                1 <= self.width(),
                1 <= self.height(),
            decreases 128 - tries,
        {
            let fx = rng.next_below(self.width);
            let fy = rng.next_below(self.height);
            let candidate = Point { x: fx, y: fy };
            if !contains_point(&self.snake, candidate) {
                proof {
                    assert(free_cell(self.width(), self.height(), self.snake@, candidate));
                }
                self.food = candidate;
                return;
            }
            tries = tries + 1;
        }
        let mut x: u32 = 0;
        while x < self.width
            invariant
                *self == *old(self),
                !self.over(),
                x <= self.width,
                forall|p: Point| p.x < x && p.y < self.height ==> self.snake@.contains(p),
            decreases self.width - x,
        {
            let mut y: u32 = 0;
            while y < self.height
                invariant
                    *self == *old(self),
                    !self.over(),
                    x < self.width,
                    y <= self.height,
                    forall|p: Point| p.x < x && p.y < self.height ==> self.snake@.contains(p),
                    forall|p: Point| p.x == x && p.y < y ==> self.snake@.contains(p),
                decreases self.height - y,
            {
                let candidate = Point { x, y };
                if !contains_point(&self.snake, candidate) {
                    proof {
                        assert(free_cell(self.width(), self.height(), self.snake@, candidate));
                    }
                    self.food = candidate;
                    return;
                }
                y = y + 1;
            }
            x = x + 1;
        }
        proof {
            assert(!has_free_cell(self.width(), self.height(), self.snake@)) by {
                if has_free_cell(self.width(), self.height(), self.snake@) {
                    let p = choose|p: Point| free_cell(self.width(), self.height(), self.snake@, p);
                    assert(self.snake@.contains(p));
                }
            }
        }
        self.game_over = true;
    }

    /// Builds a fresh game on a `width` by `height` grid: the fixed
    /// three-cell body heading right, score zero, and food placed on a
    /// free cell drawn from `rng`.
    ///
    /// The grid must be large enough to hold the initial body (the
    /// chosen policy for degenerate sizes), and its cell count must fit
    /// the score type.
    pub fn new<R: RngSource>(width: u32, height: u32, rng: &mut R) -> (game: SnakeGame)
        requires
            11 <= width,
            9 <= height,
            width as int * height as int <= u32::MAX as int,
        ensures
            game.wf(),
            game.width() == width,
            game.height() == height,
            game.body() == initial_body(),
            game.heading() == Direction::Right,
            game.pending() == Direction::Right,
            game.score() == 0,
            !game.over(),
            free_cell(width, height, game.body(), game.food()),
    {
        let mut snake: Vec<Point> = Vec::new();
        snake.push(Point { x: 10, y: 8 });
        snake.push(Point { x: 9, y: 8 });
        snake.push(Point { x: 8, y: 8 });

        let mut game = SnakeGame {
            width,
            height,
            snake,
            direction: Direction::Right,
            next_direction: Direction::Right,
            food: Point { x: 0, y: 0 },
            score: 0,
            game_over: false,
        };

        proof {
            assert(game.body() =~= initial_body());
            assert(free_cell(width, height, game.body(), (Point { x: 0, y: 0 })));
        }

        game.spawn_food(rng);
        game
    }

    /// Advances the simulation by one step, as [`tick_post`] describes:
    /// commits the pending direction, moves the head one cell, ends the
    /// game on a boundary or self-collision, grows and rescores on
    /// food, and otherwise drops the tail.  A terminal state is left
    /// untouched.
    pub fn tick<R: RngSource>(&mut self, rng: &mut R)
        requires
            old(self).wf(),
        ensures
            final(self).wf(),
            tick_post(*old(self), *final(self)),
    {
        if self.game_over {
            return;
        }

        self.direction = self.next_direction;
        let head = self.snake[0];

        let next_x: i64 = match self.direction {
            Direction::Up => head.x as i64,
            Direction::Down => head.x as i64,
            Direction::Left => head.x as i64 - 1,
            Direction::Right => head.x as i64 + 1,
        };
        let next_y: i64 = match self.direction {
            Direction::Up => head.y as i64 - 1,
            Direction::Down => head.y as i64 + 1,
            Direction::Left => head.y as i64,
            Direction::Right => head.y as i64,
        };

        proof {
            assert(next_x == step_x(old(self).head(), old(self).pending()));
            assert(next_y == step_y(old(self).head(), old(self).pending()));
        }

        if next_x < 0 || next_y < 0 || next_x >= self.width as i64 || next_y >= self.height as i64 {
            self.game_over = true;
            return;
        }

        let nh = Point { x: next_x as u32, y: next_y as u32 };
        proof {
            assert(nh == next_head(*old(self)));
        }

        if contains_point(&self.snake, nh) {
            self.game_over = true;
            return;
        }

        self.snake.insert(0, nh);

        proof {
            let b = old(self).body();
            assert(self.snake@ =~= seq![nh] + b);
            assert((seq![nh] + b).no_duplicates()) by {
                let g = seq![nh] + b;
                assert forall|i: int, j: int|
                    0 <= i < g.len() && 0 <= j < g.len() && i != j implies g[i] != g[j] by {
                    if i == 0 {
                        assert(g[j] == b[j - 1]);
                    } else if j == 0 {
                        assert(g[i] == b[i - 1]);
                    } else {
                        assert(g[i] == b[i - 1] && g[j] == b[j - 1]);
                    }
                }
            }
            assert forall|i: int| 0 <= i < self.snake@.len() implies self.cell_in_grid(
                #[trigger] self.snake@[i],
            ) by {
                if i > 0 {
                    assert(self.snake@[i] == b[i - 1]);
                }
            }
        }

        if nh == self.food {
            proof {
                lemma_body_fits_grid(old(self).body(), old(self).width(), old(self).height());
            }
            self.score = self.score + 1;
            self.spawn_food(rng);
        } else {
            self.snake.pop();
            proof {
                let b = old(self).body();
                let g = seq![nh] + b;
                assert(self.snake@ =~= seq![nh] + b.drop_last());
                assert(self.snake@.no_duplicates()) by {
                    assert forall|i: int, j: int|
                        0 <= i < self.snake@.len() && 0 <= j < self.snake@.len() && i != j
                        implies self.snake@[i] != self.snake@[j] by {
                        assert(self.snake@[i] == g[i]);
                        assert(self.snake@[j] == g[j]);
                    }
                }
                assert(!self.snake@.contains(self.food)) by {
                    if self.snake@.contains(self.food) {
                        let k = choose|k: int|
                            0 <= k < self.snake@.len() && self.snake@[k] == self.food;
                        assert(self.snake@[0] == nh);
                        if k > 0 {
                            assert(self.snake@[k] == b[k - 1]);
                            assert(b.contains(self.food));
                        }
                    }
                }
                assert forall|i: int| 0 <= i < self.snake@.len() implies self.cell_in_grid(
                    #[trigger] self.snake@[i],
                ) by {
                    assert(self.snake@[i] == g[i]);
                }
            }
        }
    }

    /// Records a direction request for the next tick.  A request that
    /// reverses the committed heading is silently dropped, and a
    /// terminal state ignores requests altogether; repeated requests
    /// between ticks overwrite one another.
    pub fn change_direction(&mut self, dir: Direction)
        requires
            old(self).wf(),
        ensures
            final(self).wf(),
            request_post(*old(self), dir, *final(self)),
    {
        if self.game_over {
            return;
        }

        let opposite = self.direction.opposite();
        if dir != opposite {
            self.next_direction = dir;
        }
    }

    /// The body as a flat sequence `[x1, y1, x2, y2, ...]`, head first.
    pub fn get_snake_cells(&self) -> (cells: Vec<u32>)
        ensures
            cells@.len() == 2 * self.body().len(),
            forall|i: int|
                0 <= i < self.body().len() ==> cells@[2 * i] == (#[trigger] self.body()[i]).x
                    && cells@[2 * i + 1] == self.body()[i].y,
    {
        let mut cells: Vec<u32> = Vec::new();
        let mut i: usize = 0;
        while i < self.snake.len()
            invariant
                i <= self.snake@.len(),
                cells@.len() == 2 * i,
                forall|j: int|
                    0 <= j < i ==> cells@[2 * j] == (#[trigger] self.snake@[j]).x
                        && cells@[2 * j + 1] == self.snake@[j].y,
            decreases self.snake@.len() - i,
        {
            let p = self.snake[i];
            cells.push(p.x);
            cells.push(p.y);
            i = i + 1;
        }
        cells
    }

    /// Column of the food cell.
    pub fn food_x(&self) -> (r: u32)
        ensures
            r == self.food().x,
    {
        self.food.x
    }

    /// Row of the food cell.
    pub fn food_y(&self) -> (r: u32)
        ensures
            r == self.food().y,
    {
        self.food.y
    }

    /// Has the game ended?
    pub fn is_game_over(&self) -> (r: bool)
        ensures
            r == self.over(),
    {
        self.game_over
    }

    /// Number of food cells eaten so far.
    pub fn get_score(&self) -> (r: u32)
        ensures
            r == self.score(),
    {
        self.score
    }

    /// Number of columns of the grid.
    pub fn get_width(&self) -> (r: u32)
        ensures
            r == self.width(),
    {
        self.width
    }

    /// Number of rows of the grid.
    pub fn get_height(&self) -> (r: u32)
        ensures
            r == self.height(),
    {
        self.height
    }
}

} // verus!
