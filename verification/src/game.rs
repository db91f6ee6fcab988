//! The game state — board, snake, apple, score — and its tick transitions.

use vstd::prelude::*;

use crate::rng;
use crate::snake::{next_point, self_collision, Direction, Snake};

verus! {

/// A grid coordinate.
#[derive(Debug, Clone, Copy, PartialEq, Eq, Structural)]
pub struct Point {
    pub x: i32,
    pub y: i32,
}

/// An apple: a single grid coordinate the snake is trying to reach.
#[derive(Debug, Clone, Copy)]
pub struct Apple {
    pub location: Point,
}

/// The display projection of the game: a grid of cell codes, where 0 is
/// empty, 1 is snake and 2 is apple. Derived state only: never the source of
/// truth for collision or occupancy decisions.
pub struct Board {
    pub width: i32,
    pub height: i32,
    pub state: Vec<Vec<i32>>,
}

/// `p` lies on the `width` by `height` grid.
pub open spec fn in_grid(p: Point, width: int, height: int) -> bool {
    0 <= p.x < width && 0 <= p.y < height
}

/// Some element of `body` sits at column `x`, row `y`.
pub open spec fn body_covers(body: Seq<Point>, x: int, y: int) -> bool {
    exists|i: int| 0 <= i < body.len() && body[i].x == x && body[i].y == y
}

/// Some element of `body` equals `p`.
pub open spec fn body_contains(body: Seq<Point>, p: Point) -> bool {
    body_covers(body, p.x as int, p.y as int)
}

/// Every element of `body` lies on the grid.
pub open spec fn body_in_grid(body: Seq<Point>, width: int, height: int) -> bool {
    forall|i: int| 0 <= i < body.len() ==> in_grid(#[trigger] body[i], width, height)
}

/// The code shown at column `x`, row `y`: 2 on the apple, else 1 on a marked
/// (snake) cell, else 0.
pub open spec fn cell_code(marks: Seq<Point>, apple: Option<Point>, x: int, y: int) -> i32 {
    let on_apple = match apple {
        Some(a) => a.x == x && a.y == y,
        None => false,
    };
    if on_apple {
        2
    } else if body_covers(marks, x, y) {
        1
    } else {
        0
    }
}

/// `state` is a `height` by `width` grid showing exactly `marks` and `apple`.
pub open spec fn grid_matches(
    state: Seq<Vec<i32>>,
    width: int,
    height: int,
    marks: Seq<Point>,
    apple: Option<Point>,
) -> bool {
    &&& state.len() == height
    &&& forall|y: int| 0 <= y < height ==> (#[trigger] state[y])@.len() == width
    &&& forall|y: int, x: int|
        #![trigger state[y]@[x]]
        0 <= y < height && 0 <= x < width ==> state[y]@[x] == cell_code(marks, apple, x, y)
}

/// The two grids hold the same cell codes.
pub open spec fn grid_eq(a: Seq<Vec<i32>>, b: Seq<Vec<i32>>) -> bool {
    &&& a.len() == b.len()
    &&& forall|y: int| 0 <= y < a.len() ==> (#[trigger] a[y])@ == b[y]@
}

/// Same width, height and cell codes.
pub open spec fn boards_match(a: Board, b: Board) -> bool {
    &&& a.width == b.width
    &&& a.height == b.height
    &&& grid_eq(a.state@, b.state@)
}

/// Whether any of `marks` sits at column `x`, row `y`.
fn contains_cell(marks: &Vec<Point>, x: i32, y: i32) -> (r: bool)
    ensures
        r == body_covers(marks@, x as int, y as int),
{
    let n = marks.len();
    for i in 0..n
        invariant
            n == marks@.len(),
            forall|j: int| 0 <= j < i ==> !(marks@[j].x == x && marks@[j].y == y),
    {
        let p = marks[i];
        if p.x == x && p.y == y {
            return true;
        }
    }
    false
}

/// A fresh grid of cell codes drawn from the marked cells and the apple.
fn render_grid(width: i32, height: i32, marks: &Vec<Point>, apple: Option<Point>) -> (r: Vec<
    Vec<i32>,
>)
    requires
        width >= 1,
        height >= 1,
    ensures
        grid_matches(r@, width as int, height as int, marks@, apple),
{
    let mut state: Vec<Vec<i32>> = Vec::new();
    for y in 0..height
        invariant
            1 <= width,
            1 <= height,
            state@.len() == y,
            forall|yy: int| 0 <= yy < y ==> (#[trigger] state@[yy])@.len() == width,
            forall|yy: int, xx: int|
                #![trigger state@[yy]@[xx]]
                0 <= yy < y && 0 <= xx < width ==> state@[yy]@[xx] == cell_code(
                    marks@,
                    apple,
                    xx,
                    yy,
                ),
    {
        let mut row: Vec<i32> = Vec::new();
        for x in 0..width
            invariant
                1 <= width,
                row@.len() == x,
                forall|xx: int|
                    #![trigger row@[xx]]
                    0 <= xx < x ==> row@[xx] == cell_code(marks@, apple, xx, y as int),
        {
            let on_apple = match apple {
                Some(a) => a.x == x && a.y == y,
                None => false,
            };
            let code: i32 = if on_apple {
                2
            } else if contains_cell(marks, x, y) {
                1
            } else {
                0
            };
            row.push(code);
        }
        state.push(row);
    }
    state
}

/// All grid cells that no mark occupies, row by row.
fn free_cells(marks: &Vec<Point>, width: i32, height: i32) -> (r: Vec<Point>)
    requires
        width >= 1,
        height >= 1,
    ensures
        forall|k: int|
            0 <= k < r@.len() ==> in_grid(#[trigger] r@[k], width as int, height as int)
                && !body_contains(marks@, r@[k]),
        forall|p: Point|
            in_grid(p, width as int, height as int) && !body_contains(marks@, p)
                ==> r@.contains(p),
{
    let mut out: Vec<Point> = Vec::new();
    for y in 0..height
        invariant
            1 <= width,
            1 <= height,
            forall|k: int|
                0 <= k < out@.len() ==> in_grid(#[trigger] out@[k], width as int, height as int)
                    && !body_contains(marks@, out@[k]),
            forall|p: Point|
                0 <= p.x < width && 0 <= p.y < y && !body_contains(marks@, p) ==> out@.contains(p),
    {
        for x in 0..width
            invariant
                1 <= width,
                1 <= height,
                0 <= y < height,
                forall|k: int|
                    0 <= k < out@.len() ==> in_grid(
                        #[trigger] out@[k],
                        width as int,
                        height as int,
                    ) && !body_contains(marks@, out@[k]),
                forall|p: Point|
                    0 <= p.x < width && 0 <= p.y < y && !body_contains(marks@, p)
                        ==> out@.contains(p),
                forall|p: Point|
                    0 <= p.x < x && p.y == y && !body_contains(marks@, p) ==> out@.contains(p),
        {
            if !contains_cell(marks, x, y) {
                let ghost before = out@;
                out.push(Point { x, y });
                proof {
                    assert(out@.last() == (Point { x: x, y: y }));
                    assert(forall|p: Point| before.contains(p) ==> out@.contains(p)) by {
                        assert(forall|i: int|
                            0 <= i < before.len() ==> out@[i] == before[i]);
                    }
                }
            }
        }
    }
    out
}

impl Apple {
    /// An apple at the given `(x, y)` coordinate.
    pub fn new(location: (i32, i32)) -> (r: Self)
        ensures
            r.location == (Point { x: location.0, y: location.1 }),
    {
        Apple { location: Point { x: location.0, y: location.1 } }
    }

    /// An apple at a uniformly random cell of the grid.
    pub fn rand_apple(width: i32, height: i32) -> (r: Apple)
        requires
            width >= 1,
            height >= 1,
        ensures
            in_grid(r.location, width as int, height as int),
    {
        let x = rng::random_below_i32(width);
        let y = rng::random_below_i32(height);
        Apple { location: Point { x, y } }
    }

    /// An apple at a uniformly random element of the given non-empty list.
    pub fn from_list(list: Vec<Point>) -> (r: Apple)
        requires
            list@.len() >= 1,
        ensures
            exists|i: int| 0 <= i < list@.len() && r.location == list@[i],
    {
        let index = rng::random_below_usize(list.len());
        Apple { location: list[index] }
    }
}

impl Clone for Board {
    /// A deep copy with the same dimensions and cell codes.
    fn clone(&self) -> (r: Self)
        ensures
            boards_match(r, *self),
    {
        let mut state: Vec<Vec<i32>> = Vec::new();
        let n = self.state.len();
        for y in 0..n
            invariant
                n == self.state@.len(),
                state@.len() == y,
                forall|yy: int| 0 <= yy < y ==> (#[trigger] state@[yy])@ == self.state@[yy]@,
        {
            let mut row: Vec<i32> = Vec::new();
            let m = self.state[y].len();
            for x in 0..m
                invariant
                    0 <= y < self.state@.len(),
                    m == self.state@[y as int]@.len(),
                    row@ == self.state@[y as int]@.subrange(0, x as int),
            {
                row.push(self.state[y][x]);
                proof {
                    assert(row@ =~= self.state@[y as int]@.subrange(0, x + 1));
                }
            }
            proof {
                assert(row@ =~= self.state@[y as int]@);
            }
            state.push(row);
        }
        Board { width: self.width, height: self.height, state }
    }
}

impl Board {
    /// A fresh board showing the snake's head and the apple; every other cell
    /// is empty.
    pub fn new(width: i32, height: i32, snake: &Snake, apple: &Apple) -> (r: Self)
        requires
            width >= 1,
            height >= 1,
            snake.body@.len() >= 1,
        ensures
            r.width == width,
            r.height == height,
            grid_matches(
                r.state@,
                width as int,
                height as int,
                seq![snake.body@[0]],
                Some(apple.location),
            ),
    {
        let head = snake.body.front().unwrap();
        let mut marks: Vec<Point> = Vec::new();
        marks.push(head);
        proof {
            assert(marks@ =~= seq![snake.body@[0]]);
        }
        let state = render_grid(width, height, &marks, Some(apple.location));
        Board { width, height, state }
    }
}

/// The whole game state: snake, board, apple, score and the terminal flag.
pub struct Game {
    pub snake: Snake,
    pub board: Board,
    pub apple: Apple,
    pub score: u32,
    pub lost: bool,
}

/// Structural soundness of a game state: positive grid dimensions small
/// enough for coordinate sums, a non-empty body on the grid, an apple on the
/// grid, and a board of matching shape.
pub open spec fn game_wf(g: Game) -> bool {
    &&& 1 <= g.board.width
    &&& 1 <= g.board.height
    &&& g.board.width + g.board.height <= i32::MAX
    &&& g.snake.body@.len() >= 1
    &&& body_in_grid(g.snake.body@, g.board.width as int, g.board.height as int)
    &&& in_grid(g.apple.location, g.board.width as int, g.board.height as int)
    &&& g.board.state@.len() == g.board.height
    &&& forall|y: int| 0 <= y < g.board.height ==> (#[trigger] g.board.state@[y])@.len()
        == g.board.width
}

/// The cell the snake's head would enter on the next tick.
pub open spec fn tick_next(g: Game) -> Point {
    next_point(g.snake.body@[0], g.snake.direction)
}

/// The next tick runs off the board or into the snake itself.
pub open spec fn tick_loses(g: Game) -> bool {
    !in_grid(tick_next(g), g.board.width as int, g.board.height as int) || self_collision(
        g.snake.body@,
    )
}

/// The next tick lands on the apple.
pub open spec fn tick_eats(g: Game) -> bool {
    tick_next(g) == g.apple.location
}

/// How one production tick (`update`) relates the state before to the state
/// after. A lost game never changes; a losing move only sets the terminal
/// flag; otherwise the body advances (and grows by its duplicated tail on an
/// eating tick, with the score up by 5), the apple stays unless the body
/// reached it (it is then respawned off the body whenever a free cell
/// exists), and the board is redrawn from the new body and apple.
pub open spec fn production_step(g0: Game, g1: Game) -> bool {
    if g0.lost {
        g1 == g0
    } else if tick_loses(g0) {
        &&& g1.lost == true
        &&& g1.snake.body@ == g0.snake.body@
        &&& g1.snake.direction == g0.snake.direction
        &&& g1.apple == g0.apple
        &&& g1.score == g0.score
        &&& g1.board == g0.board
    } else {
        let w = g0.board.width as int;
        let h = g0.board.height as int;
        &&& g1.lost == false
        &&& g1.snake.direction == g0.snake.direction
        &&& g1.board.width == g0.board.width
        &&& g1.board.height == g0.board.height
        &&& (if tick_eats(g0) {
            g1.snake.body@ == seq![tick_next(g0)] + g0.snake.body@ && g1.score == g0.score + 5
        } else {
            g1.snake.body@ == seq![tick_next(g0)] + g0.snake.body@.drop_last() && g1.score
                == g0.score
        })
        &&& in_grid(g1.apple.location, w, h)
        &&& (!tick_eats(g0) && !body_contains(g1.snake.body@, g0.apple.location)
            ==> g1.apple == g0.apple)
        &&& ((exists|p: Point| in_grid(p, w, h) && !body_contains(g1.snake.body@, p))
            ==> !body_contains(g1.snake.body@, g1.apple.location))
        &&& grid_matches(g1.board.state@, w, h, g1.snake.body@, Some(g1.apple.location))
    }
}

/// How one speculative tick (`test_update` after facing `d`) relates the
/// state before to the state after: as `production_step`, but without the
/// eat, score and apple-respawn effects, and with no apple drawn on the
/// board.
pub open spec fn directed_step(g0: Game, d: Direction, g1: Game) -> bool {
    let w = g0.board.width as int;
    let h = g0.board.height as int;
    let nxt = next_point(g0.snake.body@[0], d);
    if g0.lost {
        &&& g1.lost == true
        &&& g1.snake.direction == d
        &&& g1.snake.body@ == g0.snake.body@
        &&& g1.apple == g0.apple
        &&& g1.score == g0.score
        &&& boards_match(g1.board, g0.board)
    } else if !in_grid(nxt, w, h) || self_collision(g0.snake.body@) {
        &&& g1.lost == true
        &&& g1.snake.direction == d
        &&& g1.snake.body@ == g0.snake.body@
        &&& g1.apple == g0.apple
        &&& g1.score == g0.score
        &&& boards_match(g1.board, g0.board)
    } else {
        &&& g1.lost == false
        &&& g1.snake.direction == d
        &&& g1.snake.body@ == seq![nxt] + g0.snake.body@.drop_last()
        &&& g1.apple == g0.apple
        &&& g1.score == g0.score
        &&& g1.board.width == g0.board.width
        &&& g1.board.height == g0.board.height
        &&& grid_matches(g1.board.state@, w, h, g1.snake.body@, None)
    }
}

impl Clone for Game {
    /// A deep, fully independent copy: same body, direction, apple, score,
    /// terminal flag and board contents, sharing no storage, so mutating the
    /// clone leaves the original untouched.
    fn clone(&self) -> (r: Self)
        ensures
            r.snake.body@ == self.snake.body@,
            r.snake.direction == self.snake.direction,
            r.apple == self.apple,
            r.score == self.score,
            r.lost == self.lost,
            boards_match(r.board, self.board),
    {
        Game {
            snake: self.snake.clone(),
            board: self.board.clone(),
            apple: self.apple,
            score: self.score,
            lost: self.lost,
        }
    }
}

impl Game {
    /// A fresh game on a 10 by 10 grid: a one-segment snake at the origin
    /// headed down, score 0, not lost, and an apple placed at random off the
    /// snake.
    pub fn new() -> (r: Self)
        ensures
            game_wf(r),
            r.board.width == 10,
            r.board.height == 10,
            r.snake.body@ == seq![(Point { x: 0, y: 0 })],
            r.snake.direction == Direction::Down,
            r.score == 0,
            r.lost == false,
            !body_contains(r.snake.body@, r.apple.location),
            r.apple.location != (Point { x: 0, y: 0 }),
            grid_matches(r.board.state@, 10, 10, r.snake.body@, Some(r.apple.location)),
    {
        let width: i32 = 10;
        let height: i32 = 10;
        let snake = Snake::new();
        let mut apple = Apple::rand_apple(width, height);
        let body_vec = snake.body.to_vec();
        if contains_cell(&body_vec, apple.location.x, apple.location.y) {
            let free = free_cells(&body_vec, width, height);
            proof {
                let c = Point { x: 0, y: 1 };
                assert(in_grid(c, 10, 10) && !body_contains(body_vec@, c));
                assert(free@.contains(c));
            }
            apple = Apple::from_list(free);
        }
        let board = Board::new(width, height, &snake, &apple);
        Game { board, snake, apple, score: 0, lost: false }
    }

    /// Whether moving the head to `next` loses the game: `next` is off the
    /// board, or the snake is already colliding with itself.
    pub fn check_loss(&self, next: &Point) -> (r: bool)
        requires
            self.snake.body@.len() >= 1,
        ensures
            r == (!in_grid(*next, self.board.width as int, self.board.height as int)
                || self_collision(self.snake.body@)),
    {
        if next.x < 0 || next.x >= self.board.width {
            return true;
        }
        if next.y < 0 || next.y >= self.board.height {
            return true;
        }
        self.snake.check_self_collision()
    }

    /// If `target` is the apple's cell: duplicate the tail segment (so the
    /// following slither grows the snake), respawn the apple anywhere on the
    /// grid, and add 5 to the score. Otherwise nothing changes.
    pub fn check_eat(&mut self, target: &Point)
        requires
            old(self).snake.body@.len() >= 1,
            old(self).board.width >= 1,
            old(self).board.height >= 1,
            old(self).score + 5 <= u32::MAX,
        ensures
            (*target == old(self).apple.location) ==> {
                &&& final(self).snake.body@ == old(self).snake.body@.push(
                    old(self).snake.body@.last(),
                )
                &&& final(self).score == old(self).score + 5
                &&& in_grid(
                    final(self).apple.location,
                    old(self).board.width as int,
                    old(self).board.height as int,
                )
                &&& final(self).snake.direction == old(self).snake.direction
                &&& final(self).lost == old(self).lost
                &&& final(self).board == old(self).board
            },
            (*target != old(self).apple.location) ==> *final(self) == *old(self),
    {
        if target.x == self.apple.location.x && target.y == self.apple.location.y {
            let tail = self.snake.body.back().unwrap();
            self.snake.body.push_back(tail);
            self.apple = Apple::rand_apple(self.board.width, self.board.height);
            self.score = self.score + 5;
        }
    }

    /// One production tick. A lost game stays exactly as it is. Otherwise the
    /// head's target cell is computed from the current direction; a move off
    /// the board, or a standing self-collision, only sets the terminal flag.
    /// On an eating tick the body grows by one segment and the score by 5; on
    /// any surviving tick the body advances one cell, the apple ends up off
    /// the body whenever any free cell exists (and stays put if it was not
    /// reached), and the board is redrawn from the new body and apple.
    pub fn update(&mut self)
        requires
            game_wf(*old(self)),
            old(self).score + 5 <= u32::MAX,
        ensures
            game_wf(*final(self)),
            production_step(*old(self), *final(self)),
            (!old(self).lost && !tick_loses(*old(self)) && tick_eats(*old(self))) ==> {
                &&& final(self).snake.body@.len() == old(self).snake.body@.len() + 1
                &&& final(self).score == old(self).score + 5
            },
            (!old(self).lost && !tick_loses(*old(self)) && !tick_eats(*old(self))) ==> {
                &&& final(self).snake.body@.len() == old(self).snake.body@.len()
                &&& final(self).score == old(self).score
            },
            (!old(self).lost && !tick_loses(*old(self)) && (exists|p: Point|
                in_grid(p, old(self).board.width as int, old(self).board.height as int)
                    && !body_contains(final(self).snake.body@, p)))
                ==> !body_contains(final(self).snake.body@, final(self).apple.location),
            (!old(self).lost && !tick_loses(*old(self)) && old(self).snake.body@.len() + 1
                < old(self).board.width * old(self).board.height) ==> !body_contains(
                final(self).snake.body@,
                final(self).apple.location,
            ),
    {
        if self.lost {
            return;
        }
        let ghost g0 = *self;
        let head = self.snake.body.front().unwrap();
        let next: Point = match self.snake.direction {
            Direction::Up => Point { x: head.x, y: head.y - 1 },
            Direction::Down => Point { x: head.x, y: head.y + 1 },
            Direction::Left => Point { x: head.x - 1, y: head.y },
            Direction::Right => Point { x: head.x + 1, y: head.y },
        };
        proof {
            assert(next == tick_next(g0));
        }
        if self.check_loss(&next) {
            self.lost = true;
            return;
        }
        self.check_eat(&next);
        self.snake.slither();
        proof {
            if tick_eats(g0) {
                assert(self.snake.body@ =~= seq![tick_next(g0)] + g0.snake.body@);
            } else {
                assert(self.snake.body@ =~= seq![tick_next(g0)] + g0.snake.body@.drop_last());
            }
            assert(body_in_grid(
                self.snake.body@,
                g0.board.width as int,
                g0.board.height as int,
            ));
        }
        let body_vec = self.snake.body.to_vec();
        if contains_cell(&body_vec, self.apple.location.x, self.apple.location.y) {
            let free = free_cells(&body_vec, self.board.width, self.board.height);
            if free.len() > 0 {
                self.apple = Apple::from_list(free);
            }
        }
        let state = render_grid(
            self.board.width,
            self.board.height,
            &body_vec,
            Some(self.apple.location),
        );
        self.board.state = state;
        proof {
            if self.snake.body@.len() < g0.board.width * g0.board.height {
                lemma_small_body_leaves_free_cell(
                    self.snake.body@,
                    g0.board.width as int,
                    g0.board.height as int,
                );
            }
        }
    }

    /// One speculative tick: the loss check and the advance of `update`, but
    /// no eat, score or apple effects, and the redrawn board shows the body
    /// only. Used to look one tick ahead in each direction.
    pub fn test_update(&mut self)
        requires
            game_wf(*old(self)),
        ensures
            game_wf(*final(self)),
            directed_step(*old(self), old(self).snake.direction, *final(self)),
    {
        if self.lost {
            return;
        }
        let ghost g0 = *self;
        let head = self.snake.body.front().unwrap();
        let next: Point = match self.snake.direction {
            Direction::Up => Point { x: head.x, y: head.y - 1 },
            Direction::Down => Point { x: head.x, y: head.y + 1 },
            Direction::Left => Point { x: head.x - 1, y: head.y },
            Direction::Right => Point { x: head.x + 1, y: head.y },
        };
        proof {
            assert(next == tick_next(g0));
        }
        if self.check_loss(&next) {
            self.lost = true;
            return;
        }
        self.snake.slither();
        proof {
            assert(self.snake.body@ =~= seq![tick_next(g0)] + g0.snake.body@.drop_last());
            assert(body_in_grid(
                self.snake.body@,
                g0.board.width as int,
                g0.board.height as int,
            ));
        }
        let body_vec = self.snake.body.to_vec();
        let state = render_grid(self.board.width, self.board.height, &body_vec, None);
        self.board.state = state;
    }

    /// Turns the snake; takes effect at the next tick. Nothing else changes.
    pub fn update_direction(&mut self, direction: Direction)
        ensures
            final(self).snake.direction == direction,
            final(self).snake.body == old(self).snake.body,
            final(self).board == old(self).board,
            final(self).apple == old(self).apple,
            final(self).score == old(self).score,
            final(self).lost == old(self).lost,
    {
        self.snake.direction = direction;
    }

    /// Back to the initial state on the same board: a one-segment snake at
    /// the origin headed down, a fresh apple off the snake, score 0, not
    /// lost. The board grid itself is left as it was (it is redrawn on the
    /// next tick).
    pub fn reset(&mut self)
        requires
            game_wf(*old(self)),
        ensures
            game_wf(*final(self)),
            final(self).snake.body@ == seq![(Point { x: 0, y: 0 })],
            final(self).snake.direction == Direction::Down,
            final(self).score == 0,
            final(self).lost == false,
            final(self).board == old(self).board,
            in_grid(
                final(self).apple.location,
                old(self).board.width as int,
                old(self).board.height as int,
            ),
            (exists|p: Point|
                in_grid(p, old(self).board.width as int, old(self).board.height as int)
                    && !body_contains(final(self).snake.body@, p)) ==> !body_contains(
                final(self).snake.body@,
                final(self).apple.location,
            ),
    {
        self.snake = Snake::new();
        self.apple = Apple::rand_apple(self.board.width, self.board.height);
        let body_vec = self.snake.body.to_vec();
        if contains_cell(&body_vec, self.apple.location.x, self.apple.location.y) {
            let free = free_cells(&body_vec, self.board.width, self.board.height);
            if free.len() > 0 {
                self.apple = Apple::from_list(free);
            }
        }
        self.score = 0;
        self.lost = false;
    }

    /// The four one-tick-ahead states, one per direction, in the order Up,
    /// Down, Left, Right: each is a deep clone of this game turned that way
    /// and advanced by one speculative tick. The game itself is borrowed
    /// immutably and cannot change.
    pub fn get_possible_states(&self) -> (r: Vec<(Direction, Game)>)
        requires
            game_wf(*self),
        ensures
            r@.len() == 4,
            r@[0].0 == Direction::Up && directed_step(*self, Direction::Up, r@[0].1),
            r@[1].0 == Direction::Down && directed_step(*self, Direction::Down, r@[1].1),
            r@[2].0 == Direction::Left && directed_step(*self, Direction::Left, r@[2].1),
            r@[3].0 == Direction::Right && directed_step(*self, Direction::Right, r@[3].1),
            forall|i: int| 0 <= i < 4 ==> game_wf(#[trigger] r@[i].1),
    {
        let mut states: Vec<(Direction, Game)> = Vec::new();

        let mut game = self.clone();
        game.update_direction(Direction::Up);
        game.test_update();
        states.push((Direction::Up, game));

        game = self.clone();
        game.update_direction(Direction::Down);
        game.test_update();
        states.push((Direction::Down, game));

        game = self.clone();
        game.update_direction(Direction::Left);
        game.test_update();
        states.push((Direction::Left, game));

        game = self.clone();
        game.update_direction(Direction::Right);
        game.test_update();
        states.push((Direction::Right, game));

        states
    }

    /// The number of body segments: the feature a `SnakeLength` leaf reads.
    pub fn snake_length(&self) -> (r: usize)
        ensures
            r == self.snake.body@.len(),
    {
        self.snake.body.len()
    }

    /// The categorical code of the current direction (the feature a
    /// `SnakeDirection` leaf reads): Up is 0, Down 1, Left 2, Right 3.
    pub fn direction_code(&self) -> (r: u32)
        ensures
            r == direction_code_spec(self.snake.direction),
    {
        match self.snake.direction {
            Direction::Up => 0,
            Direction::Down => 1,
            Direction::Left => 2,
            Direction::Right => 3,
        }
    }

    /// The Manhattan distance from the head to the apple: the feature an
    /// `AppleDistance` leaf reads.
    pub fn apple_distance(&self) -> (r: i32)
        requires
            game_wf(*self),
        ensures
            r == manhattan(self.apple.location, self.snake.body@[0]),
    {
        let head = self.snake.body.front().unwrap();
        let ax = self.apple.location.x;
        let ay = self.apple.location.y;
        let dx: i32 = if ax >= head.x {
            ax - head.x
        } else {
            head.x - ax
        };
        let dy: i32 = if ay >= head.y {
            ay - head.y
        } else {
            head.y - ay
        };
        dx + dy
    }

    /// The head's row (its y coordinate): the feature a `Row` leaf reads.
    pub fn head_row(&self) -> (r: i32)
        requires
            self.snake.body@.len() >= 1,
        ensures
            r == self.snake.body@[0].y,
    {
        self.snake.body.front().unwrap().y
    }

    /// The head's column (its x coordinate): the feature a `Column` leaf
    /// reads.
    pub fn head_column(&self) -> (r: i32)
        requires
            self.snake.body@.len() >= 1,
        ensures
            r == self.snake.body@[0].x,
    {
        self.snake.body.front().unwrap().x
    }

    /// A runtime check of the structural invariant `game_wf`, for callers
    /// outside verified code.
    pub fn is_well_formed(&self) -> (r: bool)
        ensures
            r == game_wf(*self),
    {
        if !(self.board.width >= 1 && self.board.height >= 1) {
            return false;
        }
        if !(self.board.width <= i32::MAX - self.board.height) {
            return false;
        }
        let n = self.snake.body.len();
        if n == 0 {
            return false;
        }
        for i in 0..n
            invariant
                n == self.snake.body@.len(),
                1 <= self.board.width,
                1 <= self.board.height,
                forall|j: int|
                    0 <= j < i ==> in_grid(
                        #[trigger] self.snake.body@[j],
                        self.board.width as int,
                        self.board.height as int,
                    ),
        {
            let p = self.snake.body.get(i);
            if !(0 <= p.x && p.x < self.board.width && 0 <= p.y && p.y < self.board.height) {
                return false;
            }
        }
        let a = self.apple.location;
        if !(0 <= a.x && a.x < self.board.width && 0 <= a.y && a.y < self.board.height) {
            return false;
        }
        if self.board.state.len() != self.board.height as usize {
            return false;
        }
        let h = self.board.state.len();
        for y in 0..h
            invariant
                h == self.board.state@.len(),
                1 <= self.board.width,
                h == self.board.height,
                forall|yy: int|
                    0 <= yy < y ==> (#[trigger] self.board.state@[yy])@.len()
                        == self.board.width,
        {
            if self.board.state[y].len() != self.board.width as usize {
                return false;
            }
        }
        true
    }
}

/// The categorical code of a direction: Up is 0, Down 1, Left 2, Right 3.
pub open spec fn direction_code_spec(d: Direction) -> u32 {
    match d {
        Direction::Up => 0,
        Direction::Down => 1,
        Direction::Left => 2,
        Direction::Right => 3,
    }
}

/// The Manhattan distance between two grid points.
pub open spec fn manhattan(a: Point, b: Point) -> int {
    vstd::math::abs(a.x - b.x) as int + vstd::math::abs(a.y - b.y) as int
}

/// The points of one grid row: column 0 up to `w`, at row `y`.
spec fn row_set(w: int, y: int) -> Set<Point> {
    Set::new(|p: Point| 0 <= p.x < w && p.y == y)
}

/// All points of the `w` by `h` grid.
spec fn grid_set(w: int, h: int) -> Set<Point> {
    Set::new(|p: Point| in_grid(p, w, h))
}

proof fn lemma_row_card(w: int, y: int)
    requires
        0 <= w <= i32::MAX,
        0 <= y <= i32::MAX,
    ensures
        row_set(w, y).finite(),
        row_set(w, y).len() == w,
    decreases w,
{
    broadcast use vstd::set::group_set_axioms;

    if w == 0 {
        assert(row_set(0, y) =~= Set::<Point>::empty());
    } else {
        lemma_row_card(w - 1, y);
        let q = Point { x: (w - 1) as i32, y: y as i32 };
        assert(row_set(w, y) =~= row_set(w - 1, y).insert(q));
        assert(!row_set(w - 1, y).contains(q));
    }
}

proof fn lemma_grid_card(w: int, h: int)
    requires
        0 <= w <= i32::MAX,
        0 <= h <= i32::MAX,
    ensures
        grid_set(w, h).finite(),
        grid_set(w, h).len() == w * h,
    decreases h,
{
    broadcast use vstd::set::group_set_axioms;

    if h == 0 {
        assert(grid_set(w, 0) =~= Set::<Point>::empty());
    } else {
        lemma_grid_card(w, h - 1);
        lemma_row_card(w, h - 1);
        assert(grid_set(w, h) =~= grid_set(w, h - 1).union(row_set(w, h - 1)));
        assert(grid_set(w, h - 1).disjoint(row_set(w, h - 1)));
        vstd::set_lib::lemma_set_disjoint_lens(grid_set(w, h - 1), row_set(w, h - 1));
        assert(grid_set(w, h - 1).union(row_set(w, h - 1)) == grid_set(w, h - 1) + row_set(
            w,
            h - 1,
        ));
        assert(w * (h - 1) + w == w * h) by (nonlinear_arith);
    }
}

/// Pigeonhole for the apple respawn: a body with fewer segments than the
/// grid has cells always leaves some grid cell uncovered, so `update`'s
/// promise that the apple ends up off the body applies unconditionally to
/// any game whose snake has not filled the whole board.
pub proof fn lemma_small_body_leaves_free_cell(body: Seq<Point>, w: int, h: int)
    requires
        1 <= w <= i32::MAX,
        1 <= h <= i32::MAX,
        body.len() < w * h,
    ensures
        exists|p: Point| in_grid(p, w, h) && !body_contains(body, p),
{
    broadcast use vstd::set::group_set_axioms;
    broadcast use vstd::seq_lib::seq_to_set_is_finite;

    lemma_grid_card(w, h);
    if forall|p: Point| #[trigger] in_grid(p, w, h) ==> body_contains(body, p) {
        assert forall|p: Point| grid_set(w, h).contains(p) implies body.to_set().contains(
            p,
        ) by {
            assert(body_contains(body, p));
            let i = choose|i: int|
                0 <= i < body.len() && body[i].x == p.x && body[i].y == p.y;
            assert(body[i] == p);
            assert(body.contains(p));
        }
        assert(grid_set(w, h).subset_of(body.to_set()));
        body.lemma_cardinality_of_set();
        vstd::set_lib::lemma_len_subset(grid_set(w, h), body.to_set());
        assert(false);
    }
}

} // verus!
