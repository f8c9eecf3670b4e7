use crate::command::Command;
use crate::direction::{reversed, Direction};
use crate::point::{moved, Point};
use crate::snake::{initial_body, Snake};
use rand::Rng;
use vstd::prelude::*;

verus! {

/// The tick length, in milliseconds, at the lowest speed.
pub const MAX_INTERVAL: u16 = 128;

/// The tick length, in milliseconds, at the highest speed.
pub const MIN_INTERVAL: u16 = 32;

/// The highest speed level.
pub const MAX_SPEED: u16 = 8;

/// The number of segments the snake starts with.
pub const START_LENGTH: u16 = 3;

/// Whether a round is still being played.
#[derive(Debug, Clone, Copy, PartialEq, Eq, Structural)]
pub enum GameState {
    Running,
    GameOver,
}

/// What one tick of the snake did.
#[derive(Debug, Clone, Copy, PartialEq, Eq, Structural)]
pub enum Outcome {
    /// The snake moved one cell.
    Moved,
    /// The snake moved onto the food and grew; the food is gone.
    Ate,
    /// The snake hit a wall or itself, or the round was already over; nothing moved.
    Stopped,
}

/// The state of a round as plain values.
pub struct GameModel {
    pub width: u16,
    pub height: u16,
    pub food: Option<Point>,
    pub body: Seq<Point>,
    pub heading: Direction,
    pub speed: u16,
    pub score: u16,
    pub state: GameState,
}

/// A round of the game: the board, the snake, the food, the score and the speed.
#[derive(Debug)]
pub struct Game {
    width: u16,
    height: u16,
    food: Option<Point>,
    snake: Snake,
    speed: u16,
    score: u16,
    state: GameState,
}

/// The number of points between two speed levels on a `width` by `height` board.
pub open spec fn speed_step(width: u16, height: u16) -> int {
    (width * height) as int / MAX_SPEED as int
}

/// The speed level reached with `score` points: one more each time the score reaches
/// a multiple of the step, never more than `MAX_SPEED`.
pub open spec fn speed_for(score: u16, width: u16, height: u16) -> u16 {
    if score as int / speed_step(width, height) > MAX_SPEED as int {
        MAX_SPEED
    } else {
        (score as int / speed_step(width, height)) as u16
    }
}

/// The tick length, in milliseconds, at a speed level.
pub open spec fn interval_for(speed: u16) -> int {
    MIN_INTERVAL + ((MAX_INTERVAL - MIN_INTERVAL) / MAX_SPEED as int) * (MAX_SPEED - speed)
}

/// Whether `p` is a cell of a `width` by `height` board.
pub open spec fn on_board(p: Point, width: u16, height: u16) -> bool {
    p.x < width && p.y < height
}

/// The state in which a round starts: the snake in the middle of the board, heading
/// along `heading`, no food yet, no points.
pub open spec fn start_model(width: u16, height: u16, heading: Direction) -> GameModel {
    GameModel {
        width,
        height,
        food: None,
        body: initial_body(Point { x: (width / 2) as u16, y: (height / 2) as u16 }, START_LENGTH, heading),
        heading,
        speed: 0,
        score: 0,
        state: GameState::Running,
    }
}

/// The board sizes a round can be played on.
pub open spec fn board_fits(width: u16, height: u16) -> bool {
    4 <= width && 4 <= height && width * height <= u16::MAX
}

/// The head stands on the edge of the board it is heading to.
pub open spec fn wall_ahead(m: GameModel) -> bool {
    let head = m.body[0];
    match m.heading {
        Direction::Up => head.y == 0,
        Direction::Right => head.x == m.width - 1,
        Direction::Down => head.y == m.height - 1,
        Direction::Left => head.x == 0,
    }
}

/// The cell the head moves to next.
pub open spec fn next_head_of(m: GameModel) -> Point {
    moved(m.body[0], m.heading, 1)
}

/// The next head lands on a segment other than the head and the tail, which leaves the
/// cell on the same move.
pub open spec fn bites_itself(m: GameModel) -> bool {
    exists|i: int| 1 <= i < m.body.len() - 1 && m.body[i] == next_head_of(m)
}

/// The heading after a turn towards `towards` is asked for, judged against `baseline`,
/// the heading at the start of the tick: going straight on or reversing is ignored.
pub open spec fn turned(heading: Direction, baseline: Direction, towards: Direction) -> Direction {
    if towards != baseline && towards != reversed(baseline) {
        towards
    } else {
        heading
    }
}

/// The state after one tick of movement: a collision ends the round and moves
/// nothing; reaching the food grows the snake by its new head, scores a point and
/// clears the food; otherwise the snake moves one cell.
pub open spec fn after_step(m: GameModel) -> GameModel {
    if m.state == GameState::GameOver {
        m
    } else if wall_ahead(m) || bites_itself(m) {
        GameModel { state: GameState::GameOver, ..m }
    } else if m.food == Some(next_head_of(m)) {
        GameModel {
            body: seq![next_head_of(m)] + m.body,
            score: (m.score + 1) as u16,
            speed: speed_for((m.score + 1) as u16, m.width, m.height),
            food: None,
            ..m
        }
    } else {
        GameModel { body: seq![next_head_of(m)] + m.body.drop_last(), ..m }
    }
}

/// What one tick of movement reports.
pub open spec fn step_outcome(m: GameModel) -> Outcome {
    if m.state == GameState::GameOver || wall_ahead(m) || bites_itself(m) {
        Outcome::Stopped
    } else if m.food == Some(next_head_of(m)) {
        Outcome::Ate
    } else {
        Outcome::Moved
    }
}

/// The state after a command, with `baseline` the heading at the start of the tick:
/// quitting ends the round, a turn goes by the turn rule.
pub open spec fn after_command(m: GameModel, baseline: Direction, command: Command) -> GameModel {
    match command {
        Command::Quit => GameModel { state: GameState::GameOver, ..m },
        Command::Turn(towards) => GameModel { heading: turned(m.heading, baseline, towards), ..m },
    }
}

/// Some cell of the board is not covered by the snake.
pub open spec fn has_free_cell(m: GameModel) -> bool {
    exists|p: Point| on_board(p, m.width, m.height) && !m.body.contains(p)
}

/// The two states differ at most in their food.
pub open spec fn same_but_food(a: GameModel, b: GameModel) -> bool {
    a == (GameModel { food: a.food, ..b })
}

/// The speed level reached with `score` points on a `width` by `height` board.
pub fn speed_for_score(score: u16, width: u16, height: u16) -> (r: u16)
    requires
        width * height <= u16::MAX,
        MAX_SPEED <= width * height,
    ensures
        r == speed_for(score, width, height),
{
    let threshold: u16 = (width * height) / MAX_SPEED;
    let level: u16 = score / threshold;
    if level > MAX_SPEED {
        MAX_SPEED
    } else {
        level
    }
}

/// The colour the snake is drawn in, cycling with the speed level.
#[derive(Debug, Clone, Copy, PartialEq, Eq, Structural)]
pub enum SnakeColor {
    Green,
    Cyan,
    Yellow,
}

/// Whether `p` is drawn at column `col` and row `row` of the frame, which puts a
/// border of one cell around the board.
pub open spec fn drawn_at(p: Point, col: int, row: int) -> bool {
    p.x + 1 == col && p.y + 1 == row
}

/// The character at column `col` and row `row` of the frame: the border is drawn
/// first, then the empty board, then the head as `S` and the other segments as `s`,
/// then the food as `A`; what is drawn later covers what was drawn before.
pub open spec fn glyph(m: GameModel, col: int, row: int) -> char {
    if m.food matches Some(f) && drawn_at(f, col, row) {
        'A'
    } else if exists|i: int| 1 <= i < m.body.len() && drawn_at(#[trigger] m.body[i], col, row) {
        's'
    } else if m.body.len() > 0 && drawn_at(m.body[0], col, row) {
        'S'
    } else if row == 0 || row == m.height + 1 || col == 0 || col == m.width + 1 {
        '#'
    } else {
        ' '
    }
}

/// Scoring one more point raises the speed level by one exactly when the new score
/// is a multiple of the step and the level is below `MAX_SPEED`; otherwise the level stays.
pub proof fn lemma_speed_increment(score: u16, width: u16, height: u16)
    requires
        score < u16::MAX,
        MAX_SPEED <= width * height,
    ensures
        speed_for((score + 1) as u16, width, height) == if (score + 1) % speed_step(width, height)
            == 0 && speed_for(score, width, height) < MAX_SPEED {
            speed_for(score, width, height) + 1
        } else {
            speed_for(score, width, height) as int
        },
{
    let t = speed_step(width, height);
    assert(t >= 1) by (nonlinear_arith)
        requires
            t == (width * height) as int / 8,
            8 <= width * height,
    ;
    let s = score as int;
    assert((s + 1) / t == if (s + 1) % t == 0 {
        s / t + 1
    } else {
        s / t
    }) by (nonlinear_arith)
        requires
            t >= 1,
            s >= 0,
    ;
}

/// A turn towards the heading of the start of the tick, or towards its opposite,
/// leaves the heading as it is; a turn towards either of the other two headings
/// takes that heading.
pub proof fn lemma_turn_rule(heading: Direction, baseline: Direction, towards: Direction)
    ensures
        turned(heading, baseline, baseline) == heading,
        turned(heading, baseline, reversed(baseline)) == heading,
        towards != baseline && towards != reversed(baseline) ==> turned(heading, baseline, towards)
            == towards,
{
}

impl View for Game {
    type V = GameModel;

    closed spec fn view(&self) -> GameModel {
        GameModel {
            width: self.width,
            height: self.height,
            food: self.food,
            body: self.snake.body_seq(),
            heading: self.snake.heading(),
            speed: self.speed,
            score: self.score,
            state: self.state,
        }
    }
}

/// Relies on rand::Rng::gen_range on the thread-local generator: a value in `0..high`;
/// it panics when the range is empty, which the `requires` leaves out.
#[verifier::external_body]
fn random_below(high: u16) -> (r: u16)
    requires
        0 < high,
    ensures
        r < high,
{
    rand::thread_rng().gen_range(0, high)
}

impl Game {
    /// The invariant of a round.
    pub open spec fn wf(&self) -> bool {
        let m = self@;
        &&& 1 <= m.width && 1 <= m.height
        &&& m.width * m.height <= u16::MAX
        &&& MAX_SPEED <= m.width * m.height
        &&& m.body.len() == START_LENGTH + m.score
        &&& on_board(m.body[0], m.width, m.height)
        &&& m.speed == speed_for(m.score, m.width, m.height)
        &&& (m.food matches Some(f) ==> on_board(f, m.width, m.height) && !m.body.contains(f))
    }

    proof fn lemma_snake_wf(&self)
        requires
            self.wf(),
        ensures
            self.snake.wf(),
            self.snake.head() == self@.body[0],
    {
    }

    /// Starts a round on a `width` by `height` board with the snake heading along `direction`.
    pub fn with_direction(width: u16, height: u16, direction: Direction) -> (r: Self)
        requires
            board_fits(width, height),
        ensures
            r.wf(),
            r@ == start_model(width, height, direction),
    {
        let start = Point::new(width / 2, height / 2);
        let snake = Snake::new(start, START_LENGTH, direction);
        let r = Game {
            width,
            height,
            food: None,
            snake,
            speed: 0,
            score: 0,
            state: GameState::Running,
        };
        assert(r.snake.body_seq()[0] == start);
        assert(speed_step(width, height) >= 1) by (nonlinear_arith)
            requires
                4 <= width,
                4 <= height,
        ;
        r
    }

    /// Starts a round on a `width` by `height` board with the snake heading along a
    /// direction drawn at random.
    pub fn new(width: u16, height: u16) -> (r: Self)
        requires
            board_fits(width, height),
        ensures
            r.wf(),
            r@ == start_model(width, height, r@.heading),
    {
        let direction = match random_below(4) {
            0 => Direction::Up,
            1 => Direction::Right,
            2 => Direction::Down,
            _ => Direction::Left,
        };
        Self::with_direction(width, height, direction)
    }

    /// The tick length in milliseconds: the lowest speed gives the longest tick.
    pub fn calculate_interval(&self) -> (r: u64)
        requires
            self.wf(),
        ensures
            r == interval_for(self@.speed),
    {
        assert(self.speed <= MAX_SPEED);
        let speed = MAX_SPEED - self.speed;
        let per_level: u16 = (MAX_INTERVAL - MIN_INTERVAL) / MAX_SPEED;
        assert(per_level == 12);
        let slowdown: u16 = per_level * speed;
        (MIN_INTERVAL + slowdown) as u64
    }

    /// Whether the head stands on the edge of the board it is heading to.
    pub fn has_collided_with_wall(&self) -> (r: bool)
        requires
            self.wf(),
        ensures
            r == wall_ahead(self@),
    {
        proof {
            self.lemma_snake_wf();
        }
        let head_point = self.snake.get_head_point();
        match self.snake.get_direction() {
            Direction::Up => head_point.y == 0,
            Direction::Right => head_point.x == self.width - 1,
            Direction::Down => head_point.y == self.height - 1,
            Direction::Left => head_point.x == 0,
        }
    }
    /// Whether the next head would land on a segment other than the head and the tail.
    pub fn has_bitten_itself(&self) -> (r: bool)
        requires
            self.wf(),
            !wall_ahead(self@),
        ensures
            r == bites_itself(self@),
    {
        proof {
            self.lemma_snake_wf();
        }
        let head_point = self.snake.get_head_point();
        let body_points = self.snake.get_body_points();
        let next_head_point = match head_point.transform(self.snake.get_direction(), 1) {
            Ok(p) => p,
            // The head is on the board and no wall is ahead, so this cannot happen.
            Err(_) => head_point,
        };
        let last: usize = body_points.len() - 1;
        let mut i: usize = 1;
        while i < last
            invariant
                self.wf(),
                body_points@ == self@.body,
                next_head_point == next_head_of(self@),
                last == self@.body.len() - 1,
                1 <= i <= last,
                forall|k: int| 1 <= k < i ==> self@.body[k] != next_head_point,
            decreases last - i,
        {
            if body_points[i] == next_head_point {
                return true;
            }
            i = i + 1;
        }
        false
    }

    /// Asks to turn towards `towards`; `baseline` is the heading at the start of the
    /// tick. Going straight on or reversing is ignored, any other turn is taken.
    pub fn request_turn(&mut self, baseline: Direction, towards: Direction)
        ensures
            final(self)@ == (GameModel { heading: turned(old(self)@.heading, baseline, towards), ..old(self)@ }),
    {
        if towards != baseline && towards != baseline.opposite() {
            self.snake.set_direction(towards);
        }
    }

    /// Applies a command received during a tick whose heading at the start was `baseline`.
    pub fn handle_command(&mut self, baseline: Direction, command: Command)
        ensures
            final(self)@ == after_command(old(self)@, baseline, command),
    {
        match command {
            Command::Quit => {
                self.state = GameState::GameOver;
            },
            Command::Turn(towards) => {
                self.request_turn(baseline, towards);
            },
        }
    }

    /// Moves the snake one cell, after checking for walls and for its own body; food
    /// on the next cell is eaten. Eaten food is not replaced here.
    pub fn step(&mut self) -> (r: Outcome)
        requires
            old(self).wf(),
            old(self)@.score < u16::MAX,
        ensures
            final(self).wf(),
            final(self)@ == after_step(old(self)@),
            r == step_outcome(old(self)@),
    {
        if self.state == GameState::GameOver {
            return Outcome::Stopped;
        }
        if self.has_collided_with_wall() || self.has_bitten_itself() {
            self.state = GameState::GameOver;
            return Outcome::Stopped;
        }
        proof {
            self.lemma_snake_wf();
        }
        let head_point = self.snake.get_head_point();
        let next_head_point = match head_point.transform(self.snake.get_direction(), 1) {
            Ok(p) => p,
            // The head is on the board and no wall is ahead, so this cannot happen.
            Err(_) => head_point,
        };
        let ate = match self.food {
            Some(f) => f == next_head_point,
            None => false,
        };
        if ate {
            self.snake.grow();
            self.score = self.score + 1;
            self.speed = speed_for_score(self.score, self.width, self.height);
            self.food = None;
            Outcome::Ate
        } else {
            let ghost before = self.snake.body_seq();
            self.snake.slither();
            proof {
                if let Some(f) = self.food {
                    assert(!before.contains(f));
                    assert forall|k: int| 0 <= k < self.snake.body_seq().len() implies self.snake.body_seq()[k] != f by {
                        if k > 0 {
                            assert(self.snake.body_seq()[k] == before[k - 1]);
                        }
                    }
                }
            }
            Outcome::Moved
        }
    }

    /// Puts the food on `point` if it is a cell of the board the snake does not cover;
    /// tells whether it did.
    pub fn offer_food(&mut self, point: Point) -> (r: bool)
        requires
            old(self).wf(),
        ensures
            final(self).wf(),
            r == (on_board(point, old(self)@.width, old(self)@.height) && !old(self)@.body.contains(point)),
            r ==> final(self)@ == (GameModel { food: Some(point), ..old(self)@ }),
            !r ==> final(self)@ == old(self)@,
    {
        if point.x < self.width && point.y < self.height && !self.snake.contains_point(&point) {
            self.food = Some(point);
            true
        } else {
            false
        }
    }

    /// Places the food on a random cell the snake does not cover: cells are drawn at
    /// random, as many times as the board has cells, and if none of them is free the
    /// first free cell in reading order is taken. When no cell is free the food stays.
    pub fn place_food(&mut self)
        requires
            old(self).wf(),
        ensures
            final(self).wf(),
            same_but_food(final(self)@, old(self)@),
            final(self)@.food matches Some(f) ==> on_board(f, old(self)@.width, old(self)@.height)
                && !old(self)@.body.contains(f),
            has_free_cell(old(self)@) ==> final(self)@.food is Some,
    {
        let tries: u16 = self.width * self.height;
        let mut attempt: u16 = 0;
        while attempt < tries
            invariant
                self.wf(),
                same_but_food(self@, old(self)@),
                tries == self@.width * self@.height,
            decreases tries - attempt,
        {
            let random_x = random_below(self.width);
            let random_y = random_below(self.height);
            if self.offer_food(Point::new(random_x, random_y)) {
                return;
            }
            attempt = attempt + 1;
        }
        let mut y: u16 = 0;
        while y < self.height
            invariant
                self.wf(),
                same_but_food(self@, old(self)@),
                y <= self@.height,
                forall|p: Point| on_board(p, self@.width, self@.height) && p.y < y ==> self@.body.contains(p),
            decreases self@.height - y,
        {
            let mut x: u16 = 0;
            while x < self.width
                invariant
                    self.wf(),
                    same_but_food(self@, old(self)@),
                    y < self@.height,
                    x <= self@.width,
                    forall|p: Point| on_board(p, self@.width, self@.height) && p.y < y ==> self@.body.contains(p),
                    forall|p: Point| p.y == y && p.x < x ==> self@.body.contains(p),
                decreases self@.width - x,
            {
                if self.offer_food(Point::new(x, y)) {
                    return;
                }
                x = x + 1;
            }
            y = y + 1;
        }
    }

    /// One tick of movement, and new food after the old one was eaten.
    pub fn advance(&mut self) -> (r: Outcome)
        requires
            old(self).wf(),
            old(self)@.score < u16::MAX,
        ensures
            final(self).wf(),
            r == step_outcome(old(self)@),
            same_but_food(final(self)@, after_step(old(self)@)),
            r != Outcome::Ate ==> final(self)@ == after_step(old(self)@),
            r == Outcome::Ate && has_free_cell(after_step(old(self)@)) ==> final(self)@.food is Some,
    {
        let r = self.step();
        if r == Outcome::Ate {
            self.place_food();
        }
        r
    }
    fn glyph_at(&self, col: u32, row: u32) -> (r: char)
        requires
            self.wf(),
        ensures
            r == glyph(self@, col as int, row as int),
    {
        proof {
            self.lemma_snake_wf();
        }
        if let Some(f) = self.food {
            if f.x as u32 + 1 == col && f.y as u32 + 1 == row {
                return 'A';
            }
        }
        let body_points = self.snake.get_body_points();
        let mut i: usize = 1;
        while i < body_points.len()
            invariant
                body_points@ == self@.body,
                1 <= i <= body_points@.len(),
                !(self@.food matches Some(f) && drawn_at(f, col as int, row as int)),
                forall|k: int| 1 <= k < i ==> !drawn_at(#[trigger] body_points@[k], col as int, row as int),
            decreases body_points@.len() - i,
        {
            let p = body_points[i];
            if p.x as u32 + 1 == col && p.y as u32 + 1 == row {
                assert(drawn_at(self@.body[i as int], col as int, row as int));
                return 's';
            }
            i = i + 1;
        }
        let head_point = body_points[0];
        if head_point.x as u32 + 1 == col && head_point.y as u32 + 1 == row {
            'S'
        } else if row == 0 || row == self.height as u32 + 1 || col == 0 || col == self.width as u32 + 1 {
            '#'
        } else {
            ' '
        }
    }

    /// The frame to show: the board with a border of one cell around it, one row of
    /// characters per line.
    pub fn render(&self) -> (r: Vec<Vec<char>>)
        requires
            self.wf(),
        ensures
            r@.len() == self@.height + 2,
            forall|row: int| 0 <= row < r@.len() ==> (#[trigger] r@[row])@.len() == self@.width + 2,
            forall|row: int, col: int|
                0 <= row < r@.len() && 0 <= col < self@.width + 2 ==> #[trigger] r@[row]@[col]
                    == glyph(self@, col, row),
    {
        let rows: u32 = self.height as u32 + 2;
        let cols: u32 = self.width as u32 + 2;
        let mut frame: Vec<Vec<char>> = Vec::new();
        let mut row: u32 = 0;
        while row < rows
            invariant
                self.wf(),
                rows == self@.height + 2,
                cols == self@.width + 2,
                row <= rows,
                frame@.len() == row,
                forall|j: int| 0 <= j < row ==> (#[trigger] frame@[j])@.len() == cols,
                forall|j: int, c: int|
                    0 <= j < row && 0 <= c < cols ==> #[trigger] frame@[j]@[c] == glyph(self@, c, j),
            decreases rows - row,
        {
            let mut line: Vec<char> = Vec::new();
            let mut col: u32 = 0;
            while col < cols
                invariant
                    self.wf(),
                    col <= cols,
                    line@.len() == col,
                    forall|c: int| 0 <= c < col ==> line@[c] == glyph(self@, c, row as int),
                decreases cols - col,
            {
                line.push(self.glyph_at(col, row));
                col = col + 1;
            }
            frame.push(line);
            row = row + 1;
        }
        frame
    }

    /// The colour of the snake at the current speed level.
    pub fn snake_color(&self) -> (r: SnakeColor)
        ensures
            r == (if self@.speed % 3 == 0 {
                SnakeColor::Green
            } else if self@.speed % 3 == 1 {
                SnakeColor::Cyan
            } else {
                SnakeColor::Yellow
            }),
    {
        match self.speed % 3 {
            0 => SnakeColor::Green,
            1 => SnakeColor::Cyan,
            _ => SnakeColor::Yellow,
        }
    }
    pub fn width(&self) -> (r: u16)
        ensures
            r == self@.width,
    {
        self.width
    }

    pub fn height(&self) -> (r: u16)
        ensures
            r == self@.height,
    {
        self.height
    }

    pub fn food(&self) -> (r: Option<Point>)
        ensures
            r == self@.food,
    {
        self.food
    }

    pub fn snake(&self) -> (r: &Snake)
        ensures
            r.body_seq() == self@.body,
            r.heading() == self@.heading,
    {
        &self.snake
    }

    pub fn speed(&self) -> (r: u16)
        ensures
            r == self@.speed,
    {
        self.speed
    }

    pub fn score(&self) -> (r: u16)
        ensures
            r == self@.score,
    {
        self.score
    }

    pub fn state(&self) -> (r: GameState)
        ensures
            r == self@.state,
    {
        self.state
    }
}

} // verus!
