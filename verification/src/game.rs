//! A game in progress: the field, the two paddles, the ball and the score,
//! moved on by input and by ticks.

use vstd::prelude::*;
use crate::ball::{Ball, BallModel};
use crate::geometry::{Point, Size};
use crate::input::{handle_paddles, routed_all, MidiMessage};
use crate::player::Player;
use crate::score::{Score, ScoreModel};
use crate::simulation::{in_contact, step_ball, step_score, try_step, Scene};

verus! {

/// Width of a paddle, in pixels.
pub const PADDLE_WIDTH: u32 = 5;

/// Height of a paddle, in pixels.
pub const PADDLE_HEIGHT: u32 = 25;

/// Columns between the first column and paddle 2, and between paddle 1 and
/// the last column.
pub const PADDLE_MARGIN: i32 = 50;

/// Diameter of the ball, in pixels.
pub const BALL_DIAMETER: u32 = 9;

/// Horizontal speed of the first serve, in pixels per tick.
pub const SERVE_SPEED: i32 = 3;

/// Points that win a round.
pub const BEST_OF: u32 = 5;

/// Why a game cannot be set up.
#[derive(Clone, Copy, Debug, PartialEq, Eq, Structural)]
pub enum ConfigError {
    /// The field has no cell: its width or its height is not positive.
    EmptyField,
}

/// What a `Game` stands for.
pub struct GameModel {
    pub width: int,
    pub height: int,
    pub player1: Player,
    pub player2: Player,
    /// Where the paddles stood at the end of the tick before.
    pub player1_old_pos: Point,
    pub player2_old_pos: Point,
    pub ball: BallModel,
    /// The ball and a paddle touched in the tick before.
    pub touching: bool,
    pub score: ScoreModel,
}

/// The coordinate `at` lies on an axis of `cells` cells.
pub open spec fn on_axis(at: int, cells: int) -> bool {
    0 <= at < cells
}

impl GameModel {
    /// The game at its start on a field of `width` by `height` cells:
    /// paddle 1 on the right, paddle 2 on the left, both half-way down; the
    /// ball on the centre, served to the right; no points.
    pub open spec fn start(width: int, height: int) -> GameModel {
        let right = Point { x: (width - PADDLE_MARGIN - 1) as i32, y: (height / 2) as i32 };
        let left = Point { x: PADDLE_MARGIN, y: (height / 2) as i32 };
        let size = Size { width: PADDLE_WIDTH, height: PADDLE_HEIGHT };
        GameModel {
            width,
            height,
            player1: Player { position: right, size },
            player2: Player { position: left, size },
            player1_old_pos: right,
            player2_old_pos: left,
            ball: BallModel {
                x: width / 2,
                y: height / 2,
                diameter: BALL_DIAMETER as nat,
                speed_x: SERVE_SPEED as int,
                speed_y: 0,
            },
            touching: false,
            score: ScoreModel { score_1: 0, score_2: 0, best_of: BEST_OF as nat },
        }
    }

    /// The state is one that a game can be in: the field has cells, the
    /// ball lies on it, the paddles are and were on its rows, and the round
    /// is open.
    pub open spec fn wf(self) -> bool {
        &&& 0 < self.width <= i32::MAX
        &&& 0 < self.height <= i32::MAX
        &&& on_axis(self.ball.x, self.width)
        &&& on_axis(self.ball.y, self.height)
        &&& self.ball.fits()
        &&& on_axis(self.player1.position.y as int, self.height)
        &&& on_axis(self.player2.position.y as int, self.height)
        &&& on_axis(self.player1_old_pos.y as int, self.height)
        &&& on_axis(self.player2_old_pos.y as int, self.height)
        &&& self.score.in_play()
        &&& self.score.best_of <= u32::MAX
    }

    /// What surrounds the ball in the next tick. A paddle's vertical speed
    /// is the distance it has moved since the tick before.
    pub open spec fn scene(self) -> Scene {
        Scene {
            player1: self.player1,
            player2: self.player2,
            player1_speed_y: self.player1.position.y - self.player1_old_pos.y,
            player2_speed_y: self.player2.position.y - self.player2_old_pos.y,
            width: self.width,
            height: self.height,
        }
    }

    /// The game one tick later.
    pub open spec fn after_tick(self) -> GameModel {
        GameModel {
            ball: step_ball(self.ball, self.scene(), self.touching),
            score: step_score(self.score, self.ball, self.scene()),
            touching: in_contact(self.ball, self.scene()),
            player1_old_pos: self.player1.position,
            player2_old_pos: self.player2.position,
            ..self
        }
    }

    /// The ball of the next tick can be stored.
    pub open spec fn tick_fits(self) -> bool {
        step_ball(self.ball, self.scene(), self.touching).fits()
    }

    /// The game `n` ticks later, with no input in between.
    pub open spec fn after_ticks(self, n: nat) -> GameModel
        decreases n,
    {
        if n == 0 {
            self
        } else {
            self.after_ticks((n - 1) as nat).after_tick()
        }
    }

    /// The game with its paddles at `paddles`, paddle 1 first.
    pub open spec fn with_paddles(self, paddles: (Point, Point)) -> GameModel {
        GameModel {
            player1: Player { position: paddles.0, ..self.player1 },
            player2: Player { position: paddles.1, ..self.player2 },
            ..self
        }
    }

    /// The game once `events` have moved the paddles.
    pub open spec fn after_events(self, events: Seq<MidiMessage>) -> GameModel {
        self.with_paddles(
            routed_all(
                events,
                (self.player1.position, self.player2.position),
                self.width,
                self.height,
            ),
        )
    }
}

/// Input never takes a paddle off the field: on each axis, a paddle that is
/// on the field stays on it.
pub proof fn lemma_routed_stays_on_field(
    events: Seq<MidiMessage>,
    paddles: (Point, Point),
    width: int,
    height: int,
)
    requires
        0 < width <= i32::MAX,
        0 < height <= i32::MAX,
    ensures
        on_axis(paddles.0.x as int, width) ==> on_axis(
            routed_all(events, paddles, width, height).0.x as int,
            width,
        ),
        on_axis(paddles.0.y as int, height) ==> on_axis(
            routed_all(events, paddles, width, height).0.y as int,
            height,
        ),
        on_axis(paddles.1.x as int, width) ==> on_axis(
            routed_all(events, paddles, width, height).1.x as int,
            width,
        ),
        on_axis(paddles.1.y as int, height) ==> on_axis(
            routed_all(events, paddles, width, height).1.y as int,
            height,
        ),
    decreases events.len(),
{
    if events.len() > 0 {
        lemma_routed_stays_on_field(events.drop_last(), paddles, width, height);
    }
}

/// A tick and a batch of input each lead from one state of a game to
/// another: the ball stays on the field, the paddles on its rows, and no
/// counter reaches the threshold without the round starting again.
pub proof fn lemma_game_stays_well_formed(game: GameModel, events: Seq<MidiMessage>)
    requires
        game.wf(),
    ensures
        game.after_events(events).wf(),
        game.tick_fits() ==> game.after_tick().wf(),
{
    lemma_routed_stays_on_field(
        events,
        (game.player1.position, game.player2.position),
        game.width,
        game.height,
    );
}

/// No paddle is in the way of the ball during the next `n` ticks.
pub open spec fn unobstructed(game: GameModel, n: nat) -> bool {
    forall|i: nat|
        i < n ==> !in_contact((#[trigger] game.after_ticks(i)).ball, game.after_ticks(i).scene())
}

/// A ball that flies to the right along a row, with no paddle in its way,
/// goes on by its speed with every tick, as long as it stays short of the
/// last column. Nothing else changes: no point is scored, and the walls do
/// not turn a ball that has no vertical speed.
pub proof fn lemma_free_flight(game: GameModel, n: nat)
    requires
        game.wf(),
        game.ball.speed_x > 0,
        game.ball.speed_y == 0,
        unobstructed(game, n),
        game.ball.x + n * game.ball.speed_x < game.width - 1,
    ensures
        game.after_ticks(n).ball == (BallModel {
            x: game.ball.x + n * game.ball.speed_x,
            ..game.ball
        }),
        game.after_ticks(n).score == game.score,
        game.after_ticks(n).player1 == game.player1,
        game.after_ticks(n).player2 == game.player2,
        game.after_ticks(n).width == game.width,
        game.after_ticks(n).height == game.height,
        game.after_ticks(n).wf(),
    decreases n,
{
    let speed = game.ball.speed_x;
    if n == 0 {
        assert(n * speed == 0) by (nonlinear_arith)
            requires
                n == 0,
        ;
    } else {
        let m = (n - 1) as nat;
        assert(m * speed + speed == n * speed && m * speed >= 0) by (nonlinear_arith)
            requires
                m == n - 1,
                speed > 0,
        ;
        lemma_free_flight(game, m);
        let before = game.after_ticks(m);
        assert(!in_contact(before.ball, before.scene()));
        lemma_game_stays_well_formed(before, Seq::empty());
    }
}

/// A ball that flies to the right along a row, with no paddle in its way,
/// scores for player 1 with the first tick that takes it to the last column
/// or beyond, and not before. In that tick it goes back to the centre of the
/// field and is served to the left.
pub proof fn lemma_flight_ends_in_goal(game: GameModel, n: nat)
    requires
        game.wf(),
        game.ball.speed_x > 0,
        game.ball.speed_y == 0,
        n > 0,
        unobstructed(game, n),
        game.ball.x + (n - 1) * game.ball.speed_x < game.width - 1,
        game.ball.x + n * game.ball.speed_x >= game.width - 1,
    ensures
        game.after_ticks((n - 1) as nat).score == game.score,
        game.after_ticks(n).score == game.score.credit(1).settled(),
        game.after_ticks(n).ball == (BallModel {
            x: game.width / 2,
            y: game.height / 2,
            speed_x: -game.ball.speed_x,
            speed_y: 0,
            ..game.ball
        }),
{
    let speed = game.ball.speed_x;
    let m = (n - 1) as nat;
    assert(m * speed + speed == n * speed) by (nonlinear_arith)
        requires
            m == n - 1,
    ;
    lemma_free_flight(game, m);
    let before = game.after_ticks(m);
    assert(!in_contact(before.ball, before.scene()));
}

/// A game between two players, from its first serve on.
pub struct Game {
    width: i32,
    height: i32,
    player1: Player,
    player2: Player,
    player1_old_pos: Point,
    player2_old_pos: Point,
    ball: Ball,
    touching: bool,
    score: Score,
}

impl View for Game {
    type V = GameModel;

    closed spec fn view(&self) -> GameModel {
        GameModel {
            width: self.width as int,
            height: self.height as int,
            player1: self.player1,
            player2: self.player2,
            player1_old_pos: self.player1_old_pos,
            player2_old_pos: self.player2_old_pos,
            ball: self.ball@,
            touching: self.touching,
            score: self.score@,
        }
    }
}

impl Game {
    /// Sets up a game on a field of `width` by `height` cells.
    pub fn new(width: i32, height: i32) -> (made: Result<Game, ConfigError>)
        ensures
            made is Ok <==> width > 0 && height > 0,
            made matches Ok(game) ==> game@ == GameModel::start(width as int, height as int)
                && game@.wf(),
            made matches Err(error) ==> error == ConfigError::EmptyField,
    {
        if width <= 0 || height <= 0 {
            return Err(ConfigError::EmptyField);
        }
        let player1 = Player::new(width - PADDLE_MARGIN - 1, height / 2, PADDLE_WIDTH, PADDLE_HEIGHT);
        let player2 = Player::new(PADDLE_MARGIN, height / 2, PADDLE_WIDTH, PADDLE_HEIGHT);
        let mut ball = Ball::new(width / 2, height / 2, BALL_DIAMETER);
        ball.speed_x = SERVE_SPEED;
        Ok(
            Game {
                width,
                height,
                player1,
                player2,
                player1_old_pos: player1.position,
                player2_old_pos: player2.position,
                ball,
                touching: false,
                score: Score::new(BEST_OF),
            },
        )
    }

    /// The width of the field.
    pub fn width(&self) -> (width: i32)
        ensures
            width == self@.width,
    {
        self.width
    }

    /// The height of the field.
    pub fn height(&self) -> (height: i32)
        ensures
            height == self@.height,
    {
        self.height
    }

    /// The paddle on the right.
    pub fn player1(&self) -> (player: Player)
        ensures
            player == self@.player1,
    {
        self.player1
    }

    /// The paddle on the left.
    pub fn player2(&self) -> (player: Player)
        ensures
            player == self@.player2,
    {
        self.player2
    }

    /// The ball.
    pub fn ball(&self) -> (ball: Ball)
        ensures
            ball@ == self@.ball,
    {
        self.ball
    }

    /// The score of the round that is played.
    pub fn score(&self) -> (score: &Score)
        ensures
            score@ == self@.score,
    {
        &self.score
    }

    /// Whether the ball and a paddle touched in the last tick.
    pub fn touching(&self) -> (touching: bool)
        ensures
            touching == self@.touching,
    {
        self.touching
    }

    /// Moves the paddles as the pending `events` say, in their order.
    pub fn handle_input(&mut self, events: &Vec<MidiMessage>)
        requires
            old(self)@.wf(),
        ensures
            final(self)@ == old(self)@.after_events(events@),
            final(self)@.wf(),
    {
        proof {
            lemma_game_stays_well_formed(self@, events@);
        }
        handle_paddles(
            events,
            &mut self.player1.position,
            &mut self.player2.position,
            self.width,
            self.height,
        );
    }

    /// One tick, where its result can be stored; else the game stays as it
    /// is and the answer is `false`.
    pub fn try_tick(&mut self) -> (done: bool)
        requires
            old(self)@.wf(),
        ensures
            done == old(self)@.tick_fits(),
            done ==> final(self)@ == old(self)@.after_tick(),
            !done ==> final(self)@ == old(self)@,
            final(self)@.wf(),
    {
        proof {
            lemma_game_stays_well_formed(self@, Seq::empty());
        }
        let player1_speed_y: i32 = self.player1.position.y - self.player1_old_pos.y;
        let player2_speed_y: i32 = self.player2.position.y - self.player2_old_pos.y;
        match try_step(
            &mut self.ball,
            &mut self.score,
            self.player1,
            player1_speed_y,
            self.player2,
            player2_speed_y,
            self.width,
            self.height,
            self.touching,
        ) {
            Some(contact) => {
                self.touching = contact;
                self.player1_old_pos = self.player1.position;
                self.player2_old_pos = self.player2.position;
                true
            },
            None => false,
        }
    }

    /// One tick.
    pub fn tick(&mut self)
        requires
            old(self)@.wf(),
            old(self)@.tick_fits(),
        ensures
            final(self)@ == old(self)@.after_tick(),
            final(self)@.wf(),
    {
        self.try_tick();
    }
}

} // verus!
