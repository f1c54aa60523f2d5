//! One tick of the simulation: the ball moves, is deflected by a paddle,
//! bounces off the walls or leaves the field and scores.

use vstd::prelude::*;
use crate::ball::{Ball, BallModel};
use crate::geometry::{add_max, clamped_advance, segments_cross, segments_intersect, Point};
use crate::player::Player;
use crate::score::{Score, ScoreModel};

verus! {

/// What surrounds the ball during one tick: the two paddles, how far each
/// has moved vertically since the tick before, and the size of the field.
pub struct Scene {
    pub player1: Player,
    pub player2: Player,
    pub player1_speed_y: int,
    pub player2_speed_y: int,
    pub width: int,
    pub height: int,
}

/// The path from `(from_x, from_y)` to `(to_x, to_y)` crosses the leading
/// edge of `paddle`, the vertical segment from its top-left corner down to
/// its height.
pub open spec fn paddle_hit(from_x: int, from_y: int, to_x: int, to_y: int, paddle: Player) -> bool {
    segments_intersect(
        from_x, from_y, to_x, to_y,
        paddle.edge_x(), paddle.edge_top(), paddle.edge_x(), paddle.edge_bottom(),
    )
}

/// Whether the ball, having moved from `ball_old_pos` to `ball_pos`, has
/// crossed the leading edge of `player`. Only the two positions count, not
/// the speed that the ball records.
pub fn hit_player(ball_pos: Point, ball_old_pos: Point, player: Player) -> (hit: bool)
    ensures
        hit == paddle_hit(
            ball_old_pos.x as int, ball_old_pos.y as int,
            ball_pos.x as int, ball_pos.y as int,
            player,
        ),
{
    segments_cross(
        ball_old_pos.x as i64, ball_old_pos.y as i64,
        ball_pos.x as i64, ball_pos.y as i64,
        player.position.x as i64, player.position.y as i64,
        player.position.x as i64, player.position.y as i64 + player.size.height as i64,
    )
}

/// Where the ball is after its move of this tick, on the x axis.
pub open spec fn moved_x(ball: BallModel, scene: Scene) -> int {
    clamped_advance(ball.x, ball.speed_x, scene.width)
}

/// Where the ball is after its move of this tick, on the y axis.
pub open spec fn moved_y(ball: BallModel, scene: Scene) -> int {
    clamped_advance(ball.y, ball.speed_y, scene.height)
}

/// The move of this tick crosses the edge of paddle 1.
pub open spec fn hits_player1(ball: BallModel, scene: Scene) -> bool {
    paddle_hit(ball.x, ball.y, moved_x(ball, scene), moved_y(ball, scene), scene.player1)
}

/// The move of this tick crosses the edge of paddle 2.
pub open spec fn hits_player2(ball: BallModel, scene: Scene) -> bool {
    paddle_hit(ball.x, ball.y, moved_x(ball, scene), moved_y(ball, scene), scene.player2)
}

/// The move of this tick crosses a paddle: the ball and a paddle touch.
pub open spec fn in_contact(ball: BallModel, scene: Scene) -> bool {
    hits_player1(ball, scene) || hits_player2(ball, scene)
}

/// The paddle answers the ball in this tick: they touch now and did not
/// touch in the tick before.
pub open spec fn deflects(ball: BallModel, scene: Scene, touching: bool) -> bool {
    in_contact(ball, scene) && !touching
}

/// The vertical speed of the paddle that the ball touches, paddle 1 first.
pub open spec fn paddle_speed(ball: BallModel, scene: Scene) -> int {
    if hits_player1(ball, scene) {
        scene.player1_speed_y
    } else {
        scene.player2_speed_y
    }
}

/// The ball's position lies on the top or the bottom row of the field.
pub open spec fn at_wall(y: int, height: int) -> bool {
    y >= height - 1 || y <= 0
}

/// The player who scores with the ball at column `x`: player 1 on the right
/// boundary, player 2 on the left one, nobody (0) in between.
pub open spec fn goal_at(x: int, width: int) -> nat {
    if x >= width - 1 {
        1
    } else if x <= 0 {
        2
    } else {
        0
    }
}

/// The player who scores in this tick, or 0.
pub open spec fn step_goal(ball: BallModel, scene: Scene) -> nat {
    goal_at(moved_x(ball, scene), scene.width)
}

/// The ball after its move and the paddles' answer: a paddle that starts to
/// touch the ball turns it round and hands it its own vertical speed.
pub open spec fn deflected(ball: BallModel, scene: Scene, touching: bool) -> BallModel {
    BallModel {
        x: moved_x(ball, scene),
        y: moved_y(ball, scene),
        speed_x: if deflects(ball, scene, touching) {
            -ball.speed_x
        } else {
            ball.speed_x
        },
        speed_y: if deflects(ball, scene, touching) {
            ball.speed_y + paddle_speed(ball, scene)
        } else {
            ball.speed_y
        },
        ..ball
    }
}

/// The ball after one tick. After the paddles, a wall turns the vertical
/// speed round; a goal puts the ball back on the centre of the field for a
/// level serve away from the boundary that it has reached.
pub open spec fn step_ball(ball: BallModel, scene: Scene, touching: bool) -> BallModel {
    let hit = deflected(ball, scene, touching);
    if step_goal(ball, scene) != 0 {
        BallModel {
            x: scene.width / 2,
            y: scene.height / 2,
            speed_x: -hit.speed_x,
            speed_y: 0,
            ..hit
        }
    } else if at_wall(hit.y, scene.height) {
        BallModel { speed_y: -hit.speed_y, ..hit }
    } else {
        hit
    }
}

/// The score after one tick: the goal of this tick is counted, and a round
/// that has a winner starts again from zero.
pub open spec fn step_score(score: ScoreModel, ball: BallModel, scene: Scene) -> ScoreModel {
    score.credit(step_goal(ball, scene)).settled()
}

/// The scene that the arguments of `step` describe.
pub open spec fn scene_of(
    player1: Player,
    player1_speed_y: i32,
    player2: Player,
    player2_speed_y: i32,
    width: i32,
    height: i32,
) -> Scene {
    Scene {
        player1,
        player2,
        player1_speed_y: player1_speed_y as int,
        player2_speed_y: player2_speed_y as int,
        width: width as int,
        height: height as int,
    }
}

/// The ball after this tick fits a `Ball`, and the counter that this tick's
/// goal raises fits a `Score`.
pub open spec fn step_fits(ball: BallModel, score: ScoreModel, scene: Scene, touching: bool) -> bool {
    &&& step_ball(ball, scene, touching).fits()
    &&& score.credit(step_goal(ball, scene)).score_1 <= u32::MAX
    &&& score.credit(step_goal(ball, scene)).score_2 <= u32::MAX
}

/// One tick of the simulation, where its result can be stored. Returns
/// whether the ball and a paddle touch after it, to be handed to the next
/// tick; or `None`, with the ball and the score left as they were, where the
/// result does not fit the machine's integers.
///
/// The speeds are worked out in 64 bits, so only what results has to fit.
pub fn try_step(
    ball: &mut Ball,
    score: &mut Score,
    player1: Player,
    player1_speed_y: i32,
    player2: Player,
    player2_speed_y: i32,
    width: i32,
    height: i32,
    touching: bool,
) -> (now_touching: Option<bool>)
    requires
        width > 0,
        height > 0,
    ensures
        now_touching is Some <==> step_fits(
            old(ball)@,
            old(score)@,
            scene_of(player1, player1_speed_y, player2, player2_speed_y, width, height),
            touching,
        ),
        now_touching is None ==> *final(ball) == *old(ball) && final(score)@ == old(score)@,
        now_touching is Some ==> final(ball)@ == step_ball(
            old(ball)@,
            scene_of(player1, player1_speed_y, player2, player2_speed_y, width, height),
            touching,
        ),
        now_touching is Some ==> final(score)@ == step_score(
            old(score)@,
            old(ball)@,
            scene_of(player1, player1_speed_y, player2, player2_speed_y, width, height),
        ),
        now_touching is Some ==> now_touching->Some_0 == in_contact(
            old(ball)@,
            scene_of(player1, player1_speed_y, player2, player2_speed_y, width, height),
        ),
{
    let old_pos = ball.position;
    let mut new_pos = Point::new(
        add_max(ball.position.x, ball.speed_x, width),
        add_max(ball.position.y, ball.speed_y, height),
    );
    let hit1 = hit_player(new_pos, old_pos, player1);
    let hit2 = hit_player(new_pos, old_pos, player2);
    let contact = hit1 || hit2;

    let mut speed_x: i64 = ball.speed_x as i64;
    let mut speed_y: i64 = ball.speed_y as i64;
    if contact && !touching {
        let paddle: i32 = if hit1 { player1_speed_y } else { player2_speed_y };
        speed_y = speed_y + paddle as i64;
        speed_x = -speed_x;
    }
    let goal: u32 = if new_pos.x >= width - 1 {
        1
    } else if new_pos.x <= 0 {
        2
    } else {
        0
    };
    if goal != 0 {
        new_pos = Point::new(width / 2, height / 2);
        speed_x = -speed_x;
        speed_y = 0;
    } else if new_pos.y >= height - 1 || new_pos.y <= 0 {
        speed_y = -speed_y;
    }

    let speeds_fit = -0x8000_0000 <= speed_x && speed_x <= 0x7fff_ffff
        && -0x8000_0000 <= speed_y && speed_y <= 0x7fff_ffff;
    let score_1: u32 = score.score_1();
    let score_2: u32 = score.score_2();
    let score_fits = (goal != 1 || score_1 < u32::MAX) && (goal != 2 || score_2 < u32::MAX);
    if !speeds_fit || !score_fits {
        return None;
    }
    ball.position = new_pos;
    ball.speed_x = speed_x as i32;
    ball.speed_y = speed_y as i32;
    score.player(goal);
    if score.winner() != 0 {
        score.reset();
    }
    Some(contact)
}

/// One tick of the simulation. Returns whether the ball and a paddle touch
/// after it, to be handed to the next tick.
pub fn step(
    ball: &mut Ball,
    score: &mut Score,
    player1: Player,
    player1_speed_y: i32,
    player2: Player,
    player2_speed_y: i32,
    width: i32,
    height: i32,
    touching: bool,
) -> (now_touching: bool)
    requires
        width > 0,
        height > 0,
        step_fits(
            old(ball)@,
            old(score)@,
            scene_of(player1, player1_speed_y, player2, player2_speed_y, width, height),
            touching,
        ),
    ensures
        final(ball)@ == step_ball(
            old(ball)@,
            scene_of(player1, player1_speed_y, player2, player2_speed_y, width, height),
            touching,
        ),
        final(score)@ == step_score(
            old(score)@,
            old(ball)@,
            scene_of(player1, player1_speed_y, player2, player2_speed_y, width, height),
        ),
        now_touching == in_contact(
            old(ball)@,
            scene_of(player1, player1_speed_y, player2, player2_speed_y, width, height),
        ),
{
    match try_step(
        ball,
        score,
        player1,
        player1_speed_y,
        player2,
        player2_speed_y,
        width,
        height,
        touching,
    ) {
        Some(contact) => contact,
        None => touching,
    }
}

/// While the ball stays on a paddle over two ticks in a row, only the first
/// of them turns it round. The first tick, entered without contact, is
/// answered by the paddle; the second one, entered with the contact that the
/// first one reports, is not. The horizontal speed changes its sign once for
/// the paddle in the first tick, and otherwise only where a goal is scored.
pub proof fn lemma_contact_deflects_once(ball: BallModel, first: Scene, second: Scene)
    requires
        in_contact(ball, first),
        in_contact(step_ball(ball, first, false), second),
    ensures
        deflects(ball, first, false),
        !deflects(step_ball(ball, first, false), second, in_contact(ball, first)),
        step_ball(ball, first, false).speed_x == if step_goal(ball, first) != 0 {
            ball.speed_x
        } else {
            -ball.speed_x
        },
        step_ball(step_ball(ball, first, false), second, true).speed_x
            == if step_goal(step_ball(ball, first, false), second) != 0 {
            -step_ball(ball, first, false).speed_x
        } else {
            step_ball(ball, first, false).speed_x
        },
{
}

/// A ball on the last column that moves to the right scores for player 1 in
/// that very tick: it touches no paddle, goes back to the centre of the
/// field, has its horizontal speed turned round and its vertical speed set
/// to zero, and player 1 has one point more, or the round is over.
pub proof fn lemma_goal_on_right_boundary(
    ball: BallModel,
    score: ScoreModel,
    scene: Scene,
    touching: bool,
)
    requires
        scene.width > 0,
        scene.height > 0,
        ball.x == scene.width - 1,
        ball.speed_x > 0,
    ensures
        step_goal(ball, scene) == 1,
        !in_contact(ball, scene),
        step_ball(ball, scene, touching) == (BallModel {
            x: scene.width / 2,
            y: scene.height / 2,
            speed_x: -ball.speed_x,
            speed_y: 0,
            ..ball
        }),
        step_score(score, ball, scene) == score.credit(1).settled(),
{
    lemma_vertical_move_misses(ball.x, ball.y, moved_y(ball, scene), scene.player1);
    lemma_vertical_move_misses(ball.x, ball.y, moved_y(ball, scene), scene.player2);
}

/// A move along a column crosses no paddle: it is parallel to their edges.
proof fn lemma_vertical_move_misses(x: int, from_y: int, to_y: int, paddle: Player)
    ensures
        !paddle_hit(x, from_y, x, to_y, paddle),
{
    let run = paddle.edge_bottom() - paddle.edge_top();
    let rise = to_y - from_y;
    assert(run * (x - x) - (paddle.edge_x() - paddle.edge_x()) * rise == 0) by (nonlinear_arith);
}

} // verus!
