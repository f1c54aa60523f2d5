//! The fixed-rate scheduler: which ticks are due, and when to draw.

use vstd::prelude::*;
use gameloop::{FrameAction, GameLoop, GameLoopError};
use crate::error::{MyError, SchedulerError};
use crate::game::{Game, GameModel};

verus! {

#[verifier::external_type_specification]
#[verifier::external_body]
pub struct ExGameLoop(GameLoop);

/// Calls `gameloop::GameLoop::new`, which refuses a tick rate below 1, then
/// a frame skip below 1, and makes a scheduler from anything else. The two
/// refusals are handed on under the library's own names.
#[verifier::external_body]
fn new_game_loop(tps: usize, max_frameskip: usize) -> (made: Result<GameLoop, SchedulerError>)
    ensures
        tps < 1 ==> (made matches Err(SchedulerError::BadTps)),
        tps >= 1 && max_frameskip < 1 ==> (made matches Err(SchedulerError::BadFrameSkip)),
        tps >= 1 && max_frameskip >= 1 ==> made is Ok,
{
    match GameLoop::new(tps, max_frameskip) {
        Ok(game_loop) => Ok(game_loop),
        Err(GameLoopError::BadTps) => Err(SchedulerError::BadTps),
        Err(GameLoopError::BadFrameSkip) => Err(SchedulerError::BadFrameSkip),
    }
}

/// What the scheduler asks for next.
#[derive(Clone, Copy, Debug, PartialEq, Eq, Structural)]
pub enum Action {
    /// Simulate one tick.
    Tick,
    /// Draw the game.
    Render,
}

/// The number of `Tick`s among `actions`.
pub open spec fn due_ticks(actions: Seq<Action>) -> nat
    decreases actions.len(),
{
    if actions.len() == 0 {
        0
    } else {
        due_ticks(actions.drop_last()) + if actions.last() == Action::Tick {
            1nat
        } else {
            0nat
        }
    }
}

/// The number of `Render`s among `actions`.
pub open spec fn renders(actions: Seq<Action>) -> nat
    decreases actions.len(),
{
    if actions.len() == 0 {
        0
    } else {
        renders(actions.drop_last()) + if actions.last() == Action::Render {
            1nat
        } else {
            0nat
        }
    }
}

/// A scheduler of fixed rate, together with the frame skip that it was made
/// with.
pub struct Scheduler {
    game_loop: GameLoop,
    max_frameskip: usize,
}

/// Runs the iterator of `gameloop::GameLoop::actions` to its end and hands
/// back what it yielded, a `Render` without its interpolation. However time
/// runs, the iterator yields `Render` exactly once before it ends, since it
/// ends only after it has and never does so twice; and it counts the `Tick`s
/// that it yields and yields none once their number has reached the frame
/// skip that it was made with. That is the one that the `Scheduler` holds:
/// `Scheduler::new` alone makes one, of a `GameLoop` and the frame skip that
/// it has just made it with.
#[verifier::external_body]
fn poll_actions(scheduler: &Scheduler) -> (actions: Vec<Action>)
    ensures
        renders(actions@) == 1,
        due_ticks(actions@) <= scheduler.max_frameskip,
{
    scheduler
        .game_loop
        .actions()
        .map(|action| match action {
            FrameAction::Tick => Action::Tick,
            FrameAction::Render { .. } => Action::Render,
        })
        .collect()
}

impl Scheduler {
    /// The largest number of ticks that one poll asks for.
    pub closed spec fn cap(&self) -> nat {
        self.max_frameskip as nat
    }

    /// Makes a scheduler of `ticks_per_second` ticks a second that lets at
    /// most `max_frameskip` ticks pass between two drawings. Both numbers
    /// must be positive; the tick rate is looked at first.
    pub fn new(ticks_per_second: usize, max_frameskip: usize) -> (made: Result<Scheduler, MyError>)
        ensures
            made is Ok <==> ticks_per_second >= 1 && max_frameskip >= 1,
            made matches Ok(scheduler) ==> scheduler.cap() == max_frameskip,
            made matches Err(error) ==> error == MyError::GameLoopE(
                if ticks_per_second < 1 {
                    SchedulerError::BadTps
                } else {
                    SchedulerError::BadFrameSkip
                },
            ),
    {
        match new_game_loop(ticks_per_second, max_frameskip) {
            Ok(game_loop) => Ok(Scheduler { game_loop, max_frameskip }),
            Err(error) => Err(MyError::GameLoopE(error)),
        }
    }

    /// The frame skip that the scheduler was made with.
    pub fn max_frameskip(&self) -> (cap: usize)
        ensures
            cap == self.cap(),
    {
        self.max_frameskip
    }
}

/// The number of ticks that a game takes of `due` ticks in a row: it takes
/// them one by one and stops for good at the first whose result cannot be
/// stored.
pub open spec fn ticks_taken(game: GameModel, due: nat) -> nat
    decreases due,
{
    if due == 0 {
        0
    } else {
        let before = ticks_taken(game, (due - 1) as nat);
        if before == due - 1 && game.after_ticks(before).tick_fits() {
            due
        } else {
            before
        }
    }
}

/// What one poll of the scheduler has done to a game.
#[derive(Clone, Copy, Debug, PartialEq, Eq, Structural)]
pub struct FrameReport {
    /// The number of ticks simulated.
    pub ticks: usize,
    /// A tick was due whose result cannot be stored; the game stands where
    /// the last tick before it left it.
    pub stalled: bool,
    /// The game is to be drawn.
    pub render: bool,
}

/// Follows the actions of one poll: each `Tick` moves the game on by one
/// tick, as long as the ticks can be stored, and a `Render` is taken note of.
pub fn advance(game: &mut Game, actions: &Vec<Action>) -> (report: FrameReport)
    requires
        old(game)@.wf(),
    ensures
        report.ticks == ticks_taken(old(game)@, due_ticks(actions@)),
        report.stalled == (report.ticks < due_ticks(actions@)),
        report.stalled ==> !final(game)@.tick_fits(),
        report.render == (renders(actions@) > 0),
        final(game)@ == old(game)@.after_ticks(report.ticks as nat),
        final(game)@.wf(),
{
    let mut report = FrameReport { ticks: 0, stalled: false, render: false };
    let mut i: usize = 0;
    while i < actions.len()
        invariant
            i <= actions.len(),
            report.ticks <= i,
            report.ticks <= due_ticks(actions@.take(i as int)),
            report.ticks == ticks_taken(old(game)@, due_ticks(actions@.take(i as int))),
            report.stalled == (report.ticks < due_ticks(actions@.take(i as int))),
            report.stalled ==> !game@.tick_fits(),
            report.render == (renders(actions@.take(i as int)) > 0),
            game@ == old(game)@.after_ticks(report.ticks as nat),
            game@.wf(),
        decreases actions.len() - i,
    {
        proof {
            assert(actions@.take(i + 1).drop_last() =~= actions@.take(i as int));
            assert(actions@.take(i + 1).last() == actions@[i as int]);
        }
        match actions[i] {
            Action::Tick => {
                if game.try_tick() {
                    report.ticks = report.ticks + 1;
                } else {
                    report.stalled = true;
                }
            },
            Action::Render => {
                report.render = true;
            },
        }
        i += 1;
    }
    proof {
        assert(actions@.take(actions@.len() as int) =~= actions@);
    }
    report
}

/// No more ticks are taken than are due, and the result of each tick that
/// is taken can be stored.
pub proof fn lemma_ticks_taken_fit(game: GameModel, due: nat)
    ensures
        ticks_taken(game, due) <= due,
        forall|k: nat| k < ticks_taken(game, due) ==> (#[trigger] game.after_ticks(k)).tick_fits(),
    decreases due,
{
    if due > 0 {
        lemma_ticks_taken_fit(game, (due - 1) as nat);
    }
}

/// One poll of the scheduler: asks it which ticks are due, takes them, and
/// reports that the game is to be drawn. How many ticks are due is for the
/// clock to say, up to the scheduler's frame skip; whatever it says, the
/// game has moved on by the number of ticks that the answer gives.
pub fn run_frame(game: &mut Game, scheduler: &Scheduler) -> (report: FrameReport)
    requires
        old(game)@.wf(),
    ensures
        final(game)@ == old(game)@.after_ticks(report.ticks as nat),
        final(game)@.wf(),
        forall|k: nat| k < report.ticks ==> (#[trigger] old(game)@.after_ticks(k)).tick_fits(),
        report.ticks <= scheduler.cap(),
        report.stalled ==> !final(game)@.tick_fits(),
        report.render,
{
    let actions = poll_actions(scheduler);
    proof {
        lemma_ticks_taken_fit(game@, due_ticks(actions@));
    }
    advance(game, &actions)
}

} // verus!
