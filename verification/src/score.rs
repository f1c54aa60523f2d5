//! The score of a round: one counter per player and a best-of threshold.

use vstd::prelude::*;

verus! {

/// What a `Score` stands for: the points of the two players and the number
/// of points that wins the round.
pub struct ScoreModel {
    pub score_1: nat,
    pub score_2: nat,
    pub best_of: nat,
}

impl ScoreModel {
    /// The player who has reached the threshold, player 1 being asked first;
    /// 0 while nobody has.
    pub open spec fn winner(self) -> nat {
        if self.score_1 >= self.best_of {
            1
        } else if self.score_2 >= self.best_of {
            2
        } else {
            0
        }
    }

    /// One more point for `player`; any number but 1 and 2 changes nothing.
    pub open spec fn credit(self, player: nat) -> ScoreModel {
        if player == 1 {
            ScoreModel { score_1: self.score_1 + 1, ..self }
        } else if player == 2 {
            ScoreModel { score_2: self.score_2 + 1, ..self }
        } else {
            self
        }
    }

    /// Both counters at zero, the threshold kept.
    pub open spec fn cleared(self) -> ScoreModel {
        ScoreModel { score_1: 0, score_2: 0, ..self }
    }

    /// The score once a round that has a winner is closed: a won round
    /// starts again from zero.
    pub open spec fn settled(self) -> ScoreModel {
        if self.winner() != 0 {
            self.cleared()
        } else {
            self
        }
    }

    /// A round is open: the threshold can be reached and nobody has reached it.
    pub open spec fn in_play(self) -> bool {
        self.score_1 < self.best_of && self.score_2 < self.best_of
    }
}

/// The character of the decimal digit `d`.
pub open spec fn digit(d: nat) -> char {
    ('0' as nat + d) as char
}

/// The decimal digits of `n`, the most significant first.
pub open spec fn decimal(n: nat) -> Seq<char>
    decreases n,
{
    if n < 10 {
        seq![digit(n)]
    } else {
        decimal(n / 10).push(digit(n % 10))
    }
}

/// The decimal digits of `n`, with a leading zero where there is one digit.
pub open spec fn two_digits(n: nat) -> Seq<char> {
    if n < 10 {
        seq!['0', digit(n)]
    } else {
        decimal(n)
    }
}

impl ScoreModel {
    /// The score as it is shown: the points of player 1, a dash between two
    /// spaces, the points of player 2.
    pub open spec fn text(self) -> Seq<char> {
        two_digits(self.score_1) + seq![' ', '-', ' '] + two_digits(self.score_2)
    }
}

/// Writes two counters with `format!`: each as a decimal number, filled up
/// with zeros to two digits, and ` - ` between them.
#[verifier::external_body]
fn format_score(score_1: u32, score_2: u32) -> (text: String)
    ensures
        text@ == two_digits(score_1 as nat) + seq![' ', '-', ' '] + two_digits(score_2 as nat),
{
    format!("{:02} - {:02}", score_1, score_2)
}

/// The points of the two players in the round that is played.
pub struct Score {
    score_1: u32,
    score_2: u32,
    best_of: u32,
}

impl View for Score {
    type V = ScoreModel;

    closed spec fn view(&self) -> ScoreModel {
        ScoreModel {
            score_1: self.score_1 as nat,
            score_2: self.score_2 as nat,
            best_of: self.best_of as nat,
        }
    }
}

impl Score {
    /// A fresh score for rounds that the first player to `best_of` points wins.
    pub fn new(best_of: u32) -> (s: Score)
        ensures
            s@ == (ScoreModel { score_1: 0, score_2: 0, best_of: best_of as nat }),
    {
        Score { score_1: 0, score_2: 0, best_of }
    }

    /// The winner of the round: 1, 2, or 0 while the round is open.
    pub fn winner(&self) -> (w: u32)
        ensures
            w == self@.winner(),
    {
        if self.score_1 >= self.best_of {
            1
        } else if self.score_2 >= self.best_of {
            2
        } else {
            0
        }
    }

    /// Gives `player` a point. Any player but 1 and 2 is ignored.
    pub fn player(&mut self, player: u32)
        requires
            old(self)@.credit(player as nat).score_1 <= u32::MAX,
            old(self)@.credit(player as nat).score_2 <= u32::MAX,
        ensures
            final(self)@ == old(self)@.credit(player as nat),
    {
        match player {
            1 => self.score_1 += 1,
            2 => self.score_2 += 1,
            _ => {},
        }
    }

    /// Starts the next round: both counters go back to zero.
    pub fn reset(&mut self)
        ensures
            final(self)@ == old(self)@.cleared(),
    {
        self.score_1 = 0;
        self.score_2 = 0;
    }

    /// The score as a line of text, such as `03 - 01`.
    pub fn text(&self) -> (text: String)
        ensures
            text@ == self@.text(),
    {
        format_score(self.score_1, self.score_2)
    }

    /// The points of player 1.
    pub fn score_1(&self) -> (n: u32)
        ensures
            n == self@.score_1,
    {
        self.score_1
    }

    /// The points of player 2.
    pub fn score_2(&self) -> (n: u32)
        ensures
            n == self@.score_2,
    {
        self.score_2
    }

    /// The number of points that wins a round.
    pub fn best_of(&self) -> (n: u32)
        ensures
            n == self@.best_of,
    {
        self.best_of
    }
}

} // verus!
