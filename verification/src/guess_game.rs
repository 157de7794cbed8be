//! The number-guessing game: a secret, a count of attempts, and what each
//! line of input leads to.

use crate::text::{decimal, parse_u32, parsed_u32, push_decimal};
use rand::Rng;
use vstd::prelude::*;
use vstd::string::StringExecFns;

verus! {

/// The line that opens a game.
pub const GREETING: &'static str = "Guess the number (1 to 100)!";

/// The line that asks for the next guess.
pub const REQUEST: &'static str = "Please input your guess.";

/// What stands before the player's input.
pub const PROMPT: &'static str = "> ";

/// The smallest secret that a game can draw.
pub const SECRET_MIN: u32 = 1;

/// The bound that every drawn secret stays below.
pub const SECRET_BOUND: u32 = 100;

/// `Rng::gen_range` of the crate `rand`, called on the generator that
/// `rand::thread_rng` hands out, for a half-open range of `u32`. It panics on
/// an empty range, which `requires` leaves out. Taken on trust: the value
/// drawn lies in the range. Which value it is depends on chance, so nothing
/// more is said of it.
#[verifier::external_body]
fn random_in_range(low: u32, high: u32) -> (value: u32)
    requires
        low < high,
    ensures
        low <= value < high,
{
    rand::thread_rng().gen_range(low..high)
}

/// How a guess compares with the secret.
#[derive(Clone, Copy, Debug, PartialEq, Eq, Structural)]
pub enum Verdict {
    /// The guess is below the secret.
    TooSmall,
    /// The guess is above the secret.
    TooBig,
    /// The guess is the secret.
    Win,
}

/// The verdict on `guess` when the secret is `secret`.
pub open spec fn judged(secret: u32, guess: u32) -> Verdict {
    if guess < secret {
        Verdict::TooSmall
    } else if guess > secret {
        Verdict::TooBig
    } else {
        Verdict::Win
    }
}

/// One counted guess and what came of it.
#[derive(Clone, Copy, Debug, PartialEq, Eq, Structural)]
pub struct Turn {
    /// The number that was guessed.
    pub guess: u32,
    /// How it compares with the secret.
    pub verdict: Verdict,
    /// How many guesses were counted so far, this one included.
    pub attempts: u32,
}

/// The line that tells the player the verdict of `turn`.
pub open spec fn message_text(turn: Turn) -> Seq<char> {
    match turn.verdict {
        Verdict::TooSmall => "Too small!"@,
        Verdict::TooBig => "Too big!"@,
        Verdict::Win => "You win! It took you "@ + decimal(turn.attempts as nat) + " attempts."@,
    }
}

/// Everything that is printed for `turn`: the guess and the verdict, each on a
/// line of its own.
pub open spec fn report_text(turn: Turn) -> Seq<char> {
    ("You guessed: "@ + decimal(turn.guess as nat)).push('\n') + message_text(turn).push('\n')
}

impl Turn {
    /// Whether this turn ends the game.
    pub fn is_win(&self) -> (win: bool)
        ensures
            win == (self.verdict == Verdict::Win),
    {
        match self.verdict {
            Verdict::Win => true,
            _ => false,
        }
    }

    /// The line that tells the player the verdict.
    pub fn message(&self) -> (line: String)
        ensures
            line@ == message_text(*self),
    {
        match self.verdict {
            Verdict::TooSmall => String::from_str("Too small!"),
            Verdict::TooBig => String::from_str("Too big!"),
            Verdict::Win => {
                let mut line = String::from_str("You win! It took you ");
                push_decimal(&mut line, self.attempts);
                line.append(" attempts.");
                line
            },
        }
    }

    /// Everything that is printed for this turn, line feeds included.
    pub fn report(&self) -> (lines: String)
        ensures
            lines@ == report_text(*self),
    {
        let mut lines = String::from_str("You guessed: ");
        push_decimal(&mut lines, self.guess);
        lines.push('\n');
        let message = self.message();
        lines.append(message.as_str());
        lines.push('\n');
        lines
    }
}

/// The mathematical content of a [`GuessGame`].
pub struct GuessGameView {
    /// The number to be guessed.
    pub secret: u32,
    /// How many guesses were counted.
    pub attempts: u32,
}

impl GuessGameView {
    /// The turn that the guess `guess` makes.
    pub open spec fn turn(self, guess: u32) -> Turn {
        Turn {
            guess,
            verdict: judged(self.secret, guess),
            attempts: (self.attempts + 1) as u32,
        }
    }

    /// The game after one more guess was counted.
    pub open spec fn counted(self) -> Self {
        GuessGameView { attempts: (self.attempts + 1) as u32, ..self }
    }

    /// Whether the line `line` can be taken: it is no number, or the count of
    /// attempts has room for one more.
    pub open spec fn accepts(self, line: Seq<char>) -> bool {
        parsed_u32(line) is Some ==> self.attempts < u32::MAX
    }

    /// The game after the line `line` was taken: a number counts as a guess,
    /// anything else changes nothing.
    pub open spec fn after(self, line: Seq<char>) -> Self {
        match parsed_u32(line) {
            Some(_) => self.counted(),
            None => self,
        }
    }

    /// The turn that the line `line` makes, if it is a number.
    pub open spec fn answer(self, line: Seq<char>) -> Option<Turn> {
        match parsed_u32(line) {
            Some(guess) => Some(self.turn(guess)),
            None => None,
        }
    }
}

/// How many of `lines` are numbers.
pub open spec fn numbers_in(lines: Seq<Seq<char>>) -> nat
    decreases lines.len(),
{
    if lines.len() == 0 {
        0
    } else if parsed_u32(lines.last()) is Some {
        numbers_in(lines.drop_last()) + 1
    } else {
        numbers_in(lines.drop_last())
    }
}

/// The game after the lines `lines` were taken one after the other.
pub open spec fn after_all(game: GuessGameView, lines: Seq<Seq<char>>) -> GuessGameView
    decreases lines.len(),
{
    if lines.len() == 0 {
        game
    } else {
        after_all(game, lines.drop_last()).after(lines.last())
    }
}

/// A line that is the number `guess` is counted and judged against the
/// secret, and each verdict has its own report: a guess below the secret is
/// told to be too small, one above it too big, and the secret itself wins
/// with the count of attempts, this one included.
pub proof fn lemma_number_is_judged(game: GuessGameView, line: Seq<char>, guess: u32)
    requires
        parsed_u32(line) == Some(guess),
        game.attempts < u32::MAX,
    ensures
        game.accepts(line),
        game.answer(line) == Some(game.turn(guess)),
        game.after(line).secret == game.secret,
        game.after(line).attempts == game.attempts + 1,
        game.turn(guess).attempts == game.attempts + 1,
        guess < game.secret ==> game.turn(guess).verdict == Verdict::TooSmall && report_text(
            game.turn(guess),
        ) == ("You guessed: "@ + decimal(guess as nat)).push('\n') + "Too small!"@.push('\n'),
        guess > game.secret ==> game.turn(guess).verdict == Verdict::TooBig && report_text(
            game.turn(guess),
        ) == ("You guessed: "@ + decimal(guess as nat)).push('\n') + "Too big!"@.push('\n'),
        guess == game.secret ==> game.turn(guess).verdict == Verdict::Win && report_text(
            game.turn(guess),
        ) == ("You guessed: "@ + decimal(guess as nat)).push('\n') + ("You win! It took you "@
            + decimal((game.attempts + 1) as nat) + " attempts."@).push('\n'),
{
}

/// A line that is no number yields no turn and leaves the game as it is.
pub proof fn lemma_other_line_is_passed_over(game: GuessGameView, line: Seq<char>)
    requires
        parsed_u32(line) is None,
    ensures
        game.accepts(line),
        game.answer(line) is None,
        game.after(line) == game,
{
}

/// Over a whole game only the lines that are numbers are counted, and the
/// secret stays what it was.
pub proof fn lemma_only_numbers_are_counted(game: GuessGameView, lines: Seq<Seq<char>>)
    requires
        game.attempts + numbers_in(lines) <= u32::MAX,
    ensures
        after_all(game, lines).attempts == game.attempts + numbers_in(lines),
        after_all(game, lines).secret == game.secret,
    decreases lines.len(),
{
    if lines.len() > 0 {
        lemma_only_numbers_are_counted(game, lines.drop_last());
    }
}

/// A game in progress.
pub struct GuessGame {
    secret_number: u32,
    attempts: u32,
}

impl View for GuessGame {
    type V = GuessGameView;

    closed spec fn view(&self) -> GuessGameView {
        GuessGameView { secret: self.secret_number, attempts: self.attempts }
    }
}

impl GuessGame {
    /// A game with the given secret and no attempt counted.
    pub fn new(secret_number: u32) -> (game: Self)
        ensures
            game@ == (GuessGameView { secret: secret_number, attempts: 0 }),
    {
        GuessGame { secret_number, attempts: 0 }
    }

    /// A game with a secret drawn at random from `SECRET_MIN` up to, but not
    /// including, `SECRET_BOUND`.
    pub fn with_random_secret() -> (game: Self)
        ensures
            SECRET_MIN <= game@.secret < SECRET_BOUND,
            game@.attempts == 0,
    {
        GuessGame::new(random_in_range(SECRET_MIN, SECRET_BOUND))
    }

    /// How many guesses were counted.
    pub fn attempts(&self) -> (attempts: u32)
        ensures
            attempts == self@.attempts,
    {
        self.attempts
    }

    /// Counts the guess and judges it.
    pub fn guess(&mut self, guess: u32) -> (turn: Turn)
        requires
            old(self)@.attempts < u32::MAX,
        ensures
            final(self)@ == old(self)@.counted(),
            turn == old(self)@.turn(guess),
    {
        self.attempts += 1;
        let verdict = if guess < self.secret_number {
            Verdict::TooSmall
        } else if guess > self.secret_number {
            Verdict::TooBig
        } else {
            Verdict::Win
        };
        Turn { guess, verdict, attempts: self.attempts }
    }

    /// Takes one line of input. A line that is a number, see
    /// [`parsed_u32`], is counted and judged as a guess; any other line
    /// leaves the game as it is and yields `None`.
    pub fn submit(&mut self, line: &str) -> (answer: Option<Turn>)
        requires
            old(self)@.accepts(line@),
        ensures
            final(self)@ == old(self)@.after(line@),
            answer == old(self)@.answer(line@),
    {
        match parse_u32(line) {
            Some(guess) => Some(self.guess(guess)),
            None => None,
        }
    }
}

} // verus!
