//! The decisions of a number-guessing game.
//!
//! A game holds a secret number in `1..=bound`. Each line the player types is
//! trimmed and read as a `u32`: text that is no such number changes nothing
//! and is answered `Invalid`; a number is compared with the secret and is
//! answered `TooSmall`, `TooBig` or `Correct`, and `Correct` ends the game.
//! Reading the lines and printing the replies is left to the caller.

use vstd::prelude::*;
use std::cmp::Ordering;
use crate::number::{parse_unsigned, trimmed, unsigned_of};

verus! {

/// The largest secret that a game of the usual size may draw.
pub const DEFAULT_BOUND: u32 = 100;

/// The answer to one line of input.
#[derive(Clone, Copy, Debug, PartialEq, Eq, Structural)]
pub enum Reply {
    Invalid,
    TooSmall,
    TooBig,
    Correct,
}

/// How a session over a finite stream of lines ended.
#[derive(Clone, Copy, Debug, PartialEq, Eq, Structural)]
pub enum SessionEnd {
    /// A line held the secret.
    Won,
    /// The lines ran out before any of them held the secret.
    InputClosed,
}

/// The replies given in a session, in order, and how it ended.
pub struct Session {
    pub replies: Vec<Reply>,
    pub end: SessionEnd,
}

/// The guess that `line` holds, if it holds one.
pub open spec fn parsed_guess(line: Seq<char>) -> Option<u32> {
    unsigned_of(trimmed(line))
}

/// The three-way comparison of a guess with the secret.
pub open spec fn verdict(guess: int, secret: int) -> Reply {
    if guess < secret {
        Reply::TooSmall
    } else if guess > secret {
        Reply::TooBig
    } else {
        Reply::Correct
    }
}

/// The answer to `line` in a game whose secret is `secret`.
pub open spec fn reply_for(line: Seq<char>, secret: u32) -> Reply {
    match parsed_guess(line) {
        None => Reply::Invalid,
        Some(g) => verdict(g as int, secret as int),
    }
}

/// Reads a guess out of a line: a `u32`, white space around it allowed.
pub fn parse_guess(line: &str) -> (r: Option<u32>)
    ensures
        r == parsed_guess(line@),
{
    parse_unsigned(line)
}

/// Compares a guess with the secret.
pub fn judge(guess: u32, secret: u32) -> (r: Reply)
    ensures
        r == verdict(guess as int, secret as int),
{
    match guess.cmp(&secret) {
        Ordering::Less => Reply::TooSmall,
        Ordering::Greater => Reply::TooBig,
        Ordering::Equal => Reply::Correct,
    }
}

/// The answer to `line` in a game whose secret is `secret`.
pub fn reply_to(line: &str, secret: u32) -> (r: Reply)
    ensures
        r == reply_for(line@, secret),
{
    match parse_guess(line) {
        None => Reply::Invalid,
        Some(g) => judge(g, secret),
    }
}

/// Relies on `rand::random_range`: a value drawn by the thread-local
/// generator from `low..=high`; the call panics when that range is empty.
#[verifier::external_body]
fn draw_in_range(low: u32, high: u32) -> (r: u32)
    requires
        low <= high,
    ensures
        low <= r <= high,
{
    rand::random_range(low..=high)
}

impl Reply {
    /// The text shown to the player for this answer.
    pub fn message(&self) -> (r: &'static str)
        ensures
            *self == Reply::Invalid ==> r@ == "Please enter a valid number!"@,
            *self == Reply::TooSmall ==> r@ == "Too small!"@,
            *self == Reply::TooBig ==> r@ == "Too big!"@,
            *self == Reply::Correct ==> r@ == "You win!"@,
    {
        match self {
            Reply::Invalid => "Please enter a valid number!",
            Reply::TooSmall => "Too small!",
            Reply::TooBig => "Too big!",
            Reply::Correct => "You win!",
        }
    }
}

/// One game: its secret, the bound the secret lies under, and whether it
/// has been won.
pub struct GuessGame {
    secret: u32,
    bound: u32,
    won: bool,
}

impl GuessGame {
    pub closed spec fn spec_secret(self) -> u32 {
        self.secret
    }

    pub closed spec fn spec_bound(self) -> u32 {
        self.bound
    }

    pub closed spec fn spec_won(self) -> bool {
        self.won
    }

    /// The secret lies in `1..=bound`.
    pub open spec fn wf(self) -> bool {
        1 <= self.spec_secret() <= self.spec_bound()
    }

    /// A game, not yet won, with the given secret.
    pub fn with_secret(secret: u32, bound: u32) -> (r: Self)
        requires
            1 <= secret <= bound,
        ensures
            r.wf(),
            r.spec_secret() == secret,
            r.spec_bound() == bound,
            !r.spec_won(),
    {
        GuessGame { secret, bound, won: false }
    }

    /// A game, not yet won, whose secret is drawn at random from `1..=bound`.
    pub fn new(bound: u32) -> (r: Self)
        requires
            1 <= bound,
        ensures
            r.wf(),
            r.spec_bound() == bound,
            !r.spec_won(),
    {
        let secret = draw_in_range(1, bound);
        GuessGame::with_secret(secret, bound)
    }

    pub fn secret(&self) -> (r: u32)
        ensures
            r == self.spec_secret(),
    {
        self.secret
    }

    pub fn bound(&self) -> (r: u32)
        ensures
            r == self.spec_bound(),
    {
        self.bound
    }

    pub fn is_won(&self) -> (r: bool)
        ensures
            r == self.spec_won(),
    {
        self.won
    }

    /// Answers one line of input. The game is won exactly when the line
    /// holds the secret; a line that holds no number leaves it as it was.
    pub fn submit(&mut self, line: &str) -> (r: Reply)
        requires
            !old(self).spec_won(),
        ensures
            r == reply_for(line@, old(self).spec_secret()),
            final(self).spec_secret() == old(self).spec_secret(),
            final(self).spec_bound() == old(self).spec_bound(),
            final(self).spec_won() == (r == Reply::Correct),
            final(self).spec_won() == (parsed_guess(line@) == Some(old(self).spec_secret())),
            parsed_guess(line@) is None ==> *final(self) == *old(self),
    {
        let r = reply_to(line, self.secret);
        if r == Reply::Correct {
            self.won = true;
        }
        r
    }

    /// Feeds `lines` to the game in order until one holds the secret or
    /// they run out. The session stops at the first line that holds the
    /// secret, and not before.
    pub fn play(self, lines: &Vec<String>) -> (s: Session)
        requires
            !self.spec_won(),
        ensures
            s.replies@.len() <= lines@.len(),
            forall|j: int|
                0 <= j < s.replies@.len() ==> s.replies@[j] == reply_for(
                    #[trigger] lines@[j]@,
                    self.spec_secret(),
                ),
            forall|j: int|
                0 <= j < s.replies@.len() - 1 ==> parsed_guess(#[trigger] lines@[j]@) != Some(
                    self.spec_secret(),
                ),
            s.end == SessionEnd::Won <==> (s.replies@.len() > 0 && parsed_guess(
                lines@[s.replies@.len() - 1]@,
            ) == Some(self.spec_secret())),
            s.end == SessionEnd::InputClosed ==> s.replies@.len() == lines@.len(),
    {
        let mut game = self;
        let mut replies: Vec<Reply> = Vec::new();
        let mut i: usize = 0;
        while i < lines.len() && !game.is_won()
            invariant
                i <= lines@.len(),
                replies@.len() == i,
                game.spec_secret() == self.spec_secret(),
                forall|j: int|
                    0 <= j < i ==> replies@[j] == reply_for(
                        #[trigger] lines@[j]@,
                        self.spec_secret(),
                    ),
                forall|j: int|
                    0 <= j < i - 1 ==> parsed_guess(#[trigger] lines@[j]@) != Some(
                        self.spec_secret(),
                    ),
                game.spec_won() <==> (i > 0 && parsed_guess(lines@[i - 1]@) == Some(
                    self.spec_secret(),
                )),
            decreases lines@.len() - i,
        {
            let r = game.submit(lines[i].as_str());
            replies.push(r);
            i = i + 1;
        }
        let end = if game.is_won() {
            SessionEnd::Won
        } else {
            SessionEnd::InputClosed
        };
        Session { replies, end }
    }
}

/// No guess outside `1..=bound` wins a game whose secret lies in
/// `1..=bound`, whatever line it is typed in.
pub proof fn lemma_out_of_range_never_wins(g: int, secret: u32, bound: u32)
    requires
        1 <= secret <= bound,
        !(1 <= g <= bound),
    ensures
        verdict(g, secret as int) != Reply::Correct,
        forall|line: Seq<char>|
            0 <= g <= u32::MAX && #[trigger] parsed_guess(line) == Some(g as u32) ==> reply_for(
                line,
                secret,
            ) != Reply::Correct,
{
}

} // verus!
