//! The game itself: its state, the evaluation of guesses and what it draws.

pub mod board;
pub mod display;
pub mod input;
pub mod letters;
pub mod rules;
pub mod session;
pub mod text;

use board::{body, Draw, GameBoard, Position, Screen};
use display::{
    farewell, figure, frame, guess_list, hidden_phrase, listed, prompt, FAREWELL_ROW, GUESS_ROW,
    MARGIN, PHRASE_ROW, PROMPT_ROW,
};
use input::{read_guess, TerminalEvent};
use letters::{is_seven_bit, lowercase};
use rules::{occurs, GuessOutcome, Round, Status, LIVES, PLACEHOLDER};
use session::{play_draws, play_round};
use vstd::prelude::*;
use vstd::string::StringExecFns;

verus! {

/// One round of hangman: a secret phrase, the letters guessed so far and the
/// lives that are left.
pub struct HangmanGame {
    phrase: String,
    lives: u8,
    guesses: Vec<char>,
    status: Status,
    board: GameBoard,
}

impl View for HangmanGame {
    type V = Round;

    closed spec fn view(&self) -> Round {
        Round {
            phrase: self.phrase@,
            guesses: self.guesses@,
            lives: self.lives as nat,
            status: self.status,
        }
    }
}

impl HangmanGame {
    /// Whether the board was made for this game's phrase.
    pub closed spec fn framed(&self) -> bool {
        self.board.padding == self.phrase@.len() && self.board.fits()
    }

    /// What holds of every game between two calls.
    pub open spec fn wf(&self) -> bool {
        self@.wf() && self.framed()
    }

    /// Starts a round on `phrase`, with all lives and no guess made.
    pub fn new(phrase: &str) -> (game: Self)
        requires
            is_seven_bit(phrase@),
            phrase@.len() + 10 <= usize::MAX,
        ensures
            game.wf(),
            game@ == Round::start(phrase@),
    {
        let padding = phrase.unicode_len();
        let game = HangmanGame {
            phrase: phrase.to_owned(),
            lives: LIVES,
            guesses: Vec::new(),
            status: Status::Playing,
            board: GameBoard { padding },
        };
        assert(game@ =~= Round::start(phrase@));
        game
    }

    /// Whether `letter` is among the guesses made.
    fn has_guessed(&self, letter: char) -> (found: bool)
        ensures
            found == self@.guesses.contains(letter),
    {
        let mut i: usize = 0;
        while i < self.guesses.len()
            invariant
                i <= self.guesses@.len(),
                forall|j: int| 0 <= j < i ==> self.guesses@[j] != letter,
            decreases self.guesses@.len() - i,
        {
            if self.guesses[i] == letter {
                return true;
            }
            i += 1;
        }
        false
    }

    /// Whether `letter` occurs in the phrase, in either case.
    fn phrase_contains(&self, letter: char) -> (found: bool)
        ensures
            found == occurs(self@.phrase, letter),
    {
        for c in it: self.phrase.as_str().chars()
            invariant
                it.seq() == self.phrase@,
                forall|j: int| 0 <= j < it.index() ==> letters::lower(self.phrase@[j]) != letter,
        {
            let folded = match lowercase(c) {
                Ok(l) => l,
                Err(_) => c,
            };
            if folded == letter {
                return true;
            }
        }
        false
    }

    /// The phrase as the player may see it: each letter that has not been
    /// guessed is replaced by `_`, and every other character stands.
    pub fn construct_hidden_phrase(&self) -> (hidden: String)
        ensures
            hidden@ == self@.hidden(),
    {
        let mut hidden = String::new();
        for c in it: self.phrase.as_str().chars()
            invariant
                it.seq() == self.phrase@,
                hidden@.len() == it.index(),
                forall|j: int| 0 <= j < it.index() ==> hidden@[j] == self@.hidden()[j],
        {
            match lowercase(c) {
                Ok(l) => {
                    if self.has_guessed(l) {
                        hidden.push(c);
                    } else {
                        hidden.push(PLACEHOLDER);
                    }
                },
                Err(_) => {
                    hidden.push(c);
                },
            }
        }
        assert(hidden@ =~= self@.hidden());
        hidden
    }

    /// Takes the lowercase letter `guess` as the next guess. A letter guessed
    /// before changes nothing. A new letter is recorded; it costs a life if
    /// the phrase does not hold it. The round is then won if the whole phrase
    /// is revealed, and otherwise lost if no life is left.
    fn add_guess(&mut self, guess: char) -> (outcome: GuessOutcome)
        requires
            old(self).wf(),
            !old(self)@.over(),
            'a' <= guess <= 'z',
        ensures
            final(self).wf(),
            final(self)@ == old(self)@.guess(guess),
            outcome == old(self)@.outcome(guess),
    {
        proof {
            rules::lemma_guess_preserves_wf(self@, guess);
        }
        if self.has_guessed(guess) {
            GuessOutcome::Duplicate
        } else {
            let correct = self.phrase_contains(guess);
            self.guesses.push(guess);
            if !correct {
                self.lives -= 1;
            }
            if self.construct_hidden_phrase() == self.phrase {
                self.status = Status::Won;
            } else if self.lives == 0 {
                self.status = Status::Lost;
            }
            assert(self@ =~= old(self)@.guess(guess));
            if correct {
                GuessOutcome::Correct
            } else {
                GuessOutcome::Incorrect
            }
        }
    }

    /// Evaluates one typed character. Once the round is over nothing changes
    /// any more. A character that is no letter of `[A-Za-z]` is discarded;
    /// a letter is folded to lowercase and taken as the next guess.
    pub fn update_guesses(&mut self, guess: char) -> (outcome: GuessOutcome)
        requires
            old(self).wf(),
        ensures
            final(self).wf(),
            final(self)@ == old(self)@.guess(guess),
            outcome == old(self)@.outcome(guess),
    {
        if self.should_quit() {
            return GuessOutcome::Finished;
        }
        match lowercase(guess) {
            Ok(lower) => self.add_guess(lower),
            Err(_) => GuessOutcome::Invalid,
        }
    }

    /// Evaluates one line of input: its first character is the guess, and an
    /// empty line changes nothing.
    pub fn evaluate_guess(&mut self, guess: &str) -> (outcome: Option<GuessOutcome>)
        requires
            old(self).wf(),
        ensures
            final(self).wf(),
            guess@.len() == 0 ==> outcome is None && final(self)@ == old(self)@,
            guess@.len() > 0 ==> outcome == Some(old(self)@.outcome(guess@[0])) && final(self)@
                == old(self)@.guess(guess@[0]),
    {
        if guess.is_empty() {
            None
        } else {
            Some(self.update_guesses(guess.get_char(0)))
        }
    }

    /// Writes the phrase, as far as it is revealed, on its row.
    pub fn issue_hidden_phrase(&self, screen: &mut Screen)
        ensures
            final(screen)@ == old(screen)@ + hidden_phrase(self@),
    {
        let hidden = self.construct_hidden_phrase();
        GameBoard::move_caret_to(screen, Position { col: MARGIN, row: PHRASE_ROW });
        GameBoard::print(screen, hidden.as_str());
        assert(screen@ =~= old(screen)@ + hidden_phrase(self@));
    }

    /// Writes the prompt and leaves the caret behind it.
    pub fn prompt_guess(screen: &mut Screen)
        ensures
            final(screen)@ == old(screen)@ + prompt(),
    {
        GameBoard::move_caret_to(screen, Position { col: MARGIN, row: PROMPT_ROW });
        GameBoard::print(screen, "Guess: ");
        GameBoard::move_caret_to(screen, Position { col: MARGIN + 7, row: PROMPT_ROW });
        assert(screen@ =~= old(screen)@ + prompt());
    }

    /// Draws one part of the figure for each life lost, in the order head,
    /// torso, left arm, right arm, left leg, right leg. With all lives left
    /// nothing is drawn.
    pub fn print_body(&self, screen: &mut Screen)
        requires
            self.wf(),
        ensures
            final(screen)@ == old(screen)@ + figure(self@),
    {
        let ghost before = screen@;
        let ghost p = self.board.padding as int;
        proof {
            reveal_with_fuel(body, 7);
        }
        if self.lives == 6 {
            assert(screen@ =~= before + body(p, 0));
            return ;
        }
        if self.lives <= 5 {
            self.board.print_head(screen);
            assert(screen@ =~= before + body(p, 1));
        }
        if self.lives <= 4 {
            self.board.print_torso(screen);
            assert(screen@ =~= before + body(p, 2));
        }
        if self.lives <= 3 {
            self.board.print_left_arm(screen);
            assert(screen@ =~= before + body(p, 3));
        }
        if self.lives <= 2 {
            self.board.print_right_arm(screen);
            assert(screen@ =~= before + body(p, 4));
        }
        if self.lives <= 1 {
            self.board.print_left_leg(screen);
            assert(screen@ =~= before + body(p, 5));
        }
        if self.lives == 0 {
            self.board.print_right_leg(screen);
            assert(screen@ =~= before + body(p, 6));
        }
    }

    /// The guesses made, in order, separated by a comma and a space.
    fn list_guesses(&self) -> (list: String)
        ensures
            list@ == listed(self@.guesses),
    {
        let mut list = String::new();
        let mut i: usize = 0;
        while i < self.guesses.len()
            invariant
                i <= self.guesses@.len(),
                list@ == listed(self.guesses@.take(i as int)),
            decreases self.guesses@.len() - i,
        {
            if i > 0 {
                list.append(", ");
            }
            list.push(self.guesses[i]);
            proof {
                let next = self.guesses@.take(i + 1);
                assert(next.drop_last() =~= self.guesses@.take(i as int));
                assert(next.last() == self.guesses@[i as int]);
                if i == 0 {
                    assert(list@ =~= seq![self.guesses@[0]]);
                }
            }
            i += 1;
        }
        assert(self.guesses@.take(i as int) =~= self.guesses@);
        list
    }

    /// Writes the heading of the guess list and, below it, the guesses made.
    pub fn print_guess_list(&self, screen: &mut Screen)
        ensures
            final(screen)@ == old(screen)@ + guess_list(self@.guesses),
    {
        GameBoard::move_caret_to(screen, Position { col: MARGIN, row: GUESS_ROW });
        GameBoard::print(screen, "Guesses");
        GameBoard::move_caret_to(screen, Position { col: MARGIN + 1, row: GUESS_ROW + 1 });
        let guess_list = self.list_guesses();
        GameBoard::print(screen, guess_list.as_str());
        assert(screen@ =~= old(screen)@ + display::guess_list(self@.guesses));
    }

    /// Draws one whole frame and sends it: the screen is cleared, then come
    /// the gallows, the figure, the guess list, the phrase and the prompt.
    pub fn draw_frame(&self, screen: &mut Screen)
        requires
            self.wf(),
        ensures
            final(screen)@ == old(screen)@ + frame(self@),
    {
        GameBoard::clear_screen(screen);
        GameBoard::reset_caret(screen);
        self.board.print_gallows(screen);
        self.print_body(screen);
        self.print_guess_list(screen);
        self.issue_hidden_phrase(screen);
        Self::prompt_guess(screen);
        GameBoard::execute(screen);
        assert(screen@ =~= old(screen)@ + frame(self@));
    }

    /// Takes leave of the player once the round is over. The phrase is
    /// written as far as it was revealed and sent. The winner is then
    /// congratulated. For the loser the figure is completed, the phrase is
    /// written in clear and two lines of consolation follow.
    pub fn issue_goodbye(&self, screen: &mut Screen)
        requires
            self.wf(),
            self@.over(),
        ensures
            final(screen)@ == old(screen)@ + farewell(self@),
    {
        self.issue_hidden_phrase(screen);
        GameBoard::execute(screen);
        match self.status {
            Status::Won => {
                GameBoard::move_caret_to(screen, Position { col: MARGIN, row: FAREWELL_ROW });
                GameBoard::print(screen, "Congratulations, you won Rusty Hangman!");
            },
            _ => {
                self.print_body(screen);
                GameBoard::move_caret_to(screen, Position { col: MARGIN, row: PHRASE_ROW });
                GameBoard::print(screen, self.phrase.as_str());
                GameBoard::move_caret_to(screen, Position { col: MARGIN, row: FAREWELL_ROW });
                GameBoard::print(screen, "You were not able to figure out the secret phrase :(\n");
                GameBoard::print(screen, "\r\nThank you for playing Rusty Hangman.\n");
            },
        }
        assert(screen@ =~= old(screen)@ + farewell(self@));
    }

    /// Plays a session on key events that are known in advance. The terminal
    /// is prepared; then, while the round is on, a frame is drawn and sent,
    /// one line of guess is read from the events and evaluated. When the
    /// round is over the farewell is drawn and sent. If the events run out
    /// first, the session stops behind the frame that waits for the next
    /// line. Returns whether the round is over.
    pub fn play(&mut self, events: &Vec<TerminalEvent>, screen: &mut Screen) -> (finished: bool)
        requires
            old(self).wf(),
        ensures
            final(self).wf(),
            final(self)@ == play_round(old(self)@, events@, 0),
            final(screen)@ == old(screen)@ + seq![
                Draw::Clear,
                board::caret(Position { col: 0, row: 0 }),
                Draw::Flush,
            ] + play_draws(old(self)@, events@, 0),
            finished == final(self)@.over(),
    {
        GameBoard::initialize(screen);
        let ghost start = screen@;
        let mut at: usize = 0;
        while !self.should_quit()
            invariant
                self.wf(),
                at <= events@.len(),
                start == old(screen)@ + seq![
                    Draw::Clear,
                    board::caret(Position { col: 0, row: 0 }),
                    Draw::Flush,
                ],
                play_round(self@, events@, at as int) == play_round(old(self)@, events@, 0),
                screen@ + play_draws(self@, events@, at as int) == start + play_draws(
                    old(self)@,
                    events@,
                    0,
                ),
            decreases events@.len() - at,
        {
            let ghost drawn = screen@;
            let ghost round = self@;
            self.draw_frame(screen);
            if at >= events.len() {
                assert(screen@ =~= drawn + play_draws(round, events@, at as int));
                return false;
            }
            let (guess, next) = read_guess(events, at);
            self.evaluate_guess(guess.as_str());
            assert(self@ == session::turn(round, guess@));
            assert(screen@ + play_draws(self@, events@, next as int) =~= drawn + play_draws(
                round,
                events@,
                at as int,
            ));
            at = next;
        }
        let ghost drawn = screen@;
        self.issue_goodbye(screen);
        GameBoard::terminate(screen);
        assert(screen@ =~= drawn + play_draws(self@, events@, at as int));
        true
    }

    /// Whether the round is over, won or lost.
    pub fn should_quit(&self) -> (quit: bool)
        ensures
            quit == self@.over(),
    {
        match self.status {
            Status::Playing => false,
            _ => true,
        }
    }

    /// Where the round stands.
    pub fn status(&self) -> (status: Status)
        ensures
            status == self@.status,
    {
        self.status
    }

    /// The wrong guesses still allowed.
    pub fn lives(&self) -> (lives: u8)
        ensures
            lives == self@.lives,
    {
        self.lives
    }

    /// The letters guessed so far, in the order they were guessed.
    pub fn guesses(&self) -> (guesses: &Vec<char>)
        ensures
            guesses@ == self@.guesses,
    {
        &self.guesses
    }

    /// The secret phrase.
    pub fn phrase(&self) -> (phrase: &str)
        ensures
            phrase@ == self@.phrase,
    {
        self.phrase.as_str()
    }
}

} // verus!
