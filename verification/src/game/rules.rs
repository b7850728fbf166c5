//! The rules of a round as mathematics: the state of a round, what a guess
//! does to it, and the laws that follow.

use super::letters::{is_letter, is_seven_bit, lower};
use vstd::prelude::*;

verus! {

/// Number of wrong guesses a player can afford, counting the fatal one.
pub const LIVES: u8 = 6;

/// The glyph shown in place of a letter that has not been guessed.
pub const PLACEHOLDER: char = '_';

/// Where a round stands. `Won` and `Lost` are final.
#[derive(Debug, Clone, Copy, PartialEq, Eq, Structural)]
pub enum Status {
    Playing,
    Won,
    Lost,
}

/// What became of one guess.
#[derive(Debug, Clone, Copy, PartialEq, Eq, Structural)]
pub enum GuessOutcome {
    /// The character is no letter; nothing changed.
    Invalid,
    /// The letter was guessed before; nothing changed.
    Duplicate,
    /// The letter was recorded and occurs in the phrase.
    Correct,
    /// The letter was recorded and cost a life.
    Incorrect,
    /// The round was already won or lost; nothing changed.
    Finished,
}

/// Whether `letter` occurs in the phrase, in either case.
pub open spec fn occurs(phrase: Seq<char>, letter: char) -> bool {
    exists|i: int| 0 <= i < phrase.len() && lower(#[trigger] phrase[i]) == letter
}

/// Whether a character of the phrase is displayed as it is: every character
/// that is no letter, and each letter whose lowercase form has been guessed.
pub open spec fn shown(c: char, guesses: Seq<char>) -> bool {
    !is_letter(c) || guesses.contains(lower(c))
}

/// The phrase as the player sees it: letters not yet guessed are replaced by
/// the placeholder, everything else stands.
pub open spec fn mask(phrase: Seq<char>, guesses: Seq<char>) -> Seq<char> {
    Seq::new(
        phrase.len(),
        |i: int|
            if shown(phrase[i], guesses) {
                phrase[i]
            } else {
                PLACEHOLDER
            },
    )
}

/// The number of guesses that do not occur in the phrase.
pub open spec fn misses(phrase: Seq<char>, guesses: Seq<char>) -> nat
    decreases guesses.len(),
{
    if guesses.len() == 0 {
        0
    } else {
        misses(phrase, guesses.drop_last()) + if occurs(phrase, guesses.last()) {
            0nat
        } else {
            1nat
        }
    }
}

/// The state of one round.
pub struct Round {
    /// The secret phrase, as given.
    pub phrase: Seq<char>,
    /// The letters guessed so far, in the order they were guessed.
    pub guesses: Seq<char>,
    /// The wrong guesses still allowed.
    pub lives: nat,
    pub status: Status,
}

impl Round {
    /// The round at its start.
    pub open spec fn start(phrase: Seq<char>) -> Round {
        Round { phrase, guesses: Seq::empty(), lives: LIVES as nat, status: Status::Playing }
    }

    /// What the player sees of the phrase.
    pub open spec fn hidden(self) -> Seq<char> {
        mask(self.phrase, self.guesses)
    }

    /// Whether nothing of the phrase is masked any more.
    pub open spec fn revealed(self) -> bool {
        self.hidden() == self.phrase
    }

    /// Whether the round is over.
    pub open spec fn over(self) -> bool {
        self.status != Status::Playing
    }

    /// What holds of every round that play can reach.
    pub open spec fn wf(self) -> bool {
        &&& is_seven_bit(self.phrase)
        &&& forall|i: int|
            0 <= i < self.guesses.len() ==> 'a' <= (#[trigger] self.guesses[i]) <= 'z'
        &&& self.guesses.no_duplicates()
        &&& self.lives + misses(self.phrase, self.guesses) == LIVES
        &&& self.status == Status::Playing ==> self.lives > 0 && (self.guesses.len() > 0
            ==> !self.revealed())
        &&& self.status == Status::Won ==> self.revealed() && self.guesses.len() > 0
        &&& self.status == Status::Lost ==> self.lives == 0 && !self.revealed()
    }

    /// The round after `letter`, a lowercase letter not guessed before, has
    /// been recorded. A letter that does not occur costs a life, if one is
    /// left. The round is won if the phrase is then revealed, whatever the
    /// lives; otherwise it is lost if no life is left.
    pub open spec fn record(self, letter: char) -> Round {
        let guesses = self.guesses.push(letter);
        let lives = if occurs(self.phrase, letter) || self.lives == 0 {
            self.lives
        } else {
            (self.lives - 1) as nat
        };
        let status = if mask(self.phrase, guesses) == self.phrase {
            Status::Won
        } else if lives == 0 {
            Status::Lost
        } else {
            Status::Playing
        };
        Round { phrase: self.phrase, guesses, lives, status }
    }

    /// Whether guessing `c` records a new letter.
    pub open spec fn accepts(self, c: char) -> bool {
        !self.over() && is_letter(c) && !self.guesses.contains(lower(c))
    }

    /// The round after the player has typed `c`.
    pub open spec fn guess(self, c: char) -> Round {
        if self.accepts(c) {
            self.record(lower(c))
        } else {
            self
        }
    }

    /// What is reported of the guess `c`.
    pub open spec fn outcome(self, c: char) -> GuessOutcome {
        if self.over() {
            GuessOutcome::Finished
        } else if !is_letter(c) {
            GuessOutcome::Invalid
        } else if self.guesses.contains(lower(c)) {
            GuessOutcome::Duplicate
        } else if occurs(self.phrase, lower(c)) {
            GuessOutcome::Correct
        } else {
            GuessOutcome::Incorrect
        }
    }
}

/// One more guess adds to the misses exactly when it does not occur.
pub proof fn lemma_misses_push(phrase: Seq<char>, guesses: Seq<char>, letter: char)
    ensures
        misses(phrase, guesses.push(letter)) == misses(phrase, guesses) + if occurs(
            phrase,
            letter,
        ) {
            0nat
        } else {
            1nat
        },
{
    assert(guesses.push(letter).drop_last() =~= guesses);
}

/// A guess takes a round that play can reach to another such round.
pub proof fn lemma_guess_preserves_wf(round: Round, c: char)
    requires
        round.wf(),
    ensures
        round.guess(c).wf(),
{
    if round.accepts(c) {
        let l = lower(c);
        let next = round.record(l);
        lemma_misses_push(round.phrase, round.guesses, l);
        assert forall|i: int| 0 <= i < next.guesses.len() implies 'a' <= (
        #[trigger] next.guesses[i]) <= 'z' by {
            if i < round.guesses.len() {
                assert(next.guesses[i] == round.guesses[i]);
            }
        }
        assert(next.guesses.no_duplicates());
    }
}

/// Guessing a letter while the round is on uncovers every position of the
/// phrase that holds this letter, in either case, and changes what is seen at
/// no other position.
pub proof fn law_guess_reveals_its_letter(round: Round, c: char)
    requires
        round.wf(),
        !round.over(),
        is_letter(c),
    ensures
        round.guess(c).hidden().len() == round.phrase.len(),
        forall|i: int|
            0 <= i < round.phrase.len() ==> #[trigger] round.guess(c).hidden()[i] == if lower(
                round.phrase[i],
            ) == lower(c) {
                round.phrase[i]
            } else {
                round.hidden()[i]
            },
{
    let l = lower(c);
    let next = round.guess(c);
    assert forall|i: int| 0 <= i < round.phrase.len() implies #[trigger] next.hidden()[i]
        == if lower(round.phrase[i]) == l {
        round.phrase[i]
    } else {
        round.hidden()[i]
    } by {
        let p = round.phrase[i];
        if round.accepts(c) {
            lemma_push_contains(round.guesses, l, lower(p));
        }
    }
}

/// After `letter` is added to the guesses, exactly `letter` and the earlier
/// guesses are among them.
pub proof fn lemma_push_contains(guesses: Seq<char>, letter: char, other: char)
    ensures
        guesses.push(letter).contains(other) <==> other == letter || guesses.contains(other),
{
    let pushed = guesses.push(letter);
    if other == letter {
        assert(pushed[guesses.len() as int] == other);
    }
    if guesses.contains(other) {
        let i = choose|i: int| 0 <= i < guesses.len() && guesses[i] == other;
        assert(pushed[i] == other);
    }
    if pushed.contains(other) {
        let i = choose|i: int| 0 <= i < pushed.len() && pushed[i] == other;
        if i < guesses.len() {
            assert(guesses[i] == other);
        }
    }
}

/// A letter guessed a second time, in either case, changes nothing: neither
/// the lives nor anything else of the round.
pub proof fn law_repeated_guess_changes_nothing(round: Round, c: char, again: char)
    requires
        lower(again) == lower(c),
    ensures
        round.guess(c).guess(again) == round.guess(c),
        round.guess(c).guess(again).lives == round.guess(c).lives,
{
    if round.accepts(c) {
        lemma_push_contains(round.guesses, lower(c), lower(c));
    }
}

/// The lives never rise and never fall below zero. A guess takes exactly one
/// life if it records a letter that does not occur in the phrase, and none
/// otherwise.
pub proof fn law_lives_fall_by_one_per_miss(round: Round, c: char)
    requires
        round.wf(),
    ensures
        0 <= round.guess(c).lives <= round.lives <= LIVES,
        round.accepts(c) && !occurs(round.phrase, lower(c)) ==> round.guess(c).lives
            == round.lives - 1,
        !(round.accepts(c) && !occurs(round.phrase, lower(c))) ==> round.guess(c).lives
            == round.lives,
{
}

/// A guess that records a letter wins the round exactly when the phrase is
/// then revealed, whatever the lives: it wins, and does not lose, also when it
/// takes the last life. If the phrase is not revealed, the round is lost
/// exactly when no life is left.
pub proof fn law_won_iff_revealed(round: Round, c: char)
    requires
        round.accepts(c),
    ensures
        round.guess(c).status == Status::Won <==> round.guess(c).revealed(),
        round.guess(c).status == Status::Lost <==> !round.guess(c).revealed() && round.guess(
            c,
        ).lives == 0,
{
}

/// In every round that play can reach and that has a guess on record, to
/// have won and to have revealed the phrase are the same; and the round is
/// over exactly when it is won or no life is left.
pub proof fn law_status_follows_the_board(round: Round)
    requires
        round.wf(),
        round.guesses.len() > 0,
    ensures
        round.status == Status::Won <==> round.revealed(),
        round.status == Status::Lost <==> !round.revealed() && round.lives == 0,
{
}

/// A guess never touches the phrase and never takes a guess back: the guesses
/// made before stay, in their order, and at most one is added behind them.
/// Once the round is won or lost, no guess changes anything.
pub proof fn law_round_only_advances(round: Round, c: char)
    ensures
        round.guess(c).phrase == round.phrase,
        round.guesses.is_prefix_of(round.guess(c).guesses),
        round.guess(c).guesses.len() <= round.guesses.len() + 1,
        round.over() ==> round.guess(c) == round,
{
}

/// A character that is no letter changes nothing of the round.
pub proof fn law_non_letter_changes_nothing(round: Round, c: char)
    requires
        !is_letter(c),
    ensures
        round.guess(c) == round,
{
}

} // verus!
