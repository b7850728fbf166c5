//! What a round looks like on the terminal, as sequences of commands.

use super::board::{body, caret, gallows, text_at, Draw, Position, GALLOWS_ROWS};
use super::rules::{Round, Status, LIVES};
use vstd::prelude::*;

verus! {

/// Column in which the prompt, the phrase, the heading of the guess list and
/// the farewell begin.
pub const MARGIN: usize = 1;

/// Row of the prompt.
pub const PROMPT_ROW: usize = 2;

/// Row of the phrase.
pub const PHRASE_ROW: usize = 4;

/// Row of the heading of the guess list; the list stands one row below it and
/// one column further in.
pub const GUESS_ROW: usize = 8;

/// Row of the farewell.
pub const FAREWELL_ROW: usize = 10;

/// The guesses in the order they were made, separated by a comma and a space.
pub open spec fn listed(guesses: Seq<char>) -> Seq<char>
    decreases guesses.len(),
{
    if guesses.len() == 0 {
        Seq::empty()
    } else if guesses.len() == 1 {
        seq![guesses[0]]
    } else {
        listed(guesses.drop_last()) + ", "@ + seq![guesses.last()]
    }
}

/// The heading and, below it, the guesses made.
pub open spec fn guess_list(guesses: Seq<char>) -> Seq<Draw> {
    text_at(MARGIN as int, GUESS_ROW as int, "Guesses"@) + text_at(
        MARGIN + 1,
        GUESS_ROW + 1,
        listed(guesses),
    )
}

/// The phrase as far as it is revealed, on the phrase row.
pub open spec fn hidden_phrase(round: Round) -> Seq<Draw> {
    text_at(MARGIN as int, PHRASE_ROW as int, round.hidden())
}

/// The prompt, with the caret left behind it.
pub open spec fn prompt() -> Seq<Draw> {
    text_at(MARGIN as int, PROMPT_ROW as int, "Guess: "@).push(
        caret(Position { col: (MARGIN + 7) as usize, row: PROMPT_ROW }),
    )
}

/// The figure as far as the lost lives have drawn it: one part for each.
pub open spec fn figure(round: Round) -> Seq<Draw> {
    body(round.phrase.len() as int, (LIVES - round.lives) as nat)
}

/// One whole frame: on an empty screen the gallows, the figure, the guess
/// list, the phrase and the prompt, sent to the terminal as one batch.
pub open spec fn frame(round: Round) -> Seq<Draw> {
    seq![Draw::Clear, caret(Position { col: 0, row: 0 })] + gallows(
        round.phrase.len() as int,
        GALLOWS_ROWS as nat,
    ) + figure(round) + guess_list(round.guesses) + hidden_phrase(round) + prompt().push(
        Draw::Flush,
    )
}

/// Whether none of the commands sends anything to the terminal.
pub open spec fn unsent(draws: Seq<Draw>) -> bool {
    forall|i: int| 0 <= i < draws.len() ==> #[trigger] draws[i] != Draw::Flush
}

/// Drawing the gallows sends nothing.
pub proof fn lemma_gallows_unsent(padding: int, rows: nat)
    ensures
        unsent(gallows(padding, rows)),
    decreases rows,
{
    if rows > 0 {
        lemma_gallows_unsent(padding, (rows - 1) as nat);
    }
}

/// Drawing the figure sends nothing.
pub proof fn lemma_body_unsent(padding: int, parts: nat)
    ensures
        unsent(body(padding, parts)),
    decreases parts,
{
    if parts > 0 {
        lemma_body_unsent(padding, (parts - 1) as nat);
    }
}

/// A frame reaches the terminal as one batch: its last command sends it, and
/// nothing is sent before.
pub proof fn law_frame_is_one_batch(round: Round)
    ensures
        frame(round).last() == Draw::Flush,
        unsent(frame(round).drop_last()),
{
    let padding = round.phrase.len() as int;
    lemma_gallows_unsent(padding, GALLOWS_ROWS as nat);
    lemma_body_unsent(padding, (LIVES - round.lives) as nat);
    let drawn = seq![Draw::Clear, caret(Position { col: 0, row: 0 })] + gallows(
        padding,
        GALLOWS_ROWS as nat,
    ) + figure(round) + guess_list(round.guesses) + hidden_phrase(round) + prompt();
    assert(frame(round) =~= drawn.push(Draw::Flush));
    assert(frame(round).drop_last() =~= drawn);
}

/// The message for the winner.
pub open spec fn won_message() -> Seq<char> {
    "Congratulations, you won Rusty Hangman!"@
}

/// The first line for the loser.
pub open spec fn lost_message() -> Seq<char> {
    "You were not able to figure out the secret phrase :(\n"@
}

/// The second line for the loser.
pub open spec fn thanks_message() -> Seq<char> {
    "\r\nThank you for playing Rusty Hangman.\n"@
}

/// The end of a round: the phrase as far as it was revealed, sent at once;
/// then for the winner the congratulation, and for the loser the whole
/// figure, the phrase in clear and the two lines of consolation.
pub open spec fn farewell(round: Round) -> Seq<Draw> {
    hidden_phrase(round).push(Draw::Flush) + if round.status == Status::Won {
        text_at(MARGIN as int, FAREWELL_ROW as int, won_message())
    } else {
        body(round.phrase.len() as int, LIVES as nat) + text_at(
            MARGIN as int,
            PHRASE_ROW as int,
            round.phrase,
        ) + text_at(MARGIN as int, FAREWELL_ROW as int, lost_message()).push(
            Draw::Print(thanks_message()),
        )
    }
}

} // verus!
