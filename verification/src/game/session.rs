//! A whole session as mathematics: where a round ends up, and what is drawn
//! on the way, when the player's key events are known in advance.

use super::board::Draw;
use super::display::{farewell, frame};
use super::input::{line, line_end, TerminalEvent};
use super::rules::Round;
use vstd::prelude::*;

verus! {

/// The round after one line of input: the first character of the line is the
/// guess, and an empty line changes nothing.
pub open spec fn turn(round: Round, line: Seq<char>) -> Round {
    if line.len() == 0 {
        round
    } else {
        round.guess(line[0])
    }
}

/// The round in which a session ends that starts in `round` and reads the
/// events from position `from` on: line after line is evaluated until the
/// round is over or no event is left.
pub open spec fn play_round(round: Round, events: Seq<TerminalEvent>, from: int) -> Round
    decreases events.len() - from,
{
    if round.over() || from < 0 || from >= events.len() {
        round
    } else {
        play_round(turn(round, line(events, from)), events, line_end(events, from))
    }
}

/// What such a session draws. While the round is on, a frame is drawn and
/// sent before each line is read, also before the line that never comes
/// because the events have run out. Once the round is over the farewell
/// follows and is sent.
pub open spec fn play_draws(round: Round, events: Seq<TerminalEvent>, from: int) -> Seq<Draw>
    decreases events.len() - from,
{
    if round.over() {
        farewell(round).push(Draw::Flush)
    } else if from < 0 || from >= events.len() {
        frame(round)
    } else {
        frame(round) + play_draws(
            turn(round, line(events, from)),
            events,
            line_end(events, from),
        )
    }
}

} // verus!
