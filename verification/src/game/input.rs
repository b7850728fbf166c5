//! What the player types: the events a terminal reports, and how a run of
//! them becomes one line of guess.

use vstd::prelude::*;

verus! {

/// The modifier keys held with a key.
#[derive(Debug, Clone, Copy, PartialEq, Eq)]
pub struct Modifiers {
    pub shift: bool,
    pub control: bool,
    pub alt: bool,
    /// Any modifier besides shift, control and alt.
    pub other: bool,
}

impl Modifiers {
    /// Whether control is held and no other modifier with it.
    pub open spec fn control_alone(self) -> bool {
        self.control && !self.shift && !self.alt && !self.other
    }

    /// Whether control is held and no other modifier with it.
    pub fn is_control_alone(&self) -> (alone: bool)
        ensures
            alone == self.control_alone(),
    {
        self.control && !self.shift && !self.alt && !self.other
    }
}

/// What happened to a key.
#[derive(Debug, Clone, Copy, PartialEq, Eq)]
pub enum KeyKind {
    Press,
    Repeat,
    Release,
}

/// The key itself, as far as the game tells keys apart.
#[derive(Debug, Clone, Copy, PartialEq, Eq)]
pub enum Key {
    /// A key that stands for a character.
    Char(char),
    Enter,
    /// Any other key.
    Other,
}

/// One event of one key.
#[derive(Debug, Clone, Copy, PartialEq, Eq)]
pub struct KeyStroke {
    pub key: Key,
    pub kind: KeyKind,
    pub modifiers: Modifiers,
}

/// What the terminal reports when it is read once.
#[derive(Debug, Clone, Copy, PartialEq, Eq)]
pub enum TerminalEvent {
    Key(KeyStroke),
    /// Anything that is no key event: the mouse, the focus, a new size.
    Other,
    /// The terminal could not be read.
    Failed,
}

/// What one event means for the line that is being typed.
#[derive(Debug, Clone, Copy, PartialEq, Eq)]
pub enum LineInput {
    /// The character is added to the line.
    Char(char),
    /// The line is cancelled: it ends, and what was typed of it is dropped.
    Cancel,
    /// The line ends as it stands.
    End,
}

/// What an event means for the line being typed. The press of a character key
/// adds the character, but the press of `q` with control alone cancels the
/// line. Every other event ends the line: any other key, the release or the
/// repeat of a key, an event that is no key event, a failed reading.
pub open spec fn meaning(event: TerminalEvent) -> LineInput {
    match event {
        TerminalEvent::Key(KeyStroke { key: Key::Char(c), kind: KeyKind::Press, modifiers }) => {
            if c == 'q' && modifiers.control_alone() {
                LineInput::Cancel
            } else {
                LineInput::Char(c)
            }
        },
        _ => LineInput::End,
    }
}

/// The number of events from position `from` on that each add a character.
pub open spec fn typed_run(events: Seq<TerminalEvent>, from: int) -> nat
    decreases events.len() - from,
{
    if 0 <= from < events.len() && meaning(events[from]) is Char {
        1 + typed_run(events, from + 1)
    } else {
        0
    }
}

/// Whether the line typed from position `from` on is cancelled.
pub open spec fn cancelled(events: Seq<TerminalEvent>, from: int) -> bool {
    let end = from + typed_run(events, from);
    end < events.len() && meaning(events[end]) == LineInput::Cancel
}

/// The line typed from position `from` on: the characters of the events up to
/// the first that ends the line, or up to the last event if none does. A
/// cancelled line is empty.
pub open spec fn line(events: Seq<TerminalEvent>, from: int) -> Seq<char> {
    if cancelled(events, from) {
        Seq::empty()
    } else {
        Seq::new(typed_run(events, from), |k: int| meaning(events[from + k])->Char_0)
    }
}

/// The position at which the next line begins: behind the event that ended
/// or cancelled the line from `from`, or at the end of the events if none
/// did.
pub open spec fn line_end(events: Seq<TerminalEvent>, from: int) -> int {
    if from + typed_run(events, from) < events.len() {
        from + typed_run(events, from) + 1
    } else {
        events.len() as int
    }
}

/// What `event` means for the line being typed.
pub fn interpret(event: &TerminalEvent) -> (input: LineInput)
    ensures
        input == meaning(*event),
{
    match event {
        TerminalEvent::Key(stroke) => match stroke.kind {
            KeyKind::Press => match stroke.key {
                Key::Char(c) => {
                    if c == 'q' && stroke.modifiers.is_control_alone() {
                        LineInput::Cancel
                    } else {
                        LineInput::Char(c)
                    }
                },
                _ => LineInput::End,
            },
            _ => LineInput::End,
        },
        _ => LineInput::End,
    }
}

/// Reads one line of guess from the events, beginning at position `from`.
/// Returns the line and the position at which the next line begins.
pub fn read_guess(events: &Vec<TerminalEvent>, from: usize) -> (read: (String, usize))
    requires
        from <= events@.len(),
    ensures
        read.0@ == line(events@, from as int),
        read.1 == line_end(events@, from as int),
{
    let mut full_guess = String::new();
    let mut at: usize = from;
    while at < events.len()
        invariant
            from <= at <= events@.len(),
            typed_run(events@, from as int) == (at - from) + typed_run(events@, at as int),
            full_guess@.len() == at - from,
            forall|k: int|
                0 <= k < at - from ==> LineInput::Char(#[trigger] full_guess@[k]) == meaning(
                    events@[from + k],
                ),
        decreases events@.len() - at,
    {
        match interpret(&events[at]) {
            LineInput::Char(c) => {
                full_guess.push(c);
                at += 1;
            },
            LineInput::Cancel => {
                return (String::new(), at + 1);
            },
            LineInput::End => {
                assert(full_guess@ =~= line(events@, from as int));
                return (full_guess, at + 1);
            },
        }
    }
    assert(full_guess@ =~= line(events@, from as int));
    (full_guess, at)
}

} // verus!
