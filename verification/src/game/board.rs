//! The board: the queue of terminal commands that make up what the player
//! sees, and the drawing of the gallows and of the figure on it.

use vstd::prelude::*;

verus! {

/// A cell of the terminal. The top left cell is column 0, row 0.
#[derive(Debug, Copy, Clone)]
pub struct Position {
    pub col: usize,
    pub row: usize,
}

/// One command for the terminal.
#[derive(Debug, PartialEq, Eq)]
pub enum DrawOp {
    /// Clear the whole screen.
    Clear,
    /// Put the caret on a cell.
    MoveTo { col: u16, row: u16 },
    /// Write text at the caret.
    Print(String),
    /// Send everything queued so far to the terminal.
    Flush,
}

/// What a [`DrawOp`] says, with its text as a sequence of characters.
pub enum Draw {
    Clear,
    MoveTo { col: u16, row: u16 },
    Print(Seq<char>),
    Flush,
}

impl View for DrawOp {
    type V = Draw;

    open spec fn view(&self) -> Draw {
        match *self {
            DrawOp::Clear => Draw::Clear,
            DrawOp::MoveTo { col, row } => Draw::MoveTo { col, row },
            DrawOp::Print(text) => Draw::Print(text@),
            DrawOp::Flush => Draw::Flush,
        }
    }
}

/// The commands issued so far, oldest first.
pub struct Screen {
    pub ops: Vec<DrawOp>,
}

impl View for Screen {
    type V = Seq<Draw>;

    open spec fn view(&self) -> Seq<Draw> {
        self.ops@.map_values(|op: DrawOp| op@)
    }
}

impl Screen {
    /// A screen on which nothing has been drawn.
    pub fn new() -> (screen: Screen)
        ensures
            screen@ == Seq::<Draw>::empty(),
    {
        let screen = Screen { ops: Vec::new() };
        assert(screen@ =~= Seq::<Draw>::empty());
        screen
    }

    /// Adds one command behind those already queued.
    pub fn queue(&mut self, op: DrawOp)
        ensures
            final(self)@ == old(self)@.push(op@),
    {
        self.ops.push(op);
        assert(self@ =~= old(self)@.push(op@));
    }
}

/// The command that puts the caret on `position`. The terminal addresses its
/// cells with 16 bits, so only the low 16 bits of each coordinate count.
pub open spec fn caret(position: Position) -> Draw {
    Draw::MoveTo { col: position.col as u16, row: position.row as u16 }
}

/// The commands that write `text` with its first character on the cell
/// (`col`, `row`).
pub open spec fn text_at(col: int, row: int, text: Seq<char>) -> Seq<Draw> {
    seq![caret(Position { col: col as usize, row: row as usize }), Draw::Print(text)]
}

/// Number of rows that the drawing of the gallows takes.
pub const GALLOWS_ROWS: usize = 8;

/// Columns between the left edge of the board and the gallows, beyond the padding.
pub const GALLOWS_INDENT: usize = 3;

/// Row `row` of the gallows; the top row is empty.
pub open spec fn gallows_line(row: int) -> Seq<char> {
    if row == 1 {
        "  +---+"@
    } else if row == 2 {
        "  |   |"@
    } else if 3 <= row <= 6 {
        "  |"@
    } else if row == 7 {
        "=========="@
    } else {
        ""@
    }
}

/// The commands that draw the top `rows` rows of the gallows.
pub open spec fn gallows(padding: int, rows: nat) -> Seq<Draw>
    decreases rows,
{
    if rows == 0 {
        Seq::empty()
    } else {
        gallows(padding, (rows - 1) as nat) + text_at(
            padding + GALLOWS_INDENT,
            rows - 1,
            gallows_line(rows - 1),
        )
    }
}

/// The commands that draw part `part` of the figure. The parts are numbered in
/// the order in which they appear: head, torso, left arm, right arm, left leg,
/// right leg.
pub open spec fn limb(padding: int, part: int) -> Seq<Draw> {
    if part == 0 {
        text_at(padding + 9, 3, "O"@)
    } else if part == 1 {
        text_at(padding + 9, 4, "|"@)
    } else if part == 2 {
        text_at(padding + 8, 4, "/"@)
    } else if part == 3 {
        text_at(padding + 10, 4, "\\"@)
    } else if part == 4 {
        text_at(padding + 8, 5, "/"@)
    } else {
        text_at(padding + 10, 5, "\\"@)
    }
}

/// The commands that draw the first `parts` parts of the figure, in order.
pub open spec fn body(padding: int, parts: nat) -> Seq<Draw>
    decreases parts,
{
    if parts == 0 {
        Seq::empty()
    } else {
        body(padding, (parts - 1) as nat) + limb(padding, parts - 1)
    }
}

/// Each part of the figure takes two commands, and a part once drawn stays:
/// the figure with fewer parts is the beginning of the figure with more.
pub proof fn lemma_body_grows(padding: int, fewer: nat, more: nat)
    requires
        fewer <= more,
    ensures
        body(padding, more).len() == 2 * more,
        body(padding, fewer).is_prefix_of(body(padding, more)),
    decreases more,
{
    if more > 0 {
        let shorter = (more - 1) as nat;
        if fewer < more {
            lemma_body_grows(padding, fewer, shorter);
            assert(body(padding, shorter).is_prefix_of(body(padding, more)));
        } else {
            lemma_body_grows(padding, shorter, shorter);
        }
    }
}

/// Row `row` of the gallows.
fn gallows_row(row: usize) -> (line: &'static str)
    ensures
        line@ == gallows_line(row as int),
{
    if row == 1 {
        "  +---+"
    } else if row == 2 {
        "  |   |"
    } else if 3 <= row && row <= 6 {
        "  |"
    } else if row == 7 {
        "=========="
    } else {
        ""
    }
}

/// Draws the gallows for a phrase of `padding` characters, which sets it off
/// from the left edge so that it stands centred over the phrase.
pub struct GameBoard {
    pub padding: usize,
}

impl GameBoard {
    /// Whether every column of the drawing can be computed in a `usize`.
    pub open spec fn fits(&self) -> bool {
        self.padding + 10 <= usize::MAX
    }

    /// Prepares the terminal: an empty screen with the caret at the top left.
    pub fn initialize(screen: &mut Screen)
        ensures
            final(screen)@ == old(screen)@ + seq![
                Draw::Clear,
                caret(Position { col: 0, row: 0 }),
                Draw::Flush,
            ],
    {
        Self::clear_screen(screen);
        Self::reset_caret(screen);
        Self::execute(screen);
        assert(screen@ =~= old(screen)@ + seq![
            Draw::Clear,
            caret(Position { col: 0, row: 0 }),
            Draw::Flush,
        ]);
    }

    /// Leaves the terminal with everything that was queued sent to it.
    pub fn terminate(screen: &mut Screen)
        ensures
            final(screen)@ == old(screen)@.push(Draw::Flush),
    {
        Self::execute(screen);
    }

    pub fn clear_screen(screen: &mut Screen)
        ensures
            final(screen)@ == old(screen)@.push(Draw::Clear),
    {
        screen.queue(DrawOp::Clear);
    }

    pub fn move_caret_to(screen: &mut Screen, position: Position)
        ensures
            final(screen)@ == old(screen)@.push(caret(position)),
    {
        let col = #[verifier::truncate]
        (position.col as u16);
        let row = #[verifier::truncate]
        (position.row as u16);
        screen.queue(DrawOp::MoveTo { col, row });
    }

    pub fn reset_caret(screen: &mut Screen)
        ensures
            final(screen)@ == old(screen)@.push(caret(Position { col: 0, row: 0 })),
    {
        Self::move_caret_to(screen, Position { col: 0, row: 0 });
    }

    pub fn print(screen: &mut Screen, string: &str)
        ensures
            final(screen)@ == old(screen)@.push(Draw::Print(string@)),
    {
        screen.queue(DrawOp::Print(string.to_owned()));
    }

    /// Writes `text` with its first character on `position`.
    fn print_at(screen: &mut Screen, position: Position, text: &str)
        ensures
            final(screen)@ == old(screen)@ + text_at(
                position.col as int,
                position.row as int,
                text@,
            ),
    {
        Self::move_caret_to(screen, position);
        Self::print(screen, text);
        assert(screen@ =~= old(screen)@ + text_at(
            position.col as int,
            position.row as int,
            text@,
        ));
    }

    /// Draws the empty gallows, row by row from the top of the screen.
    pub fn print_gallows(&self, screen: &mut Screen)
        requires
            self.fits(),
        ensures
            final(screen)@ == old(screen)@ + gallows(self.padding as int, GALLOWS_ROWS as nat),
    {
        let mut row: usize = 0;
        assert(screen@ =~= old(screen)@ + gallows(self.padding as int, 0));
        while row < GALLOWS_ROWS
            invariant
                self.fits(),
                row <= GALLOWS_ROWS,
                screen@ == old(screen)@ + gallows(self.padding as int, row as nat),
            decreases GALLOWS_ROWS - row,
        {
            let ghost before = screen@;
            Self::print_at(
                screen,
                Position { col: self.padding + GALLOWS_INDENT, row },
                gallows_row(row),
            );
            row += 1;
            assert(screen@ =~= old(screen)@ + gallows(self.padding as int, row as nat));
        }
    }

    pub fn print_head(&self, screen: &mut Screen)
        requires
            self.fits(),
        ensures
            final(screen)@ == old(screen)@ + limb(self.padding as int, 0),
    {
        Self::print_at(screen, Position { col: self.padding + 9, row: 3 }, "O");
    }

    pub fn print_torso(&self, screen: &mut Screen)
        requires
            self.fits(),
        ensures
            final(screen)@ == old(screen)@ + limb(self.padding as int, 1),
    {
        Self::print_at(screen, Position { col: self.padding + 9, row: 4 }, "|");
    }

    pub fn print_left_arm(&self, screen: &mut Screen)
        requires
            self.fits(),
        ensures
            final(screen)@ == old(screen)@ + limb(self.padding as int, 2),
    {
        Self::print_at(screen, Position { col: self.padding + 8, row: 4 }, "/");
    }

    pub fn print_right_arm(&self, screen: &mut Screen)
        requires
            self.fits(),
        ensures
            final(screen)@ == old(screen)@ + limb(self.padding as int, 3),
    {
        Self::print_at(screen, Position { col: self.padding + 10, row: 4 }, "\\");
    }

    pub fn print_left_leg(&self, screen: &mut Screen)
        requires
            self.fits(),
        ensures
            final(screen)@ == old(screen)@ + limb(self.padding as int, 4),
    {
        Self::print_at(screen, Position { col: self.padding + 8, row: 5 }, "/");
    }

    pub fn print_right_leg(&self, screen: &mut Screen)
        requires
            self.fits(),
        ensures
            final(screen)@ == old(screen)@ + limb(self.padding as int, 5),
    {
        Self::print_at(screen, Position { col: self.padding + 10, row: 5 }, "\\");
    }

    /// Marks the end of a frame: what was queued is to be sent as one batch.
    pub fn execute(screen: &mut Screen)
        ensures
            final(screen)@ == old(screen)@.push(Draw::Flush),
    {
        screen.queue(DrawOp::Flush);
    }
}

} // verus!
