use hangman::game::board::{DrawOp, GameBoard, Position, Screen};
use hangman::game::HangmanGame;

fn at(col: u16, row: u16) -> DrawOp {
    DrawOp::MoveTo { col, row }
}

fn text(s: &str) -> DrawOp {
    DrawOp::Print(s.to_string())
}

fn gallows(padding: u16) -> Vec<DrawOp> {
    let lines = ["", "  +---+", "  |   |", "  |", "  |", "  |", "  |", "=========="];
    let mut ops = Vec::new();
    for (row, line) in lines.iter().enumerate() {
        ops.push(at(padding + 3, row as u16));
        ops.push(text(line));
    }
    ops
}

fn limbs(padding: u16, parts: usize) -> Vec<DrawOp> {
    let all = [
        (padding + 9, 3, "O"),
        (padding + 9, 4, "|"),
        (padding + 8, 4, "/"),
        (padding + 10, 4, "\\"),
        (padding + 8, 5, "/"),
        (padding + 10, 5, "\\"),
    ];
    let mut ops = Vec::new();
    for (col, row, glyph) in all.iter().take(parts) {
        ops.push(at(*col, *row));
        ops.push(text(glyph));
    }
    ops
}

#[test]
fn new_screen_is_empty() {
    assert!(Screen::new().ops.is_empty());
}

#[test]
fn queue_appends_in_order() {
    let mut screen = Screen::new();
    screen.queue(DrawOp::Clear);
    screen.queue(text("x"));
    screen.queue(DrawOp::Flush);
    assert_eq!(screen.ops, vec![DrawOp::Clear, text("x"), DrawOp::Flush]);
}

#[test]
fn initialize_clears_homes_and_flushes() {
    let mut screen = Screen::new();
    GameBoard::initialize(&mut screen);
    assert_eq!(screen.ops, vec![DrawOp::Clear, at(0, 0), DrawOp::Flush]);
}

#[test]
fn terminate_flushes() {
    let mut screen = Screen::new();
    GameBoard::print(&mut screen, "bye");
    GameBoard::terminate(&mut screen);
    assert_eq!(screen.ops, vec![text("bye"), DrawOp::Flush]);
}

#[test]
fn basic_commands_queue_one_op_each() {
    let mut screen = Screen::new();
    GameBoard::clear_screen(&mut screen);
    GameBoard::move_caret_to(&mut screen, Position { col: 7, row: 11 });
    GameBoard::reset_caret(&mut screen);
    GameBoard::print(&mut screen, "hello");
    GameBoard::execute(&mut screen);
    assert_eq!(
        screen.ops,
        vec![DrawOp::Clear, at(7, 11), at(0, 0), text("hello"), DrawOp::Flush]
    );
}

#[test]
fn caret_coordinates_keep_their_low_16_bits() {
    let mut screen = Screen::new();
    GameBoard::move_caret_to(&mut screen, Position { col: 65535, row: 65536 });
    GameBoard::move_caret_to(&mut screen, Position { col: 65536 + 17, row: 3 * 65536 + 4 });
    assert_eq!(screen.ops, vec![at(65535, 0), at(17, 4)]);
}

#[test]
fn gallows_is_drawn_row_by_row() {
    let board = GameBoard { padding: 5 };
    let mut screen = Screen::new();
    board.print_gallows(&mut screen);
    assert_eq!(screen.ops.len(), 16);
    assert_eq!(screen.ops, gallows(5));
    assert_eq!(screen.ops[0], at(8, 0));
    assert_eq!(screen.ops[1], text(""));
    assert_eq!(screen.ops[14], at(8, 7));
    assert_eq!(screen.ops[15], text("=========="));
}

#[test]
fn each_limb_has_its_cell() {
    let board = GameBoard { padding: 4 };
    let mut screen = Screen::new();
    board.print_head(&mut screen);
    board.print_torso(&mut screen);
    board.print_left_arm(&mut screen);
    board.print_right_arm(&mut screen);
    board.print_left_leg(&mut screen);
    board.print_right_leg(&mut screen);
    assert_eq!(
        screen.ops,
        vec![
            at(13, 3),
            text("O"),
            at(13, 4),
            text("|"),
            at(12, 4),
            text("/"),
            at(14, 4),
            text("\\"),
            at(12, 5),
            text("/"),
            at(14, 5),
            text("\\"),
        ]
    );
    assert_eq!(screen.ops, limbs(4, 6));
}

#[test]
fn drawing_keeps_what_was_queued_before() {
    let board = GameBoard { padding: 0 };
    let mut screen = Screen::new();
    GameBoard::print(&mut screen, "before");
    board.print_head(&mut screen);
    assert_eq!(screen.ops, vec![text("before"), at(9, 3), text("O")]);
}

#[test]
fn body_has_one_part_per_lost_life() {
    let wrong = ['q', 'w', 'e', 'r', 't', 'y'];
    for lost in 0..=6usize {
        let mut game = HangmanGame::new("ox");
        for c in wrong.iter().take(lost) {
            game.update_guesses(*c);
        }
        assert_eq!(game.lives() as usize, 6 - lost);
        let mut screen = Screen::new();
        game.print_body(&mut screen);
        assert_eq!(screen.ops.len(), 2 * lost);
        assert_eq!(screen.ops, limbs(2, lost));
    }
}

#[test]
fn body_is_drawn_the_same_every_time() {
    let mut game = HangmanGame::new("ox");
    game.update_guesses('q');
    game.update_guesses('w');
    let mut first = Screen::new();
    game.print_body(&mut first);
    let mut second = Screen::new();
    game.print_body(&mut second);
    assert_eq!(first.ops, second.ops);
    assert_eq!(first.ops, limbs(2, 2));
}

#[test]
fn guess_list_is_comma_separated() {
    let mut game = HangmanGame::new("cat");
    let mut screen = Screen::new();
    game.print_guess_list(&mut screen);
    assert_eq!(screen.ops, vec![at(1, 8), text("Guesses"), at(2, 9), text("")]);

    game.update_guesses('t');
    let mut screen = Screen::new();
    game.print_guess_list(&mut screen);
    assert_eq!(screen.ops, vec![at(1, 8), text("Guesses"), at(2, 9), text("t")]);

    game.update_guesses('Z');
    game.update_guesses('c');
    let mut screen = Screen::new();
    game.print_guess_list(&mut screen);
    assert_eq!(screen.ops, vec![at(1, 8), text("Guesses"), at(2, 9), text("t, z, c")]);
}

#[test]
fn hidden_phrase_is_written_on_its_row() {
    let mut game = HangmanGame::new("a b");
    game.update_guesses('a');
    let mut screen = Screen::new();
    game.issue_hidden_phrase(&mut screen);
    assert_eq!(screen.ops, vec![at(1, 4), text("a _")]);
}

#[test]
fn prompt_leaves_the_caret_behind_it() {
    let mut screen = Screen::new();
    HangmanGame::prompt_guess(&mut screen);
    assert_eq!(screen.ops, vec![at(1, 2), text("Guess: "), at(8, 2)]);
}

#[test]
fn frame_is_one_flushed_batch() {
    let mut game = HangmanGame::new("cat");
    game.update_guesses('t');
    game.update_guesses('z');
    let mut screen = Screen::new();
    game.draw_frame(&mut screen);

    let mut expected = vec![DrawOp::Clear, at(0, 0)];
    expected.extend(gallows(3));
    expected.extend(limbs(3, 1));
    expected.extend(vec![at(1, 8), text("Guesses"), at(2, 9), text("t, z")]);
    expected.extend(vec![at(1, 4), text("__t")]);
    expected.extend(vec![at(1, 2), text("Guess: "), at(8, 2)]);
    expected.push(DrawOp::Flush);
    assert_eq!(screen.ops, expected);

    let flushes = screen.ops.iter().filter(|op| **op == DrawOp::Flush).count();
    assert_eq!(flushes, 1);
    assert_eq!(screen.ops.last(), Some(&DrawOp::Flush));
}

#[test]
fn goodbye_congratulates_the_winner() {
    let mut game = HangmanGame::new("hi");
    game.update_guesses('x');
    game.update_guesses('h');
    game.update_guesses('i');
    assert!(game.should_quit());
    let mut screen = Screen::new();
    game.issue_goodbye(&mut screen);
    assert_eq!(
        screen.ops,
        vec![
            at(1, 4),
            text("hi"),
            DrawOp::Flush,
            at(1, 10),
            text("Congratulations, you won Rusty Hangman!"),
        ]
    );
}

#[test]
fn goodbye_reveals_the_phrase_to_the_loser() {
    let mut game = HangmanGame::new("ox");
    for c in ['o', 'q', 'w', 'e', 'r', 't', 'y'] {
        game.update_guesses(c);
    }
    assert!(game.should_quit());
    let mut screen = Screen::new();
    game.issue_goodbye(&mut screen);

    let mut expected = vec![at(1, 4), text("o_"), DrawOp::Flush];
    expected.extend(limbs(2, 6));
    expected.extend(vec![
        at(1, 4),
        text("ox"),
        at(1, 10),
        text("You were not able to figure out the secret phrase :(\n"),
        text("\r\nThank you for playing Rusty Hangman.\n"),
    ]);
    assert_eq!(screen.ops, expected);
    assert!(!screen.ops.contains(&text("Congratulations, you won Rusty Hangman!")));
}
