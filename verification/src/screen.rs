//! What is drawn, as frames: lists of terminal commands that a front end
//! carries out in order and flushes once.

use crate::clock::{clock_text, format_seconds};
use crate::cube::{Face, Move};
use crate::glyph::{render_row, row_text, ROWS};
use crate::scramble::{generate_scramble, is_scramble};
use vstd::prelude::*;

verus! {

/// The line under the scramble.
pub const HINT: &'static str = "Press space to start the timer, Q to quit";

/// The line under the session's average.
pub const FAREWELL: &'static str = "Your average for this session";

/// A colour of the terminal.
#[derive(Clone, Copy, Debug, PartialEq, Eq, Structural)]
pub enum Color {
    Green,
    Blue,
    Red,
    White,
    Yellow,
    Magenta,
    Rgb { r: u8, g: u8, b: u8 },
}

/// One thing for the terminal to do.
#[derive(Debug, PartialEq, Eq)]
pub enum Command {
    /// Hide the cursor.
    HideCursor,
    /// Remember where the cursor is.
    SavePosition,
    /// Put the cursor back where it was last remembered.
    RestorePosition,
    /// Move the cursor to the given column of its line.
    MoveToColumn(u16),
    /// Move the cursor to the start of the line that many lines down.
    MoveToNextLine(u16),
    /// Move the cursor that many lines down, in its column.
    MoveDown(u16),
    /// Clear the screen from the cursor down.
    ClearBelow,
    /// Write what follows in the given colour.
    SetColor(Color),
    /// Write what follows in the terminal's own colour.
    ResetColor,
    /// Write a text at the cursor, in a colour of its own if one is
    /// given, and in bold if asked.
    Print { text: String, color: Option<Color>, bold: bool },
}

/// A command with its text as a sequence of characters.
pub enum CommandView {
    HideCursor,
    SavePosition,
    RestorePosition,
    MoveToColumn(u16),
    MoveToNextLine(u16),
    MoveDown(u16),
    ClearBelow,
    SetColor(Color),
    ResetColor,
    Print { text: Seq<char>, color: Option<Color>, bold: bool },
}

impl View for Command {
    type V = CommandView;

    open spec fn view(&self) -> CommandView {
        match *self {
            Command::HideCursor => CommandView::HideCursor,
            Command::SavePosition => CommandView::SavePosition,
            Command::RestorePosition => CommandView::RestorePosition,
            Command::MoveToColumn(column) => CommandView::MoveToColumn(column),
            Command::MoveToNextLine(lines) => CommandView::MoveToNextLine(lines),
            Command::MoveDown(lines) => CommandView::MoveDown(lines),
            Command::ClearBelow => CommandView::ClearBelow,
            Command::SetColor(color) => CommandView::SetColor(color),
            Command::ResetColor => CommandView::ResetColor,
            Command::Print { text, color, bold } => CommandView::Print { text: text@, color, bold },
        }
    }
}

impl DeepView for Command {
    type V = CommandView;

    open spec fn deep_view(&self) -> CommandView {
        self@
    }
}

/// The colour that a face's moves are written in.
pub open spec fn color_of(face: Face) -> Color {
    match face {
        Face::Front => Color::Green,
        Face::Back => Color::Blue,
        Face::Right => Color::Red,
        Face::Left => Color::Rgb { r: 200, g: 130, b: 50 },
        Face::Up => Color::White,
        Face::Down => Color::Yellow,
    }
}

/// The first `rows` rows of a text in block letters: each row printed in
/// magenta, the cursor then taken to the next line.
pub open spec fn clock_rows(text: Seq<char>, rows: nat) -> Seq<CommandView>
    decreases rows,
{
    if rows == 0 {
        Seq::empty()
    } else {
        clock_rows(text, (rows - 1) as nat) + seq![
            CommandView::Print {
                text: row_text(rows - 1, text),
                color: Some(Color::Magenta),
                bold: false,
            },
            CommandView::MoveToNextLine(1),
        ]
    }
}

/// The frame that shows a text in block letters. The cursor is hidden, put
/// in the first column and remembered; the seven rows follow; at the end
/// the cursor is back where the frame began, so that the next frame is
/// drawn over this one.
pub open spec fn clock_frame(text: Seq<char>) -> Seq<CommandView> {
    seq![CommandView::HideCursor, CommandView::MoveToColumn(0), CommandView::SavePosition]
        + clock_rows(text, ROWS as nat) + seq![CommandView::RestorePosition]
}

/// The moves of a scramble as they are written: each in the colour of its
/// face, in bold, with a space behind it.
pub open spec fn scramble_line(moves: Seq<Move>) -> Seq<CommandView>
    decreases moves.len(),
{
    if moves.len() == 0 {
        Seq::empty()
    } else {
        scramble_line(moves.drop_last()) + seq![
            CommandView::SetColor(color_of(moves.last().face)),
            CommandView::Print { text: moves.last().text().push(' '), color: None, bold: true },
        ]
    }
}

/// The frame of a session that waits for a start: what was on the screen is
/// cleared, the last time stands in block letters, and under it the
/// scramble and the hint. The cursor ends where the frame began.
pub open spec fn ready_frame(last_ms: nat, scramble: Seq<Move>) -> Seq<CommandView> {
    seq![CommandView::ClearBelow, CommandView::SavePosition] + clock_frame(clock_text(last_ms))
        + seq![CommandView::MoveDown(ROWS as u16)] + scramble_line(scramble) + seq![
        CommandView::ResetColor,
        CommandView::MoveToNextLine(1),
        CommandView::Print { text: HINT@, color: None, bold: false },
        CommandView::RestorePosition,
    ]
}

/// The frame that closes a session: the average in block letters, and
/// under it the farewell in bold green.
pub open spec fn summary_frame(average_ms: nat) -> Seq<CommandView> {
    clock_frame(clock_text(average_ms)) + seq![
        CommandView::MoveToNextLine(ROWS as u16),
        CommandView::ClearBelow,
        CommandView::Print { text: FAREWELL@, color: Some(Color::Green), bold: true },
    ]
}

/// The rows of a clock take two commands each: the row's print, then the
/// step to the next line.
pub proof fn lemma_clock_rows_shape(text: Seq<char>, rows: nat, row: int)
    requires
        0 <= row < rows,
    ensures
        clock_rows(text, rows).len() == 2 * rows,
        clock_rows(text, rows)[2 * row] == (CommandView::Print {
            text: row_text(row, text),
            color: Some(Color::Magenta),
            bold: false,
        }),
        clock_rows(text, rows)[2 * row + 1] == CommandView::MoveToNextLine(1),
    decreases rows,
{
    lemma_clock_rows_len(text, (rows - 1) as nat);
    if row < rows - 1 {
        lemma_clock_rows_shape(text, (rows - 1) as nat, row);
    }
}

proof fn lemma_clock_rows_len(text: Seq<char>, rows: nat)
    ensures
        clock_rows(text, rows).len() == 2 * rows,
    decreases rows,
{
    if rows > 0 {
        lemma_clock_rows_len(text, (rows - 1) as nat);
    }
}

/// A clock's frame is eighteen commands long. It begins by hiding the
/// cursor, putting it in the first column and remembering the place; each
/// of the seven rows is printed and followed by a step to the next line;
/// the last command takes the cursor back to the place remembered.
pub proof fn lemma_clock_frame_shape(text: Seq<char>, row: int)
    requires
        0 <= row < ROWS,
    ensures
        clock_frame(text).len() == 18,
        clock_frame(text)[0] == CommandView::HideCursor,
        clock_frame(text)[1] == CommandView::MoveToColumn(0),
        clock_frame(text)[2] == CommandView::SavePosition,
        clock_frame(text)[3 + 2 * row] == (CommandView::Print {
            text: row_text(row, text),
            color: Some(Color::Magenta),
            bold: false,
        }),
        clock_frame(text)[4 + 2 * row] == CommandView::MoveToNextLine(1),
        clock_frame(text)[17] == CommandView::RestorePosition,
{
    lemma_clock_rows_shape(text, ROWS as nat, row);
}

/// A scramble's line takes two commands for each move: the colour of the
/// move's face, then the move in bold with a space behind it.
pub proof fn lemma_scramble_line_shape(moves: Seq<Move>, i: int)
    requires
        0 <= i < moves.len(),
    ensures
        scramble_line(moves).len() == 2 * moves.len(),
        scramble_line(moves)[2 * i] == CommandView::SetColor(color_of(moves[i].face)),
        scramble_line(moves)[2 * i + 1] == (CommandView::Print {
            text: moves[i].text().push(' '),
            color: None,
            bold: true,
        }),
    decreases moves.len(),
{
    lemma_scramble_line_len(moves.drop_last());
    if i < moves.len() - 1 {
        lemma_scramble_line_shape(moves.drop_last(), i);
    }
}

proof fn lemma_scramble_line_len(moves: Seq<Move>)
    ensures
        scramble_line(moves).len() == 2 * moves.len(),
    decreases moves.len(),
{
    if moves.len() > 0 {
        lemma_scramble_line_len(moves.drop_last());
    }
}

/// The colour that a face's moves are written in.
pub fn face_color(face: Face) -> (color: Color)
    ensures
        color == color_of(face),
{
    match face {
        Face::Front => Color::Green,
        Face::Back => Color::Blue,
        Face::Right => Color::Red,
        Face::Left => Color::Rgb { r: 200, g: 130, b: 50 },
        Face::Up => Color::White,
        Face::Down => Color::Yellow,
    }
}

fn emit(frame: &mut Vec<Command>, command: Command)
    ensures
        final(frame).deep_view() == old(frame).deep_view().push(command@),
{
    frame.push(command);
}

fn emit_all(frame: &mut Vec<Command>, commands: Vec<Command>)
    ensures
        final(frame).deep_view() == old(frame).deep_view() + commands.deep_view(),
{
    let mut rest = commands;
    frame.append(&mut rest);
}

/// The frame that shows a text in block letters.
pub fn render_time(time: String) -> (frame: Vec<Command>)
    ensures
        frame.deep_view() == clock_frame(time@),
{
    let text = time.as_str();
    let mut frame: Vec<Command> = Vec::new();
    emit(&mut frame, Command::HideCursor);
    emit(&mut frame, Command::MoveToColumn(0));
    emit(&mut frame, Command::SavePosition);
    let ghost head = frame.deep_view();
    let mut row: usize = 0;
    while row < ROWS
        invariant
            row <= ROWS,
            frame.deep_view() == head + clock_rows(text@, row as nat),
        decreases ROWS - row,
    {
        let line = render_row(row, text);
        emit(&mut frame, Command::Print { text: line, color: Some(Color::Magenta), bold: false });
        emit(&mut frame, Command::MoveToNextLine(1));
        row += 1;
    }
    emit(&mut frame, Command::RestorePosition);
    frame
}

/// The frame that shows a time in milliseconds on the clock.
pub fn clock_screen(ms: u128) -> (frame: Vec<Command>)
    ensures
        frame.deep_view() == clock_frame(clock_text(ms as nat)),
{
    render_time(format_seconds(ms))
}

/// The frame of a session that waits for a start, with the last time in
/// milliseconds and the scramble to show.
pub fn ready_screen(last_ms: u64, scramble: &[Move]) -> (frame: Vec<Command>)
    ensures
        frame.deep_view() == ready_frame(last_ms as nat, scramble@),
{
    let mut frame: Vec<Command> = Vec::new();
    emit(&mut frame, Command::ClearBelow);
    emit(&mut frame, Command::SavePosition);
    emit_all(&mut frame, clock_screen(last_ms as u128));
    emit(&mut frame, Command::MoveDown(ROWS as u16));
    let ghost head = frame.deep_view();
    let mut i: usize = 0;
    while i < scramble.len()
        invariant
            i <= scramble.len(),
            frame.deep_view() == head + scramble_line(scramble@.take(i as int)),
        decreases scramble.len() - i,
    {
        let turn = scramble[i];
        let mut text = turn.to_string();
        text.append(" ");
        proof {
            reveal_strlit(" ");
            assert(text@ =~= turn.text().push(' '));
            assert(scramble@.take(i + 1).drop_last() =~= scramble@.take(i as int));
        }
        emit(&mut frame, Command::SetColor(face_color(turn.face)));
        emit(&mut frame, Command::Print { text, color: None, bold: true });
        i += 1;
    }
    assert(scramble@.take(scramble@.len() as int) =~= scramble@);
    emit(&mut frame, Command::ResetColor);
    emit(&mut frame, Command::MoveToNextLine(1));
    emit(&mut frame, Command::Print { text: String::from_str(HINT), color: None, bold: false });
    emit(&mut frame, Command::RestorePosition);
    frame
}

/// A fresh scramble and the frame that shows it.
#[derive(Debug)]
pub struct Screen {
    pub scramble: Vec<Move>,
    pub frame: Vec<Command>,
}

/// The screen of a session that waits for a start: a scramble newly drawn,
/// under the last time in milliseconds.
pub fn init_screen(last_ms: u64) -> (screen: Screen)
    ensures
        is_scramble(screen.scramble@),
        screen.frame.deep_view() == ready_frame(last_ms as nat, screen.scramble@),
{
    let scramble = generate_scramble();
    let frame = ready_screen(last_ms, scramble.as_slice());
    Screen { scramble, frame }
}

/// The frame that closes a session, with its average in milliseconds.
pub fn summary_screen(average_ms: u128) -> (frame: Vec<Command>)
    ensures
        frame.deep_view() == summary_frame(average_ms as nat),
{
    let mut frame = clock_screen(average_ms);
    emit(&mut frame, Command::MoveToNextLine(ROWS as u16));
    emit(&mut frame, Command::ClearBelow);
    emit(
        &mut frame,
        Command::Print { text: String::from_str(FAREWELL), color: Some(Color::Green), bold: true },
    );
    frame
}

} // verus!
