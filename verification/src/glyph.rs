//! The block letters that the clock is drawn with.
//!
//! A letter is seven rows high and five characters wide. The letters stand
//! side by side in seven template rows: the ten digits first, then one
//! narrow mark that every separator shares.

use vstd::prelude::*;

verus! {

/// How many rows of text a block letter takes.
pub const ROWS: usize = 7;

/// How many characters wide a block letter is.
pub const CELL_WIDTH: usize = 5;

/// How many letters a template row holds.
pub const COLUMNS: usize = 11;

/// The column of the mark that stands for everything that is no digit.
pub const SEPARATOR: usize = 10;

/// The template rows, top to bottom.
pub const ROW_0: &'static str = " ┏━┓   ╻   ┏━┓  ┏━┓  ╻ ╻  ┏━┓  ┏    ┏━┓  ┏━┓  ┏━┓      ";

pub const ROW_1: &'static str = " ┃ ┃   ┃     ┃    ┃  ┃ ┃  ┃    ┃      ┃  ┃ ┃  ┃ ┃   ╻  ";

pub const ROW_2: &'static str = " ┃ ┃   ┃     ┃    ┃  ┃ ┃  ┃    ┃      ┃  ┃ ┃  ┃ ┃      ";

pub const ROW_3: &'static str = " ┃ ┃   ┃   ┏━┛  ┣━┫  ┗━┫  ┗━┓  ┣━┓    ┃  ┣━┫  ┗━┫      ";

pub const ROW_4: &'static str = " ┃ ┃   ┃   ┃      ┃    ┃    ┃  ┃ ┃    ┃  ┃ ┃    ┃      ";

pub const ROW_5: &'static str = " ┃ ┃   ┃   ┃      ┃    ┃    ┃  ┃ ┃    ┃  ┃ ┃    ┃   ╹  ";

pub const ROW_6: &'static str = " ┗━┛   ╹   ┗━━  ┗━┛    ╹  ┗━┛  ┗━┛    ╹  ┗━┛  ┗━┛      ";

/// The template row with the given number, counted from the top.
pub open spec fn template(row: int) -> Seq<char> {
    if row == 0 {
        ROW_0@
    } else if row == 1 {
        ROW_1@
    } else if row == 2 {
        ROW_2@
    } else if row == 3 {
        ROW_3@
    } else if row == 4 {
        ROW_4@
    } else if row == 5 {
        ROW_5@
    } else {
        ROW_6@
    }
}

/// The column of the letter that stands for a character: a digit has the
/// column of its value, anything else the separator's.
pub open spec fn column(c: char) -> int {
    if '0' <= c && c <= '9' {
        c as int - '0' as int
    } else {
        SEPARATOR as int
    }
}

/// One row of one letter: the five characters of the template row that
/// belong to the column.
pub open spec fn cell(row: int, col: int) -> Seq<char> {
    template(row).subrange(CELL_WIDTH * col, CELL_WIDTH * col + CELL_WIDTH)
}

/// One row of a text in block letters: the cells of its characters, left
/// to right.
pub open spec fn row_text(row: int, text: Seq<char>) -> Seq<char>
    decreases text.len(),
{
    if text.len() == 0 {
        Seq::empty()
    } else {
        row_text(row, text.drop_last()) + cell(row, column(text.last()))
    }
}

/// Every template row holds eleven letters of five characters.
pub proof fn lemma_template_len(row: int)
    requires
        0 <= row < ROWS,
    ensures
        template(row).len() == COLUMNS * CELL_WIDTH,
{
    reveal_strlit(" ┏━┓   ╻   ┏━┓  ┏━┓  ╻ ╻  ┏━┓  ┏    ┏━┓  ┏━┓  ┏━┓      ");
    reveal_strlit(" ┃ ┃   ┃     ┃    ┃  ┃ ┃  ┃    ┃      ┃  ┃ ┃  ┃ ┃   ╻  ");
    reveal_strlit(" ┃ ┃   ┃     ┃    ┃  ┃ ┃  ┃    ┃      ┃  ┃ ┃  ┃ ┃      ");
    reveal_strlit(" ┃ ┃   ┃   ┏━┛  ┣━┫  ┗━┫  ┗━┓  ┣━┓    ┃  ┣━┫  ┗━┫      ");
    reveal_strlit(" ┃ ┃   ┃   ┃      ┃    ┃    ┃  ┃ ┃    ┃  ┃ ┃    ┃      ");
    reveal_strlit(" ┃ ┃   ┃   ┃      ┃    ┃    ┃  ┃ ┃    ┃  ┃ ┃    ┃   ╹  ");
    reveal_strlit(" ┗━┛   ╹   ┗━━  ┗━┛    ╹  ┗━┛  ┗━┛    ╹  ┗━┛  ┗━┛      ");
}

/// Every character has a letter, and every row of that letter is five
/// characters wide: no character is drawn as nothing.
pub proof fn lemma_every_char_has_a_letter(row: int, c: char)
    requires
        0 <= row < ROWS,
    ensures
        0 <= column(c) < COLUMNS,
        cell(row, column(c)).len() == CELL_WIDTH,
{
    lemma_template_len(row);
}

/// A row of block letters is five times as long as the text it shows.
pub proof fn lemma_row_text_len(row: int, text: Seq<char>)
    requires
        0 <= row < ROWS,
    ensures
        row_text(row, text).len() == CELL_WIDTH * text.len(),
    decreases text.len(),
{
    if text.len() > 0 {
        lemma_row_text_len(row, text.drop_last());
        lemma_every_char_has_a_letter(row, text.last());
    }
}

/// Each character of a text has five columns of the row to itself, and they
/// hold its letter.
pub proof fn lemma_row_text_cells(row: int, text: Seq<char>, i: int)
    requires
        0 <= row < ROWS,
        0 <= i < text.len(),
    ensures
        row_text(row, text).subrange(CELL_WIDTH * i, CELL_WIDTH * i + CELL_WIDTH) == cell(
            row,
            column(text[i]),
        ),
    decreases text.len(),
{
    let before = row_text(row, text.drop_last());
    let last = cell(row, column(text.last()));
    lemma_row_text_len(row, text.drop_last());
    lemma_every_char_has_a_letter(row, text.last());
    if i == text.len() - 1 {
        assert((before + last).subrange(CELL_WIDTH * i, CELL_WIDTH * i + CELL_WIDTH) =~= last);
    } else {
        lemma_row_text_cells(row, text.drop_last(), i);
        assert((before + last).subrange(CELL_WIDTH * i, CELL_WIDTH * i + CELL_WIDTH)
            =~= before.subrange(CELL_WIDTH * i, CELL_WIDTH * i + CELL_WIDTH));
    }
}

/// The column of the letter that stands for `c`.
pub fn column_of(c: char) -> (col: usize)
    ensures
        col == column(c),
        col < COLUMNS,
{
    if '0' <= c && c <= '9' {
        (c as u8 - '0' as u8) as usize
    } else {
        SEPARATOR
    }
}

fn template_row(row: usize) -> (line: &'static str)
    requires
        row < ROWS,
    ensures
        line@ == template(row as int),
        line@.len() == COLUMNS * CELL_WIDTH,
{
    proof {
        lemma_template_len(row as int);
    }
    match row {
        0 => ROW_0,
        1 => ROW_1,
        2 => ROW_2,
        3 => ROW_3,
        4 => ROW_4,
        5 => ROW_5,
        _ => ROW_6,
    }
}

/// One row of the letter in the given column.
pub fn glyph(row: usize, col: usize) -> (g: &'static str)
    requires
        row < ROWS,
        col < COLUMNS,
    ensures
        g@ == cell(row as int, col as int),
{
    template_row(row).substring_char(CELL_WIDTH * col, CELL_WIDTH * col + CELL_WIDTH)
}

/// One row of `text` in block letters.
pub fn render_row(row: usize, text: &str) -> (line: String)
    requires
        row < ROWS,
    ensures
        line@ == row_text(row as int, text@),
{
    let mut line = String::new();
    for c in it: text.chars()
        invariant
            row < ROWS,
            it.seq() == text@,
            line@ == row_text(row as int, text@.take(it.index())),
    {
        assert(text@.take(it.index() + 1).drop_last() =~= text@.take(it.index()));
        line.append(glyph(row, column_of(c)));
    }
    assert(text@.take(text@.len() as int) =~= text@);
    line
}

} // verus!
