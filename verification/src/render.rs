//! Drawing the board and its squares as text.

use vstd::prelude::*;
use vstd::string::StringExecFns;
use crate::board::{Board, BoardPerspective, Square};
use crate::text::{decimal, decimal_string};

verus! {

/// Which of the board's ranks is drawn as line `line`, counting from the top:
/// White sees the eighth rank on top, Black the first.
pub open spec fn rank_drawn(perspective: BoardPerspective, line: int) -> int {
    match perspective {
        BoardPerspective::White => 7 - line,
        BoardPerspective::Black => line,
    }
}

/// Which of a rank's squares is drawn in column `column`, counting from the
/// left: White sees the a-file on the left, Black the h-file.
pub open spec fn file_drawn(perspective: BoardPerspective, column: int) -> int {
    match perspective {
        BoardPerspective::White => column,
        BoardPerspective::Black => 7 - column,
    }
}

/// The line of file letters under the board.
pub open spec fn file_letters(perspective: BoardPerspective) -> Seq<char> {
    match perspective {
        BoardPerspective::White => "abcdefgh"@,
        BoardPerspective::Black => "hgfedcba"@,
    }
}

impl Square {
    /// The square described on four lines: number, glyph, name and shade.
    pub open spec fn description(self) -> Seq<char> {
        "Index: "@ + decimal(self.index as nat) + "\nChar: "@.push(self.glyph()) + "\nCoord: "@
            + self.coordinate.name() + "\nColor: "@ + self.color.name()
    }

    /// Describes the square on four lines: number, glyph, name and shade.
    pub fn to_string(&self) -> (text: String)
        ensures
            text@ == self.description(),
    {
        let mut text = "Index: ".to_owned();
        text.append(decimal_string(self.index).as_str());
        text.append("\nChar: ");
        text.push(self.char());
        text.append("\nCoord: ");
        text.append(self.coordinate.to_string().as_str());
        text.append("\nColor: ");
        text.append(self.color.to_string().as_str());
        proof {
            assert(text@ =~= self.description());
        }
        text
    }
}

impl Board {
    /// The glyphs of the first `columns` squares of a rank, as drawn.
    pub open spec fn glyphs(&self, perspective: BoardPerspective, rank: int, columns: nat) -> Seq<
        char,
    >
        decreases columns,
    {
        if columns == 0 {
            Seq::empty()
        } else {
            self.glyphs(perspective, rank, (columns - 1) as nat).push(
                self.squares[rank][file_drawn(perspective, columns - 1)].glyph(),
            )
        }
    }

    /// One rank as a line of text: its digit, a bar, its eight squares, a bar.
    pub open spec fn line(&self, perspective: BoardPerspective, rank: int) -> Seq<char> {
        seq![self.squares[rank][0].coordinate.rank.digit(), '▕'] + self.glyphs(
            perspective,
            rank,
            8,
        ) + "▏\n"@
    }

    /// The first `lines` lines of the board, as drawn.
    pub open spec fn lines(&self, perspective: BoardPerspective, lines: nat) -> Seq<char>
        decreases lines,
    {
        if lines == 0 {
            Seq::empty()
        } else {
            self.lines(perspective, (lines - 1) as nat) + self.line(
                perspective,
                rank_drawn(perspective, lines - 1),
            )
        }
    }

    /// The board as text: a border, the eight ranks, a border, the files.
    pub open spec fn drawing(&self, perspective: BoardPerspective) -> Seq<char> {
        "  ▁▁▁▁▁▁▁▁\n"@ + self.lines(perspective, 8) + "  ▔▔▔▔▔▔▔▔\n"@ + "  "@ + file_letters(
            perspective,
        ) + "\n"@
    }

    /// Draws one rank as a line of text.
    fn line_string(&self, perspective: BoardPerspective, rank: usize) -> (text: String)
        requires
            rank < 8,
        ensures
            text@ == self.line(perspective, rank as int),
    {
        let mut text = String::new();
        text.push(self.squares[rank][0].coordinate.rank.into());
        text.push('▕');
        let ghost head = text@;
        let mut column: usize = 0;
        while column < 8
            invariant
                rank < 8,
                column <= 8,
                head == seq![self.squares[rank as int][0].coordinate.rank.digit(), '▕'],
                text@ == head + self.glyphs(perspective, rank as int, column as nat),
            decreases 8 - column,
        {
            let file = match perspective {
                BoardPerspective::White => column,
                BoardPerspective::Black => 7 - column,
            };
            text.push(self.squares[rank][file].char());
            column += 1;
            proof {
                assert(text@ =~= head + self.glyphs(perspective, rank as int, column as nat));
            }
        }
        text.append("▏\n");
        text
    }

    /// Draws the board as `perspective` sees it.
    pub fn to_string(&self, perspective: BoardPerspective) -> (text: String)
        ensures
            text@ == self.drawing(perspective),
    {
        let mut text = "  ▁▁▁▁▁▁▁▁\n".to_owned();
        let mut line: usize = 0;
        while line < 8
            invariant
                line <= 8,
                text@ == "  ▁▁▁▁▁▁▁▁\n"@ + self.lines(perspective, line as nat),
            decreases 8 - line,
        {
            let rank = match perspective {
                BoardPerspective::White => 7 - line,
                BoardPerspective::Black => line,
            };
            text.append(self.line_string(perspective, rank).as_str());
            line += 1;
            proof {
                assert(text@ =~= "  ▁▁▁▁▁▁▁▁\n"@ + self.lines(perspective, line as nat));
            }
        }
        text.append("  ▔▔▔▔▔▔▔▔\n");
        text.append("  ");
        match perspective {
            BoardPerspective::White => text.append("abcdefgh"),
            BoardPerspective::Black => text.append("hgfedcba"),
        }
        text.append("\n");
        text
    }
}

} // verus!
