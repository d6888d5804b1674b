use vstd::prelude::*;
use crate::board::Color;
use crate::game::MoveError;

verus! {

pub const W_KING: char = '♔';

pub const W_QUEEN: char = '♕';

pub const W_ROOK: char = '♖';

pub const W_BISHOP: char = '♗';

pub const W_KNIGHT: char = '♘';

pub const W_PAWN: char = '♙';

pub const B_KING: char = '♚';

pub const B_QUEEN: char = '♛';

pub const B_ROOK: char = '♜';

pub const B_BISHOP: char = '♝';

pub const B_KNIGHT: char = '♞';

pub const B_PAWN: char = '♟';

/// The six kinds of chess piece.
#[derive(Clone, Copy, Debug, PartialEq, Eq, Structural, Hash)]
pub enum PieceType {
    Pawn,
    Bishop,
    Knight,
    Rook,
    Queen,
    King,
}

impl PieceType {
    /// The piece kind that the first character of a move announces: a file
    /// letter starts a pawn move, `N`, `B`, `R`, `Q`, `K` name a piece, and `O`
    /// starts a castling token, which is a king's move.
    pub open spec fn announced_by(c: char) -> Result<PieceType, MoveError> {
        if c == 'a' || c == 'b' || c == 'c' || c == 'd' || c == 'e' || c == 'f' || c == 'g' || c
            == 'h' {
            Ok(PieceType::Pawn)
        } else if c == 'N' {
            Ok(PieceType::Knight)
        } else if c == 'B' {
            Ok(PieceType::Bishop)
        } else if c == 'R' {
            Ok(PieceType::Rook)
        } else if c == 'Q' {
            Ok(PieceType::Queen)
        } else if c == 'K' || c == 'O' {
            Ok(PieceType::King)
        } else {
            Err(MoveError::Notation)
        }
    }

    /// The piece kind that a promotion letter names: a pawn is promoted to a
    /// knight, bishop, rook or queen.
    pub open spec fn promoted_by(c: char) -> Result<PieceType, MoveError> {
        if c == 'N' {
            Ok(PieceType::Knight)
        } else if c == 'B' {
            Ok(PieceType::Bishop)
        } else if c == 'R' {
            Ok(PieceType::Rook)
        } else if c == 'Q' {
            Ok(PieceType::Queen)
        } else {
            Err(MoveError::Notation)
        }
    }

    /// Whether a pawn may be promoted to this kind.
    pub open spec fn is_promotion_target(self) -> bool {
        self == PieceType::Knight || self == PieceType::Bishop || self == PieceType::Rook || self
            == PieceType::Queen
    }

    /// Reads a promotion letter: `N`, `B`, `R` or `Q`.
    pub fn promotion_from(c: char) -> (r: Result<PieceType, MoveError>)
        ensures
            r == PieceType::promoted_by(c),
            r matches Ok(kind) ==> kind.is_promotion_target(),
    {
        match c {
            'N' => Ok(PieceType::Knight),
            'B' => Ok(PieceType::Bishop),
            'R' => Ok(PieceType::Rook),
            'Q' => Ok(PieceType::Queen),
            _ => Err(MoveError::Notation),
        }
    }
}

impl TryFrom<char> for PieceType {
    type Error = MoveError;

    /// Reads the piece kind that the first character of a move announces.
    fn try_from(value: char) -> (r: Result<PieceType, MoveError>)
        ensures
            r == PieceType::announced_by(value),
    {
        match value {
            'a' | 'b' | 'c' | 'd' | 'e' | 'f' | 'g' | 'h' => Ok(PieceType::Pawn),
            'N' => Ok(PieceType::Knight),
            'B' => Ok(PieceType::Bishop),
            'R' => Ok(PieceType::Rook),
            'Q' => Ok(PieceType::Queen),
            'K' => Ok(PieceType::King),
            'O' => Ok(PieceType::King),
            _ => Err(MoveError::Notation),
        }
    }
}

impl vstd::std_specs::convert::TryFromSpecImpl<char> for PieceType {
    open spec fn obeys_try_from_spec() -> bool {
        true
    }

    open spec fn try_from_spec(value: char) -> Result<PieceType, MoveError> {
        PieceType::announced_by(value)
    }
}

/// A piece: which side it belongs to and what kind it is.
#[derive(Clone, Copy, Debug, PartialEq, Eq, Structural, Hash)]
pub struct Piece {
    pub color: Color,
    pub piece_type: PieceType,
}

impl Piece {
    /// The glyph that the piece is drawn with: one per side and kind.
    pub open spec fn glyph(self) -> char {
        match self.color {
            Color::White => match self.piece_type {
                PieceType::Pawn => W_PAWN,
                PieceType::Bishop => W_BISHOP,
                PieceType::Knight => W_KNIGHT,
                PieceType::Rook => W_ROOK,
                PieceType::Queen => W_QUEEN,
                PieceType::King => W_KING,
            },
            Color::Black => match self.piece_type {
                PieceType::Pawn => B_PAWN,
                PieceType::Bishop => B_BISHOP,
                PieceType::Knight => B_KNIGHT,
                PieceType::Rook => B_ROOK,
                PieceType::Queen => B_QUEEN,
                PieceType::King => B_KING,
            },
        }
    }

    /// The glyph that the piece is drawn with.
    pub fn char(&self) -> (glyph: char)
        ensures
            glyph == self.glyph(),
    {
        match self.color {
            Color::White => match self.piece_type {
                PieceType::Pawn => W_PAWN,
                PieceType::Bishop => W_BISHOP,
                PieceType::Knight => W_KNIGHT,
                PieceType::Rook => W_ROOK,
                PieceType::Queen => W_QUEEN,
                PieceType::King => W_KING,
            },
            Color::Black => match self.piece_type {
                PieceType::Pawn => B_PAWN,
                PieceType::Bishop => B_BISHOP,
                PieceType::Knight => B_KNIGHT,
                PieceType::Rook => B_ROOK,
                PieceType::Queen => B_QUEEN,
                PieceType::King => B_KING,
            },
        }
    }

    /// A piece of the given side and kind.
    pub fn new(color: Color, piece_type: PieceType) -> (piece: Piece)
        ensures
            piece == (Piece { color, piece_type }),
    {
        Piece { color, piece_type }
    }

    /// The side that the piece belongs to.
    pub fn color(&self) -> (color: Color)
        ensures
            color == self.color,
    {
        self.color
    }
}

} // verus!
