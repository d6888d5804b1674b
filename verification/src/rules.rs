//! The rules of movement, stated over a mathematical picture of the board.

use vstd::prelude::*;
use crate::board::Color;
use crate::coordinate::{Coordinate, File, Rank};
use crate::game::{CastlingRights, Move, MoveError, MoveType};
use crate::pieces::{Piece, PieceType};

verus! {

/// What the rules read of a board: who stands where, and which square, if any,
/// can be captured en passant on the next move.
pub struct Position {
    pub occupants: Map<Coordinate, Option<Piece>>,
    pub en_passant: Option<Coordinate>,
}

/// The rank on which a side's pieces start.
pub open spec fn home_rank(color: Color) -> Rank {
    match color {
        Color::White => Rank::One,
        Color::Black => Rank::Eight,
    }
}

/// The rank on which a side's pawns start.
pub open spec fn pawn_rank(color: Color) -> Rank {
    match color {
        Color::White => Rank::Two,
        Color::Black => Rank::Seven,
    }
}

/// The rank on which a side's pawns are promoted.
pub open spec fn far_rank(color: Color) -> Rank {
    match color {
        Color::White => Rank::Eight,
        Color::Black => Rank::One,
    }
}

/// Files crossed from `from` to `to`; negative towards the a-file.
pub open spec fn file_delta(from: Coordinate, to: Coordinate) -> int {
    to.file.spec_index() - from.file.spec_index()
}

/// Ranks crossed from `from` to `to`; negative towards the first rank.
pub open spec fn rank_delta(from: Coordinate, to: Coordinate) -> int {
    to.rank.spec_index() - from.rank.spec_index()
}

pub open spec fn magnitude(i: int) -> int {
    if i < 0 {
        -i
    } else {
        i
    }
}

/// `k` steps in the direction of `delta`: `k`, `-k` or no step at all.
pub open spec fn towards(delta: int, k: int) -> int {
    if delta > 0 {
        k
    } else if delta < 0 {
        -k
    } else {
        0
    }
}

/// Ranks advanced from `from` to `to`, as `color` sees the board; negative
/// for a retreat.
pub open spec fn advance(from: Coordinate, to: Coordinate, color: Color) -> int {
    match color {
        Color::White => rank_delta(from, to),
        Color::Black => -rank_delta(from, to),
    }
}

/// Whether `to` lies on the rank or the file of `from`.
pub open spec fn straight(from: Coordinate, to: Coordinate) -> bool {
    file_delta(from, to) == 0 || rank_delta(from, to) == 0
}

/// Whether `to` lies on a diagonal through `from`.
pub open spec fn diagonal(from: Coordinate, to: Coordinate) -> bool {
    magnitude(file_delta(from, to)) == magnitude(rank_delta(from, to))
}

/// The number of steps from `from` to `to` along a rank, a file or a diagonal.
pub open spec fn span(from: Coordinate, to: Coordinate) -> int {
    if magnitude(file_delta(from, to)) >= magnitude(rank_delta(from, to)) {
        magnitude(file_delta(from, to))
    } else {
        magnitude(rank_delta(from, to))
    }
}

/// The square `k` steps from `from` on the line towards `to`.
pub open spec fn waypoint(from: Coordinate, to: Coordinate, k: int) -> Result<
    Coordinate,
    MoveError,
> {
    from.shifted(towards(file_delta(from, to), k), towards(rank_delta(from, to), k))
}

/// The square one rank behind `square`, as `color` sees the board.
pub open spec fn behind(square: Coordinate, color: Color) -> Result<Coordinate, MoveError> {
    square.shifted(0, -Rank::heading(color))
}

impl Position {
    /// The piece on `square`, if any.
    pub open spec fn at(self, square: Coordinate) -> Option<Piece> {
        self.occupants[square]
    }

    /// Whether the `k`-th square on the line from `from` towards `to` is empty.
    pub open spec fn vacant(self, from: Coordinate, to: Coordinate, k: int) -> bool {
        match waypoint(from, to, k) {
            Ok(square) => self.at(square) is None,
            Err(_) => false,
        }
    }

    /// Whether every square strictly between `from` and `to` is empty.
    pub open spec fn path_clear(self, from: Coordinate, to: Coordinate) -> bool {
        forall|k: int| 0 < k < span(from, to) ==> #[trigger] self.vacant(from, to, k)
    }

    /// A sliding piece's move: `Invalid` off its lines, `Blocked` when a piece
    /// stands in between.
    pub open spec fn slide(self, m: Move, on_line: bool) -> Result<(), MoveError> {
        if !on_line {
            Err(MoveError::Invalid)
        } else if !self.path_clear(m.from, m.to) {
            Err(MoveError::Blocked)
        } else {
            Ok(())
        }
    }

    /// The pawn's rules.
    ///
    /// A pawn goes one rank forward, or two from its starting rank. It stays
    /// on its file or changes to a neighbouring one. Changing file it must
    /// capture: an enemy piece on the destination, or en passant. Staying on
    /// its file it needs an empty destination. A promotion must end on the far
    /// rank.
    pub open spec fn pawn(self, m: Move, color: Color) -> Result<(), MoveError> {
        let advance = advance(m.from, m.to, color);
        let sideways = magnitude(file_delta(m.from, m.to));
        if !(advance == 1 || (advance == 2 && m.from.rank == pawn_rank(color))) {
            Err(MoveError::Invalid)
        } else if sideways > 1 {
            Err(MoveError::Invalid)
        } else if sideways == 1 && self.at(m.to) is None && self.en_passant != Some(m.to) {
            Err(MoveError::PawnNoCapture)
        } else if sideways == 0 && self.at(m.to) is Some {
            Err(MoveError::Blocked)
        } else if m.move_type == MoveType::Promotion && m.to.rank != far_rank(color) {
            Err(MoveError::PromotionRank)
        } else {
            Ok(())
        }
    }

    /// The knight's rule: two squares one way and one the other; it jumps.
    pub open spec fn knight(self, m: Move) -> Result<(), MoveError> {
        let files = magnitude(file_delta(m.from, m.to));
        let ranks = magnitude(rank_delta(m.from, m.to));
        if (files == 1 && ranks == 2) || (files == 2 && ranks == 1) {
            Ok(())
        } else {
            Err(MoveError::Invalid)
        }
    }

    /// The king's rule: one square in any direction.
    pub open spec fn king(self, m: Move) -> Result<(), MoveError> {
        if magnitude(file_delta(m.from, m.to)) <= 1 && magnitude(rank_delta(m.from, m.to)) <= 1 {
            Ok(())
        } else {
            Err(MoveError::Invalid)
        }
    }

    /// The rules of castling.
    ///
    /// The king stands on the e-file of its home rank and goes to the g-file
    /// (kingside) or the c-file (queenside); the player still holds the right
    /// for that side; the player's rook stands in that side's corner; else
    /// `Invalid`. Every square between king and rook is empty, else `Blocked`.
    pub open spec fn castle(self, m: Move, color: Color, rights: CastlingRights) -> Result<
        (),
        MoveError,
    > {
        let kingside = m.move_type == MoveType::CastleKingSide;
        if m.piece_type != PieceType::King || m.from != king_home(color) || m.to != king_castled(
            color,
            kingside,
        ) {
            Err(MoveError::Invalid)
        } else if !(if kingside {
            rights.kingside()
        } else {
            rights.queenside()
        }) {
            Err(MoveError::Invalid)
        } else if self.at(rook_corner(color, kingside)) != Some(
            Piece { color, piece_type: PieceType::Rook },
        ) {
            Err(MoveError::Invalid)
        } else if !self.path_clear(m.from, rook_corner(color, kingside)) {
            Err(MoveError::Blocked)
        } else {
            Ok(())
        }
    }

    /// The rule of the piece that moves, castling apart.
    pub open spec fn geometry(self, m: Move, color: Color) -> Result<(), MoveError> {
        match m.piece_type {
            PieceType::Pawn => self.pawn(m, color),
            PieceType::Knight => self.knight(m),
            PieceType::Bishop => self.slide(m, diagonal(m.from, m.to)),
            PieceType::Rook => self.slide(m, straight(m.from, m.to)),
            PieceType::Queen => self.slide(m, straight(m.from, m.to) || diagonal(m.from, m.to)),
            PieceType::King => self.king(m),
        }
    }

    /// Whether `color` may make the move `m` in this position, holding the
    /// castling rights `rights`; if not, why not. The first rule that the move
    /// breaks decides:
    ///
    /// 1. origin and destination differ, else `Invalid`;
    /// 2. the piece that the move names stands on the origin and belongs to
    ///    `color`, else `Invalid`;
    /// 3. no piece of `color` stands on the destination, else `Blocked`;
    /// 4. the rule of castling or of the piece.
    ///
    /// A move that breaks none of them is legal. Only the pawn's rule reads
    /// the tag of a promotion, and no rule reads the kind promoted to.
    /// Whether the mover's king is left attacked is not looked at.
    pub open spec fn verdict(self, m: Move, color: Color, rights: CastlingRights) -> Result<
        (),
        MoveError,
    > {
        if m.from == m.to {
            Err(MoveError::Invalid)
        } else if self.at(m.from) != Some(Piece { color, piece_type: m.piece_type }) {
            Err(MoveError::Invalid)
        } else if self.at(m.to) is Some && self.at(m.to)->0.color == color {
            Err(MoveError::Blocked)
        } else if is_castle(m) {
            self.castle(m, color, rights)
        } else {
            self.geometry(m, color)
        }
    }

    /// The position after `color` has made the move `m`.
    ///
    /// The origin is emptied and the destination takes a piece of `color`, of
    /// the kind that moved or was promoted to. A pawn that arrives on the
    /// en-passant target takes the piece one rank behind it. In castling the
    /// rook leaves its corner for the square that the king crossed. A pawn's
    /// double step makes the square behind its destination the new en-passant
    /// target; every other move leaves none.
    pub open spec fn after(self, m: Move, color: Color) -> Position {
        let taken = if m.piece_type == PieceType::Pawn && self.en_passant == Some(m.to) {
            match behind(m.to, color) {
                Ok(square) => self.occupants.insert(square, None),
                Err(_) => self.occupants,
            }
        } else {
            self.occupants
        };
        let rooked = if is_castle(m) {
            let kingside = m.move_type == MoveType::CastleKingSide;
            taken.insert(rook_corner(color, kingside), None).insert(
                rook_castled(color, kingside),
                Some(Piece { color, piece_type: PieceType::Rook }),
            )
        } else {
            taken
        };
        Position {
            occupants: rooked.insert(m.from, None).insert(
                m.to,
                Some(Piece { color, piece_type: placed_kind(m) }),
            ),
            en_passant: if is_double_step(m, color) {
                match behind(m.to, color) {
                    Ok(square) => Some(square),
                    Err(_) => None,
                }
            } else {
                None
            },
        }
    }
}

/// Whether a move is one of the two castling moves.
pub open spec fn is_castle(m: Move) -> bool {
    m.move_type == MoveType::CastleKingSide || m.move_type == MoveType::CastleQueenSide
}

/// Whether the request hangs together: a promotion is a pawn's move and names
/// a knight, bishop, rook or queen. Every request read from notation does;
/// the rules of movement do not ask for it.
pub open spec fn well_formed(m: Move) -> bool {
    m.move_type == MoveType::Promotion ==> m.piece_type == PieceType::Pawn && m.promotion is Some
        && m.promotion->0.is_promotion_target()
}

/// The kind of the piece that ends up on the destination: the kind that a
/// promotion names, and the kind that moved where the move is no promotion
/// or names none.
pub open spec fn placed_kind(m: Move) -> PieceType {
    if m.move_type == MoveType::Promotion && m.promotion is Some {
        m.promotion->0
    } else {
        m.piece_type
    }
}

/// Whether the move is a pawn's advance of two ranks from its starting rank.
pub open spec fn is_double_step(m: Move, color: Color) -> bool {
    m.piece_type == PieceType::Pawn && m.from.rank == pawn_rank(color) && magnitude(
        rank_delta(m.from, m.to),
    ) == 2
}

/// Where a side's king starts and castles from.
pub open spec fn king_home(color: Color) -> Coordinate {
    Coordinate { file: File::E, rank: home_rank(color) }
}

/// Where the king lands in castling.
pub open spec fn king_castled(color: Color, kingside: bool) -> Coordinate {
    Coordinate { file: if kingside { File::G } else { File::C }, rank: home_rank(color) }
}

/// The corner in which the castling rook waits.
pub open spec fn rook_corner(color: Color, kingside: bool) -> Coordinate {
    Coordinate { file: if kingside { File::H } else { File::A }, rank: home_rank(color) }
}

/// Where the rook lands in castling.
pub open spec fn rook_castled(color: Color, kingside: bool) -> Coordinate {
    Coordinate { file: if kingside { File::F } else { File::D }, rank: home_rank(color) }
}

/// The castling rights that are left to `color` after the move `m`: none
/// after castling; a rook that leaves its corner on the home rank gives up that
/// side; any other move keeps what there was.
pub open spec fn rights_after(rights: CastlingRights, m: Move, color: Color) -> CastlingRights {
    if is_castle(m) {
        rights.without(CastlingRights::Both)
    } else if m.piece_type == PieceType::Rook && m.from.rank == home_rank(color) && m.from.file
        == File::A {
        rights.without(CastlingRights::Queen)
    } else if m.piece_type == PieceType::Rook && m.from.rank == home_rank(color) && m.from.file
        == File::H {
        rights.without(CastlingRights::King)
    } else {
        rights
    }
}

} // verus!
