//! What holds of every game, proved from the rules.

use vstd::prelude::*;
use crate::board::Color;
use crate::coordinate::Coordinate;
use crate::game::{CastlingRights, Move, MoveError, MoveType};
use crate::notation::decode;
use crate::pieces::{Piece, PieceType};
use crate::rules::{
    behind, diagonal, file_delta, is_double_step, magnitude, placed_kind, rank_delta,
    rights_after, rook_castled, rook_corner, span, straight, towards, waypoint, Position,
};

verus! {

/// A game in progress, as far as the rules of movement see it: the position
/// and what each side may still castle.
pub struct Table {
    pub position: Position,
    pub white: CastlingRights,
    pub black: CastlingRights,
}

impl Table {
    /// The castling rights of one side.
    pub open spec fn rights(self, color: Color) -> CastlingRights {
        match color {
            Color::White => self.white,
            Color::Black => self.black,
        }
    }

    /// The table after `color` has tried the move `m`: changed as the rules
    /// say if the move is legal, untouched if it is not.
    pub open spec fn attempt(self, m: Move, color: Color) -> Table {
        if self.position.verdict(m, color, self.rights(color)) is Ok {
            let left = rights_after(self.rights(color), m, color);
            Table {
                position: self.position.after(m, color),
                white: if color == Color::White { left } else { self.white },
                black: if color == Color::Black { left } else { self.black },
            }
        } else {
            self
        }
    }

    /// The table after a run of attempts, made in order.
    pub open spec fn attempt_all(self, attempts: Seq<(Move, Color)>) -> Table
        decreases attempts.len(),
    {
        if attempts.len() == 0 {
            self
        } else {
            self.attempt_all(attempts.drop_last()).attempt(attempts.last().0, attempts.last().1)
        }
    }
}

/// Revoking never widens: whatever is taken away, what is left allows nothing
/// that was not allowed before.
pub proof fn law_revoking_narrows(rights: CastlingRights, revoked: CastlingRights)
    ensures
        rights.without(revoked).within(rights),
{
}

/// No move widens the mover's castling rights.
pub proof fn law_move_narrows_rights(rights: CastlingRights, m: Move, color: Color)
    ensures
        rights_after(rights, m, color).within(rights),
{
}

/// Castling rights only ever narrow: after any run of moves, legal or not, by
/// either side, each side may castle at most where it might before.
pub proof fn law_castling_rights_monotone(start: Table, attempts: Seq<(Move, Color)>)
    ensures
        start.attempt_all(attempts).white.within(start.white),
        start.attempt_all(attempts).black.within(start.black),
    decreases attempts.len(),
{
    if attempts.len() > 0 {
        law_castling_rights_monotone(start, attempts.drop_last());
        let before = start.attempt_all(attempts.drop_last());
        law_move_narrows_rights(before.white, attempts.last().0, attempts.last().1);
        law_move_narrows_rights(before.black, attempts.last().0, attempts.last().1);
    }
}

/// The en-passant target lives for one move. A pawn's legal double step
/// leaves a target: the square that the pawn passed over. The next legal
/// move, unless it is a double step itself, leaves none.
pub proof fn law_en_passant_lifetime(
    position: Position,
    first: Move,
    first_color: Color,
    first_rights: CastlingRights,
    second: Move,
    second_color: Color,
    second_rights: CastlingRights,
)
    requires
        position.verdict(first, first_color, first_rights) is Ok,
        is_double_step(first, first_color),
        position.after(first, first_color).verdict(second, second_color, second_rights) is Ok,
        !is_double_step(second, second_color),
    ensures
        behind(first.to, first_color) is Ok,
        position.after(first, first_color).en_passant == Some(behind(first.to, first_color)->Ok_0),
        position.after(first, first_color).after(second, second_color).en_passant is None,
{
}

/// After a legal move the en-passant target is there exactly if the move was
/// a pawn's double step.
pub proof fn law_en_passant_target(
    position: Position,
    m: Move,
    color: Color,
    rights: CastlingRights,
)
    requires
        position.verdict(m, color, rights) is Ok,
    ensures
        position.after(m, color).en_passant is Some <==> is_double_step(m, color),
{
}

/// The rules of movement refuse a move for one of four reasons. King safety
/// is not judged, and a request is never a question of notation or bounds.
pub proof fn law_reasons_for_refusal(
    position: Position,
    m: Move,
    color: Color,
    rights: CastlingRights,
)
    ensures
        position.verdict(m, color, rights) matches Err(e) ==> e == MoveError::Invalid || e
            == MoveError::Blocked || e == MoveError::PawnNoCapture || e
            == MoveError::PromotionRank,
{
}

/// The verdict on a move reads where it starts and ends, which piece it names
/// and what kind of move it is, and nothing else of the request: neither its
/// text, nor the kind promoted to, nor what it claims of check and mate.
pub proof fn law_verdict_reads_the_move_alone(
    position: Position,
    m: Move,
    n: Move,
    color: Color,
    rights: CastlingRights,
)
    requires
        m.from == n.from,
        m.to == n.to,
        m.piece_type == n.piece_type,
        m.move_type == n.move_type,
    ensures
        position.verdict(m, color, rights) == position.verdict(n, color, rights),
{
}

/// A text that is no move is refused as `Notation`, whatever is wrong with it.
pub proof fn law_decoding_fails_as_notation(text: Seq<char>, color: Color)
    ensures
        decode(text, color) matches Err(e) ==> e == MoveError::Notation,
{
}

/// What a legal move does to the board. The origin is left empty. The
/// destination holds the mover's piece, of the kind moved or promoted to. Of
/// the other squares, only the one behind an en-passant target that a pawn
/// arrives on, and the two that a castling rook leaves and reaches, can have
/// changed.
pub proof fn law_move_outcome(
    position: Position,
    m: Move,
    color: Color,
    rights: CastlingRights,
    square: Coordinate,
)
    requires
        position.verdict(m, color, rights) is Ok,
    ensures
        position.after(m, color).at(m.from) is None,
        position.after(m, color).at(m.to) == Some(Piece { color, piece_type: placed_kind(m) }),
        position.after(m, color).at(square) != position.at(square) ==> {
            ||| square == m.from
            ||| square == m.to
            ||| m.piece_type == PieceType::Pawn && position.en_passant == Some(m.to) && behind(
                m.to,
                color,
            ) == Ok::<Coordinate, MoveError>(square)
            ||| m.move_type == MoveType::CastleKingSide && (square == rook_corner(color, true)
                || square == rook_castled(color, true))
            ||| m.move_type == MoveType::CastleQueenSide && (square == rook_corner(color, false)
                || square == rook_castled(color, false))
        },
{
}

/// Whether `i` lies strictly between 0 and `delta`, or is 0 where `delta` is.
pub open spec fn inside(delta: int, i: int) -> bool {
    if delta > 0 {
        0 < i < delta
    } else if delta < 0 {
        delta < i < 0
    } else {
        i == 0
    }
}

/// Whether `square` lies strictly between `from` and `to` on the rank, file
/// or diagonal that joins them.
pub open spec fn between(from: Coordinate, to: Coordinate, square: Coordinate) -> bool {
    &&& straight(from, to) || diagonal(from, to)
    &&& square != from
    &&& inside(file_delta(from, to), file_delta(from, square))
    &&& inside(rank_delta(from, to), rank_delta(from, square))
    &&& straight(from, to) || diagonal(from, square)
}

/// Moving by the distance to a square arrives on that square.
proof fn lemma_shift_arrives(from: Coordinate, square: Coordinate)
    ensures
        from.shifted(file_delta(from, square), rank_delta(from, square)) == Ok::<
            Coordinate,
            MoveError,
        >(square),
{
}

/// Moving by a distance that stays on the board arrives that far away.
proof fn lemma_shift_distance(from: Coordinate, files: int, ranks: int)
    requires
        0 <= from.file.spec_index() + files < 8,
        0 <= from.rank.spec_index() + ranks < 8,
    ensures
        from.shifted(files, ranks) is Ok,
        file_delta(from, from.shifted(files, ranks)->Ok_0) == files,
        rank_delta(from, from.shifted(files, ranks)->Ok_0) == ranks,
{
}

/// A square between two others is one of the steps from the first to the
/// second.
proof fn lemma_between_is_a_step(from: Coordinate, to: Coordinate, square: Coordinate) -> (k: int)
    requires
        between(from, to, square),
    ensures
        0 < k < span(from, to),
        waypoint(from, to, k) == Ok::<Coordinate, MoveError>(square),
{
    let k = if file_delta(from, square) != 0 {
        magnitude(file_delta(from, square))
    } else {
        magnitude(rank_delta(from, square))
    };
    lemma_shift_arrives(from, square);
    k
}

/// Each step from one square to another lies between the two.
proof fn lemma_step_is_between(from: Coordinate, to: Coordinate, k: int)
    requires
        straight(from, to) || diagonal(from, to),
        0 < k < span(from, to),
    ensures
        waypoint(from, to, k) is Ok,
        between(from, to, waypoint(from, to, k)->Ok_0),
{
    lemma_shift_distance(
        from,
        towards(file_delta(from, to), k),
        towards(rank_delta(from, to), k),
    );
}

/// A path is clear exactly if no piece stands between its ends: the squares
/// that are looked at on the way from `from` to `to` are all those, and only
/// those, that lie strictly between the two on their common line.
pub proof fn law_path_is_what_lies_between(position: Position, from: Coordinate, to: Coordinate)
    requires
        straight(from, to) || diagonal(from, to),
    ensures
        position.path_clear(from, to) <==> forall|square: Coordinate|
            between(from, to, square) ==> position.at(square) is None,
{
    if position.path_clear(from, to) {
        assert forall|square: Coordinate| between(from, to, square) implies position.at(
            square,
        ) is None by {
            let k = lemma_between_is_a_step(from, to, square);
            assert(position.vacant(from, to, k));
        }
    }
    if forall|square: Coordinate| between(from, to, square) ==> position.at(square) is None {
        assert forall|k: int| 0 < k < span(from, to) implies #[trigger] position.vacant(
            from,
            to,
            k,
        ) by {
            lemma_step_is_between(from, to, k);
        }
    }
}

} // verus!
