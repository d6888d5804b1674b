//! Coordinate notation for moves: `e2e4`, `a7a8=Q`, `Ng1f3`, `O-O`, `O-O-O`.

use vstd::prelude::*;
use vstd::string::StrSliceExecFns;
use crate::board::Color;
use crate::coordinate::{Coordinate, File, Rank};
use crate::game::{Move, MoveError, MoveType, MoveView};
use crate::pieces::PieceType;
use crate::rules::{king_castled, king_home};

verus! {

/// The token for castling on the king's side.
pub open spec fn kingside_token() -> Seq<char> {
    seq!['O', '-', 'O']
}

/// The token for castling on the queen's side.
pub open spec fn queenside_token() -> Seq<char> {
    seq!['O', '-', 'O', '-', 'O']
}

/// The piece that a leading capital names: `N`, `B`, `R`, `Q` or `K`.
pub open spec fn piece_letter(c: char) -> Result<PieceType, MoveError> {
    if c == 'N' {
        Ok(PieceType::Knight)
    } else if c == 'B' {
        Ok(PieceType::Bishop)
    } else if c == 'R' {
        Ok(PieceType::Rook)
    } else if c == 'Q' {
        Ok(PieceType::Queen)
    } else if c == 'K' {
        Ok(PieceType::King)
    } else {
        Err(MoveError::Notation)
    }
}

/// The kind of move that the shape of a text announces, whatever else the
/// text holds: a castling token is that castling move; a text that ends in
/// a promotion letter is a promotion; any other text that starts like a
/// move is a normal move.
pub open spec fn shape(text: Seq<char>) -> Result<MoveType, MoveError> {
    if text == queenside_token() {
        Ok(MoveType::CastleQueenSide)
    } else if text == kingside_token() {
        Ok(MoveType::CastleKingSide)
    } else if text.len() > 0 && PieceType::promoted_by(text.last()) is Ok {
        Ok(MoveType::Promotion)
    } else if text.len() > 0 && PieceType::announced_by(text[0]) is Ok {
        Ok(MoveType::Normal)
    } else {
        Err(MoveError::Notation)
    }
}

/// The origin and destination written in four characters of `text`, from
/// position `start` on.
pub open spec fn squares(text: Seq<char>, start: int) -> Result<
    (Coordinate, Coordinate),
    MoveError,
> {
    match (
        Coordinate::named(text[start], text[start + 1]),
        Coordinate::named(text[start + 2], text[start + 3]),
    ) {
        (Ok(from), Ok(to)) => Ok((from, to)),
        _ => Err(MoveError::Notation),
    }
}

/// A request read from `text`, with no check or mate claimed.
pub open spec fn request(
    text: Seq<char>,
    squares: (Coordinate, Coordinate),
    piece_type: PieceType,
    promotion: Option<PieceType>,
    move_type: MoveType,
) -> MoveView {
    MoveView {
        notation: text,
        from: squares.0,
        to: squares.1,
        piece_type,
        promotion,
        move_type,
        is_check: false,
        is_mate: false,
    }
}

/// A castling token read for `color`: the king's move along the home rank.
pub open spec fn decode_castle(text: Seq<char>, color: Color, kingside: bool) -> MoveView {
    request(
        text,
        (king_home(color), king_castled(color, kingside)),
        PieceType::King,
        None,
        if kingside {
            MoveType::CastleKingSide
        } else {
            MoveType::CastleQueenSide
        },
    )
}

/// A pawn's move: two squares, or two squares, `=` and a promotion letter.
pub open spec fn decode_pawn(text: Seq<char>) -> Result<MoveView, MoveError> {
    if text.len() == 4 {
        match squares(text, 0) {
            Ok(pair) => Ok(request(text, pair, PieceType::Pawn, None, MoveType::Normal)),
            Err(e) => Err(e),
        }
    } else if text.len() == 6 && text[4] == '=' {
        match (squares(text, 0), PieceType::promoted_by(text[5])) {
            (Ok(pair), Ok(kind)) => Ok(
                request(text, pair, PieceType::Pawn, Some(kind), MoveType::Promotion),
            ),
            _ => Err(MoveError::Notation),
        }
    } else {
        Err(MoveError::Notation)
    }
}

/// A piece's move: the piece's letter and two squares.
pub open spec fn decode_piece(text: Seq<char>, piece_type: PieceType) -> Result<
    MoveView,
    MoveError,
> {
    if text.len() == 5 {
        match squares(text, 1) {
            Ok(pair) => Ok(request(text, pair, piece_type, None, MoveType::Normal)),
            Err(e) => Err(e),
        }
    } else {
        Err(MoveError::Notation)
    }
}

/// What a text means as a move of `color`, or `Notation` if it is no move.
///
/// `O-O` and `O-O-O` castle. A text that starts with a file letter is a
/// pawn's move. One that starts with `N`, `B`, `R`, `Q` or `K` is that
/// piece's move. Nothing may follow the move.
pub open spec fn decode(text: Seq<char>, color: Color) -> Result<MoveView, MoveError> {
    if text == kingside_token() {
        Ok(decode_castle(text, color, true))
    } else if text == queenside_token() {
        Ok(decode_castle(text, color, false))
    } else if text.len() == 0 {
        Err(MoveError::Notation)
    } else if File::named(text[0]) is Ok {
        decode_pawn(text)
    } else if piece_letter(text[0]) is Ok {
        decode_piece(text, piece_letter(text[0])->Ok_0)
    } else {
        Err(MoveError::Notation)
    }
}

/// Whether parsing `text` gave what `decode` says.
pub open spec fn decodes_to(r: Result<Move, MoveError>, expected: Result<MoveView, MoveError>) -> bool {
    match expected {
        Ok(view) => r is Ok && r->Ok_0@ == view,
        Err(e) => r is Err && r->Err_0 == e,
    }
}

/// Reads the two squares written in `text` from position `start` on.
fn read_squares(text: &str, start: usize) -> (r: Result<(Coordinate, Coordinate), MoveError>)
    requires
        start <= 1,
        start + 4 <= text@.len(),
    ensures
        r == squares(text@, start as int),
{
    let from = Coordinate::try_from((text.get_char(start), text.get_char(start + 1)));
    let to = Coordinate::try_from((text.get_char(start + 2), text.get_char(start + 3)));
    match (from, to) {
        (Ok(from), Ok(to)) => Ok((from, to)),
        _ => Err(MoveError::Notation),
    }
}

/// Builds the request that a text was read as.
fn build(
    text: &str,
    pair: (Coordinate, Coordinate),
    piece_type: PieceType,
    promotion: Option<PieceType>,
    move_type: MoveType,
) -> (m: Move)
    ensures
        m@ == request(text@, pair, piece_type, promotion, move_type),
{
    Move {
        notation: text.to_owned(),
        from: pair.0,
        to: pair.1,
        piece_type,
        promotion,
        move_type,
        is_check: false,
        is_mate: false,
    }
}

/// Whether `text` is the kingside castling token.
fn is_kingside_token(text: &str) -> (yes: bool)
    ensures
        yes == (text@ == kingside_token()),
{
    let yes = text.unicode_len() == 3 && text.get_char(0) == 'O' && text.get_char(1) == '-'
        && text.get_char(2) == 'O';
    proof {
        if yes {
            assert(text@ =~= kingside_token());
        }
    }
    yes
}

/// Whether `text` is the queenside castling token.
fn is_queenside_token(text: &str) -> (yes: bool)
    ensures
        yes == (text@ == queenside_token()),
{
    let yes = text.unicode_len() == 5 && text.get_char(0) == 'O' && text.get_char(1) == '-'
        && text.get_char(2) == 'O' && text.get_char(3) == '-' && text.get_char(4) == 'O';
    proof {
        if yes {
            assert(text@ =~= queenside_token());
        }
    }
    yes
}

fn piece_from_letter(c: char) -> (r: Result<PieceType, MoveError>)
    ensures
        r == piece_letter(c),
{
    match c {
        'N' => Ok(PieceType::Knight),
        'B' => Ok(PieceType::Bishop),
        'R' => Ok(PieceType::Rook),
        'Q' => Ok(PieceType::Queen),
        'K' => Ok(PieceType::King),
        _ => Err(MoveError::Notation),
    }
}

impl Move {
    /// Reads a move of `color` from its notation.
    ///
    /// The colour only matters to castling, which it places on that side's
    /// home rank.
    pub fn parse_for(text: &str, color: Color) -> (r: Result<Move, MoveError>)
        ensures
            decodes_to(r, decode(text@, color)),
            r matches Ok(m) ==> crate::rules::well_formed(m) && shape(text@) == Ok::<
                MoveType,
                MoveError,
            >(m.move_type),
    {
        let home = match color {
            Color::White => Rank::One,
            Color::Black => Rank::Eight,
        };
        let king = Coordinate { file: File::E, rank: home };
        if is_kingside_token(text) {
            let landing = Coordinate { file: File::G, rank: home };
            return Ok(build(text, (king, landing), PieceType::King, None, MoveType::CastleKingSide));
        }
        if is_queenside_token(text) {
            let landing = Coordinate { file: File::C, rank: home };
            return Ok(
                build(text, (king, landing), PieceType::King, None, MoveType::CastleQueenSide),
            );
        }
        let length = text.unicode_len();
        if length == 0 {
            return Err(MoveError::Notation);
        }
        let lead = text.get_char(0);
        if File::try_from(lead).is_ok() {
            if length == 4 {
                match read_squares(text, 0) {
                    Ok(pair) => Ok(build(text, pair, PieceType::Pawn, None, MoveType::Normal)),
                    Err(e) => Err(e),
                }
            } else if length == 6 && text.get_char(4) == '=' {
                match (read_squares(text, 0), PieceType::promotion_from(text.get_char(5))) {
                    (Ok(pair), Ok(kind)) => Ok(
                        build(text, pair, PieceType::Pawn, Some(kind), MoveType::Promotion),
                    ),
                    _ => Err(MoveError::Notation),
                }
            } else {
                Err(MoveError::Notation)
            }
        } else {
            match piece_from_letter(lead) {
                Ok(piece_type) => {
                    if length == 5 {
                        match read_squares(text, 1) {
                            Ok(pair) => Ok(build(text, pair, piece_type, None, MoveType::Normal)),
                            Err(e) => Err(e),
                        }
                    } else {
                        Err(MoveError::Notation)
                    }
                },
                Err(e) => Err(e),
            }
        }
    }

    /// Reads a move from its notation, castling as White does.
    pub fn parse(text: &str) -> (r: Result<Move, MoveError>)
        ensures
            decodes_to(r, decode(text@, Color::White)),
            r matches Ok(m) ==> crate::rules::well_formed(m),
    {
        Move::parse_for(text, Color::White)
    }
}

impl TryFrom<&str> for MoveType {
    type Error = MoveError;

    /// Tells the kind of move from the shape of its notation alone.
    fn try_from(text: &str) -> (r: Result<MoveType, MoveError>)
        ensures
            r == shape(text@),
    {
        if is_queenside_token(text) {
            return Ok(MoveType::CastleQueenSide);
        }
        if is_kingside_token(text) {
            return Ok(MoveType::CastleKingSide);
        }
        let length = text.unicode_len();
        if length == 0 {
            return Err(MoveError::Notation);
        }
        if PieceType::promotion_from(text.get_char(length - 1)).is_ok() {
            return Ok(MoveType::Promotion);
        }
        if PieceType::try_from(text.get_char(0)).is_ok() {
            return Ok(MoveType::Normal);
        }
        Err(MoveError::Notation)
    }
}

impl vstd::std_specs::convert::TryFromSpecImpl<&str> for MoveType {
    open spec fn obeys_try_from_spec() -> bool {
        true
    }

    open spec fn try_from_spec(text: &str) -> Result<MoveType, MoveError> {
        shape(text@)
    }
}

// A `Move` owns its text, and two strings of the same characters are not known
// to be the same value. So the conversions below make no statement through
// `try_from_spec`; what they return is stated by their own `ensures`.

impl TryFrom<&str> for Move {
    type Error = MoveError;

    /// Reads a move from its notation, castling as White does.
    fn try_from(text: &str) -> (r: Result<Move, MoveError>)
        ensures
            decodes_to(r, decode(text@, Color::White)),
            r matches Ok(m) ==> crate::rules::well_formed(m),
    {
        Move::parse(text)
    }
}

impl vstd::std_specs::convert::TryFromSpecImpl<&str> for Move {
    open spec fn obeys_try_from_spec() -> bool {
        false
    }

    open spec fn try_from_spec(text: &str) -> Result<Move, MoveError> {
        Err(MoveError::Notation)
    }
}

impl TryFrom<(&str, Color)> for Move {
    type Error = MoveError;

    /// Reads a move of the given colour from its notation.
    fn try_from(value: (&str, Color)) -> (r: Result<Move, MoveError>)
        ensures
            decodes_to(r, decode(value.0@, value.1)),
            r matches Ok(m) ==> crate::rules::well_formed(m),
    {
        Move::parse_for(value.0, value.1)
    }
}

impl vstd::std_specs::convert::TryFromSpecImpl<(&str, Color)> for Move {
    open spec fn obeys_try_from_spec() -> bool {
        false
    }

    open spec fn try_from_spec(value: (&str, Color)) -> Result<Move, MoveError> {
        Err(MoveError::Notation)
    }
}

} // verus!
