use vstd::prelude::*;
use vstd::string::StringExecFns;
use crate::board::{initial_square, Board, Color};
use crate::coordinate::{Coordinate, File, Rank};
use crate::pieces::PieceType;
use crate::rules::well_formed;
use crate::text::{decimal, decimal_string};

verus! {

/// Which castling moves a player may still make. `King` means that only the
/// kingside castle is left, `Queen` that only the queenside one is.
///
/// Passed to [`Player::remove_castling_rights`] the same values name the rights
/// to revoke.
#[derive(Clone, Copy, Debug, PartialEq, Eq, Structural, Hash)]
pub enum CastlingRights {
    Both,
    Queen,
    King,
    Neither,
}

impl CastlingRights {
    /// The rights that are left of `self` once `revoked` is taken away.
    ///
    /// Taking one side from `Both` leaves the other side; taking a side from
    /// any narrower state leaves nothing; taking `Both` always leaves nothing;
    /// taking `Neither` changes nothing.
    pub open spec fn without(self, revoked: CastlingRights) -> CastlingRights {
        match revoked {
            CastlingRights::Both => CastlingRights::Neither,
            CastlingRights::Queen => match self {
                CastlingRights::Both => CastlingRights::King,
                _ => CastlingRights::Neither,
            },
            CastlingRights::King => match self {
                CastlingRights::Both => CastlingRights::Queen,
                _ => CastlingRights::Neither,
            },
            CastlingRights::Neither => self,
        }
    }

    /// Whether the kingside castle is still allowed.
    pub open spec fn kingside(self) -> bool {
        self == CastlingRights::Both || self == CastlingRights::King
    }

    /// Whether the queenside castle is still allowed.
    pub open spec fn queenside(self) -> bool {
        self == CastlingRights::Both || self == CastlingRights::Queen
    }

    /// Whether `self` allows nothing that `wider` does not allow.
    pub open spec fn within(self, wider: CastlingRights) -> bool {
        &&& self.kingside() ==> wider.kingside()
        &&& self.queenside() ==> wider.queenside()
    }
}

/// One side of a game: its colour, castling rights, clock and check flag.
#[derive(Clone, Copy, Debug, PartialEq, Eq, Structural)]
pub struct Player {
    pub castling_rights: CastlingRights,
    pub color: Color,
    pub is_checked: bool,
    pub time: u32,
}

impl Player {
    /// Adds `time` seconds to the clock.
    pub fn increment_time(&mut self, time: u32)
        requires
            old(self).time + time <= u32::MAX,
        ensures
            *final(self) == (Player { time: (old(self).time + time) as u32, ..*old(self) }),
    {
        self.time += time;
    }

    /// Takes `time` seconds off the clock.
    pub fn decrement_time(&mut self, time: u32)
        requires
            time <= old(self).time,
        ensures
            *final(self) == (Player { time: (old(self).time - time) as u32, ..*old(self) }),
    {
        self.time -= time;
    }

    /// Whether the player is flagged as in check. Nothing here sets the flag
    /// but [`Player::set_checked`].
    pub fn is_checked(&self) -> (checked: bool)
        ensures
            checked == self.is_checked,
    {
        self.is_checked
    }

    /// Sets or clears the check flag.
    pub fn set_checked(&mut self, checked: bool)
        ensures
            *final(self) == (Player { is_checked: checked, ..*old(self) }),
    {
        self.is_checked = checked
    }

    /// The side that the player plays.
    pub fn color(&self) -> (color: Color)
        ensures
            color == self.color,
    {
        self.color
    }

    /// Revokes castling rights; a right once revoked never comes back.
    pub fn remove_castling_rights(&mut self, rights: CastlingRights)
        ensures
            *final(self) == (Player {
                castling_rights: old(self).castling_rights.without(rights),
                ..*old(self)
            }),
            final(self).castling_rights.within(old(self).castling_rights),
    {
        match rights {
            CastlingRights::Both => self.castling_rights = CastlingRights::Neither,
            CastlingRights::Queen => match self.castling_rights {
                CastlingRights::Both => self.castling_rights = CastlingRights::King,
                _ => self.castling_rights = CastlingRights::Neither,
            },
            CastlingRights::King => match self.castling_rights {
                CastlingRights::Both => self.castling_rights = CastlingRights::Queen,
                _ => self.castling_rights = CastlingRights::Neither,
            },
            CastlingRights::Neither => {},
        }
    }

    /// A player at the start of a game: both castling rights, not in check.
    pub fn new(color: Color, time: u32) -> (player: Player)
        ensures
            player == (Player {
                castling_rights: CastlingRights::Both,
                color,
                is_checked: false,
                time,
            }),
    {
        Player { castling_rights: CastlingRights::Both, color, is_checked: false, time }
    }
}

/// What kind of move a request is.
#[derive(Clone, Copy, Debug, PartialEq, Eq, Structural, Hash)]
pub enum MoveType {
    Normal,
    CastleKingSide,
    CastleQueenSide,
    Promotion,
}

impl Default for MoveType {
    fn default() -> (kind: MoveType)
        ensures
            kind == MoveType::Normal,
    {
        MoveType::Normal
    }
}

/// A move request: where from, where to, which piece, and how.
///
/// `is_check` and `is_mate` are carried for callers; nothing here computes them.
#[derive(Debug)]
pub struct Move {
    pub notation: String,
    pub from: Coordinate,
    pub to: Coordinate,
    pub piece_type: PieceType,
    pub promotion: Option<PieceType>,
    pub move_type: MoveType,
    pub is_check: bool,
    pub is_mate: bool,
}

/// A move request as a plain value: [`Move`] with its text as a sequence of
/// characters.
pub struct MoveView {
    pub notation: Seq<char>,
    pub from: Coordinate,
    pub to: Coordinate,
    pub piece_type: PieceType,
    pub promotion: Option<PieceType>,
    pub move_type: MoveType,
    pub is_check: bool,
    pub is_mate: bool,
}

impl View for Move {
    type V = MoveView;

    open spec fn view(&self) -> MoveView {
        MoveView {
            notation: self.notation@,
            from: self.from,
            to: self.to,
            piece_type: self.piece_type,
            promotion: self.promotion,
            move_type: self.move_type,
            is_check: self.is_check,
            is_mate: self.is_mate,
        }
    }
}

impl Move {
    /// Whether the request hangs together: unless it is a promotion, always;
    /// a promotion must be a pawn's move and name a knight, bishop, rook or
    /// queen. The board does not ask for it: it judges a request by the
    /// rules of movement alone, and a caller that wants more asks here.
    pub fn is_well_formed(&self) -> (ok: bool)
        ensures
            ok == well_formed(*self),
    {
        match self.move_type {
            MoveType::Promotion => match (self.piece_type, self.promotion) {
                (PieceType::Pawn, Some(PieceType::Knight)) => true,
                (PieceType::Pawn, Some(PieceType::Bishop)) => true,
                (PieceType::Pawn, Some(PieceType::Rook)) => true,
                (PieceType::Pawn, Some(PieceType::Queen)) => true,
                _ => false,
            },
            _ => true,
        }
    }
}

impl Clone for Move {
    fn clone(&self) -> (copy: Move)
        ensures
            copy == *self,
    {
        Move {
            notation: self.notation.clone(),
            from: self.from,
            to: self.to,
            piece_type: self.piece_type,
            promotion: self.promotion,
            move_type: self.move_type,
            is_check: self.is_check,
            is_mate: self.is_mate,
        }
    }
}

impl Default for Move {
    fn default() -> (m: Move)
        ensures
            m.notation@ == "None"@,
            m.from == (Coordinate { file: File::A, rank: Rank::One }),
            m.to == (Coordinate { file: File::A, rank: Rank::One }),
            m.piece_type == PieceType::Pawn,
            m.promotion is None,
            m.move_type == MoveType::Normal,
            !m.is_check,
            !m.is_mate,
    {
        Move {
            notation: "None".to_owned(),
            piece_type: PieceType::Pawn,
            from: Coordinate::default(),
            to: Coordinate::default(),
            promotion: None,
            move_type: MoveType::Normal,
            is_check: false,
            is_mate: false,
        }
    }
}

/// Why a move request or a conversion was refused.
#[derive(Clone, Copy, Debug, PartialEq, Eq, Structural, Hash)]
pub enum MoveError {
    /// A friendly piece stands on the destination, or a piece stands in the way.
    Blocked,
    /// Reserved for king-safety analysis; never produced by this crate.
    InCheck,
    /// The move breaks the piece's geometry or does not fit the position.
    Invalid,
    /// Reserved for king-safety analysis; never produced by this crate.
    Pinned,
    /// The text is not a move in the accepted notation.
    Notation,
    /// An index, character or offset leaves the board.
    OutOfBounds,
    /// A pawn moved diagonally with nothing to capture.
    PawnNoCapture,
    /// A promotion that does not end on the far rank.
    PromotionRank,
}

impl MoveError {
    /// The message that goes with each error.
    pub open spec fn message(self) -> Seq<char> {
        match self {
            MoveError::InCheck => "King is in check!"@,
            MoveError::Invalid => "Move is invalid!"@,
            MoveError::Pinned => "Piece is currently pinned!"@,
            MoveError::Notation => "Issue parsing notation!"@,
            MoveError::OutOfBounds => "Coordinate is off the board!"@,
            MoveError::PawnNoCapture => "No opposing piece at destination!"@,
            MoveError::PromotionRank => "Cannot promote on this rank!"@,
            MoveError::Blocked => "Movement is blocked!"@,
        }
    }

    /// The message that goes with the error.
    pub fn as_str(&self) -> (text: &'static str)
        ensures
            text@ == self.message(),
    {
        match self {
            MoveError::InCheck => "King is in check!",
            MoveError::Invalid => "Move is invalid!",
            MoveError::Pinned => "Piece is currently pinned!",
            MoveError::Notation => "Issue parsing notation!",
            MoveError::OutOfBounds => "Coordinate is off the board!",
            MoveError::PawnNoCapture => "No opposing piece at destination!",
            MoveError::PromotionRank => "Cannot promote on this rank!",
            MoveError::Blocked => "Movement is blocked!",
        }
    }
}

/// One full turn: White's move, then Black's; either may be missing.
#[derive(Debug)]
pub struct Turn(pub Option<Move>, pub Option<Move>);

/// How one half of a turn is written: the move's notation, or `None`.
pub open spec fn half_turn(half: Option<Move>) -> Seq<char> {
    match half {
        Some(m) => m.notation@,
        None => "None"@,
    }
}

fn half_turn_str(half: &Option<Move>) -> (text: &str)
    ensures
        text@ == half_turn(*half),
{
    match half {
        Some(m) => m.notation.as_str(),
        None => "None",
    }
}

impl Turn {
    /// The turn as text: White's move, a comma, Black's move.
    pub open spec fn text(self) -> Seq<char> {
        half_turn(self.0) + ", "@ + half_turn(self.1)
    }

    /// Writes the turn: White's move, a comma, Black's move.
    pub fn to_string(&self) -> (text: String)
        ensures
            text@ == self.text(),
    {
        let mut text = half_turn_str(&self.0).to_owned();
        text.append(", ");
        text.append(half_turn_str(&self.1));
        text
    }
}

/// A game: the board, the turns played so far, and the two players, White
/// first.
#[derive(Debug)]
pub struct Game {
    pub board: Board,
    pub turns: Vec<Turn>,
    pub players: (Player, Player),
}

/// Turn `i` of a history as it is listed: its number, counted from one, a
/// full stop, and the turn.
pub open spec fn entry(turns: Seq<Turn>, i: int) -> Seq<char> {
    decimal((i + 1) as nat) + ". "@ + turns[i].text()
}

/// The first `n` turns of a history, listed and joined by `"; "`.
pub open spec fn listing(turns: Seq<Turn>, n: nat) -> Seq<char>
    decreases n,
{
    if n == 0 {
        Seq::empty()
    } else if n == 1 {
        entry(turns, 0)
    } else {
        listing(turns, (n - 1) as nat) + "; "@ + entry(turns, n - 1)
    }
}

impl Game {
    /// Lists the turns played, numbered from one and joined by `"; "`.
    pub fn turns_to_string(&self) -> (text: String)
        ensures
            text@ == listing(self.turns@, self.turns@.len()),
    {
        let mut text = String::new();
        let mut i: usize = 0;
        while i < self.turns.len()
            invariant
                i <= self.turns@.len(),
                text@ == listing(self.turns@, i as nat),
            decreases self.turns@.len() - i,
        {
            if i > 0 {
                text.append("; ");
            }
            text.append(decimal_string(i + 1).as_str());
            text.append(". ");
            text.append(self.turns[i].to_string().as_str());
            i += 1;
            proof {
                assert(text@ =~= listing(self.turns@, i as nat));
            }
        }
        text
    }

    /// A game at its start, with `time` seconds on each clock.
    pub fn new(time: u32) -> (game: Game)
        ensures
            forall|c: Coordinate| #[trigger] game.board.square(c) == initial_square(c),
            game.board.can_passant is None,
            game.board.well_formed(),
            game.turns@.len() == 0,
            game.players.0 == (Player {
                castling_rights: CastlingRights::Both,
                color: Color::White,
                is_checked: false,
                time,
            }),
            game.players.1 == (Player {
                castling_rights: CastlingRights::Both,
                color: Color::Black,
                is_checked: false,
                time,
            }),
    {
        Game {
            board: Board::default(),
            turns: Vec::new(),
            players: (Player::new(Color::White, time), Player::new(Color::Black, time)),
        }
    }
}

} // verus!
