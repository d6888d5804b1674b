use vstd::prelude::*;
pub use crate::coordinate::{Coordinate, File, Rank};
use crate::game::{CastlingRights, Move, MoveError, MoveType, Player};
use crate::pieces::{Piece, PieceType};
use crate::rules::{far_rank, home_rank, magnitude, pawn_rank, rights_after, span, Position};

verus! {

/// The light square glyph.
pub const W_SQUARE: char = '░';

/// The dark square glyph.
pub const B_SQUARE: char = '▓';

/// One of the two sides; also the shade of a square.
#[derive(Clone, Copy, Debug, PartialEq, Eq, Structural, Hash)]
pub enum Color {
    White,
    Black,
}

impl Color {
    /// The glyph that an empty square of this shade is drawn with.
    pub open spec fn glyph(self) -> char {
        match self {
            Color::White => W_SQUARE,
            Color::Black => B_SQUARE,
        }
    }

    /// The side's name as text.
    pub open spec fn name(self) -> Seq<char> {
        match self {
            Color::White => "White"@,
            Color::Black => "Black"@,
        }
    }

    /// The side's name, `"White"` or `"Black"`.
    pub fn to_string(&self) -> (text: String)
        ensures
            text@ == self.name(),
    {
        match self {
            Color::White => "White".to_owned(),
            Color::Black => "Black".to_owned(),
        }
    }
}

impl From<Color> for char {
    /// The glyph that an empty square of this shade is drawn with.
    fn from(value: Color) -> (glyph: char)
        ensures
            glyph == value.glyph(),
    {
        match value {
            Color::White => W_SQUARE,
            Color::Black => B_SQUARE,
        }
    }
}

impl vstd::std_specs::convert::FromSpecImpl<Color> for char {
    open spec fn obeys_from_spec() -> bool {
        true
    }

    open spec fn from_spec(value: Color) -> char {
        value.glyph()
    }
}

/// From which side of the table a board is drawn.
#[derive(Clone, Copy, Debug, PartialEq, Eq, Structural, Hash)]
pub enum BoardPerspective {
    White,
    Black,
}

impl BoardPerspective {
    /// The side that sees the board this way.
    pub open spec fn of(color: Color) -> BoardPerspective {
        match color {
            Color::White => BoardPerspective::White,
            Color::Black => BoardPerspective::Black,
        }
    }
}

impl From<Color> for BoardPerspective {
    /// Each side sees the board from its own end.
    fn from(value: Color) -> (perspective: BoardPerspective)
        ensures
            perspective == BoardPerspective::of(value),
    {
        match value {
            Color::White => BoardPerspective::White,
            Color::Black => BoardPerspective::Black,
        }
    }
}

impl vstd::std_specs::convert::FromSpecImpl<Color> for BoardPerspective {
    open spec fn obeys_from_spec() -> bool {
        true
    }

    open spec fn from_spec(value: Color) -> BoardPerspective {
        BoardPerspective::of(value)
    }
}

/// One cell of the board. Cells never move; only `piece` changes in play.
#[derive(Clone, Copy, Debug)]
pub struct Square {
    pub coordinate: Coordinate,
    pub piece: Option<Piece>,
    pub index: usize,
    pub color: Color,
}

impl Square {
    /// The glyph that the square is drawn with: its piece's, or its own shade.
    pub open spec fn glyph(self) -> char {
        match self.piece {
            Some(piece) => piece.glyph(),
            None => self.color.glyph(),
        }
    }

    /// The glyph that the square is drawn with.
    pub fn char(&self) -> (glyph: char)
        ensures
            glyph == self.glyph(),
    {
        match &self.piece {
            Some(piece) => piece.char(),
            None => self.color.into(),
        }
    }
}

/// The shade of a square: a1 is dark, and shades alternate from there.
pub open spec fn shade(square: Coordinate) -> Color {
    if (square.rank.spec_index() + square.file.spec_index()) % 2 == 0 {
        Color::Black
    } else {
        Color::White
    }
}

/// The number of a square, counting along the ranks from a1.
pub open spec fn ordinal(square: Coordinate) -> int {
    square.rank.spec_index() * 8 + square.file.spec_index()
}

/// The kind of piece that starts on a file of the back rank.
pub open spec fn back_rank(file: File) -> PieceType {
    match file {
        File::A | File::H => PieceType::Rook,
        File::B | File::G => PieceType::Knight,
        File::C | File::F => PieceType::Bishop,
        File::D => PieceType::Queen,
        File::E => PieceType::King,
    }
}

/// The piece that starts a game on a square, if any.
pub open spec fn initial_piece(square: Coordinate) -> Option<Piece> {
    match square.rank {
        Rank::One => Some(Piece { color: Color::White, piece_type: back_rank(square.file) }),
        Rank::Two => Some(Piece { color: Color::White, piece_type: PieceType::Pawn }),
        Rank::Seven => Some(Piece { color: Color::Black, piece_type: PieceType::Pawn }),
        Rank::Eight => Some(Piece { color: Color::Black, piece_type: back_rank(square.file) }),
        _ => None,
    }
}

/// The cell that starts a game at a coordinate.
pub open spec fn initial_square(square: Coordinate) -> Square {
    Square {
        coordinate: square,
        piece: initial_piece(square),
        index: ordinal(square) as usize,
        color: shade(square),
    }
}

/// The board: eight ranks of eight squares, first rank first, and the square
/// that can be captured en passant on the next move, if there is one.
#[derive(Debug)]
pub struct Board {
    pub squares: [[Square; 8]; 8],
    pub can_passant: Option<Coordinate>,
}

impl Clone for Board {
    fn clone(&self) -> (copy: Board)
        ensures
            copy == *self,
    {
        Board { squares: self.squares, can_passant: self.can_passant }
    }
}

impl View for Board {
    type V = Position;

    open spec fn view(&self) -> Position {
        Position {
            occupants: Map::total(|square: Coordinate| self.square(square).piece),
            en_passant: self.can_passant,
        }
    }
}

impl Board {
    /// The cell at a coordinate.
    pub open spec fn square(&self, coordinate: Coordinate) -> Square {
        self.squares[coordinate.rank.spec_index()][coordinate.file.spec_index()]
    }

    /// Whether every cell knows its own coordinate, number and shade.
    pub open spec fn well_formed(&self) -> bool {
        forall|c: Coordinate|
            {
                &&& (#[trigger] self.square(c)).coordinate == c
                &&& self.square(c).index == ordinal(c)
                &&& self.square(c).color == shade(c)
            }
    }

    /// Whether two boards differ at most in where the pieces stand.
    pub open spec fn same_frame(&self, other: &Board) -> bool {
        forall|c: Coordinate|
            {
                &&& (#[trigger] self.square(c)).coordinate == other.square(c).coordinate
                &&& self.square(c).index == other.square(c).index
                &&& self.square(c).color == other.square(c).color
            }
    }

    /// The cell at a coordinate.
    pub fn get_square(&self, coordinate: Coordinate) -> (square: &Square)
        ensures
            *square == self.square(coordinate),
    {
        &self.squares[coordinate.rank.index()][coordinate.file.index()]
    }

    /// The cell at a coordinate, to be changed in place. Whatever the caller
    /// writes there is what the board holds at that coordinate afterwards; no
    /// other cell changes, nor does the en-passant target.
    pub fn get_square_mut(&mut self, coordinate: Coordinate) -> (square: &mut Square)
        ensures
            *square == old(self).square(coordinate),
            final(self).square(coordinate) == *final(square),
            forall|c: Coordinate| c != coordinate ==> final(self).square(c) == old(self).square(c),
            final(self).can_passant == old(self).can_passant,
    {
        &mut self.squares[coordinate.rank.index()][coordinate.file.index()]
    }

    /// Puts `piece` on a square, or empties it.
    fn place(&mut self, coordinate: Coordinate, piece: Option<Piece>)
        ensures
            final(self)@.occupants == old(self)@.occupants.insert(coordinate, piece),
            final(self).can_passant == old(self).can_passant,
            final(self).same_frame(old(self)),
    {
        let square = self.get_square_mut(coordinate);
        square.piece = piece;
        proof {
            assert(final(self)@.occupants =~= old(self)@.occupants.insert(coordinate, piece));
        }
    }
}

fn home_rank_of(color: Color) -> (rank: Rank)
    ensures
        rank == home_rank(color),
{
    match color {
        Color::White => Rank::One,
        Color::Black => Rank::Eight,
    }
}

fn pawn_rank_of(color: Color) -> (rank: Rank)
    ensures
        rank == pawn_rank(color),
{
    match color {
        Color::White => Rank::Two,
        Color::Black => Rank::Seven,
    }
}

fn far_rank_of(color: Color) -> (rank: Rank)
    ensures
        rank == far_rank(color),
{
    match color {
        Color::White => Rank::Eight,
        Color::Black => Rank::One,
    }
}

/// The size of a step count, whichever way it points.
fn distance(delta: i8) -> (d: i8)
    requires
        -7 <= delta <= 7,
    ensures
        d == magnitude(delta as int),
{
    if delta < 0 {
        -delta
    } else {
        delta
    }
}

impl Board {
    /// Whether the `k`-th square on the line from `from` towards `to` is
    /// on the board and empty.
    fn is_vacant(&self, from: Coordinate, to: Coordinate, k: i8) -> (vacant: bool)
        requires
            0 < k <= 7,
        ensures
            vacant == self@.vacant(from, to, k as int),
    {
        let file_diff: i8 = to.file - from.file;
        let rank_diff: i8 = to.rank - from.rank;
        let file_step: i8 = if file_diff > 0 {
            k
        } else if file_diff < 0 {
            -k
        } else {
            0
        };
        let rank_step: i8 = if rank_diff > 0 {
            k
        } else if rank_diff < 0 {
            -k
        } else {
            0
        };
        match from + (file_step, rank_step) {
            Ok(square) => self.get_square(square).piece.is_none(),
            Err(_) => false,
        }
    }

    /// Whether every square strictly between `from` and `to` is empty.
    fn path_is_clear(&self, from: Coordinate, to: Coordinate) -> (clear: bool)
        ensures
            clear == self@.path_clear(from, to),
    {
        let files: i8 = distance(to.file - from.file);
        let ranks: i8 = distance(to.rank - from.rank);
        let steps: i8 = if files >= ranks {
            files
        } else {
            ranks
        };
        let mut k: i8 = 1;
        while k < steps
            invariant
                1 <= k,
                steps <= 7,
                steps == span(from, to),
                forall|j: int| 0 < j < k ==> #[trigger] self@.vacant(from, to, j),
            decreases steps - k,
        {
            if !self.is_vacant(from, to, k) {
                return false;
            }
            k += 1;
        }
        true
    }

    /// A sliding piece's move.
    fn validate_slide(&self, chess_move: &Move, on_line: bool) -> (r: Result<(), MoveError>)
        ensures
            r == self@.slide(*chess_move, on_line),
    {
        if !on_line {
            Err(MoveError::Invalid)
        } else if !self.path_is_clear(chess_move.from, chess_move.to) {
            Err(MoveError::Blocked)
        } else {
            Ok(())
        }
    }

    /// The pawn's rules.
    fn validate_pawn(&self, chess_move: &Move, color: Color) -> (r: Result<(), MoveError>)
        ensures
            r == self@.pawn(*chess_move, color),
    {
        let rank_diff: i8 = chess_move.to.rank - chess_move.from.rank;
        let sideways: i8 = distance(chess_move.to.file - chess_move.from.file);
        let advance: i8 = match color {
            Color::White => rank_diff,
            Color::Black => -rank_diff,
        };
        let on_starting_rank = chess_move.from.rank == pawn_rank_of(color);
        let occupied = self.get_square(chess_move.to).piece.is_some();
        let passantable = match self.can_passant {
            Some(target) => target == chess_move.to,
            None => false,
        };
        if !(advance == 1 || (advance == 2 && on_starting_rank)) {
            Err(MoveError::Invalid)
        } else if sideways > 1 {
            Err(MoveError::Invalid)
        } else if sideways == 1 && !occupied && !passantable {
            Err(MoveError::PawnNoCapture)
        } else if sideways == 0 && occupied {
            Err(MoveError::Blocked)
        } else if chess_move.move_type == MoveType::Promotion && chess_move.to.rank != far_rank_of(
            color,
        ) {
            Err(MoveError::PromotionRank)
        } else {
            Ok(())
        }
    }

    /// The rules of castling.
    fn validate_castle(&self, chess_move: &Move, player: &Player) -> (r: Result<(), MoveError>)
        ensures
            r == self@.castle(*chess_move, player.color, player.castling_rights),
    {
        let kingside = chess_move.move_type == MoveType::CastleKingSide;
        let home = home_rank_of(player.color);
        let king_from = Coordinate { file: File::E, rank: home };
        let king_to = Coordinate { file: if kingside { File::G } else { File::C }, rank: home };
        let corner = Coordinate { file: if kingside { File::H } else { File::A }, rank: home };
        if chess_move.piece_type != PieceType::King || chess_move.from != king_from
            || chess_move.to != king_to {
            return Err(MoveError::Invalid);
        }
        let held = match player.castling_rights {
            CastlingRights::Both => true,
            CastlingRights::King => kingside,
            CastlingRights::Queen => !kingside,
            CastlingRights::Neither => false,
        };
        if !held {
            return Err(MoveError::Invalid);
        }
        match self.get_square(corner).piece {
            Some(piece) => {
                if piece.color != player.color || piece.piece_type != PieceType::Rook {
                    return Err(MoveError::Invalid);
                }
            },
            None => {
                return Err(MoveError::Invalid);
            },
        }
        if !self.path_is_clear(chess_move.from, corner) {
            return Err(MoveError::Blocked);
        }
        Ok(())
    }

    /// Decides whether `player` may make `chess_move` on this board, and if
    /// not, why not. Nothing is changed.
    pub fn validate_move(&self, chess_move: &Move, player: &Player) -> (r: Result<(), MoveError>)
        ensures
            r == self@.verdict(*chess_move, player.color, player.castling_rights),
    {
        if chess_move.from == chess_move.to {
            return Err(MoveError::Invalid);
        }
        match self.get_square(chess_move.from).piece {
            Some(piece) => {
                if piece.color != player.color || piece.piece_type != chess_move.piece_type {
                    return Err(MoveError::Invalid);
                }
            },
            None => {
                return Err(MoveError::Invalid);
            },
        }
        match self.get_square(chess_move.to).piece {
            Some(piece) => {
                if piece.color == player.color {
                    return Err(MoveError::Blocked);
                }
            },
            None => {},
        }
        match chess_move.move_type {
            MoveType::CastleKingSide | MoveType::CastleQueenSide => {
                return self.validate_castle(chess_move, player);
            },
            _ => {},
        }
        let files: i8 = distance(chess_move.to.file - chess_move.from.file);
        let ranks: i8 = distance(chess_move.to.rank - chess_move.from.rank);
        match chess_move.piece_type {
            PieceType::Pawn => self.validate_pawn(chess_move, player.color),
            PieceType::Knight => {
                if (files == 1 && ranks == 2) || (files == 2 && ranks == 1) {
                    Ok(())
                } else {
                    Err(MoveError::Invalid)
                }
            },
            PieceType::Bishop => self.validate_slide(chess_move, files == ranks),
            PieceType::Rook => self.validate_slide(chess_move, files == 0 || ranks == 0),
            PieceType::Queen => self.validate_slide(
                chess_move,
                files == 0 || ranks == 0 || files == ranks,
            ),
            PieceType::King => {
                if files <= 1 && ranks <= 1 {
                    Ok(())
                } else {
                    Err(MoveError::Invalid)
                }
            },
        }
    }
}

impl Board {
    /// Makes `chess_move` for `player`, if the rules allow it.
    ///
    /// All or nothing: a move that [`Board::validate_move`] refuses is
    /// refused here with the same error, and board and player stay as they
    /// were. A legal move changes where pieces stand, replaces or clears the
    /// en-passant target, and may narrow the player's castling rights.
    pub fn execute_move(&mut self, chess_move: &Move, player: &mut Player) -> (r: Result<
        (),
        MoveError,
    >)
        ensures
            r == old(self)@.verdict(*chess_move, old(player).color, old(player).castling_rights),
            r is Err ==> *final(self) == *old(self) && *final(player) == *old(player),
            r is Ok ==> final(self)@ == old(self)@.after(*chess_move, old(player).color),
            r is Ok ==> final(self).same_frame(old(self)),
            old(self).well_formed() ==> final(self).well_formed(),
            r is Ok ==> *final(player) == (Player {
                castling_rights: rights_after(
                    old(player).castling_rights,
                    *chess_move,
                    old(player).color,
                ),
                ..*old(player)
            }),
            final(player).castling_rights.within(old(player).castling_rights),
    {
        let valid = self.validate_move(chess_move, player);
        if valid.is_err() {
            return valid;
        }
        let color = player.color;
        let home = home_rank_of(color);
        let piece_type = match (chess_move.move_type, chess_move.promotion) {
            (MoveType::Promotion, Some(kind)) => kind,
            _ => chess_move.piece_type,
        };
        let pawn_moves = chess_move.piece_type == PieceType::Pawn;
        let back: i8 = match color {
            Color::White => -1,
            Color::Black => 1,
        };
        let passed_over = chess_move.to + (0i8, back);
        if pawn_moves {
            match (self.can_passant, passed_over) {
                (Some(target), Ok(square)) => {
                    if target == chess_move.to {
                        self.place(square, None);
                    }
                },
                _ => {},
            }
        }
        match chess_move.move_type {
            MoveType::CastleKingSide | MoveType::CastleQueenSide => {
                let kingside = chess_move.move_type == MoveType::CastleKingSide;
                let corner = Coordinate {
                    file: if kingside { File::H } else { File::A },
                    rank: home,
                };
                let landing = Coordinate {
                    file: if kingside { File::F } else { File::D },
                    rank: home,
                };
                player.remove_castling_rights(CastlingRights::Both);
                self.place(corner, None);
                self.place(landing, Some(Piece::new(color, PieceType::Rook)));
            },
            _ => {
                if chess_move.piece_type == PieceType::Rook && chess_move.from.rank == home {
                    match chess_move.from.file {
                        File::A => player.remove_castling_rights(CastlingRights::Queen),
                        File::H => player.remove_castling_rights(CastlingRights::King),
                        _ => (),
                    }
                }
            },
        }
        let ghost before = *self;
        let rank_diff: i8 = chess_move.to.rank - chess_move.from.rank;
        let double_step = pawn_moves && chess_move.from.rank == pawn_rank_of(color) && distance(
            rank_diff,
        ) == 2;
        self.can_passant = match (double_step, passed_over) {
            (true, Ok(square)) => Some(square),
            _ => None,
        };
        proof {
            assert(self.squares == before.squares);
            assert forall|c: Coordinate| #[trigger] self.square(c) == before.square(c) by {}
        }
        self.place(chess_move.from, None);
        self.place(chess_move.to, Some(Piece::new(color, piece_type)));
        proof {
            assert(final(self)@.occupants =~= old(self)@.after(
                *chess_move,
                old(player).color,
            ).occupants);
        }
        Ok(())
    }
}

impl Default for Board {
    /// The board at the start of a game.
    fn default() -> (board: Board)
        ensures
            forall|c: Coordinate| #[trigger] board.square(c) == initial_square(c),
            board.can_passant is None,
            board.well_formed(),
    {
        let blank = Square {
            coordinate: Coordinate { file: File::A, rank: Rank::One },
            piece: None,
            index: 0,
            color: Color::Black,
        };
        let mut squares: [[Square; 8]; 8] = [[blank; 8]; 8];
        let mut rank_no: usize = 0;
        while rank_no < 8
            invariant
                rank_no <= 8,
                forall|c: Coordinate|
                    c.rank.spec_index() < rank_no ==> squares[c.rank.spec_index()][c.file.spec_index()]
                        == #[trigger] initial_square(c),
            decreases 8 - rank_no,
        {
            let mut file_no: usize = 0;
            while file_no < 8
                invariant
                    rank_no < 8,
                    file_no <= 8,
                    forall|c: Coordinate|
                        c.rank.spec_index() < rank_no || (c.rank.spec_index() == rank_no
                            && c.file.spec_index() < file_no)
                            ==> squares[c.rank.spec_index()][c.file.spec_index()]
                            == #[trigger] initial_square(c),
                decreases 8 - file_no,
            {
                match (File::try_from(file_no), Rank::try_from(rank_no)) {
                    (Ok(file), Ok(rank)) => {
                        let color = if (rank_no + file_no) % 2 == 0 {
                            Color::Black
                        } else {
                            Color::White
                        };
                        let piece_color = if rank == Rank::One || rank == Rank::Two {
                            Color::White
                        } else {
                            Color::Black
                        };
                        let piece: Option<Piece> = match rank {
                            Rank::One | Rank::Eight => match file {
                                File::A | File::H => Some(Piece::new(piece_color, PieceType::Rook)),
                                File::B | File::G => Some(
                                    Piece::new(piece_color, PieceType::Knight),
                                ),
                                File::C | File::F => Some(
                                    Piece::new(piece_color, PieceType::Bishop),
                                ),
                                File::D => Some(Piece::new(piece_color, PieceType::Queen)),
                                File::E => Some(Piece::new(piece_color, PieceType::King)),
                            },
                            Rank::Two | Rank::Seven => Some(
                                Piece::new(piece_color, PieceType::Pawn),
                            ),
                            _ => None,
                        };
                        squares[rank_no][file_no] = Square {
                            coordinate: Coordinate { file, rank },
                            color,
                            index: rank_no * 8 + file_no,
                            piece,
                        };
                    },
                    _ => {},
                }
                file_no += 1;
            }
            rank_no += 1;
        }
        let board = Board { can_passant: None, squares };
        proof {
            assert forall|c: Coordinate| #[trigger] board.square(c) == initial_square(c) by {}
        }
        board
    }
}

} // verus!
