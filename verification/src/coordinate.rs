use vstd::prelude::*;
use crate::board::Color;
use crate::game::MoveError;

verus! {

/// A column of the board, `a` to `h`.
#[derive(Clone, Copy, Debug, PartialEq, Eq, Structural, Ord, Hash)]
pub enum File {
    A,
    B,
    C,
    D,
    E,
    F,
    G,
    H,
}

impl File {
    /// The zero-based number of the file: 0 for `a`, 7 for `h`.
    pub open spec fn spec_index(self) -> int {
        match self {
            File::A => 0,
            File::B => 1,
            File::C => 2,
            File::D => 3,
            File::E => 4,
            File::F => 5,
            File::G => 6,
            File::H => 7,
        }
    }

    /// The file with the given zero-based number, if it is on the board.
    pub open spec fn at(i: int) -> Result<File, MoveError> {
        if i == 0 {
            Ok(File::A)
        } else if i == 1 {
            Ok(File::B)
        } else if i == 2 {
            Ok(File::C)
        } else if i == 3 {
            Ok(File::D)
        } else if i == 4 {
            Ok(File::E)
        } else if i == 5 {
            Ok(File::F)
        } else if i == 6 {
            Ok(File::G)
        } else if i == 7 {
            Ok(File::H)
        } else {
            Err(MoveError::OutOfBounds)
        }
    }

    /// The letter that names the file.
    pub open spec fn letter(self) -> char {
        match self {
            File::A => 'a',
            File::B => 'b',
            File::C => 'c',
            File::D => 'd',
            File::E => 'e',
            File::F => 'f',
            File::G => 'g',
            File::H => 'h',
        }
    }

    /// The file that a letter names, if it names one.
    pub open spec fn named(c: char) -> Result<File, MoveError> {
        if c == 'a' {
            Ok(File::A)
        } else if c == 'b' {
            Ok(File::B)
        } else if c == 'c' {
            Ok(File::C)
        } else if c == 'd' {
            Ok(File::D)
        } else if c == 'e' {
            Ok(File::E)
        } else if c == 'f' {
            Ok(File::F)
        } else if c == 'g' {
            Ok(File::G)
        } else if c == 'h' {
            Ok(File::H)
        } else {
            Err(MoveError::OutOfBounds)
        }
    }

    /// The zero-based number of the file.
    pub fn index(self) -> (i: usize)
        ensures
            i == self.spec_index(),
            i < 8,
    {
        match self {
            File::A => 0,
            File::B => 1,
            File::C => 2,
            File::D => 3,
            File::E => 4,
            File::F => 5,
            File::G => 6,
            File::H => 7,
        }
    }

    /// The file `delta` columns to the right (to the left when negative), or
    /// `OutOfBounds` when that leaves the board.
    pub fn offset(self, delta: i8) -> (r: Result<File, MoveError>)
        ensures
            r == File::at(self.spec_index() + delta),
    {
        let target: i16 = self.index() as i16 + delta as i16;
        if target < 0 || target > 7 {
            Err(MoveError::OutOfBounds)
        } else {
            File::try_from(target as u8)
        }
    }
}

impl TryFrom<u8> for File {
    type Error = MoveError;

    fn try_from(value: u8) -> (r: Result<File, MoveError>)
        ensures
            r == File::at(value as int),
    {
        match value {
            0 => Ok(File::A),
            1 => Ok(File::B),
            2 => Ok(File::C),
            3 => Ok(File::D),
            4 => Ok(File::E),
            5 => Ok(File::F),
            6 => Ok(File::G),
            7 => Ok(File::H),
            _ => Err(MoveError::OutOfBounds),
        }
    }
}

impl vstd::std_specs::convert::TryFromSpecImpl<u8> for File {
    open spec fn obeys_try_from_spec() -> bool {
        true
    }

    open spec fn try_from_spec(value: u8) -> Result<File, MoveError> {
        File::at(value as int)
    }
}

impl TryFrom<usize> for File {
    type Error = MoveError;

    fn try_from(value: usize) -> (r: Result<File, MoveError>)
        ensures
            r == File::at(value as int),
    {
        if value > 7 {
            Err(MoveError::OutOfBounds)
        } else {
            File::try_from(value as u8)
        }
    }
}

impl vstd::std_specs::convert::TryFromSpecImpl<usize> for File {
    open spec fn obeys_try_from_spec() -> bool {
        true
    }

    open spec fn try_from_spec(value: usize) -> Result<File, MoveError> {
        File::at(value as int)
    }
}

impl TryFrom<char> for File {
    type Error = MoveError;

    fn try_from(value: char) -> (r: Result<File, MoveError>)
        ensures
            r == File::named(value),
    {
        match value {
            'a' => Ok(File::A),
            'b' => Ok(File::B),
            'c' => Ok(File::C),
            'd' => Ok(File::D),
            'e' => Ok(File::E),
            'f' => Ok(File::F),
            'g' => Ok(File::G),
            'h' => Ok(File::H),
            _ => Err(MoveError::OutOfBounds),
        }
    }
}

impl vstd::std_specs::convert::TryFromSpecImpl<char> for File {
    open spec fn obeys_try_from_spec() -> bool {
        true
    }

    open spec fn try_from_spec(value: char) -> Result<File, MoveError> {
        File::named(value)
    }
}

impl From<File> for char {
    fn from(value: File) -> (letter: char)
        ensures
            letter == value.letter(),
    {
        match value {
            File::A => 'a',
            File::B => 'b',
            File::C => 'c',
            File::D => 'd',
            File::E => 'e',
            File::F => 'f',
            File::G => 'g',
            File::H => 'h',
        }
    }
}

impl vstd::std_specs::convert::FromSpecImpl<File> for char {
    open spec fn obeys_from_spec() -> bool {
        true
    }

    open spec fn from_spec(value: File) -> char {
        value.letter()
    }
}

impl core::ops::Sub for File {
    type Output = i8;

    /// The signed distance from `rhs` to `self`.
    fn sub(self, rhs: File) -> (distance: i8)
        ensures
            distance == self.spec_index() - rhs.spec_index(),
    {
        self.index() as i8 - rhs.index() as i8
    }
}

impl vstd::std_specs::ops::SubSpecImpl for File {
    open spec fn obeys_sub_spec() -> bool {
        true
    }

    open spec fn sub_req(self, rhs: File) -> bool {
        true
    }

    open spec fn sub_spec(self, rhs: File) -> i8 {
        (self.spec_index() - rhs.spec_index()) as i8
    }
}

/// A row of the board, `1` to `8`.
#[derive(Clone, Copy, Debug, PartialEq, Eq, Structural, Ord, Hash)]
pub enum Rank {
    One,
    Two,
    Three,
    Four,
    Five,
    Six,
    Seven,
    Eight,
}

impl Rank {
    /// The zero-based number of the rank: 0 for the first rank, 7 for the eighth.
    pub open spec fn spec_index(self) -> int {
        match self {
            Rank::One => 0,
            Rank::Two => 1,
            Rank::Three => 2,
            Rank::Four => 3,
            Rank::Five => 4,
            Rank::Six => 5,
            Rank::Seven => 6,
            Rank::Eight => 7,
        }
    }

    /// The rank with the given zero-based number, if it is on the board.
    pub open spec fn at(i: int) -> Result<Rank, MoveError> {
        if i == 0 {
            Ok(Rank::One)
        } else if i == 1 {
            Ok(Rank::Two)
        } else if i == 2 {
            Ok(Rank::Three)
        } else if i == 3 {
            Ok(Rank::Four)
        } else if i == 4 {
            Ok(Rank::Five)
        } else if i == 5 {
            Ok(Rank::Six)
        } else if i == 6 {
            Ok(Rank::Seven)
        } else if i == 7 {
            Ok(Rank::Eight)
        } else {
            Err(MoveError::OutOfBounds)
        }
    }

    /// The digit that names the rank.
    pub open spec fn digit(self) -> char {
        match self {
            Rank::One => '1',
            Rank::Two => '2',
            Rank::Three => '3',
            Rank::Four => '4',
            Rank::Five => '5',
            Rank::Six => '6',
            Rank::Seven => '7',
            Rank::Eight => '8',
        }
    }

    /// The rank that a digit names, if it names one.
    pub open spec fn named(c: char) -> Result<Rank, MoveError> {
        if c == '1' {
            Ok(Rank::One)
        } else if c == '2' {
            Ok(Rank::Two)
        } else if c == '3' {
            Ok(Rank::Three)
        } else if c == '4' {
            Ok(Rank::Four)
        } else if c == '5' {
            Ok(Rank::Five)
        } else if c == '6' {
            Ok(Rank::Six)
        } else if c == '7' {
            Ok(Rank::Seven)
        } else if c == '8' {
            Ok(Rank::Eight)
        } else {
            Err(MoveError::OutOfBounds)
        }
    }

    /// The direction in which a side's pawns advance: up the board for White,
    /// down for Black.
    pub open spec fn heading(color: Color) -> int {
        match color {
            Color::White => 1,
            Color::Black => -1,
        }
    }

    /// The rank `distance` steps ahead of this one, as `color` sees the board.
    pub open spec fn ahead(self, distance: int, color: Color) -> Result<Rank, MoveError> {
        Rank::at(self.spec_index() + distance * Rank::heading(color))
    }

    /// The zero-based number of the rank.
    pub fn index(self) -> (i: usize)
        ensures
            i == self.spec_index(),
            i < 8,
    {
        match self {
            Rank::One => 0,
            Rank::Two => 1,
            Rank::Three => 2,
            Rank::Four => 3,
            Rank::Five => 4,
            Rank::Six => 5,
            Rank::Seven => 6,
            Rank::Eight => 7,
        }
    }

    /// The rank `delta` rows up (down when negative), or `OutOfBounds` when
    /// that leaves the board.
    pub fn offset(self, delta: i8) -> (r: Result<Rank, MoveError>)
        ensures
            r == Rank::at(self.spec_index() + delta),
    {
        let target: i16 = self.index() as i16 + delta as i16;
        if target < 0 || target > 7 {
            Err(MoveError::OutOfBounds)
        } else {
            Rank::try_from(target as u8)
        }
    }

    /// The rank `distance` steps ahead for `color`: towards the eighth rank
    /// for White, towards the first for Black. Fails with `OutOfBounds` when
    /// the board ends before that.
    pub fn forward(self, distance: u8, color: Color) -> (r: Result<Rank, MoveError>)
        ensures
            r == self.ahead(distance as int, color),
    {
        if distance > 7 {
            return Err(MoveError::OutOfBounds);
        }
        match color {
            Color::White => self.offset(distance as i8),
            Color::Black => self.offset(-(distance as i8)),
        }
    }
}

impl TryFrom<u8> for Rank {
    type Error = MoveError;

    fn try_from(value: u8) -> (r: Result<Rank, MoveError>)
        ensures
            r == Rank::at(value as int),
    {
        match value {
            0 => Ok(Rank::One),
            1 => Ok(Rank::Two),
            2 => Ok(Rank::Three),
            3 => Ok(Rank::Four),
            4 => Ok(Rank::Five),
            5 => Ok(Rank::Six),
            6 => Ok(Rank::Seven),
            7 => Ok(Rank::Eight),
            _ => Err(MoveError::OutOfBounds),
        }
    }
}

impl vstd::std_specs::convert::TryFromSpecImpl<u8> for Rank {
    open spec fn obeys_try_from_spec() -> bool {
        true
    }

    open spec fn try_from_spec(value: u8) -> Result<Rank, MoveError> {
        Rank::at(value as int)
    }
}

impl TryFrom<usize> for Rank {
    type Error = MoveError;

    fn try_from(value: usize) -> (r: Result<Rank, MoveError>)
        ensures
            r == Rank::at(value as int),
    {
        if value > 7 {
            Err(MoveError::OutOfBounds)
        } else {
            Rank::try_from(value as u8)
        }
    }
}

impl vstd::std_specs::convert::TryFromSpecImpl<usize> for Rank {
    open spec fn obeys_try_from_spec() -> bool {
        true
    }

    open spec fn try_from_spec(value: usize) -> Result<Rank, MoveError> {
        Rank::at(value as int)
    }
}

impl TryFrom<char> for Rank {
    type Error = MoveError;

    fn try_from(value: char) -> (r: Result<Rank, MoveError>)
        ensures
            r == Rank::named(value),
    {
        match value {
            '1' => Ok(Rank::One),
            '2' => Ok(Rank::Two),
            '3' => Ok(Rank::Three),
            '4' => Ok(Rank::Four),
            '5' => Ok(Rank::Five),
            '6' => Ok(Rank::Six),
            '7' => Ok(Rank::Seven),
            '8' => Ok(Rank::Eight),
            _ => Err(MoveError::OutOfBounds),
        }
    }
}

impl vstd::std_specs::convert::TryFromSpecImpl<char> for Rank {
    open spec fn obeys_try_from_spec() -> bool {
        true
    }

    open spec fn try_from_spec(value: char) -> Result<Rank, MoveError> {
        Rank::named(value)
    }
}

impl From<Rank> for char {
    fn from(value: Rank) -> (digit: char)
        ensures
            digit == value.digit(),
    {
        match value {
            Rank::One => '1',
            Rank::Two => '2',
            Rank::Three => '3',
            Rank::Four => '4',
            Rank::Five => '5',
            Rank::Six => '6',
            Rank::Seven => '7',
            Rank::Eight => '8',
        }
    }
}

impl vstd::std_specs::convert::FromSpecImpl<Rank> for char {
    open spec fn obeys_from_spec() -> bool {
        true
    }

    open spec fn from_spec(value: Rank) -> char {
        value.digit()
    }
}

impl core::ops::Sub for Rank {
    type Output = i8;

    /// The signed distance from `rhs` to `self`.
    fn sub(self, rhs: Rank) -> (distance: i8)
        ensures
            distance == self.spec_index() - rhs.spec_index(),
    {
        self.index() as i8 - rhs.index() as i8
    }
}

impl vstd::std_specs::ops::SubSpecImpl for Rank {
    open spec fn obeys_sub_spec() -> bool {
        true
    }

    open spec fn sub_req(self, rhs: Rank) -> bool {
        true
    }

    open spec fn sub_spec(self, rhs: Rank) -> i8 {
        (self.spec_index() - rhs.spec_index()) as i8
    }
}


/// A square's address: a file and a rank.
#[derive(Clone, Copy, Debug, PartialEq, Eq, Structural, Ord, Hash)]
pub struct Coordinate {
    pub file: File,
    pub rank: Rank,
}

impl Coordinate {
    /// The square `dfile` columns and `drank` rows away, or `OutOfBounds` when
    /// that square is not on the board.
    pub open spec fn shifted(self, dfile: int, drank: int) -> Result<Coordinate, MoveError> {
        match (File::at(self.file.spec_index() + dfile), Rank::at(self.rank.spec_index() + drank)) {
            (Ok(file), Ok(rank)) => Ok(Coordinate { file, rank }),
            _ => Err(MoveError::OutOfBounds),
        }
    }

    /// The square that two characters name, file letter first.
    pub open spec fn named(file: char, rank: char) -> Result<Coordinate, MoveError> {
        match (File::named(file), Rank::named(rank)) {
            (Ok(file), Ok(rank)) => Ok(Coordinate { file, rank }),
            _ => Err(MoveError::OutOfBounds),
        }
    }

    /// The square's name: the file's letter, then the rank's digit.
    pub open spec fn name(self) -> Seq<char> {
        seq![self.file.letter(), self.rank.digit()]
    }

    /// The square's name, such as `e4`.
    pub fn to_string(&self) -> (text: String)
        ensures
            text@ == self.name(),
    {
        let mut text = String::new();
        text.push(self.file.into());
        text.push(self.rank.into());
        proof {
            assert(text@ =~= self.name());
        }
        text
    }
}

impl Default for Coordinate {
    fn default() -> (c: Coordinate)
        ensures
            c == (Coordinate { file: File::A, rank: Rank::One }),
    {
        Coordinate { file: File::A, rank: Rank::One }
    }
}

impl core::ops::Add<(i8, i8)> for Coordinate {
    type Output = Result<Coordinate, MoveError>;

    /// Moves by `(files, ranks)`; fails rather than wrap round the board's edge.
    fn add(self, rhs: (i8, i8)) -> (r: Result<Coordinate, MoveError>)
        ensures
            r == self.shifted(rhs.0 as int, rhs.1 as int),
    {
        match (self.file.offset(rhs.0), self.rank.offset(rhs.1)) {
            (Ok(file), Ok(rank)) => Ok(Coordinate { file, rank }),
            _ => Err(MoveError::OutOfBounds),
        }
    }
}

impl vstd::std_specs::ops::AddSpecImpl<(i8, i8)> for Coordinate {
    open spec fn obeys_add_spec() -> bool {
        true
    }

    open spec fn add_req(self, rhs: (i8, i8)) -> bool {
        true
    }

    open spec fn add_spec(self, rhs: (i8, i8)) -> Result<Coordinate, MoveError> {
        self.shifted(rhs.0 as int, rhs.1 as int)
    }
}

impl core::ops::Sub<(i8, i8)> for Coordinate {
    type Output = Result<Coordinate, MoveError>;

    /// Moves back by `(files, ranks)`; fails rather than wrap round the board's edge.
    fn sub(self, rhs: (i8, i8)) -> (r: Result<Coordinate, MoveError>)
        ensures
            r == self.shifted(-(rhs.0 as int), -(rhs.1 as int)),
    {
        let file_target: i16 = self.file.index() as i16 - rhs.0 as i16;
        let rank_target: i16 = self.rank.index() as i16 - rhs.1 as i16;
        if file_target < 0 || file_target > 7 || rank_target < 0 || rank_target > 7 {
            return Err(MoveError::OutOfBounds);
        }
        match (File::try_from(file_target as u8), Rank::try_from(rank_target as u8)) {
            (Ok(file), Ok(rank)) => Ok(Coordinate { file, rank }),
            _ => Err(MoveError::OutOfBounds),
        }
    }
}

impl vstd::std_specs::ops::SubSpecImpl<(i8, i8)> for Coordinate {
    open spec fn obeys_sub_spec() -> bool {
        true
    }

    open spec fn sub_req(self, rhs: (i8, i8)) -> bool {
        true
    }

    open spec fn sub_spec(self, rhs: (i8, i8)) -> Result<Coordinate, MoveError> {
        self.shifted(-(rhs.0 as int), -(rhs.1 as int))
    }
}

impl core::ops::Sub for Coordinate {
    type Output = (i8, i8);

    /// The signed distance from `rhs` to `self`: ranks first, then files.
    fn sub(self, rhs: Coordinate) -> (distance: (i8, i8))
        ensures
            distance.0 == self.rank.spec_index() - rhs.rank.spec_index(),
            distance.1 == self.file.spec_index() - rhs.file.spec_index(),
    {
        (self.rank - rhs.rank, self.file - rhs.file)
    }
}

impl vstd::std_specs::ops::SubSpecImpl for Coordinate {
    open spec fn obeys_sub_spec() -> bool {
        true
    }

    open spec fn sub_req(self, rhs: Coordinate) -> bool {
        true
    }

    open spec fn sub_spec(self, rhs: Coordinate) -> (i8, i8) {
        (
            (self.rank.spec_index() - rhs.rank.spec_index()) as i8,
            (self.file.spec_index() - rhs.file.spec_index()) as i8,
        )
    }
}

impl TryFrom<(char, char)> for Coordinate {
    type Error = MoveError;

    /// Reads a square from its file letter and rank digit.
    fn try_from(value: (char, char)) -> (r: Result<Coordinate, MoveError>)
        ensures
            r == Coordinate::named(value.0, value.1),
    {
        match (File::try_from(value.0), Rank::try_from(value.1)) {
            (Ok(file), Ok(rank)) => Ok(Coordinate { file, rank }),
            _ => Err(MoveError::OutOfBounds),
        }
    }
}

impl vstd::std_specs::convert::TryFromSpecImpl<(char, char)> for Coordinate {
    open spec fn obeys_try_from_spec() -> bool {
        true
    }

    open spec fn try_from_spec(value: (char, char)) -> Result<Coordinate, MoveError> {
        Coordinate::named(value.0, value.1)
    }
}

} // verus!
