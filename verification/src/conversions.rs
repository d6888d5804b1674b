//! Numbers to files and ranks: every integer type converts, and every value
//! off the board is refused.

use vstd::prelude::*;
use crate::coordinate::{File, Rank};
use crate::game::MoveError;

verus! {

impl TryFrom<i8> for File {
    type Error = MoveError;

    /// The file with the given zero-based number.
    fn try_from(value: i8) -> (r: Result<File, MoveError>)
        ensures
            r == File::at(value as int),
    {
        if value < 0 || value > 7 {
            Err(MoveError::OutOfBounds)
        } else {
            File::try_from(value as u8)
        }
    }
}

impl vstd::std_specs::convert::TryFromSpecImpl<i8> for File {
    open spec fn obeys_try_from_spec() -> bool {
        true
    }

    open spec fn try_from_spec(value: i8) -> Result<File, MoveError> {
        File::at(value as int)
    }
}

impl TryFrom<i16> for File {
    type Error = MoveError;

    /// The file with the given zero-based number.
    fn try_from(value: i16) -> (r: Result<File, MoveError>)
        ensures
            r == File::at(value as int),
    {
        if value < 0 || value > 7 {
            Err(MoveError::OutOfBounds)
        } else {
            File::try_from(value as u8)
        }
    }
}

impl vstd::std_specs::convert::TryFromSpecImpl<i16> for File {
    open spec fn obeys_try_from_spec() -> bool {
        true
    }

    open spec fn try_from_spec(value: i16) -> Result<File, MoveError> {
        File::at(value as int)
    }
}

impl TryFrom<i32> for File {
    type Error = MoveError;

    /// The file with the given zero-based number.
    fn try_from(value: i32) -> (r: Result<File, MoveError>)
        ensures
            r == File::at(value as int),
    {
        if value < 0 || value > 7 {
            Err(MoveError::OutOfBounds)
        } else {
            File::try_from(value as u8)
        }
    }
}

impl vstd::std_specs::convert::TryFromSpecImpl<i32> for File {
    open spec fn obeys_try_from_spec() -> bool {
        true
    }

    open spec fn try_from_spec(value: i32) -> Result<File, MoveError> {
        File::at(value as int)
    }
}

impl TryFrom<i64> for File {
    type Error = MoveError;

    /// The file with the given zero-based number.
    fn try_from(value: i64) -> (r: Result<File, MoveError>)
        ensures
            r == File::at(value as int),
    {
        if value < 0 || value > 7 {
            Err(MoveError::OutOfBounds)
        } else {
            File::try_from(value as u8)
        }
    }
}

impl vstd::std_specs::convert::TryFromSpecImpl<i64> for File {
    open spec fn obeys_try_from_spec() -> bool {
        true
    }

    open spec fn try_from_spec(value: i64) -> Result<File, MoveError> {
        File::at(value as int)
    }
}

impl TryFrom<isize> for File {
    type Error = MoveError;

    /// The file with the given zero-based number.
    fn try_from(value: isize) -> (r: Result<File, MoveError>)
        ensures
            r == File::at(value as int),
    {
        if value < 0 || value > 7 {
            Err(MoveError::OutOfBounds)
        } else {
            File::try_from(value as u8)
        }
    }
}

impl vstd::std_specs::convert::TryFromSpecImpl<isize> for File {
    open spec fn obeys_try_from_spec() -> bool {
        true
    }

    open spec fn try_from_spec(value: isize) -> Result<File, MoveError> {
        File::at(value as int)
    }
}

impl TryFrom<u16> for File {
    type Error = MoveError;

    /// The file with the given zero-based number.
    fn try_from(value: u16) -> (r: Result<File, MoveError>)
        ensures
            r == File::at(value as int),
    {
        if value > 7 {
            Err(MoveError::OutOfBounds)
        } else {
            File::try_from(value as u8)
        }
    }
}

impl vstd::std_specs::convert::TryFromSpecImpl<u16> for File {
    open spec fn obeys_try_from_spec() -> bool {
        true
    }

    open spec fn try_from_spec(value: u16) -> Result<File, MoveError> {
        File::at(value as int)
    }
}

impl TryFrom<u32> for File {
    type Error = MoveError;

    /// The file with the given zero-based number.
    fn try_from(value: u32) -> (r: Result<File, MoveError>)
        ensures
            r == File::at(value as int),
    {
        if value > 7 {
            Err(MoveError::OutOfBounds)
        } else {
            File::try_from(value as u8)
        }
    }
}

impl vstd::std_specs::convert::TryFromSpecImpl<u32> for File {
    open spec fn obeys_try_from_spec() -> bool {
        true
    }

    open spec fn try_from_spec(value: u32) -> Result<File, MoveError> {
        File::at(value as int)
    }
}

impl TryFrom<u64> for File {
    type Error = MoveError;

    /// The file with the given zero-based number.
    fn try_from(value: u64) -> (r: Result<File, MoveError>)
        ensures
            r == File::at(value as int),
    {
        if value > 7 {
            Err(MoveError::OutOfBounds)
        } else {
            File::try_from(value as u8)
        }
    }
}

impl vstd::std_specs::convert::TryFromSpecImpl<u64> for File {
    open spec fn obeys_try_from_spec() -> bool {
        true
    }

    open spec fn try_from_spec(value: u64) -> Result<File, MoveError> {
        File::at(value as int)
    }
}

impl TryFrom<i8> for Rank {
    type Error = MoveError;

    /// The rank with the given zero-based number.
    fn try_from(value: i8) -> (r: Result<Rank, MoveError>)
        ensures
            r == Rank::at(value as int),
    {
        if value < 0 || value > 7 {
            Err(MoveError::OutOfBounds)
        } else {
            Rank::try_from(value as u8)
        }
    }
}

impl vstd::std_specs::convert::TryFromSpecImpl<i8> for Rank {
    open spec fn obeys_try_from_spec() -> bool {
        true
    }

    open spec fn try_from_spec(value: i8) -> Result<Rank, MoveError> {
        Rank::at(value as int)
    }
}

impl TryFrom<i16> for Rank {
    type Error = MoveError;

    /// The rank with the given zero-based number.
    fn try_from(value: i16) -> (r: Result<Rank, MoveError>)
        ensures
            r == Rank::at(value as int),
    {
        if value < 0 || value > 7 {
            Err(MoveError::OutOfBounds)
        } else {
            Rank::try_from(value as u8)
        }
    }
}

impl vstd::std_specs::convert::TryFromSpecImpl<i16> for Rank {
    open spec fn obeys_try_from_spec() -> bool {
        true
    }

    open spec fn try_from_spec(value: i16) -> Result<Rank, MoveError> {
        Rank::at(value as int)
    }
}

impl TryFrom<i32> for Rank {
    type Error = MoveError;

    /// The rank with the given zero-based number.
    fn try_from(value: i32) -> (r: Result<Rank, MoveError>)
        ensures
            r == Rank::at(value as int),
    {
        if value < 0 || value > 7 {
            Err(MoveError::OutOfBounds)
        } else {
            Rank::try_from(value as u8)
        }
    }
}

impl vstd::std_specs::convert::TryFromSpecImpl<i32> for Rank {
    open spec fn obeys_try_from_spec() -> bool {
        true
    }

    open spec fn try_from_spec(value: i32) -> Result<Rank, MoveError> {
        Rank::at(value as int)
    }
}

impl TryFrom<i64> for Rank {
    type Error = MoveError;

    /// The rank with the given zero-based number.
    fn try_from(value: i64) -> (r: Result<Rank, MoveError>)
        ensures
            r == Rank::at(value as int),
    {
        if value < 0 || value > 7 {
            Err(MoveError::OutOfBounds)
        } else {
            Rank::try_from(value as u8)
        }
    }
}

impl vstd::std_specs::convert::TryFromSpecImpl<i64> for Rank {
    open spec fn obeys_try_from_spec() -> bool {
        true
    }

    open spec fn try_from_spec(value: i64) -> Result<Rank, MoveError> {
        Rank::at(value as int)
    }
}

impl TryFrom<isize> for Rank {
    type Error = MoveError;

    /// The rank with the given zero-based number.
    fn try_from(value: isize) -> (r: Result<Rank, MoveError>)
        ensures
            r == Rank::at(value as int),
    {
        if value < 0 || value > 7 {
            Err(MoveError::OutOfBounds)
        } else {
            Rank::try_from(value as u8)
        }
    }
}

impl vstd::std_specs::convert::TryFromSpecImpl<isize> for Rank {
    open spec fn obeys_try_from_spec() -> bool {
        true
    }

    open spec fn try_from_spec(value: isize) -> Result<Rank, MoveError> {
        Rank::at(value as int)
    }
}

impl TryFrom<u16> for Rank {
    type Error = MoveError;

    /// The rank with the given zero-based number.
    fn try_from(value: u16) -> (r: Result<Rank, MoveError>)
        ensures
            r == Rank::at(value as int),
    {
        if value > 7 {
            Err(MoveError::OutOfBounds)
        } else {
            Rank::try_from(value as u8)
        }
    }
}

impl vstd::std_specs::convert::TryFromSpecImpl<u16> for Rank {
    open spec fn obeys_try_from_spec() -> bool {
        true
    }

    open spec fn try_from_spec(value: u16) -> Result<Rank, MoveError> {
        Rank::at(value as int)
    }
}

impl TryFrom<u32> for Rank {
    type Error = MoveError;

    /// The rank with the given zero-based number.
    fn try_from(value: u32) -> (r: Result<Rank, MoveError>)
        ensures
            r == Rank::at(value as int),
    {
        if value > 7 {
            Err(MoveError::OutOfBounds)
        } else {
            Rank::try_from(value as u8)
        }
    }
}

impl vstd::std_specs::convert::TryFromSpecImpl<u32> for Rank {
    open spec fn obeys_try_from_spec() -> bool {
        true
    }

    open spec fn try_from_spec(value: u32) -> Result<Rank, MoveError> {
        Rank::at(value as int)
    }
}

impl TryFrom<u64> for Rank {
    type Error = MoveError;

    /// The rank with the given zero-based number.
    fn try_from(value: u64) -> (r: Result<Rank, MoveError>)
        ensures
            r == Rank::at(value as int),
    {
        if value > 7 {
            Err(MoveError::OutOfBounds)
        } else {
            Rank::try_from(value as u8)
        }
    }
}

impl vstd::std_specs::convert::TryFromSpecImpl<u64> for Rank {
    open spec fn obeys_try_from_spec() -> bool {
        true
    }

    open spec fn try_from_spec(value: u64) -> Result<Rank, MoveError> {
        Rank::at(value as int)
    }
}

} // verus!
