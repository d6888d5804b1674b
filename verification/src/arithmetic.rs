//! Plain arithmetic on files and ranks, by their zero-based numbers. The
//! results are numbers, not squares: turning one back into a file or a rank
//! is a conversion, which fails off the board.

use vstd::prelude::*;
use crate::coordinate::{Coordinate, File, Rank};

verus! {

impl core::ops::Add for File {
    type Output = u8;

    /// The sum of two file numbers.
    fn add(self, rhs: File) -> (sum: u8)
        ensures
            sum == self.spec_index() + rhs.spec_index(),
    {
        self.index() as u8 + rhs.index() as u8
    }
}

impl vstd::std_specs::ops::AddSpecImpl for File {
    open spec fn obeys_add_spec() -> bool {
        true
    }

    open spec fn add_req(self, rhs: File) -> bool {
        true
    }

    open spec fn add_spec(self, rhs: File) -> u8 {
        (self.spec_index() + rhs.spec_index()) as u8
    }
}

impl core::ops::Add<u8> for File {
    type Output = u8;

    /// The file's number plus `rhs`.
    fn add(self, rhs: u8) -> (sum: u8)
        ensures
            sum == self.spec_index() + rhs,
    {
        self.index() as u8 + rhs
    }
}

impl vstd::std_specs::ops::AddSpecImpl<u8> for File {
    open spec fn obeys_add_spec() -> bool {
        true
    }

    open spec fn add_req(self, rhs: u8) -> bool {
        self.spec_index() + rhs <= u8::MAX
    }

    open spec fn add_spec(self, rhs: u8) -> u8 {
        (self.spec_index() + rhs) as u8
    }
}

impl core::ops::Sub<u8> for File {
    type Output = i8;

    /// The file's number minus `rhs`.
    fn sub(self, rhs: u8) -> (difference: i8)
        ensures
            difference == self.spec_index() - rhs,
    {
        (self.index() as i16 - rhs as i16) as i8
    }
}

impl vstd::std_specs::ops::SubSpecImpl<u8> for File {
    open spec fn obeys_sub_spec() -> bool {
        true
    }

    open spec fn sub_req(self, rhs: u8) -> bool {
        self.spec_index() - rhs >= i8::MIN
    }

    open spec fn sub_spec(self, rhs: u8) -> i8 {
        (self.spec_index() - rhs) as i8
    }
}

impl core::ops::Add<i8> for File {
    type Output = i8;

    /// The file's number plus `rhs`.
    fn add(self, rhs: i8) -> (sum: i8)
        ensures
            sum == self.spec_index() + rhs,
    {
        self.index() as i8 + rhs
    }
}

impl vstd::std_specs::ops::AddSpecImpl<i8> for File {
    open spec fn obeys_add_spec() -> bool {
        true
    }

    open spec fn add_req(self, rhs: i8) -> bool {
        self.spec_index() + rhs <= i8::MAX
    }

    open spec fn add_spec(self, rhs: i8) -> i8 {
        (self.spec_index() + rhs) as i8
    }
}

impl core::ops::Sub<i8> for File {
    type Output = i8;

    /// The file's number minus `rhs`.
    fn sub(self, rhs: i8) -> (difference: i8)
        ensures
            difference == self.spec_index() - rhs,
    {
        (self.index() as i16 - rhs as i16) as i8
    }
}

impl vstd::std_specs::ops::SubSpecImpl<i8> for File {
    open spec fn obeys_sub_spec() -> bool {
        true
    }

    open spec fn sub_req(self, rhs: i8) -> bool {
        self.spec_index() - rhs <= i8::MAX
    }

    open spec fn sub_spec(self, rhs: i8) -> i8 {
        (self.spec_index() - rhs) as i8
    }
}

impl core::ops::Add for Rank {
    type Output = u8;

    /// The sum of two rank numbers.
    fn add(self, rhs: Rank) -> (sum: u8)
        ensures
            sum == self.spec_index() + rhs.spec_index(),
    {
        self.index() as u8 + rhs.index() as u8
    }
}

impl vstd::std_specs::ops::AddSpecImpl for Rank {
    open spec fn obeys_add_spec() -> bool {
        true
    }

    open spec fn add_req(self, rhs: Rank) -> bool {
        true
    }

    open spec fn add_spec(self, rhs: Rank) -> u8 {
        (self.spec_index() + rhs.spec_index()) as u8
    }
}

impl core::ops::Add<u8> for Rank {
    type Output = u8;

    /// The rank's number plus `rhs`.
    fn add(self, rhs: u8) -> (sum: u8)
        ensures
            sum == self.spec_index() + rhs,
    {
        self.index() as u8 + rhs
    }
}

impl vstd::std_specs::ops::AddSpecImpl<u8> for Rank {
    open spec fn obeys_add_spec() -> bool {
        true
    }

    open spec fn add_req(self, rhs: u8) -> bool {
        self.spec_index() + rhs <= u8::MAX
    }

    open spec fn add_spec(self, rhs: u8) -> u8 {
        (self.spec_index() + rhs) as u8
    }
}

impl core::ops::Sub<u8> for Rank {
    type Output = i8;

    /// The rank's number minus `rhs`.
    fn sub(self, rhs: u8) -> (difference: i8)
        ensures
            difference == self.spec_index() - rhs,
    {
        (self.index() as i16 - rhs as i16) as i8
    }
}

impl vstd::std_specs::ops::SubSpecImpl<u8> for Rank {
    open spec fn obeys_sub_spec() -> bool {
        true
    }

    open spec fn sub_req(self, rhs: u8) -> bool {
        self.spec_index() - rhs >= i8::MIN
    }

    open spec fn sub_spec(self, rhs: u8) -> i8 {
        (self.spec_index() - rhs) as i8
    }
}

impl core::ops::Add<i8> for Rank {
    type Output = i8;

    /// The rank's number plus `rhs`.
    fn add(self, rhs: i8) -> (sum: i8)
        ensures
            sum == self.spec_index() + rhs,
    {
        self.index() as i8 + rhs
    }
}

impl vstd::std_specs::ops::AddSpecImpl<i8> for Rank {
    open spec fn obeys_add_spec() -> bool {
        true
    }

    open spec fn add_req(self, rhs: i8) -> bool {
        self.spec_index() + rhs <= i8::MAX
    }

    open spec fn add_spec(self, rhs: i8) -> i8 {
        (self.spec_index() + rhs) as i8
    }
}

impl core::ops::Sub<i8> for Rank {
    type Output = i8;

    /// The rank's number minus `rhs`.
    fn sub(self, rhs: i8) -> (difference: i8)
        ensures
            difference == self.spec_index() - rhs,
    {
        (self.index() as i16 - rhs as i16) as i8
    }
}

impl vstd::std_specs::ops::SubSpecImpl<i8> for Rank {
    open spec fn obeys_sub_spec() -> bool {
        true
    }

    open spec fn sub_req(self, rhs: i8) -> bool {
        self.spec_index() - rhs <= i8::MAX
    }

    open spec fn sub_spec(self, rhs: i8) -> i8 {
        (self.spec_index() - rhs) as i8
    }
}

impl core::ops::Add for Coordinate {
    type Output = (u8, u8);

    /// The sum of two squares' rank numbers, and that of their file numbers.
    fn add(self, rhs: Coordinate) -> (sum: (u8, u8))
        ensures
            sum.0 == self.rank.spec_index() + rhs.rank.spec_index(),
            sum.1 == self.file.spec_index() + rhs.file.spec_index(),
    {
        (self.rank + rhs.rank, self.file + rhs.file)
    }
}

impl vstd::std_specs::ops::AddSpecImpl for Coordinate {
    open spec fn obeys_add_spec() -> bool {
        true
    }

    open spec fn add_req(self, rhs: Coordinate) -> bool {
        true
    }

    open spec fn add_spec(self, rhs: Coordinate) -> (u8, u8) {
        (
            (self.rank.spec_index() + rhs.rank.spec_index()) as u8,
            (self.file.spec_index() + rhs.file.spec_index()) as u8,
        )
    }
}

} // verus!
