//! How files, ranks and squares are ordered: files from `a` to `h`, ranks
//! from the first to the eighth, squares by file and then by rank.

use core::cmp::Ordering;
use vstd::prelude::*;
use vstd::std_specs::cmp::PartialOrdSpecImpl;
use crate::coordinate::{Coordinate, File, Rank};

verus! {

/// How two numbers compare.
pub open spec fn compare(a: int, b: int) -> Ordering {
    if a < b {
        Ordering::Less
    } else if a > b {
        Ordering::Greater
    } else {
        Ordering::Equal
    }
}

/// How two squares compare: by file, and on the same file by rank.
pub open spec fn compare_squares(a: Coordinate, b: Coordinate) -> Ordering {
    if a.file != b.file {
        compare(a.file.spec_index(), b.file.spec_index())
    } else {
        compare(a.rank.spec_index(), b.rank.spec_index())
    }
}

fn compare_indices(a: usize, b: usize) -> (r: Ordering)
    ensures
        a < b ==> r == Ordering::Less,
        a > b ==> r == Ordering::Greater,
        a == b ==> r == Ordering::Equal,
{
    if a < b {
        Ordering::Less
    } else if a > b {
        Ordering::Greater
    } else {
        Ordering::Equal
    }
}

impl PartialOrd for File {
    fn partial_cmp(&self, other: &File) -> (r: Option<Ordering>)
        ensures
            r == Some(compare(self.spec_index(), other.spec_index())),
    {
        Some(compare_indices(self.index(), other.index()))
    }
}

impl PartialOrdSpecImpl for File {
    open spec fn obeys_partial_cmp_spec() -> bool {
        true
    }

    open spec fn partial_cmp_spec(&self, other: &File) -> Option<Ordering> {
        Some(compare(self.spec_index(), other.spec_index()))
    }
}

impl PartialOrd for Rank {
    fn partial_cmp(&self, other: &Rank) -> (r: Option<Ordering>)
        ensures
            r == Some(compare(self.spec_index(), other.spec_index())),
    {
        Some(compare_indices(self.index(), other.index()))
    }
}

impl PartialOrdSpecImpl for Rank {
    open spec fn obeys_partial_cmp_spec() -> bool {
        true
    }

    open spec fn partial_cmp_spec(&self, other: &Rank) -> Option<Ordering> {
        Some(compare(self.spec_index(), other.spec_index()))
    }
}

impl PartialOrd for Coordinate {
    fn partial_cmp(&self, other: &Coordinate) -> (r: Option<Ordering>)
        ensures
            r == Some(compare_squares(*self, *other)),
    {
        if self.file != other.file {
            Some(compare_indices(self.file.index(), other.file.index()))
        } else {
            Some(compare_indices(self.rank.index(), other.rank.index()))
        }
    }
}

impl PartialOrdSpecImpl for Coordinate {
    open spec fn obeys_partial_cmp_spec() -> bool {
        true
    }

    open spec fn partial_cmp_spec(&self, other: &Coordinate) -> Option<Ordering> {
        Some(compare_squares(*self, *other))
    }
}

} // verus!
