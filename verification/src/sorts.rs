use vstd::prelude::*;

use crate::fault::Fault;

verus! {

/// The type of a term: boolean, or a bit-vector of a fixed width.
///
/// A boolean is carried as a width-1 bit-vector at the foreign boundary but is
/// distinguished at this level. A sort's width is immutable once constructed.
#[derive(Clone, Copy, Debug, PartialEq, Eq, Structural)]
pub enum Sort {
    Bool,
    Bitvec { width: u32 },
}

impl Sort {
    /// A sort is well formed when a bit-vector width is at least 1.
    pub open spec fn well_formed(self) -> bool {
        self matches Sort::Bitvec { width } ==> width >= 1
    }

    /// The width of the sort as the foreign boundary sees it: a boolean is a
    /// width-1 bit-vector there.
    pub open spec fn spec_width(self) -> u32 {
        match self {
            Sort::Bool => 1u32,
            Sort::Bitvec { width } => width,
        }
    }

    /// The bit-vector width handed to the foreign sort constructor for a
    /// variable of this sort.
    pub fn width(&self) -> (w: u32)
        ensures
            w == self.spec_width(),
    {
        match self {
            Sort::Bool => 1u32,
            Sort::Bitvec { width } => *width,
        }
    }
}

/// The sort that a foreign bit-vector width denotes: width 1 is reported as
/// boolean, any other width as a bit-vector of that width.
pub open spec fn spec_classify_width(w: u32) -> Sort {
    if w == 1 {
        Sort::Bool
    } else {
        Sort::Bitvec { width: w }
    }
}

/// Classifies a foreign bit-vector width into a sort.
pub fn classify_width(w: u32) -> (s: Sort)
    requires
        w >= 1,
    ensures
        s == spec_classify_width(w),
        s.well_formed(),
        s.spec_width() == w,
{
    if w == 1 {
        Sort::Bool
    } else {
        Sort::Bitvec { width: w }
    }
}

/// Classifies what foreign sort introspection reported for a term:
/// `is_bitvec` says whether the foreign sort kind was bit-vector, and `w` is
/// the width it reported in that case. Any sort kind outside bit-vector (and
/// the boolean it subsumes) is an unhandled-sort fault, a deliberate hard
/// stop.
pub fn classify_foreign_sort(is_bitvec: bool, w: u32) -> (r: Result<Sort, Fault>)
    requires
        is_bitvec ==> w >= 1,
    ensures
        is_bitvec ==> r == Ok::<Sort, Fault>(spec_classify_width(w)),
        !is_bitvec ==> r == Err::<Sort, Fault>(Fault::UnhandledSort),
{
    if is_bitvec {
        Ok(classify_width(w))
    } else {
        Err(Fault::UnhandledSort)
    }
}

} // verus!
