//! The screen state machine: three mutually exclusive states advanced
//! cyclically by a logo click, plus the fallible conversion from an external
//! integer code.

use vstd::prelude::*;

verus! {

/// Which panel the overlay shows.
#[derive(Clone, Copy, Debug, PartialEq, Eq, Structural)]
pub enum Status {
    NotFound,
    Loading,
    Loaded,
}

/// Returned when an integer code denotes no status; the conversion fails
/// rather than guessing a default.
#[derive(Clone, Copy, Debug, PartialEq, Eq, Structural)]
pub struct ParseStatusError;

/// Number of status variants; codes are `0 .. STATUS_VARIANTS`.
pub const STATUS_VARIANTS: u32 = 3;

impl Status {
    /// Position of this status in the fixed cycle
    /// `NotFound -> Loading -> Loaded -> NotFound`.
    pub open spec fn index(self) -> int {
        match self {
            Status::NotFound => 0,
            Status::Loading => 1,
            Status::Loaded => 2,
        }
    }

    /// The status one logo click later.
    pub open spec fn next(self) -> Status {
        match self {
            Status::NotFound => Status::Loading,
            Status::Loading => Status::Loaded,
            Status::Loaded => Status::NotFound,
        }
    }

    /// Fallible conversion from an external integer code: succeeds exactly on
    /// the codes `0`, `1` and `2`, and names the status whose index the code
    /// is.
    pub fn try_from(value: u32) -> (r: Result<Status, ParseStatusError>)
        ensures
            value < STATUS_VARIANTS ==> (r matches Ok(s) && s.index() == value),
            value >= STATUS_VARIANTS ==> r is Err,
    {
        match value {
            0u32 => Ok(Status::NotFound),
            1u32 => Ok(Status::Loading),
            2u32 => Ok(Status::Loaded),
            _ => Err(ParseStatusError),
        }
    }

    /// The integer code of this status, the inverse of `try_from`.
    pub fn into_u32(self) -> (r: u32)
        ensures
            r == self.index(),
            r < STATUS_VARIANTS,
    {
        match self {
            Status::NotFound => 0,
            Status::Loading => 1,
            Status::Loaded => 2,
        }
    }

    /// One step of the cycle, computed by index arithmetic over the ordered
    /// variant list rather than by an unchecked integer-to-variant cast.
    pub fn advanced(self) -> (r: Status)
        ensures
            r == self.next(),
            r.index() == (self.index() + 1) % (STATUS_VARIANTS as int),
    {
        let idx: u32 = self.into_u32();
        let next_idx: u32 = (idx + 1) % STATUS_VARIANTS;
        if next_idx == 0 {
            Status::NotFound
        } else if next_idx == 1 {
            Status::Loading
        } else {
            Status::Loaded
        }
    }
}

/// The transition is a total cyclic function: advancing three times from any
/// status returns to that same status, and advancing from `Loaded` wraps
/// around to `NotFound`.
pub proof fn lemma_status_cycle(s: Status)
    ensures
        s.next().next().next() == s,
        Status::Loaded.next() == Status::NotFound,
{
}

} // verus!
