//! The status codes of a media request and the transitions between them.

use vstd::prelude::*;

verus! {

/// The request was filed and awaits an administrator's decision.
pub const SUBMITTED: i32 = 0;

/// The requested title has arrived in the library.
pub const ARCHIVED: i32 = 1;

/// The request was withdrawn by an administrator.
pub const CANCELLED: i32 = 2;

/// The request did not meet the submission rules.
pub const INVALID: i32 = 3;

/// A status from which no further transition is possible.
pub open spec fn is_terminal(status: int) -> bool {
    status == ARCHIVED || status == CANCELLED || status == INVALID
}

/// The only moves a request may make: from submitted to one of the terminal statuses.
pub open spec fn allowed_transition(from: int, to: int) -> bool {
    from == SUBMITTED && is_terminal(to)
}

/// Whether `status` is one of the three terminal statuses.
pub fn terminal(status: i32) -> (r: bool)
    ensures
        r == is_terminal(status as int),
{
    status == ARCHIVED || status == CANCELLED || status == INVALID
}

/// Whether a request in status `from` may be moved to status `to`.
pub fn may_transition(from: i32, to: i32) -> (r: bool)
    ensures
        r == allowed_transition(from as int, to as int),
{
    from == SUBMITTED && terminal(to)
}

} // verus!
