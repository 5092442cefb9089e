//! Statuses of HTTP answers.

use vstd::prelude::*;

verus! {

/// Whether an HTTP status says that the request was done.
pub open spec fn success_status(status: u16) -> bool {
    200 <= status < 300
}

/// Whether an HTTP status says that the request was done.
pub fn is_success(status: u16) -> (r: bool)
    ensures
        r == success_status(status),
{
    200 <= status && status < 300
}

} // verus!
