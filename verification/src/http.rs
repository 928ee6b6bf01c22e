//! What an HTTP status code says of an answer.

use vstd::prelude::*;

verus! {

/// A status code of a successful answer: 200 to 299.
pub open spec fn is_success_status(status: u16) -> bool {
    200 <= status < 300
}

/// Whether `status` is the status code of a successful answer.
pub fn is_success(status: u16) -> (r: bool)
    ensures
        r == is_success_status(status),
{
    200 <= status && status < 300
}

} // verus!
