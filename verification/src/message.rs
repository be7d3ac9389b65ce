//! Plain payload types carried by transport events: the body of an inbound
//! topic message, and the request/response pair of a service exchange.

use vstd::prelude::*;

verus! {

/// A service request: two summands, as in the classic add-two-ints exchange
/// the demonstration endpoints speak.
#[derive(Clone, Copy, Debug, PartialEq, Eq, Structural)]
pub struct Request {
    pub a: i64,
    pub b: i64,
}

/// A service response carrying the single result value.
#[derive(Clone, Copy, Debug, PartialEq, Eq, Structural)]
pub struct Response {
    pub sum: i64,
}

impl Request {
    /// Whether the sum of the two summands fits the response field.
    pub open spec fn sum_fits(self) -> bool {
        i64::MIN <= self.a + self.b <= i64::MAX
    }
}

} // verus!
