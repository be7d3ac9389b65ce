//! A ready-made shared-state type: an add-two-ints service with recorders.
//!
//! This is the state the demonstration endpoints share: its service callback
//! replies with the sum of the two request fields, its subscription callback
//! records every payload it observes, its timer callback counts ticks, and
//! its client continuation records every response. One request value can be
//! designated as refused, which makes the service callback fail on it — the
//! way a host exercises the dispatcher's failure isolation.

use vstd::prelude::*;

use crate::data::{Data, DataModel};
use crate::message::{Request, Response};
use crate::outcome::{CallbackOutcome, OutcomeModel};

verus! {

/// Shared state for the add-two-ints demonstration endpoints.
#[derive(Debug)]
pub struct AdderData {
    /// Payloads observed by the subscription callback, in dispatch order.
    pub received: Vec<i64>,
    /// How many timer ticks the timer callback has handled (saturating).
    pub ticks: u64,
    /// Responses observed by the client continuation, in arrival order.
    pub replies: Vec<Response>,
    /// A request the service callback deliberately refuses, if any.
    pub rejected: Option<Request>,
    /// A payload the subscription callback deliberately fails on, if any.
    pub poison: Option<i64>,
}

/// The mathematical value of an [`AdderData`].
pub struct AdderModel {
    pub received: Seq<i64>,
    pub ticks: u64,
    pub replies: Seq<Response>,
    pub rejected: Option<Request>,
    pub poison: Option<i64>,
}

impl View for AdderData {
    type V = AdderModel;

    open spec fn view(&self) -> AdderModel {
        AdderModel {
            received: self.received@,
            ticks: self.ticks,
            replies: self.replies@,
            rejected: self.rejected,
            poison: self.poison,
        }
    }
}

impl DataModel for AdderModel {
    /// A tick counts, saturating at the counter's maximum.
    open spec fn timer_spec(self, endpoint: int) -> (Self, OutcomeModel) {
        if self.ticks < u64::MAX {
            (AdderModel { ticks: (self.ticks + 1) as u64, ..self }, OutcomeModel::Success)
        } else {
            (self, OutcomeModel::Success)
        }
    }

    /// A message's payload is recorded; the designated poison payload is
    /// refused instead.
    open spec fn message_spec(self, endpoint: int, payload: i64) -> (Self, OutcomeModel) {
        if self.poison == Some(payload) {
            (self, OutcomeModel::Failure("message refused"@))
        } else {
            (AdderModel { received: self.received.push(payload), ..self }, OutcomeModel::Success)
        }
    }

    /// A request earns the sum of its fields; the designated refused request
    /// and a request whose sum does not fit the response field fail.
    open spec fn request_spec(self, endpoint: int, request: Request) -> (
        Self,
        Result<Response, Seq<char>>,
    ) {
        if self.rejected == Some(request) {
            (self, Err("request refused"@))
        } else if request.sum_fits() {
            (self, Ok(Response { sum: (request.a + request.b) as i64 }))
        } else {
            (self, Err("sum out of range"@))
        }
    }

    /// A client response is recorded.
    open spec fn response_spec(self, endpoint: int, response: Response) -> (Self, OutcomeModel) {
        (AdderModel { replies: self.replies.push(response), ..self }, OutcomeModel::Success)
    }
}

impl AdderData {
    /// Fresh state: nothing observed, no ticks, optionally one refused
    /// request and one poison payload.
    pub fn new(rejected: Option<Request>, poison: Option<i64>) -> (r: Self)
        ensures
            r@ == (AdderModel {
                received: Seq::<i64>::empty(),
                ticks: 0,
                replies: Seq::<Response>::empty(),
                rejected,
                poison,
            }),
    {
        AdderData { received: Vec::new(), ticks: 0, replies: Vec::new(), rejected, poison }
    }
}

impl Data for AdderData {
    fn on_timer(&mut self, endpoint: usize) -> (o: CallbackOutcome) {
        if self.ticks < u64::MAX {
            self.ticks = self.ticks + 1;
        }
        CallbackOutcome::Success
    }

    fn on_message(&mut self, endpoint: usize, payload: i64) -> (o: CallbackOutcome) {
        let refused = match &self.poison {
            Some(p) => *p == payload,
            None => false,
        };
        if refused {
            return CallbackOutcome::Failure("message refused".to_owned());
        }
        self.received.push(payload);
        CallbackOutcome::Success
    }

    fn on_request(&mut self, endpoint: usize, request: Request) -> (o: Result<Response, String>) {
        let refused = match &self.rejected {
            Some(r) => *r == request,
            None => false,
        };
        if refused {
            return Err("request refused".to_owned());
        }
        match request.a.checked_add(request.b) {
            Some(sum) => Ok(Response { sum }),
            None => Err("sum out of range".to_owned()),
        }
    }

    fn on_response(&mut self, endpoint: usize, response: Response) -> (o: CallbackOutcome) {
        self.replies.push(response);
        CallbackOutcome::Success
    }
}

} // verus!
