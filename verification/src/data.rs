//! The interface of application-defined shared state.
//!
//! The application picks one type for the state all its callbacks share,
//! gives it a mathematical model by implementing [`View`], describes each
//! callback as a function on that model by implementing [`DataModel`] on the
//! view type, and implements [`Data`] on the state type itself: each
//! executable callback is obliged to match its model description. The
//! dispatch core guarantees that a callback always sees the state as some
//! earlier callback left it, never a partially mutated value.

use vstd::prelude::*;

use crate::message::{Request, Response};
use crate::outcome::{CallbackOutcome, OutcomeModel};

verus! {

/// The mathematical value of a service callback's result: either the reply
/// payload or the failure text.
pub open spec fn reply_model(r: Result<Response, String>) -> Result<Response, Seq<char>> {
    match r {
        Ok(resp) => Ok(resp),
        Err(e) => Err(e@),
    }
}

/// What each callback does, as a mathematical function from the old state
/// model and the payload to the new state model and the outcome. Implemented
/// on the view type of the shared state. Endpoint arguments carry the
/// registry index of the endpoint whose event is being dispatched, so one
/// state type can serve several endpoints of the same kind.
pub trait DataModel: Sized {
    /// What one timer tick does to the state.
    spec fn timer_spec(self, endpoint: int) -> (Self, OutcomeModel);

    /// What one inbound message does to the state.
    spec fn message_spec(self, endpoint: int, payload: i64) -> (Self, OutcomeModel);

    /// What one service request does to the state, and the reply it earns.
    spec fn request_spec(self, endpoint: int, request: Request) -> (
        Self,
        Result<Response, Seq<char>>,
    );

    /// What one client response does to the state (continuation-style calls
    /// only).
    spec fn response_spec(self, endpoint: int, response: Response) -> (Self, OutcomeModel);
}

/// Application-defined shared state together with its callbacks. Every
/// executable callback must do to the state's model exactly what the
/// [`DataModel`] implementation says.
pub trait Data: View + Sized where Self::V: DataModel {
    /// Timer callback: runs on every tick of a wall timer.
    fn on_timer(&mut self, endpoint: usize) -> (o: CallbackOutcome)
        ensures
            final(self)@ == old(self)@.timer_spec(endpoint as int).0,
            o@ == old(self)@.timer_spec(endpoint as int).1,
    ;

    /// Subscription callback: runs once per inbound message, in
    /// transport-delivery order.
    fn on_message(&mut self, endpoint: usize, payload: i64) -> (o: CallbackOutcome)
        ensures
            final(self)@ == old(self)@.message_spec(endpoint as int, payload).0,
            o@ == old(self)@.message_spec(endpoint as int, payload).1,
    ;

    /// Service callback: runs once per request; on success the returned
    /// response is sent back over the request's reply channel, on failure
    /// nothing is sent and the failure is logged.
    fn on_request(&mut self, endpoint: usize, request: Request) -> (o: Result<Response, String>)
        ensures
            final(self)@ == old(self)@.request_spec(endpoint as int, request).0,
            reply_model(o) == old(self)@.request_spec(endpoint as int, request).1,
    ;

    /// Client continuation callback: runs when the response of a
    /// continuation-style call arrives.
    fn on_response(&mut self, endpoint: usize, response: Response) -> (o: CallbackOutcome)
        ensures
            final(self)@ == old(self)@.response_spec(endpoint as int, response).0,
            o@ == old(self)@.response_spec(endpoint as int, response).1,
    ;
}

} // verus!
