//! Publishers: the outbound half of a topic.
//!
//! A publisher is not an endpoint — it owns no callback and no driving loop.
//! The core only keeps the book: which payloads were handed over for sending,
//! in order. The host program drains that record into the transport. A caller
//! that may not have created its publisher yet holds an `Option<Publisher>`
//! rather than a sentinel value.

use vstd::prelude::*;

verus! {

/// The outbound half of one topic, with the record of everything handed to
/// it for sending.
#[derive(Debug)]
pub struct Publisher {
    topic: String,
    sent: Vec<i64>,
}

/// The mathematical value of a [`Publisher`].
pub struct PublisherModel {
    pub topic: Seq<char>,
    pub sent: Seq<i64>,
}

impl View for Publisher {
    type V = PublisherModel;

    closed spec fn view(&self) -> PublisherModel {
        PublisherModel { topic: self.topic@, sent: self.sent@ }
    }
}

impl Publisher {
    /// A fresh publisher for `topic` that has sent nothing yet.
    pub fn new(topic: String) -> (r: Self)
        ensures
            r@.topic == topic@,
            r@.sent == Seq::<i64>::empty(),
    {
        Publisher { topic, sent: Vec::new() }
    }

    /// Hands one payload over for sending. Payloads leave in the order they
    /// were published.
    pub fn publish(&mut self, payload: i64)
        ensures
            final(self)@.topic == old(self)@.topic,
            final(self)@.sent == old(self)@.sent.push(payload),
    {
        self.sent.push(payload);
    }

    /// The topic this publisher was registered under.
    pub fn topic(&self) -> (r: &String)
        ensures
            r@ == self@.topic,
    {
        &self.topic
    }

    /// Everything handed over for sending so far, in publish order.
    pub fn sent(&self) -> (r: &Vec<i64>)
        ensures
            r@ == self@.sent,
    {
        &self.sent
    }
}

} // verus!
