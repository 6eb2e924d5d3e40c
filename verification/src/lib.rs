//! A synthetic load generator: it builds a batch of numbered messages and
//! dispatches them to a sink at a target rate, keeping one outcome per message.

pub mod config;
pub mod decimal;
pub mod dispatch;
pub mod generator;
pub mod json;
pub mod message;
pub mod outcome;
pub mod pacing;
pub mod sender;

use crate::dispatch::{delivers, dispatch};
use crate::generator::{batch_size, generate, generated, generated_message, views};
use crate::message::Message;
use crate::outcome::{
    covers_batch, lemma_one_outcome_per_message, occurrences, BatchResult, DeliveryOutcome,
};
use crate::pacing::{delay_for, delay_ms};
use crate::sender::wamserver::{send_to_wam_server, sent, HttpRequest};
use vstd::prelude::*;

verus! {

/// One batch request: how many messages to send, how fast, and where to.
#[derive(Debug, PartialEq, Eq)]
pub struct GatlingCore {
    /// Number of messages in the batch. A negative number stands for none.
    pub messages_nb: i32,
    /// Target rate in messages per second. Zero stands for no pacing.
    pub msg_sec: u32,
    /// Base address of the endpoint that takes the messages.
    pub server_url: String,
}

impl GatlingCore {
    /// A batch request with the given count, rate and endpoint.
    pub fn new(messages_nb: i32, msg_sec: u32, server_url: String) -> (core: Self)
        ensures
            core.messages_nb == messages_nb,
            core.msg_sec == msg_sec,
            core.server_url == server_url,
    {
        Self { messages_nb, msg_sec, server_url }
    }

    /// Generates the messages of the batch: their ids are `0`, `1`, ... up to
    /// the count, in this order.
    pub fn generate_messages(&self) -> (messages: Vec<Message>)
        ensures
            views(messages@) == generated(self.messages_nb as int),
            messages@.len() == batch_size(self.messages_nb as int),
            forall|i: int|
                0 <= i < messages@.len() ==> (#[trigger] messages@[i])@ == generated_message(i),
    {
        generate(self.messages_nb)
    }

    /// The pause between two dispatches, in milliseconds, that the target rate
    /// asks for: zero for no pacing, else one second divided by the rate,
    /// truncated.
    pub fn get_delay_ms(&self) -> (delay: u64)
        ensures
            delay == delay_ms(self.msg_sec as nat),
            self.msg_sec == 0 ==> delay == 0,
    {
        delay_for(self.msg_sec)
    }

    /// Runs the batch through `sink`: generates the messages, delivers each of
    /// them in the order of their ids, calling `wait` with the pause of the
    /// target rate between one delivery and the next, and returns one outcome
    /// per message.
    ///
    /// A delivery that fails is recorded as such and the run goes on: the run
    /// itself never fails. An empty batch gives an empty result.
    pub fn run<S, W>(&self, sink: S, wait: W) -> (result: BatchResult) where
        S: Fn(&Message) -> DeliveryOutcome,
        W: Fn(u64) -> (),

        requires
            forall|m: &Message| call_requires(sink, (m,)),
            delay_ms(self.msg_sec as nat) > 0 ==> call_requires(
                wait,
                (delay_ms(self.msg_sec as nat) as u64,),
            ),
        ensures
            covers_batch(result@, batch_size(self.messages_nb as int)),
            self.messages_nb <= 0 ==> result@.len() == 0,
            forall|id: int|
                #[trigger] occurrences(result@, id) == if 0 <= id < self.messages_nb {
                    1nat
                } else {
                    0nat
                },
            forall|i: int|
                0 <= i < result@.len() ==> delivers(
                    sink,
                    generated_message(i),
                    (#[trigger] result@[i]).outcome,
                ),
            (forall|m: &Message, o: DeliveryOutcome| #[trigger]
                call_ensures(sink, (m,), o) ==> o is Failure) ==> forall|i: int|
                0 <= i < result@.len() ==> (#[trigger] result@[i]).outcome is Failure,
            (forall|m: &Message, o: DeliveryOutcome| #[trigger]
                call_ensures(sink, (m,), o) ==> o is Success) ==> forall|i: int|
                0 <= i < result@.len() ==> (#[trigger] result@[i]).outcome is Success,
    {
        let messages = self.generate_messages();
        let delay = self.get_delay_ms();
        let ghost batch = messages@;
        let result = dispatch(messages, delay, sink, wait);
        assert forall|i: int| 0 <= i < result@.len() implies delivers(
            sink,
            generated_message(i),
            (#[trigger] result@[i]).outcome,
        ) by {
            assert(batch[i]@ == generated_message(i));
            assert(call_ensures(sink, (&batch[i],), result@[i].outcome));
        }
        assert forall|id: int|
            #[trigger] occurrences(result@, id) == if 0 <= id < self.messages_nb {
                1nat
            } else {
                0nat
            } by {
            lemma_one_outcome_per_message(result@, batch_size(self.messages_nb as int), id);
        }
        result
    }

    /// Runs the batch against the endpoint at `server_url`: each generated
    /// message is encoded and handed to `transport` once, as a request to
    /// the endpoint's message address, in the order of the ids and at the
    /// pace of the target rate. The result holds, for each message, what the
    /// transport's answer stands for.
    pub fn execute_standard<T, W>(&self, transport: T, wait: W) -> (result: BatchResult) where
        T: Fn(&HttpRequest) -> Result<u16, String>,
        W: Fn(u64) -> (),

        requires
            forall|request: &HttpRequest| call_requires(transport, (request,)),
            delay_ms(self.msg_sec as nat) > 0 ==> call_requires(
                wait,
                (delay_ms(self.msg_sec as nat) as u64,),
            ),
        ensures
            covers_batch(result@, batch_size(self.messages_nb as int)),
            forall|i: int|
                0 <= i < result@.len() ==> sent(
                    transport,
                    generated_message(i),
                    self.server_url@,
                    (#[trigger] result@[i]).outcome,
                ),
    {
        let wire = &transport;
        let server_url = &self.server_url;
        let sink = |message: &Message| -> (outcome: DeliveryOutcome)
            ensures
                sent(*wire, message@, server_url@, outcome),
            { send_to_wam_server(message, server_url, wire) };
        let result = self.run(sink, wait);
        assert forall|i: int| 0 <= i < result@.len() implies sent(
            transport,
            generated_message(i),
            self.server_url@,
            (#[trigger] result@[i]).outcome,
        ) by {
            assert(delivers(sink, generated_message(i), result@[i].outcome));
        }
        result
    }
}

/// A batch request behind read-only accessors.
#[derive(Debug)]
pub struct GatlingConfig {
    core: GatlingCore,
}

impl View for GatlingConfig {
    type V = GatlingCore;

    closed spec fn view(&self) -> GatlingCore {
        self.core
    }
}

impl GatlingConfig {
    /// A configuration with the given count, rate and endpoint.
    pub fn new(messages_nb: i32, msg_sec: u32, server_url: String) -> (config: Self)
        ensures
            config@.messages_nb == messages_nb,
            config@.msg_sec == msg_sec,
            config@.server_url == server_url,
    {
        Self { core: GatlingCore::new(messages_nb, msg_sec, server_url) }
    }

    /// The batch request that this configuration holds.
    pub fn request(&self) -> (request: &GatlingCore)
        ensures
            *request == self@,
    {
        &self.core
    }

    /// Number of messages in the batch.
    pub fn messages_nb(&self) -> (n: i32)
        ensures
            n == self@.messages_nb,
    {
        self.core.messages_nb
    }

    /// Target rate in messages per second.
    pub fn msg_sec(&self) -> (rate: u32)
        ensures
            rate == self@.msg_sec,
    {
        self.core.msg_sec
    }

    /// Base address of the endpoint.
    pub fn server_url(&self) -> (url: String)
        ensures
            url == self@.server_url,
    {
        self.core.server_url.clone()
    }
}

} // verus!
