//! Dispatch engine: the order in which the deliveries of a batch are started
//! and paced, and the collection of one outcome per message.
//!
//! The engine decides and never performs: `Dispatcher::next_action` says what
//! to do next, the caller does it, and `Dispatcher::record` takes what came of
//! it. A failed delivery is an outcome like any other and stops nothing.

use crate::message::{Message, MessageView};
use crate::outcome::{BatchResult, DeliveryOutcome, OutcomeEntry};
use vstd::prelude::*;

verus! {

/// One step of a dispatch plan.
pub enum Step {
    /// Start the delivery of the message in this slot of the batch.
    Dispatch(nat),
    /// Let this many milliseconds pass before the next step.
    Wait(nat),
    /// Await every delivery that was started. This is the last step.
    Join,
}

/// The number of steps in the plan for `size` messages.
pub open spec fn plan_len(size: nat, delay: nat) -> nat {
    if size == 0 {
        1
    } else if delay == 0 {
        size + 1
    } else {
        2 * size
    }
}

/// The step at position `k` of the plan for `size` messages.
///
/// Without a delay the messages are dispatched back to back. With a delay
/// there is one wait between each dispatch and the next, and none after the
/// last. Either way the plan ends by joining the deliveries.
pub open spec fn plan_step(size: nat, delay: nat, k: nat) -> Step {
    if delay == 0 {
        if k < size {
            Step::Dispatch(k)
        } else {
            Step::Join
        }
    } else if k + 1 < 2 * size {
        if k % 2 == 0 {
            Step::Dispatch(k / 2)
        } else {
            Step::Wait(delay)
        }
    } else {
        Step::Join
    }
}

/// The whole plan for `size` messages.
pub open spec fn plan(size: nat, delay: nat) -> Seq<Step> {
    Seq::new(plan_len(size, delay), |k: int| plan_step(size, delay, k as nat))
}

/// How many of the first `k` steps of the plan are dispatches.
pub open spec fn dispatches_before(size: nat, delay: nat, k: nat) -> nat {
    let started = if delay == 0 {
        k
    } else {
        (k + 1) / 2
    };
    if started < size {
        started
    } else {
        size
    }
}

/// The position in the plan at which the message in `slot` is dispatched.
pub open spec fn dispatch_position(delay: nat, slot: nat) -> nat {
    if delay == 0 {
        slot
    } else {
        2 * slot
    }
}

/// Every message of the batch is dispatched exactly once: the plan holds the
/// dispatch of a slot at one position and nowhere else.
pub proof fn lemma_dispatched_exactly_once(size: nat, delay: nat, slot: nat, k: nat)
    requires
        slot < size,
    ensures
        dispatch_position(delay, slot) < plan_len(size, delay),
        plan_step(size, delay, k) == Step::Dispatch(slot) <==> k == dispatch_position(delay, slot),
{
}

/// Nothing but the batch is dispatched: every dispatch in the plan is that
/// of a slot of the batch.
pub proof fn lemma_dispatch_within_batch(size: nat, delay: nat, k: nat)
    ensures
        plan_step(size, delay, k) matches Step::Dispatch(slot) ==> slot < size,
{
}

/// Deliveries are started in the order of the batch: of two dispatches in
/// the plan, the later one is that of the later slot.
pub proof fn lemma_dispatch_order(size: nat, delay: nat, j: nat, k: nat)
    requires
        j < k,
        plan_step(size, delay, j) is Dispatch,
        plan_step(size, delay, k) is Dispatch,
    ensures
        plan_step(size, delay, j)->Dispatch_0 < plan_step(size, delay, k)->Dispatch_0,
{
}

/// Pacing. Without a delay the plan holds no wait. With a delay each dispatch
/// but the last is followed by one wait of that delay and then by the next
/// dispatch; the last dispatch is followed by the join, with no wait between.
pub proof fn lemma_pacing(size: nat, delay: nat, slot: nat)
    requires
        slot < size,
    ensures
        delay == 0 ==> forall|k: nat| !(#[trigger] plan_step(size, delay, k) is Wait),
        delay > 0 && slot + 1 < size ==> {
            &&& plan_step(size, delay, dispatch_position(delay, slot) + 1) == Step::Wait(delay)
            &&& plan_step(size, delay, dispatch_position(delay, slot) + 2) == Step::Dispatch(
                slot + 1,
            )
        },
        slot + 1 == size ==> plan_step(size, delay, dispatch_position(delay, slot) + 1) is Join,
{
}

/// The plan ends by joining: the join is its last step and no step before it.
pub proof fn lemma_join_is_last(size: nat, delay: nat, k: nat)
    ensures
        plan_step(size, delay, k) is Join <==> k + 1 >= plan_len(size, delay),
{
}

/// The number of deliveries started so far grows by one with each dispatch
/// and with no other step.
pub proof fn lemma_dispatches_count(size: nat, delay: nat, k: nat)
    ensures
        dispatches_before(size, delay, 0) == 0,
        dispatches_before(size, delay, k + 1) == dispatches_before(size, delay, k) + if plan_step(
            size,
            delay,
            k,
        ) is Dispatch {
            1nat
        } else {
            0nat
        },
        k + 1 >= plan_len(size, delay) ==> dispatches_before(size, delay, k) == size,
{
}

/// What the engine asks its caller to do next.
#[derive(Debug, PartialEq, Eq)]
pub enum Action {
    /// Start the delivery of `message`, which fills `slot` of the batch, and
    /// go on without awaiting it.
    Dispatch { slot: usize, message: Message },
    /// Let `millis` milliseconds pass.
    Wait { millis: u64 },
    /// Await every delivery that was started and record each outcome.
    Join,
}

impl View for Action {
    type V = Step;

    open spec fn view(&self) -> Step {
        match self {
            Action::Dispatch { slot, .. } => Step::Dispatch(*slot as nat),
            Action::Wait { millis } => Step::Wait(*millis as nat),
            Action::Join => Step::Join,
        }
    }
}

/// Why an outcome was not taken.
#[derive(Debug, Clone, Copy, PartialEq, Eq)]
pub enum RecordError {
    /// The delivery for this slot has not been started.
    NotDispatched,
    /// The slot already holds an outcome.
    AlreadyRecorded,
}

/// The state of a dispatch, as mathematical values.
pub struct DispatcherView {
    /// The batch, in dispatch order.
    pub messages: Seq<Message>,
    /// The pause between two dispatches, in milliseconds.
    pub delay: nat,
    /// How many steps of the plan have been handed out.
    pub position: nat,
    /// The outcome recorded for each slot so far.
    pub recorded: Seq<Option<DeliveryOutcome>>,
}

impl DispatcherView {
    /// The number of messages in the batch.
    pub open spec fn size(self) -> nat {
        self.messages.len()
    }

    /// How many deliveries have been started.
    pub open spec fn dispatched(self) -> nat {
        dispatches_before(self.size(), self.delay, self.position)
    }

    /// Whether every message of the batch has its outcome.
    pub open spec fn complete(self) -> bool {
        forall|i: int| 0 <= i < self.size() ==> (#[trigger] self.recorded[i]) is Some
    }

    /// What holds of every state: the position lies within the plan, there is
    /// one slot per message, and only started deliveries have an outcome.
    pub open spec fn wf(self) -> bool {
        &&& self.position < plan_len(self.size(), self.delay)
        &&& self.recorded.len() == self.size()
        &&& forall|i: int|
            self.dispatched() <= i < self.size() ==> (#[trigger] self.recorded[i]) is None
    }

    /// The result of a complete dispatch: for each message, in dispatch
    /// order, its id and its outcome.
    pub open spec fn results(self) -> Seq<OutcomeEntry> {
        Seq::new(
            self.size(),
            |i: int| OutcomeEntry { id: self.messages[i].id, outcome: self.recorded[i].unwrap() },
        )
    }
}

/// The dispatch of one batch.
pub struct Dispatcher {
    messages: Vec<Message>,
    delay: u64,
    /// The slot of the next message to dispatch.
    next: usize,
    /// Whether the wait before the next dispatch has been handed out.
    paused: bool,
    outcomes: Vec<Option<DeliveryOutcome>>,
}

impl View for Dispatcher {
    type V = DispatcherView;

    closed spec fn view(&self) -> DispatcherView {
        DispatcherView {
            messages: self.messages@,
            delay: self.delay as nat,
            position: if self.delay == 0 || self.next == 0 {
                self.next as nat
            } else if self.paused {
                (2 * self.next) as nat
            } else {
                (2 * self.next - 1) as nat
            },
            recorded: self.outcomes@,
        }
    }
}

impl Dispatcher {
    #[verifier::type_invariant]
    spec fn inv(&self) -> bool {
        &&& self.outcomes@.len() == self.messages@.len()
        &&& self.next <= self.messages@.len()
        &&& self.paused ==> self.delay > 0 && 0 < self.next < self.messages@.len()
        &&& forall|i: int|
            self.next <= i < self.outcomes@.len() ==> (#[trigger] self.outcomes@[i]) is None
    }

    /// Starts the dispatch of a batch with the given pause, in milliseconds,
    /// between two dispatches. Nothing is dispatched or recorded yet.
    pub fn new(messages: Vec<Message>, delay: u64) -> (engine: Dispatcher)
        ensures
            engine@.wf(),
            engine@.messages == messages@,
            engine@.delay == delay,
            engine@.position == 0,
            forall|i: int| 0 <= i < messages@.len() ==> (#[trigger] engine@.recorded[i]) is None,
    {
        let mut outcomes: Vec<Option<DeliveryOutcome>> = Vec::new();
        let mut i: usize = 0;
        while i < messages.len()
            invariant
                i <= messages@.len(),
                outcomes@.len() == i,
                forall|j: int| 0 <= j < i ==> (#[trigger] outcomes@[j]) is None,
            decreases messages@.len() - i,
        {
            outcomes.push(None);
            i = i + 1;
        }
        Dispatcher { messages, delay, next: 0, paused: false, outcomes }
    }

    /// The number of messages in the batch.
    pub fn size(&self) -> (n: usize)
        ensures
            self@.wf(),
            n == self@.size(),
    {
        proof {
            use_type_invariant(self);
        }
        self.messages.len()
    }

    /// Hands out the next step of the plan.
    ///
    /// The steps come in the order of the plan, one per call. Once the plan has
    /// reached its last step, `Join`, every further call gives `Join` again.
    pub fn next_action(&mut self) -> (action: Action)
        ensures
            old(self)@.wf(),
            final(self)@.wf(),
            action@ == plan(old(self)@.size(), old(self)@.delay)[old(self)@.position as int],
            action@ == plan_step(old(self)@.size(), old(self)@.delay, old(self)@.position),
            action matches Action::Dispatch { slot, message } ==> message == old(self)@.messages[slot as int],
            final(self)@.messages == old(self)@.messages,
            final(self)@.delay == old(self)@.delay,
            final(self)@.recorded == old(self)@.recorded,
            final(self)@.position == if action is Join {
                old(self)@.position
            } else {
                old(self)@.position + 1
            },
    {
        proof {
            use_type_invariant(&*self);
        }
        if self.next >= self.messages.len() {
            Action::Join
        } else if self.delay > 0 && self.next > 0 && !self.paused {
            self.paused = true;
            Action::Wait { millis: self.delay }
        } else {
            let slot = self.next;
            let message = self.messages[slot].clone();
            self.paused = false;
            self.next = slot + 1;
            Action::Dispatch { slot, message }
        }
    }

    /// Takes the outcome of the delivery that was started for `slot`.
    ///
    /// Outcomes may come in any order. An outcome for a delivery that was not
    /// started, or a second outcome for the same slot, is refused and changes
    /// nothing.
    pub fn record(&mut self, slot: usize, outcome: DeliveryOutcome) -> (taken: Result<
        (),
        RecordError,
    >)
        ensures
            old(self)@.wf(),
            final(self)@.wf(),
            final(self)@.messages == old(self)@.messages,
            final(self)@.delay == old(self)@.delay,
            final(self)@.position == old(self)@.position,
            match taken {
                Ok(_) => {
                    &&& slot < old(self)@.dispatched()
                    &&& old(self)@.recorded[slot as int] is None
                    &&& final(self)@.recorded == old(self)@.recorded.update(
                        slot as int,
                        Some(outcome),
                    )
                },
                Err(RecordError::NotDispatched) => {
                    &&& slot >= old(self)@.dispatched()
                    &&& final(self)@.recorded == old(self)@.recorded
                },
                Err(RecordError::AlreadyRecorded) => {
                    &&& slot < old(self)@.dispatched()
                    &&& old(self)@.recorded[slot as int] is Some
                    &&& final(self)@.recorded == old(self)@.recorded
                },
            },
    {
        proof {
            use_type_invariant(&*self);
        }
        if slot >= self.next {
            Err(RecordError::NotDispatched)
        } else if self.outcomes[slot].is_some() {
            Err(RecordError::AlreadyRecorded)
        } else {
            self.outcomes[slot] = Some(outcome);
            Ok(())
        }
    }

    /// Whether every message of the batch has its outcome.
    pub fn is_complete(&self) -> (yes: bool)
        ensures
            self@.wf(),
            yes == self@.complete(),
    {
        proof {
            use_type_invariant(self);
        }
        let mut i: usize = 0;
        while i < self.outcomes.len()
            invariant
                self@.wf(),
                i <= self.outcomes@.len(),
                self.outcomes@.len() == self.messages@.len(),
                forall|j: int| 0 <= j < i ==> (#[trigger] self.outcomes@[j]) is Some,
            decreases self.outcomes@.len() - i,
        {
            if self.outcomes[i].is_none() {
                return false;
            }
            i = i + 1;
        }
        true
    }

    /// Ends the dispatch. The result holds one entry per message, in dispatch
    /// order, each with the id of its message; it is given exactly when every
    /// message has its outcome.
    pub fn finish(self) -> (done: Option<BatchResult>)
        ensures
            self@.wf(),
            match done {
                Some(result) => self@.complete() && result@ == self@.results(),
                None => !self@.complete(),
            },
    {
        proof {
            use_type_invariant(&self);
        }
        if !self.is_complete() {
            return None;
        }
        let ghost before = self@;
        let Dispatcher { messages, delay: _, next: _, paused: _, outcomes } = self;
        let mut outcomes = outcomes;
        let mut reversed: Vec<OutcomeEntry> = Vec::new();
        while outcomes.len() > 0
            invariant
                outcomes@.len() <= before.size(),
                messages@ == before.messages,
                before.recorded.len() == before.size(),
                outcomes@ == before.recorded.take(outcomes@.len() as int),
                before.complete(),
                reversed@.len() == before.size() - outcomes@.len(),
                forall|j: int|
                    0 <= j < reversed@.len() ==> (#[trigger] reversed@[j]) == before.results()[
                        before.size() - 1 - j],
            decreases outcomes@.len(),
        {
            let slot = outcomes.len() - 1;
            let recorded = outcomes.pop().unwrap();
            let outcome = recorded.unwrap();
            reversed.push(OutcomeEntry { id: messages[slot].id, outcome });
        }
        let mut entries: Vec<OutcomeEntry> = Vec::new();
        while reversed.len() > 0
            invariant
                reversed@.len() + entries@.len() == before.size(),
                forall|j: int|
                    0 <= j < reversed@.len() ==> (#[trigger] reversed@[j]) == before.results()[
                        before.size() - 1 - j],
                forall|j: int|
                    0 <= j < entries@.len() ==> (#[trigger] entries@[j]) == before.results()[j],
            decreases reversed@.len(),
        {
            let entry = reversed.pop().unwrap();
            entries.push(entry);
        }
        assert(entries@ =~= before.results());
        Some(BatchResult { entries })
    }
}

/// Whether `outcome` is one that `sink` may give for a message that holds
/// `message`.
pub open spec fn delivers<S: Fn(&Message) -> DeliveryOutcome>(
    sink: S,
    message: MessageView,
    outcome: DeliveryOutcome,
) -> bool {
    exists|m: Message| m@ == message && #[trigger] call_ensures(sink, (&m,), outcome)
}

/// Dispatches a batch through `sink`, one delivery after the other, and
/// collects the outcomes.
///
/// The deliveries are started in the order of the batch. Where `delay` is not
/// zero, `wait` is called with it between each delivery and the next. Every
/// message gets its outcome: a failure is recorded and the next message is
/// delivered all the same.
pub fn dispatch<S, W>(messages: Vec<Message>, delay: u64, sink: S, wait: W) -> (result:
    BatchResult) where S: Fn(&Message) -> DeliveryOutcome, W: Fn(u64) -> ()
    requires
        forall|i: int|
            0 <= i < messages@.len() ==> call_requires(sink, (&#[trigger] messages@[i],)),
        delay > 0 ==> call_requires(wait, (delay,)),
    ensures
        result@.len() == messages@.len(),
        forall|i: int|
            0 <= i < messages@.len() ==> {
                &&& (#[trigger] result@[i]).id == messages@[i].id
                &&& call_ensures(sink, (&messages@[i],), result@[i].outcome)
            },
{
    let ghost batch = messages@;
    let mut engine = Dispatcher::new(messages, delay);
    let mut joined = false;
    while !joined
        invariant
            engine@.wf(),
            engine@.messages == batch,
            engine@.delay == delay,
            joined ==> engine@.position + 1 == plan_len(batch.len(), delay as nat),
            forall|i: int| 0 <= i < batch.len() ==> call_requires(sink, (&#[trigger] batch[i],)),
            delay > 0 ==> call_requires(wait, (delay,)),
            forall|i: int|
                0 <= i < engine@.dispatched() ==> {
                    &&& (#[trigger] engine@.recorded[i]) is Some
                    &&& call_ensures(sink, (&batch[i],), engine@.recorded[i].unwrap())
                },
        decreases plan_len(batch.len(), delay as nat) - engine@.position + if joined {
            0int
        } else {
            1int
        },
    {
        match engine.next_action() {
            Action::Dispatch { slot, message } => {
                let outcome = sink(&message);
                let taken = engine.record(slot, outcome);
                assert(taken is Ok);
            },
            Action::Wait { millis } => {
                wait(millis);
            },
            Action::Join => {
                joined = true;
            },
        }
    }
    match engine.finish() {
        Some(result) => result,
        None => {
            // Never taken: every slot was dispatched and has its outcome.
            assert(false);
            BatchResult { entries: Vec::new() }
        },
    }
}

} // verus!
