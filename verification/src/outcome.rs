//! Delivery outcomes: what became of each message of a batch.

use vstd::prelude::*;

verus! {

/// Why a delivery failed.
#[derive(Debug, Clone, PartialEq, Eq)]
pub enum DeliveryError {
    /// The message could not be put into its structured encoding.
    Serialization(String),
    /// The transport failed before any answer came back.
    Transport(String),
    /// The endpoint answered with a status code that is not a success.
    Status(u16),
    /// The broker did not accept the record.
    Broker(String),
}

/// The result of one delivery attempt.
#[derive(Debug, Clone, PartialEq, Eq)]
pub enum DeliveryOutcome {
    Success,
    Failure(DeliveryError),
}

impl DeliveryOutcome {
    /// Whether the delivery succeeded.
    pub fn is_success(&self) -> (yes: bool)
        ensures
            yes == (self is Success),
    {
        match self {
            DeliveryOutcome::Success => true,
            DeliveryOutcome::Failure(_) => false,
        }
    }

    /// Whether the delivery failed.
    pub fn is_failure(&self) -> (yes: bool)
        ensures
            yes == (self is Failure),
    {
        !self.is_success()
    }
}

/// The outcome of one message, with the id of the message it belongs to.
#[derive(Debug, Clone, PartialEq, Eq)]
pub struct OutcomeEntry {
    pub id: i32,
    pub outcome: DeliveryOutcome,
}

/// The outcomes of one batch, one entry per message, in dispatch order.
#[derive(Debug, Clone, PartialEq, Eq)]
pub struct BatchResult {
    pub entries: Vec<OutcomeEntry>,
}

impl View for BatchResult {
    type V = Seq<OutcomeEntry>;

    open spec fn view(&self) -> Seq<OutcomeEntry> {
        self.entries@
    }
}

/// Totals of one run.
#[derive(Debug, Clone, Copy, PartialEq, Eq)]
pub struct RunSummary {
    pub attempted: usize,
    pub succeeded: usize,
    pub failed: usize,
}

/// How many of the entries are successes.
pub open spec fn count_successes(entries: Seq<OutcomeEntry>) -> nat
    decreases entries.len(),
{
    if entries.len() == 0 {
        0
    } else {
        count_successes(entries.drop_last()) + if entries.last().outcome is Success {
            1nat
        } else {
            0nat
        }
    }
}

/// How many of the entries are failures.
pub open spec fn count_failures(entries: Seq<OutcomeEntry>) -> nat
    decreases entries.len(),
{
    if entries.len() == 0 {
        0
    } else {
        count_failures(entries.drop_last()) + if entries.last().outcome is Failure {
            1nat
        } else {
            0nat
        }
    }
}

/// How many of the entries carry the given id.
pub open spec fn occurrences(entries: Seq<OutcomeEntry>, id: int) -> nat
    decreases entries.len(),
{
    if entries.len() == 0 {
        0
    } else {
        occurrences(entries.drop_last(), id) + if entries.last().id == id {
            1nat
        } else {
            0nat
        }
    }
}

/// Whether the entries are those of a generated batch of `size` messages:
/// the entry at position `i` belongs to the message with id `i`.
pub open spec fn covers_batch(entries: Seq<OutcomeEntry>, size: nat) -> bool {
    &&& entries.len() == size
    &&& forall|i: int| 0 <= i < entries.len() ==> (#[trigger] entries[i]).id == i
}

/// Every entry is either a success or a failure, so the two counts add up to
/// the number of entries.
pub proof fn lemma_counts_add_up(entries: Seq<OutcomeEntry>)
    ensures
        count_successes(entries) + count_failures(entries) == entries.len(),
    decreases entries.len(),
{
    if entries.len() > 0 {
        lemma_counts_add_up(entries.drop_last());
    }
}

/// Where every entry is a failure, no success is counted.
pub proof fn lemma_all_failures(entries: Seq<OutcomeEntry>)
    requires
        forall|i: int| 0 <= i < entries.len() ==> (#[trigger] entries[i]).outcome is Failure,
    ensures
        count_successes(entries) == 0,
        count_failures(entries) == entries.len(),
    decreases entries.len(),
{
    if entries.len() > 0 {
        lemma_all_failures(entries.drop_last());
    }
}

/// Where every entry is a success, no failure is counted.
pub proof fn lemma_all_successes(entries: Seq<OutcomeEntry>)
    requires
        forall|i: int| 0 <= i < entries.len() ==> (#[trigger] entries[i]).outcome is Success,
    ensures
        count_successes(entries) == entries.len(),
        count_failures(entries) == 0,
    decreases entries.len(),
{
    if entries.len() > 0 {
        lemma_all_successes(entries.drop_last());
    }
}

/// Among entries whose ids are all below the number of entries seen so far,
/// an id at or beyond that number does not occur.
proof fn lemma_no_occurrence_beyond(entries: Seq<OutcomeEntry>, id: int)
    requires
        forall|i: int| 0 <= i < entries.len() ==> (#[trigger] entries[i]).id == i,
        id < 0 || id >= entries.len(),
    ensures
        occurrences(entries, id) == 0,
    decreases entries.len(),
{
    if entries.len() > 0 {
        lemma_no_occurrence_beyond(entries.drop_last(), id);
    }
}

/// In the result of a generated batch every message id has exactly one
/// outcome, and no other id has any.
pub proof fn lemma_one_outcome_per_message(entries: Seq<OutcomeEntry>, size: nat, id: int)
    requires
        covers_batch(entries, size),
    ensures
        0 <= id < size ==> occurrences(entries, id) == 1,
        !(0 <= id < size) ==> occurrences(entries, id) == 0,
    decreases entries.len(),
{
    if 0 <= id < size {
        let front = entries.drop_last();
        if id == size - 1 {
            lemma_no_occurrence_beyond(front, id);
        } else {
            lemma_one_outcome_per_message(front, (size - 1) as nat, id);
        }
    } else {
        lemma_no_occurrence_beyond(entries, id);
    }
}

impl BatchResult {
    /// The number of entries.
    pub fn len(&self) -> (n: usize)
        ensures
            n == self@.len(),
    {
        self.entries.len()
    }

    /// Totals of the run: how many deliveries were attempted, and how many of
    /// them succeeded and failed.
    pub fn summary(&self) -> (totals: RunSummary)
        ensures
            totals.attempted == self@.len(),
            totals.succeeded == count_successes(self@),
            totals.failed == count_failures(self@),
            totals.succeeded + totals.failed == totals.attempted,
    {
        let mut succeeded: usize = 0;
        let mut failed: usize = 0;
        let mut i: usize = 0;
        while i < self.entries.len()
            invariant
                i <= self.entries@.len(),
                succeeded == count_successes(self.entries@.take(i as int)),
                failed == count_failures(self.entries@.take(i as int)),
                succeeded + failed == i,
            decreases self.entries@.len() - i,
        {
            assert(self.entries@.take(i + 1).drop_last() =~= self.entries@.take(i as int));
            if self.entries[i].outcome.is_success() {
                succeeded = succeeded + 1;
            } else {
                failed = failed + 1;
            }
            i = i + 1;
        }
        assert(self.entries@.take(i as int) =~= self.entries@);
        RunSummary { attempted: i, succeeded, failed }
    }
}

} // verus!
