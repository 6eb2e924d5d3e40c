//! Message generator: the batch that one run dispatches.

use crate::decimal::{append_decimal, decimal};
use crate::message::{Message, MessageView};
use vstd::prelude::*;

verus! {

/// The user that every generated message is attributed to.
pub const GENERATED_USER_ID: i32 = 1;

/// The text of the generated message with the given id.
pub open spec fn generated_text(id: int) -> Seq<char> {
    "Message from Gatling number "@ + decimal(id)
}

/// The generated message with the given id.
pub open spec fn generated_message(id: int) -> MessageView {
    MessageView { id, text: generated_text(id), user_id: 1 }
}

/// How many messages a requested count yields: a negative count yields none.
pub open spec fn batch_size(count: int) -> nat {
    if count < 0 {
        0
    } else {
        count as nat
    }
}

/// The batch for a requested count: the generated messages with the ids
/// `0`, `1`, ... in this order.
pub open spec fn generated(count: int) -> Seq<MessageView> {
    Seq::new(batch_size(count), |id: int| generated_message(id))
}

/// The ids of a batch are its positions: they start at zero, increase by one
/// from each message to the next, and none occurs twice.
pub proof fn lemma_generated_ids(count: int)
    ensures
        generated(count).len() == batch_size(count),
        forall|i: int| 0 <= i < generated(count).len() ==> (#[trigger] generated(count)[i]).id == i,
        forall|i: int, j: int|
            0 <= i < j < generated(count).len() ==> (#[trigger] generated(count)[i]).id < (
            #[trigger] generated(count)[j]).id,
{
}

/// What a sequence of messages holds, message by message.
pub open spec fn views(messages: Seq<Message>) -> Seq<MessageView> {
    Seq::new(messages.len(), |i: int| messages[i]@)
}

/// Builds the generated message with the given id.
pub fn generate_one(id: i32) -> (message: Message)
    ensures
        message@ == generated_message(id as int),
{
    let mut text = String::from_str("Message from Gatling number ");
    append_decimal(&mut text, id);
    Message { id, text, user_id: GENERATED_USER_ID }
}

/// Generates the batch for a requested count. A negative count is taken as
/// zero. The result depends on the count alone.
pub fn generate(count: i32) -> (messages: Vec<Message>)
    ensures
        views(messages@) == generated(count as int),
        messages@.len() == batch_size(count as int),
        forall|i: int|
            0 <= i < messages@.len() ==> (#[trigger] messages@[i])@ == generated_message(i),
{
    let mut messages: Vec<Message> = Vec::new();
    let mut id: i32 = 0;
    while id < count
        invariant
            0 <= id <= batch_size(count as int),
            messages@.len() == id,
            forall|i: int| 0 <= i < id ==> (#[trigger] messages@[i])@ == generated_message(i),
        decreases count - id,
    {
        messages.push(generate_one(id));
        id = id + 1;
    }
    assert(views(messages@) =~= generated(count as int));
    messages
}

} // verus!
