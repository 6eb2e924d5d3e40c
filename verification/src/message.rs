//! The message model: one unit of work, with its textual and structured
//! renderings.

use crate::decimal::{append_decimal, decimal};
use crate::json::{json_error_text, json_string_literal, quote_json};
use vstd::prelude::*;

verus! {

/// One message of a batch. It is never changed once it is built.
#[derive(Debug, PartialEq, Eq)]
pub struct Message {
    /// Position of the message in its batch, counted from zero.
    pub id: i32,
    /// Human-readable text.
    pub text: String,
    /// Whom the message is attributed to.
    pub user_id: i32,
}

/// What a message holds, as mathematical values.
pub struct MessageView {
    pub id: int,
    pub text: Seq<char>,
    pub user_id: int,
}

impl View for Message {
    type V = MessageView;

    open spec fn view(&self) -> MessageView {
        MessageView { id: self.id as int, text: self.text@, user_id: self.user_id as int }
    }
}

/// A message could not be put into its structured encoding.
#[derive(Debug, Clone, PartialEq, Eq)]
pub struct EncodeError {
    /// What the encoder reported.
    pub detail: String,
}

/// The one-line textual rendering of a message.
pub open spec fn display_text(m: MessageView) -> Seq<char> {
    "Message { id: "@ + decimal(m.id) + ", text: "@ + m.text + ", user_id: "@ + decimal(m.user_id)
        + " }"@
}

/// The structured encoding of a message whose text is already a JSON string
/// literal: an object with the fields `id`, `text` and `user_id`, in this
/// order and without white space.
pub open spec fn json_object(id: int, quoted_text: Seq<char>, user_id: int) -> Seq<char> {
    "{\"id\":"@ + decimal(id) + ",\"text\":"@ + quoted_text + ",\"user_id\":"@ + decimal(user_id)
        + "}"@
}

/// The structured encoding of a message, or nothing where its text has no
/// JSON string literal.
pub open spec fn json_text(m: MessageView) -> Option<Seq<char>> {
    match json_string_literal(m.text) {
        Some(literal) => Some(json_object(m.id, literal, m.user_id)),
        None => None,
    }
}

/// Frames the structured encoding of a message around the JSON string literal
/// of its text.
pub fn frame_json(id: i32, quoted_text: &str, user_id: i32) -> (body: String)
    ensures
        body@ == json_object(id as int, quoted_text@, user_id as int),
{
    let mut out = String::from_str("{\"id\":");
    append_decimal(&mut out, id);
    out.append(",\"text\":");
    out.append(quoted_text);
    out.append(",\"user_id\":");
    append_decimal(&mut out, user_id);
    out.append("}");
    assert(out@ =~= json_object(id as int, quoted_text@, user_id as int));
    out
}

impl Clone for Message {
    fn clone(&self) -> (copy: Self)
        ensures
            copy == *self,
    {
        Message { id: self.id, text: self.text.clone(), user_id: self.user_id }
    }
}

impl Message {
    /// Renders the message on one line, for logs.
    pub fn render(&self) -> (line: String)
        ensures
            line@ == display_text(self@),
    {
        let mut out = String::from_str("Message { id: ");
        append_decimal(&mut out, self.id);
        out.append(", text: ");
        out.append(self.text.as_str());
        out.append(", user_id: ");
        append_decimal(&mut out, self.user_id);
        out.append(" }");
        assert(out@ =~= display_text(self@));
        out
    }

    /// Puts the message into the structured encoding that every sink sends.
    ///
    /// The encoding exists exactly where the text of the message has a JSON
    /// string literal. The detail of an error is the encoder's own wording.
    pub fn to_json(&self) -> (encoded: Result<String, EncodeError>)
        ensures
            match encoded {
                Ok(body) => json_text(self@) == Some(body@),
                Err(_) => json_text(self@) is None,
            },
    {
        match quote_json(self.text.as_str()) {
            Ok(quoted) => Ok(frame_json(self.id, quoted.as_str(), self.user_id)),
            Err(error) => Err(EncodeError { detail: json_error_text(&error) }),
        }
    }
}

} // verus!
