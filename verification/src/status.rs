//! The status reply: a JSON object with a message for a person and a status
//! for the host, zero for success and one for failure.

use vstd::prelude::*;
use vstd::string::*;

use crate::response::{lemma_plain_text_concat, plain_text};

verus! {

/// The text of a status reply.
pub open spec fn status_reply_text(message: Seq<char>, failed: bool) -> Seq<char> {
    "{\"message\": \""@ + message + "\", \"status\": "@ + (if failed {
        "1"@
    } else {
        "0"@
    }) + "}"@
}

/// A status reply with a plain message is plain.
pub proof fn lemma_status_reply_plain(message: Seq<char>, failed: bool)
    requires
        plain_text(message),
    ensures
        plain_text(status_reply_text(message, failed)),
{
    reveal_strlit("{\"message\": \"");
    reveal_strlit("\", \"status\": ");
    reveal_strlit("1");
    reveal_strlit("0");
    reveal_strlit("}");
    let digit = if failed {
        "1"@
    } else {
        "0"@
    };
    lemma_plain_text_concat("{\"message\": \""@, message);
    lemma_plain_text_concat("{\"message\": \""@ + message, "\", \"status\": "@);
    lemma_plain_text_concat("{\"message\": \""@ + message + "\", \"status\": "@, digit);
    lemma_plain_text_concat(
        "{\"message\": \""@ + message + "\", \"status\": "@ + digit,
        "}"@,
    );
}

/// Writes a status reply. The message is put between the quotes as it is.
pub fn status_reply(message: &str, failed: bool) -> (reply: String)
    ensures
        reply@ == status_reply_text(message@, failed),
{
    let mut reply = String::from_str("{\"message\": \"");
    reply.append(message);
    reply.append("\", \"status\": ");
    if failed {
        reply.append("1");
    } else {
        reply.append("0");
    }
    reply.append("}");
    reply
}

} // verus!
