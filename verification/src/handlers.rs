//! The request handlers.
//!
//! Each takes the headers and the body of a request, as the host lends them,
//! and returns the response that the host will own. A request without headers
//! or without a body is a call that should not have been made, and is answered
//! with the null handle. A request that cannot be served is answered with a
//! status reply that says why.

use hyper::header::HeaderValue;
use hyper::HeaderMap;
use vstd::prelude::*;
use vstd::string::*;
use vstd::utf8::*;

use crate::codec::{
    form_pairs, json_bag, json_object_text, parse_bag, parse_form, same_bytes, utf8_text,
    write_object,
};
use crate::headers::{first_value, header_value};
use crate::response::{carried, handle_for, lemma_plain_text_concat, plain_text, OwnedResponse};
use crate::status::{lemma_status_reply_plain, status_reply, status_reply_text};
use crate::totals::{tally, totals_of, Totals};

verus! {

/// The text that stands for a body that is not UTF-8.
pub const UNREADABLE_BODY: &'static str = "Invalid UTF-8 sequence";

/// The page that the form handler returns.
pub const FORM_PAGE: &'static str =
    "\n<form method=\"post\" action=\"/plugin/foo-bar/test-post\">\n<input type=\"text\" name=\"my_text\" value=\"Lorem ipsum dolor sit amet, consectetur adipiscing elit. Cras sagittis quam id libero ultrices imperdiet. Nullam odio risus, ultricies quis ornare ut, bibendum eget tortor.\">\n<input type=\"submit\" value=\"Submit\">\n</form>";

/// The name of the header that says what a body is.
pub const CONTENT_TYPE: &'static str = "content-type";

/// The media type that a JSON body has to be sent with.
pub const JSON_MEDIA_TYPE: &'static str = "application/json";

/// The name of this module.
pub const NAME: &'static str = "arp-foo-bar";

/// The version of this module.
pub const VERSION: &'static str = "0.1.0";

/// Who wrote this module.
pub const AUTHORS: &'static str = "Henrique Dias <mrhdias@gmail.com>";

/// What this module is.
pub const DESCRIPTION: &'static str = "Shared library Example";

/// The license of this module.
pub const LICENSE: &'static str = "MIT";

/// Why a request was not served.
#[derive(Clone, Copy, Debug, PartialEq, Eq, Structural)]
pub enum HandlerError {
    /// The request has no `content-type` header.
    MissingContentType,
    /// The `content-type` header names another media type than the handler
    /// serves.
    InvalidContentType,
    /// The body is not what the handler reads.
    InvalidBody,
    /// The result could not be written.
    Unwritable,
}

impl HandlerError {
    /// The message of the reply for this error.
    pub open spec fn message_text(self) -> Seq<char> {
        match self {
            HandlerError::MissingContentType => "No content type"@,
            HandlerError::InvalidContentType => "Invalid content type"@,
            HandlerError::InvalidBody => "Invalid body"@,
            HandlerError::Unwritable => "Result could not be written"@,
        }
    }

    /// The text of the reply for this error: a status reply that failed.
    pub open spec fn reply_text(self) -> Seq<char> {
        status_reply_text(self.message_text(), true)
    }

    /// The message of the reply.
    pub fn message(&self) -> (message: &'static str)
        ensures
            message@ == self.message_text(),
            plain_text(message@),
    {
        proof {
            reveal_strlit("No content type");
            reveal_strlit("Invalid content type");
            reveal_strlit("Invalid body");
            reveal_strlit("Result could not be written");
        }
        match self {
            HandlerError::MissingContentType => "No content type",
            HandlerError::InvalidContentType => "Invalid content type",
            HandlerError::InvalidBody => "Invalid body",
            HandlerError::Unwritable => "Result could not be written",
        }
    }

    /// The reply for this error.
    pub fn reply(&self) -> (reply: String)
        ensures
            reply@ == self.reply_text(),
            plain_text(reply@),
    {
        let message = self.message();
        proof {
            lemma_status_reply_plain(message@, true);
        }
        status_reply(message, true)
    }
}

/// The text of a body: what it decodes to, or the text that stands for a
/// body that does not decode.
pub open spec fn lenient_text(body: Seq<u8>) -> Seq<char> {
    if valid_utf8(body) {
        decode_utf8(body)
    } else {
        UNREADABLE_BODY@
    }
}

/// Reads a body as text. A body that is not UTF-8 is read as
/// [`UNREADABLE_BODY`].
pub fn body_text<'a>(body: &'a [u8]) -> (text: &'a str)
    ensures
        text@ == lenient_text(body@),
{
    match utf8_text(body) {
        Some(text) => {
            proof {
                encode_utf8_decode_utf8(text@);
            }
            text
        },
        None => UNREADABLE_BODY,
    }
}

/// What a handler for JSON bodies makes of the first `content-type` value of
/// a request: it has to be there, and it has to be `application/json`, byte
/// for byte.
pub open spec fn json_content_type(value: Option<Seq<u8>>) -> Result<(), HandlerError> {
    match value {
        None => Err(HandlerError::MissingContentType),
        Some(bytes) => if bytes == encode_utf8(JSON_MEDIA_TYPE@) {
            Ok(())
        } else {
            Err(HandlerError::InvalidContentType)
        },
    }
}

/// Checks the `content-type` of a request whose body has to be JSON.
pub fn check_json_content_type(value: Option<&Vec<u8>>) -> (checked: Result<(), HandlerError>)
    ensures
        checked == json_content_type(
            match value {
                Some(bytes) => Some(bytes@),
                None => None,
            },
        ),
{
    match value {
        None => Err(HandlerError::MissingContentType),
        Some(bytes) => {
            if same_bytes(bytes.as_slice(), JSON_MEDIA_TYPE.as_bytes()) {
                Ok(())
            } else {
                Err(HandlerError::InvalidContentType)
            }
        },
    }
}

/// What the JSON handler finds in a request with the given `content-type` and
/// body: the totals of the bag that the body describes, or why there are
/// none. The `content-type` is looked at first.
pub open spec fn json_outcome(content_type: Option<Seq<u8>>, body: Seq<u8>) -> Result<
    Totals,
    HandlerError,
> {
    match json_content_type(content_type) {
        Err(error) => Err(error),
        Ok(_) => match json_bag(lenient_text(body)) {
            Some(entries) => Ok(totals_of(entries)),
            None => Err(HandlerError::InvalidBody),
        },
    }
}

/// The members of the object that reports the totals.
pub open spec fn totals_members(totals: Totals) -> Seq<(Seq<char>, usize)> {
    seq![("fruits"@, totals.fruits), ("vegetables"@, totals.vegetables)]
}

/// The text that the JSON handler answers with: the object that reports the
/// totals, or the reply for what went wrong.
pub open spec fn json_reply_text(outcome: Result<Totals, HandlerError>) -> Seq<char> {
    match outcome {
        Ok(totals) => match json_object_text(totals_members(totals)) {
            Some(text) => text,
            None => HandlerError::Unwritable.reply_text(),
        },
        Err(error) => error.reply_text(),
    }
}

/// What the JSON handler hands over for a request with the given
/// `content-type` and body.
pub open spec fn json_reply(content_type: Option<Seq<u8>>, body: Seq<u8>) -> Option<Seq<u8>> {
    handle_for(json_reply_text(json_outcome(content_type, body)))
}

/// Reads the totals that a request asks for.
pub fn read_totals(headers: &HeaderMap<HeaderValue>, body: &[u8]) -> (outcome: Result<
    Totals,
    HandlerError,
>)
    ensures
        outcome == json_outcome(header_value(*headers, CONTENT_TYPE@), body@),
{
    let content_type = first_value(headers, CONTENT_TYPE);
    match check_json_content_type(content_type.as_ref()) {
        Err(error) => Err(error),
        Ok(_) => match parse_bag(body_text(body)) {
            Ok(bag) => Ok(tally(&bag)),
            Err(_) => Err(HandlerError::InvalidBody),
        },
    }
}

/// Writes the answer of the JSON handler.
pub fn write_totals(outcome: Result<Totals, HandlerError>) -> (text: String)
    ensures
        text@ == json_reply_text(outcome),
{
    match outcome {
        Ok(totals) => {
            let mut members: Vec<(String, usize)> = Vec::new();
            members.push((String::from_str("fruits"), totals.fruits));
            members.push((String::from_str("vegetables"), totals.vegetables));
            assert(members.deep_view() == totals_members(totals));
            match write_object(&members) {
                Ok(text) => text,
                Err(_) => HandlerError::Unwritable.reply(),
            }
        },
        Err(error) => error.reply(),
    }
}

/// The JSON handler. The body has to come as `application/json` and describe
/// a bag: an object whose members are lists of strings. The answer is an
/// object with the number of fruits and of vegetables in the bag, each zero
/// where the bag does not name the kind. A request that cannot be served is
/// answered with a status reply. An answer that holds a zero byte cannot be
/// carried, and the null handle is returned in its place.
pub fn test_json(headers: Option<&HeaderMap<HeaderValue>>, body: Option<&[u8]>) -> (reply: Option<
    OwnedResponse,
>)
    ensures
        headers is None || body is None ==> reply is None,
        headers matches Some(lent_headers) ==> (body matches Some(lent_body) ==> carried(reply)
            == json_reply(header_value(*lent_headers, CONTENT_TYPE@), lent_body@)),
{
    match (headers, body) {
        (Some(lent_headers), Some(lent_body)) => {
            let text = write_totals(read_totals(lent_headers, lent_body));
            OwnedResponse::from_text(text.as_str())
        },
        _ => None,
    }
}

/// The line that the form handler answers with: the first pair, name and
/// value set apart by a colon, and the empty line where there is no pair.
pub open spec fn first_pair_text(pairs: Seq<(Seq<char>, Seq<char>)>) -> Seq<char> {
    if pairs.len() == 0 {
        Seq::empty()
    } else {
        pairs[0].0 + " : "@ + pairs[0].1
    }
}

/// What the form handler hands over for a body: the first pair of the form
/// that the text of the body holds.
pub open spec fn post_reply(body: Seq<u8>) -> Option<Seq<u8>> {
    handle_for(first_pair_text(form_pairs(encode_utf8(lenient_text(body)))))
}

/// Writes the first pair of a form.
pub fn first_pair_line(pairs: &Vec<(String, String)>) -> (line: String)
    ensures
        line@ == first_pair_text(pairs.deep_view()),
{
    if pairs.len() == 0 {
        String::new()
    } else {
        assert(pairs.deep_view()[0] == (pairs@[0].0@, pairs@[0].1@));
        let mut line = String::from_str(pairs[0].0.as_str());
        line.append(" : ");
        line.append(pairs[0].1.as_str());
        line
    }
}

/// The handler for a posted form. The body is read as text and then as a
/// form, and the answer is the first pair of the form. A form without pairs,
/// as an empty body is, is answered with the empty line. An answer that holds
/// a zero byte cannot be carried, and the null handle is returned in its
/// place.
pub fn test_post(headers: Option<&HeaderMap<HeaderValue>>, body: Option<&[u8]>) -> (reply: Option<
    OwnedResponse,
>)
    ensures
        headers is None || body is None ==> reply is None,
        body matches Some(lent_body) ==> (headers is Some ==> carried(reply) == post_reply(
            lent_body@,
        )),
        body matches Some(lent_body) ==> (headers is Some && lent_body@.len() == 0 ==> carried(
            reply,
        ) == Some(Seq::<u8>::empty())),
{
    match (headers, body) {
        (Some(_), Some(lent_body)) => {
            let text = body_text(lent_body);
            let pairs = parse_form(text.as_bytes());
            let line = first_pair_line(&pairs);
            proof {
                if lent_body@.len() == 0 {
                    assert(text@ == Seq::<char>::empty());
                    assert(encode_utf8(text@) == Seq::<u8>::empty());
                    assert(pairs.deep_view() == Seq::<(Seq<char>, Seq<char>)>::empty());
                    assert(line@ == Seq::<char>::empty());
                }
            }
            OwnedResponse::from_text(line.as_str())
        },
        _ => None,
    }
}

/// The handler that shows the form. Whatever the request holds, the answer is
/// [`FORM_PAGE`].
pub fn test_get(headers: Option<&HeaderMap<HeaderValue>>, body: Option<&[u8]>) -> (reply: Option<
    OwnedResponse,
>)
    ensures
        headers is None || body is None ==> reply is None,
        headers is Some && body is Some ==> carried(reply) == Some(encode_utf8(FORM_PAGE@)),
{
    match (headers, body) {
        (Some(_), Some(_)) => {
            proof {
                reveal_strlit(
                    "\n<form method=\"post\" action=\"/plugin/foo-bar/test-post\">\n<input type=\"text\" name=\"my_text\" value=\"Lorem ipsum dolor sit amet, consectetur adipiscing elit. Cras sagittis quam id libero ultrices imperdiet. Nullam odio risus, ultricies quis ornare ut, bibendum eget tortor.\">\n<input type=\"submit\" value=\"Submit\">\n</form>",
                );
            }
            Some(OwnedResponse::from_plain(FORM_PAGE))
        },
        _ => None,
    }
}

/// What the module says of itself: its name, its version, its authors, what
/// it is and its license, each on a line of its own.
pub open spec fn about_text() -> Seq<char> {
    "Name: "@ + NAME@ + "\nVersion: "@ + VERSION@ + "\nauthors = \""@ + AUTHORS@
        + "\"\nDescription: "@ + DESCRIPTION@ + "\nLicense: "@ + LICENSE@
}

/// The handler that tells what the module is. It reads neither the headers
/// nor the body, and answers also where they are missing.
pub fn about(headers: Option<&HeaderMap<HeaderValue>>, body: Option<&[u8]>) -> (reply:
    OwnedResponse)
    ensures
        reply@ == encode_utf8(about_text()),
{
    let mut text = String::from_str("Name: ");
    text.append(NAME);
    text.append("\nVersion: ");
    text.append(VERSION);
    text.append("\nauthors = \"");
    text.append(AUTHORS);
    text.append("\"\nDescription: ");
    text.append(DESCRIPTION);
    text.append("\nLicense: ");
    text.append(LICENSE);
    proof {
        reveal_strlit("Name: ");
        reveal_strlit("arp-foo-bar");
        reveal_strlit("\nVersion: ");
        reveal_strlit("0.1.0");
        reveal_strlit("\nauthors = \"");
        reveal_strlit("Henrique Dias <mrhdias@gmail.com>");
        reveal_strlit("\"\nDescription: ");
        reveal_strlit("Shared library Example");
        reveal_strlit("\nLicense: ");
        reveal_strlit("MIT");
        let named = "Name: "@ + NAME@;
        lemma_plain_text_concat("Name: "@, NAME@);
        lemma_plain_text_concat(named, "\nVersion: "@);
        let versioned = named + "\nVersion: "@ + VERSION@;
        lemma_plain_text_concat(named + "\nVersion: "@, VERSION@);
        lemma_plain_text_concat(versioned, "\nauthors = \""@);
        let signed = versioned + "\nauthors = \""@ + AUTHORS@;
        lemma_plain_text_concat(versioned + "\nauthors = \""@, AUTHORS@);
        lemma_plain_text_concat(signed, "\"\nDescription: "@);
        let described = signed + "\"\nDescription: "@ + DESCRIPTION@;
        lemma_plain_text_concat(signed + "\"\nDescription: "@, DESCRIPTION@);
        lemma_plain_text_concat(described, "\nLicense: "@);
        lemma_plain_text_concat(described + "\nLicense: "@, LICENSE@);
    }
    OwnedResponse::from_plain(text.as_str())
}

} // verus!
