//! Messages and the request that carries one to the webhook.

use crate::endpoint::{is_endpoint, Endpoint};
use crate::line::{is_line_end, lemma_without_line_ending, strip_line_ending, without_line_ending};
use vstd::prelude::*;

verus! {

/// What `serde_json::to_string` makes of a string: the JSON string literal
/// for `text`, quotes included.
pub uninterp spec fn json_string(text: Seq<char>) -> Seq<char>;

/// The characters that a JSON string literal holds as they are: all but the
/// quote, the backslash and the control characters below the space.
pub open spec fn is_plain(c: char) -> bool {
    c != '"' && c != '\\' && c as u32 >= 0x20
}

/// A text of plain characters only.
pub open spec fn is_plain_text(text: Seq<char>) -> bool {
    forall|i: int| 0 <= i < text.len() ==> is_plain(#[trigger] text[i])
}

/// Calls `serde_json::to_string` on a string slice. The contract names the
/// literal that comes back and claims one thing of it: a text without
/// quote, backslash or control character is written between two quotes
/// unchanged, as the serializer's escape table shows. Serializing a string
/// slice into memory has no way to fail.
#[verifier::external_body]
fn to_json_string(text: &str) -> (json: String)
    ensures
        json@ == json_string(text@),
        is_plain_text(text@) ==> json@ == seq!['"'] + text@ + seq!['"'],
{
    serde_json::to_string(text).unwrap()
}

/// The request body for a message whose JSON string literal is `literal`:
/// an object with the single key `text`.
pub open spec fn framed(literal: Seq<char>) -> Seq<char> {
    "{\"text\":"@ + literal + "}"@
}

/// The request body that carries the message `text`.
pub open spec fn body_of(text: Seq<char>) -> Seq<char> {
    framed(json_string(text))
}

/// Wraps a JSON string literal into the object that the webhook expects.
pub fn frame(literal: &str) -> (body: String)
    ensures
        body@ == framed(literal@),
{
    let mut body = String::from_str("{\"text\":");
    body.append(literal);
    body.append("}");
    body
}

/// The text of one chat message: an input line without its line ending.
#[derive(Debug)]
pub struct Message {
    text: String,
}

impl View for Message {
    type V = Seq<char>;

    closed spec fn view(&self) -> Seq<char> {
        self.text@
    }
}

impl Message {
    #[verifier::type_invariant]
    spec fn stripped(self) -> bool {
        self.text@.len() == 0 || !is_line_end(self.text@.last())
    }

    /// The message that an input line carries: the line without the
    /// carriage returns and line feeds at its end, everything else kept.
    pub fn from_line(line: &str) -> (message: Message)
        ensures
            message@ == without_line_ending(line@),
    {
        proof {
            lemma_without_line_ending(line@);
        }
        Message { text: String::from_str(strip_line_ending(line)) }
    }

    /// The message text, which never ends in a line end.
    pub fn text(&self) -> (text: &str)
        ensures
            text@ == self@,
            text@.len() == 0 || !is_line_end(text@.last()),
    {
        proof {
            use_type_invariant(self);
        }
        self.text.as_str()
    }

    /// The request body for this message.
    pub fn body(&self) -> (body: String)
        ensures
            body@ == body_of(self@),
            is_plain_text(self@) ==> body@ == "{\"text\":\""@ + self@ + "\"}"@,
    {
        let literal = to_json_string(self.text.as_str());
        let body = frame(literal.as_str());
        proof {
            if is_plain_text(self@) {
                lemma_plain_body(self@, literal@);
            }
        }
        body
    }
}

/// Around a literal that is the text between two quotes, the frame reads
/// `{"text":"` before the text and `"}` behind it.
proof fn lemma_plain_body(text: Seq<char>, literal: Seq<char>)
    requires
        literal == seq!['"'] + text + seq!['"'],
    ensures
        framed(literal) == "{\"text\":\""@ + text + "\"}"@,
{
    reveal_strlit("{\"text\":");
    reveal_strlit("}");
    reveal_strlit("{\"text\":\"");
    reveal_strlit("\"}");
    assert(framed(literal) =~= "{\"text\":\""@ + text + "\"}"@);
}

/// The media type of every request body.
pub const CONTENT_TYPE: &'static str = "application/json";

/// One HTTP POST: where it goes and what it carries. Its body is sent with
/// the content type [`CONTENT_TYPE`].
#[derive(Debug)]
pub struct Request {
    pub url: String,
    pub body: String,
}

/// A request as plain values.
pub struct RequestView {
    pub url: Seq<char>,
    pub body: Seq<char>,
}

impl View for Request {
    type V = RequestView;

    open spec fn view(&self) -> RequestView {
        RequestView { url: self.url@, body: self.body@ }
    }
}

/// The request that posts the message `text` to the endpoint `url`.
pub open spec fn request_for(url: Seq<char>, text: Seq<char>) -> RequestView {
    RequestView { url, body: body_of(text) }
}

impl Request {
    /// The request that posts `message` to `endpoint`.
    pub fn new(endpoint: &Endpoint, message: &Message) -> (request: Request)
        ensures
            request@ == request_for(endpoint@, message@),
            is_endpoint(request.url@),
    {
        Request { url: String::from_str(endpoint.as_str()), body: message.body() }
    }
}

/// The statuses that count as delivered: the 2xx range.
pub open spec fn is_delivered(status: u16) -> bool {
    200 <= status < 300
}

/// Whether a response with this status means that the message was taken.
pub fn delivered(status: u16) -> (yes: bool)
    ensures
        yes == is_delivered(status),
{
    200 <= status && status < 300
}

} // verus!
