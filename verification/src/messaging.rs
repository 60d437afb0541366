//! What a message broker is asked, and what its answers stand for.

use vstd::prelude::*;

use crate::time::Duration;

verus! {

/// Why a broker is not asked.
#[derive(Clone, Copy, Debug, PartialEq, Eq, Structural)]
pub enum MessagingError {
    /// The time to wait is too long.
    Timeout,
    /// More than one answer is asked for.
    TooMany,
}

impl MessagingError {
    pub open spec fn text(self) -> Seq<char> {
        match self {
            MessagingError::Timeout => "timeout milliseconds do not fit in `u32`"@,
            MessagingError::TooMany => "at most 1 result can be requested at the time"@,
        }
    }

    pub fn message(&self) -> (r: String)
        ensures
            r@ == self.text(),
    {
        match self {
            MessagingError::Timeout => "timeout milliseconds do not fit in `u32`".to_owned(),
            MessagingError::TooMany => "at most 1 result can be requested at the time".to_owned(),
        }
    }
}

/// A message as an actor sees it.
#[derive(Debug)]
pub struct BrokerMessage {
    pub subject: String,
    pub reply_to: Option<String>,
    pub body: Option<Vec<u8>>,
}

/// Asks for an answer to a message.
#[derive(Debug)]
pub struct RequestMessage {
    pub subject: String,
    pub body: Vec<u8>,
    pub timeout_ms: u32,
}

/// An answer to a message.
#[derive(Debug)]
pub struct ReplyMessage {
    pub subject: String,
    pub reply_to: Option<String>,
    pub body: Vec<u8>,
}

/// A message to send.
#[derive(Debug)]
pub struct PubMessage {
    pub subject: String,
    pub reply_to: Option<String>,
    pub body: Vec<u8>,
}

/// The bytes of a body; none stand for an empty one.
pub open spec fn body_bytes(body: Option<Vec<u8>>) -> Seq<u8> {
    match body {
        Some(bytes) => bytes@,
        None => Seq::empty(),
    }
}

fn body_or_empty(body: Option<Vec<u8>>) -> (r: Vec<u8>)
    ensures
        r@ == body_bytes(body),
{
    match body {
        Some(bytes) => bytes,
        None => Vec::new(),
    }
}

/// Asks for an answer to a message, within a time.
pub fn request_message(subject: String, body: Option<Vec<u8>>, timeout: Duration) -> (r: Result<
    RequestMessage,
    MessagingError,
>)
    ensures
        if timeout.millis() > u32::MAX {
            r == Err::<RequestMessage, MessagingError>(MessagingError::Timeout)
        } else {
            r matches Ok(m) && m.subject == subject && m.body@ == body_bytes(body) && m.timeout_ms
                == timeout.millis()
        },
{
    match u32::try_from(timeout.as_millis()) {
        Ok(timeout_ms) => Ok(RequestMessage { subject, body: body_or_empty(body), timeout_ms }),
        Err(_) => Err(MessagingError::Timeout),
    }
}

/// An answer as an actor sees it.
pub fn request_result(reply: ReplyMessage) -> (r: BrokerMessage)
    ensures
        r.subject == reply.subject,
        r.reply_to == reply.reply_to,
        r.body == Some(reply.body),
{
    BrokerMessage { subject: reply.subject, reply_to: reply.reply_to, body: Some(reply.body) }
}

/// Several answers are asked for as one is, where no more than one is wanted.
pub fn check_max_results(max_results: u32) -> (r: Result<(), MessagingError>)
    ensures
        r == if max_results <= 1 {
            Ok(())
        } else {
            Err(MessagingError::TooMany)
        },
{
    if max_results <= 1 {
        Ok(())
    } else {
        Err(MessagingError::TooMany)
    }
}

/// A message to send.
pub fn publish_message(message: BrokerMessage) -> (r: PubMessage)
    ensures
        r.subject == message.subject,
        r.reply_to == message.reply_to,
        r.body@ == body_bytes(message.body),
{
    PubMessage {
        subject: message.subject,
        reply_to: message.reply_to,
        body: body_or_empty(message.body),
    }
}

/// A message without a body is sent with an empty one, and any other with its
/// own.
pub proof fn bodies_are_sent_as_they_are(body: Option<Vec<u8>>)
    ensures
        body is None ==> body_bytes(body).len() == 0,
        body matches Some(bytes) ==> body_bytes(body) == bytes@,
{
}

/// What the caller of a broker is told of each failure.
pub proof fn failed_messages_are_told()
    ensures
        MessagingError::Timeout.text() == "timeout milliseconds do not fit in `u32`"@,
        MessagingError::TooMany.text() == "at most 1 result can be requested at the time"@,
{
}

} // verus!
