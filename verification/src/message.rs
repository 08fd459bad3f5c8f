//! Session messages. A message carries free-form text or one of a closed
//! set of control tokens; the token set is checked by exact match first, so
//! display text can never be mistaken for a control token.

use vstd::prelude::*;

use crate::strkit::str_eq;

verus! {

/// Where a message comes from or goes to. `Server` is a placeholder for the
/// future network peer.
#[derive(Clone, Copy, PartialEq, Eq, Structural, Debug)]
pub enum Destination {
    Console,
    Server,
    Control,
}

/// One unit of the interactive protocol. Transient; never persisted.
#[derive(Clone)]
pub struct Message {
    pub source: Destination,
    pub destination: Destination,
    pub content: String,
}

/// A placeholder for the network peer the tool will one day talk to.
pub struct Server {
    pub address: String,
    pub id: usize,
}

/// The closed vocabulary of control tokens, plus `Text` for everything
/// else. `Prompt` is the case-significant `PROMPT` token.
#[derive(Clone, Copy, PartialEq, Eq, Structural, Debug)]
pub enum Token {
    Init,
    Ack,
    Ready,
    Prompt,
    Interactive,
    Noninteractive,
    Done,
    Finished,
    Exit,
    Status,
    Text,
}

/// The token a content string denotes: exact match against the closed set,
/// anything else is display text.
pub open spec fn spec_token(s: Seq<char>) -> Token {
    if s == "init"@ {
        Token::Init
    } else if s == "ack"@ {
        Token::Ack
    } else if s == "ready"@ {
        Token::Ready
    } else if s == "PROMPT"@ {
        Token::Prompt
    } else if s == "interactive"@ {
        Token::Interactive
    } else if s == "noninteractive"@ {
        Token::Noninteractive
    } else if s == "DONE"@ {
        Token::Done
    } else if s == "finished"@ {
        Token::Finished
    } else if s == "exit"@ {
        Token::Exit
    } else if s == "status"@ {
        Token::Status
    } else {
        Token::Text
    }
}

/// Classifies a content string.
pub fn classify(s: &str) -> (t: Token)
    ensures
        t == spec_token(s@),
{
    if str_eq(s, "init") {
        Token::Init
    } else if str_eq(s, "ack") {
        Token::Ack
    } else if str_eq(s, "ready") {
        Token::Ready
    } else if str_eq(s, "PROMPT") {
        Token::Prompt
    } else if str_eq(s, "interactive") {
        Token::Interactive
    } else if str_eq(s, "noninteractive") {
        Token::Noninteractive
    } else if str_eq(s, "DONE") {
        Token::Done
    } else if str_eq(s, "finished") {
        Token::Finished
    } else if str_eq(s, "exit") {
        Token::Exit
    } else if str_eq(s, "status") {
        Token::Status
    } else {
        Token::Text
    }
}

impl Message {
    /// A message with the given routing and content.
    pub fn new(source: Destination, destination: Destination, content: String) -> (m: Message)
        ensures
            m.source == source,
            m.destination == destination,
            m.content@ == content@,
    {
        Message { source, destination, content }
    }
}

} // verus!
