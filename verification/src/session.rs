//! The interactive session protocol: a handshake state machine between a
//! running command and the console front-end. The channels and the tasks
//! live outside the library; these machines make every decision, one
//! received message at a time, so the protocol itself is verified.
//!
//! The protocol: the dispatch loop repeatedly sends an `ack` request until
//! the command unit answers `ack`; the command's `ack` is forwarded exactly
//! once (duplicates are suppressed); the console answers `ready`, the
//! rendezvous after which the command may prompt; each `PROMPT` solicits one
//! line of operator input, returned verbatim; `DONE` (or `noninteractive`,
//! answered with a `DONE`) tears the dialog down.

use vstd::prelude::*;

use crate::message::Destination;
use crate::message::Message;
use crate::message::Token;
use crate::message::classify;
use crate::message::spec_token;
use crate::strkit::has_substring;

verus! {

/// The session states of the protocol, console side.
#[derive(Clone, Copy, PartialEq, Eq, Structural, Debug)]
pub enum SessionState {
    /// No interactive command is running.
    Idle,
    /// A command signalled it needs interaction; the console keeps sending
    /// an `ack` request until the command unit answers.
    Initiating,
    /// The dialog is up: every `PROMPT` solicits operator input.
    Dialog,
}

// ------------------------------------------------------------------
// Command-side handshake: deduplicate `ack`, wait for `ready`.
// ------------------------------------------------------------------

/// The command unit's view of the handshake while it waits for the console.
#[derive(Clone, Copy, PartialEq, Eq, Structural, Debug)]
pub struct Handshake {
    /// The one permitted `ack` has been forwarded.
    pub acked: bool,
    /// The console confirmed with `ready`; prompts may flow.
    pub ready: bool,
}

/// What the command unit does with one received message.
#[derive(Clone, Copy, PartialEq, Eq, Structural, Debug)]
pub enum HandshakeAction {
    /// Forward the `ack` to the console, exactly once.
    ForwardAck,
    /// Nothing; the message was a duplicate or not part of the handshake.
    Ignore,
}

/// The handshake transition function.
pub open spec fn hs_next(h: Handshake, t: Token) -> Handshake {
    match t {
        Token::Ack => Handshake { acked: true, ..h },
        Token::Ready => Handshake { ready: true, ..h },
        _ => h,
    }
}

/// How many `ack`s one step forwards (zero or one).
pub open spec fn hs_forwards(h: Handshake, t: Token) -> nat {
    if t == Token::Ack && !h.acked {
        1
    } else {
        0
    }
}

/// Total `ack`s forwarded over a whole trace of received tokens.
pub open spec fn hs_run_forwards(h: Handshake, ts: Seq<Token>) -> nat
    decreases ts.len(),
{
    if ts.len() == 0 {
        0
    } else {
        hs_forwards(h, ts[0]) + hs_run_forwards(hs_next(h, ts[0]), ts.drop_first())
    }
}

impl Handshake {
    /// A fresh handshake: nothing forwarded, rendezvous not reached.
    pub fn new() -> (h: Handshake)
        ensures
            !h.acked,
            !h.ready,
    {
        Handshake { acked: false, ready: false }
    }

    /// Processes one message received from the console loop.
    pub fn on_message(&mut self, content: &str) -> (a: HandshakeAction)
        ensures
            *final(self) == hs_next(*old(self), spec_token(content@)),
            (a == HandshakeAction::ForwardAck) <==> hs_forwards(*old(self), spec_token(content@))
                == 1,
    {
        let t = classify(content);
        match t {
            Token::Ack => {
                let was = self.acked;
                self.acked = true;
                if was {
                    HandshakeAction::Ignore
                } else {
                    HandshakeAction::ForwardAck
                }
            },
            Token::Ready => {
                self.ready = true;
                HandshakeAction::Ignore
            },
            _ => HandshakeAction::Ignore,
        }
    }
}

/// Once the `ack` has gone out, no trace of further messages ever forwards
/// another one.
pub proof fn lemma_acked_forwards_nothing(h: Handshake, ts: Seq<Token>)
    requires
        h.acked,
    ensures
        hs_run_forwards(h, ts) == 0,
    decreases ts.len(),
{
    if ts.len() > 0 {
        lemma_acked_forwards_nothing(hs_next(h, ts[0]), ts.drop_first());
    }
}

/// Over any trace of received messages, a fresh handshake forwards `ack`
/// exactly once if the trace contains an `ack` at all, and never more:
/// duplicate `ack`s are suppressed.
pub proof fn lemma_ack_forwarded_once(h: Handshake, ts: Seq<Token>)
    requires
        !h.acked,
    ensures
        hs_run_forwards(h, ts) == (if ts.contains(Token::Ack) {
            1nat
        } else {
            0nat
        }),
    decreases ts.len(),
{
    if ts.len() > 0 {
        if ts[0] == Token::Ack {
            lemma_acked_forwards_nothing(hs_next(h, ts[0]), ts.drop_first());
            assert(ts.contains(Token::Ack)) by {
                assert(ts[0] == Token::Ack);
            }
        } else {
            lemma_ack_forwarded_once(hs_next(h, ts[0]), ts.drop_first());
            assert(ts.contains(Token::Ack) <==> ts.drop_first().contains(Token::Ack)) by {
                if ts.contains(Token::Ack) {
                    let i = choose|i: int| 0 <= i < ts.len() && ts[i] == Token::Ack;
                    assert(ts.drop_first()[i - 1] == Token::Ack);
                }
                if ts.drop_first().contains(Token::Ack) {
                    let i = choose|i: int|
                        0 <= i < ts.drop_first().len() && ts.drop_first()[i] == Token::Ack;
                    assert(ts[i + 1] == Token::Ack);
                }
            }
        }
    }
}

// ------------------------------------------------------------------
// Console-side dialog driver: the dispatch loop's half of the session.
// ------------------------------------------------------------------

/// What the dispatch loop must do after one step of the dialog.
#[derive(Clone, Copy, PartialEq, Eq, Structural, Debug)]
pub enum DriverAction {
    /// Answer the command's `ack` with the `ready` rendezvous.
    SendReady,
    /// Solicit one line of operator input and send it back verbatim.
    SolicitInput,
    /// The session is over; return to normal dispatch.
    Finish,
    /// Not a dialog token; nothing to do.
    Ignore,
}

/// The console-side transition table. Only `DONE` leaves the dialog: a
/// `PROMPT` with no operator input yet keeps the session in `Dialog`.
pub open spec fn driver_next(s: SessionState, t: Token) -> SessionState {
    match s {
        SessionState::Initiating => if t == Token::Ack {
            SessionState::Dialog
        } else if t == Token::Done {
            SessionState::Idle
        } else {
            s
        },
        SessionState::Dialog => if t == Token::Done {
            SessionState::Idle
        } else {
            s
        },
        SessionState::Idle => s,
    }
}

/// The action the console takes on one received token.
pub open spec fn driver_action(s: SessionState, t: Token) -> DriverAction {
    match s {
        SessionState::Initiating => if t == Token::Ack {
            DriverAction::SendReady
        } else if t == Token::Done {
            DriverAction::Finish
        } else {
            DriverAction::Ignore
        },
        SessionState::Dialog => if t == Token::Prompt {
            DriverAction::SolicitInput
        } else if t == Token::Done {
            DriverAction::Finish
        } else {
            DriverAction::Ignore
        },
        SessionState::Idle => DriverAction::Ignore,
    }
}

/// The dispatch loop's half of one interactive session.
pub struct DialogDriver {
    pub state: SessionState,
}

impl DialogDriver {
    /// Starts a session: the console begins soliciting the command's `ack`.
    pub fn start() -> (d: DialogDriver)
        ensures
            d.state == SessionState::Initiating,
    {
        DialogDriver { state: SessionState::Initiating }
    }

    /// While the command unit has not acknowledged, the console keeps
    /// sending the `ack` request; afterwards it must stop.
    pub fn needs_ack_request(&self) -> (r: bool)
        ensures
            r == (self.state == SessionState::Initiating),
    {
        match self.state {
            SessionState::Initiating => true,
            _ => false,
        }
    }

    /// Whether the session has torn down and dispatch may resume.
    pub fn finished(&self) -> (r: bool)
        ensures
            r == (self.state == SessionState::Idle),
    {
        match self.state {
            SessionState::Idle => true,
            _ => false,
        }
    }

    /// Processes one message received from the command unit.
    pub fn on_message(&mut self, content: &str) -> (a: DriverAction)
        ensures
            final(self).state == driver_next(old(self).state, spec_token(content@)),
            a == driver_action(old(self).state, spec_token(content@)),
    {
        let t = classify(content);
        match self.state {
            SessionState::Initiating => {
                if matches!(t, Token::Ack) {
                    self.state = SessionState::Dialog;
                    DriverAction::SendReady
                } else if matches!(t, Token::Done) {
                    self.state = SessionState::Idle;
                    DriverAction::Finish
                } else {
                    DriverAction::Ignore
                }
            },
            SessionState::Dialog => {
                if matches!(t, Token::Prompt) {
                    DriverAction::SolicitInput
                } else if matches!(t, Token::Done) {
                    self.state = SessionState::Idle;
                    DriverAction::Finish
                } else {
                    DriverAction::Ignore
                }
            },
            SessionState::Idle => DriverAction::Ignore,
        }
    }

    /// The operator's reply, forwarded verbatim to the command unit.
    pub fn reply(&self, input: String) -> (m: Message)
        ensures
            m.source == Destination::Console,
            m.destination == Destination::Console,
            m.content@ == input@,
    {
        Message::new(Destination::Console, Destination::Console, input)
    }
}

/// A `PROMPT` alone never completes the session: in `Dialog`, every token
/// but `DONE` leaves the state in `Dialog`; soliciting operator input is
/// the answer to a `PROMPT` and to nothing else, and only `DONE` finishes
/// the dialog. While the operator's input is pending, the session
/// therefore stays in `Dialog` with no completion possible.
pub proof fn lemma_prompt_keeps_dialog(t: Token)
    ensures
        t != Token::Done ==> driver_next(SessionState::Dialog, t) == SessionState::Dialog,
        (driver_action(SessionState::Dialog, t) == DriverAction::SolicitInput) <==> t
            == Token::Prompt,
        (driver_action(SessionState::Dialog, t) == DriverAction::Finish) <==> t == Token::Done,
{
}

} // verus!
