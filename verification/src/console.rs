//! The console output loop's decision logic: react to control tokens,
//! decide what to print and through which channel, and answer the
//! interactive protocol. Everything but the actual channel reads and
//! terminal writes is decided here, one message at a time.

use vstd::prelude::*;
use vstd::string::StrSliceExecFns;
use vstd::string::StringExecFns;

use crate::message::Destination;
use crate::message::Message;
use crate::message::Token;
use crate::message::classify;
use crate::message::spec_token;
use crate::strkit::contains_sub;
use crate::strkit::has_substring;

verus! {

/// The mutable state of the console output loop.
#[derive(Clone, Copy, PartialEq, Eq, Structural, Debug)]
pub struct ConsoleOutput {
    /// An interactive session is in progress; ordinary prompting stops.
    pub interactive: bool,
    /// The session's `ack` has been seen and forwarded.
    pub acked: bool,
    /// A global `exit` was received; the loop winds down.
    pub exited: bool,
}

/// A message the console loop must send back to the dispatch side.
#[derive(Clone, Copy, PartialEq, Eq, Structural, Debug)]
pub enum ConsoleForward {
    /// Acknowledge the end of an interactive session with a `DONE`.
    Done,
    /// Forward the session's `ack` (the received message, verbatim).
    Ack,
    /// Ask the dispatch loop for the next operator line with a `PROMPT`.
    Prompt,
}

/// Everything one step of the console loop asks its surroundings to do.
pub struct ConsoleEffect {
    /// Text for the operator, if any.
    pub print: Option<String>,
    /// Print through the error channel (the text mentions an error).
    pub print_error: bool,
    /// A protocol message to send back, if any.
    pub forward: Option<ConsoleForward>,
    /// Leave the loop.
    pub exit: bool,
}

/// The ghost image of one console step.
pub struct ConsoleStep {
    pub next: ConsoleOutput,
    pub print: Option<Seq<char>>,
    pub print_error: bool,
    pub forward: Option<ConsoleForward>,
    pub exit: bool,
}

/// The text one received message contributes, before the display decision.
pub open spec fn console_text(src: Destination, content: Seq<char>, open: bool) -> Seq<char> {
    if src == Destination::Control {
        match spec_token(content) {
            Token::Init => "\nconsole output started successfully!\n"@,
            Token::Exit => "\ngood bye!\n"@,
            Token::Status => if open {
                "\nthe console_rx channel is still open!!\n"@
            } else {
                "\nerror! the console_rx channel is closed!!!\n"@
            },
            Token::Noninteractive => Seq::<char>::empty(),
            Token::Ack => Seq::<char>::empty(),
            _ => content,
        }
    } else if src == Destination::Server {
        "\n"@ + content + " received from server! (functionality coming soon!)\n"@
    } else {
        "\n"@ + content + "\n"@
    }
}

/// Whether the contributed text is shown at all.
pub open spec fn console_displays(src: Destination, content: Seq<char>) -> bool {
    !(src == Destination::Control && spec_token(content) == Token::Ack)
}

/// The state after one received message.
pub open spec fn console_next(st: ConsoleOutput, src: Destination, content: Seq<char>)
    -> ConsoleOutput {
    if src == Destination::Control {
        match spec_token(content) {
            Token::Exit => ConsoleOutput { exited: true, ..st },
            Token::Noninteractive => ConsoleOutput { interactive: false, ..st },
            Token::Ack => ConsoleOutput { interactive: true, acked: true, ..st },
            _ => st,
        }
    } else {
        st
    }
}

/// The ordinary prompt shown after non-interactive output.
pub open spec fn console_prompt() -> Seq<char> {
    "what is thy bidding my master?"@
}

/// One full step of the console loop: the transition table of §4.2 as seen
/// from the output side. Outside an interactive session the text is shown
/// with the prompt appended, through the error channel when it mentions an
/// error; inside a session each displayed message is followed by a
/// `PROMPT` request; an `ack` is forwarded silently and `noninteractive`
/// is answered with a `DONE`.
pub open spec fn console_step(st: ConsoleOutput, src: Destination, content: Seq<char>, open: bool)
    -> ConsoleStep {
    let t = spec_token(content);
    let next = console_next(st, src, content);
    let out = console_text(src, content, open);
    let display = console_displays(src, content);
    let arm_forward: Option<ConsoleForward> = if src == Destination::Control && t == Token::Ack {
        Some(ConsoleForward::Ack)
    } else if src == Destination::Control && t == Token::Noninteractive {
        Some(ConsoleForward::Done)
    } else {
        Option::None
    };
    if display {
        if !next.interactive {
            if !next.exited {
                let shown = out + console_prompt();
                ConsoleStep {
                    next,
                    print: Some(shown),
                    print_error: has_substring(shown, "error"@),
                    forward: arm_forward,
                    exit: false,
                }
            } else {
                ConsoleStep {
                    next,
                    print: Option::None,
                    print_error: false,
                    forward: arm_forward,
                    exit: true,
                }
            }
        } else {
            if next.acked {
                ConsoleStep {
                    next,
                    print: Some(out),
                    print_error: false,
                    forward: Some(ConsoleForward::Prompt),
                    exit: next.exited,
                }
            } else {
                ConsoleStep {
                    next,
                    print: Option::None,
                    print_error: false,
                    forward: arm_forward,
                    exit: next.exited,
                }
            }
        }
    } else {
        ConsoleStep {
            next,
            print: Option::None,
            print_error: false,
            forward: arm_forward,
            exit: false,
        }
    }
}

impl ConsoleOutput {
    /// The state the console loop starts in.
    pub fn new() -> (st: ConsoleOutput)
        ensures
            !st.interactive,
            !st.acked,
            !st.exited,
    {
        ConsoleOutput { interactive: false, acked: false, exited: false }
    }

    /// Processes one received message; `channel_open` answers the `status`
    /// token's question about the receive channel.
    pub fn on_message(&mut self, msg: &Message, channel_open: bool) -> (e: ConsoleEffect)
        ensures
            ({
                let step = console_step(*old(self), msg.source, msg.content@, channel_open);
                &&& *final(self) == step.next
                &&& (e.print is Some) == (step.print is Some)
                &&& (e.print is Some ==> e.print->0@ == step.print->0)
                &&& e.print_error == step.print_error
                &&& e.forward == step.forward
                &&& e.exit == step.exit
            }),
    {
        let t = classify(msg.content.as_str());
        let mut out = String::new();
        let mut display = true;
        let mut forward: Option<ConsoleForward> = None;
        if matches!(msg.source, Destination::Control) {
            match t {
                Token::Init => {
                    out.append("\nconsole output started successfully!\n");
                },
                Token::Exit => {
                    out.append("\ngood bye!\n");
                    self.exited = true;
                },
                Token::Status => {
                    if channel_open {
                        out.append("\nthe console_rx channel is still open!!\n");
                    } else {
                        out.append("\nerror! the console_rx channel is closed!!!\n");
                    }
                },
                Token::Noninteractive => {
                    self.interactive = false;
                    forward = Some(ConsoleForward::Done);
                },
                Token::Ack => {
                    self.interactive = true;
                    self.acked = true;
                    display = false;
                    forward = Some(ConsoleForward::Ack);
                },
                _ => {
                    out.append(msg.content.as_str());
                },
            }
        } else if matches!(msg.source, Destination::Server) {
            out.append("\n");
            out.append(msg.content.as_str());
            out.append(" received from server! (functionality coming soon!)\n");
        } else {
            out.append("\n");
            out.append(msg.content.as_str());
            out.append("\n");
        }
        proof {
            assert(out@ =~= console_text(msg.source, msg.content@, channel_open));
            assert(display == console_displays(msg.source, msg.content@));
        }
        if display {
            if !self.interactive {
                if !self.exited {
                    out.append("what is thy bidding my master?");
                    proof {
                        assert(out@ =~= console_text(msg.source, msg.content@, channel_open)
                            + console_prompt());
                    }
                    let is_err = contains_sub(out.as_str(), "error");
                    ConsoleEffect { print: Some(out), print_error: is_err, forward, exit: false }
                } else {
                    ConsoleEffect { print: None, print_error: false, forward, exit: true }
                }
            } else {
                if self.acked {
                    ConsoleEffect {
                        print: Some(out),
                        print_error: false,
                        forward: Some(ConsoleForward::Prompt),
                        exit: self.exited,
                    }
                } else {
                    ConsoleEffect { print: None, print_error: false, forward, exit: self.exited }
                }
            }
        } else {
            ConsoleEffect { print: None, print_error: false, forward, exit: false }
        }
    }
}

/// The protocol message a `ConsoleForward` stands for. An `Ack` forwards
/// the received message itself; the others are fixed control tokens.
pub fn forward_message(f: &ConsoleForward, original: &Message) -> (m: Message)
    ensures
        f == ConsoleForward::Done ==> m.content@ == "DONE"@,
        f == ConsoleForward::Prompt ==> m.content@ == "PROMPT"@,
        f == ConsoleForward::Ack ==> m.content@ == original.content@ && m.source
            == original.source && m.destination == original.destination,
        !(f == ConsoleForward::Ack) ==> m.source == Destination::Console && m.destination
            == Destination::Console,
    {
    match f {
        ConsoleForward::Done => Message::new(
            Destination::Console,
            Destination::Console,
            String::from_str("DONE"),
        ),
        ConsoleForward::Prompt => Message::new(
            Destination::Console,
            Destination::Console,
            String::from_str("PROMPT"),
        ),
        ConsoleForward::Ack => Message::new(
            original.source,
            original.destination,
            String::from_str(original.content.as_str()),
        ),
    }
}

/// What the main loop does with a message on its own channel: a control
/// `exit` shuts the process down, any other control content is reported as
/// unknown, and everything else is ignored.
#[derive(Clone, Copy, PartialEq, Eq, Structural, Debug)]
pub enum MainAction {
    Shutdown,
    Unknown,
    Ignore,
}

/// Decides the main loop's reaction to one message.
pub fn main_control(msg: &Message) -> (a: MainAction)
    ensures
        a == MainAction::Shutdown <==> msg.destination == Destination::Control && spec_token(
            msg.content@,
        ) == Token::Exit,
        a == MainAction::Ignore <==> msg.destination != Destination::Control,
{
    if matches!(msg.destination, Destination::Control) {
        if matches!(classify(msg.content.as_str()), Token::Exit) {
            MainAction::Shutdown
        } else {
            MainAction::Unknown
        }
    } else {
        MainAction::Ignore
    }
}

} // verus!
