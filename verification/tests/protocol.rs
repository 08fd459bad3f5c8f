use tetanus::Destination;
use tetanus::Message;
use tetanus::console::ConsoleForward;
use tetanus::console::ConsoleOutput;
use tetanus::console::MainAction;
use tetanus::console::forward_message;
use tetanus::console::main_control;
use tetanus::message::Token;
use tetanus::message::classify;
use tetanus::session::DialogDriver;
use tetanus::session::DriverAction;
use tetanus::session::Handshake;
use tetanus::session::HandshakeAction;
use tetanus::session::SessionState;

fn control(content: &str) -> Message {
    Message::new(Destination::Control, Destination::Console, content.to_string())
}

fn console(content: &str) -> Message {
    Message::new(Destination::Console, Destination::Console, content.to_string())
}

#[test]
fn tokens_are_exact_matches() {
    assert_eq!(classify("ack"), Token::Ack);
    assert_eq!(classify("ready"), Token::Ready);
    assert_eq!(classify("PROMPT"), Token::Prompt);
    assert_eq!(classify("prompt"), Token::Text);
    assert_eq!(classify("noninteractive"), Token::Noninteractive);
    assert_eq!(classify("DONE"), Token::Done);
    assert_eq!(classify("finished"), Token::Finished);
    assert_eq!(classify("exit"), Token::Exit);
    assert_eq!(classify("ack "), Token::Text);
    assert_eq!(classify("hello operator"), Token::Text);
}

#[test]
fn duplicate_ack_forwarded_once() {
    let mut hs = Handshake::new();
    let first = hs.on_message("ack");
    let second = hs.on_message("ack");
    assert_eq!(first, HandshakeAction::ForwardAck);
    assert_eq!(second, HandshakeAction::Ignore);
    assert!(hs.acked);
    assert!(!hs.ready);
    let third = hs.on_message("ack");
    assert_eq!(third, HandshakeAction::Ignore);
}

#[test]
fn ready_completes_rendezvous() {
    let mut hs = Handshake::new();
    hs.on_message("ack");
    assert!(!hs.ready);
    let act = hs.on_message("ready");
    assert_eq!(act, HandshakeAction::Ignore);
    assert!(hs.ready);
}

#[test]
fn prompt_without_input_keeps_dialog() {
    let mut d = DialogDriver::start();
    assert!(d.needs_ack_request());
    assert_eq!(d.on_message("ack"), DriverAction::SendReady);
    assert_eq!(d.state, SessionState::Dialog);
    assert_eq!(d.on_message("PROMPT"), DriverAction::SolicitInput);
    assert_eq!(d.state, SessionState::Dialog);
    assert_eq!(d.on_message("some text"), DriverAction::Ignore);
    assert_eq!(d.state, SessionState::Dialog);
    assert!(!d.finished());
    assert_eq!(d.on_message("DONE"), DriverAction::Finish);
    assert!(d.finished());
}

#[test]
fn reply_is_verbatim() {
    let d = DialogDriver::start();
    let m = d.reply("webapp-acme".to_string());
    assert_eq!(m.content, "webapp-acme");
    assert_eq!(m.source, Destination::Console);
}

#[test]
fn console_output_forwards_ack_silently() {
    let mut co = ConsoleOutput::new();
    let e = co.on_message(&control("ack"), true);
    assert_eq!(e.forward, Some(ConsoleForward::Ack));
    assert!(e.print.is_none());
    assert!(co.interactive);
    assert!(co.acked);
}

#[test]
fn console_output_answers_noninteractive_with_done() {
    let mut co = ConsoleOutput::new();
    co.on_message(&control("ack"), true);
    let e = co.on_message(&control("noninteractive"), true);
    assert_eq!(e.forward, Some(ConsoleForward::Done));
    assert!(!co.interactive);
    let text = e.print.expect("prompt resumes after the session");
    assert!(text.ends_with("what is thy bidding my master?"));
}

#[test]
fn console_output_prompts_during_session() {
    let mut co = ConsoleOutput::new();
    co.on_message(&control("ack"), true);
    let e = co.on_message(&console("project_name?"), true);
    assert_eq!(e.forward, Some(ConsoleForward::Prompt));
    assert_eq!(e.print.as_deref(), Some("\nproject_name?\n"));
    assert!(!e.print_error);
}

#[test]
fn console_output_routes_errors() {
    let mut co = ConsoleOutput::new();
    let e = co.on_message(&console("error! invalid command!"), true);
    assert!(e.print_error);
    let text = e.print.unwrap();
    assert!(text.contains("error! invalid command!"));
    assert!(text.ends_with("what is thy bidding my master?"));
}

#[test]
fn console_output_exit_winds_down() {
    let mut co = ConsoleOutput::new();
    let e = co.on_message(&control("exit"), true);
    assert!(e.exit);
    assert!(e.print.is_none());
    assert!(co.exited);
}

#[test]
fn forward_messages_carry_tokens() {
    let original = control("ack");
    assert_eq!(forward_message(&ConsoleForward::Done, &original).content, "DONE");
    assert_eq!(forward_message(&ConsoleForward::Prompt, &original).content, "PROMPT");
    let f = forward_message(&ConsoleForward::Ack, &original);
    assert_eq!(f.content, "ack");
    assert_eq!(f.source, Destination::Control);
}

#[test]
fn main_loop_control() {
    assert_eq!(main_control(&Message::new(Destination::Console, Destination::Control, "exit".to_string())), MainAction::Shutdown);
    assert_eq!(main_control(&Message::new(Destination::Console, Destination::Control, "odd".to_string())), MainAction::Unknown);
    assert_eq!(main_control(&console("exit")), MainAction::Ignore);
}
