use reason::cmd::loop_action;
use reason::cmd::CommandInput;
use reason::cmd::LoopAction;
use reason::cmd::CommandOutput;
use reason::cmd::Fallacy;

fn seg(tokens: &[&str]) -> Vec<String> {
    tokens.iter().map(|t| t.to_string()).collect()
}

#[test]
fn silent_output_leaves_no_prior() {
    let input = CommandInput::from_output(seg(&["ls"]), CommandOutput::Silent);
    assert_eq!(input.args, seg(&["ls"]));
    assert_eq!(input.prior, None);
}

#[test]
fn message_output_becomes_prior() {
    let input = CommandInput::from_output(seg(&["ls"]), CommandOutput::Message("m".to_string()));
    assert_eq!(input.prior, Some(CommandOutput::Message("m".to_string())));
}

#[test]
fn records_output_becomes_prior() {
    let input = CommandInput::from_output(seg(&["ls"]), CommandOutput::Records(vec![2, 4]));
    assert_eq!(input.prior, Some(CommandOutput::Records(vec![2, 4])));
}

#[test]
fn unknown_command_message_names_the_command() {
    let f = Fallacy::UnknownCommand("frobnicate".to_string());
    assert_eq!(f.message(), "Unknown command: frobnicate");
}

#[test]
fn invalid_chain_message_is_the_reason() {
    let f = Fallacy::InvalidChain("A chain cannot begin with a pipe.".to_string());
    assert_eq!(f.message(), "A chain cannot begin with a pipe.");
}

#[test]
fn handler_error_message_is_the_handlers_own() {
    let f = Fallacy::HandlerError("store is read-only".to_string());
    assert_eq!(f.message(), "store is read-only");
}

#[test]
fn exit_request_message() {
    assert_eq!(Fallacy::ExitRequested.message(), "Exit requested.");
}

#[test]
fn loop_shows_success() {
    let a = loop_action(Ok("two papers\n".to_string()));
    assert_eq!(a, LoopAction::Show("two papers\n".to_string()));
}

#[test]
fn loop_quits_on_exit_sentinel() {
    assert_eq!(loop_action(Err(Fallacy::ExitRequested)), LoopAction::Quit);
}

#[test]
fn loop_reports_other_failures() {
    let a = loop_action(Err(Fallacy::UnknownCommand("q".to_string())));
    assert_eq!(a, LoopAction::Report("Unknown command: q".to_string()));
}
