//! The external commands through which the daemon is observed and controlled.
//!
//! Nothing here runs a program. Each function describes one command line; the
//! host runs it and, for the two queries, hands what came back to the
//! functions that interpret it.

use vstd::prelude::*;

verus! {

/// A program to run together with its arguments.
#[derive(Debug)]
pub struct CommandLine {
    /// The program to execute, looked up on the search path.
    pub file: &'static str,
    /// The arguments, in order, without the program's own name.
    pub args: Vec<&'static str>,
}

/// A command line as plain text.
pub ghost struct CommandLineView {
    pub file: Seq<char>,
    pub args: Seq<Seq<char>>,
}

impl View for CommandLine {
    type V = CommandLineView;

    open spec fn view(&self) -> CommandLineView {
        CommandLineView { file: self.file@, args: self.args@.map_values(|arg: &'static str| arg@) }
    }
}

/// What the service manager can be asked to do with the daemon.
#[derive(Clone, Copy, PartialEq, Eq, Structural, Debug)]
pub enum ServiceAction {
    /// Start the daemon.
    Start,
    /// Stop the daemon.
    Stop,
    /// Stop the daemon and start it again.
    Restart,
}

impl ServiceAction {
    /// The word by which the service manager knows the action.
    pub open spec fn verb_text(self) -> Seq<char> {
        match self {
            ServiceAction::Start => "start"@,
            ServiceAction::Stop => "stop"@,
            ServiceAction::Restart => "restart"@,
        }
    }

    /// Returns the word by which the service manager knows the action.
    pub fn verb(self) -> (word: &'static str)
        ensures
            word@ == self.verb_text(),
    {
        match self {
            ServiceAction::Start => "start",
            ServiceAction::Stop => "stop",
            ServiceAction::Restart => "restart",
        }
    }
}

/// The command `systemctl --user <verb> sunshine`: the service manager of the
/// user's session, applied to the daemon's unit.
pub open spec fn systemctl_line(verb: Seq<char>) -> CommandLineView {
    CommandLineView { file: "systemctl"@, args: seq!["--user"@, verb, "sunshine"@] }
}

/// The command `xdg-open https://localhost:47990/`.
pub open spec fn configuration_line() -> CommandLineView {
    CommandLineView { file: "xdg-open"@, args: seq!["https://localhost:47990/"@] }
}

/// The command `ps -T -C sunshine`.
pub open spec fn thread_listing_line() -> CommandLineView {
    CommandLineView { file: "ps"@, args: seq!["-T"@, "-C"@, "sunshine"@] }
}

/// Builds the service manager command with the given verb.
fn systemctl(verb: &'static str) -> (cmd: CommandLine)
    ensures
        cmd@ == systemctl_line(verb@),
{
    let mut args: Vec<&'static str> = Vec::new();
    args.push("--user");
    args.push(verb);
    args.push("sunshine");
    let cmd = CommandLine { file: "systemctl", args };
    assert(cmd@.args =~= systemctl_line(verb@).args);
    cmd
}

/// The command that performs the given action on the Sunshine daemon.
pub fn systemctl_action(action: ServiceAction) -> (cmd: CommandLine)
    ensures
        cmd@ == systemctl_line(action.verb_text()),
{
    systemctl(action.verb())
}

/// The command that starts the Sunshine daemon.
pub fn start_sunshine() -> (cmd: CommandLine)
    ensures
        cmd@ == systemctl_line(ServiceAction::Start.verb_text()),
{
    systemctl_action(ServiceAction::Start)
}

/// The command that stops the Sunshine daemon.
pub fn stop_sunshine() -> (cmd: CommandLine)
    ensures
        cmd@ == systemctl_line(ServiceAction::Stop.verb_text()),
{
    systemctl_action(ServiceAction::Stop)
}

/// The command that restarts the Sunshine daemon.
pub fn restart_sunshine() -> (cmd: CommandLine)
    ensures
        cmd@ == systemctl_line(ServiceAction::Restart.verb_text()),
{
    systemctl_action(ServiceAction::Restart)
}

/// The command that opens the configuration interface for Sunshine in the
/// user's web browser.
pub fn open_configuration() -> (cmd: CommandLine)
    ensures
        cmd@ == configuration_line(),
{
    let mut args: Vec<&'static str> = Vec::new();
    args.push("https://localhost:47990/");
    let cmd = CommandLine { file: "xdg-open", args };
    assert(cmd@.args =~= configuration_line().args);
    cmd
}

/// The command whose exit status tells whether the daemon's unit is active.
/// `check_systemctl` interprets the status.
pub fn service_status_query() -> (cmd: CommandLine)
    ensures
        cmd@ == systemctl_line("status"@),
{
    systemctl("status")
}

/// The command that lists the threads of the daemon's process on its standard
/// output. `check_for_stream_thread` interprets the listing.
pub fn thread_listing_query() -> (cmd: CommandLine)
    ensures
        cmd@ == thread_listing_line(),
{
    let mut args: Vec<&'static str> = Vec::new();
    args.push("-T");
    args.push("-C");
    args.push("sunshine");
    let cmd = CommandLine { file: "ps", args };
    assert(cmd@.args =~= thread_listing_line().args);
    cmd
}

} // verus!
