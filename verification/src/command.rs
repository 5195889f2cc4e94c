//! The commands that flow through the session's queue.

use vstd::prelude::*;

verus! {

/// One unit of work for the session controller. Watchers, the operator and
/// the controller itself produce commands; the controller consumes them in
/// the order in which they arrive.
#[derive(Debug, Clone, PartialEq, Eq)]
pub enum Command {
    /// Launch the server process unless one is there already.
    Start,
    /// Kill the server process at once.
    Stop,
    /// Build the server anew and remember the artifact that results.
    Rebuild,
    /// Write the text to the server's input as it stands.
    SendCommand(String),
    /// Wait for the server to exit, and kill it if it takes too long.
    WaitUntilExit,
    /// Make the configuration file at this path anew from its template.
    Bootstrap(String),
}

/// What a [`Command`] stands for in contracts.
pub enum CommandView {
    Start,
    Stop,
    Rebuild,
    SendCommand(Seq<char>),
    WaitUntilExit,
    Bootstrap(Seq<char>),
}

impl View for Command {
    type V = CommandView;

    open spec fn view(&self) -> CommandView {
        match *self {
            Command::Start => CommandView::Start,
            Command::Stop => CommandView::Stop,
            Command::Rebuild => CommandView::Rebuild,
            Command::SendCommand(text) => CommandView::SendCommand(text@),
            Command::WaitUntilExit => CommandView::WaitUntilExit,
            Command::Bootstrap(path) => CommandView::Bootstrap(path@),
        }
    }
}

impl Command {
    /// The views of a sequence of commands, one for one.
    pub open spec fn views(commands: Seq<Command>) -> Seq<CommandView> {
        commands.map_values(|c: Command| c@)
    }

    /// Appends `command` to `commands`.
    pub fn push_to(commands: &mut Vec<Command>, command: Command)
        ensures
            Command::views(final(commands)@) == Command::views(old(commands)@).push(command@),
    {
        commands.push(command);
        assert(Command::views(commands@) =~= Command::views(old(commands)@).push(command@));
    }

    /// Moves the commands of `more` to the end of `commands`.
    pub fn append_to(commands: &mut Vec<Command>, more: Vec<Command>)
        ensures
            Command::views(final(commands)@) == Command::views(old(commands)@) + Command::views(
                more@,
            ),
    {
        let ghost added = more@;
        let mut more = more;
        commands.append(&mut more);
        assert(Command::views(commands@) =~= Command::views(old(commands)@) + Command::views(
            added,
        ));
    }

    /// An empty list of commands.
    pub fn none() -> (commands: Vec<Command>)
        ensures
            Command::views(commands@) == Seq::<CommandView>::empty(),
    {
        let commands = Vec::new();
        assert(Command::views(commands@) =~= Seq::<CommandView>::empty());
        commands
    }
}

/// What the session is busy with, as it is reported to the operator.
#[derive(Debug, Clone, Copy, PartialEq, Eq, Structural)]
pub enum State {
    /// A launch of the server process is under way.
    Starting,
    /// The session waits for the server process to exit.
    Stopping,
    /// A build is under way.
    Building,
    /// The server process runs.
    Online,
}

} // verus!
