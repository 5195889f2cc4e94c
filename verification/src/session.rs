//! The session controller: the one place that knows whether the server
//! process is alive, and that decides what each event leads to.
//!
//! The controller does no work of its own. It is handed one [`Event`] at a
//! time and answers with the [`Action`]s to perform, in order; whoever drives
//! it performs them and hands back what came of them as further events.

use vstd::prelude::*;
use vstd::string::StringExecFns;
use crate::command::Command;
use crate::command::CommandView;
use crate::command::State;
use crate::paths::diff_paths;
use crate::text::trim_line;

verus! {

/// Seconds that a wait for the server's exit may last before the server is
/// killed.
pub const EXIT_TIMEOUT_SECS: u64 = 30;

/// A line of status for the operator.
#[derive(Debug, Clone, PartialEq, Eq)]
pub enum Notice {
    /// A start of the server process was asked for.
    Starting,
    /// A start was asked for before any build had produced an artifact.
    MissingArtifact,
    /// The server process could not be launched.
    SpawnFailed(String),
    /// A kill of the server process was asked for.
    Killing,
    /// This text goes to the server's input.
    Sending(String),
    /// A wait for the server's exit begins.
    Waiting,
    /// The wait lasted too long: the server is killed.
    TimedOut,
    /// The operator cut the wait short: the server is killed.
    Interrupted,
    /// The server process is gone.
    Ended,
    /// A build begins.
    Building,
    /// The build failed.
    BuildFailed(String),
    /// The file at this path, relative to the configuration directory, is
    /// made anew.
    Bootstrapping(String),
    /// The file at `path` could not be made anew.
    BootstrapFailed { path: String, error: String },
    /// No relative path leads from the configuration directory to this path.
    Unrelated(String),
    /// The session ends.
    Stopping,
    /// The session ends while the server still runs: the server is killed.
    KillingLeftover,
}

/// What a [`Notice`] stands for in contracts.
pub enum NoticeView {
    Starting,
    MissingArtifact,
    SpawnFailed(Seq<char>),
    Killing,
    Sending(Seq<char>),
    Waiting,
    TimedOut,
    Interrupted,
    Ended,
    Building,
    BuildFailed(Seq<char>),
    Bootstrapping(Seq<char>),
    BootstrapFailed { path: Seq<char>, error: Seq<char> },
    Unrelated(Seq<char>),
    Stopping,
    KillingLeftover,
}

impl View for Notice {
    type V = NoticeView;

    open spec fn view(&self) -> NoticeView {
        match *self {
            Notice::Starting => NoticeView::Starting,
            Notice::MissingArtifact => NoticeView::MissingArtifact,
            Notice::SpawnFailed(error) => NoticeView::SpawnFailed(error@),
            Notice::Killing => NoticeView::Killing,
            Notice::Sending(text) => NoticeView::Sending(text@),
            Notice::Waiting => NoticeView::Waiting,
            Notice::TimedOut => NoticeView::TimedOut,
            Notice::Interrupted => NoticeView::Interrupted,
            Notice::Ended => NoticeView::Ended,
            Notice::Building => NoticeView::Building,
            Notice::BuildFailed(error) => NoticeView::BuildFailed(error@),
            Notice::Bootstrapping(path) => NoticeView::Bootstrapping(path@),
            Notice::BootstrapFailed { path, error } => NoticeView::BootstrapFailed {
                path: path@,
                error: error@,
            },
            Notice::Unrelated(path) => NoticeView::Unrelated(path@),
            Notice::Stopping => NoticeView::Stopping,
            Notice::KillingLeftover => NoticeView::KillingLeftover,
        }
    }
}

/// Something that happened and that the controller has to react to.
#[derive(Debug, Clone, PartialEq, Eq)]
pub enum Event {
    /// The next command from the queue.
    Command(Command),
    /// The server wrote this line.
    OutputLine(String),
    /// The operator typed this line.
    OperatorLine(String),
    /// The operator sent an interrupt.
    Interrupt,
    /// The server process was seen to exit.
    ChildExited,
    /// The time allowed for the server's exit has run out.
    ExitTimeout,
    /// The launch that was asked for succeeded.
    Spawned,
    /// The launch that was asked for failed.
    SpawnFailed(String),
    /// The build that was asked for produced this artifact.
    Rebuilt(String),
    /// The build that was asked for failed.
    RebuildFailed(String),
    /// Making the file at `path` anew failed.
    BootstrapFailed { path: String, error: String },
}

/// What an [`Event`] stands for in contracts.
pub enum EventView {
    Command(CommandView),
    OutputLine(Seq<char>),
    OperatorLine(Seq<char>),
    Interrupt,
    ChildExited,
    ExitTimeout,
    Spawned,
    SpawnFailed(Seq<char>),
    Rebuilt(Seq<char>),
    RebuildFailed(Seq<char>),
    BootstrapFailed { path: Seq<char>, error: Seq<char> },
}

impl View for Event {
    type V = EventView;

    open spec fn view(&self) -> EventView {
        match *self {
            Event::Command(command) => EventView::Command(command@),
            Event::OutputLine(line) => EventView::OutputLine(line@),
            Event::OperatorLine(line) => EventView::OperatorLine(line@),
            Event::Interrupt => EventView::Interrupt,
            Event::ChildExited => EventView::ChildExited,
            Event::ExitTimeout => EventView::ExitTimeout,
            Event::Spawned => EventView::Spawned,
            Event::SpawnFailed(error) => EventView::SpawnFailed(error@),
            Event::Rebuilt(artifact) => EventView::Rebuilt(artifact@),
            Event::RebuildFailed(error) => EventView::RebuildFailed(error@),
            Event::BootstrapFailed { path, error } => EventView::BootstrapFailed {
                path: path@,
                error: error@,
            },
        }
    }
}

/// Work that the controller asks for in answer to an event.
#[derive(Debug, Clone, PartialEq, Eq)]
pub enum Action {
    /// Tell the operator.
    Notify(Notice),
    /// Show the operator this line of the server's output.
    Print(String),
    /// Launch the server process from this artifact, and report
    /// [`Event::Spawned`] or [`Event::SpawnFailed`].
    Spawn(String),
    /// Kill the server process and let go of it.
    Kill,
    /// Write this text to the server's input; a failure is of no account.
    Write(String),
    /// Watch for the server's exit, and report [`Event::ExitTimeout`] once
    /// this many seconds have passed.
    AwaitExit(u64),
    /// Run a build, and report [`Event::Rebuilt`] or
    /// [`Event::RebuildFailed`].
    Rebuild,
    /// Make the file at this path, relative to the configuration directory,
    /// anew; report [`Event::BootstrapFailed`] if that fails.
    Bootstrap(String),
}

/// What an [`Action`] stands for in contracts.
pub enum ActionView {
    Notify(NoticeView),
    Print(Seq<char>),
    Spawn(Seq<char>),
    Kill,
    Write(Seq<char>),
    AwaitExit(u64),
    Rebuild,
    Bootstrap(Seq<char>),
}

impl View for Action {
    type V = ActionView;

    open spec fn view(&self) -> ActionView {
        match *self {
            Action::Notify(notice) => ActionView::Notify(notice@),
            Action::Print(line) => ActionView::Print(line@),
            Action::Spawn(artifact) => ActionView::Spawn(artifact@),
            Action::Kill => ActionView::Kill,
            Action::Write(text) => ActionView::Write(text@),
            Action::AwaitExit(secs) => ActionView::AwaitExit(secs),
            Action::Rebuild => ActionView::Rebuild,
            Action::Bootstrap(path) => ActionView::Bootstrap(path@),
        }
    }
}

impl Action {
    /// The views of a sequence of actions, one for one.
    pub open spec fn views(actions: Seq<Action>) -> Seq<ActionView> {
        actions.map_values(|a: Action| a@)
    }
}

/// Where the session stands with regard to the server process.
#[derive(Debug, Clone, Copy, PartialEq, Eq, Structural)]
pub enum Phase {
    /// There is no server process.
    NoProcess,
    /// The server process runs.
    Running,
    /// The server process runs and the session waits for its exit.
    AwaitingExit,
}

/// What the session waits for between two events.
#[derive(Debug, Clone, Copy, PartialEq, Eq, Structural)]
pub struct Sources {
    /// The next command from the queue.
    pub commands: bool,
    /// The next line of the server's output.
    pub output: bool,
    /// The next line that the operator types.
    pub operator: bool,
    /// An interrupt from the operator.
    pub interrupt: bool,
    /// The server's exit.
    pub exit: bool,
    /// The end of the time allowed for the server's exit.
    pub timeout: bool,
}

/// The controller's state as contracts see it.
pub struct SessionView {
    /// A server process is held.
    pub child: bool,
    /// The artifact of the latest build that succeeded.
    pub jar_name: Option<Seq<char>>,
    /// A wait for the server's exit is under way.
    pub is_stopping: bool,
    /// A launch was asked for and its outcome is not known yet.
    pub starting: bool,
    /// A build was asked for and its outcome is not known yet.
    pub building: bool,
    /// The session is over.
    pub finished: bool,
    /// The directory that holds the server's configuration files.
    pub config_dir: Seq<char>,
}

impl SessionView {
    /// What holds of every session: only a process that is there is waited
    /// for, no launch is under way while a process is there, and a finished
    /// session holds nothing.
    pub open spec fn wf(self) -> bool {
        &&& self.is_stopping ==> self.child
        &&& self.starting ==> !self.child
        &&& self.finished ==> !self.child && !self.starting && !self.building
    }

    pub open spec fn phase(self) -> Phase {
        if !self.child {
            Phase::NoProcess
        } else if self.is_stopping {
            Phase::AwaitingExit
        } else {
            Phase::Running
        }
    }

    /// What the session is busy with, if anything.
    pub open spec fn state(self) -> Option<State> {
        if self.starting {
            Some(State::Starting)
        } else if self.is_stopping {
            Some(State::Stopping)
        } else if self.building {
            Some(State::Building)
        } else if self.child {
            Some(State::Online)
        } else {
            None
        }
    }

    /// What the session waits for. During a wait for the server's exit it
    /// listens to the server, the clock and the interrupt only, so that the
    /// wait cannot outlast its time limit; otherwise to the queue, the
    /// server's output, the operator and the interrupt. A finished session
    /// waits for nothing.
    pub open spec fn sources(self) -> Sources {
        if self.finished {
            Sources {
                commands: false,
                output: false,
                operator: false,
                interrupt: false,
                exit: false,
                timeout: false,
            }
        } else if self.is_stopping {
            Sources {
                commands: false,
                output: true,
                operator: false,
                interrupt: true,
                exit: true,
                timeout: true,
            }
        } else {
            Sources {
                commands: true,
                output: self.child,
                operator: true,
                interrupt: true,
                exit: false,
                timeout: false,
            }
        }
    }

    /// The session once the server process is gone.
    pub open spec fn without_child(self) -> SessionView {
        SessionView { child: false, is_stopping: false, ..self }
    }

    /// The session once it is over.
    pub open spec fn ended(self) -> SessionView {
        SessionView {
            child: false,
            is_stopping: false,
            starting: false,
            building: false,
            finished: true,
            ..self
        }
    }

    /// `Start`: a launch is asked for only where no process is there, none is
    /// on its way, and an artifact is known.
    pub open spec fn on_start(self) -> (SessionView, Seq<ActionView>) {
        if self.child || self.starting {
            (self, seq![ActionView::Notify(NoticeView::Starting)])
        } else {
            match self.jar_name {
                Some(artifact) => (
                    SessionView { starting: true, ..self },
                    seq![ActionView::Notify(NoticeView::Starting), ActionView::Spawn(artifact)],
                ),
                None => (
                    self,
                    seq![
                        ActionView::Notify(NoticeView::Starting),
                        ActionView::Notify(NoticeView::MissingArtifact),
                    ],
                ),
            }
        }
    }

    /// `Stop`: the process, if there is one, is killed at once.
    pub open spec fn on_stop(self) -> (SessionView, Seq<ActionView>) {
        if self.child {
            (
                self.without_child(),
                seq![ActionView::Notify(NoticeView::Killing), ActionView::Kill],
            )
        } else {
            (self.without_child(), seq![ActionView::Notify(NoticeView::Killing)])
        }
    }

    /// Text for the server: it is written where a process is there.
    pub open spec fn on_send(self, shown: Seq<char>, written: Seq<char>) -> (
        SessionView,
        Seq<ActionView>,
    ) {
        if self.child {
            (
                self,
                seq![ActionView::Notify(NoticeView::Sending(shown)), ActionView::Write(written)],
            )
        } else {
            (self, seq![ActionView::Notify(NoticeView::Sending(shown))])
        }
    }

    /// `WaitUntilExit`: with a process the wait begins; without one it is
    /// over at once.
    pub open spec fn on_wait(self) -> (SessionView, Seq<ActionView>) {
        if self.child && !self.is_stopping {
            (
                SessionView { is_stopping: true, ..self },
                seq![
                    ActionView::Notify(NoticeView::Waiting),
                    ActionView::AwaitExit(EXIT_TIMEOUT_SECS),
                ],
            )
        } else if self.child {
            (self, seq![ActionView::Notify(NoticeView::Waiting)])
        } else {
            (
                self.without_child(),
                seq![ActionView::Notify(NoticeView::Waiting), ActionView::Notify(NoticeView::Ended)],
            )
        }
    }

    /// What a `Bootstrap` command asks for, given the relative path that
    /// leads from the configuration directory to `path`, if there is one.
    pub open spec fn bootstrap_actions(relative: Option<Seq<char>>, path: Seq<char>) -> Seq<
        ActionView,
    > {
        match relative {
            Some(rel) => seq![
                ActionView::Notify(NoticeView::Bootstrapping(rel)),
                ActionView::Bootstrap(rel),
            ],
            None => seq![ActionView::Notify(NoticeView::Unrelated(path))],
        }
    }

    pub open spec fn on_command(self, command: CommandView) -> (SessionView, Seq<ActionView>) {
        match command {
            CommandView::Start => self.on_start(),
            CommandView::Stop => self.on_stop(),
            CommandView::Rebuild => (
                SessionView { building: true, ..self },
                seq![ActionView::Notify(NoticeView::Building), ActionView::Rebuild],
            ),
            CommandView::SendCommand(text) => self.on_send(text, text),
            CommandView::WaitUntilExit => self.on_wait(),
            CommandView::Bootstrap(path) => (
                self,
                Self::bootstrap_actions(
                    crate::paths::relative_path(path, self.config_dir),
                    path,
                ),
            ),
        }
    }

    /// An interrupt during a wait for the server's exit ends the wait with a
    /// kill; at any other time it ends the session, and the server with it.
    pub open spec fn on_interrupt(self) -> (SessionView, Seq<ActionView>) {
        if self.is_stopping {
            (
                self.without_child(),
                seq![
                    ActionView::Notify(NoticeView::Interrupted),
                    ActionView::Kill,
                    ActionView::Notify(NoticeView::Ended),
                ],
            )
        } else if self.child {
            (
                self.ended(),
                seq![
                    ActionView::Notify(NoticeView::Stopping),
                    ActionView::Notify(NoticeView::KillingLeftover),
                    ActionView::Kill,
                ],
            )
        } else {
            (self.ended(), seq![ActionView::Notify(NoticeView::Stopping)])
        }
    }

    pub open spec fn on_child_exited(self) -> (SessionView, Seq<ActionView>) {
        if self.child {
            (self.without_child(), seq![ActionView::Notify(NoticeView::Ended)])
        } else {
            (self, seq![])
        }
    }

    pub open spec fn on_exit_timeout(self) -> (SessionView, Seq<ActionView>) {
        if self.is_stopping {
            (
                self.without_child(),
                seq![
                    ActionView::Notify(NoticeView::TimedOut),
                    ActionView::Kill,
                    ActionView::Notify(NoticeView::Ended),
                ],
            )
        } else {
            (self, seq![])
        }
    }

    pub open spec fn on_spawned(self) -> (SessionView, Seq<ActionView>) {
        if self.starting {
            (SessionView { child: true, starting: false, ..self }, seq![])
        } else {
            (self, seq![])
        }
    }

    /// The session after `event`, and the actions that `event` calls for. A
    /// finished session stays as it is and asks for nothing.
    pub open spec fn step(self, event: EventView) -> (SessionView, Seq<ActionView>) {
        if self.finished {
            (self, seq![])
        } else {
            match event {
                EventView::Command(command) => self.on_command(command),
                EventView::OutputLine(line) => (
                    self,
                    seq![ActionView::Print(crate::text::trimmed(line))],
                ),
                EventView::OperatorLine(line) => self.on_send(
                    crate::text::trimmed(line),
                    crate::text::trimmed(line).push('\n'),
                ),
                EventView::Interrupt => self.on_interrupt(),
                EventView::ChildExited => self.on_child_exited(),
                EventView::ExitTimeout => self.on_exit_timeout(),
                EventView::Spawned => self.on_spawned(),
                EventView::SpawnFailed(error) => (
                    SessionView { starting: false, ..self },
                    seq![ActionView::Notify(NoticeView::SpawnFailed(error))],
                ),
                EventView::Rebuilt(artifact) => (
                    SessionView { jar_name: Some(artifact), building: false, ..self },
                    seq![],
                ),
                EventView::RebuildFailed(error) => (
                    SessionView { building: false, ..self },
                    seq![ActionView::Notify(NoticeView::BuildFailed(error))],
                ),
                EventView::BootstrapFailed { path, error } => (
                    self,
                    seq![ActionView::Notify(NoticeView::BootstrapFailed { path, error })],
                ),
            }
        }
    }

    /// The session after all of `events`, one after the other, and the
    /// actions they call for, in order.
    pub open spec fn run(self, events: Seq<EventView>) -> (SessionView, Seq<ActionView>)
        decreases events.len(),
    {
        if events.len() == 0 {
            (self, seq![])
        } else {
            let before = self.run(events.drop_last());
            let last = before.0.step(events.last());
            (last.0, before.1 + last.1)
        }
    }
}

/// The family of platforms that the server is launched on. It decides how
/// the launch arguments are written, nothing else.
#[derive(Debug, Clone, Copy, PartialEq, Eq, Structural)]
pub enum Platform {
    Windows,
    Linux,
}

impl Platform {
    /// The platform for an operating system family: `Windows` for the family
    /// "windows", `Linux` for every other.
    pub open spec fn of(family: Seq<char>) -> Platform {
        if family == "windows"@ {
            Platform::Windows
        } else {
            Platform::Linux
        }
    }

    /// The platform for the operating system family `family`.
    pub fn from_family(family: &str) -> (platform: Platform)
        ensures
            platform == Platform::of(family@),
    {
        if family.to_owned() == "windows".to_owned() {
            Platform::Windows
        } else {
            Platform::Linux
        }
    }

    /// The name under which launch arguments are asked for.
    pub open spec fn spec_name(self) -> Seq<char> {
        match self {
            Platform::Windows => "windows"@,
            Platform::Linux => "linux"@,
        }
    }

    /// The name under which launch arguments are asked for.
    pub fn name(&self) -> (name: &'static str)
        ensures
            name@ == self.spec_name(),
    {
        match self {
            Platform::Windows => "windows",
            Platform::Linux => "linux",
        }
    }
}

/// What is needed to launch the server process.
#[derive(Debug, Clone, PartialEq, Eq)]
pub struct Launch {
    /// The program to run.
    pub program: String,
    /// The artifact that the latest build produced.
    pub artifact: String,
    /// The platform to write the arguments for.
    pub platform: Platform,
}

/// What a [`Launch`] stands for in contracts.
pub struct LaunchView {
    pub program: Seq<char>,
    pub artifact: Seq<char>,
    pub platform: Platform,
}

impl View for Launch {
    type V = LaunchView;

    open spec fn view(&self) -> LaunchView {
        LaunchView { program: self.program@, artifact: self.artifact@, platform: self.platform }
    }
}

/// Why the session cannot do what it was asked to.
#[derive(Debug, Clone, Copy, PartialEq, Eq, Structural)]
pub enum SessionError {
    /// No build has produced an artifact yet, so there is nothing to launch.
    MissingArtifact,
}

/// The session controller. It alone changes what is known of the server
/// process.
#[derive(Debug)]
pub struct DevSession {
    child: bool,
    jar_name: Option<String>,
    is_stopping: bool,
    starting: bool,
    building: bool,
    finished: bool,
    config_dir: String,
}

impl View for DevSession {
    type V = SessionView;

    closed spec fn view(&self) -> SessionView {
        SessionView {
            child: self.child,
            jar_name: crate::paths::option_text(self.jar_name),
            is_stopping: self.is_stopping,
            starting: self.starting,
            building: self.building,
            finished: self.finished,
            config_dir: self.config_dir@,
        }
    }
}

fn push(actions: &mut Vec<Action>, action: Action)
    ensures
        Action::views(final(actions)@) == Action::views(old(actions)@).push(action@),
{
    actions.push(action);
    assert(Action::views(actions@) =~= Action::views(old(actions)@).push(action@));
}

fn note(actions: &mut Vec<Action>, notice: Notice)
    ensures
        Action::views(final(actions)@) == Action::views(old(actions)@).push(
            ActionView::Notify(notice@),
        ),
{
    push(actions, Action::Notify(notice));
}

fn no_actions() -> (actions: Vec<Action>)
    ensures
        Action::views(actions@) == Seq::<ActionView>::empty(),
{
    let actions = Vec::new();
    assert(Action::views(actions@) =~= Seq::<ActionView>::empty());
    actions
}

impl DevSession {
    #[verifier::type_invariant]
    spec fn inv(self) -> bool {
        self@.wf()
    }

    /// A session that holds no process and knows no artifact, for a server
    /// whose configuration files are under `config_dir`.
    pub fn new(config_dir: String) -> (session: DevSession)
        ensures
            session@ == (SessionView {
                child: false,
                jar_name: None,
                is_stopping: false,
                starting: false,
                building: false,
                finished: false,
                config_dir: config_dir@,
            }),
            session@.wf(),
    {
        DevSession {
            child: false,
            jar_name: None,
            is_stopping: false,
            starting: false,
            building: false,
            finished: false,
            config_dir,
        }
    }

    /// Whether a server process is held.
    pub fn has_child(&self) -> (b: bool)
        ensures
            b == self@.child,
    {
        self.child
    }

    /// The artifact of the latest build that succeeded.
    pub fn jar_name(&self) -> (name: Option<String>)
        ensures
            crate::paths::option_text(name) == self@.jar_name,
    {
        match &self.jar_name {
            Some(name) => Some(name.clone()),
            None => None,
        }
    }

    /// Whether a wait for the server's exit is under way.
    pub fn is_stopping(&self) -> (b: bool)
        ensures
            b == self@.is_stopping,
    {
        self.is_stopping
    }

    /// Whether the session is over.
    pub fn is_finished(&self) -> (b: bool)
        ensures
            b == self@.finished,
    {
        self.finished
    }

    /// Where the session stands with regard to the server process.
    pub fn phase(&self) -> (phase: Phase)
        ensures
            phase == self@.phase(),
    {
        if !self.child {
            Phase::NoProcess
        } else if self.is_stopping {
            Phase::AwaitingExit
        } else {
            Phase::Running
        }
    }

    /// What the session is busy with, if anything.
    pub fn state(&self) -> (state: Option<State>)
        ensures
            state == self@.state(),
    {
        if self.starting {
            Some(State::Starting)
        } else if self.is_stopping {
            Some(State::Stopping)
        } else if self.building {
            Some(State::Building)
        } else if self.child {
            Some(State::Online)
        } else {
            None
        }
    }

    /// What to wait for until the next event.
    pub fn sources(&self) -> (sources: Sources)
        ensures
            sources == self@.sources(),
    {
        if self.finished {
            Sources {
                commands: false,
                output: false,
                operator: false,
                interrupt: false,
                exit: false,
                timeout: false,
            }
        } else if self.is_stopping {
            Sources {
                commands: false,
                output: true,
                operator: false,
                interrupt: true,
                exit: true,
                timeout: true,
            }
        } else {
            Sources {
                commands: true,
                output: self.child,
                operator: true,
                interrupt: true,
                exit: false,
                timeout: false,
            }
        }
    }

    /// What a launch of the server process takes. It fails where no build
    /// has produced an artifact yet.
    pub fn spawn_child(&self, family: &str) -> (r: Result<Launch, SessionError>)
        ensures
            match self@.jar_name {
                Some(artifact) => r matches Ok(launch) && launch@ == (LaunchView {
                    program: "java"@,
                    artifact,
                    platform: Platform::of(family@),
                }),
                None => r == Err::<Launch, SessionError>(SessionError::MissingArtifact),
            },
    {
        match &self.jar_name {
            Some(artifact) => Ok(
                Launch {
                    program: "java".to_owned(),
                    artifact: artifact.clone(),
                    platform: Platform::from_family(family),
                },
            ),
            None => Err(SessionError::MissingArtifact),
        }
    }

    /// The actions for a `Bootstrap` command on `path`, given the relative
    /// path that leads from the configuration directory to `path`, if there
    /// is one.
    pub fn bootstrap_actions(relative: Option<String>, path: String) -> (actions: Vec<Action>)
        ensures
            Action::views(actions@) == SessionView::bootstrap_actions(
                crate::paths::option_text(relative),
                path@,
            ),
    {
        let mut actions = no_actions();
        match relative {
            Some(rel) => {
                note(&mut actions, Notice::Bootstrapping(rel.clone()));
                push(&mut actions, Action::Bootstrap(rel));
            },
            None => {
                note(&mut actions, Notice::Unrelated(path));
            },
        }
        actions
    }

    fn send(&self, shown: String, written: String) -> (actions: Vec<Action>)
        ensures
            Action::views(actions@) == self@.on_send(shown@, written@).1,
    {
        let mut actions = no_actions();
        note(&mut actions, Notice::Sending(shown));
        if self.child {
            push(&mut actions, Action::Write(written));
        }
        actions
    }

    fn drop_child(&mut self)
        ensures
            final(self)@ == old(self)@.without_child(),
    {
        proof {
            use_type_invariant(&*self);
        }
        self.is_stopping = false;
        self.child = false;
    }

    fn finish(&mut self)
        ensures
            final(self)@ == old(self)@.ended(),
    {
        proof {
            use_type_invariant(&*self);
        }
        self.is_stopping = false;
        self.child = false;
        self.starting = false;
        self.building = false;
        self.finished = true;
    }

    fn handle_command(&mut self, command: Command) -> (actions: Vec<Action>)
        requires
            !old(self)@.finished,
        ensures
            final(self)@ == old(self)@.on_command(command@).0,
            Action::views(actions@) == old(self)@.on_command(command@).1,
    {
        proof {
            use_type_invariant(&*self);
        }
        let mut actions = no_actions();
        match command {
            Command::Start => {
                note(&mut actions, Notice::Starting);
                if !self.child && !self.starting {
                    match &self.jar_name {
                        Some(artifact) => {
                            push(&mut actions, Action::Spawn(artifact.clone()));
                            self.starting = true;
                        },
                        None => {
                            note(&mut actions, Notice::MissingArtifact);
                        },
                    }
                }
            },
            Command::Stop => {
                note(&mut actions, Notice::Killing);
                if self.child {
                    push(&mut actions, Action::Kill);
                }
                self.drop_child();
            },
            Command::Rebuild => {
                note(&mut actions, Notice::Building);
                push(&mut actions, Action::Rebuild);
                self.building = true;
            },
            Command::SendCommand(text) => {
                let shown = text.clone();
                actions = self.send(shown, text);
            },
            Command::WaitUntilExit => {
                note(&mut actions, Notice::Waiting);
                if self.child && !self.is_stopping {
                    push(&mut actions, Action::AwaitExit(EXIT_TIMEOUT_SECS));
                    self.is_stopping = true;
                } else if !self.child {
                    note(&mut actions, Notice::Ended);
                    self.drop_child();
                }
            },
            Command::Bootstrap(path) => {
                let relative = diff_paths(path.as_str(), self.config_dir.as_str());
                actions = Self::bootstrap_actions(relative, path);
            },
        }
        actions
    }

    /// Reacts to `event`: brings the session to the state that follows and
    /// returns the actions to perform, in order.
    pub fn handle_event(&mut self, event: Event) -> (actions: Vec<Action>)
        ensures
            final(self)@ == old(self)@.step(event@).0,
            Action::views(actions@) == old(self)@.step(event@).1,
            final(self)@.wf(),
    {
        proof {
            use_type_invariant(&*self);
        }
        let mut actions = no_actions();
        if self.finished {
            return actions;
        }
        match event {
            Event::Command(command) => {
                actions = self.handle_command(command);
            },
            Event::OutputLine(line) => {
                push(&mut actions, Action::Print(trim_line(line.as_str())));
            },
            Event::OperatorLine(line) => {
                let text = trim_line(line.as_str());
                let shown = text.clone();
                proof {
                    reveal_strlit("\n");
                }
                let written = text.concat("\n");
                assert(written@ =~= crate::text::trimmed(line@).push('\n'));
                actions = self.send(shown, written);
            },
            Event::Interrupt => {
                if self.is_stopping {
                    note(&mut actions, Notice::Interrupted);
                    push(&mut actions, Action::Kill);
                    note(&mut actions, Notice::Ended);
                    self.drop_child();
                } else {
                    note(&mut actions, Notice::Stopping);
                    if self.child {
                        note(&mut actions, Notice::KillingLeftover);
                        push(&mut actions, Action::Kill);
                    }
                    self.finish();
                }
            },
            Event::ChildExited => {
                if self.child {
                    note(&mut actions, Notice::Ended);
                    self.drop_child();
                }
            },
            Event::ExitTimeout => {
                if self.is_stopping {
                    note(&mut actions, Notice::TimedOut);
                    push(&mut actions, Action::Kill);
                    note(&mut actions, Notice::Ended);
                    self.drop_child();
                }
            },
            Event::Spawned => {
                if self.starting {
                    self.starting = false;
                    self.child = true;
                }
            },
            Event::SpawnFailed(error) => {
                note(&mut actions, Notice::SpawnFailed(error));
                self.starting = false;
            },
            Event::Rebuilt(artifact) => {
                self.jar_name = Some(artifact);
                self.building = false;
            },
            Event::RebuildFailed(error) => {
                note(&mut actions, Notice::BuildFailed(error));
                self.building = false;
            },
            Event::BootstrapFailed { path, error } => {
                note(&mut actions, Notice::BootstrapFailed { path, error });
            },
        }
        proof {
            use_type_invariant(&*self);
        }
        actions
    }
}

} // verus!
