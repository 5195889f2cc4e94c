//! The three watchers of a session: what each of them observes, and what a
//! batch of settled changes means to each.
//!
//! A watcher's own work, observing the filesystem and letting a burst of
//! changes settle, is done outside this library. The library is handed the
//! settled changes and says which commands follow from them.

use vstd::prelude::*;
use crate::command::Command;
use crate::command::CommandView;
use crate::config::ConfigView;
use crate::config::HotReloadConfig;
use crate::session::DevSession;

verus! {

/// Seconds over which repeated changes to one path count as one change.
pub const DEBOUNCE_SECS: u64 = 1;

/// How many commands the session's queue holds before producers wait.
pub const QUEUE_CAPACITY: usize = 32;

/// What happened to a path.
#[derive(Debug, Clone, Copy, PartialEq, Eq, Structural)]
pub enum ChangeKind {
    Create,
    Modify,
    Remove,
    Other,
}

impl ChangeKind {
    /// Whether the change left new content at the path.
    pub open spec fn writes(self) -> bool {
        self == ChangeKind::Create || self == ChangeKind::Modify
    }

    /// Whether the change left new content at the path.
    pub fn is_write(&self) -> (b: bool)
        ensures
            b == self.writes(),
    {
        match self {
            ChangeKind::Create => true,
            ChangeKind::Modify => true,
            _ => false,
        }
    }
}

/// One settled change, as the library is told of it.
#[derive(Debug, Clone, PartialEq, Eq)]
pub struct Change {
    pub kind: ChangeKind,
    /// The path that changed.
    pub path: String,
    /// Whether the path is a directory.
    pub is_dir: bool,
    /// For each rule of the configuration in effect, in order, whether its
    /// pattern matches `path`. Only the watcher of the configuration
    /// directory reads it.
    pub matched: Vec<bool>,
}

/// What a [`Change`] stands for in contracts.
pub struct ChangeView {
    pub kind: ChangeKind,
    pub path: Seq<char>,
    pub is_dir: bool,
    pub matched: Seq<bool>,
}

impl View for Change {
    type V = ChangeView;

    open spec fn view(&self) -> ChangeView {
        ChangeView {
            kind: self.kind,
            path: self.path@,
            is_dir: self.is_dir,
            matched: self.matched@,
        }
    }
}

impl Change {
    /// The views of a sequence of changes, one for one.
    pub open spec fn views(changes: Seq<Change>) -> Seq<ChangeView> {
        changes.map_values(|c: Change| c@)
    }
}

/// The four commands that a change to the server's main configuration file
/// calls for: a graceful stop, a build, and a start.
pub open spec fn full_cycle() -> Seq<CommandView> {
    seq![
        CommandView::SendCommand("stop\nend"@),
        CommandView::WaitUntilExit,
        CommandView::Rebuild,
        CommandView::Start,
    ]
}

/// What one change to the server's main configuration file calls for: the
/// full cycle where the file was modified, nothing otherwise.
pub open spec fn server_change_commands(change: ChangeView) -> Seq<CommandView> {
    if change.kind == ChangeKind::Modify {
        full_cycle()
    } else {
        seq![]
    }
}

/// What a batch of changes to the server's main configuration file calls
/// for: what each change calls for, in the order of the changes.
pub open spec fn server_commands(changes: Seq<ChangeView>) -> Seq<CommandView>
    decreases changes.len(),
{
    if changes.len() == 0 {
        seq![]
    } else {
        server_commands(changes.drop_last()) + server_change_commands(changes.last())
    }
}

/// Whether a change to the hot-reload configuration file calls for loading
/// the file anew.
pub open spec fn calls_for_reload(change: ChangeView) -> bool {
    change.kind.writes()
}

impl ConfigView {
    /// What one change under the configuration directory calls for. A change
    /// that wrote a file calls for making the file anew and, where a rule
    /// matches, for the first matching rule's action. Directories and other
    /// kinds of change call for nothing.
    pub open spec fn change_commands(self, change: ChangeView) -> Seq<CommandView> {
        if !change.kind.writes() || change.is_dir {
            seq![]
        } else {
            match self.resolve(change.matched) {
                Some(i) => seq![CommandView::Bootstrap(change.path)] + self.files[i].action.commands(),
                None => seq![CommandView::Bootstrap(change.path)],
            }
        }
    }

    /// What a batch of changes under the configuration directory calls for:
    /// what each change calls for, in the order of the changes.
    pub open spec fn tree_commands(self, changes: Seq<ChangeView>) -> Seq<CommandView>
        decreases changes.len(),
    {
        if changes.len() == 0 {
            seq![]
        } else {
            self.tree_commands(changes.drop_last()) + self.change_commands(changes.last())
        }
    }
}

impl HotReloadConfig {
    /// The commands that one change under the configuration directory calls
    /// for.
    pub fn change_commands(&self, change: &Change) -> (commands: Vec<Command>)
        ensures
            Command::views(commands@) == self@.change_commands(change@),
    {
        let mut commands = Command::none();
        if change.kind.is_write() && !change.is_dir {
            Command::push_to(&mut commands, Command::Bootstrap(change.path.clone()));
            match self.resolve(&change.matched) {
                Some(rule) => {
                    let more = rule.action.commands();
                    Command::append_to(&mut commands, more);
                },
                None => {},
            }
        }
        commands
    }

    /// The commands that a batch of changes under the configuration directory
    /// calls for.
    pub fn tree_commands(&self, changes: &Vec<Change>) -> (commands: Vec<Command>)
        ensures
            Command::views(commands@) == self@.tree_commands(Change::views(changes@)),
    {
        let mut commands = Command::none();
        let ghost all = Change::views(changes@);
        let mut i: usize = 0;
        assert(all.take(0) =~= Seq::<ChangeView>::empty());
        while i < changes.len()
            invariant
                i <= changes.len(),
                all == Change::views(changes@),
                Command::views(commands@) == self@.tree_commands(all.take(i as int)),
            decreases changes.len() - i,
        {
            let more = self.change_commands(&changes[i]);
            proof {
                assert(all.take(i + 1).drop_last() =~= all.take(i as int));
                assert(all.take(i + 1).last() == changes[i as int]@);
            }
            Command::append_to(&mut commands, more);
            i += 1;
        }
        assert(all.take(changes.len() as int) =~= all);
        commands
    }
}

/// The commands that one change to the server's main configuration file
/// calls for.
pub fn server_change(change: &Change) -> (commands: Vec<Command>)
    ensures
        Command::views(commands@) == server_change_commands(change@),
{
    let mut commands = Command::none();
    match change.kind {
        ChangeKind::Modify => {
            Command::push_to(&mut commands, Command::SendCommand("stop\nend".to_owned()));
            Command::push_to(&mut commands, Command::WaitUntilExit);
            Command::push_to(&mut commands, Command::Rebuild);
            Command::push_to(&mut commands, Command::Start);
        },
        _ => {},
    }
    commands
}

/// The commands that a batch of changes to the server's main configuration
/// file calls for.
pub fn server_config_commands(changes: &Vec<Change>) -> (commands: Vec<Command>)
    ensures
        Command::views(commands@) == server_commands(Change::views(changes@)),
{
    let mut commands = Command::none();
    let ghost all = Change::views(changes@);
    let mut i: usize = 0;
    assert(all.take(0) =~= Seq::<ChangeView>::empty());
    while i < changes.len()
        invariant
            i <= changes.len(),
            all == Change::views(changes@),
            Command::views(commands@) == server_commands(all.take(i as int)),
        decreases changes.len() - i,
    {
        let more = server_change(&changes[i]);
        proof {
            assert(all.take(i + 1).drop_last() =~= all.take(i as int));
            assert(all.take(i + 1).last() == changes[i as int]@);
        }
        Command::append_to(&mut commands, more);
        i += 1;
    }
    assert(all.take(changes.len() as int) =~= all);
    commands
}

/// Which of the session's three watchers a watcher is.
#[derive(Debug, Clone, Copy, PartialEq, Eq, Structural)]
pub enum WatcherKind {
    /// Watches the configuration directory and all that is under it.
    ConfigTree,
    /// Watches the hot-reload configuration file.
    HotReloadConfig,
    /// Watches the server's main configuration file.
    ServerConfig,
}

/// What a watcher observes and how.
#[derive(Debug, Clone, PartialEq, Eq)]
pub struct Watcher {
    pub kind: WatcherKind,
    /// The path to watch, relative to the server's directory.
    pub target: String,
    /// Whether what lies under the path is watched too.
    pub recursive: bool,
    /// Seconds over which repeated changes to one path count as one.
    pub debounce_secs: u64,
}

/// What a [`Watcher`] stands for in contracts.
pub struct WatcherView {
    pub kind: WatcherKind,
    pub target: Seq<char>,
    pub recursive: bool,
    pub debounce_secs: u64,
}

impl View for Watcher {
    type V = WatcherView;

    open spec fn view(&self) -> WatcherView {
        WatcherView {
            kind: self.kind,
            target: self.target@,
            recursive: self.recursive,
            debounce_secs: self.debounce_secs,
        }
    }
}

impl WatcherView {
    /// The watcher of the configuration directory.
    pub open spec fn config_tree() -> WatcherView {
        WatcherView {
            kind: WatcherKind::ConfigTree,
            target: "config"@,
            recursive: true,
            debounce_secs: DEBOUNCE_SECS,
        }
    }

    /// The watcher of the hot-reload configuration file.
    pub open spec fn hot_reload_config() -> WatcherView {
        WatcherView {
            kind: WatcherKind::HotReloadConfig,
            target: "hotreload.toml"@,
            recursive: false,
            debounce_secs: DEBOUNCE_SECS,
        }
    }

    /// The watcher of the server's main configuration file.
    pub open spec fn server_config() -> WatcherView {
        WatcherView {
            kind: WatcherKind::ServerConfig,
            target: "server.toml"@,
            recursive: false,
            debounce_secs: DEBOUNCE_SECS,
        }
    }

    /// The commands that a batch of settled changes calls for, by the kind
    /// of the watcher that saw them.
    pub open spec fn commands(self, config: ConfigView, changes: Seq<ChangeView>) -> Seq<
        CommandView,
    > {
        match self.kind {
            WatcherKind::ConfigTree => config.tree_commands(changes),
            WatcherKind::HotReloadConfig => seq![],
            WatcherKind::ServerConfig => server_commands(changes),
        }
    }

    /// Whether `change` calls for loading the hot-reload configuration anew.
    pub open spec fn reloads(self, change: ChangeView) -> bool {
        self.kind == WatcherKind::HotReloadConfig && calls_for_reload(change)
    }
}

impl Watcher {
    /// The commands that a batch of settled changes calls for.
    pub fn commands(&self, config: &HotReloadConfig, changes: &Vec<Change>) -> (commands: Vec<
        Command,
    >)
        ensures
            Command::views(commands@) == self@.commands(config@, Change::views(changes@)),
    {
        match self.kind {
            WatcherKind::ConfigTree => config.tree_commands(changes),
            WatcherKind::HotReloadConfig => Command::none(),
            WatcherKind::ServerConfig => server_config_commands(changes),
        }
    }

    /// Whether `change` calls for loading the hot-reload configuration anew.
    pub fn reloads(&self, change: &Change) -> (b: bool)
        ensures
            b == self@.reloads(change@),
    {
        match self.kind {
            WatcherKind::HotReloadConfig => change.kind.is_write(),
            _ => false,
        }
    }
}

/// What a session sets up before it handles its first event.
#[derive(Debug, Clone, PartialEq, Eq)]
pub struct Startup {
    /// The watchers to start.
    pub watchers: Vec<Watcher>,
    /// How many commands the queue is to hold.
    pub queue_capacity: usize,
    /// The commands to put on the queue at once.
    pub commands: Vec<Command>,
}

impl DevSession {
    /// The watcher of the hot-reload configuration file.
    pub fn create_hotreload_watcher() -> (watcher: Watcher)
        ensures
            watcher@ == WatcherView::hot_reload_config(),
    {
        Watcher {
            kind: WatcherKind::HotReloadConfig,
            target: "hotreload.toml".to_owned(),
            recursive: false,
            debounce_secs: DEBOUNCE_SECS,
        }
    }

    /// The watcher of the configuration directory.
    pub fn create_config_watcher() -> (watcher: Watcher)
        ensures
            watcher@ == WatcherView::config_tree(),
    {
        Watcher {
            kind: WatcherKind::ConfigTree,
            target: "config".to_owned(),
            recursive: true,
            debounce_secs: DEBOUNCE_SECS,
        }
    }

    /// The watcher of the server's main configuration file.
    pub fn create_servertoml_watcher() -> (watcher: Watcher)
        ensures
            watcher@ == WatcherView::server_config(),
    {
        Watcher {
            kind: WatcherKind::ServerConfig,
            target: "server.toml".to_owned(),
            recursive: false,
            debounce_secs: DEBOUNCE_SECS,
        }
    }

    /// What to set up when the session starts: the three watchers, the
    /// queue, and one build followed by one start, whatever the files do.
    pub fn start(&self) -> (startup: Startup)
        ensures
            startup.watchers@.map_values(|w: Watcher| w@) == seq![
                WatcherView::config_tree(),
                WatcherView::hot_reload_config(),
                WatcherView::server_config(),
            ],
            startup.queue_capacity == QUEUE_CAPACITY,
            Command::views(startup.commands@) == seq![CommandView::Rebuild, CommandView::Start],
    {
        let mut watchers: Vec<Watcher> = Vec::new();
        watchers.push(Self::create_config_watcher());
        watchers.push(Self::create_hotreload_watcher());
        watchers.push(Self::create_servertoml_watcher());
        let mut commands = Command::none();
        Command::push_to(&mut commands, Command::Rebuild);
        Command::push_to(&mut commands, Command::Start);
        assert(watchers@.map_values(|w: Watcher| w@) =~= seq![
            WatcherView::config_tree(),
            WatcherView::hot_reload_config(),
            WatcherView::server_config(),
        ]);
        Startup { watchers, queue_capacity: QUEUE_CAPACITY, commands }
    }
}

} // verus!
