//! The hot-reload configuration: an ordered list of rules, each of which
//! says what a change to the files it covers calls for.
//!
//! How a rule's pattern is written, and whether it matches a path, is not
//! this library's business. Whoever reports a change says, rule by rule,
//! whether the rule's pattern matches the changed path.

use vstd::prelude::*;
use crate::command::Command;
use crate::command::CommandView;
use crate::text::terminate_line;

verus! {

/// What a change to a file calls for.
#[derive(Debug, Clone, PartialEq, Eq)]
pub enum HotReloadAction {
    /// Ask the server to reload its configuration.
    Reload,
    /// Stop the server, wait for its exit, and start it again.
    Restart,
    /// Send this text to the server.
    RunCommand(String),
}

/// What a [`HotReloadAction`] stands for in contracts.
pub enum HotReloadActionView {
    Reload,
    Restart,
    RunCommand(Seq<char>),
}

impl View for HotReloadAction {
    type V = HotReloadActionView;

    open spec fn view(&self) -> HotReloadActionView {
        match *self {
            HotReloadAction::Reload => HotReloadActionView::Reload,
            HotReloadAction::Restart => HotReloadActionView::Restart,
            HotReloadAction::RunCommand(text) => HotReloadActionView::RunCommand(text@),
        }
    }
}

impl HotReloadActionView {
    /// The commands that carry the action out. Text from a rule goes to the
    /// server as a complete line.
    pub open spec fn commands(self) -> Seq<CommandView> {
        match self {
            HotReloadActionView::Reload => seq![CommandView::SendCommand("reload confirm\n"@)],
            HotReloadActionView::Restart => seq![
                CommandView::SendCommand("stop\nend\n"@),
                CommandView::WaitUntilExit,
                CommandView::Start,
            ],
            HotReloadActionView::RunCommand(text) => seq![
                CommandView::SendCommand(crate::text::newline_terminated(text)),
            ],
        }
    }
}

impl HotReloadAction {
    /// The commands that carry the action out.
    pub fn commands(&self) -> (commands: Vec<Command>)
        ensures
            Command::views(commands@) == self@.commands(),
    {
        let mut commands = Command::none();
        match self {
            HotReloadAction::Reload => {
                Command::push_to(&mut commands, Command::SendCommand("reload confirm\n".to_owned()));
            },
            HotReloadAction::Restart => {
                Command::push_to(&mut commands, Command::SendCommand("stop\nend\n".to_owned()));
                Command::push_to(&mut commands, Command::WaitUntilExit);
                Command::push_to(&mut commands, Command::Start);
            },
            HotReloadAction::RunCommand(text) => {
                Command::push_to(&mut commands, Command::SendCommand(terminate_line(text.clone())));
            },
        }
        commands
    }
}

/// One rule: the files that `pattern` covers call for `action`.
#[derive(Debug, Clone, PartialEq, Eq)]
pub struct FileRule {
    /// The pattern as it was written; the library never reads it.
    pub pattern: String,
    pub action: HotReloadAction,
}

/// What a [`FileRule`] stands for in contracts.
pub struct FileRuleView {
    pub pattern: Seq<char>,
    pub action: HotReloadActionView,
}

impl View for FileRule {
    type V = FileRuleView;

    open spec fn view(&self) -> FileRuleView {
        FileRuleView { pattern: self.pattern@, action: self.action@ }
    }
}

/// The hot-reload configuration. It is replaced as a whole, never changed in
/// part.
#[derive(Debug, Clone, PartialEq, Eq)]
pub struct HotReloadConfig {
    /// The file that the configuration is read from.
    pub path: String,
    /// The rules, in the order in which they were declared.
    pub files: Vec<FileRule>,
}

/// What a [`HotReloadConfig`] stands for in contracts.
pub struct ConfigView {
    pub path: Seq<char>,
    pub files: Seq<FileRuleView>,
}

impl View for HotReloadConfig {
    type V = ConfigView;

    open spec fn view(&self) -> ConfigView {
        ConfigView { path: self.path@, files: self.files@.map_values(|r: FileRule| r@) }
    }
}

impl ConfigView {
    /// Rule `i` exists and matches, and no rule before it does. `matched`
    /// says for each rule whether its pattern matches the path in question; a
    /// rule that it says nothing of does not match.
    pub open spec fn is_first_match(self, matched: Seq<bool>, i: int) -> bool {
        &&& 0 <= i < self.files.len()
        &&& i < matched.len()
        &&& matched[i]
        &&& forall|j: int| 0 <= j < i ==> !matched[j]
    }

    /// The index of the first rule that matches, if any does.
    pub open spec fn resolve(self, matched: Seq<bool>) -> Option<int> {
        if exists|i: int| self.is_first_match(matched, i) {
            Some(choose|i: int| self.is_first_match(matched, i))
        } else {
            None
        }
    }

    /// The configuration after an attempt to load a new one: the new one
    /// where loading succeeded, the old one where it failed.
    pub open spec fn reloaded(self, loaded: Result<ConfigView, Seq<char>>) -> ConfigView {
        match loaded {
            Ok(config) => config,
            Err(_) => self,
        }
    }
}

/// How an attempt to load the configuration anew ended.
#[derive(Debug, Clone, PartialEq, Eq)]
pub enum ReloadOutcome {
    /// The new configuration is in effect.
    Updated,
    /// Loading failed for this reason; the old configuration stays in effect.
    Kept(String),
}

impl HotReloadConfig {
    /// The first rule that matches, in the order of declaration; `None` where
    /// no rule matches.
    pub fn resolve(&self, matched: &Vec<bool>) -> (rule: Option<&FileRule>)
        ensures
            match self@.resolve(matched@) {
                Some(i) => rule == Some(&self.files[i]),
                None => rule.is_none(),
            },
            rule matches Some(r) ==> exists|i: int|
                self@.is_first_match(matched@, i) && *r == self.files[i],
            rule.is_none() ==> forall|i: int|
                0 <= i < self.files.len() && i < matched.len() ==> !matched[i],
    {
        let mut i: usize = 0;
        while i < self.files.len() && i < matched.len()
            invariant
                forall|j: int| 0 <= j < i ==> !matched[j],
            decreases self.files.len() - i,
        {
            if matched[i] {
                assert(self@.is_first_match(matched@, i as int));
                return Some(&self.files[i]);
            }
            i += 1;
        }
        None
    }

    /// Puts the outcome of loading the configuration anew into effect: a
    /// configuration that was loaded replaces this one as a whole, a failure
    /// leaves this one as it is.
    pub fn reload(&mut self, loaded: Result<HotReloadConfig, String>) -> (outcome: ReloadOutcome)
        ensures
            match loaded {
                Ok(config) => *final(self) == config && outcome == ReloadOutcome::Updated,
                Err(error) => *final(self) == *old(self) && outcome == ReloadOutcome::Kept(error),
            },
            final(self)@ == old(self)@.reloaded(
                match loaded {
                    Ok(config) => Ok(config@),
                    Err(error) => Err(error@),
                },
            ),
    {
        match loaded {
            Ok(config) => {
                *self = config;
                ReloadOutcome::Updated
            },
            Err(error) => ReloadOutcome::Kept(error),
        }
    }
}

} // verus!
