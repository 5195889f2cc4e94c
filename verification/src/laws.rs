//! What holds of the session controller and of the configuration, whatever
//! the events and the changes are.

use vstd::prelude::*;
use crate::command::CommandView;
use crate::config::ConfigView;
use crate::session::ActionView;
use crate::session::EventView;
use crate::session::NoticeView;
use crate::session::Phase;
use crate::session::SessionView;
use crate::watcher::ChangeView;

verus! {

/// No action of `actions` asks for a launch.
pub open spec fn launches_nothing(actions: Seq<ActionView>) -> bool {
    forall|i: int| 0 <= i < actions.len() ==> !(#[trigger] actions[i] is Spawn)
}

/// No action of `actions` asks for a kill.
pub open spec fn kills_nothing(actions: Seq<ActionView>) -> bool {
    forall|i: int| 0 <= i < actions.len() ==> !(#[trigger] actions[i] is Kill)
}

/// Every event is a `Start` command.
pub open spec fn all_starts(events: Seq<EventView>) -> bool {
    forall|i: int|
        0 <= i < events.len() ==> #[trigger] events[i] == EventView::Command(CommandView::Start)
}

/// A well-formed session stays well formed, whatever happens.
pub proof fn lemma_step_keeps_wf(session: SessionView, event: EventView)
    requires
        session.wf(),
    ensures
        session.step(event).0.wf(),
{
}

/// A well-formed session stays well formed over any sequence of events.
pub proof fn lemma_run_keeps_wf(session: SessionView, events: Seq<EventView>)
    requires
        session.wf(),
    ensures
        session.run(events).0.wf(),
    decreases events.len(),
{
    if events.len() > 0 {
        lemma_run_keeps_wf(session, events.drop_last());
        lemma_step_keeps_wf(session.run(events.drop_last()).0, events.last());
    }
}

/// A launch is asked for in answer to a `Start` command only, and only
/// where no process is there, none is on its way, and an artifact is known.
/// From then on a launch is on its way.
pub proof fn lemma_launch_only_without_child(session: SessionView, event: EventView)
    ensures
        !launches_nothing(session.step(event).1) ==> {
            &&& event == EventView::Command(CommandView::Start)
            &&& !session.child
            &&& !session.starting
            &&& !session.finished
            &&& session.jar_name is Some
            &&& session.step(event).0.starting
        },
        session.child || session.starting ==> launches_nothing(session.step(event).1),
{
    let actions = session.step(event).1;
    if session.finished {
        assert(launches_nothing(actions));
    } else {
        match event {
            EventView::Command(command) => {
                match command {
                    CommandView::Bootstrap(path) => {
                        assert(launches_nothing(actions));
                    },
                    _ => {},
                }
            },
            _ => {},
        }
    }
}

/// `Start` commands that arrive while a process is there change nothing and
/// launch nothing, however many they are.
pub proof fn lemma_starts_while_running(session: SessionView, events: Seq<EventView>)
    requires
        session.child,
        all_starts(events),
    ensures
        session.run(events).0 == session,
        launches_nothing(session.run(events).1),
        kills_nothing(session.run(events).1),
    decreases events.len(),
{
    if events.len() > 0 {
        let before = events.drop_last();
        assert(all_starts(before)) by {
            assert forall|i: int| 0 <= i < before.len() implies #[trigger] before[i]
                == EventView::Command(CommandView::Start) by {
                assert(before[i] == events[i]);
            }
        }
        lemma_starts_while_running(session, before);
        assert(events.last() == events[events.len() - 1]);
    }
}

/// A second `Stop` finds nothing to kill and changes nothing.
pub proof fn lemma_stop_twice(session: SessionView)
    requires
        session.wf(),
    ensures
        ({
            let once = session.step(EventView::Command(CommandView::Stop)).0;
            let twice = once.step(EventView::Command(CommandView::Stop));
            &&& !once.child
            &&& twice.0 == once
            &&& kills_nothing(twice.1)
        }),
{
}

/// `Stop` kills exactly where a process is there, and leaves none.
pub proof fn lemma_stop_kills_the_child(session: SessionView)
    requires
        !session.finished,
    ensures
        ({
            let after = session.step(EventView::Command(CommandView::Stop));
            &&& after.0.phase() == Phase::NoProcess
            &&& kills_nothing(after.1) <==> !session.child
        }),
{
    let after = session.step(EventView::Command(CommandView::Stop));
    if session.child {
        assert(after.1[1] is Kill);
    }
}

/// `WaitUntilExit` on a running process begins a wait with the time limit;
/// without a process it is over at once.
pub proof fn lemma_wait_begins(session: SessionView)
    requires
        session.wf(),
        !session.finished,
    ensures
        ({
            let after = session.step(EventView::Command(CommandView::WaitUntilExit));
            &&& session.phase() == Phase::Running ==> after.0.phase() == Phase::AwaitingExit
                && after.1.contains(ActionView::AwaitExit(crate::session::EXIT_TIMEOUT_SECS))
            &&& session.phase() == Phase::NoProcess ==> after.0.phase() == Phase::NoProcess
                && after.1.last() == ActionView::Notify(NoticeView::Ended)
            &&& kills_nothing(after.1)
        }),
{
    let after = session.step(EventView::Command(CommandView::WaitUntilExit));
    if session.phase() == Phase::Running {
        assert(after.1[1] == ActionView::AwaitExit(crate::session::EXIT_TIMEOUT_SECS));
    }
}

/// Whether `event` ends a wait for the server's exit.
pub open spec fn ends_wait(event: EventView) -> bool {
    event == EventView::ChildExited || event == EventView::ExitTimeout || event
        == EventView::Interrupt
}

/// A wait for the server's exit ends with the exit, with the time limit or
/// with an interrupt. Each of them leaves no process and lets the session go
/// on; the time limit and the interrupt kill the process first.
pub proof fn lemma_wait_ends(session: SessionView, event: EventView)
    requires
        session.wf(),
        !session.finished,
        session.phase() == Phase::AwaitingExit,
        ends_wait(event),
    ensures
        session.step(event).0.phase() == Phase::NoProcess,
        !session.step(event).0.is_stopping,
        !session.step(event).0.finished,
        session.step(event).1.last() == ActionView::Notify(NoticeView::Ended),
        event != EventView::ChildExited <==> session.step(event).1.contains(ActionView::Kill),
{
    let actions = session.step(event).1;
    if event != EventView::ChildExited {
        assert(actions[1] == ActionView::Kill);
    }
}

/// While the session waits for the server's exit it listens for the exit,
/// the time limit and the interrupt, and takes no command from the queue.
pub proof fn lemma_wait_listens(session: SessionView)
    requires
        session.wf(),
        !session.finished,
        session.phase() == Phase::AwaitingExit,
    ensures
        session.sources().exit,
        session.sources().timeout,
        session.sources().interrupt,
        session.sources().output,
        !session.sources().commands,
        !session.sources().operator,
{
}

/// The time limit ends every wait: after it, no wait is under way, whatever
/// the session was doing.
pub proof fn lemma_timeout_ends_every_wait(session: SessionView)
    requires
        session.wf(),
    ensures
        !session.step(EventView::ExitTimeout).0.is_stopping,
        session.is_stopping ==> !session.step(EventView::ExitTimeout).0.child,
{
}

/// After an interrupt no process is left, whatever the session was doing.
pub proof fn lemma_interrupt_leaves_no_child(session: SessionView)
    requires
        session.wf(),
    ensures
        !session.step(EventView::Interrupt).0.child,
        !session.step(EventView::Interrupt).0.is_stopping,
{
}

/// An interrupt outside a wait ends the session. A process that is there is
/// killed first, so that none outlives the session.
pub proof fn lemma_interrupt_ends_session(session: SessionView)
    requires
        session.wf(),
        !session.finished,
        session.phase() != Phase::AwaitingExit,
    ensures
        ({
            let after = session.step(EventView::Interrupt);
            &&& after.0.finished
            &&& !after.0.child
            &&& session.child <==> after.1.contains(ActionView::Kill)
        }),
{
    let after = session.step(EventView::Interrupt);
    if session.child {
        assert(after.1[2] == ActionView::Kill);
    }
}

/// A session that is over stays over, holds no process and asks for
/// nothing.
pub proof fn lemma_finished_is_final(session: SessionView, events: Seq<EventView>)
    requires
        session.finished,
    ensures
        session.run(events).0 == session,
        session.run(events).1 == Seq::<ActionView>::empty(),
    decreases events.len(),
{
    if events.len() > 0 {
        lemma_finished_is_final(session, events.drop_last());
    }
}

/// The rule that `matched` singles out as the first match is the one that
/// the configuration resolves to, and a configuration none of whose rules
/// matches resolves to none.
pub proof fn lemma_resolve(config: ConfigView, matched: Seq<bool>)
    ensures
        forall|i: int| config.is_first_match(matched, i) ==> config.resolve(matched) == Some(i),
        (forall|i: int| 0 <= i < config.files.len() && i < matched.len() ==> !matched[i])
            ==> config.resolve(matched) is None,
        config.resolve(matched) matches Some(i) ==> config.is_first_match(matched, i),
{
}

/// A written file that no rule matches is made anew and nothing else.
pub proof fn lemma_unmatched_change(config: ConfigView, change: ChangeView)
    requires
        change.kind.writes(),
        !change.is_dir,
        forall|i: int| 0 <= i < config.files.len() && i < change.matched.len() ==> !change.matched[i],
    ensures
        config.change_commands(change) == seq![CommandView::Bootstrap(change.path)],
{
    lemma_resolve(config, change.matched);
}

/// A written file is made anew, and then the first rule that matches has
/// its action carried out; later rules that match too do not count.
pub proof fn lemma_first_match_wins(config: ConfigView, change: ChangeView, i: int)
    requires
        change.kind.writes(),
        !change.is_dir,
        config.is_first_match(change.matched, i),
    ensures
        config.change_commands(change) == seq![CommandView::Bootstrap(change.path)]
            + config.files[i].action.commands(),
{
    lemma_resolve(config, change.matched);
}

/// A directory, and a change that wrote nothing, call for nothing.
pub proof fn lemma_ignored_change(config: ConfigView, change: ChangeView)
    requires
        change.is_dir || !change.kind.writes(),
    ensures
        config.change_commands(change) == Seq::<CommandView>::empty(),
{
}

/// After an attempt to load the configuration anew, the configuration in
/// effect is the old one or the new one, whole.
pub proof fn lemma_reload_is_whole(config: ConfigView, loaded: Result<ConfigView, Seq<char>>)
    ensures
        loaded matches Ok(new) ==> config.reloaded(loaded) == new,
        loaded is Err ==> config.reloaded(loaded) == config,
{
}

/// A configuration that failed to load changes nothing about what a change
/// calls for.
pub proof fn lemma_failed_reload_keeps_rules(
    config: ConfigView,
    error: Seq<char>,
    changes: Seq<ChangeView>,
)
    ensures
        config.reloaded(Err(error)).tree_commands(changes) == config.tree_commands(changes),
{
}

} // verus!
