//! What the backup worker decides: when to copy the database, when to stop,
//! and what it reports after each copy. Waiting for commands and copying
//! files is left to the caller.
use vstd::prelude::*;
use std::path::PathBuf;
use std::sync::Arc;
use std::time::Duration;
use crate::policies::{LoggingPolicy, RetryPolicy};
use crate::tasks::OperationResult;
use crate::backend::db_worker::answers;

verus! {

/// A command sent to the backup worker.
#[derive(Debug, Clone, Copy, PartialEq, Eq, Structural)]
pub enum BackupCommand {
    /// Copy the database now.
    RunNow,
    /// Stop the worker.
    Shutdown,
}

/// What the worker saw while waiting for a command.
#[derive(Debug, Clone, Copy, PartialEq, Eq, Structural)]
pub enum BackupEvent {
    /// A command arrived.
    Command(BackupCommand),
    /// The interval passed without a command.
    Timeout,
    /// Every sender of commands is gone.
    Disconnected,
}

/// What the worker does next.
#[derive(Debug)]
pub enum BackupAction {
    /// Copy the database and report `success_message` if it works.
    Backup { success_message: String },
    /// Log `message` at `level` and stop.
    Stop { level: String, message: String },
}

/// The reaction to an event: a command to run copies at once (a manual
/// backup), a timeout copies on schedule, and a shutdown command or a lost
/// command channel stops the worker.
pub open spec fn reacts(event: BackupEvent, action: BackupAction) -> bool {
    match event {
        BackupEvent::Command(BackupCommand::RunNow) => action matches BackupAction::Backup {
            success_message,
        } && success_message@ == "Manual backup completed."@,
        BackupEvent::Timeout => action matches BackupAction::Backup { success_message }
            && success_message@ == "Scheduled backup completed."@,
        BackupEvent::Command(BackupCommand::Shutdown) => action matches BackupAction::Stop {
            level,
            message,
        } && level@ == "INFO"@ && message@ == "Backup worker shutting down"@,
        BackupEvent::Disconnected => action matches BackupAction::Stop { level, message }
            && level@ == "WARN"@ && message@ == "Backup command channel disconnected"@,
    }
}

/// Whether an event stops the worker: a shutdown command, or a lost command
/// channel.
pub open spec fn stops(e: BackupEvent) -> bool {
    e == BackupEvent::Command(BackupCommand::Shutdown) || e == BackupEvent::Disconnected
}

/// The message reported for the copy that a non-stopping event triggers.
pub open spec fn copy_message(e: BackupEvent) -> Seq<char> {
    if e == BackupEvent::Timeout {
        "Scheduled backup completed."@
    } else {
        "Manual backup completed."@
    }
}

/// The success messages reported over a run of the worker on `events` when
/// every copy succeeds: one per event, up to the first event that stops
/// it.
pub open spec fn run_reports(events: Seq<BackupEvent>) -> Seq<Seq<char>>
    decreases events.len(),
{
    if events.len() == 0 || stops(events[0]) {
        Seq::empty()
    } else {
        seq![copy_message(events[0])] + run_reports(events.drop_first())
    }
}

/// Over a run of events, each of which is a `RunNow` command or a timeout
/// until the `n`-th, which stops the worker, the worker copies once per
/// event before the stop, with the manual or scheduled message that goes
/// with the event, and stops at the stopping event; with every copy
/// succeeding, it reports exactly those `n` messages.
pub proof fn lemma_backup_run(events: Seq<BackupEvent>, actions: Seq<BackupAction>, n: int)
    requires
        0 <= n < events.len(),
        actions.len() == events.len(),
        forall|i: int| 0 <= i < events.len() ==> reacts(#[trigger] events[i], actions[i]),
        forall|i: int| 0 <= i < n ==> !stops(#[trigger] events[i]),
        stops(events[n]),
    ensures
        run_reports(events).len() == n,
        forall|i: int|
            0 <= i < n ==> (#[trigger] actions[i] matches BackupAction::Backup { success_message }
                && success_message@ == copy_message(events[i]) && run_reports(events)[i]
                == copy_message(events[i])),
        actions[n] is Stop,
    decreases n,
{
    assert(reacts(events[n], actions[n]));
    if n > 0 {
        let rest = events.drop_first();
        let acts = actions.drop_first();
        assert forall|i: int| 0 <= i < rest.len() implies reacts(#[trigger] rest[i], acts[i]) by {
            assert(rest[i] == events[i + 1]);
            assert(acts[i] == actions[i + 1]);
            assert(reacts(events[i + 1], actions[i + 1]));
        }
        assert forall|i: int| 0 <= i < n - 1 implies !stops(#[trigger] rest[i]) by {
            assert(rest[i] == events[i + 1]);
            assert(!stops(events[i + 1]));
        }
        assert(rest[n - 1] == events[n]);
        lemma_backup_run(rest, acts, n - 1);
        assert(!stops(events[0]));
        assert forall|i: int| 0 <= i < n implies (#[trigger] actions[i] matches BackupAction::Backup {
            success_message,
        } && success_message@ == copy_message(events[i]) && run_reports(events)[i] == copy_message(
            events[i],
        )) by {
            assert(reacts(events[i], actions[i]));
            assert(!stops(events[i]));
            if i > 0 {
                assert(rest[i - 1] == events[i]);
                assert(acts[i - 1] == actions[i]);
                assert(run_reports(events)[i] == run_reports(rest)[i - 1]);
            }
        }
        assert(acts[n - 1] == actions[n]);
    } else {
        assert(run_reports(events) == Seq::<Seq<char>>::empty());
    }
}

/// `answer` is what the worker sends after doing `action` with the copy
/// outcome `copy`: the action's success message when the copy worked,
/// `Backup failed: <error>` when it did not.
pub open spec fn reports_copy(
    action: BackupAction,
    copy: Result<(), String>,
    answer: Result<OperationResult, String>,
) -> bool {
    action matches BackupAction::Backup { success_message } && (copy is Ok ==> answers(
        answer,
        true,
        success_message@,
    )) && (copy matches Err(e) ==> (answer matches Err(m) && m@ == "Backup failed: "@ + e@))
}

/// The answers sent by a run of the worker over `actions`, with the copy
/// outcomes `copies`: one answer per copy, up to the first stop; nothing
/// from the stop on.
pub open spec fn run_answers(
    actions: Seq<BackupAction>,
    copies: Seq<Result<(), String>>,
    sent: Seq<Result<OperationResult, String>>,
) -> bool
    decreases actions.len(),
{
    if actions.len() == 0 || actions[0] is Stop {
        sent.len() == 0
    } else {
        &&& copies.len() > 0
        &&& sent.len() > 0
        &&& reports_copy(actions[0], copies[0], sent[0])
        &&& run_answers(actions.drop_first(), copies.drop_first(), sent.drop_first())
    }
}

/// Over events whose first `n` are `RunNow` commands or timeouts and whose
/// `n`-th stops the worker: a run of the worker on the actions that
/// `next_action` gives for them sends exactly `n` answers, the `i`-th being
/// `Manual backup completed.` (for a command) or `Scheduled backup
/// completed.` (for a timeout) when copy `i` worked, and `Backup failed:
/// <error>` when it did not; it stops at the `n`-th event.
pub proof fn lemma_backup_answers(
    events: Seq<BackupEvent>,
    actions: Seq<BackupAction>,
    copies: Seq<Result<(), String>>,
    sent: Seq<Result<OperationResult, String>>,
    n: int,
)
    requires
        0 <= n < events.len(),
        actions.len() == events.len(),
        forall|i: int| 0 <= i < events.len() ==> reacts(#[trigger] events[i], actions[i]),
        forall|i: int| 0 <= i < n ==> !stops(#[trigger] events[i]),
        stops(events[n]),
        run_answers(actions, copies, sent),
    ensures
        sent.len() == n,
        copies.len() >= n,
        forall|i: int|
            0 <= i < n ==> (copies[i] is Ok ==> answers(
                #[trigger] sent[i],
                true,
                copy_message(events[i]),
            )),
        forall|i: int|
            0 <= i < n ==> (copies[i] matches Err(e) ==> (#[trigger] sent[i] matches Err(m) && m@
                == "Backup failed: "@ + e@)),
        actions[n] is Stop,
    decreases n,
{
    lemma_backup_run(events, actions, n);
    if n > 0 {
        let es = events.drop_first();
        let acts = actions.drop_first();
        assert forall|i: int| 0 <= i < es.len() implies reacts(#[trigger] es[i], acts[i]) by {
            assert(es[i] == events[i + 1]);
            assert(acts[i] == actions[i + 1]);
            assert(reacts(events[i + 1], actions[i + 1]));
        }
        assert forall|i: int| 0 <= i < n - 1 implies !stops(#[trigger] es[i]) by {
            assert(es[i] == events[i + 1]);
            assert(!stops(events[i + 1]));
        }
        assert(es[n - 1] == events[n]);
        assert(!stops(events[0]));
        assert(!(actions[0] is Stop));
        lemma_backup_answers(es, acts, copies.drop_first(), sent.drop_first(), n - 1);
        assert forall|i: int| 0 <= i < n implies (copies[i] is Ok ==> answers(
            #[trigger] sent[i],
            true,
            copy_message(events[i]),
        )) && (copies[i] matches Err(e) ==> (sent[i] matches Err(m) && m@ == "Backup failed: "@
            + e@)) by {
            assert(actions[i] matches BackupAction::Backup { success_message }
                && success_message@ == copy_message(events[i]));
            if i > 0 {
                assert(sent[i] == sent.drop_first()[i - 1]);
                assert(copies[i] == copies.drop_first()[i - 1]);
                assert(es[i - 1] == events[i]);
                assert(acts[i - 1] == actions[i]);
            }
        }
    } else {
        assert(actions[0] is Stop);
    }
}

/// Copies the database file to a backup file at a fixed interval and on
/// request.
pub struct BackupWorker<L: LoggingPolicy, R: RetryPolicy> {
    source_db: PathBuf,
    backup_db: PathBuf,
    interval: Duration,
    logger: Arc<L>,
    retry_policy: Arc<R>,
}

impl<L: LoggingPolicy, R: RetryPolicy> BackupWorker<L, R> {
    /// The database file that is copied.
    pub closed spec fn source(self) -> PathBuf {
        self.source_db
    }

    /// The backup file written.
    pub closed spec fn target(self) -> PathBuf {
        self.backup_db
    }

    /// The time between scheduled copies.
    pub closed spec fn period(self) -> Duration {
        self.interval
    }

    /// The logging policy.
    pub closed spec fn log_policy(self) -> Arc<L> {
        self.logger
    }

    /// The retry policy for each copy.
    pub closed spec fn retry(self) -> Arc<R> {
        self.retry_policy
    }

    /// A worker copying `source_db` to `backup_db` every `interval`.
    pub fn new(
        source_db: PathBuf,
        backup_db: PathBuf,
        interval: Duration,
        logger: Arc<L>,
        retry_policy: Arc<R>,
    ) -> (w: Self)
        ensures
            w.source() == source_db,
            w.target() == backup_db,
            w.period() == interval,
            w.log_policy() == logger,
            w.retry() == retry_policy,
    {
        BackupWorker { source_db, backup_db, interval, logger, retry_policy }
    }

    /// The database file that is copied.
    pub fn source_db(&self) -> (p: &PathBuf)
        ensures
            *p == self.source(),
    {
        &self.source_db
    }

    /// The backup file written.
    pub fn backup_db(&self) -> (p: &PathBuf)
        ensures
            *p == self.target(),
    {
        &self.backup_db
    }

    /// The time between scheduled copies.
    pub fn interval(&self) -> (d: Duration)
        ensures
            d == self.period(),
    {
        self.interval
    }

    /// The logging policy.
    pub fn logger(&self) -> (l: &Arc<L>)
        ensures
            *l == self.log_policy(),
    {
        &self.logger
    }

    /// The retry policy for each copy.
    pub fn retry_policy(&self) -> (r: &Arc<R>)
        ensures
            *r == self.retry(),
    {
        &self.retry_policy
    }

    /// The line the worker logs when it starts: its level and its text.
    pub fn start_line() -> (line: (String, String))
        ensures
            line.0@ == "INFO"@,
            line.1@ == "Backup worker started"@,
    {
        (String::from_str("INFO"), String::from_str("Backup worker started"))
    }

    /// What the worker does after `event`.
    pub fn next_action(event: BackupEvent) -> (action: BackupAction)
        ensures
            reacts(event, action),
    {
        match event {
            BackupEvent::Command(BackupCommand::RunNow) => BackupAction::Backup {
                success_message: String::from_str("Manual backup completed."),
            },
            BackupEvent::Timeout => BackupAction::Backup {
                success_message: String::from_str("Scheduled backup completed."),
            },
            BackupEvent::Command(BackupCommand::Shutdown) => BackupAction::Stop {
                level: String::from_str("INFO"),
                message: String::from_str("Backup worker shutting down"),
            },
            BackupEvent::Disconnected => BackupAction::Stop {
                level: String::from_str("WARN"),
                message: String::from_str("Backup command channel disconnected"),
            },
        }
    }
}

/// The report of one backup copy.
#[derive(Debug)]
pub struct BackupReport {
    /// The answer sent to the interface.
    pub answer: Result<OperationResult, String>,
    /// The level of the log line.
    pub level: String,
    /// The text of the log line.
    pub text: String,
}

/// The report of a copy from its outcome: on success the answer carries
/// `success_message` and it is logged as `INFO`; on failure the answer is
/// the error `Backup failed: <error>`, logged as `ERROR`.
pub fn backup_report(copy: Result<(), String>, success_message: &str) -> (r: BackupReport)
    ensures
        copy is Ok ==> answers(r.answer, true, success_message@) && r.level@ == "INFO"@
            && r.text@ == success_message@,
        copy matches Err(e) ==> (r.answer matches Err(m) && m@ == "Backup failed: "@ + e@
            && r.level@ == "ERROR"@ && r.text@ == m@),
{
    match copy {
        Ok(()) => {
            let message = String::from_str(success_message);
            let text = message.clone();
            BackupReport {
                answer: Ok(OperationResult { success: true, message }),
                level: String::from_str("INFO"),
                text,
            }
        },
        Err(e) => {
            let mut m = String::from_str("Backup failed: ");
            m.append(e.as_str());
            let text = m.clone();
            BackupReport { answer: Err(m), level: String::from_str("ERROR"), text }
        },
    }
}

} // verus!
