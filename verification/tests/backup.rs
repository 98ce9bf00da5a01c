use alex_crm::backend::backup_worker::{
    backup_report, BackupAction, BackupCommand, BackupEvent, BackupWorker,
};
use alex_crm::policies::logging::ConsoleLogger;
use alex_crm::policies::retry::SpinRetry;
use std::path::PathBuf;
use std::sync::Arc;
use std::time::Duration;

type Worker = BackupWorker<ConsoleLogger, SpinRetry>;

#[test]
fn worker_keeps_its_configuration() {
    let w: Worker = BackupWorker::new(
        PathBuf::from("a.db"),
        PathBuf::from("b.db"),
        Duration::from_secs(300),
        Arc::new(ConsoleLogger::new(false)),
        Arc::new(SpinRetry::new(2)),
    );
    assert_eq!(w.source_db(), &PathBuf::from("a.db"));
    assert_eq!(w.backup_db(), &PathBuf::from("b.db"));
    assert_eq!(w.interval(), Duration::from_secs(300));
}

#[test]
fn events_decide_backups_and_stops() {
    match Worker::next_action(BackupEvent::Command(BackupCommand::RunNow)) {
        BackupAction::Backup { success_message } => assert_eq!(success_message, "Manual backup completed."),
        other => panic!("{other:?}"),
    }
    match Worker::next_action(BackupEvent::Timeout) {
        BackupAction::Backup { success_message } => assert_eq!(success_message, "Scheduled backup completed."),
        other => panic!("{other:?}"),
    }
    match Worker::next_action(BackupEvent::Command(BackupCommand::Shutdown)) {
        BackupAction::Stop { level, message } => {
            assert_eq!(level, "INFO");
            assert_eq!(message, "Backup worker shutting down");
        }
        other => panic!("{other:?}"),
    }
    match Worker::next_action(BackupEvent::Disconnected) {
        BackupAction::Stop { level, message } => {
            assert_eq!(level, "WARN");
            assert_eq!(message, "Backup command channel disconnected");
        }
        other => panic!("{other:?}"),
    }
}

#[test]
fn copy_outcomes_become_reports() {
    let r = backup_report(Ok(()), "Manual backup completed.");
    let ok = r.answer.unwrap();
    assert!(ok.success);
    assert_eq!(ok.message, "Manual backup completed.");
    assert_eq!((r.level.as_str(), r.text.as_str()), ("INFO", "Manual backup completed."));
    let r = backup_report(Err("no source".to_string()), "Manual backup completed.");
    assert_eq!(r.answer.unwrap_err(), "Backup failed: no source");
    assert_eq!((r.level.as_str(), r.text.as_str()), ("ERROR", "Backup failed: no source"));
}

#[test]
fn worker_logs_its_start() {
    let (level, text) = Worker::start_line();
    assert_eq!(level, "INFO");
    assert_eq!(text, "Backup worker started");
}

#[test]
fn a_run_reports_each_copy_until_shutdown() {
    let events = [
        BackupEvent::Command(BackupCommand::RunNow),
        BackupEvent::Timeout,
        BackupEvent::Command(BackupCommand::RunNow),
        BackupEvent::Command(BackupCommand::Shutdown),
        BackupEvent::Timeout,
    ];
    let copies: [Result<(), String>; 3] = [Ok(()), Ok(()), Err("disk full".to_string())];
    let mut sent = Vec::new();
    let mut copy_index = 0;
    for event in events {
        match Worker::next_action(event) {
            BackupAction::Backup { success_message } => {
                let report = backup_report(copies[copy_index].clone(), &success_message);
                copy_index += 1;
                sent.push(report.answer);
            }
            BackupAction::Stop { .. } => break,
        }
    }
    assert_eq!(sent.len(), 3);
    assert_eq!(sent[0].as_ref().unwrap().message, "Manual backup completed.");
    assert_eq!(sent[1].as_ref().unwrap().message, "Scheduled backup completed.");
    assert_eq!(sent[2].as_ref().unwrap_err(), "Backup failed: disk full");
}
