use alex_crm::backend::db_worker::{
    assemble_details, backup_request_answer, plan_fetch, plan_save_log, plan_task, save_log_answer,
    save_today_log, today_log_date, write_reply, CompanyWrite, DbJob, DbOp, FlowStep, WriteKind,
};
use alex_crm::backend::fts::build_fts_query;
use alex_crm::tasks::{DbTask, FetchCompaniesReq, InsertCompanyReq, OperationResult, UiTask, UpdateCompanyReq};

fn insert_req(name: &str, county: &str, first: &str, last: &str) -> InsertCompanyReq {
    InsertCompanyReq {
        name: name.to_string(),
        county: county.to_string(),
        contact_first: first.to_string(),
        contact_last: last.to_string(),
    }
}

fn answer(step: FlowStep) -> Result<OperationResult, String> {
    match step {
        FlowStep::Finish(r) => r,
        FlowStep::Run(op) => panic!("expected an answer, got {op:?}"),
    }
}

fn op(step: FlowStep) -> DbOp {
    match step {
        FlowStep::Run(op) => op,
        FlowStep::Finish(r) => panic!("expected a statement, got {r:?}"),
    }
}

#[test]
fn fts_query_keeps_word_characters_as_prefix_terms() {
    assert_eq!(build_fts_query("acme co-op"), "acme* coop*");
    assert_eq!(build_fts_query("  a_b   12 "), "a_b* 12*");
    assert_eq!(build_fts_query("\"quoted\" OR (x)"), "quoted* OR* x*");
    assert_eq!(build_fts_query("!!! ???"), "");
    assert_eq!(build_fts_query(""), "");
    assert_eq!(build_fts_query("caf\u{e9}\u{3000}bar\ttab"), "caf* bar* tab*");
}

#[test]
fn fetch_plan_trims_and_builds_query() {
    let req = FetchCompaniesReq { search: "  acme inc ".to_string(), offset: 5, limit: 10 };
    let plan = plan_fetch(&req);
    assert_eq!(plan.search, "acme inc");
    assert_eq!(plan.fts_query, "acme* inc*");
    assert_eq!(plan.limit, 10);
    assert_eq!(plan.offset, 5);
}

#[test]
fn details_fill_missing_values_with_empty_text() {
    let d = assemble_details(4, "Acme".to_string(), None, None);
    assert_eq!((d.id, d.name.as_str(), d.county.as_str()), (4, "Acme", ""));
    assert_eq!((d.contact_first.as_str(), d.contact_last.as_str()), ("", ""));
    let d = assemble_details(
        4,
        "Acme".to_string(),
        Some("Kent".to_string()),
        Some(("Ann".to_string(), None)),
    );
    assert_eq!((d.county.as_str(), d.contact_first.as_str(), d.contact_last.as_str()), ("Kent", "Ann", ""));
    let d = assemble_details(4, "Acme".to_string(), None, Some(("Ann".to_string(), Some("Lee".to_string()))));
    assert_eq!(d.contact_last, "Lee");
}

#[test]
fn insert_with_blank_name_is_refused_without_statements() {
    let (w, step) = CompanyWrite::insert(&insert_req("   ", "Kent", "", ""));
    assert!(w.is_finished());
    let r = answer(step).unwrap();
    assert!(!r.success);
    assert_eq!(r.message, "Company name is required.");
}

#[test]
fn insert_runs_all_statements_in_one_transaction() {
    let (mut w, step) = CompanyWrite::insert(&insert_req(" Acme ", " Kent ", " Ann ", " Lee "));
    assert!(matches!(op(step), DbOp::Begin));
    match op(w.next(Ok(0))) {
        DbOp::EnsureCounty { name } => assert_eq!(name, "Kent"),
        other => panic!("{other:?}"),
    }
    match op(w.next(Ok(7))) {
        DbOp::InsertCompany { name, county_id } => {
            assert_eq!(name, "Acme");
            assert_eq!(county_id, Some(7));
        }
        other => panic!("{other:?}"),
    }
    match op(w.next(Ok(42))) {
        DbOp::ClearContacts { company_id } => assert_eq!(company_id, 42),
        other => panic!("{other:?}"),
    }
    match op(w.next(Ok(0))) {
        DbOp::InsertContact { first, last } => {
            assert_eq!(first, "Ann");
            assert_eq!(last, Some("Lee".to_string()));
        }
        other => panic!("{other:?}"),
    }
    match op(w.next(Ok(99))) {
        DbOp::LinkContact { company_id, contact_id } => assert_eq!((company_id, contact_id), (42, 99)),
        other => panic!("{other:?}"),
    }
    assert!(matches!(op(w.next(Ok(1))), DbOp::Commit));
    let r = answer(w.next(Ok(0))).unwrap();
    assert!(r.success);
    assert_eq!(r.message, "Company 'Acme' created.");
    assert!(w.is_finished());
}

#[test]
fn insert_without_county_or_contact_skips_them() {
    let (mut w, step) = CompanyWrite::insert(&insert_req("Acme", "  ", "", " "));
    assert!(matches!(op(step), DbOp::Begin));
    match op(w.next(Ok(0))) {
        DbOp::InsertCompany { name, county_id } => {
            assert_eq!(name, "Acme");
            assert_eq!(county_id, None);
        }
        other => panic!("{other:?}"),
    }
    assert!(matches!(op(w.next(Ok(5))), DbOp::ClearContacts { company_id: 5 }));
    assert!(matches!(op(w.next(Ok(0))), DbOp::Commit));
    assert!(answer(w.next(Ok(0))).unwrap().success);
}

#[test]
fn contact_with_last_name_only_keeps_an_empty_first_name() {
    let (mut w, _) = CompanyWrite::insert(&insert_req("Acme", "", "", "Lee"));
    let _ = w.next(Ok(0));
    let _ = w.next(Ok(3));
    match op(w.next(Ok(0))) {
        DbOp::InsertContact { first, last } => {
            assert_eq!(first, "");
            assert_eq!(last, Some("Lee".to_string()));
        }
        other => panic!("{other:?}"),
    }
    let (mut w, _) = CompanyWrite::insert(&insert_req("Acme", "", "Ann", ""));
    let _ = w.next(Ok(0));
    let _ = w.next(Ok(3));
    match op(w.next(Ok(0))) {
        DbOp::InsertContact { first, last } => {
            assert_eq!(first, "Ann");
            assert_eq!(last, None);
        }
        other => panic!("{other:?}"),
    }
}

#[test]
fn duplicate_name_rolls_back_and_says_so() {
    let (mut w, _) = CompanyWrite::insert(&insert_req("Acme", "", "", ""));
    let _ = w.next(Ok(0));
    assert!(matches!(
        op(w.next(Err("UNIQUE constraint failed: companies.name".to_string()))),
        DbOp::Rollback
    ));
    let r = answer(w.next(Err("ignored".to_string()))).unwrap();
    assert!(!r.success);
    assert_eq!(r.message, "Company 'Acme' already exists.");
}

#[test]
fn other_insert_error_rolls_back_with_error_text() {
    let (mut w, _) = CompanyWrite::insert(&insert_req("Acme", "", "", ""));
    let _ = w.next(Ok(0));
    assert!(matches!(op(w.next(Err("disk I/O error".to_string()))), DbOp::Rollback));
    let r = answer(w.next(Ok(0))).unwrap();
    assert!(!r.success);
    assert_eq!(r.message, "Error: disk I/O error");
}

#[test]
fn failed_county_rolls_back_with_error() {
    let (mut w, _) = CompanyWrite::insert(&insert_req("Acme", "Kent", "", ""));
    let _ = w.next(Ok(0));
    assert!(matches!(op(w.next(Err("locked".to_string()))), DbOp::Rollback));
    assert_eq!(answer(w.next(Ok(0))).unwrap_err(), "locked");
}

#[test]
fn failed_begin_and_commit_return_the_error() {
    let (mut w, _) = CompanyWrite::insert(&insert_req("Acme", "", "", ""));
    assert_eq!(answer(w.next(Err("busy".to_string()))).unwrap_err(), "busy");
    assert!(w.is_finished());
    let (mut w, _) = CompanyWrite::delete(8);
    let _ = w.next(Ok(0));
    let _ = w.next(Ok(0));
    let _ = w.next(Ok(0));
    assert!(matches!(op(w.next(Ok(1))), DbOp::Commit));
    assert_eq!(answer(w.next(Err("full".to_string()))).unwrap_err(), "full");
}

#[test]
fn update_of_missing_company_rolls_back() {
    let req = UpdateCompanyReq {
        id: 11,
        new_name: "New".to_string(),
        county: String::new(),
        contact_first: String::new(),
        contact_last: String::new(),
    };
    let (mut w, step) = CompanyWrite::update(&req);
    assert!(matches!(op(step), DbOp::Begin));
    match op(w.next(Ok(0))) {
        DbOp::UpdateCompany { id, name, county_id } => {
            assert_eq!((id, name.as_str(), county_id), (11, "New", None));
        }
        other => panic!("{other:?}"),
    }
    assert!(matches!(op(w.next(Ok(0))), DbOp::Rollback));
    let r = answer(w.next(Ok(0))).unwrap();
    assert!(!r.success);
    assert_eq!(r.message, "Company not found.");
}

#[test]
fn update_renames_and_reports() {
    let req = UpdateCompanyReq {
        id: 11,
        new_name: " New ".to_string(),
        county: String::new(),
        contact_first: String::new(),
        contact_last: String::new(),
    };
    let (mut w, _) = CompanyWrite::update(&req);
    let _ = w.next(Ok(0));
    assert!(matches!(op(w.next(Ok(1))), DbOp::ClearContacts { company_id: 11 }));
    assert!(matches!(op(w.next(Ok(0))), DbOp::Commit));
    let r = answer(w.next(Ok(0))).unwrap();
    assert!(r.success);
    assert_eq!(r.message, "Company updated.");
    let req = UpdateCompanyReq { new_name: "Taken".to_string(), ..req };
    let (mut w, _) = CompanyWrite::update(&req);
    let _ = w.next(Ok(0));
    let _ = w.next(Err("UNIQUE constraint failed".to_string()));
    assert_eq!(answer(w.next(Ok(0))).unwrap().message, "Company 'Taken' already exists.");
}

#[test]
fn delete_removes_links_activities_then_company() {
    let (mut w, step) = CompanyWrite::delete(8);
    assert!(matches!(op(step), DbOp::Begin));
    assert!(matches!(op(w.next(Ok(0))), DbOp::ClearContacts { company_id: 8 }));
    assert!(matches!(op(w.next(Ok(0))), DbOp::DeleteActivities { company_id: 8 }));
    assert!(matches!(op(w.next(Ok(0))), DbOp::DeleteCompany { company_id: 8 }));
    assert!(matches!(op(w.next(Ok(1))), DbOp::Commit));
    let r = answer(w.next(Ok(0))).unwrap();
    assert!(r.success);
    assert_eq!(r.message, "Company deleted.");
}

#[test]
fn delete_of_missing_company_rolls_back() {
    let (mut w, _) = CompanyWrite::delete(8);
    let _ = w.next(Ok(0));
    let _ = w.next(Ok(0));
    let _ = w.next(Ok(0));
    assert!(matches!(op(w.next(Ok(0))), DbOp::Rollback));
    assert_eq!(answer(w.next(Ok(0))).unwrap().message, "Company not found.");
    let (mut w, _) = CompanyWrite::delete(8);
    let _ = w.next(Ok(0));
    assert!(matches!(op(w.next(Err("constraint".to_string()))), DbOp::Rollback));
    assert_eq!(answer(w.next(Ok(0))).unwrap_err(), "constraint");
}

#[test]
fn daily_log_is_trimmed_and_keyed_by_date() {
    let step = plan_save_log("  did things \n", "2024-05-01".to_string(), "2024-05-01 09:00:00".to_string());
    match op(step) {
        DbOp::UpsertDailyLog { log_date, entry, created_at } => {
            assert_eq!(log_date, "2024-05-01");
            assert_eq!(entry, "did things");
            assert_eq!(created_at, "2024-05-01 09:00:00");
        }
        other => panic!("{other:?}"),
    }
    let r = answer(plan_save_log(" \t ", String::new(), String::new())).unwrap();
    assert!(!r.success);
    assert_eq!(r.message, "Daily log entry cannot be empty.");
    let r = answer(save_today_log("   ")).unwrap();
    assert_eq!(r.message, "Daily log entry cannot be empty.");
    match op(save_today_log(" note ")) {
        DbOp::UpsertDailyLog { log_date, entry, created_at } => {
            assert_eq!(entry, "note");
            assert_eq!(log_date.len(), 10);
            assert!(created_at.starts_with(&log_date));
        }
        other => panic!("{other:?}"),
    }
    assert_eq!(today_log_date().len(), 10);
}

#[test]
fn daily_log_and_backup_answers() {
    let r = save_log_answer(Ok(1)).unwrap();
    assert!(r.success);
    assert_eq!(r.message, "Daily log saved.");
    assert_eq!(save_log_answer(Err("ro".to_string())).unwrap_err(), "ro");
    let r = backup_request_answer(Ok(())).unwrap();
    assert!(r.success);
    assert_eq!(r.message, "Backup requested.");
    assert_eq!(
        backup_request_answer(Err("sending on a closed channel".to_string())).unwrap_err(),
        "Failed to request backup: sending on a closed channel"
    );
}

#[test]
fn today_log_date_has_the_date_layout() {
    let d = today_log_date();
    let n = d.len();
    assert!(n >= 10);
    assert_eq!(&d[n - 6..n - 5], "-");
    assert_eq!(&d[n - 3..n - 2], "-");
    let month: u32 = d[n - 5..n - 3].parse().unwrap();
    let day: u32 = d[n - 2..].parse().unwrap();
    assert!((1..=12).contains(&month));
    assert!((1..=31).contains(&day));
    assert!(d[..n - 6].chars().all(|c| c.is_ascii_digit()));
}

#[test]
fn fts_query_of_a_query_is_the_same_query() {
    for raw in ["acme co-op", "  a_b 12 ", "\"x\" OR y*", ""] {
        let q = build_fts_query(raw);
        assert_eq!(build_fts_query(&q), q);
    }
}

#[test]
fn each_request_becomes_its_job() {
    match plan_task(DbTask::FetchCompanies(FetchCompaniesReq { search: " acme ".to_string(), offset: 1, limit: 2 })) {
        DbJob::Fetch(plan) => {
            assert_eq!((plan.search.as_str(), plan.fts_query.as_str()), ("acme", "acme*"));
            assert_eq!((plan.offset, plan.limit), (1, 2));
        }
        other => panic!("{other:?}"),
    }
    assert!(matches!(plan_task(DbTask::FetchCompanyDetails(4)), DbJob::Details(4)));
    match plan_task(DbTask::InsertCompany(insert_req(" Acme ", "", "", ""))) {
        DbJob::Write(w, step) => {
            assert_eq!(w.kind, WriteKind::Insert);
            assert_eq!(w.name, "Acme");
            assert!(matches!(step, FlowStep::Run(DbOp::Begin)));
        }
        other => panic!("{other:?}"),
    }
    match plan_task(DbTask::DeleteCompany(9)) {
        DbJob::Write(w, _) => assert_eq!((w.kind, w.company_id), (WriteKind::Delete, 9)),
        other => panic!("{other:?}"),
    }
    match plan_task(DbTask::FetchTodayLog) {
        DbJob::TodayLog(d) => assert_eq!(d.len(), 10),
        other => panic!("{other:?}"),
    }
    match plan_task(DbTask::SaveTodayLog("  ".to_string())) {
        DbJob::SaveLog(FlowStep::Finish(r)) => assert_eq!(r.unwrap().message, "Daily log entry cannot be empty."),
        other => panic!("{other:?}"),
    }
    assert!(matches!(plan_task(DbTask::RequestBackup), DbJob::RequestBackup));
    assert!(matches!(plan_task(DbTask::Shutdown), DbJob::Stop));
}

#[test]
fn write_answers_go_back_in_their_own_message() {
    let ok = || Ok(OperationResult { success: true, message: "m".to_string() });
    assert!(matches!(write_reply(WriteKind::Insert, ok()), UiTask::InsertCompanyResult(Ok(_))));
    assert!(matches!(write_reply(WriteKind::Update, ok()), UiTask::UpdateCompanyResult(Ok(_))));
    assert!(matches!(write_reply(WriteKind::Delete, Err("e".to_string())), UiTask::DeleteCompanyResult(Err(_))));
}

#[test]
fn a_run_answers_each_request_in_order_until_shutdown() {
    let tasks = vec![
        DbTask::FetchCompanyDetails(7),
        DbTask::DeleteCompany(3),
        DbTask::RequestBackup,
        DbTask::Shutdown,
        DbTask::FetchTodayLog,
    ];
    let mut replies = Vec::new();
    for task in tasks {
        let reply = match plan_task(task) {
            DbJob::Details(id) => UiTask::FetchCompanyDetailsResult(id, Err("none".to_string())),
            DbJob::Write(w, _) => write_reply(w.kind, Err("none".to_string())),
            DbJob::RequestBackup => UiTask::BackupStatusResult(Err("none".to_string())),
            DbJob::Stop => break,
            other => panic!("{other:?}"),
        };
        replies.push(reply);
    }
    assert_eq!(replies.len(), 3);
    assert!(matches!(replies[0], UiTask::FetchCompanyDetailsResult(7, _)));
    assert!(matches!(replies[1], UiTask::DeleteCompanyResult(_)));
    assert!(matches!(replies[2], UiTask::BackupStatusResult(_)));
}
