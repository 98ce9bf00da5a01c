use alex_crm::tasks::{
    CompanyDetails, CompanyRow, DailyLogEntry, FetchCompaniesResult, OperationResult, UiTask,
};
use alex_crm::ui::detail_window::{company_folder, folder_parts, sanitize_company_name, update_request};
use alex_crm::ui::dispatch::{fetch_all_request, ui_effect, UiEffect, FETCH_ALL_LIMIT};
use alex_crm::ui::new_company_form::insert_request;

fn op(success: bool, message: &str) -> OperationResult {
    OperationResult { success, message: message.to_string() }
}

#[test]
fn folder_names_replace_reserved_characters() {
    assert_eq!(sanitize_company_name("A/B:C*D?"), "A_B_C_D_");
    assert_eq!(sanitize_company_name("  Acme <Ltd>  "), "Acme _Ltd_");
    assert_eq!(sanitize_company_name("   "), "Company");
    assert_eq!(sanitize_company_name(""), "Company");
    assert_eq!(sanitize_company_name("\"|\\"), "___");
}

#[test]
fn folder_parts_for_year_and_month() {
    assert_eq!(folder_parts("Acme", 2024, 3), vec!["Acme".to_string(), "2024".to_string(), "03".to_string()]);
    assert_eq!(folder_parts("a/b", 1999, 12), vec!["a_b".to_string(), "1999".to_string(), "12".to_string()]);
    let parts = company_folder("Acme");
    assert_eq!(parts[0], "Acme");
    assert_eq!(parts[2].len(), 2);
    let month: u32 = parts[2].parse().unwrap();
    assert!((1..=12).contains(&month));
}

#[test]
fn forms_refuse_blank_names() {
    assert!(update_request(1, "  ".to_string(), String::new(), String::new(), String::new()).is_none());
    let req = update_request(1, " Acme ".to_string(), "Kent".to_string(), "Ann".to_string(), String::new()).unwrap();
    assert_eq!((req.id, req.new_name.as_str(), req.county.as_str()), (1, " Acme ", "Kent"));
    assert!(insert_request("\t".to_string(), String::new(), String::new(), String::new()).is_none());
    let req = insert_request("Acme".to_string(), String::new(), "Ann".to_string(), "Lee".to_string()).unwrap();
    assert_eq!((req.name.as_str(), req.contact_first.as_str(), req.contact_last.as_str()), ("Acme", "Ann", "Lee"));
}

#[test]
fn reload_request_asks_for_everything() {
    let req = fetch_all_request("x".to_string());
    assert_eq!((req.search.as_str(), req.offset, req.limit), ("x", 0, 2_000_000));
    assert_eq!(FETCH_ALL_LIMIT, 2_000_000);
}

#[test]
fn worker_results_become_interface_effects() {
    let rows = vec![CompanyRow { id: 1, name: "Acme".to_string() }];
    match ui_effect(UiTask::FetchCompaniesResult(Ok(FetchCompaniesResult { rows, total: 12 }))) {
        UiEffect::ShowCompanies { rows, status } => {
            assert_eq!(rows.len(), 1);
            assert_eq!(status, "Loaded 1 companies (12 total).");
        }
        other => panic!("{other:?}"),
    }
    let rows: Vec<CompanyRow> = (0..1500).map(|i| CompanyRow { id: i, name: String::new() }).collect();
    match ui_effect(UiTask::FetchCompaniesResult(Ok(FetchCompaniesResult { rows, total: 2_000_000 }))) {
        UiEffect::ShowCompanies { status, .. } => {
            assert_eq!(status, "Loaded 1500 companies (2000000 total).");
        }
        other => panic!("{other:?}"),
    }
    match ui_effect(UiTask::FetchCompaniesResult(Err("db".to_string()))) {
        UiEffect::Status(s) => assert_eq!(s, "Failed to fetch companies: db"),
        other => panic!("{other:?}"),
    }
    let details = CompanyDetails {
        id: 3,
        name: "Acme".to_string(),
        county: String::new(),
        contact_first: String::new(),
        contact_last: String::new(),
    };
    match ui_effect(UiTask::FetchCompanyDetailsResult(3, Ok(details))) {
        UiEffect::ShowDetails { company_id, details } => assert_eq!((company_id, details.name.as_str()), (3, "Acme")),
        other => panic!("{other:?}"),
    }
    match ui_effect(UiTask::FetchCompanyDetailsResult(3, Err("gone".to_string()))) {
        UiEffect::Status(s) => assert_eq!(s, "Failed to load details: gone"),
        other => panic!("{other:?}"),
    }
    match ui_effect(UiTask::InsertCompanyResult(Ok(op(false, "Company 'A' already exists.")))) {
        UiEffect::StatusAndRefresh(s) => assert_eq!(s, "Company 'A' already exists."),
        other => panic!("{other:?}"),
    }
    match ui_effect(UiTask::InsertCompanyResult(Err("e".to_string()))) {
        UiEffect::Status(s) => assert_eq!(s, "Insert failed: e"),
        other => panic!("{other:?}"),
    }
    match ui_effect(UiTask::UpdateCompanyResult(Err("e".to_string()))) {
        UiEffect::Status(s) => assert_eq!(s, "Update failed: e"),
        other => panic!("{other:?}"),
    }
    match ui_effect(UiTask::DeleteCompanyResult(Ok(op(true, "Company deleted.")))) {
        UiEffect::StatusAndRefresh(s) => assert_eq!(s, "Company deleted."),
        other => panic!("{other:?}"),
    }
    match ui_effect(UiTask::DeleteCompanyResult(Err("e".to_string()))) {
        UiEffect::Status(s) => assert_eq!(s, "Delete failed: e"),
        other => panic!("{other:?}"),
    }
    let entry = DailyLogEntry {
        log_date: "2024-01-01".to_string(),
        entry: "notes".to_string(),
        created_at: "2024-01-01 10:00:00".to_string(),
    };
    match ui_effect(UiTask::FetchTodayLogResult(Ok(Some(entry)))) {
        UiEffect::LogEditor { text, status } => {
            assert_eq!(text, "notes");
            assert_eq!(status, "Loaded today's log entry.");
        }
        other => panic!("{other:?}"),
    }
    match ui_effect(UiTask::FetchTodayLogResult(Ok(None))) {
        UiEffect::LogEditor { text, status } => {
            assert_eq!(text, "");
            assert_eq!(status, "No daily log yet for today.");
        }
        other => panic!("{other:?}"),
    }
    match ui_effect(UiTask::FetchTodayLogResult(Err("x".to_string()))) {
        UiEffect::LogStatus(s) => assert_eq!(s, "Failed to load log: x"),
        other => panic!("{other:?}"),
    }
    match ui_effect(UiTask::SaveTodayLogResult(Ok(op(true, "Daily log saved.")))) {
        UiEffect::LogStatus(s) => assert_eq!(s, "Daily log saved."),
        other => panic!("{other:?}"),
    }
    match ui_effect(UiTask::SaveTodayLogResult(Err("x".to_string()))) {
        UiEffect::LogStatus(s) => assert_eq!(s, "Save failed: x"),
        other => panic!("{other:?}"),
    }
    match ui_effect(UiTask::BackupStatusResult(Ok(op(true, "Manual backup completed.")))) {
        UiEffect::Status(s) => assert_eq!(s, "Manual backup completed."),
        other => panic!("{other:?}"),
    }
    match ui_effect(UiTask::BackupStatusResult(Err("x".to_string()))) {
        UiEffect::Status(s) => assert_eq!(s, "Backup error: x"),
        other => panic!("{other:?}"),
    }
}
