//! What the interface does with each result sent by the workers, and the
//! request it sends to reload the companies.
use vstd::prelude::*;
use crate::tasks::{CompanyDetails, CompanyRow, FetchCompaniesReq, UiTask};
use crate::text::{decimal, decimal_string};

verus! {

/// The number of companies asked for when the whole list is reloaded.
pub const FETCH_ALL_LIMIT: u32 = 2_000_000;

/// The request that reloads every company for `search`, from the start.
pub fn fetch_all_request(search: String) -> (r: FetchCompaniesReq)
    ensures
        r.search == search,
        r.offset == 0,
        r.limit == FETCH_ALL_LIMIT,
{
    FetchCompaniesReq { search, offset: 0, limit: FETCH_ALL_LIMIT }
}

/// What the interface does with one worker result.
#[derive(Debug)]
pub enum UiEffect {
    /// Load `rows` into the companies list (filtered by the current search)
    /// and report `status`.
    ShowCompanies { rows: Vec<CompanyRow>, status: String },
    /// Fill the open detail window of `company_id` with `details`.
    ShowDetails { company_id: i64, details: CompanyDetails },
    /// Report a status message.
    Status(String),
    /// Report a status message and reload the companies.
    StatusAndRefresh(String),
    /// Put `text` in the daily log editor and show `status` under it.
    LogEditor { text: String, status: String },
    /// Show a status under the daily log editor.
    LogStatus(String),
}

/// The status logged after companies arrive: `Loaded N companies (T total).`,
/// with both counts in plain decimal digits.
pub open spec fn loaded_status(shown: nat, total: nat) -> Seq<char> {
    "Loaded "@ + decimal(shown) + " companies ("@ + decimal(total) + " total)."@
}

/// `e` is a status report with the text `msg`.
pub open spec fn reports(e: UiEffect, msg: Seq<char>) -> bool {
    e matches UiEffect::Status(s) && s@ == msg
}

/// `e` is a status report with the text `msg`, followed by a reload.
pub open spec fn reports_and_reloads(e: UiEffect, msg: Seq<char>) -> bool {
    e matches UiEffect::StatusAndRefresh(s) && s@ == msg
}

/// `e` is a status under the daily log editor with the text `msg`.
pub open spec fn log_reports(e: UiEffect, msg: Seq<char>) -> bool {
    e matches UiEffect::LogStatus(s) && s@ == msg
}

/// The effect of a worker result: successes show their data or message
/// (a write's answer also reloads the list), failures are reported with a
/// prefix naming what failed.
pub open spec fn effect_of(task: UiTask, e: UiEffect) -> bool {
    match task {
        UiTask::FetchCompaniesResult(Ok(data)) => e matches UiEffect::ShowCompanies { rows, status }
            && rows == data.rows && status@ == loaded_status(data.rows@.len(), data.total as nat),
        UiTask::FetchCompaniesResult(Err(err)) => reports(e, "Failed to fetch companies: "@ + err@),
        UiTask::FetchCompanyDetailsResult(id, Ok(details)) => e == UiEffect::ShowDetails {
            company_id: id,
            details,
        },
        UiTask::FetchCompanyDetailsResult(_, Err(err)) => reports(e, "Failed to load details: "@ + err@),
        UiTask::InsertCompanyResult(Ok(op)) => reports_and_reloads(e, op.message@),
        UiTask::InsertCompanyResult(Err(err)) => reports(e, "Insert failed: "@ + err@),
        UiTask::UpdateCompanyResult(Ok(op)) => reports_and_reloads(e, op.message@),
        UiTask::UpdateCompanyResult(Err(err)) => reports(e, "Update failed: "@ + err@),
        UiTask::DeleteCompanyResult(Ok(op)) => reports_and_reloads(e, op.message@),
        UiTask::DeleteCompanyResult(Err(err)) => reports(e, "Delete failed: "@ + err@),
        UiTask::FetchTodayLogResult(Ok(Some(entry))) => e matches UiEffect::LogEditor { text, status }
            && text == entry.entry && status@ == "Loaded today's log entry."@,
        UiTask::FetchTodayLogResult(Ok(None)) => e matches UiEffect::LogEditor { text, status }
            && text@.len() == 0 && status@ == "No daily log yet for today."@,
        UiTask::FetchTodayLogResult(Err(err)) => log_reports(e, "Failed to load log: "@ + err@),
        UiTask::SaveTodayLogResult(Ok(op)) => log_reports(e, op.message@),
        UiTask::SaveTodayLogResult(Err(err)) => log_reports(e, "Save failed: "@ + err@),
        UiTask::BackupStatusResult(Ok(op)) => reports(e, op.message@),
        UiTask::BackupStatusResult(Err(err)) => reports(e, "Backup error: "@ + err@),
    }
}

fn prefixed(prefix: &str, err: String) -> (s: String)
    ensures
        s@ == prefix@ + err@,
{
    let mut s = String::from_str(prefix);
    s.append(err.as_str());
    s
}

/// What the interface does with the worker result `task`.
pub fn ui_effect(task: UiTask) -> (e: UiEffect)
    ensures
        effect_of(task, e),
{
    match task {
        UiTask::FetchCompaniesResult(Ok(data)) => {
            let mut status = String::from_str("Loaded ");
            status.append(decimal_string(data.rows.len() as u64).as_str());
            status.append(" companies (");
            status.append(decimal_string(data.total as u64).as_str());
            status.append(" total).");
            UiEffect::ShowCompanies { rows: data.rows, status }
        },
        UiTask::FetchCompaniesResult(Err(err)) => UiEffect::Status(
            prefixed("Failed to fetch companies: ", err),
        ),
        UiTask::FetchCompanyDetailsResult(company_id, Ok(details)) => UiEffect::ShowDetails {
            company_id,
            details,
        },
        UiTask::FetchCompanyDetailsResult(_, Err(err)) => UiEffect::Status(
            prefixed("Failed to load details: ", err),
        ),
        UiTask::InsertCompanyResult(Ok(op)) => UiEffect::StatusAndRefresh(op.message),
        UiTask::InsertCompanyResult(Err(err)) => UiEffect::Status(prefixed("Insert failed: ", err)),
        UiTask::UpdateCompanyResult(Ok(op)) => UiEffect::StatusAndRefresh(op.message),
        UiTask::UpdateCompanyResult(Err(err)) => UiEffect::Status(prefixed("Update failed: ", err)),
        UiTask::DeleteCompanyResult(Ok(op)) => UiEffect::StatusAndRefresh(op.message),
        UiTask::DeleteCompanyResult(Err(err)) => UiEffect::Status(prefixed("Delete failed: ", err)),
        UiTask::FetchTodayLogResult(Ok(Some(entry))) => UiEffect::LogEditor {
            text: entry.entry,
            status: String::from_str("Loaded today's log entry."),
        },
        UiTask::FetchTodayLogResult(Ok(None)) => UiEffect::LogEditor {
            text: String::new(),
            status: String::from_str("No daily log yet for today."),
        },
        UiTask::FetchTodayLogResult(Err(err)) => UiEffect::LogStatus(
            prefixed("Failed to load log: ", err),
        ),
        UiTask::SaveTodayLogResult(Ok(op)) => UiEffect::LogStatus(op.message),
        UiTask::SaveTodayLogResult(Err(err)) => UiEffect::LogStatus(prefixed("Save failed: ", err)),
        UiTask::BackupStatusResult(Ok(op)) => UiEffect::Status(op.message),
        UiTask::BackupStatusResult(Err(err)) => UiEffect::Status(prefixed("Backup error: ", err)),
    }
}

} // verus!
