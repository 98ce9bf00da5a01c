//! The messages exchanged between the interface and the workers.
use vstd::prelude::*;

verus! {

/// One company as listed in the companies tab.
#[derive(Debug)]
pub struct CompanyRow {
    pub id: i64,
    pub name: String,
}

impl Clone for CompanyRow {
    fn clone(&self) -> (r: Self)
        ensures
            r == *self,
    {
        CompanyRow { id: self.id, name: self.name.clone() }
    }
}

/// A request for one page of companies matching a search text.
#[derive(Debug, Clone)]
pub struct FetchCompaniesReq {
    pub search: String,
    pub offset: u32,
    pub limit: u32,
}

/// One page of companies and the number of all matches.
#[derive(Debug, Clone)]
pub struct FetchCompaniesResult {
    pub rows: Vec<CompanyRow>,
    pub total: u32,
}

/// A request to create a company, with an optional county and contact.
#[derive(Debug, Clone)]
pub struct InsertCompanyReq {
    pub name: String,
    pub county: String,
    pub contact_first: String,
    pub contact_last: String,
}

/// A request to rename a company and replace its county and contact.
#[derive(Debug, Clone)]
pub struct UpdateCompanyReq {
    pub id: i64,
    pub new_name: String,
    pub county: String,
    pub contact_first: String,
    pub contact_last: String,
}

/// Everything the detail window shows of one company.
#[derive(Debug, Clone)]
pub struct CompanyDetails {
    pub id: i64,
    pub name: String,
    pub county: String,
    pub contact_first: String,
    pub contact_last: String,
}

/// The answer to a write request: whether it took effect, and a message
/// for the user.
#[derive(Debug, Clone)]
pub struct OperationResult {
    pub success: bool,
    pub message: String,
}

/// The daily log entry of one date.
#[derive(Debug, Clone)]
pub struct DailyLogEntry {
    pub log_date: String,
    pub entry: String,
    pub created_at: String,
}

/// A result sent by a worker to the interface.
#[derive(Debug)]
pub enum UiTask {
    FetchCompaniesResult(Result<FetchCompaniesResult, String>),
    FetchCompanyDetailsResult(i64, Result<CompanyDetails, String>),
    InsertCompanyResult(Result<OperationResult, String>),
    UpdateCompanyResult(Result<OperationResult, String>),
    DeleteCompanyResult(Result<OperationResult, String>),
    FetchTodayLogResult(Result<Option<DailyLogEntry>, String>),
    SaveTodayLogResult(Result<OperationResult, String>),
    BackupStatusResult(Result<OperationResult, String>),
}

/// A request sent by the interface to the database worker.
#[derive(Debug)]
pub enum DbTask {
    FetchCompanies(FetchCompaniesReq),
    FetchCompanyDetails(i64),
    InsertCompany(InsertCompanyReq),
    UpdateCompany(UpdateCompanyReq),
    DeleteCompany(i64),
    FetchTodayLog,
    SaveTodayLog(String),
    RequestBackup,
    Shutdown,
}

} // verus!
