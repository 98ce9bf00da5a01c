//! What the database worker decides: the parameters of a company search,
//! the details assembled from two lookups, the statements of each write
//! request in their transaction, and the answer returned for each request.
//! The connection itself is driven by the caller, one statement at a time.
use vstd::prelude::*;
use crate::tasks::{
    CompanyDetails, DbTask, FetchCompaniesReq, InsertCompanyReq, OperationResult, UiTask,
    UpdateCompanyReq,
};
use crate::text::{trim, trimmed, contains_text, has_infix};
use crate::backend::fts::{build_fts_query, fts_query};
use crate::backend::backup_worker::BackupCommand;
use crate::policies::{LoggingPolicy, RetryPolicy};
use crossbeam::channel::Sender;
use std::path::PathBuf;
use std::sync::Arc;

verus! {

/// Serves the database requests of the interface on one connection, and
/// passes backup requests on to the backup worker.
pub struct DbWorker<L: LoggingPolicy, R: RetryPolicy> {
    db_path: PathBuf,
    logger: Arc<L>,
    retry_policy: Arc<R>,
    backup_tx: Sender<BackupCommand>,
}

impl<L: LoggingPolicy, R: RetryPolicy> DbWorker<L, R> {
    /// The database file.
    pub closed spec fn path(self) -> PathBuf {
        self.db_path
    }

    /// The logging policy.
    pub closed spec fn log_policy(self) -> Arc<L> {
        self.logger
    }

    /// The retry policy for opening the database.
    pub closed spec fn retry(self) -> Arc<R> {
        self.retry_policy
    }

    /// Where backup requests are sent.
    pub closed spec fn backups(self) -> Sender<BackupCommand> {
        self.backup_tx
    }

    /// A worker for the database at `db_path`.
    pub fn new(
        db_path: PathBuf,
        logger: Arc<L>,
        retry_policy: Arc<R>,
        backup_tx: Sender<BackupCommand>,
    ) -> (w: Self)
        ensures
            w.path() == db_path,
            w.log_policy() == logger,
            w.retry() == retry_policy,
            w.backups() == backup_tx,
    {
        DbWorker { db_path, logger, retry_policy, backup_tx }
    }

    /// The database file.
    pub fn db_path(&self) -> (p: &PathBuf)
        ensures
            *p == self.path(),
    {
        &self.db_path
    }

    /// The logging policy.
    pub fn logger(&self) -> (l: &Arc<L>)
        ensures
            *l == self.log_policy(),
    {
        &self.logger
    }

    /// The retry policy for opening the database.
    pub fn retry_policy(&self) -> (r: &Arc<R>)
        ensures
            *r == self.retry(),
    {
        &self.retry_policy
    }

    /// Where backup requests are sent.
    pub fn backup_tx(&self) -> (t: &Sender<BackupCommand>)
        ensures
            *t == self.backups(),
    {
        &self.backup_tx
    }
}

/// The parameters of one company search.
#[derive(Debug)]
pub struct FetchPlan {
    /// The search text without surrounding white space.
    pub search: String,
    /// The full-text query for the search text.
    pub fts_query: String,
    pub limit: i64,
    pub offset: i64,
}

/// `p` holds the search parameters for the page request `req`: the trimmed
/// search text, its full-text query, and the page bounds.
pub open spec fn plans_fetch(req: FetchCompaniesReq, p: FetchPlan) -> bool {
    &&& p.search@ == trimmed(req.search@)
    &&& p.fts_query@ == fts_query(trimmed(req.search@))
    &&& p.limit == req.limit as i64
    &&& p.offset == req.offset as i64
}

/// The search parameters for a page request: the trimmed search text, its
/// full-text query, and the page bounds.
pub fn plan_fetch(req: &FetchCompaniesReq) -> (p: FetchPlan)
    ensures
        plans_fetch(*req, p),
{
    let search = trim(req.search.as_str());
    let fts = build_fts_query(search.as_str());
    FetchPlan { search, fts_query: fts, limit: req.limit as i64, offset: req.offset as i64 }
}

/// The details of a company from its row (name and optional county name)
/// and its first contact (first name and optional last name), if any.
/// Missing values are shown as empty text.
pub fn assemble_details(
    company_id: i64,
    name: String,
    county: Option<String>,
    contact: Option<(String, Option<String>)>,
) -> (d: CompanyDetails)
    ensures
        d.id == company_id,
        d.name == name,
        d.county@ == (match county {
            Some(c) => c@,
            None => Seq::<char>::empty(),
        }),
        d.contact_first@ == (match contact {
            Some(c) => c.0@,
            None => Seq::<char>::empty(),
        }),
        d.contact_last@ == (match contact {
            Some(c) => match c.1 {
                Some(l) => l@,
                None => Seq::<char>::empty(),
            },
            None => Seq::<char>::empty(),
        }),
{
    let county = match county {
        Some(c) => c,
        None => String::new(),
    };
    let (contact_first, contact_last) = match contact {
        Some((first, last)) => (first, match last {
            Some(l) => l,
            None => String::new(),
        }),
        None => (String::new(), String::new()),
    };
    CompanyDetails { id: company_id, name, county, contact_first, contact_last }
}

/// One statement, or short group of statements, run on the connection.
#[derive(Debug)]
pub enum DbOp {
    /// `BEGIN IMMEDIATE;`
    Begin,
    /// Inserts the county if it is new, then reads its id.
    EnsureCounty { name: String },
    /// Inserts a company; the outcome is the new row id.
    InsertCompany { name: String, county_id: Option<i64> },
    /// Renames a company and sets its county; the outcome is the number of
    /// rows changed.
    UpdateCompany { id: i64, name: String, county_id: Option<i64> },
    /// Removes every contact link of a company.
    ClearContacts { company_id: i64 },
    /// Inserts a contact; the outcome is the new row id.
    InsertContact { first: String, last: Option<String> },
    /// Links a contact to a company.
    LinkContact { company_id: i64, contact_id: i64 },
    /// Removes the activities of a company.
    DeleteActivities { company_id: i64 },
    /// Removes a company; the outcome is the number of rows removed.
    DeleteCompany { company_id: i64 },
    /// `COMMIT;`
    Commit,
    /// `ROLLBACK;` (its own outcome is not looked at).
    Rollback,
    /// Inserts or replaces the daily log entry of a date.
    UpsertDailyLog { log_date: String, entry: String, created_at: String },
}

/// What a request asks of its caller next: run a statement and report its
/// outcome, or take the final answer.
#[derive(Debug)]
pub enum FlowStep {
    Run(DbOp),
    Finish(Result<OperationResult, String>),
}

/// Which write a company request performs.
#[derive(Debug, Clone, Copy, PartialEq, Eq, Structural)]
pub enum WriteKind {
    Insert,
    Update,
    Delete,
}

/// Where a company write stands: the statement whose outcome it awaits.
#[derive(Debug, Clone, Copy, PartialEq, Eq, Structural)]
pub enum Stage {
    Beginning,
    EnsuringCounty,
    WritingCompany,
    ClearingContacts,
    AddingContact,
    LinkingContact,
    DeletingActivities,
    DeletingCompany,
    Committing,
    RollingBack,
    Finished,
}

/// A company insert, update or delete in progress.
#[derive(Debug)]
pub struct CompanyWrite {
    /// The kind of write.
    pub kind: WriteKind,
    /// The company concerned (for an insert, known once the row exists).
    pub company_id: i64,
    /// The company name, without surrounding white space.
    pub name: String,
    /// The county name, without surrounding white space.
    pub county: String,
    /// The first name of the contact, without surrounding white space.
    pub first: String,
    /// The last name of the contact, without surrounding white space.
    pub last: String,
    /// The county id, once known.
    pub county_id: Option<i64>,
    /// The statement whose outcome is awaited.
    pub stage: Stage,
    /// The answer to give once the rollback is done.
    pub pending: Option<Result<OperationResult, String>>,
}

/// `r` is an answer with the given success flag and message.
pub open spec fn answers(r: Result<OperationResult, String>, success: bool, msg: Seq<char>) -> bool {
    r matches Ok(op) && op.success == success && op.message@ == msg
}

/// The answer given when the company name is blank.
pub open spec fn name_required_msg() -> Seq<char> {
    "Company name is required."@
}

/// The answer given when the company does not exist.
pub open spec fn not_found_msg() -> Seq<char> {
    "Company not found."@
}

/// The answer given when the name is taken.
pub open spec fn exists_msg(name: Seq<char>) -> Seq<char> {
    "Company '"@ + name + "' already exists."@
}

/// The answer given for any other failed insert or update of the company row.
pub open spec fn write_error_msg(e: Seq<char>) -> Seq<char> {
    "Error: "@ + e
}

/// The answer given when a write took effect.
pub open spec fn success_msg(kind: WriteKind, name: Seq<char>) -> Seq<char> {
    match kind {
        WriteKind::Insert => "Company '"@ + name + "' created."@,
        WriteKind::Update => "Company updated."@,
        WriteKind::Delete => "Company deleted."@,
    }
}

/// Stages in which a transaction is open: `BEGIN` succeeded and neither
/// `COMMIT` nor `ROLLBACK` has been issued.
pub open spec fn in_transaction(s: Stage) -> bool {
    match s {
        Stage::EnsuringCounty | Stage::WritingCompany | Stage::ClearingContacts
        | Stage::AddingContact | Stage::LinkingContact | Stage::DeletingActivities
        | Stage::DeletingCompany => true,
        _ => false,
    }
}

/// Statements that change data.
pub open spec fn is_write(op: DbOp) -> bool {
    !(op is Begin || op is Commit || op is Rollback)
}

/// The greatest number of statements still to come from a stage.
pub open spec fn remaining(s: Stage) -> nat {
    match s {
        Stage::Beginning => 7,
        Stage::EnsuringCounty => 6,
        Stage::WritingCompany => 5,
        Stage::ClearingContacts => 4,
        Stage::DeletingActivities => 3,
        Stage::AddingContact => 3,
        Stage::DeletingCompany => 2,
        Stage::LinkingContact => 2,
        Stage::Committing => 1,
        Stage::RollingBack => 1,
        Stage::Finished => 0,
    }
}

impl CompanyWrite {







    /// The statement that writes the company row, for an insert or update.
    pub open spec fn row_write(self, county_id: Option<i64>) -> DbOp {
        match self.kind {
            WriteKind::Insert => DbOp::InsertCompany { name: self.name, county_id },
            _ => DbOp::UpdateCompany { id: self.company_id, name: self.name, county_id },
        }
    }

    /// The contact statement run after the links were cleared, if any.
    pub open spec fn contact_insert(self) -> Option<DbOp> {
        if self.first@.len() == 0 && self.last@.len() == 0 {
            None
        } else if self.last@.len() == 0 {
            Some(DbOp::InsertContact { first: self.first, last: None })
        } else {
            Some(DbOp::InsertContact { first: self.first, last: Some(self.last) })
        }
    }

    /// `w2` is `self` moved to `stage`, all else kept.
    pub open spec fn moved(self, w2: Self, stage: Stage) -> bool {
        w2 == CompanyWrite { stage, ..self }
    }

    /// `w2` rolls back `self`, keeping an answer for afterwards.
    pub open spec fn rolls_back(self, w2: Self, step: FlowStep) -> bool {
        &&& w2 == CompanyWrite { stage: Stage::RollingBack, pending: w2.pending, ..self }
        &&& w2.pending is Some
        &&& step == FlowStep::Run(DbOp::Rollback)
    }

    /// A write that is rolling back holds the answer it will give.
    pub open spec fn wf(self) -> bool {
        &&& self.stage == Stage::RollingBack ==> self.pending is Some
        &&& self.pending matches Some(Ok(op)) ==> !op.success
    }


    /// The effect of the outcome `o` of the awaited statement: the write
    /// moves from `self` to `w2` and asks for `step`.
    pub open spec fn advance(self, o: Result<i64, String>, w2: Self, step: FlowStep) -> bool {
        match self.stage {
            Stage::Beginning => match o {
                Err(e) => self.moved(w2, Stage::Finished) && step == FlowStep::Finish(Err(e)),
                Ok(_) => if self.kind == WriteKind::Delete {
                    self.moved(w2, Stage::ClearingContacts)
                        && step == FlowStep::Run(DbOp::ClearContacts { company_id: self.company_id })
                } else if self.county@.len() > 0 {
                    self.moved(w2, Stage::EnsuringCounty)
                        && step == FlowStep::Run(DbOp::EnsureCounty { name: self.county })
                } else {
                    self.moved(w2, Stage::WritingCompany) && step == FlowStep::Run(self.row_write(None))
                },
            },
            Stage::EnsuringCounty => match o {
                Err(e) => self.rolls_back(w2, step) && w2.pending == Some(Err::<OperationResult, String>(e)),
                Ok(cid) => w2 == CompanyWrite { stage: Stage::WritingCompany, county_id: Some(cid), ..self }
                    && step == FlowStep::Run(self.row_write(Some(cid))),
            },
            Stage::WritingCompany => match o {
                Err(e) => self.rolls_back(w2, step) && answers(w2.pending.unwrap(), false,
                    if has_infix(e@, "UNIQUE"@) { exists_msg(self.name@) } else { write_error_msg(e@) }),
                Ok(n) => if self.kind == WriteKind::Insert {
                    w2 == CompanyWrite { stage: Stage::ClearingContacts, company_id: n, ..self }
                        && step == FlowStep::Run(DbOp::ClearContacts { company_id: n })
                } else if n == 0 {
                    self.rolls_back(w2, step) && answers(w2.pending.unwrap(), false, not_found_msg())
                } else {
                    self.moved(w2, Stage::ClearingContacts)
                        && step == FlowStep::Run(DbOp::ClearContacts { company_id: self.company_id })
                },
            },
            Stage::ClearingContacts => match o {
                Err(e) => self.rolls_back(w2, step) && w2.pending == Some(Err::<OperationResult, String>(e)),
                Ok(_) => if self.kind == WriteKind::Delete {
                    self.moved(w2, Stage::DeletingActivities)
                        && step == FlowStep::Run(DbOp::DeleteActivities { company_id: self.company_id })
                } else {
                    match self.contact_insert() {
                        None => self.moved(w2, Stage::Committing) && step == FlowStep::Run(DbOp::Commit),
                        Some(op) => self.moved(w2, Stage::AddingContact) && step == FlowStep::Run(op),
                    }
                },
            },
            Stage::AddingContact => match o {
                Err(e) => self.rolls_back(w2, step) && w2.pending == Some(Err::<OperationResult, String>(e)),
                Ok(contact_id) => self.moved(w2, Stage::LinkingContact)
                    && step == FlowStep::Run(DbOp::LinkContact { company_id: self.company_id, contact_id }),
            },
            Stage::LinkingContact => match o {
                Err(e) => self.rolls_back(w2, step) && w2.pending == Some(Err::<OperationResult, String>(e)),
                Ok(_) => self.moved(w2, Stage::Committing) && step == FlowStep::Run(DbOp::Commit),
            },
            Stage::DeletingActivities => match o {
                Err(e) => self.rolls_back(w2, step) && w2.pending == Some(Err::<OperationResult, String>(e)),
                Ok(_) => self.moved(w2, Stage::DeletingCompany)
                    && step == FlowStep::Run(DbOp::DeleteCompany { company_id: self.company_id }),
            },
            Stage::DeletingCompany => match o {
                Err(e) => self.rolls_back(w2, step) && w2.pending == Some(Err::<OperationResult, String>(e)),
                Ok(n) => if n == 0 {
                    self.rolls_back(w2, step) && answers(w2.pending.unwrap(), false, not_found_msg())
                } else {
                    self.moved(w2, Stage::Committing) && step == FlowStep::Run(DbOp::Commit)
                },
            },
            Stage::Committing => match o {
                Err(e) => self.moved(w2, Stage::Finished) && step == FlowStep::Finish(Err(e)),
                Ok(_) => self.moved(w2, Stage::Finished) && (step matches FlowStep::Finish(r)
                    && answers(r, true, success_msg(self.kind, self.name@))),
            },
            Stage::RollingBack => w2 == CompanyWrite { stage: Stage::Finished, pending: None, ..self }
                && step == FlowStep::Finish(self.pending.unwrap()),
            Stage::Finished => false,
        }
    }

    /// Starts a write of the company row (insert or update): with a blank
    /// name it answers at once, without touching the database; otherwise it
    /// begins a transaction.
    pub open spec fn opens(self, step: FlowStep) -> bool {
        if self.name@.len() == 0 {
            self.stage == Stage::Finished && (step matches FlowStep::Finish(r)
                && answers(r, false, name_required_msg()))
        } else {
            self.stage == Stage::Beginning && step == FlowStep::Run(DbOp::Begin)
        }
    }

    fn start(kind: WriteKind, company_id: i64, name: &String, county: &String, first: &String, last: &String)
        -> (r: (Self, FlowStep))
        ensures
            r.0.kind == kind,
            r.0.company_id == company_id,
            r.0.name@ == trimmed(name@),
            r.0.county@ == trimmed(county@),
            r.0.first@ == trimmed(first@),
            r.0.last@ == trimmed(last@),
            r.0.county_id is None,
            r.0.pending is None,
            r.0.wf(),
            r.0.opens(r.1),
    {
        let name = trim(name.as_str());
        let w = CompanyWrite {
            kind,
            company_id,
            county: trim(county.as_str()),
            first: trim(first.as_str()),
            last: trim(last.as_str()),
            county_id: None,
            stage: Stage::Beginning,
            pending: None,
            name,
        };
        if w.name.as_str().is_empty() {
            proof { assert(w.name@.len() == 0); }
            let w = CompanyWrite { stage: Stage::Finished, ..w };
            let msg = String::from_str("Company name is required.");
            (w, FlowStep::Finish(Ok(OperationResult { success: false, message: msg })))
        } else {
            (w, FlowStep::Run(DbOp::Begin))
        }
    }

    /// `self` and `step` start inserting the company of `req`: the names are
    /// taken without surrounding white space, and a blank company name is
    /// answered at once.
    pub open spec fn starts_insert(self, req: InsertCompanyReq, step: FlowStep) -> bool {
        &&& self.kind == WriteKind::Insert
        &&& self.county_id is None
        &&& self.name@ == trimmed(req.name@)
        &&& self.county@ == trimmed(req.county@)
        &&& self.first@ == trimmed(req.contact_first@)
        &&& self.last@ == trimmed(req.contact_last@)
        &&& self.pending is None
        &&& self.wf()
        &&& self.opens(step)
    }

    /// `self` and `step` start updating company `req.id` as `req` asks: the
    /// names are taken without surrounding white space, and a blank company
    /// name is answered at once.
    pub open spec fn starts_update(self, req: UpdateCompanyReq, step: FlowStep) -> bool {
        &&& self.kind == WriteKind::Update
        &&& self.county_id is None
        &&& self.company_id == req.id
        &&& self.name@ == trimmed(req.new_name@)
        &&& self.county@ == trimmed(req.county@)
        &&& self.first@ == trimmed(req.contact_first@)
        &&& self.last@ == trimmed(req.contact_last@)
        &&& self.pending is None
        &&& self.wf()
        &&& self.opens(step)
    }

    /// `self` and `step` start deleting company `company_id`: the first
    /// statement begins a transaction.
    pub open spec fn starts_delete(self, company_id: i64, step: FlowStep) -> bool {
        &&& self.kind == WriteKind::Delete
        &&& self.company_id == company_id
        &&& self.stage == Stage::Beginning
        &&& self.pending is None
        &&& self.wf()
        &&& step == FlowStep::Run(DbOp::Begin)
    }

    /// Starts inserting the company of `req`. The name, county and contact
    /// names are taken without surrounding white space.
    pub fn insert(req: &InsertCompanyReq) -> (r: (Self, FlowStep))
        ensures
        r.0.starts_insert(*req, r.1),
    {
        Self::start(WriteKind::Insert, 0, &req.name, &req.county, &req.contact_first, &req.contact_last)
    }

    /// Starts updating company `req.id` as `req` asks. The name, county and
    /// contact names are taken without surrounding white space.
    pub fn update(req: &UpdateCompanyReq) -> (r: (Self, FlowStep))
        ensures
        r.0.starts_update(*req, r.1),
    {
        Self::start(WriteKind::Update, req.id, &req.new_name, &req.county, &req.contact_first, &req.contact_last)
    }

    /// Starts deleting company `company_id` with its contact links and
    /// activities: the first statement begins a transaction.
    pub fn delete(company_id: i64) -> (r: (Self, FlowStep))
        ensures
        r.0.starts_delete(company_id, r.1),
    {
        let w = CompanyWrite {
            kind: WriteKind::Delete,
            company_id,
            name: String::new(),
            county: String::new(),
            first: String::new(),
            last: String::new(),
            county_id: None,
            stage: Stage::Beginning,
            pending: None,
        };
        (w, FlowStep::Run(DbOp::Begin))
    }

    /// Whether the write has given its answer.
    pub fn is_finished(&self) -> (b: bool)
        ensures
            b == (self.stage == Stage::Finished),
    {
        match self.stage {
            Stage::Finished => true,
            _ => false,
        }
    }

    fn roll_back(&mut self, answer: Result<OperationResult, String>) -> (step: FlowStep)
        ensures
            *final(self) == (CompanyWrite { stage: Stage::RollingBack, pending: Some(answer), ..*old(self) }),
            step == FlowStep::Run(DbOp::Rollback),
    {
        self.stage = Stage::RollingBack;
        self.pending = Some(answer);
        FlowStep::Run(DbOp::Rollback)
    }

    fn row_write_op(&self, county_id: Option<i64>) -> (op: DbOp)
        ensures
            op == self.row_write(county_id),
    {
        match self.kind {
            WriteKind::Insert => DbOp::InsertCompany { name: self.name.clone(), county_id },
            _ => DbOp::UpdateCompany { id: self.company_id, name: self.name.clone(), county_id },
        }
    }

    /// Takes the outcome of the awaited statement (a row id or row count, or
    /// the error text) and returns what comes next.
    pub fn next(&mut self, outcome: Result<i64, String>) -> (step: FlowStep)
        requires
            old(self).wf(),
            old(self).stage != Stage::Finished,
        ensures
            final(self).wf(),
            old(self).advance(outcome, *final(self), step),
    {
        match self.stage {
            Stage::Beginning => match outcome {
                Err(e) => {
                    self.stage = Stage::Finished;
                    FlowStep::Finish(Err(e))
                },
                Ok(_) => {
                    if self.kind == WriteKind::Delete {
                        self.stage = Stage::ClearingContacts;
                        FlowStep::Run(DbOp::ClearContacts { company_id: self.company_id })
                    } else if !self.county.as_str().is_empty() {
                        self.stage = Stage::EnsuringCounty;
                        FlowStep::Run(DbOp::EnsureCounty { name: self.county.clone() })
                    } else {
                        self.stage = Stage::WritingCompany;
                        self.row_write_op(None).into_step()
                    }
                },
            },
            Stage::EnsuringCounty => match outcome {
                Err(e) => self.roll_back(Err(e)),
                Ok(cid) => {
                    self.stage = Stage::WritingCompany;
                    self.county_id = Some(cid);
                    self.row_write_op(Some(cid)).into_step()
                },
            },
            Stage::WritingCompany => match outcome {
                Err(e) => {
                    let taken = contains_text(e.as_str(), "UNIQUE");
                    let message = if taken {
                        let mut m = String::from_str("Company '");
                        m.append(self.name.as_str());
                        m.append("' already exists.");
                        m
                    } else {
                        let mut m = String::from_str("Error: ");
                        m.append(e.as_str());
                        m
                    };
                    self.roll_back(Ok(OperationResult { success: false, message }))
                },
                Ok(n) => {
                    if self.kind == WriteKind::Insert {
                        self.stage = Stage::ClearingContacts;
                        self.company_id = n;
                        FlowStep::Run(DbOp::ClearContacts { company_id: n })
                    } else if n == 0 {
                        let message = String::from_str("Company not found.");
                        self.roll_back(Ok(OperationResult { success: false, message }))
                    } else {
                        self.stage = Stage::ClearingContacts;
                        FlowStep::Run(DbOp::ClearContacts { company_id: self.company_id })
                    }
                },
            },
            Stage::ClearingContacts => match outcome {
                Err(e) => self.roll_back(Err(e)),
                Ok(_) => {
                    if self.kind == WriteKind::Delete {
                        self.stage = Stage::DeletingActivities;
                        FlowStep::Run(DbOp::DeleteActivities { company_id: self.company_id })
                    } else if self.first.as_str().is_empty() && self.last.as_str().is_empty() {
                        self.stage = Stage::Committing;
                        FlowStep::Run(DbOp::Commit)
                    } else {
                        self.stage = Stage::AddingContact;
                        let last = if self.last.as_str().is_empty() {
                            None
                        } else {
                            Some(self.last.clone())
                        };
                        FlowStep::Run(DbOp::InsertContact { first: self.first.clone(), last })
                    }
                },
            },
            Stage::AddingContact => match outcome {
                Err(e) => self.roll_back(Err(e)),
                Ok(contact_id) => {
                    self.stage = Stage::LinkingContact;
                    FlowStep::Run(DbOp::LinkContact { company_id: self.company_id, contact_id })
                },
            },
            Stage::LinkingContact => match outcome {
                Err(e) => self.roll_back(Err(e)),
                Ok(_) => {
                    self.stage = Stage::Committing;
                    FlowStep::Run(DbOp::Commit)
                },
            },
            Stage::DeletingActivities => match outcome {
                Err(e) => self.roll_back(Err(e)),
                Ok(_) => {
                    self.stage = Stage::DeletingCompany;
                    FlowStep::Run(DbOp::DeleteCompany { company_id: self.company_id })
                },
            },
            Stage::DeletingCompany => match outcome {
                Err(e) => self.roll_back(Err(e)),
                Ok(n) => {
                    if n == 0 {
                        let message = String::from_str("Company not found.");
                        self.roll_back(Ok(OperationResult { success: false, message }))
                    } else {
                        self.stage = Stage::Committing;
                        FlowStep::Run(DbOp::Commit)
                    }
                },
            },
            Stage::Committing => match outcome {
                Err(e) => {
                    self.stage = Stage::Finished;
                    FlowStep::Finish(Err(e))
                },
                Ok(_) => {
                    self.stage = Stage::Finished;
                    let message = match self.kind {
                        WriteKind::Insert => {
                            let mut m = String::from_str("Company '");
                            m.append(self.name.as_str());
                            m.append("' created.");
                            m
                        },
                        WriteKind::Update => String::from_str("Company updated."),
                        WriteKind::Delete => String::from_str("Company deleted."),
                    };
                    FlowStep::Finish(Ok(OperationResult { success: true, message }))
                },
            },
            Stage::RollingBack => {
                self.stage = Stage::Finished;
                let answer = self.pending.take();
                let answer = match answer {
                    Some(a) => a,
                    None => Err(String::new()),
                };
                self.pending = None;
                FlowStep::Finish(answer)
            },
            Stage::Finished => FlowStep::Finish(Err(String::new())),
        }
    }
}

/// The transaction discipline of company writes, for every step of a write
/// in progress:
/// - a statement that changes data is only issued inside the open
///   transaction, and `BEGIN` is never issued again;
/// - while the transaction is open, a failed statement is followed by
///   `ROLLBACK`, so a failed write is never committed;
/// - no answer is given while the transaction is open;
/// - `COMMIT` is only issued after the last write of the transaction
///   succeeded, and a success is only answered after `COMMIT` succeeded;
/// - every step comes closer to the answer, so a write ends after at most
///   seven statements.
pub proof fn lemma_write_transaction_discipline(
    w: CompanyWrite,
    o: Result<i64, String>,
    w2: CompanyWrite,
    step: FlowStep,
)
    requires
        w.wf(),
        w.stage != Stage::Finished,
        w.advance(o, w2, step),
    ensures
        w2.wf(),
        step matches FlowStep::Run(op) && is_write(op) ==> in_transaction(w2.stage),
        step != FlowStep::Run(DbOp::Begin),
        in_transaction(w.stage) && o is Err ==> step == FlowStep::Run(DbOp::Rollback),
        in_transaction(w.stage) ==> step is Run,
        step == FlowStep::Run(DbOp::Commit) ==> in_transaction(w.stage) && o is Ok,
        (step matches FlowStep::Finish(r) && r matches Ok(op) && op.success) ==> (w.stage
            == Stage::Committing && o is Ok),
        step is Finish <==> w2.stage == Stage::Finished,
        remaining(w2.stage) < remaining(w.stage),
        remaining(w.stage) <= 7,
{
}

/// The answer given when the daily log entry is blank.
pub open spec fn empty_entry_msg() -> Seq<char> {
    "Daily log entry cannot be empty."@
}

/// The first step of saving the daily log `entry` for the date `today`,
/// stamped `now`: a blank entry is answered at once; otherwise the entry,
/// without surrounding white space, is written for the date.
pub fn plan_save_log(entry: &str, today: String, now: String) -> (step: FlowStep)
    ensures
        trimmed(entry@).len() == 0 ==> (step matches FlowStep::Finish(r) && answers(
            r,
            false,
            empty_entry_msg(),
        )),
        trimmed(entry@).len() > 0 ==> (step matches FlowStep::Run(
            DbOp::UpsertDailyLog { log_date, entry: e, created_at },
        ) && log_date == today && e@ == trimmed(entry@) && created_at == now),
{
    let clean = trim(entry);
    if clean.as_str().is_empty() {
        let message = String::from_str("Daily log entry cannot be empty.");
        FlowStep::Finish(Ok(OperationResult { success: false, message }))
    } else {
        FlowStep::Run(DbOp::UpsertDailyLog { log_date: today, entry: clean, created_at: now })
    }
}

/// `step` is the first step of saving today's log `entry`: a blank entry is
/// answered at once; otherwise the trimmed entry is written for a date with
/// the date layout, stamped with a date and time with the timestamp layout.
pub open spec fn starts_save_log(entry: Seq<char>, step: FlowStep) -> bool {
    &&& trimmed(entry).len() == 0 ==> (step matches FlowStep::Finish(r) && answers(
        r,
        false,
        empty_entry_msg(),
    ))
    &&& trimmed(entry).len() > 0 ==> (step matches FlowStep::Run(
        DbOp::UpsertDailyLog { log_date, entry: e, created_at },
    ) && e@ == trimmed(entry) && crate::clock::is_date_text(log_date@)
        && crate::clock::is_timestamp_text(created_at@))
}

/// The first step of saving today's log `entry`: a blank entry is answered
/// at once, without reading the clock; otherwise the trimmed entry is
/// written for today's local date, stamped with the current local time
/// (which date and time depends on the clock; both have their layouts).
pub fn save_today_log(entry: &str) -> (step: FlowStep)
    ensures
        starts_save_log(entry@, step),
{
    let clean = trim(entry);
    if clean.as_str().is_empty() {
        plan_save_log(entry, String::new(), String::new())
    } else {
        let today = crate::clock::local_date();
        let now = crate::clock::local_timestamp();
        plan_save_log(entry, today, now)
    }
}

/// The answer to saving the daily log, from the outcome of the upsert.
pub fn save_log_answer(outcome: Result<i64, String>) -> (r: Result<OperationResult, String>)
    ensures
        outcome is Ok ==> answers(r, true, "Daily log saved."@),
        outcome matches Err(e) ==> r == Err::<OperationResult, String>(e),
{
    match outcome {
        Ok(_) => Ok(OperationResult { success: true, message: String::from_str("Daily log saved.") }),
        Err(e) => Err(e),
    }
}

/// Today's local date, `YYYY-MM-DD`: the key of today's log entry. Which
/// date it is depends on the clock; the text has the date layout.
pub fn today_log_date() -> (d: String)
    ensures
        crate::clock::is_date_text(d@),
{
    crate::clock::local_date()
}

/// The answer to a backup request, from whether the request reached the
/// backup worker (or the text of the failure).
pub fn backup_request_answer(sent: Result<(), String>) -> (r: Result<OperationResult, String>)
    ensures
        sent is Ok ==> answers(r, true, "Backup requested."@),
        sent matches Err(e) ==> (r matches Err(m) && m@ == "Failed to request backup: "@ + e@),
{
    match sent {
        Ok(()) => Ok(OperationResult { success: true, message: String::from_str("Backup requested.") }),
        Err(e) => {
            let mut m = String::from_str("Failed to request backup: ");
            m.append(e.as_str());
            Err(m)
        },
    }
}

/// The work that one request of the interface asks of the database worker.
#[derive(Debug)]
pub enum DbJob {
    /// Look up a page of companies with these parameters.
    Fetch(FetchPlan),
    /// Look up the details of a company.
    Details(i64),
    /// Run a company write, starting with its first step.
    Write(CompanyWrite, FlowStep),
    /// Look up the daily log entry of this date.
    TodayLog(String),
    /// Save the daily log, starting with this step.
    SaveLog(FlowStep),
    /// Pass a backup request on to the backup worker.
    RequestBackup,
    /// Stop serving requests.
    Stop,
}

/// The job for each request.
pub open spec fn routes(task: DbTask, job: DbJob) -> bool {
    match task {
        DbTask::FetchCompanies(req) => job matches DbJob::Fetch(p) && plans_fetch(req, p),
        DbTask::FetchCompanyDetails(id) => job == DbJob::Details(id),
        DbTask::InsertCompany(req) => job matches DbJob::Write(w, step) && w.starts_insert(req, step),
        DbTask::UpdateCompany(req) => job matches DbJob::Write(w, step) && w.starts_update(req, step),
        DbTask::DeleteCompany(id) => job matches DbJob::Write(w, step) && w.starts_delete(id, step),
        DbTask::FetchTodayLog => job matches DbJob::TodayLog(d) && crate::clock::is_date_text(d@),
        DbTask::SaveTodayLog(entry) => job matches DbJob::SaveLog(step) && starts_save_log(entry@, step),
        DbTask::RequestBackup => job == DbJob::RequestBackup,
        DbTask::Shutdown => job == DbJob::Stop,
    }
}

/// What the database worker does for the request `task`.
pub fn plan_task(task: DbTask) -> (job: DbJob)
    ensures
        routes(task, job),
{
    match task {
        DbTask::FetchCompanies(req) => DbJob::Fetch(plan_fetch(&req)),
        DbTask::FetchCompanyDetails(id) => DbJob::Details(id),
        DbTask::InsertCompany(req) => {
            let (w, step) = CompanyWrite::insert(&req);
            DbJob::Write(w, step)
        },
        DbTask::UpdateCompany(req) => {
            let (w, step) = CompanyWrite::update(&req);
            DbJob::Write(w, step)
        },
        DbTask::DeleteCompany(id) => {
            let (w, step) = CompanyWrite::delete(id);
            DbJob::Write(w, step)
        },
        DbTask::FetchTodayLog => DbJob::TodayLog(today_log_date()),
        DbTask::SaveTodayLog(entry) => DbJob::SaveLog(save_today_log(entry.as_str())),
        DbTask::RequestBackup => DbJob::RequestBackup,
        DbTask::Shutdown => DbJob::Stop,
    }
}

/// The message that carries the answer of a company write of `kind` back to
/// the interface.
pub fn write_reply(kind: WriteKind, answer: Result<OperationResult, String>) -> (t: UiTask)
    ensures
        t == (match kind {
            WriteKind::Insert => UiTask::InsertCompanyResult(answer),
            WriteKind::Update => UiTask::UpdateCompanyResult(answer),
            WriteKind::Delete => UiTask::DeleteCompanyResult(answer),
        }),
{
    match kind {
        WriteKind::Insert => UiTask::InsertCompanyResult(answer),
        WriteKind::Update => UiTask::UpdateCompanyResult(answer),
        WriteKind::Delete => UiTask::DeleteCompanyResult(answer),
    }
}

/// Once the county statement of a company write answers with the county id
/// `c`, the next statement writes the company row with county `Some(c)`:
/// for an insert, a new row with the write's name; for an update, the row
/// of the company being updated, with its new name.
pub proof fn lemma_county_reaches_row(w: CompanyWrite, c: i64, w2: CompanyWrite, step: FlowStep)
    requires
        w.stage == Stage::EnsuringCounty,
        w.advance(Ok(c), w2, step),
    ensures
        w2.county_id == Some(c),
        w.kind == WriteKind::Insert ==> step == FlowStep::Run(
            DbOp::InsertCompany { name: w.name, county_id: Some(c) },
        ),
        w.kind == WriteKind::Update ==> step == FlowStep::Run(
            DbOp::UpdateCompany { id: w.company_id, name: w.name, county_id: Some(c) },
        ),
{
}

/// When a company write has no county, the company row is written right
/// after `BEGIN`, with no county: a new row for an insert, the company's
/// row for an update.
pub proof fn lemma_no_county_row(w: CompanyWrite, o: Result<i64, String>, w2: CompanyWrite, step: FlowStep)
    requires
        w.stage == Stage::Beginning,
        w.county@.len() == 0,
        o is Ok,
        w.advance(o, w2, step),
    ensures
        w.kind == WriteKind::Insert ==> step == FlowStep::Run(
            DbOp::InsertCompany { name: w.name, county_id: None },
        ),
        w.kind == WriteKind::Update ==> step == FlowStep::Run(
            DbOp::UpdateCompany { id: w.company_id, name: w.name, county_id: None },
        ),
{
}

/// `reply` is the message the worker sends once it has done `job`: the
/// result message that goes with the job (for a company's details, naming
/// that company); a stop sends none.
pub open spec fn replies_job(job: DbJob, reply: UiTask) -> bool {
    match job {
        DbJob::Fetch(_) => reply is FetchCompaniesResult,
        DbJob::Details(id) => reply matches UiTask::FetchCompanyDetailsResult(i, _) && i == id,
        DbJob::Write(w, _) => match w.kind {
            WriteKind::Insert => reply is InsertCompanyResult,
            WriteKind::Update => reply is UpdateCompanyResult,
            WriteKind::Delete => reply is DeleteCompanyResult,
        },
        DbJob::TodayLog(_) => reply is FetchTodayLogResult,
        DbJob::SaveLog(_) => reply is SaveTodayLogResult,
        DbJob::RequestBackup => reply is BackupStatusResult,
        DbJob::Stop => false,
    }
}

/// `reply` answers the request `task`: it is the result message of the
/// request's kind (for a company's details, naming the company asked for);
/// a shutdown request has no answer.
pub open spec fn answers_task(task: DbTask, reply: UiTask) -> bool {
    match task {
        DbTask::FetchCompanies(_) => reply is FetchCompaniesResult,
        DbTask::FetchCompanyDetails(id) => reply matches UiTask::FetchCompanyDetailsResult(i, _)
            && i == id,
        DbTask::InsertCompany(_) => reply is InsertCompanyResult,
        DbTask::UpdateCompany(_) => reply is UpdateCompanyResult,
        DbTask::DeleteCompany(_) => reply is DeleteCompanyResult,
        DbTask::FetchTodayLog => reply is FetchTodayLogResult,
        DbTask::SaveTodayLog(_) => reply is SaveTodayLogResult,
        DbTask::RequestBackup => reply is BackupStatusResult,
        DbTask::Shutdown => false,
    }
}

/// The messages sent by a run of the worker over `jobs`, in order: one
/// reply per job, up to the first stop; nothing from the stop on.
pub open spec fn run_replies(jobs: Seq<DbJob>, replies: Seq<UiTask>) -> bool
    decreases jobs.len(),
{
    if jobs.len() == 0 || jobs[0] is Stop {
        replies.len() == 0
    } else {
        &&& replies.len() > 0
        &&& replies_job(jobs[0], replies[0])
        &&& run_replies(jobs.drop_first(), replies.drop_first())
    }
}

/// Over requests `tasks` whose first `n` are not shutdowns and whose `n`-th,
/// if there is one, is a shutdown: a run of the worker on the jobs that
/// `plan_task` gives for them sends exactly `n` messages, the `i`-th
/// answering the `i`-th request, and stops at the shutdown.
pub proof fn lemma_worker_replies(
    tasks: Seq<DbTask>,
    jobs: Seq<DbJob>,
    replies: Seq<UiTask>,
    n: int,
)
    requires
        0 <= n <= tasks.len(),
        jobs.len() == tasks.len(),
        forall|i: int| 0 <= i < tasks.len() ==> routes(#[trigger] tasks[i], jobs[i]),
        forall|i: int| 0 <= i < n ==> !(#[trigger] tasks[i] is Shutdown),
        n < tasks.len() ==> tasks[n] is Shutdown,
        run_replies(jobs, replies),
    ensures
        replies.len() == n,
        forall|i: int| 0 <= i < n ==> answers_task(tasks[i], #[trigger] replies[i]),
        n < tasks.len() ==> jobs[n] is Stop,
    decreases n,
{
    if n == 0 {
        if tasks.len() > 0 {
            assert(routes(tasks[0], jobs[0]));
        }
    } else {
        assert(routes(tasks[0], jobs[0]));
        assert(!(tasks[0] is Shutdown));
        let ts = tasks.drop_first();
        let js = jobs.drop_first();
        let rs = replies.drop_first();
        assert forall|i: int| 0 <= i < ts.len() implies routes(#[trigger] ts[i], js[i]) by {
            assert(ts[i] == tasks[i + 1]);
            assert(js[i] == jobs[i + 1]);
            assert(routes(tasks[i + 1], jobs[i + 1]));
        }
        assert forall|i: int| 0 <= i < n - 1 implies !(#[trigger] ts[i] is Shutdown) by {
            assert(ts[i] == tasks[i + 1]);
            assert(!(tasks[i + 1] is Shutdown));
        }
        lemma_worker_replies(ts, js, rs, n - 1);
        assert forall|i: int| 0 <= i < n implies answers_task(tasks[i], #[trigger] replies[i]) by {
            if i > 0 {
                assert(tasks[i] == ts[i - 1]);
                assert(replies[i] == rs[i - 1]);
            }
        }
        if n < tasks.len() {
            assert(jobs[n] == js[n - 1]);
        }
    }
}

impl DbOp {
    fn into_step(self) -> (step: FlowStep)
        ensures
            step == FlowStep::Run(self),
    {
        FlowStep::Run(self)
    }
}

} // verus!
