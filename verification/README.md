# alex_crm

A small desktop CRM (companies, their county and contact, and a daily log)
whose decision-making core is verified with Verus.

- `src/` is the verified library:
  - `policies/retry.rs`: retry policies (`NoRetry`, `SpinRetry`,
    `ExponentialBackoff`) with the doubling, capped wait schedule;
  - `policies/logging.rs`: logging policies and the log line layout;
  - `backend/fts.rs`: the full-text query built from a search text;
  - `backend/db_worker.rs`: search parameters, company details, the
    statements of each company insert, update and delete inside one
    transaction, daily log saving, and the answers to each request;
  - `backend/backup_worker.rs`: when the backup worker copies or stops, and
    what it reports;
  - `ui/`: the in-memory company list and its search, the folder name of a
    company, the requests sent by the forms, and what the interface does with
    each worker result;
  - `text.rs`: trimming, infix search and decimal formatting on characters.
- `app/` is the program around it: the FLTK windows, the SQLite connection,
  the worker threads and channels, file copies, and printing.
- `tests/` exercises the library on concrete values.
