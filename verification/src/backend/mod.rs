pub mod fts;
pub mod db_worker;
pub mod backup_worker;
