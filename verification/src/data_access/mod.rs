pub mod db;
pub mod warmup_jobs;
