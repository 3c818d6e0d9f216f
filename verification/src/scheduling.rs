pub mod policies;
pub mod quote_scheduler;
pub mod schedule_context;
pub mod types;
