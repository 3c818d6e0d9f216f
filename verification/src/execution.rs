pub mod dry_run;
pub mod order_action;
pub mod order_manager;
pub mod order_report;
pub mod order_side_manager;
pub mod types;
