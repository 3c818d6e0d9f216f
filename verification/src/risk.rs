pub mod checks;
pub mod context;
pub mod decision;
pub mod engine;
