pub mod instrument_context;
pub mod strategies;
