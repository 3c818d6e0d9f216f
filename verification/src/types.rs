pub mod instrument;
pub mod inventory;
pub mod price;
pub mod quote;
pub mod quote_target;
pub mod trading_hours;
pub mod trading_rules;
