pub mod churn_throttle;
pub mod exposure_limit;
pub mod inventory_available;
pub mod kill_switch;
pub mod market_freshness;
pub mod market_sanity;
pub mod min_edge;
