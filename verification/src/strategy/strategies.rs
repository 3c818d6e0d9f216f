pub mod mean_reversion;
pub mod regime_switch;
pub mod simple_mm;
pub mod trend_following;
