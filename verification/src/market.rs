pub mod market_state;
