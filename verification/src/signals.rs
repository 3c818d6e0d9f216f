pub mod ema;
pub mod signal_state;
