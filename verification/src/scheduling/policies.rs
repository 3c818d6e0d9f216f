pub mod in_flight_policy;
pub mod min_interval_policy;
pub mod top_of_book_tick_move_policy;
pub mod trading_hours_policy;
