//! Intervals over an ordered type: boundary values, endpoints, intervals.

pub mod interval;
pub mod interval_limit;
pub mod laws;
pub mod limit_value;
pub mod order;

pub use self::interval::Interval;
pub use self::interval_limit::IntervalLimit;
pub use self::limit_value::IntervalError;
pub use self::limit_value::LimitValue;
