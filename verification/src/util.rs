//! Numbers that the other modules share.

pub mod decimal;
pub mod ratio;

pub use self::decimal::DecimalNumber;
pub use self::decimal::RoundingStrategy;
pub use self::ratio::Ratio;
