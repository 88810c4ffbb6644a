//! Amounts of money in a currency.

pub mod allotment;
pub mod allotments;
pub mod amount;
pub mod money;
pub mod money_fan;

pub use self::allotment::Allotment;
pub use self::allotments::Allotments;
pub use self::money::Money;
pub use self::money::MoneyError;
pub use self::money_fan::MoneyFan;
