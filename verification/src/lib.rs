//! Per-diem expense engine: weekday selections, rate lookup and the
//! expansion of a selection into dated transaction records.

pub mod cli;
pub mod command;
pub mod context;
pub mod date;
pub mod error;
pub mod expensify;
pub mod json;
pub mod perdiem;
pub mod text;
pub mod timeperiod;
pub mod weekday;

pub use command::Command;
pub use context::{
    Categories, Category, Context, Country, Currency, Destination, Tag, Tags, UserContext,
};
pub use date::{from_date_string, Date};
pub use error::{Error, SyntaxProblem};
pub use expensify::{TransactionList, TransactionListElement};
pub use json::Json;
pub use timeperiod::TimePeriod;
pub use weekday::Weekday;
