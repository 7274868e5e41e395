pub mod driver;
pub mod mult;
pub mod parse;

pub use crate::driver::run;
pub use crate::driver::RunOutcome;
pub use crate::mult::multiply;
pub use crate::mult::negative_message;
pub use crate::parse::integer_value;
pub use crate::parse::parse_i32;
pub use crate::parse::parses_to_i32;
