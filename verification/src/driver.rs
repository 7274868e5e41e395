use vstd::prelude::*;

use crate::mult::multiply;
use crate::mult::negative_message;
use crate::parse::integer_value;
use crate::parse::parse_i32;
use crate::parse::parses_to_i32;

verus! {

/// What one invocation decides, given its argument tokens: report a
/// usage error, reject a token that is not a number, report the
/// domain error, or return the operands with their product.
#[derive(Debug, PartialEq, Eq)]
pub enum RunOutcome {
    Usage,
    InvalidNumber { token: String },
    Validation { message: String },
    Success { num1: i32, num2: i32, product: i64 },
}

/// Decide the outcome of one invocation from the full argument
/// vector, program name included: exactly two further tokens are
/// expected, each a signed decimal integer, and both operands must be
/// non-negative. The first token that is not a number is the one
/// reported.
pub fn run(args: &Vec<String>) -> (r: RunOutcome)
    ensures
        r is Usage <==> args@.len() != 3,
        args@.len() == 3 && !parses_to_i32(args@[1]@) ==> (r matches RunOutcome::InvalidNumber {
            token,
        } && token@ == args@[1]@),
        args@.len() == 3 && parses_to_i32(args@[1]@) && !parses_to_i32(args@[2]@) ==> (r matches
            RunOutcome::InvalidNumber { token } && token@ == args@[2]@),
        args@.len() == 3 && parses_to_i32(args@[1]@) && parses_to_i32(args@[2]@) && (integer_value(
            args@[1]@,
        ) < 0 || integer_value(args@[2]@) < 0) ==> (r matches RunOutcome::Validation { message }
            && message@ == negative_message()),
        args@.len() == 3 && parses_to_i32(args@[1]@) && parses_to_i32(args@[2]@) && integer_value(
            args@[1]@,
        ) >= 0 && integer_value(args@[2]@) >= 0 ==> (r matches RunOutcome::Success {
            num1,
            num2,
            product,
        } && num1 == integer_value(args@[1]@) && num2 == integer_value(args@[2]@) && product
            == num1 * num2),
{
    if args.len() != 3 {
        return RunOutcome::Usage;
    }
    let num1 = match parse_i32(args[1].as_str()) {
        Some(v) => v,
        None => {
            return RunOutcome::InvalidNumber { token: args[1].clone() };
        },
    };
    let num2 = match parse_i32(args[2].as_str()) {
        Some(v) => v,
        None => {
            return RunOutcome::InvalidNumber { token: args[2].clone() };
        },
    };
    match multiply(num1, num2) {
        Ok(product) => RunOutcome::Success { num1, num2, product },
        Err(message) => RunOutcome::Validation { message },
    }
}

} // verus!
