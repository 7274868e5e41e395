use vstd::prelude::*;

verus! {

/// The message carried by every domain failure: an operand was negative.
pub open spec fn negative_message() -> Seq<char> {
    "Negative numbers are not allowed"@
}

/// Multiply two operands, rejecting negative inputs.
///
/// Succeeds exactly when both operands are non-negative, and then
/// returns exactly their product; otherwise fails with the domain
/// error message. The product is returned as an `i64`, where every
/// product of two non-negative `i32` operands fits.
pub fn multiply(num1: i32, num2: i32) -> (r: Result<i64, String>)
    ensures
        r is Ok <==> 0 <= num1 && 0 <= num2,
        r matches Ok(p) ==> p == num1 * num2,
        r matches Err(m) ==> m@ == negative_message(),
{
    if num1 < 0 || num2 < 0 {
        return Err("Negative numbers are not allowed".to_owned());
    }
    let a = num1 as i64;
    let b = num2 as i64;
    assert(0 <= a * b <= 0x7fff_ffff * 0x7fff_ffff) by (nonlinear_arith)
        requires
            0 <= a <= 0x7fff_ffff,
            0 <= b <= 0x7fff_ffff,
    ;
    Ok(a * b)
}

} // verus!
