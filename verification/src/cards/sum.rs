//! The sum calculator.

use crate::text::same_text;
use vstd::prelude::*;
use vstd::string::StringExecFns;

verus! {

/// Why a calculation gave no result.
#[derive(Debug)]
pub struct CalculationError {
    pub message: String,
}

/// The quotient of `a` by `b`, rounded towards zero. (In specifications `/`
/// rounds down for a positive divisor and up for a negative one, which for a
/// dividend that is not negative is the same as rounding towards zero.)
pub open spec fn truncated_quotient(a: int, b: int) -> int
    recommends
        b != 0,
{
    if a >= 0 {
        a / b
    } else {
        -((-a) / b)
    }
}

/// What the calculator shows for two numbers and an operator: the sum for
/// `+`, the difference for `-`, the product for `x`, `X` and `*`, for `/` the
/// quotient rounded towards zero, or 0 where the divisor is 0. Any other
/// operator gives nothing.
pub open spec fn sum_of(num1: int, num2: int, operator: Seq<char>) -> Option<int> {
    if operator == "+"@ {
        Some(num1 + num2)
    } else if operator == "-"@ {
        Some(num1 - num2)
    } else if operator == "x"@ || operator == "X"@ || operator == "*"@ {
        Some(num1 * num2)
    } else if operator == "/"@ {
        if num2 != 0 {
            Some(truncated_quotient(num1, num2))
        } else {
            Some(0)
        }
    } else {
        None
    }
}

/// Whether the calculator's result for these inputs, if there is one, is an
/// `i32`.
pub open spec fn sum_fits(num1: int, num2: int, operator: Seq<char>) -> bool {
    match sum_of(num1, num2, operator) {
        Some(value) => i32::MIN <= value <= i32::MAX,
        None => true,
    }
}

/// The text of the error for an operator that the calculator does not know.
pub open spec fn unsupported_operator_message(operator: Seq<char>) -> Seq<char> {
    operator + " is not a supported operator"@
}

/// Division with remainder, as `/` and `%` mean it in specifications: the
/// remainder is never negative and is smaller than the divisor's size.
proof fn lemma_quotient_and_remainder(x: int, b: int)
    requires
        b != 0,
    ensures
        x == b * (x / b) + x % b,
        0 <= x % b,
        b > 0 ==> x % b < b,
        b < 0 ==> x % b < -b,
{
    assert(x == b * (x / b) + x % b && 0 <= x % b && (b > 0 ==> x % b < b) && (b < 0 ==> x % b
        < -b)) by (nonlinear_arith)
        requires
            b != 0,
    ;
}

/// What rounding towards zero means: the quotient times the divisor lies
/// between zero and the dividend, less than one divisor short of it.
pub proof fn lemma_truncated_quotient_rounds_towards_zero(a: int, b: int)
    requires
        b != 0,
    ensures
        a >= 0 ==> 0 <= a - b * truncated_quotient(a, b),
        a < 0 ==> a - b * truncated_quotient(a, b) <= 0,
        b > 0 ==> -b < a - b * truncated_quotient(a, b) < b,
        b < 0 ==> b < a - b * truncated_quotient(a, b) < -b,
{
    let x = if a >= 0 { a } else { -a };
    let q = x / b;
    lemma_quotient_and_remainder(x, b);
    assert(b * (-q) == -(b * q)) by (nonlinear_arith);
}

/// How far a quotient rounded towards zero can lie from zero.
pub proof fn lemma_truncated_quotient_bounds(a: int, b: int)
    requires
        b != 0,
    ensures
        a >= 0 ==> -a <= truncated_quotient(a, b) <= a,
        a < 0 ==> a <= truncated_quotient(a, b) <= -a,
        a < 0 && b != -1 ==> truncated_quotient(a, b) < -a,
        b == -1 ==> truncated_quotient(a, b) == -a,
{
    let x = if a >= 0 { a } else { -a };
    let q = x / b;
    lemma_quotient_and_remainder(x, b);
    assert(-x <= q <= x && (x > 0 && b != -1 ==> -x < q) && (b == -1 ==> q == -x))
        by (nonlinear_arith)
        requires
            b != 0,
            x >= 0,
            x == b * q + x % b,
            0 <= x % b,
            b > 0 ==> x % b < b,
            b < 0 ==> x % b < -b,
    ;
}

/// Tests whether `calculate_sum` may be called on these inputs.
pub fn sum_is_in_range(num1: i32, num2: i32, operator: &str) -> (fits: bool)
    ensures
        fits == sum_fits(num1 as int, num2 as int, operator@),
{
    if same_text(operator, "+") {
        num1.checked_add(num2).is_some()
    } else if same_text(operator, "-") {
        num1.checked_sub(num2).is_some()
    } else if same_text(operator, "x") || same_text(operator, "X") || same_text(operator, "*") {
        num1.checked_mul(num2).is_some()
    } else if same_text(operator, "/") {
        proof {
            if num2 != 0 {
                lemma_truncated_quotient_bounds(num1 as int, num2 as int);
            }
        }
        !(num1 == i32::MIN && num2 == -1)
    } else {
        true
    }
}

/// Applies `operator` to the two numbers. A division by zero gives 0; an
/// operator that is not known gives an error that names it.
pub fn calculate_sum(num1: i32, num2: i32, operator: &str) -> (result: Result<
    i32,
    CalculationError,
>)
    requires
        sum_fits(num1 as int, num2 as int, operator@),
    ensures
        match result {
            Ok(value) => sum_of(num1 as int, num2 as int, operator@) == Some(value as int),
            Err(error) => sum_of(num1 as int, num2 as int, operator@) is None && error.message@
                == unsupported_operator_message(operator@),
        },
{
    if same_text(operator, "+") {
        Ok(num1 + num2)
    } else if same_text(operator, "-") {
        Ok(num1 - num2)
    } else if same_text(operator, "x") || same_text(operator, "X") || same_text(operator, "*") {
        Ok(num1 * num2)
    } else if same_text(operator, "/") {
        if num2 != 0 {
            Ok(num1 / num2)
        } else {
            Ok(0)
        }
    } else {
        Err(CalculationError { message: operator.to_owned().concat(" is not a supported operator") })
    }
}

} // verus!
