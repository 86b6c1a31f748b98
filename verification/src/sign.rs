//! The sign of a machine integer.

use crate::model::sign_of;
use vstd::prelude::*;

verus! {

/// `num_traits::signum` on an `i128`: `0` for zero, `1` for a positive number
/// and `-1` for a negative one. It returns for every argument.
#[verifier::external_body]
pub(crate) fn signum(value: i128) -> (sign: i128)
    ensures
        sign == sign_of(value as int),
{
    num_traits::signum(value)
}

} // verus!
