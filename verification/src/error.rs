//! Zephyr error codes and the conversion of Zephyr return codes into results.

use vstd::prelude::*;

verus! {

/// Invalid argument (Zephyr `EINVAL`).
pub const EINVAL: u32 = 22;

/// Function not implemented (Zephyr `ENOSYS`).
pub const ENOSYS: u32 = 88;

/// Unsupported value or operation (Zephyr `ENOTSUP`).
pub const ENOTSUP: u32 = 134;

/// A Zephyr error: the positive errno value of a failed call.
#[derive(Debug, Clone, Copy, PartialEq, Eq, Structural)]
pub struct Error(pub u32);

/// A Zephyr return code read as a result: negative codes are errors whose
/// errno is the negated code, the others are successes that carry the code.
pub open spec fn code_result(code: i32) -> Result<i32, Error> {
    if code < 0 {
        Err(Error((-code) as u32))
    } else {
        Ok(code)
    }
}

/// Converts a Zephyr return code into a result (see [`code_result`]).
pub fn to_result(code: i32) -> (r: Result<i32, Error>)
    ensures
        r == code_result(code),
{
    if code < 0 {
        let errno: i64 = -(code as i64);
        Err(Error(errno as u32))
    } else {
        Ok(code)
    }
}

/// Converts a Zephyr return code into a result that keeps only whether the
/// call failed, and with which errno.
pub fn to_result_void(code: i32) -> (r: Result<(), Error>)
    ensures
        r is Ok <==> code >= 0,
        r matches Err(e) ==> e.0 == -code,
{
    match to_result(code) {
        Ok(_) => Ok(()),
        Err(e) => Err(e),
    }
}

/// Zephyr's errno values: EINVAL is 22, ENOSYS 88, ENOTSUP 134.
pub proof fn lemma_errno_values()
    ensures
        EINVAL == 22,
        ENOSYS == 88,
        ENOTSUP == 134,
{
}

/// A return code is an error exactly when it is negative; the error's errno is
/// the code negated (always positive), and a success carries the code itself.
pub proof fn lemma_code_result(code: i32)
    ensures
        code_result(code) is Err <==> code < 0,
        code_result(code) matches Err(e) ==> e.0 as int == -(code as int) && e.0 > 0,
        code_result(code) matches Ok(c) ==> c == code && c >= 0,
{
}

} // verus!
