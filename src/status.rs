//! Status codes of the platform's calling convention.

use vstd::prelude::*;

verus! {

/// A status code is an error when its two top bits are `10`: it lies in
/// `[2^(w-1), 2^(w-1) + 2^(w-2))` for a word of `w` bits.
pub open spec fn is_error_code(code: usize) -> bool {
    usize::MAX / 2 + 1 <= code < usize::MAX / 2 + usize::MAX / 4 + 2
}

/// Relies on r_efi's `Status::is_error`, which masks the two top bits of the
/// code and compares them with the error bit.
#[verifier::external_body]
pub(crate) fn status_is_error(code: usize) -> (r: bool)
    ensures
        r == is_error_code(code),
{
    r_efi::base::Status::from_usize(code).is_error()
}

} // verus!

verus! {

/// The code of an invalid-parameter error: the error bit with the value 2.
pub open spec fn invalid_parameter_code() -> usize {
    (usize::MAX / 2 + 3) as usize
}

/// The code reported when a caller's argument is unusable: the error bit
/// with the value 2.
///
/// Relies on r_efi's `Status::INVALID_PARAMETER`, defined as
/// `2 | ERROR_MASK` where the mask is the top bit of the word.
#[verifier::external_body]
pub(crate) fn invalid_parameter() -> (r: usize)
    ensures
        r == invalid_parameter_code(),
{
    r_efi::base::Status::INVALID_PARAMETER.as_usize()
}

} // verus!
