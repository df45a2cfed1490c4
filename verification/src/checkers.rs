use vstd::prelude::*;

verus! {

/// Byte that closes every request.
pub const CLOSING_BRACE: u8 = 125u8;

/// Checks whether a request read from a client is unusable: true when the read failed,
/// or when the bytes read do not end with `}`.
/// After a successful read the bytes must not be empty (the caller must not pass that).
pub fn checker<E>(x: Result<usize, E>, vec: &[u8]) -> (bad: bool)
    requires
        x is Ok ==> vec@.len() > 0,
    ensures
        bad == (x is Err || vec@.last() != CLOSING_BRACE),
{
    if x.is_err() {
        return true;
    }
    if vec[vec.len() - 1] != CLOSING_BRACE {
        return true;
    }
    false
}

} // verus!
