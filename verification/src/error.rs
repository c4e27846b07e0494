use vstd::prelude::*;

verus! {

/// Why processing an instruction stopped early.
///
/// `Host` carries a failure code that the runtime produced, unchanged, using
/// the runtime's numeric error convention.  The other variants are produced
/// by this library's own checks before a runtime call is attempted.
#[derive(Clone, Copy, Debug, PartialEq, Eq)]
pub enum ProcessError {
    /// Fewer account handles were supplied than the instruction expects.
    NotEnoughAccountKeys,
    /// The payload is larger than the runtime permits for an account, or the
    /// rent rate is too high for the balance to be computed without overflow.
    RentLimitExceeded,
    /// No bump seed yields a valid program-derived address for the given
    /// user key and program id.
    NoViableBump,
    /// The created account's storage does not have the payload's length, so
    /// the payload cannot be copied in verbatim.
    PayloadLengthMismatch,
    /// A runtime call failed; the code is the runtime's own, propagated
    /// unchanged.
    Host(u64),
}

} // verus!
