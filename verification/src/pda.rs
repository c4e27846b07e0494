use crate::error::ProcessError;
use vstd::prelude::*;

verus! {

/// A 32-byte account address, held as plain bytes so that contracts can
/// speak of it.  Conversions to and from the runtime's own address type
/// happen only inside the trusted wrappers and in the entry glue.
#[derive(Clone, Copy, Debug, PartialEq, Eq)]
pub struct Key {
    pub bytes: [u8; 32],
}

/// The bump seed that the runtime's program-derived-address search returns
/// for a single seed (here: a user key's bytes) and a program id, or nothing
/// in the statistically improbable case that no bump yields a valid derived
/// address.  The search is a fixed function of the two byte strings alone.
pub uninterp spec fn pda_bump_of(seed: Seq<u8>, program: Seq<u8>) -> Option<u8>;

/// Relies on `Pubkey::try_find_program_address`, called with the user key's
/// bytes as the only seed: the result depends on the seed and program bytes
/// alone, and is absent exactly when no bump seed yields a valid derived
/// address.
#[verifier::external_body]
fn derive_bump(user: &Key, program: &Key) -> (r: Option<u8>)
    ensures
        r == pda_bump_of(user.bytes@, program.bytes@),
{
    solana_program::pubkey::Pubkey::try_find_program_address(
        &[&user.bytes],
        &solana_program::pubkey::Pubkey::new_from_array(program.bytes),
    ).map(|found| found.1)
}

/// The bump seed under which this program can sign for the address derived
/// from the user's key.  Returns exactly the bump of the runtime's search,
/// and an error exactly when that search finds none.
pub fn derive_user_bump(user: &Key, program: &Key) -> (r: Result<u8, ProcessError>)
    ensures
        pda_bump_of(user.bytes@, program.bytes@) matches Some(b) ==> r == Ok::<u8, ProcessError>(b),
        pda_bump_of(user.bytes@, program.bytes@) is None ==> r == Err::<u8, ProcessError>(ProcessError::NoViableBump),
{
    match derive_bump(user, program) {
        Some(b) => Ok(b),
        None => Err(ProcessError::NoViableBump),
    }
}

} // verus!
