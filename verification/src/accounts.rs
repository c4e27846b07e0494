use crate::error::ProcessError;
use crate::pda::Key;
use vstd::prelude::*;

verus! {

/// The runtime's 32-byte address type, carried opaquely; its bytes are read
/// only through the wrappers below.
#[verifier::external_type_specification]
#[verifier::external_body]
pub struct ExPubkey(solana_program::pubkey::Pubkey);

/// A handle to an account the runtime supplied to this invocation, carried
/// opaquely; its address, data length and data are reached only through the
/// wrappers below.
#[verifier::external_type_specification]
#[verifier::external_body]
pub struct ExAccountInfo<'a>(solana_program::account_info::AccountInfo<'a>);

/// An instruction for the runtime to execute, carried opaquely from where it
/// is built to where it is invoked.
#[verifier::external_type_specification]
#[verifier::external_body]
pub struct ExInstruction(solana_program::instruction::Instruction);

/// Relies on `Pubkey::to_bytes`: the returned `Key` holds the address's
/// 32 bytes, unchanged.
#[verifier::external_body]
pub(crate) fn key_of_pubkey(pk: &solana_program::pubkey::Pubkey) -> Key {
    Key { bytes: pk.to_bytes() }
}

/// Relies on the `AccountInfo::key` field and `Pubkey::to_bytes`: the
/// returned `Key` holds the 32 bytes of the account's address, unchanged.
#[verifier::external_body]
pub(crate) fn account_key(info: &solana_program::account_info::AccountInfo) -> Key {
    Key { bytes: info.key.to_bytes() }
}

/// Relies on `AccountInfo::try_data_len`: the current length of the
/// account's data, or the runtime's code when the data is already borrowed.
#[verifier::external_body]
pub(crate) fn account_data_len(
    info: &solana_program::account_info::AccountInfo,
) -> Result<usize, u64> {
    match info.try_data_len() {
        Ok(n) => Ok(n),
        Err(e) => Err(u64::from(e)),
    }
}

/// Relies on `AccountInfo::try_borrow_mut_data` and `slice::copy_from_slice`:
/// copies the payload verbatim into the account's data.  `copy_from_slice`
/// aborts when the two lengths differ, so that case is tested for and
/// reported as `PayloadLengthMismatch` instead of reaching it; a failed
/// borrow comes back as `Host` with the runtime's code unchanged.  No other
/// error can come out.
#[verifier::external_body]
pub(crate) fn write_payload(
    info: &solana_program::account_info::AccountInfo,
    data: &[u8],
) -> (r: Result<(), ProcessError>)
    ensures
        r matches Err(e) ==> (e == ProcessError::PayloadLengthMismatch || e matches ProcessError::Host(_)),
{
    match info.try_borrow_mut_data() {
        Ok(mut buf) => {
            if buf.len() != data.len() {
                return Err(ProcessError::PayloadLengthMismatch);
            }
            buf.copy_from_slice(data);
            Ok(())
        },
        Err(e) => Err(ProcessError::Host(u64::from(e))),
    }
}

} // verus!
