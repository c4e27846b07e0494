use crate::error::ProcessError;
use crate::pda::{derive_user_bump, pda_bump_of, Key};
use crate::rent::{rent_limits_ok, required_lamports, runtime_minimum_of, RentConfig};
use vstd::prelude::*;

verus! {

/// Everything the runtime is asked to do when the new account is created:
/// who funds it, which address it gets, its starting balance, its data size,
/// which program owns it, and the bump seed under which this program signs
/// for the derived address.
#[derive(Clone, Copy, Debug, PartialEq, Eq)]
pub struct CreateParams {
    pub funder: Key,
    pub new_account: Key,
    pub lamports: u64,
    pub space: u64,
    pub owner: Key,
    pub bump: u8,
}

/// Decide the account-creation request: fund the new account at `target` to
/// the rent-exempt minimum for a payload of `data_len` bytes, owned by
/// `program`, signed under the bump derived from the user's key.
///
/// Fails with `RentLimitExceeded` exactly when the rent configuration
/// rejects the length or rate, and otherwise with `NoViableBump` exactly
/// when the derived-address search finds no bump.  On success every field
/// is pinned, the balance to the runtime's minimum for the configuration.
pub fn plan_create(
    user: &Key,
    target: &Key,
    program: &Key,
    cfg: &RentConfig,
    data_len: usize,
) -> (r: Result<CreateParams, ProcessError>)
    ensures
        !rent_limits_ok(*cfg, data_len as nat)
            ==> r == Err::<CreateParams, ProcessError>(ProcessError::RentLimitExceeded),
        rent_limits_ok(*cfg, data_len as nat) && pda_bump_of(user.bytes@, program.bytes@) is None
            ==> r == Err::<CreateParams, ProcessError>(ProcessError::NoViableBump),
        rent_limits_ok(*cfg, data_len as nat) && pda_bump_of(user.bytes@, program.bytes@) is Some
            ==> r is Ok,
        (match r {
            Ok(p) => rent_limits_ok(*cfg, data_len as nat)
                && pda_bump_of(user.bytes@, program.bytes@) == Some(p.bump)
                && p.funder == *user
                && p.new_account == *target
                && p.owner == *program
                && p.space == data_len as u64
                && p.lamports == runtime_minimum_of(*cfg, data_len as nat),
            Err(_) => true,
        }),
{
    let lamports = match required_lamports(cfg, data_len) {
        Ok(m) => m,
        Err(e) => {
            return Err(e);
        },
    };
    let bump = match derive_user_bump(user, program) {
        Ok(b) => b,
        Err(e) => {
            return Err(e);
        },
    };
    Ok(CreateParams {
        funder: *user,
        new_account: *target,
        lamports,
        space: data_len as u64,
        owner: *program,
        bump,
    })
}

} // verus!
