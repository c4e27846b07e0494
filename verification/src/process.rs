use crate::accounts::{account_data_len, account_key, key_of_pubkey, write_payload};
use crate::error::ProcessError;
use crate::pda::{pda_bump_of, Key};
use crate::plan::{plan_create, CreateParams};
use crate::rent::{fetch_rent, rent_limits_ok, RentConfig};
use vstd::prelude::*;
use vstd::slice::slice_index_get;

verus! {

/// How many account handles the instruction expects: the funding user, the
/// account to be created, and two more that the runtime convention supplies.
pub const REQUIRED_ACCOUNTS: usize = 4;

/// True exactly when a supplied account list is long enough to process.
pub open spec fn enough_accounts(n: nat) -> bool {
    n >= REQUIRED_ACCOUNTS
}

/// Check that enough account handles were supplied.
pub fn check_account_count(n: usize) -> (r: bool)
    ensures
        r == enough_accounts(n as nat),
{
    n >= REQUIRED_ACCOUNTS
}

/// Check that the created account's storage has exactly the payload's
/// length, so that the payload can be copied in verbatim.
pub fn check_payload_len(dst_len: usize, want: usize) -> (r: Result<(), ProcessError>)
    ensures
        (r is Ok) <==> dst_len == want,
        r is Err ==> r == Err::<(), ProcessError>(ProcessError::PayloadLengthMismatch),
{
    if dst_len == want {
        Ok(())
    } else {
        Err(ProcessError::PayloadLengthMismatch)
    }
}

/// Relies on `solana_system_interface::instruction::create_account`: builds
/// the system-program instruction that creates `new_account`, funded by
/// `funder` with `lamports`, sized to `space` bytes and owned by `owner`.
/// The construction is a fixed function of those fields alone.
#[verifier::external_body]
fn build_create_account(p: &CreateParams) -> solana_program::instruction::Instruction {
    solana_system_interface::instruction::create_account(
        &solana_program::pubkey::Pubkey::new_from_array(p.funder.bytes),
        &solana_program::pubkey::Pubkey::new_from_array(p.new_account.bytes),
        p.lamports,
        p.space,
        &solana_program::pubkey::Pubkey::new_from_array(p.owner.bytes),
    )
}

/// Relies on `solana_program::program::invoke_signed`: asks the runtime to
/// execute the instruction, signing for the derived address with the
/// funder's key bytes and the bump as seeds.  The outcome is the runtime's
/// alone; on failure its code is returned unchanged.
#[verifier::external_body]
fn invoke_create(
    ix: &solana_program::instruction::Instruction,
    accounts: &[solana_program::account_info::AccountInfo],
    p: &CreateParams,
) -> Result<(), u64> {
    match solana_program::program::invoke_signed(ix, accounts, &[&[&p.funder.bytes, &[p.bump]]]) {
        Ok(()) => Ok(()),
        Err(e) => Err(u64::from(e)),
    }
}

/// Process the instruction under an already-fetched rent configuration and
/// already-extracted keys — `user` the first handle's address, `target` the
/// second's, `program` the program id: check the account count, plan the
/// creation of the account at `target` funded by `user`, ask the runtime to
/// create it, and copy the payload into it verbatim.
///
/// Too short an account list is reported as `NotEnoughAccountKeys`, and
/// never otherwise; a length or rate the rent configuration rejects as
/// `RentLimitExceeded`, and never otherwise; given enough accounts and an
/// accepted configuration, `NoViableBump` exactly when the derived-address
/// search over the user and program bytes finds no bump.  A mismatch
/// between the created account's storage and the payload's length is
/// reported as `PayloadLengthMismatch`, which can only arise once those
/// checks have passed.  The runtime's own failure codes are propagated
/// unchanged as `Host`.
pub fn process_with_rent<'a>(
    user: &Key,
    target: &Key,
    program: &Key,
    accounts: &[solana_program::account_info::AccountInfo<'a>],
    data: &[u8],
    cfg: &RentConfig,
) -> (r: Result<(), ProcessError>)
    ensures
        !enough_accounts(accounts@.len()) ==> r == Err::<(), ProcessError>(ProcessError::NotEnoughAccountKeys),
        enough_accounts(accounts@.len()) ==> r != Err::<(), ProcessError>(ProcessError::NotEnoughAccountKeys),
        enough_accounts(accounts@.len()) && !rent_limits_ok(*cfg, data@.len()) ==> r == Err::<(), ProcessError>(ProcessError::RentLimitExceeded),
        enough_accounts(accounts@.len()) && rent_limits_ok(*cfg, data@.len()) ==> r != Err::<(), ProcessError>(ProcessError::RentLimitExceeded),
        enough_accounts(accounts@.len()) && rent_limits_ok(*cfg, data@.len()) ==> ((r == Err::<(), ProcessError>(ProcessError::NoViableBump)) <==> pda_bump_of(user.bytes@, program.bytes@) is None),
        r == Err::<(), ProcessError>(ProcessError::PayloadLengthMismatch) ==> (enough_accounts(accounts@.len()) && rent_limits_ok(*cfg, data@.len())),
{
    if !check_account_count(accounts.len()) {
        return Err(ProcessError::NotEnoughAccountKeys);
    }
    let account_target = slice_index_get(accounts, 1);
    let params = match plan_create(user, target, program, cfg, data.len()) {
        Ok(p) => p,
        Err(e) => {
            return Err(e);
        },
    };
    let ix = build_create_account(&params);
    match invoke_create(&ix, accounts, &params) {
        Ok(()) => (),
        Err(code) => {
            return Err(ProcessError::Host(code));
        },
    }
    let dst_len = match account_data_len(account_target) {
        Ok(n) => n,
        Err(code) => {
            return Err(ProcessError::Host(code));
        },
    };
    match check_payload_len(dst_len, data.len()) {
        Ok(()) => (),
        Err(e) => {
            return Err(e);
        },
    }
    match write_payload(account_target, data) {
        Ok(()) => Ok(()),
        Err(e) => Err(e),
    }
}

/// Process the instruction as the runtime hands it over: read four account
/// handles, fetch the rent configuration from the runtime, extract the
/// first two handles' addresses and the program id, and continue as
/// `process_with_rent` says.  Too short an account list is reported as
/// `NotEnoughAccountKeys`, and never otherwise; a failure to fetch the rent
/// configuration as `Host`, with the runtime's code unchanged.
pub fn process_instruction<'a>(
    program_id: &solana_program::pubkey::Pubkey,
    accounts: &[solana_program::account_info::AccountInfo<'a>],
    data: &[u8],
) -> (r: Result<(), ProcessError>)
    ensures
        !enough_accounts(accounts@.len()) ==> r == Err::<(), ProcessError>(ProcessError::NotEnoughAccountKeys),
        enough_accounts(accounts@.len()) ==> r != Err::<(), ProcessError>(ProcessError::NotEnoughAccountKeys),
        r == Err::<(), ProcessError>(ProcessError::PayloadLengthMismatch) ==> enough_accounts(accounts@.len()),
{
    if !check_account_count(accounts.len()) {
        return Err(ProcessError::NotEnoughAccountKeys);
    }
    let cfg = match fetch_rent() {
        Ok(c) => c,
        Err(code) => {
            return Err(ProcessError::Host(code));
        },
    };
    let account_user = slice_index_get(accounts, 0);
    let account_target = slice_index_get(accounts, 1);
    let user_key = account_key(account_user);
    let target_key = account_key(account_target);
    let program_key = key_of_pubkey(program_id);
    process_with_rent(&user_key, &target_key, &program_key, accounts, data, &cfg)
}

} // verus!
