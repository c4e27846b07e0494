use pda_account::error::ProcessError;
use pda_account::pda::{derive_user_bump, Key};
use pda_account::plan::plan_create;
use pda_account::rent::{
    required_lamports, RentConfig, MAX_RATE_THRESHOLD_ONE, MAX_RATE_THRESHOLD_TWO,
    THRESHOLD_BITS_ONE, THRESHOLD_BITS_TWO,
};
use solana_program::pubkey::Pubkey;
use solana_program::rent::Rent;

fn cfg(rate: u64, threshold_bits: u64) -> RentConfig {
    RentConfig {
        lamports_per_byte: rate,
        exemption_threshold_bits: threshold_bits,
        burn_percent: 50,
    }
}

#[test]
fn threshold_constants_match_float_encodings() {
    assert_eq!(THRESHOLD_BITS_ONE, u64::from_le_bytes(1.0f64.to_le_bytes()));
    assert_eq!(THRESHOLD_BITS_TWO, u64::from_le_bytes(2.0f64.to_le_bytes()));
}

#[test]
fn required_lamports_threshold_one_exact() {
    // (128 + 100) * 6960
    assert_eq!(
        required_lamports(&cfg(6960, THRESHOLD_BITS_ONE), 100),
        Ok(1_586_880)
    );
}

#[test]
fn required_lamports_threshold_two_exact() {
    // 2 * (128 + 0) * 3480
    assert_eq!(
        required_lamports(&cfg(3480, THRESHOLD_BITS_TWO), 0),
        Ok(890_880)
    );
}

#[test]
fn required_lamports_matches_runtime_calculation() {
    let rent = Rent::default();
    let ours = required_lamports(
        &cfg(rent.lamports_per_byte, THRESHOLD_BITS_ONE),
        4096,
    );
    assert_eq!(ours, Ok(rent.minimum_balance(4096)));
}

#[test]
fn required_lamports_rejects_oversized_payload() {
    // Ten mebibytes is permitted; one byte more is not.
    assert_eq!(
        required_lamports(&cfg(6960, THRESHOLD_BITS_ONE), 10 * 1024 * 1024),
        Ok((128 + 10 * 1024 * 1024) * 6960)
    );
    assert_eq!(
        required_lamports(&cfg(6960, THRESHOLD_BITS_ONE), 10 * 1024 * 1024 + 1),
        Err(ProcessError::RentLimitExceeded)
    );
}

#[test]
fn required_lamports_rejects_overflowing_rate() {
    assert_eq!(
        required_lamports(&cfg(MAX_RATE_THRESHOLD_TWO + 1, THRESHOLD_BITS_TWO), 0),
        Err(ProcessError::RentLimitExceeded)
    );
}

#[test]
fn derive_user_bump_matches_runtime_search() {
    let user = Key { bytes: [7u8; 32] };
    let program = Key { bytes: [9u8; 32] };
    let expected = Pubkey::find_program_address(
        &[&user.bytes],
        &Pubkey::new_from_array(program.bytes),
    )
    .1;
    assert_eq!(derive_user_bump(&user, &program), Ok(expected));
}

#[test]
fn derive_user_bump_is_deterministic() {
    let user = Key { bytes: [11u8; 32] };
    let program = Key { bytes: [13u8; 32] };
    let first = derive_user_bump(&user, &program);
    let second = derive_user_bump(&user, &program);
    assert!(first.is_ok());
    assert_eq!(first, second);
}

#[test]
fn plan_create_pins_every_field() {
    let user = Key { bytes: [1u8; 32] };
    let target = Key { bytes: [2u8; 32] };
    let program = Key { bytes: [3u8; 32] };
    let configuration = cfg(6960, THRESHOLD_BITS_ONE);
    let params = plan_create(&user, &target, &program, &configuration, 100).unwrap();
    assert_eq!(params.funder, user);
    assert_eq!(params.new_account, target);
    assert_eq!(params.owner, program);
    assert_eq!(params.lamports, 1_586_880);
    assert_eq!(params.space, 100);
    let expected_bump = Pubkey::find_program_address(
        &[&user.bytes],
        &Pubkey::new_from_array(program.bytes),
    )
    .1;
    assert_eq!(params.bump, expected_bump);
}

#[test]
fn plan_create_reports_rent_limit_first() {
    let user = Key { bytes: [1u8; 32] };
    let target = Key { bytes: [2u8; 32] };
    let program = Key { bytes: [3u8; 32] };
    let configuration = cfg(6960, THRESHOLD_BITS_ONE);
    assert_eq!(
        plan_create(&user, &target, &program, &configuration, 10 * 1024 * 1024 + 1),
        Err(ProcessError::RentLimitExceeded)
    );
}

#[test]
#[allow(deprecated)]
fn required_lamports_nonstandard_threshold_matches_runtime() {
    // A threshold whose encoding is neither standard pattern runs through
    // the runtime's floating-point path; the result must agree with it.
    let bits = u64::from_le_bytes(3.0f64.to_le_bytes());
    let ours = required_lamports(&cfg(1000, bits), 0).unwrap();
    let rent = Rent {
        lamports_per_byte: 1000,
        exemption_threshold: 3.0f64.to_le_bytes(),
        burn_percent: 50,
    };
    assert_eq!(rent.try_minimum_balance(0), Some(ours));
    assert_eq!(ours, 384_000);
}

#[test]
fn required_lamports_nonstandard_threshold_rejects_high_rate() {
    // Beyond this rate the runtime's intermediate product would overflow
    // before reaching floating point, so the library refuses it.
    let bits = u64::from_le_bytes(3.0f64.to_le_bytes());
    assert_eq!(
        required_lamports(&cfg(MAX_RATE_THRESHOLD_ONE + 1, bits), 0),
        Err(ProcessError::RentLimitExceeded)
    );
    assert!(required_lamports(&cfg(MAX_RATE_THRESHOLD_ONE, bits), 0).is_ok());
}
