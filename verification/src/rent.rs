use crate::error::ProcessError;
use vstd::prelude::*;

verus! {

/// Bytes of bookkeeping the runtime charges for every account on top of its
/// data, when computing the rent-exempt minimum balance.
pub const ACCOUNT_STORAGE_OVERHEAD: u64 = 128;

/// Largest account data size the runtime permits (ten mebibytes).
pub const MAX_PERMITTED_DATA_LENGTH: u64 = 10 * 1024 * 1024;

/// Bit pattern (little-endian, read as an integer) of the exemption
/// threshold under which the minimum balance is exactly the storage cost.
pub const THRESHOLD_BITS_ONE: u64 = 0x3FF0000000000000;

/// Bit pattern of the exemption threshold under which the minimum balance is
/// exactly twice the storage cost.
pub const THRESHOLD_BITS_TWO: u64 = 0x4000000000000000;

/// Largest rent rate for which the balance fits in 64 bits under the
/// threshold whose bit pattern is `THRESHOLD_BITS_ONE`.  This is also the
/// largest rate under which the runtime's calculation for a non-standard
/// threshold cannot overflow before it reaches floating point.
pub const MAX_RATE_THRESHOLD_ONE: u64 = 1_759_197_129_867;

/// Largest rent rate for which the balance fits in 64 bits under the
/// threshold whose bit pattern is `THRESHOLD_BITS_TWO`.
pub const MAX_RATE_THRESHOLD_TWO: u64 = 879_598_564_933;

/// The rent configuration the runtime is operating under, as plain values:
/// the rate in lamports per byte-year, the exemption threshold as the
/// little-endian bit pattern of its encoding, and the burn percentage.
#[derive(Clone, Copy, Debug, PartialEq, Eq)]
pub struct RentConfig {
    pub lamports_per_byte: u64,
    pub exemption_threshold_bits: u64,
    pub burn_percent: u8,
}

/// The two threshold encodings under which the runtime computes the minimum
/// balance by integer arithmetic alone, so its exact value can be stated.
pub open spec fn standard_threshold(bits: u64) -> bool {
    bits == THRESHOLD_BITS_ONE || bits == THRESHOLD_BITS_TWO
}

/// Whether this library accepts the data length and rate: the length is at
/// most the runtime's permitted maximum; under either standard threshold
/// the rate is low enough that the balance cannot overflow; and under any
/// other threshold the rate is low enough that the runtime's intermediate
/// product cannot overflow before it reaches floating point.
pub open spec fn rent_limits_ok(cfg: RentConfig, data_len: nat) -> bool {
    &&& data_len <= MAX_PERMITTED_DATA_LENGTH
    &&& (cfg.exemption_threshold_bits == THRESHOLD_BITS_ONE
        ==> cfg.lamports_per_byte <= MAX_RATE_THRESHOLD_ONE)
    &&& (cfg.exemption_threshold_bits == THRESHOLD_BITS_TWO
        ==> cfg.lamports_per_byte <= MAX_RATE_THRESHOLD_TWO)
    &&& (!standard_threshold(cfg.exemption_threshold_bits)
        ==> cfg.lamports_per_byte <= MAX_RATE_THRESHOLD_ONE)
}

/// The rent-exempt minimum balance under a standard threshold: the storage
/// cost of the data plus the per-account overhead, doubled under the second
/// standard threshold.
pub open spec fn minimum_balance_of(cfg: RentConfig, data_len: int) -> int {
    if cfg.exemption_threshold_bits == THRESHOLD_BITS_ONE {
        (ACCOUNT_STORAGE_OVERHEAD + data_len) * cfg.lamports_per_byte
    } else {
        2 * (ACCOUNT_STORAGE_OVERHEAD + data_len) * cfg.lamports_per_byte
    }
}

/// The rent-exempt minimum balance the runtime computes under a
/// non-standard exemption threshold encoding, where its calculation runs
/// through machine floating point: a fixed function of the rate, the
/// threshold bits and the data length alone (the burn percentage is never
/// read).  It is only named; under the two standard encodings the exact
/// value is written out instead, as `minimum_balance_of`.
pub uninterp spec fn scaled_minimum_of(lamports_per_byte: u64, threshold_bits: u64, data_len: nat) -> u64;

/// The rent-exempt minimum balance the runtime computes for any accepted
/// configuration: the stated integer formula under a standard threshold,
/// and the named floating-point result under any other.
pub open spec fn runtime_minimum_of(cfg: RentConfig, data_len: nat) -> int {
    if standard_threshold(cfg.exemption_threshold_bits) {
        minimum_balance_of(cfg, data_len as int)
    } else {
        scaled_minimum_of(cfg.lamports_per_byte, cfg.exemption_threshold_bits, data_len) as int
    }
}

/// Relies on `Rent::get` (through the `Sysvar` trait): asks the runtime for
/// the current rent configuration.  What comes back depends on the runtime
/// alone; on failure the runtime's error code is returned unchanged.
#[verifier::external_body]
pub(crate) fn fetch_rent() -> (r: Result<RentConfig, u64>) {
    match <solana_program::rent::Rent as solana_program::sysvar::Sysvar>::get() {
        #[allow(deprecated)]
        Ok(rent) => Ok(RentConfig {
            lamports_per_byte: rent.lamports_per_byte,
            exemption_threshold_bits: u64::from_le_bytes(rent.exemption_threshold),
            burn_percent: rent.burn_percent,
        }),
        Err(e) => Err(u64::from(e)),
    }
}

/// Relies on `Rent::try_minimum_balance`: returns the rent-exempt minimum
/// balance for an account of the given data length, or nothing when the
/// length exceeds the permitted maximum or the rate is too high for the
/// balance to fit in 64 bits.  Under either standard threshold the result
/// is computed by integer arithmetic and its exact value is stated; under
/// any other threshold it is the named floating-point result.  The
/// precondition keeps out the one configuration the runtime's own guards
/// miss — a non-standard threshold with a rate so high that the integer
/// product feeding the floating-point step overflows and aborts.
#[verifier::external_body]
fn rent_minimum(cfg: &RentConfig, data_len: usize) -> (r: Option<u64>)
    requires
        standard_threshold(cfg.exemption_threshold_bits) || cfg.lamports_per_byte <= MAX_RATE_THRESHOLD_ONE,
    ensures
        (r is Some) == rent_limits_ok(*cfg, data_len as nat),
        r matches Some(m) ==> (standard_threshold(cfg.exemption_threshold_bits) ==> m == minimum_balance_of(*cfg, data_len as int)),
        r matches Some(m) ==> (!standard_threshold(cfg.exemption_threshold_bits) ==> m == scaled_minimum_of(cfg.lamports_per_byte, cfg.exemption_threshold_bits, data_len as nat)),
{
    #[allow(deprecated)]
    let rent = solana_program::rent::Rent {
        lamports_per_byte: cfg.lamports_per_byte,
        exemption_threshold: cfg.exemption_threshold_bits.to_le_bytes(),
        burn_percent: cfg.burn_percent,
    };
    rent.try_minimum_balance(data_len)
}

/// The balance the new account must be funded to, under the given rent
/// configuration, for a payload of `data_len` bytes.  Succeeds exactly when
/// the limits admit the length and rate, and the returned balance is
/// exactly the runtime's minimum for that configuration.
pub fn required_lamports(cfg: &RentConfig, data_len: usize) -> (r: Result<u64, ProcessError>)
    ensures
        (r is Ok) == rent_limits_ok(*cfg, data_len as nat),
        !rent_limits_ok(*cfg, data_len as nat)
            ==> r == Err::<u64, ProcessError>(ProcessError::RentLimitExceeded),
        r matches Ok(m) ==> m == runtime_minimum_of(*cfg, data_len as nat),
{
    let standard = cfg.exemption_threshold_bits == THRESHOLD_BITS_ONE
        || cfg.exemption_threshold_bits == THRESHOLD_BITS_TWO;
    if !standard && cfg.lamports_per_byte > MAX_RATE_THRESHOLD_ONE {
        return Err(ProcessError::RentLimitExceeded);
    }
    match rent_minimum(cfg, data_len) {
        Some(m) => Ok(m),
        None => Err(ProcessError::RentLimitExceeded),
    }
}

} // verus!
