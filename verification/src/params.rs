use vstd::prelude::*;

verus! {

/// Byte width of an ethereum address field in pubdata.
pub const ETH_ADDRESS_BYTES: usize = 20;

/// Byte width of a token id field in pubdata.
pub const TOKEN_BYTES: usize = 2;

/// Byte width of a balance (amount) field in pubdata.
pub const BALANCE_BYTES: usize = 16;

/// Byte width of an account id field in pubdata: one byte narrower than the
/// 32-bit integer that stores it in memory.
pub const ACCOUNT_ID_BYTES: usize = 3;

/// Byte width of a recipient address field in pubdata.
pub const FR_ADDRESS_BYTES: usize = 20;

/// Discriminant byte of a deposit operation.
pub const DEPOSIT_OP_CODE: u8 = 1;

/// Discriminant byte of a full-exit operation.
pub const FULL_EXIT_OP_CODE: u8 = 6;

/// Block-chunk cost of a deposit operation.
pub const DEPOSIT_CHUNKS: usize = 6;

/// Block-chunk cost of a full-exit operation.
pub const FULL_EXIT_CHUNKS: usize = 6;

/// Exact pubdata length of a deposit:
/// sender address, token id, amount, recipient address.
pub const DEPOSIT_PUBDATA_BYTES: usize = ETH_ADDRESS_BYTES + TOKEN_BYTES + BALANCE_BYTES
    + FR_ADDRESS_BYTES;

/// Exact pubdata length of a full exit: account id, address, token id.
pub const FULL_EXIT_PUBDATA_BYTES: usize = ACCOUNT_ID_BYTES + ETH_ADDRESS_BYTES + TOKEN_BYTES;

/// Length of the canonical full-exit encoding: a one-byte tag followed by the
/// pubdata fields.
pub const FULL_EXIT_ENCODED_BYTES: usize = 1 + FULL_EXIT_PUBDATA_BYTES;

/// Exclusive upper bound on an account id: the largest value that fits the
/// protocol's account-id byte width.
pub const ACCOUNT_ID_LIMIT: u32 = 0x100_0000;

/// Byte width of a 256-bit unsigned integer word in the event envelope.
pub const ABI_WORD_BYTES: usize = 32;

} // verus!
