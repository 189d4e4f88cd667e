//! Substrate chains: numbers arrive as hexadecimal text, the time of a block
//! is read from the storage of the `Timestamp` pallet, and every extrinsic
//! counts as a transaction.

use vstd::prelude::*;
use vstd::string::StringSliceAdditionalSpecFns;
use crate::chain::Chain;
use crate::db::{Block, BlockView, number_before, prev_of};
use crate::hexadecimal::{
    decode_4, decode_8, hex_bytes, hex_value, is_hex, le_value, lemma_eight_bytes,
    lemma_eight_digits, lemma_leading_zeros,
};
use crate::json::{
    JsonError, array_len, array_len_of, as_str, is_null, json_as_str, json_is_null, member,
    member_of, str_member, str_member_of,
};
use vstd::utf8::encode_utf8;

verus! {

/// Why hexadecimal text was refused.
#[derive(Debug, Copy, Clone, PartialEq, Eq, Structural)]
pub enum HexError {
    /// The text does not begin with `0x`.
    MissingPrefix,
    /// There are more digits than the number can hold.
    TooLong,
    /// A character is no hexadecimal digit, or digits are missing.
    Malformed,
}

/// What went wrong in reading an answer of a Substrate node.
#[derive(Debug, Copy, Clone, PartialEq, Eq)]
pub enum SubstrateError {
    Json(JsonError),
    Hex(HexError),
    /// The block number is beyond 32 bits.
    BlockNumberTooLarge,
}

/// The text begins with `0x`.
pub open spec fn has_hex_prefix(text: Seq<u8>) -> bool {
    text.len() >= 2 && text[0] == 0x30 && text[1] == 0x78
}

/// The number written by `0x` and up to eight hexadecimal digits, the
/// first digit counting most.
pub open spec fn be_u32_of(text: Seq<u8>) -> Result<u32, HexError> {
    if !has_hex_prefix(text) {
        Err(HexError::MissingPrefix)
    } else if text.len() > 10 {
        Err(HexError::TooLong)
    } else if !is_hex(text.skip(2)) {
        Err(HexError::Malformed)
    } else {
        Ok(hex_value(text.skip(2)) as u32)
    }
}

/// The number written by `0x` and the sixteen hexadecimal digits of its
/// eight bytes, the first byte counting least.
pub open spec fn le_u64_of(text: Seq<u8>) -> Result<u64, HexError> {
    if !has_hex_prefix(text) {
        Err(HexError::MissingPrefix)
    } else if text.len() > 18 {
        Err(HexError::TooLong)
    } else if text.len() < 18 || !is_hex(text.skip(2)) {
        Err(HexError::Malformed)
    } else {
        Ok(le_value(hex_bytes(text.skip(2))) as u64)
    }
}

fn starts_with_0x(text: &[u8]) -> (prefixed: bool)
    ensures
        prefixed == has_hex_prefix(text@),
{
    text.len() >= 2 && text[0] == 0x30 && text[1] == 0x78
}

/// Reads a block number: `0x` and up to eight digits, most significant
/// first.
pub fn hex_be_to_u32(number_hex: &str) -> (number: Result<u32, HexError>)
    ensures
        number == be_u32_of(number_hex.spec_bytes()),
{
    let text = number_hex.as_bytes();
    if !starts_with_0x(text) {
        return Err(HexError::MissingPrefix);
    }
    if text.len() > 10 {
        return Err(HexError::TooLong);
    }
    let ghost digits = text@.skip(2);
    let missing_zeros = 10 - text.len();
    let mut padded: Vec<u8> = Vec::new();
    let mut at: usize = 0;
    while at < missing_zeros
        invariant
            at <= missing_zeros,
            padded@.len() == at,
            forall|i: int| 0 <= i < at ==> padded@[i] == 0x30,
        decreases missing_zeros - at,
    {
        padded.push(0x30);
        at += 1;
    }
    let ghost zeros = padded@;
    let mut from: usize = 2;
    while from < text.len()
        invariant
            2 <= from <= text.len(),
            padded@ == zeros + text@.subrange(2, from as int),
        decreases text.len() - from,
    {
        padded.push(text[from]);
        assert(text@.subrange(2, from + 1) =~= text@.subrange(2, from as int).push(
            text@[from as int],
        ));
        assert(padded@ =~= zeros + text@.subrange(2, from + 1));
        from += 1;
    }
    assert(text@.subrange(2, text@.len() as int) =~= digits);
    proof {
        assert(is_hex(padded@) <==> is_hex(digits)) by {
            if is_hex(digits) {
                assert forall|i: int| 0 <= i < padded@.len() implies (#[trigger] crate::hexadecimal::hex_digit(
                    padded@[i],
                )) is Some by {
                    if i >= zeros.len() {
                        assert(padded@[i] == digits[i - zeros.len()]);
                    }
                }
            }
            if is_hex(padded@) {
                assert forall|i: int| 0 <= i < digits.len() implies (#[trigger] crate::hexadecimal::hex_digit(
                    digits[i],
                )) is Some by {
                    assert(padded@[i + zeros.len()] == digits[i]);
                }
            }
        }
    }
    match decode_4(padded.as_slice()) {
        Err(_) => Err(HexError::Malformed),
        Ok(bytes) => {
            proof {
                lemma_eight_digits(padded@);
                lemma_leading_zeros(zeros, digits);
            }
            let b0: u32 = bytes[0] as u32;
            let b1: u32 = bytes[1] as u32;
            let b2: u32 = bytes[2] as u32;
            let b3: u32 = bytes[3] as u32;
            Ok(b0 * 0x100_0000 + b1 * 0x1_0000 + b2 * 0x100 + b3)
        },
    }
}

/// Reads a stored 64-bit number: `0x` and the sixteen digits of its eight
/// bytes, least significant byte first.
pub fn hex_le_to_u64(number_hex: &str) -> (number: Result<u64, HexError>)
    ensures
        number == le_u64_of(number_hex.spec_bytes()),
{
    let text = number_hex.as_bytes();
    if !starts_with_0x(text) {
        return Err(HexError::MissingPrefix);
    }
    if text.len() > 18 {
        return Err(HexError::TooLong);
    }
    let digits = vstd::slice::slice_subrange(text, 2, text.len());
    assert(digits@ =~= text@.skip(2));
    match decode_8(digits) {
        Err(_) => Err(HexError::Malformed),
        Ok(bytes) => {
            proof {
                lemma_eight_bytes(bytes@);
            }
            let b0: u64 = bytes[0] as u64;
            let b1: u64 = bytes[1] as u64;
            let b2: u64 = bytes[2] as u64;
            let b3: u64 = bytes[3] as u64;
            let b4: u64 = bytes[4] as u64;
            let b5: u64 = bytes[5] as u64;
            let b6: u64 = bytes[6] as u64;
            let b7: u64 = bytes[7] as u64;
            Ok(
                b0 + b1 * 0x100 + b2 * 0x1_0000 + b3 * 0x100_0000 + b4 * 0x1_0000_0000 + b5
                    * 0x100_0000_0000 + b6 * 0x1_0000_0000_0000 + b7 * 0x100_0000_0000_0000,
            )
        },
    }
}

/// The 128-bit XX hash of `data`: what `sp_crypto_hashing::twox_128`
/// returns.
pub uninterp spec fn twox_128_of(data: Seq<u8>) -> Seq<u8>;

/// `sp_crypto_hashing::twox_128`: the hash of `data`, sixteen bytes that
/// depend on `data` alone. The contract names them.
#[verifier::external_body]
fn twox_128(data: &[u8]) -> (hash: [u8; 16])
    ensures
        hash@ == twox_128_of(data@),
{
    sp_crypto_hashing::twox_128(data)
}

/// The key under which a pallet keeps a value: the hash of the pallet's
/// name, then the hash of the value's name.
pub fn storage_key(pallet: &str, storage: &str) -> (key: Vec<u8>)
    ensures
        key@ == twox_128_of(pallet.spec_bytes()) + twox_128_of(storage.spec_bytes()),
        key@.len() == 32,
{
    let pallet_hash = twox_128(pallet.as_bytes());
    let storage_hash = twox_128(storage.as_bytes());
    let mut key: Vec<u8> = Vec::new();
    let mut at: usize = 0;
    while at < 16
        invariant
            at <= 16,
            key@ == pallet_hash@.take(at as int),
        decreases 16 - at,
    {
        key.push(pallet_hash[at]);
        assert(pallet_hash@.take(at + 1) =~= pallet_hash@.take(at as int).push(
            pallet_hash@[at as int],
        ));
        at += 1;
    }
    assert(pallet_hash@.take(16) =~= pallet_hash@);
    at = 0;
    while at < 16
        invariant
            at <= 16,
            key@ == pallet_hash@ + storage_hash@.take(at as int),
        decreases 16 - at,
    {
        key.push(storage_hash[at]);
        assert(pallet_hash@ + storage_hash@.take(at + 1) =~= (pallet_hash@ + storage_hash@.take(
            at as int,
        )).push(storage_hash@[at as int]));
        at += 1;
    }
    assert(storage_hash@.take(16) =~= storage_hash@);
    key
}

/// What the answer to `chain_getHeader` gives as the head: the member
/// `number`, read as hexadecimal.
pub open spec fn latest_block_number_of(header: serde_json::Value) -> Result<u64, SubstrateError> {
    match str_member_of(header, "number") {
        Err(error) => Err(SubstrateError::Json(error)),
        Ok(text) => match be_u32_of(encode_utf8(text)) {
            Ok(number) => Ok(number as u64),
            Err(error) => Err(SubstrateError::Hex(error)),
        },
    }
}

/// The head of the chain, from the answer to `chain_getHeader`.
pub fn latest_block_number(header: &serde_json::Value) -> (number: Result<u64, SubstrateError>)
    ensures
        number == latest_block_number_of(*header),
{
    match str_member(header, "number") {
        Err(error) => Err(SubstrateError::Json(error)),
        Ok(text) => match hex_be_to_u32(text.as_str()) {
            Ok(number) => Ok(number as u64),
            Err(error) => Err(SubstrateError::Hex(error)),
        },
    }
}

/// The version of the node, from the answer to `state_getRuntimeVersion`:
/// the member `implName`.
pub fn client_version(runtime_version: &serde_json::Value) -> (version: Result<
    String,
    SubstrateError,
>)
    ensures
        match version {
            Ok(name) => str_member_of(*runtime_version, "implName") == Ok::<Seq<char>, JsonError>(
                name@,
            ),
            Err(error) => match str_member_of(*runtime_version, "implName") {
                Err(cause) => error == SubstrateError::Json(cause),
                Ok(_) => false,
            },
        },
{
    match str_member(runtime_version, "implName") {
        Ok(name) => Ok(name),
        Err(error) => Err(SubstrateError::Json(error)),
    }
}

/// The number under which a block is asked for: the node takes 32 bits.
pub fn block_number_argument(block_number: u64) -> (argument: Result<u32, SubstrateError>)
    ensures
        argument == (if block_number <= u32::MAX {
            Ok::<u32, SubstrateError>(block_number as u32)
        } else {
            Err::<u32, SubstrateError>(SubstrateError::BlockNumberTooLarge)
        }),
{
    if block_number <= 0xffff_ffff {
        Ok(block_number as u32)
    } else {
        Err(SubstrateError::BlockNumberTooLarge)
    }
}

/// The hash of a block, from the answer to `chain_getBlockHash`, which must
/// be a string.
pub fn block_hash(answer: &serde_json::Value) -> (hash: Result<String, SubstrateError>)
    ensures
        match hash {
            Ok(text) => json_as_str(*answer) == Some(text@),
            Err(error) => json_as_str(*answer) is None && error == SubstrateError::Json(
                JsonError::NotAString,
            ),
        },
{
    match as_str(answer) {
        Some(text) => Ok(text.to_owned()),
        None => Err(SubstrateError::Json(JsonError::NotAString)),
    }
}

/// The node has no such block: its answer to `chain_getBlock` is `null`.
pub fn block_is_absent(answer: &serde_json::Value) -> (absent: bool)
    ensures
        absent == json_is_null(*answer),
{
    is_null(answer)
}

/// Milliseconds in a second.
pub const MILLIS_PER_SEC: u64 = 1000;

/// The whole seconds of a time that counts milliseconds.
pub fn seconds_of_millis(millis: u64) -> (seconds: u64)
    ensures
        seconds == millis / MILLIS_PER_SEC,
{
    millis / MILLIS_PER_SEC
}

/// The stored value of `Timestamp`/`Now`, which counts milliseconds: the
/// answer to `state_getStorage` must be a string, and is read as a 64-bit
/// number, least significant byte first.
pub open spec fn timestamp_millis_of(answer: serde_json::Value) -> Result<u64, SubstrateError> {
    match json_as_str(answer) {
        None => Err(SubstrateError::Json(JsonError::NotAString)),
        Some(text) => match le_u64_of(encode_utf8(text)) {
            Ok(millis) => Ok(millis),
            Err(error) => Err(SubstrateError::Hex(error)),
        },
    }
}

pub fn timestamp_millis(answer: &serde_json::Value) -> (millis: Result<u64, SubstrateError>)
    ensures
        millis == timestamp_millis_of(*answer),
{
    match as_str(answer) {
        None => Err(SubstrateError::Json(JsonError::NotAString)),
        Some(text) => match hex_le_to_u64(text) {
            Ok(millis) => Ok(millis),
            Err(error) => Err(SubstrateError::Hex(error)),
        },
    }
}

/// The time of a block in seconds, from the stored value of
/// `Timestamp`/`Now`.
pub open spec fn timestamp_of(answer: serde_json::Value) -> Result<u64, SubstrateError> {
    match timestamp_millis_of(answer) {
        Ok(millis) => Ok(millis / MILLIS_PER_SEC),
        Err(error) => Err(error),
    }
}

pub fn timestamp(answer: &serde_json::Value) -> (seconds: Result<u64, SubstrateError>)
    ensures
        seconds == timestamp_of(*answer),
{
    match timestamp_millis(answer) {
        Ok(millis) => Ok(seconds_of_millis(millis)),
        Err(error) => Err(error),
    }
}

/// What the answer to `chain_getBlock` says of a block that the other
/// calls do not: the hash of its parent and the number of its extrinsics.
#[derive(Debug, Clone, PartialEq, Eq)]
pub struct SubstrateBlock {
    pub parent_hash: String,
    pub extrinsics: usize,
}

/// A [`SubstrateBlock`] as a mathematical value.
pub struct SubstrateBlockView {
    pub parent_hash: Seq<char>,
    pub extrinsics: usize,
}

impl View for SubstrateBlock {
    type V = SubstrateBlockView;

    open spec fn view(&self) -> SubstrateBlockView {
        SubstrateBlockView { parent_hash: self.parent_hash@, extrinsics: self.extrinsics }
    }
}

/// What the answer to `chain_getBlock` says: the parent hash stands under
/// `block.header.parentHash`, the extrinsics under `block.extrinsics`. The
/// members are looked for in this order: the block, its header, the
/// extrinsics, the parent hash.
pub open spec fn substrate_block_of(answer: serde_json::Value) -> Result<
    SubstrateBlockView,
    JsonError,
> {
    match member_of(answer, "block") {
        Err(error) => Err(error),
        Ok(block) => match member_of(block, "header") {
            Err(error) => Err(error),
            Ok(header) => match array_len_of(block, "extrinsics") {
                Err(error) => Err(error),
                Ok(extrinsics) => match str_member_of(header, "parentHash") {
                    Err(error) => Err(error),
                    Ok(parent_hash) => Ok(
                        SubstrateBlockView { parent_hash, extrinsics: extrinsics as usize },
                    ),
                },
            },
        },
    }
}

/// Reads the answer to `chain_getBlock`.
pub fn substrate_block(answer: &serde_json::Value) -> (read: Result<SubstrateBlock, JsonError>)
    ensures
        match read {
            Ok(found) => substrate_block_of(*answer) == Ok::<SubstrateBlockView, JsonError>(
                found@,
            ),
            Err(error) => substrate_block_of(*answer) == Err::<SubstrateBlockView, JsonError>(
                error,
            ),
        },
{
    let block = match member(answer, "block") {
        Ok(block) => block,
        Err(error) => return Err(error),
    };
    let header = match member(block, "header") {
        Ok(header) => header,
        Err(error) => return Err(error),
    };
    let extrinsics = match array_len(block, "extrinsics") {
        Ok(extrinsics) => extrinsics,
        Err(error) => return Err(error),
    };
    let parent_hash = match str_member(header, "parentHash") {
        Ok(parent_hash) => parent_hash,
        Err(error) => return Err(error),
    };
    Ok(SubstrateBlock { parent_hash, extrinsics })
}

/// The canonical block of a block whose number, hash and time are known
/// from the other calls: blocks are numbered without gaps, and every
/// extrinsic counts as a transaction.
pub open spec fn canonical_block(
    chain: Chain,
    found: SubstrateBlockView,
    block_number: u64,
    hash: Seq<char>,
    timestamp: u64,
) -> BlockView {
    BlockView {
        chain,
        block_number,
        prev_block_number: number_before(block_number),
        timestamp,
        num_txs: found.extrinsics as u64,
        hash,
        parent_hash: found.parent_hash,
    }
}

pub fn block_from_parts(
    chain: Chain,
    found: SubstrateBlock,
    block_number: u64,
    hash: String,
    timestamp: u64,
) -> (canonical: Block)
    ensures
        canonical@ == canonical_block(chain, found@, block_number, hash@, timestamp),
{
    Block {
        chain,
        block_number,
        prev_block_number: prev_of(block_number),
        timestamp,
        num_txs: found.extrinsics as u64,
        hash,
        parent_hash: found.parent_hash,
    }
}

/// The block that the answer to `chain_getBlock` describes: the canonical
/// block of what it says.
pub open spec fn block_of(
    chain: Chain,
    answer: serde_json::Value,
    block_number: u64,
    hash: Seq<char>,
    timestamp: u64,
) -> Result<BlockView, JsonError> {
    match substrate_block_of(answer) {
        Ok(found) => Ok(canonical_block(chain, found, block_number, hash, timestamp)),
        Err(error) => Err(error),
    }
}

pub fn substrate_block_to_block(
    chain: Chain,
    answer: &serde_json::Value,
    block_number: u64,
    hash: String,
    timestamp: u64,
) -> (converted: Result<Block, SubstrateError>)
    ensures
        match converted {
            Ok(block) => block_of(chain, *answer, block_number, hash@, timestamp) == Ok::<
                BlockView,
                JsonError,
            >(block@),
            Err(error) => match block_of(chain, *answer, block_number, hash@, timestamp) {
                Err(cause) => error == SubstrateError::Json(cause),
                Ok(_) => false,
            },
        },
{
    match substrate_block(answer) {
        Ok(found) => Ok(block_from_parts(chain, found, block_number, hash, timestamp)),
        Err(error) => Err(SubstrateError::Json(error)),
    }
}

} // verus!
