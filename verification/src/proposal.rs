//! Proposals as bytes: the encoded call that sets a balance, its hash, and
//! the filter that keeps such calls from being dispatched directly.

use crate::store::ProposalHash;
use parity_scale_codec::{Compact, Encode};
use sp_core::Hasher;
use sp_runtime::traits::BlakeTwo256;
use vstd::prelude::*;

verus! {

/// The position of the balances module among the modules that take calls.
pub const BALANCES_MODULE: u8 = 1;

/// The position of the call that sets a balance among the calls of the
/// balances module.
pub const SET_BALANCE_CALL: u8 = 1;

/// The account whose balance the bundled proposal sets.
pub const BENEFICIARY: u64 = 42;

/// The `width` lowest bytes of `value`, lowest first.
pub open spec fn le_bytes(value: nat, width: nat) -> Seq<u8>
    decreases width,
{
    if width == 0 {
        Seq::<u8>::empty()
    } else {
        seq![(value % 256) as u8] + le_bytes(value / 256, (width - 1) as nat)
    }
}

/// The number of bytes, four at least, that `value` needs.
pub open spec fn bytes_needed(value: u64) -> nat {
    if value < 0x1_0000_0000 {
        4
    } else if value < 0x100_0000_0000 {
        5
    } else if value < 0x1_0000_0000_0000 {
        6
    } else if value < 0x100_0000_0000_0000 {
        7
    } else {
        8
    }
}

/// The compact encoding of `value`: one, two or four bytes that hold four
/// times the value plus a mode of 0, 1 or 2 where the value is below 2^6,
/// 2^14 or 2^30, and otherwise a byte that tells the number of bytes that
/// follow, and the value in that many bytes.
pub open spec fn compact_bytes(value: u64) -> Seq<u8> {
    if value < 0x40 {
        seq![(value * 4) as u8]
    } else if value < 0x4000 {
        le_bytes((value * 4 + 1) as nat, 2)
    } else if value < 0x4000_0000 {
        le_bytes((value * 4 + 2) as nat, 4)
    } else {
        seq![(3 + (bytes_needed(value) - 4) * 4) as u8] + le_bytes(
            value as nat,
            bytes_needed(value),
        )
    }
}

/// The encoded call that sets the free balance of the beneficiary to
/// `value` and its reserved balance to nothing: the module, the call, the
/// account in eight bytes, and the two balances in compact form.
pub open spec fn set_balance_bytes(value: u64) -> Seq<u8> {
    seq![BALANCES_MODULE, SET_BALANCE_CALL] + le_bytes(BENEFICIARY as nat, 8) + compact_bytes(value)
        + compact_bytes(0)
}

/// Whether `call` is an encoded call that sets a balance.
pub open spec fn is_set_balance(call: Seq<u8>) -> bool {
    call.len() >= 2 && call[0] == BALANCES_MODULE && call[1] == SET_BALANCE_CALL
}

/// The BLAKE2b hash of 256 bits of `data`.
pub uninterp spec fn blake2_256(data: Seq<u8>) -> Seq<u8>;

/// Calls `Encode::encode` on a `u64`. Believed of it: the result is the
/// eight bytes of the value, lowest first.
#[verifier::external_body]
fn encode_u64(value: u64) -> (bytes: Vec<u8>)
    ensures
        bytes@ == le_bytes(value as nat, 8),
{
    value.encode()
}

/// Calls `Encode::encode` on a `Compact<u64>`. Believed of it: the result
/// is the compact encoding of the value.
#[verifier::external_body]
fn encode_compact_u64(value: u64) -> (bytes: Vec<u8>)
    ensures
        bytes@ == compact_bytes(value),
{
    Compact(value).encode()
}

/// Calls `Hasher::hash` of `BlakeTwo256` and hands back the 32 bytes of
/// the hash. Believed of it: the result is the BLAKE2b hash of 256 bits of
/// the data, and so depends on the data alone.
#[verifier::external_body]
fn blake_two_256(data: &Vec<u8>) -> (hash: ProposalHash)
    ensures
        hash@ == blake2_256(data@),
{
    <BlakeTwo256 as Hasher>::hash(data.as_slice()).0
}

/// The encoded call that sets the free balance of the beneficiary to
/// `value`.
pub fn set_balance_proposal(value: u64) -> (call: Vec<u8>)
    ensures
        call@ == set_balance_bytes(value),
        is_set_balance(call@),
{
    let mut call: Vec<u8> = Vec::new();
    call.push(BALANCES_MODULE);
    call.push(SET_BALANCE_CALL);
    let mut who = encode_u64(BENEFICIARY);
    let mut free = encode_compact_u64(value);
    let mut held = encode_compact_u64(0);
    call.append(&mut who);
    call.append(&mut free);
    call.append(&mut held);
    assert(call@ =~= set_balance_bytes(value));
    call
}

/// The hash of the encoded call that sets the free balance of the
/// beneficiary to `value`.
pub fn set_balance_proposal_hash(value: u64) -> (hash: ProposalHash)
    ensures
        hash@ == blake2_256(set_balance_bytes(value)),
{
    let call = set_balance_proposal(value);
    blake_two_256(&call)
}

/// The filter on calls that are dispatched directly: it lets every call
/// through but one that sets a balance.
#[derive(Clone, Copy, Debug)]
pub struct BaseFilter;

impl BaseFilter {
    /// Whether the encoded `call` may be dispatched directly.
    pub fn contains(call: &Vec<u8>) -> (r: bool)
        ensures
            r == !is_set_balance(call@),
    {
        !(call.len() >= 2 && call[0] == BALANCES_MODULE && call[1] == SET_BALANCE_CALL)
    }
}

/// The filter stops every call that sets a balance, whatever the balance.
pub proof fn lemma_filter_stops_set_balance(value: u64)
    ensures
        is_set_balance(set_balance_bytes(value)),
{
}

} // verus!
