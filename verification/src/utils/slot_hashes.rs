//! The entropy table: recent slots and the hash of each.
//!
//! The table is a byte string. It starts with the number of its entries, 8
//! bytes with the low byte first; each entry is a slot, 8 bytes with the
//! low byte first, and the 32 bytes of that slot's hash. The entries are in
//! no promised order.

use vstd::prelude::*;
use anchor_lang::prelude::Pubkey;
use crate::constants::MIN_RANDOMNESS_DELAY_SLOTS;
use crate::errors::RpgError;
use crate::utils::validation::{reveal_due, reveal_slot_of, validate_randomness_delay};

verus! {

/// Bytes of the entry count at the head of the table.
pub const TABLE_HEADER_LEN: usize = 8;

/// Bytes of one entry: a slot and its hash.
pub const TABLE_ENTRY_LEN: usize = 40;

/// The number that eight bytes hold, low byte first.
pub open spec fn le_u64(bytes: Seq<u8>) -> int
    recommends
        bytes.len() == 8,
{
    bytes[0] as int + 0x100 * (bytes[1] as int) + 0x1_0000 * (bytes[2] as int) + 0x100_0000 * (
    bytes[3] as int) + 0x1_0000_0000 * (bytes[4] as int) + 0x100_0000_0000 * (bytes[5] as int)
        + 0x1_0000_0000_0000 * (bytes[6] as int) + 0x100_0000_0000_0000 * (bytes[7] as int)
}

/// The number of entries that the table says it has.
pub open spec fn entry_count(data: Seq<u8>) -> int
    recommends
        data.len() >= 8,
{
    le_u64(data.subrange(0, 8))
}

/// The number of entries that can be read: those that the table says it
/// has, as far as its bytes hold them in full.
pub open spec fn readable_entries(data: Seq<u8>) -> int
    recommends
        data.len() >= 8,
{
    let held = (data.len() - 8) / 40;
    if entry_count(data) <= held {
        entry_count(data)
    } else {
        held
    }
}

/// The slot of entry `i`.
pub open spec fn entry_slot(data: Seq<u8>, i: int) -> int
    recommends
        0 <= i,
        48 + 40 * i <= data.len(),
{
    le_u64(data.subrange(8 + 40 * i, 16 + 40 * i))
}

/// The hash of entry `i`.
pub open spec fn entry_hash(data: Seq<u8>, i: int) -> Seq<u8>
    recommends
        0 <= i,
        48 + 40 * i <= data.len(),
{
    data.subrange(16 + 40 * i, 48 + 40 * i)
}

/// Some readable entry is for `slot`.
pub open spec fn has_slot(data: Seq<u8>, slot: int) -> bool {
    exists|i: int| 0 <= i < readable_entries(data) && entry_slot(data, i) == slot
}

/// Entry `i` is the first one for `slot`.
pub open spec fn is_first_match(data: Seq<u8>, slot: int, i: int) -> bool {
    &&& 0 <= i < readable_entries(data)
    &&& entry_slot(data, i) == slot
    &&& forall|j: int| 0 <= j < i ==> entry_slot(data, j) != slot
}

/// The index of the first entry for `slot`, where there is one.
pub open spec fn first_match(data: Seq<u8>, slot: int) -> int {
    choose|i: int| is_first_match(data, slot, i)
}

/// The hash that the table gives for `slot`: that of the first entry for
/// it.
pub open spec fn slot_hash_of(data: Seq<u8>, slot: int) -> Seq<u8>
    recommends
        has_slot(data, slot),
{
    entry_hash(data, first_match(data, slot))
}

/// The table cannot be read for `slot`: it is too short for its own header,
/// or it ends before the entries that it says it has, with none for `slot`
/// among those it holds.
pub open spec fn table_malformed(data: Seq<u8>, slot: int) -> bool {
    data.len() < 8 || (!has_slot(data, slot) && readable_entries(data) < entry_count(data))
}

/// Why a session committed at `commit_slot` cannot have its entropy bound
/// at `current_slot`, or `None` where it can.
///
/// Too early is `RandomnessNotResolved`, and worth another try later. An
/// account that is not the entropy table, or a table that cannot be read,
/// is `InvalidSlotHashes`. A whole table without the slot is
/// `SlotNotFound`: the window has passed, and the session can only be
/// cancelled.
pub open spec fn reveal_rejection(
    commit_slot: int,
    current_slot: int,
    table_is_sysvar: bool,
    data: Seq<u8>,
) -> Option<RpgError> {
    if !reveal_due(current_slot, commit_slot) {
        Some(RpgError::RandomnessNotResolved)
    } else if !table_is_sysvar {
        Some(RpgError::InvalidSlotHashes)
    } else if table_malformed(data, reveal_slot_of(commit_slot)) {
        Some(RpgError::InvalidSlotHashes)
    } else if !has_slot(data, reveal_slot_of(commit_slot)) {
        Some(RpgError::SlotNotFound)
    } else {
        None
    }
}

/// Whether `key` is the address of the slot hashes sysvar.
pub uninterp spec fn slot_hashes_address(key: Pubkey) -> bool;

/// Calls `check_id` of the slot hashes sysvar, which compares the key with
/// the sysvar's fixed address. The contract only names the answer, as a
/// function of the key.
#[verifier::external_body]
pub(crate) fn is_slot_hashes_key(key: &Pubkey) -> (is_sysvar: bool)
    ensures
        is_sysvar == slot_hashes_address(*key),
{
    anchor_lang::solana_program::sysvar::slot_hashes::check_id(key)
}

/// Reads eight bytes at `pos` as a number, low byte first.
pub fn read_u64_le(data: &[u8], pos: usize) -> (value: u64)
    requires
        pos + 8 <= data@.len(),
    ensures
        value == le_u64(data@.subrange(pos as int, pos + 8)),
{
    let b0: u64 = data[pos] as u64;
    let b1: u64 = data[pos + 1] as u64;
    let b2: u64 = data[pos + 2] as u64;
    let b3: u64 = data[pos + 3] as u64;
    let b4: u64 = data[pos + 4] as u64;
    let b5: u64 = data[pos + 5] as u64;
    let b6: u64 = data[pos + 6] as u64;
    let b7: u64 = data[pos + 7] as u64;
    b0 + 0x100 * b1 + 0x1_0000 * b2 + 0x100_0000 * b3 + 0x1_0000_0000 * b4 + 0x100_0000_0000 * b5
        + 0x1_0000_0000_0000 * b6 + 0x100_0000_0000_0000 * b7
}

/// Copies the 32 bytes at `pos`.
pub fn read_hash(data: &[u8], pos: usize) -> (hash: [u8; 32])
    requires
        pos + 32 <= data@.len(),
    ensures
        hash@ == data@.subrange(pos as int, pos + 32),
{
    let len: usize = data.len();
    let mut hash: [u8; 32] = [0u8; 32];
    let mut k: usize = 0;
    while k < 32
        invariant
            k <= 32,
            pos + 32 <= len,
            len == data@.len(),
            forall|j: int| 0 <= j < k ==> hash@[j] == data@[pos + j],
        decreases 32 - k,
    {
        hash[k] = data[pos + k];
        k += 1;
    }
    hash
}

/// Looks `target_slot` up in the entropy table.
///
/// The entries are read from the first on, and the first one for the slot
/// gives the hash. `Ok(None)` says that the table is whole and has no entry
/// for the slot: the slot has left the window, or is not in it yet. A table
/// that cannot be read is `InvalidSlotHashes`.
pub fn find_slot_hash(data: &[u8], target_slot: u64) -> (found: Result<Option<[u8; 32]>, RpgError>)
    ensures
        table_malformed(data@, target_slot as int) ==> found == Err::<Option<[u8; 32]>, RpgError>(
            RpgError::InvalidSlotHashes,
        ),
        !table_malformed(data@, target_slot as int) ==> found.is_ok() && match found.unwrap() {
            Some(hash) => has_slot(data@, target_slot as int) && hash@ == slot_hash_of(
                data@,
                target_slot as int,
            ),
            None => !has_slot(data@, target_slot as int),
        },
{
    if data.len() < TABLE_HEADER_LEN {
        return Err(RpgError::InvalidSlotHashes);
    }
    let len: usize = data.len();
    let count: u64 = read_u64_le(data, 0);
    let held: usize = (len - TABLE_HEADER_LEN) / TABLE_ENTRY_LEN;
    let mut i: usize = 0;
    while i < held && (i as u64) < count
        invariant
            len == data@.len(),
            len >= 8,
            count == entry_count(data@),
            held == (len - 8) / 40,
            i <= held,
            i <= count,
            forall|j: int| 0 <= j < i ==> entry_slot(data@, j) != target_slot,
        decreases held - i,
    {
        let pos: usize = TABLE_HEADER_LEN + TABLE_ENTRY_LEN * i;
        let slot: u64 = read_u64_le(data, pos);
        if slot == target_slot {
            let hash = read_hash(data, pos + 8);
            proof {
                lemma_first_match_unique(data@, target_slot as int, i as int);
            }
            return Ok(Some(hash));
        }
        i += 1;
    }
    if (i as u64) < count {
        Err(RpgError::InvalidSlotHashes)
    } else {
        Ok(None)
    }
}

/// The seed of a session committed at `commit_slot`, read from the entropy
/// table at `current_slot`: the hash of the slot that lies the minimum delay
/// after the commit.
///
/// `table_is_sysvar` says whether the account that `data` was read from is
/// the slot hashes sysvar.
pub fn reveal_seed(commit_slot: u64, current_slot: u64, table_is_sysvar: bool, data: &[u8]) -> (seed:
    Result<[u8; 32], RpgError>)
    ensures
        match reveal_rejection(commit_slot as int, current_slot as int, table_is_sysvar, data@) {
            Some(error) => seed == Err::<[u8; 32], RpgError>(error),
            None => seed.is_ok() && seed.unwrap()@ == slot_hash_of(
                data@,
                reveal_slot_of(commit_slot as int),
            ),
        },
{
    match validate_randomness_delay(current_slot, commit_slot) {
        Err(error) => {
            return Err(error);
        },
        Ok(()) => {},
    }
    let reveal_slot: u64 = commit_slot + MIN_RANDOMNESS_DELAY_SLOTS;
    if !table_is_sysvar {
        return Err(RpgError::InvalidSlotHashes);
    }
    match find_slot_hash(data, reveal_slot) {
        Err(error) => Err(error),
        Ok(None) => Err(RpgError::SlotNotFound),
        Ok(Some(hash)) => Ok(hash),
    }
}

/// A slot has one first entry at most: where entry `i` is the first for
/// `slot`, the table has the slot, and `first_match` is `i`.
pub proof fn lemma_first_match_unique(data: Seq<u8>, slot: int, i: int)
    requires
        is_first_match(data, slot, i),
    ensures
        has_slot(data, slot),
        first_match(data, slot) == i,
{
    let k = first_match(data, slot);
    assert(is_first_match(data, slot, k));
    if k < i {
        assert(entry_slot(data, k) != slot);
    } else if i < k {
        assert(entry_slot(data, i) != slot);
    }
}

/// Before the minimum delay has passed no entropy is bound, whatever the
/// table holds: the answer is `RandomnessNotResolved`.
pub proof fn lemma_reveal_too_early(
    commit_slot: int,
    current_slot: int,
    table_is_sysvar: bool,
    data: Seq<u8>,
)
    requires
        current_slot < commit_slot + MIN_RANDOMNESS_DELAY_SLOTS,
    ensures
        reveal_rejection(commit_slot, current_slot, table_is_sysvar, data) == Some(
            RpgError::RandomnessNotResolved,
        ),
{
}

} // verus!
