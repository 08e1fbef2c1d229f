use rpg_program::errors::RpgError;
use rpg_program::utils::slot_hashes::{find_slot_hash, read_hash, read_u64_le, reveal_seed};

fn table_of(entries: &[(u64, [u8; 32])]) -> Vec<u8> {
    let mut data = Vec::new();
    data.extend_from_slice(&(entries.len() as u64).to_le_bytes());
    for (slot, hash) in entries {
        data.extend_from_slice(&slot.to_le_bytes());
        data.extend_from_slice(hash);
    }
    data
}

fn table_hash(tag: u8) -> [u8; 32] {
    let mut hash = [tag; 32];
    hash[0] = 0xa0;
    hash[31] = 0x0f;
    hash
}

#[test]
fn numbers_are_read_low_byte_first() {
    let data: Vec<u8> = vec![9, 1, 2, 3, 4, 5, 6, 7, 8, 9];
    assert_eq!(read_u64_le(&data, 1), 0x0807060504030201);
    assert_eq!(read_u64_le(&data, 0), 0x0706050403020109);
    assert_eq!(read_u64_le(&[0xff; 8], 0), u64::MAX);
    assert_eq!(read_u64_le(&1234567890123u64.to_le_bytes(), 0), 1234567890123);
}

#[test]
fn a_hash_is_the_next_32_bytes() {
    let mut data: Vec<u8> = Vec::new();
    for i in 0..40u8 {
        data.push(i);
    }
    let hash = read_hash(&data, 3);
    for k in 0..32usize {
        assert_eq!(hash[k], (k + 3) as u8);
    }
}

#[test]
fn the_entry_for_the_slot_gives_the_hash() {
    let data = table_of(&[(105, table_hash(1)), (104, table_hash(2)), (103, table_hash(3))]);
    assert_eq!(find_slot_hash(&data, 105), Ok(Some(table_hash(1))));
    assert_eq!(find_slot_hash(&data, 104), Ok(Some(table_hash(2))));
    assert_eq!(find_slot_hash(&data, 103), Ok(Some(table_hash(3))));
}

#[test]
fn the_table_need_not_be_sorted() {
    let data = table_of(&[(7, table_hash(1)), (900, table_hash(2)), (12, table_hash(3))]);
    assert_eq!(find_slot_hash(&data, 12), Ok(Some(table_hash(3))));
    assert_eq!(find_slot_hash(&data, 900), Ok(Some(table_hash(2))));
}

#[test]
fn the_first_of_two_entries_for_a_slot_wins() {
    let data = table_of(&[(5, table_hash(1)), (6, table_hash(2)), (6, table_hash(3))]);
    assert_eq!(find_slot_hash(&data, 6), Ok(Some(table_hash(2))));
}

#[test]
fn a_slot_outside_the_window_is_not_found() {
    let data = table_of(&[(105, table_hash(1)), (104, table_hash(2))]);
    assert_eq!(find_slot_hash(&data, 103), Ok(None));
    assert_eq!(find_slot_hash(&data, 106), Ok(None));
    assert_eq!(find_slot_hash(&table_of(&[]), 0), Ok(None));
}

#[test]
fn bytes_past_the_counted_entries_are_not_read() {
    let mut data = table_of(&[(105, table_hash(1))]);
    data.extend_from_slice(&104u64.to_le_bytes());
    data.extend_from_slice(&table_hash(2));
    assert_eq!(find_slot_hash(&data, 104), Ok(None));
    assert_eq!(find_slot_hash(&data, 105), Ok(Some(table_hash(1))));
}

#[test]
fn a_table_without_its_header_is_malformed() {
    assert_eq!(find_slot_hash(&[], 5), Err(RpgError::InvalidSlotHashes));
    assert_eq!(find_slot_hash(&[1, 0, 0, 0, 0, 0, 0], 5), Err(RpgError::InvalidSlotHashes));
}

#[test]
fn a_table_that_ends_early_is_malformed() {
    let mut data = table_of(&[(105, table_hash(1)), (104, table_hash(2))]);
    data.truncate(8 + 40 + 39);
    assert_eq!(find_slot_hash(&data, 104), Err(RpgError::InvalidSlotHashes));
    assert_eq!(find_slot_hash(&data, 1), Err(RpgError::InvalidSlotHashes));
    // The entry that is there in full is still read.
    assert_eq!(find_slot_hash(&data, 105), Ok(Some(table_hash(1))));
}

#[test]
fn a_count_beyond_the_bytes_is_malformed() {
    let mut data = table_of(&[(105, table_hash(1))]);
    data[..8].copy_from_slice(&u64::MAX.to_le_bytes());
    assert_eq!(find_slot_hash(&data, 104), Err(RpgError::InvalidSlotHashes));
    assert_eq!(find_slot_hash(&data, 105), Ok(Some(table_hash(1))));
}

#[test]
fn the_seed_is_the_hash_two_slots_after_the_commit() {
    let data = table_of(&[(13, table_hash(3)), (12, table_hash(2)), (11, table_hash(1))]);
    assert_eq!(reveal_seed(10, 12, true, &data), Ok(table_hash(2)));
    assert_eq!(reveal_seed(10, 500, true, &data), Ok(table_hash(2)));
    assert_eq!(reveal_seed(11, 13, true, &data), Ok(table_hash(3)));
    assert_eq!(reveal_seed(9, 13, true, &data), Ok(table_hash(1)));
}

#[test]
fn a_reveal_before_the_delay_is_not_ready() {
    let data = table_of(&[(12, table_hash(2))]);
    assert_eq!(reveal_seed(10, 10, true, &data), Err(RpgError::RandomnessNotResolved));
    assert_eq!(reveal_seed(10, 11, true, &data), Err(RpgError::RandomnessNotResolved));
    // Too early comes before anything that is wrong with the table.
    assert_eq!(reveal_seed(10, 11, false, &[]), Err(RpgError::RandomnessNotResolved));
    assert_eq!(reveal_seed(u64::MAX, u64::MAX, true, &data), Err(RpgError::RandomnessNotResolved));
}

#[test]
fn a_reveal_needs_the_real_table() {
    let data = table_of(&[(12, table_hash(2))]);
    assert_eq!(reveal_seed(10, 12, false, &data), Err(RpgError::InvalidSlotHashes));
    assert_eq!(reveal_seed(10, 12, true, &data[..47]), Err(RpgError::InvalidSlotHashes));
    assert_eq!(reveal_seed(10, 12, true, &[]), Err(RpgError::InvalidSlotHashes));
}

#[test]
fn a_reveal_after_the_window_finds_no_slot() {
    let data = table_of(&[(40, table_hash(4)), (39, table_hash(3))]);
    assert_eq!(reveal_seed(10, 41, true, &data), Err(RpgError::SlotNotFound));
}
