use poolrace::detect::MeteoraController;
use poolrace::ids::pool_program;
use poolrace::ids::reference_mint;
use poolrace::ids::AccountId;
use poolrace::ids::BlockHash;
use poolrace::instr::AccountCounts;
use poolrace::instr::RawInstruction;
use poolrace::instr::TxRecord;
use poolrace::swap::TradeDirection;
use solana_sdk::pubkey::Pubkey;

fn key(n: u64) -> AccountId {
    AccountId { w0: n, w1: 5, w2: 6, w3: 7 }
}

fn owner() -> AccountId {
    AccountId { w0: 77, w1: 0, w2: 0, w3: 0 }
}

fn hash(n: u64) -> BlockHash {
    BlockHash { w0: n, w1: 0, w2: 0, w3: 0 }
}

const DISCRIM_V2: [u8; 8] = [0x30, 0x95, 0xdc, 0x82, 0x3d, 0x0b, 0x09, 0xb2];
const DISCRIM_V1: [u8; 8] = [0x22, 0x80, 0x79, 0x2d, 0xab, 0x3e, 0xd2, 0x7e];

/// A record whose only instruction is a pool creation with the given mints at
/// positions 3 and 4, using 24 accounts at static indices 1..=24 and the pool
/// program at static index 0.
fn pool_record(discrim: [u8; 8], mint_a: AccountId, mint_b: AccountId, bh: u64) -> TxRecord {
    let mut static_keys = vec![pool_program()];
    let mut account_indices = Vec::new();
    for i in 0..24u8 {
        let k = match i {
            3 => mint_a,
            4 => mint_b,
            _ => key(2000 + i as u64),
        };
        static_keys.push(k);
        account_indices.push(1 + i);
    }
    let mut data = discrim.to_vec();
    data.extend_from_slice(&[0, 0, 0, 0]);
    TxRecord {
        counts: AccountCounts {
            num_required_signatures: 0,
            num_readonly_signed: 0,
            num_readonly_unsigned: 0,
        },
        static_keys,
        loaded_writable: vec![],
        loaded_readonly: vec![],
        top_instructions: vec![RawInstruction {
            program_id_index: 0,
            account_indices,
            data,
        }],
        inner_groups: vec![],
        recent_blockhash: hash(bh),
    }
}

fn id_to_pubkey(id: &AccountId) -> Pubkey {
    let mut b = [0u8; 32];
    b[0..8].copy_from_slice(&id.w0.to_le_bytes());
    b[8..16].copy_from_slice(&id.w1.to_le_bytes());
    b[16..24].copy_from_slice(&id.w2.to_le_bytes());
    b[24..32].copy_from_slice(&id.w3.to_le_bytes());
    Pubkey::new_from_array(b)
}

fn pubkey_to_id(pk: &Pubkey) -> AccountId {
    let b = pk.to_bytes();
    AccountId {
        w0: u64::from_le_bytes(b[0..8].try_into().unwrap()),
        w1: u64::from_le_bytes(b[8..16].try_into().unwrap()),
        w2: u64::from_le_bytes(b[16..24].try_into().unwrap()),
        w3: u64::from_le_bytes(b[24..32].try_into().unwrap()),
    }
}

#[test]
fn reference_at_position_3_gives_a_to_b_and_fee_16() {
    let target = key(9001);
    let record = pool_record(DISCRIM_V2, reference_mint(), target, 1);
    let mut c = MeteoraController::new(owner());
    let plan = c
        .transaction_handler(&record)
        .expect("no extraction error")
        .expect("fires");
    assert_eq!(plan.params.direction, TradeDirection::AtoB);
    assert_eq!(plan.params.protocol_token_fee, key(2016));
    assert_eq!(plan.params.mint_target_token, target);
    assert_eq!(plan.params.pool, key(2000));
    assert_eq!(plan.params.a_vault, key(2005));
    assert_eq!(plan.params.b_vault, key(2006));
    assert_eq!(plan.params.a_token_vault, key(2007));
    assert_eq!(plan.params.b_token_vault, key(2008));
    assert_eq!(plan.params.a_vault_lp_mint, key(2009));
    assert_eq!(plan.params.b_vault_lp_mint, key(2010));
    assert_eq!(plan.params.a_vault_lp, key(2011));
    assert_eq!(plan.params.b_vault_lp, key(2012));
    assert_eq!(plan.params.vault_program, key(2022));
    assert_eq!(plan.params.token_program, key(2023));
    assert_eq!(plan.recent_blockhash, hash(1));
    // The user's accounts are the chain's associated-account derivation.
    let expected_source = spl_associated_token_account::get_associated_token_address(
        &id_to_pubkey(&owner()),
        &id_to_pubkey(&reference_mint()),
    );
    let expected_dest = spl_associated_token_account::get_associated_token_address(
        &id_to_pubkey(&owner()),
        &id_to_pubkey(&target),
    );
    assert_eq!(plan.params.user_source, pubkey_to_id(&expected_source));
    assert_eq!(plan.params.user_destination, pubkey_to_id(&expected_dest));
}

#[test]
fn reference_at_position_4_gives_b_to_a_and_fee_17() {
    let target = key(9002);
    let record = pool_record(DISCRIM_V1, target, reference_mint(), 2);
    let mut c = MeteoraController::new(owner());
    let plan = c
        .transaction_handler(&record)
        .expect("no extraction error")
        .expect("fires");
    assert_eq!(plan.params.direction, TradeDirection::BtoA);
    assert_eq!(plan.params.protocol_token_fee, key(2017));
    assert_eq!(plan.params.mint_target_token, target);
}

#[test]
fn non_reference_pool_never_triggers() {
    let record = pool_record(DISCRIM_V2, key(9003), key(9004), 3);
    let mut c = MeteoraController::new(owner());
    let outcome = c.transaction_handler(&record).expect("no extraction error");
    assert!(outcome.is_none());
    // Still armed: a later qualifying event fires.
    let record2 = pool_record(DISCRIM_V2, reference_mint(), key(9005), 4);
    assert!(c.transaction_handler(&record2).unwrap().is_some());
}

#[test]
fn fires_exactly_once_for_the_first_qualifying_event() {
    let mut c = MeteoraController::new(owner());
    let events = vec![
        pool_record(DISCRIM_V2, key(1), key(2), 1),            // not a reference pool
        pool_record(DISCRIM_V2, reference_mint(), key(9006), 2), // first qualifying
        pool_record(DISCRIM_V2, reference_mint(), key(9007), 3), // also qualifying
        pool_record(DISCRIM_V1, key(9008), reference_mint(), 4), // also qualifying
    ];
    let mut fired_at = Vec::new();
    for (i, ev) in events.iter().enumerate() {
        if c.transaction_handler(ev).unwrap().is_some() {
            fired_at.push(i);
        }
    }
    assert_eq!(fired_at, vec![1]);
}

#[test]
fn identical_qualifying_event_twice_fires_once() {
    let mut c = MeteoraController::new(owner());
    let ev = pool_record(DISCRIM_V2, reference_mint(), key(9009), 5);
    let first = c.transaction_handler(&ev).unwrap();
    let ev_again = pool_record(DISCRIM_V2, reference_mint(), key(9009), 5);
    let second = c.transaction_handler(&ev_again).unwrap();
    assert!(first.is_some());
    assert!(second.is_none());
}

#[test]
fn wrong_discriminator_is_ignored() {
    let mut record = pool_record(DISCRIM_V2, reference_mint(), key(9010), 6);
    record.top_instructions[0].data[0] = 0x31;
    let mut c = MeteoraController::new(owner());
    assert!(c.transaction_handler(&record).unwrap().is_none());
}

#[test]
fn wrong_program_is_ignored() {
    let mut record = pool_record(DISCRIM_V2, reference_mint(), key(9011), 7);
    record.static_keys[0] = key(4444);
    let mut c = MeteoraController::new(owner());
    assert!(c.transaction_handler(&record).unwrap().is_none());
}

#[test]
fn malformed_record_is_an_error_and_changes_nothing() {
    let mut record = pool_record(DISCRIM_V2, reference_mint(), key(9012), 8);
    record.top_instructions[0].account_indices[5] = 200; // out of range
    let mut c = MeteoraController::new(owner());
    let err = c
        .transaction_handler(&record)
        .expect_err("out-of-range index aborts the event");
    assert_eq!(err.instruction, 0);
    assert_eq!(err.account_count, 25);
    // The controller is still armed.
    let good = pool_record(DISCRIM_V2, reference_mint(), key(9013), 9);
    assert!(c.transaction_handler(&good).unwrap().is_some());
}

#[test]
fn first_match_within_a_transaction_wins() {
    // Two pool creations in one record: the first is not a reference pool, so
    // nothing fires even though the second would qualify.
    let mut record = pool_record(DISCRIM_V2, key(1), key(2), 10);
    let second = pool_record(DISCRIM_V2, reference_mint(), key(9014), 10);
    let offset = record.static_keys.len() as u8;
    for k in &second.static_keys {
        record.static_keys.push(*k);
    }
    let mut shifted = second.top_instructions[0].account_indices.clone();
    for i in shifted.iter_mut() {
        *i += offset;
    }
    record.top_instructions.push(RawInstruction {
        program_id_index: offset,
        account_indices: shifted,
        data: second.top_instructions[0].data.clone(),
    });
    let mut c = MeteoraController::new(owner());
    assert!(c.transaction_handler(&record).unwrap().is_none());
}
