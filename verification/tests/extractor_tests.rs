use poolrace::ids::AccountId;
use poolrace::ids::BlockHash;
use poolrace::instr::extract_instructions;
use poolrace::instr::AccountCounts;
use poolrace::instr::InnerGroup;
use poolrace::instr::RawInstruction;
use poolrace::instr::TxRecord;

fn key(n: u64) -> AccountId {
    AccountId { w0: n, w1: 11, w2: 22, w3: 33 }
}

fn hash() -> BlockHash {
    BlockHash { w0: 7, w1: 8, w2: 9, w3: 10 }
}

fn raw(program: u8, accounts: Vec<u8>, data: Vec<u8>) -> RawInstruction {
    RawInstruction { program_id_index: program, account_indices: accounts, data }
}

#[test]
fn combined_list_order_and_flags() {
    // 4 static keys: 2 signers of which 1 readonly, 2 non-signers of which 1
    // readonly; then 1 loaded writable and 1 loaded readonly key.
    let record = TxRecord {
        counts: AccountCounts {
            num_required_signatures: 2,
            num_readonly_signed: 1,
            num_readonly_unsigned: 1,
        },
        static_keys: vec![key(0), key(1), key(2), key(3)],
        loaded_writable: vec![key(4)],
        loaded_readonly: vec![key(5)],
        top_instructions: vec![raw(0, vec![0, 1, 2, 3, 4, 5], vec![9, 9])],
        inner_groups: vec![],
        recent_blockhash: hash(),
    };
    let out = extract_instructions(&record).expect("extraction succeeds");
    assert_eq!(out.len(), 1);
    let inst = &out[0];
    assert_eq!(inst.program_id, key(0));
    assert_eq!(inst.data, vec![9, 9]);
    assert_eq!(inst.accounts.len(), 6);
    // Static region, in listed order.
    for (i, slot) in inst.accounts.iter().enumerate() {
        assert_eq!(slot.key, key(i as u64));
    }
    // Flags by the header rule.
    assert!(inst.accounts[0].is_signer && inst.accounts[0].is_writable);
    assert!(inst.accounts[1].is_signer && !inst.accounts[1].is_writable);
    assert!(!inst.accounts[2].is_signer && inst.accounts[2].is_writable);
    assert!(!inst.accounts[3].is_signer && !inst.accounts[3].is_writable);
    // Loaded writable, then loaded readonly.
    assert!(!inst.accounts[4].is_signer && inst.accounts[4].is_writable);
    assert!(!inst.accounts[5].is_signer && !inst.accounts[5].is_writable);
}

#[test]
fn inner_instructions_follow_their_parent() {
    let record = TxRecord {
        counts: AccountCounts {
            num_required_signatures: 1,
            num_readonly_signed: 0,
            num_readonly_unsigned: 0,
        },
        static_keys: vec![key(0), key(1), key(2)],
        loaded_writable: vec![],
        loaded_readonly: vec![],
        top_instructions: vec![
            raw(0, vec![1], vec![10]),
            raw(1, vec![2], vec![20]),
        ],
        inner_groups: vec![
            InnerGroup { parent_index: 1, instructions: vec![raw(2, vec![0], vec![21])] },
            InnerGroup {
                parent_index: 0,
                instructions: vec![raw(1, vec![2], vec![11]), raw(2, vec![1], vec![12])],
            },
        ],
        recent_blockhash: hash(),
    };
    let out = extract_instructions(&record).expect("extraction succeeds");
    // Execution order: top 0, its inner calls, top 1, its inner call.
    let datas: Vec<Vec<u8>> = out.iter().map(|i| i.data.clone()).collect();
    assert_eq!(datas, vec![vec![10], vec![11], vec![12], vec![20], vec![21]]);
}

#[test]
fn out_of_range_account_index_is_an_error() {
    let record = TxRecord {
        counts: AccountCounts {
            num_required_signatures: 1,
            num_readonly_signed: 0,
            num_readonly_unsigned: 0,
        },
        static_keys: vec![key(0), key(1)],
        loaded_writable: vec![],
        loaded_readonly: vec![],
        top_instructions: vec![
            raw(0, vec![1], vec![10]),
            raw(0, vec![7], vec![20]),
        ],
        inner_groups: vec![],
        recent_blockhash: hash(),
    };
    let err = extract_instructions(&record).expect_err("index 7 is out of range");
    assert_eq!(err.instruction, 1);
    assert_eq!(err.account_count, 2);
}

#[test]
fn out_of_range_program_index_is_an_error() {
    let record = TxRecord {
        counts: AccountCounts {
            num_required_signatures: 1,
            num_readonly_signed: 0,
            num_readonly_unsigned: 0,
        },
        static_keys: vec![key(0)],
        loaded_writable: vec![],
        loaded_readonly: vec![],
        top_instructions: vec![raw(3, vec![0], vec![1])],
        inner_groups: vec![],
        recent_blockhash: hash(),
    };
    let err = extract_instructions(&record).expect_err("program index 3 is out of range");
    assert_eq!(err.instruction, 0);
    assert_eq!(err.account_count, 1);
}

#[test]
fn empty_record_extracts_to_nothing() {
    let record = TxRecord {
        counts: AccountCounts {
            num_required_signatures: 0,
            num_readonly_signed: 0,
            num_readonly_unsigned: 0,
        },
        static_keys: vec![],
        loaded_writable: vec![],
        loaded_readonly: vec![],
        top_instructions: vec![],
        inner_groups: vec![],
        recent_blockhash: hash(),
    };
    let out = extract_instructions(&record).expect("nothing to extract");
    assert!(out.is_empty());
}
