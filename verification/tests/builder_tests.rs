use poolrace::builder::build_meteora_swap_tx;
use poolrace::builder::build_swap_instructions;
use poolrace::builder::swap_payload;
use poolrace::builder::TransactionConfig;
use poolrace::config::RpcType;
use poolrace::ids::ata_program;
use poolrace::ids::compute_budget_program;
use poolrace::ids::pool_program;
use poolrace::ids::reference_mint;
use poolrace::ids::system_program;
use poolrace::ids::tip_address;
use poolrace::ids::token_program;
use poolrace::ids::AccountId;
use poolrace::ids::BlockHash;
use poolrace::instr::Instr;
use poolrace::swap::MeteoraSwapParams;
use poolrace::swap::TradeDirection;
use solana_sdk::compute_budget::ComputeBudgetInstruction;
use solana_sdk::pubkey::Pubkey;
use solana_sdk::signature::Keypair;
use solana_sdk::signer::Signer;
use solana_sdk::system_instruction;
use std::str::FromStr;

fn key(n: u64) -> AccountId {
    AccountId { w0: n, w1: 1, w2: 2, w3: 3 }
}

fn id_to_pubkey(id: &AccountId) -> Pubkey {
    let mut b = [0u8; 32];
    b[0..8].copy_from_slice(&id.w0.to_le_bytes());
    b[8..16].copy_from_slice(&id.w1.to_le_bytes());
    b[16..24].copy_from_slice(&id.w2.to_le_bytes());
    b[24..32].copy_from_slice(&id.w3.to_le_bytes());
    Pubkey::new_from_array(b)
}

fn pubkey_to_id(pk: &Pubkey) -> AccountId {
    let b = pk.to_bytes();
    AccountId {
        w0: u64::from_le_bytes(b[0..8].try_into().unwrap()),
        w1: u64::from_le_bytes(b[8..16].try_into().unwrap()),
        w2: u64::from_le_bytes(b[16..24].try_into().unwrap()),
        w3: u64::from_le_bytes(b[24..32].try_into().unwrap()),
    }
}

fn params() -> MeteoraSwapParams {
    MeteoraSwapParams {
        pool: key(100),
        direction: TradeDirection::AtoB,
        user_source: key(101),
        user_destination: key(102),
        a_vault: key(103),
        b_vault: key(104),
        a_token_vault: key(105),
        b_token_vault: key(106),
        a_vault_lp_mint: key(107),
        b_vault_lp_mint: key(108),
        a_vault_lp: key(109),
        b_vault_lp: key(110),
        protocol_token_fee: key(111),
        vault_program: key(112),
        token_program: key(113),
        mint_target_token: key(114),
    }
}

fn config(signer: AccountId) -> TransactionConfig {
    TransactionConfig {
        signer,
        compute_unit_limit: 150_000,
        compute_unit_price: 2_000,
        tip: 5_000,
        buy_amount: 500_000_000,
        min_amount_out: 100_000,
    }
}

#[test]
fn well_known_addresses_match_their_base58_forms() {
    let cases: Vec<(AccountId, &str)> = vec![
        (pool_program(), "Eo7WjKq67rjJQSZxS6z3YkapzY3eMj6Xy8X5EQVn5UaB"),
        (reference_mint(), "So11111111111111111111111111111111111111112"),
        (token_program(), "TokenkegQfeZyiNwAJbNbGKPFXCWuBvf9Ss623VQ5DA"),
        (ata_program(), "ATokenGPvbdGVxr1b2hvZbsiqW5xWH25efTNsLJA8knL"),
        (system_program(), "11111111111111111111111111111111"),
        (compute_budget_program(), "ComputeBudget111111111111111111111111111111"),
        (tip_address(), "96gYZGLnJYVFmbjzopPSU6QiEV5fGqZNyN9nmNhvrZU5"),
    ];
    for (id, text) in cases {
        let pk = Pubkey::from_str(text).unwrap();
        assert_eq!(id, pubkey_to_id(&pk), "mismatch for {text}");
    }
}

#[test]
fn swap_payload_round_trip() {
    let payload = swap_payload(500_000_000, 100_000, TradeDirection::AtoB);
    let mut expected = vec![0xf8, 0xc6, 0x9e, 0x91, 0xe1, 0x75, 0x87, 0xc8];
    expected.extend_from_slice(&500_000_000u64.to_le_bytes());
    expected.extend_from_slice(&100_000u64.to_le_bytes());
    expected.push(0x00);
    assert_eq!(payload, expected);
    assert_eq!(payload.len(), 25);
    // The other direction flips only the final flag byte.
    let reverse = swap_payload(500_000_000, 100_000, TradeDirection::BtoA);
    assert_eq!(reverse[24], 0x01);
    assert_eq!(&reverse[..24], &payload[..24]);
}

/// The fixed instruction order with every optional instruction present:
/// compute-budget pair, tip, then wrap, create, swap, close.
#[test]
fn tip_is_ordered_between_compute_budget_and_wrap() {
    let signer = key(99);
    let cfg = config(signer);
    let instrs = build_swap_instructions(&cfg, &RpcType::Jito, &params());
    assert_eq!(instrs.len(), 9);
    // 0, 1: compute budget.
    assert_eq!(instrs[0].program_id, compute_budget_program());
    assert_eq!(instrs[1].program_id, compute_budget_program());
    // 2: the tip transfer.
    assert_eq!(instrs[2].program_id, system_program());
    assert_eq!(instrs[2].accounts[1].key, tip_address());
    let mut tip_data = vec![2, 0, 0, 0];
    tip_data.extend_from_slice(&5_000u64.to_le_bytes());
    assert_eq!(instrs[2].data, tip_data);
    // 3: create the wrapped-asset account; 4: the wrap transfer funding it.
    assert_eq!(instrs[3].program_id, ata_program());
    assert_eq!(instrs[4].program_id, system_program());
    let mut wrap_data = vec![2, 0, 0, 0];
    wrap_data.extend_from_slice(&500_000_000u64.to_le_bytes());
    assert_eq!(instrs[4].data, wrap_data);
    // 5: sync native; 6: create destination; 7: swap; 8: close.
    assert_eq!(instrs[5].program_id, token_program());
    assert_eq!(instrs[5].data, vec![17, 0, 0, 0]);
    assert_eq!(instrs[6].program_id, ata_program());
    assert_eq!(instrs[7].program_id, pool_program());
    assert_eq!(instrs[8].program_id, token_program());
    assert_eq!(instrs[8].data, vec![9]);
}

#[test]
fn no_tip_without_the_bundle_relay_kind() {
    let cfg = config(key(99));
    for kind in [RpcType::SolanaRpc, RpcType::Bloxroute, RpcType::NextBlock] {
        let instrs = build_swap_instructions(&cfg, &kind, &params());
        assert_eq!(instrs.len(), 8);
        assert!(instrs.iter().all(|i| i.accounts.iter().all(|a| a.key != tip_address())));
    }
}

#[test]
fn no_tip_when_zero_even_for_the_bundle_relay() {
    let mut cfg = config(key(99));
    cfg.tip = 0;
    let instrs = build_swap_instructions(&cfg, &RpcType::Jito, &params());
    assert_eq!(instrs.len(), 8);
}

#[test]
fn compute_budget_instructions_are_omitted_when_zero() {
    let mut cfg = config(key(99));
    cfg.compute_unit_limit = 0;
    cfg.compute_unit_price = 0;
    cfg.tip = 0;
    let instrs = build_swap_instructions(&cfg, &RpcType::SolanaRpc, &params());
    assert_eq!(instrs.len(), 6);
    assert_eq!(instrs[0].program_id, ata_program());
}

#[test]
fn swap_instruction_account_order() {
    let signer = key(99);
    let cfg = config(signer);
    let p = params();
    let instrs = build_swap_instructions(&cfg, &RpcType::SolanaRpc, &p);
    let swap = &instrs[6];
    assert_eq!(swap.program_id, pool_program());
    let keys: Vec<AccountId> = swap.accounts.iter().map(|a| a.key).collect();
    assert_eq!(
        keys,
        vec![
            p.pool,
            p.user_source,
            p.user_destination,
            p.a_vault,
            p.b_vault,
            p.a_token_vault,
            p.b_token_vault,
            p.a_vault_lp_mint,
            p.b_vault_lp_mint,
            p.a_vault_lp,
            p.b_vault_lp,
            p.protocol_token_fee,
            signer,
            p.vault_program,
            p.token_program,
        ]
    );
    // The signer slot is a read-only signer; the programs are read-only.
    assert!(swap.accounts[12].is_signer && !swap.accounts[12].is_writable);
    assert!(!swap.accounts[13].is_signer && !swap.accounts[13].is_writable);
    assert!(!swap.accounts[14].is_signer && !swap.accounts[14].is_writable);
    assert!(swap.accounts[..12].iter().all(|a| a.is_writable && !a.is_signer));
}

fn assert_matches_sdk(ours: &Instr, sdk: &solana_sdk::instruction::Instruction) {
    assert_eq!(id_to_pubkey(&ours.program_id), sdk.program_id);
    assert_eq!(ours.data, sdk.data);
    assert_eq!(ours.accounts.len(), sdk.accounts.len());
    for (a, b) in ours.accounts.iter().zip(sdk.accounts.iter()) {
        assert_eq!(id_to_pubkey(&a.key), b.pubkey);
        assert_eq!(a.is_signer, b.is_signer);
        assert_eq!(a.is_writable, b.is_writable);
    }
}

/// Every instruction the builder writes out itself matches what the chain
/// SDK's own constructors produce for the same arguments.
#[test]
fn built_instructions_match_the_sdk_constructors() {
    let signer = key(99);
    let cfg = config(signer);
    let p = params();
    let instrs = build_swap_instructions(&cfg, &RpcType::Jito, &p);
    let signer_pk = id_to_pubkey(&signer);

    assert_matches_sdk(
        &instrs[0],
        &ComputeBudgetInstruction::set_compute_unit_limit(cfg.compute_unit_limit),
    );
    assert_matches_sdk(
        &instrs[1],
        &ComputeBudgetInstruction::set_compute_unit_price(cfg.compute_unit_price),
    );
    assert_matches_sdk(
        &instrs[2],
        &system_instruction::transfer(&signer_pk, &id_to_pubkey(&tip_address()), cfg.tip),
    );
    let wsol_pk = id_to_pubkey(&reference_mint());
    let token_pk = id_to_pubkey(&token_program());
    assert_matches_sdk(
        &instrs[3],
        &spl_associated_token_account::instruction::create_associated_token_account_idempotent(
            &signer_pk, &signer_pk, &wsol_pk, &token_pk,
        ),
    );
    let wsol_ata =
        spl_associated_token_account::get_associated_token_address(&signer_pk, &wsol_pk);
    assert_matches_sdk(
        &instrs[4],
        &system_instruction::transfer(&signer_pk, &wsol_ata, cfg.buy_amount),
    );
    assert_matches_sdk(
        &instrs[6],
        &spl_associated_token_account::instruction::create_associated_token_account_idempotent(
            &signer_pk,
            &signer_pk,
            &id_to_pubkey(&p.mint_target_token),
            &token_pk,
        ),
    );
    assert_matches_sdk(
        &instrs[8],
        &spl_token::instruction::close_account(
            &token_pk,
            &wsol_ata,
            &signer_pk,
            &signer_pk,
            &[],
        )
        .unwrap(),
    );
    // Sync-native keeps the fixed 4-byte payload: opcode 17 plus padding.
    let sdk_sync = spl_token::instruction::sync_native(&token_pk, &wsol_ata).unwrap();
    assert_eq!(instrs[5].data[0], sdk_sync.data[0]);
    assert_eq!(instrs[5].data, vec![17, 0, 0, 0]);
    assert_eq!(id_to_pubkey(&instrs[5].program_id), sdk_sync.program_id);
    assert_eq!(id_to_pubkey(&instrs[5].accounts[0].key), sdk_sync.accounts[0].pubkey);
}

#[test]
fn signing_fails_when_the_configured_signer_is_not_the_keypair() {
    let keypair = Keypair::new();
    // The configured public key does not match the signing key.
    let cfg = config(key(4242));
    let bh = BlockHash { w0: 1, w1: 2, w2: 3, w3: 4 };
    let err = build_meteora_swap_tx(&cfg, &keypair, &RpcType::SolanaRpc, &bh, &params())
        .expect_err("the SDK refuses to sign for a foreign key");
    assert_eq!(err, poolrace::builder::BuildError::SigningFailed);
}

#[test]
fn signed_envelope_is_built_and_serializable() {
    let keypair = Keypair::new();
    let signer = pubkey_to_id(&keypair.pubkey());
    let cfg = config(signer);
    let bh = BlockHash { w0: 1, w1: 2, w2: 3, w3: 4 };
    let tx = build_meteora_swap_tx(&cfg, &keypair, &RpcType::Jito, &bh, &params())
        .expect("compiles and signs");
    assert_eq!(tx.signatures.len(), 1);
    assert_eq!(tx.message.static_account_keys()[0], keypair.pubkey());
    let bytes = poolrace::wire::serialize_tx(&tx).expect("serializes");
    assert!(!bytes.is_empty());
}
