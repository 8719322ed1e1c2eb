//! Deterministic construction of the purchase transaction.
//!
//! The instruction order is fixed and significant: priority-fee setup, an
//! optional tip transfer for the bundle-relay kind, wrapping the native asset
//! (create the associated account, fund it, sync it), creating the target
//! mint's associated account, the swap call itself, and closing the wrapped
//! account to reclaim its rent.  Every payload is byte-exact; compiling and
//! signing the final envelope is the chain SDK's work, behind trusted
//! wrappers.

use vstd::prelude::*;

use crate::chain::ata_key;
use crate::chain::derive_ata;
use crate::chain::compiles_ok;
use crate::chain::sign_message;
use crate::chain::try_compile_message;
use crate::config::RpcType;
use crate::ids::compute_budget_program;
use crate::ids::pool_program;
use crate::ids::reference_mint;
use crate::ids::spec_compute_budget_program;
use crate::ids::spec_pool_program;
use crate::ids::spec_reference_mint;
use crate::ids::spec_swap_discrim;
use crate::ids::spec_system_program;
use crate::ids::spec_tip_address;
use crate::ids::spec_token_program;
use crate::ids::system_program;
use crate::ids::tip_address;
use crate::ids::token_program;
use crate::ids::AccountId;
use crate::ids::BlockHash;
use crate::instr::AccountSlot;
use crate::instr::Instr;
use crate::instr::InstrModel;
use crate::swap::MeteoraSwapParams;
use crate::swap::TradeDirection;
use solana_sdk::signature::Keypair;
use solana_sdk::transaction::VersionedTransaction;
use vstd::bytes::spec_u32_to_le_bytes;
use vstd::bytes::spec_u64_to_le_bytes;
use vstd::bytes::u32_to_le_bytes;
use vstd::bytes::u64_to_le_bytes;

verus! {

/// Why assembling the signed envelope failed.  Either way the envelope is
/// abandoned whole: no partially built output exists.
#[derive(Clone, Copy, PartialEq, Eq, Structural, Debug)]
pub enum BuildError {
    /// Message compilation exceeded protocol size or account limits.
    CompileFailed,
    /// The SDK refused to sign the compiled message.
    SigningFailed,
}

/// Static per-run signing and economics parameters, all plain values.
/// `signer` is the configured key's public half; the secret half stays in
/// the SDK keypair handed separately to the signing step.
#[derive(Clone, Copy, PartialEq, Eq, Structural, Debug)]
pub struct TransactionConfig {
    pub signer: AccountId,
    pub compute_unit_limit: u32,
    pub compute_unit_price: u64,
    pub tip: u64,
    pub buy_amount: u64,
    pub min_amount_out: u64,
}

/// The byte coding a trade direction in the swap payload.
pub open spec fn spec_direction_byte(d: TradeDirection) -> u8 {
    match d {
        TradeDirection::AtoB => 0,
        TradeDirection::BtoA => 1,
    }
}

/// The swap call's payload: discriminator, buy amount, minimum output, and
/// the direction flag.
pub open spec fn spec_swap_payload(buy_amount: u64, min_amount_out: u64, d: TradeDirection) -> Seq<u8> {
    spec_swap_discrim() + spec_u64_to_le_bytes(buy_amount) + spec_u64_to_le_bytes(min_amount_out)
        + seq![spec_direction_byte(d)]
}

/// The compute-unit-limit instruction of the compute-budget program.
pub open spec fn spec_cu_limit_instr(limit: u32) -> InstrModel {
    InstrModel {
        program_id: spec_compute_budget_program(),
        accounts: Seq::empty(),
        data: seq![2u8] + spec_u32_to_le_bytes(limit),
    }
}

/// The compute-unit-price instruction of the compute-budget program.
pub open spec fn spec_cu_price_instr(price: u64) -> InstrModel {
    InstrModel {
        program_id: spec_compute_budget_program(),
        accounts: Seq::empty(),
        data: seq![3u8] + spec_u64_to_le_bytes(price),
    }
}

/// A native-currency transfer of the system program.
pub open spec fn spec_transfer_instr(from: AccountId, to: AccountId, lamports: u64) -> InstrModel {
    InstrModel {
        program_id: spec_system_program(),
        accounts: seq![
            AccountSlot { key: from, is_signer: true, is_writable: true },
            AccountSlot { key: to, is_signer: false, is_writable: true },
        ],
        data: seq![2u8, 0u8, 0u8, 0u8] + spec_u64_to_le_bytes(lamports),
    }
}

/// The idempotent create-associated-account instruction.
pub open spec fn spec_create_ata_instr(
    payer: AccountId,
    owner: AccountId,
    mint: AccountId,
    token_prog: AccountId,
) -> InstrModel {
    InstrModel {
        program_id: crate::ids::spec_ata_program(),
        accounts: seq![
            AccountSlot { key: payer, is_signer: true, is_writable: true },
            AccountSlot { key: ata_key(owner, mint), is_signer: false, is_writable: true },
            AccountSlot { key: owner, is_signer: false, is_writable: false },
            AccountSlot { key: mint, is_signer: false, is_writable: false },
            AccountSlot { key: spec_system_program(), is_signer: false, is_writable: false },
            AccountSlot { key: token_prog, is_signer: false, is_writable: false },
        ],
        data: seq![1u8],
    }
}

/// The token program's sync-native call: opcode 17 followed by 3 padding
/// bytes.
pub open spec fn spec_sync_native_instr(account: AccountId) -> InstrModel {
    InstrModel {
        program_id: spec_token_program(),
        accounts: seq![AccountSlot { key: account, is_signer: false, is_writable: true }],
        data: seq![17u8, 0u8, 0u8, 0u8],
    }
}

/// The token program's close-account call, reclaiming rent to `dest`.
pub open spec fn spec_close_account_instr(account: AccountId, dest: AccountId, owner: AccountId) -> InstrModel {
    InstrModel {
        program_id: spec_token_program(),
        accounts: seq![
            AccountSlot { key: account, is_signer: false, is_writable: true },
            AccountSlot { key: dest, is_signer: false, is_writable: true },
            AccountSlot { key: owner, is_signer: true, is_writable: false },
        ],
        data: seq![9u8],
    }
}

/// The pool program's swap call: payload over the configured amounts and the
/// resolved direction, accounts in the fixed 15-slot order.
pub open spec fn spec_swap_instr(cfg: TransactionConfig, params: MeteoraSwapParams) -> InstrModel {
    InstrModel {
        program_id: spec_pool_program(),
        accounts: seq![
            AccountSlot { key: params.pool, is_signer: false, is_writable: true },
            AccountSlot { key: params.user_source, is_signer: false, is_writable: true },
            AccountSlot { key: params.user_destination, is_signer: false, is_writable: true },
            AccountSlot { key: params.a_vault, is_signer: false, is_writable: true },
            AccountSlot { key: params.b_vault, is_signer: false, is_writable: true },
            AccountSlot { key: params.a_token_vault, is_signer: false, is_writable: true },
            AccountSlot { key: params.b_token_vault, is_signer: false, is_writable: true },
            AccountSlot { key: params.a_vault_lp_mint, is_signer: false, is_writable: true },
            AccountSlot { key: params.b_vault_lp_mint, is_signer: false, is_writable: true },
            AccountSlot { key: params.a_vault_lp, is_signer: false, is_writable: true },
            AccountSlot { key: params.b_vault_lp, is_signer: false, is_writable: true },
            AccountSlot { key: params.protocol_token_fee, is_signer: false, is_writable: true },
            AccountSlot { key: cfg.signer, is_signer: true, is_writable: false },
            AccountSlot { key: params.vault_program, is_signer: false, is_writable: false },
            AccountSlot { key: params.token_program, is_signer: false, is_writable: false },
        ],
        data: spec_swap_payload(cfg.buy_amount, cfg.min_amount_out, params.direction),
    }
}

/// The full ordered instruction sequence of a purchase transaction built for
/// relay kind `kind`.
pub open spec fn spec_build_instrs(
    cfg: TransactionConfig,
    kind: RpcType,
    params: MeteoraSwapParams,
) -> Seq<InstrModel> {
    (if cfg.compute_unit_limit > 0 {
        seq![spec_cu_limit_instr(cfg.compute_unit_limit)]
    } else {
        Seq::empty()
    }) + (if cfg.compute_unit_price > 0 {
        seq![spec_cu_price_instr(cfg.compute_unit_price)]
    } else {
        Seq::empty()
    }) + (if cfg.tip > 0 && kind is Jito {
        seq![spec_transfer_instr(cfg.signer, spec_tip_address(), cfg.tip)]
    } else {
        Seq::empty()
    }) + seq![
        spec_create_ata_instr(cfg.signer, cfg.signer, spec_reference_mint(), spec_token_program()),
        spec_transfer_instr(cfg.signer, ata_key(cfg.signer, spec_reference_mint()), cfg.buy_amount),
        spec_sync_native_instr(ata_key(cfg.signer, spec_reference_mint())),
        spec_create_ata_instr(cfg.signer, cfg.signer, params.mint_target_token, spec_token_program()),
        spec_swap_instr(cfg, params),
        spec_close_account_instr(
            ata_key(cfg.signer, spec_reference_mint()),
            cfg.signer,
            cfg.signer,
        ),
    ]
}

/// Builds the swap call's payload bytes.
pub fn swap_payload(buy_amount: u64, min_amount_out: u64, d: TradeDirection) -> (r: Vec<u8>)
    ensures
        r@ == spec_swap_payload(buy_amount, min_amount_out, d),
        r@.len() == 25,
{
    let mut r: Vec<u8> = Vec::new();
    r.push(0xf8);
    r.push(0xc6);
    r.push(0x9e);
    r.push(0x91);
    r.push(0xe1);
    r.push(0x75);
    r.push(0x87);
    r.push(0xc8);
    let mut a = u64_to_le_bytes(buy_amount);
    r.append(&mut a);
    let mut b = u64_to_le_bytes(min_amount_out);
    r.append(&mut b);
    let flag: u8 = match d {
        TradeDirection::AtoB => 0,
        TradeDirection::BtoA => 1,
    };
    r.push(flag);
    proof {
        assert(r@ =~= spec_swap_payload(buy_amount, min_amount_out, d));
    }
    r
}

fn cu_limit_instr(limit: u32) -> (r: Instr)
    ensures
        r@ == spec_cu_limit_instr(limit),
{
    let mut data: Vec<u8> = Vec::new();
    data.push(2);
    let mut le = u32_to_le_bytes(limit);
    data.append(&mut le);
    let r = Instr { program_id: compute_budget_program(), accounts: Vec::new(), data };
    proof {
        assert(r@.data =~= spec_cu_limit_instr(limit).data);
        assert(r@.accounts =~= spec_cu_limit_instr(limit).accounts);
        assert(r@ =~= spec_cu_limit_instr(limit));
    }
    r
}

fn cu_price_instr(price: u64) -> (r: Instr)
    ensures
        r@ == spec_cu_price_instr(price),
{
    let mut data: Vec<u8> = Vec::new();
    data.push(3);
    let mut le = u64_to_le_bytes(price);
    data.append(&mut le);
    let r = Instr { program_id: compute_budget_program(), accounts: Vec::new(), data };
    proof {
        assert(r@.data =~= spec_cu_price_instr(price).data);
        assert(r@.accounts =~= spec_cu_price_instr(price).accounts);
        assert(r@ =~= spec_cu_price_instr(price));
    }
    r
}

fn transfer_instr(from: AccountId, to: AccountId, lamports: u64) -> (r: Instr)
    ensures
        r@ == spec_transfer_instr(from, to, lamports),
{
    let mut data: Vec<u8> = Vec::new();
    data.push(2);
    data.push(0);
    data.push(0);
    data.push(0);
    let mut le = u64_to_le_bytes(lamports);
    data.append(&mut le);
    let mut accounts: Vec<AccountSlot> = Vec::new();
    accounts.push(AccountSlot { key: from, is_signer: true, is_writable: true });
    accounts.push(AccountSlot { key: to, is_signer: false, is_writable: true });
    let r = Instr { program_id: system_program(), accounts, data };
    proof {
        assert(r@.data =~= spec_transfer_instr(from, to, lamports).data);
        assert(r@.accounts =~= spec_transfer_instr(from, to, lamports).accounts);
        assert(r@ =~= spec_transfer_instr(from, to, lamports));
    }
    r
}

fn create_ata_instr(payer: AccountId, owner: AccountId, mint: AccountId, token_prog: AccountId) -> (r:
    Instr)
    ensures
        r@ == spec_create_ata_instr(payer, owner, mint, token_prog),
{
    let ata = derive_ata(&owner, &mint);
    let mut data: Vec<u8> = Vec::new();
    data.push(1);
    let mut accounts: Vec<AccountSlot> = Vec::new();
    accounts.push(AccountSlot { key: payer, is_signer: true, is_writable: true });
    accounts.push(AccountSlot { key: ata, is_signer: false, is_writable: true });
    accounts.push(AccountSlot { key: owner, is_signer: false, is_writable: false });
    accounts.push(AccountSlot { key: mint, is_signer: false, is_writable: false });
    accounts.push(AccountSlot { key: system_program(), is_signer: false, is_writable: false });
    accounts.push(AccountSlot { key: token_prog, is_signer: false, is_writable: false });
    let r = Instr { program_id: crate::ids::ata_program(), accounts, data };
    proof {
        assert(r@.data =~= spec_create_ata_instr(payer, owner, mint, token_prog).data);
        assert(r@.accounts =~= spec_create_ata_instr(payer, owner, mint, token_prog).accounts);
        assert(r@ =~= spec_create_ata_instr(payer, owner, mint, token_prog));
    }
    r
}

fn sync_native_instr(account: AccountId) -> (r: Instr)
    ensures
        r@ == spec_sync_native_instr(account),
{
    let mut data: Vec<u8> = Vec::new();
    data.push(17);
    data.push(0);
    data.push(0);
    data.push(0);
    let mut accounts: Vec<AccountSlot> = Vec::new();
    accounts.push(AccountSlot { key: account, is_signer: false, is_writable: true });
    let r = Instr { program_id: token_program(), accounts, data };
    proof {
        assert(r@.data =~= spec_sync_native_instr(account).data);
        assert(r@.accounts =~= spec_sync_native_instr(account).accounts);
        assert(r@ =~= spec_sync_native_instr(account));
    }
    r
}

fn close_account_instr(account: AccountId, dest: AccountId, owner: AccountId) -> (r: Instr)
    ensures
        r@ == spec_close_account_instr(account, dest, owner),
{
    let mut data: Vec<u8> = Vec::new();
    data.push(9);
    let mut accounts: Vec<AccountSlot> = Vec::new();
    accounts.push(AccountSlot { key: account, is_signer: false, is_writable: true });
    accounts.push(AccountSlot { key: dest, is_signer: false, is_writable: true });
    accounts.push(AccountSlot { key: owner, is_signer: true, is_writable: false });
    let r = Instr { program_id: token_program(), accounts, data };
    proof {
        assert(r@.data =~= spec_close_account_instr(account, dest, owner).data);
        assert(r@.accounts =~= spec_close_account_instr(account, dest, owner).accounts);
        assert(r@ =~= spec_close_account_instr(account, dest, owner));
    }
    r
}

fn swap_instr(cfg: &TransactionConfig, params: &MeteoraSwapParams) -> (r: Instr)
    ensures
        r@ == spec_swap_instr(*cfg, *params),
{
    let data = swap_payload(cfg.buy_amount, cfg.min_amount_out, params.direction);
    let mut accounts: Vec<AccountSlot> = Vec::new();
    accounts.push(AccountSlot { key: params.pool, is_signer: false, is_writable: true });
    accounts.push(AccountSlot { key: params.user_source, is_signer: false, is_writable: true });
    accounts.push(AccountSlot { key: params.user_destination, is_signer: false, is_writable: true });
    accounts.push(AccountSlot { key: params.a_vault, is_signer: false, is_writable: true });
    accounts.push(AccountSlot { key: params.b_vault, is_signer: false, is_writable: true });
    accounts.push(AccountSlot { key: params.a_token_vault, is_signer: false, is_writable: true });
    accounts.push(AccountSlot { key: params.b_token_vault, is_signer: false, is_writable: true });
    accounts.push(AccountSlot { key: params.a_vault_lp_mint, is_signer: false, is_writable: true });
    accounts.push(AccountSlot { key: params.b_vault_lp_mint, is_signer: false, is_writable: true });
    accounts.push(AccountSlot { key: params.a_vault_lp, is_signer: false, is_writable: true });
    accounts.push(AccountSlot { key: params.b_vault_lp, is_signer: false, is_writable: true });
    accounts.push(
        AccountSlot { key: params.protocol_token_fee, is_signer: false, is_writable: true },
    );
    accounts.push(AccountSlot { key: cfg.signer, is_signer: true, is_writable: false });
    accounts.push(AccountSlot { key: params.vault_program, is_signer: false, is_writable: false });
    accounts.push(AccountSlot { key: params.token_program, is_signer: false, is_writable: false });
    let r = Instr { program_id: pool_program(), accounts, data };
    proof {
        assert(r@.accounts =~= spec_swap_instr(*cfg, *params).accounts);
        assert(r@ =~= spec_swap_instr(*cfg, *params));
    }
    r
}

/// Assembles the full ordered instruction sequence of a purchase.
pub fn build_swap_instructions(
    cfg: &TransactionConfig,
    kind: &RpcType,
    params: &MeteoraSwapParams,
) -> (r: Vec<Instr>)
    ensures
        r.deep_view() == spec_build_instrs(*cfg, *kind, *params),
{
    let mut out: Vec<Instr> = Vec::new();
    if cfg.compute_unit_limit > 0 {
        out.push(cu_limit_instr(cfg.compute_unit_limit));
    }
    if cfg.compute_unit_price > 0 {
        out.push(cu_price_instr(cfg.compute_unit_price));
    }
    let is_bundle_kind = match kind {
        RpcType::Jito => true,
        _ => false,
    };
    if cfg.tip > 0 && is_bundle_kind {
        out.push(transfer_instr(cfg.signer, tip_address(), cfg.tip));
    }
    let wsol_ata = derive_ata(&cfg.signer, &reference_mint());
    out.push(create_ata_instr(cfg.signer, cfg.signer, reference_mint(), token_program()));
    out.push(transfer_instr(cfg.signer, wsol_ata, cfg.buy_amount));
    out.push(sync_native_instr(wsol_ata));
    out.push(create_ata_instr(cfg.signer, cfg.signer, params.mint_target_token, token_program()));
    out.push(swap_instr(cfg, params));
    out.push(close_account_instr(wsol_ata, cfg.signer, cfg.signer));
    proof {
        assert(out.deep_view() =~~= spec_build_instrs(*cfg, *kind, *params));
    }
    out
}

/// Builds and signs the purchase transaction for one relay kind.  The signed
/// envelope is the SDK's opaque value; its instruction content is fixed by
/// [`build_swap_instructions`].  A compile failure comes exactly when the
/// built sequence exceeds protocol limits for this payer and block hash; a
/// signing failure comes only from the SDK's signer check, which the opaque
/// key decides.  No partially built envelope escapes.
pub fn build_meteora_swap_tx(
    cfg: &TransactionConfig,
    keypair: &Keypair,
    kind: &RpcType,
    recent_blockhash: &BlockHash,
    params: &MeteoraSwapParams,
) -> (r: Result<VersionedTransaction, BuildError>)
    ensures
        (r is Err && r->Err_0 == BuildError::CompileFailed) <==> !compiles_ok(
            cfg.signer,
            spec_build_instrs(*cfg, *kind, *params),
            *recent_blockhash,
        ),
        r is Err ==> (r->Err_0 == BuildError::CompileFailed || r->Err_0
            == BuildError::SigningFailed),
{
    let instrs = build_swap_instructions(cfg, kind, params);
    match try_compile_message(&cfg.signer, &instrs, recent_blockhash) {
        Ok(msg) => sign_message(msg, keypair),
        Err(e) => Err(e),
    }
}

/// Law: instruction ordering.  With a nonzero tip and the bundle-relay kind,
/// the built sequence holds the tip transfer immediately after the
/// compute-budget instructions (which are exactly the positions before it)
/// and strictly before the wrap-asset transfer, which funds the reference
/// asset's associated account two positions later.
pub proof fn lemma_tip_ordering(cfg: TransactionConfig, params: MeteoraSwapParams)
    requires
        cfg.tip > 0,
    ensures
        ({
            let s = spec_build_instrs(cfg, RpcType::Jito, params);
            let nb = (if cfg.compute_unit_limit > 0 {
                1int
            } else {
                0int
            }) + (if cfg.compute_unit_price > 0 {
                1int
            } else {
                0int
            });
            &&& s[nb] == spec_transfer_instr(cfg.signer, spec_tip_address(), cfg.tip)
            &&& forall|k: int|
                0 <= k < nb ==> (#[trigger] s[k]).program_id == spec_compute_budget_program()
            &&& s[nb + 2] == spec_transfer_instr(
                cfg.signer,
                ata_key(cfg.signer, spec_reference_mint()),
                cfg.buy_amount,
            )
        }),
{
}

/// Law: the tip transfer is the only transfer to the tip-collection address
/// in the built sequence.  The one input left out by the precondition: a
/// signer whose derived reference-asset account coincides with the tip
/// address.  The chain's derivation never yields that address, but the
/// derivation is an uninterpreted name here, so the coincidence cannot be
/// excluded by proof.
pub proof fn lemma_tip_transfer_unique(cfg: TransactionConfig, params: MeteoraSwapParams)
    requires
        cfg.tip > 0,
        ata_key(cfg.signer, spec_reference_mint()) != spec_tip_address(),
    ensures
        ({
            let s = spec_build_instrs(cfg, RpcType::Jito, params);
            let nb = (if cfg.compute_unit_limit > 0 {
                1int
            } else {
                0int
            }) + (if cfg.compute_unit_price > 0 {
                1int
            } else {
                0int
            });
            &&& s[nb] == spec_transfer_instr(cfg.signer, spec_tip_address(), cfg.tip)
            &&& forall|k: int|
                0 <= k < s.len() && k != nb ==> !((#[trigger] s[k]).program_id
                    == spec_system_program() && s[k].accounts.len() == 2 && s[k].accounts[1].key
                    == spec_tip_address())
        }),
{
}

} // verus!
