//! Trusted bindings to the chain SDK.
//!
//! Everything here either declares an outside type so that it can be carried
//! through signatures, or wraps one outside call behind a contract.  The
//! verified logic works on the library's plain-value models; these bindings
//! convert at the boundary and perform the derivation, compilation and
//! signing that only the SDK can do.

use vstd::prelude::*;

use crate::builder::BuildError;
use crate::ids::AccountId;
use crate::ids::BlockHash;
use crate::instr::copy_bytes;
use crate::instr::AccountSlot;
use crate::instr::Instr;
use crate::instr::InstrModel;
use solana_sdk::hash::Hash as ChainHash;
use solana_sdk::instruction::AccountMeta;
use solana_sdk::instruction::Instruction;
use solana_sdk::message::v0::Message as V0Message;
use solana_sdk::pubkey::Pubkey;
use solana_sdk::signature::Keypair;
use solana_sdk::transaction::VersionedTransaction;
use std::str::FromStr;

verus! {

#[verifier::external_type_specification]
#[verifier::external_body]
pub struct ExPubkey(Pubkey);

#[verifier::external_type_specification]
#[verifier::external_body]
pub struct ExAccountMeta(AccountMeta);

#[verifier::external_type_specification]
#[verifier::external_body]
pub struct ExInstruction(Instruction);

#[verifier::external_type_specification]
#[verifier::external_body]
pub struct ExV0Message(V0Message);

#[verifier::external_type_specification]
#[verifier::external_body]
pub struct ExKeypair(Keypair);

#[verifier::external_type_specification]
#[verifier::external_body]
pub struct ExVersionedTransaction(VersionedTransaction);

/// The associated account of an owner for a mint: the deterministic
/// per-owner-per-asset address the chain derives by hashing.
pub uninterp spec fn ata_key(owner: AccountId, mint: AccountId) -> AccountId;

/// Whether a byte string is the valid text form of a transaction signature.
pub uninterp spec fn sig_text_ok(s: Seq<u8>) -> bool;

/// Whether the SDK compiles this payer, instruction list and recent block
/// hash into a version-0 message: it fails exactly when protocol size or
/// account limits are exceeded, a function of the arguments alone.
pub uninterp spec fn compiles_ok(
    payer: AccountId,
    instructions: Seq<InstrModel>,
    recent_blockhash: BlockHash,
) -> bool;

/// Relies on solana_sdk::pubkey::Pubkey::new_from_array: reassembles the
/// 32-byte key held as four little-endian words.
#[verifier::external_body]
pub(crate) fn to_pubkey(id: &AccountId) -> Pubkey {
    let mut b = [0u8; 32];
    b[0..8].copy_from_slice(&id.w0.to_le_bytes());
    b[8..16].copy_from_slice(&id.w1.to_le_bytes());
    b[16..24].copy_from_slice(&id.w2.to_le_bytes());
    b[24..32].copy_from_slice(&id.w3.to_le_bytes());
    Pubkey::new_from_array(b)
}

/// Relies on spl_associated_token_account::get_associated_token_address: the
/// derived address depends on owner and mint alone.
#[verifier::external_body]
pub(crate) fn derive_ata(owner: &AccountId, mint: &AccountId) -> (r: AccountId)
    ensures
        r == ata_key(*owner, *mint),
{
    let pk = spl_associated_token_account::get_associated_token_address(
        &to_pubkey(owner),
        &to_pubkey(mint),
    );
    let b = pk.to_bytes();
    AccountId {
        w0: u64::from_le_bytes(b[0..8].try_into().unwrap()),
        w1: u64::from_le_bytes(b[8..16].try_into().unwrap()),
        w2: u64::from_le_bytes(b[16..24].try_into().unwrap()),
        w3: u64::from_le_bytes(b[24..32].try_into().unwrap()),
    }
}

/// Relies on solana_sdk::instruction::AccountMeta: plain struct construction
/// from a resolved account slot.
#[verifier::external_body]
pub(crate) fn account_meta_of_slot(slot: &AccountSlot) -> AccountMeta {
    AccountMeta {
        pubkey: to_pubkey(&slot.key),
        is_signer: slot.is_signer,
        is_writable: slot.is_writable,
    }
}

/// Relies on solana_sdk::instruction::Instruction: plain struct construction.
#[verifier::external_body]
pub(crate) fn make_instruction(program_id: Pubkey, accounts: Vec<AccountMeta>, data: Vec<u8>) -> Instruction {
    Instruction { program_id, accounts, data }
}

/// Converts one modeled instruction into the SDK's instruction type.
pub(crate) fn to_solana_instruction(i: &Instr) -> Instruction {
    let mut metas: Vec<AccountMeta> = Vec::new();
    let mut j: usize = 0;
    while j < i.accounts.len()
        decreases i.accounts@.len() - j,
    {
        metas.push(account_meta_of_slot(&i.accounts[j]));
        j = j + 1;
    }
    make_instruction(to_pubkey(&i.program_id), metas, copy_bytes(&i.data))
}

/// Converts a modeled instruction list into the SDK's instruction type.
pub(crate) fn to_solana_instructions(instrs: &Vec<Instr>) -> Vec<Instruction> {
    let mut out: Vec<Instruction> = Vec::new();
    let mut j: usize = 0;
    while j < instrs.len()
        decreases instrs@.len() - j,
    {
        out.push(to_solana_instruction(&instrs[j]));
        j = j + 1;
    }
    out
}

/// Relies on solana_sdk::message::v0::Message::try_compile: compiles the
/// instruction list into one version-0 message with no extra address-table
/// entries.  It fails exactly when protocol size or account limits are
/// exceeded, which depends on the payer, the instructions and the block hash
/// alone; the conversions into the SDK's types are the same ones the rest of
/// the boundary uses.
#[verifier::external_body]
pub(crate) fn try_compile_message(
    payer: &AccountId,
    instructions: &Vec<Instr>,
    recent_blockhash: &BlockHash,
) -> (r: Result<V0Message, BuildError>)
    ensures
        r is Err <==> !compiles_ok(*payer, instructions.deep_view(), *recent_blockhash),
        r is Err ==> r->Err_0 == BuildError::CompileFailed,
{
    let mut b = [0u8; 32];
    b[0..8].copy_from_slice(&recent_blockhash.w0.to_le_bytes());
    b[8..16].copy_from_slice(&recent_blockhash.w1.to_le_bytes());
    b[16..24].copy_from_slice(&recent_blockhash.w2.to_le_bytes());
    b[24..32].copy_from_slice(&recent_blockhash.w3.to_le_bytes());
    let sdk_instructions = to_solana_instructions(instructions);
    match V0Message::try_compile(&to_pubkey(payer), sdk_instructions.as_slice(), &[], ChainHash::new(&b)) {
        Ok(m) => Ok(m),
        Err(_) => Err(BuildError::CompileFailed),
    }
}

/// Relies on solana_sdk::transaction::VersionedTransaction::try_new: signs
/// the compiled message with the single configured key.
#[verifier::external_body]
pub(crate) fn sign_message(message: V0Message, keypair: &Keypair) -> (r: Result<
    VersionedTransaction,
    BuildError,
>)
    ensures
        r is Err ==> r->Err_0 == BuildError::SigningFailed,
{
    let m = solana_sdk::message::VersionedMessage::V0(message);
    match VersionedTransaction::try_new(m, &[keypair]) {
        Ok(tx) => Ok(tx),
        Err(_) => Err(BuildError::SigningFailed),
    }
}

/// Relies on solana_sdk::signature::Signature::from_str: whether the bytes
/// are the base58 text of a 64-byte signature depends on the bytes alone.
#[verifier::external_body]
pub(crate) fn valid_signature_text(s: &Vec<u8>) -> (r: bool)
    ensures
        r == sig_text_ok(s@),
{
    match core::str::from_utf8(s.as_slice()) {
        Ok(t) => solana_sdk::signature::Signature::from_str(t).is_ok(),
        Err(_) => false,
    }
}

} // verus!
