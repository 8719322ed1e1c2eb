//! Plain-value models of 32-byte chain identifiers, and the well-known
//! addresses and instruction discriminators this pipeline works with.
//!
//! A 32-byte key is held as four 64-bit words in little-endian order, so that
//! equality and contracts stay within plain integer values.

use vstd::prelude::*;

verus! {

/// A 32-byte account address, as four little-endian 64-bit words.
#[derive(Clone, Copy, PartialEq, Eq, Structural, Debug)]
pub struct AccountId {
    pub w0: u64,
    pub w1: u64,
    pub w2: u64,
    pub w3: u64,
}

/// A 32-byte block hash, as four little-endian 64-bit words.
#[derive(Clone, Copy, PartialEq, Eq, Structural, Debug)]
pub struct BlockHash {
    pub w0: u64,
    pub w1: u64,
    pub w2: u64,
    pub w3: u64,
}

/// The pool program whose pool-initialization calls this pipeline reacts to.
pub open spec fn spec_pool_program() -> AccountId {
    AccountId {
        w0: 0xd784ccccd402f8cc,
        w1: 0x1ad8493bf7b521fb,
        w2: 0x9423e38ec8b4c516,
        w3: 0x8040cc88351dc9e1,
    }
}

pub fn pool_program() -> (r: AccountId)
    ensures
        r == spec_pool_program(),
{
    AccountId {
        w0: 0xd784ccccd402f8cc,
        w1: 0x1ad8493bf7b521fb,
        w2: 0x9423e38ec8b4c516,
        w3: 0x8040cc88351dc9e1,
    }
}

/// The wrapped native asset's mint: the reference asset of every pool
/// this pipeline reacts to.
pub open spec fn spec_reference_mint() -> AccountId {
    AccountId {
        w0: 0x8481abfe57889b06,
        w1: 0x35c01846637f68fb,
        w2: 0x553beb1adc39c4da,
        w3: 0x0100000000f0a098,
    }
}

pub fn reference_mint() -> (r: AccountId)
    ensures
        r == spec_reference_mint(),
{
    AccountId {
        w0: 0x8481abfe57889b06,
        w1: 0x35c01846637f68fb,
        w2: 0x553beb1adc39c4da,
        w3: 0x0100000000f0a098,
    }
}

/// The token program that owns wrapped-asset accounts.
pub open spec fn spec_token_program() -> AccountId {
    AccountId {
        w0: 0x93a165d7e1f6dd06,
        w1: 0xac79ebce46e1cbd9,
        w2: 0x91375b5fed85b41c,
        w3: 0xa900ff7e85f58c3a,
    }
}

pub fn token_program() -> (r: AccountId)
    ensures
        r == spec_token_program(),
{
    AccountId {
        w0: 0x93a165d7e1f6dd06,
        w1: 0xac79ebce46e1cbd9,
        w2: 0x91375b5fed85b41c,
        w3: 0xa900ff7e85f58c3a,
    }
}

/// The associated-token-account program that creates per-owner-per-mint
/// accounts.
pub open spec fn spec_ata_program() -> AccountId {
    AccountId {
        w0: 0xf189244e8f25978c,
        w1: 0x830d8e1429103dbb,
        w2: 0x8410ffda99135a0b,
        w3: 0x59f8e9dbd87b8e04,
    }
}

pub fn ata_program() -> (r: AccountId)
    ensures
        r == spec_ata_program(),
{
    AccountId {
        w0: 0xf189244e8f25978c,
        w1: 0x830d8e1429103dbb,
        w2: 0x8410ffda99135a0b,
        w3: 0x59f8e9dbd87b8e04,
    }
}

/// The system program (the all-zero address).
pub open spec fn spec_system_program() -> AccountId {
    AccountId { w0: 0, w1: 0, w2: 0, w3: 0 }
}

pub fn system_program() -> (r: AccountId)
    ensures
        r == spec_system_program(),
{
    AccountId { w0: 0, w1: 0, w2: 0, w3: 0 }
}

/// The compute-budget native program that takes priority-fee instructions.
pub open spec fn spec_compute_budget_program() -> AccountId {
    AccountId {
        w0: 0x321721e56f460603,
        w1: 0xe79bc372baadecff,
        w2: 0x6b12f7c5bbe58cbc,
        w3: 0x000000403a9b432c,
    }
}

pub fn compute_budget_program() -> (r: AccountId)
    ensures
        r == spec_compute_budget_program(),
{
    AccountId {
        w0: 0x321721e56f460603,
        w1: 0xe79bc372baadecff,
        w2: 0x6b12f7c5bbe58cbc,
        w3: 0x000000403a9b432c,
    }
}

/// The well-known tip-collection address the bundle relay is paid through.
pub open spec fn spec_tip_address() -> AccountId {
    AccountId {
        w0: 0x85bbce79b11c5278,
        w1: 0xd294ecd5a256b589,
        w2: 0xf52abbf9fd828649,
        w3: 0xda5341cc91e464ad,
    }
}

pub fn tip_address() -> (r: AccountId)
    ensures
        r == spec_tip_address(),
{
    AccountId {
        w0: 0x85bbce79b11c5278,
        w1: 0xd294ecd5a256b589,
        w2: 0xf52abbf9fd828649,
        w3: 0xda5341cc91e464ad,
    }
}

/// Discriminator of the current pool-initialization call.
pub open spec fn spec_init_pool_discrim() -> Seq<u8> {
    seq![0x30u8, 0x95, 0xdc, 0x82, 0x3d, 0x0b, 0x09, 0xb2]
}

/// Discriminator of the earlier version of the same pool-initialization call.
pub open spec fn spec_init_pool_discrim_v1() -> Seq<u8> {
    seq![0x22u8, 0x80, 0x79, 0x2d, 0xab, 0x3e, 0xd2, 0x7e]
}

/// Discriminator of the pool program's swap call.
pub open spec fn spec_swap_discrim() -> Seq<u8> {
    seq![0xf8u8, 0xc6, 0x9e, 0x91, 0xe1, 0x75, 0x87, 0xc8]
}

} // verus!
