//! Recognizing a qualifying pool-creation instruction and deriving the
//! account set a purchase needs.
//!
//! A qualifying instruction comes from the pool program, begins with one of
//! two recognized 8-byte discriminators, and carries at least the 24 accounts
//! the fixed positions refer to (a shorter account list cannot be this call,
//! so it is not treated as one).  The two mints stand at positions 3 and 4;
//! the side the reference asset stands on fixes the trade direction and the
//! protocol-fee account.

use vstd::prelude::*;

use crate::chain::ata_key;
use crate::chain::derive_ata;
use crate::ids::spec_init_pool_discrim;
use crate::ids::spec_init_pool_discrim_v1;
use crate::ids::spec_pool_program;
use crate::ids::spec_reference_mint;
use crate::ids::pool_program;
use crate::ids::reference_mint;
use crate::ids::AccountId;
use crate::instr::Instr;
use crate::instr::InstrModel;

verus! {

/// Direction of the swap: reference asset to target, or target to reference.
#[derive(Clone, Copy, PartialEq, Eq, Structural, Debug)]
pub enum TradeDirection {
    AtoB,
    BtoA,
}

/// All accounts required to build the pool program's swap instruction.
#[derive(Clone, Copy, PartialEq, Eq, Structural, Debug)]
pub struct MeteoraSwapParams {
    pub pool: AccountId,
    pub direction: TradeDirection,
    /// The user's associated account for the reference asset.
    pub user_source: AccountId,
    /// The user's associated account for the target mint.
    pub user_destination: AccountId,
    pub a_vault: AccountId,
    pub b_vault: AccountId,
    pub a_token_vault: AccountId,
    pub b_token_vault: AccountId,
    pub a_vault_lp_mint: AccountId,
    pub b_vault_lp_mint: AccountId,
    pub a_vault_lp: AccountId,
    pub b_vault_lp: AccountId,
    /// Protocol fee token account; which one depends on the side.
    pub protocol_token_fee: AccountId,
    pub vault_program: AccountId,
    pub token_program: AccountId,
    pub mint_target_token: AccountId,
}

/// Direction, target mint and fee account of a qualifying pool creation.
#[derive(Clone, Copy, PartialEq, Eq, Structural, Debug)]
pub struct PoolMatch {
    pub direction: TradeDirection,
    pub target_mint: AccountId,
    pub fee_account: AccountId,
}

/// Whether `inst` is a pool-creation instruction this pipeline reacts to.
pub open spec fn spec_is_pool_creation(inst: InstrModel) -> bool {
    &&& inst.program_id == spec_pool_program()
    &&& inst.data.len() >= 8
    &&& (inst.data.take(8) == spec_init_pool_discrim() || inst.data.take(8)
        == spec_init_pool_discrim_v1())
    &&& inst.accounts.len() >= 24
}

/// The first qualifying instruction at position `i` or later.
pub open spec fn spec_first_pool_creation_from(instrs: Seq<InstrModel>, i: int) -> Option<int>
    decreases instrs.len() - i,
{
    if i < 0 || i >= instrs.len() {
        None
    } else if spec_is_pool_creation(instrs[i]) {
        Some(i)
    } else {
        spec_first_pool_creation_from(instrs, i + 1)
    }
}

/// The first qualifying instruction of the list, if any.
pub open spec fn spec_first_pool_creation(instrs: Seq<InstrModel>) -> Option<int> {
    spec_first_pool_creation_from(instrs, 0)
}

/// Which side the reference asset stands on: position 3 gives direction
/// `AtoB` and the fee account at position 16, position 4 gives `BtoA` and
/// the fee account at position 17; a pool of two non-reference mints gives
/// nothing.
pub open spec fn spec_pool_direction(inst: InstrModel) -> Option<PoolMatch> {
    if inst.accounts[3].key == spec_reference_mint() {
        Some(
            PoolMatch {
                direction: TradeDirection::AtoB,
                target_mint: inst.accounts[4].key,
                fee_account: inst.accounts[16].key,
            },
        )
    } else if inst.accounts[4].key == spec_reference_mint() {
        Some(
            PoolMatch {
                direction: TradeDirection::BtoA,
                target_mint: inst.accounts[3].key,
                fee_account: inst.accounts[17].key,
            },
        )
    } else {
        None
    }
}

/// The swap parameters read off a qualifying instruction for `owner`.
pub open spec fn spec_swap_params(owner: AccountId, inst: InstrModel, m: PoolMatch) -> MeteoraSwapParams {
    MeteoraSwapParams {
        pool: inst.accounts[0].key,
        direction: m.direction,
        user_source: ata_key(owner, spec_reference_mint()),
        user_destination: ata_key(owner, m.target_mint),
        a_vault: inst.accounts[5].key,
        b_vault: inst.accounts[6].key,
        a_token_vault: inst.accounts[7].key,
        b_token_vault: inst.accounts[8].key,
        a_vault_lp_mint: inst.accounts[9].key,
        b_vault_lp_mint: inst.accounts[10].key,
        a_vault_lp: inst.accounts[11].key,
        b_vault_lp: inst.accounts[12].key,
        protocol_token_fee: m.fee_account,
        vault_program: inst.accounts[22].key,
        token_program: inst.accounts[23].key,
        mint_target_token: m.target_mint,
    }
}

/// What resolving `inst` for `owner` yields: the swap parameters when the
/// instruction carries its fixed positions and one mint is the reference
/// asset, nothing otherwise.
pub open spec fn spec_resolve_swap(owner: AccountId, inst: InstrModel) -> Option<MeteoraSwapParams> {
    if inst.accounts.len() < 24 {
        None
    } else {
        match spec_pool_direction(inst) {
            Some(m) => Some(spec_swap_params(owner, inst, m)),
            None => None,
        }
    }
}

/// What a first-match result means: the found instruction qualifies and none
/// before it does.
pub proof fn lemma_first_pool_creation_from_spec(instrs: Seq<InstrModel>, j: int, i: int)
    requires
        0 <= j,
        spec_first_pool_creation_from(instrs, j) == Some(i),
    ensures
        j <= i < instrs.len(),
        spec_is_pool_creation(instrs[i]),
        forall|k: int| j <= k < i ==> !spec_is_pool_creation(#[trigger] instrs[k]),
    decreases instrs.len() - j,
{
    if j >= instrs.len() {
    } else if spec_is_pool_creation(instrs[j]) {
    } else {
        lemma_first_pool_creation_from_spec(instrs, j + 1, i);
    }
}

/// Whether `inst` is a qualifying pool creation.
pub fn is_pool_creation(inst: &Instr) -> (r: bool)
    ensures
        r == spec_is_pool_creation(inst@),
{
    if inst.data.len() < 8 || inst.accounts.len() < 24 {
        return false;
    }
    if !(inst.program_id == pool_program()) {
        return false;
    }
    let d0 = inst.data[0];
    let d1 = inst.data[1];
    let d2 = inst.data[2];
    let d3 = inst.data[3];
    let d4 = inst.data[4];
    let d5 = inst.data[5];
    let d6 = inst.data[6];
    let d7 = inst.data[7];
    let v2 = d0 == 0x30 && d1 == 0x95 && d2 == 0xdc && d3 == 0x82 && d4 == 0x3d && d5 == 0x0b && d6
        == 0x09 && d7 == 0xb2;
    let v1 = d0 == 0x22 && d1 == 0x80 && d2 == 0x79 && d3 == 0x2d && d4 == 0xab && d5 == 0x3e && d6
        == 0xd2 && d7 == 0x7e;
    proof {
        let p = inst@.data.take(8);
        assert(p.len() == 8);
        assert(p[0] == d0 && p[1] == d1 && p[2] == d2 && p[3] == d3 && p[4] == d4 && p[5] == d5
            && p[6] == d6 && p[7] == d7);
        if v2 {
            assert(p =~= spec_init_pool_discrim());
        } else {
            assert(p != spec_init_pool_discrim());
        }
        if v1 {
            assert(p =~= spec_init_pool_discrim_v1());
        } else {
            assert(p != spec_init_pool_discrim_v1());
        }
    }
    v1 || v2
}

/// Finds the first qualifying pool-creation instruction of the list.
pub fn find_pool_creation(instrs: &Vec<Instr>) -> (r: Option<usize>)
    ensures
        match r {
            Some(i) => i < instrs@.len() && spec_first_pool_creation(instrs.deep_view()) == Some(
                i as int,
            ),
            None => spec_first_pool_creation(instrs.deep_view()) is None,
        },
{
    let mut i: usize = 0;
    while i < instrs.len()
        invariant
            i <= instrs@.len(),
            spec_first_pool_creation(instrs.deep_view()) == spec_first_pool_creation_from(
                instrs.deep_view(),
                i as int,
            ),
        decreases instrs@.len() - i,
    {
        if is_pool_creation(&instrs[i]) {
            return Some(i);
        }
        i = i + 1;
    }
    None
}

/// Derives the swap parameters for `owner` from a pool-creation instruction,
/// or nothing when the instruction is too short or the pool does not involve
/// the reference asset.
pub fn resolve_swap_params(owner: AccountId, inst: &Instr) -> (r: Option<MeteoraSwapParams>)
    ensures
        r == spec_resolve_swap(owner, inst@),
{
    if inst.accounts.len() < 24 {
        return None;
    }
    let reference = reference_mint();
    let token_a_mint = inst.accounts[3].key;
    let token_b_mint = inst.accounts[4].key;
    let m: PoolMatch;
    if token_a_mint == reference {
        m = PoolMatch {
            direction: TradeDirection::AtoB,
            target_mint: token_b_mint,
            fee_account: inst.accounts[16].key,
        };
    } else if token_b_mint == reference {
        m = PoolMatch {
            direction: TradeDirection::BtoA,
            target_mint: token_a_mint,
            fee_account: inst.accounts[17].key,
        };
    } else {
        return None;
    }
    let user_source = derive_ata(&owner, &reference);
    let user_destination = derive_ata(&owner, &m.target_mint);
    Some(
        MeteoraSwapParams {
            pool: inst.accounts[0].key,
            direction: m.direction,
            user_source,
            user_destination,
            a_vault: inst.accounts[5].key,
            b_vault: inst.accounts[6].key,
            a_token_vault: inst.accounts[7].key,
            b_token_vault: inst.accounts[8].key,
            a_vault_lp_mint: inst.accounts[9].key,
            b_vault_lp_mint: inst.accounts[10].key,
            a_vault_lp: inst.accounts[11].key,
            b_vault_lp: inst.accounts[12].key,
            protocol_token_fee: m.fee_account,
            vault_program: inst.accounts[22].key,
            token_program: inst.accounts[23].key,
            mint_target_token: m.target_mint,
        },
    )
}

/// Law: direction symmetry.  On an instruction with enough accounts, the
/// reference asset at position 3 resolves to direction `AtoB` with the fee
/// account at position 16; the reference asset at position 4 (and not at 3)
/// resolves to direction `BtoA` with the fee account at position 17.
pub proof fn lemma_direction_symmetry(inst: InstrModel)
    requires
        inst.accounts.len() >= 24,
    ensures
        inst.accounts[3].key == spec_reference_mint() ==> spec_pool_direction(inst) == Some(
            PoolMatch {
                direction: TradeDirection::AtoB,
                target_mint: inst.accounts[4].key,
                fee_account: inst.accounts[16].key,
            },
        ),
        inst.accounts[3].key != spec_reference_mint() && inst.accounts[4].key
            == spec_reference_mint() ==> spec_pool_direction(inst) == Some(
            PoolMatch {
                direction: TradeDirection::BtoA,
                target_mint: inst.accounts[3].key,
                fee_account: inst.accounts[17].key,
            },
        ),
{
}

/// Law: a pool of two non-reference mints resolves to nothing, whatever the
/// rest of the account layout holds.
pub proof fn lemma_non_reference_pool_resolves_nothing(owner: AccountId, inst: InstrModel)
    requires
        inst.accounts[3].key != spec_reference_mint(),
        inst.accounts[4].key != spec_reference_mint(),
    ensures
        spec_resolve_swap(owner, inst) is None,
{
}

} // verus!
