//! Decoded-instruction model and the instruction extractor.
//!
//! A confirmed transaction arrives as a record of plain values: the statically
//! listed account keys, the dynamically loaded writable and read-only keys,
//! the top-level instructions and the program-invoked (inner) instruction
//! groups reported by execution metadata.  The extractor flattens top-level
//! and inner instructions into one ordered list, resolving every account index
//! against the combined account list: static keys first, then loaded writable,
//! then loaded read-only keys, as the chain's account-resolution rule mandates.

use vstd::prelude::*;

use crate::ids::AccountId;
use crate::ids::BlockHash;

verus! {

/// One resolved account reference: key plus its signer/writable flags.
#[derive(Clone, Copy, PartialEq, Eq, Structural, Debug)]
pub struct AccountSlot {
    pub key: AccountId,
    pub is_signer: bool,
    pub is_writable: bool,
}

/// A fully resolved instruction: program, ordered account list, raw payload.
#[derive(Debug)]
pub struct Instr {
    pub program_id: AccountId,
    pub accounts: Vec<AccountSlot>,
    pub data: Vec<u8>,
}

/// Mathematical model of an [`Instr`].
#[verifier::ext_equal]
pub struct InstrModel {
    pub program_id: AccountId,
    pub accounts: Seq<AccountSlot>,
    pub data: Seq<u8>,
}

impl View for Instr {
    type V = InstrModel;

    open spec fn view(&self) -> InstrModel {
        InstrModel { program_id: self.program_id, accounts: self.accounts@, data: self.data@ }
    }
}

impl DeepView for Instr {
    type V = InstrModel;

    open spec fn deep_view(&self) -> InstrModel {
        self.view()
    }
}

/// An unresolved instruction as it stands in a transaction message: account
/// references are indices into the combined account list.
#[derive(Debug)]
pub struct RawInstruction {
    pub program_id_index: u8,
    pub account_indices: Vec<u8>,
    pub data: Vec<u8>,
}

/// Mathematical model of a [`RawInstruction`].
#[verifier::ext_equal]
pub struct RawInstructionModel {
    pub program_id_index: u8,
    pub account_indices: Seq<u8>,
    pub data: Seq<u8>,
}

impl View for RawInstruction {
    type V = RawInstructionModel;

    open spec fn view(&self) -> RawInstructionModel {
        RawInstructionModel {
            program_id_index: self.program_id_index,
            account_indices: self.account_indices@,
            data: self.data@,
        }
    }
}

impl DeepView for RawInstruction {
    type V = RawInstructionModel;

    open spec fn deep_view(&self) -> RawInstructionModel {
        self.view()
    }
}

/// The inner instructions invoked while the top-level instruction at
/// `parent_index` executed, in execution order.
#[derive(Debug)]
pub struct InnerGroup {
    pub parent_index: u8,
    pub instructions: Vec<RawInstruction>,
}

/// Mathematical model of an [`InnerGroup`].
#[verifier::ext_equal]
pub struct InnerGroupModel {
    pub parent_index: u8,
    pub instructions: Seq<RawInstructionModel>,
}

impl View for InnerGroup {
    type V = InnerGroupModel;

    open spec fn view(&self) -> InnerGroupModel {
        InnerGroupModel {
            parent_index: self.parent_index,
            instructions: self.instructions.deep_view(),
        }
    }
}

impl DeepView for InnerGroup {
    type V = InnerGroupModel;

    open spec fn deep_view(&self) -> InnerGroupModel {
        self.view()
    }
}

/// The account-count header of a transaction message, fixing which statically
/// listed accounts are signers and which are writable.
#[derive(Clone, Copy, PartialEq, Eq, Structural, Debug)]
pub struct AccountCounts {
    pub num_required_signatures: u8,
    pub num_readonly_signed: u8,
    pub num_readonly_unsigned: u8,
}

/// Everything of a confirmed transaction the pipeline reads: account keys,
/// header counts, instructions, inner instruction groups and the recent
/// block hash.
#[derive(Debug)]
pub struct TxRecord {
    pub counts: AccountCounts,
    pub static_keys: Vec<AccountId>,
    pub loaded_writable: Vec<AccountId>,
    pub loaded_readonly: Vec<AccountId>,
    pub top_instructions: Vec<RawInstruction>,
    pub inner_groups: Vec<InnerGroup>,
    pub recent_blockhash: BlockHash,
}

/// Mathematical model of a [`TxRecord`].
#[verifier::ext_equal]
pub struct TxRecordModel {
    pub counts: AccountCounts,
    pub static_keys: Seq<AccountId>,
    pub loaded_writable: Seq<AccountId>,
    pub loaded_readonly: Seq<AccountId>,
    pub top_instructions: Seq<RawInstructionModel>,
    pub inner_groups: Seq<InnerGroupModel>,
    pub recent_blockhash: BlockHash,
}

impl View for TxRecord {
    type V = TxRecordModel;

    open spec fn view(&self) -> TxRecordModel {
        TxRecordModel {
            counts: self.counts,
            static_keys: self.static_keys@,
            loaded_writable: self.loaded_writable@,
            loaded_readonly: self.loaded_readonly@,
            top_instructions: self.top_instructions.deep_view(),
            inner_groups: self.inner_groups.deep_view(),
            recent_blockhash: self.recent_blockhash,
        }
    }
}

/// Whether the statically listed account at position `i` is writable, by the
/// chain's message-header rule: writable signers come first among the
/// signers, writable non-signers first among the non-signers.
pub open spec fn spec_static_writable(t: TxRecordModel, i: int) -> bool {
    ||| i + t.counts.num_readonly_signed < t.counts.num_required_signatures
    ||| (t.counts.num_required_signatures <= i && i + t.counts.num_readonly_unsigned
        < t.static_keys.len())
}

/// The resolved slot of the statically listed account at position `i`.
pub open spec fn spec_static_slot(t: TxRecordModel, i: int) -> AccountSlot {
    AccountSlot {
        key: t.static_keys[i],
        is_signer: i < t.counts.num_required_signatures,
        is_writable: spec_static_writable(t, i),
    }
}

/// The combined account list every instruction index refers into:
/// statically listed accounts, then dynamically loaded writable accounts,
/// then dynamically loaded read-only accounts.
pub open spec fn spec_combined_accounts(t: TxRecordModel) -> Seq<AccountSlot> {
    Seq::new(t.static_keys.len(), |i: int| spec_static_slot(t, i)) + t.loaded_writable.map(
        |i: int, k: AccountId| (AccountSlot { key: k, is_signer: false, is_writable: true }),
    ) + t.loaded_readonly.map(
        |i: int, k: AccountId| (AccountSlot { key: k, is_signer: false, is_writable: false }),
    )
}

/// The inner instructions of groups `g..` that belong to the top-level
/// instruction at `parent`, in group order.
pub open spec fn spec_inner_from(t: TxRecordModel, parent: int, g: int) -> Seq<RawInstructionModel>
    decreases t.inner_groups.len() - g,
{
    if g < 0 || g >= t.inner_groups.len() {
        Seq::empty()
    } else {
        (if t.inner_groups[g].parent_index as int == parent {
            t.inner_groups[g].instructions
        } else {
            Seq::empty()
        }) + spec_inner_from(t, parent, g + 1)
    }
}

/// All inner instructions belonging to the top-level instruction at `parent`.
pub open spec fn spec_inner_for(t: TxRecordModel, parent: int) -> Seq<RawInstructionModel> {
    spec_inner_from(t, parent, 0)
}

/// The flattened instruction list from top-level position `i` on: each
/// top-level instruction followed by the inner instructions it invoked.
pub open spec fn spec_flatten_from(t: TxRecordModel, i: int) -> Seq<RawInstructionModel>
    decreases t.top_instructions.len() - i,
{
    if i < 0 || i >= t.top_instructions.len() {
        Seq::empty()
    } else {
        seq![t.top_instructions[i]] + spec_inner_for(t, i) + spec_flatten_from(t, i + 1)
    }
}

/// The whole flattened instruction list of the record, in execution order.
pub open spec fn spec_flattened(t: TxRecordModel) -> Seq<RawInstructionModel> {
    spec_flatten_from(t, 0)
}

/// Whether every account reference of `r` (program id included) falls inside
/// a combined account list of length `n`.
pub open spec fn spec_in_range(r: RawInstructionModel, n: int) -> bool {
    &&& r.program_id_index < n
    &&& forall|j: int| 0 <= j < r.account_indices.len() ==> r.account_indices[j] < n
}

/// The resolved form of `r` against the combined account list `accts`.
pub open spec fn spec_resolve(r: RawInstructionModel, accts: Seq<AccountSlot>) -> InstrModel {
    InstrModel {
        program_id: accts[r.program_id_index as int].key,
        accounts: r.account_indices.map(|j: int, idx: u8| accts[idx as int]),
        data: r.data,
    }
}

/// Whether extraction succeeds on `t`: every flattened instruction stays in
/// range of the combined account list.
pub open spec fn spec_extract_ok(t: TxRecordModel) -> bool {
    forall|k: int|
        0 <= k < spec_flattened(t).len() ==> spec_in_range(
            #[trigger] spec_flattened(t)[k],
            spec_combined_accounts(t).len() as int,
        )
}

/// What extraction returns on success.
pub open spec fn spec_extracted(t: TxRecordModel) -> Seq<InstrModel> {
    spec_flattened(t).map(|k: int, r: RawInstructionModel| spec_resolve(r, spec_combined_accounts(t)))
}

/// The malformed-input error: the flattened instruction at position
/// `instruction` references an account index outside the combined account
/// list, whose length is `account_count`.
#[derive(Clone, Copy, PartialEq, Eq, Structural, Debug)]
pub struct ExtractError {
    pub instruction: usize,
    pub account_count: usize,
}

/// Byte-for-byte copy of a byte vector.
pub(crate) fn copy_bytes(src: &Vec<u8>) -> (r: Vec<u8>)
    ensures
        r@ == src@,
{
    let mut r: Vec<u8> = Vec::new();
    let mut i: usize = 0;
    while i < src.len()
        invariant
            i <= src@.len(),
            r@ == src@.take(i as int),
        decreases src@.len() - i,
    {
        r.push(src[i]);
        proof {
            assert(src@.take(i as int).push(src@[i as int]) =~= src@.take(i as int + 1));
        }
        i = i + 1;
    }
    proof {
        assert(src@.take(src@.len() as int) =~= src@);
    }
    r
}

/// Builds the combined account list of `t`.
pub fn combined_accounts(t: &TxRecord) -> (r: Vec<AccountSlot>)
    ensures
        r@ == spec_combined_accounts(t@),
{
    let ns = t.counts.num_required_signatures as usize;
    let nro_s = t.counts.num_readonly_signed as usize;
    let nro_u = t.counts.num_readonly_unsigned as usize;
    let mut r: Vec<AccountSlot> = Vec::new();
    let mut i: usize = 0;
    while i < t.static_keys.len()
        invariant
            ns == t@.counts.num_required_signatures,
            nro_s == t@.counts.num_readonly_signed,
            nro_u == t@.counts.num_readonly_unsigned,
            i <= t@.static_keys.len(),
            r@.len() == i,
            forall|k: int| 0 <= k < i ==> r@[k] == spec_static_slot(t@, k),
        decreases t@.static_keys.len() - i,
    {
        let is_signer = i < ns;
        let is_writable = (i < ns && i + nro_s < ns) || (ns <= i && nro_u
            < t.static_keys.len() - i);
        r.push(AccountSlot { key: t.static_keys[i], is_signer, is_writable });
        i = i + 1;
    }
    let mut j: usize = 0;
    while j < t.loaded_writable.len()
        invariant
            j <= t@.loaded_writable.len(),
            r@.len() == t@.static_keys.len() + j,
            forall|k: int| 0 <= k < t@.static_keys.len() ==> r@[k] == spec_static_slot(t@, k),
            forall|k: int|
                0 <= k < j ==> r@[t@.static_keys.len() + k] == (AccountSlot {
                    key: t@.loaded_writable[k],
                    is_signer: false,
                    is_writable: true,
                }),
        decreases t@.loaded_writable.len() - j,
    {
        r.push(AccountSlot { key: t.loaded_writable[j], is_signer: false, is_writable: true });
        j = j + 1;
    }
    let mut q: usize = 0;
    while q < t.loaded_readonly.len()
        invariant
            q <= t@.loaded_readonly.len(),
            r@.len() == t@.static_keys.len() + t@.loaded_writable.len() + q,
            forall|k: int| 0 <= k < t@.static_keys.len() ==> r@[k] == spec_static_slot(t@, k),
            forall|k: int|
                0 <= k < t@.loaded_writable.len() ==> r@[t@.static_keys.len() + k] == (AccountSlot {
                    key: t@.loaded_writable[k],
                    is_signer: false,
                    is_writable: true,
                }),
            forall|k: int|
                0 <= k < q ==> r@[t@.static_keys.len() + t@.loaded_writable.len() + k]
                    == (AccountSlot {
                    key: t@.loaded_readonly[k],
                    is_signer: false,
                    is_writable: false,
                }),
        decreases t@.loaded_readonly.len() - q,
    {
        r.push(AccountSlot { key: t.loaded_readonly[q], is_signer: false, is_writable: false });
        q = q + 1;
    }
    proof {
        assert(r@ =~= spec_combined_accounts(t@));
    }
    r
}

/// Resolves one raw instruction against the combined account list, or reports
/// that one of its indices is out of range.
fn resolve_one(raw: &RawInstruction, accts: &Vec<AccountSlot>) -> (r: Option<Instr>)
    ensures
        match r {
            Some(inst) => spec_in_range(raw@, accts@.len() as int) && inst@ == spec_resolve(
                raw@,
                accts@,
            ),
            None => !spec_in_range(raw@, accts@.len() as int),
        },
{
    if raw.program_id_index as usize >= accts.len() {
        return None;
    }
    let mut resolved: Vec<AccountSlot> = Vec::new();
    let mut j: usize = 0;
    while j < raw.account_indices.len()
        invariant
            j <= raw@.account_indices.len(),
            accts@.len() <= usize::MAX,
            raw@.program_id_index < accts@.len(),
            resolved@.len() == j,
            forall|q: int| 0 <= q < j ==> raw@.account_indices[q] < accts@.len(),
            forall|q: int|
                0 <= q < j ==> resolved@[q] == accts@[raw@.account_indices[q] as int],
        decreases raw@.account_indices.len() - j,
    {
        let idx = raw.account_indices[j];
        if idx as usize >= accts.len() {
            return None;
        }
        resolved.push(accts[idx as usize]);
        j = j + 1;
    }
    let inst = Instr {
        program_id: accts[raw.program_id_index as usize].key,
        accounts: resolved,
        data: copy_bytes(&raw.data),
    };
    proof {
        assert(inst@.accounts =~= spec_resolve(raw@, accts@).accounts);
        assert(inst@ =~= spec_resolve(raw@, accts@));
    }
    Some(inst)
}

/// Flattens a confirmed transaction's top-level and inner instructions into
/// one ordered list of resolved instructions.
///
/// Succeeds exactly when every account reference falls inside the combined
/// account list; otherwise reports the first instruction, in execution order,
/// holding an out-of-range index.
pub fn extract_instructions(t: &TxRecord) -> (r: Result<Vec<Instr>, ExtractError>)
    ensures
        match r {
            Ok(v) => spec_extract_ok(t@) && v.deep_view() == spec_extracted(t@),
            Err(e) => {
                &&& !spec_extract_ok(t@)
                &&& e.account_count == spec_combined_accounts(t@).len()
                &&& 0 <= e.instruction < spec_flattened(t@).len()
                &&& !spec_in_range(
                    spec_flattened(t@)[e.instruction as int],
                    spec_combined_accounts(t@).len() as int,
                )
                &&& forall|k: int|
                    0 <= k < e.instruction ==> spec_in_range(
                        #[trigger] spec_flattened(t@)[k],
                        spec_combined_accounts(t@).len() as int,
                    )
            },
        },
{
    let accts = combined_accounts(t);
    let n = accts.len();
    let mut out: Vec<Instr> = Vec::new();
    let ghost mut done: Seq<RawInstructionModel> = Seq::empty();
    proof {
        assert(spec_flattened(t@) =~= done + spec_flatten_from(t@, 0));
    }
    let mut i: usize = 0;
    while i < t.top_instructions.len()
        invariant
            accts@ == spec_combined_accounts(t@),
            n == accts@.len(),
            i <= t@.top_instructions.len(),
            spec_flattened(t@) == done + spec_flatten_from(t@, i as int),
            out@.len() == done.len(),
            forall|k: int| 0 <= k < done.len() ==> spec_in_range(#[trigger] done[k], n as int),
            forall|k: int|
                0 <= k < done.len() ==> out@[k]@ == spec_resolve(#[trigger] done[k], accts@),
        decreases t@.top_instructions.len() - i,
    {
        let raw = &t.top_instructions[i];
        match resolve_one(raw, &accts) {
            Some(inst) => {
                out.push(inst);
                proof {
                    done = done + seq![t@.top_instructions[i as int]];
                    assert(spec_flattened(t@) =~= done + spec_inner_for(t@, i as int)
                        + spec_flatten_from(t@, i as int + 1));
                }
            },
            None => {
                let e = ExtractError { instruction: out.len(), account_count: n };
                proof {
                    assert(spec_flattened(t@)[done.len() as int] == t@.top_instructions[i as int]);
                    assert(!spec_extract_ok(t@));
                    assert(forall|k: int| 0 <= k < done.len() ==> spec_flattened(t@)[k] == done[k]);
                }
                return Err(e);
            },
        }
        let mut g: usize = 0;
        while g < t.inner_groups.len()
            invariant
                accts@ == spec_combined_accounts(t@),
                n == accts@.len(),
                i < t@.top_instructions.len(),
                g <= t@.inner_groups.len(),
                spec_flattened(t@) == done + spec_inner_from(t@, i as int, g as int)
                    + spec_flatten_from(t@, i as int + 1),
                out@.len() == done.len(),
                forall|k: int| 0 <= k < done.len() ==> spec_in_range(#[trigger] done[k], n as int),
                forall|k: int|
                    0 <= k < done.len() ==> out@[k]@ == spec_resolve(#[trigger] done[k], accts@),
            decreases t@.inner_groups.len() - g,
        {
            if t.inner_groups[g].parent_index as usize == i {
                let grp = &t.inner_groups[g];
                proof {
                    assert(spec_inner_from(t@, i as int, g as int) == grp@.instructions
                        + spec_inner_from(t@, i as int, g as int + 1));
                }
                let mut q: usize = 0;
                while q < grp.instructions.len()
                    invariant
                        accts@ == spec_combined_accounts(t@),
                        n == accts@.len(),
                        i < t@.top_instructions.len(),
                        g < t@.inner_groups.len(),
                        q <= grp@.instructions.len(),
                        grp@ == t@.inner_groups[g as int],
                        spec_flattened(t@) == done + grp@.instructions.skip(q as int)
                            + spec_inner_from(t@, i as int, g as int + 1) + spec_flatten_from(
                            t@,
                            i as int + 1,
                        ),
                        out@.len() == done.len(),
                        forall|k: int|
                            0 <= k < done.len() ==> spec_in_range(#[trigger] done[k], n as int),
                        forall|k: int|
                            0 <= k < done.len() ==> out@[k]@ == spec_resolve(
                                #[trigger] done[k],
                                accts@,
                            ),
                    decreases grp@.instructions.len() - q,
                {
                    let raw = &grp.instructions[q];
                    proof {
                        assert(grp@.instructions.skip(q as int) =~= seq![
                            grp@.instructions[q as int],
                        ] + grp@.instructions.skip(q as int + 1));
                    }
                    match resolve_one(raw, &accts) {
                        Some(inst) => {
                            out.push(inst);
                            proof {
                                done = done + seq![grp@.instructions[q as int]];
                                assert(spec_flattened(t@) =~= done + grp@.instructions.skip(
                                    q as int + 1,
                                ) + spec_inner_from(t@, i as int, g as int + 1)
                                    + spec_flatten_from(t@, i as int + 1));
                            }
                        },
                        None => {
                            let e = ExtractError { instruction: out.len(), account_count: n };
                            proof {
                                assert(spec_flattened(t@)[done.len() as int]
                                    == grp@.instructions[q as int]);
                                assert(!spec_extract_ok(t@));
                                assert(forall|k: int|
                                    0 <= k < done.len() ==> spec_flattened(t@)[k] == done[k]);
                            }
                            return Err(e);
                        },
                    }
                    q = q + 1;
                }
                proof {
                    assert(grp@.instructions.skip(grp@.instructions.len() as int)
                        =~= Seq::<RawInstructionModel>::empty());
                    assert(spec_flattened(t@) =~= done + spec_inner_from(t@, i as int, g as int + 1)
                        + spec_flatten_from(t@, i as int + 1));
                }
            } else {
                proof {
                    assert(spec_inner_from(t@, i as int, g as int)
                        =~= spec_inner_from(t@, i as int, g as int + 1));
                }
            }
            g = g + 1;
        }
        proof {
            assert(spec_inner_from(t@, i as int, t@.inner_groups.len() as int)
                =~= Seq::<RawInstructionModel>::empty());
            assert(spec_flattened(t@) =~= done + spec_flatten_from(t@, i as int + 1));
        }
        i = i + 1;
    }
    proof {
        assert(spec_flatten_from(t@, t@.top_instructions.len() as int)
            =~= Seq::<RawInstructionModel>::empty());
        assert(done =~= spec_flattened(t@));
        assert(out.deep_view() =~~= spec_extracted(t@));
    }
    Ok(out)
}

} // verus!
