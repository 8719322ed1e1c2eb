//! The one-shot detection state machine.
//!
//! The controller is ARMED until the first qualifying pool-creation event,
//! then FIRED for the rest of the run: `is_buy` is the terminal flag, and
//! `seen_mints` tracks which target assets have already been reacted to, with
//! set semantics (a duplicate insertion is a no-op).  Both are owned by the
//! single-threaded detection path alone.

use vstd::prelude::*;

use crate::ids::AccountId;
use crate::ids::BlockHash;
use crate::instr::extract_instructions;
use crate::instr::spec_combined_accounts;
use crate::instr::spec_extract_ok;
use crate::instr::spec_extracted;
use crate::instr::spec_flattened;
use crate::instr::spec_in_range;
use crate::instr::ExtractError;
use crate::instr::TxRecord;
use crate::instr::TxRecordModel;
use crate::swap::find_pool_creation;
use crate::swap::resolve_swap_params;
use crate::swap::spec_first_pool_creation;
use crate::swap::spec_pool_direction;
use crate::swap::spec_resolve_swap;
use crate::swap::MeteoraSwapParams;
use crate::swap::PoolMatch;

verus! {

/// Everything the broadcast stage needs once a purchase is triggered.
#[derive(Clone, Copy, PartialEq, Eq, Structural, Debug)]
pub struct PurchasePlan {
    pub params: MeteoraSwapParams,
    pub recent_blockhash: BlockHash,
}

/// The detection controller: the configured owner key, the terminal fired
/// flag, and the target assets already seen.
#[derive(Debug)]
pub struct MeteoraController {
    pub owner: AccountId,
    pub is_buy: bool,
    pub seen_mints: Vec<AccountId>,
}

/// Mathematical model of a [`MeteoraController`].
#[verifier::ext_equal]
pub struct ControllerModel {
    pub owner: AccountId,
    pub is_buy: bool,
    pub seen: Seq<AccountId>,
}

impl View for MeteoraController {
    type V = ControllerModel;

    open spec fn view(&self) -> ControllerModel {
        ControllerModel { owner: self.owner, is_buy: self.is_buy, seen: self.seen_mints@ }
    }
}

/// Well-formedness: the seen list holds each target at most once.
pub open spec fn spec_wf(m: ControllerModel) -> bool {
    forall|i: int, j: int| 0 <= i < j < m.seen.len() ==> m.seen[i] != m.seen[j]
}

/// A fresh controller: armed, nothing seen.
pub open spec fn spec_initial_controller(owner: AccountId) -> ControllerModel {
    ControllerModel { owner, is_buy: false, seen: Seq::empty() }
}

/// What a transaction record offers the detector: the direction, target mint
/// and fee account of the first pool-creation instruction, provided
/// extraction succeeds, such an instruction exists, and the pool involves
/// the reference asset.
pub open spec fn spec_event_match(t: TxRecordModel) -> Option<PoolMatch> {
    if !spec_extract_ok(t) {
        None
    } else {
        match spec_first_pool_creation(spec_extracted(t)) {
            Some(i) => spec_pool_direction(spec_extracted(t)[i]),
            None => None,
        }
    }
}

/// Whether processing `t` in state `m` triggers the purchase: the controller
/// is still armed, the record offers a qualifying pool, and its target was
/// never seen before.
pub open spec fn spec_fires(m: ControllerModel, t: TxRecordModel) -> bool {
    &&& !m.is_buy
    &&& spec_event_match(t) is Some
    &&& !m.seen.contains(spec_event_match(t)->Some_0.target_mint)
}

/// The controller state after processing `t`: unchanged unless the purchase
/// fires, in which case the controller is terminally fired and the target is
/// recorded.
pub open spec fn spec_step_state(m: ControllerModel, t: TxRecordModel) -> ControllerModel {
    if spec_fires(m, t) {
        ControllerModel {
            owner: m.owner,
            is_buy: true,
            seen: m.seen.push(spec_event_match(t)->Some_0.target_mint),
        }
    } else {
        m
    }
}

/// The plan handed to the broadcast stage when the purchase fires.
pub open spec fn spec_fired_plan(m: ControllerModel, t: TxRecordModel) -> PurchasePlan {
    let i = spec_first_pool_creation(spec_extracted(t))->Some_0;
    PurchasePlan {
        params: spec_resolve_swap(m.owner, spec_extracted(t)[i])->Some_0,
        recent_blockhash: t.recent_blockhash,
    }
}

impl MeteoraController {
    /// A fresh, armed controller for the owner key.
    pub fn new(owner: AccountId) -> (r: Self)
        ensures
            r@ == spec_initial_controller(owner),
            spec_wf(r@),
    {
        let r = MeteoraController { owner, is_buy: false, seen_mints: Vec::new() };
        proof {
            assert(r@ =~= spec_initial_controller(owner));
        }
        r
    }

    /// Whether a target mint was already seen.
    fn seen_contains(&self, x: &AccountId) -> (r: bool)
        ensures
            r == self@.seen.contains(*x),
    {
        let mut i: usize = 0;
        while i < self.seen_mints.len()
            invariant
                i <= self@.seen.len(),
                forall|k: int| 0 <= k < i ==> self@.seen[k] != *x,
            decreases self@.seen.len() - i,
        {
            if self.seen_mints[i] == *x {
                return true;
            }
            i = i + 1;
        }
        false
    }

    /// Handles one confirmed-transaction record.
    ///
    /// While armed, extracts the instruction list, looks for the first
    /// pool-creation instruction, and fires at most once: the first fresh
    /// target involving the reference asset yields the purchase plan and
    /// moves the controller to its terminal state.  Every other outcome is a
    /// silent no-op, except a malformed record (an account index out of
    /// range), which aborts that one event with an error and changes
    /// nothing.
    pub fn transaction_handler(&mut self, t: &TxRecord) -> (r: Result<
        Option<PurchasePlan>,
        ExtractError,
    >)
        requires
            spec_wf(old(self)@),
        ensures
            spec_wf(final(self)@),
            final(self)@ == spec_step_state(old(self)@, t@),
            match r {
                Ok(Some(plan)) => spec_fires(old(self)@, t@) && plan == spec_fired_plan(
                    old(self)@,
                    t@,
                ),
                Ok(None) => !spec_fires(old(self)@, t@) && (old(self)@.is_buy || spec_extract_ok(
                    t@,
                )),
                Err(e) => {
                    &&& !old(self)@.is_buy
                    &&& !spec_extract_ok(t@)
                    &&& e.account_count == spec_combined_accounts(t@).len()
                    &&& 0 <= e.instruction < spec_flattened(t@).len()
                    &&& !spec_in_range(
                        spec_flattened(t@)[e.instruction as int],
                        spec_combined_accounts(t@).len() as int,
                    )
                    &&& forall|k: int|
                        0 <= k < e.instruction ==> spec_in_range(
                            #[trigger] spec_flattened(t@)[k],
                            spec_combined_accounts(t@).len() as int,
                        )
                },
            },
    {
        if self.is_buy {
            return Ok(None);
        }
        let instrs = match extract_instructions(t) {
            Ok(v) => v,
            Err(e) => {
                return Err(e);
            },
        };
        let idx = match find_pool_creation(&instrs) {
            Some(i) => i,
            None => {
                return Ok(None);
            },
        };
        proof {
            crate::swap::lemma_first_pool_creation_from_spec(instrs.deep_view(), 0, idx as int);
        }
        let params = match resolve_swap_params(self.owner, &instrs[idx]) {
            Some(p) => p,
            None => {
                return Ok(None);
            },
        };
        let target = params.mint_target_token;
        if self.seen_contains(&target) {
            return Ok(None);
        }
        proof {
            assert(forall|k: int| 0 <= k < self@.seen.len() ==> self@.seen[k] != target);
        }
        self.seen_mints.push(target);
        self.is_buy = true;
        proof {
            assert(self@ =~= spec_step_state(old(self)@, t@));
        }
        Ok(Some(PurchasePlan { params, recent_blockhash: t.recent_blockhash }))
    }
}

/// How often a sequence of events fires, processed in order from state `m`.
pub open spec fn spec_run_fire_count(m: ControllerModel, evs: Seq<TxRecordModel>) -> nat
    decreases evs.len(),
{
    if evs.len() == 0 {
        0
    } else {
        (if spec_fires(m, evs[0]) {
            1nat
        } else {
            0nat
        }) + spec_run_fire_count(spec_step_state(m, evs[0]), evs.drop_first())
    }
}

/// The position of the first firing event, processed in order from state `m`.
pub open spec fn spec_run_first_fire(m: ControllerModel, evs: Seq<TxRecordModel>) -> Option<int>
    decreases evs.len(),
{
    if evs.len() == 0 {
        None
    } else if spec_fires(m, evs[0]) {
        Some(0)
    } else {
        match spec_run_first_fire(spec_step_state(m, evs[0]), evs.drop_first()) {
            Some(j) => Some(j + 1),
            None => None,
        }
    }
}

/// Law: at-most-once firing.  Whatever the event sequence, the purchase
/// trigger fires at most once, and never again once the controller is fired.
pub proof fn lemma_at_most_once_firing(m: ControllerModel, evs: Seq<TxRecordModel>)
    ensures
        spec_run_fire_count(m, evs) <= 1,
        m.is_buy ==> spec_run_fire_count(m, evs) == 0,
    decreases evs.len(),
{
    if evs.len() == 0 {
    } else {
        lemma_at_most_once_firing(spec_step_state(m, evs[0]), evs.drop_first());
    }
}

/// Law: the trigger fires exactly once, at the first qualifying event of the
/// sequence, regardless of how many later events also qualify.
pub proof fn lemma_fires_at_first_qualifying(owner: AccountId, evs: Seq<TxRecordModel>, i: int)
    requires
        0 <= i < evs.len(),
        spec_event_match(evs[i]) is Some,
        forall|k: int| 0 <= k < i ==> spec_event_match(#[trigger] evs[k]) is None,
    ensures
        spec_run_fire_count(spec_initial_controller(owner), evs) == 1,
        spec_run_first_fire(spec_initial_controller(owner), evs) == Some(i),
    decreases i,
{
    let m0 = spec_initial_controller(owner);
    if i == 0 {
        assert(spec_fires(m0, evs[0]));
        let m1 = spec_step_state(m0, evs[0]);
        lemma_at_most_once_firing(m1, evs.drop_first());
    } else {
        assert(spec_event_match(evs[0]) is None);
        assert(!spec_fires(m0, evs[0]));
        let rest = evs.drop_first();
        assert(rest[i - 1] == evs[i]);
        assert(forall|k: int| 0 <= k < i - 1 ==> spec_event_match(#[trigger] rest[k]) is None);
        lemma_fires_at_first_qualifying(owner, rest, i - 1);
    }
}

/// Law: idempotent target tracking.  Feeding the identical qualifying event
/// twice, starting from a fresh controller, triggers exactly once, at the
/// first of the two.
pub proof fn lemma_duplicate_event_single_fire(owner: AccountId, t: TxRecordModel)
    requires
        spec_event_match(t) is Some,
    ensures
        spec_run_fire_count(spec_initial_controller(owner), seq![t, t]) == 1,
        spec_run_first_fire(spec_initial_controller(owner), seq![t, t]) == Some(0int),
{
    lemma_fires_at_first_qualifying(owner, seq![t, t], 0);
}

/// Law: a target already in the seen set never fires again, whatever the
/// rest of the state says.
pub proof fn lemma_seen_target_never_refires(m: ControllerModel, t: TxRecordModel)
    requires
        spec_event_match(t) is Some,
        m.seen.contains(spec_event_match(t)->Some_0.target_mint),
    ensures
        !spec_fires(m, t),
        spec_step_state(m, t) == m,
{
}

/// Law: non-qualifying pools are ignored.  If the first pool-creation
/// instruction pairs two non-reference mints, nothing fires and the state is
/// unchanged, for any account layout around it.
pub proof fn lemma_non_reference_pool_never_triggers(m: ControllerModel, t: TxRecordModel)
    requires
        ({
            let f = spec_first_pool_creation(spec_extracted(t));
            f is Some ==> {
                &&& spec_extracted(t)[f->Some_0].accounts[3].key != crate::ids::spec_reference_mint()
                &&& spec_extracted(t)[f->Some_0].accounts[4].key != crate::ids::spec_reference_mint()
            }
        }),
    ensures
        !spec_fires(m, t),
        spec_step_state(m, t) == m,
{
}

} // verus!
