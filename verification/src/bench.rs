//! Decisions of the broadcast orchestrator.
//!
//! The orchestrator either dry-runs one envelope or fans the purchase out to
//! every configured relay concurrently; the network work lives outside the
//! library, and everything decidable from plain values is here: which
//! configured endpoints become senders, how a dry-run answer is read, how
//! landing latency is computed, and how the independent relay outcomes are
//! summarized.

use vstd::prelude::*;

use crate::config::RpcConfig;
use crate::config::RpcConfigModel;
use crate::config::RpcType;
use crate::wire::RelayError;
use crate::wire::TxResult;

verus! {

/// Where a sender queries block heights: its own submission endpoint, or the
/// public node the HTTP relays cannot answer heights from.
#[derive(Clone, Copy, PartialEq, Eq, Structural, Debug)]
pub enum HeightSource {
    SubmitEndpoint,
    PublicNode,
}

/// One named endpoint from the configuration map.
#[derive(Debug)]
pub struct RpcEntry {
    pub name: String,
    pub config: RpcConfig,
}

/// Mathematical model of an [`RpcEntry`].
#[verifier::ext_equal]
pub struct RpcEntryModel {
    pub name: Seq<char>,
    pub config: RpcConfigModel,
}

impl View for RpcEntry {
    type V = RpcEntryModel;

    open spec fn view(&self) -> RpcEntryModel {
        RpcEntryModel { name: self.name@, config: self.config@ }
    }
}

impl DeepView for RpcEntry {
    type V = RpcEntryModel;

    open spec fn deep_view(&self) -> RpcEntryModel {
        self.view()
    }
}

/// Everything a runtime sender is built from: endpoint, kind, optional auth
/// token, and where it reads block heights.
#[derive(Debug)]
pub struct SenderSpec {
    pub name: String,
    pub url: String,
    pub auth: Option<String>,
    pub kind: RpcType,
    pub height_source: HeightSource,
}

/// Mathematical model of a [`SenderSpec`].
#[verifier::ext_equal]
pub struct SenderSpecModel {
    pub name: Seq<char>,
    pub url: Seq<char>,
    pub auth: Option<Seq<char>>,
    pub kind: RpcType,
    pub height_source: HeightSource,
}

impl View for SenderSpec {
    type V = SenderSpecModel;

    open spec fn view(&self) -> SenderSpecModel {
        SenderSpecModel {
            name: self.name@,
            url: self.url@,
            auth: self.auth.deep_view(),
            kind: self.kind,
            height_source: self.height_source,
        }
    }
}

impl DeepView for SenderSpec {
    type V = SenderSpecModel;

    open spec fn deep_view(&self) -> SenderSpecModel {
        self.view()
    }
}

/// Whether an auth token is configured and non-empty.
pub open spec fn spec_auth_present(a: Option<Seq<char>>) -> bool {
    match a {
        Some(s) => s.len() > 0,
        None => false,
    }
}

/// Which sender a configured endpoint becomes.  Direct-node and bundle-relay
/// endpoints always become senders and need no auth.  Either HTTP relay kind
/// becomes a sender only if a non-empty auth token is configured; its
/// absence is not an error, the endpoint is simply omitted.  The HTTP relay
/// kinds read block heights from the public node, the others from their own
/// endpoint.
pub open spec fn spec_plan_sender(name: Seq<char>, c: RpcConfigModel) -> Option<SenderSpecModel> {
    match c.rpc_type {
        RpcType::SolanaRpc => Some(
            SenderSpecModel {
                name,
                url: c.url,
                auth: None,
                kind: RpcType::SolanaRpc,
                height_source: HeightSource::SubmitEndpoint,
            },
        ),
        RpcType::Jito => Some(
            SenderSpecModel {
                name,
                url: c.url,
                auth: None,
                kind: RpcType::Jito,
                height_source: HeightSource::SubmitEndpoint,
            },
        ),
        RpcType::Bloxroute => if spec_auth_present(c.auth) {
            Some(
                SenderSpecModel {
                    name,
                    url: c.url,
                    auth: c.auth,
                    kind: RpcType::Bloxroute,
                    height_source: HeightSource::PublicNode,
                },
            )
        } else {
            None
        },
        RpcType::NextBlock => if spec_auth_present(c.auth) {
            Some(
                SenderSpecModel {
                    name,
                    url: c.url,
                    auth: c.auth,
                    kind: RpcType::NextBlock,
                    height_source: HeightSource::PublicNode,
                },
            )
        } else {
            None
        },
    }
}

/// Turns one configured endpoint into a sender specification, or omits it
/// when a required auth token is missing or empty.
pub fn create_tx_sender(name: String, rpc_config: RpcConfig) -> (r: Option<SenderSpec>)
    ensures
        r.deep_view() == spec_plan_sender(name@, rpc_config@),
{
    match rpc_config.rpc_type {
        RpcType::SolanaRpc => Some(
            SenderSpec {
                name,
                url: rpc_config.url,
                auth: None,
                kind: RpcType::SolanaRpc,
                height_source: HeightSource::SubmitEndpoint,
            },
        ),
        RpcType::Jito => Some(
            SenderSpec {
                name,
                url: rpc_config.url,
                auth: None,
                kind: RpcType::Jito,
                height_source: HeightSource::SubmitEndpoint,
            },
        ),
        RpcType::Bloxroute => {
            let present = match &rpc_config.auth {
                Some(s) => !s.as_str().is_empty(),
                None => false,
            };
            if present {
                Some(
                    SenderSpec {
                        name,
                        url: rpc_config.url,
                        auth: rpc_config.auth,
                        kind: RpcType::Bloxroute,
                        height_source: HeightSource::PublicNode,
                    },
                )
            } else {
                None
            }
        },
        RpcType::NextBlock => {
            let present = match &rpc_config.auth {
                Some(s) => !s.as_str().is_empty(),
                None => false,
            };
            if present {
                Some(
                    SenderSpec {
                        name,
                        url: rpc_config.url,
                        auth: rpc_config.auth,
                        kind: RpcType::NextBlock,
                        height_source: HeightSource::PublicNode,
                    },
                )
            } else {
                None
            }
        },
    }
}

/// The sender list a configuration map yields, in map order, endpoints
/// without their required auth omitted.
pub open spec fn spec_plan_senders(entries: Seq<RpcEntryModel>) -> Seq<SenderSpecModel>
    decreases entries.len(),
{
    if entries.len() == 0 {
        Seq::empty()
    } else {
        spec_plan_senders(entries.drop_last()) + (match spec_plan_sender(
            entries.last().name,
            entries.last().config,
        ) {
            Some(p) => seq![p],
            None => Seq::empty(),
        })
    }
}

/// Turns the whole configuration map into the run's sender list.
pub fn plan_senders(entries: &Vec<RpcEntry>) -> (r: Vec<SenderSpec>)
    ensures
        r.deep_view() == spec_plan_senders(entries.deep_view()),
{
    let ghost all = entries.deep_view();
    let mut out: Vec<SenderSpec> = Vec::new();
    let mut i: usize = 0;
    while i < entries.len()
        invariant
            i <= all.len(),
            all == entries.deep_view(),
            all.len() == entries@.len(),
            out.deep_view() == spec_plan_senders(all.take(i as int)),
        decreases all.len() - i,
    {
        let e = &entries[i];
        proof {
            assert(e.deep_view() == all[i as int]);
            assert(all.take(i as int + 1).drop_last() =~= all.take(i as int));
            assert(all.take(i as int + 1).last() == all[i as int]);
        }
        match create_tx_sender(e.name.clone(), e.config.duplicate()) {
            Some(s) => {
                out.push(s);
            },
            None => {},
        }
        proof {
            assert(out.deep_view() =~~= spec_plan_senders(all.take(i as int + 1)));
        }
        i = i + 1;
    }
    proof {
        assert(all.take(all.len() as int) =~= all);
    }
    out
}

/// Per-transaction metrics of one relay attempt, for logging.
#[derive(Debug)]
pub struct TxMetrics {
    pub rpc_name: String,
    pub signature: String,
    pub index: u32,
    pub success: bool,
    pub slot_sent: u64,
    pub slot_landed: Option<u64>,
    pub slot_latency: Option<u64>,
    pub elapsed: Option<u64>,
}

/// Landing latency in blocks: the height after landing minus the height
/// recorded before submission, zero when the chain moved backwards, and
/// nothing when no height was recorded before submission.
pub fn latency_delta(slot_sent: Option<u64>, landed: u64) -> (r: Option<u64>)
    ensures
        match slot_sent {
            Some(sent) => r == Some(
                if landed >= sent {
                    (landed - sent) as u64
                } else {
                    0u64
                },
            ),
            None => r is None,
        },
{
    match slot_sent {
        Some(sent) => {
            if landed >= sent {
                Some(landed - sent)
            } else {
                Some(0)
            }
        },
        None => None,
    }
}

/// What a dry run reported: success and consumed compute units.
#[derive(Clone, Copy, PartialEq, Eq, Structural, Debug)]
pub struct SimReport {
    pub success: bool,
    pub units_consumed: u64,
}

/// Reads a dry-run answer: success is the absence of an execution error, and
/// the consumed compute units default to zero when the node reports none.
pub fn interpret_simulation(err: Option<String>, units_consumed: Option<u64>) -> (r: SimReport)
    ensures
        r.success == (err is None),
        r.units_consumed == (match units_consumed {
            Some(u) => u,
            None => 0u64,
        }),
{
    let success = match &err {
        Some(_) => false,
        None => true,
    };
    let units = match units_consumed {
        Some(u) => u,
        None => 0,
    };
    SimReport { success, units_consumed: units }
}

/// How many outcomes of a fan-out succeeded.
pub open spec fn spec_success_count(s: Seq<Result<TxResult, RelayError>>) -> nat
    decreases s.len(),
{
    if s.len() == 0 {
        0
    } else {
        spec_success_count(s.drop_last()) + (if s.last() is Ok {
            1nat
        } else {
            0nat
        })
    }
}

pub proof fn lemma_success_count_le_len(s: Seq<Result<TxResult, RelayError>>)
    ensures
        spec_success_count(s) <= s.len(),
    decreases s.len(),
{
    if s.len() > 0 {
        lemma_success_count_le_len(s.drop_last());
    }
}

/// Every outcome is counted on its own: a success raises the success count
/// whatever the others did, a failure keeps it below the total.
pub proof fn lemma_outcome_counted(s: Seq<Result<TxResult, RelayError>>, i: int)
    requires
        0 <= i < s.len(),
    ensures
        s[i] is Ok ==> spec_success_count(s) >= 1,
        s[i] is Err ==> spec_success_count(s) <= s.len() - 1,
    decreases s.len(),
{
    lemma_success_count_le_len(s.drop_last());
    if i < s.len() - 1 {
        lemma_outcome_counted(s.drop_last(), i);
    }
}

/// What the orchestrator reports once every concurrent attempt has finished.
#[derive(Clone, Copy, PartialEq, Eq, Structural, Debug)]
pub struct BroadcastSummary {
    pub attempted: usize,
    pub succeeded: usize,
    pub failed: usize,
}

/// Summarizes the outcomes of a fan-out once all attempts are finished.
/// Every attempt is counted: succeeded plus failed is the total attempted.
pub fn summarize_outcomes(outcomes: &Vec<Result<TxResult, RelayError>>) -> (r: BroadcastSummary)
    ensures
        r.attempted == outcomes@.len(),
        r.succeeded == spec_success_count(outcomes@),
        r.failed == outcomes@.len() - spec_success_count(outcomes@),
{
    let mut succeeded: usize = 0;
    let mut i: usize = 0;
    while i < outcomes.len()
        invariant
            i <= outcomes@.len(),
            succeeded == spec_success_count(outcomes@.take(i as int)),
            succeeded <= i,
        decreases outcomes@.len() - i,
    {
        proof {
            assert(outcomes@.take(i as int + 1).drop_last() =~= outcomes@.take(i as int));
            assert(outcomes@.take(i as int + 1).last() == outcomes@[i as int]);
        }
        let is_ok = match &outcomes[i] {
            Ok(_) => true,
            Err(_) => false,
        };
        if is_ok {
            succeeded = succeeded + 1;
        }
        i = i + 1;
    }
    proof {
        assert(outcomes@.take(outcomes@.len() as int) =~= outcomes@);
        lemma_success_count_le_len(outcomes@);
    }
    BroadcastSummary {
        attempted: outcomes.len(),
        succeeded,
        failed: outcomes.len() - succeeded,
    }
}

/// Law: relay independence.  When one attempt succeeds and another fails,
/// the summary reports both: at least one success and at least one failure,
/// out of exactly the attempts made.  No outcome hides another.
pub proof fn lemma_relay_independence(s: Seq<Result<TxResult, RelayError>>, i: int, j: int)
    requires
        0 <= i < s.len(),
        0 <= j < s.len(),
        s[i] is Ok,
        s[j] is Err,
    ensures
        spec_success_count(s) >= 1,
        s.len() - spec_success_count(s) >= 1,
{
    lemma_outcome_counted(s, i);
    lemma_outcome_counted(s, j);
}

} // verus!
