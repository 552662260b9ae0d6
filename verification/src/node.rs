//! The decisions of the node services: how the executor's heap is set up,
//! whether telemetry runs, what a dev block's inherent data holds, and which
//! service tasks each kind of node starts, in order.
use vstd::prelude::*;

verus! {

/// Size of the telemetry worker's buffer.
pub const TELEMETRY_BUFFER_SIZE: usize = 16;

/// Slot duration of the relay chain, in seconds.
pub const RELAY_CHAIN_SLOT_DURATION_SECS: u64 = 6;

/// Time given to Aura to author a block, in milliseconds.
pub const AURA_AUTHORING_DURATION_MS: u64 = 2000;

/// Relay blocks per parachain block in the mocked relay data of dev mode.
pub const DEV_RELAY_BLOCKS_PER_PARA_BLOCK: u32 = 1;

/// Parachain blocks per relay epoch in the mocked relay data of dev mode.
pub const DEV_PARA_BLOCKS_PER_RELAY_EPOCH: u32 = 10;

/// How the executor allocates heap pages.
#[derive(Clone, Copy, Debug, PartialEq, Eq, Structural)]
pub enum HeapAllocStrategy {
    /// A fixed number of pages on top of the initial ones.
    Static { extra_pages: u32 },
    /// Pages allocated on demand, up to an optional maximum.
    Dynamic { maximum_pages: Option<u32> },
}

/// The executor's heap strategy: the default one unless the configuration
/// names a number of heap pages, which then become static extra pages
/// (converted to `u32` by truncation).
pub fn heap_alloc_strategy(default_heap_pages: Option<u64>, default: HeapAllocStrategy) -> (res:
    HeapAllocStrategy)
    ensures
        res == (match default_heap_pages {
            None => default,
            Some(h) => HeapAllocStrategy::Static { extra_pages: h as u32 },
        }),
{
    match default_heap_pages {
        None => default,
        Some(h) => HeapAllocStrategy::Static { extra_pages: h as u32 },
    }
}

/// Telemetry runs when the configuration lists telemetry endpoints and the
/// list is not empty; `endpoints` is the number listed, if any.
pub fn telemetry_requested(endpoints: Option<usize>) -> (res: bool)
    ensures
        res == (endpoints matches Some(n) && n != 0),
{
    match endpoints {
        Some(n) => n != 0,
        None => false,
    }
}

/// The peer slots of the node's default peer set.
#[derive(Clone, Copy, Debug, PartialEq, Eq, Structural)]
pub struct PeerSlots {
    pub in_peers: u32,
    pub out_peers: u32,
}

/// A dev node connects to no peers: both peer slots become 0.
pub fn isolate_dev_node(peers: &mut PeerSlots)
    ensures
        final(peers).in_peers == 0,
        final(peers).out_peers == 0,
{
    peers.in_peers = 0;
    peers.out_peers = 0;
}

/// Whether a collator reports the hardware check: only a validator whose
/// hardware fails the reference requirements gets the warning.
pub fn hardware_warning(meets_requirements: bool, validator: bool) -> (res: bool)
    ensures
        res == (!meets_requirements && validator),
{
    !meets_requirements && validator
}

/// How a parachain node recovers available data.
#[derive(Clone, Copy, Debug, PartialEq, Eq, Structural)]
pub enum DARecoveryProfile {
    Collator,
    FullNode,
}

/// A validator recovers data as a collator, any other node as a full node.
pub fn da_recovery_profile(validator: bool) -> (res: DARecoveryProfile)
    ensures
        res == (if validator {
            DARecoveryProfile::Collator
        } else {
            DARecoveryProfile::FullNode
        }),
{
    if validator {
        DARecoveryProfile::Collator
    } else {
        DARecoveryProfile::FullNode
    }
}

/// The inherent data of a dev block: mocked relay-chain validation data and
/// a timestamp aligned to the Aura slots.
#[derive(Clone, Debug, PartialEq, Eq)]
pub struct DevInherentData {
    /// Number of the block being built.
    pub current_para_block: u32,
    pub para_id: u32,
    /// The head data of the parachain: the encoded parent header.
    pub current_para_block_head: Option<Vec<u8>>,
    pub relay_blocks_per_para_block: u32,
    pub para_blocks_per_relay_epoch: u32,
    /// Whether the relay chain signals that a pending code upgrade may go
    /// ahead.
    pub upgrade_go_ahead: bool,
    /// The block's timestamp, in milliseconds.
    pub timestamp_ms: u64,
}

/// The inherent data for the block on top of the parent with number
/// `parent_number`. `collation_info` is what the runtime answered when asked
/// for the parent's collation info: `None` when the call failed, otherwise
/// whether new validation code is pending; `parent_header` is the encoded
/// parent header. The block number is one more than the parent's, and the
/// timestamp is that number of slots.
pub fn dev_inherent_data(
    parent_number: u32,
    parent_header: Vec<u8>,
    para_id: u32,
    slot_duration_ms: u64,
    collation_info: Option<bool>,
) -> (res: DevInherentData)
    requires
        parent_number < u32::MAX,
        slot_duration_ms * (parent_number + 1) <= u64::MAX,
    ensures
        res.current_para_block == parent_number + 1,
        res.para_id == para_id,
        res.current_para_block_head == Some(parent_header),
        res.relay_blocks_per_para_block == DEV_RELAY_BLOCKS_PER_PARA_BLOCK,
        res.para_blocks_per_relay_epoch == DEV_PARA_BLOCKS_PER_RELAY_EPOCH,
        res.upgrade_go_ahead == (collation_info == Some(true)),
        res.timestamp_ms == slot_duration_ms * (parent_number + 1),
{
    let should_send_go_ahead = match collation_info {
        Some(pending) => pending,
        None => false,
    };
    let current_block_number: u32 = parent_number + 1;
    let timestamp_ms: u64 = slot_duration_ms * (current_block_number as u64);
    DevInherentData {
        current_para_block: current_block_number,
        para_id,
        current_para_block_head: Some(parent_header),
        relay_blocks_per_para_block: DEV_RELAY_BLOCKS_PER_PARA_BLOCK,
        para_blocks_per_relay_epoch: DEV_PARA_BLOCKS_PER_RELAY_EPOCH,
        upgrade_go_ahead: should_send_go_ahead,
        timestamp_ms,
    }
}

/// The message of the error when the chain spec names no parachain id.
pub open spec fn spec_missing_para_id_message() -> Seq<char> {
    "Could not find parachain ID in chain-spec."@
}

/// The parachain id of a dev parachain node, read from the chain spec's
/// extensions: `extension_para_id` is the id they hold, if the chain spec
/// has them. Without it the node does not start.
pub fn para_id_of(extension_para_id: Option<u32>) -> (res: Result<u32, String>)
    ensures
        res is Ok <==> extension_para_id is Some,
        res matches Ok(id) ==> extension_para_id == Some(id),
        res matches Err(msg) ==> msg@ == spec_missing_para_id_message(),
{
    match extension_para_id {
        Some(id) => Ok(id),
        None => Err("Could not find parachain ID in chain-spec.".to_owned()),
    }
}

/// The kinds of node the service starts.
#[derive(Clone, Copy, Debug, PartialEq, Eq, Structural)]
pub enum NodeKind {
    /// A collator or full node of the parachain, following the relay chain.
    Parachain,
    /// A standalone parachain node with instant seal and mocked relay data.
    DevParachain,
    /// A standalone dev chain with instant seal.
    Dev,
}

/// What the configuration says about the services to start.
#[derive(Clone, Copy, Debug, PartialEq, Eq, Structural)]
pub struct NodeSettings {
    /// Telemetry endpoints are listed and the list is not empty.
    pub telemetry: bool,
    /// Offchain workers are enabled.
    pub offchain_worker: bool,
    /// The node is an authority.
    pub validator: bool,
    /// A hardware benchmark was taken.
    pub hwbench: bool,
    /// Delay before blocks are finalized, in seconds.
    pub finalize_delay_sec: u64,
}

/// A step of starting a node's services.
#[derive(Clone, Copy, Debug, PartialEq, Eq, Structural)]
pub enum ServiceStep {
    /// Run the telemetry worker, with a buffer of `buffer_size` messages.
    Telemetry { buffer_size: usize },
    /// Run the offchain workers, with or without HTTP requests.
    OffchainWorkers { http_requests: bool },
    /// Start the RPC server and the node's standard tasks.
    SpawnTasks,
    /// Report the hardware benchmark to telemetry.
    TelemetryHwbench,
    /// Start following the relay chain, whose slots last
    /// `relay_chain_slot_duration_secs`, recovering data with this profile.
    RelayChainTasks { profile: DARecoveryProfile, relay_chain_slot_duration_secs: u64 },
    /// Run Aura block authoring, giving each block `authoring_duration_ms`,
    /// on a relay chain whose slots last `relay_chain_slot_duration_secs`.
    Aura { authoring_duration_ms: u64, relay_chain_slot_duration_secs: u64 },
    /// Seal a first block before anything else is authored, even when it is
    /// empty (`create_empty`), and finalize it (`finalize`).
    SealFirstBlock { create_empty: bool, finalize: bool },
    /// Seal a block for every transaction.
    InstantSeal,
    /// Finalize blocks after a delay.
    DelayedFinalize { delay_sec: u64 },
}

/// `step` when `cond` holds, nothing otherwise.
pub open spec fn step_if(cond: bool, step: ServiceStep) -> Seq<ServiceStep> {
    if cond {
        seq![step]
    } else {
        seq![]
    }
}

/// The telemetry step, with the worker's buffer size.
pub open spec fn telemetry_step() -> ServiceStep {
    ServiceStep::Telemetry { buffer_size: TELEMETRY_BUFFER_SIZE }
}

/// The relay-chain step with the given data-recovery profile.
pub open spec fn relay_chain_step(profile: DARecoveryProfile) -> ServiceStep {
    ServiceStep::RelayChainTasks {
        profile,
        relay_chain_slot_duration_secs: RELAY_CHAIN_SLOT_DURATION_SECS,
    }
}

/// The Aura step, with its authoring time and the relay chain's slots.
pub open spec fn aura_step() -> ServiceStep {
    ServiceStep::Aura {
        authoring_duration_ms: AURA_AUTHORING_DURATION_MS,
        relay_chain_slot_duration_secs: RELAY_CHAIN_SLOT_DURATION_SECS,
    }
}

/// The dev node's first block: sealed even when empty, and finalized.
pub open spec fn seal_first_block_step() -> ServiceStep {
    ServiceStep::SealFirstBlock { create_empty: true, finalize: true }
}

/// The service steps of a node of kind `kind`, in order.
pub open spec fn spec_service_steps(kind: NodeKind, s: NodeSettings) -> Seq<ServiceStep> {
    match kind {
        NodeKind::Parachain => step_if(s.telemetry, telemetry_step()) + step_if(
            s.offchain_worker,
            ServiceStep::OffchainWorkers { http_requests: false },
        ) + seq![ServiceStep::SpawnTasks] + step_if(
            s.hwbench && s.telemetry,
            ServiceStep::TelemetryHwbench,
        ) + seq![
            relay_chain_step(
                if s.validator {
                    DARecoveryProfile::Collator
                } else {
                    DARecoveryProfile::FullNode
                },
            ),
        ] + step_if(s.validator, aura_step()),
        NodeKind::DevParachain => step_if(s.telemetry, telemetry_step()) + step_if(
            s.offchain_worker,
            ServiceStep::OffchainWorkers { http_requests: true },
        ) + seq![ServiceStep::InstantSeal] + step_if(
            s.finalize_delay_sec > 0,
            ServiceStep::DelayedFinalize { delay_sec: s.finalize_delay_sec },
        ) + seq![ServiceStep::SpawnTasks],
        NodeKind::Dev => step_if(s.telemetry, telemetry_step()) + step_if(
            s.offchain_worker,
            ServiceStep::OffchainWorkers { http_requests: true },
        ) + seq![
            ServiceStep::SpawnTasks,
            seal_first_block_step(),
            ServiceStep::InstantSeal,
            ServiceStep::DelayedFinalize { delay_sec: s.finalize_delay_sec },
        ],
    }
}

/// The service steps of a node of kind `kind`, in the order the node takes
/// them.
pub fn service_steps(kind: NodeKind, s: NodeSettings) -> (res: Vec<ServiceStep>)
    ensures
        res@ == spec_service_steps(kind, s),
{
    let mut steps: Vec<ServiceStep> = Vec::new();
    if s.telemetry {
        steps.push(ServiceStep::Telemetry { buffer_size: TELEMETRY_BUFFER_SIZE });
    }
    match kind {
        NodeKind::Parachain => {
            if s.offchain_worker {
                steps.push(ServiceStep::OffchainWorkers { http_requests: false });
            }
            steps.push(ServiceStep::SpawnTasks);
            if s.hwbench && s.telemetry {
                steps.push(ServiceStep::TelemetryHwbench);
            }
            steps.push(
                ServiceStep::RelayChainTasks {
                    profile: da_recovery_profile(s.validator),
                    relay_chain_slot_duration_secs: RELAY_CHAIN_SLOT_DURATION_SECS,
                },
            );
            if s.validator {
                steps.push(
                    ServiceStep::Aura {
                        authoring_duration_ms: AURA_AUTHORING_DURATION_MS,
                        relay_chain_slot_duration_secs: RELAY_CHAIN_SLOT_DURATION_SECS,
                    },
                );
            }
        },
        NodeKind::DevParachain => {
            if s.offchain_worker {
                steps.push(ServiceStep::OffchainWorkers { http_requests: true });
            }
            steps.push(ServiceStep::InstantSeal);
            if s.finalize_delay_sec > 0 {
                steps.push(ServiceStep::DelayedFinalize { delay_sec: s.finalize_delay_sec });
            }
            steps.push(ServiceStep::SpawnTasks);
        },
        NodeKind::Dev => {
            if s.offchain_worker {
                steps.push(ServiceStep::OffchainWorkers { http_requests: true });
            }
            steps.push(ServiceStep::SpawnTasks);
            steps.push(ServiceStep::SealFirstBlock { create_empty: true, finalize: true });
            steps.push(ServiceStep::InstantSeal);
            steps.push(ServiceStep::DelayedFinalize { delay_sec: s.finalize_delay_sec });
        },
    }
    assert(steps@ =~= spec_service_steps(kind, s));
    steps
}

/// A parachain node authors blocks with Aura exactly when it is a validator,
/// and it always follows the relay chain, as a collator exactly when it is a
/// validator.
pub proof fn law_parachain_authors_iff_validator(s: NodeSettings)
    ensures
        spec_service_steps(NodeKind::Parachain, s).contains(aura_step()) <==> s.validator,
        spec_service_steps(NodeKind::Parachain, s).contains(
            relay_chain_step(DARecoveryProfile::Collator),
        ) <==> s.validator,
        !spec_service_steps(NodeKind::Parachain, s).contains(ServiceStep::InstantSeal),
{
    let steps = spec_service_steps(NodeKind::Parachain, s);
    let col = relay_chain_step(DARecoveryProfile::Collator);
    if s.validator {
        assert(steps[steps.len() - 1] == aura_step());
        assert(steps[steps.len() - 2] == col);
    } else {
        assert(steps[steps.len() - 1] != col);
        assert(!steps.contains(aura_step()));
        assert(!steps.contains(col));
    }
    assert(!steps.contains(ServiceStep::InstantSeal));
}

/// A dev parachain node finalizes blocks after a delay exactly when the
/// delay is not zero; a dev node always does, and first seals a block, even
/// an empty one, and finalizes it. Both seal blocks instantly and never run
/// Aura.
pub proof fn law_dev_nodes_seal_instantly(s: NodeSettings)
    ensures
        spec_service_steps(NodeKind::DevParachain, s).contains(
            ServiceStep::DelayedFinalize { delay_sec: s.finalize_delay_sec },
        ) <==> s.finalize_delay_sec > 0,
        spec_service_steps(NodeKind::Dev, s).contains(
            ServiceStep::DelayedFinalize { delay_sec: s.finalize_delay_sec },
        ),
        spec_service_steps(NodeKind::Dev, s).contains(seal_first_block_step()),
        spec_service_steps(NodeKind::DevParachain, s).contains(ServiceStep::InstantSeal),
        spec_service_steps(NodeKind::Dev, s).contains(ServiceStep::InstantSeal),
        !spec_service_steps(NodeKind::DevParachain, s).contains(aura_step()),
        !spec_service_steps(NodeKind::Dev, s).contains(aura_step()),
{
    let dp = spec_service_steps(NodeKind::DevParachain, s);
    let d = spec_service_steps(NodeKind::Dev, s);
    let fin = ServiceStep::DelayedFinalize { delay_sec: s.finalize_delay_sec };
    if s.finalize_delay_sec > 0 {
        assert(dp[dp.len() - 2] == fin);
        assert(dp[dp.len() - 3] == ServiceStep::InstantSeal);
    } else {
        assert(dp[dp.len() - 2] == ServiceStep::InstantSeal);
        assert(!dp.contains(fin));
    }
    assert(d[d.len() - 1] == fin);
    assert(d[d.len() - 2] == ServiceStep::InstantSeal);
    assert(d[d.len() - 3] == seal_first_block_step());
    assert(!dp.contains(aura_step()));
    assert(!d.contains(aura_step()));
}

/// Every kind of node runs the telemetry worker, with a buffer of 16
/// messages, exactly when telemetry is requested, and never with another
/// buffer size; when it runs, it is the first step.
pub proof fn law_telemetry_iff_requested(kind: NodeKind, s: NodeSettings)
    ensures
        spec_service_steps(kind, s).contains((ServiceStep::Telemetry { buffer_size: 16 }))
            <==> s.telemetry,
        forall|b: usize|
            #[trigger] spec_service_steps(kind, s).contains((ServiceStep::Telemetry { buffer_size: b }))
                ==> b == 16,
        s.telemetry ==> spec_service_steps(kind, s)[0] == (ServiceStep::Telemetry { buffer_size: 16 }),
{
    let steps = spec_service_steps(kind, s);
    if s.telemetry {
        assert(steps[0] == ServiceStep::Telemetry { buffer_size: 16 });
    }
    assert forall|b: usize|
        #[trigger] steps.contains((ServiceStep::Telemetry { buffer_size: b })) implies b == 16 by {
        let i = choose|i: int| 0 <= i < steps.len() && steps[i] == ServiceStep::Telemetry { buffer_size: b };
        if !s.telemetry || i > 0 {
            assert(steps[i] != ServiceStep::Telemetry { buffer_size: b });
        }
    }
    if !s.telemetry {
        assert(!steps.contains(ServiceStep::Telemetry { buffer_size: 16 }));
    }
}

/// Every kind of node runs the offchain workers exactly when they are
/// enabled, whatever its other settings: a parachain node without HTTP
/// requests, a dev or dev parachain node with them. The other form of the
/// step never occurs.
pub proof fn law_offchain_iff_enabled(kind: NodeKind, s: NodeSettings)
    ensures
        spec_service_steps(kind, s).contains(
            (ServiceStep::OffchainWorkers { http_requests: kind != NodeKind::Parachain }),
        ) <==> s.offchain_worker,
        !spec_service_steps(kind, s).contains(
            (ServiceStep::OffchainWorkers { http_requests: kind == NodeKind::Parachain }),
        ),
{
    let steps = spec_service_steps(kind, s);
    let on = ServiceStep::OffchainWorkers { http_requests: kind != NodeKind::Parachain };
    let off = ServiceStep::OffchainWorkers { http_requests: kind == NodeKind::Parachain };
    let t: int = if s.telemetry { 1 } else { 0 };
    if s.offchain_worker {
        assert(steps[t] == on);
    } else {
        assert forall|i: int| 0 <= i < steps.len() implies steps[i] != on by {}
    }
    assert forall|i: int| 0 <= i < steps.len() implies steps[i] != off by {}
}

/// A parachain node reports a hardware benchmark to telemetry exactly when a
/// benchmark was taken and telemetry runs; dev nodes never do.
pub proof fn law_hwbench_iff_taken_with_telemetry(kind: NodeKind, s: NodeSettings)
    ensures
        spec_service_steps(kind, s).contains(ServiceStep::TelemetryHwbench) <==> (kind
            == NodeKind::Parachain && s.hwbench && s.telemetry),
{
    let steps = spec_service_steps(kind, s);
    if kind == NodeKind::Parachain && s.hwbench && s.telemetry {
        let o: int = if s.offchain_worker { 1 } else { 0 };
        assert(steps[2 + o] == ServiceStep::TelemetryHwbench);
    } else {
        assert forall|i: int| 0 <= i < steps.len() implies steps[i] != ServiceStep::TelemetryHwbench by {}
    }
}

/// `1` when `b` holds, `0` otherwise.
pub open spec fn count_if(b: bool) -> nat {
    if b {
        1
    } else {
        0
    }
}

/// How many steps each kind of node takes: telemetry and offchain workers
/// when requested; for a parachain node the standard tasks and the relay
/// chain, plus the benchmark report and Aura when they apply; for a dev
/// parachain node instant seal and the standard tasks, plus delayed
/// finalization when there is a delay; for a dev node the standard tasks,
/// the first block, instant seal and delayed finalization.
pub proof fn law_step_count(kind: NodeKind, s: NodeSettings)
    ensures
        spec_service_steps(kind, s).len() == count_if(s.telemetry) + count_if(s.offchain_worker)
            + match kind {
            NodeKind::Parachain => 2 + count_if(s.hwbench && s.telemetry) + count_if(s.validator),
            NodeKind::DevParachain => 2 + count_if(s.finalize_delay_sec > 0),
            NodeKind::Dev => 4nat,
        },
{
}

/// The parameters the steps carry: the relay chain's slots last 6 seconds,
/// Aura gets 2000 ms per block, the dev node's first block is sealed even
/// when empty and finalized, and blocks are finalized after the configured
/// delay; the standard tasks are started exactly once.
pub proof fn law_step_parameters(kind: NodeKind, s: NodeSettings)
    ensures
        forall|i: int|
            0 <= i < spec_service_steps(kind, s).len() ==> {
                let step = #[trigger] spec_service_steps(kind, s)[i];
                &&& (step matches ServiceStep::RelayChainTasks {
                    profile,
                    relay_chain_slot_duration_secs: d,
                } ==> d == 6 && (profile == DARecoveryProfile::Collator <==> s.validator))
                &&& (step matches ServiceStep::Aura {
                    authoring_duration_ms: a,
                    relay_chain_slot_duration_secs: d,
                } ==> a == 2000 && d == 6)
                &&& (step matches ServiceStep::SealFirstBlock { create_empty: c, finalize: f }
                    ==> c && f)
                &&& (step matches ServiceStep::DelayedFinalize { delay_sec: d } ==> d
                    == s.finalize_delay_sec)
                &&& (step == ServiceStep::SpawnTasks ==> forall|j: int|
                    0 <= j < spec_service_steps(kind, s).len() && j != i ==> spec_service_steps(
                        kind,
                        s,
                    )[j] != ServiceStep::SpawnTasks)
            },
        spec_service_steps(kind, s).contains(ServiceStep::SpawnTasks),
        kind == NodeKind::Dev ==> spec_service_steps(kind, s).contains(seal_first_block_step()),
        kind != NodeKind::Dev ==> !spec_service_steps(kind, s).contains(
            (ServiceStep::SealFirstBlock { create_empty: true, finalize: true }),
        ),
{
    let steps = spec_service_steps(kind, s);
    let n: int = (count_if(s.telemetry) + count_if(s.offchain_worker)) as int;
    match kind {
        NodeKind::Parachain => {
            assert(steps[n] == ServiceStep::SpawnTasks);
        },
        NodeKind::DevParachain => {
            assert(steps[steps.len() - 1] == ServiceStep::SpawnTasks);
        },
        NodeKind::Dev => {
            assert(steps[n] == ServiceStep::SpawnTasks);
            assert(steps[n + 1] == seal_first_block_step());
        },
    }
    if kind != NodeKind::Dev {
        assert forall|i: int| 0 <= i < steps.len() implies steps[i] != seal_first_block_step() by {}
    }
}

} // verus!
