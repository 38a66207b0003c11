//! The relay dispatcher: resolves the selected bridge pair to its
//! implementation and drives the fixed startup sequence — connect and
//! derive keys on the source side, then on the target side, then hand the
//! assembled parameter bundle to the relay-loop engine exactly once.
//!
//! The network-facing work itself (connecting, key derivation, the loop)
//! belongs to external collaborators; the dispatcher is the decision
//! layer: a state machine that names the next action, consumes the
//! outcome of the previous one, and aborts on the first failure.

use vstd::prelude::*;

use crate::bridge::{spec_dispatch, CliBridgeId, FullBridge, MessagesCliBridge,
    MillauToRialtoCliBridge, MillauToRialtoParachainCliBridge, RialtoParachainToMillauCliBridge,
    RialtoToMillauCliBridge};
use crate::cli::{PrometheusParams, RelayMessages};
use crate::lane::HexLaneId;
use crate::mode::{spec_loop_mode, MixStrategy};

verus! {

/// The metrics configuration handed to the relay-loop engine; built from
/// the metrics options by a pure, non-failing conversion.
#[derive(Debug, Clone, PartialEq, Eq)]
pub struct MetricsParams {
    /// Whether a metrics endpoint is exposed at all.
    pub enabled: bool,
    /// The endpoint host.
    pub host: String,
    /// The endpoint port.
    pub port: u16,
}

/// The metrics configuration the options convert to.
pub open spec fn spec_metrics_of(p: PrometheusParams) -> MetricsParams {
    MetricsParams { enabled: !p.no_prometheus, host: p.prometheus_host, port: p.prometheus_port }
}

impl PrometheusParams {
    /// Convert the metrics options into the engine's metrics
    /// configuration.
    pub fn to_metrics_params(&self) -> (r: MetricsParams)
        ensures
            r == spec_metrics_of(*self),
    {
        MetricsParams {
            enabled: !self.no_prometheus,
            host: self.prometheus_host.clone(),
            port: self.prometheus_port,
        }
    }
}

/// The parameter bundle the relay-loop engine is invoked with.
#[derive(Debug, Clone, PartialEq, Eq)]
pub struct MessagesRelayParams {
    /// The lane served by the relay.
    pub lane_id: HexLaneId,
    /// The mortality period for source-chain transactions.
    pub source_transaction_mortality: Option<u32>,
    /// The mortality period for target-chain transactions.
    pub target_transaction_mortality: Option<u32>,
    /// The delivery strategy, built once from the relayer's posture.
    pub relay_strategy: MixStrategy,
    /// The metrics configuration.
    pub metrics_params: MetricsParams,
    /// Whether an auxiliary source-to-target header relay runs alongside.
    /// This command relays messages only, so it never does.
    pub source_to_target_headers_relay: bool,
    /// Whether an auxiliary target-to-source header relay runs alongside.
    pub target_to_source_headers_relay: bool,
}

/// Which setup step failed.
#[derive(Debug, Clone, Copy, PartialEq, Eq, Structural)]
pub enum RelayErrorKind {
    /// A client connection could not be established.
    Connection,
    /// A signing key pair could not be derived.
    Signing,
    /// A transaction mortality window could not be determined.
    Mortality,
    /// The relay-loop engine itself failed.
    RelayLoop,
}

/// A failed relay run: the step that failed and the collaborator's own
/// message, preserved unchanged.
#[derive(Debug, Clone, PartialEq, Eq)]
pub struct RelayError {
    /// The step that failed.
    pub kind: RelayErrorKind,
    /// The underlying message text.
    pub message: String,
}

/// Where the startup sequence stands.
#[derive(Debug, Clone, Copy, PartialEq, Eq, Structural)]
pub enum SetupStage {
    /// Connecting the source-chain client.
    SourceConnect,
    /// Deriving the source signing key pair.
    SourceKeyPair,
    /// Computing the source transaction mortality window.
    SourceMortality,
    /// Connecting the target-chain client.
    TargetConnect,
    /// Deriving the target signing key pair.
    TargetKeyPair,
    /// Computing the target transaction mortality window.
    TargetMortality,
    /// The relay-loop engine is running.
    RelayLoop,
    /// The run ended, successfully or not.
    Done,
}

/// What a collaborator reports back for the step the dispatcher asked for.
#[derive(Debug, Clone, PartialEq, Eq)]
pub enum RelayEvent {
    /// A connect or key-derivation step finished.
    Completed,
    /// A mortality window was computed.
    MortalityComputed(Option<u32>),
    /// The relay-loop engine returned successfully.
    LoopFinished,
    /// The current step failed with this message.
    StepFailed(String),
}

/// What the dispatcher asks its collaborators to do next.
#[derive(Debug, Clone, PartialEq, Eq)]
pub enum RelayAction {
    /// Connect a client to the source chain.
    ConnectSourceClient,
    /// Derive the source signing key pair.
    DeriveSourceKeyPair,
    /// Compute the source transaction mortality window.
    ComputeSourceMortality,
    /// Connect a client to the target chain.
    ConnectTargetClient,
    /// Derive the target signing key pair.
    DeriveTargetKeyPair,
    /// Compute the target transaction mortality window.
    ComputeTargetMortality,
    /// Invoke the relay-loop engine, exactly once, with this bundle.
    StartRelayLoop(MessagesRelayParams),
    /// The run ended; its outcome stands in the state machine.
    Finish,
}

/// The error kind a failure at a stage surfaces as.
pub open spec fn spec_stage_error_kind(s: SetupStage) -> RelayErrorKind {
    match s {
        SetupStage::SourceConnect => RelayErrorKind::Connection,
        SetupStage::TargetConnect => RelayErrorKind::Connection,
        SetupStage::SourceKeyPair => RelayErrorKind::Signing,
        SetupStage::TargetKeyPair => RelayErrorKind::Signing,
        SetupStage::SourceMortality => RelayErrorKind::Mortality,
        SetupStage::TargetMortality => RelayErrorKind::Mortality,
        SetupStage::RelayLoop => RelayErrorKind::RelayLoop,
        SetupStage::Done => RelayErrorKind::RelayLoop,
    }
}

/// Which events fit which stage.
pub open spec fn spec_accepts(stage: SetupStage, e: RelayEvent) -> bool {
    match e {
        RelayEvent::Completed => stage == SetupStage::SourceConnect || stage
            == SetupStage::SourceKeyPair || stage == SetupStage::TargetConnect || stage
            == SetupStage::TargetKeyPair,
        RelayEvent::MortalityComputed(_) => stage == SetupStage::SourceMortality || stage
            == SetupStage::TargetMortality,
        RelayEvent::LoopFinished => stage == SetupStage::RelayLoop,
        RelayEvent::StepFailed(_) => stage != SetupStage::Done,
    }
}

/// One relay run: a single linear pipeline from validated parameters to a
/// terminal outcome, with no persisted state beyond it.
#[derive(Debug, Clone)]
pub struct RelayRun {
    /// The implementation the selector dispatched to.
    pub bridge_impl: CliBridgeId,
    /// The validated command parameters the run was started from.
    pub params: RelayMessages,
    /// The delivery strategy, built once from the relayer's posture.
    pub strategy: MixStrategy,
    /// Where the startup sequence stands.
    pub stage: SetupStage,
    /// The source mortality window, once computed.
    pub source_mortality: Option<u32>,
    /// The target mortality window, once computed.
    pub target_mortality: Option<u32>,
    /// The terminal outcome, exactly when the run is done.
    pub outcome: Option<Result<(), RelayError>>,
}

impl RelayRun {
    /// A freshly started run for `data`, dispatched to `id`.
    pub open spec fn spec_start(data: RelayMessages, id: CliBridgeId) -> RelayRun {
        RelayRun {
            bridge_impl: id,
            params: data,
            strategy: MixStrategy { relayer_mode: spec_loop_mode(data.relayer_mode) },
            stage: SetupStage::SourceConnect,
            source_mortality: None,
            target_mortality: None,
            outcome: None,
        }
    }

    /// A run is well-formed: it has an outcome exactly when it is done,
    /// and its strategy follows the posture it was configured with.
    pub open spec fn wf(self) -> bool {
        (self.outcome.is_some() <==> self.stage == SetupStage::Done)
            && self.strategy.relayer_mode == spec_loop_mode(self.params.relayer_mode)
    }

    /// The bundle a run hands to the relay-loop engine: its lane, both
    /// mortality windows, its strategy, its metrics configuration, and no
    /// auxiliary header relays.
    pub open spec fn spec_bundle(self) -> MessagesRelayParams {
        MessagesRelayParams {
            lane_id: self.params.lane,
            source_transaction_mortality: self.source_mortality,
            target_transaction_mortality: self.target_mortality,
            relay_strategy: self.strategy,
            metrics_params: spec_metrics_of(self.params.prometheus_params),
            source_to_target_headers_relay: false,
            target_to_source_headers_relay: false,
        }
    }

    /// Begin a run: record the dispatch target and the strategy, and ask
    /// for the first step of the sequence.
    fn begin(data: RelayMessages, id: CliBridgeId, strategy: MixStrategy) -> (r: (
        RelayRun,
        RelayAction,
    ))
        requires
            strategy.relayer_mode == spec_loop_mode(data.relayer_mode),
        ensures
            r.0 == RelayRun::spec_start(data, id),
            r.1 == RelayAction::ConnectSourceClient,
    {
        let run = RelayRun {
            bridge_impl: id,
            params: data,
            strategy,
            stage: SetupStage::SourceConnect,
            source_mortality: None,
            target_mortality: None,
            outcome: None,
        };
        (run, RelayAction::ConnectSourceClient)
    }

    /// Consume the outcome of the step last asked for and name the next
    /// action. The sequence is fixed and linear; the first failure ends
    /// the run with that stage's error kind and the collaborator's
    /// message preserved unchanged; when the whole setup succeeded the
    /// engine is started with the assembled bundle, and its own failure
    /// is surfaced as a relay-loop error.
    pub fn step(&mut self, event: RelayEvent) -> (a: RelayAction)
        requires
            old(self).wf(),
            spec_accepts(old(self).stage, event),
        ensures
            final(self).wf(),
            final(self).bridge_impl == old(self).bridge_impl,
            final(self).params == old(self).params,
            final(self).strategy == old(self).strategy,
            match event {
                RelayEvent::StepFailed(m) => final(self).stage == SetupStage::Done && final(self).outcome == Some(
                    Err::<(), RelayError>(
                        RelayError {
                            kind: spec_stage_error_kind(old(self).stage),
                            message: m,
                        },
                    ),
                ) && final(self).source_mortality == old(self).source_mortality && final(self).target_mortality == old(self).target_mortality && a == RelayAction::Finish,
                RelayEvent::Completed => final(self).outcome == None::<Result<(), RelayError>>
                    && final(self).source_mortality == old(self).source_mortality && final(self).target_mortality == old(self).target_mortality && (match old(self).stage {
                    SetupStage::SourceConnect => final(self).stage == SetupStage::SourceKeyPair
                        && a == RelayAction::DeriveSourceKeyPair,
                    SetupStage::SourceKeyPair => final(self).stage == SetupStage::SourceMortality
                        && a == RelayAction::ComputeSourceMortality,
                    SetupStage::TargetConnect => final(self).stage == SetupStage::TargetKeyPair
                        && a == RelayAction::DeriveTargetKeyPair,
                    _ => final(self).stage == SetupStage::TargetMortality && a
                        == RelayAction::ComputeTargetMortality,
                }),
                RelayEvent::MortalityComputed(m) => final(self).outcome == None::<
                    Result<(), RelayError>,
                > && (match old(self).stage {
                    SetupStage::SourceMortality => final(self).stage == SetupStage::TargetConnect
                        && final(self).source_mortality == m && final(self).target_mortality
                        == old(self).target_mortality && a == RelayAction::ConnectTargetClient,
                    _ => final(self).stage == SetupStage::RelayLoop && final(self).source_mortality == old(self).source_mortality && final(self).target_mortality == m && a == RelayAction::StartRelayLoop(
                        final(self).spec_bundle(),
                    ),
                }),
                RelayEvent::LoopFinished => final(self).stage == SetupStage::Done && final(self).outcome == Some(Ok::<(), RelayError>(())) && final(self).source_mortality == old(
                    self,
                ).source_mortality && final(self).target_mortality == old(self).target_mortality
                    && a == RelayAction::Finish,
            },
    {
        match event {
            RelayEvent::StepFailed(m) => {
                let kind = match self.stage {
                    SetupStage::SourceConnect => RelayErrorKind::Connection,
                    SetupStage::TargetConnect => RelayErrorKind::Connection,
                    SetupStage::SourceKeyPair => RelayErrorKind::Signing,
                    SetupStage::TargetKeyPair => RelayErrorKind::Signing,
                    SetupStage::SourceMortality => RelayErrorKind::Mortality,
                    SetupStage::TargetMortality => RelayErrorKind::Mortality,
                    SetupStage::RelayLoop => RelayErrorKind::RelayLoop,
                    SetupStage::Done => RelayErrorKind::RelayLoop,
                };
                self.stage = SetupStage::Done;
                self.outcome = Some(Err(RelayError { kind, message: m }));
                RelayAction::Finish
            },
            RelayEvent::Completed => {
                match self.stage {
                    SetupStage::SourceConnect => {
                        self.stage = SetupStage::SourceKeyPair;
                        RelayAction::DeriveSourceKeyPair
                    },
                    SetupStage::SourceKeyPair => {
                        self.stage = SetupStage::SourceMortality;
                        RelayAction::ComputeSourceMortality
                    },
                    SetupStage::TargetConnect => {
                        self.stage = SetupStage::TargetKeyPair;
                        RelayAction::DeriveTargetKeyPair
                    },
                    _ => {
                        self.stage = SetupStage::TargetMortality;
                        RelayAction::ComputeTargetMortality
                    },
                }
            },
            RelayEvent::MortalityComputed(m) => {
                match self.stage {
                    SetupStage::SourceMortality => {
                        self.source_mortality = m;
                        self.stage = SetupStage::TargetConnect;
                        RelayAction::ConnectTargetClient
                    },
                    _ => {
                        self.target_mortality = m;
                        self.stage = SetupStage::RelayLoop;
                        let bundle = MessagesRelayParams {
                            lane_id: self.params.lane,
                            source_transaction_mortality: self.source_mortality,
                            target_transaction_mortality: self.target_mortality,
                            relay_strategy: self.strategy,
                            metrics_params: self.params.prometheus_params.to_metrics_params(),
                            source_to_target_headers_relay: false,
                            target_to_source_headers_relay: false,
                        };
                        RelayAction::StartRelayLoop(bundle)
                    },
                }
            },
            RelayEvent::LoopFinished => {
                self.stage = SetupStage::Done;
                self.outcome = Some(Ok(()));
                RelayAction::Finish
            },
        }
    }
}

/// A bridge-pair implementation that can relay messages: it satisfies the
/// capability contract and starts the standard startup sequence.
pub trait MessagesRelayer: MessagesCliBridge {
    /// Begin the messages-relay startup sequence for this bridge pair.
    fn relay_messages(data: RelayMessages) -> (r: (RelayRun, RelayAction))
        ensures
            r.0 == RelayRun::spec_start(data, Self::spec_id()),
            r.1 == RelayAction::ConnectSourceClient,
    {
        let strategy = Self::mix_strategy(data.relayer_mode.to_loop_mode());
        RelayRun::begin(data, Self::id(), strategy)
    }
}

impl MessagesRelayer for MillauToRialtoCliBridge {}

impl MessagesRelayer for RialtoToMillauCliBridge {}

impl MessagesRelayer for MillauToRialtoParachainCliBridge {}

impl MessagesRelayer for RialtoParachainToMillauCliBridge {}

impl RelayMessages {
    /// Run the command: resolve the selected bridge pair — an exhaustive
    /// match, every selector to exactly one implementation — and begin
    /// the relay startup sequence against it.
    pub fn run(self) -> (r: (RelayRun, RelayAction))
        ensures
            r.0 == RelayRun::spec_start(self, spec_dispatch(self.bridge)),
            r.0.bridge_impl == spec_dispatch(self.bridge),
            r.1 == RelayAction::ConnectSourceClient,
    {
        match self.bridge {
            FullBridge::MillauToRialto => MillauToRialtoCliBridge::relay_messages(self),
            FullBridge::RialtoToMillau => RialtoToMillauCliBridge::relay_messages(self),
            FullBridge::MillauToRialtoParachain => MillauToRialtoParachainCliBridge::relay_messages(
                self,
            ),
            FullBridge::RialtoParachainToMillau => RialtoParachainToMillauCliBridge::relay_messages(
                self,
            ),
        }
    }
}

} // verus!
