//! Bridge-pair selection: the closed set of bridge names accepted on the
//! command line, the capability contract every relayable bridge-pair
//! implementation satisfies, and the total mapping from selector to
//! implementation.

use vstd::prelude::*;

use crate::chain::{account_of_public, convert_balance, spec_balance_limit, AccountId, ChainId,
    PublicKey};
use crate::mode::{LoopRelayerMode, MixStrategy};
use crate::text::{eq_lower, lower, lemma_lower_idempotent};

verus! {

/// A bridge instance to relay messages for: one fixed source-to-target
/// direction of the deployment.
#[derive(Debug, Clone, Copy, PartialEq, Eq, Structural)]
pub enum FullBridge {
    MillauToRialto,
    RialtoToMillau,
    MillauToRialtoParachain,
    RialtoParachainToMillau,
}

/// The four compiled-in bridge-pair implementations, named for spec-level
/// statements about dispatch.
#[derive(Debug, Clone, Copy, PartialEq, Eq, Structural)]
pub enum CliBridgeId {
    MillauToRialtoCliBridge,
    RialtoToMillauCliBridge,
    MillauToRialtoParachainCliBridge,
    RialtoParachainToMillauCliBridge,
}

/// The kebab-case name of a bridge.
pub open spec fn spec_bridge_token(b: FullBridge) -> Seq<char> {
    match b {
        FullBridge::MillauToRialto => "millau-to-rialto"@,
        FullBridge::RialtoToMillau => "rialto-to-millau"@,
        FullBridge::MillauToRialtoParachain => "millau-to-rialto-parachain"@,
        FullBridge::RialtoParachainToMillau => "rialto-parachain-to-millau"@,
    }
}

/// The bridge a name denotes: compared lowercased, so parsing is
/// case-insensitive; unknown names denote no bridge.
pub open spec fn spec_parse_bridge(s: Seq<char>) -> Option<FullBridge> {
    if lower(s) == spec_bridge_token(FullBridge::MillauToRialto) {
        Some(FullBridge::MillauToRialto)
    } else if lower(s) == spec_bridge_token(FullBridge::RialtoToMillau) {
        Some(FullBridge::RialtoToMillau)
    } else if lower(s) == spec_bridge_token(FullBridge::MillauToRialtoParachain) {
        Some(FullBridge::MillauToRialtoParachain)
    } else if lower(s) == spec_bridge_token(FullBridge::RialtoParachainToMillau) {
        Some(FullBridge::RialtoParachainToMillau)
    } else {
        None
    }
}

/// Parse a bridge name, case-insensitively.
pub fn parse_full_bridge(s: &str) -> (r: Option<FullBridge>)
    ensures
        r == spec_parse_bridge(s@),
{
    if eq_lower(s, "millau-to-rialto") {
        Some(FullBridge::MillauToRialto)
    } else if eq_lower(s, "rialto-to-millau") {
        Some(FullBridge::RialtoToMillau)
    } else if eq_lower(s, "millau-to-rialto-parachain") {
        Some(FullBridge::MillauToRialtoParachain)
    } else if eq_lower(s, "rialto-parachain-to-millau") {
        Some(FullBridge::RialtoParachainToMillau)
    } else {
        None
    }
}

/// The canonical name of a bridge.
pub fn bridge_token(b: FullBridge) -> (r: &'static str)
    ensures
        r@ == spec_bridge_token(b),
{
    match b {
        FullBridge::MillauToRialto => "millau-to-rialto",
        FullBridge::RialtoToMillau => "rialto-to-millau",
        FullBridge::MillauToRialtoParachain => "millau-to-rialto-parachain",
        FullBridge::RialtoParachainToMillau => "rialto-parachain-to-millau",
    }
}

/// All four bridge names are already lowercase, and pairwise distinct.
proof fn lemma_bridge_tokens_lowercase()
    ensures
        forall|b: FullBridge| #[trigger] lower(spec_bridge_token(b)) == spec_bridge_token(b),
        "millau-to-rialto"@ != "rialto-to-millau"@,
        "millau-to-rialto-parachain"@ != "rialto-parachain-to-millau"@,
{
    reveal_strlit("millau-to-rialto");
    reveal_strlit("rialto-to-millau");
    reveal_strlit("millau-to-rialto-parachain");
    reveal_strlit("rialto-parachain-to-millau");
    assert(lower("millau-to-rialto"@) =~= "millau-to-rialto"@);
    assert(lower("rialto-to-millau"@) =~= "rialto-to-millau"@);
    assert(lower("millau-to-rialto-parachain"@) =~= "millau-to-rialto-parachain"@);
    assert(lower("rialto-parachain-to-millau"@) =~= "rialto-parachain-to-millau"@);
    assert("millau-to-rialto"@[0] != "rialto-to-millau"@[0]);
    assert("millau-to-rialto-parachain"@[0] != "rialto-parachain-to-millau"@[0]);
    assert forall|b: FullBridge| #[trigger] lower(spec_bridge_token(b)) == spec_bridge_token(b) by {
        match b {
            FullBridge::MillauToRialto => {},
            FullBridge::RialtoToMillau => {},
            FullBridge::MillauToRialtoParachain => {},
            FullBridge::RialtoParachainToMillau => {},
        }
    }
}

/// Law: parsing a bridge name ignores ASCII case.
pub proof fn lemma_bridge_parse_case_insensitive(s: Seq<char>)
    ensures
        spec_parse_bridge(s) == spec_parse_bridge(lower(s)),
{
    lemma_lower_idempotent(s);
}

/// Law: every bridge's canonical name parses back to that bridge.
pub proof fn lemma_bridge_token_round_trip(b: FullBridge)
    ensures
        spec_parse_bridge(spec_bridge_token(b)) == Some(b),
{
    reveal_strlit("millau-to-rialto");
    reveal_strlit("rialto-to-millau");
    reveal_strlit("millau-to-rialto-parachain");
    reveal_strlit("rialto-parachain-to-millau");
    lemma_bridge_tokens_lowercase();
    assert("millau-to-rialto"@.len() == 16);
    assert("rialto-to-millau"@.len() == 16);
    assert("millau-to-rialto-parachain"@.len() == 26);
    assert("rialto-parachain-to-millau"@.len() == 26);
}

/// The implementation a selector dispatches to.
pub open spec fn spec_dispatch(b: FullBridge) -> CliBridgeId {
    match b {
        FullBridge::MillauToRialto => CliBridgeId::MillauToRialtoCliBridge,
        FullBridge::RialtoToMillau => CliBridgeId::RialtoToMillauCliBridge,
        FullBridge::MillauToRialtoParachain => CliBridgeId::MillauToRialtoParachainCliBridge,
        FullBridge::RialtoParachainToMillau => CliBridgeId::RialtoParachainToMillauCliBridge,
    }
}

/// The selector an implementation serves.
pub open spec fn spec_selector_of(i: CliBridgeId) -> FullBridge {
    match i {
        CliBridgeId::MillauToRialtoCliBridge => FullBridge::MillauToRialto,
        CliBridgeId::RialtoToMillauCliBridge => FullBridge::RialtoToMillau,
        CliBridgeId::MillauToRialtoParachainCliBridge => FullBridge::MillauToRialtoParachain,
        CliBridgeId::RialtoParachainToMillauCliBridge => FullBridge::RialtoParachainToMillau,
    }
}

/// Law: dispatch is a total one-to-one correspondence — every selector
/// resolves to exactly one implementation, that implementation serves that
/// very selector, and no two selectors share an implementation.
pub proof fn lemma_dispatch_total_and_unique(b: FullBridge, i: CliBridgeId)
    ensures
        spec_selector_of(spec_dispatch(b)) == b,
        spec_dispatch(spec_selector_of(i)) == i,
{
}

/// The capability contract a bridge-pair implementation must satisfy to be
/// relayable: its signing scheme describes the source chain itself, signing
/// public keys convert to account identities on both sides, the source
/// balance type fallibly converts from the target's, and its message lane
/// runs the mixed relay strategy.
pub trait MessagesCliBridge: Sized {
    /// The implementation's name.
    spec fn spec_id() -> CliBridgeId;

    /// The source chain of the bridge pair.
    spec fn spec_source() -> ChainId;

    /// The target chain of the bridge pair.
    spec fn spec_target() -> ChainId;

    /// The chain the source transaction-signing scheme describes.
    spec fn spec_sign_chain() -> ChainId;

    /// Capability: the source signing scheme signs for the source chain
    /// itself.
    proof fn sign_scheme_is_source()
        ensures
            Self::spec_sign_chain() == Self::spec_source(),
    ;

    /// The implementation's name, executably.
    fn id() -> (r: CliBridgeId)
        ensures
            r == Self::spec_id(),
    ;

    /// Capability: a source signing public key converts to a source-chain
    /// account identity.
    fn source_account_of(key: &PublicKey) -> (r: AccountId)
        ensures
            r@ == key@,
    ;

    /// Capability: a target signing public key converts to a target-chain
    /// account identity.
    fn target_account_of(key: &PublicKey) -> (r: AccountId)
        ensures
            r@ == key@,
    ;

    /// Capability: a target-chain balance fallibly converts to a
    /// source-chain balance — it converts exactly when it fits the source
    /// chain's balance width.
    fn source_balance_from_target(b: u128) -> (r: Option<u128>)
        ensures
            b <= spec_balance_limit(Self::spec_source()) ==> r == Some(b),
            b > spec_balance_limit(Self::spec_source()) ==> r.is_none(),
    ;

    /// Capability: the bridge's message lane runs the mixed relay strategy,
    /// built from the relayer's posture.
    fn mix_strategy(mode: LoopRelayerMode) -> (r: MixStrategy)
        ensures
            r.relayer_mode == mode,
    ;
}

/// The Millau to Rialto bridge-pair implementation.
pub struct MillauToRialtoCliBridge;

/// The Rialto to Millau bridge-pair implementation.
pub struct RialtoToMillauCliBridge;

/// The Millau to RialtoParachain bridge-pair implementation.
pub struct MillauToRialtoParachainCliBridge;

/// The RialtoParachain to Millau bridge-pair implementation.
pub struct RialtoParachainToMillauCliBridge;

impl MessagesCliBridge for MillauToRialtoCliBridge {
    open spec fn spec_id() -> CliBridgeId {
        CliBridgeId::MillauToRialtoCliBridge
    }

    open spec fn spec_source() -> ChainId {
        ChainId::Millau
    }

    open spec fn spec_target() -> ChainId {
        ChainId::Rialto
    }

    open spec fn spec_sign_chain() -> ChainId {
        ChainId::Millau
    }

    proof fn sign_scheme_is_source() {
    }

    fn id() -> CliBridgeId {
        CliBridgeId::MillauToRialtoCliBridge
    }

    fn source_account_of(key: &PublicKey) -> AccountId {
        account_of_public(key)
    }

    fn target_account_of(key: &PublicKey) -> AccountId {
        account_of_public(key)
    }

    fn source_balance_from_target(b: u128) -> Option<u128> {
        convert_balance(b, ChainId::Millau)
    }

    fn mix_strategy(mode: LoopRelayerMode) -> MixStrategy {
        MixStrategy::new(mode)
    }
}

impl MessagesCliBridge for RialtoToMillauCliBridge {
    open spec fn spec_id() -> CliBridgeId {
        CliBridgeId::RialtoToMillauCliBridge
    }

    open spec fn spec_source() -> ChainId {
        ChainId::Rialto
    }

    open spec fn spec_target() -> ChainId {
        ChainId::Millau
    }

    open spec fn spec_sign_chain() -> ChainId {
        ChainId::Rialto
    }

    proof fn sign_scheme_is_source() {
    }

    fn id() -> CliBridgeId {
        CliBridgeId::RialtoToMillauCliBridge
    }

    fn source_account_of(key: &PublicKey) -> AccountId {
        account_of_public(key)
    }

    fn target_account_of(key: &PublicKey) -> AccountId {
        account_of_public(key)
    }

    fn source_balance_from_target(b: u128) -> Option<u128> {
        convert_balance(b, ChainId::Rialto)
    }

    fn mix_strategy(mode: LoopRelayerMode) -> MixStrategy {
        MixStrategy::new(mode)
    }
}

impl MessagesCliBridge for MillauToRialtoParachainCliBridge {
    open spec fn spec_id() -> CliBridgeId {
        CliBridgeId::MillauToRialtoParachainCliBridge
    }

    open spec fn spec_source() -> ChainId {
        ChainId::Millau
    }

    open spec fn spec_target() -> ChainId {
        ChainId::RialtoParachain
    }

    open spec fn spec_sign_chain() -> ChainId {
        ChainId::Millau
    }

    proof fn sign_scheme_is_source() {
    }

    fn id() -> CliBridgeId {
        CliBridgeId::MillauToRialtoParachainCliBridge
    }

    fn source_account_of(key: &PublicKey) -> AccountId {
        account_of_public(key)
    }

    fn target_account_of(key: &PublicKey) -> AccountId {
        account_of_public(key)
    }

    fn source_balance_from_target(b: u128) -> Option<u128> {
        convert_balance(b, ChainId::Millau)
    }

    fn mix_strategy(mode: LoopRelayerMode) -> MixStrategy {
        MixStrategy::new(mode)
    }
}

impl MessagesCliBridge for RialtoParachainToMillauCliBridge {
    open spec fn spec_id() -> CliBridgeId {
        CliBridgeId::RialtoParachainToMillauCliBridge
    }

    open spec fn spec_source() -> ChainId {
        ChainId::RialtoParachain
    }

    open spec fn spec_target() -> ChainId {
        ChainId::Millau
    }

    open spec fn spec_sign_chain() -> ChainId {
        ChainId::RialtoParachain
    }

    proof fn sign_scheme_is_source() {
    }

    fn id() -> CliBridgeId {
        CliBridgeId::RialtoParachainToMillauCliBridge
    }

    fn source_account_of(key: &PublicKey) -> AccountId {
        account_of_public(key)
    }

    fn target_account_of(key: &PublicKey) -> AccountId {
        account_of_public(key)
    }

    fn source_balance_from_target(b: u128) -> Option<u128> {
        convert_balance(b, ChainId::RialtoParachain)
    }

    fn mix_strategy(mode: LoopRelayerMode) -> MixStrategy {
        MixStrategy::new(mode)
    }
}

} // verus!
