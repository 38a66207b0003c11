//! The relayer's economic posture: a two-valued mode with a case-insensitive
//! kebab-case textual form, and its one-to-one conversion into the posture
//! type of the relay-loop engine.

use vstd::prelude::*;

use crate::text::{eq_lower, lower, lemma_lower_idempotent};

verus! {

/// Relayer operating mode.
#[derive(Debug, Clone, Copy, PartialEq, Eq, Structural)]
pub enum RelayerMode {
    /// The relayer doesn't care about rewards.
    Altruistic,
    /// The relayer delivers messages and confirmations only while it is not
    /// losing any funds.
    Rational,
}

/// The posture type of the relay-loop engine, mirrored as plain data. The
/// engine's own enumeration carries the same two values with the same
/// meaning.
#[derive(Debug, Clone, Copy, PartialEq, Eq, Structural)]
pub enum LoopRelayerMode {
    /// Deliver regardless of profit.
    Altruistic,
    /// Deliver only while not incurring a net loss.
    Rational,
}

/// The kebab-case token of a mode.
pub open spec fn spec_mode_token(m: RelayerMode) -> Seq<char> {
    match m {
        RelayerMode::Altruistic => "altruistic"@,
        RelayerMode::Rational => "rational"@,
    }
}

/// The mode a token denotes: compared lowercased, so parsing is
/// case-insensitive; unknown tokens denote no mode.
pub open spec fn spec_parse_mode(s: Seq<char>) -> Option<RelayerMode> {
    if lower(s) == spec_mode_token(RelayerMode::Altruistic) {
        Some(RelayerMode::Altruistic)
    } else if lower(s) == spec_mode_token(RelayerMode::Rational) {
        Some(RelayerMode::Rational)
    } else {
        None
    }
}

/// Parse a relayer-mode token, case-insensitively.
pub fn parse_relayer_mode(s: &str) -> (r: Option<RelayerMode>)
    ensures
        r == spec_parse_mode(s@),
{
    if eq_lower(s, "altruistic") {
        Some(RelayerMode::Altruistic)
    } else if eq_lower(s, "rational") {
        Some(RelayerMode::Rational)
    } else {
        None
    }
}

/// The canonical token of a mode.
pub fn mode_token(m: RelayerMode) -> (r: &'static str)
    ensures
        r@ == spec_mode_token(m),
{
    match m {
        RelayerMode::Altruistic => "altruistic",
        RelayerMode::Rational => "rational",
    }
}

/// Both mode tokens are already lowercase.
proof fn lemma_mode_tokens_lowercase()
    ensures
        lower("altruistic"@) == "altruistic"@,
        lower("rational"@) == "rational"@,
{
    reveal_strlit("altruistic");
    reveal_strlit("rational");
    assert(lower("altruistic"@) =~= "altruistic"@);
    assert(lower("rational"@) =~= "rational"@);
}

/// Law: parsing a relayer-mode token ignores ASCII case — a token and its
/// lowercased form denote the same mode (or both denote none).
pub proof fn lemma_mode_parse_case_insensitive(s: Seq<char>)
    ensures
        spec_parse_mode(s) == spec_parse_mode(lower(s)),
{
    lemma_lower_idempotent(s);
}

/// Law: every mode's canonical token parses back to that mode.
pub proof fn lemma_mode_token_round_trip(m: RelayerMode)
    ensures
        spec_parse_mode(spec_mode_token(m)) == Some(m),
{
    reveal_strlit("altruistic");
    reveal_strlit("rational");
    lemma_mode_tokens_lowercase();
    assert("altruistic"@.len() != "rational"@.len());
}

/// When the option is absent the mode defaults to `Rational`.
impl Default for RelayerMode {
    fn default() -> (r: Self)
        ensures
            r == RelayerMode::Rational,
    {
        RelayerMode::Rational
    }
}

/// The engine posture a mode converts to: the mapping is one-to-one and
/// meaning-preserving.
pub open spec fn spec_loop_mode(m: RelayerMode) -> LoopRelayerMode {
    match m {
        RelayerMode::Altruistic => LoopRelayerMode::Altruistic,
        RelayerMode::Rational => LoopRelayerMode::Rational,
    }
}

impl RelayerMode {
    /// Convert into the relay-loop engine's posture.
    pub fn to_loop_mode(self) -> (r: LoopRelayerMode)
        ensures
            r == spec_loop_mode(self),
    {
        match self {
            RelayerMode::Altruistic => LoopRelayerMode::Altruistic,
            RelayerMode::Rational => LoopRelayerMode::Rational,
        }
    }
}

/// The mixed relay strategy: delivery heuristics governed by the relayer's
/// posture, constructed once per run.
#[derive(Debug, Clone, Copy, PartialEq, Eq, Structural)]
pub struct MixStrategy {
    /// The posture the strategy follows.
    pub relayer_mode: LoopRelayerMode,
}

impl MixStrategy {
    /// Build the mixed strategy for a posture.
    pub fn new(relayer_mode: LoopRelayerMode) -> (r: Self)
        ensures
            r.relayer_mode == relayer_mode,
    {
        MixStrategy { relayer_mode }
    }
}

} // verus!
