//! The command's configuration surface: the validated parameter bundle for
//! one relay run, and the parser that builds it from the command line.
//!
//! Grammar: the first word is the command's own name and is ignored; the
//! second is the bridge name, case-insensitive; every further word is either
//! a bare switch, a valued option written `--name=value`, or an option name
//! `--name` whose value is the next word. Naming the same option or switch
//! twice is an error, as is an unknown word or a malformed value.

use vstd::prelude::*;

use crate::bridge::{parse_full_bridge, spec_parse_bridge, FullBridge};
use crate::lane::{spec_default_lane, spec_lane_bytes, spec_lane_ok, HexLaneId};
use crate::mode::{parse_relayer_mode, spec_parse_mode, RelayerMode};
use crate::text::{all_dec_digits, dec_value, has_prefix, parse_dec_capped, str_eq,
    str_has_prefix, suffix_from};

verus! {

/// Connection parameters for the source chain node.
#[derive(Debug, Clone)]
pub struct SourceConnectionParams {
    /// Node host name or IP.
    pub source_host: String,
    /// Node WebSocket port.
    pub source_port: u16,
    /// Use a secure connection.
    pub source_secure: bool,
}

/// Connection parameters for the target chain node.
#[derive(Debug, Clone)]
pub struct TargetConnectionParams {
    /// Node host name or IP.
    pub target_host: String,
    /// Node WebSocket port.
    pub target_port: u16,
    /// Use a secure connection.
    pub target_secure: bool,
}

/// Signing parameters for transactions submitted to the source chain.
#[derive(Debug, Clone)]
pub struct SourceSigningParams {
    /// The signer's secret URI.
    pub source_signer: Option<String>,
    /// The password for the signer's secret.
    pub source_signer_password: Option<String>,
    /// The requested transaction mortality period, in blocks.
    pub source_transactions_mortality: Option<u32>,
}

/// Signing parameters for transactions submitted to the target chain.
#[derive(Debug, Clone)]
pub struct TargetSigningParams {
    /// The signer's secret URI.
    pub target_signer: Option<String>,
    /// The password for the signer's secret.
    pub target_signer_password: Option<String>,
    /// The requested transaction mortality period, in blocks.
    pub target_transactions_mortality: Option<u32>,
}

/// Metrics-endpoint parameters.
#[derive(Debug, Clone)]
pub struct PrometheusParams {
    /// Do not expose a metrics endpoint.
    pub no_prometheus: bool,
    /// The metrics endpoint host.
    pub prometheus_host: String,
    /// The metrics endpoint port.
    pub prometheus_port: u16,
}

/// Start messages relayer process.
#[derive(Debug, Clone)]
pub struct RelayMessages {
    /// A bridge instance to relay messages for.
    pub bridge: FullBridge,
    /// Lane id served by the relay; defaults to all zeroes.
    pub lane: HexLaneId,
    /// The relayer's economic posture; defaults to rational.
    pub relayer_mode: RelayerMode,
    /// Source node connection parameters.
    pub source: SourceConnectionParams,
    /// Source transaction signing parameters.
    pub source_sign: SourceSigningParams,
    /// Target node connection parameters.
    pub target: TargetConnectionParams,
    /// Target transaction signing parameters.
    pub target_sign: TargetSigningParams,
    /// Metrics endpoint parameters.
    pub prometheus_params: PrometheusParams,
}

/// Why the command line was rejected.
#[derive(Debug, Clone, Copy, PartialEq, Eq, Structural)]
pub enum CliError {
    /// Fewer than two words: no bridge name was given.
    MissingBridge,
    /// The bridge name is not one of the compiled-in bridge pairs.
    UnknownBridge,
    /// The word at this position is no known option, repeats an option or
    /// switch already given, lacks its value, or carries a malformed one.
    InvalidArgument(usize),
}

/// The valued options of the command line.
#[derive(Debug, Clone, Copy, PartialEq, Eq, Structural)]
pub enum OptKey {
    Lane,
    RelayerMode,
    SourceHost,
    SourcePort,
    SourceSigner,
    SourceSignerPassword,
    SourceTransactionsMortality,
    TargetHost,
    TargetPort,
    TargetSigner,
    TargetSignerPassword,
    TargetTransactionsMortality,
    PrometheusHost,
    PrometheusPort,
}

/// The bare switches of the command line.
#[derive(Debug, Clone, Copy, PartialEq, Eq, Structural)]
pub enum SwitchKey {
    SourceSecure,
    TargetSecure,
    NoPrometheus,
}

/// How one command-line word is classified: a known switch, a known valued
/// option with its value written after `=`, a known option name whose value
/// is the next word, or unknown.
pub enum ArgClass {
    Switch(SwitchKey),
    Valued(OptKey, Seq<char>),
    Named(OptKey),
    Unknown,
}

/// The value written after an option prefix.
pub open spec fn val_of(x: Seq<char>, p: Seq<char>) -> Seq<char> {
    x.skip(p.len() as int)
}

/// Classify one command-line word. The tests run in a fixed order, exactly
/// the order the parser tries them in; option prefixes all end in `=`, so
/// no word matches two of them.
pub open spec fn spec_classify(x: Seq<char>) -> ArgClass {
    if x == "--no-prometheus"@ {
        ArgClass::Switch(SwitchKey::NoPrometheus)
    } else if x == "--source-secure"@ {
        ArgClass::Switch(SwitchKey::SourceSecure)
    } else if x == "--target-secure"@ {
        ArgClass::Switch(SwitchKey::TargetSecure)
    } else if x == "--lane"@ {
        ArgClass::Named(OptKey::Lane)
    } else if has_prefix(x, "--lane="@) {
        ArgClass::Valued(OptKey::Lane, val_of(x, "--lane="@))
    } else if x == "--relayer-mode"@ {
        ArgClass::Named(OptKey::RelayerMode)
    } else if has_prefix(x, "--relayer-mode="@) {
        ArgClass::Valued(OptKey::RelayerMode, val_of(x, "--relayer-mode="@))
    } else if x == "--source-host"@ {
        ArgClass::Named(OptKey::SourceHost)
    } else if has_prefix(x, "--source-host="@) {
        ArgClass::Valued(OptKey::SourceHost, val_of(x, "--source-host="@))
    } else if x == "--source-port"@ {
        ArgClass::Named(OptKey::SourcePort)
    } else if has_prefix(x, "--source-port="@) {
        ArgClass::Valued(OptKey::SourcePort, val_of(x, "--source-port="@))
    } else if x == "--source-signer"@ {
        ArgClass::Named(OptKey::SourceSigner)
    } else if has_prefix(x, "--source-signer="@) {
        ArgClass::Valued(OptKey::SourceSigner, val_of(x, "--source-signer="@))
    } else if x == "--source-signer-password"@ {
        ArgClass::Named(OptKey::SourceSignerPassword)
    } else if has_prefix(x, "--source-signer-password="@) {
        ArgClass::Valued(OptKey::SourceSignerPassword, val_of(x, "--source-signer-password="@))
    } else if x == "--source-transactions-mortality"@ {
        ArgClass::Named(OptKey::SourceTransactionsMortality)
    } else if has_prefix(x, "--source-transactions-mortality="@) {
        ArgClass::Valued(
            OptKey::SourceTransactionsMortality,
            val_of(x, "--source-transactions-mortality="@),
        )
    } else if x == "--target-host"@ {
        ArgClass::Named(OptKey::TargetHost)
    } else if has_prefix(x, "--target-host="@) {
        ArgClass::Valued(OptKey::TargetHost, val_of(x, "--target-host="@))
    } else if x == "--target-port"@ {
        ArgClass::Named(OptKey::TargetPort)
    } else if has_prefix(x, "--target-port="@) {
        ArgClass::Valued(OptKey::TargetPort, val_of(x, "--target-port="@))
    } else if x == "--target-signer"@ {
        ArgClass::Named(OptKey::TargetSigner)
    } else if has_prefix(x, "--target-signer="@) {
        ArgClass::Valued(OptKey::TargetSigner, val_of(x, "--target-signer="@))
    } else if x == "--target-signer-password"@ {
        ArgClass::Named(OptKey::TargetSignerPassword)
    } else if has_prefix(x, "--target-signer-password="@) {
        ArgClass::Valued(OptKey::TargetSignerPassword, val_of(x, "--target-signer-password="@))
    } else if x == "--target-transactions-mortality"@ {
        ArgClass::Named(OptKey::TargetTransactionsMortality)
    } else if has_prefix(x, "--target-transactions-mortality="@) {
        ArgClass::Valued(
            OptKey::TargetTransactionsMortality,
            val_of(x, "--target-transactions-mortality="@),
        )
    } else if x == "--prometheus-host"@ {
        ArgClass::Named(OptKey::PrometheusHost)
    } else if has_prefix(x, "--prometheus-host="@) {
        ArgClass::Valued(OptKey::PrometheusHost, val_of(x, "--prometheus-host="@))
    } else if x == "--prometheus-port"@ {
        ArgClass::Named(OptKey::PrometheusPort)
    } else if has_prefix(x, "--prometheus-port="@) {
        ArgClass::Valued(OptKey::PrometheusPort, val_of(x, "--prometheus-port="@))
    } else {
        ArgClass::Unknown
    }
}

/// Whether a raw option value is well-formed for its option.
pub open spec fn spec_opt_value_ok(k: OptKey, v: Seq<char>) -> bool {
    match k {
        OptKey::Lane => spec_lane_ok(v),
        OptKey::RelayerMode => spec_parse_mode(v).is_some(),
        OptKey::SourcePort => v.len() > 0 && all_dec_digits(v) && dec_value(v) <= u16::MAX,
        OptKey::TargetPort => v.len() > 0 && all_dec_digits(v) && dec_value(v) <= u16::MAX,
        OptKey::PrometheusPort => v.len() > 0 && all_dec_digits(v) && dec_value(v) <= u16::MAX,
        OptKey::SourceTransactionsMortality => v.len() > 0 && all_dec_digits(v) && dec_value(v)
            <= u32::MAX,
        OptKey::TargetTransactionsMortality => v.len() > 0 && all_dec_digits(v) && dec_value(v)
            <= u32::MAX,
        _ => true,
    }
}

/// Which options and switches have already been given. An option named
/// twice is an error, as the original's option parser has it.
#[verifier::ext_equal]
#[derive(Debug, Clone, Copy)]
pub struct SeenFlags {
    pub lane: bool,
    pub relayer_mode: bool,
    pub source_host: bool,
    pub source_port: bool,
    pub source_signer: bool,
    pub source_signer_password: bool,
    pub source_transactions_mortality: bool,
    pub target_host: bool,
    pub target_port: bool,
    pub target_signer: bool,
    pub target_signer_password: bool,
    pub target_transactions_mortality: bool,
    pub prometheus_host: bool,
    pub prometheus_port: bool,
    pub source_secure: bool,
    pub target_secure: bool,
    pub no_prometheus: bool,
}

impl SeenFlags {
    /// No option or switch given yet.
    pub open spec fn spec_none() -> SeenFlags {
        SeenFlags {
            lane: false,
            relayer_mode: false,
            source_host: false,
            source_port: false,
            source_signer: false,
            source_signer_password: false,
            source_transactions_mortality: false,
            target_host: false,
            target_port: false,
            target_signer: false,
            target_signer_password: false,
            target_transactions_mortality: false,
            prometheus_host: false,
            prometheus_port: false,
            source_secure: false,
            target_secure: false,
            no_prometheus: false,
        }
    }

    /// Whether option `k` was given.
    pub open spec fn spec_opt(self, k: OptKey) -> bool {
        match k {
            OptKey::Lane => self.lane,
            OptKey::RelayerMode => self.relayer_mode,
            OptKey::SourceHost => self.source_host,
            OptKey::SourcePort => self.source_port,
            OptKey::SourceSigner => self.source_signer,
            OptKey::SourceSignerPassword => self.source_signer_password,
            OptKey::SourceTransactionsMortality => self.source_transactions_mortality,
            OptKey::TargetHost => self.target_host,
            OptKey::TargetPort => self.target_port,
            OptKey::TargetSigner => self.target_signer,
            OptKey::TargetSignerPassword => self.target_signer_password,
            OptKey::TargetTransactionsMortality => self.target_transactions_mortality,
            OptKey::PrometheusHost => self.prometheus_host,
            OptKey::PrometheusPort => self.prometheus_port,
        }
    }

    /// Whether switch `s` was given.
    pub open spec fn spec_switch(self, s: SwitchKey) -> bool {
        match s {
            SwitchKey::SourceSecure => self.source_secure,
            SwitchKey::TargetSecure => self.target_secure,
            SwitchKey::NoPrometheus => self.no_prometheus,
        }
    }

    /// The flags with option `k` marked given.
    pub open spec fn spec_with_opt(self, k: OptKey) -> SeenFlags {
        match k {
            OptKey::Lane => SeenFlags { lane: true, ..self },
            OptKey::RelayerMode => SeenFlags { relayer_mode: true, ..self },
            OptKey::SourceHost => SeenFlags { source_host: true, ..self },
            OptKey::SourcePort => SeenFlags { source_port: true, ..self },
            OptKey::SourceSigner => SeenFlags { source_signer: true, ..self },
            OptKey::SourceSignerPassword => SeenFlags { source_signer_password: true, ..self },
            OptKey::SourceTransactionsMortality => SeenFlags {
                source_transactions_mortality: true,
                ..self
            },
            OptKey::TargetHost => SeenFlags { target_host: true, ..self },
            OptKey::TargetPort => SeenFlags { target_port: true, ..self },
            OptKey::TargetSigner => SeenFlags { target_signer: true, ..self },
            OptKey::TargetSignerPassword => SeenFlags { target_signer_password: true, ..self },
            OptKey::TargetTransactionsMortality => SeenFlags {
                target_transactions_mortality: true,
                ..self
            },
            OptKey::PrometheusHost => SeenFlags { prometheus_host: true, ..self },
            OptKey::PrometheusPort => SeenFlags { prometheus_port: true, ..self },
        }
    }

    /// The flags with switch `s` marked given.
    pub open spec fn spec_with_switch(self, s: SwitchKey) -> SeenFlags {
        match s {
            SwitchKey::SourceSecure => SeenFlags { source_secure: true, ..self },
            SwitchKey::TargetSecure => SeenFlags { target_secure: true, ..self },
            SwitchKey::NoPrometheus => SeenFlags { no_prometheus: true, ..self },
        }
    }

    /// No option or switch given yet, executably.
    fn new() -> (r: SeenFlags)
        ensures
            r == SeenFlags::spec_none(),
    {
        SeenFlags {
            lane: false,
            relayer_mode: false,
            source_host: false,
            source_port: false,
            source_signer: false,
            source_signer_password: false,
            source_transactions_mortality: false,
            target_host: false,
            target_port: false,
            target_signer: false,
            target_signer_password: false,
            target_transactions_mortality: false,
            prometheus_host: false,
            prometheus_port: false,
            source_secure: false,
            target_secure: false,
            no_prometheus: false,
        }
    }
}

/// The outcome of checking the words past the bridge name: all acceptable,
/// or the position of the first word that is not.
pub enum TailCheck {
    Accepted,
    BadAt(int),
}

/// Check the words past the bridge name, left to right. `base` is the
/// position of the first word of `args` on the whole command line, and
/// `seen` which options and switches earlier words already gave. A word is
/// bad when it is unknown, repeats an option or switch, lacks its value,
/// or carries a malformed one; the first bad word's position is reported.
pub open spec fn spec_tail_check(args: Seq<Seq<char>>, base: int, seen: SeenFlags) -> TailCheck
    decreases args.len(),
{
    if args.len() == 0 {
        TailCheck::Accepted
    } else {
        match spec_classify(args[0]) {
            ArgClass::Switch(s) => if seen.spec_switch(s) {
                TailCheck::BadAt(base)
            } else {
                spec_tail_check(args.skip(1), base + 1, seen.spec_with_switch(s))
            },
            ArgClass::Valued(k, v) => if seen.spec_opt(k) {
                TailCheck::BadAt(base)
            } else if !spec_opt_value_ok(k, v) {
                TailCheck::BadAt(base)
            } else {
                spec_tail_check(args.skip(1), base + 1, seen.spec_with_opt(k))
            },
            ArgClass::Named(k) => if seen.spec_opt(k) {
                TailCheck::BadAt(base)
            } else if args.len() == 1 {
                TailCheck::BadAt(base)
            } else if !spec_opt_value_ok(k, args[1]) {
                TailCheck::BadAt(base)
            } else {
                spec_tail_check(args.skip(2), base + 2, seen.spec_with_opt(k))
            },
            ArgClass::Unknown => TailCheck::BadAt(base),
        }
    }
}

/// Whether the whole command line is acceptable.
pub open spec fn spec_args_wf(a: Seq<Seq<char>>) -> bool {
    a.len() >= 2 && spec_parse_bridge(a[1]).is_some() && spec_tail_check(
        a.skip(2),
        2,
        SeenFlags::spec_none(),
    ) == TailCheck::Accepted
}

/// The raw value of the first occurrence of option `k`, if any; on an
/// accepted command line each option occurs at most once, so this is the
/// value of its one occurrence. A word standing as another option's value
/// is not an occurrence.
pub open spec fn spec_opt_value(args: Seq<Seq<char>>, k: OptKey) -> Option<Seq<char>>
    decreases args.len(),
{
    if args.len() == 0 {
        None
    } else {
        match spec_classify(args[0]) {
            ArgClass::Valued(k2, v) => if k2 == k {
                Some(v)
            } else {
                spec_opt_value(args.skip(1), k)
            },
            ArgClass::Named(k2) => if args.len() == 1 {
                None
            } else if k2 == k {
                Some(args[1])
            } else {
                spec_opt_value(args.skip(2), k)
            },
            _ => spec_opt_value(args.skip(1), k),
        }
    }
}

/// How often option `k` occurs (a word standing as another option's value
/// is not an occurrence).
pub open spec fn spec_opt_count(args: Seq<Seq<char>>, k: OptKey) -> nat
    decreases args.len(),
{
    if args.len() == 0 {
        0
    } else {
        match spec_classify(args[0]) {
            ArgClass::Valued(k2, _) => (if k2 == k {
                1nat
            } else {
                0nat
            }) + spec_opt_count(args.skip(1), k),
            ArgClass::Named(k2) => if args.len() == 1 {
                if k2 == k {
                    1nat
                } else {
                    0nat
                }
            } else {
                (if k2 == k {
                    1nat
                } else {
                    0nat
                }) + spec_opt_count(args.skip(2), k)
            },
            _ => spec_opt_count(args.skip(1), k),
        }
    }
}

/// Whether switch `s` occurs.
pub open spec fn spec_has_switch(args: Seq<Seq<char>>, s: SwitchKey) -> bool
    decreases args.len(),
{
    if args.len() == 0 {
        false
    } else {
        match spec_classify(args[0]) {
            ArgClass::Switch(s2) => s2 == s || spec_has_switch(args.skip(1), s),
            ArgClass::Named(_) => if args.len() == 1 {
                false
            } else {
                spec_has_switch(args.skip(2), s)
            },
            _ => spec_has_switch(args.skip(1), s),
        }
    }
}

/// The lane id the options resolve to.
pub open spec fn spec_resolved_lane(args: Seq<Seq<char>>) -> Seq<u8> {
    match spec_opt_value(args, OptKey::Lane) {
        Some(v) => spec_lane_bytes(v),
        None => spec_default_lane(),
    }
}

/// The relayer mode the options resolve to.
pub open spec fn spec_resolved_mode(args: Seq<Seq<char>>) -> RelayerMode {
    match spec_opt_value(args, OptKey::RelayerMode) {
        Some(v) => match spec_parse_mode(v) {
            Some(m) => m,
            None => RelayerMode::Rational,
        },
        None => RelayerMode::Rational,
    }
}

/// The text a string option resolves to, given its default.
pub open spec fn spec_resolved_str(args: Seq<Seq<char>>, k: OptKey, dflt: Seq<char>) -> Seq<
    char,
> {
    match spec_opt_value(args, k) {
        Some(v) => v,
        None => dflt,
    }
}

/// The number a numeric option resolves to, given its default.
pub open spec fn spec_resolved_num(args: Seq<Seq<char>>, k: OptKey, dflt: int) -> int {
    match spec_opt_value(args, k) {
        Some(v) => dec_value(v),
        None => dflt,
    }
}

/// The optional number a numeric option without a default resolves to.
pub open spec fn spec_resolved_opt_num(args: Seq<Seq<char>>, k: OptKey) -> Option<int> {
    match spec_opt_value(args, k) {
        Some(v) => Some(dec_value(v)),
        None => None,
    }
}

/// `Some(dec_value)` of an `Option<u32>`, for comparing against
/// `spec_resolved_opt_num`.
pub open spec fn opt_u32_as_int(o: Option<u32>) -> Option<int> {
    match o {
        Some(m) => Some(m as int),
        None => None,
    }
}

/// occurs at most once, and one already given occurs no further time.
#[verifier::rlimit(100)]
proof fn lemma_opt_count_aux(args: Seq<Seq<char>>, base: int, seen: SeenFlags, k: OptKey)
    requires
        spec_tail_check(args, base, seen) == TailCheck::Accepted,
    ensures
        seen.spec_opt(k) ==> spec_opt_count(args, k) == 0,
        spec_opt_count(args, k) <= 1,
    decreases args.len(),
{
    if args.len() > 0 {
        match spec_classify(args[0]) {
            ArgClass::Switch(s) => {
                lemma_opt_count_aux(args.skip(1), base + 1, seen.spec_with_switch(s), k);
            },
            ArgClass::Valued(k2, _) => {
                lemma_opt_count_aux(args.skip(1), base + 1, seen.spec_with_opt(k2), k);
            },
            ArgClass::Named(k2) => {
                lemma_opt_count_aux(args.skip(2), base + 2, seen.spec_with_opt(k2), k);
            },
            ArgClass::Unknown => {},
        }
    }
}

/// Law: an accepted command line names each option at most once — a
/// supplied option value is never overridden by a later occurrence.
pub proof fn lemma_no_duplicate_options(args: Seq<Seq<char>>, base: int, k: OptKey)
    requires
        spec_tail_check(args, base, SeenFlags::spec_none()) == TailCheck::Accepted,
    ensures
        spec_opt_count(args, k) <= 1,
{
    lemma_opt_count_aux(args, base, SeenFlags::spec_none(), k);
}

/// Law: whenever the relayer-mode option is omitted, the resolved mode is
/// Rational.
pub proof fn lemma_omitted_mode_is_rational(args: Seq<Seq<char>>)
    requires
        spec_opt_value(args, OptKey::RelayerMode) is None,
    ensures
        spec_resolved_mode(args) == RelayerMode::Rational,
{
}

/// Law: supplying a relayer-mode value that names the altruistic mode
/// resolves the command to Altruistic. An accepted command line names the
/// option at most once, so its occurrence — here, the first — is the
/// supplied one, and nothing overrides it.
pub proof fn lemma_altruistic_mode_resolves(args: Seq<Seq<char>>, v: Seq<char>)
    requires
        spec_opt_value(args, OptKey::RelayerMode) == Some(v),
        spec_parse_mode(v) == Some(RelayerMode::Altruistic),
    ensures
        spec_resolved_mode(args) == RelayerMode::Altruistic,
{
}

/// Law: whenever the lane option is omitted, the resolved lane id is the
/// all-zero id of the fixed width.
pub proof fn lemma_omitted_lane_is_all_zero(args: Seq<Seq<char>>)
    requires
        spec_opt_value(args, OptKey::Lane) is None,
    ensures
        spec_resolved_lane(args) == spec_default_lane(),
        spec_resolved_lane(args).len() == 4,
        forall|k: int| 0 <= k < 4 ==> spec_resolved_lane(args)[k] == 0,
{
}

/// Try one option prefix: the raw value when `arg` begins with `p`.
fn match_valued<'a>(arg: &'a str, p: &str) -> (r: Option<&'a str>)
    ensures
        r.is_some() == has_prefix(arg@, p@),
        r matches Some(v) ==> v@ == val_of(arg@, p@),
{
    if str_has_prefix(arg, p) {
        Some(suffix_from(arg, p.unicode_len()))
    } else {
        None
    }
}


/// A word as the parser sees it, executably: a known switch, an option
/// with its inline value, an option name whose value follows, or unknown.
enum ExecClass<'a> {
    Switch(SwitchKey),
    Valued(OptKey, &'a str),
    Named(OptKey),
    Unknown,
}

/// Classify one word, in exactly the order `spec_classify` tries.
#[verifier::rlimit(100)]
#[verifier::spinoff_prover]
fn classify_arg<'a>(arg: &'a str) -> (r: ExecClass<'a>)
    ensures
        match r {
            ExecClass::Switch(s) => spec_classify(arg@) == ArgClass::Switch(s),
            ExecClass::Valued(k, v) => spec_classify(arg@) == ArgClass::Valued(k, v@),
            ExecClass::Named(k) => spec_classify(arg@) == ArgClass::Named(k),
            ExecClass::Unknown => spec_classify(arg@) == ArgClass::Unknown,
        },
{
    if str_eq(arg, "--no-prometheus") {
        return ExecClass::Switch(SwitchKey::NoPrometheus);
    }
    if str_eq(arg, "--source-secure") {
        return ExecClass::Switch(SwitchKey::SourceSecure);
    }
    if str_eq(arg, "--target-secure") {
        return ExecClass::Switch(SwitchKey::TargetSecure);
    }
    if str_eq(arg, "--lane") {
        return ExecClass::Named(OptKey::Lane);
    }
    match match_valued(arg, "--lane=") {
        Some(v) => {
            return ExecClass::Valued(OptKey::Lane, v);
        },
        None => {},
    }
    if str_eq(arg, "--relayer-mode") {
        return ExecClass::Named(OptKey::RelayerMode);
    }
    match match_valued(arg, "--relayer-mode=") {
        Some(v) => {
            return ExecClass::Valued(OptKey::RelayerMode, v);
        },
        None => {},
    }
    if str_eq(arg, "--source-host") {
        return ExecClass::Named(OptKey::SourceHost);
    }
    match match_valued(arg, "--source-host=") {
        Some(v) => {
            return ExecClass::Valued(OptKey::SourceHost, v);
        },
        None => {},
    }
    if str_eq(arg, "--source-port") {
        return ExecClass::Named(OptKey::SourcePort);
    }
    match match_valued(arg, "--source-port=") {
        Some(v) => {
            return ExecClass::Valued(OptKey::SourcePort, v);
        },
        None => {},
    }
    if str_eq(arg, "--source-signer") {
        return ExecClass::Named(OptKey::SourceSigner);
    }
    match match_valued(arg, "--source-signer=") {
        Some(v) => {
            return ExecClass::Valued(OptKey::SourceSigner, v);
        },
        None => {},
    }
    if str_eq(arg, "--source-signer-password") {
        return ExecClass::Named(OptKey::SourceSignerPassword);
    }
    match match_valued(arg, "--source-signer-password=") {
        Some(v) => {
            return ExecClass::Valued(OptKey::SourceSignerPassword, v);
        },
        None => {},
    }
    if str_eq(arg, "--source-transactions-mortality") {
        return ExecClass::Named(OptKey::SourceTransactionsMortality);
    }
    match match_valued(arg, "--source-transactions-mortality=") {
        Some(v) => {
            return ExecClass::Valued(OptKey::SourceTransactionsMortality, v);
        },
        None => {},
    }
    if str_eq(arg, "--target-host") {
        return ExecClass::Named(OptKey::TargetHost);
    }
    match match_valued(arg, "--target-host=") {
        Some(v) => {
            return ExecClass::Valued(OptKey::TargetHost, v);
        },
        None => {},
    }
    if str_eq(arg, "--target-port") {
        return ExecClass::Named(OptKey::TargetPort);
    }
    match match_valued(arg, "--target-port=") {
        Some(v) => {
            return ExecClass::Valued(OptKey::TargetPort, v);
        },
        None => {},
    }
    if str_eq(arg, "--target-signer") {
        return ExecClass::Named(OptKey::TargetSigner);
    }
    match match_valued(arg, "--target-signer=") {
        Some(v) => {
            return ExecClass::Valued(OptKey::TargetSigner, v);
        },
        None => {},
    }
    if str_eq(arg, "--target-signer-password") {
        return ExecClass::Named(OptKey::TargetSignerPassword);
    }
    match match_valued(arg, "--target-signer-password=") {
        Some(v) => {
            return ExecClass::Valued(OptKey::TargetSignerPassword, v);
        },
        None => {},
    }
    if str_eq(arg, "--target-transactions-mortality") {
        return ExecClass::Named(OptKey::TargetTransactionsMortality);
    }
    match match_valued(arg, "--target-transactions-mortality=") {
        Some(v) => {
            return ExecClass::Valued(OptKey::TargetTransactionsMortality, v);
        },
        None => {},
    }
    if str_eq(arg, "--prometheus-host") {
        return ExecClass::Named(OptKey::PrometheusHost);
    }
    match match_valued(arg, "--prometheus-host=") {
        Some(v) => {
            return ExecClass::Valued(OptKey::PrometheusHost, v);
        },
        None => {},
    }
    if str_eq(arg, "--prometheus-port") {
        return ExecClass::Named(OptKey::PrometheusPort);
    }
    match match_valued(arg, "--prometheus-port=") {
        Some(v) => {
            return ExecClass::Valued(OptKey::PrometheusPort, v);
        },
        None => {},
    }
    ExecClass::Unknown
}

/// Whether option `k` was already given.
fn opt_seen(seen: &SeenFlags, k: OptKey) -> (r: bool)
    ensures
        r == seen.spec_opt(k),
{
    match k {
        OptKey::Lane => seen.lane,
        OptKey::RelayerMode => seen.relayer_mode,
        OptKey::SourceHost => seen.source_host,
        OptKey::SourcePort => seen.source_port,
        OptKey::SourceSigner => seen.source_signer,
        OptKey::SourceSignerPassword => seen.source_signer_password,
        OptKey::SourceTransactionsMortality => seen.source_transactions_mortality,
        OptKey::TargetHost => seen.target_host,
        OptKey::TargetPort => seen.target_port,
        OptKey::TargetSigner => seen.target_signer,
        OptKey::TargetSignerPassword => seen.target_signer_password,
        OptKey::TargetTransactionsMortality => seen.target_transactions_mortality,
        OptKey::PrometheusHost => seen.prometheus_host,
        OptKey::PrometheusPort => seen.prometheus_port,
    }
}

/// Whether switch `s` was already given.
fn switch_seen(seen: &SeenFlags, s: SwitchKey) -> (r: bool)
    ensures
        r == seen.spec_switch(s),
{
    match s {
        SwitchKey::SourceSecure => seen.source_secure,
        SwitchKey::TargetSecure => seen.target_secure,
        SwitchKey::NoPrometheus => seen.no_prometheus,
    }
}

/// Mark option `k` given.
#[verifier::rlimit(100)]
fn mark_opt(seen: &mut SeenFlags, k: OptKey)
    ensures
        *final(seen) == old(seen).spec_with_opt(k),
{
    match k {
        OptKey::Lane => {
            *seen = SeenFlags { lane: true, ..*seen };
        },
        OptKey::RelayerMode => {
            *seen = SeenFlags { relayer_mode: true, ..*seen };
        },
        OptKey::SourceHost => {
            *seen = SeenFlags { source_host: true, ..*seen };
        },
        OptKey::SourcePort => {
            *seen = SeenFlags { source_port: true, ..*seen };
        },
        OptKey::SourceSigner => {
            *seen = SeenFlags { source_signer: true, ..*seen };
        },
        OptKey::SourceSignerPassword => {
            *seen = SeenFlags { source_signer_password: true, ..*seen };
        },
        OptKey::SourceTransactionsMortality => {
            *seen = SeenFlags { source_transactions_mortality: true, ..*seen };
        },
        OptKey::TargetHost => {
            *seen = SeenFlags { target_host: true, ..*seen };
        },
        OptKey::TargetPort => {
            *seen = SeenFlags { target_port: true, ..*seen };
        },
        OptKey::TargetSigner => {
            *seen = SeenFlags { target_signer: true, ..*seen };
        },
        OptKey::TargetSignerPassword => {
            *seen = SeenFlags { target_signer_password: true, ..*seen };
        },
        OptKey::TargetTransactionsMortality => {
            *seen = SeenFlags { target_transactions_mortality: true, ..*seen };
        },
        OptKey::PrometheusHost => {
            *seen = SeenFlags { prometheus_host: true, ..*seen };
        },
        OptKey::PrometheusPort => {
            *seen = SeenFlags { prometheus_port: true, ..*seen };
        },
    }
}
/// Mark switch `s` given.
#[verifier::rlimit(100)]
fn mark_switch(seen: &mut SeenFlags, s: SwitchKey)
    ensures
        *final(seen) == old(seen).spec_with_switch(s),
{
    match s {
        SwitchKey::SourceSecure => {
            seen.source_secure = true;
        },
        SwitchKey::TargetSecure => {
            seen.target_secure = true;
        },
        SwitchKey::NoPrometheus => {
            seen.no_prometheus = true;
        },
    }
    proof {
        assert(*seen =~= old(seen).spec_with_switch(s));
    }
}

/// Apply one option value to the record: `false` exactly on a malformed
/// value, leaving the record unchanged; otherwise only the field the
/// option governs changes.
#[verifier::rlimit(100)]
#[verifier::spinoff_prover]
fn apply_value(cmd: &mut RelayMessages, k: OptKey, v: &str) -> (ok: bool)
    ensures
        ok == spec_opt_value_ok(k, v@),
        !ok ==> *final(cmd) == *old(cmd),
        final(cmd).bridge == old(cmd).bridge,
        final(cmd).lane@ == (if ok && k == OptKey::Lane {
            spec_lane_bytes(v@)
        } else {
            old(cmd).lane@
        }),
        final(cmd).relayer_mode == (if ok && k == OptKey::RelayerMode {
            match spec_parse_mode(v@) {
                Some(m) => m,
                None => old(cmd).relayer_mode,
            }
        } else {
            old(cmd).relayer_mode
        }),
        final(cmd).source.source_host@ == (if ok && k == OptKey::SourceHost {
            v@
        } else {
            old(cmd).source.source_host@
        }),
        final(cmd).source.source_port as int == (if ok && k == OptKey::SourcePort {
            dec_value(v@)
        } else {
            old(cmd).source.source_port as int
        }),
        final(cmd).source.source_secure == old(cmd).source.source_secure,
        final(cmd).source_sign.source_signer.deep_view() == (if ok && k == OptKey::SourceSigner {
            Some(v@)
        } else {
            old(cmd).source_sign.source_signer.deep_view()
        }),
        final(cmd).source_sign.source_signer_password.deep_view() == (if ok && k
            == OptKey::SourceSignerPassword {
            Some(v@)
        } else {
            old(cmd).source_sign.source_signer_password.deep_view()
        }),
        opt_u32_as_int(final(cmd).source_sign.source_transactions_mortality) == (if ok && k
            == OptKey::SourceTransactionsMortality {
            Some(dec_value(v@))
        } else {
            opt_u32_as_int(old(cmd).source_sign.source_transactions_mortality)
        }),
        final(cmd).target.target_host@ == (if ok && k == OptKey::TargetHost {
            v@
        } else {
            old(cmd).target.target_host@
        }),
        final(cmd).target.target_port as int == (if ok && k == OptKey::TargetPort {
            dec_value(v@)
        } else {
            old(cmd).target.target_port as int
        }),
        final(cmd).target.target_secure == old(cmd).target.target_secure,
        final(cmd).target_sign.target_signer.deep_view() == (if ok && k == OptKey::TargetSigner {
            Some(v@)
        } else {
            old(cmd).target_sign.target_signer.deep_view()
        }),
        final(cmd).target_sign.target_signer_password.deep_view() == (if ok && k
            == OptKey::TargetSignerPassword {
            Some(v@)
        } else {
            old(cmd).target_sign.target_signer_password.deep_view()
        }),
        opt_u32_as_int(final(cmd).target_sign.target_transactions_mortality) == (if ok && k
            == OptKey::TargetTransactionsMortality {
            Some(dec_value(v@))
        } else {
            opt_u32_as_int(old(cmd).target_sign.target_transactions_mortality)
        }),
        final(cmd).prometheus_params.no_prometheus == old(cmd).prometheus_params.no_prometheus,
        final(cmd).prometheus_params.prometheus_host@ == (if ok && k == OptKey::PrometheusHost {
            v@
        } else {
            old(cmd).prometheus_params.prometheus_host@
        }),
        final(cmd).prometheus_params.prometheus_port as int == (if ok && k
            == OptKey::PrometheusPort {
            dec_value(v@)
        } else {
            old(cmd).prometheus_params.prometheus_port as int
        }),
{
    match k {
        OptKey::Lane => {
            match HexLaneId::parse(v) {
                Some(l) => {
                    cmd.lane = l;
                    true
                },
                None => false,
            }
        },
        OptKey::RelayerMode => {
            match parse_relayer_mode(v) {
                Some(m) => {
                    cmd.relayer_mode = m;
                    true
                },
                None => false,
            }
        },
        OptKey::SourceHost => {
            cmd.source.source_host = v.to_owned();
            true
        },
        OptKey::SourcePort => {
            match parse_dec_capped(v, 65535) {
                Some(wv) => {
                    cmd.source.source_port = wv as u16;
                    true
                },
                None => false,
            }
        },
        OptKey::SourceSigner => {
            cmd.source_sign.source_signer = Some(v.to_owned());
            true
        },
        OptKey::SourceSignerPassword => {
            cmd.source_sign.source_signer_password = Some(v.to_owned());
            true
        },
        OptKey::SourceTransactionsMortality => {
            match parse_dec_capped(v, 4294967295) {
                Some(wv) => {
                    cmd.source_sign.source_transactions_mortality = Some(wv as u32);
                    true
                },
                None => false,
            }
        },
        OptKey::TargetHost => {
            cmd.target.target_host = v.to_owned();
            true
        },
        OptKey::TargetPort => {
            match parse_dec_capped(v, 65535) {
                Some(wv) => {
                    cmd.target.target_port = wv as u16;
                    true
                },
                None => false,
            }
        },
        OptKey::TargetSigner => {
            cmd.target_sign.target_signer = Some(v.to_owned());
            true
        },
        OptKey::TargetSignerPassword => {
            cmd.target_sign.target_signer_password = Some(v.to_owned());
            true
        },
        OptKey::TargetTransactionsMortality => {
            match parse_dec_capped(v, 4294967295) {
                Some(wv) => {
                    cmd.target_sign.target_transactions_mortality = Some(wv as u32);
                    true
                },
                None => false,
            }
        },
        OptKey::PrometheusHost => {
            cmd.prometheus_params.prometheus_host = v.to_owned();
            true
        },
        OptKey::PrometheusPort => {
            match parse_dec_capped(v, 65535) {
                Some(wv) => {
                    cmd.prometheus_params.prometheus_port = wv as u16;
                    true
                },
                None => false,
            }
        },
    }
}



/// Whether `v` is a well-formed value for option `k`, executably.
fn check_value(k: OptKey, v: &str) -> (r: bool)
    ensures
        r == spec_opt_value_ok(k, v@),
{
    match k {
        OptKey::Lane => HexLaneId::parse(v).is_some(),
        OptKey::RelayerMode => parse_relayer_mode(v).is_some(),
        OptKey::SourcePort => parse_dec_capped(v, 65535).is_some(),
        OptKey::TargetPort => parse_dec_capped(v, 65535).is_some(),
        OptKey::PrometheusPort => parse_dec_capped(v, 65535).is_some(),
        OptKey::SourceTransactionsMortality => parse_dec_capped(v, 4294967295).is_some(),
        OptKey::TargetTransactionsMortality => parse_dec_capped(v, 4294967295).is_some(),
        _ => true,
    }
}

/// The value of the one occurrence of option `k` past the bridge name, as
/// its own string; `None` when the option was omitted.
#[verifier::spinoff_prover]
fn find_opt_value(args: &Vec<String>, k: OptKey) -> (r: Option<String>)
    requires
        args@.len() >= 2,
    ensures
        r.deep_view() == spec_opt_value(args.deep_view().skip(2), k),
{
    let ghost a = args.deep_view();
    let mut i: usize = 2;
    proof {
        assert(a.subrange(2, a.len() as int) =~= a.skip(2));
    }
    while i < args.len()
        invariant
            2 <= i <= args.len(),
            a == args.deep_view(),
            a.len() == args@.len(),
            spec_opt_value(a.skip(2), k) == spec_opt_value(
                a.subrange(i as int, a.len() as int),
                k,
            ),
        decreases args.len() - i,
    {
        let ghost rest = a.subrange(i as int, a.len() as int);
        proof {
            assert(rest[0] == a[i as int]);
            assert(rest.skip(1) =~= a.subrange(i as int + 1, a.len() as int));
            if i + 2 <= args.len() {
                assert(rest.skip(2) =~= a.subrange(i as int + 2, a.len() as int));
            }
        }
        match classify_arg(args[i].as_str()) {
            ExecClass::Valued(k2, v) => {
                if k2 == k {
                    return Some(v.to_owned());
                }
                i += 1;
            },
            ExecClass::Named(k2) => {
                if i + 1 >= args.len() {
                    proof {
                        assert(rest.len() == 1);
                    }
                    return None;
                }
                proof {
                    assert(rest[1] == a[i as int + 1]);
                }
                if k2 == k {
                    return Some(args[i + 1].clone());
                }
                i += 2;
            },
            ExecClass::Switch(_) => {
                i += 1;
            },
            ExecClass::Unknown => {
                i += 1;
            },
        }
    }
    proof {
        assert(a.subrange(i as int, a.len() as int) =~= Seq::<Seq<char>>::empty());
    }
    None
}

/// Whether switch `s` occurs past the bridge name.
#[verifier::spinoff_prover]
fn find_switch(args: &Vec<String>, s: SwitchKey) -> (r: bool)
    requires
        args@.len() >= 2,
    ensures
        r == spec_has_switch(args.deep_view().skip(2), s),
{
    let ghost a = args.deep_view();
    let mut i: usize = 2;
    proof {
        assert(a.subrange(2, a.len() as int) =~= a.skip(2));
    }
    while i < args.len()
        invariant
            2 <= i <= args.len(),
            a == args.deep_view(),
            a.len() == args@.len(),
            spec_has_switch(a.skip(2), s) == spec_has_switch(
                a.subrange(i as int, a.len() as int),
                s,
            ),
        decreases args.len() - i,
    {
        let ghost rest = a.subrange(i as int, a.len() as int);
        proof {
            assert(rest[0] == a[i as int]);
            assert(rest.skip(1) =~= a.subrange(i as int + 1, a.len() as int));
            if i + 2 <= args.len() {
                assert(rest.skip(2) =~= a.subrange(i as int + 2, a.len() as int));
            }
        }
        match classify_arg(args[i].as_str()) {
            ExecClass::Switch(s2) => {
                if s2 == s {
                    return true;
                }
                i += 1;
            },
            ExecClass::Named(_) => {
                if i + 1 >= args.len() {
                    proof {
                        assert(rest.len() == 1);
                    }
                    return false;
                }
                i += 2;
            },
            ExecClass::Valued(_, _) => {
                i += 1;
            },
            ExecClass::Unknown => {
                i += 1;
            },
        }
    }
    proof {
        assert(a.subrange(i as int, a.len() as int) =~= Seq::<Seq<char>>::empty());
    }
    false
}

/// On an accepted option tail, every option's one occurrence carries a
/// well-formed value.
#[verifier::rlimit(100)]
proof fn lemma_accepted_value_ok(args: Seq<Seq<char>>, base: int, seen: SeenFlags, k: OptKey)
    requires
        spec_tail_check(args, base, seen) == TailCheck::Accepted,
    ensures
        spec_opt_value(args, k) matches Some(v) ==> spec_opt_value_ok(k, v),
    decreases args.len(),
{
    if args.len() > 0 {
        match spec_classify(args[0]) {
            ArgClass::Switch(s) => {
                lemma_accepted_value_ok(args.skip(1), base + 1, seen.spec_with_switch(s), k);
            },
            ArgClass::Valued(k2, _) => {
                lemma_accepted_value_ok(args.skip(1), base + 1, seen.spec_with_opt(k2), k);
            },
            ArgClass::Named(k2) => {
                lemma_accepted_value_ok(args.skip(2), base + 2, seen.spec_with_opt(k2), k);
            },
            ArgClass::Unknown => {},
        }
    }
}

/// Resolve option `k` on an accepted command line: apply the value of its
/// one occurrence, or leave its field at the default.
#[verifier::rlimit(100)]
#[verifier::spinoff_prover]
fn resolve_option(cmd: &mut RelayMessages, args: &Vec<String>, k: OptKey)
    requires
        args@.len() >= 2,
        spec_tail_check(args.deep_view().skip(2), 2, SeenFlags::spec_none())
            == TailCheck::Accepted,
    ensures
        ({
            let w = spec_opt_value(args.deep_view().skip(2), k);
            &&& final(cmd).bridge == old(cmd).bridge
            &&& final(cmd).lane@ == (match w {
                Some(v) => if k == OptKey::Lane {
                    spec_lane_bytes(v)
                } else {
                    old(cmd).lane@
                },
                None => old(cmd).lane@,
            })
            &&& final(cmd).relayer_mode == (match w {
                Some(v) => if k == OptKey::RelayerMode {
                    match spec_parse_mode(v) {
                        Some(m) => m,
                        None => old(cmd).relayer_mode,
                    }
                } else {
                    old(cmd).relayer_mode
                },
                None => old(cmd).relayer_mode,
            })
            &&& final(cmd).source.source_host@ == (match w {
                Some(v) => if k == OptKey::SourceHost {
                    v
                } else {
                    old(cmd).source.source_host@
                },
                None => old(cmd).source.source_host@,
            })
            &&& final(cmd).source.source_port as int == (match w {
                Some(v) => if k == OptKey::SourcePort {
                    dec_value(v)
                } else {
                    old(cmd).source.source_port as int
                },
                None => old(cmd).source.source_port as int,
            })
            &&& final(cmd).source.source_secure == old(cmd).source.source_secure
            &&& final(cmd).source_sign.source_signer.deep_view() == (match w {
                Some(v) => if k == OptKey::SourceSigner {
                    Some(v)
                } else {
                    old(cmd).source_sign.source_signer.deep_view()
                },
                None => old(cmd).source_sign.source_signer.deep_view(),
            })
            &&& final(cmd).source_sign.source_signer_password.deep_view() == (match w {
                Some(v) => if k == OptKey::SourceSignerPassword {
                    Some(v)
                } else {
                    old(cmd).source_sign.source_signer_password.deep_view()
                },
                None => old(cmd).source_sign.source_signer_password.deep_view(),
            })
            &&& opt_u32_as_int(final(cmd).source_sign.source_transactions_mortality) == (match w {
                Some(v) => if k == OptKey::SourceTransactionsMortality {
                    Some(dec_value(v))
                } else {
                    opt_u32_as_int(old(cmd).source_sign.source_transactions_mortality)
                },
                None => opt_u32_as_int(old(cmd).source_sign.source_transactions_mortality),
            })
            &&& final(cmd).target.target_host@ == (match w {
                Some(v) => if k == OptKey::TargetHost {
                    v
                } else {
                    old(cmd).target.target_host@
                },
                None => old(cmd).target.target_host@,
            })
            &&& final(cmd).target.target_port as int == (match w {
                Some(v) => if k == OptKey::TargetPort {
                    dec_value(v)
                } else {
                    old(cmd).target.target_port as int
                },
                None => old(cmd).target.target_port as int,
            })
            &&& final(cmd).target.target_secure == old(cmd).target.target_secure
            &&& final(cmd).target_sign.target_signer.deep_view() == (match w {
                Some(v) => if k == OptKey::TargetSigner {
                    Some(v)
                } else {
                    old(cmd).target_sign.target_signer.deep_view()
                },
                None => old(cmd).target_sign.target_signer.deep_view(),
            })
            &&& final(cmd).target_sign.target_signer_password.deep_view() == (match w {
                Some(v) => if k == OptKey::TargetSignerPassword {
                    Some(v)
                } else {
                    old(cmd).target_sign.target_signer_password.deep_view()
                },
                None => old(cmd).target_sign.target_signer_password.deep_view(),
            })
            &&& opt_u32_as_int(final(cmd).target_sign.target_transactions_mortality) == (match w {
                Some(v) => if k == OptKey::TargetTransactionsMortality {
                    Some(dec_value(v))
                } else {
                    opt_u32_as_int(old(cmd).target_sign.target_transactions_mortality)
                },
                None => opt_u32_as_int(old(cmd).target_sign.target_transactions_mortality),
            })
            &&& final(cmd).prometheus_params.no_prometheus == old(
                cmd,
            ).prometheus_params.no_prometheus
            &&& final(cmd).prometheus_params.prometheus_host@ == (match w {
                Some(v) => if k == OptKey::PrometheusHost {
                    v
                } else {
                    old(cmd).prometheus_params.prometheus_host@
                },
                None => old(cmd).prometheus_params.prometheus_host@,
            })
            &&& final(cmd).prometheus_params.prometheus_port as int == (match w {
                Some(v) => if k == OptKey::PrometheusPort {
                    dec_value(v)
                } else {
                    old(cmd).prometheus_params.prometheus_port as int
                },
                None => old(cmd).prometheus_params.prometheus_port as int,
            })
        }),
{
    match find_opt_value(args, k) {
        Some(v) => {
            proof {
                lemma_accepted_value_ok(
                    args.deep_view().skip(2),
                    2,
                    SeenFlags::spec_none(),
                    k,
                );
            }
            apply_value(cmd, k, v.as_str());
        },
        None => {},
    }
}

impl RelayMessages {
    /// Parse the command line. The first word is the command's own name;
    /// the second selects the bridge; the rest are options, each written
    /// `--name=value` or as `--name` with the value in the next word, and
    /// none given twice. Succeeds exactly when a compiled-in bridge is
    /// named and every option is known, well-formed and unrepeated, and
    /// then resolves every omitted option to its default: an all-zero
    /// lane, the rational relayer mode, local node endpoints, no signers,
    /// and an enabled local metrics endpoint.
    #[verifier::rlimit(100)]
    #[verifier::spinoff_prover]
    pub fn from_iter(args: Vec<String>) -> (r: Result<RelayMessages, CliError>)
        ensures
            ({
                let a = args.deep_view();
                let rest = a.skip(2);
                match r {
                    Ok(cmd) => spec_args_wf(a) && spec_parse_bridge(a[1]) == Some(cmd.bridge)
                        && cmd.lane@ == spec_resolved_lane(rest) && cmd.relayer_mode
                        == spec_resolved_mode(rest) && cmd.source.source_host@
                        == spec_resolved_str(rest, OptKey::SourceHost, "127.0.0.1"@)
                        && cmd.source.source_port as int == spec_resolved_num(
                        rest,
                        OptKey::SourcePort,
                        9944,
                    ) && cmd.source.source_secure == spec_has_switch(rest, SwitchKey::SourceSecure)
                        && cmd.source_sign.source_signer.deep_view() == spec_opt_value(
                        rest,
                        OptKey::SourceSigner,
                    ) && cmd.source_sign.source_signer_password.deep_view() == spec_opt_value(
                        rest,
                        OptKey::SourceSignerPassword,
                    ) && opt_u32_as_int(cmd.source_sign.source_transactions_mortality)
                        == spec_resolved_opt_num(rest, OptKey::SourceTransactionsMortality)
                        && cmd.target.target_host@ == spec_resolved_str(
                        rest,
                        OptKey::TargetHost,
                        "127.0.0.1"@,
                    ) && cmd.target.target_port as int == spec_resolved_num(
                        rest,
                        OptKey::TargetPort,
                        9944,
                    ) && cmd.target.target_secure == spec_has_switch(rest, SwitchKey::TargetSecure)
                        && cmd.target_sign.target_signer.deep_view() == spec_opt_value(
                        rest,
                        OptKey::TargetSigner,
                    ) && cmd.target_sign.target_signer_password.deep_view() == spec_opt_value(
                        rest,
                        OptKey::TargetSignerPassword,
                    ) && opt_u32_as_int(cmd.target_sign.target_transactions_mortality)
                        == spec_resolved_opt_num(rest, OptKey::TargetTransactionsMortality)
                        && cmd.prometheus_params.no_prometheus == spec_has_switch(
                        rest,
                        SwitchKey::NoPrometheus,
                    ) && cmd.prometheus_params.prometheus_host@ == spec_resolved_str(
                        rest,
                        OptKey::PrometheusHost,
                        "127.0.0.1"@,
                    ) && cmd.prometheus_params.prometheus_port as int == spec_resolved_num(
                        rest,
                        OptKey::PrometheusPort,
                        9616,
                    ),
                    Err(CliError::MissingBridge) => a.len() < 2,
                    Err(CliError::UnknownBridge) => a.len() >= 2 && spec_parse_bridge(
                        a[1],
                    ).is_none(),
                    Err(CliError::InvalidArgument(i)) => a.len() >= 2 && spec_parse_bridge(
                        a[1],
                    ).is_some() && 2 <= i < a.len() && spec_tail_check(
                        rest,
                        2,
                        SeenFlags::spec_none(),
                    ) == TailCheck::BadAt(i as int),
                }
            }),
    {
        let ghost a = args.deep_view();
        if args.len() < 2 {
            return Err(CliError::MissingBridge);
        }
        let bridge = match parse_full_bridge(args[1].as_str()) {
            Some(b) => b,
            None => {
                return Err(CliError::UnknownBridge);
            },
        };
        // First pass: check every word past the bridge name, tracking
        // which options and switches were already given.
        let mut seen = SeenFlags::new();
        let mut i: usize = 2;
        proof {
            assert(a.subrange(2, a.len() as int) =~= a.skip(2));
        }
        while i < args.len()
            invariant
                2 <= i <= args.len(),
                a == args.deep_view(),
                a.len() == args@.len(),
                spec_parse_bridge(a[1]) == Some(bridge),
                spec_tail_check(a.skip(2), 2, SeenFlags::spec_none()) == spec_tail_check(
                    a.subrange(i as int, a.len() as int),
                    i as int,
                    seen,
                ),
            decreases args.len() - i,
        {
            let ghost rest = a.subrange(i as int, a.len() as int);
            proof {
                assert(rest[0] == a[i as int]);
                assert(rest.skip(1) =~= a.subrange(i as int + 1, a.len() as int));
                if i + 2 <= args.len() {
                    assert(rest.skip(2) =~= a.subrange(i as int + 2, a.len() as int));
                }
            }
            match classify_arg(args[i].as_str()) {
                ExecClass::Switch(s) => {
                    if switch_seen(&seen, s) {
                        return Err(CliError::InvalidArgument(i));
                    }
                    mark_switch(&mut seen, s);
                    i += 1;
                },
                ExecClass::Valued(k, v) => {
                    if opt_seen(&seen, k) {
                        return Err(CliError::InvalidArgument(i));
                    }
                    if !check_value(k, v) {
                        return Err(CliError::InvalidArgument(i));
                    }
                    mark_opt(&mut seen, k);
                    i += 1;
                },
                ExecClass::Named(k) => {
                    if opt_seen(&seen, k) {
                        return Err(CliError::InvalidArgument(i));
                    }
                    if i + 1 >= args.len() {
                        proof {
                            assert(rest.len() == 1);
                        }
                        return Err(CliError::InvalidArgument(i));
                    }
                    proof {
                        assert(rest[1] == a[i as int + 1]);
                    }
                    if !check_value(k, args[i + 1].as_str()) {
                        return Err(CliError::InvalidArgument(i));
                    }
                    mark_opt(&mut seen, k);
                    i += 2;
                },
                ExecClass::Unknown => {
                    return Err(CliError::InvalidArgument(i));
                },
            }
        }
        proof {
            assert(a.subrange(i as int, a.len() as int) =~= Seq::<Seq<char>>::empty());
        }
        // Accepted: resolve each option to its one occurrence or its
        // default. An accepted line's values are well-formed, so every
        // application below succeeds.
        let mut cmd = RelayMessages {
            bridge,
            lane: HexLaneId::default(),
            relayer_mode: RelayerMode::Rational,
            source: SourceConnectionParams {
                source_host: "127.0.0.1".to_owned(),
                source_port: 9944,
                source_secure: false,
            },
            source_sign: SourceSigningParams {
                source_signer: None,
                source_signer_password: None,
                source_transactions_mortality: None,
            },
            target: TargetConnectionParams {
                target_host: "127.0.0.1".to_owned(),
                target_port: 9944,
                target_secure: false,
            },
            target_sign: TargetSigningParams {
                target_signer: None,
                target_signer_password: None,
                target_transactions_mortality: None,
            },
            prometheus_params: PrometheusParams {
                no_prometheus: false,
                prometheus_host: "127.0.0.1".to_owned(),
                prometheus_port: 9616,
            },
        };
        resolve_option(&mut cmd, &args, OptKey::Lane);
        resolve_option(&mut cmd, &args, OptKey::RelayerMode);
        resolve_option(&mut cmd, &args, OptKey::SourceHost);
        resolve_option(&mut cmd, &args, OptKey::SourcePort);
        resolve_option(&mut cmd, &args, OptKey::SourceSigner);
        resolve_option(&mut cmd, &args, OptKey::SourceSignerPassword);
        resolve_option(&mut cmd, &args, OptKey::SourceTransactionsMortality);
        resolve_option(&mut cmd, &args, OptKey::TargetHost);
        resolve_option(&mut cmd, &args, OptKey::TargetPort);
        resolve_option(&mut cmd, &args, OptKey::TargetSigner);
        resolve_option(&mut cmd, &args, OptKey::TargetSignerPassword);
        resolve_option(&mut cmd, &args, OptKey::TargetTransactionsMortality);
        resolve_option(&mut cmd, &args, OptKey::PrometheusHost);
        resolve_option(&mut cmd, &args, OptKey::PrometheusPort);
        if find_switch(&args, SwitchKey::SourceSecure) {
            cmd.source.source_secure = true;
        }
        if find_switch(&args, SwitchKey::TargetSecure) {
            cmd.target.target_secure = true;
        }
        if find_switch(&args, SwitchKey::NoPrometheus) {
            cmd.prometheus_params.no_prometheus = true;
        }
        Ok(cmd)
    }
}

} // verus!
