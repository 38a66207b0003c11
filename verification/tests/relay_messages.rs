use relay_messages::bridge::{parse_full_bridge, CliBridgeId, FullBridge, MessagesCliBridge,
    MillauToRialtoCliBridge, MillauToRialtoParachainCliBridge, RialtoParachainToMillauCliBridge,
    RialtoToMillauCliBridge};
use relay_messages::chain::PublicKey;
use relay_messages::cli::{CliError, RelayMessages};
use relay_messages::dispatch::{RelayAction, RelayErrorKind, RelayEvent, SetupStage};
use relay_messages::lane::HexLaneId;
use relay_messages::mode::{mode_token, parse_relayer_mode, LoopRelayerMode, RelayerMode};

fn args(words: &[&str]) -> Vec<String> {
    words.iter().map(|w| w.to_string()).collect()
}

#[test]
fn should_use_rational_relayer_mode_by_default() {
    assert_eq!(
        RelayMessages::from_iter(args(&[
            "relay-messages",
            "rialto-to-millau",
            "--source-port=0",
            "--source-signer=//Alice",
            "--target-port=0",
            "--target-signer=//Alice",
            "--lane=00000000",
        ]))
        .unwrap()
        .relayer_mode,
        RelayerMode::Rational,
    );
}

#[test]
fn should_accept_altruistic_relayer_mode() {
    assert_eq!(
        RelayMessages::from_iter(args(&[
            "relay-messages",
            "rialto-to-millau",
            "--source-port=0",
            "--source-signer=//Alice",
            "--target-port=0",
            "--target-signer=//Alice",
            "--lane=00000000",
            "--relayer-mode=altruistic",
        ]))
        .unwrap()
        .relayer_mode,
        RelayerMode::Altruistic,
    );
}

#[test]
fn relayer_mode_parses_case_insensitively_and_round_trips() {
    assert_eq!(parse_relayer_mode("altruistic"), Some(RelayerMode::Altruistic));
    assert_eq!(parse_relayer_mode("AltRuiStic"), Some(RelayerMode::Altruistic));
    assert_eq!(parse_relayer_mode("RATIONAL"), Some(RelayerMode::Rational));
    assert_eq!(parse_relayer_mode("rational"), Some(RelayerMode::Rational));
    assert_eq!(parse_relayer_mode("greedy"), None);
    assert_eq!(parse_relayer_mode(""), None);
    for m in [RelayerMode::Altruistic, RelayerMode::Rational] {
        assert_eq!(parse_relayer_mode(mode_token(m)), Some(m));
    }
}

#[test]
fn bridge_names_parse_case_insensitively() {
    assert_eq!(parse_full_bridge("millau-to-rialto"), Some(FullBridge::MillauToRialto));
    assert_eq!(parse_full_bridge("MILLAU-TO-RIALTO"), Some(FullBridge::MillauToRialto));
    assert_eq!(parse_full_bridge("rialto-to-millau"), Some(FullBridge::RialtoToMillau));
    assert_eq!(
        parse_full_bridge("Millau-To-Rialto-Parachain"),
        Some(FullBridge::MillauToRialtoParachain)
    );
    assert_eq!(
        parse_full_bridge("rialto-parachain-to-millau"),
        Some(FullBridge::RialtoParachainToMillau)
    );
    assert_eq!(parse_full_bridge("rialto-to-kusama"), None);
    assert_eq!(parse_full_bridge(""), None);
}

#[test]
fn dispatch_resolves_each_selector_to_its_own_implementation() {
    let cases: [(&str, CliBridgeId); 4] = [
        ("millau-to-rialto", CliBridgeId::MillauToRialtoCliBridge),
        ("rialto-to-millau", CliBridgeId::RialtoToMillauCliBridge),
        ("millau-to-rialto-parachain", CliBridgeId::MillauToRialtoParachainCliBridge),
        ("rialto-parachain-to-millau", CliBridgeId::RialtoParachainToMillauCliBridge),
    ];
    for (name, expected) in cases {
        let cmd = RelayMessages::from_iter(args(&["relay-messages", name])).unwrap();
        let (run, action) = cmd.run();
        assert_eq!(run.bridge_impl, expected);
        assert_eq!(run.stage, SetupStage::SourceConnect);
        assert_eq!(action, RelayAction::ConnectSourceClient);
    }
}

#[test]
fn omitted_lane_defaults_to_all_zero() {
    let cmd = RelayMessages::from_iter(args(&["relay-messages", "rialto-to-millau"])).unwrap();
    assert_eq!(cmd.lane.bytes(), [0u8, 0, 0, 0]);
}

#[test]
fn lane_parses_exactly_eight_hex_digits() {
    assert_eq!(HexLaneId::parse("00000001").unwrap().bytes(), [0, 0, 0, 1]);
    assert_eq!(HexLaneId::parse("deadbeef").unwrap().bytes(), [0xde, 0xad, 0xbe, 0xef]);
    assert_eq!(HexLaneId::parse("DeadBeef").unwrap().bytes(), [0xde, 0xad, 0xbe, 0xef]);
    assert!(HexLaneId::parse("0000000").is_none());
    assert!(HexLaneId::parse("000000000").is_none());
    assert!(HexLaneId::parse("0000000g").is_none());
    assert!(HexLaneId::parse("").is_none());
    let cmd = RelayMessages::from_iter(args(&[
        "relay-messages",
        "millau-to-rialto",
        "--lane=00cafe01",
    ]))
    .unwrap();
    assert_eq!(cmd.lane.bytes(), [0x00, 0xca, 0xfe, 0x01]);
}

#[test]
fn malformed_bridge_name_fails_before_any_connection_attempt() {
    // Parsing rejects the bridge name outright: no run is ever started, so
    // no connection can have been asked for.
    let r = RelayMessages::from_iter(args(&[
        "relay-messages",
        "rialto-to-kusama",
        "--source-port=0",
    ]));
    assert_eq!(r.unwrap_err(), CliError::UnknownBridge);
    let r = RelayMessages::from_iter(args(&["relay-messages"]));
    assert_eq!(r.unwrap_err(), CliError::MissingBridge);
}

#[test]
fn malformed_options_name_their_position() {
    let r = RelayMessages::from_iter(args(&[
        "relay-messages",
        "rialto-to-millau",
        "--source-port=65536",
    ]));
    assert_eq!(r.unwrap_err(), CliError::InvalidArgument(2));
    let r = RelayMessages::from_iter(args(&[
        "relay-messages",
        "rialto-to-millau",
        "--source-port=0",
        "--lane=zz000000",
    ]));
    assert_eq!(r.unwrap_err(), CliError::InvalidArgument(3));
    let r = RelayMessages::from_iter(args(&[
        "relay-messages",
        "rialto-to-millau",
        "--bogus-option=1",
    ]));
    assert_eq!(r.unwrap_err(), CliError::InvalidArgument(2));
    let r = RelayMessages::from_iter(args(&[
        "relay-messages",
        "rialto-to-millau",
        "--relayer-mode=greedy",
    ]));
    assert_eq!(r.unwrap_err(), CliError::InvalidArgument(2));
}

#[test]
fn connection_signing_and_metrics_options_resolve() {
    let cmd = RelayMessages::from_iter(args(&[
        "relay-messages",
        "millau-to-rialto",
        "--source-host=source.test",
        "--source-port=10944",
        "--source-signer=//Alice",
        "--source-signer-password=pass",
        "--source-transactions-mortality=64",
        "--target-signer=//Bob",
        "--target-secure",
        "--prometheus-port=9700",
    ]))
    .unwrap();
    assert_eq!(cmd.source.source_host, "source.test");
    assert_eq!(cmd.source.source_port, 10944);
    assert!(!cmd.source.source_secure);
    assert_eq!(cmd.source_sign.source_signer.as_deref(), Some("//Alice"));
    assert_eq!(cmd.source_sign.source_signer_password.as_deref(), Some("pass"));
    assert_eq!(cmd.source_sign.source_transactions_mortality, Some(64));
    assert_eq!(cmd.target.target_host, "127.0.0.1");
    assert_eq!(cmd.target.target_port, 9944);
    assert!(cmd.target.target_secure);
    assert_eq!(cmd.target_sign.target_signer.as_deref(), Some("//Bob"));
    assert_eq!(cmd.target_sign.target_signer_password, None);
    assert_eq!(cmd.target_sign.target_transactions_mortality, None);
    assert!(!cmd.prometheus_params.no_prometheus);
    assert_eq!(cmd.prometheus_params.prometheus_host, "127.0.0.1");
    assert_eq!(cmd.prometheus_params.prometheus_port, 9700);
}

#[test]
fn duplicate_options_are_rejected() {
    // An accepted line names each option at most once: a second occurrence
    // is an error at its position, so a supplied altruistic mode can never
    // be overridden by a later word.
    let r = RelayMessages::from_iter(args(&[
        "relay-messages",
        "rialto-to-millau",
        "--relayer-mode=altruistic",
        "--relayer-mode=rational",
    ]));
    assert_eq!(r.unwrap_err(), CliError::InvalidArgument(3));
    let r = RelayMessages::from_iter(args(&[
        "relay-messages",
        "millau-to-rialto",
        "--lane=00000001",
        "--lane=00000002",
    ]));
    assert_eq!(r.unwrap_err(), CliError::InvalidArgument(3));
    let r = RelayMessages::from_iter(args(&[
        "relay-messages",
        "millau-to-rialto",
        "--no-prometheus",
        "--no-prometheus",
    ]));
    assert_eq!(r.unwrap_err(), CliError::InvalidArgument(3));
    // The same option in both spellings is still the same option.
    let r = RelayMessages::from_iter(args(&[
        "relay-messages",
        "millau-to-rialto",
        "--lane=00000001",
        "--lane",
        "00000002",
    ]));
    assert_eq!(r.unwrap_err(), CliError::InvalidArgument(3));
}

#[test]
fn options_take_their_value_from_the_next_word_too() {
    let cmd = RelayMessages::from_iter(args(&[
        "relay-messages",
        "rialto-to-millau",
        "--lane",
        "00cafe01",
        "--relayer-mode",
        "Altruistic",
        "--source-port",
        "0",
        "--source-signer",
        "//Alice",
    ]))
    .unwrap();
    assert_eq!(cmd.lane.bytes(), [0x00, 0xca, 0xfe, 0x01]);
    assert_eq!(cmd.relayer_mode, RelayerMode::Altruistic);
    assert_eq!(cmd.source.source_port, 0);
    assert_eq!(cmd.source_sign.source_signer.as_deref(), Some("//Alice"));
    // A trailing option name without its value is an error at its position.
    let r = RelayMessages::from_iter(args(&["relay-messages", "rialto-to-millau", "--lane"]));
    assert_eq!(r.unwrap_err(), CliError::InvalidArgument(2));
    // A malformed value in the next word is reported at the option's
    // position.
    let r = RelayMessages::from_iter(args(&[
        "relay-messages",
        "rialto-to-millau",
        "--source-port",
        "x",
    ]));
    assert_eq!(r.unwrap_err(), CliError::InvalidArgument(2));
}

#[test]
fn successful_setup_hands_the_engine_the_assembled_bundle() {
    let cmd = RelayMessages::from_iter(args(&[
        "relay-messages",
        "rialto-to-millau",
        "--lane=deadbeef",
        "--relayer-mode=altruistic",
        "--no-prometheus",
    ]))
    .unwrap();
    let (mut run, action) = cmd.run();
    assert_eq!(action, RelayAction::ConnectSourceClient);
    assert_eq!(run.step(RelayEvent::Completed), RelayAction::DeriveSourceKeyPair);
    assert_eq!(run.step(RelayEvent::Completed), RelayAction::ComputeSourceMortality);
    assert_eq!(
        run.step(RelayEvent::MortalityComputed(Some(5))),
        RelayAction::ConnectTargetClient
    );
    assert_eq!(run.step(RelayEvent::Completed), RelayAction::DeriveTargetKeyPair);
    assert_eq!(run.step(RelayEvent::Completed), RelayAction::ComputeTargetMortality);
    let action = run.step(RelayEvent::MortalityComputed(None));
    match action {
        RelayAction::StartRelayLoop(bundle) => {
            assert_eq!(bundle.lane_id.bytes(), [0xde, 0xad, 0xbe, 0xef]);
            assert_eq!(bundle.source_transaction_mortality, Some(5));
            assert_eq!(bundle.target_transaction_mortality, None);
            assert_eq!(bundle.relay_strategy.relayer_mode, LoopRelayerMode::Altruistic);
            assert!(!bundle.metrics_params.enabled);
            assert_eq!(bundle.metrics_params.host, "127.0.0.1");
            assert_eq!(bundle.metrics_params.port, 9616);
            assert!(!bundle.source_to_target_headers_relay);
            assert!(!bundle.target_to_source_headers_relay);
        },
        other => panic!("expected the engine to be started, got {:?}", other),
    }
    assert_eq!(run.step(RelayEvent::LoopFinished), RelayAction::Finish);
    assert_eq!(run.stage, SetupStage::Done);
    assert_eq!(run.outcome, Some(Ok(())));
}

#[test]
fn first_failure_aborts_the_run_with_its_stage_and_message() {
    let cmd = RelayMessages::from_iter(args(&["relay-messages", "millau-to-rialto"])).unwrap();
    let (mut run, _) = cmd.run();
    let a = run.step(RelayEvent::StepFailed("node unreachable".to_string()));
    assert_eq!(a, RelayAction::Finish);
    assert_eq!(run.stage, SetupStage::Done);
    let err = run.outcome.clone().unwrap().unwrap_err();
    assert_eq!(err.kind, RelayErrorKind::Connection);
    assert_eq!(err.message, "node unreachable");

    let cmd = RelayMessages::from_iter(args(&["relay-messages", "millau-to-rialto"])).unwrap();
    let (mut run, _) = cmd.run();
    run.step(RelayEvent::Completed);
    run.step(RelayEvent::StepFailed("bad seed".to_string()));
    let err = run.outcome.clone().unwrap().unwrap_err();
    assert_eq!(err.kind, RelayErrorKind::Signing);
    assert_eq!(err.message, "bad seed");

    let cmd = RelayMessages::from_iter(args(&["relay-messages", "millau-to-rialto"])).unwrap();
    let (mut run, _) = cmd.run();
    run.step(RelayEvent::Completed);
    run.step(RelayEvent::Completed);
    run.step(RelayEvent::StepFailed("no metadata".to_string()));
    let err = run.outcome.clone().unwrap().unwrap_err();
    assert_eq!(err.kind, RelayErrorKind::Mortality);
}

#[test]
fn relay_loop_failure_is_wrapped_with_its_message_preserved() {
    let cmd = RelayMessages::from_iter(args(&["relay-messages", "millau-to-rialto"])).unwrap();
    let (mut run, _) = cmd.run();
    run.step(RelayEvent::Completed);
    run.step(RelayEvent::Completed);
    run.step(RelayEvent::MortalityComputed(None));
    run.step(RelayEvent::Completed);
    run.step(RelayEvent::Completed);
    let started = run.step(RelayEvent::MortalityComputed(None));
    assert!(matches!(started, RelayAction::StartRelayLoop(_)));
    run.step(RelayEvent::StepFailed("lane storage proof mismatch".to_string()));
    let err = run.outcome.clone().unwrap().unwrap_err();
    assert_eq!(err.kind, RelayErrorKind::RelayLoop);
    assert_eq!(err.message, "lane storage proof mismatch");
}

#[test]
fn capability_conversions_hold_on_each_implementation() {
    assert_eq!(MillauToRialtoCliBridge::id(), CliBridgeId::MillauToRialtoCliBridge);
    assert_eq!(RialtoToMillauCliBridge::id(), CliBridgeId::RialtoToMillauCliBridge);
    assert_eq!(
        MillauToRialtoParachainCliBridge::id(),
        CliBridgeId::MillauToRialtoParachainCliBridge
    );
    assert_eq!(
        RialtoParachainToMillauCliBridge::id(),
        CliBridgeId::RialtoParachainToMillauCliBridge
    );

    let key = PublicKey([7u8; 32]);
    assert_eq!(MillauToRialtoCliBridge::source_account_of(&key).0, [7u8; 32]);
    assert_eq!(RialtoParachainToMillauCliBridge::target_account_of(&key).0, [7u8; 32]);

    // A target-side balance converts towards Millau only while it fits
    // Millau's narrower balance width.
    assert_eq!(
        MillauToRialtoCliBridge::source_balance_from_target(u64::MAX as u128),
        Some(u64::MAX as u128)
    );
    assert_eq!(MillauToRialtoCliBridge::source_balance_from_target(u64::MAX as u128 + 1), None);
    assert_eq!(
        MillauToRialtoParachainCliBridge::source_balance_from_target(u64::MAX as u128 + 1),
        None
    );
    // The directions whose source carries full-width balances keep every
    // value.
    assert_eq!(
        RialtoToMillauCliBridge::source_balance_from_target(u128::MAX),
        Some(u128::MAX)
    );
    assert_eq!(
        RialtoParachainToMillauCliBridge::source_balance_from_target(u128::MAX),
        Some(u128::MAX)
    );

    let s = MillauToRialtoCliBridge::mix_strategy(LoopRelayerMode::Rational);
    assert_eq!(s.relayer_mode, LoopRelayerMode::Rational);
}

#[test]
fn relayer_mode_converts_one_to_one_into_the_loop_posture() {
    assert_eq!(RelayerMode::Altruistic.to_loop_mode(), LoopRelayerMode::Altruistic);
    assert_eq!(RelayerMode::Rational.to_loop_mode(), LoopRelayerMode::Rational);
    assert_eq!(RelayerMode::default(), RelayerMode::Rational);
}
