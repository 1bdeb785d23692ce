use clap::{App, Arg, ArgMatches};
use validator_config::merge::{
    config_text_from_args, merge_cli_args, DefaultArgs, MergedConfig,
};
use validator_config::reader::parse_config_str;
use validator_config::schema::ValidatorConfig;
use validator_config::template::default_config_template;
use validator_config::writer::render_config;
use validator_config::ConfigError;

fn cli_app() -> App<'static, 'static> {
    App::new("validator")
        .arg(Arg::with_name("config_file").long("config_file").takes_value(true))
        .arg(Arg::with_name("bind_address").long("bind_address").takes_value(true))
        .arg(
            Arg::with_name("entrypoint")
                .long("entrypoint")
                .takes_value(true)
                .multiple(true),
        )
        .arg(Arg::with_name("gossip_port").long("gossip_port").takes_value(true))
        .arg(Arg::with_name("gossip_host").long("gossip_host").takes_value(true))
        .arg(
            Arg::with_name("dynamic_port_range")
                .long("dynamic_port_range")
                .takes_value(true),
        )
        .arg(Arg::with_name("allow_private_addr").long("allow_private_addr"))
        .arg(Arg::with_name("ledger_path").long("ledger_path").takes_value(true))
        .arg(
            Arg::with_name("account_paths")
                .long("account_paths")
                .takes_value(true)
                .multiple(true),
        )
        .arg(
            Arg::with_name("limit_ledger_size")
                .long("limit_ledger_size")
                .takes_value(true),
        )
        .arg(Arg::with_name("rpc_port").long("rpc_port").takes_value(true))
        .arg(
            Arg::with_name("rpc_bind_address")
                .long("rpc_bind_address")
                .takes_value(true),
        )
        .arg(
            Arg::with_name("enable_rpc_transaction_history")
                .long("enable_rpc_transaction_history"),
        )
        .arg(
            Arg::with_name("enable_extended_tx_metadata_storage")
                .long("enable_extended_tx_metadata_storage"),
        )
        .arg(
            Arg::with_name("accounts_shrink_ratio")
                .long("accounts_shrink_ratio")
                .takes_value(true),
        )
        .arg(
            Arg::with_name("banking_trace_dir_byte_limit")
                .long("banking_trace_dir_byte_limit")
                .takes_value(true),
        )
        .arg(
            Arg::with_name("replay_forks_threads")
                .long("replay_forks_threads")
                .takes_value(true),
        )
        .arg(Arg::with_name("voting_disabled").long("voting_disabled"))
        .arg(Arg::with_name("dev_halt_at_slot").long("dev_halt_at_slot").takes_value(true))
        .arg(
            Arg::with_name("wait_for_supermajority")
                .long("wait_for_supermajority")
                .takes_value(true),
        )
        .arg(
            Arg::with_name("expected_genesis_hash")
                .long("expected_genesis_hash")
                .takes_value(true),
        )
        .arg(
            Arg::with_name("expected_bank_hash")
                .long("expected_bank_hash")
                .takes_value(true),
        )
        .arg(
            Arg::with_name("expected_shred_version")
                .long("expected_shred_version")
                .takes_value(true),
        )
        .arg(Arg::with_name("no_voting").long("no_voting"))
        .arg(Arg::with_name("identity").long("identity").takes_value(true))
        .arg(Arg::with_name("vote_account").long("vote_account").takes_value(true))
        .arg(
            Arg::with_name("authorized_voter_keypairs")
                .long("authorized_voter_keypairs")
                .takes_value(true)
                .multiple(true),
        )
        .arg(
            Arg::with_name("log_messages_bytes_limit")
                .long("log_messages_bytes_limit")
                .takes_value(true),
        )
        .arg(
            Arg::with_name("skip_startup_ledger_verification")
                .long("skip_startup_ledger_verification"),
        )
}

fn matches_from(args: Vec<&str>) -> ArgMatches<'static> {
    let mut full = vec!["validator"];
    full.extend(args);
    cli_app().get_matches_from_safe(full).expect("arguments should parse")
}

fn defaults() -> DefaultArgs {
    DefaultArgs {
        bind_address: "0.0.0.0".to_string(),
        ledger_path: "ledger".to_string(),
        rpc_threads: "8".to_string(),
        banking_trace_dir_byte_limit: "15032385536".to_string(),
    }
}

#[test]
fn default_schema_is_all_absent() {
    let c = ValidatorConfig::default();
    assert_eq!(c.bind_address, None);
    assert_eq!(c.entrypoint, None);
    assert_eq!(c.gossip_port, None);
    assert_eq!(c.accounts_shrink_ratio, None);
    assert_eq!(c.debug_keys, None);
    assert_eq!(c, ValidatorConfig::default());
}

#[test]
fn parse_reads_each_value_form() {
    let text = "bind_address = \"127.0.0.1\"\n\
                gossip_port = 8001\n\
                allow_private_addr = true\n\
                voting_disabled = false\n\
                entrypoint = [\"a.example:8001\", \"b.example:8001\"]\n\
                known_validators = []\n\
                accounts_shrink_ratio = 0.8\n\
                limit_ledger_size = 50000000\n";
    let c = parse_config_str(text).expect("well-formed text should parse");
    assert_eq!(c.bind_address.as_deref(), Some("127.0.0.1"));
    assert_eq!(c.gossip_port, Some(8001));
    assert_eq!(c.allow_private_addr, Some(true));
    assert_eq!(c.voting_disabled, Some(false));
    assert_eq!(
        c.entrypoint,
        Some(vec!["a.example:8001".to_string(), "b.example:8001".to_string()])
    );
    assert_eq!(c.known_validators, Some(vec![]));
    assert_eq!(c.accounts_shrink_ratio.as_deref(), Some("0.8"));
    assert_eq!(c.limit_ledger_size, Some(50000000));
    assert_eq!(c.gossip_host, None);
}

#[test]
fn parse_skips_comments_blanks_and_unknown_keys() {
    let text = "# a comment\n\n   \nsome_future_key = 7\ngossip_port = 8001\n";
    let c = parse_config_str(text).expect("unknown keys are ignored");
    assert_eq!(c.gossip_port, Some(8001));
}

#[test]
fn parse_rejects_wrong_type_for_known_key() {
    assert_eq!(parse_config_str("gossip_port = \"abc\"\n"), Err(ConfigError::Parse));
    assert_eq!(parse_config_str("bind_address = 8001\n"), Err(ConfigError::Parse));
    assert_eq!(parse_config_str("allow_private_addr = 1\n"), Err(ConfigError::Parse));
    assert_eq!(parse_config_str("entrypoint = \"one\"\n"), Err(ConfigError::Parse));
}

#[test]
fn parse_rejects_malformed_lines() {
    assert_eq!(parse_config_str("gossip_port 8001\n"), Err(ConfigError::Parse));
    assert_eq!(parse_config_str("= 5\n"), Err(ConfigError::Parse));
    assert_eq!(parse_config_str("gossip_port = \n"), Err(ConfigError::Parse));
    assert_eq!(parse_config_str("gossip_port = 8001 extra\n"), Err(ConfigError::Parse));
    assert_eq!(parse_config_str("bind_address = \"unterminated\n"), Err(ConfigError::Parse));
}

#[test]
fn parse_rejects_out_of_range_numbers() {
    assert_eq!(parse_config_str("gossip_port = 70000\n"), Err(ConfigError::Parse));
    assert_eq!(
        parse_config_str("limit_ledger_size = 99999999999999999999999\n"),
        Err(ConfigError::Parse)
    );
    assert_eq!(parse_config_str("gossip_port = 1.5\n"), Err(ConfigError::Parse));
}

#[test]
fn save_load_round_trip_keeps_every_field() {
    let mut c = ValidatorConfig::default();
    c.bind_address = Some("0.0.0.0".to_string());
    c.entrypoint = Some(vec!["e1:8001".to_string(), "e2:8001".to_string()]);
    c.gossip_port = Some(8001);
    c.dynamic_port_range = Some("8002-10000".to_string());
    c.allow_private_addr = Some(false);
    c.ledger_path = Some("./ledger".to_string());
    c.accounts_path = Some(vec!["./accounts".to_string()]);
    c.limit_ledger_size = Some(50_000_000);
    c.rpc_port = Some(8899);
    c.rpc_threads = Some(4);
    c.accounts_shrink_ratio = Some("0.8".to_string());
    c.max_snapshot_download_abort = Some(5);
    c.expected_shred_version = Some(0);
    c.no_voting = Some(true);
    c.known_validators = Some(vec![]);
    c.debug_keys = Some(vec!["k".to_string()]);
    let text = render_config(&c).expect("renderable schema");
    let back = parse_config_str(&text).expect("rendered text parses");
    assert_eq!(back, c);
}

#[test]
fn render_refuses_strings_the_format_cannot_carry() {
    let mut c = ValidatorConfig::default();
    c.bind_address = Some("has \" quote".to_string());
    assert_eq!(render_config(&c), Err(ConfigError::Serialize));
    let mut c2 = ValidatorConfig::default();
    c2.gossip_host = Some("two\nlines".to_string());
    assert_eq!(render_config(&c2), Err(ConfigError::Serialize));
}

#[test]
fn template_loads_as_all_absent() {
    let text = default_config_template();
    let c = parse_config_str(&text).expect("template must load");
    assert_eq!(c, ValidatorConfig::default());
}

#[test]
fn template_mentions_every_field() {
    let text = default_config_template();
    let fields = [
        "bind_address", "entrypoint", "gossip_port", "gossip_host", "dynamic_port_range",
        "allow_private_addr", "ledger_path", "accounts_path", "account_snapshot_paths",
        "limit_ledger_size", "rpc_port", "rpc_bind_address", "enable_rpc_transaction_history",
        "enable_extended_tx_metadata_storage", "rpc_threads", "rpc_blocking_threads",
        "rpc_max_request_body_size", "rpc_pubsub_max_active_subscriptions",
        "rpc_pubsub_queue_capacity_items", "rpc_pubsub_queue_capacity_bytes",
        "accounts_shrink_ratio", "accounts_shrink_optimize_total_space",
        "banking_trace_dir_byte_limit", "tpu_connection_pool_size",
        "tpu_max_connections_per_peer", "tpu_max_connections_per_ipaddr_per_minute",
        "tpu_max_staked_connections", "tpu_max_unstaked_connections", "tpu_max_streams_per_ms",
        "snapshot_version", "snapshot_archive_format", "full_snapshot_archive_interval_slots",
        "incremental_snapshot_archive_interval_slots", "maximum_full_snapshot_archives_to_retain",
        "maximum_incremental_snapshot_archives_to_retain", "min_snapshot_download_speed",
        "max_snapshot_download_abort", "replay_forks_threads", "replay_transactions_threads",
        "tvu_shred_sigverify_threads", "voting_disabled", "dev_halt_at_slot",
        "wait_for_supermajority", "expected_genesis_hash", "expected_bank_hash",
        "expected_shred_version", "no_voting", "no_check_vote_account", "identity",
        "vote_account", "authorized_voter_keypairs", "known_validators", "only_known_rpc",
        "log_messages_bytes_limit", "skip_startup_ledger_verification", "skip_poh_verify",
        "debug_keys",
    ];
    for f in fields {
        assert!(text.contains(f), "template must mention {}", f);
    }
}

#[test]
fn overlay_supplied_flag_wins_over_file() {
    let mut c = ValidatorConfig::default();
    c.bind_address = Some("from-file".to_string());
    c.gossip_host = Some("host-from-file".to_string());
    let m = matches_from(vec!["--bind_address", "from-cli"]);
    merge_cli_args(&mut c, &m);
    assert_eq!(c.bind_address.as_deref(), Some("from-cli"));
    assert_eq!(c.gossip_host.as_deref(), Some("host-from-file"));
}

#[test]
fn overlay_absent_flag_leaves_field_untouched() {
    let mut c = ValidatorConfig::default();
    c.gossip_port = Some(9000);
    let m = matches_from(vec![]);
    merge_cli_args(&mut c, &m);
    assert_eq!(c.gossip_port, Some(9000));
    assert_eq!(c.bind_address, None);
}

#[test]
fn boolean_true_in_file_survives_overlay() {
    let mut c = ValidatorConfig::default();
    c.voting_disabled = Some(true);
    c.allow_private_addr = Some(true);
    let m = matches_from(vec!["--no_voting"]);
    merge_cli_args(&mut c, &m);
    assert_eq!(c.voting_disabled, Some(true));
    assert_eq!(c.allow_private_addr, Some(true));
    assert_eq!(c.no_voting, Some(true));
}

#[test]
fn malformed_numeric_cli_value_is_swallowed() {
    let mut c = ValidatorConfig::default();
    c.gossip_port = Some(8001);
    let m = matches_from(vec!["--gossip_port", "abc"]);
    merge_cli_args(&mut c, &m);
    assert_eq!(c.gossip_port, Some(8001));

    let mut c2 = ValidatorConfig::default();
    let m2 = matches_from(vec!["--gossip_port", "abc"]);
    merge_cli_args(&mut c2, &m2);
    assert_eq!(c2.gossip_port, None);

    let mut c3 = ValidatorConfig::default();
    c3.gossip_port = Some(8001);
    let m3 = matches_from(vec!["--gossip_port", "70000"]);
    merge_cli_args(&mut c3, &m3);
    assert_eq!(c3.gossip_port, Some(8001));
}

#[test]
fn list_flag_replaces_whole_list() {
    let mut c = ValidatorConfig::default();
    c.entrypoint = Some(vec!["old:1".to_string()]);
    let m = matches_from(vec!["--entrypoint", "new1:1", "--entrypoint", "new2:2"]);
    merge_cli_args(&mut c, &m);
    assert_eq!(c.entrypoint, Some(vec!["new1:1".to_string(), "new2:2".to_string()]));
}

#[test]
fn numeric_and_decimal_flags_overlay() {
    let mut c = ValidatorConfig::default();
    let m = matches_from(vec![
        "--gossip_port", "8001",
        "--limit_ledger_size", "123456",
        "--replay_forks_threads", "3",
        "--accounts_shrink_ratio", "0.8",
        "--expected_shred_version", "17",
    ]);
    merge_cli_args(&mut c, &m);
    assert_eq!(c.gossip_port, Some(8001));
    assert_eq!(c.limit_ledger_size, Some(123456));
    assert_eq!(c.replay_forks_threads, Some(3));
    assert_eq!(c.accounts_shrink_ratio.as_deref(), Some("0.8"));
    assert_eq!(c.expected_shred_version, Some(17));
}

#[test]
fn merged_config_layers_file_and_cli() {
    let m = matches_from(vec!["--bind_address", "9.9.9.9"]);
    let text = "bind_address = \"1.1.1.1\"\ngossip_port = 8001\n";
    let mc = MergedConfig::new(&m, &defaults(), Some(text)).expect("builds");
    assert_eq!(mc.validator_config.bind_address.as_deref(), Some("9.9.9.9"));
    assert_eq!(mc.validator_config.gossip_port, Some(8001));
    assert_eq!(mc.get_bind_address(), "9.9.9.9");
}

#[test]
fn merged_config_rejects_bad_file_text() {
    let m = matches_from(vec![]);
    let r = MergedConfig::new(&m, &defaults(), Some("gossip_port = \"oops\"\n"));
    assert!(r.is_err());
}

#[test]
fn accessors_fall_back_to_defaults_bundle() {
    let m = matches_from(vec![]);
    let mc = MergedConfig::new(&m, &defaults(), None).expect("builds");
    assert_eq!(mc.get_bind_address(), "0.0.0.0");
    assert_eq!(mc.get_ledger_path(), "ledger");
    assert_eq!(mc.get_rpc_threads(), 8);
    assert_eq!(mc.get_banking_trace_dir_byte_limit(), 15032385536);
}

#[test]
fn rpc_threads_falls_back_to_constant_on_bad_default() {
    let m = matches_from(vec![]);
    let mut d = defaults();
    d.rpc_threads = "not_a_number".to_string();
    d.banking_trace_dir_byte_limit = "also bad".to_string();
    let mc = MergedConfig::new(&m, &d, None).expect("builds");
    assert_eq!(mc.get_rpc_threads(), 4);
    assert_eq!(mc.get_banking_trace_dir_byte_limit(), 1000000000);
}

#[test]
fn schema_value_beats_defaults_bundle() {
    let m = matches_from(vec![]);
    let text = "rpc_threads = 2\nbanking_trace_dir_byte_limit = 77\n";
    let mc = MergedConfig::new(&m, &defaults(), Some(text)).expect("builds");
    assert_eq!(mc.get_rpc_threads(), 2);
    assert_eq!(mc.get_banking_trace_dir_byte_limit(), 77);
}

#[test]
fn config_text_from_args_round_trips() {
    let m = matches_from(vec!["--gossip_port", "8001", "--bind_address", "1.2.3.4"]);
    let text = config_text_from_args(&m).expect("renderable");
    assert!(text.contains("gossip_port = 8001"));
    assert!(text.contains("bind_address = \"1.2.3.4\""));
    let back = parse_config_str(&text).expect("parses");
    assert_eq!(back.gossip_port, Some(8001));
    assert_eq!(back.bind_address.as_deref(), Some("1.2.3.4"));
}
