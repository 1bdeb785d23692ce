//! Overlaying the parsed command line on a schema, and the merged
//! configuration with its defaults bundle.
//!
//! Precedence: a flag the CLI explicitly supplies overwrites the schema
//! field; every other field keeps what the file (or nothing) gave it.
//! Accessors then fall back to the defaults bundle, and past that to a
//! built-in constant.
use vstd::prelude::*;

use crate::ConfigError;
use crate::cli::{arg_present, arg_value, arg_values, cli_args, cli_present};
use crate::num::{parse_u64_str, spec_parse_u64};
use crate::reader::{parse_config_str, spec_parse};
use crate::schema::{all_absent, is_num_token, wf_config, ConfigV, ValidatorConfig};
use crate::value::is_num_token_str;
use crate::writer::{render_config, spec_render};

verus! {

/// Spec-level image of the defaults bundle.
#[verifier::ext_equal]
pub ghost struct DefaultArgsV {
    pub bind_address: Seq<char>,
    pub ledger_path: Seq<char>,
    pub rpc_threads: Seq<char>,
    pub banking_trace_dir_byte_limit: Seq<char>,
}

/// The externally supplied fallback values, one string per defaulted field,
/// as the surrounding CLI system declares them.
#[derive(Debug)]
pub struct DefaultArgs {
    pub bind_address: String,
    pub ledger_path: String,
    pub rpc_threads: String,
    pub banking_trace_dir_byte_limit: String,
}

impl View for DefaultArgs {
    type V = DefaultArgsV;

    open spec fn view(&self) -> DefaultArgsV {
        DefaultArgsV {
            bind_address: self.bind_address@,
            ledger_path: self.ledger_path@,
            rpc_threads: self.rpc_threads@,
            banking_trace_dir_byte_limit: self.banking_trace_dir_byte_limit@,
        }
    }
}

impl DefaultArgs {
    /// A copy with the same contents.
    pub fn duplicate(&self) -> (r: DefaultArgs)
        ensures
            r@ == self@,
    {
        let r = DefaultArgs {
            bind_address: self.bind_address.clone(),
            ledger_path: self.ledger_path.clone(),
            rpc_threads: self.rpc_threads.clone(),
            banking_trace_dir_byte_limit: self.banking_trace_dir_byte_limit.clone(),
        };
        proof {
            assert(r@ =~= self@);
        }
        r
    }
}

/// The flag was supplied and carries at least one value.
pub open spec fn has_val(
    present: Set<Seq<char>>,
    args: Map<Seq<char>, Seq<Seq<char>>>,
    k: Seq<char>,
) -> bool {
    present.contains(k) && args.dom().contains(k) && args[k].len() > 0
}

pub open spec fn first_val(args: Map<Seq<char>, Seq<Seq<char>>>, k: Seq<char>) -> Seq<char> {
    args[k][0]
}

pub open spec fn ov_merge_str(
    cur: Option<Seq<char>>,
    present: Set<Seq<char>>,
    args: Map<Seq<char>, Seq<Seq<char>>>,
    k: Seq<char>,
) -> Option<Seq<char>> {
    if has_val(present, args, k) {
        Some(first_val(args, k))
    } else {
        cur
    }
}

/// A supplied list flag replaces the whole list; there is no append.
pub open spec fn ov_merge_list(
    cur: Option<Seq<Seq<char>>>,
    present: Set<Seq<char>>,
    args: Map<Seq<char>, Seq<Seq<char>>>,
    k: Seq<char>,
) -> Option<Seq<Seq<char>>> {
    if present.contains(k) && args.dom().contains(k) {
        Some(args[k])
    } else {
        cur
    }
}

/// Presence-as-true: a boolean flag's mere appearance sets the field to
/// true; nothing on the command line can force it false.
pub open spec fn ov_merge_bool(
    cur: Option<bool>,
    present: Set<Seq<char>>,
    k: Seq<char>,
) -> Option<bool> {
    if present.contains(k) {
        Some(true)
    } else {
        cur
    }
}

/// A numeric flag that does not read as a number of the field's type leaves
/// the field exactly as it was; the failure is swallowed, not surfaced.
pub open spec fn ov_merge_u64(
    cur: Option<u64>,
    present: Set<Seq<char>>,
    args: Map<Seq<char>, Seq<Seq<char>>>,
    k: Seq<char>,
) -> Option<u64> {
    if has_val(present, args, k) {
        match spec_parse_u64(first_val(args, k)) {
            Some(n) => Some(n),
            None => cur,
        }
    } else {
        cur
    }
}

pub open spec fn ov_merge_u16(
    cur: Option<u16>,
    present: Set<Seq<char>>,
    args: Map<Seq<char>, Seq<Seq<char>>>,
    k: Seq<char>,
) -> Option<u16> {
    if has_val(present, args, k) {
        match spec_parse_u64(first_val(args, k)) {
            Some(n) => if n <= u16::MAX as u64 {
                Some(n as u16)
            } else {
                cur
            },
            None => cur,
        }
    } else {
        cur
    }
}

pub open spec fn ov_merge_usize(
    cur: Option<usize>,
    present: Set<Seq<char>>,
    args: Map<Seq<char>, Seq<Seq<char>>>,
    k: Seq<char>,
) -> Option<usize> {
    if has_val(present, args, k) {
        match spec_parse_u64(first_val(args, k)) {
            Some(n) => if n <= usize::MAX as u64 {
                Some(n as usize)
            } else {
                cur
            },
            None => cur,
        }
    } else {
        cur
    }
}

/// The decimal-text field accepts any numeric token and keeps its text.
pub open spec fn ov_merge_dec(
    cur: Option<Seq<char>>,
    present: Set<Seq<char>>,
    args: Map<Seq<char>, Seq<Seq<char>>>,
    k: Seq<char>,
) -> Option<Seq<char>> {
    if has_val(present, args, k) && is_num_token(first_val(args, k)) {
        Some(first_val(args, k))
    } else {
        cur
    }
}

pub open spec fn spec_merge_network(
    c: ConfigV,
    present: Set<Seq<char>>,
    args: Map<Seq<char>, Seq<Seq<char>>>,
) -> ConfigV {
    ConfigV {
        bind_address: ov_merge_str(c.bind_address, present, args, "bind_address"@),
        entrypoint: ov_merge_list(c.entrypoint, present, args, "entrypoint"@),
        gossip_port: ov_merge_u16(c.gossip_port, present, args, "gossip_port"@),
        gossip_host: ov_merge_str(c.gossip_host, present, args, "gossip_host"@),
        dynamic_port_range: ov_merge_str(c.dynamic_port_range, present, args, "dynamic_port_range"@),
        allow_private_addr: ov_merge_bool(c.allow_private_addr, present, "allow_private_addr"@),
        ..c
    }
}

pub open spec fn spec_merge_ledger(
    c: ConfigV,
    present: Set<Seq<char>>,
    args: Map<Seq<char>, Seq<Seq<char>>>,
) -> ConfigV {
    ConfigV {
        ledger_path: ov_merge_str(c.ledger_path, present, args, "ledger_path"@),
        accounts_path: ov_merge_list(c.accounts_path, present, args, "account_paths"@),
        limit_ledger_size: ov_merge_u64(c.limit_ledger_size, present, args, "limit_ledger_size"@),
        ..c
    }
}

pub open spec fn spec_merge_rpc(
    c: ConfigV,
    present: Set<Seq<char>>,
    args: Map<Seq<char>, Seq<Seq<char>>>,
) -> ConfigV {
    ConfigV {
        rpc_port: ov_merge_u16(c.rpc_port, present, args, "rpc_port"@),
        rpc_bind_address: ov_merge_str(c.rpc_bind_address, present, args, "rpc_bind_address"@),
        enable_rpc_transaction_history: ov_merge_bool(c.enable_rpc_transaction_history, present, "enable_rpc_transaction_history"@),
        enable_extended_tx_metadata_storage: ov_merge_bool(c.enable_extended_tx_metadata_storage, present, "enable_extended_tx_metadata_storage"@),
        ..c
    }
}

pub open spec fn spec_merge_perf(
    c: ConfigV,
    present: Set<Seq<char>>,
    args: Map<Seq<char>, Seq<Seq<char>>>,
) -> ConfigV {
    ConfigV {
        accounts_shrink_ratio: ov_merge_dec(c.accounts_shrink_ratio, present, args, "accounts_shrink_ratio"@),
        banking_trace_dir_byte_limit: ov_merge_u64(c.banking_trace_dir_byte_limit, present, args, "banking_trace_dir_byte_limit"@),
        ..c
    }
}

pub open spec fn spec_merge_threads(
    c: ConfigV,
    present: Set<Seq<char>>,
    args: Map<Seq<char>, Seq<Seq<char>>>,
) -> ConfigV {
    ConfigV {
        replay_forks_threads: ov_merge_usize(c.replay_forks_threads, present, args, "replay_forks_threads"@),
        ..c
    }
}

pub open spec fn spec_merge_behavior(
    c: ConfigV,
    present: Set<Seq<char>>,
    args: Map<Seq<char>, Seq<Seq<char>>>,
) -> ConfigV {
    ConfigV {
        voting_disabled: ov_merge_bool(c.voting_disabled, present, "voting_disabled"@),
        dev_halt_at_slot: ov_merge_u64(c.dev_halt_at_slot, present, args, "dev_halt_at_slot"@),
        wait_for_supermajority: ov_merge_u64(c.wait_for_supermajority, present, args, "wait_for_supermajority"@),
        expected_genesis_hash: ov_merge_str(c.expected_genesis_hash, present, args, "expected_genesis_hash"@),
        expected_bank_hash: ov_merge_str(c.expected_bank_hash, present, args, "expected_bank_hash"@),
        expected_shred_version: ov_merge_u16(c.expected_shred_version, present, args, "expected_shred_version"@),
        no_voting: ov_merge_bool(c.no_voting, present, "no_voting"@),
        ..c
    }
}

pub open spec fn spec_merge_identity(
    c: ConfigV,
    present: Set<Seq<char>>,
    args: Map<Seq<char>, Seq<Seq<char>>>,
) -> ConfigV {
    ConfigV {
        identity: ov_merge_str(c.identity, present, args, "identity"@),
        vote_account: ov_merge_str(c.vote_account, present, args, "vote_account"@),
        authorized_voter_keypairs: ov_merge_list(c.authorized_voter_keypairs, present, args, "authorized_voter_keypairs"@),
        ..c
    }
}

pub open spec fn spec_merge_debug(
    c: ConfigV,
    present: Set<Seq<char>>,
    args: Map<Seq<char>, Seq<Seq<char>>>,
) -> ConfigV {
    ConfigV {
        log_messages_bytes_limit: ov_merge_usize(c.log_messages_bytes_limit, present, args, "log_messages_bytes_limit"@),
        skip_startup_ledger_verification: ov_merge_bool(c.skip_startup_ledger_verification, present, "skip_startup_ledger_verification"@),
        ..c
    }
}

/// The whole overlay: every flag the CLI supplies lands on its field, and
/// every other field keeps its prior value.
pub open spec fn spec_merge(
    c: ConfigV,
    present: Set<Seq<char>>,
    args: Map<Seq<char>, Seq<Seq<char>>>,
) -> ConfigV {
    let c1 = spec_merge_network(c, present, args);
    let c2 = spec_merge_ledger(c1, present, args);
    let c3 = spec_merge_rpc(c2, present, args);
    let c4 = spec_merge_perf(c3, present, args);
    let c5 = spec_merge_threads(c4, present, args);
    let c6 = spec_merge_behavior(c5, present, args);
    let c7 = spec_merge_identity(c6, present, args);
    let c8 = spec_merge_debug(c7, present, args);
    c8
}

fn merge_network_x(config: &mut ValidatorConfig, matches: &clap::ArgMatches)
    ensures
        final(config)@ == spec_merge_network(old(config)@, cli_present(*matches), cli_args(*matches)),
{
    if arg_present(matches, "bind_address") {
        if let Some(s) = arg_value(matches, "bind_address") {
            config.bind_address = Some(s);
        }
    }
    if arg_present(matches, "entrypoint") {
        if let Some(vs) = arg_values(matches, "entrypoint") {
            config.entrypoint = Some(vs);
        }
    }
    if arg_present(matches, "gossip_port") {
        if let Some(s) = arg_value(matches, "gossip_port") {
            if let Some(n) = parse_u64_str(s.as_str()) {
                if n <= 65535 {
                    config.gossip_port = Some(n as u16);
                }
            }
        }
    }
    if arg_present(matches, "gossip_host") {
        if let Some(s) = arg_value(matches, "gossip_host") {
            config.gossip_host = Some(s);
        }
    }
    if arg_present(matches, "dynamic_port_range") {
        if let Some(s) = arg_value(matches, "dynamic_port_range") {
            config.dynamic_port_range = Some(s);
        }
    }
    if arg_present(matches, "allow_private_addr") {
        config.allow_private_addr = Some(true);
    }
    proof {
        assert(config@ =~= spec_merge_network(old(config)@, cli_present(*matches), cli_args(*matches)));
    }
}

fn merge_ledger_x(config: &mut ValidatorConfig, matches: &clap::ArgMatches)
    ensures
        final(config)@ == spec_merge_ledger(old(config)@, cli_present(*matches), cli_args(*matches)),
{
    if arg_present(matches, "ledger_path") {
        if let Some(s) = arg_value(matches, "ledger_path") {
            config.ledger_path = Some(s);
        }
    }
    if arg_present(matches, "account_paths") {
        if let Some(vs) = arg_values(matches, "account_paths") {
            config.accounts_path = Some(vs);
        }
    }
    if arg_present(matches, "limit_ledger_size") {
        if let Some(s) = arg_value(matches, "limit_ledger_size") {
            if let Some(n) = parse_u64_str(s.as_str()) {
                config.limit_ledger_size = Some(n);
            }
        }
    }
    proof {
        assert(config@ =~= spec_merge_ledger(old(config)@, cli_present(*matches), cli_args(*matches)));
    }
}

fn merge_rpc_x(config: &mut ValidatorConfig, matches: &clap::ArgMatches)
    ensures
        final(config)@ == spec_merge_rpc(old(config)@, cli_present(*matches), cli_args(*matches)),
{
    if arg_present(matches, "rpc_port") {
        if let Some(s) = arg_value(matches, "rpc_port") {
            if let Some(n) = parse_u64_str(s.as_str()) {
                if n <= 65535 {
                    config.rpc_port = Some(n as u16);
                }
            }
        }
    }
    if arg_present(matches, "rpc_bind_address") {
        if let Some(s) = arg_value(matches, "rpc_bind_address") {
            config.rpc_bind_address = Some(s);
        }
    }
    if arg_present(matches, "enable_rpc_transaction_history") {
        config.enable_rpc_transaction_history = Some(true);
    }
    if arg_present(matches, "enable_extended_tx_metadata_storage") {
        config.enable_extended_tx_metadata_storage = Some(true);
    }
    proof {
        assert(config@ =~= spec_merge_rpc(old(config)@, cli_present(*matches), cli_args(*matches)));
    }
}

fn merge_perf_x(config: &mut ValidatorConfig, matches: &clap::ArgMatches)
    ensures
        final(config)@ == spec_merge_perf(old(config)@, cli_present(*matches), cli_args(*matches)),
{
    if arg_present(matches, "accounts_shrink_ratio") {
        if let Some(s) = arg_value(matches, "accounts_shrink_ratio") {
            if is_num_token_str(s.as_str()) {
                config.accounts_shrink_ratio = Some(s);
            }
        }
    }
    if arg_present(matches, "banking_trace_dir_byte_limit") {
        if let Some(s) = arg_value(matches, "banking_trace_dir_byte_limit") {
            if let Some(n) = parse_u64_str(s.as_str()) {
                config.banking_trace_dir_byte_limit = Some(n);
            }
        }
    }
    proof {
        assert(config@ =~= spec_merge_perf(old(config)@, cli_present(*matches), cli_args(*matches)));
    }
}

fn merge_threads_x(config: &mut ValidatorConfig, matches: &clap::ArgMatches)
    ensures
        final(config)@ == spec_merge_threads(old(config)@, cli_present(*matches), cli_args(*matches)),
{
    if arg_present(matches, "replay_forks_threads") {
        if let Some(s) = arg_value(matches, "replay_forks_threads") {
            if let Some(n) = parse_u64_str(s.as_str()) {
                if n <= usize::MAX as u64 {
                    config.replay_forks_threads = Some(n as usize);
                }
            }
        }
    }
    proof {
        assert(config@ =~= spec_merge_threads(old(config)@, cli_present(*matches), cli_args(*matches)));
    }
}

fn merge_behavior_x(config: &mut ValidatorConfig, matches: &clap::ArgMatches)
    ensures
        final(config)@ == spec_merge_behavior(old(config)@, cli_present(*matches), cli_args(*matches)),
{
    if arg_present(matches, "voting_disabled") {
        config.voting_disabled = Some(true);
    }
    if arg_present(matches, "dev_halt_at_slot") {
        if let Some(s) = arg_value(matches, "dev_halt_at_slot") {
            if let Some(n) = parse_u64_str(s.as_str()) {
                config.dev_halt_at_slot = Some(n);
            }
        }
    }
    if arg_present(matches, "wait_for_supermajority") {
        if let Some(s) = arg_value(matches, "wait_for_supermajority") {
            if let Some(n) = parse_u64_str(s.as_str()) {
                config.wait_for_supermajority = Some(n);
            }
        }
    }
    if arg_present(matches, "expected_genesis_hash") {
        if let Some(s) = arg_value(matches, "expected_genesis_hash") {
            config.expected_genesis_hash = Some(s);
        }
    }
    if arg_present(matches, "expected_bank_hash") {
        if let Some(s) = arg_value(matches, "expected_bank_hash") {
            config.expected_bank_hash = Some(s);
        }
    }
    if arg_present(matches, "expected_shred_version") {
        if let Some(s) = arg_value(matches, "expected_shred_version") {
            if let Some(n) = parse_u64_str(s.as_str()) {
                if n <= 65535 {
                    config.expected_shred_version = Some(n as u16);
                }
            }
        }
    }
    if arg_present(matches, "no_voting") {
        config.no_voting = Some(true);
    }
    proof {
        assert(config@ =~= spec_merge_behavior(old(config)@, cli_present(*matches), cli_args(*matches)));
    }
}

fn merge_identity_x(config: &mut ValidatorConfig, matches: &clap::ArgMatches)
    ensures
        final(config)@ == spec_merge_identity(old(config)@, cli_present(*matches), cli_args(*matches)),
{
    if arg_present(matches, "identity") {
        if let Some(s) = arg_value(matches, "identity") {
            config.identity = Some(s);
        }
    }
    if arg_present(matches, "vote_account") {
        if let Some(s) = arg_value(matches, "vote_account") {
            config.vote_account = Some(s);
        }
    }
    if arg_present(matches, "authorized_voter_keypairs") {
        if let Some(vs) = arg_values(matches, "authorized_voter_keypairs") {
            config.authorized_voter_keypairs = Some(vs);
        }
    }
    proof {
        assert(config@ =~= spec_merge_identity(old(config)@, cli_present(*matches), cli_args(*matches)));
    }
}

fn merge_debug_x(config: &mut ValidatorConfig, matches: &clap::ArgMatches)
    ensures
        final(config)@ == spec_merge_debug(old(config)@, cli_present(*matches), cli_args(*matches)),
{
    if arg_present(matches, "log_messages_bytes_limit") {
        if let Some(s) = arg_value(matches, "log_messages_bytes_limit") {
            if let Some(n) = parse_u64_str(s.as_str()) {
                if n <= usize::MAX as u64 {
                    config.log_messages_bytes_limit = Some(n as usize);
                }
            }
        }
    }
    if arg_present(matches, "skip_startup_ledger_verification") {
        config.skip_startup_ledger_verification = Some(true);
    }
    proof {
        assert(config@ =~= spec_merge_debug(old(config)@, cli_present(*matches), cli_args(*matches)));
    }
}

/// Overlay the parsed command line onto a schema; CLI flags take
/// precedence, untouched fields keep their prior values.
pub fn merge_cli_args(config: &mut ValidatorConfig, matches: &clap::ArgMatches)
    ensures
        final(config)@ == spec_merge(old(config)@, cli_present(*matches), cli_args(*matches)),
{
    merge_network_x(config, matches);
    merge_ledger_x(config, matches);
    merge_rpc_x(config, matches);
    merge_perf_x(config, matches);
    merge_threads_x(config, matches);
    merge_behavior_x(config, matches);
    merge_identity_x(config, matches);
    merge_debug_x(config, matches);
}

/// The schema value when set, else the defaults-bundle string read as a
/// thread count, else 4.
pub open spec fn spec_rpc_threads(c: ConfigV, d: DefaultArgsV) -> usize {
    match c.rpc_threads {
        Some(n) => n,
        None => match spec_parse_u64(d.rpc_threads) {
            Some(p) => if p <= usize::MAX as u64 {
                p as usize
            } else {
                4
            },
            None => 4,
        },
    }
}

/// The schema value when set, else the defaults-bundle string read as a
/// byte count, else 1000000000.
pub open spec fn spec_banking_trace_limit(c: ConfigV, d: DefaultArgsV) -> u64 {
    match c.banking_trace_dir_byte_limit {
        Some(n) => n,
        None => match spec_parse_u64(d.banking_trace_dir_byte_limit) {
            Some(p) => p,
            None => 1000000000,
        },
    }
}

/// The merged configuration: the overlaid schema plus the defaults bundle.
/// Built once at startup and then only read.
pub struct MergedConfig {
    pub validator_config: ValidatorConfig,
    pub default_args: DefaultArgs,
}

impl MergedConfig {
    /// Build the merged configuration: the given file text (when a file was
    /// named on the command line) read into a schema, the command line
    /// overlaid, and the defaults bundle kept beside it.  A bad file refuses
    /// construction; nothing partial escapes.
    pub fn new(
        matches: &clap::ArgMatches,
        default_args: &DefaultArgs,
        config_text: Option<&str>,
    ) -> (r: Result<MergedConfig, ConfigError>)
        ensures
            r matches Ok(mc) ==> mc.default_args@ == default_args@ && (match config_text {
                Some(t) => spec_parse(t@) matches Some(base) && mc.validator_config@ == spec_merge(
                    base,
                    cli_present(*matches),
                    cli_args(*matches),
                ),
                None => mc.validator_config@ == spec_merge(
                    all_absent(),
                    cli_present(*matches),
                    cli_args(*matches),
                ),
            }),
            r is Err ==> (config_text matches Some(t) && spec_parse(t@) is None),
    {
        let mut validator_config = match config_text {
            Some(t) => match parse_config_str(t) {
                Ok(c) => c,
                Err(e) => {
                    return Err(e);
                },
            },
            None => ValidatorConfig::default(),
        };
        merge_cli_args(&mut validator_config, matches);
        Ok(MergedConfig { validator_config, default_args: default_args.duplicate() })
    }

    /// The bind address: schema value first, defaults bundle otherwise.
    pub fn get_bind_address(&self) -> (r: String)
        ensures
            r@ == match self.validator_config@.bind_address {
                Some(s) => s,
                None => self.default_args@.bind_address,
            },
    {
        match &self.validator_config.bind_address {
            Some(s) => s.clone(),
            None => self.default_args.bind_address.clone(),
        }
    }

    /// The ledger path: schema value first, defaults bundle otherwise.
    pub fn get_ledger_path(&self) -> (r: String)
        ensures
            r@ == match self.validator_config@.ledger_path {
                Some(s) => s,
                None => self.default_args@.ledger_path,
            },
    {
        match &self.validator_config.ledger_path {
            Some(s) => s.clone(),
            None => self.default_args.ledger_path.clone(),
        }
    }

    /// The RPC thread count: schema value first, else the defaults-bundle
    /// string read as a number, else the constant 4.
    pub fn get_rpc_threads(&self) -> (r: usize)
        ensures
            r == spec_rpc_threads(self.validator_config@, self.default_args@),
    {
        match self.validator_config.rpc_threads {
            Some(n) => n,
            None => match parse_u64_str(self.default_args.rpc_threads.as_str()) {
                Some(p) => if p <= usize::MAX as u64 {
                    p as usize
                } else {
                    4
                },
                None => 4,
            },
        }
    }

    /// The banking trace byte limit: schema value first, else the
    /// defaults-bundle string read as a number, else the constant
    /// 1000000000.
    pub fn get_banking_trace_dir_byte_limit(&self) -> (r: u64)
        ensures
            r == spec_banking_trace_limit(self.validator_config@, self.default_args@),
    {
        match self.validator_config.banking_trace_dir_byte_limit {
            Some(n) => n,
            None => match parse_u64_str(self.default_args.banking_trace_dir_byte_limit.as_str()) {
                Some(p) => p,
                None => 1000000000,
            },
        }
    }
}

/// The text of a configuration file holding exactly what the command line
/// supplies: an all-absent schema with the CLI overlaid, rendered.
pub fn config_text_from_args(matches: &clap::ArgMatches) -> (r: Result<String, ConfigError>)
    ensures
        r matches Ok(s) ==> wf_config(
            spec_merge(all_absent(), cli_present(*matches), cli_args(*matches)),
        ) && s@ == spec_render(spec_merge(all_absent(), cli_present(*matches), cli_args(*matches))),
        r is Err ==> !wf_config(spec_merge(all_absent(), cli_present(*matches), cli_args(*matches))),
{
    let mut config = ValidatorConfig::default();
    merge_cli_args(&mut config, matches);
    render_config(&config)
}

/// Overlay precedence: a field the command line explicitly supplies ends up
/// holding the CLI value, whatever the schema held before; a field it does
/// not supply keeps its prior value, set or absent; and a field with no
/// flag at all is never touched.
#[verifier::rlimit(100)]
pub proof fn lemma_overlay_precedence(
    c: ConfigV,
    present: Set<Seq<char>>,
    args: Map<Seq<char>, Seq<Seq<char>>>,
)
    ensures
        has_val(present, args, "bind_address"@) ==> spec_merge(c, present, args).bind_address == Some(first_val(args, "bind_address"@)),
        !present.contains("bind_address"@) ==> spec_merge(c, present, args).bind_address == c.bind_address,
        present.contains("entrypoint"@) && args.dom().contains("entrypoint"@) ==> spec_merge(c, present, args).entrypoint == Some(args["entrypoint"@]),
        !present.contains("entrypoint"@) ==> spec_merge(c, present, args).entrypoint == c.entrypoint,
        has_val(present, args, "gossip_port"@) && spec_parse_u64(first_val(args, "gossip_port"@)) is Some && spec_parse_u64(first_val(args, "gossip_port"@)).unwrap() <= u16::MAX as u64 ==> spec_merge(c, present, args).gossip_port == Some(spec_parse_u64(first_val(args, "gossip_port"@)).unwrap() as u16),
        !present.contains("gossip_port"@) ==> spec_merge(c, present, args).gossip_port == c.gossip_port,
        has_val(present, args, "gossip_host"@) ==> spec_merge(c, present, args).gossip_host == Some(first_val(args, "gossip_host"@)),
        !present.contains("gossip_host"@) ==> spec_merge(c, present, args).gossip_host == c.gossip_host,
        has_val(present, args, "dynamic_port_range"@) ==> spec_merge(c, present, args).dynamic_port_range == Some(first_val(args, "dynamic_port_range"@)),
        !present.contains("dynamic_port_range"@) ==> spec_merge(c, present, args).dynamic_port_range == c.dynamic_port_range,
        present.contains("allow_private_addr"@) ==> spec_merge(c, present, args).allow_private_addr == Some(true),
        !present.contains("allow_private_addr"@) ==> spec_merge(c, present, args).allow_private_addr == c.allow_private_addr,
        has_val(present, args, "ledger_path"@) ==> spec_merge(c, present, args).ledger_path == Some(first_val(args, "ledger_path"@)),
        !present.contains("ledger_path"@) ==> spec_merge(c, present, args).ledger_path == c.ledger_path,
        present.contains("account_paths"@) && args.dom().contains("account_paths"@) ==> spec_merge(c, present, args).accounts_path == Some(args["account_paths"@]),
        !present.contains("account_paths"@) ==> spec_merge(c, present, args).accounts_path == c.accounts_path,
        has_val(present, args, "limit_ledger_size"@) && spec_parse_u64(first_val(args, "limit_ledger_size"@)) is Some ==> spec_merge(c, present, args).limit_ledger_size == Some(spec_parse_u64(first_val(args, "limit_ledger_size"@)).unwrap()),
        !present.contains("limit_ledger_size"@) ==> spec_merge(c, present, args).limit_ledger_size == c.limit_ledger_size,
        has_val(present, args, "rpc_port"@) && spec_parse_u64(first_val(args, "rpc_port"@)) is Some && spec_parse_u64(first_val(args, "rpc_port"@)).unwrap() <= u16::MAX as u64 ==> spec_merge(c, present, args).rpc_port == Some(spec_parse_u64(first_val(args, "rpc_port"@)).unwrap() as u16),
        !present.contains("rpc_port"@) ==> spec_merge(c, present, args).rpc_port == c.rpc_port,
        has_val(present, args, "rpc_bind_address"@) ==> spec_merge(c, present, args).rpc_bind_address == Some(first_val(args, "rpc_bind_address"@)),
        !present.contains("rpc_bind_address"@) ==> spec_merge(c, present, args).rpc_bind_address == c.rpc_bind_address,
        present.contains("enable_rpc_transaction_history"@) ==> spec_merge(c, present, args).enable_rpc_transaction_history == Some(true),
        !present.contains("enable_rpc_transaction_history"@) ==> spec_merge(c, present, args).enable_rpc_transaction_history == c.enable_rpc_transaction_history,
        present.contains("enable_extended_tx_metadata_storage"@) ==> spec_merge(c, present, args).enable_extended_tx_metadata_storage == Some(true),
        !present.contains("enable_extended_tx_metadata_storage"@) ==> spec_merge(c, present, args).enable_extended_tx_metadata_storage == c.enable_extended_tx_metadata_storage,
        has_val(present, args, "accounts_shrink_ratio"@) && is_num_token(first_val(args, "accounts_shrink_ratio"@)) ==> spec_merge(c, present, args).accounts_shrink_ratio == Some(first_val(args, "accounts_shrink_ratio"@)),
        !present.contains("accounts_shrink_ratio"@) ==> spec_merge(c, present, args).accounts_shrink_ratio == c.accounts_shrink_ratio,
        has_val(present, args, "banking_trace_dir_byte_limit"@) && spec_parse_u64(first_val(args, "banking_trace_dir_byte_limit"@)) is Some ==> spec_merge(c, present, args).banking_trace_dir_byte_limit == Some(spec_parse_u64(first_val(args, "banking_trace_dir_byte_limit"@)).unwrap()),
        !present.contains("banking_trace_dir_byte_limit"@) ==> spec_merge(c, present, args).banking_trace_dir_byte_limit == c.banking_trace_dir_byte_limit,
        has_val(present, args, "replay_forks_threads"@) && spec_parse_u64(first_val(args, "replay_forks_threads"@)) is Some && spec_parse_u64(first_val(args, "replay_forks_threads"@)).unwrap() <= usize::MAX as u64 ==> spec_merge(c, present, args).replay_forks_threads == Some(spec_parse_u64(first_val(args, "replay_forks_threads"@)).unwrap() as usize),
        !present.contains("replay_forks_threads"@) ==> spec_merge(c, present, args).replay_forks_threads == c.replay_forks_threads,
        present.contains("voting_disabled"@) ==> spec_merge(c, present, args).voting_disabled == Some(true),
        !present.contains("voting_disabled"@) ==> spec_merge(c, present, args).voting_disabled == c.voting_disabled,
        has_val(present, args, "dev_halt_at_slot"@) && spec_parse_u64(first_val(args, "dev_halt_at_slot"@)) is Some ==> spec_merge(c, present, args).dev_halt_at_slot == Some(spec_parse_u64(first_val(args, "dev_halt_at_slot"@)).unwrap()),
        !present.contains("dev_halt_at_slot"@) ==> spec_merge(c, present, args).dev_halt_at_slot == c.dev_halt_at_slot,
        has_val(present, args, "wait_for_supermajority"@) && spec_parse_u64(first_val(args, "wait_for_supermajority"@)) is Some ==> spec_merge(c, present, args).wait_for_supermajority == Some(spec_parse_u64(first_val(args, "wait_for_supermajority"@)).unwrap()),
        !present.contains("wait_for_supermajority"@) ==> spec_merge(c, present, args).wait_for_supermajority == c.wait_for_supermajority,
        has_val(present, args, "expected_genesis_hash"@) ==> spec_merge(c, present, args).expected_genesis_hash == Some(first_val(args, "expected_genesis_hash"@)),
        !present.contains("expected_genesis_hash"@) ==> spec_merge(c, present, args).expected_genesis_hash == c.expected_genesis_hash,
        has_val(present, args, "expected_bank_hash"@) ==> spec_merge(c, present, args).expected_bank_hash == Some(first_val(args, "expected_bank_hash"@)),
        !present.contains("expected_bank_hash"@) ==> spec_merge(c, present, args).expected_bank_hash == c.expected_bank_hash,
        has_val(present, args, "expected_shred_version"@) && spec_parse_u64(first_val(args, "expected_shred_version"@)) is Some && spec_parse_u64(first_val(args, "expected_shred_version"@)).unwrap() <= u16::MAX as u64 ==> spec_merge(c, present, args).expected_shred_version == Some(spec_parse_u64(first_val(args, "expected_shred_version"@)).unwrap() as u16),
        !present.contains("expected_shred_version"@) ==> spec_merge(c, present, args).expected_shred_version == c.expected_shred_version,
        present.contains("no_voting"@) ==> spec_merge(c, present, args).no_voting == Some(true),
        !present.contains("no_voting"@) ==> spec_merge(c, present, args).no_voting == c.no_voting,
        has_val(present, args, "identity"@) ==> spec_merge(c, present, args).identity == Some(first_val(args, "identity"@)),
        !present.contains("identity"@) ==> spec_merge(c, present, args).identity == c.identity,
        has_val(present, args, "vote_account"@) ==> spec_merge(c, present, args).vote_account == Some(first_val(args, "vote_account"@)),
        !present.contains("vote_account"@) ==> spec_merge(c, present, args).vote_account == c.vote_account,
        present.contains("authorized_voter_keypairs"@) && args.dom().contains("authorized_voter_keypairs"@) ==> spec_merge(c, present, args).authorized_voter_keypairs == Some(args["authorized_voter_keypairs"@]),
        !present.contains("authorized_voter_keypairs"@) ==> spec_merge(c, present, args).authorized_voter_keypairs == c.authorized_voter_keypairs,
        has_val(present, args, "log_messages_bytes_limit"@) && spec_parse_u64(first_val(args, "log_messages_bytes_limit"@)) is Some && spec_parse_u64(first_val(args, "log_messages_bytes_limit"@)).unwrap() <= usize::MAX as u64 ==> spec_merge(c, present, args).log_messages_bytes_limit == Some(spec_parse_u64(first_val(args, "log_messages_bytes_limit"@)).unwrap() as usize),
        !present.contains("log_messages_bytes_limit"@) ==> spec_merge(c, present, args).log_messages_bytes_limit == c.log_messages_bytes_limit,
        present.contains("skip_startup_ledger_verification"@) ==> spec_merge(c, present, args).skip_startup_ledger_verification == Some(true),
        !present.contains("skip_startup_ledger_verification"@) ==> spec_merge(c, present, args).skip_startup_ledger_verification == c.skip_startup_ledger_verification,
        spec_merge(c, present, args).account_snapshot_paths == c.account_snapshot_paths,
        spec_merge(c, present, args).rpc_threads == c.rpc_threads,
        spec_merge(c, present, args).rpc_blocking_threads == c.rpc_blocking_threads,
        spec_merge(c, present, args).rpc_max_request_body_size == c.rpc_max_request_body_size,
        spec_merge(c, present, args).rpc_pubsub_max_active_subscriptions == c.rpc_pubsub_max_active_subscriptions,
        spec_merge(c, present, args).rpc_pubsub_queue_capacity_items == c.rpc_pubsub_queue_capacity_items,
        spec_merge(c, present, args).rpc_pubsub_queue_capacity_bytes == c.rpc_pubsub_queue_capacity_bytes,
        spec_merge(c, present, args).accounts_shrink_optimize_total_space == c.accounts_shrink_optimize_total_space,
        spec_merge(c, present, args).tpu_connection_pool_size == c.tpu_connection_pool_size,
        spec_merge(c, present, args).tpu_max_connections_per_peer == c.tpu_max_connections_per_peer,
        spec_merge(c, present, args).tpu_max_connections_per_ipaddr_per_minute == c.tpu_max_connections_per_ipaddr_per_minute,
        spec_merge(c, present, args).tpu_max_staked_connections == c.tpu_max_staked_connections,
        spec_merge(c, present, args).tpu_max_unstaked_connections == c.tpu_max_unstaked_connections,
        spec_merge(c, present, args).tpu_max_streams_per_ms == c.tpu_max_streams_per_ms,
        spec_merge(c, present, args).snapshot_version == c.snapshot_version,
        spec_merge(c, present, args).snapshot_archive_format == c.snapshot_archive_format,
        spec_merge(c, present, args).full_snapshot_archive_interval_slots == c.full_snapshot_archive_interval_slots,
        spec_merge(c, present, args).incremental_snapshot_archive_interval_slots == c.incremental_snapshot_archive_interval_slots,
        spec_merge(c, present, args).maximum_full_snapshot_archives_to_retain == c.maximum_full_snapshot_archives_to_retain,
        spec_merge(c, present, args).maximum_incremental_snapshot_archives_to_retain == c.maximum_incremental_snapshot_archives_to_retain,
        spec_merge(c, present, args).min_snapshot_download_speed == c.min_snapshot_download_speed,
        spec_merge(c, present, args).max_snapshot_download_abort == c.max_snapshot_download_abort,
        spec_merge(c, present, args).replay_transactions_threads == c.replay_transactions_threads,
        spec_merge(c, present, args).tvu_shred_sigverify_threads == c.tvu_shred_sigverify_threads,
        spec_merge(c, present, args).no_check_vote_account == c.no_check_vote_account,
        spec_merge(c, present, args).known_validators == c.known_validators,
        spec_merge(c, present, args).only_known_rpc == c.only_known_rpc,
        spec_merge(c, present, args).skip_poh_verify == c.skip_poh_verify,
        spec_merge(c, present, args).debug_keys == c.debug_keys,
{
}

/// Boolean asymmetry: a boolean field set true in the file and not passed
/// on the command line stays true after the overlay; presence-only flags
/// cannot unset anything.
pub proof fn lemma_bool_asymmetry(
    c: ConfigV,
    present: Set<Seq<char>>,
    args: Map<Seq<char>, Seq<Seq<char>>>,
)
    ensures
        c.allow_private_addr == Some(true) && !present.contains("allow_private_addr"@) ==> spec_merge(c, present, args).allow_private_addr == Some(true),
        c.enable_rpc_transaction_history == Some(true) && !present.contains("enable_rpc_transaction_history"@) ==> spec_merge(c, present, args).enable_rpc_transaction_history == Some(true),
        c.enable_extended_tx_metadata_storage == Some(true) && !present.contains("enable_extended_tx_metadata_storage"@) ==> spec_merge(c, present, args).enable_extended_tx_metadata_storage == Some(true),
        c.voting_disabled == Some(true) && !present.contains("voting_disabled"@) ==> spec_merge(c, present, args).voting_disabled == Some(true),
        c.no_voting == Some(true) && !present.contains("no_voting"@) ==> spec_merge(c, present, args).no_voting == Some(true),
        c.skip_startup_ledger_verification == Some(true) && !present.contains("skip_startup_ledger_verification"@) ==> spec_merge(c, present, args).skip_startup_ledger_verification == Some(true),
{
}

/// A malformed numeric value on the command line leaves its field exactly
/// as it was before the overlay; no error is raised.
#[verifier::rlimit(100)]
pub proof fn lemma_malformed_numeric(
    c: ConfigV,
    present: Set<Seq<char>>,
    args: Map<Seq<char>, Seq<Seq<char>>>,
)
    ensures
        has_val(present, args, "gossip_port"@) && spec_parse_u64(first_val(args, "gossip_port"@)) is None ==> spec_merge(c, present, args).gossip_port == c.gossip_port,
        has_val(present, args, "gossip_port"@) && spec_parse_u64(first_val(args, "gossip_port"@)) is Some && spec_parse_u64(first_val(args, "gossip_port"@)).unwrap() > u16::MAX as u64 ==> spec_merge(c, present, args).gossip_port == c.gossip_port,
        has_val(present, args, "limit_ledger_size"@) && spec_parse_u64(first_val(args, "limit_ledger_size"@)) is None ==> spec_merge(c, present, args).limit_ledger_size == c.limit_ledger_size,
        has_val(present, args, "rpc_port"@) && spec_parse_u64(first_val(args, "rpc_port"@)) is None ==> spec_merge(c, present, args).rpc_port == c.rpc_port,
        has_val(present, args, "rpc_port"@) && spec_parse_u64(first_val(args, "rpc_port"@)) is Some && spec_parse_u64(first_val(args, "rpc_port"@)).unwrap() > u16::MAX as u64 ==> spec_merge(c, present, args).rpc_port == c.rpc_port,
        has_val(present, args, "accounts_shrink_ratio"@) && !is_num_token(first_val(args, "accounts_shrink_ratio"@)) ==> spec_merge(c, present, args).accounts_shrink_ratio == c.accounts_shrink_ratio,
        has_val(present, args, "banking_trace_dir_byte_limit"@) && spec_parse_u64(first_val(args, "banking_trace_dir_byte_limit"@)) is None ==> spec_merge(c, present, args).banking_trace_dir_byte_limit == c.banking_trace_dir_byte_limit,
        has_val(present, args, "replay_forks_threads"@) && spec_parse_u64(first_val(args, "replay_forks_threads"@)) is None ==> spec_merge(c, present, args).replay_forks_threads == c.replay_forks_threads,
        has_val(present, args, "dev_halt_at_slot"@) && spec_parse_u64(first_val(args, "dev_halt_at_slot"@)) is None ==> spec_merge(c, present, args).dev_halt_at_slot == c.dev_halt_at_slot,
        has_val(present, args, "wait_for_supermajority"@) && spec_parse_u64(first_val(args, "wait_for_supermajority"@)) is None ==> spec_merge(c, present, args).wait_for_supermajority == c.wait_for_supermajority,
        has_val(present, args, "expected_shred_version"@) && spec_parse_u64(first_val(args, "expected_shred_version"@)) is None ==> spec_merge(c, present, args).expected_shred_version == c.expected_shred_version,
        has_val(present, args, "expected_shred_version"@) && spec_parse_u64(first_val(args, "expected_shred_version"@)) is Some && spec_parse_u64(first_val(args, "expected_shred_version"@)).unwrap() > u16::MAX as u64 ==> spec_merge(c, present, args).expected_shred_version == c.expected_shred_version,
        has_val(present, args, "log_messages_bytes_limit"@) && spec_parse_u64(first_val(args, "log_messages_bytes_limit"@)) is None ==> spec_merge(c, present, args).log_messages_bytes_limit == c.log_messages_bytes_limit,
    {
}

} // verus!
