//! The configuration schema: a flat record of optional validator settings.
//!
//! Every field is independently absent-or-present; absence means "defer to a
//! lower-precedence source", never "use a falsy value".  Paths are carried as
//! plain strings, and the accounts shrink ratio as its decimal text, so that
//! every field is a plain value the contracts can speak about.
use vstd::prelude::*;

use crate::num::is_dec_digit;

verus! {

/// Spec-level image of a schema: each field as a mathematical value.
#[verifier::ext_equal]
pub ghost struct ConfigV {
    pub bind_address: Option<Seq<char>>,
    pub entrypoint: Option<Seq<Seq<char>>>,
    pub gossip_port: Option<u16>,
    pub gossip_host: Option<Seq<char>>,
    pub dynamic_port_range: Option<Seq<char>>,
    pub allow_private_addr: Option<bool>,
    pub ledger_path: Option<Seq<char>>,
    pub accounts_path: Option<Seq<Seq<char>>>,
    pub account_snapshot_paths: Option<Seq<Seq<char>>>,
    pub limit_ledger_size: Option<u64>,
    pub rpc_port: Option<u16>,
    pub rpc_bind_address: Option<Seq<char>>,
    pub enable_rpc_transaction_history: Option<bool>,
    pub enable_extended_tx_metadata_storage: Option<bool>,
    pub rpc_threads: Option<usize>,
    pub rpc_blocking_threads: Option<usize>,
    pub rpc_max_request_body_size: Option<usize>,
    pub rpc_pubsub_max_active_subscriptions: Option<usize>,
    pub rpc_pubsub_queue_capacity_items: Option<usize>,
    pub rpc_pubsub_queue_capacity_bytes: Option<usize>,
    pub accounts_shrink_ratio: Option<Seq<char>>,
    pub accounts_shrink_optimize_total_space: Option<bool>,
    pub banking_trace_dir_byte_limit: Option<u64>,
    pub tpu_connection_pool_size: Option<usize>,
    pub tpu_max_connections_per_peer: Option<usize>,
    pub tpu_max_connections_per_ipaddr_per_minute: Option<u64>,
    pub tpu_max_staked_connections: Option<usize>,
    pub tpu_max_unstaked_connections: Option<usize>,
    pub tpu_max_streams_per_ms: Option<usize>,
    pub snapshot_version: Option<Seq<char>>,
    pub snapshot_archive_format: Option<Seq<char>>,
    pub full_snapshot_archive_interval_slots: Option<u64>,
    pub incremental_snapshot_archive_interval_slots: Option<u64>,
    pub maximum_full_snapshot_archives_to_retain: Option<usize>,
    pub maximum_incremental_snapshot_archives_to_retain: Option<usize>,
    pub min_snapshot_download_speed: Option<u64>,
    pub max_snapshot_download_abort: Option<u32>,
    pub replay_forks_threads: Option<usize>,
    pub replay_transactions_threads: Option<usize>,
    pub tvu_shred_sigverify_threads: Option<usize>,
    pub voting_disabled: Option<bool>,
    pub dev_halt_at_slot: Option<u64>,
    pub wait_for_supermajority: Option<u64>,
    pub expected_genesis_hash: Option<Seq<char>>,
    pub expected_bank_hash: Option<Seq<char>>,
    pub expected_shred_version: Option<u16>,
    pub no_voting: Option<bool>,
    pub no_check_vote_account: Option<bool>,
    pub identity: Option<Seq<char>>,
    pub vote_account: Option<Seq<char>>,
    pub authorized_voter_keypairs: Option<Seq<Seq<char>>>,
    pub known_validators: Option<Seq<Seq<char>>>,
    pub only_known_rpc: Option<bool>,
    pub log_messages_bytes_limit: Option<usize>,
    pub skip_startup_ledger_verification: Option<bool>,
    pub skip_poh_verify: Option<bool>,
    pub debug_keys: Option<Seq<Seq<char>>>,
}

/// File-based configuration for the validator; all fields optional so a file
/// may give any subset.
#[derive(Debug, Clone, PartialEq)]
pub struct ValidatorConfig {
    // Network configuration
    pub bind_address: Option<String>,
    pub entrypoint: Option<Vec<String>>,
    pub gossip_port: Option<u16>,
    pub gossip_host: Option<String>,
    pub dynamic_port_range: Option<String>,
    pub allow_private_addr: Option<bool>,
    // Ledger configuration
    pub ledger_path: Option<String>,
    pub accounts_path: Option<Vec<String>>,
    pub account_snapshot_paths: Option<Vec<String>>,
    pub limit_ledger_size: Option<u64>,
    // RPC configuration
    pub rpc_port: Option<u16>,
    pub rpc_bind_address: Option<String>,
    pub enable_rpc_transaction_history: Option<bool>,
    pub enable_extended_tx_metadata_storage: Option<bool>,
    pub rpc_threads: Option<usize>,
    pub rpc_blocking_threads: Option<usize>,
    pub rpc_max_request_body_size: Option<usize>,
    pub rpc_pubsub_max_active_subscriptions: Option<usize>,
    pub rpc_pubsub_queue_capacity_items: Option<usize>,
    pub rpc_pubsub_queue_capacity_bytes: Option<usize>,
    // Performance configuration; the shrink ratio is kept as its decimal text
    pub accounts_shrink_ratio: Option<String>,
    pub accounts_shrink_optimize_total_space: Option<bool>,
    pub banking_trace_dir_byte_limit: Option<u64>,
    pub tpu_connection_pool_size: Option<usize>,
    pub tpu_max_connections_per_peer: Option<usize>,
    pub tpu_max_connections_per_ipaddr_per_minute: Option<u64>,
    pub tpu_max_staked_connections: Option<usize>,
    pub tpu_max_unstaked_connections: Option<usize>,
    pub tpu_max_streams_per_ms: Option<usize>,
    // Snapshot configuration
    pub snapshot_version: Option<String>,
    pub snapshot_archive_format: Option<String>,
    pub full_snapshot_archive_interval_slots: Option<u64>,
    pub incremental_snapshot_archive_interval_slots: Option<u64>,
    pub maximum_full_snapshot_archives_to_retain: Option<usize>,
    pub maximum_incremental_snapshot_archives_to_retain: Option<usize>,
    pub min_snapshot_download_speed: Option<u64>,
    pub max_snapshot_download_abort: Option<u32>,
    // Thread configuration
    pub replay_forks_threads: Option<usize>,
    pub replay_transactions_threads: Option<usize>,
    pub tvu_shred_sigverify_threads: Option<usize>,
    // Validator behavior
    pub voting_disabled: Option<bool>,
    pub dev_halt_at_slot: Option<u64>,
    pub wait_for_supermajority: Option<u64>,
    pub expected_genesis_hash: Option<String>,
    pub expected_bank_hash: Option<String>,
    pub expected_shred_version: Option<u16>,
    pub no_voting: Option<bool>,
    pub no_check_vote_account: Option<bool>,
    // Identity and security
    pub identity: Option<String>,
    pub vote_account: Option<String>,
    pub authorized_voter_keypairs: Option<Vec<String>>,
    pub known_validators: Option<Vec<String>>,
    pub only_known_rpc: Option<bool>,
    // Feature flags and development
    pub log_messages_bytes_limit: Option<usize>,
    pub skip_startup_ledger_verification: Option<bool>,
    pub skip_poh_verify: Option<bool>,
    pub debug_keys: Option<Vec<String>>,
}

pub open spec fn ov_str(o: Option<String>) -> Option<Seq<char>> {
    match o {
        Some(s) => Some(s@),
        None => None,
    }
}

pub open spec fn ov_list(o: Option<Vec<String>>) -> Option<Seq<Seq<char>>> {
    match o {
        Some(v) => Some(v.deep_view()),
        None => None,
    }
}

impl View for ValidatorConfig {
    type V = ConfigV;

    open spec fn view(&self) -> ConfigV {
        ConfigV {
            bind_address: ov_str(self.bind_address),
            entrypoint: ov_list(self.entrypoint),
            gossip_port: self.gossip_port,
            gossip_host: ov_str(self.gossip_host),
            dynamic_port_range: ov_str(self.dynamic_port_range),
            allow_private_addr: self.allow_private_addr,
            ledger_path: ov_str(self.ledger_path),
            accounts_path: ov_list(self.accounts_path),
            account_snapshot_paths: ov_list(self.account_snapshot_paths),
            limit_ledger_size: self.limit_ledger_size,
            rpc_port: self.rpc_port,
            rpc_bind_address: ov_str(self.rpc_bind_address),
            enable_rpc_transaction_history: self.enable_rpc_transaction_history,
            enable_extended_tx_metadata_storage: self.enable_extended_tx_metadata_storage,
            rpc_threads: self.rpc_threads,
            rpc_blocking_threads: self.rpc_blocking_threads,
            rpc_max_request_body_size: self.rpc_max_request_body_size,
            rpc_pubsub_max_active_subscriptions: self.rpc_pubsub_max_active_subscriptions,
            rpc_pubsub_queue_capacity_items: self.rpc_pubsub_queue_capacity_items,
            rpc_pubsub_queue_capacity_bytes: self.rpc_pubsub_queue_capacity_bytes,
            accounts_shrink_ratio: ov_str(self.accounts_shrink_ratio),
            accounts_shrink_optimize_total_space: self.accounts_shrink_optimize_total_space,
            banking_trace_dir_byte_limit: self.banking_trace_dir_byte_limit,
            tpu_connection_pool_size: self.tpu_connection_pool_size,
            tpu_max_connections_per_peer: self.tpu_max_connections_per_peer,
            tpu_max_connections_per_ipaddr_per_minute: self.tpu_max_connections_per_ipaddr_per_minute,
            tpu_max_staked_connections: self.tpu_max_staked_connections,
            tpu_max_unstaked_connections: self.tpu_max_unstaked_connections,
            tpu_max_streams_per_ms: self.tpu_max_streams_per_ms,
            snapshot_version: ov_str(self.snapshot_version),
            snapshot_archive_format: ov_str(self.snapshot_archive_format),
            full_snapshot_archive_interval_slots: self.full_snapshot_archive_interval_slots,
            incremental_snapshot_archive_interval_slots: self.incremental_snapshot_archive_interval_slots,
            maximum_full_snapshot_archives_to_retain: self.maximum_full_snapshot_archives_to_retain,
            maximum_incremental_snapshot_archives_to_retain: self.maximum_incremental_snapshot_archives_to_retain,
            min_snapshot_download_speed: self.min_snapshot_download_speed,
            max_snapshot_download_abort: self.max_snapshot_download_abort,
            replay_forks_threads: self.replay_forks_threads,
            replay_transactions_threads: self.replay_transactions_threads,
            tvu_shred_sigverify_threads: self.tvu_shred_sigverify_threads,
            voting_disabled: self.voting_disabled,
            dev_halt_at_slot: self.dev_halt_at_slot,
            wait_for_supermajority: self.wait_for_supermajority,
            expected_genesis_hash: ov_str(self.expected_genesis_hash),
            expected_bank_hash: ov_str(self.expected_bank_hash),
            expected_shred_version: self.expected_shred_version,
            no_voting: self.no_voting,
            no_check_vote_account: self.no_check_vote_account,
            identity: ov_str(self.identity),
            vote_account: ov_str(self.vote_account),
            authorized_voter_keypairs: ov_list(self.authorized_voter_keypairs),
            known_validators: ov_list(self.known_validators),
            only_known_rpc: self.only_known_rpc,
            log_messages_bytes_limit: self.log_messages_bytes_limit,
            skip_startup_ledger_verification: self.skip_startup_ledger_verification,
            skip_poh_verify: self.skip_poh_verify,
            debug_keys: ov_list(self.debug_keys),
        }
    }
}

/// The schema with every field absent.
pub open spec fn all_absent() -> ConfigV {
    ConfigV {
        bind_address: None,
        entrypoint: None,
        gossip_port: None,
        gossip_host: None,
        dynamic_port_range: None,
        allow_private_addr: None,
        ledger_path: None,
        accounts_path: None,
        account_snapshot_paths: None,
        limit_ledger_size: None,
        rpc_port: None,
        rpc_bind_address: None,
        enable_rpc_transaction_history: None,
        enable_extended_tx_metadata_storage: None,
        rpc_threads: None,
        rpc_blocking_threads: None,
        rpc_max_request_body_size: None,
        rpc_pubsub_max_active_subscriptions: None,
        rpc_pubsub_queue_capacity_items: None,
        rpc_pubsub_queue_capacity_bytes: None,
        accounts_shrink_ratio: None,
        accounts_shrink_optimize_total_space: None,
        banking_trace_dir_byte_limit: None,
        tpu_connection_pool_size: None,
        tpu_max_connections_per_peer: None,
        tpu_max_connections_per_ipaddr_per_minute: None,
        tpu_max_staked_connections: None,
        tpu_max_unstaked_connections: None,
        tpu_max_streams_per_ms: None,
        snapshot_version: None,
        snapshot_archive_format: None,
        full_snapshot_archive_interval_slots: None,
        incremental_snapshot_archive_interval_slots: None,
        maximum_full_snapshot_archives_to_retain: None,
        maximum_incremental_snapshot_archives_to_retain: None,
        min_snapshot_download_speed: None,
        max_snapshot_download_abort: None,
        replay_forks_threads: None,
        replay_transactions_threads: None,
        tvu_shred_sigverify_threads: None,
        voting_disabled: None,
        dev_halt_at_slot: None,
        wait_for_supermajority: None,
        expected_genesis_hash: None,
        expected_bank_hash: None,
        expected_shred_version: None,
        no_voting: None,
        no_check_vote_account: None,
        identity: None,
        vote_account: None,
        authorized_voter_keypairs: None,
        known_validators: None,
        only_known_rpc: None,
        log_messages_bytes_limit: None,
        skip_startup_ledger_verification: None,
        skip_poh_verify: None,
        debug_keys: None,
    }
}

impl Default for ValidatorConfig {
    /// A fresh schema: every field absent.
    fn default() -> (r: Self)
        ensures
            r@ == all_absent(),
    {
        let r = ValidatorConfig {
            bind_address: None,
            entrypoint: None,
            gossip_port: None,
            gossip_host: None,
            dynamic_port_range: None,
            allow_private_addr: None,
            ledger_path: None,
            accounts_path: None,
            account_snapshot_paths: None,
            limit_ledger_size: None,
            rpc_port: None,
            rpc_bind_address: None,
            enable_rpc_transaction_history: None,
            enable_extended_tx_metadata_storage: None,
            rpc_threads: None,
            rpc_blocking_threads: None,
            rpc_max_request_body_size: None,
            rpc_pubsub_max_active_subscriptions: None,
            rpc_pubsub_queue_capacity_items: None,
            rpc_pubsub_queue_capacity_bytes: None,
            accounts_shrink_ratio: None,
            accounts_shrink_optimize_total_space: None,
            banking_trace_dir_byte_limit: None,
            tpu_connection_pool_size: None,
            tpu_max_connections_per_peer: None,
            tpu_max_connections_per_ipaddr_per_minute: None,
            tpu_max_staked_connections: None,
            tpu_max_unstaked_connections: None,
            tpu_max_streams_per_ms: None,
            snapshot_version: None,
            snapshot_archive_format: None,
            full_snapshot_archive_interval_slots: None,
            incremental_snapshot_archive_interval_slots: None,
            maximum_full_snapshot_archives_to_retain: None,
            maximum_incremental_snapshot_archives_to_retain: None,
            min_snapshot_download_speed: None,
            max_snapshot_download_abort: None,
            replay_forks_threads: None,
            replay_transactions_threads: None,
            tvu_shred_sigverify_threads: None,
            voting_disabled: None,
            dev_halt_at_slot: None,
            wait_for_supermajority: None,
            expected_genesis_hash: None,
            expected_bank_hash: None,
            expected_shred_version: None,
            no_voting: None,
            no_check_vote_account: None,
            identity: None,
            vote_account: None,
            authorized_voter_keypairs: None,
            known_validators: None,
            only_known_rpc: None,
            log_messages_bytes_limit: None,
            skip_startup_ledger_verification: None,
            skip_poh_verify: None,
            debug_keys: None,
        };
        proof {
            assert(r@ =~= all_absent());
        }
        r
    }
}

/// A string the file format can carry on one line without escaping.
pub open spec fn wf_str(s: Seq<char>) -> bool {
    forall|i: int| 0 <= i < s.len() ==> s[i] != '\n' && s[i] != '"'
}

pub open spec fn wf_opt_str(o: Option<Seq<char>>) -> bool {
    match o {
        Some(s) => wf_str(s),
        None => true,
    }
}

/// Every item of the list is a string the file format can carry.
pub open spec fn wf_str_list(l: Seq<Seq<char>>) -> bool {
    forall|i: int| 0 <= i < l.len() ==> wf_str(#[trigger] l[i])
}

pub open spec fn wf_opt_list(o: Option<Seq<Seq<char>>>) -> bool {
    match o {
        Some(l) => wf_str_list(l),
        None => true,
    }
}

/// The shape of a numeric token: digits with at most one inner dot.
pub open spec fn is_num_token(t: Seq<char>) -> bool {
    &&& t.len() > 0
    &&& is_dec_digit(t[0])
    &&& is_dec_digit(t[t.len() - 1])
    &&& forall|i: int| 0 <= i < t.len() ==> is_dec_digit(#[trigger] t[i]) || t[i] == '.'
    &&& forall|i: int, j: int| 0 <= i < t.len() && 0 <= j < t.len() && t[i] == '.' && t[j] == '.' ==> i == j
}

pub open spec fn wf_opt_num(o: Option<Seq<char>>) -> bool {
    match o {
        Some(t) => is_num_token(t),
        None => true,
    }
}

/// A schema the file format can render and read back unchanged.
pub open spec fn wf_config(c: ConfigV) -> bool {
    &&& wf_opt_str(c.bind_address)
    &&& wf_opt_list(c.entrypoint)
    &&& wf_opt_str(c.gossip_host)
    &&& wf_opt_str(c.dynamic_port_range)
    &&& wf_opt_str(c.ledger_path)
    &&& wf_opt_list(c.accounts_path)
    &&& wf_opt_list(c.account_snapshot_paths)
    &&& wf_opt_str(c.rpc_bind_address)
    &&& wf_opt_num(c.accounts_shrink_ratio)
    &&& wf_opt_str(c.snapshot_version)
    &&& wf_opt_str(c.snapshot_archive_format)
    &&& wf_opt_str(c.expected_genesis_hash)
    &&& wf_opt_str(c.expected_bank_hash)
    &&& wf_opt_str(c.identity)
    &&& wf_opt_str(c.vote_account)
    &&& wf_opt_list(c.authorized_voter_keypairs)
    &&& wf_opt_list(c.known_validators)
    &&& wf_opt_list(c.debug_keys)
}

} // verus!
