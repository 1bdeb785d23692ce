//! Reading configuration text: one flat table of `key = value` lines,
//! comments and blank lines skipped, unknown keys ignored, and a value of the
//! wrong type for a known key refusing the whole file.
//!
//! The grammar is a fixed subset of TOML: strings are quoted but carry no
//! escape sequences, integers are plain digit runs (no sign, no `_`
//! separators), lists are single-line arrays of quoted strings, and a
//! duplicate key keeps its last value.  A file using forms outside this
//! subset is refused whole with `ConfigError::Parse`.
use vstd::prelude::*;

use crate::ConfigError;
use crate::num::spec_parse_u64;
use crate::num::parse_u64_str;
use crate::schema::{ConfigV, ValidatorConfig, all_absent};
use crate::value::{
    Value, ValueV, is_key_char, skip_sp, scan_key, spec_parse_value, lemma_skip_sp_bounds,
    lemma_scan_key_bounds, lemma_parse_value_bounds, parse_value_x, skip_sp_x, scan_key_x,
};

verus! {

pub open spec fn as_string(v: ValueV) -> Option<Seq<char>> {
    match v {
        ValueV::Str(s) => Some(s),
        _ => None,
    }
}

pub open spec fn as_list(v: ValueV) -> Option<Seq<Seq<char>>> {
    match v {
        ValueV::List(l) => Some(l),
        _ => None,
    }
}

pub open spec fn as_bool(v: ValueV) -> Option<bool> {
    match v {
        ValueV::Bool(b) => Some(b),
        _ => None,
    }
}

/// A numeric token kept as its text, for the decimal-valued field.
pub open spec fn as_num_text(v: ValueV) -> Option<Seq<char>> {
    match v {
        ValueV::Num(t) => Some(t),
        _ => None,
    }
}

pub open spec fn as_u64v(v: ValueV) -> Option<u64> {
    match v {
        ValueV::Num(t) => spec_parse_u64(t),
        _ => None,
    }
}

pub open spec fn as_u16v(v: ValueV) -> Option<u16> {
    match as_u64v(v) {
        Some(n) => if n <= u16::MAX as u64 {
            Some(n as u16)
        } else {
            None
        },
        None => None,
    }
}

pub open spec fn as_u32v(v: ValueV) -> Option<u32> {
    match as_u64v(v) {
        Some(n) => if n <= u32::MAX as u64 {
            Some(n as u32)
        } else {
            None
        },
        None => None,
    }
}

pub open spec fn as_usizev(v: ValueV) -> Option<usize> {
    match as_u64v(v) {
        Some(n) => if n <= usize::MAX as u64 {
            Some(n as usize)
        } else {
            None
        },
        None => None,
    }
}

/// Applying one network-section pair; `None` when the key is not in this
/// section.
pub open spec fn apply_network(c: ConfigV, k: Seq<char>, v: ValueV) -> Option<Option<ConfigV>> {
    if k == "bind_address"@ {
        Some(match as_string(v) {
            Some(s) => Some(ConfigV { bind_address: Some(s), ..c }),
            None => None,
        })
    } else if k == "entrypoint"@ {
        Some(match as_list(v) {
            Some(l) => Some(ConfigV { entrypoint: Some(l), ..c }),
            None => None,
        })
    } else if k == "gossip_port"@ {
        Some(match as_u16v(v) {
            Some(n) => Some(ConfigV { gossip_port: Some(n), ..c }),
            None => None,
        })
    } else if k == "gossip_host"@ {
        Some(match as_string(v) {
            Some(s) => Some(ConfigV { gossip_host: Some(s), ..c }),
            None => None,
        })
    } else if k == "dynamic_port_range"@ {
        Some(match as_string(v) {
            Some(s) => Some(ConfigV { dynamic_port_range: Some(s), ..c }),
            None => None,
        })
    } else if k == "allow_private_addr"@ {
        Some(match as_bool(v) {
            Some(b) => Some(ConfigV { allow_private_addr: Some(b), ..c }),
            None => None,
        })
    } else {
        None
    }
}

pub open spec fn apply_ledger(c: ConfigV, k: Seq<char>, v: ValueV) -> Option<Option<ConfigV>> {
    if k == "ledger_path"@ {
        Some(match as_string(v) {
            Some(s) => Some(ConfigV { ledger_path: Some(s), ..c }),
            None => None,
        })
    } else if k == "accounts_path"@ {
        Some(match as_list(v) {
            Some(l) => Some(ConfigV { accounts_path: Some(l), ..c }),
            None => None,
        })
    } else if k == "account_snapshot_paths"@ {
        Some(match as_list(v) {
            Some(l) => Some(ConfigV { account_snapshot_paths: Some(l), ..c }),
            None => None,
        })
    } else if k == "limit_ledger_size"@ {
        Some(match as_u64v(v) {
            Some(n) => Some(ConfigV { limit_ledger_size: Some(n), ..c }),
            None => None,
        })
    } else {
        None
    }
}

pub open spec fn apply_rpc(c: ConfigV, k: Seq<char>, v: ValueV) -> Option<Option<ConfigV>> {
    if k == "rpc_port"@ {
        Some(match as_u16v(v) {
            Some(n) => Some(ConfigV { rpc_port: Some(n), ..c }),
            None => None,
        })
    } else if k == "rpc_bind_address"@ {
        Some(match as_string(v) {
            Some(s) => Some(ConfigV { rpc_bind_address: Some(s), ..c }),
            None => None,
        })
    } else if k == "enable_rpc_transaction_history"@ {
        Some(match as_bool(v) {
            Some(b) => Some(ConfigV { enable_rpc_transaction_history: Some(b), ..c }),
            None => None,
        })
    } else if k == "enable_extended_tx_metadata_storage"@ {
        Some(match as_bool(v) {
            Some(b) => Some(ConfigV { enable_extended_tx_metadata_storage: Some(b), ..c }),
            None => None,
        })
    } else if k == "rpc_threads"@ {
        Some(match as_usizev(v) {
            Some(n) => Some(ConfigV { rpc_threads: Some(n), ..c }),
            None => None,
        })
    } else if k == "rpc_blocking_threads"@ {
        Some(match as_usizev(v) {
            Some(n) => Some(ConfigV { rpc_blocking_threads: Some(n), ..c }),
            None => None,
        })
    } else if k == "rpc_max_request_body_size"@ {
        Some(match as_usizev(v) {
            Some(n) => Some(ConfigV { rpc_max_request_body_size: Some(n), ..c }),
            None => None,
        })
    } else if k == "rpc_pubsub_max_active_subscriptions"@ {
        Some(match as_usizev(v) {
            Some(n) => Some(ConfigV { rpc_pubsub_max_active_subscriptions: Some(n), ..c }),
            None => None,
        })
    } else if k == "rpc_pubsub_queue_capacity_items"@ {
        Some(match as_usizev(v) {
            Some(n) => Some(ConfigV { rpc_pubsub_queue_capacity_items: Some(n), ..c }),
            None => None,
        })
    } else if k == "rpc_pubsub_queue_capacity_bytes"@ {
        Some(match as_usizev(v) {
            Some(n) => Some(ConfigV { rpc_pubsub_queue_capacity_bytes: Some(n), ..c }),
            None => None,
        })
    } else {
        None
    }
}

pub open spec fn apply_perf(c: ConfigV, k: Seq<char>, v: ValueV) -> Option<Option<ConfigV>> {
    if k == "accounts_shrink_ratio"@ {
        Some(match as_num_text(v) {
            Some(t) => Some(ConfigV { accounts_shrink_ratio: Some(t), ..c }),
            None => None,
        })
    } else if k == "accounts_shrink_optimize_total_space"@ {
        Some(match as_bool(v) {
            Some(b) => Some(ConfigV { accounts_shrink_optimize_total_space: Some(b), ..c }),
            None => None,
        })
    } else if k == "banking_trace_dir_byte_limit"@ {
        Some(match as_u64v(v) {
            Some(n) => Some(ConfigV { banking_trace_dir_byte_limit: Some(n), ..c }),
            None => None,
        })
    } else if k == "tpu_connection_pool_size"@ {
        Some(match as_usizev(v) {
            Some(n) => Some(ConfigV { tpu_connection_pool_size: Some(n), ..c }),
            None => None,
        })
    } else if k == "tpu_max_connections_per_peer"@ {
        Some(match as_usizev(v) {
            Some(n) => Some(ConfigV { tpu_max_connections_per_peer: Some(n), ..c }),
            None => None,
        })
    } else if k == "tpu_max_connections_per_ipaddr_per_minute"@ {
        Some(match as_u64v(v) {
            Some(n) => Some(ConfigV { tpu_max_connections_per_ipaddr_per_minute: Some(n), ..c }),
            None => None,
        })
    } else if k == "tpu_max_staked_connections"@ {
        Some(match as_usizev(v) {
            Some(n) => Some(ConfigV { tpu_max_staked_connections: Some(n), ..c }),
            None => None,
        })
    } else if k == "tpu_max_unstaked_connections"@ {
        Some(match as_usizev(v) {
            Some(n) => Some(ConfigV { tpu_max_unstaked_connections: Some(n), ..c }),
            None => None,
        })
    } else if k == "tpu_max_streams_per_ms"@ {
        Some(match as_usizev(v) {
            Some(n) => Some(ConfigV { tpu_max_streams_per_ms: Some(n), ..c }),
            None => None,
        })
    } else {
        None
    }
}

pub open spec fn apply_snapshot(c: ConfigV, k: Seq<char>, v: ValueV) -> Option<Option<ConfigV>> {
    if k == "snapshot_version"@ {
        Some(match as_string(v) {
            Some(s) => Some(ConfigV { snapshot_version: Some(s), ..c }),
            None => None,
        })
    } else if k == "snapshot_archive_format"@ {
        Some(match as_string(v) {
            Some(s) => Some(ConfigV { snapshot_archive_format: Some(s), ..c }),
            None => None,
        })
    } else if k == "full_snapshot_archive_interval_slots"@ {
        Some(match as_u64v(v) {
            Some(n) => Some(ConfigV { full_snapshot_archive_interval_slots: Some(n), ..c }),
            None => None,
        })
    } else if k == "incremental_snapshot_archive_interval_slots"@ {
        Some(match as_u64v(v) {
            Some(n) => Some(ConfigV { incremental_snapshot_archive_interval_slots: Some(n), ..c }),
            None => None,
        })
    } else if k == "maximum_full_snapshot_archives_to_retain"@ {
        Some(match as_usizev(v) {
            Some(n) => Some(ConfigV { maximum_full_snapshot_archives_to_retain: Some(n), ..c }),
            None => None,
        })
    } else if k == "maximum_incremental_snapshot_archives_to_retain"@ {
        Some(match as_usizev(v) {
            Some(n) => Some(
                ConfigV { maximum_incremental_snapshot_archives_to_retain: Some(n), ..c },
            ),
            None => None,
        })
    } else if k == "min_snapshot_download_speed"@ {
        Some(match as_u64v(v) {
            Some(n) => Some(ConfigV { min_snapshot_download_speed: Some(n), ..c }),
            None => None,
        })
    } else if k == "max_snapshot_download_abort"@ {
        Some(match as_u32v(v) {
            Some(n) => Some(ConfigV { max_snapshot_download_abort: Some(n), ..c }),
            None => None,
        })
    } else {
        None
    }
}

pub open spec fn apply_threads(c: ConfigV, k: Seq<char>, v: ValueV) -> Option<Option<ConfigV>> {
    if k == "replay_forks_threads"@ {
        Some(match as_usizev(v) {
            Some(n) => Some(ConfigV { replay_forks_threads: Some(n), ..c }),
            None => None,
        })
    } else if k == "replay_transactions_threads"@ {
        Some(match as_usizev(v) {
            Some(n) => Some(ConfigV { replay_transactions_threads: Some(n), ..c }),
            None => None,
        })
    } else if k == "tvu_shred_sigverify_threads"@ {
        Some(match as_usizev(v) {
            Some(n) => Some(ConfigV { tvu_shred_sigverify_threads: Some(n), ..c }),
            None => None,
        })
    } else {
        None
    }
}

pub open spec fn apply_behavior(c: ConfigV, k: Seq<char>, v: ValueV) -> Option<Option<ConfigV>> {
    if k == "voting_disabled"@ {
        Some(match as_bool(v) {
            Some(b) => Some(ConfigV { voting_disabled: Some(b), ..c }),
            None => None,
        })
    } else if k == "dev_halt_at_slot"@ {
        Some(match as_u64v(v) {
            Some(n) => Some(ConfigV { dev_halt_at_slot: Some(n), ..c }),
            None => None,
        })
    } else if k == "wait_for_supermajority"@ {
        Some(match as_u64v(v) {
            Some(n) => Some(ConfigV { wait_for_supermajority: Some(n), ..c }),
            None => None,
        })
    } else if k == "expected_genesis_hash"@ {
        Some(match as_string(v) {
            Some(s) => Some(ConfigV { expected_genesis_hash: Some(s), ..c }),
            None => None,
        })
    } else if k == "expected_bank_hash"@ {
        Some(match as_string(v) {
            Some(s) => Some(ConfigV { expected_bank_hash: Some(s), ..c }),
            None => None,
        })
    } else if k == "expected_shred_version"@ {
        Some(match as_u16v(v) {
            Some(n) => Some(ConfigV { expected_shred_version: Some(n), ..c }),
            None => None,
        })
    } else if k == "no_voting"@ {
        Some(match as_bool(v) {
            Some(b) => Some(ConfigV { no_voting: Some(b), ..c }),
            None => None,
        })
    } else if k == "no_check_vote_account"@ {
        Some(match as_bool(v) {
            Some(b) => Some(ConfigV { no_check_vote_account: Some(b), ..c }),
            None => None,
        })
    } else {
        None
    }
}

pub open spec fn apply_identity(c: ConfigV, k: Seq<char>, v: ValueV) -> Option<Option<ConfigV>> {
    if k == "identity"@ {
        Some(match as_string(v) {
            Some(s) => Some(ConfigV { identity: Some(s), ..c }),
            None => None,
        })
    } else if k == "vote_account"@ {
        Some(match as_string(v) {
            Some(s) => Some(ConfigV { vote_account: Some(s), ..c }),
            None => None,
        })
    } else if k == "authorized_voter_keypairs"@ {
        Some(match as_list(v) {
            Some(l) => Some(ConfigV { authorized_voter_keypairs: Some(l), ..c }),
            None => None,
        })
    } else if k == "known_validators"@ {
        Some(match as_list(v) {
            Some(l) => Some(ConfigV { known_validators: Some(l), ..c }),
            None => None,
        })
    } else if k == "only_known_rpc"@ {
        Some(match as_bool(v) {
            Some(b) => Some(ConfigV { only_known_rpc: Some(b), ..c }),
            None => None,
        })
    } else {
        None
    }
}

pub open spec fn apply_debug(c: ConfigV, k: Seq<char>, v: ValueV) -> Option<Option<ConfigV>> {
    if k == "log_messages_bytes_limit"@ {
        Some(match as_usizev(v) {
            Some(n) => Some(ConfigV { log_messages_bytes_limit: Some(n), ..c }),
            None => None,
        })
    } else if k == "skip_startup_ledger_verification"@ {
        Some(match as_bool(v) {
            Some(b) => Some(ConfigV { skip_startup_ledger_verification: Some(b), ..c }),
            None => None,
        })
    } else if k == "skip_poh_verify"@ {
        Some(match as_bool(v) {
            Some(b) => Some(ConfigV { skip_poh_verify: Some(b), ..c }),
            None => None,
        })
    } else if k == "debug_keys"@ {
        Some(match as_list(v) {
            Some(l) => Some(ConfigV { debug_keys: Some(l), ..c }),
            None => None,
        })
    } else {
        None
    }
}

/// Applying one `key = value` pair to a schema: the named field is replaced
/// when the value has its type, a wrong type refuses the pair, and an unknown
/// key leaves the schema as it stands.
#[verifier::opaque]
pub open spec fn spec_apply(c: ConfigV, k: Seq<char>, v: ValueV) -> Option<ConfigV> {
    match apply_network(c, k, v) {
        Some(r) => r,
        None => match apply_ledger(c, k, v) {
            Some(r) => r,
            None => match apply_rpc(c, k, v) {
                Some(r) => r,
                None => match apply_perf(c, k, v) {
                    Some(r) => r,
                    None => match apply_snapshot(c, k, v) {
                        Some(r) => r,
                        None => match apply_threads(c, k, v) {
                            Some(r) => r,
                            None => match apply_behavior(c, k, v) {
                                Some(r) => r,
                                None => match apply_identity(c, k, v) {
                                    Some(r) => r,
                                    None => match apply_debug(c, k, v) {
                                        Some(r) => r,
                                        None => Some(c),
                                    },
                                },
                            },
                        },
                    },
                },
            },
        },
    }
}

/// What one line does to a schema: nothing for a blank or comment line, a
/// field update for a well-formed pair, a refusal otherwise.
pub open spec fn spec_apply_line(c: ConfigV, l: Seq<char>) -> Option<ConfigV> {
    let i = skip_sp(l, 0);
    if i >= l.len() {
        Some(c)
    } else if l[i] == '#' {
        Some(c)
    } else {
        let j = scan_key(l, i);
        if j == i {
            None
        } else {
            let k = skip_sp(l, j);
            if !(k < l.len() && l[k] == '=') {
                None
            } else {
                let m = skip_sp(l, k + 1);
                match spec_parse_value(l, m) {
                    None => None,
                    Some((v, p)) => if skip_sp(l, p) == l.len() {
                        spec_apply(c, l.subrange(i, j), v)
                    } else {
                        None
                    },
                }
            }
        }
    }
}

/// First position at or after `i` holding a newline, or the end.
pub open spec fn spec_find_nl(s: Seq<char>, i: int) -> int
    decreases s.len() - i,
    when 0 <= i <= s.len()
{
    if i < s.len() && s[i] != '\n' {
        spec_find_nl(s, i + 1)
    } else {
        i
    }
}

pub proof fn lemma_find_nl_bounds(s: Seq<char>, i: int)
    requires
        0 <= i <= s.len(),
    ensures
        i <= spec_find_nl(s, i) <= s.len(),
        spec_find_nl(s, i) < s.len() ==> s[spec_find_nl(s, i)] == '\n',
        forall|j: int| i <= j < spec_find_nl(s, i) ==> s[j] != '\n',
    decreases s.len() - i,
{
    if i < s.len() && s[i] != '\n' {
        lemma_find_nl_bounds(s, i + 1);
    }
}

/// What reading a whole text does, starting from schema `c` at position `i`:
/// lines are applied in order; the first bad line refuses the text.
pub open spec fn spec_parse_cfg(c: ConfigV, s: Seq<char>, i: int) -> Option<ConfigV>
    decreases s.len() - i,
    when 0 <= i <= s.len()
{
    let j = spec_find_nl(s, i);
    proof {
        lemma_find_nl_bounds(s, i);
    }
    match spec_apply_line(c, s.subrange(i, j)) {
        None => None,
        Some(c2) => if j >= s.len() {
            Some(c2)
        } else {
            spec_parse_cfg(c2, s, j + 1)
        },
    }
}

/// What reading a whole configuration text yields: the schema built up from
/// all-absent, or nothing when some line is bad.
pub open spec fn spec_parse(s: Seq<char>) -> Option<ConfigV> {
    spec_parse_cfg(all_absent(), s, 0)
}

pub proof fn lemma_find_nl_shift(s: Seq<char>, i: int, k: int)
    requires
        0 <= i,
        0 <= k,
        i + k <= s.len(),
    ensures
        spec_find_nl(s.skip(i), k) == spec_find_nl(s, i + k) - i,
    decreases s.len() - i - k,
{
    let t = s.skip(i);
    if i + k < s.len() && s[i + k] != '\n' {
        assert(t[k] == s[i + k]);
        lemma_find_nl_shift(s, i, k + 1);
    } else {
        if i + k < s.len() {
            assert(t[k] == s[i + k]);
        }
    }
}

/// Reading from position `i` of a text is reading the text's tail from its
/// start.
pub proof fn lemma_parse_skip(c: ConfigV, s: Seq<char>, i: int)
    requires
        0 <= i <= s.len(),
    ensures
        spec_parse_cfg(c, s, i) == spec_parse_cfg(c, s.skip(i), 0),
    decreases s.len() - i,
{
    let t = s.skip(i);
    let j = spec_find_nl(s, i);
    lemma_find_nl_bounds(s, i);
    lemma_find_nl_shift(s, i, 0);
    let j2 = spec_find_nl(t, 0);
    lemma_find_nl_bounds(t, 0);
    assert(j2 == j - i);
    assert(s.subrange(i, j) =~= t.subrange(0, j2));
    match spec_apply_line(c, s.subrange(i, j)) {
        None => {},
        Some(c2) => {
            if j >= s.len() {
                assert(j2 >= t.len());
            } else {
                lemma_parse_skip(c2, s, j + 1);
                lemma_parse_skip(c2, t, j2 + 1);
                assert(t.skip(j2 + 1) =~= s.skip(j + 1));
            }
        },
    }
}

/// Character-wise string equality.
pub fn eq_str(a: &str, b: &str) -> (r: bool)
    ensures
        r == (a@ == b@),
{
    let n = a.unicode_len();
    if n != b.unicode_len() {
        return false;
    }
    let mut i: usize = 0;
    while i < n
        invariant
            i <= n,
            n == a@.len() == b@.len(),
            forall|j: int| 0 <= j < i ==> a@[j] == b@[j],
        decreases n - i,
    {
        if a.get_char(i) != b.get_char(i) {
            return false;
        }
        i = i + 1;
    }
    proof {
        assert(a@ =~= b@);
    }
    true
}

fn take_string(v: &Value) -> (r: Option<String>)
    ensures
        r matches Some(s) ==> as_string(v@) == Some(s@),
        r is None ==> as_string(v@) is None,
{
    match v {
        Value::VStr(s) => Some(s.clone()),
        _ => None,
    }
}

fn clone_strings(v: &Vec<String>) -> (r: Vec<String>)
    ensures
        r.deep_view() == v.deep_view(),
{
    let mut r: Vec<String> = Vec::new();
    let mut i: usize = 0;
    while i < v.len()
        invariant
            i <= v.len(),
            r@.len() == i,
            forall|j: int| 0 <= j < i ==> r@[j] == v@[j],
        decreases v.len() - i,
    {
        r.push(v[i].clone());
        i = i + 1;
    }
    proof {
        assert(r.deep_view() =~= v.deep_view());
    }
    r
}

fn take_list(v: &Value) -> (r: Option<Vec<String>>)
    ensures
        r matches Some(l) ==> as_list(v@) == Some(l.deep_view()),
        r is None ==> as_list(v@) is None,
{
    match v {
        Value::VList(l) => Some(clone_strings(l)),
        _ => None,
    }
}

fn take_bool(v: &Value) -> (r: Option<bool>)
    ensures
        r == as_bool(v@),
{
    match v {
        Value::VBool(b) => Some(*b),
        _ => None,
    }
}

fn take_num_text(v: &Value) -> (r: Option<String>)
    ensures
        r matches Some(t) ==> as_num_text(v@) == Some(t@),
        r is None ==> as_num_text(v@) is None,
{
    match v {
        Value::VNum(t) => Some(t.clone()),
        _ => None,
    }
}

fn take_u64(v: &Value) -> (r: Option<u64>)
    ensures
        r == as_u64v(v@),
{
    match v {
        Value::VNum(t) => parse_u64_str(t.as_str()),
        _ => None,
    }
}

fn take_u16(v: &Value) -> (r: Option<u16>)
    ensures
        r == as_u16v(v@),
{
    match take_u64(v) {
        Some(n) => if n <= 65535 {
            Some(n as u16)
        } else {
            None
        },
        None => None,
    }
}

fn take_u32(v: &Value) -> (r: Option<u32>)
    ensures
        r == as_u32v(v@),
{
    match take_u64(v) {
        Some(n) => if n <= u32::MAX as u64 {
            Some(n as u32)
        } else {
            None
        },
        None => None,
    }
}

fn take_usize(v: &Value) -> (r: Option<usize>)
    ensures
        r == as_usizev(v@),
{
    match take_u64(v) {
        Some(n) => if n <= usize::MAX as u64 {
            Some(n as usize)
        } else {
            None
        },
        None => None,
    }
}

fn apply_network_x(c: &mut ValidatorConfig, key: &str, v: &Value) -> (r: Option<bool>)
    ensures
        apply_network(old(c)@, key@, v@) is None ==> r is None && *final(c) == *old(c),
        apply_network(old(c)@, key@, v@) matches Some(res) ==> match res {
            Some(cv) => r == Some(true) && final(c)@ =~= cv,
            None => r == Some(false),
        },
{
    if eq_str(key, "bind_address") {
        match take_string(v) {
            Some(s) => {
                c.bind_address = Some(s);
                Some(true)
            },
            None => Some(false),
        }
    } else if eq_str(key, "entrypoint") {
        match take_list(v) {
            Some(l) => {
                c.entrypoint = Some(l);
                Some(true)
            },
            None => Some(false),
        }
    } else if eq_str(key, "gossip_port") {
        match take_u16(v) {
            Some(n) => {
                c.gossip_port = Some(n);
                Some(true)
            },
            None => Some(false),
        }
    } else if eq_str(key, "gossip_host") {
        match take_string(v) {
            Some(s) => {
                c.gossip_host = Some(s);
                Some(true)
            },
            None => Some(false),
        }
    } else if eq_str(key, "dynamic_port_range") {
        match take_string(v) {
            Some(s) => {
                c.dynamic_port_range = Some(s);
                Some(true)
            },
            None => Some(false),
        }
    } else if eq_str(key, "allow_private_addr") {
        match take_bool(v) {
            Some(b) => {
                c.allow_private_addr = Some(b);
                Some(true)
            },
            None => Some(false),
        }
    } else {
        None
    }
}

fn apply_ledger_x(c: &mut ValidatorConfig, key: &str, v: &Value) -> (r: Option<bool>)
    ensures
        apply_ledger(old(c)@, key@, v@) is None ==> r is None && *final(c) == *old(c),
        apply_ledger(old(c)@, key@, v@) matches Some(res) ==> match res {
            Some(cv) => r == Some(true) && final(c)@ =~= cv,
            None => r == Some(false),
        },
{
    if eq_str(key, "ledger_path") {
        match take_string(v) {
            Some(s) => {
                c.ledger_path = Some(s);
                Some(true)
            },
            None => Some(false),
        }
    } else if eq_str(key, "accounts_path") {
        match take_list(v) {
            Some(l) => {
                c.accounts_path = Some(l);
                Some(true)
            },
            None => Some(false),
        }
    } else if eq_str(key, "account_snapshot_paths") {
        match take_list(v) {
            Some(l) => {
                c.account_snapshot_paths = Some(l);
                Some(true)
            },
            None => Some(false),
        }
    } else if eq_str(key, "limit_ledger_size") {
        match take_u64(v) {
            Some(n) => {
                c.limit_ledger_size = Some(n);
                Some(true)
            },
            None => Some(false),
        }
    } else {
        None
    }
}

fn apply_rpc_x(c: &mut ValidatorConfig, key: &str, v: &Value) -> (r: Option<bool>)
    ensures
        apply_rpc(old(c)@, key@, v@) is None ==> r is None && *final(c) == *old(c),
        apply_rpc(old(c)@, key@, v@) matches Some(res) ==> match res {
            Some(cv) => r == Some(true) && final(c)@ =~= cv,
            None => r == Some(false),
        },
{
    if eq_str(key, "rpc_port") {
        match take_u16(v) {
            Some(n) => {
                c.rpc_port = Some(n);
                Some(true)
            },
            None => Some(false),
        }
    } else if eq_str(key, "rpc_bind_address") {
        match take_string(v) {
            Some(s) => {
                c.rpc_bind_address = Some(s);
                Some(true)
            },
            None => Some(false),
        }
    } else if eq_str(key, "enable_rpc_transaction_history") {
        match take_bool(v) {
            Some(b) => {
                c.enable_rpc_transaction_history = Some(b);
                Some(true)
            },
            None => Some(false),
        }
    } else if eq_str(key, "enable_extended_tx_metadata_storage") {
        match take_bool(v) {
            Some(b) => {
                c.enable_extended_tx_metadata_storage = Some(b);
                Some(true)
            },
            None => Some(false),
        }
    } else if eq_str(key, "rpc_threads") {
        match take_usize(v) {
            Some(n) => {
                c.rpc_threads = Some(n);
                Some(true)
            },
            None => Some(false),
        }
    } else if eq_str(key, "rpc_blocking_threads") {
        match take_usize(v) {
            Some(n) => {
                c.rpc_blocking_threads = Some(n);
                Some(true)
            },
            None => Some(false),
        }
    } else if eq_str(key, "rpc_max_request_body_size") {
        match take_usize(v) {
            Some(n) => {
                c.rpc_max_request_body_size = Some(n);
                Some(true)
            },
            None => Some(false),
        }
    } else if eq_str(key, "rpc_pubsub_max_active_subscriptions") {
        match take_usize(v) {
            Some(n) => {
                c.rpc_pubsub_max_active_subscriptions = Some(n);
                Some(true)
            },
            None => Some(false),
        }
    } else if eq_str(key, "rpc_pubsub_queue_capacity_items") {
        match take_usize(v) {
            Some(n) => {
                c.rpc_pubsub_queue_capacity_items = Some(n);
                Some(true)
            },
            None => Some(false),
        }
    } else if eq_str(key, "rpc_pubsub_queue_capacity_bytes") {
        match take_usize(v) {
            Some(n) => {
                c.rpc_pubsub_queue_capacity_bytes = Some(n);
                Some(true)
            },
            None => Some(false),
        }
    } else {
        None
    }
}

fn apply_perf_x(c: &mut ValidatorConfig, key: &str, v: &Value) -> (r: Option<bool>)
    ensures
        apply_perf(old(c)@, key@, v@) is None ==> r is None && *final(c) == *old(c),
        apply_perf(old(c)@, key@, v@) matches Some(res) ==> match res {
            Some(cv) => r == Some(true) && final(c)@ =~= cv,
            None => r == Some(false),
        },
{
    if eq_str(key, "accounts_shrink_ratio") {
        match take_num_text(v) {
            Some(t) => {
                c.accounts_shrink_ratio = Some(t);
                Some(true)
            },
            None => Some(false),
        }
    } else if eq_str(key, "accounts_shrink_optimize_total_space") {
        match take_bool(v) {
            Some(b) => {
                c.accounts_shrink_optimize_total_space = Some(b);
                Some(true)
            },
            None => Some(false),
        }
    } else if eq_str(key, "banking_trace_dir_byte_limit") {
        match take_u64(v) {
            Some(n) => {
                c.banking_trace_dir_byte_limit = Some(n);
                Some(true)
            },
            None => Some(false),
        }
    } else if eq_str(key, "tpu_connection_pool_size") {
        match take_usize(v) {
            Some(n) => {
                c.tpu_connection_pool_size = Some(n);
                Some(true)
            },
            None => Some(false),
        }
    } else if eq_str(key, "tpu_max_connections_per_peer") {
        match take_usize(v) {
            Some(n) => {
                c.tpu_max_connections_per_peer = Some(n);
                Some(true)
            },
            None => Some(false),
        }
    } else if eq_str(key, "tpu_max_connections_per_ipaddr_per_minute") {
        match take_u64(v) {
            Some(n) => {
                c.tpu_max_connections_per_ipaddr_per_minute = Some(n);
                Some(true)
            },
            None => Some(false),
        }
    } else if eq_str(key, "tpu_max_staked_connections") {
        match take_usize(v) {
            Some(n) => {
                c.tpu_max_staked_connections = Some(n);
                Some(true)
            },
            None => Some(false),
        }
    } else if eq_str(key, "tpu_max_unstaked_connections") {
        match take_usize(v) {
            Some(n) => {
                c.tpu_max_unstaked_connections = Some(n);
                Some(true)
            },
            None => Some(false),
        }
    } else if eq_str(key, "tpu_max_streams_per_ms") {
        match take_usize(v) {
            Some(n) => {
                c.tpu_max_streams_per_ms = Some(n);
                Some(true)
            },
            None => Some(false),
        }
    } else {
        None
    }
}

fn apply_snapshot_x(c: &mut ValidatorConfig, key: &str, v: &Value) -> (r: Option<bool>)
    ensures
        apply_snapshot(old(c)@, key@, v@) is None ==> r is None && *final(c) == *old(c),
        apply_snapshot(old(c)@, key@, v@) matches Some(res) ==> match res {
            Some(cv) => r == Some(true) && final(c)@ =~= cv,
            None => r == Some(false),
        },
{
    if eq_str(key, "snapshot_version") {
        match take_string(v) {
            Some(s) => {
                c.snapshot_version = Some(s);
                Some(true)
            },
            None => Some(false),
        }
    } else if eq_str(key, "snapshot_archive_format") {
        match take_string(v) {
            Some(s) => {
                c.snapshot_archive_format = Some(s);
                Some(true)
            },
            None => Some(false),
        }
    } else if eq_str(key, "full_snapshot_archive_interval_slots") {
        match take_u64(v) {
            Some(n) => {
                c.full_snapshot_archive_interval_slots = Some(n);
                Some(true)
            },
            None => Some(false),
        }
    } else if eq_str(key, "incremental_snapshot_archive_interval_slots") {
        match take_u64(v) {
            Some(n) => {
                c.incremental_snapshot_archive_interval_slots = Some(n);
                Some(true)
            },
            None => Some(false),
        }
    } else if eq_str(key, "maximum_full_snapshot_archives_to_retain") {
        match take_usize(v) {
            Some(n) => {
                c.maximum_full_snapshot_archives_to_retain = Some(n);
                Some(true)
            },
            None => Some(false),
        }
    } else if eq_str(key, "maximum_incremental_snapshot_archives_to_retain") {
        match take_usize(v) {
            Some(n) => {
                c.maximum_incremental_snapshot_archives_to_retain = Some(n);
                Some(true)
            },
            None => Some(false),
        }
    } else if eq_str(key, "min_snapshot_download_speed") {
        match take_u64(v) {
            Some(n) => {
                c.min_snapshot_download_speed = Some(n);
                Some(true)
            },
            None => Some(false),
        }
    } else if eq_str(key, "max_snapshot_download_abort") {
        match take_u32(v) {
            Some(n) => {
                c.max_snapshot_download_abort = Some(n);
                Some(true)
            },
            None => Some(false),
        }
    } else {
        None
    }
}

fn apply_threads_x(c: &mut ValidatorConfig, key: &str, v: &Value) -> (r: Option<bool>)
    ensures
        apply_threads(old(c)@, key@, v@) is None ==> r is None && *final(c) == *old(c),
        apply_threads(old(c)@, key@, v@) matches Some(res) ==> match res {
            Some(cv) => r == Some(true) && final(c)@ =~= cv,
            None => r == Some(false),
        },
{
    if eq_str(key, "replay_forks_threads") {
        match take_usize(v) {
            Some(n) => {
                c.replay_forks_threads = Some(n);
                Some(true)
            },
            None => Some(false),
        }
    } else if eq_str(key, "replay_transactions_threads") {
        match take_usize(v) {
            Some(n) => {
                c.replay_transactions_threads = Some(n);
                Some(true)
            },
            None => Some(false),
        }
    } else if eq_str(key, "tvu_shred_sigverify_threads") {
        match take_usize(v) {
            Some(n) => {
                c.tvu_shred_sigverify_threads = Some(n);
                Some(true)
            },
            None => Some(false),
        }
    } else {
        None
    }
}

fn apply_behavior_x(c: &mut ValidatorConfig, key: &str, v: &Value) -> (r: Option<bool>)
    ensures
        apply_behavior(old(c)@, key@, v@) is None ==> r is None && *final(c) == *old(c),
        apply_behavior(old(c)@, key@, v@) matches Some(res) ==> match res {
            Some(cv) => r == Some(true) && final(c)@ =~= cv,
            None => r == Some(false),
        },
{
    if eq_str(key, "voting_disabled") {
        match take_bool(v) {
            Some(b) => {
                c.voting_disabled = Some(b);
                Some(true)
            },
            None => Some(false),
        }
    } else if eq_str(key, "dev_halt_at_slot") {
        match take_u64(v) {
            Some(n) => {
                c.dev_halt_at_slot = Some(n);
                Some(true)
            },
            None => Some(false),
        }
    } else if eq_str(key, "wait_for_supermajority") {
        match take_u64(v) {
            Some(n) => {
                c.wait_for_supermajority = Some(n);
                Some(true)
            },
            None => Some(false),
        }
    } else if eq_str(key, "expected_genesis_hash") {
        match take_string(v) {
            Some(s) => {
                c.expected_genesis_hash = Some(s);
                Some(true)
            },
            None => Some(false),
        }
    } else if eq_str(key, "expected_bank_hash") {
        match take_string(v) {
            Some(s) => {
                c.expected_bank_hash = Some(s);
                Some(true)
            },
            None => Some(false),
        }
    } else if eq_str(key, "expected_shred_version") {
        match take_u16(v) {
            Some(n) => {
                c.expected_shred_version = Some(n);
                Some(true)
            },
            None => Some(false),
        }
    } else if eq_str(key, "no_voting") {
        match take_bool(v) {
            Some(b) => {
                c.no_voting = Some(b);
                Some(true)
            },
            None => Some(false),
        }
    } else if eq_str(key, "no_check_vote_account") {
        match take_bool(v) {
            Some(b) => {
                c.no_check_vote_account = Some(b);
                Some(true)
            },
            None => Some(false),
        }
    } else {
        None
    }
}

fn apply_identity_x(c: &mut ValidatorConfig, key: &str, v: &Value) -> (r: Option<bool>)
    ensures
        apply_identity(old(c)@, key@, v@) is None ==> r is None && *final(c) == *old(c),
        apply_identity(old(c)@, key@, v@) matches Some(res) ==> match res {
            Some(cv) => r == Some(true) && final(c)@ =~= cv,
            None => r == Some(false),
        },
{
    if eq_str(key, "identity") {
        match take_string(v) {
            Some(s) => {
                c.identity = Some(s);
                Some(true)
            },
            None => Some(false),
        }
    } else if eq_str(key, "vote_account") {
        match take_string(v) {
            Some(s) => {
                c.vote_account = Some(s);
                Some(true)
            },
            None => Some(false),
        }
    } else if eq_str(key, "authorized_voter_keypairs") {
        match take_list(v) {
            Some(l) => {
                c.authorized_voter_keypairs = Some(l);
                Some(true)
            },
            None => Some(false),
        }
    } else if eq_str(key, "known_validators") {
        match take_list(v) {
            Some(l) => {
                c.known_validators = Some(l);
                Some(true)
            },
            None => Some(false),
        }
    } else if eq_str(key, "only_known_rpc") {
        match take_bool(v) {
            Some(b) => {
                c.only_known_rpc = Some(b);
                Some(true)
            },
            None => Some(false),
        }
    } else {
        None
    }
}

fn apply_debug_x(c: &mut ValidatorConfig, key: &str, v: &Value) -> (r: Option<bool>)
    ensures
        apply_debug(old(c)@, key@, v@) is None ==> r is None && *final(c) == *old(c),
        apply_debug(old(c)@, key@, v@) matches Some(res) ==> match res {
            Some(cv) => r == Some(true) && final(c)@ =~= cv,
            None => r == Some(false),
        },
{
    if eq_str(key, "log_messages_bytes_limit") {
        match take_usize(v) {
            Some(n) => {
                c.log_messages_bytes_limit = Some(n);
                Some(true)
            },
            None => Some(false),
        }
    } else if eq_str(key, "skip_startup_ledger_verification") {
        match take_bool(v) {
            Some(b) => {
                c.skip_startup_ledger_verification = Some(b);
                Some(true)
            },
            None => Some(false),
        }
    } else if eq_str(key, "skip_poh_verify") {
        match take_bool(v) {
            Some(b) => {
                c.skip_poh_verify = Some(b);
                Some(true)
            },
            None => Some(false),
        }
    } else if eq_str(key, "debug_keys") {
        match take_list(v) {
            Some(l) => {
                c.debug_keys = Some(l);
                Some(true)
            },
            None => Some(false),
        }
    } else {
        None
    }
}

/// Apply one `key = value` pair to the schema.
pub fn apply_field(c: &mut ValidatorConfig, key: &str, v: &Value) -> (r: bool)
    ensures
        spec_apply(old(c)@, key@, v@) matches Some(cv) ==> r && final(c)@ == cv,
        spec_apply(old(c)@, key@, v@) is None ==> !r,
{
    proof {
        reveal(spec_apply);
    }
    if let Some(b) = apply_network_x(c, key, v) {
        return b;
    }
    if let Some(b) = apply_ledger_x(c, key, v) {
        return b;
    }
    if let Some(b) = apply_rpc_x(c, key, v) {
        return b;
    }
    if let Some(b) = apply_perf_x(c, key, v) {
        return b;
    }
    if let Some(b) = apply_snapshot_x(c, key, v) {
        return b;
    }
    if let Some(b) = apply_threads_x(c, key, v) {
        return b;
    }
    if let Some(b) = apply_behavior_x(c, key, v) {
        return b;
    }
    if let Some(b) = apply_identity_x(c, key, v) {
        return b;
    }
    if let Some(b) = apply_debug_x(c, key, v) {
        return b;
    }
    true
}

/// Apply one line of configuration text to the schema.
pub fn apply_line_x(c: &mut ValidatorConfig, line: &str) -> (r: bool)
    ensures
        spec_apply_line(old(c)@, line@) matches Some(cv) ==> r && final(c)@ == cv,
        spec_apply_line(old(c)@, line@) is None ==> !r,
{
    let n = line.unicode_len();
    let i = skip_sp_x(line, 0);
    if i >= n {
        return true;
    }
    if line.get_char(i) == '#' {
        return true;
    }
    let j = scan_key_x(line, i);
    if j == i {
        return false;
    }
    let k = skip_sp_x(line, j);
    if k >= n {
        return false;
    }
    if line.get_char(k) != '=' {
        return false;
    }
    let m = skip_sp_x(line, k + 1);
    match parse_value_x(line, m) {
        None => false,
        Some((v, p)) => {
            let e = skip_sp_x(line, p);
            if e != n {
                return false;
            }
            let key = line.substring_char(i, j);
            apply_field(c, key, &v)
        },
    }
}

fn find_nl_x(s: &str, i: usize) -> (r: usize)
    requires
        i <= s@.len(),
    ensures
        r == spec_find_nl(s@, i as int),
        i <= r <= s@.len(),
{
    let n = s.unicode_len();
    let mut j = i;
    while j < n
        invariant
            i <= j <= n,
            n == s@.len(),
            spec_find_nl(s@, i as int) == spec_find_nl(s@, j as int),
        decreases n - j,
    {
        let c = s.get_char(j);
        if c == '\n' {
            return j;
        }
        j = j + 1;
    }
    j
}

/// Read a whole configuration text into a schema.
///
/// Returns the schema exactly when the text is well formed; the first bad
/// line refuses the whole text, and no partial result escapes.
pub fn parse_config_str(s: &str) -> (r: Result<ValidatorConfig, ConfigError>)
    ensures
        r matches Ok(c) ==> spec_parse(s@) == Some(c@),
        r is Err ==> spec_parse(s@) is None,
{
    let n = s.unicode_len();
    let mut c = ValidatorConfig::default();
    let mut i: usize = 0;
    loop
        invariant
            i <= n,
            n == s@.len(),
            spec_parse(s@) == spec_parse_cfg(c@, s@, i as int),
        decreases n - i,
    {
        let j = find_nl_x(s, i);
        let line = s.substring_char(i, j);
        let ghost c_before = c@;
        let ok = apply_line_x(&mut c, line);
        proof {
            lemma_find_nl_bounds(s@, i as int);
        }
        if !ok {
            return Err(ConfigError::Parse);
        }
        if j >= n {
            return Ok(c);
        }
        i = j + 1;
    }
}

} // verus!
