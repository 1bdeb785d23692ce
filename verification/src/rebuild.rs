//! The fold of a schema's own pairs rebuilds the schema: the last step of
//! the save/load round trip, and the round-trip law itself.
use vstd::prelude::*;

use crate::num::{dec_digits, lemma_dec_roundtrip};
use crate::reader::{
    as_bool, as_list, as_num_text, as_string, as_u16v, as_u32v, as_u64v, as_usizev, spec_apply,
    spec_parse,
};
use crate::schema::{all_absent, wf_config, ConfigV};
use crate::value::ValueV;
use crate::writer::{
    on_u16, on_u32, on_u64, on_usize, pairs_behavior, pairs_debug, pairs_identity, pairs_ledger,
    pairs_network, pairs_of, pairs_perf, pairs_rpc, pairs_snapshot, pairs_threads, seg_bool,
    seg_dec, seg_list, seg_nat, seg_str, spec_render,
};
use crate::roundtrip::{fold_pairs, lemma_render_parses};

verus! {

pub open spec fn opt_or<T>(a: Option<T>, b: Option<T>) -> Option<T> {
    if a is Some {
        a
    } else {
        b
    }
}

proof fn lemma_fold_one_seg(c: ConfigV, seg: Seq<(Seq<char>, ValueV)>)
    requires
        seg.len() <= 1,
    ensures
        fold_pairs(c, seg) == (if seg.len() == 0 {
            Some(c)
        } else {
            match spec_apply(c, seg[0].0, seg[0].1) {
                Some(c1) => Some(c1),
                None => None,
            }
        }),
{
    if seg.len() == 1 {
        assert(seg.drop_first() =~= Seq::<(Seq<char>, ValueV)>::empty());
        match spec_apply(c, seg[0].0, seg[0].1) {
            Some(c1) => {
                assert(fold_pairs(c1, Seq::<(Seq<char>, ValueV)>::empty()) == Some(c1));
            },
            None => {},
        }
    }
}

proof fn lemma_fold_append(c: ConfigV, a: Seq<(Seq<char>, ValueV)>, b: Seq<(Seq<char>, ValueV)>)
    ensures
        fold_pairs(c, a + b) == (match fold_pairs(c, a) {
            Some(c1) => fold_pairs(c1, b),
            None => None,
        }),
    decreases a.len(),
{
    if a.len() == 0 {
        assert(a + b =~= b);
    } else {
        assert((a + b)[0] == a[0]);
        assert((a + b).drop_first() =~= a.drop_first() + b);
        match spec_apply(c, a[0].0, a[0].1) {
            Some(c2) => {
                lemma_fold_append(c2, a.drop_first(), b);
            },
            None => {},
        }
    }
}

#[verifier::spinoff_prover]
#[verifier::rlimit(100)]
proof fn lemma_apply_bind_address(c: ConfigV, v: ValueV)
    ensures
        spec_apply(c, "bind_address"@, v) == (match as_string(v) {
            Some(s) => Some(ConfigV { bind_address: Some(s), ..c }),
            None => None,
        }),
{
    reveal(crate::reader::spec_apply);
    reveal_strlit("bind_address");

}

#[verifier::spinoff_prover]
#[verifier::rlimit(100)]
proof fn lemma_apply_entrypoint(c: ConfigV, v: ValueV)
    ensures
        spec_apply(c, "entrypoint"@, v) == (match as_list(v) {
            Some(l) => Some(ConfigV { entrypoint: Some(l), ..c }),
            None => None,
        }),
{
    reveal(crate::reader::spec_apply);
    reveal_strlit("bind_address");
    reveal_strlit("entrypoint");
    assert("entrypoint"@.len() == 10);
    assert("bind_address"@.len() == 12);
    assert("entrypoint"@ != "bind_address"@);
}

#[verifier::spinoff_prover]
#[verifier::rlimit(100)]
proof fn lemma_apply_gossip_port(c: ConfigV, v: ValueV)
    ensures
        spec_apply(c, "gossip_port"@, v) == (match as_u16v(v) {
            Some(n) => Some(ConfigV { gossip_port: Some(n), ..c }),
            None => None,
        }),
{
    reveal(crate::reader::spec_apply);
    reveal_strlit("bind_address");
    reveal_strlit("entrypoint");
    reveal_strlit("gossip_port");
    assert("gossip_port"@.len() == 11);
    assert("bind_address"@.len() == 12);
    assert("gossip_port"@ != "bind_address"@);
    assert("gossip_port"@.len() == 11);
    assert("entrypoint"@.len() == 10);
    assert("gossip_port"@ != "entrypoint"@);
}

#[verifier::spinoff_prover]
#[verifier::rlimit(100)]
proof fn lemma_apply_gossip_host(c: ConfigV, v: ValueV)
    ensures
        spec_apply(c, "gossip_host"@, v) == (match as_string(v) {
            Some(s) => Some(ConfigV { gossip_host: Some(s), ..c }),
            None => None,
        }),
{
    reveal(crate::reader::spec_apply);
    reveal_strlit("bind_address");
    reveal_strlit("entrypoint");
    reveal_strlit("gossip_port");
    reveal_strlit("gossip_host");
    assert("gossip_host"@.len() == 11);
    assert("bind_address"@.len() == 12);
    assert("gossip_host"@ != "bind_address"@);
    assert("gossip_host"@.len() == 11);
    assert("entrypoint"@.len() == 10);
    assert("gossip_host"@ != "entrypoint"@);
    assert("gossip_host"@[7] == 'h');
    assert("gossip_port"@[7] == 'p');
    assert("gossip_host"@ != "gossip_port"@);
}

#[verifier::spinoff_prover]
#[verifier::rlimit(100)]
proof fn lemma_apply_dynamic_port_range(c: ConfigV, v: ValueV)
    ensures
        spec_apply(c, "dynamic_port_range"@, v) == (match as_string(v) {
            Some(s) => Some(ConfigV { dynamic_port_range: Some(s), ..c }),
            None => None,
        }),
{
    reveal(crate::reader::spec_apply);
    reveal_strlit("bind_address");
    reveal_strlit("entrypoint");
    reveal_strlit("gossip_port");
    reveal_strlit("gossip_host");
    reveal_strlit("dynamic_port_range");
    assert("dynamic_port_range"@.len() == 18);
    assert("bind_address"@.len() == 12);
    assert("dynamic_port_range"@ != "bind_address"@);
    assert("dynamic_port_range"@.len() == 18);
    assert("entrypoint"@.len() == 10);
    assert("dynamic_port_range"@ != "entrypoint"@);
    assert("dynamic_port_range"@.len() == 18);
    assert("gossip_port"@.len() == 11);
    assert("dynamic_port_range"@ != "gossip_port"@);
    assert("dynamic_port_range"@.len() == 18);
    assert("gossip_host"@.len() == 11);
    assert("dynamic_port_range"@ != "gossip_host"@);
}

#[verifier::spinoff_prover]
#[verifier::rlimit(100)]
proof fn lemma_apply_allow_private_addr(c: ConfigV, v: ValueV)
    ensures
        spec_apply(c, "allow_private_addr"@, v) == (match as_bool(v) {
            Some(b) => Some(ConfigV { allow_private_addr: Some(b), ..c }),
            None => None,
        }),
{
    reveal(crate::reader::spec_apply);
    reveal_strlit("bind_address");
    reveal_strlit("entrypoint");
    reveal_strlit("gossip_port");
    reveal_strlit("gossip_host");
    reveal_strlit("dynamic_port_range");
    reveal_strlit("allow_private_addr");
    assert("allow_private_addr"@.len() == 18);
    assert("bind_address"@.len() == 12);
    assert("allow_private_addr"@ != "bind_address"@);
    assert("allow_private_addr"@.len() == 18);
    assert("entrypoint"@.len() == 10);
    assert("allow_private_addr"@ != "entrypoint"@);
    assert("allow_private_addr"@.len() == 18);
    assert("gossip_port"@.len() == 11);
    assert("allow_private_addr"@ != "gossip_port"@);
    assert("allow_private_addr"@.len() == 18);
    assert("gossip_host"@.len() == 11);
    assert("allow_private_addr"@ != "gossip_host"@);
    assert("allow_private_addr"@[0] == 'a');
    assert("dynamic_port_range"@[0] == 'd');
    assert("allow_private_addr"@ != "dynamic_port_range"@);
}

#[verifier::spinoff_prover]
#[verifier::rlimit(100)]
proof fn lemma_apply_ledger_path(c: ConfigV, v: ValueV)
    ensures
        spec_apply(c, "ledger_path"@, v) == (match as_string(v) {
            Some(s) => Some(ConfigV { ledger_path: Some(s), ..c }),
            None => None,
        }),
{
    reveal(crate::reader::spec_apply);
    reveal_strlit("bind_address");
    reveal_strlit("entrypoint");
    reveal_strlit("gossip_port");
    reveal_strlit("gossip_host");
    reveal_strlit("dynamic_port_range");
    reveal_strlit("allow_private_addr");
    reveal_strlit("ledger_path");
    assert("ledger_path"@.len() == 11);
    assert("bind_address"@.len() == 12);
    assert("ledger_path"@ != "bind_address"@);
    assert("ledger_path"@.len() == 11);
    assert("entrypoint"@.len() == 10);
    assert("ledger_path"@ != "entrypoint"@);
    assert("ledger_path"@[0] == 'l');
    assert("gossip_port"@[0] == 'g');
    assert("ledger_path"@ != "gossip_port"@);
    assert("ledger_path"@[0] == 'l');
    assert("gossip_host"@[0] == 'g');
    assert("ledger_path"@ != "gossip_host"@);
    assert("ledger_path"@.len() == 11);
    assert("dynamic_port_range"@.len() == 18);
    assert("ledger_path"@ != "dynamic_port_range"@);
    assert("ledger_path"@.len() == 11);
    assert("allow_private_addr"@.len() == 18);
    assert("ledger_path"@ != "allow_private_addr"@);
}

#[verifier::spinoff_prover]
#[verifier::rlimit(100)]
proof fn lemma_apply_accounts_path(c: ConfigV, v: ValueV)
    ensures
        spec_apply(c, "accounts_path"@, v) == (match as_list(v) {
            Some(l) => Some(ConfigV { accounts_path: Some(l), ..c }),
            None => None,
        }),
{
    reveal(crate::reader::spec_apply);
    reveal_strlit("bind_address");
    reveal_strlit("entrypoint");
    reveal_strlit("gossip_port");
    reveal_strlit("gossip_host");
    reveal_strlit("dynamic_port_range");
    reveal_strlit("allow_private_addr");
    reveal_strlit("ledger_path");
    reveal_strlit("accounts_path");
    assert("accounts_path"@.len() == 13);
    assert("bind_address"@.len() == 12);
    assert("accounts_path"@ != "bind_address"@);
    assert("accounts_path"@.len() == 13);
    assert("entrypoint"@.len() == 10);
    assert("accounts_path"@ != "entrypoint"@);
    assert("accounts_path"@.len() == 13);
    assert("gossip_port"@.len() == 11);
    assert("accounts_path"@ != "gossip_port"@);
    assert("accounts_path"@.len() == 13);
    assert("gossip_host"@.len() == 11);
    assert("accounts_path"@ != "gossip_host"@);
    assert("accounts_path"@.len() == 13);
    assert("dynamic_port_range"@.len() == 18);
    assert("accounts_path"@ != "dynamic_port_range"@);
    assert("accounts_path"@.len() == 13);
    assert("allow_private_addr"@.len() == 18);
    assert("accounts_path"@ != "allow_private_addr"@);
    assert("accounts_path"@.len() == 13);
    assert("ledger_path"@.len() == 11);
    assert("accounts_path"@ != "ledger_path"@);
}

#[verifier::spinoff_prover]
#[verifier::rlimit(100)]
proof fn lemma_apply_account_snapshot_paths(c: ConfigV, v: ValueV)
    ensures
        spec_apply(c, "account_snapshot_paths"@, v) == (match as_list(v) {
            Some(l) => Some(ConfigV { account_snapshot_paths: Some(l), ..c }),
            None => None,
        }),
{
    reveal(crate::reader::spec_apply);
    reveal_strlit("bind_address");
    reveal_strlit("entrypoint");
    reveal_strlit("gossip_port");
    reveal_strlit("gossip_host");
    reveal_strlit("dynamic_port_range");
    reveal_strlit("allow_private_addr");
    reveal_strlit("ledger_path");
    reveal_strlit("accounts_path");
    reveal_strlit("account_snapshot_paths");
    assert("account_snapshot_paths"@.len() == 22);
    assert("bind_address"@.len() == 12);
    assert("account_snapshot_paths"@ != "bind_address"@);
    assert("account_snapshot_paths"@.len() == 22);
    assert("entrypoint"@.len() == 10);
    assert("account_snapshot_paths"@ != "entrypoint"@);
    assert("account_snapshot_paths"@.len() == 22);
    assert("gossip_port"@.len() == 11);
    assert("account_snapshot_paths"@ != "gossip_port"@);
    assert("account_snapshot_paths"@.len() == 22);
    assert("gossip_host"@.len() == 11);
    assert("account_snapshot_paths"@ != "gossip_host"@);
    assert("account_snapshot_paths"@.len() == 22);
    assert("dynamic_port_range"@.len() == 18);
    assert("account_snapshot_paths"@ != "dynamic_port_range"@);
    assert("account_snapshot_paths"@.len() == 22);
    assert("allow_private_addr"@.len() == 18);
    assert("account_snapshot_paths"@ != "allow_private_addr"@);
    assert("account_snapshot_paths"@.len() == 22);
    assert("ledger_path"@.len() == 11);
    assert("account_snapshot_paths"@ != "ledger_path"@);
    assert("account_snapshot_paths"@.len() == 22);
    assert("accounts_path"@.len() == 13);
    assert("account_snapshot_paths"@ != "accounts_path"@);
}

#[verifier::spinoff_prover]
#[verifier::rlimit(100)]
proof fn lemma_apply_limit_ledger_size(c: ConfigV, v: ValueV)
    ensures
        spec_apply(c, "limit_ledger_size"@, v) == (match as_u64v(v) {
            Some(n) => Some(ConfigV { limit_ledger_size: Some(n), ..c }),
            None => None,
        }),
{
    reveal(crate::reader::spec_apply);
    reveal_strlit("bind_address");
    reveal_strlit("entrypoint");
    reveal_strlit("gossip_port");
    reveal_strlit("gossip_host");
    reveal_strlit("dynamic_port_range");
    reveal_strlit("allow_private_addr");
    reveal_strlit("ledger_path");
    reveal_strlit("accounts_path");
    reveal_strlit("account_snapshot_paths");
    reveal_strlit("limit_ledger_size");
    assert("limit_ledger_size"@.len() == 17);
    assert("bind_address"@.len() == 12);
    assert("limit_ledger_size"@ != "bind_address"@);
    assert("limit_ledger_size"@.len() == 17);
    assert("entrypoint"@.len() == 10);
    assert("limit_ledger_size"@ != "entrypoint"@);
    assert("limit_ledger_size"@.len() == 17);
    assert("gossip_port"@.len() == 11);
    assert("limit_ledger_size"@ != "gossip_port"@);
    assert("limit_ledger_size"@.len() == 17);
    assert("gossip_host"@.len() == 11);
    assert("limit_ledger_size"@ != "gossip_host"@);
    assert("limit_ledger_size"@.len() == 17);
    assert("dynamic_port_range"@.len() == 18);
    assert("limit_ledger_size"@ != "dynamic_port_range"@);
    assert("limit_ledger_size"@.len() == 17);
    assert("allow_private_addr"@.len() == 18);
    assert("limit_ledger_size"@ != "allow_private_addr"@);
    assert("limit_ledger_size"@.len() == 17);
    assert("ledger_path"@.len() == 11);
    assert("limit_ledger_size"@ != "ledger_path"@);
    assert("limit_ledger_size"@.len() == 17);
    assert("accounts_path"@.len() == 13);
    assert("limit_ledger_size"@ != "accounts_path"@);
    assert("limit_ledger_size"@.len() == 17);
    assert("account_snapshot_paths"@.len() == 22);
    assert("limit_ledger_size"@ != "account_snapshot_paths"@);
}

#[verifier::spinoff_prover]
#[verifier::rlimit(100)]
proof fn lemma_apply_rpc_port(c: ConfigV, v: ValueV)
    ensures
        spec_apply(c, "rpc_port"@, v) == (match as_u16v(v) {
            Some(n) => Some(ConfigV { rpc_port: Some(n), ..c }),
            None => None,
        }),
{
    reveal(crate::reader::spec_apply);
    reveal_strlit("bind_address");
    reveal_strlit("entrypoint");
    reveal_strlit("gossip_port");
    reveal_strlit("gossip_host");
    reveal_strlit("dynamic_port_range");
    reveal_strlit("allow_private_addr");
    reveal_strlit("ledger_path");
    reveal_strlit("accounts_path");
    reveal_strlit("account_snapshot_paths");
    reveal_strlit("limit_ledger_size");
    reveal_strlit("rpc_port");
    assert("rpc_port"@.len() == 8);
    assert("bind_address"@.len() == 12);
    assert("rpc_port"@ != "bind_address"@);
    assert("rpc_port"@.len() == 8);
    assert("entrypoint"@.len() == 10);
    assert("rpc_port"@ != "entrypoint"@);
    assert("rpc_port"@.len() == 8);
    assert("gossip_port"@.len() == 11);
    assert("rpc_port"@ != "gossip_port"@);
    assert("rpc_port"@.len() == 8);
    assert("gossip_host"@.len() == 11);
    assert("rpc_port"@ != "gossip_host"@);
    assert("rpc_port"@.len() == 8);
    assert("dynamic_port_range"@.len() == 18);
    assert("rpc_port"@ != "dynamic_port_range"@);
    assert("rpc_port"@.len() == 8);
    assert("allow_private_addr"@.len() == 18);
    assert("rpc_port"@ != "allow_private_addr"@);
    assert("rpc_port"@.len() == 8);
    assert("ledger_path"@.len() == 11);
    assert("rpc_port"@ != "ledger_path"@);
    assert("rpc_port"@.len() == 8);
    assert("accounts_path"@.len() == 13);
    assert("rpc_port"@ != "accounts_path"@);
    assert("rpc_port"@.len() == 8);
    assert("account_snapshot_paths"@.len() == 22);
    assert("rpc_port"@ != "account_snapshot_paths"@);
    assert("rpc_port"@.len() == 8);
    assert("limit_ledger_size"@.len() == 17);
    assert("rpc_port"@ != "limit_ledger_size"@);
}

#[verifier::spinoff_prover]
#[verifier::rlimit(100)]
proof fn lemma_apply_rpc_bind_address(c: ConfigV, v: ValueV)
    ensures
        spec_apply(c, "rpc_bind_address"@, v) == (match as_string(v) {
            Some(s) => Some(ConfigV { rpc_bind_address: Some(s), ..c }),
            None => None,
        }),
{
    reveal(crate::reader::spec_apply);
    reveal_strlit("bind_address");
    reveal_strlit("entrypoint");
    reveal_strlit("gossip_port");
    reveal_strlit("gossip_host");
    reveal_strlit("dynamic_port_range");
    reveal_strlit("allow_private_addr");
    reveal_strlit("ledger_path");
    reveal_strlit("accounts_path");
    reveal_strlit("account_snapshot_paths");
    reveal_strlit("limit_ledger_size");
    reveal_strlit("rpc_port");
    reveal_strlit("rpc_bind_address");
    assert("rpc_bind_address"@.len() == 16);
    assert("bind_address"@.len() == 12);
    assert("rpc_bind_address"@ != "bind_address"@);
    assert("rpc_bind_address"@.len() == 16);
    assert("entrypoint"@.len() == 10);
    assert("rpc_bind_address"@ != "entrypoint"@);
    assert("rpc_bind_address"@.len() == 16);
    assert("gossip_port"@.len() == 11);
    assert("rpc_bind_address"@ != "gossip_port"@);
    assert("rpc_bind_address"@.len() == 16);
    assert("gossip_host"@.len() == 11);
    assert("rpc_bind_address"@ != "gossip_host"@);
    assert("rpc_bind_address"@.len() == 16);
    assert("dynamic_port_range"@.len() == 18);
    assert("rpc_bind_address"@ != "dynamic_port_range"@);
    assert("rpc_bind_address"@.len() == 16);
    assert("allow_private_addr"@.len() == 18);
    assert("rpc_bind_address"@ != "allow_private_addr"@);
    assert("rpc_bind_address"@.len() == 16);
    assert("ledger_path"@.len() == 11);
    assert("rpc_bind_address"@ != "ledger_path"@);
    assert("rpc_bind_address"@.len() == 16);
    assert("accounts_path"@.len() == 13);
    assert("rpc_bind_address"@ != "accounts_path"@);
    assert("rpc_bind_address"@.len() == 16);
    assert("account_snapshot_paths"@.len() == 22);
    assert("rpc_bind_address"@ != "account_snapshot_paths"@);
    assert("rpc_bind_address"@.len() == 16);
    assert("limit_ledger_size"@.len() == 17);
    assert("rpc_bind_address"@ != "limit_ledger_size"@);
    assert("rpc_bind_address"@.len() == 16);
    assert("rpc_port"@.len() == 8);
    assert("rpc_bind_address"@ != "rpc_port"@);
}

#[verifier::spinoff_prover]
#[verifier::rlimit(100)]
proof fn lemma_apply_enable_rpc_transaction_history(c: ConfigV, v: ValueV)
    ensures
        spec_apply(c, "enable_rpc_transaction_history"@, v) == (match as_bool(v) {
            Some(b) => Some(ConfigV { enable_rpc_transaction_history: Some(b), ..c }),
            None => None,
        }),
{
    reveal(crate::reader::spec_apply);
    reveal_strlit("bind_address");
    reveal_strlit("entrypoint");
    reveal_strlit("gossip_port");
    reveal_strlit("gossip_host");
    reveal_strlit("dynamic_port_range");
    reveal_strlit("allow_private_addr");
    reveal_strlit("ledger_path");
    reveal_strlit("accounts_path");
    reveal_strlit("account_snapshot_paths");
    reveal_strlit("limit_ledger_size");
    reveal_strlit("rpc_port");
    reveal_strlit("rpc_bind_address");
    reveal_strlit("enable_rpc_transaction_history");
    assert("enable_rpc_transaction_history"@.len() == 30);
    assert("bind_address"@.len() == 12);
    assert("enable_rpc_transaction_history"@ != "bind_address"@);
    assert("enable_rpc_transaction_history"@.len() == 30);
    assert("entrypoint"@.len() == 10);
    assert("enable_rpc_transaction_history"@ != "entrypoint"@);
    assert("enable_rpc_transaction_history"@.len() == 30);
    assert("gossip_port"@.len() == 11);
    assert("enable_rpc_transaction_history"@ != "gossip_port"@);
    assert("enable_rpc_transaction_history"@.len() == 30);
    assert("gossip_host"@.len() == 11);
    assert("enable_rpc_transaction_history"@ != "gossip_host"@);
    assert("enable_rpc_transaction_history"@.len() == 30);
    assert("dynamic_port_range"@.len() == 18);
    assert("enable_rpc_transaction_history"@ != "dynamic_port_range"@);
    assert("enable_rpc_transaction_history"@.len() == 30);
    assert("allow_private_addr"@.len() == 18);
    assert("enable_rpc_transaction_history"@ != "allow_private_addr"@);
    assert("enable_rpc_transaction_history"@.len() == 30);
    assert("ledger_path"@.len() == 11);
    assert("enable_rpc_transaction_history"@ != "ledger_path"@);
    assert("enable_rpc_transaction_history"@.len() == 30);
    assert("accounts_path"@.len() == 13);
    assert("enable_rpc_transaction_history"@ != "accounts_path"@);
    assert("enable_rpc_transaction_history"@.len() == 30);
    assert("account_snapshot_paths"@.len() == 22);
    assert("enable_rpc_transaction_history"@ != "account_snapshot_paths"@);
    assert("enable_rpc_transaction_history"@.len() == 30);
    assert("limit_ledger_size"@.len() == 17);
    assert("enable_rpc_transaction_history"@ != "limit_ledger_size"@);
    assert("enable_rpc_transaction_history"@.len() == 30);
    assert("rpc_port"@.len() == 8);
    assert("enable_rpc_transaction_history"@ != "rpc_port"@);
    assert("enable_rpc_transaction_history"@.len() == 30);
    assert("rpc_bind_address"@.len() == 16);
    assert("enable_rpc_transaction_history"@ != "rpc_bind_address"@);
}

#[verifier::spinoff_prover]
#[verifier::rlimit(100)]
proof fn lemma_apply_enable_extended_tx_metadata_storage(c: ConfigV, v: ValueV)
    ensures
        spec_apply(c, "enable_extended_tx_metadata_storage"@, v) == (match as_bool(v) {
            Some(b) => Some(ConfigV { enable_extended_tx_metadata_storage: Some(b), ..c }),
            None => None,
        }),
{
    reveal(crate::reader::spec_apply);
    reveal_strlit("bind_address");
    reveal_strlit("entrypoint");
    reveal_strlit("gossip_port");
    reveal_strlit("gossip_host");
    reveal_strlit("dynamic_port_range");
    reveal_strlit("allow_private_addr");
    reveal_strlit("ledger_path");
    reveal_strlit("accounts_path");
    reveal_strlit("account_snapshot_paths");
    reveal_strlit("limit_ledger_size");
    reveal_strlit("rpc_port");
    reveal_strlit("rpc_bind_address");
    reveal_strlit("enable_rpc_transaction_history");
    reveal_strlit("enable_extended_tx_metadata_storage");
    assert("enable_extended_tx_metadata_storage"@.len() == 35);
    assert("bind_address"@.len() == 12);
    assert("enable_extended_tx_metadata_storage"@ != "bind_address"@);
    assert("enable_extended_tx_metadata_storage"@.len() == 35);
    assert("entrypoint"@.len() == 10);
    assert("enable_extended_tx_metadata_storage"@ != "entrypoint"@);
    assert("enable_extended_tx_metadata_storage"@.len() == 35);
    assert("gossip_port"@.len() == 11);
    assert("enable_extended_tx_metadata_storage"@ != "gossip_port"@);
    assert("enable_extended_tx_metadata_storage"@.len() == 35);
    assert("gossip_host"@.len() == 11);
    assert("enable_extended_tx_metadata_storage"@ != "gossip_host"@);
    assert("enable_extended_tx_metadata_storage"@.len() == 35);
    assert("dynamic_port_range"@.len() == 18);
    assert("enable_extended_tx_metadata_storage"@ != "dynamic_port_range"@);
    assert("enable_extended_tx_metadata_storage"@.len() == 35);
    assert("allow_private_addr"@.len() == 18);
    assert("enable_extended_tx_metadata_storage"@ != "allow_private_addr"@);
    assert("enable_extended_tx_metadata_storage"@.len() == 35);
    assert("ledger_path"@.len() == 11);
    assert("enable_extended_tx_metadata_storage"@ != "ledger_path"@);
    assert("enable_extended_tx_metadata_storage"@.len() == 35);
    assert("accounts_path"@.len() == 13);
    assert("enable_extended_tx_metadata_storage"@ != "accounts_path"@);
    assert("enable_extended_tx_metadata_storage"@.len() == 35);
    assert("account_snapshot_paths"@.len() == 22);
    assert("enable_extended_tx_metadata_storage"@ != "account_snapshot_paths"@);
    assert("enable_extended_tx_metadata_storage"@.len() == 35);
    assert("limit_ledger_size"@.len() == 17);
    assert("enable_extended_tx_metadata_storage"@ != "limit_ledger_size"@);
    assert("enable_extended_tx_metadata_storage"@.len() == 35);
    assert("rpc_port"@.len() == 8);
    assert("enable_extended_tx_metadata_storage"@ != "rpc_port"@);
    assert("enable_extended_tx_metadata_storage"@.len() == 35);
    assert("rpc_bind_address"@.len() == 16);
    assert("enable_extended_tx_metadata_storage"@ != "rpc_bind_address"@);
    assert("enable_extended_tx_metadata_storage"@.len() == 35);
    assert("enable_rpc_transaction_history"@.len() == 30);
    assert("enable_extended_tx_metadata_storage"@ != "enable_rpc_transaction_history"@);
}

#[verifier::spinoff_prover]
#[verifier::rlimit(100)]
proof fn lemma_apply_rpc_threads(c: ConfigV, v: ValueV)
    ensures
        spec_apply(c, "rpc_threads"@, v) == (match as_usizev(v) {
            Some(n) => Some(ConfigV { rpc_threads: Some(n), ..c }),
            None => None,
        }),
{
    reveal(crate::reader::spec_apply);
    reveal_strlit("bind_address");
    reveal_strlit("entrypoint");
    reveal_strlit("gossip_port");
    reveal_strlit("gossip_host");
    reveal_strlit("dynamic_port_range");
    reveal_strlit("allow_private_addr");
    reveal_strlit("ledger_path");
    reveal_strlit("accounts_path");
    reveal_strlit("account_snapshot_paths");
    reveal_strlit("limit_ledger_size");
    reveal_strlit("rpc_port");
    reveal_strlit("rpc_bind_address");
    reveal_strlit("enable_rpc_transaction_history");
    reveal_strlit("enable_extended_tx_metadata_storage");
    reveal_strlit("rpc_threads");
    assert("rpc_threads"@.len() == 11);
    assert("bind_address"@.len() == 12);
    assert("rpc_threads"@ != "bind_address"@);
    assert("rpc_threads"@.len() == 11);
    assert("entrypoint"@.len() == 10);
    assert("rpc_threads"@ != "entrypoint"@);
    assert("rpc_threads"@[0] == 'r');
    assert("gossip_port"@[0] == 'g');
    assert("rpc_threads"@ != "gossip_port"@);
    assert("rpc_threads"@[0] == 'r');
    assert("gossip_host"@[0] == 'g');
    assert("rpc_threads"@ != "gossip_host"@);
    assert("rpc_threads"@.len() == 11);
    assert("dynamic_port_range"@.len() == 18);
    assert("rpc_threads"@ != "dynamic_port_range"@);
    assert("rpc_threads"@.len() == 11);
    assert("allow_private_addr"@.len() == 18);
    assert("rpc_threads"@ != "allow_private_addr"@);
    assert("rpc_threads"@[0] == 'r');
    assert("ledger_path"@[0] == 'l');
    assert("rpc_threads"@ != "ledger_path"@);
    assert("rpc_threads"@.len() == 11);
    assert("accounts_path"@.len() == 13);
    assert("rpc_threads"@ != "accounts_path"@);
    assert("rpc_threads"@.len() == 11);
    assert("account_snapshot_paths"@.len() == 22);
    assert("rpc_threads"@ != "account_snapshot_paths"@);
    assert("rpc_threads"@.len() == 11);
    assert("limit_ledger_size"@.len() == 17);
    assert("rpc_threads"@ != "limit_ledger_size"@);
    assert("rpc_threads"@.len() == 11);
    assert("rpc_port"@.len() == 8);
    assert("rpc_threads"@ != "rpc_port"@);
    assert("rpc_threads"@.len() == 11);
    assert("rpc_bind_address"@.len() == 16);
    assert("rpc_threads"@ != "rpc_bind_address"@);
    assert("rpc_threads"@.len() == 11);
    assert("enable_rpc_transaction_history"@.len() == 30);
    assert("rpc_threads"@ != "enable_rpc_transaction_history"@);
    assert("rpc_threads"@.len() == 11);
    assert("enable_extended_tx_metadata_storage"@.len() == 35);
    assert("rpc_threads"@ != "enable_extended_tx_metadata_storage"@);
}

#[verifier::spinoff_prover]
#[verifier::rlimit(100)]
proof fn lemma_apply_rpc_blocking_threads(c: ConfigV, v: ValueV)
    ensures
        spec_apply(c, "rpc_blocking_threads"@, v) == (match as_usizev(v) {
            Some(n) => Some(ConfigV { rpc_blocking_threads: Some(n), ..c }),
            None => None,
        }),
{
    reveal(crate::reader::spec_apply);
    reveal_strlit("bind_address");
    reveal_strlit("entrypoint");
    reveal_strlit("gossip_port");
    reveal_strlit("gossip_host");
    reveal_strlit("dynamic_port_range");
    reveal_strlit("allow_private_addr");
    reveal_strlit("ledger_path");
    reveal_strlit("accounts_path");
    reveal_strlit("account_snapshot_paths");
    reveal_strlit("limit_ledger_size");
    reveal_strlit("rpc_port");
    reveal_strlit("rpc_bind_address");
    reveal_strlit("enable_rpc_transaction_history");
    reveal_strlit("enable_extended_tx_metadata_storage");
    reveal_strlit("rpc_threads");
    reveal_strlit("rpc_blocking_threads");
    assert("rpc_blocking_threads"@.len() == 20);
    assert("bind_address"@.len() == 12);
    assert("rpc_blocking_threads"@ != "bind_address"@);
    assert("rpc_blocking_threads"@.len() == 20);
    assert("entrypoint"@.len() == 10);
    assert("rpc_blocking_threads"@ != "entrypoint"@);
    assert("rpc_blocking_threads"@.len() == 20);
    assert("gossip_port"@.len() == 11);
    assert("rpc_blocking_threads"@ != "gossip_port"@);
    assert("rpc_blocking_threads"@.len() == 20);
    assert("gossip_host"@.len() == 11);
    assert("rpc_blocking_threads"@ != "gossip_host"@);
    assert("rpc_blocking_threads"@.len() == 20);
    assert("dynamic_port_range"@.len() == 18);
    assert("rpc_blocking_threads"@ != "dynamic_port_range"@);
    assert("rpc_blocking_threads"@.len() == 20);
    assert("allow_private_addr"@.len() == 18);
    assert("rpc_blocking_threads"@ != "allow_private_addr"@);
    assert("rpc_blocking_threads"@.len() == 20);
    assert("ledger_path"@.len() == 11);
    assert("rpc_blocking_threads"@ != "ledger_path"@);
    assert("rpc_blocking_threads"@.len() == 20);
    assert("accounts_path"@.len() == 13);
    assert("rpc_blocking_threads"@ != "accounts_path"@);
    assert("rpc_blocking_threads"@.len() == 20);
    assert("account_snapshot_paths"@.len() == 22);
    assert("rpc_blocking_threads"@ != "account_snapshot_paths"@);
    assert("rpc_blocking_threads"@.len() == 20);
    assert("limit_ledger_size"@.len() == 17);
    assert("rpc_blocking_threads"@ != "limit_ledger_size"@);
    assert("rpc_blocking_threads"@.len() == 20);
    assert("rpc_port"@.len() == 8);
    assert("rpc_blocking_threads"@ != "rpc_port"@);
    assert("rpc_blocking_threads"@.len() == 20);
    assert("rpc_bind_address"@.len() == 16);
    assert("rpc_blocking_threads"@ != "rpc_bind_address"@);
    assert("rpc_blocking_threads"@.len() == 20);
    assert("enable_rpc_transaction_history"@.len() == 30);
    assert("rpc_blocking_threads"@ != "enable_rpc_transaction_history"@);
    assert("rpc_blocking_threads"@.len() == 20);
    assert("enable_extended_tx_metadata_storage"@.len() == 35);
    assert("rpc_blocking_threads"@ != "enable_extended_tx_metadata_storage"@);
    assert("rpc_blocking_threads"@.len() == 20);
    assert("rpc_threads"@.len() == 11);
    assert("rpc_blocking_threads"@ != "rpc_threads"@);
}

#[verifier::spinoff_prover]
#[verifier::rlimit(100)]
proof fn lemma_apply_rpc_max_request_body_size(c: ConfigV, v: ValueV)
    ensures
        spec_apply(c, "rpc_max_request_body_size"@, v) == (match as_usizev(v) {
            Some(n) => Some(ConfigV { rpc_max_request_body_size: Some(n), ..c }),
            None => None,
        }),
{
    reveal(crate::reader::spec_apply);
    reveal_strlit("bind_address");
    reveal_strlit("entrypoint");
    reveal_strlit("gossip_port");
    reveal_strlit("gossip_host");
    reveal_strlit("dynamic_port_range");
    reveal_strlit("allow_private_addr");
    reveal_strlit("ledger_path");
    reveal_strlit("accounts_path");
    reveal_strlit("account_snapshot_paths");
    reveal_strlit("limit_ledger_size");
    reveal_strlit("rpc_port");
    reveal_strlit("rpc_bind_address");
    reveal_strlit("enable_rpc_transaction_history");
    reveal_strlit("enable_extended_tx_metadata_storage");
    reveal_strlit("rpc_threads");
    reveal_strlit("rpc_blocking_threads");
    reveal_strlit("rpc_max_request_body_size");
    assert("rpc_max_request_body_size"@.len() == 25);
    assert("bind_address"@.len() == 12);
    assert("rpc_max_request_body_size"@ != "bind_address"@);
    assert("rpc_max_request_body_size"@.len() == 25);
    assert("entrypoint"@.len() == 10);
    assert("rpc_max_request_body_size"@ != "entrypoint"@);
    assert("rpc_max_request_body_size"@.len() == 25);
    assert("gossip_port"@.len() == 11);
    assert("rpc_max_request_body_size"@ != "gossip_port"@);
    assert("rpc_max_request_body_size"@.len() == 25);
    assert("gossip_host"@.len() == 11);
    assert("rpc_max_request_body_size"@ != "gossip_host"@);
    assert("rpc_max_request_body_size"@.len() == 25);
    assert("dynamic_port_range"@.len() == 18);
    assert("rpc_max_request_body_size"@ != "dynamic_port_range"@);
    assert("rpc_max_request_body_size"@.len() == 25);
    assert("allow_private_addr"@.len() == 18);
    assert("rpc_max_request_body_size"@ != "allow_private_addr"@);
    assert("rpc_max_request_body_size"@.len() == 25);
    assert("ledger_path"@.len() == 11);
    assert("rpc_max_request_body_size"@ != "ledger_path"@);
    assert("rpc_max_request_body_size"@.len() == 25);
    assert("accounts_path"@.len() == 13);
    assert("rpc_max_request_body_size"@ != "accounts_path"@);
    assert("rpc_max_request_body_size"@.len() == 25);
    assert("account_snapshot_paths"@.len() == 22);
    assert("rpc_max_request_body_size"@ != "account_snapshot_paths"@);
    assert("rpc_max_request_body_size"@.len() == 25);
    assert("limit_ledger_size"@.len() == 17);
    assert("rpc_max_request_body_size"@ != "limit_ledger_size"@);
    assert("rpc_max_request_body_size"@.len() == 25);
    assert("rpc_port"@.len() == 8);
    assert("rpc_max_request_body_size"@ != "rpc_port"@);
    assert("rpc_max_request_body_size"@.len() == 25);
    assert("rpc_bind_address"@.len() == 16);
    assert("rpc_max_request_body_size"@ != "rpc_bind_address"@);
    assert("rpc_max_request_body_size"@.len() == 25);
    assert("enable_rpc_transaction_history"@.len() == 30);
    assert("rpc_max_request_body_size"@ != "enable_rpc_transaction_history"@);
    assert("rpc_max_request_body_size"@.len() == 25);
    assert("enable_extended_tx_metadata_storage"@.len() == 35);
    assert("rpc_max_request_body_size"@ != "enable_extended_tx_metadata_storage"@);
    assert("rpc_max_request_body_size"@.len() == 25);
    assert("rpc_threads"@.len() == 11);
    assert("rpc_max_request_body_size"@ != "rpc_threads"@);
    assert("rpc_max_request_body_size"@.len() == 25);
    assert("rpc_blocking_threads"@.len() == 20);
    assert("rpc_max_request_body_size"@ != "rpc_blocking_threads"@);
}

#[verifier::spinoff_prover]
#[verifier::rlimit(100)]
proof fn lemma_apply_rpc_pubsub_max_active_subscriptions(c: ConfigV, v: ValueV)
    ensures
        spec_apply(c, "rpc_pubsub_max_active_subscriptions"@, v) == (match as_usizev(v) {
            Some(n) => Some(ConfigV { rpc_pubsub_max_active_subscriptions: Some(n), ..c }),
            None => None,
        }),
{
    reveal(crate::reader::spec_apply);
    reveal_strlit("bind_address");
    reveal_strlit("entrypoint");
    reveal_strlit("gossip_port");
    reveal_strlit("gossip_host");
    reveal_strlit("dynamic_port_range");
    reveal_strlit("allow_private_addr");
    reveal_strlit("ledger_path");
    reveal_strlit("accounts_path");
    reveal_strlit("account_snapshot_paths");
    reveal_strlit("limit_ledger_size");
    reveal_strlit("rpc_port");
    reveal_strlit("rpc_bind_address");
    reveal_strlit("enable_rpc_transaction_history");
    reveal_strlit("enable_extended_tx_metadata_storage");
    reveal_strlit("rpc_threads");
    reveal_strlit("rpc_blocking_threads");
    reveal_strlit("rpc_max_request_body_size");
    reveal_strlit("rpc_pubsub_max_active_subscriptions");
    assert("rpc_pubsub_max_active_subscriptions"@.len() == 35);
    assert("bind_address"@.len() == 12);
    assert("rpc_pubsub_max_active_subscriptions"@ != "bind_address"@);
    assert("rpc_pubsub_max_active_subscriptions"@.len() == 35);
    assert("entrypoint"@.len() == 10);
    assert("rpc_pubsub_max_active_subscriptions"@ != "entrypoint"@);
    assert("rpc_pubsub_max_active_subscriptions"@.len() == 35);
    assert("gossip_port"@.len() == 11);
    assert("rpc_pubsub_max_active_subscriptions"@ != "gossip_port"@);
    assert("rpc_pubsub_max_active_subscriptions"@.len() == 35);
    assert("gossip_host"@.len() == 11);
    assert("rpc_pubsub_max_active_subscriptions"@ != "gossip_host"@);
    assert("rpc_pubsub_max_active_subscriptions"@.len() == 35);
    assert("dynamic_port_range"@.len() == 18);
    assert("rpc_pubsub_max_active_subscriptions"@ != "dynamic_port_range"@);
    assert("rpc_pubsub_max_active_subscriptions"@.len() == 35);
    assert("allow_private_addr"@.len() == 18);
    assert("rpc_pubsub_max_active_subscriptions"@ != "allow_private_addr"@);
    assert("rpc_pubsub_max_active_subscriptions"@.len() == 35);
    assert("ledger_path"@.len() == 11);
    assert("rpc_pubsub_max_active_subscriptions"@ != "ledger_path"@);
    assert("rpc_pubsub_max_active_subscriptions"@.len() == 35);
    assert("accounts_path"@.len() == 13);
    assert("rpc_pubsub_max_active_subscriptions"@ != "accounts_path"@);
    assert("rpc_pubsub_max_active_subscriptions"@.len() == 35);
    assert("account_snapshot_paths"@.len() == 22);
    assert("rpc_pubsub_max_active_subscriptions"@ != "account_snapshot_paths"@);
    assert("rpc_pubsub_max_active_subscriptions"@.len() == 35);
    assert("limit_ledger_size"@.len() == 17);
    assert("rpc_pubsub_max_active_subscriptions"@ != "limit_ledger_size"@);
    assert("rpc_pubsub_max_active_subscriptions"@.len() == 35);
    assert("rpc_port"@.len() == 8);
    assert("rpc_pubsub_max_active_subscriptions"@ != "rpc_port"@);
    assert("rpc_pubsub_max_active_subscriptions"@.len() == 35);
    assert("rpc_bind_address"@.len() == 16);
    assert("rpc_pubsub_max_active_subscriptions"@ != "rpc_bind_address"@);
    assert("rpc_pubsub_max_active_subscriptions"@.len() == 35);
    assert("enable_rpc_transaction_history"@.len() == 30);
    assert("rpc_pubsub_max_active_subscriptions"@ != "enable_rpc_transaction_history"@);
    assert("rpc_pubsub_max_active_subscriptions"@[0] == 'r');
    assert("enable_extended_tx_metadata_storage"@[0] == 'e');
    assert("rpc_pubsub_max_active_subscriptions"@ != "enable_extended_tx_metadata_storage"@);
    assert("rpc_pubsub_max_active_subscriptions"@.len() == 35);
    assert("rpc_threads"@.len() == 11);
    assert("rpc_pubsub_max_active_subscriptions"@ != "rpc_threads"@);
    assert("rpc_pubsub_max_active_subscriptions"@.len() == 35);
    assert("rpc_blocking_threads"@.len() == 20);
    assert("rpc_pubsub_max_active_subscriptions"@ != "rpc_blocking_threads"@);
    assert("rpc_pubsub_max_active_subscriptions"@.len() == 35);
    assert("rpc_max_request_body_size"@.len() == 25);
    assert("rpc_pubsub_max_active_subscriptions"@ != "rpc_max_request_body_size"@);
}

#[verifier::spinoff_prover]
#[verifier::rlimit(100)]
proof fn lemma_apply_rpc_pubsub_queue_capacity_items(c: ConfigV, v: ValueV)
    ensures
        spec_apply(c, "rpc_pubsub_queue_capacity_items"@, v) == (match as_usizev(v) {
            Some(n) => Some(ConfigV { rpc_pubsub_queue_capacity_items: Some(n), ..c }),
            None => None,
        }),
{
    reveal(crate::reader::spec_apply);
    reveal_strlit("bind_address");
    reveal_strlit("entrypoint");
    reveal_strlit("gossip_port");
    reveal_strlit("gossip_host");
    reveal_strlit("dynamic_port_range");
    reveal_strlit("allow_private_addr");
    reveal_strlit("ledger_path");
    reveal_strlit("accounts_path");
    reveal_strlit("account_snapshot_paths");
    reveal_strlit("limit_ledger_size");
    reveal_strlit("rpc_port");
    reveal_strlit("rpc_bind_address");
    reveal_strlit("enable_rpc_transaction_history");
    reveal_strlit("enable_extended_tx_metadata_storage");
    reveal_strlit("rpc_threads");
    reveal_strlit("rpc_blocking_threads");
    reveal_strlit("rpc_max_request_body_size");
    reveal_strlit("rpc_pubsub_max_active_subscriptions");
    reveal_strlit("rpc_pubsub_queue_capacity_items");
    assert("rpc_pubsub_queue_capacity_items"@.len() == 31);
    assert("bind_address"@.len() == 12);
    assert("rpc_pubsub_queue_capacity_items"@ != "bind_address"@);
    assert("rpc_pubsub_queue_capacity_items"@.len() == 31);
    assert("entrypoint"@.len() == 10);
    assert("rpc_pubsub_queue_capacity_items"@ != "entrypoint"@);
    assert("rpc_pubsub_queue_capacity_items"@.len() == 31);
    assert("gossip_port"@.len() == 11);
    assert("rpc_pubsub_queue_capacity_items"@ != "gossip_port"@);
    assert("rpc_pubsub_queue_capacity_items"@.len() == 31);
    assert("gossip_host"@.len() == 11);
    assert("rpc_pubsub_queue_capacity_items"@ != "gossip_host"@);
    assert("rpc_pubsub_queue_capacity_items"@.len() == 31);
    assert("dynamic_port_range"@.len() == 18);
    assert("rpc_pubsub_queue_capacity_items"@ != "dynamic_port_range"@);
    assert("rpc_pubsub_queue_capacity_items"@.len() == 31);
    assert("allow_private_addr"@.len() == 18);
    assert("rpc_pubsub_queue_capacity_items"@ != "allow_private_addr"@);
    assert("rpc_pubsub_queue_capacity_items"@.len() == 31);
    assert("ledger_path"@.len() == 11);
    assert("rpc_pubsub_queue_capacity_items"@ != "ledger_path"@);
    assert("rpc_pubsub_queue_capacity_items"@.len() == 31);
    assert("accounts_path"@.len() == 13);
    assert("rpc_pubsub_queue_capacity_items"@ != "accounts_path"@);
    assert("rpc_pubsub_queue_capacity_items"@.len() == 31);
    assert("account_snapshot_paths"@.len() == 22);
    assert("rpc_pubsub_queue_capacity_items"@ != "account_snapshot_paths"@);
    assert("rpc_pubsub_queue_capacity_items"@.len() == 31);
    assert("limit_ledger_size"@.len() == 17);
    assert("rpc_pubsub_queue_capacity_items"@ != "limit_ledger_size"@);
    assert("rpc_pubsub_queue_capacity_items"@.len() == 31);
    assert("rpc_port"@.len() == 8);
    assert("rpc_pubsub_queue_capacity_items"@ != "rpc_port"@);
    assert("rpc_pubsub_queue_capacity_items"@.len() == 31);
    assert("rpc_bind_address"@.len() == 16);
    assert("rpc_pubsub_queue_capacity_items"@ != "rpc_bind_address"@);
    assert("rpc_pubsub_queue_capacity_items"@.len() == 31);
    assert("enable_rpc_transaction_history"@.len() == 30);
    assert("rpc_pubsub_queue_capacity_items"@ != "enable_rpc_transaction_history"@);
    assert("rpc_pubsub_queue_capacity_items"@.len() == 31);
    assert("enable_extended_tx_metadata_storage"@.len() == 35);
    assert("rpc_pubsub_queue_capacity_items"@ != "enable_extended_tx_metadata_storage"@);
    assert("rpc_pubsub_queue_capacity_items"@.len() == 31);
    assert("rpc_threads"@.len() == 11);
    assert("rpc_pubsub_queue_capacity_items"@ != "rpc_threads"@);
    assert("rpc_pubsub_queue_capacity_items"@.len() == 31);
    assert("rpc_blocking_threads"@.len() == 20);
    assert("rpc_pubsub_queue_capacity_items"@ != "rpc_blocking_threads"@);
    assert("rpc_pubsub_queue_capacity_items"@.len() == 31);
    assert("rpc_max_request_body_size"@.len() == 25);
    assert("rpc_pubsub_queue_capacity_items"@ != "rpc_max_request_body_size"@);
    assert("rpc_pubsub_queue_capacity_items"@.len() == 31);
    assert("rpc_pubsub_max_active_subscriptions"@.len() == 35);
    assert("rpc_pubsub_queue_capacity_items"@ != "rpc_pubsub_max_active_subscriptions"@);
}

#[verifier::spinoff_prover]
#[verifier::rlimit(100)]
proof fn lemma_apply_rpc_pubsub_queue_capacity_bytes(c: ConfigV, v: ValueV)
    ensures
        spec_apply(c, "rpc_pubsub_queue_capacity_bytes"@, v) == (match as_usizev(v) {
            Some(n) => Some(ConfigV { rpc_pubsub_queue_capacity_bytes: Some(n), ..c }),
            None => None,
        }),
{
    reveal(crate::reader::spec_apply);
    reveal_strlit("bind_address");
    reveal_strlit("entrypoint");
    reveal_strlit("gossip_port");
    reveal_strlit("gossip_host");
    reveal_strlit("dynamic_port_range");
    reveal_strlit("allow_private_addr");
    reveal_strlit("ledger_path");
    reveal_strlit("accounts_path");
    reveal_strlit("account_snapshot_paths");
    reveal_strlit("limit_ledger_size");
    reveal_strlit("rpc_port");
    reveal_strlit("rpc_bind_address");
    reveal_strlit("enable_rpc_transaction_history");
    reveal_strlit("enable_extended_tx_metadata_storage");
    reveal_strlit("rpc_threads");
    reveal_strlit("rpc_blocking_threads");
    reveal_strlit("rpc_max_request_body_size");
    reveal_strlit("rpc_pubsub_max_active_subscriptions");
    reveal_strlit("rpc_pubsub_queue_capacity_items");
    reveal_strlit("rpc_pubsub_queue_capacity_bytes");
    assert("rpc_pubsub_queue_capacity_bytes"@.len() == 31);
    assert("bind_address"@.len() == 12);
    assert("rpc_pubsub_queue_capacity_bytes"@ != "bind_address"@);
    assert("rpc_pubsub_queue_capacity_bytes"@.len() == 31);
    assert("entrypoint"@.len() == 10);
    assert("rpc_pubsub_queue_capacity_bytes"@ != "entrypoint"@);
    assert("rpc_pubsub_queue_capacity_bytes"@.len() == 31);
    assert("gossip_port"@.len() == 11);
    assert("rpc_pubsub_queue_capacity_bytes"@ != "gossip_port"@);
    assert("rpc_pubsub_queue_capacity_bytes"@.len() == 31);
    assert("gossip_host"@.len() == 11);
    assert("rpc_pubsub_queue_capacity_bytes"@ != "gossip_host"@);
    assert("rpc_pubsub_queue_capacity_bytes"@.len() == 31);
    assert("dynamic_port_range"@.len() == 18);
    assert("rpc_pubsub_queue_capacity_bytes"@ != "dynamic_port_range"@);
    assert("rpc_pubsub_queue_capacity_bytes"@.len() == 31);
    assert("allow_private_addr"@.len() == 18);
    assert("rpc_pubsub_queue_capacity_bytes"@ != "allow_private_addr"@);
    assert("rpc_pubsub_queue_capacity_bytes"@.len() == 31);
    assert("ledger_path"@.len() == 11);
    assert("rpc_pubsub_queue_capacity_bytes"@ != "ledger_path"@);
    assert("rpc_pubsub_queue_capacity_bytes"@.len() == 31);
    assert("accounts_path"@.len() == 13);
    assert("rpc_pubsub_queue_capacity_bytes"@ != "accounts_path"@);
    assert("rpc_pubsub_queue_capacity_bytes"@.len() == 31);
    assert("account_snapshot_paths"@.len() == 22);
    assert("rpc_pubsub_queue_capacity_bytes"@ != "account_snapshot_paths"@);
    assert("rpc_pubsub_queue_capacity_bytes"@.len() == 31);
    assert("limit_ledger_size"@.len() == 17);
    assert("rpc_pubsub_queue_capacity_bytes"@ != "limit_ledger_size"@);
    assert("rpc_pubsub_queue_capacity_bytes"@.len() == 31);
    assert("rpc_port"@.len() == 8);
    assert("rpc_pubsub_queue_capacity_bytes"@ != "rpc_port"@);
    assert("rpc_pubsub_queue_capacity_bytes"@.len() == 31);
    assert("rpc_bind_address"@.len() == 16);
    assert("rpc_pubsub_queue_capacity_bytes"@ != "rpc_bind_address"@);
    assert("rpc_pubsub_queue_capacity_bytes"@.len() == 31);
    assert("enable_rpc_transaction_history"@.len() == 30);
    assert("rpc_pubsub_queue_capacity_bytes"@ != "enable_rpc_transaction_history"@);
    assert("rpc_pubsub_queue_capacity_bytes"@.len() == 31);
    assert("enable_extended_tx_metadata_storage"@.len() == 35);
    assert("rpc_pubsub_queue_capacity_bytes"@ != "enable_extended_tx_metadata_storage"@);
    assert("rpc_pubsub_queue_capacity_bytes"@.len() == 31);
    assert("rpc_threads"@.len() == 11);
    assert("rpc_pubsub_queue_capacity_bytes"@ != "rpc_threads"@);
    assert("rpc_pubsub_queue_capacity_bytes"@.len() == 31);
    assert("rpc_blocking_threads"@.len() == 20);
    assert("rpc_pubsub_queue_capacity_bytes"@ != "rpc_blocking_threads"@);
    assert("rpc_pubsub_queue_capacity_bytes"@.len() == 31);
    assert("rpc_max_request_body_size"@.len() == 25);
    assert("rpc_pubsub_queue_capacity_bytes"@ != "rpc_max_request_body_size"@);
    assert("rpc_pubsub_queue_capacity_bytes"@.len() == 31);
    assert("rpc_pubsub_max_active_subscriptions"@.len() == 35);
    assert("rpc_pubsub_queue_capacity_bytes"@ != "rpc_pubsub_max_active_subscriptions"@);
    assert("rpc_pubsub_queue_capacity_bytes"@[26] == 'b');
    assert("rpc_pubsub_queue_capacity_items"@[26] == 'i');
    assert("rpc_pubsub_queue_capacity_bytes"@ != "rpc_pubsub_queue_capacity_items"@);
}

#[verifier::spinoff_prover]
#[verifier::rlimit(100)]
proof fn lemma_apply_accounts_shrink_ratio(c: ConfigV, v: ValueV)
    ensures
        spec_apply(c, "accounts_shrink_ratio"@, v) == (match as_num_text(v) {
            Some(t) => Some(ConfigV { accounts_shrink_ratio: Some(t), ..c }),
            None => None,
        }),
{
    reveal(crate::reader::spec_apply);
    reveal_strlit("bind_address");
    reveal_strlit("entrypoint");
    reveal_strlit("gossip_port");
    reveal_strlit("gossip_host");
    reveal_strlit("dynamic_port_range");
    reveal_strlit("allow_private_addr");
    reveal_strlit("ledger_path");
    reveal_strlit("accounts_path");
    reveal_strlit("account_snapshot_paths");
    reveal_strlit("limit_ledger_size");
    reveal_strlit("rpc_port");
    reveal_strlit("rpc_bind_address");
    reveal_strlit("enable_rpc_transaction_history");
    reveal_strlit("enable_extended_tx_metadata_storage");
    reveal_strlit("rpc_threads");
    reveal_strlit("rpc_blocking_threads");
    reveal_strlit("rpc_max_request_body_size");
    reveal_strlit("rpc_pubsub_max_active_subscriptions");
    reveal_strlit("rpc_pubsub_queue_capacity_items");
    reveal_strlit("rpc_pubsub_queue_capacity_bytes");
    reveal_strlit("accounts_shrink_ratio");
    assert("accounts_shrink_ratio"@.len() == 21);
    assert("bind_address"@.len() == 12);
    assert("accounts_shrink_ratio"@ != "bind_address"@);
    assert("accounts_shrink_ratio"@.len() == 21);
    assert("entrypoint"@.len() == 10);
    assert("accounts_shrink_ratio"@ != "entrypoint"@);
    assert("accounts_shrink_ratio"@.len() == 21);
    assert("gossip_port"@.len() == 11);
    assert("accounts_shrink_ratio"@ != "gossip_port"@);
    assert("accounts_shrink_ratio"@.len() == 21);
    assert("gossip_host"@.len() == 11);
    assert("accounts_shrink_ratio"@ != "gossip_host"@);
    assert("accounts_shrink_ratio"@.len() == 21);
    assert("dynamic_port_range"@.len() == 18);
    assert("accounts_shrink_ratio"@ != "dynamic_port_range"@);
    assert("accounts_shrink_ratio"@.len() == 21);
    assert("allow_private_addr"@.len() == 18);
    assert("accounts_shrink_ratio"@ != "allow_private_addr"@);
    assert("accounts_shrink_ratio"@.len() == 21);
    assert("ledger_path"@.len() == 11);
    assert("accounts_shrink_ratio"@ != "ledger_path"@);
    assert("accounts_shrink_ratio"@.len() == 21);
    assert("accounts_path"@.len() == 13);
    assert("accounts_shrink_ratio"@ != "accounts_path"@);
    assert("accounts_shrink_ratio"@.len() == 21);
    assert("account_snapshot_paths"@.len() == 22);
    assert("accounts_shrink_ratio"@ != "account_snapshot_paths"@);
    assert("accounts_shrink_ratio"@.len() == 21);
    assert("limit_ledger_size"@.len() == 17);
    assert("accounts_shrink_ratio"@ != "limit_ledger_size"@);
    assert("accounts_shrink_ratio"@.len() == 21);
    assert("rpc_port"@.len() == 8);
    assert("accounts_shrink_ratio"@ != "rpc_port"@);
    assert("accounts_shrink_ratio"@.len() == 21);
    assert("rpc_bind_address"@.len() == 16);
    assert("accounts_shrink_ratio"@ != "rpc_bind_address"@);
    assert("accounts_shrink_ratio"@.len() == 21);
    assert("enable_rpc_transaction_history"@.len() == 30);
    assert("accounts_shrink_ratio"@ != "enable_rpc_transaction_history"@);
    assert("accounts_shrink_ratio"@.len() == 21);
    assert("enable_extended_tx_metadata_storage"@.len() == 35);
    assert("accounts_shrink_ratio"@ != "enable_extended_tx_metadata_storage"@);
    assert("accounts_shrink_ratio"@.len() == 21);
    assert("rpc_threads"@.len() == 11);
    assert("accounts_shrink_ratio"@ != "rpc_threads"@);
    assert("accounts_shrink_ratio"@.len() == 21);
    assert("rpc_blocking_threads"@.len() == 20);
    assert("accounts_shrink_ratio"@ != "rpc_blocking_threads"@);
    assert("accounts_shrink_ratio"@.len() == 21);
    assert("rpc_max_request_body_size"@.len() == 25);
    assert("accounts_shrink_ratio"@ != "rpc_max_request_body_size"@);
    assert("accounts_shrink_ratio"@.len() == 21);
    assert("rpc_pubsub_max_active_subscriptions"@.len() == 35);
    assert("accounts_shrink_ratio"@ != "rpc_pubsub_max_active_subscriptions"@);
    assert("accounts_shrink_ratio"@.len() == 21);
    assert("rpc_pubsub_queue_capacity_items"@.len() == 31);
    assert("accounts_shrink_ratio"@ != "rpc_pubsub_queue_capacity_items"@);
    assert("accounts_shrink_ratio"@.len() == 21);
    assert("rpc_pubsub_queue_capacity_bytes"@.len() == 31);
    assert("accounts_shrink_ratio"@ != "rpc_pubsub_queue_capacity_bytes"@);
}

#[verifier::spinoff_prover]
#[verifier::rlimit(100)]
proof fn lemma_apply_accounts_shrink_optimize_total_space(c: ConfigV, v: ValueV)
    ensures
        spec_apply(c, "accounts_shrink_optimize_total_space"@, v) == (match as_bool(v) {
            Some(b) => Some(ConfigV { accounts_shrink_optimize_total_space: Some(b), ..c }),
            None => None,
        }),
{
    reveal(crate::reader::spec_apply);
    reveal_strlit("bind_address");
    reveal_strlit("entrypoint");
    reveal_strlit("gossip_port");
    reveal_strlit("gossip_host");
    reveal_strlit("dynamic_port_range");
    reveal_strlit("allow_private_addr");
    reveal_strlit("ledger_path");
    reveal_strlit("accounts_path");
    reveal_strlit("account_snapshot_paths");
    reveal_strlit("limit_ledger_size");
    reveal_strlit("rpc_port");
    reveal_strlit("rpc_bind_address");
    reveal_strlit("enable_rpc_transaction_history");
    reveal_strlit("enable_extended_tx_metadata_storage");
    reveal_strlit("rpc_threads");
    reveal_strlit("rpc_blocking_threads");
    reveal_strlit("rpc_max_request_body_size");
    reveal_strlit("rpc_pubsub_max_active_subscriptions");
    reveal_strlit("rpc_pubsub_queue_capacity_items");
    reveal_strlit("rpc_pubsub_queue_capacity_bytes");
    reveal_strlit("accounts_shrink_ratio");
    reveal_strlit("accounts_shrink_optimize_total_space");
    assert("accounts_shrink_optimize_total_space"@.len() == 36);
    assert("bind_address"@.len() == 12);
    assert("accounts_shrink_optimize_total_space"@ != "bind_address"@);
    assert("accounts_shrink_optimize_total_space"@.len() == 36);
    assert("entrypoint"@.len() == 10);
    assert("accounts_shrink_optimize_total_space"@ != "entrypoint"@);
    assert("accounts_shrink_optimize_total_space"@.len() == 36);
    assert("gossip_port"@.len() == 11);
    assert("accounts_shrink_optimize_total_space"@ != "gossip_port"@);
    assert("accounts_shrink_optimize_total_space"@.len() == 36);
    assert("gossip_host"@.len() == 11);
    assert("accounts_shrink_optimize_total_space"@ != "gossip_host"@);
    assert("accounts_shrink_optimize_total_space"@.len() == 36);
    assert("dynamic_port_range"@.len() == 18);
    assert("accounts_shrink_optimize_total_space"@ != "dynamic_port_range"@);
    assert("accounts_shrink_optimize_total_space"@.len() == 36);
    assert("allow_private_addr"@.len() == 18);
    assert("accounts_shrink_optimize_total_space"@ != "allow_private_addr"@);
    assert("accounts_shrink_optimize_total_space"@.len() == 36);
    assert("ledger_path"@.len() == 11);
    assert("accounts_shrink_optimize_total_space"@ != "ledger_path"@);
    assert("accounts_shrink_optimize_total_space"@.len() == 36);
    assert("accounts_path"@.len() == 13);
    assert("accounts_shrink_optimize_total_space"@ != "accounts_path"@);
    assert("accounts_shrink_optimize_total_space"@.len() == 36);
    assert("account_snapshot_paths"@.len() == 22);
    assert("accounts_shrink_optimize_total_space"@ != "account_snapshot_paths"@);
    assert("accounts_shrink_optimize_total_space"@.len() == 36);
    assert("limit_ledger_size"@.len() == 17);
    assert("accounts_shrink_optimize_total_space"@ != "limit_ledger_size"@);
    assert("accounts_shrink_optimize_total_space"@.len() == 36);
    assert("rpc_port"@.len() == 8);
    assert("accounts_shrink_optimize_total_space"@ != "rpc_port"@);
    assert("accounts_shrink_optimize_total_space"@.len() == 36);
    assert("rpc_bind_address"@.len() == 16);
    assert("accounts_shrink_optimize_total_space"@ != "rpc_bind_address"@);
    assert("accounts_shrink_optimize_total_space"@.len() == 36);
    assert("enable_rpc_transaction_history"@.len() == 30);
    assert("accounts_shrink_optimize_total_space"@ != "enable_rpc_transaction_history"@);
    assert("accounts_shrink_optimize_total_space"@.len() == 36);
    assert("enable_extended_tx_metadata_storage"@.len() == 35);
    assert("accounts_shrink_optimize_total_space"@ != "enable_extended_tx_metadata_storage"@);
    assert("accounts_shrink_optimize_total_space"@.len() == 36);
    assert("rpc_threads"@.len() == 11);
    assert("accounts_shrink_optimize_total_space"@ != "rpc_threads"@);
    assert("accounts_shrink_optimize_total_space"@.len() == 36);
    assert("rpc_blocking_threads"@.len() == 20);
    assert("accounts_shrink_optimize_total_space"@ != "rpc_blocking_threads"@);
    assert("accounts_shrink_optimize_total_space"@.len() == 36);
    assert("rpc_max_request_body_size"@.len() == 25);
    assert("accounts_shrink_optimize_total_space"@ != "rpc_max_request_body_size"@);
    assert("accounts_shrink_optimize_total_space"@.len() == 36);
    assert("rpc_pubsub_max_active_subscriptions"@.len() == 35);
    assert("accounts_shrink_optimize_total_space"@ != "rpc_pubsub_max_active_subscriptions"@);
    assert("accounts_shrink_optimize_total_space"@.len() == 36);
    assert("rpc_pubsub_queue_capacity_items"@.len() == 31);
    assert("accounts_shrink_optimize_total_space"@ != "rpc_pubsub_queue_capacity_items"@);
    assert("accounts_shrink_optimize_total_space"@.len() == 36);
    assert("rpc_pubsub_queue_capacity_bytes"@.len() == 31);
    assert("accounts_shrink_optimize_total_space"@ != "rpc_pubsub_queue_capacity_bytes"@);
    assert("accounts_shrink_optimize_total_space"@.len() == 36);
    assert("accounts_shrink_ratio"@.len() == 21);
    assert("accounts_shrink_optimize_total_space"@ != "accounts_shrink_ratio"@);
}

#[verifier::spinoff_prover]
#[verifier::rlimit(100)]
proof fn lemma_apply_banking_trace_dir_byte_limit(c: ConfigV, v: ValueV)
    ensures
        spec_apply(c, "banking_trace_dir_byte_limit"@, v) == (match as_u64v(v) {
            Some(n) => Some(ConfigV { banking_trace_dir_byte_limit: Some(n), ..c }),
            None => None,
        }),
{
    reveal(crate::reader::spec_apply);
    reveal_strlit("bind_address");
    reveal_strlit("entrypoint");
    reveal_strlit("gossip_port");
    reveal_strlit("gossip_host");
    reveal_strlit("dynamic_port_range");
    reveal_strlit("allow_private_addr");
    reveal_strlit("ledger_path");
    reveal_strlit("accounts_path");
    reveal_strlit("account_snapshot_paths");
    reveal_strlit("limit_ledger_size");
    reveal_strlit("rpc_port");
    reveal_strlit("rpc_bind_address");
    reveal_strlit("enable_rpc_transaction_history");
    reveal_strlit("enable_extended_tx_metadata_storage");
    reveal_strlit("rpc_threads");
    reveal_strlit("rpc_blocking_threads");
    reveal_strlit("rpc_max_request_body_size");
    reveal_strlit("rpc_pubsub_max_active_subscriptions");
    reveal_strlit("rpc_pubsub_queue_capacity_items");
    reveal_strlit("rpc_pubsub_queue_capacity_bytes");
    reveal_strlit("accounts_shrink_ratio");
    reveal_strlit("accounts_shrink_optimize_total_space");
    reveal_strlit("banking_trace_dir_byte_limit");
    assert("banking_trace_dir_byte_limit"@.len() == 28);
    assert("bind_address"@.len() == 12);
    assert("banking_trace_dir_byte_limit"@ != "bind_address"@);
    assert("banking_trace_dir_byte_limit"@.len() == 28);
    assert("entrypoint"@.len() == 10);
    assert("banking_trace_dir_byte_limit"@ != "entrypoint"@);
    assert("banking_trace_dir_byte_limit"@.len() == 28);
    assert("gossip_port"@.len() == 11);
    assert("banking_trace_dir_byte_limit"@ != "gossip_port"@);
    assert("banking_trace_dir_byte_limit"@.len() == 28);
    assert("gossip_host"@.len() == 11);
    assert("banking_trace_dir_byte_limit"@ != "gossip_host"@);
    assert("banking_trace_dir_byte_limit"@.len() == 28);
    assert("dynamic_port_range"@.len() == 18);
    assert("banking_trace_dir_byte_limit"@ != "dynamic_port_range"@);
    assert("banking_trace_dir_byte_limit"@.len() == 28);
    assert("allow_private_addr"@.len() == 18);
    assert("banking_trace_dir_byte_limit"@ != "allow_private_addr"@);
    assert("banking_trace_dir_byte_limit"@.len() == 28);
    assert("ledger_path"@.len() == 11);
    assert("banking_trace_dir_byte_limit"@ != "ledger_path"@);
    assert("banking_trace_dir_byte_limit"@.len() == 28);
    assert("accounts_path"@.len() == 13);
    assert("banking_trace_dir_byte_limit"@ != "accounts_path"@);
    assert("banking_trace_dir_byte_limit"@.len() == 28);
    assert("account_snapshot_paths"@.len() == 22);
    assert("banking_trace_dir_byte_limit"@ != "account_snapshot_paths"@);
    assert("banking_trace_dir_byte_limit"@.len() == 28);
    assert("limit_ledger_size"@.len() == 17);
    assert("banking_trace_dir_byte_limit"@ != "limit_ledger_size"@);
    assert("banking_trace_dir_byte_limit"@.len() == 28);
    assert("rpc_port"@.len() == 8);
    assert("banking_trace_dir_byte_limit"@ != "rpc_port"@);
    assert("banking_trace_dir_byte_limit"@.len() == 28);
    assert("rpc_bind_address"@.len() == 16);
    assert("banking_trace_dir_byte_limit"@ != "rpc_bind_address"@);
    assert("banking_trace_dir_byte_limit"@.len() == 28);
    assert("enable_rpc_transaction_history"@.len() == 30);
    assert("banking_trace_dir_byte_limit"@ != "enable_rpc_transaction_history"@);
    assert("banking_trace_dir_byte_limit"@.len() == 28);
    assert("enable_extended_tx_metadata_storage"@.len() == 35);
    assert("banking_trace_dir_byte_limit"@ != "enable_extended_tx_metadata_storage"@);
    assert("banking_trace_dir_byte_limit"@.len() == 28);
    assert("rpc_threads"@.len() == 11);
    assert("banking_trace_dir_byte_limit"@ != "rpc_threads"@);
    assert("banking_trace_dir_byte_limit"@.len() == 28);
    assert("rpc_blocking_threads"@.len() == 20);
    assert("banking_trace_dir_byte_limit"@ != "rpc_blocking_threads"@);
    assert("banking_trace_dir_byte_limit"@.len() == 28);
    assert("rpc_max_request_body_size"@.len() == 25);
    assert("banking_trace_dir_byte_limit"@ != "rpc_max_request_body_size"@);
    assert("banking_trace_dir_byte_limit"@.len() == 28);
    assert("rpc_pubsub_max_active_subscriptions"@.len() == 35);
    assert("banking_trace_dir_byte_limit"@ != "rpc_pubsub_max_active_subscriptions"@);
    assert("banking_trace_dir_byte_limit"@.len() == 28);
    assert("rpc_pubsub_queue_capacity_items"@.len() == 31);
    assert("banking_trace_dir_byte_limit"@ != "rpc_pubsub_queue_capacity_items"@);
    assert("banking_trace_dir_byte_limit"@.len() == 28);
    assert("rpc_pubsub_queue_capacity_bytes"@.len() == 31);
    assert("banking_trace_dir_byte_limit"@ != "rpc_pubsub_queue_capacity_bytes"@);
    assert("banking_trace_dir_byte_limit"@.len() == 28);
    assert("accounts_shrink_ratio"@.len() == 21);
    assert("banking_trace_dir_byte_limit"@ != "accounts_shrink_ratio"@);
    assert("banking_trace_dir_byte_limit"@.len() == 28);
    assert("accounts_shrink_optimize_total_space"@.len() == 36);
    assert("banking_trace_dir_byte_limit"@ != "accounts_shrink_optimize_total_space"@);
}

#[verifier::spinoff_prover]
#[verifier::rlimit(100)]
proof fn lemma_apply_tpu_connection_pool_size(c: ConfigV, v: ValueV)
    ensures
        spec_apply(c, "tpu_connection_pool_size"@, v) == (match as_usizev(v) {
            Some(n) => Some(ConfigV { tpu_connection_pool_size: Some(n), ..c }),
            None => None,
        }),
{
    reveal(crate::reader::spec_apply);
    reveal_strlit("bind_address");
    reveal_strlit("entrypoint");
    reveal_strlit("gossip_port");
    reveal_strlit("gossip_host");
    reveal_strlit("dynamic_port_range");
    reveal_strlit("allow_private_addr");
    reveal_strlit("ledger_path");
    reveal_strlit("accounts_path");
    reveal_strlit("account_snapshot_paths");
    reveal_strlit("limit_ledger_size");
    reveal_strlit("rpc_port");
    reveal_strlit("rpc_bind_address");
    reveal_strlit("enable_rpc_transaction_history");
    reveal_strlit("enable_extended_tx_metadata_storage");
    reveal_strlit("rpc_threads");
    reveal_strlit("rpc_blocking_threads");
    reveal_strlit("rpc_max_request_body_size");
    reveal_strlit("rpc_pubsub_max_active_subscriptions");
    reveal_strlit("rpc_pubsub_queue_capacity_items");
    reveal_strlit("rpc_pubsub_queue_capacity_bytes");
    reveal_strlit("accounts_shrink_ratio");
    reveal_strlit("accounts_shrink_optimize_total_space");
    reveal_strlit("banking_trace_dir_byte_limit");
    reveal_strlit("tpu_connection_pool_size");
    assert("tpu_connection_pool_size"@.len() == 24);
    assert("bind_address"@.len() == 12);
    assert("tpu_connection_pool_size"@ != "bind_address"@);
    assert("tpu_connection_pool_size"@.len() == 24);
    assert("entrypoint"@.len() == 10);
    assert("tpu_connection_pool_size"@ != "entrypoint"@);
    assert("tpu_connection_pool_size"@.len() == 24);
    assert("gossip_port"@.len() == 11);
    assert("tpu_connection_pool_size"@ != "gossip_port"@);
    assert("tpu_connection_pool_size"@.len() == 24);
    assert("gossip_host"@.len() == 11);
    assert("tpu_connection_pool_size"@ != "gossip_host"@);
    assert("tpu_connection_pool_size"@.len() == 24);
    assert("dynamic_port_range"@.len() == 18);
    assert("tpu_connection_pool_size"@ != "dynamic_port_range"@);
    assert("tpu_connection_pool_size"@.len() == 24);
    assert("allow_private_addr"@.len() == 18);
    assert("tpu_connection_pool_size"@ != "allow_private_addr"@);
    assert("tpu_connection_pool_size"@.len() == 24);
    assert("ledger_path"@.len() == 11);
    assert("tpu_connection_pool_size"@ != "ledger_path"@);
    assert("tpu_connection_pool_size"@.len() == 24);
    assert("accounts_path"@.len() == 13);
    assert("tpu_connection_pool_size"@ != "accounts_path"@);
    assert("tpu_connection_pool_size"@.len() == 24);
    assert("account_snapshot_paths"@.len() == 22);
    assert("tpu_connection_pool_size"@ != "account_snapshot_paths"@);
    assert("tpu_connection_pool_size"@.len() == 24);
    assert("limit_ledger_size"@.len() == 17);
    assert("tpu_connection_pool_size"@ != "limit_ledger_size"@);
    assert("tpu_connection_pool_size"@.len() == 24);
    assert("rpc_port"@.len() == 8);
    assert("tpu_connection_pool_size"@ != "rpc_port"@);
    assert("tpu_connection_pool_size"@.len() == 24);
    assert("rpc_bind_address"@.len() == 16);
    assert("tpu_connection_pool_size"@ != "rpc_bind_address"@);
    assert("tpu_connection_pool_size"@.len() == 24);
    assert("enable_rpc_transaction_history"@.len() == 30);
    assert("tpu_connection_pool_size"@ != "enable_rpc_transaction_history"@);
    assert("tpu_connection_pool_size"@.len() == 24);
    assert("enable_extended_tx_metadata_storage"@.len() == 35);
    assert("tpu_connection_pool_size"@ != "enable_extended_tx_metadata_storage"@);
    assert("tpu_connection_pool_size"@.len() == 24);
    assert("rpc_threads"@.len() == 11);
    assert("tpu_connection_pool_size"@ != "rpc_threads"@);
    assert("tpu_connection_pool_size"@.len() == 24);
    assert("rpc_blocking_threads"@.len() == 20);
    assert("tpu_connection_pool_size"@ != "rpc_blocking_threads"@);
    assert("tpu_connection_pool_size"@.len() == 24);
    assert("rpc_max_request_body_size"@.len() == 25);
    assert("tpu_connection_pool_size"@ != "rpc_max_request_body_size"@);
    assert("tpu_connection_pool_size"@.len() == 24);
    assert("rpc_pubsub_max_active_subscriptions"@.len() == 35);
    assert("tpu_connection_pool_size"@ != "rpc_pubsub_max_active_subscriptions"@);
    assert("tpu_connection_pool_size"@.len() == 24);
    assert("rpc_pubsub_queue_capacity_items"@.len() == 31);
    assert("tpu_connection_pool_size"@ != "rpc_pubsub_queue_capacity_items"@);
    assert("tpu_connection_pool_size"@.len() == 24);
    assert("rpc_pubsub_queue_capacity_bytes"@.len() == 31);
    assert("tpu_connection_pool_size"@ != "rpc_pubsub_queue_capacity_bytes"@);
    assert("tpu_connection_pool_size"@.len() == 24);
    assert("accounts_shrink_ratio"@.len() == 21);
    assert("tpu_connection_pool_size"@ != "accounts_shrink_ratio"@);
    assert("tpu_connection_pool_size"@.len() == 24);
    assert("accounts_shrink_optimize_total_space"@.len() == 36);
    assert("tpu_connection_pool_size"@ != "accounts_shrink_optimize_total_space"@);
    assert("tpu_connection_pool_size"@.len() == 24);
    assert("banking_trace_dir_byte_limit"@.len() == 28);
    assert("tpu_connection_pool_size"@ != "banking_trace_dir_byte_limit"@);
}

#[verifier::spinoff_prover]
#[verifier::rlimit(100)]
proof fn lemma_apply_tpu_max_connections_per_peer(c: ConfigV, v: ValueV)
    ensures
        spec_apply(c, "tpu_max_connections_per_peer"@, v) == (match as_usizev(v) {
            Some(n) => Some(ConfigV { tpu_max_connections_per_peer: Some(n), ..c }),
            None => None,
        }),
{
    reveal(crate::reader::spec_apply);
    reveal_strlit("bind_address");
    reveal_strlit("entrypoint");
    reveal_strlit("gossip_port");
    reveal_strlit("gossip_host");
    reveal_strlit("dynamic_port_range");
    reveal_strlit("allow_private_addr");
    reveal_strlit("ledger_path");
    reveal_strlit("accounts_path");
    reveal_strlit("account_snapshot_paths");
    reveal_strlit("limit_ledger_size");
    reveal_strlit("rpc_port");
    reveal_strlit("rpc_bind_address");
    reveal_strlit("enable_rpc_transaction_history");
    reveal_strlit("enable_extended_tx_metadata_storage");
    reveal_strlit("rpc_threads");
    reveal_strlit("rpc_blocking_threads");
    reveal_strlit("rpc_max_request_body_size");
    reveal_strlit("rpc_pubsub_max_active_subscriptions");
    reveal_strlit("rpc_pubsub_queue_capacity_items");
    reveal_strlit("rpc_pubsub_queue_capacity_bytes");
    reveal_strlit("accounts_shrink_ratio");
    reveal_strlit("accounts_shrink_optimize_total_space");
    reveal_strlit("banking_trace_dir_byte_limit");
    reveal_strlit("tpu_connection_pool_size");
    reveal_strlit("tpu_max_connections_per_peer");
    assert("tpu_max_connections_per_peer"@.len() == 28);
    assert("bind_address"@.len() == 12);
    assert("tpu_max_connections_per_peer"@ != "bind_address"@);
    assert("tpu_max_connections_per_peer"@.len() == 28);
    assert("entrypoint"@.len() == 10);
    assert("tpu_max_connections_per_peer"@ != "entrypoint"@);
    assert("tpu_max_connections_per_peer"@.len() == 28);
    assert("gossip_port"@.len() == 11);
    assert("tpu_max_connections_per_peer"@ != "gossip_port"@);
    assert("tpu_max_connections_per_peer"@.len() == 28);
    assert("gossip_host"@.len() == 11);
    assert("tpu_max_connections_per_peer"@ != "gossip_host"@);
    assert("tpu_max_connections_per_peer"@.len() == 28);
    assert("dynamic_port_range"@.len() == 18);
    assert("tpu_max_connections_per_peer"@ != "dynamic_port_range"@);
    assert("tpu_max_connections_per_peer"@.len() == 28);
    assert("allow_private_addr"@.len() == 18);
    assert("tpu_max_connections_per_peer"@ != "allow_private_addr"@);
    assert("tpu_max_connections_per_peer"@.len() == 28);
    assert("ledger_path"@.len() == 11);
    assert("tpu_max_connections_per_peer"@ != "ledger_path"@);
    assert("tpu_max_connections_per_peer"@.len() == 28);
    assert("accounts_path"@.len() == 13);
    assert("tpu_max_connections_per_peer"@ != "accounts_path"@);
    assert("tpu_max_connections_per_peer"@.len() == 28);
    assert("account_snapshot_paths"@.len() == 22);
    assert("tpu_max_connections_per_peer"@ != "account_snapshot_paths"@);
    assert("tpu_max_connections_per_peer"@.len() == 28);
    assert("limit_ledger_size"@.len() == 17);
    assert("tpu_max_connections_per_peer"@ != "limit_ledger_size"@);
    assert("tpu_max_connections_per_peer"@.len() == 28);
    assert("rpc_port"@.len() == 8);
    assert("tpu_max_connections_per_peer"@ != "rpc_port"@);
    assert("tpu_max_connections_per_peer"@.len() == 28);
    assert("rpc_bind_address"@.len() == 16);
    assert("tpu_max_connections_per_peer"@ != "rpc_bind_address"@);
    assert("tpu_max_connections_per_peer"@.len() == 28);
    assert("enable_rpc_transaction_history"@.len() == 30);
    assert("tpu_max_connections_per_peer"@ != "enable_rpc_transaction_history"@);
    assert("tpu_max_connections_per_peer"@.len() == 28);
    assert("enable_extended_tx_metadata_storage"@.len() == 35);
    assert("tpu_max_connections_per_peer"@ != "enable_extended_tx_metadata_storage"@);
    assert("tpu_max_connections_per_peer"@.len() == 28);
    assert("rpc_threads"@.len() == 11);
    assert("tpu_max_connections_per_peer"@ != "rpc_threads"@);
    assert("tpu_max_connections_per_peer"@.len() == 28);
    assert("rpc_blocking_threads"@.len() == 20);
    assert("tpu_max_connections_per_peer"@ != "rpc_blocking_threads"@);
    assert("tpu_max_connections_per_peer"@.len() == 28);
    assert("rpc_max_request_body_size"@.len() == 25);
    assert("tpu_max_connections_per_peer"@ != "rpc_max_request_body_size"@);
    assert("tpu_max_connections_per_peer"@.len() == 28);
    assert("rpc_pubsub_max_active_subscriptions"@.len() == 35);
    assert("tpu_max_connections_per_peer"@ != "rpc_pubsub_max_active_subscriptions"@);
    assert("tpu_max_connections_per_peer"@.len() == 28);
    assert("rpc_pubsub_queue_capacity_items"@.len() == 31);
    assert("tpu_max_connections_per_peer"@ != "rpc_pubsub_queue_capacity_items"@);
    assert("tpu_max_connections_per_peer"@.len() == 28);
    assert("rpc_pubsub_queue_capacity_bytes"@.len() == 31);
    assert("tpu_max_connections_per_peer"@ != "rpc_pubsub_queue_capacity_bytes"@);
    assert("tpu_max_connections_per_peer"@.len() == 28);
    assert("accounts_shrink_ratio"@.len() == 21);
    assert("tpu_max_connections_per_peer"@ != "accounts_shrink_ratio"@);
    assert("tpu_max_connections_per_peer"@.len() == 28);
    assert("accounts_shrink_optimize_total_space"@.len() == 36);
    assert("tpu_max_connections_per_peer"@ != "accounts_shrink_optimize_total_space"@);
    assert("tpu_max_connections_per_peer"@[0] == 't');
    assert("banking_trace_dir_byte_limit"@[0] == 'b');
    assert("tpu_max_connections_per_peer"@ != "banking_trace_dir_byte_limit"@);
    assert("tpu_max_connections_per_peer"@.len() == 28);
    assert("tpu_connection_pool_size"@.len() == 24);
    assert("tpu_max_connections_per_peer"@ != "tpu_connection_pool_size"@);
}

#[verifier::spinoff_prover]
#[verifier::rlimit(100)]
proof fn lemma_apply_tpu_max_connections_per_ipaddr_per_minute(c: ConfigV, v: ValueV)
    ensures
        spec_apply(c, "tpu_max_connections_per_ipaddr_per_minute"@, v) == (match as_u64v(v) {
            Some(n) => Some(ConfigV { tpu_max_connections_per_ipaddr_per_minute: Some(n), ..c }),
            None => None,
        }),
{
    reveal(crate::reader::spec_apply);
    reveal_strlit("bind_address");
    reveal_strlit("entrypoint");
    reveal_strlit("gossip_port");
    reveal_strlit("gossip_host");
    reveal_strlit("dynamic_port_range");
    reveal_strlit("allow_private_addr");
    reveal_strlit("ledger_path");
    reveal_strlit("accounts_path");
    reveal_strlit("account_snapshot_paths");
    reveal_strlit("limit_ledger_size");
    reveal_strlit("rpc_port");
    reveal_strlit("rpc_bind_address");
    reveal_strlit("enable_rpc_transaction_history");
    reveal_strlit("enable_extended_tx_metadata_storage");
    reveal_strlit("rpc_threads");
    reveal_strlit("rpc_blocking_threads");
    reveal_strlit("rpc_max_request_body_size");
    reveal_strlit("rpc_pubsub_max_active_subscriptions");
    reveal_strlit("rpc_pubsub_queue_capacity_items");
    reveal_strlit("rpc_pubsub_queue_capacity_bytes");
    reveal_strlit("accounts_shrink_ratio");
    reveal_strlit("accounts_shrink_optimize_total_space");
    reveal_strlit("banking_trace_dir_byte_limit");
    reveal_strlit("tpu_connection_pool_size");
    reveal_strlit("tpu_max_connections_per_peer");
    reveal_strlit("tpu_max_connections_per_ipaddr_per_minute");
    assert("tpu_max_connections_per_ipaddr_per_minute"@.len() == 41);
    assert("bind_address"@.len() == 12);
    assert("tpu_max_connections_per_ipaddr_per_minute"@ != "bind_address"@);
    assert("tpu_max_connections_per_ipaddr_per_minute"@.len() == 41);
    assert("entrypoint"@.len() == 10);
    assert("tpu_max_connections_per_ipaddr_per_minute"@ != "entrypoint"@);
    assert("tpu_max_connections_per_ipaddr_per_minute"@.len() == 41);
    assert("gossip_port"@.len() == 11);
    assert("tpu_max_connections_per_ipaddr_per_minute"@ != "gossip_port"@);
    assert("tpu_max_connections_per_ipaddr_per_minute"@.len() == 41);
    assert("gossip_host"@.len() == 11);
    assert("tpu_max_connections_per_ipaddr_per_minute"@ != "gossip_host"@);
    assert("tpu_max_connections_per_ipaddr_per_minute"@.len() == 41);
    assert("dynamic_port_range"@.len() == 18);
    assert("tpu_max_connections_per_ipaddr_per_minute"@ != "dynamic_port_range"@);
    assert("tpu_max_connections_per_ipaddr_per_minute"@.len() == 41);
    assert("allow_private_addr"@.len() == 18);
    assert("tpu_max_connections_per_ipaddr_per_minute"@ != "allow_private_addr"@);
    assert("tpu_max_connections_per_ipaddr_per_minute"@.len() == 41);
    assert("ledger_path"@.len() == 11);
    assert("tpu_max_connections_per_ipaddr_per_minute"@ != "ledger_path"@);
    assert("tpu_max_connections_per_ipaddr_per_minute"@.len() == 41);
    assert("accounts_path"@.len() == 13);
    assert("tpu_max_connections_per_ipaddr_per_minute"@ != "accounts_path"@);
    assert("tpu_max_connections_per_ipaddr_per_minute"@.len() == 41);
    assert("account_snapshot_paths"@.len() == 22);
    assert("tpu_max_connections_per_ipaddr_per_minute"@ != "account_snapshot_paths"@);
    assert("tpu_max_connections_per_ipaddr_per_minute"@.len() == 41);
    assert("limit_ledger_size"@.len() == 17);
    assert("tpu_max_connections_per_ipaddr_per_minute"@ != "limit_ledger_size"@);
    assert("tpu_max_connections_per_ipaddr_per_minute"@.len() == 41);
    assert("rpc_port"@.len() == 8);
    assert("tpu_max_connections_per_ipaddr_per_minute"@ != "rpc_port"@);
    assert("tpu_max_connections_per_ipaddr_per_minute"@.len() == 41);
    assert("rpc_bind_address"@.len() == 16);
    assert("tpu_max_connections_per_ipaddr_per_minute"@ != "rpc_bind_address"@);
    assert("tpu_max_connections_per_ipaddr_per_minute"@.len() == 41);
    assert("enable_rpc_transaction_history"@.len() == 30);
    assert("tpu_max_connections_per_ipaddr_per_minute"@ != "enable_rpc_transaction_history"@);
    assert("tpu_max_connections_per_ipaddr_per_minute"@.len() == 41);
    assert("enable_extended_tx_metadata_storage"@.len() == 35);
    assert("tpu_max_connections_per_ipaddr_per_minute"@ != "enable_extended_tx_metadata_storage"@);
    assert("tpu_max_connections_per_ipaddr_per_minute"@.len() == 41);
    assert("rpc_threads"@.len() == 11);
    assert("tpu_max_connections_per_ipaddr_per_minute"@ != "rpc_threads"@);
    assert("tpu_max_connections_per_ipaddr_per_minute"@.len() == 41);
    assert("rpc_blocking_threads"@.len() == 20);
    assert("tpu_max_connections_per_ipaddr_per_minute"@ != "rpc_blocking_threads"@);
    assert("tpu_max_connections_per_ipaddr_per_minute"@.len() == 41);
    assert("rpc_max_request_body_size"@.len() == 25);
    assert("tpu_max_connections_per_ipaddr_per_minute"@ != "rpc_max_request_body_size"@);
    assert("tpu_max_connections_per_ipaddr_per_minute"@.len() == 41);
    assert("rpc_pubsub_max_active_subscriptions"@.len() == 35);
    assert("tpu_max_connections_per_ipaddr_per_minute"@ != "rpc_pubsub_max_active_subscriptions"@);
    assert("tpu_max_connections_per_ipaddr_per_minute"@.len() == 41);
    assert("rpc_pubsub_queue_capacity_items"@.len() == 31);
    assert("tpu_max_connections_per_ipaddr_per_minute"@ != "rpc_pubsub_queue_capacity_items"@);
    assert("tpu_max_connections_per_ipaddr_per_minute"@.len() == 41);
    assert("rpc_pubsub_queue_capacity_bytes"@.len() == 31);
    assert("tpu_max_connections_per_ipaddr_per_minute"@ != "rpc_pubsub_queue_capacity_bytes"@);
    assert("tpu_max_connections_per_ipaddr_per_minute"@.len() == 41);
    assert("accounts_shrink_ratio"@.len() == 21);
    assert("tpu_max_connections_per_ipaddr_per_minute"@ != "accounts_shrink_ratio"@);
    assert("tpu_max_connections_per_ipaddr_per_minute"@.len() == 41);
    assert("accounts_shrink_optimize_total_space"@.len() == 36);
    assert("tpu_max_connections_per_ipaddr_per_minute"@ != "accounts_shrink_optimize_total_space"@);
    assert("tpu_max_connections_per_ipaddr_per_minute"@.len() == 41);
    assert("banking_trace_dir_byte_limit"@.len() == 28);
    assert("tpu_max_connections_per_ipaddr_per_minute"@ != "banking_trace_dir_byte_limit"@);
    assert("tpu_max_connections_per_ipaddr_per_minute"@.len() == 41);
    assert("tpu_connection_pool_size"@.len() == 24);
    assert("tpu_max_connections_per_ipaddr_per_minute"@ != "tpu_connection_pool_size"@);
    assert("tpu_max_connections_per_ipaddr_per_minute"@.len() == 41);
    assert("tpu_max_connections_per_peer"@.len() == 28);
    assert("tpu_max_connections_per_ipaddr_per_minute"@ != "tpu_max_connections_per_peer"@);
}

#[verifier::spinoff_prover]
#[verifier::rlimit(100)]
proof fn lemma_apply_tpu_max_staked_connections(c: ConfigV, v: ValueV)
    ensures
        spec_apply(c, "tpu_max_staked_connections"@, v) == (match as_usizev(v) {
            Some(n) => Some(ConfigV { tpu_max_staked_connections: Some(n), ..c }),
            None => None,
        }),
{
    reveal(crate::reader::spec_apply);
    reveal_strlit("bind_address");
    reveal_strlit("entrypoint");
    reveal_strlit("gossip_port");
    reveal_strlit("gossip_host");
    reveal_strlit("dynamic_port_range");
    reveal_strlit("allow_private_addr");
    reveal_strlit("ledger_path");
    reveal_strlit("accounts_path");
    reveal_strlit("account_snapshot_paths");
    reveal_strlit("limit_ledger_size");
    reveal_strlit("rpc_port");
    reveal_strlit("rpc_bind_address");
    reveal_strlit("enable_rpc_transaction_history");
    reveal_strlit("enable_extended_tx_metadata_storage");
    reveal_strlit("rpc_threads");
    reveal_strlit("rpc_blocking_threads");
    reveal_strlit("rpc_max_request_body_size");
    reveal_strlit("rpc_pubsub_max_active_subscriptions");
    reveal_strlit("rpc_pubsub_queue_capacity_items");
    reveal_strlit("rpc_pubsub_queue_capacity_bytes");
    reveal_strlit("accounts_shrink_ratio");
    reveal_strlit("accounts_shrink_optimize_total_space");
    reveal_strlit("banking_trace_dir_byte_limit");
    reveal_strlit("tpu_connection_pool_size");
    reveal_strlit("tpu_max_connections_per_peer");
    reveal_strlit("tpu_max_connections_per_ipaddr_per_minute");
    reveal_strlit("tpu_max_staked_connections");
    assert("tpu_max_staked_connections"@.len() == 26);
    assert("bind_address"@.len() == 12);
    assert("tpu_max_staked_connections"@ != "bind_address"@);
    assert("tpu_max_staked_connections"@.len() == 26);
    assert("entrypoint"@.len() == 10);
    assert("tpu_max_staked_connections"@ != "entrypoint"@);
    assert("tpu_max_staked_connections"@.len() == 26);
    assert("gossip_port"@.len() == 11);
    assert("tpu_max_staked_connections"@ != "gossip_port"@);
    assert("tpu_max_staked_connections"@.len() == 26);
    assert("gossip_host"@.len() == 11);
    assert("tpu_max_staked_connections"@ != "gossip_host"@);
    assert("tpu_max_staked_connections"@.len() == 26);
    assert("dynamic_port_range"@.len() == 18);
    assert("tpu_max_staked_connections"@ != "dynamic_port_range"@);
    assert("tpu_max_staked_connections"@.len() == 26);
    assert("allow_private_addr"@.len() == 18);
    assert("tpu_max_staked_connections"@ != "allow_private_addr"@);
    assert("tpu_max_staked_connections"@.len() == 26);
    assert("ledger_path"@.len() == 11);
    assert("tpu_max_staked_connections"@ != "ledger_path"@);
    assert("tpu_max_staked_connections"@.len() == 26);
    assert("accounts_path"@.len() == 13);
    assert("tpu_max_staked_connections"@ != "accounts_path"@);
    assert("tpu_max_staked_connections"@.len() == 26);
    assert("account_snapshot_paths"@.len() == 22);
    assert("tpu_max_staked_connections"@ != "account_snapshot_paths"@);
    assert("tpu_max_staked_connections"@.len() == 26);
    assert("limit_ledger_size"@.len() == 17);
    assert("tpu_max_staked_connections"@ != "limit_ledger_size"@);
    assert("tpu_max_staked_connections"@.len() == 26);
    assert("rpc_port"@.len() == 8);
    assert("tpu_max_staked_connections"@ != "rpc_port"@);
    assert("tpu_max_staked_connections"@.len() == 26);
    assert("rpc_bind_address"@.len() == 16);
    assert("tpu_max_staked_connections"@ != "rpc_bind_address"@);
    assert("tpu_max_staked_connections"@.len() == 26);
    assert("enable_rpc_transaction_history"@.len() == 30);
    assert("tpu_max_staked_connections"@ != "enable_rpc_transaction_history"@);
    assert("tpu_max_staked_connections"@.len() == 26);
    assert("enable_extended_tx_metadata_storage"@.len() == 35);
    assert("tpu_max_staked_connections"@ != "enable_extended_tx_metadata_storage"@);
    assert("tpu_max_staked_connections"@.len() == 26);
    assert("rpc_threads"@.len() == 11);
    assert("tpu_max_staked_connections"@ != "rpc_threads"@);
    assert("tpu_max_staked_connections"@.len() == 26);
    assert("rpc_blocking_threads"@.len() == 20);
    assert("tpu_max_staked_connections"@ != "rpc_blocking_threads"@);
    assert("tpu_max_staked_connections"@.len() == 26);
    assert("rpc_max_request_body_size"@.len() == 25);
    assert("tpu_max_staked_connections"@ != "rpc_max_request_body_size"@);
    assert("tpu_max_staked_connections"@.len() == 26);
    assert("rpc_pubsub_max_active_subscriptions"@.len() == 35);
    assert("tpu_max_staked_connections"@ != "rpc_pubsub_max_active_subscriptions"@);
    assert("tpu_max_staked_connections"@.len() == 26);
    assert("rpc_pubsub_queue_capacity_items"@.len() == 31);
    assert("tpu_max_staked_connections"@ != "rpc_pubsub_queue_capacity_items"@);
    assert("tpu_max_staked_connections"@.len() == 26);
    assert("rpc_pubsub_queue_capacity_bytes"@.len() == 31);
    assert("tpu_max_staked_connections"@ != "rpc_pubsub_queue_capacity_bytes"@);
    assert("tpu_max_staked_connections"@.len() == 26);
    assert("accounts_shrink_ratio"@.len() == 21);
    assert("tpu_max_staked_connections"@ != "accounts_shrink_ratio"@);
    assert("tpu_max_staked_connections"@.len() == 26);
    assert("accounts_shrink_optimize_total_space"@.len() == 36);
    assert("tpu_max_staked_connections"@ != "accounts_shrink_optimize_total_space"@);
    assert("tpu_max_staked_connections"@.len() == 26);
    assert("banking_trace_dir_byte_limit"@.len() == 28);
    assert("tpu_max_staked_connections"@ != "banking_trace_dir_byte_limit"@);
    assert("tpu_max_staked_connections"@.len() == 26);
    assert("tpu_connection_pool_size"@.len() == 24);
    assert("tpu_max_staked_connections"@ != "tpu_connection_pool_size"@);
    assert("tpu_max_staked_connections"@.len() == 26);
    assert("tpu_max_connections_per_peer"@.len() == 28);
    assert("tpu_max_staked_connections"@ != "tpu_max_connections_per_peer"@);
    assert("tpu_max_staked_connections"@.len() == 26);
    assert("tpu_max_connections_per_ipaddr_per_minute"@.len() == 41);
    assert("tpu_max_staked_connections"@ != "tpu_max_connections_per_ipaddr_per_minute"@);
}

#[verifier::spinoff_prover]
#[verifier::rlimit(100)]
proof fn lemma_apply_tpu_max_unstaked_connections(c: ConfigV, v: ValueV)
    ensures
        spec_apply(c, "tpu_max_unstaked_connections"@, v) == (match as_usizev(v) {
            Some(n) => Some(ConfigV { tpu_max_unstaked_connections: Some(n), ..c }),
            None => None,
        }),
{
    reveal(crate::reader::spec_apply);
    reveal_strlit("bind_address");
    reveal_strlit("entrypoint");
    reveal_strlit("gossip_port");
    reveal_strlit("gossip_host");
    reveal_strlit("dynamic_port_range");
    reveal_strlit("allow_private_addr");
    reveal_strlit("ledger_path");
    reveal_strlit("accounts_path");
    reveal_strlit("account_snapshot_paths");
    reveal_strlit("limit_ledger_size");
    reveal_strlit("rpc_port");
    reveal_strlit("rpc_bind_address");
    reveal_strlit("enable_rpc_transaction_history");
    reveal_strlit("enable_extended_tx_metadata_storage");
    reveal_strlit("rpc_threads");
    reveal_strlit("rpc_blocking_threads");
    reveal_strlit("rpc_max_request_body_size");
    reveal_strlit("rpc_pubsub_max_active_subscriptions");
    reveal_strlit("rpc_pubsub_queue_capacity_items");
    reveal_strlit("rpc_pubsub_queue_capacity_bytes");
    reveal_strlit("accounts_shrink_ratio");
    reveal_strlit("accounts_shrink_optimize_total_space");
    reveal_strlit("banking_trace_dir_byte_limit");
    reveal_strlit("tpu_connection_pool_size");
    reveal_strlit("tpu_max_connections_per_peer");
    reveal_strlit("tpu_max_connections_per_ipaddr_per_minute");
    reveal_strlit("tpu_max_staked_connections");
    reveal_strlit("tpu_max_unstaked_connections");
    assert("tpu_max_unstaked_connections"@.len() == 28);
    assert("bind_address"@.len() == 12);
    assert("tpu_max_unstaked_connections"@ != "bind_address"@);
    assert("tpu_max_unstaked_connections"@.len() == 28);
    assert("entrypoint"@.len() == 10);
    assert("tpu_max_unstaked_connections"@ != "entrypoint"@);
    assert("tpu_max_unstaked_connections"@.len() == 28);
    assert("gossip_port"@.len() == 11);
    assert("tpu_max_unstaked_connections"@ != "gossip_port"@);
    assert("tpu_max_unstaked_connections"@.len() == 28);
    assert("gossip_host"@.len() == 11);
    assert("tpu_max_unstaked_connections"@ != "gossip_host"@);
    assert("tpu_max_unstaked_connections"@.len() == 28);
    assert("dynamic_port_range"@.len() == 18);
    assert("tpu_max_unstaked_connections"@ != "dynamic_port_range"@);
    assert("tpu_max_unstaked_connections"@.len() == 28);
    assert("allow_private_addr"@.len() == 18);
    assert("tpu_max_unstaked_connections"@ != "allow_private_addr"@);
    assert("tpu_max_unstaked_connections"@.len() == 28);
    assert("ledger_path"@.len() == 11);
    assert("tpu_max_unstaked_connections"@ != "ledger_path"@);
    assert("tpu_max_unstaked_connections"@.len() == 28);
    assert("accounts_path"@.len() == 13);
    assert("tpu_max_unstaked_connections"@ != "accounts_path"@);
    assert("tpu_max_unstaked_connections"@.len() == 28);
    assert("account_snapshot_paths"@.len() == 22);
    assert("tpu_max_unstaked_connections"@ != "account_snapshot_paths"@);
    assert("tpu_max_unstaked_connections"@.len() == 28);
    assert("limit_ledger_size"@.len() == 17);
    assert("tpu_max_unstaked_connections"@ != "limit_ledger_size"@);
    assert("tpu_max_unstaked_connections"@.len() == 28);
    assert("rpc_port"@.len() == 8);
    assert("tpu_max_unstaked_connections"@ != "rpc_port"@);
    assert("tpu_max_unstaked_connections"@.len() == 28);
    assert("rpc_bind_address"@.len() == 16);
    assert("tpu_max_unstaked_connections"@ != "rpc_bind_address"@);
    assert("tpu_max_unstaked_connections"@.len() == 28);
    assert("enable_rpc_transaction_history"@.len() == 30);
    assert("tpu_max_unstaked_connections"@ != "enable_rpc_transaction_history"@);
    assert("tpu_max_unstaked_connections"@.len() == 28);
    assert("enable_extended_tx_metadata_storage"@.len() == 35);
    assert("tpu_max_unstaked_connections"@ != "enable_extended_tx_metadata_storage"@);
    assert("tpu_max_unstaked_connections"@.len() == 28);
    assert("rpc_threads"@.len() == 11);
    assert("tpu_max_unstaked_connections"@ != "rpc_threads"@);
    assert("tpu_max_unstaked_connections"@.len() == 28);
    assert("rpc_blocking_threads"@.len() == 20);
    assert("tpu_max_unstaked_connections"@ != "rpc_blocking_threads"@);
    assert("tpu_max_unstaked_connections"@.len() == 28);
    assert("rpc_max_request_body_size"@.len() == 25);
    assert("tpu_max_unstaked_connections"@ != "rpc_max_request_body_size"@);
    assert("tpu_max_unstaked_connections"@.len() == 28);
    assert("rpc_pubsub_max_active_subscriptions"@.len() == 35);
    assert("tpu_max_unstaked_connections"@ != "rpc_pubsub_max_active_subscriptions"@);
    assert("tpu_max_unstaked_connections"@.len() == 28);
    assert("rpc_pubsub_queue_capacity_items"@.len() == 31);
    assert("tpu_max_unstaked_connections"@ != "rpc_pubsub_queue_capacity_items"@);
    assert("tpu_max_unstaked_connections"@.len() == 28);
    assert("rpc_pubsub_queue_capacity_bytes"@.len() == 31);
    assert("tpu_max_unstaked_connections"@ != "rpc_pubsub_queue_capacity_bytes"@);
    assert("tpu_max_unstaked_connections"@.len() == 28);
    assert("accounts_shrink_ratio"@.len() == 21);
    assert("tpu_max_unstaked_connections"@ != "accounts_shrink_ratio"@);
    assert("tpu_max_unstaked_connections"@.len() == 28);
    assert("accounts_shrink_optimize_total_space"@.len() == 36);
    assert("tpu_max_unstaked_connections"@ != "accounts_shrink_optimize_total_space"@);
    assert("tpu_max_unstaked_connections"@[0] == 't');
    assert("banking_trace_dir_byte_limit"@[0] == 'b');
    assert("tpu_max_unstaked_connections"@ != "banking_trace_dir_byte_limit"@);
    assert("tpu_max_unstaked_connections"@.len() == 28);
    assert("tpu_connection_pool_size"@.len() == 24);
    assert("tpu_max_unstaked_connections"@ != "tpu_connection_pool_size"@);
    assert("tpu_max_unstaked_connections"@[8] == 'u');
    assert("tpu_max_connections_per_peer"@[8] == 'c');
    assert("tpu_max_unstaked_connections"@ != "tpu_max_connections_per_peer"@);
    assert("tpu_max_unstaked_connections"@.len() == 28);
    assert("tpu_max_connections_per_ipaddr_per_minute"@.len() == 41);
    assert("tpu_max_unstaked_connections"@ != "tpu_max_connections_per_ipaddr_per_minute"@);
    assert("tpu_max_unstaked_connections"@.len() == 28);
    assert("tpu_max_staked_connections"@.len() == 26);
    assert("tpu_max_unstaked_connections"@ != "tpu_max_staked_connections"@);
}

#[verifier::spinoff_prover]
#[verifier::rlimit(100)]
proof fn lemma_apply_tpu_max_streams_per_ms(c: ConfigV, v: ValueV)
    ensures
        spec_apply(c, "tpu_max_streams_per_ms"@, v) == (match as_usizev(v) {
            Some(n) => Some(ConfigV { tpu_max_streams_per_ms: Some(n), ..c }),
            None => None,
        }),
{
    reveal(crate::reader::spec_apply);
    reveal_strlit("bind_address");
    reveal_strlit("entrypoint");
    reveal_strlit("gossip_port");
    reveal_strlit("gossip_host");
    reveal_strlit("dynamic_port_range");
    reveal_strlit("allow_private_addr");
    reveal_strlit("ledger_path");
    reveal_strlit("accounts_path");
    reveal_strlit("account_snapshot_paths");
    reveal_strlit("limit_ledger_size");
    reveal_strlit("rpc_port");
    reveal_strlit("rpc_bind_address");
    reveal_strlit("enable_rpc_transaction_history");
    reveal_strlit("enable_extended_tx_metadata_storage");
    reveal_strlit("rpc_threads");
    reveal_strlit("rpc_blocking_threads");
    reveal_strlit("rpc_max_request_body_size");
    reveal_strlit("rpc_pubsub_max_active_subscriptions");
    reveal_strlit("rpc_pubsub_queue_capacity_items");
    reveal_strlit("rpc_pubsub_queue_capacity_bytes");
    reveal_strlit("accounts_shrink_ratio");
    reveal_strlit("accounts_shrink_optimize_total_space");
    reveal_strlit("banking_trace_dir_byte_limit");
    reveal_strlit("tpu_connection_pool_size");
    reveal_strlit("tpu_max_connections_per_peer");
    reveal_strlit("tpu_max_connections_per_ipaddr_per_minute");
    reveal_strlit("tpu_max_staked_connections");
    reveal_strlit("tpu_max_unstaked_connections");
    reveal_strlit("tpu_max_streams_per_ms");
    assert("tpu_max_streams_per_ms"@.len() == 22);
    assert("bind_address"@.len() == 12);
    assert("tpu_max_streams_per_ms"@ != "bind_address"@);
    assert("tpu_max_streams_per_ms"@.len() == 22);
    assert("entrypoint"@.len() == 10);
    assert("tpu_max_streams_per_ms"@ != "entrypoint"@);
    assert("tpu_max_streams_per_ms"@.len() == 22);
    assert("gossip_port"@.len() == 11);
    assert("tpu_max_streams_per_ms"@ != "gossip_port"@);
    assert("tpu_max_streams_per_ms"@.len() == 22);
    assert("gossip_host"@.len() == 11);
    assert("tpu_max_streams_per_ms"@ != "gossip_host"@);
    assert("tpu_max_streams_per_ms"@.len() == 22);
    assert("dynamic_port_range"@.len() == 18);
    assert("tpu_max_streams_per_ms"@ != "dynamic_port_range"@);
    assert("tpu_max_streams_per_ms"@.len() == 22);
    assert("allow_private_addr"@.len() == 18);
    assert("tpu_max_streams_per_ms"@ != "allow_private_addr"@);
    assert("tpu_max_streams_per_ms"@.len() == 22);
    assert("ledger_path"@.len() == 11);
    assert("tpu_max_streams_per_ms"@ != "ledger_path"@);
    assert("tpu_max_streams_per_ms"@.len() == 22);
    assert("accounts_path"@.len() == 13);
    assert("tpu_max_streams_per_ms"@ != "accounts_path"@);
    assert("tpu_max_streams_per_ms"@[0] == 't');
    assert("account_snapshot_paths"@[0] == 'a');
    assert("tpu_max_streams_per_ms"@ != "account_snapshot_paths"@);
    assert("tpu_max_streams_per_ms"@.len() == 22);
    assert("limit_ledger_size"@.len() == 17);
    assert("tpu_max_streams_per_ms"@ != "limit_ledger_size"@);
    assert("tpu_max_streams_per_ms"@.len() == 22);
    assert("rpc_port"@.len() == 8);
    assert("tpu_max_streams_per_ms"@ != "rpc_port"@);
    assert("tpu_max_streams_per_ms"@.len() == 22);
    assert("rpc_bind_address"@.len() == 16);
    assert("tpu_max_streams_per_ms"@ != "rpc_bind_address"@);
    assert("tpu_max_streams_per_ms"@.len() == 22);
    assert("enable_rpc_transaction_history"@.len() == 30);
    assert("tpu_max_streams_per_ms"@ != "enable_rpc_transaction_history"@);
    assert("tpu_max_streams_per_ms"@.len() == 22);
    assert("enable_extended_tx_metadata_storage"@.len() == 35);
    assert("tpu_max_streams_per_ms"@ != "enable_extended_tx_metadata_storage"@);
    assert("tpu_max_streams_per_ms"@.len() == 22);
    assert("rpc_threads"@.len() == 11);
    assert("tpu_max_streams_per_ms"@ != "rpc_threads"@);
    assert("tpu_max_streams_per_ms"@.len() == 22);
    assert("rpc_blocking_threads"@.len() == 20);
    assert("tpu_max_streams_per_ms"@ != "rpc_blocking_threads"@);
    assert("tpu_max_streams_per_ms"@.len() == 22);
    assert("rpc_max_request_body_size"@.len() == 25);
    assert("tpu_max_streams_per_ms"@ != "rpc_max_request_body_size"@);
    assert("tpu_max_streams_per_ms"@.len() == 22);
    assert("rpc_pubsub_max_active_subscriptions"@.len() == 35);
    assert("tpu_max_streams_per_ms"@ != "rpc_pubsub_max_active_subscriptions"@);
    assert("tpu_max_streams_per_ms"@.len() == 22);
    assert("rpc_pubsub_queue_capacity_items"@.len() == 31);
    assert("tpu_max_streams_per_ms"@ != "rpc_pubsub_queue_capacity_items"@);
    assert("tpu_max_streams_per_ms"@.len() == 22);
    assert("rpc_pubsub_queue_capacity_bytes"@.len() == 31);
    assert("tpu_max_streams_per_ms"@ != "rpc_pubsub_queue_capacity_bytes"@);
    assert("tpu_max_streams_per_ms"@.len() == 22);
    assert("accounts_shrink_ratio"@.len() == 21);
    assert("tpu_max_streams_per_ms"@ != "accounts_shrink_ratio"@);
    assert("tpu_max_streams_per_ms"@.len() == 22);
    assert("accounts_shrink_optimize_total_space"@.len() == 36);
    assert("tpu_max_streams_per_ms"@ != "accounts_shrink_optimize_total_space"@);
    assert("tpu_max_streams_per_ms"@.len() == 22);
    assert("banking_trace_dir_byte_limit"@.len() == 28);
    assert("tpu_max_streams_per_ms"@ != "banking_trace_dir_byte_limit"@);
    assert("tpu_max_streams_per_ms"@.len() == 22);
    assert("tpu_connection_pool_size"@.len() == 24);
    assert("tpu_max_streams_per_ms"@ != "tpu_connection_pool_size"@);
    assert("tpu_max_streams_per_ms"@.len() == 22);
    assert("tpu_max_connections_per_peer"@.len() == 28);
    assert("tpu_max_streams_per_ms"@ != "tpu_max_connections_per_peer"@);
    assert("tpu_max_streams_per_ms"@.len() == 22);
    assert("tpu_max_connections_per_ipaddr_per_minute"@.len() == 41);
    assert("tpu_max_streams_per_ms"@ != "tpu_max_connections_per_ipaddr_per_minute"@);
    assert("tpu_max_streams_per_ms"@.len() == 22);
    assert("tpu_max_staked_connections"@.len() == 26);
    assert("tpu_max_streams_per_ms"@ != "tpu_max_staked_connections"@);
    assert("tpu_max_streams_per_ms"@.len() == 22);
    assert("tpu_max_unstaked_connections"@.len() == 28);
    assert("tpu_max_streams_per_ms"@ != "tpu_max_unstaked_connections"@);
}

#[verifier::spinoff_prover]
#[verifier::rlimit(100)]
proof fn lemma_apply_snapshot_version(c: ConfigV, v: ValueV)
    ensures
        spec_apply(c, "snapshot_version"@, v) == (match as_string(v) {
            Some(s) => Some(ConfigV { snapshot_version: Some(s), ..c }),
            None => None,
        }),
{
    reveal(crate::reader::spec_apply);
    reveal_strlit("bind_address");
    reveal_strlit("entrypoint");
    reveal_strlit("gossip_port");
    reveal_strlit("gossip_host");
    reveal_strlit("dynamic_port_range");
    reveal_strlit("allow_private_addr");
    reveal_strlit("ledger_path");
    reveal_strlit("accounts_path");
    reveal_strlit("account_snapshot_paths");
    reveal_strlit("limit_ledger_size");
    reveal_strlit("rpc_port");
    reveal_strlit("rpc_bind_address");
    reveal_strlit("enable_rpc_transaction_history");
    reveal_strlit("enable_extended_tx_metadata_storage");
    reveal_strlit("rpc_threads");
    reveal_strlit("rpc_blocking_threads");
    reveal_strlit("rpc_max_request_body_size");
    reveal_strlit("rpc_pubsub_max_active_subscriptions");
    reveal_strlit("rpc_pubsub_queue_capacity_items");
    reveal_strlit("rpc_pubsub_queue_capacity_bytes");
    reveal_strlit("accounts_shrink_ratio");
    reveal_strlit("accounts_shrink_optimize_total_space");
    reveal_strlit("banking_trace_dir_byte_limit");
    reveal_strlit("tpu_connection_pool_size");
    reveal_strlit("tpu_max_connections_per_peer");
    reveal_strlit("tpu_max_connections_per_ipaddr_per_minute");
    reveal_strlit("tpu_max_staked_connections");
    reveal_strlit("tpu_max_unstaked_connections");
    reveal_strlit("tpu_max_streams_per_ms");
    reveal_strlit("snapshot_version");
    assert("snapshot_version"@.len() == 16);
    assert("bind_address"@.len() == 12);
    assert("snapshot_version"@ != "bind_address"@);
    assert("snapshot_version"@.len() == 16);
    assert("entrypoint"@.len() == 10);
    assert("snapshot_version"@ != "entrypoint"@);
    assert("snapshot_version"@.len() == 16);
    assert("gossip_port"@.len() == 11);
    assert("snapshot_version"@ != "gossip_port"@);
    assert("snapshot_version"@.len() == 16);
    assert("gossip_host"@.len() == 11);
    assert("snapshot_version"@ != "gossip_host"@);
    assert("snapshot_version"@.len() == 16);
    assert("dynamic_port_range"@.len() == 18);
    assert("snapshot_version"@ != "dynamic_port_range"@);
    assert("snapshot_version"@.len() == 16);
    assert("allow_private_addr"@.len() == 18);
    assert("snapshot_version"@ != "allow_private_addr"@);
    assert("snapshot_version"@.len() == 16);
    assert("ledger_path"@.len() == 11);
    assert("snapshot_version"@ != "ledger_path"@);
    assert("snapshot_version"@.len() == 16);
    assert("accounts_path"@.len() == 13);
    assert("snapshot_version"@ != "accounts_path"@);
    assert("snapshot_version"@.len() == 16);
    assert("account_snapshot_paths"@.len() == 22);
    assert("snapshot_version"@ != "account_snapshot_paths"@);
    assert("snapshot_version"@.len() == 16);
    assert("limit_ledger_size"@.len() == 17);
    assert("snapshot_version"@ != "limit_ledger_size"@);
    assert("snapshot_version"@.len() == 16);
    assert("rpc_port"@.len() == 8);
    assert("snapshot_version"@ != "rpc_port"@);
    assert("snapshot_version"@[0] == 's');
    assert("rpc_bind_address"@[0] == 'r');
    assert("snapshot_version"@ != "rpc_bind_address"@);
    assert("snapshot_version"@.len() == 16);
    assert("enable_rpc_transaction_history"@.len() == 30);
    assert("snapshot_version"@ != "enable_rpc_transaction_history"@);
    assert("snapshot_version"@.len() == 16);
    assert("enable_extended_tx_metadata_storage"@.len() == 35);
    assert("snapshot_version"@ != "enable_extended_tx_metadata_storage"@);
    assert("snapshot_version"@.len() == 16);
    assert("rpc_threads"@.len() == 11);
    assert("snapshot_version"@ != "rpc_threads"@);
    assert("snapshot_version"@.len() == 16);
    assert("rpc_blocking_threads"@.len() == 20);
    assert("snapshot_version"@ != "rpc_blocking_threads"@);
    assert("snapshot_version"@.len() == 16);
    assert("rpc_max_request_body_size"@.len() == 25);
    assert("snapshot_version"@ != "rpc_max_request_body_size"@);
    assert("snapshot_version"@.len() == 16);
    assert("rpc_pubsub_max_active_subscriptions"@.len() == 35);
    assert("snapshot_version"@ != "rpc_pubsub_max_active_subscriptions"@);
    assert("snapshot_version"@.len() == 16);
    assert("rpc_pubsub_queue_capacity_items"@.len() == 31);
    assert("snapshot_version"@ != "rpc_pubsub_queue_capacity_items"@);
    assert("snapshot_version"@.len() == 16);
    assert("rpc_pubsub_queue_capacity_bytes"@.len() == 31);
    assert("snapshot_version"@ != "rpc_pubsub_queue_capacity_bytes"@);
    assert("snapshot_version"@.len() == 16);
    assert("accounts_shrink_ratio"@.len() == 21);
    assert("snapshot_version"@ != "accounts_shrink_ratio"@);
    assert("snapshot_version"@.len() == 16);
    assert("accounts_shrink_optimize_total_space"@.len() == 36);
    assert("snapshot_version"@ != "accounts_shrink_optimize_total_space"@);
    assert("snapshot_version"@.len() == 16);
    assert("banking_trace_dir_byte_limit"@.len() == 28);
    assert("snapshot_version"@ != "banking_trace_dir_byte_limit"@);
    assert("snapshot_version"@.len() == 16);
    assert("tpu_connection_pool_size"@.len() == 24);
    assert("snapshot_version"@ != "tpu_connection_pool_size"@);
    assert("snapshot_version"@.len() == 16);
    assert("tpu_max_connections_per_peer"@.len() == 28);
    assert("snapshot_version"@ != "tpu_max_connections_per_peer"@);
    assert("snapshot_version"@.len() == 16);
    assert("tpu_max_connections_per_ipaddr_per_minute"@.len() == 41);
    assert("snapshot_version"@ != "tpu_max_connections_per_ipaddr_per_minute"@);
    assert("snapshot_version"@.len() == 16);
    assert("tpu_max_staked_connections"@.len() == 26);
    assert("snapshot_version"@ != "tpu_max_staked_connections"@);
    assert("snapshot_version"@.len() == 16);
    assert("tpu_max_unstaked_connections"@.len() == 28);
    assert("snapshot_version"@ != "tpu_max_unstaked_connections"@);
    assert("snapshot_version"@.len() == 16);
    assert("tpu_max_streams_per_ms"@.len() == 22);
    assert("snapshot_version"@ != "tpu_max_streams_per_ms"@);
}

#[verifier::spinoff_prover]
#[verifier::rlimit(100)]
proof fn lemma_apply_snapshot_archive_format(c: ConfigV, v: ValueV)
    ensures
        spec_apply(c, "snapshot_archive_format"@, v) == (match as_string(v) {
            Some(s) => Some(ConfigV { snapshot_archive_format: Some(s), ..c }),
            None => None,
        }),
{
    reveal(crate::reader::spec_apply);
    reveal_strlit("bind_address");
    reveal_strlit("entrypoint");
    reveal_strlit("gossip_port");
    reveal_strlit("gossip_host");
    reveal_strlit("dynamic_port_range");
    reveal_strlit("allow_private_addr");
    reveal_strlit("ledger_path");
    reveal_strlit("accounts_path");
    reveal_strlit("account_snapshot_paths");
    reveal_strlit("limit_ledger_size");
    reveal_strlit("rpc_port");
    reveal_strlit("rpc_bind_address");
    reveal_strlit("enable_rpc_transaction_history");
    reveal_strlit("enable_extended_tx_metadata_storage");
    reveal_strlit("rpc_threads");
    reveal_strlit("rpc_blocking_threads");
    reveal_strlit("rpc_max_request_body_size");
    reveal_strlit("rpc_pubsub_max_active_subscriptions");
    reveal_strlit("rpc_pubsub_queue_capacity_items");
    reveal_strlit("rpc_pubsub_queue_capacity_bytes");
    reveal_strlit("accounts_shrink_ratio");
    reveal_strlit("accounts_shrink_optimize_total_space");
    reveal_strlit("banking_trace_dir_byte_limit");
    reveal_strlit("tpu_connection_pool_size");
    reveal_strlit("tpu_max_connections_per_peer");
    reveal_strlit("tpu_max_connections_per_ipaddr_per_minute");
    reveal_strlit("tpu_max_staked_connections");
    reveal_strlit("tpu_max_unstaked_connections");
    reveal_strlit("tpu_max_streams_per_ms");
    reveal_strlit("snapshot_version");
    reveal_strlit("snapshot_archive_format");
    assert("snapshot_archive_format"@.len() == 23);
    assert("bind_address"@.len() == 12);
    assert("snapshot_archive_format"@ != "bind_address"@);
    assert("snapshot_archive_format"@.len() == 23);
    assert("entrypoint"@.len() == 10);
    assert("snapshot_archive_format"@ != "entrypoint"@);
    assert("snapshot_archive_format"@.len() == 23);
    assert("gossip_port"@.len() == 11);
    assert("snapshot_archive_format"@ != "gossip_port"@);
    assert("snapshot_archive_format"@.len() == 23);
    assert("gossip_host"@.len() == 11);
    assert("snapshot_archive_format"@ != "gossip_host"@);
    assert("snapshot_archive_format"@.len() == 23);
    assert("dynamic_port_range"@.len() == 18);
    assert("snapshot_archive_format"@ != "dynamic_port_range"@);
    assert("snapshot_archive_format"@.len() == 23);
    assert("allow_private_addr"@.len() == 18);
    assert("snapshot_archive_format"@ != "allow_private_addr"@);
    assert("snapshot_archive_format"@.len() == 23);
    assert("ledger_path"@.len() == 11);
    assert("snapshot_archive_format"@ != "ledger_path"@);
    assert("snapshot_archive_format"@.len() == 23);
    assert("accounts_path"@.len() == 13);
    assert("snapshot_archive_format"@ != "accounts_path"@);
    assert("snapshot_archive_format"@.len() == 23);
    assert("account_snapshot_paths"@.len() == 22);
    assert("snapshot_archive_format"@ != "account_snapshot_paths"@);
    assert("snapshot_archive_format"@.len() == 23);
    assert("limit_ledger_size"@.len() == 17);
    assert("snapshot_archive_format"@ != "limit_ledger_size"@);
    assert("snapshot_archive_format"@.len() == 23);
    assert("rpc_port"@.len() == 8);
    assert("snapshot_archive_format"@ != "rpc_port"@);
    assert("snapshot_archive_format"@.len() == 23);
    assert("rpc_bind_address"@.len() == 16);
    assert("snapshot_archive_format"@ != "rpc_bind_address"@);
    assert("snapshot_archive_format"@.len() == 23);
    assert("enable_rpc_transaction_history"@.len() == 30);
    assert("snapshot_archive_format"@ != "enable_rpc_transaction_history"@);
    assert("snapshot_archive_format"@.len() == 23);
    assert("enable_extended_tx_metadata_storage"@.len() == 35);
    assert("snapshot_archive_format"@ != "enable_extended_tx_metadata_storage"@);
    assert("snapshot_archive_format"@.len() == 23);
    assert("rpc_threads"@.len() == 11);
    assert("snapshot_archive_format"@ != "rpc_threads"@);
    assert("snapshot_archive_format"@.len() == 23);
    assert("rpc_blocking_threads"@.len() == 20);
    assert("snapshot_archive_format"@ != "rpc_blocking_threads"@);
    assert("snapshot_archive_format"@.len() == 23);
    assert("rpc_max_request_body_size"@.len() == 25);
    assert("snapshot_archive_format"@ != "rpc_max_request_body_size"@);
    assert("snapshot_archive_format"@.len() == 23);
    assert("rpc_pubsub_max_active_subscriptions"@.len() == 35);
    assert("snapshot_archive_format"@ != "rpc_pubsub_max_active_subscriptions"@);
    assert("snapshot_archive_format"@.len() == 23);
    assert("rpc_pubsub_queue_capacity_items"@.len() == 31);
    assert("snapshot_archive_format"@ != "rpc_pubsub_queue_capacity_items"@);
    assert("snapshot_archive_format"@.len() == 23);
    assert("rpc_pubsub_queue_capacity_bytes"@.len() == 31);
    assert("snapshot_archive_format"@ != "rpc_pubsub_queue_capacity_bytes"@);
    assert("snapshot_archive_format"@.len() == 23);
    assert("accounts_shrink_ratio"@.len() == 21);
    assert("snapshot_archive_format"@ != "accounts_shrink_ratio"@);
    assert("snapshot_archive_format"@.len() == 23);
    assert("accounts_shrink_optimize_total_space"@.len() == 36);
    assert("snapshot_archive_format"@ != "accounts_shrink_optimize_total_space"@);
    assert("snapshot_archive_format"@.len() == 23);
    assert("banking_trace_dir_byte_limit"@.len() == 28);
    assert("snapshot_archive_format"@ != "banking_trace_dir_byte_limit"@);
    assert("snapshot_archive_format"@.len() == 23);
    assert("tpu_connection_pool_size"@.len() == 24);
    assert("snapshot_archive_format"@ != "tpu_connection_pool_size"@);
    assert("snapshot_archive_format"@.len() == 23);
    assert("tpu_max_connections_per_peer"@.len() == 28);
    assert("snapshot_archive_format"@ != "tpu_max_connections_per_peer"@);
    assert("snapshot_archive_format"@.len() == 23);
    assert("tpu_max_connections_per_ipaddr_per_minute"@.len() == 41);
    assert("snapshot_archive_format"@ != "tpu_max_connections_per_ipaddr_per_minute"@);
    assert("snapshot_archive_format"@.len() == 23);
    assert("tpu_max_staked_connections"@.len() == 26);
    assert("snapshot_archive_format"@ != "tpu_max_staked_connections"@);
    assert("snapshot_archive_format"@.len() == 23);
    assert("tpu_max_unstaked_connections"@.len() == 28);
    assert("snapshot_archive_format"@ != "tpu_max_unstaked_connections"@);
    assert("snapshot_archive_format"@.len() == 23);
    assert("tpu_max_streams_per_ms"@.len() == 22);
    assert("snapshot_archive_format"@ != "tpu_max_streams_per_ms"@);
    assert("snapshot_archive_format"@.len() == 23);
    assert("snapshot_version"@.len() == 16);
    assert("snapshot_archive_format"@ != "snapshot_version"@);
}

#[verifier::spinoff_prover]
#[verifier::rlimit(100)]
proof fn lemma_apply_full_snapshot_archive_interval_slots(c: ConfigV, v: ValueV)
    ensures
        spec_apply(c, "full_snapshot_archive_interval_slots"@, v) == (match as_u64v(v) {
            Some(n) => Some(ConfigV { full_snapshot_archive_interval_slots: Some(n), ..c }),
            None => None,
        }),
{
    reveal(crate::reader::spec_apply);
    reveal_strlit("bind_address");
    reveal_strlit("entrypoint");
    reveal_strlit("gossip_port");
    reveal_strlit("gossip_host");
    reveal_strlit("dynamic_port_range");
    reveal_strlit("allow_private_addr");
    reveal_strlit("ledger_path");
    reveal_strlit("accounts_path");
    reveal_strlit("account_snapshot_paths");
    reveal_strlit("limit_ledger_size");
    reveal_strlit("rpc_port");
    reveal_strlit("rpc_bind_address");
    reveal_strlit("enable_rpc_transaction_history");
    reveal_strlit("enable_extended_tx_metadata_storage");
    reveal_strlit("rpc_threads");
    reveal_strlit("rpc_blocking_threads");
    reveal_strlit("rpc_max_request_body_size");
    reveal_strlit("rpc_pubsub_max_active_subscriptions");
    reveal_strlit("rpc_pubsub_queue_capacity_items");
    reveal_strlit("rpc_pubsub_queue_capacity_bytes");
    reveal_strlit("accounts_shrink_ratio");
    reveal_strlit("accounts_shrink_optimize_total_space");
    reveal_strlit("banking_trace_dir_byte_limit");
    reveal_strlit("tpu_connection_pool_size");
    reveal_strlit("tpu_max_connections_per_peer");
    reveal_strlit("tpu_max_connections_per_ipaddr_per_minute");
    reveal_strlit("tpu_max_staked_connections");
    reveal_strlit("tpu_max_unstaked_connections");
    reveal_strlit("tpu_max_streams_per_ms");
    reveal_strlit("snapshot_version");
    reveal_strlit("snapshot_archive_format");
    reveal_strlit("full_snapshot_archive_interval_slots");
    assert("full_snapshot_archive_interval_slots"@.len() == 36);
    assert("bind_address"@.len() == 12);
    assert("full_snapshot_archive_interval_slots"@ != "bind_address"@);
    assert("full_snapshot_archive_interval_slots"@.len() == 36);
    assert("entrypoint"@.len() == 10);
    assert("full_snapshot_archive_interval_slots"@ != "entrypoint"@);
    assert("full_snapshot_archive_interval_slots"@.len() == 36);
    assert("gossip_port"@.len() == 11);
    assert("full_snapshot_archive_interval_slots"@ != "gossip_port"@);
    assert("full_snapshot_archive_interval_slots"@.len() == 36);
    assert("gossip_host"@.len() == 11);
    assert("full_snapshot_archive_interval_slots"@ != "gossip_host"@);
    assert("full_snapshot_archive_interval_slots"@.len() == 36);
    assert("dynamic_port_range"@.len() == 18);
    assert("full_snapshot_archive_interval_slots"@ != "dynamic_port_range"@);
    assert("full_snapshot_archive_interval_slots"@.len() == 36);
    assert("allow_private_addr"@.len() == 18);
    assert("full_snapshot_archive_interval_slots"@ != "allow_private_addr"@);
    assert("full_snapshot_archive_interval_slots"@.len() == 36);
    assert("ledger_path"@.len() == 11);
    assert("full_snapshot_archive_interval_slots"@ != "ledger_path"@);
    assert("full_snapshot_archive_interval_slots"@.len() == 36);
    assert("accounts_path"@.len() == 13);
    assert("full_snapshot_archive_interval_slots"@ != "accounts_path"@);
    assert("full_snapshot_archive_interval_slots"@.len() == 36);
    assert("account_snapshot_paths"@.len() == 22);
    assert("full_snapshot_archive_interval_slots"@ != "account_snapshot_paths"@);
    assert("full_snapshot_archive_interval_slots"@.len() == 36);
    assert("limit_ledger_size"@.len() == 17);
    assert("full_snapshot_archive_interval_slots"@ != "limit_ledger_size"@);
    assert("full_snapshot_archive_interval_slots"@.len() == 36);
    assert("rpc_port"@.len() == 8);
    assert("full_snapshot_archive_interval_slots"@ != "rpc_port"@);
    assert("full_snapshot_archive_interval_slots"@.len() == 36);
    assert("rpc_bind_address"@.len() == 16);
    assert("full_snapshot_archive_interval_slots"@ != "rpc_bind_address"@);
    assert("full_snapshot_archive_interval_slots"@.len() == 36);
    assert("enable_rpc_transaction_history"@.len() == 30);
    assert("full_snapshot_archive_interval_slots"@ != "enable_rpc_transaction_history"@);
    assert("full_snapshot_archive_interval_slots"@.len() == 36);
    assert("enable_extended_tx_metadata_storage"@.len() == 35);
    assert("full_snapshot_archive_interval_slots"@ != "enable_extended_tx_metadata_storage"@);
    assert("full_snapshot_archive_interval_slots"@.len() == 36);
    assert("rpc_threads"@.len() == 11);
    assert("full_snapshot_archive_interval_slots"@ != "rpc_threads"@);
    assert("full_snapshot_archive_interval_slots"@.len() == 36);
    assert("rpc_blocking_threads"@.len() == 20);
    assert("full_snapshot_archive_interval_slots"@ != "rpc_blocking_threads"@);
    assert("full_snapshot_archive_interval_slots"@.len() == 36);
    assert("rpc_max_request_body_size"@.len() == 25);
    assert("full_snapshot_archive_interval_slots"@ != "rpc_max_request_body_size"@);
    assert("full_snapshot_archive_interval_slots"@.len() == 36);
    assert("rpc_pubsub_max_active_subscriptions"@.len() == 35);
    assert("full_snapshot_archive_interval_slots"@ != "rpc_pubsub_max_active_subscriptions"@);
    assert("full_snapshot_archive_interval_slots"@.len() == 36);
    assert("rpc_pubsub_queue_capacity_items"@.len() == 31);
    assert("full_snapshot_archive_interval_slots"@ != "rpc_pubsub_queue_capacity_items"@);
    assert("full_snapshot_archive_interval_slots"@.len() == 36);
    assert("rpc_pubsub_queue_capacity_bytes"@.len() == 31);
    assert("full_snapshot_archive_interval_slots"@ != "rpc_pubsub_queue_capacity_bytes"@);
    assert("full_snapshot_archive_interval_slots"@.len() == 36);
    assert("accounts_shrink_ratio"@.len() == 21);
    assert("full_snapshot_archive_interval_slots"@ != "accounts_shrink_ratio"@);
    assert("full_snapshot_archive_interval_slots"@[0] == 'f');
    assert("accounts_shrink_optimize_total_space"@[0] == 'a');
    assert("full_snapshot_archive_interval_slots"@ != "accounts_shrink_optimize_total_space"@);
    assert("full_snapshot_archive_interval_slots"@.len() == 36);
    assert("banking_trace_dir_byte_limit"@.len() == 28);
    assert("full_snapshot_archive_interval_slots"@ != "banking_trace_dir_byte_limit"@);
    assert("full_snapshot_archive_interval_slots"@.len() == 36);
    assert("tpu_connection_pool_size"@.len() == 24);
    assert("full_snapshot_archive_interval_slots"@ != "tpu_connection_pool_size"@);
    assert("full_snapshot_archive_interval_slots"@.len() == 36);
    assert("tpu_max_connections_per_peer"@.len() == 28);
    assert("full_snapshot_archive_interval_slots"@ != "tpu_max_connections_per_peer"@);
    assert("full_snapshot_archive_interval_slots"@.len() == 36);
    assert("tpu_max_connections_per_ipaddr_per_minute"@.len() == 41);
    assert("full_snapshot_archive_interval_slots"@ != "tpu_max_connections_per_ipaddr_per_minute"@);
    assert("full_snapshot_archive_interval_slots"@.len() == 36);
    assert("tpu_max_staked_connections"@.len() == 26);
    assert("full_snapshot_archive_interval_slots"@ != "tpu_max_staked_connections"@);
    assert("full_snapshot_archive_interval_slots"@.len() == 36);
    assert("tpu_max_unstaked_connections"@.len() == 28);
    assert("full_snapshot_archive_interval_slots"@ != "tpu_max_unstaked_connections"@);
    assert("full_snapshot_archive_interval_slots"@.len() == 36);
    assert("tpu_max_streams_per_ms"@.len() == 22);
    assert("full_snapshot_archive_interval_slots"@ != "tpu_max_streams_per_ms"@);
    assert("full_snapshot_archive_interval_slots"@.len() == 36);
    assert("snapshot_version"@.len() == 16);
    assert("full_snapshot_archive_interval_slots"@ != "snapshot_version"@);
    assert("full_snapshot_archive_interval_slots"@.len() == 36);
    assert("snapshot_archive_format"@.len() == 23);
    assert("full_snapshot_archive_interval_slots"@ != "snapshot_archive_format"@);
}

#[verifier::spinoff_prover]
#[verifier::rlimit(100)]
proof fn lemma_apply_incremental_snapshot_archive_interval_slots(c: ConfigV, v: ValueV)
    ensures
        spec_apply(c, "incremental_snapshot_archive_interval_slots"@, v) == (match as_u64v(v) {
            Some(n) => Some(ConfigV { incremental_snapshot_archive_interval_slots: Some(n), ..c }),
            None => None,
        }),
{
    reveal(crate::reader::spec_apply);
    reveal_strlit("bind_address");
    reveal_strlit("entrypoint");
    reveal_strlit("gossip_port");
    reveal_strlit("gossip_host");
    reveal_strlit("dynamic_port_range");
    reveal_strlit("allow_private_addr");
    reveal_strlit("ledger_path");
    reveal_strlit("accounts_path");
    reveal_strlit("account_snapshot_paths");
    reveal_strlit("limit_ledger_size");
    reveal_strlit("rpc_port");
    reveal_strlit("rpc_bind_address");
    reveal_strlit("enable_rpc_transaction_history");
    reveal_strlit("enable_extended_tx_metadata_storage");
    reveal_strlit("rpc_threads");
    reveal_strlit("rpc_blocking_threads");
    reveal_strlit("rpc_max_request_body_size");
    reveal_strlit("rpc_pubsub_max_active_subscriptions");
    reveal_strlit("rpc_pubsub_queue_capacity_items");
    reveal_strlit("rpc_pubsub_queue_capacity_bytes");
    reveal_strlit("accounts_shrink_ratio");
    reveal_strlit("accounts_shrink_optimize_total_space");
    reveal_strlit("banking_trace_dir_byte_limit");
    reveal_strlit("tpu_connection_pool_size");
    reveal_strlit("tpu_max_connections_per_peer");
    reveal_strlit("tpu_max_connections_per_ipaddr_per_minute");
    reveal_strlit("tpu_max_staked_connections");
    reveal_strlit("tpu_max_unstaked_connections");
    reveal_strlit("tpu_max_streams_per_ms");
    reveal_strlit("snapshot_version");
    reveal_strlit("snapshot_archive_format");
    reveal_strlit("full_snapshot_archive_interval_slots");
    reveal_strlit("incremental_snapshot_archive_interval_slots");
    assert("incremental_snapshot_archive_interval_slots"@.len() == 43);
    assert("bind_address"@.len() == 12);
    assert("incremental_snapshot_archive_interval_slots"@ != "bind_address"@);
    assert("incremental_snapshot_archive_interval_slots"@.len() == 43);
    assert("entrypoint"@.len() == 10);
    assert("incremental_snapshot_archive_interval_slots"@ != "entrypoint"@);
    assert("incremental_snapshot_archive_interval_slots"@.len() == 43);
    assert("gossip_port"@.len() == 11);
    assert("incremental_snapshot_archive_interval_slots"@ != "gossip_port"@);
    assert("incremental_snapshot_archive_interval_slots"@.len() == 43);
    assert("gossip_host"@.len() == 11);
    assert("incremental_snapshot_archive_interval_slots"@ != "gossip_host"@);
    assert("incremental_snapshot_archive_interval_slots"@.len() == 43);
    assert("dynamic_port_range"@.len() == 18);
    assert("incremental_snapshot_archive_interval_slots"@ != "dynamic_port_range"@);
    assert("incremental_snapshot_archive_interval_slots"@.len() == 43);
    assert("allow_private_addr"@.len() == 18);
    assert("incremental_snapshot_archive_interval_slots"@ != "allow_private_addr"@);
    assert("incremental_snapshot_archive_interval_slots"@.len() == 43);
    assert("ledger_path"@.len() == 11);
    assert("incremental_snapshot_archive_interval_slots"@ != "ledger_path"@);
    assert("incremental_snapshot_archive_interval_slots"@.len() == 43);
    assert("accounts_path"@.len() == 13);
    assert("incremental_snapshot_archive_interval_slots"@ != "accounts_path"@);
    assert("incremental_snapshot_archive_interval_slots"@.len() == 43);
    assert("account_snapshot_paths"@.len() == 22);
    assert("incremental_snapshot_archive_interval_slots"@ != "account_snapshot_paths"@);
    assert("incremental_snapshot_archive_interval_slots"@.len() == 43);
    assert("limit_ledger_size"@.len() == 17);
    assert("incremental_snapshot_archive_interval_slots"@ != "limit_ledger_size"@);
    assert("incremental_snapshot_archive_interval_slots"@.len() == 43);
    assert("rpc_port"@.len() == 8);
    assert("incremental_snapshot_archive_interval_slots"@ != "rpc_port"@);
    assert("incremental_snapshot_archive_interval_slots"@.len() == 43);
    assert("rpc_bind_address"@.len() == 16);
    assert("incremental_snapshot_archive_interval_slots"@ != "rpc_bind_address"@);
    assert("incremental_snapshot_archive_interval_slots"@.len() == 43);
    assert("enable_rpc_transaction_history"@.len() == 30);
    assert("incremental_snapshot_archive_interval_slots"@ != "enable_rpc_transaction_history"@);
    assert("incremental_snapshot_archive_interval_slots"@.len() == 43);
    assert("enable_extended_tx_metadata_storage"@.len() == 35);
    assert("incremental_snapshot_archive_interval_slots"@ != "enable_extended_tx_metadata_storage"@);
    assert("incremental_snapshot_archive_interval_slots"@.len() == 43);
    assert("rpc_threads"@.len() == 11);
    assert("incremental_snapshot_archive_interval_slots"@ != "rpc_threads"@);
    assert("incremental_snapshot_archive_interval_slots"@.len() == 43);
    assert("rpc_blocking_threads"@.len() == 20);
    assert("incremental_snapshot_archive_interval_slots"@ != "rpc_blocking_threads"@);
    assert("incremental_snapshot_archive_interval_slots"@.len() == 43);
    assert("rpc_max_request_body_size"@.len() == 25);
    assert("incremental_snapshot_archive_interval_slots"@ != "rpc_max_request_body_size"@);
    assert("incremental_snapshot_archive_interval_slots"@.len() == 43);
    assert("rpc_pubsub_max_active_subscriptions"@.len() == 35);
    assert("incremental_snapshot_archive_interval_slots"@ != "rpc_pubsub_max_active_subscriptions"@);
    assert("incremental_snapshot_archive_interval_slots"@.len() == 43);
    assert("rpc_pubsub_queue_capacity_items"@.len() == 31);
    assert("incremental_snapshot_archive_interval_slots"@ != "rpc_pubsub_queue_capacity_items"@);
    assert("incremental_snapshot_archive_interval_slots"@.len() == 43);
    assert("rpc_pubsub_queue_capacity_bytes"@.len() == 31);
    assert("incremental_snapshot_archive_interval_slots"@ != "rpc_pubsub_queue_capacity_bytes"@);
    assert("incremental_snapshot_archive_interval_slots"@.len() == 43);
    assert("accounts_shrink_ratio"@.len() == 21);
    assert("incremental_snapshot_archive_interval_slots"@ != "accounts_shrink_ratio"@);
    assert("incremental_snapshot_archive_interval_slots"@.len() == 43);
    assert("accounts_shrink_optimize_total_space"@.len() == 36);
    assert("incremental_snapshot_archive_interval_slots"@ != "accounts_shrink_optimize_total_space"@);
    assert("incremental_snapshot_archive_interval_slots"@.len() == 43);
    assert("banking_trace_dir_byte_limit"@.len() == 28);
    assert("incremental_snapshot_archive_interval_slots"@ != "banking_trace_dir_byte_limit"@);
    assert("incremental_snapshot_archive_interval_slots"@.len() == 43);
    assert("tpu_connection_pool_size"@.len() == 24);
    assert("incremental_snapshot_archive_interval_slots"@ != "tpu_connection_pool_size"@);
    assert("incremental_snapshot_archive_interval_slots"@.len() == 43);
    assert("tpu_max_connections_per_peer"@.len() == 28);
    assert("incremental_snapshot_archive_interval_slots"@ != "tpu_max_connections_per_peer"@);
    assert("incremental_snapshot_archive_interval_slots"@.len() == 43);
    assert("tpu_max_connections_per_ipaddr_per_minute"@.len() == 41);
    assert("incremental_snapshot_archive_interval_slots"@ != "tpu_max_connections_per_ipaddr_per_minute"@);
    assert("incremental_snapshot_archive_interval_slots"@.len() == 43);
    assert("tpu_max_staked_connections"@.len() == 26);
    assert("incremental_snapshot_archive_interval_slots"@ != "tpu_max_staked_connections"@);
    assert("incremental_snapshot_archive_interval_slots"@.len() == 43);
    assert("tpu_max_unstaked_connections"@.len() == 28);
    assert("incremental_snapshot_archive_interval_slots"@ != "tpu_max_unstaked_connections"@);
    assert("incremental_snapshot_archive_interval_slots"@.len() == 43);
    assert("tpu_max_streams_per_ms"@.len() == 22);
    assert("incremental_snapshot_archive_interval_slots"@ != "tpu_max_streams_per_ms"@);
    assert("incremental_snapshot_archive_interval_slots"@.len() == 43);
    assert("snapshot_version"@.len() == 16);
    assert("incremental_snapshot_archive_interval_slots"@ != "snapshot_version"@);
    assert("incremental_snapshot_archive_interval_slots"@.len() == 43);
    assert("snapshot_archive_format"@.len() == 23);
    assert("incremental_snapshot_archive_interval_slots"@ != "snapshot_archive_format"@);
    assert("incremental_snapshot_archive_interval_slots"@.len() == 43);
    assert("full_snapshot_archive_interval_slots"@.len() == 36);
    assert("incremental_snapshot_archive_interval_slots"@ != "full_snapshot_archive_interval_slots"@);
}

#[verifier::spinoff_prover]
#[verifier::rlimit(100)]
proof fn lemma_apply_maximum_full_snapshot_archives_to_retain(c: ConfigV, v: ValueV)
    ensures
        spec_apply(c, "maximum_full_snapshot_archives_to_retain"@, v) == (match as_usizev(v) {
            Some(n) => Some(ConfigV { maximum_full_snapshot_archives_to_retain: Some(n), ..c }),
            None => None,
        }),
{
    reveal(crate::reader::spec_apply);
    reveal_strlit("bind_address");
    reveal_strlit("entrypoint");
    reveal_strlit("gossip_port");
    reveal_strlit("gossip_host");
    reveal_strlit("dynamic_port_range");
    reveal_strlit("allow_private_addr");
    reveal_strlit("ledger_path");
    reveal_strlit("accounts_path");
    reveal_strlit("account_snapshot_paths");
    reveal_strlit("limit_ledger_size");
    reveal_strlit("rpc_port");
    reveal_strlit("rpc_bind_address");
    reveal_strlit("enable_rpc_transaction_history");
    reveal_strlit("enable_extended_tx_metadata_storage");
    reveal_strlit("rpc_threads");
    reveal_strlit("rpc_blocking_threads");
    reveal_strlit("rpc_max_request_body_size");
    reveal_strlit("rpc_pubsub_max_active_subscriptions");
    reveal_strlit("rpc_pubsub_queue_capacity_items");
    reveal_strlit("rpc_pubsub_queue_capacity_bytes");
    reveal_strlit("accounts_shrink_ratio");
    reveal_strlit("accounts_shrink_optimize_total_space");
    reveal_strlit("banking_trace_dir_byte_limit");
    reveal_strlit("tpu_connection_pool_size");
    reveal_strlit("tpu_max_connections_per_peer");
    reveal_strlit("tpu_max_connections_per_ipaddr_per_minute");
    reveal_strlit("tpu_max_staked_connections");
    reveal_strlit("tpu_max_unstaked_connections");
    reveal_strlit("tpu_max_streams_per_ms");
    reveal_strlit("snapshot_version");
    reveal_strlit("snapshot_archive_format");
    reveal_strlit("full_snapshot_archive_interval_slots");
    reveal_strlit("incremental_snapshot_archive_interval_slots");
    reveal_strlit("maximum_full_snapshot_archives_to_retain");
    assert("maximum_full_snapshot_archives_to_retain"@.len() == 40);
    assert("bind_address"@.len() == 12);
    assert("maximum_full_snapshot_archives_to_retain"@ != "bind_address"@);
    assert("maximum_full_snapshot_archives_to_retain"@.len() == 40);
    assert("entrypoint"@.len() == 10);
    assert("maximum_full_snapshot_archives_to_retain"@ != "entrypoint"@);
    assert("maximum_full_snapshot_archives_to_retain"@.len() == 40);
    assert("gossip_port"@.len() == 11);
    assert("maximum_full_snapshot_archives_to_retain"@ != "gossip_port"@);
    assert("maximum_full_snapshot_archives_to_retain"@.len() == 40);
    assert("gossip_host"@.len() == 11);
    assert("maximum_full_snapshot_archives_to_retain"@ != "gossip_host"@);
    assert("maximum_full_snapshot_archives_to_retain"@.len() == 40);
    assert("dynamic_port_range"@.len() == 18);
    assert("maximum_full_snapshot_archives_to_retain"@ != "dynamic_port_range"@);
    assert("maximum_full_snapshot_archives_to_retain"@.len() == 40);
    assert("allow_private_addr"@.len() == 18);
    assert("maximum_full_snapshot_archives_to_retain"@ != "allow_private_addr"@);
    assert("maximum_full_snapshot_archives_to_retain"@.len() == 40);
    assert("ledger_path"@.len() == 11);
    assert("maximum_full_snapshot_archives_to_retain"@ != "ledger_path"@);
    assert("maximum_full_snapshot_archives_to_retain"@.len() == 40);
    assert("accounts_path"@.len() == 13);
    assert("maximum_full_snapshot_archives_to_retain"@ != "accounts_path"@);
    assert("maximum_full_snapshot_archives_to_retain"@.len() == 40);
    assert("account_snapshot_paths"@.len() == 22);
    assert("maximum_full_snapshot_archives_to_retain"@ != "account_snapshot_paths"@);
    assert("maximum_full_snapshot_archives_to_retain"@.len() == 40);
    assert("limit_ledger_size"@.len() == 17);
    assert("maximum_full_snapshot_archives_to_retain"@ != "limit_ledger_size"@);
    assert("maximum_full_snapshot_archives_to_retain"@.len() == 40);
    assert("rpc_port"@.len() == 8);
    assert("maximum_full_snapshot_archives_to_retain"@ != "rpc_port"@);
    assert("maximum_full_snapshot_archives_to_retain"@.len() == 40);
    assert("rpc_bind_address"@.len() == 16);
    assert("maximum_full_snapshot_archives_to_retain"@ != "rpc_bind_address"@);
    assert("maximum_full_snapshot_archives_to_retain"@.len() == 40);
    assert("enable_rpc_transaction_history"@.len() == 30);
    assert("maximum_full_snapshot_archives_to_retain"@ != "enable_rpc_transaction_history"@);
    assert("maximum_full_snapshot_archives_to_retain"@.len() == 40);
    assert("enable_extended_tx_metadata_storage"@.len() == 35);
    assert("maximum_full_snapshot_archives_to_retain"@ != "enable_extended_tx_metadata_storage"@);
    assert("maximum_full_snapshot_archives_to_retain"@.len() == 40);
    assert("rpc_threads"@.len() == 11);
    assert("maximum_full_snapshot_archives_to_retain"@ != "rpc_threads"@);
    assert("maximum_full_snapshot_archives_to_retain"@.len() == 40);
    assert("rpc_blocking_threads"@.len() == 20);
    assert("maximum_full_snapshot_archives_to_retain"@ != "rpc_blocking_threads"@);
    assert("maximum_full_snapshot_archives_to_retain"@.len() == 40);
    assert("rpc_max_request_body_size"@.len() == 25);
    assert("maximum_full_snapshot_archives_to_retain"@ != "rpc_max_request_body_size"@);
    assert("maximum_full_snapshot_archives_to_retain"@.len() == 40);
    assert("rpc_pubsub_max_active_subscriptions"@.len() == 35);
    assert("maximum_full_snapshot_archives_to_retain"@ != "rpc_pubsub_max_active_subscriptions"@);
    assert("maximum_full_snapshot_archives_to_retain"@.len() == 40);
    assert("rpc_pubsub_queue_capacity_items"@.len() == 31);
    assert("maximum_full_snapshot_archives_to_retain"@ != "rpc_pubsub_queue_capacity_items"@);
    assert("maximum_full_snapshot_archives_to_retain"@.len() == 40);
    assert("rpc_pubsub_queue_capacity_bytes"@.len() == 31);
    assert("maximum_full_snapshot_archives_to_retain"@ != "rpc_pubsub_queue_capacity_bytes"@);
    assert("maximum_full_snapshot_archives_to_retain"@.len() == 40);
    assert("accounts_shrink_ratio"@.len() == 21);
    assert("maximum_full_snapshot_archives_to_retain"@ != "accounts_shrink_ratio"@);
    assert("maximum_full_snapshot_archives_to_retain"@.len() == 40);
    assert("accounts_shrink_optimize_total_space"@.len() == 36);
    assert("maximum_full_snapshot_archives_to_retain"@ != "accounts_shrink_optimize_total_space"@);
    assert("maximum_full_snapshot_archives_to_retain"@.len() == 40);
    assert("banking_trace_dir_byte_limit"@.len() == 28);
    assert("maximum_full_snapshot_archives_to_retain"@ != "banking_trace_dir_byte_limit"@);
    assert("maximum_full_snapshot_archives_to_retain"@.len() == 40);
    assert("tpu_connection_pool_size"@.len() == 24);
    assert("maximum_full_snapshot_archives_to_retain"@ != "tpu_connection_pool_size"@);
    assert("maximum_full_snapshot_archives_to_retain"@.len() == 40);
    assert("tpu_max_connections_per_peer"@.len() == 28);
    assert("maximum_full_snapshot_archives_to_retain"@ != "tpu_max_connections_per_peer"@);
    assert("maximum_full_snapshot_archives_to_retain"@.len() == 40);
    assert("tpu_max_connections_per_ipaddr_per_minute"@.len() == 41);
    assert("maximum_full_snapshot_archives_to_retain"@ != "tpu_max_connections_per_ipaddr_per_minute"@);
    assert("maximum_full_snapshot_archives_to_retain"@.len() == 40);
    assert("tpu_max_staked_connections"@.len() == 26);
    assert("maximum_full_snapshot_archives_to_retain"@ != "tpu_max_staked_connections"@);
    assert("maximum_full_snapshot_archives_to_retain"@.len() == 40);
    assert("tpu_max_unstaked_connections"@.len() == 28);
    assert("maximum_full_snapshot_archives_to_retain"@ != "tpu_max_unstaked_connections"@);
    assert("maximum_full_snapshot_archives_to_retain"@.len() == 40);
    assert("tpu_max_streams_per_ms"@.len() == 22);
    assert("maximum_full_snapshot_archives_to_retain"@ != "tpu_max_streams_per_ms"@);
    assert("maximum_full_snapshot_archives_to_retain"@.len() == 40);
    assert("snapshot_version"@.len() == 16);
    assert("maximum_full_snapshot_archives_to_retain"@ != "snapshot_version"@);
    assert("maximum_full_snapshot_archives_to_retain"@.len() == 40);
    assert("snapshot_archive_format"@.len() == 23);
    assert("maximum_full_snapshot_archives_to_retain"@ != "snapshot_archive_format"@);
    assert("maximum_full_snapshot_archives_to_retain"@.len() == 40);
    assert("full_snapshot_archive_interval_slots"@.len() == 36);
    assert("maximum_full_snapshot_archives_to_retain"@ != "full_snapshot_archive_interval_slots"@);
    assert("maximum_full_snapshot_archives_to_retain"@.len() == 40);
    assert("incremental_snapshot_archive_interval_slots"@.len() == 43);
    assert("maximum_full_snapshot_archives_to_retain"@ != "incremental_snapshot_archive_interval_slots"@);
}

#[verifier::spinoff_prover]
#[verifier::rlimit(100)]
proof fn lemma_apply_maximum_incremental_snapshot_archives_to_retain(c: ConfigV, v: ValueV)
    ensures
        spec_apply(c, "maximum_incremental_snapshot_archives_to_retain"@, v) == (match as_usizev(v) {
            Some(n) => Some(ConfigV { maximum_incremental_snapshot_archives_to_retain: Some(n), ..c }),
            None => None,
        }),
{
    reveal(crate::reader::spec_apply);
    reveal_strlit("bind_address");
    reveal_strlit("entrypoint");
    reveal_strlit("gossip_port");
    reveal_strlit("gossip_host");
    reveal_strlit("dynamic_port_range");
    reveal_strlit("allow_private_addr");
    reveal_strlit("ledger_path");
    reveal_strlit("accounts_path");
    reveal_strlit("account_snapshot_paths");
    reveal_strlit("limit_ledger_size");
    reveal_strlit("rpc_port");
    reveal_strlit("rpc_bind_address");
    reveal_strlit("enable_rpc_transaction_history");
    reveal_strlit("enable_extended_tx_metadata_storage");
    reveal_strlit("rpc_threads");
    reveal_strlit("rpc_blocking_threads");
    reveal_strlit("rpc_max_request_body_size");
    reveal_strlit("rpc_pubsub_max_active_subscriptions");
    reveal_strlit("rpc_pubsub_queue_capacity_items");
    reveal_strlit("rpc_pubsub_queue_capacity_bytes");
    reveal_strlit("accounts_shrink_ratio");
    reveal_strlit("accounts_shrink_optimize_total_space");
    reveal_strlit("banking_trace_dir_byte_limit");
    reveal_strlit("tpu_connection_pool_size");
    reveal_strlit("tpu_max_connections_per_peer");
    reveal_strlit("tpu_max_connections_per_ipaddr_per_minute");
    reveal_strlit("tpu_max_staked_connections");
    reveal_strlit("tpu_max_unstaked_connections");
    reveal_strlit("tpu_max_streams_per_ms");
    reveal_strlit("snapshot_version");
    reveal_strlit("snapshot_archive_format");
    reveal_strlit("full_snapshot_archive_interval_slots");
    reveal_strlit("incremental_snapshot_archive_interval_slots");
    reveal_strlit("maximum_full_snapshot_archives_to_retain");
    reveal_strlit("maximum_incremental_snapshot_archives_to_retain");
    assert("maximum_incremental_snapshot_archives_to_retain"@.len() == 47);
    assert("bind_address"@.len() == 12);
    assert("maximum_incremental_snapshot_archives_to_retain"@ != "bind_address"@);
    assert("maximum_incremental_snapshot_archives_to_retain"@.len() == 47);
    assert("entrypoint"@.len() == 10);
    assert("maximum_incremental_snapshot_archives_to_retain"@ != "entrypoint"@);
    assert("maximum_incremental_snapshot_archives_to_retain"@.len() == 47);
    assert("gossip_port"@.len() == 11);
    assert("maximum_incremental_snapshot_archives_to_retain"@ != "gossip_port"@);
    assert("maximum_incremental_snapshot_archives_to_retain"@.len() == 47);
    assert("gossip_host"@.len() == 11);
    assert("maximum_incremental_snapshot_archives_to_retain"@ != "gossip_host"@);
    assert("maximum_incremental_snapshot_archives_to_retain"@.len() == 47);
    assert("dynamic_port_range"@.len() == 18);
    assert("maximum_incremental_snapshot_archives_to_retain"@ != "dynamic_port_range"@);
    assert("maximum_incremental_snapshot_archives_to_retain"@.len() == 47);
    assert("allow_private_addr"@.len() == 18);
    assert("maximum_incremental_snapshot_archives_to_retain"@ != "allow_private_addr"@);
    assert("maximum_incremental_snapshot_archives_to_retain"@.len() == 47);
    assert("ledger_path"@.len() == 11);
    assert("maximum_incremental_snapshot_archives_to_retain"@ != "ledger_path"@);
    assert("maximum_incremental_snapshot_archives_to_retain"@.len() == 47);
    assert("accounts_path"@.len() == 13);
    assert("maximum_incremental_snapshot_archives_to_retain"@ != "accounts_path"@);
    assert("maximum_incremental_snapshot_archives_to_retain"@.len() == 47);
    assert("account_snapshot_paths"@.len() == 22);
    assert("maximum_incremental_snapshot_archives_to_retain"@ != "account_snapshot_paths"@);
    assert("maximum_incremental_snapshot_archives_to_retain"@.len() == 47);
    assert("limit_ledger_size"@.len() == 17);
    assert("maximum_incremental_snapshot_archives_to_retain"@ != "limit_ledger_size"@);
    assert("maximum_incremental_snapshot_archives_to_retain"@.len() == 47);
    assert("rpc_port"@.len() == 8);
    assert("maximum_incremental_snapshot_archives_to_retain"@ != "rpc_port"@);
    assert("maximum_incremental_snapshot_archives_to_retain"@.len() == 47);
    assert("rpc_bind_address"@.len() == 16);
    assert("maximum_incremental_snapshot_archives_to_retain"@ != "rpc_bind_address"@);
    assert("maximum_incremental_snapshot_archives_to_retain"@.len() == 47);
    assert("enable_rpc_transaction_history"@.len() == 30);
    assert("maximum_incremental_snapshot_archives_to_retain"@ != "enable_rpc_transaction_history"@);
    assert("maximum_incremental_snapshot_archives_to_retain"@.len() == 47);
    assert("enable_extended_tx_metadata_storage"@.len() == 35);
    assert("maximum_incremental_snapshot_archives_to_retain"@ != "enable_extended_tx_metadata_storage"@);
    assert("maximum_incremental_snapshot_archives_to_retain"@.len() == 47);
    assert("rpc_threads"@.len() == 11);
    assert("maximum_incremental_snapshot_archives_to_retain"@ != "rpc_threads"@);
    assert("maximum_incremental_snapshot_archives_to_retain"@.len() == 47);
    assert("rpc_blocking_threads"@.len() == 20);
    assert("maximum_incremental_snapshot_archives_to_retain"@ != "rpc_blocking_threads"@);
    assert("maximum_incremental_snapshot_archives_to_retain"@.len() == 47);
    assert("rpc_max_request_body_size"@.len() == 25);
    assert("maximum_incremental_snapshot_archives_to_retain"@ != "rpc_max_request_body_size"@);
    assert("maximum_incremental_snapshot_archives_to_retain"@.len() == 47);
    assert("rpc_pubsub_max_active_subscriptions"@.len() == 35);
    assert("maximum_incremental_snapshot_archives_to_retain"@ != "rpc_pubsub_max_active_subscriptions"@);
    assert("maximum_incremental_snapshot_archives_to_retain"@.len() == 47);
    assert("rpc_pubsub_queue_capacity_items"@.len() == 31);
    assert("maximum_incremental_snapshot_archives_to_retain"@ != "rpc_pubsub_queue_capacity_items"@);
    assert("maximum_incremental_snapshot_archives_to_retain"@.len() == 47);
    assert("rpc_pubsub_queue_capacity_bytes"@.len() == 31);
    assert("maximum_incremental_snapshot_archives_to_retain"@ != "rpc_pubsub_queue_capacity_bytes"@);
    assert("maximum_incremental_snapshot_archives_to_retain"@.len() == 47);
    assert("accounts_shrink_ratio"@.len() == 21);
    assert("maximum_incremental_snapshot_archives_to_retain"@ != "accounts_shrink_ratio"@);
    assert("maximum_incremental_snapshot_archives_to_retain"@.len() == 47);
    assert("accounts_shrink_optimize_total_space"@.len() == 36);
    assert("maximum_incremental_snapshot_archives_to_retain"@ != "accounts_shrink_optimize_total_space"@);
    assert("maximum_incremental_snapshot_archives_to_retain"@.len() == 47);
    assert("banking_trace_dir_byte_limit"@.len() == 28);
    assert("maximum_incremental_snapshot_archives_to_retain"@ != "banking_trace_dir_byte_limit"@);
    assert("maximum_incremental_snapshot_archives_to_retain"@.len() == 47);
    assert("tpu_connection_pool_size"@.len() == 24);
    assert("maximum_incremental_snapshot_archives_to_retain"@ != "tpu_connection_pool_size"@);
    assert("maximum_incremental_snapshot_archives_to_retain"@.len() == 47);
    assert("tpu_max_connections_per_peer"@.len() == 28);
    assert("maximum_incremental_snapshot_archives_to_retain"@ != "tpu_max_connections_per_peer"@);
    assert("maximum_incremental_snapshot_archives_to_retain"@.len() == 47);
    assert("tpu_max_connections_per_ipaddr_per_minute"@.len() == 41);
    assert("maximum_incremental_snapshot_archives_to_retain"@ != "tpu_max_connections_per_ipaddr_per_minute"@);
    assert("maximum_incremental_snapshot_archives_to_retain"@.len() == 47);
    assert("tpu_max_staked_connections"@.len() == 26);
    assert("maximum_incremental_snapshot_archives_to_retain"@ != "tpu_max_staked_connections"@);
    assert("maximum_incremental_snapshot_archives_to_retain"@.len() == 47);
    assert("tpu_max_unstaked_connections"@.len() == 28);
    assert("maximum_incremental_snapshot_archives_to_retain"@ != "tpu_max_unstaked_connections"@);
    assert("maximum_incremental_snapshot_archives_to_retain"@.len() == 47);
    assert("tpu_max_streams_per_ms"@.len() == 22);
    assert("maximum_incremental_snapshot_archives_to_retain"@ != "tpu_max_streams_per_ms"@);
    assert("maximum_incremental_snapshot_archives_to_retain"@.len() == 47);
    assert("snapshot_version"@.len() == 16);
    assert("maximum_incremental_snapshot_archives_to_retain"@ != "snapshot_version"@);
    assert("maximum_incremental_snapshot_archives_to_retain"@.len() == 47);
    assert("snapshot_archive_format"@.len() == 23);
    assert("maximum_incremental_snapshot_archives_to_retain"@ != "snapshot_archive_format"@);
    assert("maximum_incremental_snapshot_archives_to_retain"@.len() == 47);
    assert("full_snapshot_archive_interval_slots"@.len() == 36);
    assert("maximum_incremental_snapshot_archives_to_retain"@ != "full_snapshot_archive_interval_slots"@);
    assert("maximum_incremental_snapshot_archives_to_retain"@.len() == 47);
    assert("incremental_snapshot_archive_interval_slots"@.len() == 43);
    assert("maximum_incremental_snapshot_archives_to_retain"@ != "incremental_snapshot_archive_interval_slots"@);
    assert("maximum_incremental_snapshot_archives_to_retain"@.len() == 47);
    assert("maximum_full_snapshot_archives_to_retain"@.len() == 40);
    assert("maximum_incremental_snapshot_archives_to_retain"@ != "maximum_full_snapshot_archives_to_retain"@);
}

#[verifier::spinoff_prover]
#[verifier::rlimit(100)]
proof fn lemma_apply_min_snapshot_download_speed(c: ConfigV, v: ValueV)
    ensures
        spec_apply(c, "min_snapshot_download_speed"@, v) == (match as_u64v(v) {
            Some(n) => Some(ConfigV { min_snapshot_download_speed: Some(n), ..c }),
            None => None,
        }),
{
    reveal(crate::reader::spec_apply);
    reveal_strlit("bind_address");
    reveal_strlit("entrypoint");
    reveal_strlit("gossip_port");
    reveal_strlit("gossip_host");
    reveal_strlit("dynamic_port_range");
    reveal_strlit("allow_private_addr");
    reveal_strlit("ledger_path");
    reveal_strlit("accounts_path");
    reveal_strlit("account_snapshot_paths");
    reveal_strlit("limit_ledger_size");
    reveal_strlit("rpc_port");
    reveal_strlit("rpc_bind_address");
    reveal_strlit("enable_rpc_transaction_history");
    reveal_strlit("enable_extended_tx_metadata_storage");
    reveal_strlit("rpc_threads");
    reveal_strlit("rpc_blocking_threads");
    reveal_strlit("rpc_max_request_body_size");
    reveal_strlit("rpc_pubsub_max_active_subscriptions");
    reveal_strlit("rpc_pubsub_queue_capacity_items");
    reveal_strlit("rpc_pubsub_queue_capacity_bytes");
    reveal_strlit("accounts_shrink_ratio");
    reveal_strlit("accounts_shrink_optimize_total_space");
    reveal_strlit("banking_trace_dir_byte_limit");
    reveal_strlit("tpu_connection_pool_size");
    reveal_strlit("tpu_max_connections_per_peer");
    reveal_strlit("tpu_max_connections_per_ipaddr_per_minute");
    reveal_strlit("tpu_max_staked_connections");
    reveal_strlit("tpu_max_unstaked_connections");
    reveal_strlit("tpu_max_streams_per_ms");
    reveal_strlit("snapshot_version");
    reveal_strlit("snapshot_archive_format");
    reveal_strlit("full_snapshot_archive_interval_slots");
    reveal_strlit("incremental_snapshot_archive_interval_slots");
    reveal_strlit("maximum_full_snapshot_archives_to_retain");
    reveal_strlit("maximum_incremental_snapshot_archives_to_retain");
    reveal_strlit("min_snapshot_download_speed");
    assert("min_snapshot_download_speed"@.len() == 27);
    assert("bind_address"@.len() == 12);
    assert("min_snapshot_download_speed"@ != "bind_address"@);
    assert("min_snapshot_download_speed"@.len() == 27);
    assert("entrypoint"@.len() == 10);
    assert("min_snapshot_download_speed"@ != "entrypoint"@);
    assert("min_snapshot_download_speed"@.len() == 27);
    assert("gossip_port"@.len() == 11);
    assert("min_snapshot_download_speed"@ != "gossip_port"@);
    assert("min_snapshot_download_speed"@.len() == 27);
    assert("gossip_host"@.len() == 11);
    assert("min_snapshot_download_speed"@ != "gossip_host"@);
    assert("min_snapshot_download_speed"@.len() == 27);
    assert("dynamic_port_range"@.len() == 18);
    assert("min_snapshot_download_speed"@ != "dynamic_port_range"@);
    assert("min_snapshot_download_speed"@.len() == 27);
    assert("allow_private_addr"@.len() == 18);
    assert("min_snapshot_download_speed"@ != "allow_private_addr"@);
    assert("min_snapshot_download_speed"@.len() == 27);
    assert("ledger_path"@.len() == 11);
    assert("min_snapshot_download_speed"@ != "ledger_path"@);
    assert("min_snapshot_download_speed"@.len() == 27);
    assert("accounts_path"@.len() == 13);
    assert("min_snapshot_download_speed"@ != "accounts_path"@);
    assert("min_snapshot_download_speed"@.len() == 27);
    assert("account_snapshot_paths"@.len() == 22);
    assert("min_snapshot_download_speed"@ != "account_snapshot_paths"@);
    assert("min_snapshot_download_speed"@.len() == 27);
    assert("limit_ledger_size"@.len() == 17);
    assert("min_snapshot_download_speed"@ != "limit_ledger_size"@);
    assert("min_snapshot_download_speed"@.len() == 27);
    assert("rpc_port"@.len() == 8);
    assert("min_snapshot_download_speed"@ != "rpc_port"@);
    assert("min_snapshot_download_speed"@.len() == 27);
    assert("rpc_bind_address"@.len() == 16);
    assert("min_snapshot_download_speed"@ != "rpc_bind_address"@);
    assert("min_snapshot_download_speed"@.len() == 27);
    assert("enable_rpc_transaction_history"@.len() == 30);
    assert("min_snapshot_download_speed"@ != "enable_rpc_transaction_history"@);
    assert("min_snapshot_download_speed"@.len() == 27);
    assert("enable_extended_tx_metadata_storage"@.len() == 35);
    assert("min_snapshot_download_speed"@ != "enable_extended_tx_metadata_storage"@);
    assert("min_snapshot_download_speed"@.len() == 27);
    assert("rpc_threads"@.len() == 11);
    assert("min_snapshot_download_speed"@ != "rpc_threads"@);
    assert("min_snapshot_download_speed"@.len() == 27);
    assert("rpc_blocking_threads"@.len() == 20);
    assert("min_snapshot_download_speed"@ != "rpc_blocking_threads"@);
    assert("min_snapshot_download_speed"@.len() == 27);
    assert("rpc_max_request_body_size"@.len() == 25);
    assert("min_snapshot_download_speed"@ != "rpc_max_request_body_size"@);
    assert("min_snapshot_download_speed"@.len() == 27);
    assert("rpc_pubsub_max_active_subscriptions"@.len() == 35);
    assert("min_snapshot_download_speed"@ != "rpc_pubsub_max_active_subscriptions"@);
    assert("min_snapshot_download_speed"@.len() == 27);
    assert("rpc_pubsub_queue_capacity_items"@.len() == 31);
    assert("min_snapshot_download_speed"@ != "rpc_pubsub_queue_capacity_items"@);
    assert("min_snapshot_download_speed"@.len() == 27);
    assert("rpc_pubsub_queue_capacity_bytes"@.len() == 31);
    assert("min_snapshot_download_speed"@ != "rpc_pubsub_queue_capacity_bytes"@);
    assert("min_snapshot_download_speed"@.len() == 27);
    assert("accounts_shrink_ratio"@.len() == 21);
    assert("min_snapshot_download_speed"@ != "accounts_shrink_ratio"@);
    assert("min_snapshot_download_speed"@.len() == 27);
    assert("accounts_shrink_optimize_total_space"@.len() == 36);
    assert("min_snapshot_download_speed"@ != "accounts_shrink_optimize_total_space"@);
    assert("min_snapshot_download_speed"@.len() == 27);
    assert("banking_trace_dir_byte_limit"@.len() == 28);
    assert("min_snapshot_download_speed"@ != "banking_trace_dir_byte_limit"@);
    assert("min_snapshot_download_speed"@.len() == 27);
    assert("tpu_connection_pool_size"@.len() == 24);
    assert("min_snapshot_download_speed"@ != "tpu_connection_pool_size"@);
    assert("min_snapshot_download_speed"@.len() == 27);
    assert("tpu_max_connections_per_peer"@.len() == 28);
    assert("min_snapshot_download_speed"@ != "tpu_max_connections_per_peer"@);
    assert("min_snapshot_download_speed"@.len() == 27);
    assert("tpu_max_connections_per_ipaddr_per_minute"@.len() == 41);
    assert("min_snapshot_download_speed"@ != "tpu_max_connections_per_ipaddr_per_minute"@);
    assert("min_snapshot_download_speed"@.len() == 27);
    assert("tpu_max_staked_connections"@.len() == 26);
    assert("min_snapshot_download_speed"@ != "tpu_max_staked_connections"@);
    assert("min_snapshot_download_speed"@.len() == 27);
    assert("tpu_max_unstaked_connections"@.len() == 28);
    assert("min_snapshot_download_speed"@ != "tpu_max_unstaked_connections"@);
    assert("min_snapshot_download_speed"@.len() == 27);
    assert("tpu_max_streams_per_ms"@.len() == 22);
    assert("min_snapshot_download_speed"@ != "tpu_max_streams_per_ms"@);
    assert("min_snapshot_download_speed"@.len() == 27);
    assert("snapshot_version"@.len() == 16);
    assert("min_snapshot_download_speed"@ != "snapshot_version"@);
    assert("min_snapshot_download_speed"@.len() == 27);
    assert("snapshot_archive_format"@.len() == 23);
    assert("min_snapshot_download_speed"@ != "snapshot_archive_format"@);
    assert("min_snapshot_download_speed"@.len() == 27);
    assert("full_snapshot_archive_interval_slots"@.len() == 36);
    assert("min_snapshot_download_speed"@ != "full_snapshot_archive_interval_slots"@);
    assert("min_snapshot_download_speed"@.len() == 27);
    assert("incremental_snapshot_archive_interval_slots"@.len() == 43);
    assert("min_snapshot_download_speed"@ != "incremental_snapshot_archive_interval_slots"@);
    assert("min_snapshot_download_speed"@.len() == 27);
    assert("maximum_full_snapshot_archives_to_retain"@.len() == 40);
    assert("min_snapshot_download_speed"@ != "maximum_full_snapshot_archives_to_retain"@);
    assert("min_snapshot_download_speed"@.len() == 27);
    assert("maximum_incremental_snapshot_archives_to_retain"@.len() == 47);
    assert("min_snapshot_download_speed"@ != "maximum_incremental_snapshot_archives_to_retain"@);
}

#[verifier::spinoff_prover]
#[verifier::rlimit(100)]
proof fn lemma_apply_max_snapshot_download_abort(c: ConfigV, v: ValueV)
    ensures
        spec_apply(c, "max_snapshot_download_abort"@, v) == (match as_u32v(v) {
            Some(n) => Some(ConfigV { max_snapshot_download_abort: Some(n), ..c }),
            None => None,
        }),
{
    reveal(crate::reader::spec_apply);
    reveal_strlit("bind_address");
    reveal_strlit("entrypoint");
    reveal_strlit("gossip_port");
    reveal_strlit("gossip_host");
    reveal_strlit("dynamic_port_range");
    reveal_strlit("allow_private_addr");
    reveal_strlit("ledger_path");
    reveal_strlit("accounts_path");
    reveal_strlit("account_snapshot_paths");
    reveal_strlit("limit_ledger_size");
    reveal_strlit("rpc_port");
    reveal_strlit("rpc_bind_address");
    reveal_strlit("enable_rpc_transaction_history");
    reveal_strlit("enable_extended_tx_metadata_storage");
    reveal_strlit("rpc_threads");
    reveal_strlit("rpc_blocking_threads");
    reveal_strlit("rpc_max_request_body_size");
    reveal_strlit("rpc_pubsub_max_active_subscriptions");
    reveal_strlit("rpc_pubsub_queue_capacity_items");
    reveal_strlit("rpc_pubsub_queue_capacity_bytes");
    reveal_strlit("accounts_shrink_ratio");
    reveal_strlit("accounts_shrink_optimize_total_space");
    reveal_strlit("banking_trace_dir_byte_limit");
    reveal_strlit("tpu_connection_pool_size");
    reveal_strlit("tpu_max_connections_per_peer");
    reveal_strlit("tpu_max_connections_per_ipaddr_per_minute");
    reveal_strlit("tpu_max_staked_connections");
    reveal_strlit("tpu_max_unstaked_connections");
    reveal_strlit("tpu_max_streams_per_ms");
    reveal_strlit("snapshot_version");
    reveal_strlit("snapshot_archive_format");
    reveal_strlit("full_snapshot_archive_interval_slots");
    reveal_strlit("incremental_snapshot_archive_interval_slots");
    reveal_strlit("maximum_full_snapshot_archives_to_retain");
    reveal_strlit("maximum_incremental_snapshot_archives_to_retain");
    reveal_strlit("min_snapshot_download_speed");
    reveal_strlit("max_snapshot_download_abort");
    assert("max_snapshot_download_abort"@.len() == 27);
    assert("bind_address"@.len() == 12);
    assert("max_snapshot_download_abort"@ != "bind_address"@);
    assert("max_snapshot_download_abort"@.len() == 27);
    assert("entrypoint"@.len() == 10);
    assert("max_snapshot_download_abort"@ != "entrypoint"@);
    assert("max_snapshot_download_abort"@.len() == 27);
    assert("gossip_port"@.len() == 11);
    assert("max_snapshot_download_abort"@ != "gossip_port"@);
    assert("max_snapshot_download_abort"@.len() == 27);
    assert("gossip_host"@.len() == 11);
    assert("max_snapshot_download_abort"@ != "gossip_host"@);
    assert("max_snapshot_download_abort"@.len() == 27);
    assert("dynamic_port_range"@.len() == 18);
    assert("max_snapshot_download_abort"@ != "dynamic_port_range"@);
    assert("max_snapshot_download_abort"@.len() == 27);
    assert("allow_private_addr"@.len() == 18);
    assert("max_snapshot_download_abort"@ != "allow_private_addr"@);
    assert("max_snapshot_download_abort"@.len() == 27);
    assert("ledger_path"@.len() == 11);
    assert("max_snapshot_download_abort"@ != "ledger_path"@);
    assert("max_snapshot_download_abort"@.len() == 27);
    assert("accounts_path"@.len() == 13);
    assert("max_snapshot_download_abort"@ != "accounts_path"@);
    assert("max_snapshot_download_abort"@.len() == 27);
    assert("account_snapshot_paths"@.len() == 22);
    assert("max_snapshot_download_abort"@ != "account_snapshot_paths"@);
    assert("max_snapshot_download_abort"@.len() == 27);
    assert("limit_ledger_size"@.len() == 17);
    assert("max_snapshot_download_abort"@ != "limit_ledger_size"@);
    assert("max_snapshot_download_abort"@.len() == 27);
    assert("rpc_port"@.len() == 8);
    assert("max_snapshot_download_abort"@ != "rpc_port"@);
    assert("max_snapshot_download_abort"@.len() == 27);
    assert("rpc_bind_address"@.len() == 16);
    assert("max_snapshot_download_abort"@ != "rpc_bind_address"@);
    assert("max_snapshot_download_abort"@.len() == 27);
    assert("enable_rpc_transaction_history"@.len() == 30);
    assert("max_snapshot_download_abort"@ != "enable_rpc_transaction_history"@);
    assert("max_snapshot_download_abort"@.len() == 27);
    assert("enable_extended_tx_metadata_storage"@.len() == 35);
    assert("max_snapshot_download_abort"@ != "enable_extended_tx_metadata_storage"@);
    assert("max_snapshot_download_abort"@.len() == 27);
    assert("rpc_threads"@.len() == 11);
    assert("max_snapshot_download_abort"@ != "rpc_threads"@);
    assert("max_snapshot_download_abort"@.len() == 27);
    assert("rpc_blocking_threads"@.len() == 20);
    assert("max_snapshot_download_abort"@ != "rpc_blocking_threads"@);
    assert("max_snapshot_download_abort"@.len() == 27);
    assert("rpc_max_request_body_size"@.len() == 25);
    assert("max_snapshot_download_abort"@ != "rpc_max_request_body_size"@);
    assert("max_snapshot_download_abort"@.len() == 27);
    assert("rpc_pubsub_max_active_subscriptions"@.len() == 35);
    assert("max_snapshot_download_abort"@ != "rpc_pubsub_max_active_subscriptions"@);
    assert("max_snapshot_download_abort"@.len() == 27);
    assert("rpc_pubsub_queue_capacity_items"@.len() == 31);
    assert("max_snapshot_download_abort"@ != "rpc_pubsub_queue_capacity_items"@);
    assert("max_snapshot_download_abort"@.len() == 27);
    assert("rpc_pubsub_queue_capacity_bytes"@.len() == 31);
    assert("max_snapshot_download_abort"@ != "rpc_pubsub_queue_capacity_bytes"@);
    assert("max_snapshot_download_abort"@.len() == 27);
    assert("accounts_shrink_ratio"@.len() == 21);
    assert("max_snapshot_download_abort"@ != "accounts_shrink_ratio"@);
    assert("max_snapshot_download_abort"@.len() == 27);
    assert("accounts_shrink_optimize_total_space"@.len() == 36);
    assert("max_snapshot_download_abort"@ != "accounts_shrink_optimize_total_space"@);
    assert("max_snapshot_download_abort"@.len() == 27);
    assert("banking_trace_dir_byte_limit"@.len() == 28);
    assert("max_snapshot_download_abort"@ != "banking_trace_dir_byte_limit"@);
    assert("max_snapshot_download_abort"@.len() == 27);
    assert("tpu_connection_pool_size"@.len() == 24);
    assert("max_snapshot_download_abort"@ != "tpu_connection_pool_size"@);
    assert("max_snapshot_download_abort"@.len() == 27);
    assert("tpu_max_connections_per_peer"@.len() == 28);
    assert("max_snapshot_download_abort"@ != "tpu_max_connections_per_peer"@);
    assert("max_snapshot_download_abort"@.len() == 27);
    assert("tpu_max_connections_per_ipaddr_per_minute"@.len() == 41);
    assert("max_snapshot_download_abort"@ != "tpu_max_connections_per_ipaddr_per_minute"@);
    assert("max_snapshot_download_abort"@.len() == 27);
    assert("tpu_max_staked_connections"@.len() == 26);
    assert("max_snapshot_download_abort"@ != "tpu_max_staked_connections"@);
    assert("max_snapshot_download_abort"@.len() == 27);
    assert("tpu_max_unstaked_connections"@.len() == 28);
    assert("max_snapshot_download_abort"@ != "tpu_max_unstaked_connections"@);
    assert("max_snapshot_download_abort"@.len() == 27);
    assert("tpu_max_streams_per_ms"@.len() == 22);
    assert("max_snapshot_download_abort"@ != "tpu_max_streams_per_ms"@);
    assert("max_snapshot_download_abort"@.len() == 27);
    assert("snapshot_version"@.len() == 16);
    assert("max_snapshot_download_abort"@ != "snapshot_version"@);
    assert("max_snapshot_download_abort"@.len() == 27);
    assert("snapshot_archive_format"@.len() == 23);
    assert("max_snapshot_download_abort"@ != "snapshot_archive_format"@);
    assert("max_snapshot_download_abort"@.len() == 27);
    assert("full_snapshot_archive_interval_slots"@.len() == 36);
    assert("max_snapshot_download_abort"@ != "full_snapshot_archive_interval_slots"@);
    assert("max_snapshot_download_abort"@.len() == 27);
    assert("incremental_snapshot_archive_interval_slots"@.len() == 43);
    assert("max_snapshot_download_abort"@ != "incremental_snapshot_archive_interval_slots"@);
    assert("max_snapshot_download_abort"@.len() == 27);
    assert("maximum_full_snapshot_archives_to_retain"@.len() == 40);
    assert("max_snapshot_download_abort"@ != "maximum_full_snapshot_archives_to_retain"@);
    assert("max_snapshot_download_abort"@.len() == 27);
    assert("maximum_incremental_snapshot_archives_to_retain"@.len() == 47);
    assert("max_snapshot_download_abort"@ != "maximum_incremental_snapshot_archives_to_retain"@);
    assert("max_snapshot_download_abort"@[1] == 'a');
    assert("min_snapshot_download_speed"@[1] == 'i');
    assert("max_snapshot_download_abort"@ != "min_snapshot_download_speed"@);
}

#[verifier::spinoff_prover]
#[verifier::rlimit(100)]
proof fn lemma_apply_replay_forks_threads(c: ConfigV, v: ValueV)
    ensures
        spec_apply(c, "replay_forks_threads"@, v) == (match as_usizev(v) {
            Some(n) => Some(ConfigV { replay_forks_threads: Some(n), ..c }),
            None => None,
        }),
{
    reveal(crate::reader::spec_apply);
    reveal_strlit("bind_address");
    reveal_strlit("entrypoint");
    reveal_strlit("gossip_port");
    reveal_strlit("gossip_host");
    reveal_strlit("dynamic_port_range");
    reveal_strlit("allow_private_addr");
    reveal_strlit("ledger_path");
    reveal_strlit("accounts_path");
    reveal_strlit("account_snapshot_paths");
    reveal_strlit("limit_ledger_size");
    reveal_strlit("rpc_port");
    reveal_strlit("rpc_bind_address");
    reveal_strlit("enable_rpc_transaction_history");
    reveal_strlit("enable_extended_tx_metadata_storage");
    reveal_strlit("rpc_threads");
    reveal_strlit("rpc_blocking_threads");
    reveal_strlit("rpc_max_request_body_size");
    reveal_strlit("rpc_pubsub_max_active_subscriptions");
    reveal_strlit("rpc_pubsub_queue_capacity_items");
    reveal_strlit("rpc_pubsub_queue_capacity_bytes");
    reveal_strlit("accounts_shrink_ratio");
    reveal_strlit("accounts_shrink_optimize_total_space");
    reveal_strlit("banking_trace_dir_byte_limit");
    reveal_strlit("tpu_connection_pool_size");
    reveal_strlit("tpu_max_connections_per_peer");
    reveal_strlit("tpu_max_connections_per_ipaddr_per_minute");
    reveal_strlit("tpu_max_staked_connections");
    reveal_strlit("tpu_max_unstaked_connections");
    reveal_strlit("tpu_max_streams_per_ms");
    reveal_strlit("snapshot_version");
    reveal_strlit("snapshot_archive_format");
    reveal_strlit("full_snapshot_archive_interval_slots");
    reveal_strlit("incremental_snapshot_archive_interval_slots");
    reveal_strlit("maximum_full_snapshot_archives_to_retain");
    reveal_strlit("maximum_incremental_snapshot_archives_to_retain");
    reveal_strlit("min_snapshot_download_speed");
    reveal_strlit("max_snapshot_download_abort");
    reveal_strlit("replay_forks_threads");
    assert("replay_forks_threads"@.len() == 20);
    assert("bind_address"@.len() == 12);
    assert("replay_forks_threads"@ != "bind_address"@);
    assert("replay_forks_threads"@.len() == 20);
    assert("entrypoint"@.len() == 10);
    assert("replay_forks_threads"@ != "entrypoint"@);
    assert("replay_forks_threads"@.len() == 20);
    assert("gossip_port"@.len() == 11);
    assert("replay_forks_threads"@ != "gossip_port"@);
    assert("replay_forks_threads"@.len() == 20);
    assert("gossip_host"@.len() == 11);
    assert("replay_forks_threads"@ != "gossip_host"@);
    assert("replay_forks_threads"@.len() == 20);
    assert("dynamic_port_range"@.len() == 18);
    assert("replay_forks_threads"@ != "dynamic_port_range"@);
    assert("replay_forks_threads"@.len() == 20);
    assert("allow_private_addr"@.len() == 18);
    assert("replay_forks_threads"@ != "allow_private_addr"@);
    assert("replay_forks_threads"@.len() == 20);
    assert("ledger_path"@.len() == 11);
    assert("replay_forks_threads"@ != "ledger_path"@);
    assert("replay_forks_threads"@.len() == 20);
    assert("accounts_path"@.len() == 13);
    assert("replay_forks_threads"@ != "accounts_path"@);
    assert("replay_forks_threads"@.len() == 20);
    assert("account_snapshot_paths"@.len() == 22);
    assert("replay_forks_threads"@ != "account_snapshot_paths"@);
    assert("replay_forks_threads"@.len() == 20);
    assert("limit_ledger_size"@.len() == 17);
    assert("replay_forks_threads"@ != "limit_ledger_size"@);
    assert("replay_forks_threads"@.len() == 20);
    assert("rpc_port"@.len() == 8);
    assert("replay_forks_threads"@ != "rpc_port"@);
    assert("replay_forks_threads"@.len() == 20);
    assert("rpc_bind_address"@.len() == 16);
    assert("replay_forks_threads"@ != "rpc_bind_address"@);
    assert("replay_forks_threads"@.len() == 20);
    assert("enable_rpc_transaction_history"@.len() == 30);
    assert("replay_forks_threads"@ != "enable_rpc_transaction_history"@);
    assert("replay_forks_threads"@.len() == 20);
    assert("enable_extended_tx_metadata_storage"@.len() == 35);
    assert("replay_forks_threads"@ != "enable_extended_tx_metadata_storage"@);
    assert("replay_forks_threads"@.len() == 20);
    assert("rpc_threads"@.len() == 11);
    assert("replay_forks_threads"@ != "rpc_threads"@);
    assert("replay_forks_threads"@[1] == 'e');
    assert("rpc_blocking_threads"@[1] == 'p');
    assert("replay_forks_threads"@ != "rpc_blocking_threads"@);
    assert("replay_forks_threads"@.len() == 20);
    assert("rpc_max_request_body_size"@.len() == 25);
    assert("replay_forks_threads"@ != "rpc_max_request_body_size"@);
    assert("replay_forks_threads"@.len() == 20);
    assert("rpc_pubsub_max_active_subscriptions"@.len() == 35);
    assert("replay_forks_threads"@ != "rpc_pubsub_max_active_subscriptions"@);
    assert("replay_forks_threads"@.len() == 20);
    assert("rpc_pubsub_queue_capacity_items"@.len() == 31);
    assert("replay_forks_threads"@ != "rpc_pubsub_queue_capacity_items"@);
    assert("replay_forks_threads"@.len() == 20);
    assert("rpc_pubsub_queue_capacity_bytes"@.len() == 31);
    assert("replay_forks_threads"@ != "rpc_pubsub_queue_capacity_bytes"@);
    assert("replay_forks_threads"@.len() == 20);
    assert("accounts_shrink_ratio"@.len() == 21);
    assert("replay_forks_threads"@ != "accounts_shrink_ratio"@);
    assert("replay_forks_threads"@.len() == 20);
    assert("accounts_shrink_optimize_total_space"@.len() == 36);
    assert("replay_forks_threads"@ != "accounts_shrink_optimize_total_space"@);
    assert("replay_forks_threads"@.len() == 20);
    assert("banking_trace_dir_byte_limit"@.len() == 28);
    assert("replay_forks_threads"@ != "banking_trace_dir_byte_limit"@);
    assert("replay_forks_threads"@.len() == 20);
    assert("tpu_connection_pool_size"@.len() == 24);
    assert("replay_forks_threads"@ != "tpu_connection_pool_size"@);
    assert("replay_forks_threads"@.len() == 20);
    assert("tpu_max_connections_per_peer"@.len() == 28);
    assert("replay_forks_threads"@ != "tpu_max_connections_per_peer"@);
    assert("replay_forks_threads"@.len() == 20);
    assert("tpu_max_connections_per_ipaddr_per_minute"@.len() == 41);
    assert("replay_forks_threads"@ != "tpu_max_connections_per_ipaddr_per_minute"@);
    assert("replay_forks_threads"@.len() == 20);
    assert("tpu_max_staked_connections"@.len() == 26);
    assert("replay_forks_threads"@ != "tpu_max_staked_connections"@);
    assert("replay_forks_threads"@.len() == 20);
    assert("tpu_max_unstaked_connections"@.len() == 28);
    assert("replay_forks_threads"@ != "tpu_max_unstaked_connections"@);
    assert("replay_forks_threads"@.len() == 20);
    assert("tpu_max_streams_per_ms"@.len() == 22);
    assert("replay_forks_threads"@ != "tpu_max_streams_per_ms"@);
    assert("replay_forks_threads"@.len() == 20);
    assert("snapshot_version"@.len() == 16);
    assert("replay_forks_threads"@ != "snapshot_version"@);
    assert("replay_forks_threads"@.len() == 20);
    assert("snapshot_archive_format"@.len() == 23);
    assert("replay_forks_threads"@ != "snapshot_archive_format"@);
    assert("replay_forks_threads"@.len() == 20);
    assert("full_snapshot_archive_interval_slots"@.len() == 36);
    assert("replay_forks_threads"@ != "full_snapshot_archive_interval_slots"@);
    assert("replay_forks_threads"@.len() == 20);
    assert("incremental_snapshot_archive_interval_slots"@.len() == 43);
    assert("replay_forks_threads"@ != "incremental_snapshot_archive_interval_slots"@);
    assert("replay_forks_threads"@.len() == 20);
    assert("maximum_full_snapshot_archives_to_retain"@.len() == 40);
    assert("replay_forks_threads"@ != "maximum_full_snapshot_archives_to_retain"@);
    assert("replay_forks_threads"@.len() == 20);
    assert("maximum_incremental_snapshot_archives_to_retain"@.len() == 47);
    assert("replay_forks_threads"@ != "maximum_incremental_snapshot_archives_to_retain"@);
    assert("replay_forks_threads"@.len() == 20);
    assert("min_snapshot_download_speed"@.len() == 27);
    assert("replay_forks_threads"@ != "min_snapshot_download_speed"@);
    assert("replay_forks_threads"@.len() == 20);
    assert("max_snapshot_download_abort"@.len() == 27);
    assert("replay_forks_threads"@ != "max_snapshot_download_abort"@);
}

#[verifier::spinoff_prover]
#[verifier::rlimit(100)]
proof fn lemma_apply_replay_transactions_threads(c: ConfigV, v: ValueV)
    ensures
        spec_apply(c, "replay_transactions_threads"@, v) == (match as_usizev(v) {
            Some(n) => Some(ConfigV { replay_transactions_threads: Some(n), ..c }),
            None => None,
        }),
{
    reveal(crate::reader::spec_apply);
    reveal_strlit("bind_address");
    reveal_strlit("entrypoint");
    reveal_strlit("gossip_port");
    reveal_strlit("gossip_host");
    reveal_strlit("dynamic_port_range");
    reveal_strlit("allow_private_addr");
    reveal_strlit("ledger_path");
    reveal_strlit("accounts_path");
    reveal_strlit("account_snapshot_paths");
    reveal_strlit("limit_ledger_size");
    reveal_strlit("rpc_port");
    reveal_strlit("rpc_bind_address");
    reveal_strlit("enable_rpc_transaction_history");
    reveal_strlit("enable_extended_tx_metadata_storage");
    reveal_strlit("rpc_threads");
    reveal_strlit("rpc_blocking_threads");
    reveal_strlit("rpc_max_request_body_size");
    reveal_strlit("rpc_pubsub_max_active_subscriptions");
    reveal_strlit("rpc_pubsub_queue_capacity_items");
    reveal_strlit("rpc_pubsub_queue_capacity_bytes");
    reveal_strlit("accounts_shrink_ratio");
    reveal_strlit("accounts_shrink_optimize_total_space");
    reveal_strlit("banking_trace_dir_byte_limit");
    reveal_strlit("tpu_connection_pool_size");
    reveal_strlit("tpu_max_connections_per_peer");
    reveal_strlit("tpu_max_connections_per_ipaddr_per_minute");
    reveal_strlit("tpu_max_staked_connections");
    reveal_strlit("tpu_max_unstaked_connections");
    reveal_strlit("tpu_max_streams_per_ms");
    reveal_strlit("snapshot_version");
    reveal_strlit("snapshot_archive_format");
    reveal_strlit("full_snapshot_archive_interval_slots");
    reveal_strlit("incremental_snapshot_archive_interval_slots");
    reveal_strlit("maximum_full_snapshot_archives_to_retain");
    reveal_strlit("maximum_incremental_snapshot_archives_to_retain");
    reveal_strlit("min_snapshot_download_speed");
    reveal_strlit("max_snapshot_download_abort");
    reveal_strlit("replay_forks_threads");
    reveal_strlit("replay_transactions_threads");
    assert("replay_transactions_threads"@.len() == 27);
    assert("bind_address"@.len() == 12);
    assert("replay_transactions_threads"@ != "bind_address"@);
    assert("replay_transactions_threads"@.len() == 27);
    assert("entrypoint"@.len() == 10);
    assert("replay_transactions_threads"@ != "entrypoint"@);
    assert("replay_transactions_threads"@.len() == 27);
    assert("gossip_port"@.len() == 11);
    assert("replay_transactions_threads"@ != "gossip_port"@);
    assert("replay_transactions_threads"@.len() == 27);
    assert("gossip_host"@.len() == 11);
    assert("replay_transactions_threads"@ != "gossip_host"@);
    assert("replay_transactions_threads"@.len() == 27);
    assert("dynamic_port_range"@.len() == 18);
    assert("replay_transactions_threads"@ != "dynamic_port_range"@);
    assert("replay_transactions_threads"@.len() == 27);
    assert("allow_private_addr"@.len() == 18);
    assert("replay_transactions_threads"@ != "allow_private_addr"@);
    assert("replay_transactions_threads"@.len() == 27);
    assert("ledger_path"@.len() == 11);
    assert("replay_transactions_threads"@ != "ledger_path"@);
    assert("replay_transactions_threads"@.len() == 27);
    assert("accounts_path"@.len() == 13);
    assert("replay_transactions_threads"@ != "accounts_path"@);
    assert("replay_transactions_threads"@.len() == 27);
    assert("account_snapshot_paths"@.len() == 22);
    assert("replay_transactions_threads"@ != "account_snapshot_paths"@);
    assert("replay_transactions_threads"@.len() == 27);
    assert("limit_ledger_size"@.len() == 17);
    assert("replay_transactions_threads"@ != "limit_ledger_size"@);
    assert("replay_transactions_threads"@.len() == 27);
    assert("rpc_port"@.len() == 8);
    assert("replay_transactions_threads"@ != "rpc_port"@);
    assert("replay_transactions_threads"@.len() == 27);
    assert("rpc_bind_address"@.len() == 16);
    assert("replay_transactions_threads"@ != "rpc_bind_address"@);
    assert("replay_transactions_threads"@.len() == 27);
    assert("enable_rpc_transaction_history"@.len() == 30);
    assert("replay_transactions_threads"@ != "enable_rpc_transaction_history"@);
    assert("replay_transactions_threads"@.len() == 27);
    assert("enable_extended_tx_metadata_storage"@.len() == 35);
    assert("replay_transactions_threads"@ != "enable_extended_tx_metadata_storage"@);
    assert("replay_transactions_threads"@.len() == 27);
    assert("rpc_threads"@.len() == 11);
    assert("replay_transactions_threads"@ != "rpc_threads"@);
    assert("replay_transactions_threads"@.len() == 27);
    assert("rpc_blocking_threads"@.len() == 20);
    assert("replay_transactions_threads"@ != "rpc_blocking_threads"@);
    assert("replay_transactions_threads"@.len() == 27);
    assert("rpc_max_request_body_size"@.len() == 25);
    assert("replay_transactions_threads"@ != "rpc_max_request_body_size"@);
    assert("replay_transactions_threads"@.len() == 27);
    assert("rpc_pubsub_max_active_subscriptions"@.len() == 35);
    assert("replay_transactions_threads"@ != "rpc_pubsub_max_active_subscriptions"@);
    assert("replay_transactions_threads"@.len() == 27);
    assert("rpc_pubsub_queue_capacity_items"@.len() == 31);
    assert("replay_transactions_threads"@ != "rpc_pubsub_queue_capacity_items"@);
    assert("replay_transactions_threads"@.len() == 27);
    assert("rpc_pubsub_queue_capacity_bytes"@.len() == 31);
    assert("replay_transactions_threads"@ != "rpc_pubsub_queue_capacity_bytes"@);
    assert("replay_transactions_threads"@.len() == 27);
    assert("accounts_shrink_ratio"@.len() == 21);
    assert("replay_transactions_threads"@ != "accounts_shrink_ratio"@);
    assert("replay_transactions_threads"@.len() == 27);
    assert("accounts_shrink_optimize_total_space"@.len() == 36);
    assert("replay_transactions_threads"@ != "accounts_shrink_optimize_total_space"@);
    assert("replay_transactions_threads"@.len() == 27);
    assert("banking_trace_dir_byte_limit"@.len() == 28);
    assert("replay_transactions_threads"@ != "banking_trace_dir_byte_limit"@);
    assert("replay_transactions_threads"@.len() == 27);
    assert("tpu_connection_pool_size"@.len() == 24);
    assert("replay_transactions_threads"@ != "tpu_connection_pool_size"@);
    assert("replay_transactions_threads"@.len() == 27);
    assert("tpu_max_connections_per_peer"@.len() == 28);
    assert("replay_transactions_threads"@ != "tpu_max_connections_per_peer"@);
    assert("replay_transactions_threads"@.len() == 27);
    assert("tpu_max_connections_per_ipaddr_per_minute"@.len() == 41);
    assert("replay_transactions_threads"@ != "tpu_max_connections_per_ipaddr_per_minute"@);
    assert("replay_transactions_threads"@.len() == 27);
    assert("tpu_max_staked_connections"@.len() == 26);
    assert("replay_transactions_threads"@ != "tpu_max_staked_connections"@);
    assert("replay_transactions_threads"@.len() == 27);
    assert("tpu_max_unstaked_connections"@.len() == 28);
    assert("replay_transactions_threads"@ != "tpu_max_unstaked_connections"@);
    assert("replay_transactions_threads"@.len() == 27);
    assert("tpu_max_streams_per_ms"@.len() == 22);
    assert("replay_transactions_threads"@ != "tpu_max_streams_per_ms"@);
    assert("replay_transactions_threads"@.len() == 27);
    assert("snapshot_version"@.len() == 16);
    assert("replay_transactions_threads"@ != "snapshot_version"@);
    assert("replay_transactions_threads"@.len() == 27);
    assert("snapshot_archive_format"@.len() == 23);
    assert("replay_transactions_threads"@ != "snapshot_archive_format"@);
    assert("replay_transactions_threads"@.len() == 27);
    assert("full_snapshot_archive_interval_slots"@.len() == 36);
    assert("replay_transactions_threads"@ != "full_snapshot_archive_interval_slots"@);
    assert("replay_transactions_threads"@.len() == 27);
    assert("incremental_snapshot_archive_interval_slots"@.len() == 43);
    assert("replay_transactions_threads"@ != "incremental_snapshot_archive_interval_slots"@);
    assert("replay_transactions_threads"@.len() == 27);
    assert("maximum_full_snapshot_archives_to_retain"@.len() == 40);
    assert("replay_transactions_threads"@ != "maximum_full_snapshot_archives_to_retain"@);
    assert("replay_transactions_threads"@.len() == 27);
    assert("maximum_incremental_snapshot_archives_to_retain"@.len() == 47);
    assert("replay_transactions_threads"@ != "maximum_incremental_snapshot_archives_to_retain"@);
    assert("replay_transactions_threads"@[0] == 'r');
    assert("min_snapshot_download_speed"@[0] == 'm');
    assert("replay_transactions_threads"@ != "min_snapshot_download_speed"@);
    assert("replay_transactions_threads"@[0] == 'r');
    assert("max_snapshot_download_abort"@[0] == 'm');
    assert("replay_transactions_threads"@ != "max_snapshot_download_abort"@);
    assert("replay_transactions_threads"@.len() == 27);
    assert("replay_forks_threads"@.len() == 20);
    assert("replay_transactions_threads"@ != "replay_forks_threads"@);
}

#[verifier::spinoff_prover]
#[verifier::rlimit(100)]
proof fn lemma_apply_tvu_shred_sigverify_threads(c: ConfigV, v: ValueV)
    ensures
        spec_apply(c, "tvu_shred_sigverify_threads"@, v) == (match as_usizev(v) {
            Some(n) => Some(ConfigV { tvu_shred_sigverify_threads: Some(n), ..c }),
            None => None,
        }),
{
    reveal(crate::reader::spec_apply);
    reveal_strlit("bind_address");
    reveal_strlit("entrypoint");
    reveal_strlit("gossip_port");
    reveal_strlit("gossip_host");
    reveal_strlit("dynamic_port_range");
    reveal_strlit("allow_private_addr");
    reveal_strlit("ledger_path");
    reveal_strlit("accounts_path");
    reveal_strlit("account_snapshot_paths");
    reveal_strlit("limit_ledger_size");
    reveal_strlit("rpc_port");
    reveal_strlit("rpc_bind_address");
    reveal_strlit("enable_rpc_transaction_history");
    reveal_strlit("enable_extended_tx_metadata_storage");
    reveal_strlit("rpc_threads");
    reveal_strlit("rpc_blocking_threads");
    reveal_strlit("rpc_max_request_body_size");
    reveal_strlit("rpc_pubsub_max_active_subscriptions");
    reveal_strlit("rpc_pubsub_queue_capacity_items");
    reveal_strlit("rpc_pubsub_queue_capacity_bytes");
    reveal_strlit("accounts_shrink_ratio");
    reveal_strlit("accounts_shrink_optimize_total_space");
    reveal_strlit("banking_trace_dir_byte_limit");
    reveal_strlit("tpu_connection_pool_size");
    reveal_strlit("tpu_max_connections_per_peer");
    reveal_strlit("tpu_max_connections_per_ipaddr_per_minute");
    reveal_strlit("tpu_max_staked_connections");
    reveal_strlit("tpu_max_unstaked_connections");
    reveal_strlit("tpu_max_streams_per_ms");
    reveal_strlit("snapshot_version");
    reveal_strlit("snapshot_archive_format");
    reveal_strlit("full_snapshot_archive_interval_slots");
    reveal_strlit("incremental_snapshot_archive_interval_slots");
    reveal_strlit("maximum_full_snapshot_archives_to_retain");
    reveal_strlit("maximum_incremental_snapshot_archives_to_retain");
    reveal_strlit("min_snapshot_download_speed");
    reveal_strlit("max_snapshot_download_abort");
    reveal_strlit("replay_forks_threads");
    reveal_strlit("replay_transactions_threads");
    reveal_strlit("tvu_shred_sigverify_threads");
    assert("tvu_shred_sigverify_threads"@.len() == 27);
    assert("bind_address"@.len() == 12);
    assert("tvu_shred_sigverify_threads"@ != "bind_address"@);
    assert("tvu_shred_sigverify_threads"@.len() == 27);
    assert("entrypoint"@.len() == 10);
    assert("tvu_shred_sigverify_threads"@ != "entrypoint"@);
    assert("tvu_shred_sigverify_threads"@.len() == 27);
    assert("gossip_port"@.len() == 11);
    assert("tvu_shred_sigverify_threads"@ != "gossip_port"@);
    assert("tvu_shred_sigverify_threads"@.len() == 27);
    assert("gossip_host"@.len() == 11);
    assert("tvu_shred_sigverify_threads"@ != "gossip_host"@);
    assert("tvu_shred_sigverify_threads"@.len() == 27);
    assert("dynamic_port_range"@.len() == 18);
    assert("tvu_shred_sigverify_threads"@ != "dynamic_port_range"@);
    assert("tvu_shred_sigverify_threads"@.len() == 27);
    assert("allow_private_addr"@.len() == 18);
    assert("tvu_shred_sigverify_threads"@ != "allow_private_addr"@);
    assert("tvu_shred_sigverify_threads"@.len() == 27);
    assert("ledger_path"@.len() == 11);
    assert("tvu_shred_sigverify_threads"@ != "ledger_path"@);
    assert("tvu_shred_sigverify_threads"@.len() == 27);
    assert("accounts_path"@.len() == 13);
    assert("tvu_shred_sigverify_threads"@ != "accounts_path"@);
    assert("tvu_shred_sigverify_threads"@.len() == 27);
    assert("account_snapshot_paths"@.len() == 22);
    assert("tvu_shred_sigverify_threads"@ != "account_snapshot_paths"@);
    assert("tvu_shred_sigverify_threads"@.len() == 27);
    assert("limit_ledger_size"@.len() == 17);
    assert("tvu_shred_sigverify_threads"@ != "limit_ledger_size"@);
    assert("tvu_shred_sigverify_threads"@.len() == 27);
    assert("rpc_port"@.len() == 8);
    assert("tvu_shred_sigverify_threads"@ != "rpc_port"@);
    assert("tvu_shred_sigverify_threads"@.len() == 27);
    assert("rpc_bind_address"@.len() == 16);
    assert("tvu_shred_sigverify_threads"@ != "rpc_bind_address"@);
    assert("tvu_shred_sigverify_threads"@.len() == 27);
    assert("enable_rpc_transaction_history"@.len() == 30);
    assert("tvu_shred_sigverify_threads"@ != "enable_rpc_transaction_history"@);
    assert("tvu_shred_sigverify_threads"@.len() == 27);
    assert("enable_extended_tx_metadata_storage"@.len() == 35);
    assert("tvu_shred_sigverify_threads"@ != "enable_extended_tx_metadata_storage"@);
    assert("tvu_shred_sigverify_threads"@.len() == 27);
    assert("rpc_threads"@.len() == 11);
    assert("tvu_shred_sigverify_threads"@ != "rpc_threads"@);
    assert("tvu_shred_sigverify_threads"@.len() == 27);
    assert("rpc_blocking_threads"@.len() == 20);
    assert("tvu_shred_sigverify_threads"@ != "rpc_blocking_threads"@);
    assert("tvu_shred_sigverify_threads"@.len() == 27);
    assert("rpc_max_request_body_size"@.len() == 25);
    assert("tvu_shred_sigverify_threads"@ != "rpc_max_request_body_size"@);
    assert("tvu_shred_sigverify_threads"@.len() == 27);
    assert("rpc_pubsub_max_active_subscriptions"@.len() == 35);
    assert("tvu_shred_sigverify_threads"@ != "rpc_pubsub_max_active_subscriptions"@);
    assert("tvu_shred_sigverify_threads"@.len() == 27);
    assert("rpc_pubsub_queue_capacity_items"@.len() == 31);
    assert("tvu_shred_sigverify_threads"@ != "rpc_pubsub_queue_capacity_items"@);
    assert("tvu_shred_sigverify_threads"@.len() == 27);
    assert("rpc_pubsub_queue_capacity_bytes"@.len() == 31);
    assert("tvu_shred_sigverify_threads"@ != "rpc_pubsub_queue_capacity_bytes"@);
    assert("tvu_shred_sigverify_threads"@.len() == 27);
    assert("accounts_shrink_ratio"@.len() == 21);
    assert("tvu_shred_sigverify_threads"@ != "accounts_shrink_ratio"@);
    assert("tvu_shred_sigverify_threads"@.len() == 27);
    assert("accounts_shrink_optimize_total_space"@.len() == 36);
    assert("tvu_shred_sigverify_threads"@ != "accounts_shrink_optimize_total_space"@);
    assert("tvu_shred_sigverify_threads"@.len() == 27);
    assert("banking_trace_dir_byte_limit"@.len() == 28);
    assert("tvu_shred_sigverify_threads"@ != "banking_trace_dir_byte_limit"@);
    assert("tvu_shred_sigverify_threads"@.len() == 27);
    assert("tpu_connection_pool_size"@.len() == 24);
    assert("tvu_shred_sigverify_threads"@ != "tpu_connection_pool_size"@);
    assert("tvu_shred_sigverify_threads"@.len() == 27);
    assert("tpu_max_connections_per_peer"@.len() == 28);
    assert("tvu_shred_sigverify_threads"@ != "tpu_max_connections_per_peer"@);
    assert("tvu_shred_sigverify_threads"@.len() == 27);
    assert("tpu_max_connections_per_ipaddr_per_minute"@.len() == 41);
    assert("tvu_shred_sigverify_threads"@ != "tpu_max_connections_per_ipaddr_per_minute"@);
    assert("tvu_shred_sigverify_threads"@.len() == 27);
    assert("tpu_max_staked_connections"@.len() == 26);
    assert("tvu_shred_sigverify_threads"@ != "tpu_max_staked_connections"@);
    assert("tvu_shred_sigverify_threads"@.len() == 27);
    assert("tpu_max_unstaked_connections"@.len() == 28);
    assert("tvu_shred_sigverify_threads"@ != "tpu_max_unstaked_connections"@);
    assert("tvu_shred_sigverify_threads"@.len() == 27);
    assert("tpu_max_streams_per_ms"@.len() == 22);
    assert("tvu_shred_sigverify_threads"@ != "tpu_max_streams_per_ms"@);
    assert("tvu_shred_sigverify_threads"@.len() == 27);
    assert("snapshot_version"@.len() == 16);
    assert("tvu_shred_sigverify_threads"@ != "snapshot_version"@);
    assert("tvu_shred_sigverify_threads"@.len() == 27);
    assert("snapshot_archive_format"@.len() == 23);
    assert("tvu_shred_sigverify_threads"@ != "snapshot_archive_format"@);
    assert("tvu_shred_sigverify_threads"@.len() == 27);
    assert("full_snapshot_archive_interval_slots"@.len() == 36);
    assert("tvu_shred_sigverify_threads"@ != "full_snapshot_archive_interval_slots"@);
    assert("tvu_shred_sigverify_threads"@.len() == 27);
    assert("incremental_snapshot_archive_interval_slots"@.len() == 43);
    assert("tvu_shred_sigverify_threads"@ != "incremental_snapshot_archive_interval_slots"@);
    assert("tvu_shred_sigverify_threads"@.len() == 27);
    assert("maximum_full_snapshot_archives_to_retain"@.len() == 40);
    assert("tvu_shred_sigverify_threads"@ != "maximum_full_snapshot_archives_to_retain"@);
    assert("tvu_shred_sigverify_threads"@.len() == 27);
    assert("maximum_incremental_snapshot_archives_to_retain"@.len() == 47);
    assert("tvu_shred_sigverify_threads"@ != "maximum_incremental_snapshot_archives_to_retain"@);
    assert("tvu_shred_sigverify_threads"@[0] == 't');
    assert("min_snapshot_download_speed"@[0] == 'm');
    assert("tvu_shred_sigverify_threads"@ != "min_snapshot_download_speed"@);
    assert("tvu_shred_sigverify_threads"@[0] == 't');
    assert("max_snapshot_download_abort"@[0] == 'm');
    assert("tvu_shred_sigverify_threads"@ != "max_snapshot_download_abort"@);
    assert("tvu_shred_sigverify_threads"@.len() == 27);
    assert("replay_forks_threads"@.len() == 20);
    assert("tvu_shred_sigverify_threads"@ != "replay_forks_threads"@);
    assert("tvu_shred_sigverify_threads"@[0] == 't');
    assert("replay_transactions_threads"@[0] == 'r');
    assert("tvu_shred_sigverify_threads"@ != "replay_transactions_threads"@);
}

#[verifier::spinoff_prover]
#[verifier::rlimit(100)]
proof fn lemma_apply_voting_disabled(c: ConfigV, v: ValueV)
    ensures
        spec_apply(c, "voting_disabled"@, v) == (match as_bool(v) {
            Some(b) => Some(ConfigV { voting_disabled: Some(b), ..c }),
            None => None,
        }),
{
    reveal(crate::reader::spec_apply);
    reveal_strlit("bind_address");
    reveal_strlit("entrypoint");
    reveal_strlit("gossip_port");
    reveal_strlit("gossip_host");
    reveal_strlit("dynamic_port_range");
    reveal_strlit("allow_private_addr");
    reveal_strlit("ledger_path");
    reveal_strlit("accounts_path");
    reveal_strlit("account_snapshot_paths");
    reveal_strlit("limit_ledger_size");
    reveal_strlit("rpc_port");
    reveal_strlit("rpc_bind_address");
    reveal_strlit("enable_rpc_transaction_history");
    reveal_strlit("enable_extended_tx_metadata_storage");
    reveal_strlit("rpc_threads");
    reveal_strlit("rpc_blocking_threads");
    reveal_strlit("rpc_max_request_body_size");
    reveal_strlit("rpc_pubsub_max_active_subscriptions");
    reveal_strlit("rpc_pubsub_queue_capacity_items");
    reveal_strlit("rpc_pubsub_queue_capacity_bytes");
    reveal_strlit("accounts_shrink_ratio");
    reveal_strlit("accounts_shrink_optimize_total_space");
    reveal_strlit("banking_trace_dir_byte_limit");
    reveal_strlit("tpu_connection_pool_size");
    reveal_strlit("tpu_max_connections_per_peer");
    reveal_strlit("tpu_max_connections_per_ipaddr_per_minute");
    reveal_strlit("tpu_max_staked_connections");
    reveal_strlit("tpu_max_unstaked_connections");
    reveal_strlit("tpu_max_streams_per_ms");
    reveal_strlit("snapshot_version");
    reveal_strlit("snapshot_archive_format");
    reveal_strlit("full_snapshot_archive_interval_slots");
    reveal_strlit("incremental_snapshot_archive_interval_slots");
    reveal_strlit("maximum_full_snapshot_archives_to_retain");
    reveal_strlit("maximum_incremental_snapshot_archives_to_retain");
    reveal_strlit("min_snapshot_download_speed");
    reveal_strlit("max_snapshot_download_abort");
    reveal_strlit("replay_forks_threads");
    reveal_strlit("replay_transactions_threads");
    reveal_strlit("tvu_shred_sigverify_threads");
    reveal_strlit("voting_disabled");
    assert("voting_disabled"@.len() == 15);
    assert("bind_address"@.len() == 12);
    assert("voting_disabled"@ != "bind_address"@);
    assert("voting_disabled"@.len() == 15);
    assert("entrypoint"@.len() == 10);
    assert("voting_disabled"@ != "entrypoint"@);
    assert("voting_disabled"@.len() == 15);
    assert("gossip_port"@.len() == 11);
    assert("voting_disabled"@ != "gossip_port"@);
    assert("voting_disabled"@.len() == 15);
    assert("gossip_host"@.len() == 11);
    assert("voting_disabled"@ != "gossip_host"@);
    assert("voting_disabled"@.len() == 15);
    assert("dynamic_port_range"@.len() == 18);
    assert("voting_disabled"@ != "dynamic_port_range"@);
    assert("voting_disabled"@.len() == 15);
    assert("allow_private_addr"@.len() == 18);
    assert("voting_disabled"@ != "allow_private_addr"@);
    assert("voting_disabled"@.len() == 15);
    assert("ledger_path"@.len() == 11);
    assert("voting_disabled"@ != "ledger_path"@);
    assert("voting_disabled"@.len() == 15);
    assert("accounts_path"@.len() == 13);
    assert("voting_disabled"@ != "accounts_path"@);
    assert("voting_disabled"@.len() == 15);
    assert("account_snapshot_paths"@.len() == 22);
    assert("voting_disabled"@ != "account_snapshot_paths"@);
    assert("voting_disabled"@.len() == 15);
    assert("limit_ledger_size"@.len() == 17);
    assert("voting_disabled"@ != "limit_ledger_size"@);
    assert("voting_disabled"@.len() == 15);
    assert("rpc_port"@.len() == 8);
    assert("voting_disabled"@ != "rpc_port"@);
    assert("voting_disabled"@.len() == 15);
    assert("rpc_bind_address"@.len() == 16);
    assert("voting_disabled"@ != "rpc_bind_address"@);
    assert("voting_disabled"@.len() == 15);
    assert("enable_rpc_transaction_history"@.len() == 30);
    assert("voting_disabled"@ != "enable_rpc_transaction_history"@);
    assert("voting_disabled"@.len() == 15);
    assert("enable_extended_tx_metadata_storage"@.len() == 35);
    assert("voting_disabled"@ != "enable_extended_tx_metadata_storage"@);
    assert("voting_disabled"@.len() == 15);
    assert("rpc_threads"@.len() == 11);
    assert("voting_disabled"@ != "rpc_threads"@);
    assert("voting_disabled"@.len() == 15);
    assert("rpc_blocking_threads"@.len() == 20);
    assert("voting_disabled"@ != "rpc_blocking_threads"@);
    assert("voting_disabled"@.len() == 15);
    assert("rpc_max_request_body_size"@.len() == 25);
    assert("voting_disabled"@ != "rpc_max_request_body_size"@);
    assert("voting_disabled"@.len() == 15);
    assert("rpc_pubsub_max_active_subscriptions"@.len() == 35);
    assert("voting_disabled"@ != "rpc_pubsub_max_active_subscriptions"@);
    assert("voting_disabled"@.len() == 15);
    assert("rpc_pubsub_queue_capacity_items"@.len() == 31);
    assert("voting_disabled"@ != "rpc_pubsub_queue_capacity_items"@);
    assert("voting_disabled"@.len() == 15);
    assert("rpc_pubsub_queue_capacity_bytes"@.len() == 31);
    assert("voting_disabled"@ != "rpc_pubsub_queue_capacity_bytes"@);
    assert("voting_disabled"@.len() == 15);
    assert("accounts_shrink_ratio"@.len() == 21);
    assert("voting_disabled"@ != "accounts_shrink_ratio"@);
    assert("voting_disabled"@.len() == 15);
    assert("accounts_shrink_optimize_total_space"@.len() == 36);
    assert("voting_disabled"@ != "accounts_shrink_optimize_total_space"@);
    assert("voting_disabled"@.len() == 15);
    assert("banking_trace_dir_byte_limit"@.len() == 28);
    assert("voting_disabled"@ != "banking_trace_dir_byte_limit"@);
    assert("voting_disabled"@.len() == 15);
    assert("tpu_connection_pool_size"@.len() == 24);
    assert("voting_disabled"@ != "tpu_connection_pool_size"@);
    assert("voting_disabled"@.len() == 15);
    assert("tpu_max_connections_per_peer"@.len() == 28);
    assert("voting_disabled"@ != "tpu_max_connections_per_peer"@);
    assert("voting_disabled"@.len() == 15);
    assert("tpu_max_connections_per_ipaddr_per_minute"@.len() == 41);
    assert("voting_disabled"@ != "tpu_max_connections_per_ipaddr_per_minute"@);
    assert("voting_disabled"@.len() == 15);
    assert("tpu_max_staked_connections"@.len() == 26);
    assert("voting_disabled"@ != "tpu_max_staked_connections"@);
    assert("voting_disabled"@.len() == 15);
    assert("tpu_max_unstaked_connections"@.len() == 28);
    assert("voting_disabled"@ != "tpu_max_unstaked_connections"@);
    assert("voting_disabled"@.len() == 15);
    assert("tpu_max_streams_per_ms"@.len() == 22);
    assert("voting_disabled"@ != "tpu_max_streams_per_ms"@);
    assert("voting_disabled"@.len() == 15);
    assert("snapshot_version"@.len() == 16);
    assert("voting_disabled"@ != "snapshot_version"@);
    assert("voting_disabled"@.len() == 15);
    assert("snapshot_archive_format"@.len() == 23);
    assert("voting_disabled"@ != "snapshot_archive_format"@);
    assert("voting_disabled"@.len() == 15);
    assert("full_snapshot_archive_interval_slots"@.len() == 36);
    assert("voting_disabled"@ != "full_snapshot_archive_interval_slots"@);
    assert("voting_disabled"@.len() == 15);
    assert("incremental_snapshot_archive_interval_slots"@.len() == 43);
    assert("voting_disabled"@ != "incremental_snapshot_archive_interval_slots"@);
    assert("voting_disabled"@.len() == 15);
    assert("maximum_full_snapshot_archives_to_retain"@.len() == 40);
    assert("voting_disabled"@ != "maximum_full_snapshot_archives_to_retain"@);
    assert("voting_disabled"@.len() == 15);
    assert("maximum_incremental_snapshot_archives_to_retain"@.len() == 47);
    assert("voting_disabled"@ != "maximum_incremental_snapshot_archives_to_retain"@);
    assert("voting_disabled"@.len() == 15);
    assert("min_snapshot_download_speed"@.len() == 27);
    assert("voting_disabled"@ != "min_snapshot_download_speed"@);
    assert("voting_disabled"@.len() == 15);
    assert("max_snapshot_download_abort"@.len() == 27);
    assert("voting_disabled"@ != "max_snapshot_download_abort"@);
    assert("voting_disabled"@.len() == 15);
    assert("replay_forks_threads"@.len() == 20);
    assert("voting_disabled"@ != "replay_forks_threads"@);
    assert("voting_disabled"@.len() == 15);
    assert("replay_transactions_threads"@.len() == 27);
    assert("voting_disabled"@ != "replay_transactions_threads"@);
    assert("voting_disabled"@.len() == 15);
    assert("tvu_shred_sigverify_threads"@.len() == 27);
    assert("voting_disabled"@ != "tvu_shred_sigverify_threads"@);
}

#[verifier::spinoff_prover]
#[verifier::rlimit(100)]
proof fn lemma_apply_dev_halt_at_slot(c: ConfigV, v: ValueV)
    ensures
        spec_apply(c, "dev_halt_at_slot"@, v) == (match as_u64v(v) {
            Some(n) => Some(ConfigV { dev_halt_at_slot: Some(n), ..c }),
            None => None,
        }),
{
    reveal(crate::reader::spec_apply);
    reveal_strlit("bind_address");
    reveal_strlit("entrypoint");
    reveal_strlit("gossip_port");
    reveal_strlit("gossip_host");
    reveal_strlit("dynamic_port_range");
    reveal_strlit("allow_private_addr");
    reveal_strlit("ledger_path");
    reveal_strlit("accounts_path");
    reveal_strlit("account_snapshot_paths");
    reveal_strlit("limit_ledger_size");
    reveal_strlit("rpc_port");
    reveal_strlit("rpc_bind_address");
    reveal_strlit("enable_rpc_transaction_history");
    reveal_strlit("enable_extended_tx_metadata_storage");
    reveal_strlit("rpc_threads");
    reveal_strlit("rpc_blocking_threads");
    reveal_strlit("rpc_max_request_body_size");
    reveal_strlit("rpc_pubsub_max_active_subscriptions");
    reveal_strlit("rpc_pubsub_queue_capacity_items");
    reveal_strlit("rpc_pubsub_queue_capacity_bytes");
    reveal_strlit("accounts_shrink_ratio");
    reveal_strlit("accounts_shrink_optimize_total_space");
    reveal_strlit("banking_trace_dir_byte_limit");
    reveal_strlit("tpu_connection_pool_size");
    reveal_strlit("tpu_max_connections_per_peer");
    reveal_strlit("tpu_max_connections_per_ipaddr_per_minute");
    reveal_strlit("tpu_max_staked_connections");
    reveal_strlit("tpu_max_unstaked_connections");
    reveal_strlit("tpu_max_streams_per_ms");
    reveal_strlit("snapshot_version");
    reveal_strlit("snapshot_archive_format");
    reveal_strlit("full_snapshot_archive_interval_slots");
    reveal_strlit("incremental_snapshot_archive_interval_slots");
    reveal_strlit("maximum_full_snapshot_archives_to_retain");
    reveal_strlit("maximum_incremental_snapshot_archives_to_retain");
    reveal_strlit("min_snapshot_download_speed");
    reveal_strlit("max_snapshot_download_abort");
    reveal_strlit("replay_forks_threads");
    reveal_strlit("replay_transactions_threads");
    reveal_strlit("tvu_shred_sigverify_threads");
    reveal_strlit("voting_disabled");
    reveal_strlit("dev_halt_at_slot");
    assert("dev_halt_at_slot"@.len() == 16);
    assert("bind_address"@.len() == 12);
    assert("dev_halt_at_slot"@ != "bind_address"@);
    assert("dev_halt_at_slot"@.len() == 16);
    assert("entrypoint"@.len() == 10);
    assert("dev_halt_at_slot"@ != "entrypoint"@);
    assert("dev_halt_at_slot"@.len() == 16);
    assert("gossip_port"@.len() == 11);
    assert("dev_halt_at_slot"@ != "gossip_port"@);
    assert("dev_halt_at_slot"@.len() == 16);
    assert("gossip_host"@.len() == 11);
    assert("dev_halt_at_slot"@ != "gossip_host"@);
    assert("dev_halt_at_slot"@.len() == 16);
    assert("dynamic_port_range"@.len() == 18);
    assert("dev_halt_at_slot"@ != "dynamic_port_range"@);
    assert("dev_halt_at_slot"@.len() == 16);
    assert("allow_private_addr"@.len() == 18);
    assert("dev_halt_at_slot"@ != "allow_private_addr"@);
    assert("dev_halt_at_slot"@.len() == 16);
    assert("ledger_path"@.len() == 11);
    assert("dev_halt_at_slot"@ != "ledger_path"@);
    assert("dev_halt_at_slot"@.len() == 16);
    assert("accounts_path"@.len() == 13);
    assert("dev_halt_at_slot"@ != "accounts_path"@);
    assert("dev_halt_at_slot"@.len() == 16);
    assert("account_snapshot_paths"@.len() == 22);
    assert("dev_halt_at_slot"@ != "account_snapshot_paths"@);
    assert("dev_halt_at_slot"@.len() == 16);
    assert("limit_ledger_size"@.len() == 17);
    assert("dev_halt_at_slot"@ != "limit_ledger_size"@);
    assert("dev_halt_at_slot"@.len() == 16);
    assert("rpc_port"@.len() == 8);
    assert("dev_halt_at_slot"@ != "rpc_port"@);
    assert("dev_halt_at_slot"@[0] == 'd');
    assert("rpc_bind_address"@[0] == 'r');
    assert("dev_halt_at_slot"@ != "rpc_bind_address"@);
    assert("dev_halt_at_slot"@.len() == 16);
    assert("enable_rpc_transaction_history"@.len() == 30);
    assert("dev_halt_at_slot"@ != "enable_rpc_transaction_history"@);
    assert("dev_halt_at_slot"@.len() == 16);
    assert("enable_extended_tx_metadata_storage"@.len() == 35);
    assert("dev_halt_at_slot"@ != "enable_extended_tx_metadata_storage"@);
    assert("dev_halt_at_slot"@.len() == 16);
    assert("rpc_threads"@.len() == 11);
    assert("dev_halt_at_slot"@ != "rpc_threads"@);
    assert("dev_halt_at_slot"@.len() == 16);
    assert("rpc_blocking_threads"@.len() == 20);
    assert("dev_halt_at_slot"@ != "rpc_blocking_threads"@);
    assert("dev_halt_at_slot"@.len() == 16);
    assert("rpc_max_request_body_size"@.len() == 25);
    assert("dev_halt_at_slot"@ != "rpc_max_request_body_size"@);
    assert("dev_halt_at_slot"@.len() == 16);
    assert("rpc_pubsub_max_active_subscriptions"@.len() == 35);
    assert("dev_halt_at_slot"@ != "rpc_pubsub_max_active_subscriptions"@);
    assert("dev_halt_at_slot"@.len() == 16);
    assert("rpc_pubsub_queue_capacity_items"@.len() == 31);
    assert("dev_halt_at_slot"@ != "rpc_pubsub_queue_capacity_items"@);
    assert("dev_halt_at_slot"@.len() == 16);
    assert("rpc_pubsub_queue_capacity_bytes"@.len() == 31);
    assert("dev_halt_at_slot"@ != "rpc_pubsub_queue_capacity_bytes"@);
    assert("dev_halt_at_slot"@.len() == 16);
    assert("accounts_shrink_ratio"@.len() == 21);
    assert("dev_halt_at_slot"@ != "accounts_shrink_ratio"@);
    assert("dev_halt_at_slot"@.len() == 16);
    assert("accounts_shrink_optimize_total_space"@.len() == 36);
    assert("dev_halt_at_slot"@ != "accounts_shrink_optimize_total_space"@);
    assert("dev_halt_at_slot"@.len() == 16);
    assert("banking_trace_dir_byte_limit"@.len() == 28);
    assert("dev_halt_at_slot"@ != "banking_trace_dir_byte_limit"@);
    assert("dev_halt_at_slot"@.len() == 16);
    assert("tpu_connection_pool_size"@.len() == 24);
    assert("dev_halt_at_slot"@ != "tpu_connection_pool_size"@);
    assert("dev_halt_at_slot"@.len() == 16);
    assert("tpu_max_connections_per_peer"@.len() == 28);
    assert("dev_halt_at_slot"@ != "tpu_max_connections_per_peer"@);
    assert("dev_halt_at_slot"@.len() == 16);
    assert("tpu_max_connections_per_ipaddr_per_minute"@.len() == 41);
    assert("dev_halt_at_slot"@ != "tpu_max_connections_per_ipaddr_per_minute"@);
    assert("dev_halt_at_slot"@.len() == 16);
    assert("tpu_max_staked_connections"@.len() == 26);
    assert("dev_halt_at_slot"@ != "tpu_max_staked_connections"@);
    assert("dev_halt_at_slot"@.len() == 16);
    assert("tpu_max_unstaked_connections"@.len() == 28);
    assert("dev_halt_at_slot"@ != "tpu_max_unstaked_connections"@);
    assert("dev_halt_at_slot"@.len() == 16);
    assert("tpu_max_streams_per_ms"@.len() == 22);
    assert("dev_halt_at_slot"@ != "tpu_max_streams_per_ms"@);
    assert("dev_halt_at_slot"@[0] == 'd');
    assert("snapshot_version"@[0] == 's');
    assert("dev_halt_at_slot"@ != "snapshot_version"@);
    assert("dev_halt_at_slot"@.len() == 16);
    assert("snapshot_archive_format"@.len() == 23);
    assert("dev_halt_at_slot"@ != "snapshot_archive_format"@);
    assert("dev_halt_at_slot"@.len() == 16);
    assert("full_snapshot_archive_interval_slots"@.len() == 36);
    assert("dev_halt_at_slot"@ != "full_snapshot_archive_interval_slots"@);
    assert("dev_halt_at_slot"@.len() == 16);
    assert("incremental_snapshot_archive_interval_slots"@.len() == 43);
    assert("dev_halt_at_slot"@ != "incremental_snapshot_archive_interval_slots"@);
    assert("dev_halt_at_slot"@.len() == 16);
    assert("maximum_full_snapshot_archives_to_retain"@.len() == 40);
    assert("dev_halt_at_slot"@ != "maximum_full_snapshot_archives_to_retain"@);
    assert("dev_halt_at_slot"@.len() == 16);
    assert("maximum_incremental_snapshot_archives_to_retain"@.len() == 47);
    assert("dev_halt_at_slot"@ != "maximum_incremental_snapshot_archives_to_retain"@);
    assert("dev_halt_at_slot"@.len() == 16);
    assert("min_snapshot_download_speed"@.len() == 27);
    assert("dev_halt_at_slot"@ != "min_snapshot_download_speed"@);
    assert("dev_halt_at_slot"@.len() == 16);
    assert("max_snapshot_download_abort"@.len() == 27);
    assert("dev_halt_at_slot"@ != "max_snapshot_download_abort"@);
    assert("dev_halt_at_slot"@.len() == 16);
    assert("replay_forks_threads"@.len() == 20);
    assert("dev_halt_at_slot"@ != "replay_forks_threads"@);
    assert("dev_halt_at_slot"@.len() == 16);
    assert("replay_transactions_threads"@.len() == 27);
    assert("dev_halt_at_slot"@ != "replay_transactions_threads"@);
    assert("dev_halt_at_slot"@.len() == 16);
    assert("tvu_shred_sigverify_threads"@.len() == 27);
    assert("dev_halt_at_slot"@ != "tvu_shred_sigverify_threads"@);
    assert("dev_halt_at_slot"@.len() == 16);
    assert("voting_disabled"@.len() == 15);
    assert("dev_halt_at_slot"@ != "voting_disabled"@);
}

#[verifier::spinoff_prover]
#[verifier::rlimit(100)]
proof fn lemma_apply_wait_for_supermajority(c: ConfigV, v: ValueV)
    ensures
        spec_apply(c, "wait_for_supermajority"@, v) == (match as_u64v(v) {
            Some(n) => Some(ConfigV { wait_for_supermajority: Some(n), ..c }),
            None => None,
        }),
{
    reveal(crate::reader::spec_apply);
    reveal_strlit("bind_address");
    reveal_strlit("entrypoint");
    reveal_strlit("gossip_port");
    reveal_strlit("gossip_host");
    reveal_strlit("dynamic_port_range");
    reveal_strlit("allow_private_addr");
    reveal_strlit("ledger_path");
    reveal_strlit("accounts_path");
    reveal_strlit("account_snapshot_paths");
    reveal_strlit("limit_ledger_size");
    reveal_strlit("rpc_port");
    reveal_strlit("rpc_bind_address");
    reveal_strlit("enable_rpc_transaction_history");
    reveal_strlit("enable_extended_tx_metadata_storage");
    reveal_strlit("rpc_threads");
    reveal_strlit("rpc_blocking_threads");
    reveal_strlit("rpc_max_request_body_size");
    reveal_strlit("rpc_pubsub_max_active_subscriptions");
    reveal_strlit("rpc_pubsub_queue_capacity_items");
    reveal_strlit("rpc_pubsub_queue_capacity_bytes");
    reveal_strlit("accounts_shrink_ratio");
    reveal_strlit("accounts_shrink_optimize_total_space");
    reveal_strlit("banking_trace_dir_byte_limit");
    reveal_strlit("tpu_connection_pool_size");
    reveal_strlit("tpu_max_connections_per_peer");
    reveal_strlit("tpu_max_connections_per_ipaddr_per_minute");
    reveal_strlit("tpu_max_staked_connections");
    reveal_strlit("tpu_max_unstaked_connections");
    reveal_strlit("tpu_max_streams_per_ms");
    reveal_strlit("snapshot_version");
    reveal_strlit("snapshot_archive_format");
    reveal_strlit("full_snapshot_archive_interval_slots");
    reveal_strlit("incremental_snapshot_archive_interval_slots");
    reveal_strlit("maximum_full_snapshot_archives_to_retain");
    reveal_strlit("maximum_incremental_snapshot_archives_to_retain");
    reveal_strlit("min_snapshot_download_speed");
    reveal_strlit("max_snapshot_download_abort");
    reveal_strlit("replay_forks_threads");
    reveal_strlit("replay_transactions_threads");
    reveal_strlit("tvu_shred_sigverify_threads");
    reveal_strlit("voting_disabled");
    reveal_strlit("dev_halt_at_slot");
    reveal_strlit("wait_for_supermajority");
    assert("wait_for_supermajority"@.len() == 22);
    assert("bind_address"@.len() == 12);
    assert("wait_for_supermajority"@ != "bind_address"@);
    assert("wait_for_supermajority"@.len() == 22);
    assert("entrypoint"@.len() == 10);
    assert("wait_for_supermajority"@ != "entrypoint"@);
    assert("wait_for_supermajority"@.len() == 22);
    assert("gossip_port"@.len() == 11);
    assert("wait_for_supermajority"@ != "gossip_port"@);
    assert("wait_for_supermajority"@.len() == 22);
    assert("gossip_host"@.len() == 11);
    assert("wait_for_supermajority"@ != "gossip_host"@);
    assert("wait_for_supermajority"@.len() == 22);
    assert("dynamic_port_range"@.len() == 18);
    assert("wait_for_supermajority"@ != "dynamic_port_range"@);
    assert("wait_for_supermajority"@.len() == 22);
    assert("allow_private_addr"@.len() == 18);
    assert("wait_for_supermajority"@ != "allow_private_addr"@);
    assert("wait_for_supermajority"@.len() == 22);
    assert("ledger_path"@.len() == 11);
    assert("wait_for_supermajority"@ != "ledger_path"@);
    assert("wait_for_supermajority"@.len() == 22);
    assert("accounts_path"@.len() == 13);
    assert("wait_for_supermajority"@ != "accounts_path"@);
    assert("wait_for_supermajority"@[0] == 'w');
    assert("account_snapshot_paths"@[0] == 'a');
    assert("wait_for_supermajority"@ != "account_snapshot_paths"@);
    assert("wait_for_supermajority"@.len() == 22);
    assert("limit_ledger_size"@.len() == 17);
    assert("wait_for_supermajority"@ != "limit_ledger_size"@);
    assert("wait_for_supermajority"@.len() == 22);
    assert("rpc_port"@.len() == 8);
    assert("wait_for_supermajority"@ != "rpc_port"@);
    assert("wait_for_supermajority"@.len() == 22);
    assert("rpc_bind_address"@.len() == 16);
    assert("wait_for_supermajority"@ != "rpc_bind_address"@);
    assert("wait_for_supermajority"@.len() == 22);
    assert("enable_rpc_transaction_history"@.len() == 30);
    assert("wait_for_supermajority"@ != "enable_rpc_transaction_history"@);
    assert("wait_for_supermajority"@.len() == 22);
    assert("enable_extended_tx_metadata_storage"@.len() == 35);
    assert("wait_for_supermajority"@ != "enable_extended_tx_metadata_storage"@);
    assert("wait_for_supermajority"@.len() == 22);
    assert("rpc_threads"@.len() == 11);
    assert("wait_for_supermajority"@ != "rpc_threads"@);
    assert("wait_for_supermajority"@.len() == 22);
    assert("rpc_blocking_threads"@.len() == 20);
    assert("wait_for_supermajority"@ != "rpc_blocking_threads"@);
    assert("wait_for_supermajority"@.len() == 22);
    assert("rpc_max_request_body_size"@.len() == 25);
    assert("wait_for_supermajority"@ != "rpc_max_request_body_size"@);
    assert("wait_for_supermajority"@.len() == 22);
    assert("rpc_pubsub_max_active_subscriptions"@.len() == 35);
    assert("wait_for_supermajority"@ != "rpc_pubsub_max_active_subscriptions"@);
    assert("wait_for_supermajority"@.len() == 22);
    assert("rpc_pubsub_queue_capacity_items"@.len() == 31);
    assert("wait_for_supermajority"@ != "rpc_pubsub_queue_capacity_items"@);
    assert("wait_for_supermajority"@.len() == 22);
    assert("rpc_pubsub_queue_capacity_bytes"@.len() == 31);
    assert("wait_for_supermajority"@ != "rpc_pubsub_queue_capacity_bytes"@);
    assert("wait_for_supermajority"@.len() == 22);
    assert("accounts_shrink_ratio"@.len() == 21);
    assert("wait_for_supermajority"@ != "accounts_shrink_ratio"@);
    assert("wait_for_supermajority"@.len() == 22);
    assert("accounts_shrink_optimize_total_space"@.len() == 36);
    assert("wait_for_supermajority"@ != "accounts_shrink_optimize_total_space"@);
    assert("wait_for_supermajority"@.len() == 22);
    assert("banking_trace_dir_byte_limit"@.len() == 28);
    assert("wait_for_supermajority"@ != "banking_trace_dir_byte_limit"@);
    assert("wait_for_supermajority"@.len() == 22);
    assert("tpu_connection_pool_size"@.len() == 24);
    assert("wait_for_supermajority"@ != "tpu_connection_pool_size"@);
    assert("wait_for_supermajority"@.len() == 22);
    assert("tpu_max_connections_per_peer"@.len() == 28);
    assert("wait_for_supermajority"@ != "tpu_max_connections_per_peer"@);
    assert("wait_for_supermajority"@.len() == 22);
    assert("tpu_max_connections_per_ipaddr_per_minute"@.len() == 41);
    assert("wait_for_supermajority"@ != "tpu_max_connections_per_ipaddr_per_minute"@);
    assert("wait_for_supermajority"@.len() == 22);
    assert("tpu_max_staked_connections"@.len() == 26);
    assert("wait_for_supermajority"@ != "tpu_max_staked_connections"@);
    assert("wait_for_supermajority"@.len() == 22);
    assert("tpu_max_unstaked_connections"@.len() == 28);
    assert("wait_for_supermajority"@ != "tpu_max_unstaked_connections"@);
    assert("wait_for_supermajority"@[0] == 'w');
    assert("tpu_max_streams_per_ms"@[0] == 't');
    assert("wait_for_supermajority"@ != "tpu_max_streams_per_ms"@);
    assert("wait_for_supermajority"@.len() == 22);
    assert("snapshot_version"@.len() == 16);
    assert("wait_for_supermajority"@ != "snapshot_version"@);
    assert("wait_for_supermajority"@.len() == 22);
    assert("snapshot_archive_format"@.len() == 23);
    assert("wait_for_supermajority"@ != "snapshot_archive_format"@);
    assert("wait_for_supermajority"@.len() == 22);
    assert("full_snapshot_archive_interval_slots"@.len() == 36);
    assert("wait_for_supermajority"@ != "full_snapshot_archive_interval_slots"@);
    assert("wait_for_supermajority"@.len() == 22);
    assert("incremental_snapshot_archive_interval_slots"@.len() == 43);
    assert("wait_for_supermajority"@ != "incremental_snapshot_archive_interval_slots"@);
    assert("wait_for_supermajority"@.len() == 22);
    assert("maximum_full_snapshot_archives_to_retain"@.len() == 40);
    assert("wait_for_supermajority"@ != "maximum_full_snapshot_archives_to_retain"@);
    assert("wait_for_supermajority"@.len() == 22);
    assert("maximum_incremental_snapshot_archives_to_retain"@.len() == 47);
    assert("wait_for_supermajority"@ != "maximum_incremental_snapshot_archives_to_retain"@);
    assert("wait_for_supermajority"@.len() == 22);
    assert("min_snapshot_download_speed"@.len() == 27);
    assert("wait_for_supermajority"@ != "min_snapshot_download_speed"@);
    assert("wait_for_supermajority"@.len() == 22);
    assert("max_snapshot_download_abort"@.len() == 27);
    assert("wait_for_supermajority"@ != "max_snapshot_download_abort"@);
    assert("wait_for_supermajority"@.len() == 22);
    assert("replay_forks_threads"@.len() == 20);
    assert("wait_for_supermajority"@ != "replay_forks_threads"@);
    assert("wait_for_supermajority"@.len() == 22);
    assert("replay_transactions_threads"@.len() == 27);
    assert("wait_for_supermajority"@ != "replay_transactions_threads"@);
    assert("wait_for_supermajority"@.len() == 22);
    assert("tvu_shred_sigverify_threads"@.len() == 27);
    assert("wait_for_supermajority"@ != "tvu_shred_sigverify_threads"@);
    assert("wait_for_supermajority"@.len() == 22);
    assert("voting_disabled"@.len() == 15);
    assert("wait_for_supermajority"@ != "voting_disabled"@);
    assert("wait_for_supermajority"@.len() == 22);
    assert("dev_halt_at_slot"@.len() == 16);
    assert("wait_for_supermajority"@ != "dev_halt_at_slot"@);
}

#[verifier::spinoff_prover]
#[verifier::rlimit(100)]
proof fn lemma_apply_expected_genesis_hash(c: ConfigV, v: ValueV)
    ensures
        spec_apply(c, "expected_genesis_hash"@, v) == (match as_string(v) {
            Some(s) => Some(ConfigV { expected_genesis_hash: Some(s), ..c }),
            None => None,
        }),
{
    reveal(crate::reader::spec_apply);
    reveal_strlit("bind_address");
    reveal_strlit("entrypoint");
    reveal_strlit("gossip_port");
    reveal_strlit("gossip_host");
    reveal_strlit("dynamic_port_range");
    reveal_strlit("allow_private_addr");
    reveal_strlit("ledger_path");
    reveal_strlit("accounts_path");
    reveal_strlit("account_snapshot_paths");
    reveal_strlit("limit_ledger_size");
    reveal_strlit("rpc_port");
    reveal_strlit("rpc_bind_address");
    reveal_strlit("enable_rpc_transaction_history");
    reveal_strlit("enable_extended_tx_metadata_storage");
    reveal_strlit("rpc_threads");
    reveal_strlit("rpc_blocking_threads");
    reveal_strlit("rpc_max_request_body_size");
    reveal_strlit("rpc_pubsub_max_active_subscriptions");
    reveal_strlit("rpc_pubsub_queue_capacity_items");
    reveal_strlit("rpc_pubsub_queue_capacity_bytes");
    reveal_strlit("accounts_shrink_ratio");
    reveal_strlit("accounts_shrink_optimize_total_space");
    reveal_strlit("banking_trace_dir_byte_limit");
    reveal_strlit("tpu_connection_pool_size");
    reveal_strlit("tpu_max_connections_per_peer");
    reveal_strlit("tpu_max_connections_per_ipaddr_per_minute");
    reveal_strlit("tpu_max_staked_connections");
    reveal_strlit("tpu_max_unstaked_connections");
    reveal_strlit("tpu_max_streams_per_ms");
    reveal_strlit("snapshot_version");
    reveal_strlit("snapshot_archive_format");
    reveal_strlit("full_snapshot_archive_interval_slots");
    reveal_strlit("incremental_snapshot_archive_interval_slots");
    reveal_strlit("maximum_full_snapshot_archives_to_retain");
    reveal_strlit("maximum_incremental_snapshot_archives_to_retain");
    reveal_strlit("min_snapshot_download_speed");
    reveal_strlit("max_snapshot_download_abort");
    reveal_strlit("replay_forks_threads");
    reveal_strlit("replay_transactions_threads");
    reveal_strlit("tvu_shred_sigverify_threads");
    reveal_strlit("voting_disabled");
    reveal_strlit("dev_halt_at_slot");
    reveal_strlit("wait_for_supermajority");
    reveal_strlit("expected_genesis_hash");
    assert("expected_genesis_hash"@.len() == 21);
    assert("bind_address"@.len() == 12);
    assert("expected_genesis_hash"@ != "bind_address"@);
    assert("expected_genesis_hash"@.len() == 21);
    assert("entrypoint"@.len() == 10);
    assert("expected_genesis_hash"@ != "entrypoint"@);
    assert("expected_genesis_hash"@.len() == 21);
    assert("gossip_port"@.len() == 11);
    assert("expected_genesis_hash"@ != "gossip_port"@);
    assert("expected_genesis_hash"@.len() == 21);
    assert("gossip_host"@.len() == 11);
    assert("expected_genesis_hash"@ != "gossip_host"@);
    assert("expected_genesis_hash"@.len() == 21);
    assert("dynamic_port_range"@.len() == 18);
    assert("expected_genesis_hash"@ != "dynamic_port_range"@);
    assert("expected_genesis_hash"@.len() == 21);
    assert("allow_private_addr"@.len() == 18);
    assert("expected_genesis_hash"@ != "allow_private_addr"@);
    assert("expected_genesis_hash"@.len() == 21);
    assert("ledger_path"@.len() == 11);
    assert("expected_genesis_hash"@ != "ledger_path"@);
    assert("expected_genesis_hash"@.len() == 21);
    assert("accounts_path"@.len() == 13);
    assert("expected_genesis_hash"@ != "accounts_path"@);
    assert("expected_genesis_hash"@.len() == 21);
    assert("account_snapshot_paths"@.len() == 22);
    assert("expected_genesis_hash"@ != "account_snapshot_paths"@);
    assert("expected_genesis_hash"@.len() == 21);
    assert("limit_ledger_size"@.len() == 17);
    assert("expected_genesis_hash"@ != "limit_ledger_size"@);
    assert("expected_genesis_hash"@.len() == 21);
    assert("rpc_port"@.len() == 8);
    assert("expected_genesis_hash"@ != "rpc_port"@);
    assert("expected_genesis_hash"@.len() == 21);
    assert("rpc_bind_address"@.len() == 16);
    assert("expected_genesis_hash"@ != "rpc_bind_address"@);
    assert("expected_genesis_hash"@.len() == 21);
    assert("enable_rpc_transaction_history"@.len() == 30);
    assert("expected_genesis_hash"@ != "enable_rpc_transaction_history"@);
    assert("expected_genesis_hash"@.len() == 21);
    assert("enable_extended_tx_metadata_storage"@.len() == 35);
    assert("expected_genesis_hash"@ != "enable_extended_tx_metadata_storage"@);
    assert("expected_genesis_hash"@.len() == 21);
    assert("rpc_threads"@.len() == 11);
    assert("expected_genesis_hash"@ != "rpc_threads"@);
    assert("expected_genesis_hash"@.len() == 21);
    assert("rpc_blocking_threads"@.len() == 20);
    assert("expected_genesis_hash"@ != "rpc_blocking_threads"@);
    assert("expected_genesis_hash"@.len() == 21);
    assert("rpc_max_request_body_size"@.len() == 25);
    assert("expected_genesis_hash"@ != "rpc_max_request_body_size"@);
    assert("expected_genesis_hash"@.len() == 21);
    assert("rpc_pubsub_max_active_subscriptions"@.len() == 35);
    assert("expected_genesis_hash"@ != "rpc_pubsub_max_active_subscriptions"@);
    assert("expected_genesis_hash"@.len() == 21);
    assert("rpc_pubsub_queue_capacity_items"@.len() == 31);
    assert("expected_genesis_hash"@ != "rpc_pubsub_queue_capacity_items"@);
    assert("expected_genesis_hash"@.len() == 21);
    assert("rpc_pubsub_queue_capacity_bytes"@.len() == 31);
    assert("expected_genesis_hash"@ != "rpc_pubsub_queue_capacity_bytes"@);
    assert("expected_genesis_hash"@[0] == 'e');
    assert("accounts_shrink_ratio"@[0] == 'a');
    assert("expected_genesis_hash"@ != "accounts_shrink_ratio"@);
    assert("expected_genesis_hash"@.len() == 21);
    assert("accounts_shrink_optimize_total_space"@.len() == 36);
    assert("expected_genesis_hash"@ != "accounts_shrink_optimize_total_space"@);
    assert("expected_genesis_hash"@.len() == 21);
    assert("banking_trace_dir_byte_limit"@.len() == 28);
    assert("expected_genesis_hash"@ != "banking_trace_dir_byte_limit"@);
    assert("expected_genesis_hash"@.len() == 21);
    assert("tpu_connection_pool_size"@.len() == 24);
    assert("expected_genesis_hash"@ != "tpu_connection_pool_size"@);
    assert("expected_genesis_hash"@.len() == 21);
    assert("tpu_max_connections_per_peer"@.len() == 28);
    assert("expected_genesis_hash"@ != "tpu_max_connections_per_peer"@);
    assert("expected_genesis_hash"@.len() == 21);
    assert("tpu_max_connections_per_ipaddr_per_minute"@.len() == 41);
    assert("expected_genesis_hash"@ != "tpu_max_connections_per_ipaddr_per_minute"@);
    assert("expected_genesis_hash"@.len() == 21);
    assert("tpu_max_staked_connections"@.len() == 26);
    assert("expected_genesis_hash"@ != "tpu_max_staked_connections"@);
    assert("expected_genesis_hash"@.len() == 21);
    assert("tpu_max_unstaked_connections"@.len() == 28);
    assert("expected_genesis_hash"@ != "tpu_max_unstaked_connections"@);
    assert("expected_genesis_hash"@.len() == 21);
    assert("tpu_max_streams_per_ms"@.len() == 22);
    assert("expected_genesis_hash"@ != "tpu_max_streams_per_ms"@);
    assert("expected_genesis_hash"@.len() == 21);
    assert("snapshot_version"@.len() == 16);
    assert("expected_genesis_hash"@ != "snapshot_version"@);
    assert("expected_genesis_hash"@.len() == 21);
    assert("snapshot_archive_format"@.len() == 23);
    assert("expected_genesis_hash"@ != "snapshot_archive_format"@);
    assert("expected_genesis_hash"@.len() == 21);
    assert("full_snapshot_archive_interval_slots"@.len() == 36);
    assert("expected_genesis_hash"@ != "full_snapshot_archive_interval_slots"@);
    assert("expected_genesis_hash"@.len() == 21);
    assert("incremental_snapshot_archive_interval_slots"@.len() == 43);
    assert("expected_genesis_hash"@ != "incremental_snapshot_archive_interval_slots"@);
    assert("expected_genesis_hash"@.len() == 21);
    assert("maximum_full_snapshot_archives_to_retain"@.len() == 40);
    assert("expected_genesis_hash"@ != "maximum_full_snapshot_archives_to_retain"@);
    assert("expected_genesis_hash"@.len() == 21);
    assert("maximum_incremental_snapshot_archives_to_retain"@.len() == 47);
    assert("expected_genesis_hash"@ != "maximum_incremental_snapshot_archives_to_retain"@);
    assert("expected_genesis_hash"@.len() == 21);
    assert("min_snapshot_download_speed"@.len() == 27);
    assert("expected_genesis_hash"@ != "min_snapshot_download_speed"@);
    assert("expected_genesis_hash"@.len() == 21);
    assert("max_snapshot_download_abort"@.len() == 27);
    assert("expected_genesis_hash"@ != "max_snapshot_download_abort"@);
    assert("expected_genesis_hash"@.len() == 21);
    assert("replay_forks_threads"@.len() == 20);
    assert("expected_genesis_hash"@ != "replay_forks_threads"@);
    assert("expected_genesis_hash"@.len() == 21);
    assert("replay_transactions_threads"@.len() == 27);
    assert("expected_genesis_hash"@ != "replay_transactions_threads"@);
    assert("expected_genesis_hash"@.len() == 21);
    assert("tvu_shred_sigverify_threads"@.len() == 27);
    assert("expected_genesis_hash"@ != "tvu_shred_sigverify_threads"@);
    assert("expected_genesis_hash"@.len() == 21);
    assert("voting_disabled"@.len() == 15);
    assert("expected_genesis_hash"@ != "voting_disabled"@);
    assert("expected_genesis_hash"@.len() == 21);
    assert("dev_halt_at_slot"@.len() == 16);
    assert("expected_genesis_hash"@ != "dev_halt_at_slot"@);
    assert("expected_genesis_hash"@.len() == 21);
    assert("wait_for_supermajority"@.len() == 22);
    assert("expected_genesis_hash"@ != "wait_for_supermajority"@);
}

#[verifier::spinoff_prover]
#[verifier::rlimit(100)]
proof fn lemma_apply_expected_bank_hash(c: ConfigV, v: ValueV)
    ensures
        spec_apply(c, "expected_bank_hash"@, v) == (match as_string(v) {
            Some(s) => Some(ConfigV { expected_bank_hash: Some(s), ..c }),
            None => None,
        }),
{
    reveal(crate::reader::spec_apply);
    reveal_strlit("bind_address");
    reveal_strlit("entrypoint");
    reveal_strlit("gossip_port");
    reveal_strlit("gossip_host");
    reveal_strlit("dynamic_port_range");
    reveal_strlit("allow_private_addr");
    reveal_strlit("ledger_path");
    reveal_strlit("accounts_path");
    reveal_strlit("account_snapshot_paths");
    reveal_strlit("limit_ledger_size");
    reveal_strlit("rpc_port");
    reveal_strlit("rpc_bind_address");
    reveal_strlit("enable_rpc_transaction_history");
    reveal_strlit("enable_extended_tx_metadata_storage");
    reveal_strlit("rpc_threads");
    reveal_strlit("rpc_blocking_threads");
    reveal_strlit("rpc_max_request_body_size");
    reveal_strlit("rpc_pubsub_max_active_subscriptions");
    reveal_strlit("rpc_pubsub_queue_capacity_items");
    reveal_strlit("rpc_pubsub_queue_capacity_bytes");
    reveal_strlit("accounts_shrink_ratio");
    reveal_strlit("accounts_shrink_optimize_total_space");
    reveal_strlit("banking_trace_dir_byte_limit");
    reveal_strlit("tpu_connection_pool_size");
    reveal_strlit("tpu_max_connections_per_peer");
    reveal_strlit("tpu_max_connections_per_ipaddr_per_minute");
    reveal_strlit("tpu_max_staked_connections");
    reveal_strlit("tpu_max_unstaked_connections");
    reveal_strlit("tpu_max_streams_per_ms");
    reveal_strlit("snapshot_version");
    reveal_strlit("snapshot_archive_format");
    reveal_strlit("full_snapshot_archive_interval_slots");
    reveal_strlit("incremental_snapshot_archive_interval_slots");
    reveal_strlit("maximum_full_snapshot_archives_to_retain");
    reveal_strlit("maximum_incremental_snapshot_archives_to_retain");
    reveal_strlit("min_snapshot_download_speed");
    reveal_strlit("max_snapshot_download_abort");
    reveal_strlit("replay_forks_threads");
    reveal_strlit("replay_transactions_threads");
    reveal_strlit("tvu_shred_sigverify_threads");
    reveal_strlit("voting_disabled");
    reveal_strlit("dev_halt_at_slot");
    reveal_strlit("wait_for_supermajority");
    reveal_strlit("expected_genesis_hash");
    reveal_strlit("expected_bank_hash");
    assert("expected_bank_hash"@.len() == 18);
    assert("bind_address"@.len() == 12);
    assert("expected_bank_hash"@ != "bind_address"@);
    assert("expected_bank_hash"@.len() == 18);
    assert("entrypoint"@.len() == 10);
    assert("expected_bank_hash"@ != "entrypoint"@);
    assert("expected_bank_hash"@.len() == 18);
    assert("gossip_port"@.len() == 11);
    assert("expected_bank_hash"@ != "gossip_port"@);
    assert("expected_bank_hash"@.len() == 18);
    assert("gossip_host"@.len() == 11);
    assert("expected_bank_hash"@ != "gossip_host"@);
    assert("expected_bank_hash"@[0] == 'e');
    assert("dynamic_port_range"@[0] == 'd');
    assert("expected_bank_hash"@ != "dynamic_port_range"@);
    assert("expected_bank_hash"@[0] == 'e');
    assert("allow_private_addr"@[0] == 'a');
    assert("expected_bank_hash"@ != "allow_private_addr"@);
    assert("expected_bank_hash"@.len() == 18);
    assert("ledger_path"@.len() == 11);
    assert("expected_bank_hash"@ != "ledger_path"@);
    assert("expected_bank_hash"@.len() == 18);
    assert("accounts_path"@.len() == 13);
    assert("expected_bank_hash"@ != "accounts_path"@);
    assert("expected_bank_hash"@.len() == 18);
    assert("account_snapshot_paths"@.len() == 22);
    assert("expected_bank_hash"@ != "account_snapshot_paths"@);
    assert("expected_bank_hash"@.len() == 18);
    assert("limit_ledger_size"@.len() == 17);
    assert("expected_bank_hash"@ != "limit_ledger_size"@);
    assert("expected_bank_hash"@.len() == 18);
    assert("rpc_port"@.len() == 8);
    assert("expected_bank_hash"@ != "rpc_port"@);
    assert("expected_bank_hash"@.len() == 18);
    assert("rpc_bind_address"@.len() == 16);
    assert("expected_bank_hash"@ != "rpc_bind_address"@);
    assert("expected_bank_hash"@.len() == 18);
    assert("enable_rpc_transaction_history"@.len() == 30);
    assert("expected_bank_hash"@ != "enable_rpc_transaction_history"@);
    assert("expected_bank_hash"@.len() == 18);
    assert("enable_extended_tx_metadata_storage"@.len() == 35);
    assert("expected_bank_hash"@ != "enable_extended_tx_metadata_storage"@);
    assert("expected_bank_hash"@.len() == 18);
    assert("rpc_threads"@.len() == 11);
    assert("expected_bank_hash"@ != "rpc_threads"@);
    assert("expected_bank_hash"@.len() == 18);
    assert("rpc_blocking_threads"@.len() == 20);
    assert("expected_bank_hash"@ != "rpc_blocking_threads"@);
    assert("expected_bank_hash"@.len() == 18);
    assert("rpc_max_request_body_size"@.len() == 25);
    assert("expected_bank_hash"@ != "rpc_max_request_body_size"@);
    assert("expected_bank_hash"@.len() == 18);
    assert("rpc_pubsub_max_active_subscriptions"@.len() == 35);
    assert("expected_bank_hash"@ != "rpc_pubsub_max_active_subscriptions"@);
    assert("expected_bank_hash"@.len() == 18);
    assert("rpc_pubsub_queue_capacity_items"@.len() == 31);
    assert("expected_bank_hash"@ != "rpc_pubsub_queue_capacity_items"@);
    assert("expected_bank_hash"@.len() == 18);
    assert("rpc_pubsub_queue_capacity_bytes"@.len() == 31);
    assert("expected_bank_hash"@ != "rpc_pubsub_queue_capacity_bytes"@);
    assert("expected_bank_hash"@.len() == 18);
    assert("accounts_shrink_ratio"@.len() == 21);
    assert("expected_bank_hash"@ != "accounts_shrink_ratio"@);
    assert("expected_bank_hash"@.len() == 18);
    assert("accounts_shrink_optimize_total_space"@.len() == 36);
    assert("expected_bank_hash"@ != "accounts_shrink_optimize_total_space"@);
    assert("expected_bank_hash"@.len() == 18);
    assert("banking_trace_dir_byte_limit"@.len() == 28);
    assert("expected_bank_hash"@ != "banking_trace_dir_byte_limit"@);
    assert("expected_bank_hash"@.len() == 18);
    assert("tpu_connection_pool_size"@.len() == 24);
    assert("expected_bank_hash"@ != "tpu_connection_pool_size"@);
    assert("expected_bank_hash"@.len() == 18);
    assert("tpu_max_connections_per_peer"@.len() == 28);
    assert("expected_bank_hash"@ != "tpu_max_connections_per_peer"@);
    assert("expected_bank_hash"@.len() == 18);
    assert("tpu_max_connections_per_ipaddr_per_minute"@.len() == 41);
    assert("expected_bank_hash"@ != "tpu_max_connections_per_ipaddr_per_minute"@);
    assert("expected_bank_hash"@.len() == 18);
    assert("tpu_max_staked_connections"@.len() == 26);
    assert("expected_bank_hash"@ != "tpu_max_staked_connections"@);
    assert("expected_bank_hash"@.len() == 18);
    assert("tpu_max_unstaked_connections"@.len() == 28);
    assert("expected_bank_hash"@ != "tpu_max_unstaked_connections"@);
    assert("expected_bank_hash"@.len() == 18);
    assert("tpu_max_streams_per_ms"@.len() == 22);
    assert("expected_bank_hash"@ != "tpu_max_streams_per_ms"@);
    assert("expected_bank_hash"@.len() == 18);
    assert("snapshot_version"@.len() == 16);
    assert("expected_bank_hash"@ != "snapshot_version"@);
    assert("expected_bank_hash"@.len() == 18);
    assert("snapshot_archive_format"@.len() == 23);
    assert("expected_bank_hash"@ != "snapshot_archive_format"@);
    assert("expected_bank_hash"@.len() == 18);
    assert("full_snapshot_archive_interval_slots"@.len() == 36);
    assert("expected_bank_hash"@ != "full_snapshot_archive_interval_slots"@);
    assert("expected_bank_hash"@.len() == 18);
    assert("incremental_snapshot_archive_interval_slots"@.len() == 43);
    assert("expected_bank_hash"@ != "incremental_snapshot_archive_interval_slots"@);
    assert("expected_bank_hash"@.len() == 18);
    assert("maximum_full_snapshot_archives_to_retain"@.len() == 40);
    assert("expected_bank_hash"@ != "maximum_full_snapshot_archives_to_retain"@);
    assert("expected_bank_hash"@.len() == 18);
    assert("maximum_incremental_snapshot_archives_to_retain"@.len() == 47);
    assert("expected_bank_hash"@ != "maximum_incremental_snapshot_archives_to_retain"@);
    assert("expected_bank_hash"@.len() == 18);
    assert("min_snapshot_download_speed"@.len() == 27);
    assert("expected_bank_hash"@ != "min_snapshot_download_speed"@);
    assert("expected_bank_hash"@.len() == 18);
    assert("max_snapshot_download_abort"@.len() == 27);
    assert("expected_bank_hash"@ != "max_snapshot_download_abort"@);
    assert("expected_bank_hash"@.len() == 18);
    assert("replay_forks_threads"@.len() == 20);
    assert("expected_bank_hash"@ != "replay_forks_threads"@);
    assert("expected_bank_hash"@.len() == 18);
    assert("replay_transactions_threads"@.len() == 27);
    assert("expected_bank_hash"@ != "replay_transactions_threads"@);
    assert("expected_bank_hash"@.len() == 18);
    assert("tvu_shred_sigverify_threads"@.len() == 27);
    assert("expected_bank_hash"@ != "tvu_shred_sigverify_threads"@);
    assert("expected_bank_hash"@.len() == 18);
    assert("voting_disabled"@.len() == 15);
    assert("expected_bank_hash"@ != "voting_disabled"@);
    assert("expected_bank_hash"@.len() == 18);
    assert("dev_halt_at_slot"@.len() == 16);
    assert("expected_bank_hash"@ != "dev_halt_at_slot"@);
    assert("expected_bank_hash"@.len() == 18);
    assert("wait_for_supermajority"@.len() == 22);
    assert("expected_bank_hash"@ != "wait_for_supermajority"@);
    assert("expected_bank_hash"@.len() == 18);
    assert("expected_genesis_hash"@.len() == 21);
    assert("expected_bank_hash"@ != "expected_genesis_hash"@);
}

#[verifier::spinoff_prover]
#[verifier::rlimit(100)]
proof fn lemma_apply_expected_shred_version(c: ConfigV, v: ValueV)
    ensures
        spec_apply(c, "expected_shred_version"@, v) == (match as_u16v(v) {
            Some(n) => Some(ConfigV { expected_shred_version: Some(n), ..c }),
            None => None,
        }),
{
    reveal(crate::reader::spec_apply);
    reveal_strlit("bind_address");
    reveal_strlit("entrypoint");
    reveal_strlit("gossip_port");
    reveal_strlit("gossip_host");
    reveal_strlit("dynamic_port_range");
    reveal_strlit("allow_private_addr");
    reveal_strlit("ledger_path");
    reveal_strlit("accounts_path");
    reveal_strlit("account_snapshot_paths");
    reveal_strlit("limit_ledger_size");
    reveal_strlit("rpc_port");
    reveal_strlit("rpc_bind_address");
    reveal_strlit("enable_rpc_transaction_history");
    reveal_strlit("enable_extended_tx_metadata_storage");
    reveal_strlit("rpc_threads");
    reveal_strlit("rpc_blocking_threads");
    reveal_strlit("rpc_max_request_body_size");
    reveal_strlit("rpc_pubsub_max_active_subscriptions");
    reveal_strlit("rpc_pubsub_queue_capacity_items");
    reveal_strlit("rpc_pubsub_queue_capacity_bytes");
    reveal_strlit("accounts_shrink_ratio");
    reveal_strlit("accounts_shrink_optimize_total_space");
    reveal_strlit("banking_trace_dir_byte_limit");
    reveal_strlit("tpu_connection_pool_size");
    reveal_strlit("tpu_max_connections_per_peer");
    reveal_strlit("tpu_max_connections_per_ipaddr_per_minute");
    reveal_strlit("tpu_max_staked_connections");
    reveal_strlit("tpu_max_unstaked_connections");
    reveal_strlit("tpu_max_streams_per_ms");
    reveal_strlit("snapshot_version");
    reveal_strlit("snapshot_archive_format");
    reveal_strlit("full_snapshot_archive_interval_slots");
    reveal_strlit("incremental_snapshot_archive_interval_slots");
    reveal_strlit("maximum_full_snapshot_archives_to_retain");
    reveal_strlit("maximum_incremental_snapshot_archives_to_retain");
    reveal_strlit("min_snapshot_download_speed");
    reveal_strlit("max_snapshot_download_abort");
    reveal_strlit("replay_forks_threads");
    reveal_strlit("replay_transactions_threads");
    reveal_strlit("tvu_shred_sigverify_threads");
    reveal_strlit("voting_disabled");
    reveal_strlit("dev_halt_at_slot");
    reveal_strlit("wait_for_supermajority");
    reveal_strlit("expected_genesis_hash");
    reveal_strlit("expected_bank_hash");
    reveal_strlit("expected_shred_version");
    assert("expected_shred_version"@.len() == 22);
    assert("bind_address"@.len() == 12);
    assert("expected_shred_version"@ != "bind_address"@);
    assert("expected_shred_version"@.len() == 22);
    assert("entrypoint"@.len() == 10);
    assert("expected_shred_version"@ != "entrypoint"@);
    assert("expected_shred_version"@.len() == 22);
    assert("gossip_port"@.len() == 11);
    assert("expected_shred_version"@ != "gossip_port"@);
    assert("expected_shred_version"@.len() == 22);
    assert("gossip_host"@.len() == 11);
    assert("expected_shred_version"@ != "gossip_host"@);
    assert("expected_shred_version"@.len() == 22);
    assert("dynamic_port_range"@.len() == 18);
    assert("expected_shred_version"@ != "dynamic_port_range"@);
    assert("expected_shred_version"@.len() == 22);
    assert("allow_private_addr"@.len() == 18);
    assert("expected_shred_version"@ != "allow_private_addr"@);
    assert("expected_shred_version"@.len() == 22);
    assert("ledger_path"@.len() == 11);
    assert("expected_shred_version"@ != "ledger_path"@);
    assert("expected_shred_version"@.len() == 22);
    assert("accounts_path"@.len() == 13);
    assert("expected_shred_version"@ != "accounts_path"@);
    assert("expected_shred_version"@[0] == 'e');
    assert("account_snapshot_paths"@[0] == 'a');
    assert("expected_shred_version"@ != "account_snapshot_paths"@);
    assert("expected_shred_version"@.len() == 22);
    assert("limit_ledger_size"@.len() == 17);
    assert("expected_shred_version"@ != "limit_ledger_size"@);
    assert("expected_shred_version"@.len() == 22);
    assert("rpc_port"@.len() == 8);
    assert("expected_shred_version"@ != "rpc_port"@);
    assert("expected_shred_version"@.len() == 22);
    assert("rpc_bind_address"@.len() == 16);
    assert("expected_shred_version"@ != "rpc_bind_address"@);
    assert("expected_shred_version"@.len() == 22);
    assert("enable_rpc_transaction_history"@.len() == 30);
    assert("expected_shred_version"@ != "enable_rpc_transaction_history"@);
    assert("expected_shred_version"@.len() == 22);
    assert("enable_extended_tx_metadata_storage"@.len() == 35);
    assert("expected_shred_version"@ != "enable_extended_tx_metadata_storage"@);
    assert("expected_shred_version"@.len() == 22);
    assert("rpc_threads"@.len() == 11);
    assert("expected_shred_version"@ != "rpc_threads"@);
    assert("expected_shred_version"@.len() == 22);
    assert("rpc_blocking_threads"@.len() == 20);
    assert("expected_shred_version"@ != "rpc_blocking_threads"@);
    assert("expected_shred_version"@.len() == 22);
    assert("rpc_max_request_body_size"@.len() == 25);
    assert("expected_shred_version"@ != "rpc_max_request_body_size"@);
    assert("expected_shred_version"@.len() == 22);
    assert("rpc_pubsub_max_active_subscriptions"@.len() == 35);
    assert("expected_shred_version"@ != "rpc_pubsub_max_active_subscriptions"@);
    assert("expected_shred_version"@.len() == 22);
    assert("rpc_pubsub_queue_capacity_items"@.len() == 31);
    assert("expected_shred_version"@ != "rpc_pubsub_queue_capacity_items"@);
    assert("expected_shred_version"@.len() == 22);
    assert("rpc_pubsub_queue_capacity_bytes"@.len() == 31);
    assert("expected_shred_version"@ != "rpc_pubsub_queue_capacity_bytes"@);
    assert("expected_shred_version"@.len() == 22);
    assert("accounts_shrink_ratio"@.len() == 21);
    assert("expected_shred_version"@ != "accounts_shrink_ratio"@);
    assert("expected_shred_version"@.len() == 22);
    assert("accounts_shrink_optimize_total_space"@.len() == 36);
    assert("expected_shred_version"@ != "accounts_shrink_optimize_total_space"@);
    assert("expected_shred_version"@.len() == 22);
    assert("banking_trace_dir_byte_limit"@.len() == 28);
    assert("expected_shred_version"@ != "banking_trace_dir_byte_limit"@);
    assert("expected_shred_version"@.len() == 22);
    assert("tpu_connection_pool_size"@.len() == 24);
    assert("expected_shred_version"@ != "tpu_connection_pool_size"@);
    assert("expected_shred_version"@.len() == 22);
    assert("tpu_max_connections_per_peer"@.len() == 28);
    assert("expected_shred_version"@ != "tpu_max_connections_per_peer"@);
    assert("expected_shred_version"@.len() == 22);
    assert("tpu_max_connections_per_ipaddr_per_minute"@.len() == 41);
    assert("expected_shred_version"@ != "tpu_max_connections_per_ipaddr_per_minute"@);
    assert("expected_shred_version"@.len() == 22);
    assert("tpu_max_staked_connections"@.len() == 26);
    assert("expected_shred_version"@ != "tpu_max_staked_connections"@);
    assert("expected_shred_version"@.len() == 22);
    assert("tpu_max_unstaked_connections"@.len() == 28);
    assert("expected_shred_version"@ != "tpu_max_unstaked_connections"@);
    assert("expected_shred_version"@[0] == 'e');
    assert("tpu_max_streams_per_ms"@[0] == 't');
    assert("expected_shred_version"@ != "tpu_max_streams_per_ms"@);
    assert("expected_shred_version"@.len() == 22);
    assert("snapshot_version"@.len() == 16);
    assert("expected_shred_version"@ != "snapshot_version"@);
    assert("expected_shred_version"@.len() == 22);
    assert("snapshot_archive_format"@.len() == 23);
    assert("expected_shred_version"@ != "snapshot_archive_format"@);
    assert("expected_shred_version"@.len() == 22);
    assert("full_snapshot_archive_interval_slots"@.len() == 36);
    assert("expected_shred_version"@ != "full_snapshot_archive_interval_slots"@);
    assert("expected_shred_version"@.len() == 22);
    assert("incremental_snapshot_archive_interval_slots"@.len() == 43);
    assert("expected_shred_version"@ != "incremental_snapshot_archive_interval_slots"@);
    assert("expected_shred_version"@.len() == 22);
    assert("maximum_full_snapshot_archives_to_retain"@.len() == 40);
    assert("expected_shred_version"@ != "maximum_full_snapshot_archives_to_retain"@);
    assert("expected_shred_version"@.len() == 22);
    assert("maximum_incremental_snapshot_archives_to_retain"@.len() == 47);
    assert("expected_shred_version"@ != "maximum_incremental_snapshot_archives_to_retain"@);
    assert("expected_shred_version"@.len() == 22);
    assert("min_snapshot_download_speed"@.len() == 27);
    assert("expected_shred_version"@ != "min_snapshot_download_speed"@);
    assert("expected_shred_version"@.len() == 22);
    assert("max_snapshot_download_abort"@.len() == 27);
    assert("expected_shred_version"@ != "max_snapshot_download_abort"@);
    assert("expected_shred_version"@.len() == 22);
    assert("replay_forks_threads"@.len() == 20);
    assert("expected_shred_version"@ != "replay_forks_threads"@);
    assert("expected_shred_version"@.len() == 22);
    assert("replay_transactions_threads"@.len() == 27);
    assert("expected_shred_version"@ != "replay_transactions_threads"@);
    assert("expected_shred_version"@.len() == 22);
    assert("tvu_shred_sigverify_threads"@.len() == 27);
    assert("expected_shred_version"@ != "tvu_shred_sigverify_threads"@);
    assert("expected_shred_version"@.len() == 22);
    assert("voting_disabled"@.len() == 15);
    assert("expected_shred_version"@ != "voting_disabled"@);
    assert("expected_shred_version"@.len() == 22);
    assert("dev_halt_at_slot"@.len() == 16);
    assert("expected_shred_version"@ != "dev_halt_at_slot"@);
    assert("expected_shred_version"@[0] == 'e');
    assert("wait_for_supermajority"@[0] == 'w');
    assert("expected_shred_version"@ != "wait_for_supermajority"@);
    assert("expected_shred_version"@.len() == 22);
    assert("expected_genesis_hash"@.len() == 21);
    assert("expected_shred_version"@ != "expected_genesis_hash"@);
    assert("expected_shred_version"@.len() == 22);
    assert("expected_bank_hash"@.len() == 18);
    assert("expected_shred_version"@ != "expected_bank_hash"@);
}

#[verifier::spinoff_prover]
#[verifier::rlimit(100)]
proof fn lemma_apply_no_voting(c: ConfigV, v: ValueV)
    ensures
        spec_apply(c, "no_voting"@, v) == (match as_bool(v) {
            Some(b) => Some(ConfigV { no_voting: Some(b), ..c }),
            None => None,
        }),
{
    reveal(crate::reader::spec_apply);
    reveal_strlit("bind_address");
    reveal_strlit("entrypoint");
    reveal_strlit("gossip_port");
    reveal_strlit("gossip_host");
    reveal_strlit("dynamic_port_range");
    reveal_strlit("allow_private_addr");
    reveal_strlit("ledger_path");
    reveal_strlit("accounts_path");
    reveal_strlit("account_snapshot_paths");
    reveal_strlit("limit_ledger_size");
    reveal_strlit("rpc_port");
    reveal_strlit("rpc_bind_address");
    reveal_strlit("enable_rpc_transaction_history");
    reveal_strlit("enable_extended_tx_metadata_storage");
    reveal_strlit("rpc_threads");
    reveal_strlit("rpc_blocking_threads");
    reveal_strlit("rpc_max_request_body_size");
    reveal_strlit("rpc_pubsub_max_active_subscriptions");
    reveal_strlit("rpc_pubsub_queue_capacity_items");
    reveal_strlit("rpc_pubsub_queue_capacity_bytes");
    reveal_strlit("accounts_shrink_ratio");
    reveal_strlit("accounts_shrink_optimize_total_space");
    reveal_strlit("banking_trace_dir_byte_limit");
    reveal_strlit("tpu_connection_pool_size");
    reveal_strlit("tpu_max_connections_per_peer");
    reveal_strlit("tpu_max_connections_per_ipaddr_per_minute");
    reveal_strlit("tpu_max_staked_connections");
    reveal_strlit("tpu_max_unstaked_connections");
    reveal_strlit("tpu_max_streams_per_ms");
    reveal_strlit("snapshot_version");
    reveal_strlit("snapshot_archive_format");
    reveal_strlit("full_snapshot_archive_interval_slots");
    reveal_strlit("incremental_snapshot_archive_interval_slots");
    reveal_strlit("maximum_full_snapshot_archives_to_retain");
    reveal_strlit("maximum_incremental_snapshot_archives_to_retain");
    reveal_strlit("min_snapshot_download_speed");
    reveal_strlit("max_snapshot_download_abort");
    reveal_strlit("replay_forks_threads");
    reveal_strlit("replay_transactions_threads");
    reveal_strlit("tvu_shred_sigverify_threads");
    reveal_strlit("voting_disabled");
    reveal_strlit("dev_halt_at_slot");
    reveal_strlit("wait_for_supermajority");
    reveal_strlit("expected_genesis_hash");
    reveal_strlit("expected_bank_hash");
    reveal_strlit("expected_shred_version");
    reveal_strlit("no_voting");
    assert("no_voting"@.len() == 9);
    assert("bind_address"@.len() == 12);
    assert("no_voting"@ != "bind_address"@);
    assert("no_voting"@.len() == 9);
    assert("entrypoint"@.len() == 10);
    assert("no_voting"@ != "entrypoint"@);
    assert("no_voting"@.len() == 9);
    assert("gossip_port"@.len() == 11);
    assert("no_voting"@ != "gossip_port"@);
    assert("no_voting"@.len() == 9);
    assert("gossip_host"@.len() == 11);
    assert("no_voting"@ != "gossip_host"@);
    assert("no_voting"@.len() == 9);
    assert("dynamic_port_range"@.len() == 18);
    assert("no_voting"@ != "dynamic_port_range"@);
    assert("no_voting"@.len() == 9);
    assert("allow_private_addr"@.len() == 18);
    assert("no_voting"@ != "allow_private_addr"@);
    assert("no_voting"@.len() == 9);
    assert("ledger_path"@.len() == 11);
    assert("no_voting"@ != "ledger_path"@);
    assert("no_voting"@.len() == 9);
    assert("accounts_path"@.len() == 13);
    assert("no_voting"@ != "accounts_path"@);
    assert("no_voting"@.len() == 9);
    assert("account_snapshot_paths"@.len() == 22);
    assert("no_voting"@ != "account_snapshot_paths"@);
    assert("no_voting"@.len() == 9);
    assert("limit_ledger_size"@.len() == 17);
    assert("no_voting"@ != "limit_ledger_size"@);
    assert("no_voting"@.len() == 9);
    assert("rpc_port"@.len() == 8);
    assert("no_voting"@ != "rpc_port"@);
    assert("no_voting"@.len() == 9);
    assert("rpc_bind_address"@.len() == 16);
    assert("no_voting"@ != "rpc_bind_address"@);
    assert("no_voting"@.len() == 9);
    assert("enable_rpc_transaction_history"@.len() == 30);
    assert("no_voting"@ != "enable_rpc_transaction_history"@);
    assert("no_voting"@.len() == 9);
    assert("enable_extended_tx_metadata_storage"@.len() == 35);
    assert("no_voting"@ != "enable_extended_tx_metadata_storage"@);
    assert("no_voting"@.len() == 9);
    assert("rpc_threads"@.len() == 11);
    assert("no_voting"@ != "rpc_threads"@);
    assert("no_voting"@.len() == 9);
    assert("rpc_blocking_threads"@.len() == 20);
    assert("no_voting"@ != "rpc_blocking_threads"@);
    assert("no_voting"@.len() == 9);
    assert("rpc_max_request_body_size"@.len() == 25);
    assert("no_voting"@ != "rpc_max_request_body_size"@);
    assert("no_voting"@.len() == 9);
    assert("rpc_pubsub_max_active_subscriptions"@.len() == 35);
    assert("no_voting"@ != "rpc_pubsub_max_active_subscriptions"@);
    assert("no_voting"@.len() == 9);
    assert("rpc_pubsub_queue_capacity_items"@.len() == 31);
    assert("no_voting"@ != "rpc_pubsub_queue_capacity_items"@);
    assert("no_voting"@.len() == 9);
    assert("rpc_pubsub_queue_capacity_bytes"@.len() == 31);
    assert("no_voting"@ != "rpc_pubsub_queue_capacity_bytes"@);
    assert("no_voting"@.len() == 9);
    assert("accounts_shrink_ratio"@.len() == 21);
    assert("no_voting"@ != "accounts_shrink_ratio"@);
    assert("no_voting"@.len() == 9);
    assert("accounts_shrink_optimize_total_space"@.len() == 36);
    assert("no_voting"@ != "accounts_shrink_optimize_total_space"@);
    assert("no_voting"@.len() == 9);
    assert("banking_trace_dir_byte_limit"@.len() == 28);
    assert("no_voting"@ != "banking_trace_dir_byte_limit"@);
    assert("no_voting"@.len() == 9);
    assert("tpu_connection_pool_size"@.len() == 24);
    assert("no_voting"@ != "tpu_connection_pool_size"@);
    assert("no_voting"@.len() == 9);
    assert("tpu_max_connections_per_peer"@.len() == 28);
    assert("no_voting"@ != "tpu_max_connections_per_peer"@);
    assert("no_voting"@.len() == 9);
    assert("tpu_max_connections_per_ipaddr_per_minute"@.len() == 41);
    assert("no_voting"@ != "tpu_max_connections_per_ipaddr_per_minute"@);
    assert("no_voting"@.len() == 9);
    assert("tpu_max_staked_connections"@.len() == 26);
    assert("no_voting"@ != "tpu_max_staked_connections"@);
    assert("no_voting"@.len() == 9);
    assert("tpu_max_unstaked_connections"@.len() == 28);
    assert("no_voting"@ != "tpu_max_unstaked_connections"@);
    assert("no_voting"@.len() == 9);
    assert("tpu_max_streams_per_ms"@.len() == 22);
    assert("no_voting"@ != "tpu_max_streams_per_ms"@);
    assert("no_voting"@.len() == 9);
    assert("snapshot_version"@.len() == 16);
    assert("no_voting"@ != "snapshot_version"@);
    assert("no_voting"@.len() == 9);
    assert("snapshot_archive_format"@.len() == 23);
    assert("no_voting"@ != "snapshot_archive_format"@);
    assert("no_voting"@.len() == 9);
    assert("full_snapshot_archive_interval_slots"@.len() == 36);
    assert("no_voting"@ != "full_snapshot_archive_interval_slots"@);
    assert("no_voting"@.len() == 9);
    assert("incremental_snapshot_archive_interval_slots"@.len() == 43);
    assert("no_voting"@ != "incremental_snapshot_archive_interval_slots"@);
    assert("no_voting"@.len() == 9);
    assert("maximum_full_snapshot_archives_to_retain"@.len() == 40);
    assert("no_voting"@ != "maximum_full_snapshot_archives_to_retain"@);
    assert("no_voting"@.len() == 9);
    assert("maximum_incremental_snapshot_archives_to_retain"@.len() == 47);
    assert("no_voting"@ != "maximum_incremental_snapshot_archives_to_retain"@);
    assert("no_voting"@.len() == 9);
    assert("min_snapshot_download_speed"@.len() == 27);
    assert("no_voting"@ != "min_snapshot_download_speed"@);
    assert("no_voting"@.len() == 9);
    assert("max_snapshot_download_abort"@.len() == 27);
    assert("no_voting"@ != "max_snapshot_download_abort"@);
    assert("no_voting"@.len() == 9);
    assert("replay_forks_threads"@.len() == 20);
    assert("no_voting"@ != "replay_forks_threads"@);
    assert("no_voting"@.len() == 9);
    assert("replay_transactions_threads"@.len() == 27);
    assert("no_voting"@ != "replay_transactions_threads"@);
    assert("no_voting"@.len() == 9);
    assert("tvu_shred_sigverify_threads"@.len() == 27);
    assert("no_voting"@ != "tvu_shred_sigverify_threads"@);
    assert("no_voting"@.len() == 9);
    assert("voting_disabled"@.len() == 15);
    assert("no_voting"@ != "voting_disabled"@);
    assert("no_voting"@.len() == 9);
    assert("dev_halt_at_slot"@.len() == 16);
    assert("no_voting"@ != "dev_halt_at_slot"@);
    assert("no_voting"@.len() == 9);
    assert("wait_for_supermajority"@.len() == 22);
    assert("no_voting"@ != "wait_for_supermajority"@);
    assert("no_voting"@.len() == 9);
    assert("expected_genesis_hash"@.len() == 21);
    assert("no_voting"@ != "expected_genesis_hash"@);
    assert("no_voting"@.len() == 9);
    assert("expected_bank_hash"@.len() == 18);
    assert("no_voting"@ != "expected_bank_hash"@);
    assert("no_voting"@.len() == 9);
    assert("expected_shred_version"@.len() == 22);
    assert("no_voting"@ != "expected_shred_version"@);
}

#[verifier::spinoff_prover]
#[verifier::rlimit(100)]
proof fn lemma_apply_no_check_vote_account(c: ConfigV, v: ValueV)
    ensures
        spec_apply(c, "no_check_vote_account"@, v) == (match as_bool(v) {
            Some(b) => Some(ConfigV { no_check_vote_account: Some(b), ..c }),
            None => None,
        }),
{
    reveal(crate::reader::spec_apply);
    reveal_strlit("bind_address");
    reveal_strlit("entrypoint");
    reveal_strlit("gossip_port");
    reveal_strlit("gossip_host");
    reveal_strlit("dynamic_port_range");
    reveal_strlit("allow_private_addr");
    reveal_strlit("ledger_path");
    reveal_strlit("accounts_path");
    reveal_strlit("account_snapshot_paths");
    reveal_strlit("limit_ledger_size");
    reveal_strlit("rpc_port");
    reveal_strlit("rpc_bind_address");
    reveal_strlit("enable_rpc_transaction_history");
    reveal_strlit("enable_extended_tx_metadata_storage");
    reveal_strlit("rpc_threads");
    reveal_strlit("rpc_blocking_threads");
    reveal_strlit("rpc_max_request_body_size");
    reveal_strlit("rpc_pubsub_max_active_subscriptions");
    reveal_strlit("rpc_pubsub_queue_capacity_items");
    reveal_strlit("rpc_pubsub_queue_capacity_bytes");
    reveal_strlit("accounts_shrink_ratio");
    reveal_strlit("accounts_shrink_optimize_total_space");
    reveal_strlit("banking_trace_dir_byte_limit");
    reveal_strlit("tpu_connection_pool_size");
    reveal_strlit("tpu_max_connections_per_peer");
    reveal_strlit("tpu_max_connections_per_ipaddr_per_minute");
    reveal_strlit("tpu_max_staked_connections");
    reveal_strlit("tpu_max_unstaked_connections");
    reveal_strlit("tpu_max_streams_per_ms");
    reveal_strlit("snapshot_version");
    reveal_strlit("snapshot_archive_format");
    reveal_strlit("full_snapshot_archive_interval_slots");
    reveal_strlit("incremental_snapshot_archive_interval_slots");
    reveal_strlit("maximum_full_snapshot_archives_to_retain");
    reveal_strlit("maximum_incremental_snapshot_archives_to_retain");
    reveal_strlit("min_snapshot_download_speed");
    reveal_strlit("max_snapshot_download_abort");
    reveal_strlit("replay_forks_threads");
    reveal_strlit("replay_transactions_threads");
    reveal_strlit("tvu_shred_sigverify_threads");
    reveal_strlit("voting_disabled");
    reveal_strlit("dev_halt_at_slot");
    reveal_strlit("wait_for_supermajority");
    reveal_strlit("expected_genesis_hash");
    reveal_strlit("expected_bank_hash");
    reveal_strlit("expected_shred_version");
    reveal_strlit("no_voting");
    reveal_strlit("no_check_vote_account");
    assert("no_check_vote_account"@.len() == 21);
    assert("bind_address"@.len() == 12);
    assert("no_check_vote_account"@ != "bind_address"@);
    assert("no_check_vote_account"@.len() == 21);
    assert("entrypoint"@.len() == 10);
    assert("no_check_vote_account"@ != "entrypoint"@);
    assert("no_check_vote_account"@.len() == 21);
    assert("gossip_port"@.len() == 11);
    assert("no_check_vote_account"@ != "gossip_port"@);
    assert("no_check_vote_account"@.len() == 21);
    assert("gossip_host"@.len() == 11);
    assert("no_check_vote_account"@ != "gossip_host"@);
    assert("no_check_vote_account"@.len() == 21);
    assert("dynamic_port_range"@.len() == 18);
    assert("no_check_vote_account"@ != "dynamic_port_range"@);
    assert("no_check_vote_account"@.len() == 21);
    assert("allow_private_addr"@.len() == 18);
    assert("no_check_vote_account"@ != "allow_private_addr"@);
    assert("no_check_vote_account"@.len() == 21);
    assert("ledger_path"@.len() == 11);
    assert("no_check_vote_account"@ != "ledger_path"@);
    assert("no_check_vote_account"@.len() == 21);
    assert("accounts_path"@.len() == 13);
    assert("no_check_vote_account"@ != "accounts_path"@);
    assert("no_check_vote_account"@.len() == 21);
    assert("account_snapshot_paths"@.len() == 22);
    assert("no_check_vote_account"@ != "account_snapshot_paths"@);
    assert("no_check_vote_account"@.len() == 21);
    assert("limit_ledger_size"@.len() == 17);
    assert("no_check_vote_account"@ != "limit_ledger_size"@);
    assert("no_check_vote_account"@.len() == 21);
    assert("rpc_port"@.len() == 8);
    assert("no_check_vote_account"@ != "rpc_port"@);
    assert("no_check_vote_account"@.len() == 21);
    assert("rpc_bind_address"@.len() == 16);
    assert("no_check_vote_account"@ != "rpc_bind_address"@);
    assert("no_check_vote_account"@.len() == 21);
    assert("enable_rpc_transaction_history"@.len() == 30);
    assert("no_check_vote_account"@ != "enable_rpc_transaction_history"@);
    assert("no_check_vote_account"@.len() == 21);
    assert("enable_extended_tx_metadata_storage"@.len() == 35);
    assert("no_check_vote_account"@ != "enable_extended_tx_metadata_storage"@);
    assert("no_check_vote_account"@.len() == 21);
    assert("rpc_threads"@.len() == 11);
    assert("no_check_vote_account"@ != "rpc_threads"@);
    assert("no_check_vote_account"@.len() == 21);
    assert("rpc_blocking_threads"@.len() == 20);
    assert("no_check_vote_account"@ != "rpc_blocking_threads"@);
    assert("no_check_vote_account"@.len() == 21);
    assert("rpc_max_request_body_size"@.len() == 25);
    assert("no_check_vote_account"@ != "rpc_max_request_body_size"@);
    assert("no_check_vote_account"@.len() == 21);
    assert("rpc_pubsub_max_active_subscriptions"@.len() == 35);
    assert("no_check_vote_account"@ != "rpc_pubsub_max_active_subscriptions"@);
    assert("no_check_vote_account"@.len() == 21);
    assert("rpc_pubsub_queue_capacity_items"@.len() == 31);
    assert("no_check_vote_account"@ != "rpc_pubsub_queue_capacity_items"@);
    assert("no_check_vote_account"@.len() == 21);
    assert("rpc_pubsub_queue_capacity_bytes"@.len() == 31);
    assert("no_check_vote_account"@ != "rpc_pubsub_queue_capacity_bytes"@);
    assert("no_check_vote_account"@[0] == 'n');
    assert("accounts_shrink_ratio"@[0] == 'a');
    assert("no_check_vote_account"@ != "accounts_shrink_ratio"@);
    assert("no_check_vote_account"@.len() == 21);
    assert("accounts_shrink_optimize_total_space"@.len() == 36);
    assert("no_check_vote_account"@ != "accounts_shrink_optimize_total_space"@);
    assert("no_check_vote_account"@.len() == 21);
    assert("banking_trace_dir_byte_limit"@.len() == 28);
    assert("no_check_vote_account"@ != "banking_trace_dir_byte_limit"@);
    assert("no_check_vote_account"@.len() == 21);
    assert("tpu_connection_pool_size"@.len() == 24);
    assert("no_check_vote_account"@ != "tpu_connection_pool_size"@);
    assert("no_check_vote_account"@.len() == 21);
    assert("tpu_max_connections_per_peer"@.len() == 28);
    assert("no_check_vote_account"@ != "tpu_max_connections_per_peer"@);
    assert("no_check_vote_account"@.len() == 21);
    assert("tpu_max_connections_per_ipaddr_per_minute"@.len() == 41);
    assert("no_check_vote_account"@ != "tpu_max_connections_per_ipaddr_per_minute"@);
    assert("no_check_vote_account"@.len() == 21);
    assert("tpu_max_staked_connections"@.len() == 26);
    assert("no_check_vote_account"@ != "tpu_max_staked_connections"@);
    assert("no_check_vote_account"@.len() == 21);
    assert("tpu_max_unstaked_connections"@.len() == 28);
    assert("no_check_vote_account"@ != "tpu_max_unstaked_connections"@);
    assert("no_check_vote_account"@.len() == 21);
    assert("tpu_max_streams_per_ms"@.len() == 22);
    assert("no_check_vote_account"@ != "tpu_max_streams_per_ms"@);
    assert("no_check_vote_account"@.len() == 21);
    assert("snapshot_version"@.len() == 16);
    assert("no_check_vote_account"@ != "snapshot_version"@);
    assert("no_check_vote_account"@.len() == 21);
    assert("snapshot_archive_format"@.len() == 23);
    assert("no_check_vote_account"@ != "snapshot_archive_format"@);
    assert("no_check_vote_account"@.len() == 21);
    assert("full_snapshot_archive_interval_slots"@.len() == 36);
    assert("no_check_vote_account"@ != "full_snapshot_archive_interval_slots"@);
    assert("no_check_vote_account"@.len() == 21);
    assert("incremental_snapshot_archive_interval_slots"@.len() == 43);
    assert("no_check_vote_account"@ != "incremental_snapshot_archive_interval_slots"@);
    assert("no_check_vote_account"@.len() == 21);
    assert("maximum_full_snapshot_archives_to_retain"@.len() == 40);
    assert("no_check_vote_account"@ != "maximum_full_snapshot_archives_to_retain"@);
    assert("no_check_vote_account"@.len() == 21);
    assert("maximum_incremental_snapshot_archives_to_retain"@.len() == 47);
    assert("no_check_vote_account"@ != "maximum_incremental_snapshot_archives_to_retain"@);
    assert("no_check_vote_account"@.len() == 21);
    assert("min_snapshot_download_speed"@.len() == 27);
    assert("no_check_vote_account"@ != "min_snapshot_download_speed"@);
    assert("no_check_vote_account"@.len() == 21);
    assert("max_snapshot_download_abort"@.len() == 27);
    assert("no_check_vote_account"@ != "max_snapshot_download_abort"@);
    assert("no_check_vote_account"@.len() == 21);
    assert("replay_forks_threads"@.len() == 20);
    assert("no_check_vote_account"@ != "replay_forks_threads"@);
    assert("no_check_vote_account"@.len() == 21);
    assert("replay_transactions_threads"@.len() == 27);
    assert("no_check_vote_account"@ != "replay_transactions_threads"@);
    assert("no_check_vote_account"@.len() == 21);
    assert("tvu_shred_sigverify_threads"@.len() == 27);
    assert("no_check_vote_account"@ != "tvu_shred_sigverify_threads"@);
    assert("no_check_vote_account"@.len() == 21);
    assert("voting_disabled"@.len() == 15);
    assert("no_check_vote_account"@ != "voting_disabled"@);
    assert("no_check_vote_account"@.len() == 21);
    assert("dev_halt_at_slot"@.len() == 16);
    assert("no_check_vote_account"@ != "dev_halt_at_slot"@);
    assert("no_check_vote_account"@.len() == 21);
    assert("wait_for_supermajority"@.len() == 22);
    assert("no_check_vote_account"@ != "wait_for_supermajority"@);
    assert("no_check_vote_account"@[0] == 'n');
    assert("expected_genesis_hash"@[0] == 'e');
    assert("no_check_vote_account"@ != "expected_genesis_hash"@);
    assert("no_check_vote_account"@.len() == 21);
    assert("expected_bank_hash"@.len() == 18);
    assert("no_check_vote_account"@ != "expected_bank_hash"@);
    assert("no_check_vote_account"@.len() == 21);
    assert("expected_shred_version"@.len() == 22);
    assert("no_check_vote_account"@ != "expected_shred_version"@);
    assert("no_check_vote_account"@.len() == 21);
    assert("no_voting"@.len() == 9);
    assert("no_check_vote_account"@ != "no_voting"@);
}

#[verifier::spinoff_prover]
#[verifier::rlimit(100)]
proof fn lemma_apply_identity(c: ConfigV, v: ValueV)
    ensures
        spec_apply(c, "identity"@, v) == (match as_string(v) {
            Some(s) => Some(ConfigV { identity: Some(s), ..c }),
            None => None,
        }),
{
    reveal(crate::reader::spec_apply);
    reveal_strlit("bind_address");
    reveal_strlit("entrypoint");
    reveal_strlit("gossip_port");
    reveal_strlit("gossip_host");
    reveal_strlit("dynamic_port_range");
    reveal_strlit("allow_private_addr");
    reveal_strlit("ledger_path");
    reveal_strlit("accounts_path");
    reveal_strlit("account_snapshot_paths");
    reveal_strlit("limit_ledger_size");
    reveal_strlit("rpc_port");
    reveal_strlit("rpc_bind_address");
    reveal_strlit("enable_rpc_transaction_history");
    reveal_strlit("enable_extended_tx_metadata_storage");
    reveal_strlit("rpc_threads");
    reveal_strlit("rpc_blocking_threads");
    reveal_strlit("rpc_max_request_body_size");
    reveal_strlit("rpc_pubsub_max_active_subscriptions");
    reveal_strlit("rpc_pubsub_queue_capacity_items");
    reveal_strlit("rpc_pubsub_queue_capacity_bytes");
    reveal_strlit("accounts_shrink_ratio");
    reveal_strlit("accounts_shrink_optimize_total_space");
    reveal_strlit("banking_trace_dir_byte_limit");
    reveal_strlit("tpu_connection_pool_size");
    reveal_strlit("tpu_max_connections_per_peer");
    reveal_strlit("tpu_max_connections_per_ipaddr_per_minute");
    reveal_strlit("tpu_max_staked_connections");
    reveal_strlit("tpu_max_unstaked_connections");
    reveal_strlit("tpu_max_streams_per_ms");
    reveal_strlit("snapshot_version");
    reveal_strlit("snapshot_archive_format");
    reveal_strlit("full_snapshot_archive_interval_slots");
    reveal_strlit("incremental_snapshot_archive_interval_slots");
    reveal_strlit("maximum_full_snapshot_archives_to_retain");
    reveal_strlit("maximum_incremental_snapshot_archives_to_retain");
    reveal_strlit("min_snapshot_download_speed");
    reveal_strlit("max_snapshot_download_abort");
    reveal_strlit("replay_forks_threads");
    reveal_strlit("replay_transactions_threads");
    reveal_strlit("tvu_shred_sigverify_threads");
    reveal_strlit("voting_disabled");
    reveal_strlit("dev_halt_at_slot");
    reveal_strlit("wait_for_supermajority");
    reveal_strlit("expected_genesis_hash");
    reveal_strlit("expected_bank_hash");
    reveal_strlit("expected_shred_version");
    reveal_strlit("no_voting");
    reveal_strlit("no_check_vote_account");
    reveal_strlit("identity");
    assert("identity"@.len() == 8);
    assert("bind_address"@.len() == 12);
    assert("identity"@ != "bind_address"@);
    assert("identity"@.len() == 8);
    assert("entrypoint"@.len() == 10);
    assert("identity"@ != "entrypoint"@);
    assert("identity"@.len() == 8);
    assert("gossip_port"@.len() == 11);
    assert("identity"@ != "gossip_port"@);
    assert("identity"@.len() == 8);
    assert("gossip_host"@.len() == 11);
    assert("identity"@ != "gossip_host"@);
    assert("identity"@.len() == 8);
    assert("dynamic_port_range"@.len() == 18);
    assert("identity"@ != "dynamic_port_range"@);
    assert("identity"@.len() == 8);
    assert("allow_private_addr"@.len() == 18);
    assert("identity"@ != "allow_private_addr"@);
    assert("identity"@.len() == 8);
    assert("ledger_path"@.len() == 11);
    assert("identity"@ != "ledger_path"@);
    assert("identity"@.len() == 8);
    assert("accounts_path"@.len() == 13);
    assert("identity"@ != "accounts_path"@);
    assert("identity"@.len() == 8);
    assert("account_snapshot_paths"@.len() == 22);
    assert("identity"@ != "account_snapshot_paths"@);
    assert("identity"@.len() == 8);
    assert("limit_ledger_size"@.len() == 17);
    assert("identity"@ != "limit_ledger_size"@);
    assert("identity"@[0] == 'i');
    assert("rpc_port"@[0] == 'r');
    assert("identity"@ != "rpc_port"@);
    assert("identity"@.len() == 8);
    assert("rpc_bind_address"@.len() == 16);
    assert("identity"@ != "rpc_bind_address"@);
    assert("identity"@.len() == 8);
    assert("enable_rpc_transaction_history"@.len() == 30);
    assert("identity"@ != "enable_rpc_transaction_history"@);
    assert("identity"@.len() == 8);
    assert("enable_extended_tx_metadata_storage"@.len() == 35);
    assert("identity"@ != "enable_extended_tx_metadata_storage"@);
    assert("identity"@.len() == 8);
    assert("rpc_threads"@.len() == 11);
    assert("identity"@ != "rpc_threads"@);
    assert("identity"@.len() == 8);
    assert("rpc_blocking_threads"@.len() == 20);
    assert("identity"@ != "rpc_blocking_threads"@);
    assert("identity"@.len() == 8);
    assert("rpc_max_request_body_size"@.len() == 25);
    assert("identity"@ != "rpc_max_request_body_size"@);
    assert("identity"@.len() == 8);
    assert("rpc_pubsub_max_active_subscriptions"@.len() == 35);
    assert("identity"@ != "rpc_pubsub_max_active_subscriptions"@);
    assert("identity"@.len() == 8);
    assert("rpc_pubsub_queue_capacity_items"@.len() == 31);
    assert("identity"@ != "rpc_pubsub_queue_capacity_items"@);
    assert("identity"@.len() == 8);
    assert("rpc_pubsub_queue_capacity_bytes"@.len() == 31);
    assert("identity"@ != "rpc_pubsub_queue_capacity_bytes"@);
    assert("identity"@.len() == 8);
    assert("accounts_shrink_ratio"@.len() == 21);
    assert("identity"@ != "accounts_shrink_ratio"@);
    assert("identity"@.len() == 8);
    assert("accounts_shrink_optimize_total_space"@.len() == 36);
    assert("identity"@ != "accounts_shrink_optimize_total_space"@);
    assert("identity"@.len() == 8);
    assert("banking_trace_dir_byte_limit"@.len() == 28);
    assert("identity"@ != "banking_trace_dir_byte_limit"@);
    assert("identity"@.len() == 8);
    assert("tpu_connection_pool_size"@.len() == 24);
    assert("identity"@ != "tpu_connection_pool_size"@);
    assert("identity"@.len() == 8);
    assert("tpu_max_connections_per_peer"@.len() == 28);
    assert("identity"@ != "tpu_max_connections_per_peer"@);
    assert("identity"@.len() == 8);
    assert("tpu_max_connections_per_ipaddr_per_minute"@.len() == 41);
    assert("identity"@ != "tpu_max_connections_per_ipaddr_per_minute"@);
    assert("identity"@.len() == 8);
    assert("tpu_max_staked_connections"@.len() == 26);
    assert("identity"@ != "tpu_max_staked_connections"@);
    assert("identity"@.len() == 8);
    assert("tpu_max_unstaked_connections"@.len() == 28);
    assert("identity"@ != "tpu_max_unstaked_connections"@);
    assert("identity"@.len() == 8);
    assert("tpu_max_streams_per_ms"@.len() == 22);
    assert("identity"@ != "tpu_max_streams_per_ms"@);
    assert("identity"@.len() == 8);
    assert("snapshot_version"@.len() == 16);
    assert("identity"@ != "snapshot_version"@);
    assert("identity"@.len() == 8);
    assert("snapshot_archive_format"@.len() == 23);
    assert("identity"@ != "snapshot_archive_format"@);
    assert("identity"@.len() == 8);
    assert("full_snapshot_archive_interval_slots"@.len() == 36);
    assert("identity"@ != "full_snapshot_archive_interval_slots"@);
    assert("identity"@.len() == 8);
    assert("incremental_snapshot_archive_interval_slots"@.len() == 43);
    assert("identity"@ != "incremental_snapshot_archive_interval_slots"@);
    assert("identity"@.len() == 8);
    assert("maximum_full_snapshot_archives_to_retain"@.len() == 40);
    assert("identity"@ != "maximum_full_snapshot_archives_to_retain"@);
    assert("identity"@.len() == 8);
    assert("maximum_incremental_snapshot_archives_to_retain"@.len() == 47);
    assert("identity"@ != "maximum_incremental_snapshot_archives_to_retain"@);
    assert("identity"@.len() == 8);
    assert("min_snapshot_download_speed"@.len() == 27);
    assert("identity"@ != "min_snapshot_download_speed"@);
    assert("identity"@.len() == 8);
    assert("max_snapshot_download_abort"@.len() == 27);
    assert("identity"@ != "max_snapshot_download_abort"@);
    assert("identity"@.len() == 8);
    assert("replay_forks_threads"@.len() == 20);
    assert("identity"@ != "replay_forks_threads"@);
    assert("identity"@.len() == 8);
    assert("replay_transactions_threads"@.len() == 27);
    assert("identity"@ != "replay_transactions_threads"@);
    assert("identity"@.len() == 8);
    assert("tvu_shred_sigverify_threads"@.len() == 27);
    assert("identity"@ != "tvu_shred_sigverify_threads"@);
    assert("identity"@.len() == 8);
    assert("voting_disabled"@.len() == 15);
    assert("identity"@ != "voting_disabled"@);
    assert("identity"@.len() == 8);
    assert("dev_halt_at_slot"@.len() == 16);
    assert("identity"@ != "dev_halt_at_slot"@);
    assert("identity"@.len() == 8);
    assert("wait_for_supermajority"@.len() == 22);
    assert("identity"@ != "wait_for_supermajority"@);
    assert("identity"@.len() == 8);
    assert("expected_genesis_hash"@.len() == 21);
    assert("identity"@ != "expected_genesis_hash"@);
    assert("identity"@.len() == 8);
    assert("expected_bank_hash"@.len() == 18);
    assert("identity"@ != "expected_bank_hash"@);
    assert("identity"@.len() == 8);
    assert("expected_shred_version"@.len() == 22);
    assert("identity"@ != "expected_shred_version"@);
    assert("identity"@.len() == 8);
    assert("no_voting"@.len() == 9);
    assert("identity"@ != "no_voting"@);
    assert("identity"@.len() == 8);
    assert("no_check_vote_account"@.len() == 21);
    assert("identity"@ != "no_check_vote_account"@);
}

#[verifier::spinoff_prover]
#[verifier::rlimit(100)]
proof fn lemma_apply_vote_account(c: ConfigV, v: ValueV)
    ensures
        spec_apply(c, "vote_account"@, v) == (match as_string(v) {
            Some(s) => Some(ConfigV { vote_account: Some(s), ..c }),
            None => None,
        }),
{
    reveal(crate::reader::spec_apply);
    reveal_strlit("bind_address");
    reveal_strlit("entrypoint");
    reveal_strlit("gossip_port");
    reveal_strlit("gossip_host");
    reveal_strlit("dynamic_port_range");
    reveal_strlit("allow_private_addr");
    reveal_strlit("ledger_path");
    reveal_strlit("accounts_path");
    reveal_strlit("account_snapshot_paths");
    reveal_strlit("limit_ledger_size");
    reveal_strlit("rpc_port");
    reveal_strlit("rpc_bind_address");
    reveal_strlit("enable_rpc_transaction_history");
    reveal_strlit("enable_extended_tx_metadata_storage");
    reveal_strlit("rpc_threads");
    reveal_strlit("rpc_blocking_threads");
    reveal_strlit("rpc_max_request_body_size");
    reveal_strlit("rpc_pubsub_max_active_subscriptions");
    reveal_strlit("rpc_pubsub_queue_capacity_items");
    reveal_strlit("rpc_pubsub_queue_capacity_bytes");
    reveal_strlit("accounts_shrink_ratio");
    reveal_strlit("accounts_shrink_optimize_total_space");
    reveal_strlit("banking_trace_dir_byte_limit");
    reveal_strlit("tpu_connection_pool_size");
    reveal_strlit("tpu_max_connections_per_peer");
    reveal_strlit("tpu_max_connections_per_ipaddr_per_minute");
    reveal_strlit("tpu_max_staked_connections");
    reveal_strlit("tpu_max_unstaked_connections");
    reveal_strlit("tpu_max_streams_per_ms");
    reveal_strlit("snapshot_version");
    reveal_strlit("snapshot_archive_format");
    reveal_strlit("full_snapshot_archive_interval_slots");
    reveal_strlit("incremental_snapshot_archive_interval_slots");
    reveal_strlit("maximum_full_snapshot_archives_to_retain");
    reveal_strlit("maximum_incremental_snapshot_archives_to_retain");
    reveal_strlit("min_snapshot_download_speed");
    reveal_strlit("max_snapshot_download_abort");
    reveal_strlit("replay_forks_threads");
    reveal_strlit("replay_transactions_threads");
    reveal_strlit("tvu_shred_sigverify_threads");
    reveal_strlit("voting_disabled");
    reveal_strlit("dev_halt_at_slot");
    reveal_strlit("wait_for_supermajority");
    reveal_strlit("expected_genesis_hash");
    reveal_strlit("expected_bank_hash");
    reveal_strlit("expected_shred_version");
    reveal_strlit("no_voting");
    reveal_strlit("no_check_vote_account");
    reveal_strlit("identity");
    reveal_strlit("vote_account");
    assert("vote_account"@[0] == 'v');
    assert("bind_address"@[0] == 'b');
    assert("vote_account"@ != "bind_address"@);
    assert("vote_account"@.len() == 12);
    assert("entrypoint"@.len() == 10);
    assert("vote_account"@ != "entrypoint"@);
    assert("vote_account"@.len() == 12);
    assert("gossip_port"@.len() == 11);
    assert("vote_account"@ != "gossip_port"@);
    assert("vote_account"@.len() == 12);
    assert("gossip_host"@.len() == 11);
    assert("vote_account"@ != "gossip_host"@);
    assert("vote_account"@.len() == 12);
    assert("dynamic_port_range"@.len() == 18);
    assert("vote_account"@ != "dynamic_port_range"@);
    assert("vote_account"@.len() == 12);
    assert("allow_private_addr"@.len() == 18);
    assert("vote_account"@ != "allow_private_addr"@);
    assert("vote_account"@.len() == 12);
    assert("ledger_path"@.len() == 11);
    assert("vote_account"@ != "ledger_path"@);
    assert("vote_account"@.len() == 12);
    assert("accounts_path"@.len() == 13);
    assert("vote_account"@ != "accounts_path"@);
    assert("vote_account"@.len() == 12);
    assert("account_snapshot_paths"@.len() == 22);
    assert("vote_account"@ != "account_snapshot_paths"@);
    assert("vote_account"@.len() == 12);
    assert("limit_ledger_size"@.len() == 17);
    assert("vote_account"@ != "limit_ledger_size"@);
    assert("vote_account"@.len() == 12);
    assert("rpc_port"@.len() == 8);
    assert("vote_account"@ != "rpc_port"@);
    assert("vote_account"@.len() == 12);
    assert("rpc_bind_address"@.len() == 16);
    assert("vote_account"@ != "rpc_bind_address"@);
    assert("vote_account"@.len() == 12);
    assert("enable_rpc_transaction_history"@.len() == 30);
    assert("vote_account"@ != "enable_rpc_transaction_history"@);
    assert("vote_account"@.len() == 12);
    assert("enable_extended_tx_metadata_storage"@.len() == 35);
    assert("vote_account"@ != "enable_extended_tx_metadata_storage"@);
    assert("vote_account"@.len() == 12);
    assert("rpc_threads"@.len() == 11);
    assert("vote_account"@ != "rpc_threads"@);
    assert("vote_account"@.len() == 12);
    assert("rpc_blocking_threads"@.len() == 20);
    assert("vote_account"@ != "rpc_blocking_threads"@);
    assert("vote_account"@.len() == 12);
    assert("rpc_max_request_body_size"@.len() == 25);
    assert("vote_account"@ != "rpc_max_request_body_size"@);
    assert("vote_account"@.len() == 12);
    assert("rpc_pubsub_max_active_subscriptions"@.len() == 35);
    assert("vote_account"@ != "rpc_pubsub_max_active_subscriptions"@);
    assert("vote_account"@.len() == 12);
    assert("rpc_pubsub_queue_capacity_items"@.len() == 31);
    assert("vote_account"@ != "rpc_pubsub_queue_capacity_items"@);
    assert("vote_account"@.len() == 12);
    assert("rpc_pubsub_queue_capacity_bytes"@.len() == 31);
    assert("vote_account"@ != "rpc_pubsub_queue_capacity_bytes"@);
    assert("vote_account"@.len() == 12);
    assert("accounts_shrink_ratio"@.len() == 21);
    assert("vote_account"@ != "accounts_shrink_ratio"@);
    assert("vote_account"@.len() == 12);
    assert("accounts_shrink_optimize_total_space"@.len() == 36);
    assert("vote_account"@ != "accounts_shrink_optimize_total_space"@);
    assert("vote_account"@.len() == 12);
    assert("banking_trace_dir_byte_limit"@.len() == 28);
    assert("vote_account"@ != "banking_trace_dir_byte_limit"@);
    assert("vote_account"@.len() == 12);
    assert("tpu_connection_pool_size"@.len() == 24);
    assert("vote_account"@ != "tpu_connection_pool_size"@);
    assert("vote_account"@.len() == 12);
    assert("tpu_max_connections_per_peer"@.len() == 28);
    assert("vote_account"@ != "tpu_max_connections_per_peer"@);
    assert("vote_account"@.len() == 12);
    assert("tpu_max_connections_per_ipaddr_per_minute"@.len() == 41);
    assert("vote_account"@ != "tpu_max_connections_per_ipaddr_per_minute"@);
    assert("vote_account"@.len() == 12);
    assert("tpu_max_staked_connections"@.len() == 26);
    assert("vote_account"@ != "tpu_max_staked_connections"@);
    assert("vote_account"@.len() == 12);
    assert("tpu_max_unstaked_connections"@.len() == 28);
    assert("vote_account"@ != "tpu_max_unstaked_connections"@);
    assert("vote_account"@.len() == 12);
    assert("tpu_max_streams_per_ms"@.len() == 22);
    assert("vote_account"@ != "tpu_max_streams_per_ms"@);
    assert("vote_account"@.len() == 12);
    assert("snapshot_version"@.len() == 16);
    assert("vote_account"@ != "snapshot_version"@);
    assert("vote_account"@.len() == 12);
    assert("snapshot_archive_format"@.len() == 23);
    assert("vote_account"@ != "snapshot_archive_format"@);
    assert("vote_account"@.len() == 12);
    assert("full_snapshot_archive_interval_slots"@.len() == 36);
    assert("vote_account"@ != "full_snapshot_archive_interval_slots"@);
    assert("vote_account"@.len() == 12);
    assert("incremental_snapshot_archive_interval_slots"@.len() == 43);
    assert("vote_account"@ != "incremental_snapshot_archive_interval_slots"@);
    assert("vote_account"@.len() == 12);
    assert("maximum_full_snapshot_archives_to_retain"@.len() == 40);
    assert("vote_account"@ != "maximum_full_snapshot_archives_to_retain"@);
    assert("vote_account"@.len() == 12);
    assert("maximum_incremental_snapshot_archives_to_retain"@.len() == 47);
    assert("vote_account"@ != "maximum_incremental_snapshot_archives_to_retain"@);
    assert("vote_account"@.len() == 12);
    assert("min_snapshot_download_speed"@.len() == 27);
    assert("vote_account"@ != "min_snapshot_download_speed"@);
    assert("vote_account"@.len() == 12);
    assert("max_snapshot_download_abort"@.len() == 27);
    assert("vote_account"@ != "max_snapshot_download_abort"@);
    assert("vote_account"@.len() == 12);
    assert("replay_forks_threads"@.len() == 20);
    assert("vote_account"@ != "replay_forks_threads"@);
    assert("vote_account"@.len() == 12);
    assert("replay_transactions_threads"@.len() == 27);
    assert("vote_account"@ != "replay_transactions_threads"@);
    assert("vote_account"@.len() == 12);
    assert("tvu_shred_sigverify_threads"@.len() == 27);
    assert("vote_account"@ != "tvu_shred_sigverify_threads"@);
    assert("vote_account"@.len() == 12);
    assert("voting_disabled"@.len() == 15);
    assert("vote_account"@ != "voting_disabled"@);
    assert("vote_account"@.len() == 12);
    assert("dev_halt_at_slot"@.len() == 16);
    assert("vote_account"@ != "dev_halt_at_slot"@);
    assert("vote_account"@.len() == 12);
    assert("wait_for_supermajority"@.len() == 22);
    assert("vote_account"@ != "wait_for_supermajority"@);
    assert("vote_account"@.len() == 12);
    assert("expected_genesis_hash"@.len() == 21);
    assert("vote_account"@ != "expected_genesis_hash"@);
    assert("vote_account"@.len() == 12);
    assert("expected_bank_hash"@.len() == 18);
    assert("vote_account"@ != "expected_bank_hash"@);
    assert("vote_account"@.len() == 12);
    assert("expected_shred_version"@.len() == 22);
    assert("vote_account"@ != "expected_shred_version"@);
    assert("vote_account"@.len() == 12);
    assert("no_voting"@.len() == 9);
    assert("vote_account"@ != "no_voting"@);
    assert("vote_account"@.len() == 12);
    assert("no_check_vote_account"@.len() == 21);
    assert("vote_account"@ != "no_check_vote_account"@);
    assert("vote_account"@.len() == 12);
    assert("identity"@.len() == 8);
    assert("vote_account"@ != "identity"@);
}

#[verifier::spinoff_prover]
#[verifier::rlimit(100)]
proof fn lemma_apply_authorized_voter_keypairs(c: ConfigV, v: ValueV)
    ensures
        spec_apply(c, "authorized_voter_keypairs"@, v) == (match as_list(v) {
            Some(l) => Some(ConfigV { authorized_voter_keypairs: Some(l), ..c }),
            None => None,
        }),
{
    reveal(crate::reader::spec_apply);
    reveal_strlit("bind_address");
    reveal_strlit("entrypoint");
    reveal_strlit("gossip_port");
    reveal_strlit("gossip_host");
    reveal_strlit("dynamic_port_range");
    reveal_strlit("allow_private_addr");
    reveal_strlit("ledger_path");
    reveal_strlit("accounts_path");
    reveal_strlit("account_snapshot_paths");
    reveal_strlit("limit_ledger_size");
    reveal_strlit("rpc_port");
    reveal_strlit("rpc_bind_address");
    reveal_strlit("enable_rpc_transaction_history");
    reveal_strlit("enable_extended_tx_metadata_storage");
    reveal_strlit("rpc_threads");
    reveal_strlit("rpc_blocking_threads");
    reveal_strlit("rpc_max_request_body_size");
    reveal_strlit("rpc_pubsub_max_active_subscriptions");
    reveal_strlit("rpc_pubsub_queue_capacity_items");
    reveal_strlit("rpc_pubsub_queue_capacity_bytes");
    reveal_strlit("accounts_shrink_ratio");
    reveal_strlit("accounts_shrink_optimize_total_space");
    reveal_strlit("banking_trace_dir_byte_limit");
    reveal_strlit("tpu_connection_pool_size");
    reveal_strlit("tpu_max_connections_per_peer");
    reveal_strlit("tpu_max_connections_per_ipaddr_per_minute");
    reveal_strlit("tpu_max_staked_connections");
    reveal_strlit("tpu_max_unstaked_connections");
    reveal_strlit("tpu_max_streams_per_ms");
    reveal_strlit("snapshot_version");
    reveal_strlit("snapshot_archive_format");
    reveal_strlit("full_snapshot_archive_interval_slots");
    reveal_strlit("incremental_snapshot_archive_interval_slots");
    reveal_strlit("maximum_full_snapshot_archives_to_retain");
    reveal_strlit("maximum_incremental_snapshot_archives_to_retain");
    reveal_strlit("min_snapshot_download_speed");
    reveal_strlit("max_snapshot_download_abort");
    reveal_strlit("replay_forks_threads");
    reveal_strlit("replay_transactions_threads");
    reveal_strlit("tvu_shred_sigverify_threads");
    reveal_strlit("voting_disabled");
    reveal_strlit("dev_halt_at_slot");
    reveal_strlit("wait_for_supermajority");
    reveal_strlit("expected_genesis_hash");
    reveal_strlit("expected_bank_hash");
    reveal_strlit("expected_shred_version");
    reveal_strlit("no_voting");
    reveal_strlit("no_check_vote_account");
    reveal_strlit("identity");
    reveal_strlit("vote_account");
    reveal_strlit("authorized_voter_keypairs");
    assert("authorized_voter_keypairs"@.len() == 25);
    assert("bind_address"@.len() == 12);
    assert("authorized_voter_keypairs"@ != "bind_address"@);
    assert("authorized_voter_keypairs"@.len() == 25);
    assert("entrypoint"@.len() == 10);
    assert("authorized_voter_keypairs"@ != "entrypoint"@);
    assert("authorized_voter_keypairs"@.len() == 25);
    assert("gossip_port"@.len() == 11);
    assert("authorized_voter_keypairs"@ != "gossip_port"@);
    assert("authorized_voter_keypairs"@.len() == 25);
    assert("gossip_host"@.len() == 11);
    assert("authorized_voter_keypairs"@ != "gossip_host"@);
    assert("authorized_voter_keypairs"@.len() == 25);
    assert("dynamic_port_range"@.len() == 18);
    assert("authorized_voter_keypairs"@ != "dynamic_port_range"@);
    assert("authorized_voter_keypairs"@.len() == 25);
    assert("allow_private_addr"@.len() == 18);
    assert("authorized_voter_keypairs"@ != "allow_private_addr"@);
    assert("authorized_voter_keypairs"@.len() == 25);
    assert("ledger_path"@.len() == 11);
    assert("authorized_voter_keypairs"@ != "ledger_path"@);
    assert("authorized_voter_keypairs"@.len() == 25);
    assert("accounts_path"@.len() == 13);
    assert("authorized_voter_keypairs"@ != "accounts_path"@);
    assert("authorized_voter_keypairs"@.len() == 25);
    assert("account_snapshot_paths"@.len() == 22);
    assert("authorized_voter_keypairs"@ != "account_snapshot_paths"@);
    assert("authorized_voter_keypairs"@.len() == 25);
    assert("limit_ledger_size"@.len() == 17);
    assert("authorized_voter_keypairs"@ != "limit_ledger_size"@);
    assert("authorized_voter_keypairs"@.len() == 25);
    assert("rpc_port"@.len() == 8);
    assert("authorized_voter_keypairs"@ != "rpc_port"@);
    assert("authorized_voter_keypairs"@.len() == 25);
    assert("rpc_bind_address"@.len() == 16);
    assert("authorized_voter_keypairs"@ != "rpc_bind_address"@);
    assert("authorized_voter_keypairs"@.len() == 25);
    assert("enable_rpc_transaction_history"@.len() == 30);
    assert("authorized_voter_keypairs"@ != "enable_rpc_transaction_history"@);
    assert("authorized_voter_keypairs"@.len() == 25);
    assert("enable_extended_tx_metadata_storage"@.len() == 35);
    assert("authorized_voter_keypairs"@ != "enable_extended_tx_metadata_storage"@);
    assert("authorized_voter_keypairs"@.len() == 25);
    assert("rpc_threads"@.len() == 11);
    assert("authorized_voter_keypairs"@ != "rpc_threads"@);
    assert("authorized_voter_keypairs"@.len() == 25);
    assert("rpc_blocking_threads"@.len() == 20);
    assert("authorized_voter_keypairs"@ != "rpc_blocking_threads"@);
    assert("authorized_voter_keypairs"@[0] == 'a');
    assert("rpc_max_request_body_size"@[0] == 'r');
    assert("authorized_voter_keypairs"@ != "rpc_max_request_body_size"@);
    assert("authorized_voter_keypairs"@.len() == 25);
    assert("rpc_pubsub_max_active_subscriptions"@.len() == 35);
    assert("authorized_voter_keypairs"@ != "rpc_pubsub_max_active_subscriptions"@);
    assert("authorized_voter_keypairs"@.len() == 25);
    assert("rpc_pubsub_queue_capacity_items"@.len() == 31);
    assert("authorized_voter_keypairs"@ != "rpc_pubsub_queue_capacity_items"@);
    assert("authorized_voter_keypairs"@.len() == 25);
    assert("rpc_pubsub_queue_capacity_bytes"@.len() == 31);
    assert("authorized_voter_keypairs"@ != "rpc_pubsub_queue_capacity_bytes"@);
    assert("authorized_voter_keypairs"@.len() == 25);
    assert("accounts_shrink_ratio"@.len() == 21);
    assert("authorized_voter_keypairs"@ != "accounts_shrink_ratio"@);
    assert("authorized_voter_keypairs"@.len() == 25);
    assert("accounts_shrink_optimize_total_space"@.len() == 36);
    assert("authorized_voter_keypairs"@ != "accounts_shrink_optimize_total_space"@);
    assert("authorized_voter_keypairs"@.len() == 25);
    assert("banking_trace_dir_byte_limit"@.len() == 28);
    assert("authorized_voter_keypairs"@ != "banking_trace_dir_byte_limit"@);
    assert("authorized_voter_keypairs"@.len() == 25);
    assert("tpu_connection_pool_size"@.len() == 24);
    assert("authorized_voter_keypairs"@ != "tpu_connection_pool_size"@);
    assert("authorized_voter_keypairs"@.len() == 25);
    assert("tpu_max_connections_per_peer"@.len() == 28);
    assert("authorized_voter_keypairs"@ != "tpu_max_connections_per_peer"@);
    assert("authorized_voter_keypairs"@.len() == 25);
    assert("tpu_max_connections_per_ipaddr_per_minute"@.len() == 41);
    assert("authorized_voter_keypairs"@ != "tpu_max_connections_per_ipaddr_per_minute"@);
    assert("authorized_voter_keypairs"@.len() == 25);
    assert("tpu_max_staked_connections"@.len() == 26);
    assert("authorized_voter_keypairs"@ != "tpu_max_staked_connections"@);
    assert("authorized_voter_keypairs"@.len() == 25);
    assert("tpu_max_unstaked_connections"@.len() == 28);
    assert("authorized_voter_keypairs"@ != "tpu_max_unstaked_connections"@);
    assert("authorized_voter_keypairs"@.len() == 25);
    assert("tpu_max_streams_per_ms"@.len() == 22);
    assert("authorized_voter_keypairs"@ != "tpu_max_streams_per_ms"@);
    assert("authorized_voter_keypairs"@.len() == 25);
    assert("snapshot_version"@.len() == 16);
    assert("authorized_voter_keypairs"@ != "snapshot_version"@);
    assert("authorized_voter_keypairs"@.len() == 25);
    assert("snapshot_archive_format"@.len() == 23);
    assert("authorized_voter_keypairs"@ != "snapshot_archive_format"@);
    assert("authorized_voter_keypairs"@.len() == 25);
    assert("full_snapshot_archive_interval_slots"@.len() == 36);
    assert("authorized_voter_keypairs"@ != "full_snapshot_archive_interval_slots"@);
    assert("authorized_voter_keypairs"@.len() == 25);
    assert("incremental_snapshot_archive_interval_slots"@.len() == 43);
    assert("authorized_voter_keypairs"@ != "incremental_snapshot_archive_interval_slots"@);
    assert("authorized_voter_keypairs"@.len() == 25);
    assert("maximum_full_snapshot_archives_to_retain"@.len() == 40);
    assert("authorized_voter_keypairs"@ != "maximum_full_snapshot_archives_to_retain"@);
    assert("authorized_voter_keypairs"@.len() == 25);
    assert("maximum_incremental_snapshot_archives_to_retain"@.len() == 47);
    assert("authorized_voter_keypairs"@ != "maximum_incremental_snapshot_archives_to_retain"@);
    assert("authorized_voter_keypairs"@.len() == 25);
    assert("min_snapshot_download_speed"@.len() == 27);
    assert("authorized_voter_keypairs"@ != "min_snapshot_download_speed"@);
    assert("authorized_voter_keypairs"@.len() == 25);
    assert("max_snapshot_download_abort"@.len() == 27);
    assert("authorized_voter_keypairs"@ != "max_snapshot_download_abort"@);
    assert("authorized_voter_keypairs"@.len() == 25);
    assert("replay_forks_threads"@.len() == 20);
    assert("authorized_voter_keypairs"@ != "replay_forks_threads"@);
    assert("authorized_voter_keypairs"@.len() == 25);
    assert("replay_transactions_threads"@.len() == 27);
    assert("authorized_voter_keypairs"@ != "replay_transactions_threads"@);
    assert("authorized_voter_keypairs"@.len() == 25);
    assert("tvu_shred_sigverify_threads"@.len() == 27);
    assert("authorized_voter_keypairs"@ != "tvu_shred_sigverify_threads"@);
    assert("authorized_voter_keypairs"@.len() == 25);
    assert("voting_disabled"@.len() == 15);
    assert("authorized_voter_keypairs"@ != "voting_disabled"@);
    assert("authorized_voter_keypairs"@.len() == 25);
    assert("dev_halt_at_slot"@.len() == 16);
    assert("authorized_voter_keypairs"@ != "dev_halt_at_slot"@);
    assert("authorized_voter_keypairs"@.len() == 25);
    assert("wait_for_supermajority"@.len() == 22);
    assert("authorized_voter_keypairs"@ != "wait_for_supermajority"@);
    assert("authorized_voter_keypairs"@.len() == 25);
    assert("expected_genesis_hash"@.len() == 21);
    assert("authorized_voter_keypairs"@ != "expected_genesis_hash"@);
    assert("authorized_voter_keypairs"@.len() == 25);
    assert("expected_bank_hash"@.len() == 18);
    assert("authorized_voter_keypairs"@ != "expected_bank_hash"@);
    assert("authorized_voter_keypairs"@.len() == 25);
    assert("expected_shred_version"@.len() == 22);
    assert("authorized_voter_keypairs"@ != "expected_shred_version"@);
    assert("authorized_voter_keypairs"@.len() == 25);
    assert("no_voting"@.len() == 9);
    assert("authorized_voter_keypairs"@ != "no_voting"@);
    assert("authorized_voter_keypairs"@.len() == 25);
    assert("no_check_vote_account"@.len() == 21);
    assert("authorized_voter_keypairs"@ != "no_check_vote_account"@);
    assert("authorized_voter_keypairs"@.len() == 25);
    assert("identity"@.len() == 8);
    assert("authorized_voter_keypairs"@ != "identity"@);
    assert("authorized_voter_keypairs"@.len() == 25);
    assert("vote_account"@.len() == 12);
    assert("authorized_voter_keypairs"@ != "vote_account"@);
}

#[verifier::spinoff_prover]
#[verifier::rlimit(100)]
proof fn lemma_apply_known_validators(c: ConfigV, v: ValueV)
    ensures
        spec_apply(c, "known_validators"@, v) == (match as_list(v) {
            Some(l) => Some(ConfigV { known_validators: Some(l), ..c }),
            None => None,
        }),
{
    reveal(crate::reader::spec_apply);
    reveal_strlit("bind_address");
    reveal_strlit("entrypoint");
    reveal_strlit("gossip_port");
    reveal_strlit("gossip_host");
    reveal_strlit("dynamic_port_range");
    reveal_strlit("allow_private_addr");
    reveal_strlit("ledger_path");
    reveal_strlit("accounts_path");
    reveal_strlit("account_snapshot_paths");
    reveal_strlit("limit_ledger_size");
    reveal_strlit("rpc_port");
    reveal_strlit("rpc_bind_address");
    reveal_strlit("enable_rpc_transaction_history");
    reveal_strlit("enable_extended_tx_metadata_storage");
    reveal_strlit("rpc_threads");
    reveal_strlit("rpc_blocking_threads");
    reveal_strlit("rpc_max_request_body_size");
    reveal_strlit("rpc_pubsub_max_active_subscriptions");
    reveal_strlit("rpc_pubsub_queue_capacity_items");
    reveal_strlit("rpc_pubsub_queue_capacity_bytes");
    reveal_strlit("accounts_shrink_ratio");
    reveal_strlit("accounts_shrink_optimize_total_space");
    reveal_strlit("banking_trace_dir_byte_limit");
    reveal_strlit("tpu_connection_pool_size");
    reveal_strlit("tpu_max_connections_per_peer");
    reveal_strlit("tpu_max_connections_per_ipaddr_per_minute");
    reveal_strlit("tpu_max_staked_connections");
    reveal_strlit("tpu_max_unstaked_connections");
    reveal_strlit("tpu_max_streams_per_ms");
    reveal_strlit("snapshot_version");
    reveal_strlit("snapshot_archive_format");
    reveal_strlit("full_snapshot_archive_interval_slots");
    reveal_strlit("incremental_snapshot_archive_interval_slots");
    reveal_strlit("maximum_full_snapshot_archives_to_retain");
    reveal_strlit("maximum_incremental_snapshot_archives_to_retain");
    reveal_strlit("min_snapshot_download_speed");
    reveal_strlit("max_snapshot_download_abort");
    reveal_strlit("replay_forks_threads");
    reveal_strlit("replay_transactions_threads");
    reveal_strlit("tvu_shred_sigverify_threads");
    reveal_strlit("voting_disabled");
    reveal_strlit("dev_halt_at_slot");
    reveal_strlit("wait_for_supermajority");
    reveal_strlit("expected_genesis_hash");
    reveal_strlit("expected_bank_hash");
    reveal_strlit("expected_shred_version");
    reveal_strlit("no_voting");
    reveal_strlit("no_check_vote_account");
    reveal_strlit("identity");
    reveal_strlit("vote_account");
    reveal_strlit("authorized_voter_keypairs");
    reveal_strlit("known_validators");
    assert("known_validators"@.len() == 16);
    assert("bind_address"@.len() == 12);
    assert("known_validators"@ != "bind_address"@);
    assert("known_validators"@.len() == 16);
    assert("entrypoint"@.len() == 10);
    assert("known_validators"@ != "entrypoint"@);
    assert("known_validators"@.len() == 16);
    assert("gossip_port"@.len() == 11);
    assert("known_validators"@ != "gossip_port"@);
    assert("known_validators"@.len() == 16);
    assert("gossip_host"@.len() == 11);
    assert("known_validators"@ != "gossip_host"@);
    assert("known_validators"@.len() == 16);
    assert("dynamic_port_range"@.len() == 18);
    assert("known_validators"@ != "dynamic_port_range"@);
    assert("known_validators"@.len() == 16);
    assert("allow_private_addr"@.len() == 18);
    assert("known_validators"@ != "allow_private_addr"@);
    assert("known_validators"@.len() == 16);
    assert("ledger_path"@.len() == 11);
    assert("known_validators"@ != "ledger_path"@);
    assert("known_validators"@.len() == 16);
    assert("accounts_path"@.len() == 13);
    assert("known_validators"@ != "accounts_path"@);
    assert("known_validators"@.len() == 16);
    assert("account_snapshot_paths"@.len() == 22);
    assert("known_validators"@ != "account_snapshot_paths"@);
    assert("known_validators"@.len() == 16);
    assert("limit_ledger_size"@.len() == 17);
    assert("known_validators"@ != "limit_ledger_size"@);
    assert("known_validators"@.len() == 16);
    assert("rpc_port"@.len() == 8);
    assert("known_validators"@ != "rpc_port"@);
    assert("known_validators"@[0] == 'k');
    assert("rpc_bind_address"@[0] == 'r');
    assert("known_validators"@ != "rpc_bind_address"@);
    assert("known_validators"@.len() == 16);
    assert("enable_rpc_transaction_history"@.len() == 30);
    assert("known_validators"@ != "enable_rpc_transaction_history"@);
    assert("known_validators"@.len() == 16);
    assert("enable_extended_tx_metadata_storage"@.len() == 35);
    assert("known_validators"@ != "enable_extended_tx_metadata_storage"@);
    assert("known_validators"@.len() == 16);
    assert("rpc_threads"@.len() == 11);
    assert("known_validators"@ != "rpc_threads"@);
    assert("known_validators"@.len() == 16);
    assert("rpc_blocking_threads"@.len() == 20);
    assert("known_validators"@ != "rpc_blocking_threads"@);
    assert("known_validators"@.len() == 16);
    assert("rpc_max_request_body_size"@.len() == 25);
    assert("known_validators"@ != "rpc_max_request_body_size"@);
    assert("known_validators"@.len() == 16);
    assert("rpc_pubsub_max_active_subscriptions"@.len() == 35);
    assert("known_validators"@ != "rpc_pubsub_max_active_subscriptions"@);
    assert("known_validators"@.len() == 16);
    assert("rpc_pubsub_queue_capacity_items"@.len() == 31);
    assert("known_validators"@ != "rpc_pubsub_queue_capacity_items"@);
    assert("known_validators"@.len() == 16);
    assert("rpc_pubsub_queue_capacity_bytes"@.len() == 31);
    assert("known_validators"@ != "rpc_pubsub_queue_capacity_bytes"@);
    assert("known_validators"@.len() == 16);
    assert("accounts_shrink_ratio"@.len() == 21);
    assert("known_validators"@ != "accounts_shrink_ratio"@);
    assert("known_validators"@.len() == 16);
    assert("accounts_shrink_optimize_total_space"@.len() == 36);
    assert("known_validators"@ != "accounts_shrink_optimize_total_space"@);
    assert("known_validators"@.len() == 16);
    assert("banking_trace_dir_byte_limit"@.len() == 28);
    assert("known_validators"@ != "banking_trace_dir_byte_limit"@);
    assert("known_validators"@.len() == 16);
    assert("tpu_connection_pool_size"@.len() == 24);
    assert("known_validators"@ != "tpu_connection_pool_size"@);
    assert("known_validators"@.len() == 16);
    assert("tpu_max_connections_per_peer"@.len() == 28);
    assert("known_validators"@ != "tpu_max_connections_per_peer"@);
    assert("known_validators"@.len() == 16);
    assert("tpu_max_connections_per_ipaddr_per_minute"@.len() == 41);
    assert("known_validators"@ != "tpu_max_connections_per_ipaddr_per_minute"@);
    assert("known_validators"@.len() == 16);
    assert("tpu_max_staked_connections"@.len() == 26);
    assert("known_validators"@ != "tpu_max_staked_connections"@);
    assert("known_validators"@.len() == 16);
    assert("tpu_max_unstaked_connections"@.len() == 28);
    assert("known_validators"@ != "tpu_max_unstaked_connections"@);
    assert("known_validators"@.len() == 16);
    assert("tpu_max_streams_per_ms"@.len() == 22);
    assert("known_validators"@ != "tpu_max_streams_per_ms"@);
    assert("known_validators"@[0] == 'k');
    assert("snapshot_version"@[0] == 's');
    assert("known_validators"@ != "snapshot_version"@);
    assert("known_validators"@.len() == 16);
    assert("snapshot_archive_format"@.len() == 23);
    assert("known_validators"@ != "snapshot_archive_format"@);
    assert("known_validators"@.len() == 16);
    assert("full_snapshot_archive_interval_slots"@.len() == 36);
    assert("known_validators"@ != "full_snapshot_archive_interval_slots"@);
    assert("known_validators"@.len() == 16);
    assert("incremental_snapshot_archive_interval_slots"@.len() == 43);
    assert("known_validators"@ != "incremental_snapshot_archive_interval_slots"@);
    assert("known_validators"@.len() == 16);
    assert("maximum_full_snapshot_archives_to_retain"@.len() == 40);
    assert("known_validators"@ != "maximum_full_snapshot_archives_to_retain"@);
    assert("known_validators"@.len() == 16);
    assert("maximum_incremental_snapshot_archives_to_retain"@.len() == 47);
    assert("known_validators"@ != "maximum_incremental_snapshot_archives_to_retain"@);
    assert("known_validators"@.len() == 16);
    assert("min_snapshot_download_speed"@.len() == 27);
    assert("known_validators"@ != "min_snapshot_download_speed"@);
    assert("known_validators"@.len() == 16);
    assert("max_snapshot_download_abort"@.len() == 27);
    assert("known_validators"@ != "max_snapshot_download_abort"@);
    assert("known_validators"@.len() == 16);
    assert("replay_forks_threads"@.len() == 20);
    assert("known_validators"@ != "replay_forks_threads"@);
    assert("known_validators"@.len() == 16);
    assert("replay_transactions_threads"@.len() == 27);
    assert("known_validators"@ != "replay_transactions_threads"@);
    assert("known_validators"@.len() == 16);
    assert("tvu_shred_sigverify_threads"@.len() == 27);
    assert("known_validators"@ != "tvu_shred_sigverify_threads"@);
    assert("known_validators"@.len() == 16);
    assert("voting_disabled"@.len() == 15);
    assert("known_validators"@ != "voting_disabled"@);
    assert("known_validators"@[0] == 'k');
    assert("dev_halt_at_slot"@[0] == 'd');
    assert("known_validators"@ != "dev_halt_at_slot"@);
    assert("known_validators"@.len() == 16);
    assert("wait_for_supermajority"@.len() == 22);
    assert("known_validators"@ != "wait_for_supermajority"@);
    assert("known_validators"@.len() == 16);
    assert("expected_genesis_hash"@.len() == 21);
    assert("known_validators"@ != "expected_genesis_hash"@);
    assert("known_validators"@.len() == 16);
    assert("expected_bank_hash"@.len() == 18);
    assert("known_validators"@ != "expected_bank_hash"@);
    assert("known_validators"@.len() == 16);
    assert("expected_shred_version"@.len() == 22);
    assert("known_validators"@ != "expected_shred_version"@);
    assert("known_validators"@.len() == 16);
    assert("no_voting"@.len() == 9);
    assert("known_validators"@ != "no_voting"@);
    assert("known_validators"@.len() == 16);
    assert("no_check_vote_account"@.len() == 21);
    assert("known_validators"@ != "no_check_vote_account"@);
    assert("known_validators"@.len() == 16);
    assert("identity"@.len() == 8);
    assert("known_validators"@ != "identity"@);
    assert("known_validators"@.len() == 16);
    assert("vote_account"@.len() == 12);
    assert("known_validators"@ != "vote_account"@);
    assert("known_validators"@.len() == 16);
    assert("authorized_voter_keypairs"@.len() == 25);
    assert("known_validators"@ != "authorized_voter_keypairs"@);
}

#[verifier::spinoff_prover]
#[verifier::rlimit(100)]
proof fn lemma_apply_only_known_rpc(c: ConfigV, v: ValueV)
    ensures
        spec_apply(c, "only_known_rpc"@, v) == (match as_bool(v) {
            Some(b) => Some(ConfigV { only_known_rpc: Some(b), ..c }),
            None => None,
        }),
{
    reveal(crate::reader::spec_apply);
    reveal_strlit("bind_address");
    reveal_strlit("entrypoint");
    reveal_strlit("gossip_port");
    reveal_strlit("gossip_host");
    reveal_strlit("dynamic_port_range");
    reveal_strlit("allow_private_addr");
    reveal_strlit("ledger_path");
    reveal_strlit("accounts_path");
    reveal_strlit("account_snapshot_paths");
    reveal_strlit("limit_ledger_size");
    reveal_strlit("rpc_port");
    reveal_strlit("rpc_bind_address");
    reveal_strlit("enable_rpc_transaction_history");
    reveal_strlit("enable_extended_tx_metadata_storage");
    reveal_strlit("rpc_threads");
    reveal_strlit("rpc_blocking_threads");
    reveal_strlit("rpc_max_request_body_size");
    reveal_strlit("rpc_pubsub_max_active_subscriptions");
    reveal_strlit("rpc_pubsub_queue_capacity_items");
    reveal_strlit("rpc_pubsub_queue_capacity_bytes");
    reveal_strlit("accounts_shrink_ratio");
    reveal_strlit("accounts_shrink_optimize_total_space");
    reveal_strlit("banking_trace_dir_byte_limit");
    reveal_strlit("tpu_connection_pool_size");
    reveal_strlit("tpu_max_connections_per_peer");
    reveal_strlit("tpu_max_connections_per_ipaddr_per_minute");
    reveal_strlit("tpu_max_staked_connections");
    reveal_strlit("tpu_max_unstaked_connections");
    reveal_strlit("tpu_max_streams_per_ms");
    reveal_strlit("snapshot_version");
    reveal_strlit("snapshot_archive_format");
    reveal_strlit("full_snapshot_archive_interval_slots");
    reveal_strlit("incremental_snapshot_archive_interval_slots");
    reveal_strlit("maximum_full_snapshot_archives_to_retain");
    reveal_strlit("maximum_incremental_snapshot_archives_to_retain");
    reveal_strlit("min_snapshot_download_speed");
    reveal_strlit("max_snapshot_download_abort");
    reveal_strlit("replay_forks_threads");
    reveal_strlit("replay_transactions_threads");
    reveal_strlit("tvu_shred_sigverify_threads");
    reveal_strlit("voting_disabled");
    reveal_strlit("dev_halt_at_slot");
    reveal_strlit("wait_for_supermajority");
    reveal_strlit("expected_genesis_hash");
    reveal_strlit("expected_bank_hash");
    reveal_strlit("expected_shred_version");
    reveal_strlit("no_voting");
    reveal_strlit("no_check_vote_account");
    reveal_strlit("identity");
    reveal_strlit("vote_account");
    reveal_strlit("authorized_voter_keypairs");
    reveal_strlit("known_validators");
    reveal_strlit("only_known_rpc");
    assert("only_known_rpc"@.len() == 14);
    assert("bind_address"@.len() == 12);
    assert("only_known_rpc"@ != "bind_address"@);
    assert("only_known_rpc"@.len() == 14);
    assert("entrypoint"@.len() == 10);
    assert("only_known_rpc"@ != "entrypoint"@);
    assert("only_known_rpc"@.len() == 14);
    assert("gossip_port"@.len() == 11);
    assert("only_known_rpc"@ != "gossip_port"@);
    assert("only_known_rpc"@.len() == 14);
    assert("gossip_host"@.len() == 11);
    assert("only_known_rpc"@ != "gossip_host"@);
    assert("only_known_rpc"@.len() == 14);
    assert("dynamic_port_range"@.len() == 18);
    assert("only_known_rpc"@ != "dynamic_port_range"@);
    assert("only_known_rpc"@.len() == 14);
    assert("allow_private_addr"@.len() == 18);
    assert("only_known_rpc"@ != "allow_private_addr"@);
    assert("only_known_rpc"@.len() == 14);
    assert("ledger_path"@.len() == 11);
    assert("only_known_rpc"@ != "ledger_path"@);
    assert("only_known_rpc"@.len() == 14);
    assert("accounts_path"@.len() == 13);
    assert("only_known_rpc"@ != "accounts_path"@);
    assert("only_known_rpc"@.len() == 14);
    assert("account_snapshot_paths"@.len() == 22);
    assert("only_known_rpc"@ != "account_snapshot_paths"@);
    assert("only_known_rpc"@.len() == 14);
    assert("limit_ledger_size"@.len() == 17);
    assert("only_known_rpc"@ != "limit_ledger_size"@);
    assert("only_known_rpc"@.len() == 14);
    assert("rpc_port"@.len() == 8);
    assert("only_known_rpc"@ != "rpc_port"@);
    assert("only_known_rpc"@.len() == 14);
    assert("rpc_bind_address"@.len() == 16);
    assert("only_known_rpc"@ != "rpc_bind_address"@);
    assert("only_known_rpc"@.len() == 14);
    assert("enable_rpc_transaction_history"@.len() == 30);
    assert("only_known_rpc"@ != "enable_rpc_transaction_history"@);
    assert("only_known_rpc"@.len() == 14);
    assert("enable_extended_tx_metadata_storage"@.len() == 35);
    assert("only_known_rpc"@ != "enable_extended_tx_metadata_storage"@);
    assert("only_known_rpc"@.len() == 14);
    assert("rpc_threads"@.len() == 11);
    assert("only_known_rpc"@ != "rpc_threads"@);
    assert("only_known_rpc"@.len() == 14);
    assert("rpc_blocking_threads"@.len() == 20);
    assert("only_known_rpc"@ != "rpc_blocking_threads"@);
    assert("only_known_rpc"@.len() == 14);
    assert("rpc_max_request_body_size"@.len() == 25);
    assert("only_known_rpc"@ != "rpc_max_request_body_size"@);
    assert("only_known_rpc"@.len() == 14);
    assert("rpc_pubsub_max_active_subscriptions"@.len() == 35);
    assert("only_known_rpc"@ != "rpc_pubsub_max_active_subscriptions"@);
    assert("only_known_rpc"@.len() == 14);
    assert("rpc_pubsub_queue_capacity_items"@.len() == 31);
    assert("only_known_rpc"@ != "rpc_pubsub_queue_capacity_items"@);
    assert("only_known_rpc"@.len() == 14);
    assert("rpc_pubsub_queue_capacity_bytes"@.len() == 31);
    assert("only_known_rpc"@ != "rpc_pubsub_queue_capacity_bytes"@);
    assert("only_known_rpc"@.len() == 14);
    assert("accounts_shrink_ratio"@.len() == 21);
    assert("only_known_rpc"@ != "accounts_shrink_ratio"@);
    assert("only_known_rpc"@.len() == 14);
    assert("accounts_shrink_optimize_total_space"@.len() == 36);
    assert("only_known_rpc"@ != "accounts_shrink_optimize_total_space"@);
    assert("only_known_rpc"@.len() == 14);
    assert("banking_trace_dir_byte_limit"@.len() == 28);
    assert("only_known_rpc"@ != "banking_trace_dir_byte_limit"@);
    assert("only_known_rpc"@.len() == 14);
    assert("tpu_connection_pool_size"@.len() == 24);
    assert("only_known_rpc"@ != "tpu_connection_pool_size"@);
    assert("only_known_rpc"@.len() == 14);
    assert("tpu_max_connections_per_peer"@.len() == 28);
    assert("only_known_rpc"@ != "tpu_max_connections_per_peer"@);
    assert("only_known_rpc"@.len() == 14);
    assert("tpu_max_connections_per_ipaddr_per_minute"@.len() == 41);
    assert("only_known_rpc"@ != "tpu_max_connections_per_ipaddr_per_minute"@);
    assert("only_known_rpc"@.len() == 14);
    assert("tpu_max_staked_connections"@.len() == 26);
    assert("only_known_rpc"@ != "tpu_max_staked_connections"@);
    assert("only_known_rpc"@.len() == 14);
    assert("tpu_max_unstaked_connections"@.len() == 28);
    assert("only_known_rpc"@ != "tpu_max_unstaked_connections"@);
    assert("only_known_rpc"@.len() == 14);
    assert("tpu_max_streams_per_ms"@.len() == 22);
    assert("only_known_rpc"@ != "tpu_max_streams_per_ms"@);
    assert("only_known_rpc"@.len() == 14);
    assert("snapshot_version"@.len() == 16);
    assert("only_known_rpc"@ != "snapshot_version"@);
    assert("only_known_rpc"@.len() == 14);
    assert("snapshot_archive_format"@.len() == 23);
    assert("only_known_rpc"@ != "snapshot_archive_format"@);
    assert("only_known_rpc"@.len() == 14);
    assert("full_snapshot_archive_interval_slots"@.len() == 36);
    assert("only_known_rpc"@ != "full_snapshot_archive_interval_slots"@);
    assert("only_known_rpc"@.len() == 14);
    assert("incremental_snapshot_archive_interval_slots"@.len() == 43);
    assert("only_known_rpc"@ != "incremental_snapshot_archive_interval_slots"@);
    assert("only_known_rpc"@.len() == 14);
    assert("maximum_full_snapshot_archives_to_retain"@.len() == 40);
    assert("only_known_rpc"@ != "maximum_full_snapshot_archives_to_retain"@);
    assert("only_known_rpc"@.len() == 14);
    assert("maximum_incremental_snapshot_archives_to_retain"@.len() == 47);
    assert("only_known_rpc"@ != "maximum_incremental_snapshot_archives_to_retain"@);
    assert("only_known_rpc"@.len() == 14);
    assert("min_snapshot_download_speed"@.len() == 27);
    assert("only_known_rpc"@ != "min_snapshot_download_speed"@);
    assert("only_known_rpc"@.len() == 14);
    assert("max_snapshot_download_abort"@.len() == 27);
    assert("only_known_rpc"@ != "max_snapshot_download_abort"@);
    assert("only_known_rpc"@.len() == 14);
    assert("replay_forks_threads"@.len() == 20);
    assert("only_known_rpc"@ != "replay_forks_threads"@);
    assert("only_known_rpc"@.len() == 14);
    assert("replay_transactions_threads"@.len() == 27);
    assert("only_known_rpc"@ != "replay_transactions_threads"@);
    assert("only_known_rpc"@.len() == 14);
    assert("tvu_shred_sigverify_threads"@.len() == 27);
    assert("only_known_rpc"@ != "tvu_shred_sigverify_threads"@);
    assert("only_known_rpc"@.len() == 14);
    assert("voting_disabled"@.len() == 15);
    assert("only_known_rpc"@ != "voting_disabled"@);
    assert("only_known_rpc"@.len() == 14);
    assert("dev_halt_at_slot"@.len() == 16);
    assert("only_known_rpc"@ != "dev_halt_at_slot"@);
    assert("only_known_rpc"@.len() == 14);
    assert("wait_for_supermajority"@.len() == 22);
    assert("only_known_rpc"@ != "wait_for_supermajority"@);
    assert("only_known_rpc"@.len() == 14);
    assert("expected_genesis_hash"@.len() == 21);
    assert("only_known_rpc"@ != "expected_genesis_hash"@);
    assert("only_known_rpc"@.len() == 14);
    assert("expected_bank_hash"@.len() == 18);
    assert("only_known_rpc"@ != "expected_bank_hash"@);
    assert("only_known_rpc"@.len() == 14);
    assert("expected_shred_version"@.len() == 22);
    assert("only_known_rpc"@ != "expected_shred_version"@);
    assert("only_known_rpc"@.len() == 14);
    assert("no_voting"@.len() == 9);
    assert("only_known_rpc"@ != "no_voting"@);
    assert("only_known_rpc"@.len() == 14);
    assert("no_check_vote_account"@.len() == 21);
    assert("only_known_rpc"@ != "no_check_vote_account"@);
    assert("only_known_rpc"@.len() == 14);
    assert("identity"@.len() == 8);
    assert("only_known_rpc"@ != "identity"@);
    assert("only_known_rpc"@.len() == 14);
    assert("vote_account"@.len() == 12);
    assert("only_known_rpc"@ != "vote_account"@);
    assert("only_known_rpc"@.len() == 14);
    assert("authorized_voter_keypairs"@.len() == 25);
    assert("only_known_rpc"@ != "authorized_voter_keypairs"@);
    assert("only_known_rpc"@.len() == 14);
    assert("known_validators"@.len() == 16);
    assert("only_known_rpc"@ != "known_validators"@);
}

#[verifier::spinoff_prover]
#[verifier::rlimit(100)]
proof fn lemma_apply_log_messages_bytes_limit(c: ConfigV, v: ValueV)
    ensures
        spec_apply(c, "log_messages_bytes_limit"@, v) == (match as_usizev(v) {
            Some(n) => Some(ConfigV { log_messages_bytes_limit: Some(n), ..c }),
            None => None,
        }),
{
    reveal(crate::reader::spec_apply);
    reveal_strlit("bind_address");
    reveal_strlit("entrypoint");
    reveal_strlit("gossip_port");
    reveal_strlit("gossip_host");
    reveal_strlit("dynamic_port_range");
    reveal_strlit("allow_private_addr");
    reveal_strlit("ledger_path");
    reveal_strlit("accounts_path");
    reveal_strlit("account_snapshot_paths");
    reveal_strlit("limit_ledger_size");
    reveal_strlit("rpc_port");
    reveal_strlit("rpc_bind_address");
    reveal_strlit("enable_rpc_transaction_history");
    reveal_strlit("enable_extended_tx_metadata_storage");
    reveal_strlit("rpc_threads");
    reveal_strlit("rpc_blocking_threads");
    reveal_strlit("rpc_max_request_body_size");
    reveal_strlit("rpc_pubsub_max_active_subscriptions");
    reveal_strlit("rpc_pubsub_queue_capacity_items");
    reveal_strlit("rpc_pubsub_queue_capacity_bytes");
    reveal_strlit("accounts_shrink_ratio");
    reveal_strlit("accounts_shrink_optimize_total_space");
    reveal_strlit("banking_trace_dir_byte_limit");
    reveal_strlit("tpu_connection_pool_size");
    reveal_strlit("tpu_max_connections_per_peer");
    reveal_strlit("tpu_max_connections_per_ipaddr_per_minute");
    reveal_strlit("tpu_max_staked_connections");
    reveal_strlit("tpu_max_unstaked_connections");
    reveal_strlit("tpu_max_streams_per_ms");
    reveal_strlit("snapshot_version");
    reveal_strlit("snapshot_archive_format");
    reveal_strlit("full_snapshot_archive_interval_slots");
    reveal_strlit("incremental_snapshot_archive_interval_slots");
    reveal_strlit("maximum_full_snapshot_archives_to_retain");
    reveal_strlit("maximum_incremental_snapshot_archives_to_retain");
    reveal_strlit("min_snapshot_download_speed");
    reveal_strlit("max_snapshot_download_abort");
    reveal_strlit("replay_forks_threads");
    reveal_strlit("replay_transactions_threads");
    reveal_strlit("tvu_shred_sigverify_threads");
    reveal_strlit("voting_disabled");
    reveal_strlit("dev_halt_at_slot");
    reveal_strlit("wait_for_supermajority");
    reveal_strlit("expected_genesis_hash");
    reveal_strlit("expected_bank_hash");
    reveal_strlit("expected_shred_version");
    reveal_strlit("no_voting");
    reveal_strlit("no_check_vote_account");
    reveal_strlit("identity");
    reveal_strlit("vote_account");
    reveal_strlit("authorized_voter_keypairs");
    reveal_strlit("known_validators");
    reveal_strlit("only_known_rpc");
    reveal_strlit("log_messages_bytes_limit");
    assert("log_messages_bytes_limit"@.len() == 24);
    assert("bind_address"@.len() == 12);
    assert("log_messages_bytes_limit"@ != "bind_address"@);
    assert("log_messages_bytes_limit"@.len() == 24);
    assert("entrypoint"@.len() == 10);
    assert("log_messages_bytes_limit"@ != "entrypoint"@);
    assert("log_messages_bytes_limit"@.len() == 24);
    assert("gossip_port"@.len() == 11);
    assert("log_messages_bytes_limit"@ != "gossip_port"@);
    assert("log_messages_bytes_limit"@.len() == 24);
    assert("gossip_host"@.len() == 11);
    assert("log_messages_bytes_limit"@ != "gossip_host"@);
    assert("log_messages_bytes_limit"@.len() == 24);
    assert("dynamic_port_range"@.len() == 18);
    assert("log_messages_bytes_limit"@ != "dynamic_port_range"@);
    assert("log_messages_bytes_limit"@.len() == 24);
    assert("allow_private_addr"@.len() == 18);
    assert("log_messages_bytes_limit"@ != "allow_private_addr"@);
    assert("log_messages_bytes_limit"@.len() == 24);
    assert("ledger_path"@.len() == 11);
    assert("log_messages_bytes_limit"@ != "ledger_path"@);
    assert("log_messages_bytes_limit"@.len() == 24);
    assert("accounts_path"@.len() == 13);
    assert("log_messages_bytes_limit"@ != "accounts_path"@);
    assert("log_messages_bytes_limit"@.len() == 24);
    assert("account_snapshot_paths"@.len() == 22);
    assert("log_messages_bytes_limit"@ != "account_snapshot_paths"@);
    assert("log_messages_bytes_limit"@.len() == 24);
    assert("limit_ledger_size"@.len() == 17);
    assert("log_messages_bytes_limit"@ != "limit_ledger_size"@);
    assert("log_messages_bytes_limit"@.len() == 24);
    assert("rpc_port"@.len() == 8);
    assert("log_messages_bytes_limit"@ != "rpc_port"@);
    assert("log_messages_bytes_limit"@.len() == 24);
    assert("rpc_bind_address"@.len() == 16);
    assert("log_messages_bytes_limit"@ != "rpc_bind_address"@);
    assert("log_messages_bytes_limit"@.len() == 24);
    assert("enable_rpc_transaction_history"@.len() == 30);
    assert("log_messages_bytes_limit"@ != "enable_rpc_transaction_history"@);
    assert("log_messages_bytes_limit"@.len() == 24);
    assert("enable_extended_tx_metadata_storage"@.len() == 35);
    assert("log_messages_bytes_limit"@ != "enable_extended_tx_metadata_storage"@);
    assert("log_messages_bytes_limit"@.len() == 24);
    assert("rpc_threads"@.len() == 11);
    assert("log_messages_bytes_limit"@ != "rpc_threads"@);
    assert("log_messages_bytes_limit"@.len() == 24);
    assert("rpc_blocking_threads"@.len() == 20);
    assert("log_messages_bytes_limit"@ != "rpc_blocking_threads"@);
    assert("log_messages_bytes_limit"@.len() == 24);
    assert("rpc_max_request_body_size"@.len() == 25);
    assert("log_messages_bytes_limit"@ != "rpc_max_request_body_size"@);
    assert("log_messages_bytes_limit"@.len() == 24);
    assert("rpc_pubsub_max_active_subscriptions"@.len() == 35);
    assert("log_messages_bytes_limit"@ != "rpc_pubsub_max_active_subscriptions"@);
    assert("log_messages_bytes_limit"@.len() == 24);
    assert("rpc_pubsub_queue_capacity_items"@.len() == 31);
    assert("log_messages_bytes_limit"@ != "rpc_pubsub_queue_capacity_items"@);
    assert("log_messages_bytes_limit"@.len() == 24);
    assert("rpc_pubsub_queue_capacity_bytes"@.len() == 31);
    assert("log_messages_bytes_limit"@ != "rpc_pubsub_queue_capacity_bytes"@);
    assert("log_messages_bytes_limit"@.len() == 24);
    assert("accounts_shrink_ratio"@.len() == 21);
    assert("log_messages_bytes_limit"@ != "accounts_shrink_ratio"@);
    assert("log_messages_bytes_limit"@.len() == 24);
    assert("accounts_shrink_optimize_total_space"@.len() == 36);
    assert("log_messages_bytes_limit"@ != "accounts_shrink_optimize_total_space"@);
    assert("log_messages_bytes_limit"@.len() == 24);
    assert("banking_trace_dir_byte_limit"@.len() == 28);
    assert("log_messages_bytes_limit"@ != "banking_trace_dir_byte_limit"@);
    assert("log_messages_bytes_limit"@[0] == 'l');
    assert("tpu_connection_pool_size"@[0] == 't');
    assert("log_messages_bytes_limit"@ != "tpu_connection_pool_size"@);
    assert("log_messages_bytes_limit"@.len() == 24);
    assert("tpu_max_connections_per_peer"@.len() == 28);
    assert("log_messages_bytes_limit"@ != "tpu_max_connections_per_peer"@);
    assert("log_messages_bytes_limit"@.len() == 24);
    assert("tpu_max_connections_per_ipaddr_per_minute"@.len() == 41);
    assert("log_messages_bytes_limit"@ != "tpu_max_connections_per_ipaddr_per_minute"@);
    assert("log_messages_bytes_limit"@.len() == 24);
    assert("tpu_max_staked_connections"@.len() == 26);
    assert("log_messages_bytes_limit"@ != "tpu_max_staked_connections"@);
    assert("log_messages_bytes_limit"@.len() == 24);
    assert("tpu_max_unstaked_connections"@.len() == 28);
    assert("log_messages_bytes_limit"@ != "tpu_max_unstaked_connections"@);
    assert("log_messages_bytes_limit"@.len() == 24);
    assert("tpu_max_streams_per_ms"@.len() == 22);
    assert("log_messages_bytes_limit"@ != "tpu_max_streams_per_ms"@);
    assert("log_messages_bytes_limit"@.len() == 24);
    assert("snapshot_version"@.len() == 16);
    assert("log_messages_bytes_limit"@ != "snapshot_version"@);
    assert("log_messages_bytes_limit"@.len() == 24);
    assert("snapshot_archive_format"@.len() == 23);
    assert("log_messages_bytes_limit"@ != "snapshot_archive_format"@);
    assert("log_messages_bytes_limit"@.len() == 24);
    assert("full_snapshot_archive_interval_slots"@.len() == 36);
    assert("log_messages_bytes_limit"@ != "full_snapshot_archive_interval_slots"@);
    assert("log_messages_bytes_limit"@.len() == 24);
    assert("incremental_snapshot_archive_interval_slots"@.len() == 43);
    assert("log_messages_bytes_limit"@ != "incremental_snapshot_archive_interval_slots"@);
    assert("log_messages_bytes_limit"@.len() == 24);
    assert("maximum_full_snapshot_archives_to_retain"@.len() == 40);
    assert("log_messages_bytes_limit"@ != "maximum_full_snapshot_archives_to_retain"@);
    assert("log_messages_bytes_limit"@.len() == 24);
    assert("maximum_incremental_snapshot_archives_to_retain"@.len() == 47);
    assert("log_messages_bytes_limit"@ != "maximum_incremental_snapshot_archives_to_retain"@);
    assert("log_messages_bytes_limit"@.len() == 24);
    assert("min_snapshot_download_speed"@.len() == 27);
    assert("log_messages_bytes_limit"@ != "min_snapshot_download_speed"@);
    assert("log_messages_bytes_limit"@.len() == 24);
    assert("max_snapshot_download_abort"@.len() == 27);
    assert("log_messages_bytes_limit"@ != "max_snapshot_download_abort"@);
    assert("log_messages_bytes_limit"@.len() == 24);
    assert("replay_forks_threads"@.len() == 20);
    assert("log_messages_bytes_limit"@ != "replay_forks_threads"@);
    assert("log_messages_bytes_limit"@.len() == 24);
    assert("replay_transactions_threads"@.len() == 27);
    assert("log_messages_bytes_limit"@ != "replay_transactions_threads"@);
    assert("log_messages_bytes_limit"@.len() == 24);
    assert("tvu_shred_sigverify_threads"@.len() == 27);
    assert("log_messages_bytes_limit"@ != "tvu_shred_sigverify_threads"@);
    assert("log_messages_bytes_limit"@.len() == 24);
    assert("voting_disabled"@.len() == 15);
    assert("log_messages_bytes_limit"@ != "voting_disabled"@);
    assert("log_messages_bytes_limit"@.len() == 24);
    assert("dev_halt_at_slot"@.len() == 16);
    assert("log_messages_bytes_limit"@ != "dev_halt_at_slot"@);
    assert("log_messages_bytes_limit"@.len() == 24);
    assert("wait_for_supermajority"@.len() == 22);
    assert("log_messages_bytes_limit"@ != "wait_for_supermajority"@);
    assert("log_messages_bytes_limit"@.len() == 24);
    assert("expected_genesis_hash"@.len() == 21);
    assert("log_messages_bytes_limit"@ != "expected_genesis_hash"@);
    assert("log_messages_bytes_limit"@.len() == 24);
    assert("expected_bank_hash"@.len() == 18);
    assert("log_messages_bytes_limit"@ != "expected_bank_hash"@);
    assert("log_messages_bytes_limit"@.len() == 24);
    assert("expected_shred_version"@.len() == 22);
    assert("log_messages_bytes_limit"@ != "expected_shred_version"@);
    assert("log_messages_bytes_limit"@.len() == 24);
    assert("no_voting"@.len() == 9);
    assert("log_messages_bytes_limit"@ != "no_voting"@);
    assert("log_messages_bytes_limit"@.len() == 24);
    assert("no_check_vote_account"@.len() == 21);
    assert("log_messages_bytes_limit"@ != "no_check_vote_account"@);
    assert("log_messages_bytes_limit"@.len() == 24);
    assert("identity"@.len() == 8);
    assert("log_messages_bytes_limit"@ != "identity"@);
    assert("log_messages_bytes_limit"@.len() == 24);
    assert("vote_account"@.len() == 12);
    assert("log_messages_bytes_limit"@ != "vote_account"@);
    assert("log_messages_bytes_limit"@.len() == 24);
    assert("authorized_voter_keypairs"@.len() == 25);
    assert("log_messages_bytes_limit"@ != "authorized_voter_keypairs"@);
    assert("log_messages_bytes_limit"@.len() == 24);
    assert("known_validators"@.len() == 16);
    assert("log_messages_bytes_limit"@ != "known_validators"@);
    assert("log_messages_bytes_limit"@.len() == 24);
    assert("only_known_rpc"@.len() == 14);
    assert("log_messages_bytes_limit"@ != "only_known_rpc"@);
}

#[verifier::spinoff_prover]
#[verifier::rlimit(100)]
proof fn lemma_apply_skip_startup_ledger_verification(c: ConfigV, v: ValueV)
    ensures
        spec_apply(c, "skip_startup_ledger_verification"@, v) == (match as_bool(v) {
            Some(b) => Some(ConfigV { skip_startup_ledger_verification: Some(b), ..c }),
            None => None,
        }),
{
    reveal(crate::reader::spec_apply);
    reveal_strlit("bind_address");
    reveal_strlit("entrypoint");
    reveal_strlit("gossip_port");
    reveal_strlit("gossip_host");
    reveal_strlit("dynamic_port_range");
    reveal_strlit("allow_private_addr");
    reveal_strlit("ledger_path");
    reveal_strlit("accounts_path");
    reveal_strlit("account_snapshot_paths");
    reveal_strlit("limit_ledger_size");
    reveal_strlit("rpc_port");
    reveal_strlit("rpc_bind_address");
    reveal_strlit("enable_rpc_transaction_history");
    reveal_strlit("enable_extended_tx_metadata_storage");
    reveal_strlit("rpc_threads");
    reveal_strlit("rpc_blocking_threads");
    reveal_strlit("rpc_max_request_body_size");
    reveal_strlit("rpc_pubsub_max_active_subscriptions");
    reveal_strlit("rpc_pubsub_queue_capacity_items");
    reveal_strlit("rpc_pubsub_queue_capacity_bytes");
    reveal_strlit("accounts_shrink_ratio");
    reveal_strlit("accounts_shrink_optimize_total_space");
    reveal_strlit("banking_trace_dir_byte_limit");
    reveal_strlit("tpu_connection_pool_size");
    reveal_strlit("tpu_max_connections_per_peer");
    reveal_strlit("tpu_max_connections_per_ipaddr_per_minute");
    reveal_strlit("tpu_max_staked_connections");
    reveal_strlit("tpu_max_unstaked_connections");
    reveal_strlit("tpu_max_streams_per_ms");
    reveal_strlit("snapshot_version");
    reveal_strlit("snapshot_archive_format");
    reveal_strlit("full_snapshot_archive_interval_slots");
    reveal_strlit("incremental_snapshot_archive_interval_slots");
    reveal_strlit("maximum_full_snapshot_archives_to_retain");
    reveal_strlit("maximum_incremental_snapshot_archives_to_retain");
    reveal_strlit("min_snapshot_download_speed");
    reveal_strlit("max_snapshot_download_abort");
    reveal_strlit("replay_forks_threads");
    reveal_strlit("replay_transactions_threads");
    reveal_strlit("tvu_shred_sigverify_threads");
    reveal_strlit("voting_disabled");
    reveal_strlit("dev_halt_at_slot");
    reveal_strlit("wait_for_supermajority");
    reveal_strlit("expected_genesis_hash");
    reveal_strlit("expected_bank_hash");
    reveal_strlit("expected_shred_version");
    reveal_strlit("no_voting");
    reveal_strlit("no_check_vote_account");
    reveal_strlit("identity");
    reveal_strlit("vote_account");
    reveal_strlit("authorized_voter_keypairs");
    reveal_strlit("known_validators");
    reveal_strlit("only_known_rpc");
    reveal_strlit("log_messages_bytes_limit");
    reveal_strlit("skip_startup_ledger_verification");
    assert("skip_startup_ledger_verification"@.len() == 32);
    assert("bind_address"@.len() == 12);
    assert("skip_startup_ledger_verification"@ != "bind_address"@);
    assert("skip_startup_ledger_verification"@.len() == 32);
    assert("entrypoint"@.len() == 10);
    assert("skip_startup_ledger_verification"@ != "entrypoint"@);
    assert("skip_startup_ledger_verification"@.len() == 32);
    assert("gossip_port"@.len() == 11);
    assert("skip_startup_ledger_verification"@ != "gossip_port"@);
    assert("skip_startup_ledger_verification"@.len() == 32);
    assert("gossip_host"@.len() == 11);
    assert("skip_startup_ledger_verification"@ != "gossip_host"@);
    assert("skip_startup_ledger_verification"@.len() == 32);
    assert("dynamic_port_range"@.len() == 18);
    assert("skip_startup_ledger_verification"@ != "dynamic_port_range"@);
    assert("skip_startup_ledger_verification"@.len() == 32);
    assert("allow_private_addr"@.len() == 18);
    assert("skip_startup_ledger_verification"@ != "allow_private_addr"@);
    assert("skip_startup_ledger_verification"@.len() == 32);
    assert("ledger_path"@.len() == 11);
    assert("skip_startup_ledger_verification"@ != "ledger_path"@);
    assert("skip_startup_ledger_verification"@.len() == 32);
    assert("accounts_path"@.len() == 13);
    assert("skip_startup_ledger_verification"@ != "accounts_path"@);
    assert("skip_startup_ledger_verification"@.len() == 32);
    assert("account_snapshot_paths"@.len() == 22);
    assert("skip_startup_ledger_verification"@ != "account_snapshot_paths"@);
    assert("skip_startup_ledger_verification"@.len() == 32);
    assert("limit_ledger_size"@.len() == 17);
    assert("skip_startup_ledger_verification"@ != "limit_ledger_size"@);
    assert("skip_startup_ledger_verification"@.len() == 32);
    assert("rpc_port"@.len() == 8);
    assert("skip_startup_ledger_verification"@ != "rpc_port"@);
    assert("skip_startup_ledger_verification"@.len() == 32);
    assert("rpc_bind_address"@.len() == 16);
    assert("skip_startup_ledger_verification"@ != "rpc_bind_address"@);
    assert("skip_startup_ledger_verification"@.len() == 32);
    assert("enable_rpc_transaction_history"@.len() == 30);
    assert("skip_startup_ledger_verification"@ != "enable_rpc_transaction_history"@);
    assert("skip_startup_ledger_verification"@.len() == 32);
    assert("enable_extended_tx_metadata_storage"@.len() == 35);
    assert("skip_startup_ledger_verification"@ != "enable_extended_tx_metadata_storage"@);
    assert("skip_startup_ledger_verification"@.len() == 32);
    assert("rpc_threads"@.len() == 11);
    assert("skip_startup_ledger_verification"@ != "rpc_threads"@);
    assert("skip_startup_ledger_verification"@.len() == 32);
    assert("rpc_blocking_threads"@.len() == 20);
    assert("skip_startup_ledger_verification"@ != "rpc_blocking_threads"@);
    assert("skip_startup_ledger_verification"@.len() == 32);
    assert("rpc_max_request_body_size"@.len() == 25);
    assert("skip_startup_ledger_verification"@ != "rpc_max_request_body_size"@);
    assert("skip_startup_ledger_verification"@.len() == 32);
    assert("rpc_pubsub_max_active_subscriptions"@.len() == 35);
    assert("skip_startup_ledger_verification"@ != "rpc_pubsub_max_active_subscriptions"@);
    assert("skip_startup_ledger_verification"@.len() == 32);
    assert("rpc_pubsub_queue_capacity_items"@.len() == 31);
    assert("skip_startup_ledger_verification"@ != "rpc_pubsub_queue_capacity_items"@);
    assert("skip_startup_ledger_verification"@.len() == 32);
    assert("rpc_pubsub_queue_capacity_bytes"@.len() == 31);
    assert("skip_startup_ledger_verification"@ != "rpc_pubsub_queue_capacity_bytes"@);
    assert("skip_startup_ledger_verification"@.len() == 32);
    assert("accounts_shrink_ratio"@.len() == 21);
    assert("skip_startup_ledger_verification"@ != "accounts_shrink_ratio"@);
    assert("skip_startup_ledger_verification"@.len() == 32);
    assert("accounts_shrink_optimize_total_space"@.len() == 36);
    assert("skip_startup_ledger_verification"@ != "accounts_shrink_optimize_total_space"@);
    assert("skip_startup_ledger_verification"@.len() == 32);
    assert("banking_trace_dir_byte_limit"@.len() == 28);
    assert("skip_startup_ledger_verification"@ != "banking_trace_dir_byte_limit"@);
    assert("skip_startup_ledger_verification"@.len() == 32);
    assert("tpu_connection_pool_size"@.len() == 24);
    assert("skip_startup_ledger_verification"@ != "tpu_connection_pool_size"@);
    assert("skip_startup_ledger_verification"@.len() == 32);
    assert("tpu_max_connections_per_peer"@.len() == 28);
    assert("skip_startup_ledger_verification"@ != "tpu_max_connections_per_peer"@);
    assert("skip_startup_ledger_verification"@.len() == 32);
    assert("tpu_max_connections_per_ipaddr_per_minute"@.len() == 41);
    assert("skip_startup_ledger_verification"@ != "tpu_max_connections_per_ipaddr_per_minute"@);
    assert("skip_startup_ledger_verification"@.len() == 32);
    assert("tpu_max_staked_connections"@.len() == 26);
    assert("skip_startup_ledger_verification"@ != "tpu_max_staked_connections"@);
    assert("skip_startup_ledger_verification"@.len() == 32);
    assert("tpu_max_unstaked_connections"@.len() == 28);
    assert("skip_startup_ledger_verification"@ != "tpu_max_unstaked_connections"@);
    assert("skip_startup_ledger_verification"@.len() == 32);
    assert("tpu_max_streams_per_ms"@.len() == 22);
    assert("skip_startup_ledger_verification"@ != "tpu_max_streams_per_ms"@);
    assert("skip_startup_ledger_verification"@.len() == 32);
    assert("snapshot_version"@.len() == 16);
    assert("skip_startup_ledger_verification"@ != "snapshot_version"@);
    assert("skip_startup_ledger_verification"@.len() == 32);
    assert("snapshot_archive_format"@.len() == 23);
    assert("skip_startup_ledger_verification"@ != "snapshot_archive_format"@);
    assert("skip_startup_ledger_verification"@.len() == 32);
    assert("full_snapshot_archive_interval_slots"@.len() == 36);
    assert("skip_startup_ledger_verification"@ != "full_snapshot_archive_interval_slots"@);
    assert("skip_startup_ledger_verification"@.len() == 32);
    assert("incremental_snapshot_archive_interval_slots"@.len() == 43);
    assert("skip_startup_ledger_verification"@ != "incremental_snapshot_archive_interval_slots"@);
    assert("skip_startup_ledger_verification"@.len() == 32);
    assert("maximum_full_snapshot_archives_to_retain"@.len() == 40);
    assert("skip_startup_ledger_verification"@ != "maximum_full_snapshot_archives_to_retain"@);
    assert("skip_startup_ledger_verification"@.len() == 32);
    assert("maximum_incremental_snapshot_archives_to_retain"@.len() == 47);
    assert("skip_startup_ledger_verification"@ != "maximum_incremental_snapshot_archives_to_retain"@);
    assert("skip_startup_ledger_verification"@.len() == 32);
    assert("min_snapshot_download_speed"@.len() == 27);
    assert("skip_startup_ledger_verification"@ != "min_snapshot_download_speed"@);
    assert("skip_startup_ledger_verification"@.len() == 32);
    assert("max_snapshot_download_abort"@.len() == 27);
    assert("skip_startup_ledger_verification"@ != "max_snapshot_download_abort"@);
    assert("skip_startup_ledger_verification"@.len() == 32);
    assert("replay_forks_threads"@.len() == 20);
    assert("skip_startup_ledger_verification"@ != "replay_forks_threads"@);
    assert("skip_startup_ledger_verification"@.len() == 32);
    assert("replay_transactions_threads"@.len() == 27);
    assert("skip_startup_ledger_verification"@ != "replay_transactions_threads"@);
    assert("skip_startup_ledger_verification"@.len() == 32);
    assert("tvu_shred_sigverify_threads"@.len() == 27);
    assert("skip_startup_ledger_verification"@ != "tvu_shred_sigverify_threads"@);
    assert("skip_startup_ledger_verification"@.len() == 32);
    assert("voting_disabled"@.len() == 15);
    assert("skip_startup_ledger_verification"@ != "voting_disabled"@);
    assert("skip_startup_ledger_verification"@.len() == 32);
    assert("dev_halt_at_slot"@.len() == 16);
    assert("skip_startup_ledger_verification"@ != "dev_halt_at_slot"@);
    assert("skip_startup_ledger_verification"@.len() == 32);
    assert("wait_for_supermajority"@.len() == 22);
    assert("skip_startup_ledger_verification"@ != "wait_for_supermajority"@);
    assert("skip_startup_ledger_verification"@.len() == 32);
    assert("expected_genesis_hash"@.len() == 21);
    assert("skip_startup_ledger_verification"@ != "expected_genesis_hash"@);
    assert("skip_startup_ledger_verification"@.len() == 32);
    assert("expected_bank_hash"@.len() == 18);
    assert("skip_startup_ledger_verification"@ != "expected_bank_hash"@);
    assert("skip_startup_ledger_verification"@.len() == 32);
    assert("expected_shred_version"@.len() == 22);
    assert("skip_startup_ledger_verification"@ != "expected_shred_version"@);
    assert("skip_startup_ledger_verification"@.len() == 32);
    assert("no_voting"@.len() == 9);
    assert("skip_startup_ledger_verification"@ != "no_voting"@);
    assert("skip_startup_ledger_verification"@.len() == 32);
    assert("no_check_vote_account"@.len() == 21);
    assert("skip_startup_ledger_verification"@ != "no_check_vote_account"@);
    assert("skip_startup_ledger_verification"@.len() == 32);
    assert("identity"@.len() == 8);
    assert("skip_startup_ledger_verification"@ != "identity"@);
    assert("skip_startup_ledger_verification"@.len() == 32);
    assert("vote_account"@.len() == 12);
    assert("skip_startup_ledger_verification"@ != "vote_account"@);
    assert("skip_startup_ledger_verification"@.len() == 32);
    assert("authorized_voter_keypairs"@.len() == 25);
    assert("skip_startup_ledger_verification"@ != "authorized_voter_keypairs"@);
    assert("skip_startup_ledger_verification"@.len() == 32);
    assert("known_validators"@.len() == 16);
    assert("skip_startup_ledger_verification"@ != "known_validators"@);
    assert("skip_startup_ledger_verification"@.len() == 32);
    assert("only_known_rpc"@.len() == 14);
    assert("skip_startup_ledger_verification"@ != "only_known_rpc"@);
    assert("skip_startup_ledger_verification"@.len() == 32);
    assert("log_messages_bytes_limit"@.len() == 24);
    assert("skip_startup_ledger_verification"@ != "log_messages_bytes_limit"@);
}

#[verifier::spinoff_prover]
#[verifier::rlimit(100)]
proof fn lemma_apply_skip_poh_verify(c: ConfigV, v: ValueV)
    ensures
        spec_apply(c, "skip_poh_verify"@, v) == (match as_bool(v) {
            Some(b) => Some(ConfigV { skip_poh_verify: Some(b), ..c }),
            None => None,
        }),
{
    reveal(crate::reader::spec_apply);
    reveal_strlit("bind_address");
    reveal_strlit("entrypoint");
    reveal_strlit("gossip_port");
    reveal_strlit("gossip_host");
    reveal_strlit("dynamic_port_range");
    reveal_strlit("allow_private_addr");
    reveal_strlit("ledger_path");
    reveal_strlit("accounts_path");
    reveal_strlit("account_snapshot_paths");
    reveal_strlit("limit_ledger_size");
    reveal_strlit("rpc_port");
    reveal_strlit("rpc_bind_address");
    reveal_strlit("enable_rpc_transaction_history");
    reveal_strlit("enable_extended_tx_metadata_storage");
    reveal_strlit("rpc_threads");
    reveal_strlit("rpc_blocking_threads");
    reveal_strlit("rpc_max_request_body_size");
    reveal_strlit("rpc_pubsub_max_active_subscriptions");
    reveal_strlit("rpc_pubsub_queue_capacity_items");
    reveal_strlit("rpc_pubsub_queue_capacity_bytes");
    reveal_strlit("accounts_shrink_ratio");
    reveal_strlit("accounts_shrink_optimize_total_space");
    reveal_strlit("banking_trace_dir_byte_limit");
    reveal_strlit("tpu_connection_pool_size");
    reveal_strlit("tpu_max_connections_per_peer");
    reveal_strlit("tpu_max_connections_per_ipaddr_per_minute");
    reveal_strlit("tpu_max_staked_connections");
    reveal_strlit("tpu_max_unstaked_connections");
    reveal_strlit("tpu_max_streams_per_ms");
    reveal_strlit("snapshot_version");
    reveal_strlit("snapshot_archive_format");
    reveal_strlit("full_snapshot_archive_interval_slots");
    reveal_strlit("incremental_snapshot_archive_interval_slots");
    reveal_strlit("maximum_full_snapshot_archives_to_retain");
    reveal_strlit("maximum_incremental_snapshot_archives_to_retain");
    reveal_strlit("min_snapshot_download_speed");
    reveal_strlit("max_snapshot_download_abort");
    reveal_strlit("replay_forks_threads");
    reveal_strlit("replay_transactions_threads");
    reveal_strlit("tvu_shred_sigverify_threads");
    reveal_strlit("voting_disabled");
    reveal_strlit("dev_halt_at_slot");
    reveal_strlit("wait_for_supermajority");
    reveal_strlit("expected_genesis_hash");
    reveal_strlit("expected_bank_hash");
    reveal_strlit("expected_shred_version");
    reveal_strlit("no_voting");
    reveal_strlit("no_check_vote_account");
    reveal_strlit("identity");
    reveal_strlit("vote_account");
    reveal_strlit("authorized_voter_keypairs");
    reveal_strlit("known_validators");
    reveal_strlit("only_known_rpc");
    reveal_strlit("log_messages_bytes_limit");
    reveal_strlit("skip_startup_ledger_verification");
    reveal_strlit("skip_poh_verify");
    assert("skip_poh_verify"@.len() == 15);
    assert("bind_address"@.len() == 12);
    assert("skip_poh_verify"@ != "bind_address"@);
    assert("skip_poh_verify"@.len() == 15);
    assert("entrypoint"@.len() == 10);
    assert("skip_poh_verify"@ != "entrypoint"@);
    assert("skip_poh_verify"@.len() == 15);
    assert("gossip_port"@.len() == 11);
    assert("skip_poh_verify"@ != "gossip_port"@);
    assert("skip_poh_verify"@.len() == 15);
    assert("gossip_host"@.len() == 11);
    assert("skip_poh_verify"@ != "gossip_host"@);
    assert("skip_poh_verify"@.len() == 15);
    assert("dynamic_port_range"@.len() == 18);
    assert("skip_poh_verify"@ != "dynamic_port_range"@);
    assert("skip_poh_verify"@.len() == 15);
    assert("allow_private_addr"@.len() == 18);
    assert("skip_poh_verify"@ != "allow_private_addr"@);
    assert("skip_poh_verify"@.len() == 15);
    assert("ledger_path"@.len() == 11);
    assert("skip_poh_verify"@ != "ledger_path"@);
    assert("skip_poh_verify"@.len() == 15);
    assert("accounts_path"@.len() == 13);
    assert("skip_poh_verify"@ != "accounts_path"@);
    assert("skip_poh_verify"@.len() == 15);
    assert("account_snapshot_paths"@.len() == 22);
    assert("skip_poh_verify"@ != "account_snapshot_paths"@);
    assert("skip_poh_verify"@.len() == 15);
    assert("limit_ledger_size"@.len() == 17);
    assert("skip_poh_verify"@ != "limit_ledger_size"@);
    assert("skip_poh_verify"@.len() == 15);
    assert("rpc_port"@.len() == 8);
    assert("skip_poh_verify"@ != "rpc_port"@);
    assert("skip_poh_verify"@.len() == 15);
    assert("rpc_bind_address"@.len() == 16);
    assert("skip_poh_verify"@ != "rpc_bind_address"@);
    assert("skip_poh_verify"@.len() == 15);
    assert("enable_rpc_transaction_history"@.len() == 30);
    assert("skip_poh_verify"@ != "enable_rpc_transaction_history"@);
    assert("skip_poh_verify"@.len() == 15);
    assert("enable_extended_tx_metadata_storage"@.len() == 35);
    assert("skip_poh_verify"@ != "enable_extended_tx_metadata_storage"@);
    assert("skip_poh_verify"@.len() == 15);
    assert("rpc_threads"@.len() == 11);
    assert("skip_poh_verify"@ != "rpc_threads"@);
    assert("skip_poh_verify"@.len() == 15);
    assert("rpc_blocking_threads"@.len() == 20);
    assert("skip_poh_verify"@ != "rpc_blocking_threads"@);
    assert("skip_poh_verify"@.len() == 15);
    assert("rpc_max_request_body_size"@.len() == 25);
    assert("skip_poh_verify"@ != "rpc_max_request_body_size"@);
    assert("skip_poh_verify"@.len() == 15);
    assert("rpc_pubsub_max_active_subscriptions"@.len() == 35);
    assert("skip_poh_verify"@ != "rpc_pubsub_max_active_subscriptions"@);
    assert("skip_poh_verify"@.len() == 15);
    assert("rpc_pubsub_queue_capacity_items"@.len() == 31);
    assert("skip_poh_verify"@ != "rpc_pubsub_queue_capacity_items"@);
    assert("skip_poh_verify"@.len() == 15);
    assert("rpc_pubsub_queue_capacity_bytes"@.len() == 31);
    assert("skip_poh_verify"@ != "rpc_pubsub_queue_capacity_bytes"@);
    assert("skip_poh_verify"@.len() == 15);
    assert("accounts_shrink_ratio"@.len() == 21);
    assert("skip_poh_verify"@ != "accounts_shrink_ratio"@);
    assert("skip_poh_verify"@.len() == 15);
    assert("accounts_shrink_optimize_total_space"@.len() == 36);
    assert("skip_poh_verify"@ != "accounts_shrink_optimize_total_space"@);
    assert("skip_poh_verify"@.len() == 15);
    assert("banking_trace_dir_byte_limit"@.len() == 28);
    assert("skip_poh_verify"@ != "banking_trace_dir_byte_limit"@);
    assert("skip_poh_verify"@.len() == 15);
    assert("tpu_connection_pool_size"@.len() == 24);
    assert("skip_poh_verify"@ != "tpu_connection_pool_size"@);
    assert("skip_poh_verify"@.len() == 15);
    assert("tpu_max_connections_per_peer"@.len() == 28);
    assert("skip_poh_verify"@ != "tpu_max_connections_per_peer"@);
    assert("skip_poh_verify"@.len() == 15);
    assert("tpu_max_connections_per_ipaddr_per_minute"@.len() == 41);
    assert("skip_poh_verify"@ != "tpu_max_connections_per_ipaddr_per_minute"@);
    assert("skip_poh_verify"@.len() == 15);
    assert("tpu_max_staked_connections"@.len() == 26);
    assert("skip_poh_verify"@ != "tpu_max_staked_connections"@);
    assert("skip_poh_verify"@.len() == 15);
    assert("tpu_max_unstaked_connections"@.len() == 28);
    assert("skip_poh_verify"@ != "tpu_max_unstaked_connections"@);
    assert("skip_poh_verify"@.len() == 15);
    assert("tpu_max_streams_per_ms"@.len() == 22);
    assert("skip_poh_verify"@ != "tpu_max_streams_per_ms"@);
    assert("skip_poh_verify"@.len() == 15);
    assert("snapshot_version"@.len() == 16);
    assert("skip_poh_verify"@ != "snapshot_version"@);
    assert("skip_poh_verify"@.len() == 15);
    assert("snapshot_archive_format"@.len() == 23);
    assert("skip_poh_verify"@ != "snapshot_archive_format"@);
    assert("skip_poh_verify"@.len() == 15);
    assert("full_snapshot_archive_interval_slots"@.len() == 36);
    assert("skip_poh_verify"@ != "full_snapshot_archive_interval_slots"@);
    assert("skip_poh_verify"@.len() == 15);
    assert("incremental_snapshot_archive_interval_slots"@.len() == 43);
    assert("skip_poh_verify"@ != "incremental_snapshot_archive_interval_slots"@);
    assert("skip_poh_verify"@.len() == 15);
    assert("maximum_full_snapshot_archives_to_retain"@.len() == 40);
    assert("skip_poh_verify"@ != "maximum_full_snapshot_archives_to_retain"@);
    assert("skip_poh_verify"@.len() == 15);
    assert("maximum_incremental_snapshot_archives_to_retain"@.len() == 47);
    assert("skip_poh_verify"@ != "maximum_incremental_snapshot_archives_to_retain"@);
    assert("skip_poh_verify"@.len() == 15);
    assert("min_snapshot_download_speed"@.len() == 27);
    assert("skip_poh_verify"@ != "min_snapshot_download_speed"@);
    assert("skip_poh_verify"@.len() == 15);
    assert("max_snapshot_download_abort"@.len() == 27);
    assert("skip_poh_verify"@ != "max_snapshot_download_abort"@);
    assert("skip_poh_verify"@.len() == 15);
    assert("replay_forks_threads"@.len() == 20);
    assert("skip_poh_verify"@ != "replay_forks_threads"@);
    assert("skip_poh_verify"@.len() == 15);
    assert("replay_transactions_threads"@.len() == 27);
    assert("skip_poh_verify"@ != "replay_transactions_threads"@);
    assert("skip_poh_verify"@.len() == 15);
    assert("tvu_shred_sigverify_threads"@.len() == 27);
    assert("skip_poh_verify"@ != "tvu_shred_sigverify_threads"@);
    assert("skip_poh_verify"@[0] == 's');
    assert("voting_disabled"@[0] == 'v');
    assert("skip_poh_verify"@ != "voting_disabled"@);
    assert("skip_poh_verify"@.len() == 15);
    assert("dev_halt_at_slot"@.len() == 16);
    assert("skip_poh_verify"@ != "dev_halt_at_slot"@);
    assert("skip_poh_verify"@.len() == 15);
    assert("wait_for_supermajority"@.len() == 22);
    assert("skip_poh_verify"@ != "wait_for_supermajority"@);
    assert("skip_poh_verify"@.len() == 15);
    assert("expected_genesis_hash"@.len() == 21);
    assert("skip_poh_verify"@ != "expected_genesis_hash"@);
    assert("skip_poh_verify"@.len() == 15);
    assert("expected_bank_hash"@.len() == 18);
    assert("skip_poh_verify"@ != "expected_bank_hash"@);
    assert("skip_poh_verify"@.len() == 15);
    assert("expected_shred_version"@.len() == 22);
    assert("skip_poh_verify"@ != "expected_shred_version"@);
    assert("skip_poh_verify"@.len() == 15);
    assert("no_voting"@.len() == 9);
    assert("skip_poh_verify"@ != "no_voting"@);
    assert("skip_poh_verify"@.len() == 15);
    assert("no_check_vote_account"@.len() == 21);
    assert("skip_poh_verify"@ != "no_check_vote_account"@);
    assert("skip_poh_verify"@.len() == 15);
    assert("identity"@.len() == 8);
    assert("skip_poh_verify"@ != "identity"@);
    assert("skip_poh_verify"@.len() == 15);
    assert("vote_account"@.len() == 12);
    assert("skip_poh_verify"@ != "vote_account"@);
    assert("skip_poh_verify"@.len() == 15);
    assert("authorized_voter_keypairs"@.len() == 25);
    assert("skip_poh_verify"@ != "authorized_voter_keypairs"@);
    assert("skip_poh_verify"@.len() == 15);
    assert("known_validators"@.len() == 16);
    assert("skip_poh_verify"@ != "known_validators"@);
    assert("skip_poh_verify"@.len() == 15);
    assert("only_known_rpc"@.len() == 14);
    assert("skip_poh_verify"@ != "only_known_rpc"@);
    assert("skip_poh_verify"@.len() == 15);
    assert("log_messages_bytes_limit"@.len() == 24);
    assert("skip_poh_verify"@ != "log_messages_bytes_limit"@);
    assert("skip_poh_verify"@.len() == 15);
    assert("skip_startup_ledger_verification"@.len() == 32);
    assert("skip_poh_verify"@ != "skip_startup_ledger_verification"@);
}

#[verifier::spinoff_prover]
#[verifier::rlimit(100)]
proof fn lemma_apply_debug_keys(c: ConfigV, v: ValueV)
    ensures
        spec_apply(c, "debug_keys"@, v) == (match as_list(v) {
            Some(l) => Some(ConfigV { debug_keys: Some(l), ..c }),
            None => None,
        }),
{
    reveal(crate::reader::spec_apply);
    reveal_strlit("bind_address");
    reveal_strlit("entrypoint");
    reveal_strlit("gossip_port");
    reveal_strlit("gossip_host");
    reveal_strlit("dynamic_port_range");
    reveal_strlit("allow_private_addr");
    reveal_strlit("ledger_path");
    reveal_strlit("accounts_path");
    reveal_strlit("account_snapshot_paths");
    reveal_strlit("limit_ledger_size");
    reveal_strlit("rpc_port");
    reveal_strlit("rpc_bind_address");
    reveal_strlit("enable_rpc_transaction_history");
    reveal_strlit("enable_extended_tx_metadata_storage");
    reveal_strlit("rpc_threads");
    reveal_strlit("rpc_blocking_threads");
    reveal_strlit("rpc_max_request_body_size");
    reveal_strlit("rpc_pubsub_max_active_subscriptions");
    reveal_strlit("rpc_pubsub_queue_capacity_items");
    reveal_strlit("rpc_pubsub_queue_capacity_bytes");
    reveal_strlit("accounts_shrink_ratio");
    reveal_strlit("accounts_shrink_optimize_total_space");
    reveal_strlit("banking_trace_dir_byte_limit");
    reveal_strlit("tpu_connection_pool_size");
    reveal_strlit("tpu_max_connections_per_peer");
    reveal_strlit("tpu_max_connections_per_ipaddr_per_minute");
    reveal_strlit("tpu_max_staked_connections");
    reveal_strlit("tpu_max_unstaked_connections");
    reveal_strlit("tpu_max_streams_per_ms");
    reveal_strlit("snapshot_version");
    reveal_strlit("snapshot_archive_format");
    reveal_strlit("full_snapshot_archive_interval_slots");
    reveal_strlit("incremental_snapshot_archive_interval_slots");
    reveal_strlit("maximum_full_snapshot_archives_to_retain");
    reveal_strlit("maximum_incremental_snapshot_archives_to_retain");
    reveal_strlit("min_snapshot_download_speed");
    reveal_strlit("max_snapshot_download_abort");
    reveal_strlit("replay_forks_threads");
    reveal_strlit("replay_transactions_threads");
    reveal_strlit("tvu_shred_sigverify_threads");
    reveal_strlit("voting_disabled");
    reveal_strlit("dev_halt_at_slot");
    reveal_strlit("wait_for_supermajority");
    reveal_strlit("expected_genesis_hash");
    reveal_strlit("expected_bank_hash");
    reveal_strlit("expected_shred_version");
    reveal_strlit("no_voting");
    reveal_strlit("no_check_vote_account");
    reveal_strlit("identity");
    reveal_strlit("vote_account");
    reveal_strlit("authorized_voter_keypairs");
    reveal_strlit("known_validators");
    reveal_strlit("only_known_rpc");
    reveal_strlit("log_messages_bytes_limit");
    reveal_strlit("skip_startup_ledger_verification");
    reveal_strlit("skip_poh_verify");
    reveal_strlit("debug_keys");
    assert("debug_keys"@.len() == 10);
    assert("bind_address"@.len() == 12);
    assert("debug_keys"@ != "bind_address"@);
    assert("debug_keys"@[0] == 'd');
    assert("entrypoint"@[0] == 'e');
    assert("debug_keys"@ != "entrypoint"@);
    assert("debug_keys"@.len() == 10);
    assert("gossip_port"@.len() == 11);
    assert("debug_keys"@ != "gossip_port"@);
    assert("debug_keys"@.len() == 10);
    assert("gossip_host"@.len() == 11);
    assert("debug_keys"@ != "gossip_host"@);
    assert("debug_keys"@.len() == 10);
    assert("dynamic_port_range"@.len() == 18);
    assert("debug_keys"@ != "dynamic_port_range"@);
    assert("debug_keys"@.len() == 10);
    assert("allow_private_addr"@.len() == 18);
    assert("debug_keys"@ != "allow_private_addr"@);
    assert("debug_keys"@.len() == 10);
    assert("ledger_path"@.len() == 11);
    assert("debug_keys"@ != "ledger_path"@);
    assert("debug_keys"@.len() == 10);
    assert("accounts_path"@.len() == 13);
    assert("debug_keys"@ != "accounts_path"@);
    assert("debug_keys"@.len() == 10);
    assert("account_snapshot_paths"@.len() == 22);
    assert("debug_keys"@ != "account_snapshot_paths"@);
    assert("debug_keys"@.len() == 10);
    assert("limit_ledger_size"@.len() == 17);
    assert("debug_keys"@ != "limit_ledger_size"@);
    assert("debug_keys"@.len() == 10);
    assert("rpc_port"@.len() == 8);
    assert("debug_keys"@ != "rpc_port"@);
    assert("debug_keys"@.len() == 10);
    assert("rpc_bind_address"@.len() == 16);
    assert("debug_keys"@ != "rpc_bind_address"@);
    assert("debug_keys"@.len() == 10);
    assert("enable_rpc_transaction_history"@.len() == 30);
    assert("debug_keys"@ != "enable_rpc_transaction_history"@);
    assert("debug_keys"@.len() == 10);
    assert("enable_extended_tx_metadata_storage"@.len() == 35);
    assert("debug_keys"@ != "enable_extended_tx_metadata_storage"@);
    assert("debug_keys"@.len() == 10);
    assert("rpc_threads"@.len() == 11);
    assert("debug_keys"@ != "rpc_threads"@);
    assert("debug_keys"@.len() == 10);
    assert("rpc_blocking_threads"@.len() == 20);
    assert("debug_keys"@ != "rpc_blocking_threads"@);
    assert("debug_keys"@.len() == 10);
    assert("rpc_max_request_body_size"@.len() == 25);
    assert("debug_keys"@ != "rpc_max_request_body_size"@);
    assert("debug_keys"@.len() == 10);
    assert("rpc_pubsub_max_active_subscriptions"@.len() == 35);
    assert("debug_keys"@ != "rpc_pubsub_max_active_subscriptions"@);
    assert("debug_keys"@.len() == 10);
    assert("rpc_pubsub_queue_capacity_items"@.len() == 31);
    assert("debug_keys"@ != "rpc_pubsub_queue_capacity_items"@);
    assert("debug_keys"@.len() == 10);
    assert("rpc_pubsub_queue_capacity_bytes"@.len() == 31);
    assert("debug_keys"@ != "rpc_pubsub_queue_capacity_bytes"@);
    assert("debug_keys"@.len() == 10);
    assert("accounts_shrink_ratio"@.len() == 21);
    assert("debug_keys"@ != "accounts_shrink_ratio"@);
    assert("debug_keys"@.len() == 10);
    assert("accounts_shrink_optimize_total_space"@.len() == 36);
    assert("debug_keys"@ != "accounts_shrink_optimize_total_space"@);
    assert("debug_keys"@.len() == 10);
    assert("banking_trace_dir_byte_limit"@.len() == 28);
    assert("debug_keys"@ != "banking_trace_dir_byte_limit"@);
    assert("debug_keys"@.len() == 10);
    assert("tpu_connection_pool_size"@.len() == 24);
    assert("debug_keys"@ != "tpu_connection_pool_size"@);
    assert("debug_keys"@.len() == 10);
    assert("tpu_max_connections_per_peer"@.len() == 28);
    assert("debug_keys"@ != "tpu_max_connections_per_peer"@);
    assert("debug_keys"@.len() == 10);
    assert("tpu_max_connections_per_ipaddr_per_minute"@.len() == 41);
    assert("debug_keys"@ != "tpu_max_connections_per_ipaddr_per_minute"@);
    assert("debug_keys"@.len() == 10);
    assert("tpu_max_staked_connections"@.len() == 26);
    assert("debug_keys"@ != "tpu_max_staked_connections"@);
    assert("debug_keys"@.len() == 10);
    assert("tpu_max_unstaked_connections"@.len() == 28);
    assert("debug_keys"@ != "tpu_max_unstaked_connections"@);
    assert("debug_keys"@.len() == 10);
    assert("tpu_max_streams_per_ms"@.len() == 22);
    assert("debug_keys"@ != "tpu_max_streams_per_ms"@);
    assert("debug_keys"@.len() == 10);
    assert("snapshot_version"@.len() == 16);
    assert("debug_keys"@ != "snapshot_version"@);
    assert("debug_keys"@.len() == 10);
    assert("snapshot_archive_format"@.len() == 23);
    assert("debug_keys"@ != "snapshot_archive_format"@);
    assert("debug_keys"@.len() == 10);
    assert("full_snapshot_archive_interval_slots"@.len() == 36);
    assert("debug_keys"@ != "full_snapshot_archive_interval_slots"@);
    assert("debug_keys"@.len() == 10);
    assert("incremental_snapshot_archive_interval_slots"@.len() == 43);
    assert("debug_keys"@ != "incremental_snapshot_archive_interval_slots"@);
    assert("debug_keys"@.len() == 10);
    assert("maximum_full_snapshot_archives_to_retain"@.len() == 40);
    assert("debug_keys"@ != "maximum_full_snapshot_archives_to_retain"@);
    assert("debug_keys"@.len() == 10);
    assert("maximum_incremental_snapshot_archives_to_retain"@.len() == 47);
    assert("debug_keys"@ != "maximum_incremental_snapshot_archives_to_retain"@);
    assert("debug_keys"@.len() == 10);
    assert("min_snapshot_download_speed"@.len() == 27);
    assert("debug_keys"@ != "min_snapshot_download_speed"@);
    assert("debug_keys"@.len() == 10);
    assert("max_snapshot_download_abort"@.len() == 27);
    assert("debug_keys"@ != "max_snapshot_download_abort"@);
    assert("debug_keys"@.len() == 10);
    assert("replay_forks_threads"@.len() == 20);
    assert("debug_keys"@ != "replay_forks_threads"@);
    assert("debug_keys"@.len() == 10);
    assert("replay_transactions_threads"@.len() == 27);
    assert("debug_keys"@ != "replay_transactions_threads"@);
    assert("debug_keys"@.len() == 10);
    assert("tvu_shred_sigverify_threads"@.len() == 27);
    assert("debug_keys"@ != "tvu_shred_sigverify_threads"@);
    assert("debug_keys"@.len() == 10);
    assert("voting_disabled"@.len() == 15);
    assert("debug_keys"@ != "voting_disabled"@);
    assert("debug_keys"@.len() == 10);
    assert("dev_halt_at_slot"@.len() == 16);
    assert("debug_keys"@ != "dev_halt_at_slot"@);
    assert("debug_keys"@.len() == 10);
    assert("wait_for_supermajority"@.len() == 22);
    assert("debug_keys"@ != "wait_for_supermajority"@);
    assert("debug_keys"@.len() == 10);
    assert("expected_genesis_hash"@.len() == 21);
    assert("debug_keys"@ != "expected_genesis_hash"@);
    assert("debug_keys"@.len() == 10);
    assert("expected_bank_hash"@.len() == 18);
    assert("debug_keys"@ != "expected_bank_hash"@);
    assert("debug_keys"@.len() == 10);
    assert("expected_shred_version"@.len() == 22);
    assert("debug_keys"@ != "expected_shred_version"@);
    assert("debug_keys"@.len() == 10);
    assert("no_voting"@.len() == 9);
    assert("debug_keys"@ != "no_voting"@);
    assert("debug_keys"@.len() == 10);
    assert("no_check_vote_account"@.len() == 21);
    assert("debug_keys"@ != "no_check_vote_account"@);
    assert("debug_keys"@.len() == 10);
    assert("identity"@.len() == 8);
    assert("debug_keys"@ != "identity"@);
    assert("debug_keys"@.len() == 10);
    assert("vote_account"@.len() == 12);
    assert("debug_keys"@ != "vote_account"@);
    assert("debug_keys"@.len() == 10);
    assert("authorized_voter_keypairs"@.len() == 25);
    assert("debug_keys"@ != "authorized_voter_keypairs"@);
    assert("debug_keys"@.len() == 10);
    assert("known_validators"@.len() == 16);
    assert("debug_keys"@ != "known_validators"@);
    assert("debug_keys"@.len() == 10);
    assert("only_known_rpc"@.len() == 14);
    assert("debug_keys"@ != "only_known_rpc"@);
    assert("debug_keys"@.len() == 10);
    assert("log_messages_bytes_limit"@.len() == 24);
    assert("debug_keys"@ != "log_messages_bytes_limit"@);
    assert("debug_keys"@.len() == 10);
    assert("skip_startup_ledger_verification"@.len() == 32);
    assert("debug_keys"@ != "skip_startup_ledger_verification"@);
    assert("debug_keys"@.len() == 10);
    assert("skip_poh_verify"@.len() == 15);
    assert("debug_keys"@ != "skip_poh_verify"@);
}

#[verifier::spinoff_prover]
#[verifier::rlimit(100)]
proof fn lemma_fold_network(c0: ConfigV, c: ConfigV)
    ensures
        fold_pairs(c0, pairs_network(c)) == Some(ConfigV {
            bind_address: opt_or(c.bind_address, c0.bind_address),
            entrypoint: opt_or(c.entrypoint, c0.entrypoint),
            gossip_port: opt_or(c.gossip_port, c0.gossip_port),
            gossip_host: opt_or(c.gossip_host, c0.gossip_host),
            dynamic_port_range: opt_or(c.dynamic_port_range, c0.dynamic_port_range),
            allow_private_addr: opt_or(c.allow_private_addr, c0.allow_private_addr),
            ..c0
        }),
{
    let p1 = seg_str("bind_address"@, c.bind_address);
    let p2 = seg_list("entrypoint"@, c.entrypoint);
    let p3 = seg_nat("gossip_port"@, on_u16(c.gossip_port));
    let p4 = seg_str("gossip_host"@, c.gossip_host);
    let p5 = seg_str("dynamic_port_range"@, c.dynamic_port_range);
    let p6 = seg_bool("allow_private_addr"@, c.allow_private_addr);
    let cc1 = ConfigV { bind_address: opt_or(c.bind_address, c0.bind_address), ..c0 };
    lemma_fold_one_seg(c0, p1);
    if c.bind_address is Some {
        lemma_apply_bind_address(c0, p1[0].1);
        assert(p1[0].0 == "bind_address"@);
        assert(spec_apply(c0, "bind_address"@, p1[0].1) == Some(ConfigV { bind_address: c.bind_address, ..c0 }));
        assert(ConfigV { bind_address: c.bind_address, ..c0 } =~= cc1);
    } else {
        assert(cc1 =~= c0);
    }
    assert(fold_pairs(c0, p1) == Some(cc1));
    assert(fold_pairs(c0, p1) == Some(cc1));
    let cc2 = ConfigV { entrypoint: opt_or(c.entrypoint, cc1.entrypoint), ..cc1 };
    lemma_fold_append(c0, p1, p2);
    lemma_fold_one_seg(cc1, p2);
    if c.entrypoint is Some {
        lemma_apply_entrypoint(cc1, p2[0].1);
        assert(p2[0].0 == "entrypoint"@);
        assert(spec_apply(cc1, "entrypoint"@, p2[0].1) == Some(ConfigV { entrypoint: c.entrypoint, ..cc1 }));
        assert(ConfigV { entrypoint: c.entrypoint, ..cc1 } =~= cc2);
    } else {
        assert(cc2 =~= cc1);
    }
    assert(fold_pairs(cc1, p2) == Some(cc2));
    assert(fold_pairs(c0, p1 + p2) == Some(cc2));
    let cc3 = ConfigV { gossip_port: opt_or(c.gossip_port, cc2.gossip_port), ..cc2 };
    lemma_fold_append(c0, p1 + p2, p3);
    lemma_fold_one_seg(cc2, p3);
    if c.gossip_port is Some {
        let n = c.gossip_port.unwrap();
        lemma_dec_roundtrip(n as u64);
        assert(dec_digits(n as nat) == dec_digits((n as u64) as nat));
        assert((n as u64) as u16 == n);
        lemma_apply_gossip_port(cc2, p3[0].1);
        assert(p3[0].0 == "gossip_port"@);
        assert(spec_apply(cc2, "gossip_port"@, p3[0].1) == Some(ConfigV { gossip_port: c.gossip_port, ..cc2 }));
        assert(ConfigV { gossip_port: c.gossip_port, ..cc2 } =~= cc3);
    } else {
        assert(cc3 =~= cc2);
    }
    assert(fold_pairs(cc2, p3) == Some(cc3));
    assert(fold_pairs(c0, p1 + p2 + p3) == Some(cc3));
    let cc4 = ConfigV { gossip_host: opt_or(c.gossip_host, cc3.gossip_host), ..cc3 };
    lemma_fold_append(c0, p1 + p2 + p3, p4);
    lemma_fold_one_seg(cc3, p4);
    if c.gossip_host is Some {
        lemma_apply_gossip_host(cc3, p4[0].1);
        assert(p4[0].0 == "gossip_host"@);
        assert(spec_apply(cc3, "gossip_host"@, p4[0].1) == Some(ConfigV { gossip_host: c.gossip_host, ..cc3 }));
        assert(ConfigV { gossip_host: c.gossip_host, ..cc3 } =~= cc4);
    } else {
        assert(cc4 =~= cc3);
    }
    assert(fold_pairs(cc3, p4) == Some(cc4));
    assert(fold_pairs(c0, p1 + p2 + p3 + p4) == Some(cc4));
    let cc5 = ConfigV { dynamic_port_range: opt_or(c.dynamic_port_range, cc4.dynamic_port_range), ..cc4 };
    lemma_fold_append(c0, p1 + p2 + p3 + p4, p5);
    lemma_fold_one_seg(cc4, p5);
    if c.dynamic_port_range is Some {
        lemma_apply_dynamic_port_range(cc4, p5[0].1);
        assert(p5[0].0 == "dynamic_port_range"@);
        assert(spec_apply(cc4, "dynamic_port_range"@, p5[0].1) == Some(ConfigV { dynamic_port_range: c.dynamic_port_range, ..cc4 }));
        assert(ConfigV { dynamic_port_range: c.dynamic_port_range, ..cc4 } =~= cc5);
    } else {
        assert(cc5 =~= cc4);
    }
    assert(fold_pairs(cc4, p5) == Some(cc5));
    assert(fold_pairs(c0, p1 + p2 + p3 + p4 + p5) == Some(cc5));
    let cc6 = ConfigV { allow_private_addr: opt_or(c.allow_private_addr, cc5.allow_private_addr), ..cc5 };
    lemma_fold_append(c0, p1 + p2 + p3 + p4 + p5, p6);
    lemma_fold_one_seg(cc5, p6);
    if c.allow_private_addr is Some {
        lemma_apply_allow_private_addr(cc5, p6[0].1);
        assert(p6[0].0 == "allow_private_addr"@);
        assert(spec_apply(cc5, "allow_private_addr"@, p6[0].1) == Some(ConfigV { allow_private_addr: c.allow_private_addr, ..cc5 }));
        assert(ConfigV { allow_private_addr: c.allow_private_addr, ..cc5 } =~= cc6);
    } else {
        assert(cc6 =~= cc5);
    }
    assert(fold_pairs(cc5, p6) == Some(cc6));
    assert(fold_pairs(c0, p1 + p2 + p3 + p4 + p5 + p6) == Some(cc6));
    assert(pairs_network(c) == p1 + p2 + p3 + p4 + p5 + p6);
    assert(cc6 =~= ConfigV {
        bind_address: opt_or(c.bind_address, c0.bind_address),
        entrypoint: opt_or(c.entrypoint, c0.entrypoint),
        gossip_port: opt_or(c.gossip_port, c0.gossip_port),
        gossip_host: opt_or(c.gossip_host, c0.gossip_host),
        dynamic_port_range: opt_or(c.dynamic_port_range, c0.dynamic_port_range),
        allow_private_addr: opt_or(c.allow_private_addr, c0.allow_private_addr),
        ..c0
    });
}
#[verifier::spinoff_prover]
#[verifier::rlimit(100)]
proof fn lemma_fold_ledger(c0: ConfigV, c: ConfigV)
    ensures
        fold_pairs(c0, pairs_ledger(c)) == Some(ConfigV {
            ledger_path: opt_or(c.ledger_path, c0.ledger_path),
            accounts_path: opt_or(c.accounts_path, c0.accounts_path),
            account_snapshot_paths: opt_or(c.account_snapshot_paths, c0.account_snapshot_paths),
            limit_ledger_size: opt_or(c.limit_ledger_size, c0.limit_ledger_size),
            ..c0
        }),
{
    let p1 = seg_str("ledger_path"@, c.ledger_path);
    let p2 = seg_list("accounts_path"@, c.accounts_path);
    let p3 = seg_list("account_snapshot_paths"@, c.account_snapshot_paths);
    let p4 = seg_nat("limit_ledger_size"@, on_u64(c.limit_ledger_size));
    let cc1 = ConfigV { ledger_path: opt_or(c.ledger_path, c0.ledger_path), ..c0 };
    lemma_fold_one_seg(c0, p1);
    if c.ledger_path is Some {
        lemma_apply_ledger_path(c0, p1[0].1);
        assert(p1[0].0 == "ledger_path"@);
        assert(spec_apply(c0, "ledger_path"@, p1[0].1) == Some(ConfigV { ledger_path: c.ledger_path, ..c0 }));
        assert(ConfigV { ledger_path: c.ledger_path, ..c0 } =~= cc1);
    } else {
        assert(cc1 =~= c0);
    }
    assert(fold_pairs(c0, p1) == Some(cc1));
    assert(fold_pairs(c0, p1) == Some(cc1));
    let cc2 = ConfigV { accounts_path: opt_or(c.accounts_path, cc1.accounts_path), ..cc1 };
    lemma_fold_append(c0, p1, p2);
    lemma_fold_one_seg(cc1, p2);
    if c.accounts_path is Some {
        lemma_apply_accounts_path(cc1, p2[0].1);
        assert(p2[0].0 == "accounts_path"@);
        assert(spec_apply(cc1, "accounts_path"@, p2[0].1) == Some(ConfigV { accounts_path: c.accounts_path, ..cc1 }));
        assert(ConfigV { accounts_path: c.accounts_path, ..cc1 } =~= cc2);
    } else {
        assert(cc2 =~= cc1);
    }
    assert(fold_pairs(cc1, p2) == Some(cc2));
    assert(fold_pairs(c0, p1 + p2) == Some(cc2));
    let cc3 = ConfigV { account_snapshot_paths: opt_or(c.account_snapshot_paths, cc2.account_snapshot_paths), ..cc2 };
    lemma_fold_append(c0, p1 + p2, p3);
    lemma_fold_one_seg(cc2, p3);
    if c.account_snapshot_paths is Some {
        lemma_apply_account_snapshot_paths(cc2, p3[0].1);
        assert(p3[0].0 == "account_snapshot_paths"@);
        assert(spec_apply(cc2, "account_snapshot_paths"@, p3[0].1) == Some(ConfigV { account_snapshot_paths: c.account_snapshot_paths, ..cc2 }));
        assert(ConfigV { account_snapshot_paths: c.account_snapshot_paths, ..cc2 } =~= cc3);
    } else {
        assert(cc3 =~= cc2);
    }
    assert(fold_pairs(cc2, p3) == Some(cc3));
    assert(fold_pairs(c0, p1 + p2 + p3) == Some(cc3));
    let cc4 = ConfigV { limit_ledger_size: opt_or(c.limit_ledger_size, cc3.limit_ledger_size), ..cc3 };
    lemma_fold_append(c0, p1 + p2 + p3, p4);
    lemma_fold_one_seg(cc3, p4);
    if c.limit_ledger_size is Some {
        let n = c.limit_ledger_size.unwrap();
        lemma_dec_roundtrip(n as u64);
        assert(dec_digits(n as nat) == dec_digits((n as u64) as nat));
        lemma_apply_limit_ledger_size(cc3, p4[0].1);
        assert(p4[0].0 == "limit_ledger_size"@);
        assert(spec_apply(cc3, "limit_ledger_size"@, p4[0].1) == Some(ConfigV { limit_ledger_size: c.limit_ledger_size, ..cc3 }));
        assert(ConfigV { limit_ledger_size: c.limit_ledger_size, ..cc3 } =~= cc4);
    } else {
        assert(cc4 =~= cc3);
    }
    assert(fold_pairs(cc3, p4) == Some(cc4));
    assert(fold_pairs(c0, p1 + p2 + p3 + p4) == Some(cc4));
    assert(pairs_ledger(c) == p1 + p2 + p3 + p4);
    assert(cc4 =~= ConfigV {
        ledger_path: opt_or(c.ledger_path, c0.ledger_path),
        accounts_path: opt_or(c.accounts_path, c0.accounts_path),
        account_snapshot_paths: opt_or(c.account_snapshot_paths, c0.account_snapshot_paths),
        limit_ledger_size: opt_or(c.limit_ledger_size, c0.limit_ledger_size),
        ..c0
    });
}
#[verifier::spinoff_prover]
#[verifier::rlimit(100)]
proof fn lemma_fold_rpc_head(c0: ConfigV, c: ConfigV)
    ensures
        fold_pairs(c0, seg_nat("rpc_port"@, on_u16(c.rpc_port)) + seg_str("rpc_bind_address"@, c.rpc_bind_address) + seg_bool("enable_rpc_transaction_history"@, c.enable_rpc_transaction_history) + seg_bool("enable_extended_tx_metadata_storage"@, c.enable_extended_tx_metadata_storage) + seg_nat("rpc_threads"@, on_usize(c.rpc_threads))) == Some(ConfigV {
            rpc_port: opt_or(c.rpc_port, c0.rpc_port),
            rpc_bind_address: opt_or(c.rpc_bind_address, c0.rpc_bind_address),
            enable_rpc_transaction_history: opt_or(c.enable_rpc_transaction_history, c0.enable_rpc_transaction_history),
            enable_extended_tx_metadata_storage: opt_or(c.enable_extended_tx_metadata_storage, c0.enable_extended_tx_metadata_storage),
            rpc_threads: opt_or(c.rpc_threads, c0.rpc_threads),
            ..c0
        }),
{
    let p1 = seg_nat("rpc_port"@, on_u16(c.rpc_port));
    let p2 = seg_str("rpc_bind_address"@, c.rpc_bind_address);
    let p3 = seg_bool("enable_rpc_transaction_history"@, c.enable_rpc_transaction_history);
    let p4 = seg_bool("enable_extended_tx_metadata_storage"@, c.enable_extended_tx_metadata_storage);
    let p5 = seg_nat("rpc_threads"@, on_usize(c.rpc_threads));
    let cc1 = ConfigV { rpc_port: opt_or(c.rpc_port, c0.rpc_port), ..c0 };
    lemma_fold_one_seg(c0, p1);
    if c.rpc_port is Some {
        let n = c.rpc_port.unwrap();
        lemma_dec_roundtrip(n as u64);
        assert(dec_digits(n as nat) == dec_digits((n as u64) as nat));
        assert((n as u64) as u16 == n);
        lemma_apply_rpc_port(c0, p1[0].1);
        assert(p1[0].0 == "rpc_port"@);
        assert(spec_apply(c0, "rpc_port"@, p1[0].1) == Some(ConfigV { rpc_port: c.rpc_port, ..c0 }));
        assert(ConfigV { rpc_port: c.rpc_port, ..c0 } =~= cc1);
    } else {
        assert(cc1 =~= c0);
    }
    assert(fold_pairs(c0, p1) == Some(cc1));
    let cc2 = ConfigV { rpc_bind_address: opt_or(c.rpc_bind_address, cc1.rpc_bind_address), ..cc1 };
    lemma_fold_append(c0, p1, p2);
    lemma_fold_one_seg(cc1, p2);
    if c.rpc_bind_address is Some {
        lemma_apply_rpc_bind_address(cc1, p2[0].1);
        assert(p2[0].0 == "rpc_bind_address"@);
        assert(spec_apply(cc1, "rpc_bind_address"@, p2[0].1) == Some(ConfigV { rpc_bind_address: c.rpc_bind_address, ..cc1 }));
        assert(ConfigV { rpc_bind_address: c.rpc_bind_address, ..cc1 } =~= cc2);
    } else {
        assert(cc2 =~= cc1);
    }
    assert(fold_pairs(cc1, p2) == Some(cc2));
    assert(fold_pairs(c0, p1 + p2) == Some(cc2));
    let cc3 = ConfigV { enable_rpc_transaction_history: opt_or(c.enable_rpc_transaction_history, cc2.enable_rpc_transaction_history), ..cc2 };
    lemma_fold_append(c0, p1 + p2, p3);
    lemma_fold_one_seg(cc2, p3);
    if c.enable_rpc_transaction_history is Some {
        lemma_apply_enable_rpc_transaction_history(cc2, p3[0].1);
        assert(p3[0].0 == "enable_rpc_transaction_history"@);
        assert(spec_apply(cc2, "enable_rpc_transaction_history"@, p3[0].1) == Some(ConfigV { enable_rpc_transaction_history: c.enable_rpc_transaction_history, ..cc2 }));
        assert(ConfigV { enable_rpc_transaction_history: c.enable_rpc_transaction_history, ..cc2 } =~= cc3);
    } else {
        assert(cc3 =~= cc2);
    }
    assert(fold_pairs(cc2, p3) == Some(cc3));
    assert(fold_pairs(c0, p1 + p2 + p3) == Some(cc3));
    let cc4 = ConfigV { enable_extended_tx_metadata_storage: opt_or(c.enable_extended_tx_metadata_storage, cc3.enable_extended_tx_metadata_storage), ..cc3 };
    lemma_fold_append(c0, p1 + p2 + p3, p4);
    lemma_fold_one_seg(cc3, p4);
    if c.enable_extended_tx_metadata_storage is Some {
        lemma_apply_enable_extended_tx_metadata_storage(cc3, p4[0].1);
        assert(p4[0].0 == "enable_extended_tx_metadata_storage"@);
        assert(spec_apply(cc3, "enable_extended_tx_metadata_storage"@, p4[0].1) == Some(ConfigV { enable_extended_tx_metadata_storage: c.enable_extended_tx_metadata_storage, ..cc3 }));
        assert(ConfigV { enable_extended_tx_metadata_storage: c.enable_extended_tx_metadata_storage, ..cc3 } =~= cc4);
    } else {
        assert(cc4 =~= cc3);
    }
    assert(fold_pairs(cc3, p4) == Some(cc4));
    assert(fold_pairs(c0, p1 + p2 + p3 + p4) == Some(cc4));
    let cc5 = ConfigV { rpc_threads: opt_or(c.rpc_threads, cc4.rpc_threads), ..cc4 };
    lemma_fold_append(c0, p1 + p2 + p3 + p4, p5);
    lemma_fold_one_seg(cc4, p5);
    if c.rpc_threads is Some {
        let n = c.rpc_threads.unwrap();
        lemma_dec_roundtrip(n as u64);
        assert(dec_digits(n as nat) == dec_digits((n as u64) as nat));
        assert((n as u64) as usize == n);
        lemma_apply_rpc_threads(cc4, p5[0].1);
        assert(p5[0].0 == "rpc_threads"@);
        assert(spec_apply(cc4, "rpc_threads"@, p5[0].1) == Some(ConfigV { rpc_threads: c.rpc_threads, ..cc4 }));
        assert(ConfigV { rpc_threads: c.rpc_threads, ..cc4 } =~= cc5);
    } else {
        assert(cc5 =~= cc4);
    }
    assert(fold_pairs(cc4, p5) == Some(cc5));
    assert(fold_pairs(c0, p1 + p2 + p3 + p4 + p5) == Some(cc5));
    assert(cc5 =~= ConfigV {
        rpc_port: opt_or(c.rpc_port, c0.rpc_port),
        rpc_bind_address: opt_or(c.rpc_bind_address, c0.rpc_bind_address),
        enable_rpc_transaction_history: opt_or(c.enable_rpc_transaction_history, c0.enable_rpc_transaction_history),
        enable_extended_tx_metadata_storage: opt_or(c.enable_extended_tx_metadata_storage, c0.enable_extended_tx_metadata_storage),
        rpc_threads: opt_or(c.rpc_threads, c0.rpc_threads),
        ..c0
    });
}

#[verifier::spinoff_prover]
#[verifier::rlimit(100)]
proof fn lemma_fold_rpc(c0: ConfigV, c: ConfigV)
    ensures
        fold_pairs(c0, pairs_rpc(c)) == Some(ConfigV {
            rpc_port: opt_or(c.rpc_port, c0.rpc_port),
            rpc_bind_address: opt_or(c.rpc_bind_address, c0.rpc_bind_address),
            enable_rpc_transaction_history: opt_or(c.enable_rpc_transaction_history, c0.enable_rpc_transaction_history),
            enable_extended_tx_metadata_storage: opt_or(c.enable_extended_tx_metadata_storage, c0.enable_extended_tx_metadata_storage),
            rpc_threads: opt_or(c.rpc_threads, c0.rpc_threads),
            rpc_blocking_threads: opt_or(c.rpc_blocking_threads, c0.rpc_blocking_threads),
            rpc_max_request_body_size: opt_or(c.rpc_max_request_body_size, c0.rpc_max_request_body_size),
            rpc_pubsub_max_active_subscriptions: opt_or(c.rpc_pubsub_max_active_subscriptions, c0.rpc_pubsub_max_active_subscriptions),
            rpc_pubsub_queue_capacity_items: opt_or(c.rpc_pubsub_queue_capacity_items, c0.rpc_pubsub_queue_capacity_items),
            rpc_pubsub_queue_capacity_bytes: opt_or(c.rpc_pubsub_queue_capacity_bytes, c0.rpc_pubsub_queue_capacity_bytes),
            ..c0
        }),
{
    let p1 = seg_nat("rpc_port"@, on_u16(c.rpc_port));
    let p2 = seg_str("rpc_bind_address"@, c.rpc_bind_address);
    let p3 = seg_bool("enable_rpc_transaction_history"@, c.enable_rpc_transaction_history);
    let p4 = seg_bool("enable_extended_tx_metadata_storage"@, c.enable_extended_tx_metadata_storage);
    let p5 = seg_nat("rpc_threads"@, on_usize(c.rpc_threads));
    let p6 = seg_nat("rpc_blocking_threads"@, on_usize(c.rpc_blocking_threads));
    let p7 = seg_nat("rpc_max_request_body_size"@, on_usize(c.rpc_max_request_body_size));
    let p8 = seg_nat("rpc_pubsub_max_active_subscriptions"@, on_usize(c.rpc_pubsub_max_active_subscriptions));
    let p9 = seg_nat("rpc_pubsub_queue_capacity_items"@, on_usize(c.rpc_pubsub_queue_capacity_items));
    let p10 = seg_nat("rpc_pubsub_queue_capacity_bytes"@, on_usize(c.rpc_pubsub_queue_capacity_bytes));
    lemma_fold_rpc_head(c0, c);
    let cc5 = ConfigV {
        rpc_port: opt_or(c.rpc_port, c0.rpc_port),
        rpc_bind_address: opt_or(c.rpc_bind_address, c0.rpc_bind_address),
        enable_rpc_transaction_history: opt_or(c.enable_rpc_transaction_history, c0.enable_rpc_transaction_history),
        enable_extended_tx_metadata_storage: opt_or(c.enable_extended_tx_metadata_storage, c0.enable_extended_tx_metadata_storage),
        rpc_threads: opt_or(c.rpc_threads, c0.rpc_threads),
        ..c0
    };
    assert(fold_pairs(c0, p1 + p2 + p3 + p4 + p5) == Some(cc5));
    let cc6 = ConfigV { rpc_blocking_threads: opt_or(c.rpc_blocking_threads, cc5.rpc_blocking_threads), ..cc5 };
    lemma_fold_append(c0, p1 + p2 + p3 + p4 + p5, p6);
    lemma_fold_one_seg(cc5, p6);
    if c.rpc_blocking_threads is Some {
        let n = c.rpc_blocking_threads.unwrap();
        lemma_dec_roundtrip(n as u64);
        assert(dec_digits(n as nat) == dec_digits((n as u64) as nat));
        assert((n as u64) as usize == n);
        lemma_apply_rpc_blocking_threads(cc5, p6[0].1);
        assert(p6[0].0 == "rpc_blocking_threads"@);
        assert(spec_apply(cc5, "rpc_blocking_threads"@, p6[0].1) == Some(ConfigV { rpc_blocking_threads: c.rpc_blocking_threads, ..cc5 }));
        assert(ConfigV { rpc_blocking_threads: c.rpc_blocking_threads, ..cc5 } =~= cc6);
    } else {
        assert(cc6 =~= cc5);
    }
    assert(fold_pairs(cc5, p6) == Some(cc6));
    assert(fold_pairs(c0, p1 + p2 + p3 + p4 + p5 + p6) == Some(cc6));
    let cc7 = ConfigV { rpc_max_request_body_size: opt_or(c.rpc_max_request_body_size, cc6.rpc_max_request_body_size), ..cc6 };
    lemma_fold_append(c0, p1 + p2 + p3 + p4 + p5 + p6, p7);
    lemma_fold_one_seg(cc6, p7);
    if c.rpc_max_request_body_size is Some {
        let n = c.rpc_max_request_body_size.unwrap();
        lemma_dec_roundtrip(n as u64);
        assert(dec_digits(n as nat) == dec_digits((n as u64) as nat));
        assert((n as u64) as usize == n);
        lemma_apply_rpc_max_request_body_size(cc6, p7[0].1);
        assert(p7[0].0 == "rpc_max_request_body_size"@);
        assert(spec_apply(cc6, "rpc_max_request_body_size"@, p7[0].1) == Some(ConfigV { rpc_max_request_body_size: c.rpc_max_request_body_size, ..cc6 }));
        assert(ConfigV { rpc_max_request_body_size: c.rpc_max_request_body_size, ..cc6 } =~= cc7);
    } else {
        assert(cc7 =~= cc6);
    }
    assert(fold_pairs(cc6, p7) == Some(cc7));
    assert(fold_pairs(c0, p1 + p2 + p3 + p4 + p5 + p6 + p7) == Some(cc7));
    let cc8 = ConfigV { rpc_pubsub_max_active_subscriptions: opt_or(c.rpc_pubsub_max_active_subscriptions, cc7.rpc_pubsub_max_active_subscriptions), ..cc7 };
    lemma_fold_append(c0, p1 + p2 + p3 + p4 + p5 + p6 + p7, p8);
    lemma_fold_one_seg(cc7, p8);
    if c.rpc_pubsub_max_active_subscriptions is Some {
        let n = c.rpc_pubsub_max_active_subscriptions.unwrap();
        lemma_dec_roundtrip(n as u64);
        assert(dec_digits(n as nat) == dec_digits((n as u64) as nat));
        assert((n as u64) as usize == n);
        lemma_apply_rpc_pubsub_max_active_subscriptions(cc7, p8[0].1);
        assert(p8[0].0 == "rpc_pubsub_max_active_subscriptions"@);
        assert(spec_apply(cc7, "rpc_pubsub_max_active_subscriptions"@, p8[0].1) == Some(ConfigV { rpc_pubsub_max_active_subscriptions: c.rpc_pubsub_max_active_subscriptions, ..cc7 }));
        assert(ConfigV { rpc_pubsub_max_active_subscriptions: c.rpc_pubsub_max_active_subscriptions, ..cc7 } =~= cc8);
    } else {
        assert(cc8 =~= cc7);
    }
    assert(fold_pairs(cc7, p8) == Some(cc8));
    assert(fold_pairs(c0, p1 + p2 + p3 + p4 + p5 + p6 + p7 + p8) == Some(cc8));
    let cc9 = ConfigV { rpc_pubsub_queue_capacity_items: opt_or(c.rpc_pubsub_queue_capacity_items, cc8.rpc_pubsub_queue_capacity_items), ..cc8 };
    lemma_fold_append(c0, p1 + p2 + p3 + p4 + p5 + p6 + p7 + p8, p9);
    lemma_fold_one_seg(cc8, p9);
    if c.rpc_pubsub_queue_capacity_items is Some {
        let n = c.rpc_pubsub_queue_capacity_items.unwrap();
        lemma_dec_roundtrip(n as u64);
        assert(dec_digits(n as nat) == dec_digits((n as u64) as nat));
        assert((n as u64) as usize == n);
        lemma_apply_rpc_pubsub_queue_capacity_items(cc8, p9[0].1);
        assert(p9[0].0 == "rpc_pubsub_queue_capacity_items"@);
        assert(spec_apply(cc8, "rpc_pubsub_queue_capacity_items"@, p9[0].1) == Some(ConfigV { rpc_pubsub_queue_capacity_items: c.rpc_pubsub_queue_capacity_items, ..cc8 }));
        assert(ConfigV { rpc_pubsub_queue_capacity_items: c.rpc_pubsub_queue_capacity_items, ..cc8 } =~= cc9);
    } else {
        assert(cc9 =~= cc8);
    }
    assert(fold_pairs(cc8, p9) == Some(cc9));
    assert(fold_pairs(c0, p1 + p2 + p3 + p4 + p5 + p6 + p7 + p8 + p9) == Some(cc9));
    let cc10 = ConfigV { rpc_pubsub_queue_capacity_bytes: opt_or(c.rpc_pubsub_queue_capacity_bytes, cc9.rpc_pubsub_queue_capacity_bytes), ..cc9 };
    lemma_fold_append(c0, p1 + p2 + p3 + p4 + p5 + p6 + p7 + p8 + p9, p10);
    lemma_fold_one_seg(cc9, p10);
    if c.rpc_pubsub_queue_capacity_bytes is Some {
        let n = c.rpc_pubsub_queue_capacity_bytes.unwrap();
        lemma_dec_roundtrip(n as u64);
        assert(dec_digits(n as nat) == dec_digits((n as u64) as nat));
        assert((n as u64) as usize == n);
        lemma_apply_rpc_pubsub_queue_capacity_bytes(cc9, p10[0].1);
        assert(p10[0].0 == "rpc_pubsub_queue_capacity_bytes"@);
        assert(spec_apply(cc9, "rpc_pubsub_queue_capacity_bytes"@, p10[0].1) == Some(ConfigV { rpc_pubsub_queue_capacity_bytes: c.rpc_pubsub_queue_capacity_bytes, ..cc9 }));
        assert(ConfigV { rpc_pubsub_queue_capacity_bytes: c.rpc_pubsub_queue_capacity_bytes, ..cc9 } =~= cc10);
    } else {
        assert(cc10 =~= cc9);
    }
    assert(fold_pairs(cc9, p10) == Some(cc10));
    assert(fold_pairs(c0, p1 + p2 + p3 + p4 + p5 + p6 + p7 + p8 + p9 + p10) == Some(cc10));
    assert(pairs_rpc(c) == p1 + p2 + p3 + p4 + p5 + p6 + p7 + p8 + p9 + p10);
    assert(cc10 =~= ConfigV {
        rpc_port: opt_or(c.rpc_port, c0.rpc_port),
        rpc_bind_address: opt_or(c.rpc_bind_address, c0.rpc_bind_address),
        enable_rpc_transaction_history: opt_or(c.enable_rpc_transaction_history, c0.enable_rpc_transaction_history),
        enable_extended_tx_metadata_storage: opt_or(c.enable_extended_tx_metadata_storage, c0.enable_extended_tx_metadata_storage),
        rpc_threads: opt_or(c.rpc_threads, c0.rpc_threads),
        rpc_blocking_threads: opt_or(c.rpc_blocking_threads, c0.rpc_blocking_threads),
        rpc_max_request_body_size: opt_or(c.rpc_max_request_body_size, c0.rpc_max_request_body_size),
        rpc_pubsub_max_active_subscriptions: opt_or(c.rpc_pubsub_max_active_subscriptions, c0.rpc_pubsub_max_active_subscriptions),
        rpc_pubsub_queue_capacity_items: opt_or(c.rpc_pubsub_queue_capacity_items, c0.rpc_pubsub_queue_capacity_items),
        rpc_pubsub_queue_capacity_bytes: opt_or(c.rpc_pubsub_queue_capacity_bytes, c0.rpc_pubsub_queue_capacity_bytes),
        ..c0
    });
}
#[verifier::spinoff_prover]
#[verifier::rlimit(100)]
proof fn lemma_fold_perf_head(c0: ConfigV, c: ConfigV)
    ensures
        fold_pairs(c0, seg_dec("accounts_shrink_ratio"@, c.accounts_shrink_ratio) + seg_bool("accounts_shrink_optimize_total_space"@, c.accounts_shrink_optimize_total_space) + seg_nat("banking_trace_dir_byte_limit"@, on_u64(c.banking_trace_dir_byte_limit)) + seg_nat("tpu_connection_pool_size"@, on_usize(c.tpu_connection_pool_size)) + seg_nat("tpu_max_connections_per_peer"@, on_usize(c.tpu_max_connections_per_peer))) == Some(ConfigV {
            accounts_shrink_ratio: opt_or(c.accounts_shrink_ratio, c0.accounts_shrink_ratio),
            accounts_shrink_optimize_total_space: opt_or(c.accounts_shrink_optimize_total_space, c0.accounts_shrink_optimize_total_space),
            banking_trace_dir_byte_limit: opt_or(c.banking_trace_dir_byte_limit, c0.banking_trace_dir_byte_limit),
            tpu_connection_pool_size: opt_or(c.tpu_connection_pool_size, c0.tpu_connection_pool_size),
            tpu_max_connections_per_peer: opt_or(c.tpu_max_connections_per_peer, c0.tpu_max_connections_per_peer),
            ..c0
        }),
{
    let p1 = seg_dec("accounts_shrink_ratio"@, c.accounts_shrink_ratio);
    let p2 = seg_bool("accounts_shrink_optimize_total_space"@, c.accounts_shrink_optimize_total_space);
    let p3 = seg_nat("banking_trace_dir_byte_limit"@, on_u64(c.banking_trace_dir_byte_limit));
    let p4 = seg_nat("tpu_connection_pool_size"@, on_usize(c.tpu_connection_pool_size));
    let p5 = seg_nat("tpu_max_connections_per_peer"@, on_usize(c.tpu_max_connections_per_peer));
    let cc1 = ConfigV { accounts_shrink_ratio: opt_or(c.accounts_shrink_ratio, c0.accounts_shrink_ratio), ..c0 };
    lemma_fold_one_seg(c0, p1);
    if c.accounts_shrink_ratio is Some {
        lemma_apply_accounts_shrink_ratio(c0, p1[0].1);
        assert(p1[0].0 == "accounts_shrink_ratio"@);
        assert(spec_apply(c0, "accounts_shrink_ratio"@, p1[0].1) == Some(ConfigV { accounts_shrink_ratio: c.accounts_shrink_ratio, ..c0 }));
        assert(ConfigV { accounts_shrink_ratio: c.accounts_shrink_ratio, ..c0 } =~= cc1);
    } else {
        assert(cc1 =~= c0);
    }
    assert(fold_pairs(c0, p1) == Some(cc1));
    let cc2 = ConfigV { accounts_shrink_optimize_total_space: opt_or(c.accounts_shrink_optimize_total_space, cc1.accounts_shrink_optimize_total_space), ..cc1 };
    lemma_fold_append(c0, p1, p2);
    lemma_fold_one_seg(cc1, p2);
    if c.accounts_shrink_optimize_total_space is Some {
        lemma_apply_accounts_shrink_optimize_total_space(cc1, p2[0].1);
        assert(p2[0].0 == "accounts_shrink_optimize_total_space"@);
        assert(spec_apply(cc1, "accounts_shrink_optimize_total_space"@, p2[0].1) == Some(ConfigV { accounts_shrink_optimize_total_space: c.accounts_shrink_optimize_total_space, ..cc1 }));
        assert(ConfigV { accounts_shrink_optimize_total_space: c.accounts_shrink_optimize_total_space, ..cc1 } =~= cc2);
    } else {
        assert(cc2 =~= cc1);
    }
    assert(fold_pairs(cc1, p2) == Some(cc2));
    assert(fold_pairs(c0, p1 + p2) == Some(cc2));
    let cc3 = ConfigV { banking_trace_dir_byte_limit: opt_or(c.banking_trace_dir_byte_limit, cc2.banking_trace_dir_byte_limit), ..cc2 };
    lemma_fold_append(c0, p1 + p2, p3);
    lemma_fold_one_seg(cc2, p3);
    if c.banking_trace_dir_byte_limit is Some {
        let n = c.banking_trace_dir_byte_limit.unwrap();
        lemma_dec_roundtrip(n as u64);
        assert(dec_digits(n as nat) == dec_digits((n as u64) as nat));
        lemma_apply_banking_trace_dir_byte_limit(cc2, p3[0].1);
        assert(p3[0].0 == "banking_trace_dir_byte_limit"@);
        assert(spec_apply(cc2, "banking_trace_dir_byte_limit"@, p3[0].1) == Some(ConfigV { banking_trace_dir_byte_limit: c.banking_trace_dir_byte_limit, ..cc2 }));
        assert(ConfigV { banking_trace_dir_byte_limit: c.banking_trace_dir_byte_limit, ..cc2 } =~= cc3);
    } else {
        assert(cc3 =~= cc2);
    }
    assert(fold_pairs(cc2, p3) == Some(cc3));
    assert(fold_pairs(c0, p1 + p2 + p3) == Some(cc3));
    let cc4 = ConfigV { tpu_connection_pool_size: opt_or(c.tpu_connection_pool_size, cc3.tpu_connection_pool_size), ..cc3 };
    lemma_fold_append(c0, p1 + p2 + p3, p4);
    lemma_fold_one_seg(cc3, p4);
    if c.tpu_connection_pool_size is Some {
        let n = c.tpu_connection_pool_size.unwrap();
        lemma_dec_roundtrip(n as u64);
        assert(dec_digits(n as nat) == dec_digits((n as u64) as nat));
        assert((n as u64) as usize == n);
        lemma_apply_tpu_connection_pool_size(cc3, p4[0].1);
        assert(p4[0].0 == "tpu_connection_pool_size"@);
        assert(spec_apply(cc3, "tpu_connection_pool_size"@, p4[0].1) == Some(ConfigV { tpu_connection_pool_size: c.tpu_connection_pool_size, ..cc3 }));
        assert(ConfigV { tpu_connection_pool_size: c.tpu_connection_pool_size, ..cc3 } =~= cc4);
    } else {
        assert(cc4 =~= cc3);
    }
    assert(fold_pairs(cc3, p4) == Some(cc4));
    assert(fold_pairs(c0, p1 + p2 + p3 + p4) == Some(cc4));
    let cc5 = ConfigV { tpu_max_connections_per_peer: opt_or(c.tpu_max_connections_per_peer, cc4.tpu_max_connections_per_peer), ..cc4 };
    lemma_fold_append(c0, p1 + p2 + p3 + p4, p5);
    lemma_fold_one_seg(cc4, p5);
    if c.tpu_max_connections_per_peer is Some {
        let n = c.tpu_max_connections_per_peer.unwrap();
        lemma_dec_roundtrip(n as u64);
        assert(dec_digits(n as nat) == dec_digits((n as u64) as nat));
        assert((n as u64) as usize == n);
        lemma_apply_tpu_max_connections_per_peer(cc4, p5[0].1);
        assert(p5[0].0 == "tpu_max_connections_per_peer"@);
        assert(spec_apply(cc4, "tpu_max_connections_per_peer"@, p5[0].1) == Some(ConfigV { tpu_max_connections_per_peer: c.tpu_max_connections_per_peer, ..cc4 }));
        assert(ConfigV { tpu_max_connections_per_peer: c.tpu_max_connections_per_peer, ..cc4 } =~= cc5);
    } else {
        assert(cc5 =~= cc4);
    }
    assert(fold_pairs(cc4, p5) == Some(cc5));
    assert(fold_pairs(c0, p1 + p2 + p3 + p4 + p5) == Some(cc5));
    assert(cc5 =~= ConfigV {
        accounts_shrink_ratio: opt_or(c.accounts_shrink_ratio, c0.accounts_shrink_ratio),
        accounts_shrink_optimize_total_space: opt_or(c.accounts_shrink_optimize_total_space, c0.accounts_shrink_optimize_total_space),
        banking_trace_dir_byte_limit: opt_or(c.banking_trace_dir_byte_limit, c0.banking_trace_dir_byte_limit),
        tpu_connection_pool_size: opt_or(c.tpu_connection_pool_size, c0.tpu_connection_pool_size),
        tpu_max_connections_per_peer: opt_or(c.tpu_max_connections_per_peer, c0.tpu_max_connections_per_peer),
        ..c0
    });
}

#[verifier::spinoff_prover]
#[verifier::rlimit(100)]
proof fn lemma_fold_perf(c0: ConfigV, c: ConfigV)
    ensures
        fold_pairs(c0, pairs_perf(c)) == Some(ConfigV {
            accounts_shrink_ratio: opt_or(c.accounts_shrink_ratio, c0.accounts_shrink_ratio),
            accounts_shrink_optimize_total_space: opt_or(c.accounts_shrink_optimize_total_space, c0.accounts_shrink_optimize_total_space),
            banking_trace_dir_byte_limit: opt_or(c.banking_trace_dir_byte_limit, c0.banking_trace_dir_byte_limit),
            tpu_connection_pool_size: opt_or(c.tpu_connection_pool_size, c0.tpu_connection_pool_size),
            tpu_max_connections_per_peer: opt_or(c.tpu_max_connections_per_peer, c0.tpu_max_connections_per_peer),
            tpu_max_connections_per_ipaddr_per_minute: opt_or(c.tpu_max_connections_per_ipaddr_per_minute, c0.tpu_max_connections_per_ipaddr_per_minute),
            tpu_max_staked_connections: opt_or(c.tpu_max_staked_connections, c0.tpu_max_staked_connections),
            tpu_max_unstaked_connections: opt_or(c.tpu_max_unstaked_connections, c0.tpu_max_unstaked_connections),
            tpu_max_streams_per_ms: opt_or(c.tpu_max_streams_per_ms, c0.tpu_max_streams_per_ms),
            ..c0
        }),
{
    let p1 = seg_dec("accounts_shrink_ratio"@, c.accounts_shrink_ratio);
    let p2 = seg_bool("accounts_shrink_optimize_total_space"@, c.accounts_shrink_optimize_total_space);
    let p3 = seg_nat("banking_trace_dir_byte_limit"@, on_u64(c.banking_trace_dir_byte_limit));
    let p4 = seg_nat("tpu_connection_pool_size"@, on_usize(c.tpu_connection_pool_size));
    let p5 = seg_nat("tpu_max_connections_per_peer"@, on_usize(c.tpu_max_connections_per_peer));
    let p6 = seg_nat("tpu_max_connections_per_ipaddr_per_minute"@, on_u64(c.tpu_max_connections_per_ipaddr_per_minute));
    let p7 = seg_nat("tpu_max_staked_connections"@, on_usize(c.tpu_max_staked_connections));
    let p8 = seg_nat("tpu_max_unstaked_connections"@, on_usize(c.tpu_max_unstaked_connections));
    let p9 = seg_nat("tpu_max_streams_per_ms"@, on_usize(c.tpu_max_streams_per_ms));
    lemma_fold_perf_head(c0, c);
    let cc5 = ConfigV {
        accounts_shrink_ratio: opt_or(c.accounts_shrink_ratio, c0.accounts_shrink_ratio),
        accounts_shrink_optimize_total_space: opt_or(c.accounts_shrink_optimize_total_space, c0.accounts_shrink_optimize_total_space),
        banking_trace_dir_byte_limit: opt_or(c.banking_trace_dir_byte_limit, c0.banking_trace_dir_byte_limit),
        tpu_connection_pool_size: opt_or(c.tpu_connection_pool_size, c0.tpu_connection_pool_size),
        tpu_max_connections_per_peer: opt_or(c.tpu_max_connections_per_peer, c0.tpu_max_connections_per_peer),
        ..c0
    };
    assert(fold_pairs(c0, p1 + p2 + p3 + p4 + p5) == Some(cc5));
    let cc6 = ConfigV { tpu_max_connections_per_ipaddr_per_minute: opt_or(c.tpu_max_connections_per_ipaddr_per_minute, cc5.tpu_max_connections_per_ipaddr_per_minute), ..cc5 };
    lemma_fold_append(c0, p1 + p2 + p3 + p4 + p5, p6);
    lemma_fold_one_seg(cc5, p6);
    if c.tpu_max_connections_per_ipaddr_per_minute is Some {
        let n = c.tpu_max_connections_per_ipaddr_per_minute.unwrap();
        lemma_dec_roundtrip(n as u64);
        assert(dec_digits(n as nat) == dec_digits((n as u64) as nat));
        lemma_apply_tpu_max_connections_per_ipaddr_per_minute(cc5, p6[0].1);
        assert(p6[0].0 == "tpu_max_connections_per_ipaddr_per_minute"@);
        assert(spec_apply(cc5, "tpu_max_connections_per_ipaddr_per_minute"@, p6[0].1) == Some(ConfigV { tpu_max_connections_per_ipaddr_per_minute: c.tpu_max_connections_per_ipaddr_per_minute, ..cc5 }));
        assert(ConfigV { tpu_max_connections_per_ipaddr_per_minute: c.tpu_max_connections_per_ipaddr_per_minute, ..cc5 } =~= cc6);
    } else {
        assert(cc6 =~= cc5);
    }
    assert(fold_pairs(cc5, p6) == Some(cc6));
    assert(fold_pairs(c0, p1 + p2 + p3 + p4 + p5 + p6) == Some(cc6));
    let cc7 = ConfigV { tpu_max_staked_connections: opt_or(c.tpu_max_staked_connections, cc6.tpu_max_staked_connections), ..cc6 };
    lemma_fold_append(c0, p1 + p2 + p3 + p4 + p5 + p6, p7);
    lemma_fold_one_seg(cc6, p7);
    if c.tpu_max_staked_connections is Some {
        let n = c.tpu_max_staked_connections.unwrap();
        lemma_dec_roundtrip(n as u64);
        assert(dec_digits(n as nat) == dec_digits((n as u64) as nat));
        assert((n as u64) as usize == n);
        lemma_apply_tpu_max_staked_connections(cc6, p7[0].1);
        assert(p7[0].0 == "tpu_max_staked_connections"@);
        assert(spec_apply(cc6, "tpu_max_staked_connections"@, p7[0].1) == Some(ConfigV { tpu_max_staked_connections: c.tpu_max_staked_connections, ..cc6 }));
        assert(ConfigV { tpu_max_staked_connections: c.tpu_max_staked_connections, ..cc6 } =~= cc7);
    } else {
        assert(cc7 =~= cc6);
    }
    assert(fold_pairs(cc6, p7) == Some(cc7));
    assert(fold_pairs(c0, p1 + p2 + p3 + p4 + p5 + p6 + p7) == Some(cc7));
    let cc8 = ConfigV { tpu_max_unstaked_connections: opt_or(c.tpu_max_unstaked_connections, cc7.tpu_max_unstaked_connections), ..cc7 };
    lemma_fold_append(c0, p1 + p2 + p3 + p4 + p5 + p6 + p7, p8);
    lemma_fold_one_seg(cc7, p8);
    if c.tpu_max_unstaked_connections is Some {
        let n = c.tpu_max_unstaked_connections.unwrap();
        lemma_dec_roundtrip(n as u64);
        assert(dec_digits(n as nat) == dec_digits((n as u64) as nat));
        assert((n as u64) as usize == n);
        lemma_apply_tpu_max_unstaked_connections(cc7, p8[0].1);
        assert(p8[0].0 == "tpu_max_unstaked_connections"@);
        assert(spec_apply(cc7, "tpu_max_unstaked_connections"@, p8[0].1) == Some(ConfigV { tpu_max_unstaked_connections: c.tpu_max_unstaked_connections, ..cc7 }));
        assert(ConfigV { tpu_max_unstaked_connections: c.tpu_max_unstaked_connections, ..cc7 } =~= cc8);
    } else {
        assert(cc8 =~= cc7);
    }
    assert(fold_pairs(cc7, p8) == Some(cc8));
    assert(fold_pairs(c0, p1 + p2 + p3 + p4 + p5 + p6 + p7 + p8) == Some(cc8));
    let cc9 = ConfigV { tpu_max_streams_per_ms: opt_or(c.tpu_max_streams_per_ms, cc8.tpu_max_streams_per_ms), ..cc8 };
    lemma_fold_append(c0, p1 + p2 + p3 + p4 + p5 + p6 + p7 + p8, p9);
    lemma_fold_one_seg(cc8, p9);
    if c.tpu_max_streams_per_ms is Some {
        let n = c.tpu_max_streams_per_ms.unwrap();
        lemma_dec_roundtrip(n as u64);
        assert(dec_digits(n as nat) == dec_digits((n as u64) as nat));
        assert((n as u64) as usize == n);
        lemma_apply_tpu_max_streams_per_ms(cc8, p9[0].1);
        assert(p9[0].0 == "tpu_max_streams_per_ms"@);
        assert(spec_apply(cc8, "tpu_max_streams_per_ms"@, p9[0].1) == Some(ConfigV { tpu_max_streams_per_ms: c.tpu_max_streams_per_ms, ..cc8 }));
        assert(ConfigV { tpu_max_streams_per_ms: c.tpu_max_streams_per_ms, ..cc8 } =~= cc9);
    } else {
        assert(cc9 =~= cc8);
    }
    assert(fold_pairs(cc8, p9) == Some(cc9));
    assert(fold_pairs(c0, p1 + p2 + p3 + p4 + p5 + p6 + p7 + p8 + p9) == Some(cc9));
    assert(pairs_perf(c) == p1 + p2 + p3 + p4 + p5 + p6 + p7 + p8 + p9);
    assert(cc9 =~= ConfigV {
        accounts_shrink_ratio: opt_or(c.accounts_shrink_ratio, c0.accounts_shrink_ratio),
        accounts_shrink_optimize_total_space: opt_or(c.accounts_shrink_optimize_total_space, c0.accounts_shrink_optimize_total_space),
        banking_trace_dir_byte_limit: opt_or(c.banking_trace_dir_byte_limit, c0.banking_trace_dir_byte_limit),
        tpu_connection_pool_size: opt_or(c.tpu_connection_pool_size, c0.tpu_connection_pool_size),
        tpu_max_connections_per_peer: opt_or(c.tpu_max_connections_per_peer, c0.tpu_max_connections_per_peer),
        tpu_max_connections_per_ipaddr_per_minute: opt_or(c.tpu_max_connections_per_ipaddr_per_minute, c0.tpu_max_connections_per_ipaddr_per_minute),
        tpu_max_staked_connections: opt_or(c.tpu_max_staked_connections, c0.tpu_max_staked_connections),
        tpu_max_unstaked_connections: opt_or(c.tpu_max_unstaked_connections, c0.tpu_max_unstaked_connections),
        tpu_max_streams_per_ms: opt_or(c.tpu_max_streams_per_ms, c0.tpu_max_streams_per_ms),
        ..c0
    });
}
#[verifier::spinoff_prover]
#[verifier::rlimit(100)]
proof fn lemma_fold_snapshot(c0: ConfigV, c: ConfigV)
    ensures
        fold_pairs(c0, pairs_snapshot(c)) == Some(ConfigV {
            snapshot_version: opt_or(c.snapshot_version, c0.snapshot_version),
            snapshot_archive_format: opt_or(c.snapshot_archive_format, c0.snapshot_archive_format),
            full_snapshot_archive_interval_slots: opt_or(c.full_snapshot_archive_interval_slots, c0.full_snapshot_archive_interval_slots),
            incremental_snapshot_archive_interval_slots: opt_or(c.incremental_snapshot_archive_interval_slots, c0.incremental_snapshot_archive_interval_slots),
            maximum_full_snapshot_archives_to_retain: opt_or(c.maximum_full_snapshot_archives_to_retain, c0.maximum_full_snapshot_archives_to_retain),
            maximum_incremental_snapshot_archives_to_retain: opt_or(c.maximum_incremental_snapshot_archives_to_retain, c0.maximum_incremental_snapshot_archives_to_retain),
            min_snapshot_download_speed: opt_or(c.min_snapshot_download_speed, c0.min_snapshot_download_speed),
            max_snapshot_download_abort: opt_or(c.max_snapshot_download_abort, c0.max_snapshot_download_abort),
            ..c0
        }),
{
    let p1 = seg_str("snapshot_version"@, c.snapshot_version);
    let p2 = seg_str("snapshot_archive_format"@, c.snapshot_archive_format);
    let p3 = seg_nat("full_snapshot_archive_interval_slots"@, on_u64(c.full_snapshot_archive_interval_slots));
    let p4 = seg_nat("incremental_snapshot_archive_interval_slots"@, on_u64(c.incremental_snapshot_archive_interval_slots));
    let p5 = seg_nat("maximum_full_snapshot_archives_to_retain"@, on_usize(c.maximum_full_snapshot_archives_to_retain));
    let p6 = seg_nat("maximum_incremental_snapshot_archives_to_retain"@, on_usize(c.maximum_incremental_snapshot_archives_to_retain));
    let p7 = seg_nat("min_snapshot_download_speed"@, on_u64(c.min_snapshot_download_speed));
    let p8 = seg_nat("max_snapshot_download_abort"@, on_u32(c.max_snapshot_download_abort));
    let cc1 = ConfigV { snapshot_version: opt_or(c.snapshot_version, c0.snapshot_version), ..c0 };
    lemma_fold_one_seg(c0, p1);
    if c.snapshot_version is Some {
        lemma_apply_snapshot_version(c0, p1[0].1);
        assert(p1[0].0 == "snapshot_version"@);
        assert(spec_apply(c0, "snapshot_version"@, p1[0].1) == Some(ConfigV { snapshot_version: c.snapshot_version, ..c0 }));
        assert(ConfigV { snapshot_version: c.snapshot_version, ..c0 } =~= cc1);
    } else {
        assert(cc1 =~= c0);
    }
    assert(fold_pairs(c0, p1) == Some(cc1));
    assert(fold_pairs(c0, p1) == Some(cc1));
    let cc2 = ConfigV { snapshot_archive_format: opt_or(c.snapshot_archive_format, cc1.snapshot_archive_format), ..cc1 };
    lemma_fold_append(c0, p1, p2);
    lemma_fold_one_seg(cc1, p2);
    if c.snapshot_archive_format is Some {
        lemma_apply_snapshot_archive_format(cc1, p2[0].1);
        assert(p2[0].0 == "snapshot_archive_format"@);
        assert(spec_apply(cc1, "snapshot_archive_format"@, p2[0].1) == Some(ConfigV { snapshot_archive_format: c.snapshot_archive_format, ..cc1 }));
        assert(ConfigV { snapshot_archive_format: c.snapshot_archive_format, ..cc1 } =~= cc2);
    } else {
        assert(cc2 =~= cc1);
    }
    assert(fold_pairs(cc1, p2) == Some(cc2));
    assert(fold_pairs(c0, p1 + p2) == Some(cc2));
    let cc3 = ConfigV { full_snapshot_archive_interval_slots: opt_or(c.full_snapshot_archive_interval_slots, cc2.full_snapshot_archive_interval_slots), ..cc2 };
    lemma_fold_append(c0, p1 + p2, p3);
    lemma_fold_one_seg(cc2, p3);
    if c.full_snapshot_archive_interval_slots is Some {
        let n = c.full_snapshot_archive_interval_slots.unwrap();
        lemma_dec_roundtrip(n as u64);
        assert(dec_digits(n as nat) == dec_digits((n as u64) as nat));
        lemma_apply_full_snapshot_archive_interval_slots(cc2, p3[0].1);
        assert(p3[0].0 == "full_snapshot_archive_interval_slots"@);
        assert(spec_apply(cc2, "full_snapshot_archive_interval_slots"@, p3[0].1) == Some(ConfigV { full_snapshot_archive_interval_slots: c.full_snapshot_archive_interval_slots, ..cc2 }));
        assert(ConfigV { full_snapshot_archive_interval_slots: c.full_snapshot_archive_interval_slots, ..cc2 } =~= cc3);
    } else {
        assert(cc3 =~= cc2);
    }
    assert(fold_pairs(cc2, p3) == Some(cc3));
    assert(fold_pairs(c0, p1 + p2 + p3) == Some(cc3));
    let cc4 = ConfigV { incremental_snapshot_archive_interval_slots: opt_or(c.incremental_snapshot_archive_interval_slots, cc3.incremental_snapshot_archive_interval_slots), ..cc3 };
    lemma_fold_append(c0, p1 + p2 + p3, p4);
    lemma_fold_one_seg(cc3, p4);
    if c.incremental_snapshot_archive_interval_slots is Some {
        let n = c.incremental_snapshot_archive_interval_slots.unwrap();
        lemma_dec_roundtrip(n as u64);
        assert(dec_digits(n as nat) == dec_digits((n as u64) as nat));
        lemma_apply_incremental_snapshot_archive_interval_slots(cc3, p4[0].1);
        assert(p4[0].0 == "incremental_snapshot_archive_interval_slots"@);
        assert(spec_apply(cc3, "incremental_snapshot_archive_interval_slots"@, p4[0].1) == Some(ConfigV { incremental_snapshot_archive_interval_slots: c.incremental_snapshot_archive_interval_slots, ..cc3 }));
        assert(ConfigV { incremental_snapshot_archive_interval_slots: c.incremental_snapshot_archive_interval_slots, ..cc3 } =~= cc4);
    } else {
        assert(cc4 =~= cc3);
    }
    assert(fold_pairs(cc3, p4) == Some(cc4));
    assert(fold_pairs(c0, p1 + p2 + p3 + p4) == Some(cc4));
    let cc5 = ConfigV { maximum_full_snapshot_archives_to_retain: opt_or(c.maximum_full_snapshot_archives_to_retain, cc4.maximum_full_snapshot_archives_to_retain), ..cc4 };
    lemma_fold_append(c0, p1 + p2 + p3 + p4, p5);
    lemma_fold_one_seg(cc4, p5);
    if c.maximum_full_snapshot_archives_to_retain is Some {
        let n = c.maximum_full_snapshot_archives_to_retain.unwrap();
        lemma_dec_roundtrip(n as u64);
        assert(dec_digits(n as nat) == dec_digits((n as u64) as nat));
        assert((n as u64) as usize == n);
        lemma_apply_maximum_full_snapshot_archives_to_retain(cc4, p5[0].1);
        assert(p5[0].0 == "maximum_full_snapshot_archives_to_retain"@);
        assert(spec_apply(cc4, "maximum_full_snapshot_archives_to_retain"@, p5[0].1) == Some(ConfigV { maximum_full_snapshot_archives_to_retain: c.maximum_full_snapshot_archives_to_retain, ..cc4 }));
        assert(ConfigV { maximum_full_snapshot_archives_to_retain: c.maximum_full_snapshot_archives_to_retain, ..cc4 } =~= cc5);
    } else {
        assert(cc5 =~= cc4);
    }
    assert(fold_pairs(cc4, p5) == Some(cc5));
    assert(fold_pairs(c0, p1 + p2 + p3 + p4 + p5) == Some(cc5));
    let cc6 = ConfigV { maximum_incremental_snapshot_archives_to_retain: opt_or(c.maximum_incremental_snapshot_archives_to_retain, cc5.maximum_incremental_snapshot_archives_to_retain), ..cc5 };
    lemma_fold_append(c0, p1 + p2 + p3 + p4 + p5, p6);
    lemma_fold_one_seg(cc5, p6);
    if c.maximum_incremental_snapshot_archives_to_retain is Some {
        let n = c.maximum_incremental_snapshot_archives_to_retain.unwrap();
        lemma_dec_roundtrip(n as u64);
        assert(dec_digits(n as nat) == dec_digits((n as u64) as nat));
        assert((n as u64) as usize == n);
        lemma_apply_maximum_incremental_snapshot_archives_to_retain(cc5, p6[0].1);
        assert(p6[0].0 == "maximum_incremental_snapshot_archives_to_retain"@);
        assert(spec_apply(cc5, "maximum_incremental_snapshot_archives_to_retain"@, p6[0].1) == Some(ConfigV { maximum_incremental_snapshot_archives_to_retain: c.maximum_incremental_snapshot_archives_to_retain, ..cc5 }));
        assert(ConfigV { maximum_incremental_snapshot_archives_to_retain: c.maximum_incremental_snapshot_archives_to_retain, ..cc5 } =~= cc6);
    } else {
        assert(cc6 =~= cc5);
    }
    assert(fold_pairs(cc5, p6) == Some(cc6));
    assert(fold_pairs(c0, p1 + p2 + p3 + p4 + p5 + p6) == Some(cc6));
    let cc7 = ConfigV { min_snapshot_download_speed: opt_or(c.min_snapshot_download_speed, cc6.min_snapshot_download_speed), ..cc6 };
    lemma_fold_append(c0, p1 + p2 + p3 + p4 + p5 + p6, p7);
    lemma_fold_one_seg(cc6, p7);
    if c.min_snapshot_download_speed is Some {
        let n = c.min_snapshot_download_speed.unwrap();
        lemma_dec_roundtrip(n as u64);
        assert(dec_digits(n as nat) == dec_digits((n as u64) as nat));
        lemma_apply_min_snapshot_download_speed(cc6, p7[0].1);
        assert(p7[0].0 == "min_snapshot_download_speed"@);
        assert(spec_apply(cc6, "min_snapshot_download_speed"@, p7[0].1) == Some(ConfigV { min_snapshot_download_speed: c.min_snapshot_download_speed, ..cc6 }));
        assert(ConfigV { min_snapshot_download_speed: c.min_snapshot_download_speed, ..cc6 } =~= cc7);
    } else {
        assert(cc7 =~= cc6);
    }
    assert(fold_pairs(cc6, p7) == Some(cc7));
    assert(fold_pairs(c0, p1 + p2 + p3 + p4 + p5 + p6 + p7) == Some(cc7));
    let cc8 = ConfigV { max_snapshot_download_abort: opt_or(c.max_snapshot_download_abort, cc7.max_snapshot_download_abort), ..cc7 };
    lemma_fold_append(c0, p1 + p2 + p3 + p4 + p5 + p6 + p7, p8);
    lemma_fold_one_seg(cc7, p8);
    if c.max_snapshot_download_abort is Some {
        let n = c.max_snapshot_download_abort.unwrap();
        lemma_dec_roundtrip(n as u64);
        assert(dec_digits(n as nat) == dec_digits((n as u64) as nat));
        assert((n as u64) as u32 == n);
        lemma_apply_max_snapshot_download_abort(cc7, p8[0].1);
        assert(p8[0].0 == "max_snapshot_download_abort"@);
        assert(spec_apply(cc7, "max_snapshot_download_abort"@, p8[0].1) == Some(ConfigV { max_snapshot_download_abort: c.max_snapshot_download_abort, ..cc7 }));
        assert(ConfigV { max_snapshot_download_abort: c.max_snapshot_download_abort, ..cc7 } =~= cc8);
    } else {
        assert(cc8 =~= cc7);
    }
    assert(fold_pairs(cc7, p8) == Some(cc8));
    assert(fold_pairs(c0, p1 + p2 + p3 + p4 + p5 + p6 + p7 + p8) == Some(cc8));
    assert(pairs_snapshot(c) == p1 + p2 + p3 + p4 + p5 + p6 + p7 + p8);
    assert(cc8 =~= ConfigV {
        snapshot_version: opt_or(c.snapshot_version, c0.snapshot_version),
        snapshot_archive_format: opt_or(c.snapshot_archive_format, c0.snapshot_archive_format),
        full_snapshot_archive_interval_slots: opt_or(c.full_snapshot_archive_interval_slots, c0.full_snapshot_archive_interval_slots),
        incremental_snapshot_archive_interval_slots: opt_or(c.incremental_snapshot_archive_interval_slots, c0.incremental_snapshot_archive_interval_slots),
        maximum_full_snapshot_archives_to_retain: opt_or(c.maximum_full_snapshot_archives_to_retain, c0.maximum_full_snapshot_archives_to_retain),
        maximum_incremental_snapshot_archives_to_retain: opt_or(c.maximum_incremental_snapshot_archives_to_retain, c0.maximum_incremental_snapshot_archives_to_retain),
        min_snapshot_download_speed: opt_or(c.min_snapshot_download_speed, c0.min_snapshot_download_speed),
        max_snapshot_download_abort: opt_or(c.max_snapshot_download_abort, c0.max_snapshot_download_abort),
        ..c0
    });
}
#[verifier::spinoff_prover]
#[verifier::rlimit(100)]
proof fn lemma_fold_threads(c0: ConfigV, c: ConfigV)
    ensures
        fold_pairs(c0, pairs_threads(c)) == Some(ConfigV {
            replay_forks_threads: opt_or(c.replay_forks_threads, c0.replay_forks_threads),
            replay_transactions_threads: opt_or(c.replay_transactions_threads, c0.replay_transactions_threads),
            tvu_shred_sigverify_threads: opt_or(c.tvu_shred_sigverify_threads, c0.tvu_shred_sigverify_threads),
            ..c0
        }),
{
    let p1 = seg_nat("replay_forks_threads"@, on_usize(c.replay_forks_threads));
    let p2 = seg_nat("replay_transactions_threads"@, on_usize(c.replay_transactions_threads));
    let p3 = seg_nat("tvu_shred_sigverify_threads"@, on_usize(c.tvu_shred_sigverify_threads));
    let cc1 = ConfigV { replay_forks_threads: opt_or(c.replay_forks_threads, c0.replay_forks_threads), ..c0 };
    lemma_fold_one_seg(c0, p1);
    if c.replay_forks_threads is Some {
        let n = c.replay_forks_threads.unwrap();
        lemma_dec_roundtrip(n as u64);
        assert(dec_digits(n as nat) == dec_digits((n as u64) as nat));
        assert((n as u64) as usize == n);
        lemma_apply_replay_forks_threads(c0, p1[0].1);
        assert(p1[0].0 == "replay_forks_threads"@);
        assert(spec_apply(c0, "replay_forks_threads"@, p1[0].1) == Some(ConfigV { replay_forks_threads: c.replay_forks_threads, ..c0 }));
        assert(ConfigV { replay_forks_threads: c.replay_forks_threads, ..c0 } =~= cc1);
    } else {
        assert(cc1 =~= c0);
    }
    assert(fold_pairs(c0, p1) == Some(cc1));
    assert(fold_pairs(c0, p1) == Some(cc1));
    let cc2 = ConfigV { replay_transactions_threads: opt_or(c.replay_transactions_threads, cc1.replay_transactions_threads), ..cc1 };
    lemma_fold_append(c0, p1, p2);
    lemma_fold_one_seg(cc1, p2);
    if c.replay_transactions_threads is Some {
        let n = c.replay_transactions_threads.unwrap();
        lemma_dec_roundtrip(n as u64);
        assert(dec_digits(n as nat) == dec_digits((n as u64) as nat));
        assert((n as u64) as usize == n);
        lemma_apply_replay_transactions_threads(cc1, p2[0].1);
        assert(p2[0].0 == "replay_transactions_threads"@);
        assert(spec_apply(cc1, "replay_transactions_threads"@, p2[0].1) == Some(ConfigV { replay_transactions_threads: c.replay_transactions_threads, ..cc1 }));
        assert(ConfigV { replay_transactions_threads: c.replay_transactions_threads, ..cc1 } =~= cc2);
    } else {
        assert(cc2 =~= cc1);
    }
    assert(fold_pairs(cc1, p2) == Some(cc2));
    assert(fold_pairs(c0, p1 + p2) == Some(cc2));
    let cc3 = ConfigV { tvu_shred_sigverify_threads: opt_or(c.tvu_shred_sigverify_threads, cc2.tvu_shred_sigverify_threads), ..cc2 };
    lemma_fold_append(c0, p1 + p2, p3);
    lemma_fold_one_seg(cc2, p3);
    if c.tvu_shred_sigverify_threads is Some {
        let n = c.tvu_shred_sigverify_threads.unwrap();
        lemma_dec_roundtrip(n as u64);
        assert(dec_digits(n as nat) == dec_digits((n as u64) as nat));
        assert((n as u64) as usize == n);
        lemma_apply_tvu_shred_sigverify_threads(cc2, p3[0].1);
        assert(p3[0].0 == "tvu_shred_sigverify_threads"@);
        assert(spec_apply(cc2, "tvu_shred_sigverify_threads"@, p3[0].1) == Some(ConfigV { tvu_shred_sigverify_threads: c.tvu_shred_sigverify_threads, ..cc2 }));
        assert(ConfigV { tvu_shred_sigverify_threads: c.tvu_shred_sigverify_threads, ..cc2 } =~= cc3);
    } else {
        assert(cc3 =~= cc2);
    }
    assert(fold_pairs(cc2, p3) == Some(cc3));
    assert(fold_pairs(c0, p1 + p2 + p3) == Some(cc3));
    assert(pairs_threads(c) == p1 + p2 + p3);
    assert(cc3 =~= ConfigV {
        replay_forks_threads: opt_or(c.replay_forks_threads, c0.replay_forks_threads),
        replay_transactions_threads: opt_or(c.replay_transactions_threads, c0.replay_transactions_threads),
        tvu_shred_sigverify_threads: opt_or(c.tvu_shred_sigverify_threads, c0.tvu_shred_sigverify_threads),
        ..c0
    });
}
#[verifier::spinoff_prover]
#[verifier::rlimit(100)]
proof fn lemma_fold_behavior(c0: ConfigV, c: ConfigV)
    ensures
        fold_pairs(c0, pairs_behavior(c)) == Some(ConfigV {
            voting_disabled: opt_or(c.voting_disabled, c0.voting_disabled),
            dev_halt_at_slot: opt_or(c.dev_halt_at_slot, c0.dev_halt_at_slot),
            wait_for_supermajority: opt_or(c.wait_for_supermajority, c0.wait_for_supermajority),
            expected_genesis_hash: opt_or(c.expected_genesis_hash, c0.expected_genesis_hash),
            expected_bank_hash: opt_or(c.expected_bank_hash, c0.expected_bank_hash),
            expected_shred_version: opt_or(c.expected_shred_version, c0.expected_shred_version),
            no_voting: opt_or(c.no_voting, c0.no_voting),
            no_check_vote_account: opt_or(c.no_check_vote_account, c0.no_check_vote_account),
            ..c0
        }),
{
    let p1 = seg_bool("voting_disabled"@, c.voting_disabled);
    let p2 = seg_nat("dev_halt_at_slot"@, on_u64(c.dev_halt_at_slot));
    let p3 = seg_nat("wait_for_supermajority"@, on_u64(c.wait_for_supermajority));
    let p4 = seg_str("expected_genesis_hash"@, c.expected_genesis_hash);
    let p5 = seg_str("expected_bank_hash"@, c.expected_bank_hash);
    let p6 = seg_nat("expected_shred_version"@, on_u16(c.expected_shred_version));
    let p7 = seg_bool("no_voting"@, c.no_voting);
    let p8 = seg_bool("no_check_vote_account"@, c.no_check_vote_account);
    let cc1 = ConfigV { voting_disabled: opt_or(c.voting_disabled, c0.voting_disabled), ..c0 };
    lemma_fold_one_seg(c0, p1);
    if c.voting_disabled is Some {
        lemma_apply_voting_disabled(c0, p1[0].1);
        assert(p1[0].0 == "voting_disabled"@);
        assert(spec_apply(c0, "voting_disabled"@, p1[0].1) == Some(ConfigV { voting_disabled: c.voting_disabled, ..c0 }));
        assert(ConfigV { voting_disabled: c.voting_disabled, ..c0 } =~= cc1);
    } else {
        assert(cc1 =~= c0);
    }
    assert(fold_pairs(c0, p1) == Some(cc1));
    assert(fold_pairs(c0, p1) == Some(cc1));
    let cc2 = ConfigV { dev_halt_at_slot: opt_or(c.dev_halt_at_slot, cc1.dev_halt_at_slot), ..cc1 };
    lemma_fold_append(c0, p1, p2);
    lemma_fold_one_seg(cc1, p2);
    if c.dev_halt_at_slot is Some {
        let n = c.dev_halt_at_slot.unwrap();
        lemma_dec_roundtrip(n as u64);
        assert(dec_digits(n as nat) == dec_digits((n as u64) as nat));
        lemma_apply_dev_halt_at_slot(cc1, p2[0].1);
        assert(p2[0].0 == "dev_halt_at_slot"@);
        assert(spec_apply(cc1, "dev_halt_at_slot"@, p2[0].1) == Some(ConfigV { dev_halt_at_slot: c.dev_halt_at_slot, ..cc1 }));
        assert(ConfigV { dev_halt_at_slot: c.dev_halt_at_slot, ..cc1 } =~= cc2);
    } else {
        assert(cc2 =~= cc1);
    }
    assert(fold_pairs(cc1, p2) == Some(cc2));
    assert(fold_pairs(c0, p1 + p2) == Some(cc2));
    let cc3 = ConfigV { wait_for_supermajority: opt_or(c.wait_for_supermajority, cc2.wait_for_supermajority), ..cc2 };
    lemma_fold_append(c0, p1 + p2, p3);
    lemma_fold_one_seg(cc2, p3);
    if c.wait_for_supermajority is Some {
        let n = c.wait_for_supermajority.unwrap();
        lemma_dec_roundtrip(n as u64);
        assert(dec_digits(n as nat) == dec_digits((n as u64) as nat));
        lemma_apply_wait_for_supermajority(cc2, p3[0].1);
        assert(p3[0].0 == "wait_for_supermajority"@);
        assert(spec_apply(cc2, "wait_for_supermajority"@, p3[0].1) == Some(ConfigV { wait_for_supermajority: c.wait_for_supermajority, ..cc2 }));
        assert(ConfigV { wait_for_supermajority: c.wait_for_supermajority, ..cc2 } =~= cc3);
    } else {
        assert(cc3 =~= cc2);
    }
    assert(fold_pairs(cc2, p3) == Some(cc3));
    assert(fold_pairs(c0, p1 + p2 + p3) == Some(cc3));
    let cc4 = ConfigV { expected_genesis_hash: opt_or(c.expected_genesis_hash, cc3.expected_genesis_hash), ..cc3 };
    lemma_fold_append(c0, p1 + p2 + p3, p4);
    lemma_fold_one_seg(cc3, p4);
    if c.expected_genesis_hash is Some {
        lemma_apply_expected_genesis_hash(cc3, p4[0].1);
        assert(p4[0].0 == "expected_genesis_hash"@);
        assert(spec_apply(cc3, "expected_genesis_hash"@, p4[0].1) == Some(ConfigV { expected_genesis_hash: c.expected_genesis_hash, ..cc3 }));
        assert(ConfigV { expected_genesis_hash: c.expected_genesis_hash, ..cc3 } =~= cc4);
    } else {
        assert(cc4 =~= cc3);
    }
    assert(fold_pairs(cc3, p4) == Some(cc4));
    assert(fold_pairs(c0, p1 + p2 + p3 + p4) == Some(cc4));
    let cc5 = ConfigV { expected_bank_hash: opt_or(c.expected_bank_hash, cc4.expected_bank_hash), ..cc4 };
    lemma_fold_append(c0, p1 + p2 + p3 + p4, p5);
    lemma_fold_one_seg(cc4, p5);
    if c.expected_bank_hash is Some {
        lemma_apply_expected_bank_hash(cc4, p5[0].1);
        assert(p5[0].0 == "expected_bank_hash"@);
        assert(spec_apply(cc4, "expected_bank_hash"@, p5[0].1) == Some(ConfigV { expected_bank_hash: c.expected_bank_hash, ..cc4 }));
        assert(ConfigV { expected_bank_hash: c.expected_bank_hash, ..cc4 } =~= cc5);
    } else {
        assert(cc5 =~= cc4);
    }
    assert(fold_pairs(cc4, p5) == Some(cc5));
    assert(fold_pairs(c0, p1 + p2 + p3 + p4 + p5) == Some(cc5));
    let cc6 = ConfigV { expected_shred_version: opt_or(c.expected_shred_version, cc5.expected_shred_version), ..cc5 };
    lemma_fold_append(c0, p1 + p2 + p3 + p4 + p5, p6);
    lemma_fold_one_seg(cc5, p6);
    if c.expected_shred_version is Some {
        let n = c.expected_shred_version.unwrap();
        lemma_dec_roundtrip(n as u64);
        assert(dec_digits(n as nat) == dec_digits((n as u64) as nat));
        assert((n as u64) as u16 == n);
        lemma_apply_expected_shred_version(cc5, p6[0].1);
        assert(p6[0].0 == "expected_shred_version"@);
        assert(spec_apply(cc5, "expected_shred_version"@, p6[0].1) == Some(ConfigV { expected_shred_version: c.expected_shred_version, ..cc5 }));
        assert(ConfigV { expected_shred_version: c.expected_shred_version, ..cc5 } =~= cc6);
    } else {
        assert(cc6 =~= cc5);
    }
    assert(fold_pairs(cc5, p6) == Some(cc6));
    assert(fold_pairs(c0, p1 + p2 + p3 + p4 + p5 + p6) == Some(cc6));
    let cc7 = ConfigV { no_voting: opt_or(c.no_voting, cc6.no_voting), ..cc6 };
    lemma_fold_append(c0, p1 + p2 + p3 + p4 + p5 + p6, p7);
    lemma_fold_one_seg(cc6, p7);
    if c.no_voting is Some {
        lemma_apply_no_voting(cc6, p7[0].1);
        assert(p7[0].0 == "no_voting"@);
        assert(spec_apply(cc6, "no_voting"@, p7[0].1) == Some(ConfigV { no_voting: c.no_voting, ..cc6 }));
        assert(ConfigV { no_voting: c.no_voting, ..cc6 } =~= cc7);
    } else {
        assert(cc7 =~= cc6);
    }
    assert(fold_pairs(cc6, p7) == Some(cc7));
    assert(fold_pairs(c0, p1 + p2 + p3 + p4 + p5 + p6 + p7) == Some(cc7));
    let cc8 = ConfigV { no_check_vote_account: opt_or(c.no_check_vote_account, cc7.no_check_vote_account), ..cc7 };
    lemma_fold_append(c0, p1 + p2 + p3 + p4 + p5 + p6 + p7, p8);
    lemma_fold_one_seg(cc7, p8);
    if c.no_check_vote_account is Some {
        lemma_apply_no_check_vote_account(cc7, p8[0].1);
        assert(p8[0].0 == "no_check_vote_account"@);
        assert(spec_apply(cc7, "no_check_vote_account"@, p8[0].1) == Some(ConfigV { no_check_vote_account: c.no_check_vote_account, ..cc7 }));
        assert(ConfigV { no_check_vote_account: c.no_check_vote_account, ..cc7 } =~= cc8);
    } else {
        assert(cc8 =~= cc7);
    }
    assert(fold_pairs(cc7, p8) == Some(cc8));
    assert(fold_pairs(c0, p1 + p2 + p3 + p4 + p5 + p6 + p7 + p8) == Some(cc8));
    assert(pairs_behavior(c) == p1 + p2 + p3 + p4 + p5 + p6 + p7 + p8);
    assert(cc8 =~= ConfigV {
        voting_disabled: opt_or(c.voting_disabled, c0.voting_disabled),
        dev_halt_at_slot: opt_or(c.dev_halt_at_slot, c0.dev_halt_at_slot),
        wait_for_supermajority: opt_or(c.wait_for_supermajority, c0.wait_for_supermajority),
        expected_genesis_hash: opt_or(c.expected_genesis_hash, c0.expected_genesis_hash),
        expected_bank_hash: opt_or(c.expected_bank_hash, c0.expected_bank_hash),
        expected_shred_version: opt_or(c.expected_shred_version, c0.expected_shred_version),
        no_voting: opt_or(c.no_voting, c0.no_voting),
        no_check_vote_account: opt_or(c.no_check_vote_account, c0.no_check_vote_account),
        ..c0
    });
}
#[verifier::spinoff_prover]
#[verifier::rlimit(100)]
proof fn lemma_fold_identity(c0: ConfigV, c: ConfigV)
    ensures
        fold_pairs(c0, pairs_identity(c)) == Some(ConfigV {
            identity: opt_or(c.identity, c0.identity),
            vote_account: opt_or(c.vote_account, c0.vote_account),
            authorized_voter_keypairs: opt_or(c.authorized_voter_keypairs, c0.authorized_voter_keypairs),
            known_validators: opt_or(c.known_validators, c0.known_validators),
            only_known_rpc: opt_or(c.only_known_rpc, c0.only_known_rpc),
            ..c0
        }),
{
    let p1 = seg_str("identity"@, c.identity);
    let p2 = seg_str("vote_account"@, c.vote_account);
    let p3 = seg_list("authorized_voter_keypairs"@, c.authorized_voter_keypairs);
    let p4 = seg_list("known_validators"@, c.known_validators);
    let p5 = seg_bool("only_known_rpc"@, c.only_known_rpc);
    let cc1 = ConfigV { identity: opt_or(c.identity, c0.identity), ..c0 };
    lemma_fold_one_seg(c0, p1);
    if c.identity is Some {
        lemma_apply_identity(c0, p1[0].1);
        assert(p1[0].0 == "identity"@);
        assert(spec_apply(c0, "identity"@, p1[0].1) == Some(ConfigV { identity: c.identity, ..c0 }));
        assert(ConfigV { identity: c.identity, ..c0 } =~= cc1);
    } else {
        assert(cc1 =~= c0);
    }
    assert(fold_pairs(c0, p1) == Some(cc1));
    assert(fold_pairs(c0, p1) == Some(cc1));
    let cc2 = ConfigV { vote_account: opt_or(c.vote_account, cc1.vote_account), ..cc1 };
    lemma_fold_append(c0, p1, p2);
    lemma_fold_one_seg(cc1, p2);
    if c.vote_account is Some {
        lemma_apply_vote_account(cc1, p2[0].1);
        assert(p2[0].0 == "vote_account"@);
        assert(spec_apply(cc1, "vote_account"@, p2[0].1) == Some(ConfigV { vote_account: c.vote_account, ..cc1 }));
        assert(ConfigV { vote_account: c.vote_account, ..cc1 } =~= cc2);
    } else {
        assert(cc2 =~= cc1);
    }
    assert(fold_pairs(cc1, p2) == Some(cc2));
    assert(fold_pairs(c0, p1 + p2) == Some(cc2));
    let cc3 = ConfigV { authorized_voter_keypairs: opt_or(c.authorized_voter_keypairs, cc2.authorized_voter_keypairs), ..cc2 };
    lemma_fold_append(c0, p1 + p2, p3);
    lemma_fold_one_seg(cc2, p3);
    if c.authorized_voter_keypairs is Some {
        lemma_apply_authorized_voter_keypairs(cc2, p3[0].1);
        assert(p3[0].0 == "authorized_voter_keypairs"@);
        assert(spec_apply(cc2, "authorized_voter_keypairs"@, p3[0].1) == Some(ConfigV { authorized_voter_keypairs: c.authorized_voter_keypairs, ..cc2 }));
        assert(ConfigV { authorized_voter_keypairs: c.authorized_voter_keypairs, ..cc2 } =~= cc3);
    } else {
        assert(cc3 =~= cc2);
    }
    assert(fold_pairs(cc2, p3) == Some(cc3));
    assert(fold_pairs(c0, p1 + p2 + p3) == Some(cc3));
    let cc4 = ConfigV { known_validators: opt_or(c.known_validators, cc3.known_validators), ..cc3 };
    lemma_fold_append(c0, p1 + p2 + p3, p4);
    lemma_fold_one_seg(cc3, p4);
    if c.known_validators is Some {
        lemma_apply_known_validators(cc3, p4[0].1);
        assert(p4[0].0 == "known_validators"@);
        assert(spec_apply(cc3, "known_validators"@, p4[0].1) == Some(ConfigV { known_validators: c.known_validators, ..cc3 }));
        assert(ConfigV { known_validators: c.known_validators, ..cc3 } =~= cc4);
    } else {
        assert(cc4 =~= cc3);
    }
    assert(fold_pairs(cc3, p4) == Some(cc4));
    assert(fold_pairs(c0, p1 + p2 + p3 + p4) == Some(cc4));
    let cc5 = ConfigV { only_known_rpc: opt_or(c.only_known_rpc, cc4.only_known_rpc), ..cc4 };
    lemma_fold_append(c0, p1 + p2 + p3 + p4, p5);
    lemma_fold_one_seg(cc4, p5);
    if c.only_known_rpc is Some {
        lemma_apply_only_known_rpc(cc4, p5[0].1);
        assert(p5[0].0 == "only_known_rpc"@);
        assert(spec_apply(cc4, "only_known_rpc"@, p5[0].1) == Some(ConfigV { only_known_rpc: c.only_known_rpc, ..cc4 }));
        assert(ConfigV { only_known_rpc: c.only_known_rpc, ..cc4 } =~= cc5);
    } else {
        assert(cc5 =~= cc4);
    }
    assert(fold_pairs(cc4, p5) == Some(cc5));
    assert(fold_pairs(c0, p1 + p2 + p3 + p4 + p5) == Some(cc5));
    assert(pairs_identity(c) == p1 + p2 + p3 + p4 + p5);
    assert(cc5 =~= ConfigV {
        identity: opt_or(c.identity, c0.identity),
        vote_account: opt_or(c.vote_account, c0.vote_account),
        authorized_voter_keypairs: opt_or(c.authorized_voter_keypairs, c0.authorized_voter_keypairs),
        known_validators: opt_or(c.known_validators, c0.known_validators),
        only_known_rpc: opt_or(c.only_known_rpc, c0.only_known_rpc),
        ..c0
    });
}
#[verifier::spinoff_prover]
#[verifier::rlimit(100)]
proof fn lemma_fold_debug(c0: ConfigV, c: ConfigV)
    ensures
        fold_pairs(c0, pairs_debug(c)) == Some(ConfigV {
            log_messages_bytes_limit: opt_or(c.log_messages_bytes_limit, c0.log_messages_bytes_limit),
            skip_startup_ledger_verification: opt_or(c.skip_startup_ledger_verification, c0.skip_startup_ledger_verification),
            skip_poh_verify: opt_or(c.skip_poh_verify, c0.skip_poh_verify),
            debug_keys: opt_or(c.debug_keys, c0.debug_keys),
            ..c0
        }),
{
    let p1 = seg_nat("log_messages_bytes_limit"@, on_usize(c.log_messages_bytes_limit));
    let p2 = seg_bool("skip_startup_ledger_verification"@, c.skip_startup_ledger_verification);
    let p3 = seg_bool("skip_poh_verify"@, c.skip_poh_verify);
    let p4 = seg_list("debug_keys"@, c.debug_keys);
    let cc1 = ConfigV { log_messages_bytes_limit: opt_or(c.log_messages_bytes_limit, c0.log_messages_bytes_limit), ..c0 };
    lemma_fold_one_seg(c0, p1);
    if c.log_messages_bytes_limit is Some {
        let n = c.log_messages_bytes_limit.unwrap();
        lemma_dec_roundtrip(n as u64);
        assert(dec_digits(n as nat) == dec_digits((n as u64) as nat));
        assert((n as u64) as usize == n);
        lemma_apply_log_messages_bytes_limit(c0, p1[0].1);
        assert(p1[0].0 == "log_messages_bytes_limit"@);
        assert(spec_apply(c0, "log_messages_bytes_limit"@, p1[0].1) == Some(ConfigV { log_messages_bytes_limit: c.log_messages_bytes_limit, ..c0 }));
        assert(ConfigV { log_messages_bytes_limit: c.log_messages_bytes_limit, ..c0 } =~= cc1);
    } else {
        assert(cc1 =~= c0);
    }
    assert(fold_pairs(c0, p1) == Some(cc1));
    assert(fold_pairs(c0, p1) == Some(cc1));
    let cc2 = ConfigV { skip_startup_ledger_verification: opt_or(c.skip_startup_ledger_verification, cc1.skip_startup_ledger_verification), ..cc1 };
    lemma_fold_append(c0, p1, p2);
    lemma_fold_one_seg(cc1, p2);
    if c.skip_startup_ledger_verification is Some {
        lemma_apply_skip_startup_ledger_verification(cc1, p2[0].1);
        assert(p2[0].0 == "skip_startup_ledger_verification"@);
        assert(spec_apply(cc1, "skip_startup_ledger_verification"@, p2[0].1) == Some(ConfigV { skip_startup_ledger_verification: c.skip_startup_ledger_verification, ..cc1 }));
        assert(ConfigV { skip_startup_ledger_verification: c.skip_startup_ledger_verification, ..cc1 } =~= cc2);
    } else {
        assert(cc2 =~= cc1);
    }
    assert(fold_pairs(cc1, p2) == Some(cc2));
    assert(fold_pairs(c0, p1 + p2) == Some(cc2));
    let cc3 = ConfigV { skip_poh_verify: opt_or(c.skip_poh_verify, cc2.skip_poh_verify), ..cc2 };
    lemma_fold_append(c0, p1 + p2, p3);
    lemma_fold_one_seg(cc2, p3);
    if c.skip_poh_verify is Some {
        lemma_apply_skip_poh_verify(cc2, p3[0].1);
        assert(p3[0].0 == "skip_poh_verify"@);
        assert(spec_apply(cc2, "skip_poh_verify"@, p3[0].1) == Some(ConfigV { skip_poh_verify: c.skip_poh_verify, ..cc2 }));
        assert(ConfigV { skip_poh_verify: c.skip_poh_verify, ..cc2 } =~= cc3);
    } else {
        assert(cc3 =~= cc2);
    }
    assert(fold_pairs(cc2, p3) == Some(cc3));
    assert(fold_pairs(c0, p1 + p2 + p3) == Some(cc3));
    let cc4 = ConfigV { debug_keys: opt_or(c.debug_keys, cc3.debug_keys), ..cc3 };
    lemma_fold_append(c0, p1 + p2 + p3, p4);
    lemma_fold_one_seg(cc3, p4);
    if c.debug_keys is Some {
        lemma_apply_debug_keys(cc3, p4[0].1);
        assert(p4[0].0 == "debug_keys"@);
        assert(spec_apply(cc3, "debug_keys"@, p4[0].1) == Some(ConfigV { debug_keys: c.debug_keys, ..cc3 }));
        assert(ConfigV { debug_keys: c.debug_keys, ..cc3 } =~= cc4);
    } else {
        assert(cc4 =~= cc3);
    }
    assert(fold_pairs(cc3, p4) == Some(cc4));
    assert(fold_pairs(c0, p1 + p2 + p3 + p4) == Some(cc4));
    assert(pairs_debug(c) == p1 + p2 + p3 + p4);
    assert(cc4 =~= ConfigV {
        log_messages_bytes_limit: opt_or(c.log_messages_bytes_limit, c0.log_messages_bytes_limit),
        skip_startup_ledger_verification: opt_or(c.skip_startup_ledger_verification, c0.skip_startup_ledger_verification),
        skip_poh_verify: opt_or(c.skip_poh_verify, c0.skip_poh_verify),
        debug_keys: opt_or(c.debug_keys, c0.debug_keys),
        ..c0
    });
}

/// Round trip: a renderable schema, rendered as configuration text and
/// read back, comes back unchanged, field for field.
#[verifier::spinoff_prover]
#[verifier::rlimit(100)]
proof fn lemma_fold_part1(c: ConfigV)
    ensures
        fold_pairs(all_absent(), pairs_network(c) + pairs_ledger(c) + pairs_rpc(c)) == Some(
            ConfigV {
                bind_address: c.bind_address,
                entrypoint: c.entrypoint,
                gossip_port: c.gossip_port,
                gossip_host: c.gossip_host,
                dynamic_port_range: c.dynamic_port_range,
                allow_private_addr: c.allow_private_addr,
                ledger_path: c.ledger_path,
                accounts_path: c.accounts_path,
                account_snapshot_paths: c.account_snapshot_paths,
                limit_ledger_size: c.limit_ledger_size,
                rpc_port: c.rpc_port,
                rpc_bind_address: c.rpc_bind_address,
                enable_rpc_transaction_history: c.enable_rpc_transaction_history,
                enable_extended_tx_metadata_storage: c.enable_extended_tx_metadata_storage,
                rpc_threads: c.rpc_threads,
                rpc_blocking_threads: c.rpc_blocking_threads,
                rpc_max_request_body_size: c.rpc_max_request_body_size,
                rpc_pubsub_max_active_subscriptions: c.rpc_pubsub_max_active_subscriptions,
                rpc_pubsub_queue_capacity_items: c.rpc_pubsub_queue_capacity_items,
                rpc_pubsub_queue_capacity_bytes: c.rpc_pubsub_queue_capacity_bytes,
                accounts_shrink_ratio: None,
                accounts_shrink_optimize_total_space: None,
                banking_trace_dir_byte_limit: None,
                tpu_connection_pool_size: None,
                tpu_max_connections_per_peer: None,
                tpu_max_connections_per_ipaddr_per_minute: None,
                tpu_max_staked_connections: None,
                tpu_max_unstaked_connections: None,
                tpu_max_streams_per_ms: None,
                snapshot_version: None,
                snapshot_archive_format: None,
                full_snapshot_archive_interval_slots: None,
                incremental_snapshot_archive_interval_slots: None,
                maximum_full_snapshot_archives_to_retain: None,
                maximum_incremental_snapshot_archives_to_retain: None,
                min_snapshot_download_speed: None,
                max_snapshot_download_abort: None,
                replay_forks_threads: None,
                replay_transactions_threads: None,
                tvu_shred_sigverify_threads: None,
                voting_disabled: None,
                dev_halt_at_slot: None,
                wait_for_supermajority: None,
                expected_genesis_hash: None,
                expected_bank_hash: None,
                expected_shred_version: None,
                no_voting: None,
                no_check_vote_account: None,
                identity: None,
                vote_account: None,
                authorized_voter_keypairs: None,
                known_validators: None,
                only_known_rpc: None,
                log_messages_bytes_limit: None,
                skip_startup_ledger_verification: None,
                skip_poh_verify: None,
                debug_keys: None,
            },
        ),
{
    let a0 = all_absent();
    lemma_fold_network(a0, c);
    let m1 = ConfigV {
        bind_address: c.bind_address,
        entrypoint: c.entrypoint,
        gossip_port: c.gossip_port,
        gossip_host: c.gossip_host,
        dynamic_port_range: c.dynamic_port_range,
        allow_private_addr: c.allow_private_addr,
        ledger_path: None,
        accounts_path: None,
        account_snapshot_paths: None,
        limit_ledger_size: None,
        rpc_port: None,
        rpc_bind_address: None,
        enable_rpc_transaction_history: None,
        enable_extended_tx_metadata_storage: None,
        rpc_threads: None,
        rpc_blocking_threads: None,
        rpc_max_request_body_size: None,
        rpc_pubsub_max_active_subscriptions: None,
        rpc_pubsub_queue_capacity_items: None,
        rpc_pubsub_queue_capacity_bytes: None,
        accounts_shrink_ratio: None,
        accounts_shrink_optimize_total_space: None,
        banking_trace_dir_byte_limit: None,
        tpu_connection_pool_size: None,
        tpu_max_connections_per_peer: None,
        tpu_max_connections_per_ipaddr_per_minute: None,
        tpu_max_staked_connections: None,
        tpu_max_unstaked_connections: None,
        tpu_max_streams_per_ms: None,
        snapshot_version: None,
        snapshot_archive_format: None,
        full_snapshot_archive_interval_slots: None,
        incremental_snapshot_archive_interval_slots: None,
        maximum_full_snapshot_archives_to_retain: None,
        maximum_incremental_snapshot_archives_to_retain: None,
        min_snapshot_download_speed: None,
        max_snapshot_download_abort: None,
        replay_forks_threads: None,
        replay_transactions_threads: None,
        tvu_shred_sigverify_threads: None,
        voting_disabled: None,
        dev_halt_at_slot: None,
        wait_for_supermajority: None,
        expected_genesis_hash: None,
        expected_bank_hash: None,
        expected_shred_version: None,
        no_voting: None,
        no_check_vote_account: None,
        identity: None,
        vote_account: None,
        authorized_voter_keypairs: None,
        known_validators: None,
        only_known_rpc: None,
        log_messages_bytes_limit: None,
        skip_startup_ledger_verification: None,
        skip_poh_verify: None,
        debug_keys: None,
    };
    assert(ConfigV {
        bind_address: opt_or(c.bind_address, a0.bind_address),
        entrypoint: opt_or(c.entrypoint, a0.entrypoint),
        gossip_port: opt_or(c.gossip_port, a0.gossip_port),
        gossip_host: opt_or(c.gossip_host, a0.gossip_host),
        dynamic_port_range: opt_or(c.dynamic_port_range, a0.dynamic_port_range),
        allow_private_addr: opt_or(c.allow_private_addr, a0.allow_private_addr),
        ..a0
    } =~= m1);
    assert(fold_pairs(a0, pairs_network(c)) == Some(m1));
    lemma_fold_ledger(m1, c);
    let m2 = ConfigV {
        bind_address: c.bind_address,
        entrypoint: c.entrypoint,
        gossip_port: c.gossip_port,
        gossip_host: c.gossip_host,
        dynamic_port_range: c.dynamic_port_range,
        allow_private_addr: c.allow_private_addr,
        ledger_path: c.ledger_path,
        accounts_path: c.accounts_path,
        account_snapshot_paths: c.account_snapshot_paths,
        limit_ledger_size: c.limit_ledger_size,
        rpc_port: None,
        rpc_bind_address: None,
        enable_rpc_transaction_history: None,
        enable_extended_tx_metadata_storage: None,
        rpc_threads: None,
        rpc_blocking_threads: None,
        rpc_max_request_body_size: None,
        rpc_pubsub_max_active_subscriptions: None,
        rpc_pubsub_queue_capacity_items: None,
        rpc_pubsub_queue_capacity_bytes: None,
        accounts_shrink_ratio: None,
        accounts_shrink_optimize_total_space: None,
        banking_trace_dir_byte_limit: None,
        tpu_connection_pool_size: None,
        tpu_max_connections_per_peer: None,
        tpu_max_connections_per_ipaddr_per_minute: None,
        tpu_max_staked_connections: None,
        tpu_max_unstaked_connections: None,
        tpu_max_streams_per_ms: None,
        snapshot_version: None,
        snapshot_archive_format: None,
        full_snapshot_archive_interval_slots: None,
        incremental_snapshot_archive_interval_slots: None,
        maximum_full_snapshot_archives_to_retain: None,
        maximum_incremental_snapshot_archives_to_retain: None,
        min_snapshot_download_speed: None,
        max_snapshot_download_abort: None,
        replay_forks_threads: None,
        replay_transactions_threads: None,
        tvu_shred_sigverify_threads: None,
        voting_disabled: None,
        dev_halt_at_slot: None,
        wait_for_supermajority: None,
        expected_genesis_hash: None,
        expected_bank_hash: None,
        expected_shred_version: None,
        no_voting: None,
        no_check_vote_account: None,
        identity: None,
        vote_account: None,
        authorized_voter_keypairs: None,
        known_validators: None,
        only_known_rpc: None,
        log_messages_bytes_limit: None,
        skip_startup_ledger_verification: None,
        skip_poh_verify: None,
        debug_keys: None,
    };
    assert(ConfigV {
        ledger_path: opt_or(c.ledger_path, m1.ledger_path),
        accounts_path: opt_or(c.accounts_path, m1.accounts_path),
        account_snapshot_paths: opt_or(c.account_snapshot_paths, m1.account_snapshot_paths),
        limit_ledger_size: opt_or(c.limit_ledger_size, m1.limit_ledger_size),
        ..m1
    } =~= m2);
    lemma_fold_append(a0, pairs_network(c), pairs_ledger(c));
    assert(fold_pairs(a0, pairs_network(c) + pairs_ledger(c)) == Some(m2));
    lemma_fold_rpc(m2, c);
    let m3 = ConfigV {
        bind_address: c.bind_address,
        entrypoint: c.entrypoint,
        gossip_port: c.gossip_port,
        gossip_host: c.gossip_host,
        dynamic_port_range: c.dynamic_port_range,
        allow_private_addr: c.allow_private_addr,
        ledger_path: c.ledger_path,
        accounts_path: c.accounts_path,
        account_snapshot_paths: c.account_snapshot_paths,
        limit_ledger_size: c.limit_ledger_size,
        rpc_port: c.rpc_port,
        rpc_bind_address: c.rpc_bind_address,
        enable_rpc_transaction_history: c.enable_rpc_transaction_history,
        enable_extended_tx_metadata_storage: c.enable_extended_tx_metadata_storage,
        rpc_threads: c.rpc_threads,
        rpc_blocking_threads: c.rpc_blocking_threads,
        rpc_max_request_body_size: c.rpc_max_request_body_size,
        rpc_pubsub_max_active_subscriptions: c.rpc_pubsub_max_active_subscriptions,
        rpc_pubsub_queue_capacity_items: c.rpc_pubsub_queue_capacity_items,
        rpc_pubsub_queue_capacity_bytes: c.rpc_pubsub_queue_capacity_bytes,
        accounts_shrink_ratio: None,
        accounts_shrink_optimize_total_space: None,
        banking_trace_dir_byte_limit: None,
        tpu_connection_pool_size: None,
        tpu_max_connections_per_peer: None,
        tpu_max_connections_per_ipaddr_per_minute: None,
        tpu_max_staked_connections: None,
        tpu_max_unstaked_connections: None,
        tpu_max_streams_per_ms: None,
        snapshot_version: None,
        snapshot_archive_format: None,
        full_snapshot_archive_interval_slots: None,
        incremental_snapshot_archive_interval_slots: None,
        maximum_full_snapshot_archives_to_retain: None,
        maximum_incremental_snapshot_archives_to_retain: None,
        min_snapshot_download_speed: None,
        max_snapshot_download_abort: None,
        replay_forks_threads: None,
        replay_transactions_threads: None,
        tvu_shred_sigverify_threads: None,
        voting_disabled: None,
        dev_halt_at_slot: None,
        wait_for_supermajority: None,
        expected_genesis_hash: None,
        expected_bank_hash: None,
        expected_shred_version: None,
        no_voting: None,
        no_check_vote_account: None,
        identity: None,
        vote_account: None,
        authorized_voter_keypairs: None,
        known_validators: None,
        only_known_rpc: None,
        log_messages_bytes_limit: None,
        skip_startup_ledger_verification: None,
        skip_poh_verify: None,
        debug_keys: None,
    };
    assert(ConfigV {
        rpc_port: opt_or(c.rpc_port, m2.rpc_port),
        rpc_bind_address: opt_or(c.rpc_bind_address, m2.rpc_bind_address),
        enable_rpc_transaction_history: opt_or(c.enable_rpc_transaction_history, m2.enable_rpc_transaction_history),
        enable_extended_tx_metadata_storage: opt_or(c.enable_extended_tx_metadata_storage, m2.enable_extended_tx_metadata_storage),
        rpc_threads: opt_or(c.rpc_threads, m2.rpc_threads),
        rpc_blocking_threads: opt_or(c.rpc_blocking_threads, m2.rpc_blocking_threads),
        rpc_max_request_body_size: opt_or(c.rpc_max_request_body_size, m2.rpc_max_request_body_size),
        rpc_pubsub_max_active_subscriptions: opt_or(c.rpc_pubsub_max_active_subscriptions, m2.rpc_pubsub_max_active_subscriptions),
        rpc_pubsub_queue_capacity_items: opt_or(c.rpc_pubsub_queue_capacity_items, m2.rpc_pubsub_queue_capacity_items),
        rpc_pubsub_queue_capacity_bytes: opt_or(c.rpc_pubsub_queue_capacity_bytes, m2.rpc_pubsub_queue_capacity_bytes),
        ..m2
    } =~= m3);
    lemma_fold_append(a0, pairs_network(c) + pairs_ledger(c), pairs_rpc(c));
    assert(fold_pairs(a0, pairs_network(c) + pairs_ledger(c) + pairs_rpc(c)) == Some(m3));
}

#[verifier::spinoff_prover]
#[verifier::rlimit(100)]
proof fn lemma_fold_part2(c: ConfigV)
    ensures
        fold_pairs(all_absent(), pairs_network(c) + pairs_ledger(c) + pairs_rpc(c) + pairs_perf(c) + pairs_snapshot(c) + pairs_threads(c)) == Some(
            ConfigV {
                bind_address: c.bind_address,
                entrypoint: c.entrypoint,
                gossip_port: c.gossip_port,
                gossip_host: c.gossip_host,
                dynamic_port_range: c.dynamic_port_range,
                allow_private_addr: c.allow_private_addr,
                ledger_path: c.ledger_path,
                accounts_path: c.accounts_path,
                account_snapshot_paths: c.account_snapshot_paths,
                limit_ledger_size: c.limit_ledger_size,
                rpc_port: c.rpc_port,
                rpc_bind_address: c.rpc_bind_address,
                enable_rpc_transaction_history: c.enable_rpc_transaction_history,
                enable_extended_tx_metadata_storage: c.enable_extended_tx_metadata_storage,
                rpc_threads: c.rpc_threads,
                rpc_blocking_threads: c.rpc_blocking_threads,
                rpc_max_request_body_size: c.rpc_max_request_body_size,
                rpc_pubsub_max_active_subscriptions: c.rpc_pubsub_max_active_subscriptions,
                rpc_pubsub_queue_capacity_items: c.rpc_pubsub_queue_capacity_items,
                rpc_pubsub_queue_capacity_bytes: c.rpc_pubsub_queue_capacity_bytes,
                accounts_shrink_ratio: c.accounts_shrink_ratio,
                accounts_shrink_optimize_total_space: c.accounts_shrink_optimize_total_space,
                banking_trace_dir_byte_limit: c.banking_trace_dir_byte_limit,
                tpu_connection_pool_size: c.tpu_connection_pool_size,
                tpu_max_connections_per_peer: c.tpu_max_connections_per_peer,
                tpu_max_connections_per_ipaddr_per_minute: c.tpu_max_connections_per_ipaddr_per_minute,
                tpu_max_staked_connections: c.tpu_max_staked_connections,
                tpu_max_unstaked_connections: c.tpu_max_unstaked_connections,
                tpu_max_streams_per_ms: c.tpu_max_streams_per_ms,
                snapshot_version: c.snapshot_version,
                snapshot_archive_format: c.snapshot_archive_format,
                full_snapshot_archive_interval_slots: c.full_snapshot_archive_interval_slots,
                incremental_snapshot_archive_interval_slots: c.incremental_snapshot_archive_interval_slots,
                maximum_full_snapshot_archives_to_retain: c.maximum_full_snapshot_archives_to_retain,
                maximum_incremental_snapshot_archives_to_retain: c.maximum_incremental_snapshot_archives_to_retain,
                min_snapshot_download_speed: c.min_snapshot_download_speed,
                max_snapshot_download_abort: c.max_snapshot_download_abort,
                replay_forks_threads: c.replay_forks_threads,
                replay_transactions_threads: c.replay_transactions_threads,
                tvu_shred_sigverify_threads: c.tvu_shred_sigverify_threads,
                voting_disabled: None,
                dev_halt_at_slot: None,
                wait_for_supermajority: None,
                expected_genesis_hash: None,
                expected_bank_hash: None,
                expected_shred_version: None,
                no_voting: None,
                no_check_vote_account: None,
                identity: None,
                vote_account: None,
                authorized_voter_keypairs: None,
                known_validators: None,
                only_known_rpc: None,
                log_messages_bytes_limit: None,
                skip_startup_ledger_verification: None,
                skip_poh_verify: None,
                debug_keys: None,
            },
        ),
{
    let a0 = all_absent();
    lemma_fold_part1(c);
    let m3 = ConfigV {
        bind_address: c.bind_address,
        entrypoint: c.entrypoint,
        gossip_port: c.gossip_port,
        gossip_host: c.gossip_host,
        dynamic_port_range: c.dynamic_port_range,
        allow_private_addr: c.allow_private_addr,
        ledger_path: c.ledger_path,
        accounts_path: c.accounts_path,
        account_snapshot_paths: c.account_snapshot_paths,
        limit_ledger_size: c.limit_ledger_size,
        rpc_port: c.rpc_port,
        rpc_bind_address: c.rpc_bind_address,
        enable_rpc_transaction_history: c.enable_rpc_transaction_history,
        enable_extended_tx_metadata_storage: c.enable_extended_tx_metadata_storage,
        rpc_threads: c.rpc_threads,
        rpc_blocking_threads: c.rpc_blocking_threads,
        rpc_max_request_body_size: c.rpc_max_request_body_size,
        rpc_pubsub_max_active_subscriptions: c.rpc_pubsub_max_active_subscriptions,
        rpc_pubsub_queue_capacity_items: c.rpc_pubsub_queue_capacity_items,
        rpc_pubsub_queue_capacity_bytes: c.rpc_pubsub_queue_capacity_bytes,
        accounts_shrink_ratio: None,
        accounts_shrink_optimize_total_space: None,
        banking_trace_dir_byte_limit: None,
        tpu_connection_pool_size: None,
        tpu_max_connections_per_peer: None,
        tpu_max_connections_per_ipaddr_per_minute: None,
        tpu_max_staked_connections: None,
        tpu_max_unstaked_connections: None,
        tpu_max_streams_per_ms: None,
        snapshot_version: None,
        snapshot_archive_format: None,
        full_snapshot_archive_interval_slots: None,
        incremental_snapshot_archive_interval_slots: None,
        maximum_full_snapshot_archives_to_retain: None,
        maximum_incremental_snapshot_archives_to_retain: None,
        min_snapshot_download_speed: None,
        max_snapshot_download_abort: None,
        replay_forks_threads: None,
        replay_transactions_threads: None,
        tvu_shred_sigverify_threads: None,
        voting_disabled: None,
        dev_halt_at_slot: None,
        wait_for_supermajority: None,
        expected_genesis_hash: None,
        expected_bank_hash: None,
        expected_shred_version: None,
        no_voting: None,
        no_check_vote_account: None,
        identity: None,
        vote_account: None,
        authorized_voter_keypairs: None,
        known_validators: None,
        only_known_rpc: None,
        log_messages_bytes_limit: None,
        skip_startup_ledger_verification: None,
        skip_poh_verify: None,
        debug_keys: None,
    };
    assert(fold_pairs(a0, pairs_network(c) + pairs_ledger(c) + pairs_rpc(c)) == Some(m3));
    lemma_fold_perf(m3, c);
    let m4 = ConfigV {
        bind_address: c.bind_address,
        entrypoint: c.entrypoint,
        gossip_port: c.gossip_port,
        gossip_host: c.gossip_host,
        dynamic_port_range: c.dynamic_port_range,
        allow_private_addr: c.allow_private_addr,
        ledger_path: c.ledger_path,
        accounts_path: c.accounts_path,
        account_snapshot_paths: c.account_snapshot_paths,
        limit_ledger_size: c.limit_ledger_size,
        rpc_port: c.rpc_port,
        rpc_bind_address: c.rpc_bind_address,
        enable_rpc_transaction_history: c.enable_rpc_transaction_history,
        enable_extended_tx_metadata_storage: c.enable_extended_tx_metadata_storage,
        rpc_threads: c.rpc_threads,
        rpc_blocking_threads: c.rpc_blocking_threads,
        rpc_max_request_body_size: c.rpc_max_request_body_size,
        rpc_pubsub_max_active_subscriptions: c.rpc_pubsub_max_active_subscriptions,
        rpc_pubsub_queue_capacity_items: c.rpc_pubsub_queue_capacity_items,
        rpc_pubsub_queue_capacity_bytes: c.rpc_pubsub_queue_capacity_bytes,
        accounts_shrink_ratio: c.accounts_shrink_ratio,
        accounts_shrink_optimize_total_space: c.accounts_shrink_optimize_total_space,
        banking_trace_dir_byte_limit: c.banking_trace_dir_byte_limit,
        tpu_connection_pool_size: c.tpu_connection_pool_size,
        tpu_max_connections_per_peer: c.tpu_max_connections_per_peer,
        tpu_max_connections_per_ipaddr_per_minute: c.tpu_max_connections_per_ipaddr_per_minute,
        tpu_max_staked_connections: c.tpu_max_staked_connections,
        tpu_max_unstaked_connections: c.tpu_max_unstaked_connections,
        tpu_max_streams_per_ms: c.tpu_max_streams_per_ms,
        snapshot_version: None,
        snapshot_archive_format: None,
        full_snapshot_archive_interval_slots: None,
        incremental_snapshot_archive_interval_slots: None,
        maximum_full_snapshot_archives_to_retain: None,
        maximum_incremental_snapshot_archives_to_retain: None,
        min_snapshot_download_speed: None,
        max_snapshot_download_abort: None,
        replay_forks_threads: None,
        replay_transactions_threads: None,
        tvu_shred_sigverify_threads: None,
        voting_disabled: None,
        dev_halt_at_slot: None,
        wait_for_supermajority: None,
        expected_genesis_hash: None,
        expected_bank_hash: None,
        expected_shred_version: None,
        no_voting: None,
        no_check_vote_account: None,
        identity: None,
        vote_account: None,
        authorized_voter_keypairs: None,
        known_validators: None,
        only_known_rpc: None,
        log_messages_bytes_limit: None,
        skip_startup_ledger_verification: None,
        skip_poh_verify: None,
        debug_keys: None,
    };
    assert(ConfigV {
        accounts_shrink_ratio: opt_or(c.accounts_shrink_ratio, m3.accounts_shrink_ratio),
        accounts_shrink_optimize_total_space: opt_or(c.accounts_shrink_optimize_total_space, m3.accounts_shrink_optimize_total_space),
        banking_trace_dir_byte_limit: opt_or(c.banking_trace_dir_byte_limit, m3.banking_trace_dir_byte_limit),
        tpu_connection_pool_size: opt_or(c.tpu_connection_pool_size, m3.tpu_connection_pool_size),
        tpu_max_connections_per_peer: opt_or(c.tpu_max_connections_per_peer, m3.tpu_max_connections_per_peer),
        tpu_max_connections_per_ipaddr_per_minute: opt_or(c.tpu_max_connections_per_ipaddr_per_minute, m3.tpu_max_connections_per_ipaddr_per_minute),
        tpu_max_staked_connections: opt_or(c.tpu_max_staked_connections, m3.tpu_max_staked_connections),
        tpu_max_unstaked_connections: opt_or(c.tpu_max_unstaked_connections, m3.tpu_max_unstaked_connections),
        tpu_max_streams_per_ms: opt_or(c.tpu_max_streams_per_ms, m3.tpu_max_streams_per_ms),
        ..m3
    } =~= m4);
    lemma_fold_append(a0, pairs_network(c) + pairs_ledger(c) + pairs_rpc(c), pairs_perf(c));
    assert(fold_pairs(a0, pairs_network(c) + pairs_ledger(c) + pairs_rpc(c) + pairs_perf(c)) == Some(m4));
    lemma_fold_snapshot(m4, c);
    let m5 = ConfigV {
        bind_address: c.bind_address,
        entrypoint: c.entrypoint,
        gossip_port: c.gossip_port,
        gossip_host: c.gossip_host,
        dynamic_port_range: c.dynamic_port_range,
        allow_private_addr: c.allow_private_addr,
        ledger_path: c.ledger_path,
        accounts_path: c.accounts_path,
        account_snapshot_paths: c.account_snapshot_paths,
        limit_ledger_size: c.limit_ledger_size,
        rpc_port: c.rpc_port,
        rpc_bind_address: c.rpc_bind_address,
        enable_rpc_transaction_history: c.enable_rpc_transaction_history,
        enable_extended_tx_metadata_storage: c.enable_extended_tx_metadata_storage,
        rpc_threads: c.rpc_threads,
        rpc_blocking_threads: c.rpc_blocking_threads,
        rpc_max_request_body_size: c.rpc_max_request_body_size,
        rpc_pubsub_max_active_subscriptions: c.rpc_pubsub_max_active_subscriptions,
        rpc_pubsub_queue_capacity_items: c.rpc_pubsub_queue_capacity_items,
        rpc_pubsub_queue_capacity_bytes: c.rpc_pubsub_queue_capacity_bytes,
        accounts_shrink_ratio: c.accounts_shrink_ratio,
        accounts_shrink_optimize_total_space: c.accounts_shrink_optimize_total_space,
        banking_trace_dir_byte_limit: c.banking_trace_dir_byte_limit,
        tpu_connection_pool_size: c.tpu_connection_pool_size,
        tpu_max_connections_per_peer: c.tpu_max_connections_per_peer,
        tpu_max_connections_per_ipaddr_per_minute: c.tpu_max_connections_per_ipaddr_per_minute,
        tpu_max_staked_connections: c.tpu_max_staked_connections,
        tpu_max_unstaked_connections: c.tpu_max_unstaked_connections,
        tpu_max_streams_per_ms: c.tpu_max_streams_per_ms,
        snapshot_version: c.snapshot_version,
        snapshot_archive_format: c.snapshot_archive_format,
        full_snapshot_archive_interval_slots: c.full_snapshot_archive_interval_slots,
        incremental_snapshot_archive_interval_slots: c.incremental_snapshot_archive_interval_slots,
        maximum_full_snapshot_archives_to_retain: c.maximum_full_snapshot_archives_to_retain,
        maximum_incremental_snapshot_archives_to_retain: c.maximum_incremental_snapshot_archives_to_retain,
        min_snapshot_download_speed: c.min_snapshot_download_speed,
        max_snapshot_download_abort: c.max_snapshot_download_abort,
        replay_forks_threads: None,
        replay_transactions_threads: None,
        tvu_shred_sigverify_threads: None,
        voting_disabled: None,
        dev_halt_at_slot: None,
        wait_for_supermajority: None,
        expected_genesis_hash: None,
        expected_bank_hash: None,
        expected_shred_version: None,
        no_voting: None,
        no_check_vote_account: None,
        identity: None,
        vote_account: None,
        authorized_voter_keypairs: None,
        known_validators: None,
        only_known_rpc: None,
        log_messages_bytes_limit: None,
        skip_startup_ledger_verification: None,
        skip_poh_verify: None,
        debug_keys: None,
    };
    assert(ConfigV {
        snapshot_version: opt_or(c.snapshot_version, m4.snapshot_version),
        snapshot_archive_format: opt_or(c.snapshot_archive_format, m4.snapshot_archive_format),
        full_snapshot_archive_interval_slots: opt_or(c.full_snapshot_archive_interval_slots, m4.full_snapshot_archive_interval_slots),
        incremental_snapshot_archive_interval_slots: opt_or(c.incremental_snapshot_archive_interval_slots, m4.incremental_snapshot_archive_interval_slots),
        maximum_full_snapshot_archives_to_retain: opt_or(c.maximum_full_snapshot_archives_to_retain, m4.maximum_full_snapshot_archives_to_retain),
        maximum_incremental_snapshot_archives_to_retain: opt_or(c.maximum_incremental_snapshot_archives_to_retain, m4.maximum_incremental_snapshot_archives_to_retain),
        min_snapshot_download_speed: opt_or(c.min_snapshot_download_speed, m4.min_snapshot_download_speed),
        max_snapshot_download_abort: opt_or(c.max_snapshot_download_abort, m4.max_snapshot_download_abort),
        ..m4
    } =~= m5);
    lemma_fold_append(a0, pairs_network(c) + pairs_ledger(c) + pairs_rpc(c) + pairs_perf(c), pairs_snapshot(c));
    assert(fold_pairs(a0, pairs_network(c) + pairs_ledger(c) + pairs_rpc(c) + pairs_perf(c) + pairs_snapshot(c)) == Some(m5));
    lemma_fold_threads(m5, c);
    let m6 = ConfigV {
        bind_address: c.bind_address,
        entrypoint: c.entrypoint,
        gossip_port: c.gossip_port,
        gossip_host: c.gossip_host,
        dynamic_port_range: c.dynamic_port_range,
        allow_private_addr: c.allow_private_addr,
        ledger_path: c.ledger_path,
        accounts_path: c.accounts_path,
        account_snapshot_paths: c.account_snapshot_paths,
        limit_ledger_size: c.limit_ledger_size,
        rpc_port: c.rpc_port,
        rpc_bind_address: c.rpc_bind_address,
        enable_rpc_transaction_history: c.enable_rpc_transaction_history,
        enable_extended_tx_metadata_storage: c.enable_extended_tx_metadata_storage,
        rpc_threads: c.rpc_threads,
        rpc_blocking_threads: c.rpc_blocking_threads,
        rpc_max_request_body_size: c.rpc_max_request_body_size,
        rpc_pubsub_max_active_subscriptions: c.rpc_pubsub_max_active_subscriptions,
        rpc_pubsub_queue_capacity_items: c.rpc_pubsub_queue_capacity_items,
        rpc_pubsub_queue_capacity_bytes: c.rpc_pubsub_queue_capacity_bytes,
        accounts_shrink_ratio: c.accounts_shrink_ratio,
        accounts_shrink_optimize_total_space: c.accounts_shrink_optimize_total_space,
        banking_trace_dir_byte_limit: c.banking_trace_dir_byte_limit,
        tpu_connection_pool_size: c.tpu_connection_pool_size,
        tpu_max_connections_per_peer: c.tpu_max_connections_per_peer,
        tpu_max_connections_per_ipaddr_per_minute: c.tpu_max_connections_per_ipaddr_per_minute,
        tpu_max_staked_connections: c.tpu_max_staked_connections,
        tpu_max_unstaked_connections: c.tpu_max_unstaked_connections,
        tpu_max_streams_per_ms: c.tpu_max_streams_per_ms,
        snapshot_version: c.snapshot_version,
        snapshot_archive_format: c.snapshot_archive_format,
        full_snapshot_archive_interval_slots: c.full_snapshot_archive_interval_slots,
        incremental_snapshot_archive_interval_slots: c.incremental_snapshot_archive_interval_slots,
        maximum_full_snapshot_archives_to_retain: c.maximum_full_snapshot_archives_to_retain,
        maximum_incremental_snapshot_archives_to_retain: c.maximum_incremental_snapshot_archives_to_retain,
        min_snapshot_download_speed: c.min_snapshot_download_speed,
        max_snapshot_download_abort: c.max_snapshot_download_abort,
        replay_forks_threads: c.replay_forks_threads,
        replay_transactions_threads: c.replay_transactions_threads,
        tvu_shred_sigverify_threads: c.tvu_shred_sigverify_threads,
        voting_disabled: None,
        dev_halt_at_slot: None,
        wait_for_supermajority: None,
        expected_genesis_hash: None,
        expected_bank_hash: None,
        expected_shred_version: None,
        no_voting: None,
        no_check_vote_account: None,
        identity: None,
        vote_account: None,
        authorized_voter_keypairs: None,
        known_validators: None,
        only_known_rpc: None,
        log_messages_bytes_limit: None,
        skip_startup_ledger_verification: None,
        skip_poh_verify: None,
        debug_keys: None,
    };
    assert(ConfigV {
        replay_forks_threads: opt_or(c.replay_forks_threads, m5.replay_forks_threads),
        replay_transactions_threads: opt_or(c.replay_transactions_threads, m5.replay_transactions_threads),
        tvu_shred_sigverify_threads: opt_or(c.tvu_shred_sigverify_threads, m5.tvu_shred_sigverify_threads),
        ..m5
    } =~= m6);
    lemma_fold_append(a0, pairs_network(c) + pairs_ledger(c) + pairs_rpc(c) + pairs_perf(c) + pairs_snapshot(c), pairs_threads(c));
    assert(fold_pairs(a0, pairs_network(c) + pairs_ledger(c) + pairs_rpc(c) + pairs_perf(c) + pairs_snapshot(c) + pairs_threads(c)) == Some(m6));
}

#[verifier::spinoff_prover]
#[verifier::rlimit(100)]
/// Round trip: a renderable schema, rendered as configuration text and
/// read back, comes back unchanged, field for field.
pub proof fn lemma_save_load_roundtrip(c: ConfigV)
    requires
        wf_config(c),
    ensures
        spec_parse(spec_render(c)) == Some(c),
{
    let a0 = all_absent();
    lemma_fold_part2(c);
    let m6 = ConfigV {
        bind_address: c.bind_address,
        entrypoint: c.entrypoint,
        gossip_port: c.gossip_port,
        gossip_host: c.gossip_host,
        dynamic_port_range: c.dynamic_port_range,
        allow_private_addr: c.allow_private_addr,
        ledger_path: c.ledger_path,
        accounts_path: c.accounts_path,
        account_snapshot_paths: c.account_snapshot_paths,
        limit_ledger_size: c.limit_ledger_size,
        rpc_port: c.rpc_port,
        rpc_bind_address: c.rpc_bind_address,
        enable_rpc_transaction_history: c.enable_rpc_transaction_history,
        enable_extended_tx_metadata_storage: c.enable_extended_tx_metadata_storage,
        rpc_threads: c.rpc_threads,
        rpc_blocking_threads: c.rpc_blocking_threads,
        rpc_max_request_body_size: c.rpc_max_request_body_size,
        rpc_pubsub_max_active_subscriptions: c.rpc_pubsub_max_active_subscriptions,
        rpc_pubsub_queue_capacity_items: c.rpc_pubsub_queue_capacity_items,
        rpc_pubsub_queue_capacity_bytes: c.rpc_pubsub_queue_capacity_bytes,
        accounts_shrink_ratio: c.accounts_shrink_ratio,
        accounts_shrink_optimize_total_space: c.accounts_shrink_optimize_total_space,
        banking_trace_dir_byte_limit: c.banking_trace_dir_byte_limit,
        tpu_connection_pool_size: c.tpu_connection_pool_size,
        tpu_max_connections_per_peer: c.tpu_max_connections_per_peer,
        tpu_max_connections_per_ipaddr_per_minute: c.tpu_max_connections_per_ipaddr_per_minute,
        tpu_max_staked_connections: c.tpu_max_staked_connections,
        tpu_max_unstaked_connections: c.tpu_max_unstaked_connections,
        tpu_max_streams_per_ms: c.tpu_max_streams_per_ms,
        snapshot_version: c.snapshot_version,
        snapshot_archive_format: c.snapshot_archive_format,
        full_snapshot_archive_interval_slots: c.full_snapshot_archive_interval_slots,
        incremental_snapshot_archive_interval_slots: c.incremental_snapshot_archive_interval_slots,
        maximum_full_snapshot_archives_to_retain: c.maximum_full_snapshot_archives_to_retain,
        maximum_incremental_snapshot_archives_to_retain: c.maximum_incremental_snapshot_archives_to_retain,
        min_snapshot_download_speed: c.min_snapshot_download_speed,
        max_snapshot_download_abort: c.max_snapshot_download_abort,
        replay_forks_threads: c.replay_forks_threads,
        replay_transactions_threads: c.replay_transactions_threads,
        tvu_shred_sigverify_threads: c.tvu_shred_sigverify_threads,
        voting_disabled: None,
        dev_halt_at_slot: None,
        wait_for_supermajority: None,
        expected_genesis_hash: None,
        expected_bank_hash: None,
        expected_shred_version: None,
        no_voting: None,
        no_check_vote_account: None,
        identity: None,
        vote_account: None,
        authorized_voter_keypairs: None,
        known_validators: None,
        only_known_rpc: None,
        log_messages_bytes_limit: None,
        skip_startup_ledger_verification: None,
        skip_poh_verify: None,
        debug_keys: None,
    };
    assert(fold_pairs(a0, pairs_network(c) + pairs_ledger(c) + pairs_rpc(c) + pairs_perf(c) + pairs_snapshot(c) + pairs_threads(c)) == Some(m6));
    lemma_fold_behavior(m6, c);
    let m7 = ConfigV {
        bind_address: c.bind_address,
        entrypoint: c.entrypoint,
        gossip_port: c.gossip_port,
        gossip_host: c.gossip_host,
        dynamic_port_range: c.dynamic_port_range,
        allow_private_addr: c.allow_private_addr,
        ledger_path: c.ledger_path,
        accounts_path: c.accounts_path,
        account_snapshot_paths: c.account_snapshot_paths,
        limit_ledger_size: c.limit_ledger_size,
        rpc_port: c.rpc_port,
        rpc_bind_address: c.rpc_bind_address,
        enable_rpc_transaction_history: c.enable_rpc_transaction_history,
        enable_extended_tx_metadata_storage: c.enable_extended_tx_metadata_storage,
        rpc_threads: c.rpc_threads,
        rpc_blocking_threads: c.rpc_blocking_threads,
        rpc_max_request_body_size: c.rpc_max_request_body_size,
        rpc_pubsub_max_active_subscriptions: c.rpc_pubsub_max_active_subscriptions,
        rpc_pubsub_queue_capacity_items: c.rpc_pubsub_queue_capacity_items,
        rpc_pubsub_queue_capacity_bytes: c.rpc_pubsub_queue_capacity_bytes,
        accounts_shrink_ratio: c.accounts_shrink_ratio,
        accounts_shrink_optimize_total_space: c.accounts_shrink_optimize_total_space,
        banking_trace_dir_byte_limit: c.banking_trace_dir_byte_limit,
        tpu_connection_pool_size: c.tpu_connection_pool_size,
        tpu_max_connections_per_peer: c.tpu_max_connections_per_peer,
        tpu_max_connections_per_ipaddr_per_minute: c.tpu_max_connections_per_ipaddr_per_minute,
        tpu_max_staked_connections: c.tpu_max_staked_connections,
        tpu_max_unstaked_connections: c.tpu_max_unstaked_connections,
        tpu_max_streams_per_ms: c.tpu_max_streams_per_ms,
        snapshot_version: c.snapshot_version,
        snapshot_archive_format: c.snapshot_archive_format,
        full_snapshot_archive_interval_slots: c.full_snapshot_archive_interval_slots,
        incremental_snapshot_archive_interval_slots: c.incremental_snapshot_archive_interval_slots,
        maximum_full_snapshot_archives_to_retain: c.maximum_full_snapshot_archives_to_retain,
        maximum_incremental_snapshot_archives_to_retain: c.maximum_incremental_snapshot_archives_to_retain,
        min_snapshot_download_speed: c.min_snapshot_download_speed,
        max_snapshot_download_abort: c.max_snapshot_download_abort,
        replay_forks_threads: c.replay_forks_threads,
        replay_transactions_threads: c.replay_transactions_threads,
        tvu_shred_sigverify_threads: c.tvu_shred_sigverify_threads,
        voting_disabled: c.voting_disabled,
        dev_halt_at_slot: c.dev_halt_at_slot,
        wait_for_supermajority: c.wait_for_supermajority,
        expected_genesis_hash: c.expected_genesis_hash,
        expected_bank_hash: c.expected_bank_hash,
        expected_shred_version: c.expected_shred_version,
        no_voting: c.no_voting,
        no_check_vote_account: c.no_check_vote_account,
        identity: None,
        vote_account: None,
        authorized_voter_keypairs: None,
        known_validators: None,
        only_known_rpc: None,
        log_messages_bytes_limit: None,
        skip_startup_ledger_verification: None,
        skip_poh_verify: None,
        debug_keys: None,
    };
    assert(ConfigV {
        voting_disabled: opt_or(c.voting_disabled, m6.voting_disabled),
        dev_halt_at_slot: opt_or(c.dev_halt_at_slot, m6.dev_halt_at_slot),
        wait_for_supermajority: opt_or(c.wait_for_supermajority, m6.wait_for_supermajority),
        expected_genesis_hash: opt_or(c.expected_genesis_hash, m6.expected_genesis_hash),
        expected_bank_hash: opt_or(c.expected_bank_hash, m6.expected_bank_hash),
        expected_shred_version: opt_or(c.expected_shred_version, m6.expected_shred_version),
        no_voting: opt_or(c.no_voting, m6.no_voting),
        no_check_vote_account: opt_or(c.no_check_vote_account, m6.no_check_vote_account),
        ..m6
    } =~= m7);
    lemma_fold_append(a0, pairs_network(c) + pairs_ledger(c) + pairs_rpc(c) + pairs_perf(c) + pairs_snapshot(c) + pairs_threads(c), pairs_behavior(c));
    assert(fold_pairs(a0, pairs_network(c) + pairs_ledger(c) + pairs_rpc(c) + pairs_perf(c) + pairs_snapshot(c) + pairs_threads(c) + pairs_behavior(c)) == Some(m7));
    lemma_fold_identity(m7, c);
    let m8 = ConfigV {
        bind_address: c.bind_address,
        entrypoint: c.entrypoint,
        gossip_port: c.gossip_port,
        gossip_host: c.gossip_host,
        dynamic_port_range: c.dynamic_port_range,
        allow_private_addr: c.allow_private_addr,
        ledger_path: c.ledger_path,
        accounts_path: c.accounts_path,
        account_snapshot_paths: c.account_snapshot_paths,
        limit_ledger_size: c.limit_ledger_size,
        rpc_port: c.rpc_port,
        rpc_bind_address: c.rpc_bind_address,
        enable_rpc_transaction_history: c.enable_rpc_transaction_history,
        enable_extended_tx_metadata_storage: c.enable_extended_tx_metadata_storage,
        rpc_threads: c.rpc_threads,
        rpc_blocking_threads: c.rpc_blocking_threads,
        rpc_max_request_body_size: c.rpc_max_request_body_size,
        rpc_pubsub_max_active_subscriptions: c.rpc_pubsub_max_active_subscriptions,
        rpc_pubsub_queue_capacity_items: c.rpc_pubsub_queue_capacity_items,
        rpc_pubsub_queue_capacity_bytes: c.rpc_pubsub_queue_capacity_bytes,
        accounts_shrink_ratio: c.accounts_shrink_ratio,
        accounts_shrink_optimize_total_space: c.accounts_shrink_optimize_total_space,
        banking_trace_dir_byte_limit: c.banking_trace_dir_byte_limit,
        tpu_connection_pool_size: c.tpu_connection_pool_size,
        tpu_max_connections_per_peer: c.tpu_max_connections_per_peer,
        tpu_max_connections_per_ipaddr_per_minute: c.tpu_max_connections_per_ipaddr_per_minute,
        tpu_max_staked_connections: c.tpu_max_staked_connections,
        tpu_max_unstaked_connections: c.tpu_max_unstaked_connections,
        tpu_max_streams_per_ms: c.tpu_max_streams_per_ms,
        snapshot_version: c.snapshot_version,
        snapshot_archive_format: c.snapshot_archive_format,
        full_snapshot_archive_interval_slots: c.full_snapshot_archive_interval_slots,
        incremental_snapshot_archive_interval_slots: c.incremental_snapshot_archive_interval_slots,
        maximum_full_snapshot_archives_to_retain: c.maximum_full_snapshot_archives_to_retain,
        maximum_incremental_snapshot_archives_to_retain: c.maximum_incremental_snapshot_archives_to_retain,
        min_snapshot_download_speed: c.min_snapshot_download_speed,
        max_snapshot_download_abort: c.max_snapshot_download_abort,
        replay_forks_threads: c.replay_forks_threads,
        replay_transactions_threads: c.replay_transactions_threads,
        tvu_shred_sigverify_threads: c.tvu_shred_sigverify_threads,
        voting_disabled: c.voting_disabled,
        dev_halt_at_slot: c.dev_halt_at_slot,
        wait_for_supermajority: c.wait_for_supermajority,
        expected_genesis_hash: c.expected_genesis_hash,
        expected_bank_hash: c.expected_bank_hash,
        expected_shred_version: c.expected_shred_version,
        no_voting: c.no_voting,
        no_check_vote_account: c.no_check_vote_account,
        identity: c.identity,
        vote_account: c.vote_account,
        authorized_voter_keypairs: c.authorized_voter_keypairs,
        known_validators: c.known_validators,
        only_known_rpc: c.only_known_rpc,
        log_messages_bytes_limit: None,
        skip_startup_ledger_verification: None,
        skip_poh_verify: None,
        debug_keys: None,
    };
    assert(ConfigV {
        identity: opt_or(c.identity, m7.identity),
        vote_account: opt_or(c.vote_account, m7.vote_account),
        authorized_voter_keypairs: opt_or(c.authorized_voter_keypairs, m7.authorized_voter_keypairs),
        known_validators: opt_or(c.known_validators, m7.known_validators),
        only_known_rpc: opt_or(c.only_known_rpc, m7.only_known_rpc),
        ..m7
    } =~= m8);
    lemma_fold_append(a0, pairs_network(c) + pairs_ledger(c) + pairs_rpc(c) + pairs_perf(c) + pairs_snapshot(c) + pairs_threads(c) + pairs_behavior(c), pairs_identity(c));
    assert(fold_pairs(a0, pairs_network(c) + pairs_ledger(c) + pairs_rpc(c) + pairs_perf(c) + pairs_snapshot(c) + pairs_threads(c) + pairs_behavior(c) + pairs_identity(c)) == Some(m8));
    lemma_fold_debug(m8, c);
    let m9 = ConfigV {
        bind_address: c.bind_address,
        entrypoint: c.entrypoint,
        gossip_port: c.gossip_port,
        gossip_host: c.gossip_host,
        dynamic_port_range: c.dynamic_port_range,
        allow_private_addr: c.allow_private_addr,
        ledger_path: c.ledger_path,
        accounts_path: c.accounts_path,
        account_snapshot_paths: c.account_snapshot_paths,
        limit_ledger_size: c.limit_ledger_size,
        rpc_port: c.rpc_port,
        rpc_bind_address: c.rpc_bind_address,
        enable_rpc_transaction_history: c.enable_rpc_transaction_history,
        enable_extended_tx_metadata_storage: c.enable_extended_tx_metadata_storage,
        rpc_threads: c.rpc_threads,
        rpc_blocking_threads: c.rpc_blocking_threads,
        rpc_max_request_body_size: c.rpc_max_request_body_size,
        rpc_pubsub_max_active_subscriptions: c.rpc_pubsub_max_active_subscriptions,
        rpc_pubsub_queue_capacity_items: c.rpc_pubsub_queue_capacity_items,
        rpc_pubsub_queue_capacity_bytes: c.rpc_pubsub_queue_capacity_bytes,
        accounts_shrink_ratio: c.accounts_shrink_ratio,
        accounts_shrink_optimize_total_space: c.accounts_shrink_optimize_total_space,
        banking_trace_dir_byte_limit: c.banking_trace_dir_byte_limit,
        tpu_connection_pool_size: c.tpu_connection_pool_size,
        tpu_max_connections_per_peer: c.tpu_max_connections_per_peer,
        tpu_max_connections_per_ipaddr_per_minute: c.tpu_max_connections_per_ipaddr_per_minute,
        tpu_max_staked_connections: c.tpu_max_staked_connections,
        tpu_max_unstaked_connections: c.tpu_max_unstaked_connections,
        tpu_max_streams_per_ms: c.tpu_max_streams_per_ms,
        snapshot_version: c.snapshot_version,
        snapshot_archive_format: c.snapshot_archive_format,
        full_snapshot_archive_interval_slots: c.full_snapshot_archive_interval_slots,
        incremental_snapshot_archive_interval_slots: c.incremental_snapshot_archive_interval_slots,
        maximum_full_snapshot_archives_to_retain: c.maximum_full_snapshot_archives_to_retain,
        maximum_incremental_snapshot_archives_to_retain: c.maximum_incremental_snapshot_archives_to_retain,
        min_snapshot_download_speed: c.min_snapshot_download_speed,
        max_snapshot_download_abort: c.max_snapshot_download_abort,
        replay_forks_threads: c.replay_forks_threads,
        replay_transactions_threads: c.replay_transactions_threads,
        tvu_shred_sigverify_threads: c.tvu_shred_sigverify_threads,
        voting_disabled: c.voting_disabled,
        dev_halt_at_slot: c.dev_halt_at_slot,
        wait_for_supermajority: c.wait_for_supermajority,
        expected_genesis_hash: c.expected_genesis_hash,
        expected_bank_hash: c.expected_bank_hash,
        expected_shred_version: c.expected_shred_version,
        no_voting: c.no_voting,
        no_check_vote_account: c.no_check_vote_account,
        identity: c.identity,
        vote_account: c.vote_account,
        authorized_voter_keypairs: c.authorized_voter_keypairs,
        known_validators: c.known_validators,
        only_known_rpc: c.only_known_rpc,
        log_messages_bytes_limit: c.log_messages_bytes_limit,
        skip_startup_ledger_verification: c.skip_startup_ledger_verification,
        skip_poh_verify: c.skip_poh_verify,
        debug_keys: c.debug_keys,
    };
    assert(ConfigV {
        log_messages_bytes_limit: opt_or(c.log_messages_bytes_limit, m8.log_messages_bytes_limit),
        skip_startup_ledger_verification: opt_or(c.skip_startup_ledger_verification, m8.skip_startup_ledger_verification),
        skip_poh_verify: opt_or(c.skip_poh_verify, m8.skip_poh_verify),
        debug_keys: opt_or(c.debug_keys, m8.debug_keys),
        ..m8
    } =~= m9);
    lemma_fold_append(a0, pairs_network(c) + pairs_ledger(c) + pairs_rpc(c) + pairs_perf(c) + pairs_snapshot(c) + pairs_threads(c) + pairs_behavior(c) + pairs_identity(c), pairs_debug(c));
    assert(fold_pairs(a0, pairs_network(c) + pairs_ledger(c) + pairs_rpc(c) + pairs_perf(c) + pairs_snapshot(c) + pairs_threads(c) + pairs_behavior(c) + pairs_identity(c) + pairs_debug(c)) == Some(m9));
    lemma_render_parses(c);
    assert(pairs_of(c) == pairs_network(c) + pairs_ledger(c) + pairs_rpc(c) + pairs_perf(c) + pairs_snapshot(c) + pairs_threads(c) + pairs_behavior(c) + pairs_identity(c) + pairs_debug(c));
    assert(m9 =~= c);
}

} // verus!
