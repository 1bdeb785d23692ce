//! Writing a schema back out as configuration text: one `key = value` line
//! per set field, absent fields omitted.
//!
//! The format carries strings verbatim, without an escape mechanism: a
//! string holding a double quote or a newline cannot be written on one
//! line, so `render_config` refuses such a schema with
//! `ConfigError::Serialize` instead of escaping it.  This is a deliberate
//! restriction of this format against full TOML, which would escape.
use vstd::prelude::*;

use crate::ConfigError;
use crate::num::{dec_digits, u64_to_dec};
use crate::schema::{
    ConfigV, ValidatorConfig, is_num_token, wf_config, wf_str, wf_opt_str, wf_opt_list, wf_opt_num,
};
use crate::value::{render_value, render_items, quote_str, ValueV};

verus! {

/// One rendered line: `key = value` and a newline.
pub open spec fn render_pair_line(p: (Seq<char>, ValueV)) -> Seq<char> {
    p.0 + seq![' ', '=', ' '] + render_value(p.1) + seq!['\n']
}

/// The rendering of a list of pairs, line by line.
pub open spec fn render_lines(pairs: Seq<(Seq<char>, ValueV)>) -> Seq<char>
    decreases pairs.len(),
{
    if pairs.len() == 0 {
        Seq::empty()
    } else {
        render_pair_line(pairs[0]) + render_lines(pairs.drop_first())
    }
}

pub proof fn lemma_render_lines_append(a: Seq<(Seq<char>, ValueV)>, b: Seq<(Seq<char>, ValueV)>)
    ensures
        render_lines(a + b) == render_lines(a) + render_lines(b),
    decreases a.len(),
{
    if a.len() == 0 {
        assert(a + b =~= b);
        assert(render_lines(a) + render_lines(b) =~= render_lines(b));
    } else {
        assert((a + b)[0] == a[0]);
        assert((a + b).drop_first() =~= a.drop_first() + b);
        lemma_render_lines_append(a.drop_first(), b);
        assert(render_lines(a + b) =~= render_lines(a) + render_lines(b));
    }
}

pub proof fn lemma_render_lines_one(p: (Seq<char>, ValueV))
    ensures
        render_lines(seq![p]) == render_pair_line(p),
{
    assert(seq![p].drop_first() =~= Seq::<(Seq<char>, ValueV)>::empty());
    assert(render_lines(seq![p].drop_first()) == Seq::<char>::empty());
    assert(render_lines(seq![p]) =~= render_pair_line(p));
}

pub open spec fn seg_str(key: Seq<char>, o: Option<Seq<char>>) -> Seq<(Seq<char>, ValueV)> {
    match o {
        Some(s) => seq![(key, ValueV::Str(s))],
        None => Seq::empty(),
    }
}

pub open spec fn seg_list(key: Seq<char>, o: Option<Seq<Seq<char>>>) -> Seq<(Seq<char>, ValueV)> {
    match o {
        Some(l) => seq![(key, ValueV::List(l))],
        None => Seq::empty(),
    }
}

pub open spec fn seg_bool(key: Seq<char>, o: Option<bool>) -> Seq<(Seq<char>, ValueV)> {
    match o {
        Some(b) => seq![(key, ValueV::Bool(b))],
        None => Seq::empty(),
    }
}

pub open spec fn seg_nat(key: Seq<char>, o: Option<nat>) -> Seq<(Seq<char>, ValueV)> {
    match o {
        Some(n) => seq![(key, ValueV::Num(dec_digits(n)))],
        None => Seq::empty(),
    }
}

pub open spec fn seg_dec(key: Seq<char>, o: Option<Seq<char>>) -> Seq<(Seq<char>, ValueV)> {
    match o {
        Some(t) => seq![(key, ValueV::Num(t))],
        None => Seq::empty(),
    }
}

pub open spec fn on_u16(o: Option<u16>) -> Option<nat> {
    match o {
        Some(n) => Some(n as nat),
        None => None,
    }
}

pub open spec fn on_u32(o: Option<u32>) -> Option<nat> {
    match o {
        Some(n) => Some(n as nat),
        None => None,
    }
}

pub open spec fn on_u64(o: Option<u64>) -> Option<nat> {
    match o {
        Some(n) => Some(n as nat),
        None => None,
    }
}

pub open spec fn on_usize(o: Option<usize>) -> Option<nat> {
    match o {
        Some(n) => Some(n as nat),
        None => None,
    }
}

pub open spec fn pairs_network(c: ConfigV) -> Seq<(Seq<char>, ValueV)> {
    seg_str("bind_address"@, c.bind_address) + seg_list("entrypoint"@, c.entrypoint) + seg_nat(
        "gossip_port"@,
        on_u16(c.gossip_port),
    ) + seg_str("gossip_host"@, c.gossip_host) + seg_str(
        "dynamic_port_range"@,
        c.dynamic_port_range,
    ) + seg_bool("allow_private_addr"@, c.allow_private_addr)
}

pub open spec fn pairs_ledger(c: ConfigV) -> Seq<(Seq<char>, ValueV)> {
    seg_str("ledger_path"@, c.ledger_path) + seg_list("accounts_path"@, c.accounts_path)
        + seg_list("account_snapshot_paths"@, c.account_snapshot_paths) + seg_nat(
        "limit_ledger_size"@,
        on_u64(c.limit_ledger_size),
    )
}

pub open spec fn pairs_rpc(c: ConfigV) -> Seq<(Seq<char>, ValueV)> {
    seg_nat("rpc_port"@, on_u16(c.rpc_port)) + seg_str("rpc_bind_address"@, c.rpc_bind_address)
        + seg_bool("enable_rpc_transaction_history"@, c.enable_rpc_transaction_history)
        + seg_bool("enable_extended_tx_metadata_storage"@, c.enable_extended_tx_metadata_storage)
        + seg_nat("rpc_threads"@, on_usize(c.rpc_threads)) + seg_nat(
        "rpc_blocking_threads"@,
        on_usize(c.rpc_blocking_threads),
    ) + seg_nat("rpc_max_request_body_size"@, on_usize(c.rpc_max_request_body_size)) + seg_nat(
        "rpc_pubsub_max_active_subscriptions"@,
        on_usize(c.rpc_pubsub_max_active_subscriptions),
    ) + seg_nat("rpc_pubsub_queue_capacity_items"@, on_usize(c.rpc_pubsub_queue_capacity_items))
        + seg_nat("rpc_pubsub_queue_capacity_bytes"@, on_usize(c.rpc_pubsub_queue_capacity_bytes))
}

pub open spec fn pairs_perf(c: ConfigV) -> Seq<(Seq<char>, ValueV)> {
    seg_dec("accounts_shrink_ratio"@, c.accounts_shrink_ratio) + seg_bool(
        "accounts_shrink_optimize_total_space"@,
        c.accounts_shrink_optimize_total_space,
    ) + seg_nat("banking_trace_dir_byte_limit"@, on_u64(c.banking_trace_dir_byte_limit))
        + seg_nat("tpu_connection_pool_size"@, on_usize(c.tpu_connection_pool_size)) + seg_nat(
        "tpu_max_connections_per_peer"@,
        on_usize(c.tpu_max_connections_per_peer),
    ) + seg_nat(
        "tpu_max_connections_per_ipaddr_per_minute"@,
        on_u64(c.tpu_max_connections_per_ipaddr_per_minute),
    ) + seg_nat("tpu_max_staked_connections"@, on_usize(c.tpu_max_staked_connections)) + seg_nat(
        "tpu_max_unstaked_connections"@,
        on_usize(c.tpu_max_unstaked_connections),
    ) + seg_nat("tpu_max_streams_per_ms"@, on_usize(c.tpu_max_streams_per_ms))
}

pub open spec fn pairs_snapshot(c: ConfigV) -> Seq<(Seq<char>, ValueV)> {
    seg_str("snapshot_version"@, c.snapshot_version) + seg_str(
        "snapshot_archive_format"@,
        c.snapshot_archive_format,
    ) + seg_nat(
        "full_snapshot_archive_interval_slots"@,
        on_u64(c.full_snapshot_archive_interval_slots),
    ) + seg_nat(
        "incremental_snapshot_archive_interval_slots"@,
        on_u64(c.incremental_snapshot_archive_interval_slots),
    ) + seg_nat(
        "maximum_full_snapshot_archives_to_retain"@,
        on_usize(c.maximum_full_snapshot_archives_to_retain),
    ) + seg_nat(
        "maximum_incremental_snapshot_archives_to_retain"@,
        on_usize(c.maximum_incremental_snapshot_archives_to_retain),
    ) + seg_nat("min_snapshot_download_speed"@, on_u64(c.min_snapshot_download_speed)) + seg_nat(
        "max_snapshot_download_abort"@,
        on_u32(c.max_snapshot_download_abort),
    )
}

pub open spec fn pairs_threads(c: ConfigV) -> Seq<(Seq<char>, ValueV)> {
    seg_nat("replay_forks_threads"@, on_usize(c.replay_forks_threads)) + seg_nat(
        "replay_transactions_threads"@,
        on_usize(c.replay_transactions_threads),
    ) + seg_nat("tvu_shred_sigverify_threads"@, on_usize(c.tvu_shred_sigverify_threads))
}

pub open spec fn pairs_behavior(c: ConfigV) -> Seq<(Seq<char>, ValueV)> {
    seg_bool("voting_disabled"@, c.voting_disabled) + seg_nat(
        "dev_halt_at_slot"@,
        on_u64(c.dev_halt_at_slot),
    ) + seg_nat("wait_for_supermajority"@, on_u64(c.wait_for_supermajority)) + seg_str(
        "expected_genesis_hash"@,
        c.expected_genesis_hash,
    ) + seg_str("expected_bank_hash"@, c.expected_bank_hash) + seg_nat(
        "expected_shred_version"@,
        on_u16(c.expected_shred_version),
    ) + seg_bool("no_voting"@, c.no_voting) + seg_bool(
        "no_check_vote_account"@,
        c.no_check_vote_account,
    )
}

pub open spec fn pairs_identity(c: ConfigV) -> Seq<(Seq<char>, ValueV)> {
    seg_str("identity"@, c.identity) + seg_str("vote_account"@, c.vote_account) + seg_list(
        "authorized_voter_keypairs"@,
        c.authorized_voter_keypairs,
    ) + seg_list("known_validators"@, c.known_validators) + seg_bool(
        "only_known_rpc"@,
        c.only_known_rpc,
    )
}

pub open spec fn pairs_debug(c: ConfigV) -> Seq<(Seq<char>, ValueV)> {
    seg_nat("log_messages_bytes_limit"@, on_usize(c.log_messages_bytes_limit)) + seg_bool(
        "skip_startup_ledger_verification"@,
        c.skip_startup_ledger_verification,
    ) + seg_bool("skip_poh_verify"@, c.skip_poh_verify) + seg_list("debug_keys"@, c.debug_keys)
}

/// Every set field of the schema as a `(key, value)` pair, in a fixed order.
pub open spec fn pairs_of(c: ConfigV) -> Seq<(Seq<char>, ValueV)> {
    pairs_network(c) + pairs_ledger(c) + pairs_rpc(c) + pairs_perf(c) + pairs_snapshot(c)
        + pairs_threads(c) + pairs_behavior(c) + pairs_identity(c) + pairs_debug(c)
}

/// The full rendering of a schema.
pub open spec fn spec_render(c: ConfigV) -> Seq<char> {
    render_lines(pairs_of(c))
}

fn wf_str_x(s: &str) -> (r: bool)
    ensures
        r == wf_str(s@),
{
    let n = s.unicode_len();
    let mut i: usize = 0;
    while i < n
        invariant
            i <= n,
            n == s@.len(),
            forall|j: int| 0 <= j < i ==> s@[j] != '\n' && s@[j] != '"',
        decreases n - i,
    {
        let c = s.get_char(i);
        if c == '\n' || c == '"' {
            return false;
        }
        i = i + 1;
    }
    true
}

fn wf_opt_str_x(o: &Option<String>) -> (r: bool)
    ensures
        r == wf_opt_str(crate::schema::ov_str(*o)),
{
    match o {
        Some(s) => wf_str_x(s.as_str()),
        None => true,
    }
}

fn wf_opt_list_x(o: &Option<Vec<String>>) -> (r: bool)
    ensures
        r == wf_opt_list(crate::schema::ov_list(*o)),
{
    match o {
        Some(l) => {
            let mut i: usize = 0;
            while i < l.len()
                invariant
                    i <= l.len(),
                    crate::schema::ov_list(*o) == Some(l.deep_view()),
                    forall|j: int| 0 <= j < i ==> wf_str(#[trigger] l.deep_view()[j]),
                decreases l.len() - i,
            {
                if !wf_str_x(l[i].as_str()) {
                    proof {
                        let lv = l.deep_view();
                        assert(lv[i as int] == l@[i as int]@);
                        assert(!wf_str(lv[i as int]));
                        assert(0 <= (i as int) < lv.len());
                        assert(exists|j: int| 0 <= j < lv.len() && !wf_str(#[trigger] lv[j]));
                        assert(!crate::schema::wf_str_list(lv));
                        assert(!wf_opt_list(Some(lv)));
                        assert(crate::schema::ov_list(*o) == Some(lv));
                    }
                    return false;
                }
                proof {
                    assert(l.deep_view()[i as int] == l@[i as int]@);
                }
                i = i + 1;
            }
            true
        },
        None => true,
    }
}

fn wf_opt_num_x(o: &Option<String>) -> (r: bool)
    ensures
        r == wf_opt_num(crate::schema::ov_str(*o)),
{
    match o {
        Some(t) => {
            let n = t.as_str().unicode_len();
            let mut ok = true;
            let mut i: usize = 0;
            // every character must be a numeric character before the token
            // check applies
            while i < n
                invariant
                    i <= n,
                    n == t@.len(),
                    ok == (forall|j: int| 0 <= j < i ==> crate::value::is_num_char(t@[j])),
                decreases n - i,
            {
                let c = t.as_str().get_char(i);
                let u = c as u32;
                if !((48 <= u && u <= 57) || c == '.') {
                    proof {
                        assert(!crate::value::is_num_char(t@[i as int]));
                    }
                    ok = false;
                }
                i = i + 1;
            }
            if !ok {
                proof {
                    let tv = t@;
                    assert(exists|j: int| 0 <= j < tv.len() && !crate::value::is_num_char(tv[j]));
                    assert forall|j: int|
                        0 <= j < tv.len() && !crate::value::is_num_char(tv[j]) implies !is_num_token(
                        tv,
                    ) by {}
                }
                return false;
            }
            let b = crate::value::check_num_token(t.as_str(), 0, n);
            proof {
                assert(t@.subrange(0, n as int) =~= t@);
            }
            b
        },
        None => true,
    }
}

/// Check that a schema is renderable: every string it holds fits on one line
/// unescaped, and the decimal field holds a numeric token.
pub fn wf_config_x(c: &ValidatorConfig) -> (r: bool)
    ensures
        r == wf_config(c@),
{
    wf_opt_str_x(&c.bind_address) && wf_opt_list_x(&c.entrypoint) && wf_opt_str_x(&c.gossip_host)
        && wf_opt_str_x(&c.dynamic_port_range) && wf_opt_str_x(&c.ledger_path) && wf_opt_list_x(
        &c.accounts_path,
    ) && wf_opt_list_x(&c.account_snapshot_paths) && wf_opt_str_x(&c.rpc_bind_address)
        && wf_opt_num_x(&c.accounts_shrink_ratio) && wf_opt_str_x(&c.snapshot_version)
        && wf_opt_str_x(&c.snapshot_archive_format) && wf_opt_str_x(&c.expected_genesis_hash)
        && wf_opt_str_x(&c.expected_bank_hash) && wf_opt_str_x(&c.identity) && wf_opt_str_x(
        &c.vote_account,
    ) && wf_opt_list_x(&c.authorized_voter_keypairs) && wf_opt_list_x(&c.known_validators)
        && wf_opt_list_x(&c.debug_keys)
}

fn push_line_str(out: &mut String, key: &str, s: &String)
    ensures
        final(out)@ == old(out)@ + render_pair_line((key@, ValueV::Str(s@))),
{
    out.append(key);
    out.append(" = ");
    out.append("\"");
    out.append(s.as_str());
    out.append("\"");
    out.append("\n");
    proof {
        reveal_strlit(" = ");
        reveal_strlit("\"");
        reveal_strlit("\n");
        assert(out@ =~= old(out)@ + render_pair_line((key@, ValueV::Str(s@))));
    }
}

fn push_line_list(out: &mut String, key: &str, l: &Vec<String>)
    ensures
        final(out)@ == old(out)@ + render_pair_line((key@, ValueV::List(l.deep_view()))),
{
    out.append(key);
    out.append(" = ");
    out.append("[");
    crate::value::push_items(out, l, 0);
    out.append("]");
    out.append("\n");
    proof {
        reveal_strlit(" = ");
        reveal_strlit("[");
        reveal_strlit("]");
        reveal_strlit("\n");
        assert(l.deep_view().skip(0) =~= l.deep_view());
        assert(out@ =~= old(out)@ + render_pair_line((key@, ValueV::List(l.deep_view()))));
    }
}

fn push_line_bool(out: &mut String, key: &str, b: bool)
    ensures
        final(out)@ == old(out)@ + render_pair_line((key@, ValueV::Bool(b))),
{
    out.append(key);
    out.append(" = ");
    if b {
        out.append("true");
    } else {
        out.append("false");
    }
    out.append("\n");
    proof {
        reveal_strlit(" = ");
        reveal_strlit("true");
        reveal_strlit("false");
        reveal_strlit("\n");
        assert(out@ =~= old(out)@ + render_pair_line((key@, ValueV::Bool(b))));
    }
}

fn push_line_u64(out: &mut String, key: &str, n: u64)
    ensures
        final(out)@ == old(out)@ + render_pair_line((key@, ValueV::Num(dec_digits(n as nat)))),
{
    out.append(key);
    out.append(" = ");
    let d = u64_to_dec(n);
    out.append(d.as_str());
    out.append("\n");
    proof {
        reveal_strlit(" = ");
        reveal_strlit("\n");
        assert(out@ =~= old(out)@ + render_pair_line((key@, ValueV::Num(dec_digits(n as nat)))));
    }
}

fn push_seg_str(out: &mut String, key: &str, o: &Option<String>)
    ensures
        final(out)@ == old(out)@ + render_lines(seg_str(key@, crate::schema::ov_str(*o))),
{
    let ghost seg = seg_str(key@, crate::schema::ov_str(*o));
    match o {
        Some(x) => {
            push_line_str(out, key, x);
            proof {
                lemma_render_lines_one(seg[0]);
                assert(seg =~= seq![seg[0]]);
                assert(out@ =~= old(out)@ + render_lines(seg));
            }
        },
        None => {
            proof {
                assert(out@ =~= old(out)@ + render_lines(seg));
            }
        },
    }
}

fn push_seg_list(out: &mut String, key: &str, o: &Option<Vec<String>>)
    ensures
        final(out)@ == old(out)@ + render_lines(seg_list(key@, crate::schema::ov_list(*o))),
{
    let ghost seg = seg_list(key@, crate::schema::ov_list(*o));
    match o {
        Some(x) => {
            push_line_list(out, key, x);
            proof {
                lemma_render_lines_one(seg[0]);
                assert(seg =~= seq![seg[0]]);
                assert(out@ =~= old(out)@ + render_lines(seg));
            }
        },
        None => {
            proof {
                assert(out@ =~= old(out)@ + render_lines(seg));
            }
        },
    }
}

fn push_seg_bool(out: &mut String, key: &str, o: &Option<bool>)
    ensures
        final(out)@ == old(out)@ + render_lines(seg_bool(key@, *o)),
{
    let ghost seg = seg_bool(key@, *o);
    match o {
        Some(x) => {
            push_line_bool(out, key, *x);
            proof {
                lemma_render_lines_one(seg[0]);
                assert(seg =~= seq![seg[0]]);
                assert(out@ =~= old(out)@ + render_lines(seg));
            }
        },
        None => {
            proof {
                assert(out@ =~= old(out)@ + render_lines(seg));
            }
        },
    }
}

fn push_seg_u16(out: &mut String, key: &str, o: &Option<u16>)
    ensures
        final(out)@ == old(out)@ + render_lines(seg_nat(key@, on_u16(*o))),
{
    let ghost seg = seg_nat(key@, on_u16(*o));
    match o {
        Some(x) => {
            push_line_u64(out, key, *x as u64);
            proof {
                lemma_render_lines_one(seg[0]);
                assert(seg =~= seq![seg[0]]);
                assert(out@ =~= old(out)@ + render_lines(seg));
            }
        },
        None => {
            proof {
                assert(out@ =~= old(out)@ + render_lines(seg));
            }
        },
    }
}

fn push_seg_u32(out: &mut String, key: &str, o: &Option<u32>)
    ensures
        final(out)@ == old(out)@ + render_lines(seg_nat(key@, on_u32(*o))),
{
    let ghost seg = seg_nat(key@, on_u32(*o));
    match o {
        Some(x) => {
            push_line_u64(out, key, *x as u64);
            proof {
                lemma_render_lines_one(seg[0]);
                assert(seg =~= seq![seg[0]]);
                assert(out@ =~= old(out)@ + render_lines(seg));
            }
        },
        None => {
            proof {
                assert(out@ =~= old(out)@ + render_lines(seg));
            }
        },
    }
}

fn push_seg_u64(out: &mut String, key: &str, o: &Option<u64>)
    ensures
        final(out)@ == old(out)@ + render_lines(seg_nat(key@, on_u64(*o))),
{
    let ghost seg = seg_nat(key@, on_u64(*o));
    match o {
        Some(x) => {
            push_line_u64(out, key, *x);
            proof {
                lemma_render_lines_one(seg[0]);
                assert(seg =~= seq![seg[0]]);
                assert(out@ =~= old(out)@ + render_lines(seg));
            }
        },
        None => {
            proof {
                assert(out@ =~= old(out)@ + render_lines(seg));
            }
        },
    }
}

fn push_seg_usize(out: &mut String, key: &str, o: &Option<usize>)
    ensures
        final(out)@ == old(out)@ + render_lines(seg_nat(key@, on_usize(*o))),
{
    let ghost seg = seg_nat(key@, on_usize(*o));
    match o {
        Some(x) => {
            push_line_u64(out, key, *x as u64);
            proof {
                lemma_render_lines_one(seg[0]);
                assert(seg =~= seq![seg[0]]);
                assert(out@ =~= old(out)@ + render_lines(seg));
            }
        },
        None => {
            proof {
                assert(out@ =~= old(out)@ + render_lines(seg));
            }
        },
    }
}

fn push_seg_dec(out: &mut String, key: &str, o: &Option<String>)
    ensures
        final(out)@ == old(out)@ + render_lines(seg_dec(key@, crate::schema::ov_str(*o))),
{
    let ghost seg = seg_dec(key@, crate::schema::ov_str(*o));
    match o {
        Some(x) => {
            push_line_dec(out, key, x);
            proof {
                lemma_render_lines_one(seg[0]);
                assert(seg =~= seq![seg[0]]);
                assert(out@ =~= old(out)@ + render_lines(seg));
            }
        },
        None => {
            proof {
                assert(out@ =~= old(out)@ + render_lines(seg));
            }
        },
    }
}

fn push_line_dec(out: &mut String, key: &str, t: &String)
    ensures
        final(out)@ == old(out)@ + render_pair_line((key@, ValueV::Num(t@))),
{
    out.append(key);
    out.append(" = ");
    out.append(t.as_str());
    out.append("\n");
    proof {
        reveal_strlit(" = ");
        reveal_strlit("\n");
        assert(out@ =~= old(out)@ + render_pair_line((key@, ValueV::Num(t@))));
    }
}

/// Render a schema as configuration text: one line per set field, in a fixed
/// order.  Refused (`ConfigError::Serialize`) when some string field holds a
/// double quote or a newline, which this format cannot carry unescaped.
fn render_network(out: &mut String, c: &ValidatorConfig)
    ensures
        final(out)@ == old(out)@ + render_lines(pairs_network(c@)),
{
    let ghost cv = c@;
    let ghost mut acc: Seq<(Seq<char>, ValueV)> = Seq::empty();
    proof {
        assert(out@ =~= old(out)@ + render_lines(acc));
    }
    push_seg_str(out, "bind_address", &c.bind_address);
    proof {
        lemma_render_lines_append(acc, seg_str("bind_address"@, cv.bind_address));
        acc = acc + seg_str("bind_address"@, cv.bind_address);
        assert(out@ == old(out)@ + render_lines(acc));
    }
    push_seg_list(out, "entrypoint", &c.entrypoint);
    proof {
        lemma_render_lines_append(acc, seg_list("entrypoint"@, cv.entrypoint));
        acc = acc + seg_list("entrypoint"@, cv.entrypoint);
        assert(out@ == old(out)@ + render_lines(acc));
    }
    push_seg_u16(out, "gossip_port", &c.gossip_port);
    proof {
        lemma_render_lines_append(acc, seg_nat("gossip_port"@, on_u16(cv.gossip_port)));
        acc = acc + seg_nat("gossip_port"@, on_u16(cv.gossip_port));
        assert(out@ == old(out)@ + render_lines(acc));
    }
    push_seg_str(out, "gossip_host", &c.gossip_host);
    proof {
        lemma_render_lines_append(acc, seg_str("gossip_host"@, cv.gossip_host));
        acc = acc + seg_str("gossip_host"@, cv.gossip_host);
        assert(out@ == old(out)@ + render_lines(acc));
    }
    push_seg_str(out, "dynamic_port_range", &c.dynamic_port_range);
    proof {
        lemma_render_lines_append(acc, seg_str("dynamic_port_range"@, cv.dynamic_port_range));
        acc = acc + seg_str("dynamic_port_range"@, cv.dynamic_port_range);
        assert(out@ == old(out)@ + render_lines(acc));
    }
    push_seg_bool(out, "allow_private_addr", &c.allow_private_addr);
    proof {
        lemma_render_lines_append(acc, seg_bool("allow_private_addr"@, cv.allow_private_addr));
        acc = acc + seg_bool("allow_private_addr"@, cv.allow_private_addr);
        assert(out@ == old(out)@ + render_lines(acc));
    }
    proof {
        assert(acc =~= pairs_network(cv));
    }
}

fn render_ledger(out: &mut String, c: &ValidatorConfig)
    ensures
        final(out)@ == old(out)@ + render_lines(pairs_ledger(c@)),
{
    let ghost cv = c@;
    let ghost mut acc: Seq<(Seq<char>, ValueV)> = Seq::empty();
    proof {
        assert(out@ =~= old(out)@ + render_lines(acc));
    }
    push_seg_str(out, "ledger_path", &c.ledger_path);
    proof {
        lemma_render_lines_append(acc, seg_str("ledger_path"@, cv.ledger_path));
        acc = acc + seg_str("ledger_path"@, cv.ledger_path);
        assert(out@ == old(out)@ + render_lines(acc));
    }
    push_seg_list(out, "accounts_path", &c.accounts_path);
    proof {
        lemma_render_lines_append(acc, seg_list("accounts_path"@, cv.accounts_path));
        acc = acc + seg_list("accounts_path"@, cv.accounts_path);
        assert(out@ == old(out)@ + render_lines(acc));
    }
    push_seg_list(out, "account_snapshot_paths", &c.account_snapshot_paths);
    proof {
        lemma_render_lines_append(acc, seg_list("account_snapshot_paths"@, cv.account_snapshot_paths));
        acc = acc + seg_list("account_snapshot_paths"@, cv.account_snapshot_paths);
        assert(out@ == old(out)@ + render_lines(acc));
    }
    push_seg_u64(out, "limit_ledger_size", &c.limit_ledger_size);
    proof {
        lemma_render_lines_append(acc, seg_nat("limit_ledger_size"@, on_u64(cv.limit_ledger_size)));
        acc = acc + seg_nat("limit_ledger_size"@, on_u64(cv.limit_ledger_size));
        assert(out@ == old(out)@ + render_lines(acc));
    }
    proof {
        assert(acc =~= pairs_ledger(cv));
    }
}

fn render_rpc(out: &mut String, c: &ValidatorConfig)
    ensures
        final(out)@ == old(out)@ + render_lines(pairs_rpc(c@)),
{
    let ghost cv = c@;
    let ghost mut acc: Seq<(Seq<char>, ValueV)> = Seq::empty();
    proof {
        assert(out@ =~= old(out)@ + render_lines(acc));
    }
    push_seg_u16(out, "rpc_port", &c.rpc_port);
    proof {
        lemma_render_lines_append(acc, seg_nat("rpc_port"@, on_u16(cv.rpc_port)));
        acc = acc + seg_nat("rpc_port"@, on_u16(cv.rpc_port));
        assert(out@ == old(out)@ + render_lines(acc));
    }
    push_seg_str(out, "rpc_bind_address", &c.rpc_bind_address);
    proof {
        lemma_render_lines_append(acc, seg_str("rpc_bind_address"@, cv.rpc_bind_address));
        acc = acc + seg_str("rpc_bind_address"@, cv.rpc_bind_address);
        assert(out@ == old(out)@ + render_lines(acc));
    }
    push_seg_bool(out, "enable_rpc_transaction_history", &c.enable_rpc_transaction_history);
    proof {
        lemma_render_lines_append(acc, seg_bool("enable_rpc_transaction_history"@, cv.enable_rpc_transaction_history));
        acc = acc + seg_bool("enable_rpc_transaction_history"@, cv.enable_rpc_transaction_history);
        assert(out@ == old(out)@ + render_lines(acc));
    }
    push_seg_bool(out, "enable_extended_tx_metadata_storage", &c.enable_extended_tx_metadata_storage);
    proof {
        lemma_render_lines_append(acc, seg_bool("enable_extended_tx_metadata_storage"@, cv.enable_extended_tx_metadata_storage));
        acc = acc + seg_bool("enable_extended_tx_metadata_storage"@, cv.enable_extended_tx_metadata_storage);
        assert(out@ == old(out)@ + render_lines(acc));
    }
    push_seg_usize(out, "rpc_threads", &c.rpc_threads);
    proof {
        lemma_render_lines_append(acc, seg_nat("rpc_threads"@, on_usize(cv.rpc_threads)));
        acc = acc + seg_nat("rpc_threads"@, on_usize(cv.rpc_threads));
        assert(out@ == old(out)@ + render_lines(acc));
    }
    push_seg_usize(out, "rpc_blocking_threads", &c.rpc_blocking_threads);
    proof {
        lemma_render_lines_append(acc, seg_nat("rpc_blocking_threads"@, on_usize(cv.rpc_blocking_threads)));
        acc = acc + seg_nat("rpc_blocking_threads"@, on_usize(cv.rpc_blocking_threads));
        assert(out@ == old(out)@ + render_lines(acc));
    }
    push_seg_usize(out, "rpc_max_request_body_size", &c.rpc_max_request_body_size);
    proof {
        lemma_render_lines_append(acc, seg_nat("rpc_max_request_body_size"@, on_usize(cv.rpc_max_request_body_size)));
        acc = acc + seg_nat("rpc_max_request_body_size"@, on_usize(cv.rpc_max_request_body_size));
        assert(out@ == old(out)@ + render_lines(acc));
    }
    push_seg_usize(out, "rpc_pubsub_max_active_subscriptions", &c.rpc_pubsub_max_active_subscriptions);
    proof {
        lemma_render_lines_append(acc, seg_nat("rpc_pubsub_max_active_subscriptions"@, on_usize(cv.rpc_pubsub_max_active_subscriptions)));
        acc = acc + seg_nat("rpc_pubsub_max_active_subscriptions"@, on_usize(cv.rpc_pubsub_max_active_subscriptions));
        assert(out@ == old(out)@ + render_lines(acc));
    }
    push_seg_usize(out, "rpc_pubsub_queue_capacity_items", &c.rpc_pubsub_queue_capacity_items);
    proof {
        lemma_render_lines_append(acc, seg_nat("rpc_pubsub_queue_capacity_items"@, on_usize(cv.rpc_pubsub_queue_capacity_items)));
        acc = acc + seg_nat("rpc_pubsub_queue_capacity_items"@, on_usize(cv.rpc_pubsub_queue_capacity_items));
        assert(out@ == old(out)@ + render_lines(acc));
    }
    push_seg_usize(out, "rpc_pubsub_queue_capacity_bytes", &c.rpc_pubsub_queue_capacity_bytes);
    proof {
        lemma_render_lines_append(acc, seg_nat("rpc_pubsub_queue_capacity_bytes"@, on_usize(cv.rpc_pubsub_queue_capacity_bytes)));
        acc = acc + seg_nat("rpc_pubsub_queue_capacity_bytes"@, on_usize(cv.rpc_pubsub_queue_capacity_bytes));
        assert(out@ == old(out)@ + render_lines(acc));
    }
    proof {
        assert(acc =~= pairs_rpc(cv));
    }
}

fn render_perf(out: &mut String, c: &ValidatorConfig)
    ensures
        final(out)@ == old(out)@ + render_lines(pairs_perf(c@)),
{
    let ghost cv = c@;
    let ghost mut acc: Seq<(Seq<char>, ValueV)> = Seq::empty();
    proof {
        assert(out@ =~= old(out)@ + render_lines(acc));
    }
    push_seg_dec(out, "accounts_shrink_ratio", &c.accounts_shrink_ratio);
    proof {
        lemma_render_lines_append(acc, seg_dec("accounts_shrink_ratio"@, cv.accounts_shrink_ratio));
        acc = acc + seg_dec("accounts_shrink_ratio"@, cv.accounts_shrink_ratio);
        assert(out@ == old(out)@ + render_lines(acc));
    }
    push_seg_bool(out, "accounts_shrink_optimize_total_space", &c.accounts_shrink_optimize_total_space);
    proof {
        lemma_render_lines_append(acc, seg_bool("accounts_shrink_optimize_total_space"@, cv.accounts_shrink_optimize_total_space));
        acc = acc + seg_bool("accounts_shrink_optimize_total_space"@, cv.accounts_shrink_optimize_total_space);
        assert(out@ == old(out)@ + render_lines(acc));
    }
    push_seg_u64(out, "banking_trace_dir_byte_limit", &c.banking_trace_dir_byte_limit);
    proof {
        lemma_render_lines_append(acc, seg_nat("banking_trace_dir_byte_limit"@, on_u64(cv.banking_trace_dir_byte_limit)));
        acc = acc + seg_nat("banking_trace_dir_byte_limit"@, on_u64(cv.banking_trace_dir_byte_limit));
        assert(out@ == old(out)@ + render_lines(acc));
    }
    push_seg_usize(out, "tpu_connection_pool_size", &c.tpu_connection_pool_size);
    proof {
        lemma_render_lines_append(acc, seg_nat("tpu_connection_pool_size"@, on_usize(cv.tpu_connection_pool_size)));
        acc = acc + seg_nat("tpu_connection_pool_size"@, on_usize(cv.tpu_connection_pool_size));
        assert(out@ == old(out)@ + render_lines(acc));
    }
    push_seg_usize(out, "tpu_max_connections_per_peer", &c.tpu_max_connections_per_peer);
    proof {
        lemma_render_lines_append(acc, seg_nat("tpu_max_connections_per_peer"@, on_usize(cv.tpu_max_connections_per_peer)));
        acc = acc + seg_nat("tpu_max_connections_per_peer"@, on_usize(cv.tpu_max_connections_per_peer));
        assert(out@ == old(out)@ + render_lines(acc));
    }
    push_seg_u64(out, "tpu_max_connections_per_ipaddr_per_minute", &c.tpu_max_connections_per_ipaddr_per_minute);
    proof {
        lemma_render_lines_append(acc, seg_nat("tpu_max_connections_per_ipaddr_per_minute"@, on_u64(cv.tpu_max_connections_per_ipaddr_per_minute)));
        acc = acc + seg_nat("tpu_max_connections_per_ipaddr_per_minute"@, on_u64(cv.tpu_max_connections_per_ipaddr_per_minute));
        assert(out@ == old(out)@ + render_lines(acc));
    }
    push_seg_usize(out, "tpu_max_staked_connections", &c.tpu_max_staked_connections);
    proof {
        lemma_render_lines_append(acc, seg_nat("tpu_max_staked_connections"@, on_usize(cv.tpu_max_staked_connections)));
        acc = acc + seg_nat("tpu_max_staked_connections"@, on_usize(cv.tpu_max_staked_connections));
        assert(out@ == old(out)@ + render_lines(acc));
    }
    push_seg_usize(out, "tpu_max_unstaked_connections", &c.tpu_max_unstaked_connections);
    proof {
        lemma_render_lines_append(acc, seg_nat("tpu_max_unstaked_connections"@, on_usize(cv.tpu_max_unstaked_connections)));
        acc = acc + seg_nat("tpu_max_unstaked_connections"@, on_usize(cv.tpu_max_unstaked_connections));
        assert(out@ == old(out)@ + render_lines(acc));
    }
    push_seg_usize(out, "tpu_max_streams_per_ms", &c.tpu_max_streams_per_ms);
    proof {
        lemma_render_lines_append(acc, seg_nat("tpu_max_streams_per_ms"@, on_usize(cv.tpu_max_streams_per_ms)));
        acc = acc + seg_nat("tpu_max_streams_per_ms"@, on_usize(cv.tpu_max_streams_per_ms));
        assert(out@ == old(out)@ + render_lines(acc));
    }
    proof {
        assert(acc =~= pairs_perf(cv));
    }
}

fn render_snapshot(out: &mut String, c: &ValidatorConfig)
    ensures
        final(out)@ == old(out)@ + render_lines(pairs_snapshot(c@)),
{
    let ghost cv = c@;
    let ghost mut acc: Seq<(Seq<char>, ValueV)> = Seq::empty();
    proof {
        assert(out@ =~= old(out)@ + render_lines(acc));
    }
    push_seg_str(out, "snapshot_version", &c.snapshot_version);
    proof {
        lemma_render_lines_append(acc, seg_str("snapshot_version"@, cv.snapshot_version));
        acc = acc + seg_str("snapshot_version"@, cv.snapshot_version);
        assert(out@ == old(out)@ + render_lines(acc));
    }
    push_seg_str(out, "snapshot_archive_format", &c.snapshot_archive_format);
    proof {
        lemma_render_lines_append(acc, seg_str("snapshot_archive_format"@, cv.snapshot_archive_format));
        acc = acc + seg_str("snapshot_archive_format"@, cv.snapshot_archive_format);
        assert(out@ == old(out)@ + render_lines(acc));
    }
    push_seg_u64(out, "full_snapshot_archive_interval_slots", &c.full_snapshot_archive_interval_slots);
    proof {
        lemma_render_lines_append(acc, seg_nat("full_snapshot_archive_interval_slots"@, on_u64(cv.full_snapshot_archive_interval_slots)));
        acc = acc + seg_nat("full_snapshot_archive_interval_slots"@, on_u64(cv.full_snapshot_archive_interval_slots));
        assert(out@ == old(out)@ + render_lines(acc));
    }
    push_seg_u64(out, "incremental_snapshot_archive_interval_slots", &c.incremental_snapshot_archive_interval_slots);
    proof {
        lemma_render_lines_append(acc, seg_nat("incremental_snapshot_archive_interval_slots"@, on_u64(cv.incremental_snapshot_archive_interval_slots)));
        acc = acc + seg_nat("incremental_snapshot_archive_interval_slots"@, on_u64(cv.incremental_snapshot_archive_interval_slots));
        assert(out@ == old(out)@ + render_lines(acc));
    }
    push_seg_usize(out, "maximum_full_snapshot_archives_to_retain", &c.maximum_full_snapshot_archives_to_retain);
    proof {
        lemma_render_lines_append(acc, seg_nat("maximum_full_snapshot_archives_to_retain"@, on_usize(cv.maximum_full_snapshot_archives_to_retain)));
        acc = acc + seg_nat("maximum_full_snapshot_archives_to_retain"@, on_usize(cv.maximum_full_snapshot_archives_to_retain));
        assert(out@ == old(out)@ + render_lines(acc));
    }
    push_seg_usize(out, "maximum_incremental_snapshot_archives_to_retain", &c.maximum_incremental_snapshot_archives_to_retain);
    proof {
        lemma_render_lines_append(acc, seg_nat("maximum_incremental_snapshot_archives_to_retain"@, on_usize(cv.maximum_incremental_snapshot_archives_to_retain)));
        acc = acc + seg_nat("maximum_incremental_snapshot_archives_to_retain"@, on_usize(cv.maximum_incremental_snapshot_archives_to_retain));
        assert(out@ == old(out)@ + render_lines(acc));
    }
    push_seg_u64(out, "min_snapshot_download_speed", &c.min_snapshot_download_speed);
    proof {
        lemma_render_lines_append(acc, seg_nat("min_snapshot_download_speed"@, on_u64(cv.min_snapshot_download_speed)));
        acc = acc + seg_nat("min_snapshot_download_speed"@, on_u64(cv.min_snapshot_download_speed));
        assert(out@ == old(out)@ + render_lines(acc));
    }
    push_seg_u32(out, "max_snapshot_download_abort", &c.max_snapshot_download_abort);
    proof {
        lemma_render_lines_append(acc, seg_nat("max_snapshot_download_abort"@, on_u32(cv.max_snapshot_download_abort)));
        acc = acc + seg_nat("max_snapshot_download_abort"@, on_u32(cv.max_snapshot_download_abort));
        assert(out@ == old(out)@ + render_lines(acc));
    }
    proof {
        assert(acc =~= pairs_snapshot(cv));
    }
}

fn render_threads(out: &mut String, c: &ValidatorConfig)
    ensures
        final(out)@ == old(out)@ + render_lines(pairs_threads(c@)),
{
    let ghost cv = c@;
    let ghost mut acc: Seq<(Seq<char>, ValueV)> = Seq::empty();
    proof {
        assert(out@ =~= old(out)@ + render_lines(acc));
    }
    push_seg_usize(out, "replay_forks_threads", &c.replay_forks_threads);
    proof {
        lemma_render_lines_append(acc, seg_nat("replay_forks_threads"@, on_usize(cv.replay_forks_threads)));
        acc = acc + seg_nat("replay_forks_threads"@, on_usize(cv.replay_forks_threads));
        assert(out@ == old(out)@ + render_lines(acc));
    }
    push_seg_usize(out, "replay_transactions_threads", &c.replay_transactions_threads);
    proof {
        lemma_render_lines_append(acc, seg_nat("replay_transactions_threads"@, on_usize(cv.replay_transactions_threads)));
        acc = acc + seg_nat("replay_transactions_threads"@, on_usize(cv.replay_transactions_threads));
        assert(out@ == old(out)@ + render_lines(acc));
    }
    push_seg_usize(out, "tvu_shred_sigverify_threads", &c.tvu_shred_sigverify_threads);
    proof {
        lemma_render_lines_append(acc, seg_nat("tvu_shred_sigverify_threads"@, on_usize(cv.tvu_shred_sigverify_threads)));
        acc = acc + seg_nat("tvu_shred_sigverify_threads"@, on_usize(cv.tvu_shred_sigverify_threads));
        assert(out@ == old(out)@ + render_lines(acc));
    }
    proof {
        assert(acc =~= pairs_threads(cv));
    }
}

fn render_behavior(out: &mut String, c: &ValidatorConfig)
    ensures
        final(out)@ == old(out)@ + render_lines(pairs_behavior(c@)),
{
    let ghost cv = c@;
    let ghost mut acc: Seq<(Seq<char>, ValueV)> = Seq::empty();
    proof {
        assert(out@ =~= old(out)@ + render_lines(acc));
    }
    push_seg_bool(out, "voting_disabled", &c.voting_disabled);
    proof {
        lemma_render_lines_append(acc, seg_bool("voting_disabled"@, cv.voting_disabled));
        acc = acc + seg_bool("voting_disabled"@, cv.voting_disabled);
        assert(out@ == old(out)@ + render_lines(acc));
    }
    push_seg_u64(out, "dev_halt_at_slot", &c.dev_halt_at_slot);
    proof {
        lemma_render_lines_append(acc, seg_nat("dev_halt_at_slot"@, on_u64(cv.dev_halt_at_slot)));
        acc = acc + seg_nat("dev_halt_at_slot"@, on_u64(cv.dev_halt_at_slot));
        assert(out@ == old(out)@ + render_lines(acc));
    }
    push_seg_u64(out, "wait_for_supermajority", &c.wait_for_supermajority);
    proof {
        lemma_render_lines_append(acc, seg_nat("wait_for_supermajority"@, on_u64(cv.wait_for_supermajority)));
        acc = acc + seg_nat("wait_for_supermajority"@, on_u64(cv.wait_for_supermajority));
        assert(out@ == old(out)@ + render_lines(acc));
    }
    push_seg_str(out, "expected_genesis_hash", &c.expected_genesis_hash);
    proof {
        lemma_render_lines_append(acc, seg_str("expected_genesis_hash"@, cv.expected_genesis_hash));
        acc = acc + seg_str("expected_genesis_hash"@, cv.expected_genesis_hash);
        assert(out@ == old(out)@ + render_lines(acc));
    }
    push_seg_str(out, "expected_bank_hash", &c.expected_bank_hash);
    proof {
        lemma_render_lines_append(acc, seg_str("expected_bank_hash"@, cv.expected_bank_hash));
        acc = acc + seg_str("expected_bank_hash"@, cv.expected_bank_hash);
        assert(out@ == old(out)@ + render_lines(acc));
    }
    push_seg_u16(out, "expected_shred_version", &c.expected_shred_version);
    proof {
        lemma_render_lines_append(acc, seg_nat("expected_shred_version"@, on_u16(cv.expected_shred_version)));
        acc = acc + seg_nat("expected_shred_version"@, on_u16(cv.expected_shred_version));
        assert(out@ == old(out)@ + render_lines(acc));
    }
    push_seg_bool(out, "no_voting", &c.no_voting);
    proof {
        lemma_render_lines_append(acc, seg_bool("no_voting"@, cv.no_voting));
        acc = acc + seg_bool("no_voting"@, cv.no_voting);
        assert(out@ == old(out)@ + render_lines(acc));
    }
    push_seg_bool(out, "no_check_vote_account", &c.no_check_vote_account);
    proof {
        lemma_render_lines_append(acc, seg_bool("no_check_vote_account"@, cv.no_check_vote_account));
        acc = acc + seg_bool("no_check_vote_account"@, cv.no_check_vote_account);
        assert(out@ == old(out)@ + render_lines(acc));
    }
    proof {
        assert(acc =~= pairs_behavior(cv));
    }
}

fn render_identity(out: &mut String, c: &ValidatorConfig)
    ensures
        final(out)@ == old(out)@ + render_lines(pairs_identity(c@)),
{
    let ghost cv = c@;
    let ghost mut acc: Seq<(Seq<char>, ValueV)> = Seq::empty();
    proof {
        assert(out@ =~= old(out)@ + render_lines(acc));
    }
    push_seg_str(out, "identity", &c.identity);
    proof {
        lemma_render_lines_append(acc, seg_str("identity"@, cv.identity));
        acc = acc + seg_str("identity"@, cv.identity);
        assert(out@ == old(out)@ + render_lines(acc));
    }
    push_seg_str(out, "vote_account", &c.vote_account);
    proof {
        lemma_render_lines_append(acc, seg_str("vote_account"@, cv.vote_account));
        acc = acc + seg_str("vote_account"@, cv.vote_account);
        assert(out@ == old(out)@ + render_lines(acc));
    }
    push_seg_list(out, "authorized_voter_keypairs", &c.authorized_voter_keypairs);
    proof {
        lemma_render_lines_append(acc, seg_list("authorized_voter_keypairs"@, cv.authorized_voter_keypairs));
        acc = acc + seg_list("authorized_voter_keypairs"@, cv.authorized_voter_keypairs);
        assert(out@ == old(out)@ + render_lines(acc));
    }
    push_seg_list(out, "known_validators", &c.known_validators);
    proof {
        lemma_render_lines_append(acc, seg_list("known_validators"@, cv.known_validators));
        acc = acc + seg_list("known_validators"@, cv.known_validators);
        assert(out@ == old(out)@ + render_lines(acc));
    }
    push_seg_bool(out, "only_known_rpc", &c.only_known_rpc);
    proof {
        lemma_render_lines_append(acc, seg_bool("only_known_rpc"@, cv.only_known_rpc));
        acc = acc + seg_bool("only_known_rpc"@, cv.only_known_rpc);
        assert(out@ == old(out)@ + render_lines(acc));
    }
    proof {
        assert(acc =~= pairs_identity(cv));
    }
}

fn render_debug(out: &mut String, c: &ValidatorConfig)
    ensures
        final(out)@ == old(out)@ + render_lines(pairs_debug(c@)),
{
    let ghost cv = c@;
    let ghost mut acc: Seq<(Seq<char>, ValueV)> = Seq::empty();
    proof {
        assert(out@ =~= old(out)@ + render_lines(acc));
    }
    push_seg_usize(out, "log_messages_bytes_limit", &c.log_messages_bytes_limit);
    proof {
        lemma_render_lines_append(acc, seg_nat("log_messages_bytes_limit"@, on_usize(cv.log_messages_bytes_limit)));
        acc = acc + seg_nat("log_messages_bytes_limit"@, on_usize(cv.log_messages_bytes_limit));
        assert(out@ == old(out)@ + render_lines(acc));
    }
    push_seg_bool(out, "skip_startup_ledger_verification", &c.skip_startup_ledger_verification);
    proof {
        lemma_render_lines_append(acc, seg_bool("skip_startup_ledger_verification"@, cv.skip_startup_ledger_verification));
        acc = acc + seg_bool("skip_startup_ledger_verification"@, cv.skip_startup_ledger_verification);
        assert(out@ == old(out)@ + render_lines(acc));
    }
    push_seg_bool(out, "skip_poh_verify", &c.skip_poh_verify);
    proof {
        lemma_render_lines_append(acc, seg_bool("skip_poh_verify"@, cv.skip_poh_verify));
        acc = acc + seg_bool("skip_poh_verify"@, cv.skip_poh_verify);
        assert(out@ == old(out)@ + render_lines(acc));
    }
    push_seg_list(out, "debug_keys", &c.debug_keys);
    proof {
        lemma_render_lines_append(acc, seg_list("debug_keys"@, cv.debug_keys));
        acc = acc + seg_list("debug_keys"@, cv.debug_keys);
        assert(out@ == old(out)@ + render_lines(acc));
    }
    proof {
        assert(acc =~= pairs_debug(cv));
    }
}

/// Render a schema as configuration text: one line per set field, in a fixed
/// order.  Refused (`ConfigError::Serialize`) when some string field holds a
/// double quote or a newline, which this format cannot carry unescaped.
pub fn render_config(c: &ValidatorConfig) -> (r: Result<String, ConfigError>)
    ensures
        r matches Ok(s) ==> wf_config(c@) && s@ == spec_render(c@),
        r is Err ==> !wf_config(c@),
{
    if !wf_config_x(c) {
        return Err(ConfigError::Serialize);
    }
    let ghost cv = c@;
    let mut out = String::new();
    render_network(&mut out, c);
    render_ledger(&mut out, c);
    render_rpc(&mut out, c);
    render_perf(&mut out, c);
    render_snapshot(&mut out, c);
    render_threads(&mut out, c);
    render_behavior(&mut out, c);
    render_identity(&mut out, c);
    render_debug(&mut out, c);
    proof {
        lemma_render_lines_append(pairs_network(cv), pairs_ledger(cv));
        lemma_render_lines_append(pairs_network(cv) + pairs_ledger(cv), pairs_rpc(cv));
        lemma_render_lines_append(pairs_network(cv) + pairs_ledger(cv) + pairs_rpc(cv), pairs_perf(cv));
        lemma_render_lines_append(pairs_network(cv) + pairs_ledger(cv) + pairs_rpc(cv) + pairs_perf(cv), pairs_snapshot(cv));
        lemma_render_lines_append(pairs_network(cv) + pairs_ledger(cv) + pairs_rpc(cv) + pairs_perf(cv) + pairs_snapshot(cv), pairs_threads(cv));
        lemma_render_lines_append(pairs_network(cv) + pairs_ledger(cv) + pairs_rpc(cv) + pairs_perf(cv) + pairs_snapshot(cv) + pairs_threads(cv), pairs_behavior(cv));
        lemma_render_lines_append(pairs_network(cv) + pairs_ledger(cv) + pairs_rpc(cv) + pairs_perf(cv) + pairs_snapshot(cv) + pairs_threads(cv) + pairs_behavior(cv), pairs_identity(cv));
        lemma_render_lines_append(pairs_network(cv) + pairs_ledger(cv) + pairs_rpc(cv) + pairs_perf(cv) + pairs_snapshot(cv) + pairs_threads(cv) + pairs_behavior(cv) + pairs_identity(cv), pairs_debug(cv));
        assert(out@ =~= render_lines(pairs_of(cv)));
    }
    Ok(out)
}

} // verus!
