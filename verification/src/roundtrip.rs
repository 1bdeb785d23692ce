//! The save/load round trip: a renderable schema, written out and read
//! back, comes back field for field unchanged.
use vstd::prelude::*;

use crate::num::{dec_digits, is_dec_digit, lemma_dec_digits_props};
use crate::reader::{
    lemma_find_nl_bounds, lemma_parse_skip, spec_apply, spec_apply_line, spec_find_nl, spec_parse,
    spec_parse_cfg,
};
use crate::schema::{all_absent, is_num_token, wf_config, wf_str, ConfigV};
use crate::value::{
    is_key_char, is_num_char, lemma_scan_key_bounds, lemma_scan_num_bounds,
    lemma_scan_quote_bounds, lemma_skip_sp_bounds, quote_str, render_items, render_value,
    scan_key, scan_num, scan_quote, skip_sp, spec_parse_items, spec_parse_value, wf_value, ValueV,
};
use crate::writer::{
    on_u16, on_u32, on_u64, on_usize, pairs_behavior, pairs_debug, pairs_identity, pairs_ledger,
    pairs_network, pairs_of, pairs_perf, pairs_rpc, pairs_snapshot, pairs_threads, render_lines,
    render_pair_line, seg_bool, seg_dec, seg_list, seg_nat, seg_str, spec_render,
};

verus! {

/// A key the line grammar can read back: non-empty, all key characters.
pub open spec fn wf_key(k: Seq<char>) -> bool {
    k.len() > 0 && forall|i: int| 0 <= i < k.len() ==> is_key_char(#[trigger] k[i])
}

/// A pair the renderer may emit and the reader must return.
pub open spec fn wf_pair(p: (Seq<char>, ValueV)) -> bool {
    wf_key(p.0) && wf_value(p.1)
}

pub open spec fn wf_pairs(pairs: Seq<(Seq<char>, ValueV)>) -> bool {
    forall|i: int| 0 <= i < pairs.len() ==> wf_pair(#[trigger] pairs[i])
}

/// Applying a list of pairs to a schema in order; the first refused pair
/// refuses the whole list.
pub open spec fn fold_pairs(c: ConfigV, pairs: Seq<(Seq<char>, ValueV)>) -> Option<ConfigV>
    decreases pairs.len(),
{
    if pairs.len() == 0 {
        Some(c)
    } else {
        match spec_apply(c, pairs[0].0, pairs[0].1) {
            Some(c2) => fold_pairs(c2, pairs.drop_first()),
            None => None,
        }
    }
}

pub proof fn lemma_render_items_no_nl(l: Seq<Seq<char>>)
    requires
        forall|i: int| 0 <= i < l.len() ==> wf_str(#[trigger] l[i]),
    ensures
        forall|d: int| 0 <= d < render_items(l).len() ==> #[trigger] render_items(l)[d] != '\n',
    decreases l.len(),
{
    if l.len() == 0 {
    } else if l.len() == 1 {
        assert(forall|d: int|
            0 <= d < quote_str(l[0]).len() ==> #[trigger] quote_str(l[0])[d] != '\n');
    } else {
        lemma_render_items_no_nl(l.drop_first());
        let a = quote_str(l[0]) + seq![',', ' '];
        let b = render_items(l.drop_first());
        assert(render_items(l) == a + b);
        assert(forall|d: int| 0 <= d < a.len() ==> #[trigger] a[d] != '\n');
        assert(forall|d: int|
            0 <= d < render_items(l).len() ==> #[trigger] render_items(l)[d] != '\n') by {
            assert(forall|d: int|
                0 <= d < (a + b).len() ==> #[trigger] (a + b)[d] == (if d < a.len() {
                    a[d]
                } else {
                    b[d - a.len()]
                }));
        }
    }
}

pub proof fn lemma_render_value_no_nl(v: ValueV)
    requires
        wf_value(v),
    ensures
        forall|d: int| 0 <= d < render_value(v).len() ==> #[trigger] render_value(v)[d] != '\n',
{
    match v {
        ValueV::Str(s) => {},
        ValueV::Num(t) => {
            assert(forall|d: int| 0 <= d < t.len() ==> #[trigger] t[d] != '\n');
        },
        ValueV::Bool(b) => {},
        ValueV::List(l) => {
            lemma_render_items_no_nl(l);
            let mid = render_items(l);
            let whole = seq!['['] + mid + seq![']'];
            assert(render_value(v) == whole);
            assert(forall|d: int| 0 <= d < whole.len() ==> #[trigger] whole[d] != '\n') by {
                assert(whole[0] == '[');
                assert(whole[whole.len() - 1] == ']');
                assert(forall|d: int| 1 <= d < 1 + mid.len() ==> #[trigger] whole[d] == mid[d - 1]);
            }
        },
    }
}

/// The first character of a rendered value is never a space.
pub proof fn lemma_render_value_head(v: ValueV)
    requires
        wf_value(v),
    ensures
        render_value(v).len() > 0,
        render_value(v)[0] != ' ',
        render_value(v)[0] != '\n',
{
    match v {
        ValueV::Str(s) => {
            assert(render_value(v)[0] == '"');
        },
        ValueV::Num(t) => {
            assert(render_value(v)[0] == t[0]);
            assert(is_dec_digit(t[0]));
        },
        ValueV::Bool(b) => {},
        ValueV::List(l) => {
            assert(render_value(v)[0] == '[');
        },
    }
}

/// Reading a rendered value out of a line: the value comes back exactly,
/// with the cursor at the end of the line.
pub proof fn lemma_value_roundtrip(l: Seq<char>, i: int, v: ValueV)
    requires
        wf_value(v),
        0 <= i,
        l.len() == i + render_value(v).len(),
        forall|d: int| 0 <= d < render_value(v).len() ==> l[i + d] == #[trigger] render_value(v)[d],
    ensures
        spec_parse_value(l, i) == Some((v, l.len() as int)),
{
    let rv = render_value(v);
    match v {
        ValueV::Str(s) => {
            assert(rv == seq!['"'] + s + seq!['"']);
            assert(rv[0] == '"');
            assert(forall|d: int| 0 <= d < s.len() ==> rv[1 + d] == #[trigger] s[d]);
            assert(rv[s.len() as int + 1] == '"');
            assert(l[i] == '"');
            lemma_scan_quote_bounds(l, i + 1);
            let j = scan_quote(l, i + 1);
            assert(forall|d: int| 0 <= d < s.len() ==> l[i + 1 + d] == #[trigger] s[d]);
            assert(l[i + 1 + s.len()] == '"');
            assert(j == i + 1 + s.len()) by {
                if j < i + 1 + s.len() {
                    assert(l[j] == s[j - i - 1]);
                    assert(s[j - i - 1] != '"');
                }
            }
            assert(j < l.len());
            assert(l.subrange(i + 1, j) =~= s);
        },
        ValueV::Num(t) => {
            assert(rv == t);
            assert(l[i] == t[0]);
            assert(is_dec_digit(l[i]));
            assert(l[i] != '"' && l[i] != '[');
            assert(l[i] != 't' && l[i] != 'f');
            if i + 4 <= l.len() {
                assert(l.subrange(i, i + 4)[0] == l[i]);
                assert(!(l.subrange(i, i + 4) =~= seq!['t', 'r', 'u', 'e']));
            }
            if i + 5 <= l.len() {
                assert(l.subrange(i, i + 5)[0] == l[i]);
                assert(!(l.subrange(i, i + 5) =~= seq!['f', 'a', 'l', 's', 'e']));
            }
            lemma_scan_num_bounds(l, i);
            let j = scan_num(l, i);
            assert forall|d: int| 0 <= d < t.len() implies l[i + d] == #[trigger] t[d] by {
                assert(rv[d] == t[d]);
                assert(l[i + d] == rv[d]);
            }
            assert forall|d: int| i <= d < i + t.len() implies is_num_char(l[d]) by {
                assert(l[i + (d - i)] == t[d - i]);
                assert(is_dec_digit(t[d - i]) || t[d - i] == '.');
            }
            assert(j == i + t.len()) by {
                if j < i + t.len() {
                    assert(is_num_char(l[j]));
                }
            }
            assert(l.subrange(i, j) =~= t);
        },
        ValueV::Bool(b) => {
            if b {
                assert(rv =~= seq!['t', 'r', 'u', 'e']);
                assert(l[i] == 't');
                assert(l.subrange(i, i + 4) =~= seq!['t', 'r', 'u', 'e']);
            } else {
                assert(rv =~= seq!['f', 'a', 'l', 's', 'e']);
                assert(l[i] == 'f');
                if i + 4 <= l.len() {
                    assert(l.subrange(i, i + 4)[0] == 'f');
                    assert(!(l.subrange(i, i + 4) =~= seq!['t', 'r', 'u', 'e']));
                }
                assert(l.subrange(i, i + 5) =~= seq!['f', 'a', 'l', 's', 'e']);
            }
        },
        ValueV::List(items) => {
            let mid = render_items(items);
            assert(rv == seq!['['] + mid + seq![']']);
            assert(rv[0] == '[');
            assert(l[i] == '[');
            assert forall|d: int| 0 <= d < mid.len() implies l[i + 1 + d] == #[trigger] mid[d] by {
                assert(rv[1 + d] == mid[d]);
                assert(l[i + (1 + d)] == rv[1 + d]);
            }
            assert(rv[1 + mid.len() as int] == ']');
            assert(l[i + 1 + mid.len()] == ']');
            if items.len() == 0 {
                assert(mid.len() == 0);
                assert(rv[1] == ']');
                assert(l[i + 1] == ']');
                assert(skip_sp(l, i + 1) == i + 1);
                assert(spec_parse_value(l, i) == Some(
                    (ValueV::List(Seq::<Seq<char>>::empty()), i + 2),
                ));
                assert(items =~= Seq::<Seq<char>>::empty());
            } else {
                assert(mid[0] == quote_str(items[0])[0]) by {
                    if items.len() == 1 {
                    } else {
                        assert(mid == quote_str(items[0]) + seq![',', ' '] + render_items(
                            items.drop_first(),
                        ));
                    }
                }
                assert(mid[0] == '"');
                assert(l[i + 1] == '"');
                assert(skip_sp(l, i + 1) == i + 1);
                lemma_items_roundtrip(l, i + 1, items);
            }
        },
    }
}

/// Reading the rendered items of a non-empty list, the cursor on the first
/// item's opening quote and a closing bracket ending the line.
pub proof fn lemma_items_roundtrip(l: Seq<char>, i: int, items: Seq<Seq<char>>)
    requires
        items.len() > 0,
        forall|q: int| 0 <= q < items.len() ==> wf_str(#[trigger] items[q]),
        0 <= i,
        l.len() == i + render_items(items).len() + 1,
        forall|d: int|
            0 <= d < render_items(items).len() ==> l[i + d] == #[trigger] render_items(items)[d],
        l[l.len() - 1] == ']',
    ensures
        spec_parse_items(l, i) == Some((items, l.len() as int)),
    decreases items.len(),
{
    let s0 = items[0];
    assert(wf_str(s0));
    if items.len() == 1 {
        let mid = render_items(items);
        assert(mid == quote_str(s0));
        assert(mid[0] == '"');
        assert(l[i] == '"');
        lemma_scan_quote_bounds(l, i + 1);
        let j = scan_quote(l, i + 1);
        assert forall|d: int| 0 <= d < s0.len() implies l[i + 1 + d] == #[trigger] s0[d] by {
            assert(mid[1 + d] == s0[d]);
            assert(l[i + (1 + d)] == mid[1 + d]);
        }
        assert(mid[s0.len() as int + 1] == '"');
        assert(l[i + 1 + s0.len()] == '"');
        assert(j == i + 1 + s0.len()) by {
            if j < i + 1 + s0.len() {
                assert(l[j] == s0[j - i - 1]);
            }
        }
        assert(j < l.len());
        assert(l.subrange(i + 1, j) =~= s0);
        assert(l[j + 1] == ']');
        assert(skip_sp(l, j + 1) == j + 1);
        assert(spec_parse_items(l, i) == Some((seq![s0], j + 2)));
        assert(seq![s0] =~= items);
        assert(j + 2 == l.len());
    } else {
        let rest = items.drop_first();
        let mid = render_items(items);
        let a = quote_str(s0);
        let b = render_items(rest);
        assert(mid == a + seq![',', ' '] + b);
        assert(forall|d: int| 0 <= d < a.len() ==> mid[d] == #[trigger] a[d]);
        assert(mid[a.len() as int] == ',');
        assert(mid[a.len() as int + 1] == ' ');
        assert(forall|d: int| 0 <= d < b.len() ==> mid[a.len() + 2 + d] == #[trigger] b[d]);
        assert(mid[0] == a[0]);
        assert(a[0] == '"');
        assert(l[i] == '"');
        lemma_scan_quote_bounds(l, i + 1);
        let j = scan_quote(l, i + 1);
        assert forall|d: int| 0 <= d < s0.len() implies l[i + 1 + d] == #[trigger] s0[d] by {
            assert(a[1 + d] == s0[d]);
            assert(mid[1 + d] == a[1 + d]);
            assert(l[i + (1 + d)] == mid[1 + d]);
        }
        assert(mid[s0.len() as int + 1] == a[s0.len() as int + 1]);
        assert(a[s0.len() as int + 1] == '"');
        assert(l[i + 1 + s0.len()] == '"');
        assert(j == i + 1 + s0.len()) by {
            if j < i + 1 + s0.len() {
                assert(l[j] == s0[j - i - 1]);
            }
        }
        assert(j < l.len());
        assert(l.subrange(i + 1, j) =~= s0);
        assert(l[i + a.len()] == mid[a.len() as int]);
        assert(l[j + 1] == ',');
        assert(skip_sp(l, j + 1) == j + 1);
        assert(l[i + a.len() + 1] == mid[a.len() as int + 1]);
        assert(l[j + 2] == ' ');
        assert(b[0] == quote_str(rest[0])[0]) by {
            if rest.len() == 1 {
            } else {
                assert(b == quote_str(rest[0]) + seq![',', ' '] + render_items(rest.drop_first()));
            }
        }
        assert(b[0] == '"');
        assert(mid[a.len() as int + 2] == b[0]);
        assert(l[i + a.len() + 2] == mid[a.len() as int + 2]);
        assert(l[j + 3] == '"');
        assert(j + 3 < l.len());
        assert(skip_sp(l, j + 2) == skip_sp(l, j + 3));
        assert(skip_sp(l, j + 3) == j + 3);
        assert(forall|q: int| 0 <= q < rest.len() ==> wf_str(#[trigger] rest[q]));
        assert forall|d: int| 0 <= d < b.len() implies l[j + 3 + d] == #[trigger] b[d] by {
            assert(mid[a.len() + 2 + d] == b[d]);
            assert(l[i + (a.len() as int + 2 + d)] == mid[a.len() as int + 2 + d]);
        }
        lemma_items_roundtrip(l, j + 3, rest);
        assert(spec_parse_items(l, j + 3) == Some((rest, l.len() as int)));
        assert(spec_parse_items(l, i) == Some((seq![s0] + rest, l.len() as int)));
        assert(seq![s0] + rest =~= items);
    }
}

/// A rendered `key = value` line applies its pair, exactly.
pub proof fn lemma_pair_line(c: ConfigV, k: Seq<char>, v: ValueV)
    requires
        wf_key(k),
        wf_value(v),
    ensures
        spec_apply_line(c, k + seq![' ', '=', ' '] + render_value(v)) == spec_apply(c, k, v),
{
    let rv = render_value(v);
    let l = k + seq![' ', '=', ' '] + rv;
    assert(forall|d: int| 0 <= d < k.len() ==> l[d] == #[trigger] k[d]);
    assert(l[k.len() as int] == ' ');
    assert(l[k.len() as int + 1] == '=');
    assert(l[k.len() as int + 2] == ' ');
    assert(forall|d: int| 0 <= d < rv.len() ==> l[k.len() + 3 + d] == #[trigger] rv[d]);
    assert(l.len() == k.len() + 3 + rv.len());
    lemma_render_value_head(v);
    assert(is_key_char(l[0]));
    assert(l[0] != ' ' && l[0] != '#');
    assert(skip_sp(l, 0) == 0);
    lemma_scan_key_bounds(l, 0);
    let j = scan_key(l, 0);
    assert(!is_key_char(' '));
    assert(j == k.len()) by {
        if j < k.len() {
            assert(is_key_char(l[j]));
        }
    }
    assert(skip_sp(l, j) == skip_sp(l, j + 1));
    assert(skip_sp(l, j + 1) == j + 1);
    assert(l[j + 1] == '=');
    assert(skip_sp(l, j + 2) == skip_sp(l, j + 3));
    assert(l[k.len() as int + 3] == rv[0]);
    assert(skip_sp(l, j + 3) == j + 3);
    lemma_value_roundtrip(l, k.len() as int + 3, v);
    assert(spec_parse_value(l, k.len() as int + 3) == Some((v, l.len() as int)));
    assert(skip_sp(l, l.len() as int) == l.len());
    assert(l.subrange(0, j) =~= k);
}

/// Rendered lines read back as the fold of their pairs.
pub proof fn lemma_parse_render_lines(c: ConfigV, pairs: Seq<(Seq<char>, ValueV)>)
    requires
        wf_pairs(pairs),
    ensures
        spec_parse_cfg(c, render_lines(pairs), 0) == fold_pairs(c, pairs),
    decreases pairs.len(),
{
    let s = render_lines(pairs);
    if pairs.len() == 0 {
        assert(s =~= Seq::<char>::empty());
        lemma_find_nl_bounds(s, 0);
        assert(s.subrange(0, 0) =~= Seq::<char>::empty());
        assert(skip_sp(Seq::<char>::empty(), 0) == 0);
        assert(spec_apply_line(c, s.subrange(0, 0)) == Some(c));
    } else {
        let p = pairs[0];
        assert(wf_pair(p));
        let body = p.0 + seq![' ', '=', ' '] + render_value(p.1);
        let rest = render_lines(pairs.drop_first());
        assert(s == render_pair_line(p) + rest);
        assert(render_pair_line(p) == body + seq!['\n']);
        lemma_render_value_no_nl(p.1);
        assert(forall|d: int| 0 <= d < body.len() ==> #[trigger] body[d] != '\n') by {
            assert(forall|d: int| 0 <= d < p.0.len() ==> body[d] == #[trigger] p.0[d]);
            assert(forall|d: int|
                0 <= d < render_value(p.1).len() ==> body[p.0.len() + 3 + d]
                    == #[trigger] render_value(p.1)[d]);
            assert(forall|d: int| 0 <= d < p.0.len() ==> is_key_char(#[trigger] p.0[d]));
            assert(forall|cch: char| is_key_char(cch) ==> cch != '\n');
            assert(body[p.0.len() as int] == ' ');
            assert(body[p.0.len() as int + 1] == '=');
            assert(body[p.0.len() as int + 2] == ' ');
        }
        assert(forall|d: int| 0 <= d < body.len() ==> s[d] == #[trigger] body[d]);
        assert(s[body.len() as int] == '\n');
        lemma_find_nl_bounds(s, 0);
        let j = spec_find_nl(s, 0);
        assert(j == body.len()) by {
            if j < body.len() {
                assert(s[j] == body[j]);
            }
        }
        assert(s.subrange(0, j) =~= body);
        lemma_pair_line(c, p.0, p.1);
        assert(spec_apply_line(c, body) == spec_apply(c, p.0, p.1));
        match spec_apply(c, p.0, p.1) {
            None => {},
            Some(c2) => {
                assert(j < s.len());
                lemma_parse_skip(c2, s, j + 1);
                assert(s.skip(j + 1) =~= rest);
                assert(forall|q: int|
                    0 <= q < pairs.drop_first().len() ==> wf_pair(
                        #[trigger] pairs.drop_first()[q],
                    ));
                lemma_parse_render_lines(c2, pairs.drop_first());
            },
        }
    }
}

pub proof fn lemma_dec_digits_is_num_token(n: nat)
    ensures
        is_num_token(dec_digits(n)),
{
    lemma_dec_digits_props(n);
    let t = dec_digits(n);
    assert(is_dec_digit(t[0]));
    assert(is_dec_digit(t[t.len() - 1]));
    assert(forall|i: int| 0 <= i < t.len() ==> is_dec_digit(#[trigger] t[i]) || t[i] == '.');
    assert(forall|i: int, j: int|
        0 <= i < t.len() && 0 <= j < t.len() && t[i] == '.' && t[j] == '.' ==> i == j);
}

pub proof fn lemma_wf_pairs_one(p: (Seq<char>, ValueV))
    requires
        wf_pair(p),
    ensures
        wf_pairs(seq![p]),
{
    assert forall|i: int| 0 <= i < seq![p].len() implies wf_pair(#[trigger] seq![p][i]) by {
        assert(seq![p][i] == p);
    }
}

pub proof fn lemma_wf_pairs_append(a: Seq<(Seq<char>, ValueV)>, b: Seq<(Seq<char>, ValueV)>)
    requires
        wf_pairs(a),
        wf_pairs(b),
    ensures
        wf_pairs(a + b),
{
    assert forall|i: int| 0 <= i < (a + b).len() implies wf_pair(#[trigger] (a + b)[i]) by {
        if i < a.len() {
            assert((a + b)[i] == a[i]);
        } else {
            assert((a + b)[i] == b[i - a.len()]);
        }
    }
}

pub proof fn lemma_keys_network()
    ensures
        wf_key("bind_address"@),
        wf_key("entrypoint"@),
        wf_key("gossip_port"@),
        wf_key("gossip_host"@),
        wf_key("dynamic_port_range"@),
        wf_key("allow_private_addr"@),
{
    reveal_strlit("bind_address");
    reveal_strlit("entrypoint");
    reveal_strlit("gossip_port");
    reveal_strlit("gossip_host");
    reveal_strlit("dynamic_port_range");
    reveal_strlit("allow_private_addr");
}

pub proof fn lemma_keys_ledger()
    ensures
        wf_key("ledger_path"@),
        wf_key("accounts_path"@),
        wf_key("account_snapshot_paths"@),
        wf_key("limit_ledger_size"@),
{
    reveal_strlit("ledger_path");
    reveal_strlit("accounts_path");
    reveal_strlit("account_snapshot_paths");
    reveal_strlit("limit_ledger_size");
}

pub proof fn lemma_keys_rpc()
    ensures
        wf_key("rpc_port"@),
        wf_key("rpc_bind_address"@),
        wf_key("enable_rpc_transaction_history"@),
        wf_key("enable_extended_tx_metadata_storage"@),
        wf_key("rpc_threads"@),
        wf_key("rpc_blocking_threads"@),
        wf_key("rpc_max_request_body_size"@),
        wf_key("rpc_pubsub_max_active_subscriptions"@),
        wf_key("rpc_pubsub_queue_capacity_items"@),
        wf_key("rpc_pubsub_queue_capacity_bytes"@),
{
    reveal_strlit("rpc_port");
    reveal_strlit("rpc_bind_address");
    reveal_strlit("enable_rpc_transaction_history");
    reveal_strlit("enable_extended_tx_metadata_storage");
    reveal_strlit("rpc_threads");
    reveal_strlit("rpc_blocking_threads");
    reveal_strlit("rpc_max_request_body_size");
    reveal_strlit("rpc_pubsub_max_active_subscriptions");
    reveal_strlit("rpc_pubsub_queue_capacity_items");
    reveal_strlit("rpc_pubsub_queue_capacity_bytes");
}

pub proof fn lemma_keys_perf()
    ensures
        wf_key("accounts_shrink_ratio"@),
        wf_key("accounts_shrink_optimize_total_space"@),
        wf_key("banking_trace_dir_byte_limit"@),
        wf_key("tpu_connection_pool_size"@),
        wf_key("tpu_max_connections_per_peer"@),
        wf_key("tpu_max_connections_per_ipaddr_per_minute"@),
        wf_key("tpu_max_staked_connections"@),
        wf_key("tpu_max_unstaked_connections"@),
        wf_key("tpu_max_streams_per_ms"@),
{
    reveal_strlit("accounts_shrink_ratio");
    reveal_strlit("accounts_shrink_optimize_total_space");
    reveal_strlit("banking_trace_dir_byte_limit");
    reveal_strlit("tpu_connection_pool_size");
    reveal_strlit("tpu_max_connections_per_peer");
    reveal_strlit("tpu_max_connections_per_ipaddr_per_minute");
    reveal_strlit("tpu_max_staked_connections");
    reveal_strlit("tpu_max_unstaked_connections");
    reveal_strlit("tpu_max_streams_per_ms");
}

pub proof fn lemma_keys_snapshot()
    ensures
        wf_key("snapshot_version"@),
        wf_key("snapshot_archive_format"@),
        wf_key("full_snapshot_archive_interval_slots"@),
        wf_key("incremental_snapshot_archive_interval_slots"@),
        wf_key("maximum_full_snapshot_archives_to_retain"@),
        wf_key("maximum_incremental_snapshot_archives_to_retain"@),
        wf_key("min_snapshot_download_speed"@),
        wf_key("max_snapshot_download_abort"@),
{
    reveal_strlit("snapshot_version");
    reveal_strlit("snapshot_archive_format");
    reveal_strlit("full_snapshot_archive_interval_slots");
    reveal_strlit("incremental_snapshot_archive_interval_slots");
    reveal_strlit("maximum_full_snapshot_archives_to_retain");
    reveal_strlit("maximum_incremental_snapshot_archives_to_retain");
    reveal_strlit("min_snapshot_download_speed");
    reveal_strlit("max_snapshot_download_abort");
}

pub proof fn lemma_keys_threads()
    ensures
        wf_key("replay_forks_threads"@),
        wf_key("replay_transactions_threads"@),
        wf_key("tvu_shred_sigverify_threads"@),
{
    reveal_strlit("replay_forks_threads");
    reveal_strlit("replay_transactions_threads");
    reveal_strlit("tvu_shred_sigverify_threads");
}

pub proof fn lemma_keys_behavior()
    ensures
        wf_key("voting_disabled"@),
        wf_key("dev_halt_at_slot"@),
        wf_key("wait_for_supermajority"@),
        wf_key("expected_genesis_hash"@),
        wf_key("expected_bank_hash"@),
        wf_key("expected_shred_version"@),
        wf_key("no_voting"@),
        wf_key("no_check_vote_account"@),
{
    reveal_strlit("voting_disabled");
    reveal_strlit("dev_halt_at_slot");
    reveal_strlit("wait_for_supermajority");
    reveal_strlit("expected_genesis_hash");
    reveal_strlit("expected_bank_hash");
    reveal_strlit("expected_shred_version");
    reveal_strlit("no_voting");
    reveal_strlit("no_check_vote_account");
}

pub proof fn lemma_keys_identity()
    ensures
        wf_key("identity"@),
        wf_key("vote_account"@),
        wf_key("authorized_voter_keypairs"@),
        wf_key("known_validators"@),
        wf_key("only_known_rpc"@),
{
    reveal_strlit("identity");
    reveal_strlit("vote_account");
    reveal_strlit("authorized_voter_keypairs");
    reveal_strlit("known_validators");
    reveal_strlit("only_known_rpc");
}

pub proof fn lemma_keys_debug()
    ensures
        wf_key("log_messages_bytes_limit"@),
        wf_key("skip_startup_ledger_verification"@),
        wf_key("skip_poh_verify"@),
        wf_key("debug_keys"@),
{
    reveal_strlit("log_messages_bytes_limit");
    reveal_strlit("skip_startup_ledger_verification");
    reveal_strlit("skip_poh_verify");
    reveal_strlit("debug_keys");
}

pub proof fn lemma_wf_network(c: ConfigV)
    requires
        wf_config(c),
    ensures
        wf_pairs(pairs_network(c)),
{
    lemma_keys_network();
    if c.bind_address is Some {
        lemma_wf_pairs_one((seg_str("bind_address"@, c.bind_address))[0]);
    }
    assert(wf_pairs(seg_str("bind_address"@, c.bind_address)));
    if c.entrypoint is Some {
        lemma_wf_pairs_one((seg_list("entrypoint"@, c.entrypoint))[0]);
    }
    assert(wf_pairs(seg_list("entrypoint"@, c.entrypoint)));
    if c.gossip_port is Some {
        lemma_dec_digits_is_num_token(c.gossip_port.unwrap() as nat);
        lemma_wf_pairs_one((seg_nat("gossip_port"@, on_u16(c.gossip_port)))[0]);
    }
    assert(wf_pairs(seg_nat("gossip_port"@, on_u16(c.gossip_port))));
    if c.gossip_host is Some {
        lemma_wf_pairs_one((seg_str("gossip_host"@, c.gossip_host))[0]);
    }
    assert(wf_pairs(seg_str("gossip_host"@, c.gossip_host)));
    if c.dynamic_port_range is Some {
        lemma_wf_pairs_one((seg_str("dynamic_port_range"@, c.dynamic_port_range))[0]);
    }
    assert(wf_pairs(seg_str("dynamic_port_range"@, c.dynamic_port_range)));
    if c.allow_private_addr is Some {
        lemma_wf_pairs_one((seg_bool("allow_private_addr"@, c.allow_private_addr))[0]);
    }
    assert(wf_pairs(seg_bool("allow_private_addr"@, c.allow_private_addr)));
    lemma_wf_pairs_append(seg_str("bind_address"@, c.bind_address), seg_list("entrypoint"@, c.entrypoint));
    lemma_wf_pairs_append(seg_str("bind_address"@, c.bind_address) + seg_list("entrypoint"@, c.entrypoint), seg_nat("gossip_port"@, on_u16(c.gossip_port)));
    lemma_wf_pairs_append(seg_str("bind_address"@, c.bind_address) + seg_list("entrypoint"@, c.entrypoint) + seg_nat("gossip_port"@, on_u16(c.gossip_port)), seg_str("gossip_host"@, c.gossip_host));
    lemma_wf_pairs_append(seg_str("bind_address"@, c.bind_address) + seg_list("entrypoint"@, c.entrypoint) + seg_nat("gossip_port"@, on_u16(c.gossip_port)) + seg_str("gossip_host"@, c.gossip_host), seg_str("dynamic_port_range"@, c.dynamic_port_range));
    lemma_wf_pairs_append(seg_str("bind_address"@, c.bind_address) + seg_list("entrypoint"@, c.entrypoint) + seg_nat("gossip_port"@, on_u16(c.gossip_port)) + seg_str("gossip_host"@, c.gossip_host) + seg_str("dynamic_port_range"@, c.dynamic_port_range), seg_bool("allow_private_addr"@, c.allow_private_addr));
}

pub proof fn lemma_wf_ledger(c: ConfigV)
    requires
        wf_config(c),
    ensures
        wf_pairs(pairs_ledger(c)),
{
    lemma_keys_ledger();
    if c.ledger_path is Some {
        lemma_wf_pairs_one((seg_str("ledger_path"@, c.ledger_path))[0]);
    }
    assert(wf_pairs(seg_str("ledger_path"@, c.ledger_path)));
    if c.accounts_path is Some {
        lemma_wf_pairs_one((seg_list("accounts_path"@, c.accounts_path))[0]);
    }
    assert(wf_pairs(seg_list("accounts_path"@, c.accounts_path)));
    if c.account_snapshot_paths is Some {
        lemma_wf_pairs_one((seg_list("account_snapshot_paths"@, c.account_snapshot_paths))[0]);
    }
    assert(wf_pairs(seg_list("account_snapshot_paths"@, c.account_snapshot_paths)));
    if c.limit_ledger_size is Some {
        lemma_dec_digits_is_num_token(c.limit_ledger_size.unwrap() as nat);
        lemma_wf_pairs_one((seg_nat("limit_ledger_size"@, on_u64(c.limit_ledger_size)))[0]);
    }
    assert(wf_pairs(seg_nat("limit_ledger_size"@, on_u64(c.limit_ledger_size))));
    lemma_wf_pairs_append(seg_str("ledger_path"@, c.ledger_path), seg_list("accounts_path"@, c.accounts_path));
    lemma_wf_pairs_append(seg_str("ledger_path"@, c.ledger_path) + seg_list("accounts_path"@, c.accounts_path), seg_list("account_snapshot_paths"@, c.account_snapshot_paths));
    lemma_wf_pairs_append(seg_str("ledger_path"@, c.ledger_path) + seg_list("accounts_path"@, c.accounts_path) + seg_list("account_snapshot_paths"@, c.account_snapshot_paths), seg_nat("limit_ledger_size"@, on_u64(c.limit_ledger_size)));
}

pub proof fn lemma_wf_rpc(c: ConfigV)
    requires
        wf_config(c),
    ensures
        wf_pairs(pairs_rpc(c)),
{
    lemma_keys_rpc();
    if c.rpc_port is Some {
        lemma_dec_digits_is_num_token(c.rpc_port.unwrap() as nat);
        lemma_wf_pairs_one((seg_nat("rpc_port"@, on_u16(c.rpc_port)))[0]);
    }
    assert(wf_pairs(seg_nat("rpc_port"@, on_u16(c.rpc_port))));
    if c.rpc_bind_address is Some {
        lemma_wf_pairs_one((seg_str("rpc_bind_address"@, c.rpc_bind_address))[0]);
    }
    assert(wf_pairs(seg_str("rpc_bind_address"@, c.rpc_bind_address)));
    if c.enable_rpc_transaction_history is Some {
        lemma_wf_pairs_one((seg_bool("enable_rpc_transaction_history"@, c.enable_rpc_transaction_history))[0]);
    }
    assert(wf_pairs(seg_bool("enable_rpc_transaction_history"@, c.enable_rpc_transaction_history)));
    if c.enable_extended_tx_metadata_storage is Some {
        lemma_wf_pairs_one((seg_bool("enable_extended_tx_metadata_storage"@, c.enable_extended_tx_metadata_storage))[0]);
    }
    assert(wf_pairs(seg_bool("enable_extended_tx_metadata_storage"@, c.enable_extended_tx_metadata_storage)));
    if c.rpc_threads is Some {
        lemma_dec_digits_is_num_token(c.rpc_threads.unwrap() as nat);
        lemma_wf_pairs_one((seg_nat("rpc_threads"@, on_usize(c.rpc_threads)))[0]);
    }
    assert(wf_pairs(seg_nat("rpc_threads"@, on_usize(c.rpc_threads))));
    if c.rpc_blocking_threads is Some {
        lemma_dec_digits_is_num_token(c.rpc_blocking_threads.unwrap() as nat);
        lemma_wf_pairs_one((seg_nat("rpc_blocking_threads"@, on_usize(c.rpc_blocking_threads)))[0]);
    }
    assert(wf_pairs(seg_nat("rpc_blocking_threads"@, on_usize(c.rpc_blocking_threads))));
    if c.rpc_max_request_body_size is Some {
        lemma_dec_digits_is_num_token(c.rpc_max_request_body_size.unwrap() as nat);
        lemma_wf_pairs_one((seg_nat("rpc_max_request_body_size"@, on_usize(c.rpc_max_request_body_size)))[0]);
    }
    assert(wf_pairs(seg_nat("rpc_max_request_body_size"@, on_usize(c.rpc_max_request_body_size))));
    if c.rpc_pubsub_max_active_subscriptions is Some {
        lemma_dec_digits_is_num_token(c.rpc_pubsub_max_active_subscriptions.unwrap() as nat);
        lemma_wf_pairs_one((seg_nat("rpc_pubsub_max_active_subscriptions"@, on_usize(c.rpc_pubsub_max_active_subscriptions)))[0]);
    }
    assert(wf_pairs(seg_nat("rpc_pubsub_max_active_subscriptions"@, on_usize(c.rpc_pubsub_max_active_subscriptions))));
    if c.rpc_pubsub_queue_capacity_items is Some {
        lemma_dec_digits_is_num_token(c.rpc_pubsub_queue_capacity_items.unwrap() as nat);
        lemma_wf_pairs_one((seg_nat("rpc_pubsub_queue_capacity_items"@, on_usize(c.rpc_pubsub_queue_capacity_items)))[0]);
    }
    assert(wf_pairs(seg_nat("rpc_pubsub_queue_capacity_items"@, on_usize(c.rpc_pubsub_queue_capacity_items))));
    if c.rpc_pubsub_queue_capacity_bytes is Some {
        lemma_dec_digits_is_num_token(c.rpc_pubsub_queue_capacity_bytes.unwrap() as nat);
        lemma_wf_pairs_one((seg_nat("rpc_pubsub_queue_capacity_bytes"@, on_usize(c.rpc_pubsub_queue_capacity_bytes)))[0]);
    }
    assert(wf_pairs(seg_nat("rpc_pubsub_queue_capacity_bytes"@, on_usize(c.rpc_pubsub_queue_capacity_bytes))));
    lemma_wf_pairs_append(seg_nat("rpc_port"@, on_u16(c.rpc_port)), seg_str("rpc_bind_address"@, c.rpc_bind_address));
    lemma_wf_pairs_append(seg_nat("rpc_port"@, on_u16(c.rpc_port)) + seg_str("rpc_bind_address"@, c.rpc_bind_address), seg_bool("enable_rpc_transaction_history"@, c.enable_rpc_transaction_history));
    lemma_wf_pairs_append(seg_nat("rpc_port"@, on_u16(c.rpc_port)) + seg_str("rpc_bind_address"@, c.rpc_bind_address) + seg_bool("enable_rpc_transaction_history"@, c.enable_rpc_transaction_history), seg_bool("enable_extended_tx_metadata_storage"@, c.enable_extended_tx_metadata_storage));
    lemma_wf_pairs_append(seg_nat("rpc_port"@, on_u16(c.rpc_port)) + seg_str("rpc_bind_address"@, c.rpc_bind_address) + seg_bool("enable_rpc_transaction_history"@, c.enable_rpc_transaction_history) + seg_bool("enable_extended_tx_metadata_storage"@, c.enable_extended_tx_metadata_storage), seg_nat("rpc_threads"@, on_usize(c.rpc_threads)));
    lemma_wf_pairs_append(seg_nat("rpc_port"@, on_u16(c.rpc_port)) + seg_str("rpc_bind_address"@, c.rpc_bind_address) + seg_bool("enable_rpc_transaction_history"@, c.enable_rpc_transaction_history) + seg_bool("enable_extended_tx_metadata_storage"@, c.enable_extended_tx_metadata_storage) + seg_nat("rpc_threads"@, on_usize(c.rpc_threads)), seg_nat("rpc_blocking_threads"@, on_usize(c.rpc_blocking_threads)));
    lemma_wf_pairs_append(seg_nat("rpc_port"@, on_u16(c.rpc_port)) + seg_str("rpc_bind_address"@, c.rpc_bind_address) + seg_bool("enable_rpc_transaction_history"@, c.enable_rpc_transaction_history) + seg_bool("enable_extended_tx_metadata_storage"@, c.enable_extended_tx_metadata_storage) + seg_nat("rpc_threads"@, on_usize(c.rpc_threads)) + seg_nat("rpc_blocking_threads"@, on_usize(c.rpc_blocking_threads)), seg_nat("rpc_max_request_body_size"@, on_usize(c.rpc_max_request_body_size)));
    lemma_wf_pairs_append(seg_nat("rpc_port"@, on_u16(c.rpc_port)) + seg_str("rpc_bind_address"@, c.rpc_bind_address) + seg_bool("enable_rpc_transaction_history"@, c.enable_rpc_transaction_history) + seg_bool("enable_extended_tx_metadata_storage"@, c.enable_extended_tx_metadata_storage) + seg_nat("rpc_threads"@, on_usize(c.rpc_threads)) + seg_nat("rpc_blocking_threads"@, on_usize(c.rpc_blocking_threads)) + seg_nat("rpc_max_request_body_size"@, on_usize(c.rpc_max_request_body_size)), seg_nat("rpc_pubsub_max_active_subscriptions"@, on_usize(c.rpc_pubsub_max_active_subscriptions)));
    lemma_wf_pairs_append(seg_nat("rpc_port"@, on_u16(c.rpc_port)) + seg_str("rpc_bind_address"@, c.rpc_bind_address) + seg_bool("enable_rpc_transaction_history"@, c.enable_rpc_transaction_history) + seg_bool("enable_extended_tx_metadata_storage"@, c.enable_extended_tx_metadata_storage) + seg_nat("rpc_threads"@, on_usize(c.rpc_threads)) + seg_nat("rpc_blocking_threads"@, on_usize(c.rpc_blocking_threads)) + seg_nat("rpc_max_request_body_size"@, on_usize(c.rpc_max_request_body_size)) + seg_nat("rpc_pubsub_max_active_subscriptions"@, on_usize(c.rpc_pubsub_max_active_subscriptions)), seg_nat("rpc_pubsub_queue_capacity_items"@, on_usize(c.rpc_pubsub_queue_capacity_items)));
    lemma_wf_pairs_append(seg_nat("rpc_port"@, on_u16(c.rpc_port)) + seg_str("rpc_bind_address"@, c.rpc_bind_address) + seg_bool("enable_rpc_transaction_history"@, c.enable_rpc_transaction_history) + seg_bool("enable_extended_tx_metadata_storage"@, c.enable_extended_tx_metadata_storage) + seg_nat("rpc_threads"@, on_usize(c.rpc_threads)) + seg_nat("rpc_blocking_threads"@, on_usize(c.rpc_blocking_threads)) + seg_nat("rpc_max_request_body_size"@, on_usize(c.rpc_max_request_body_size)) + seg_nat("rpc_pubsub_max_active_subscriptions"@, on_usize(c.rpc_pubsub_max_active_subscriptions)) + seg_nat("rpc_pubsub_queue_capacity_items"@, on_usize(c.rpc_pubsub_queue_capacity_items)), seg_nat("rpc_pubsub_queue_capacity_bytes"@, on_usize(c.rpc_pubsub_queue_capacity_bytes)));
}

pub proof fn lemma_wf_perf(c: ConfigV)
    requires
        wf_config(c),
    ensures
        wf_pairs(pairs_perf(c)),
{
    lemma_keys_perf();
    if c.accounts_shrink_ratio is Some {
        lemma_wf_pairs_one((seg_dec("accounts_shrink_ratio"@, c.accounts_shrink_ratio))[0]);
    }
    assert(wf_pairs(seg_dec("accounts_shrink_ratio"@, c.accounts_shrink_ratio)));
    if c.accounts_shrink_optimize_total_space is Some {
        lemma_wf_pairs_one((seg_bool("accounts_shrink_optimize_total_space"@, c.accounts_shrink_optimize_total_space))[0]);
    }
    assert(wf_pairs(seg_bool("accounts_shrink_optimize_total_space"@, c.accounts_shrink_optimize_total_space)));
    if c.banking_trace_dir_byte_limit is Some {
        lemma_dec_digits_is_num_token(c.banking_trace_dir_byte_limit.unwrap() as nat);
        lemma_wf_pairs_one((seg_nat("banking_trace_dir_byte_limit"@, on_u64(c.banking_trace_dir_byte_limit)))[0]);
    }
    assert(wf_pairs(seg_nat("banking_trace_dir_byte_limit"@, on_u64(c.banking_trace_dir_byte_limit))));
    if c.tpu_connection_pool_size is Some {
        lemma_dec_digits_is_num_token(c.tpu_connection_pool_size.unwrap() as nat);
        lemma_wf_pairs_one((seg_nat("tpu_connection_pool_size"@, on_usize(c.tpu_connection_pool_size)))[0]);
    }
    assert(wf_pairs(seg_nat("tpu_connection_pool_size"@, on_usize(c.tpu_connection_pool_size))));
    if c.tpu_max_connections_per_peer is Some {
        lemma_dec_digits_is_num_token(c.tpu_max_connections_per_peer.unwrap() as nat);
        lemma_wf_pairs_one((seg_nat("tpu_max_connections_per_peer"@, on_usize(c.tpu_max_connections_per_peer)))[0]);
    }
    assert(wf_pairs(seg_nat("tpu_max_connections_per_peer"@, on_usize(c.tpu_max_connections_per_peer))));
    if c.tpu_max_connections_per_ipaddr_per_minute is Some {
        lemma_dec_digits_is_num_token(c.tpu_max_connections_per_ipaddr_per_minute.unwrap() as nat);
        lemma_wf_pairs_one((seg_nat("tpu_max_connections_per_ipaddr_per_minute"@, on_u64(c.tpu_max_connections_per_ipaddr_per_minute)))[0]);
    }
    assert(wf_pairs(seg_nat("tpu_max_connections_per_ipaddr_per_minute"@, on_u64(c.tpu_max_connections_per_ipaddr_per_minute))));
    if c.tpu_max_staked_connections is Some {
        lemma_dec_digits_is_num_token(c.tpu_max_staked_connections.unwrap() as nat);
        lemma_wf_pairs_one((seg_nat("tpu_max_staked_connections"@, on_usize(c.tpu_max_staked_connections)))[0]);
    }
    assert(wf_pairs(seg_nat("tpu_max_staked_connections"@, on_usize(c.tpu_max_staked_connections))));
    if c.tpu_max_unstaked_connections is Some {
        lemma_dec_digits_is_num_token(c.tpu_max_unstaked_connections.unwrap() as nat);
        lemma_wf_pairs_one((seg_nat("tpu_max_unstaked_connections"@, on_usize(c.tpu_max_unstaked_connections)))[0]);
    }
    assert(wf_pairs(seg_nat("tpu_max_unstaked_connections"@, on_usize(c.tpu_max_unstaked_connections))));
    if c.tpu_max_streams_per_ms is Some {
        lemma_dec_digits_is_num_token(c.tpu_max_streams_per_ms.unwrap() as nat);
        lemma_wf_pairs_one((seg_nat("tpu_max_streams_per_ms"@, on_usize(c.tpu_max_streams_per_ms)))[0]);
    }
    assert(wf_pairs(seg_nat("tpu_max_streams_per_ms"@, on_usize(c.tpu_max_streams_per_ms))));
    lemma_wf_pairs_append(seg_dec("accounts_shrink_ratio"@, c.accounts_shrink_ratio), seg_bool("accounts_shrink_optimize_total_space"@, c.accounts_shrink_optimize_total_space));
    lemma_wf_pairs_append(seg_dec("accounts_shrink_ratio"@, c.accounts_shrink_ratio) + seg_bool("accounts_shrink_optimize_total_space"@, c.accounts_shrink_optimize_total_space), seg_nat("banking_trace_dir_byte_limit"@, on_u64(c.banking_trace_dir_byte_limit)));
    lemma_wf_pairs_append(seg_dec("accounts_shrink_ratio"@, c.accounts_shrink_ratio) + seg_bool("accounts_shrink_optimize_total_space"@, c.accounts_shrink_optimize_total_space) + seg_nat("banking_trace_dir_byte_limit"@, on_u64(c.banking_trace_dir_byte_limit)), seg_nat("tpu_connection_pool_size"@, on_usize(c.tpu_connection_pool_size)));
    lemma_wf_pairs_append(seg_dec("accounts_shrink_ratio"@, c.accounts_shrink_ratio) + seg_bool("accounts_shrink_optimize_total_space"@, c.accounts_shrink_optimize_total_space) + seg_nat("banking_trace_dir_byte_limit"@, on_u64(c.banking_trace_dir_byte_limit)) + seg_nat("tpu_connection_pool_size"@, on_usize(c.tpu_connection_pool_size)), seg_nat("tpu_max_connections_per_peer"@, on_usize(c.tpu_max_connections_per_peer)));
    lemma_wf_pairs_append(seg_dec("accounts_shrink_ratio"@, c.accounts_shrink_ratio) + seg_bool("accounts_shrink_optimize_total_space"@, c.accounts_shrink_optimize_total_space) + seg_nat("banking_trace_dir_byte_limit"@, on_u64(c.banking_trace_dir_byte_limit)) + seg_nat("tpu_connection_pool_size"@, on_usize(c.tpu_connection_pool_size)) + seg_nat("tpu_max_connections_per_peer"@, on_usize(c.tpu_max_connections_per_peer)), seg_nat("tpu_max_connections_per_ipaddr_per_minute"@, on_u64(c.tpu_max_connections_per_ipaddr_per_minute)));
    lemma_wf_pairs_append(seg_dec("accounts_shrink_ratio"@, c.accounts_shrink_ratio) + seg_bool("accounts_shrink_optimize_total_space"@, c.accounts_shrink_optimize_total_space) + seg_nat("banking_trace_dir_byte_limit"@, on_u64(c.banking_trace_dir_byte_limit)) + seg_nat("tpu_connection_pool_size"@, on_usize(c.tpu_connection_pool_size)) + seg_nat("tpu_max_connections_per_peer"@, on_usize(c.tpu_max_connections_per_peer)) + seg_nat("tpu_max_connections_per_ipaddr_per_minute"@, on_u64(c.tpu_max_connections_per_ipaddr_per_minute)), seg_nat("tpu_max_staked_connections"@, on_usize(c.tpu_max_staked_connections)));
    lemma_wf_pairs_append(seg_dec("accounts_shrink_ratio"@, c.accounts_shrink_ratio) + seg_bool("accounts_shrink_optimize_total_space"@, c.accounts_shrink_optimize_total_space) + seg_nat("banking_trace_dir_byte_limit"@, on_u64(c.banking_trace_dir_byte_limit)) + seg_nat("tpu_connection_pool_size"@, on_usize(c.tpu_connection_pool_size)) + seg_nat("tpu_max_connections_per_peer"@, on_usize(c.tpu_max_connections_per_peer)) + seg_nat("tpu_max_connections_per_ipaddr_per_minute"@, on_u64(c.tpu_max_connections_per_ipaddr_per_minute)) + seg_nat("tpu_max_staked_connections"@, on_usize(c.tpu_max_staked_connections)), seg_nat("tpu_max_unstaked_connections"@, on_usize(c.tpu_max_unstaked_connections)));
    lemma_wf_pairs_append(seg_dec("accounts_shrink_ratio"@, c.accounts_shrink_ratio) + seg_bool("accounts_shrink_optimize_total_space"@, c.accounts_shrink_optimize_total_space) + seg_nat("banking_trace_dir_byte_limit"@, on_u64(c.banking_trace_dir_byte_limit)) + seg_nat("tpu_connection_pool_size"@, on_usize(c.tpu_connection_pool_size)) + seg_nat("tpu_max_connections_per_peer"@, on_usize(c.tpu_max_connections_per_peer)) + seg_nat("tpu_max_connections_per_ipaddr_per_minute"@, on_u64(c.tpu_max_connections_per_ipaddr_per_minute)) + seg_nat("tpu_max_staked_connections"@, on_usize(c.tpu_max_staked_connections)) + seg_nat("tpu_max_unstaked_connections"@, on_usize(c.tpu_max_unstaked_connections)), seg_nat("tpu_max_streams_per_ms"@, on_usize(c.tpu_max_streams_per_ms)));
}

pub proof fn lemma_wf_snapshot(c: ConfigV)
    requires
        wf_config(c),
    ensures
        wf_pairs(pairs_snapshot(c)),
{
    lemma_keys_snapshot();
    if c.snapshot_version is Some {
        lemma_wf_pairs_one((seg_str("snapshot_version"@, c.snapshot_version))[0]);
    }
    assert(wf_pairs(seg_str("snapshot_version"@, c.snapshot_version)));
    if c.snapshot_archive_format is Some {
        lemma_wf_pairs_one((seg_str("snapshot_archive_format"@, c.snapshot_archive_format))[0]);
    }
    assert(wf_pairs(seg_str("snapshot_archive_format"@, c.snapshot_archive_format)));
    if c.full_snapshot_archive_interval_slots is Some {
        lemma_dec_digits_is_num_token(c.full_snapshot_archive_interval_slots.unwrap() as nat);
        lemma_wf_pairs_one((seg_nat("full_snapshot_archive_interval_slots"@, on_u64(c.full_snapshot_archive_interval_slots)))[0]);
    }
    assert(wf_pairs(seg_nat("full_snapshot_archive_interval_slots"@, on_u64(c.full_snapshot_archive_interval_slots))));
    if c.incremental_snapshot_archive_interval_slots is Some {
        lemma_dec_digits_is_num_token(c.incremental_snapshot_archive_interval_slots.unwrap() as nat);
        lemma_wf_pairs_one((seg_nat("incremental_snapshot_archive_interval_slots"@, on_u64(c.incremental_snapshot_archive_interval_slots)))[0]);
    }
    assert(wf_pairs(seg_nat("incremental_snapshot_archive_interval_slots"@, on_u64(c.incremental_snapshot_archive_interval_slots))));
    if c.maximum_full_snapshot_archives_to_retain is Some {
        lemma_dec_digits_is_num_token(c.maximum_full_snapshot_archives_to_retain.unwrap() as nat);
        lemma_wf_pairs_one((seg_nat("maximum_full_snapshot_archives_to_retain"@, on_usize(c.maximum_full_snapshot_archives_to_retain)))[0]);
    }
    assert(wf_pairs(seg_nat("maximum_full_snapshot_archives_to_retain"@, on_usize(c.maximum_full_snapshot_archives_to_retain))));
    if c.maximum_incremental_snapshot_archives_to_retain is Some {
        lemma_dec_digits_is_num_token(c.maximum_incremental_snapshot_archives_to_retain.unwrap() as nat);
        lemma_wf_pairs_one((seg_nat("maximum_incremental_snapshot_archives_to_retain"@, on_usize(c.maximum_incremental_snapshot_archives_to_retain)))[0]);
    }
    assert(wf_pairs(seg_nat("maximum_incremental_snapshot_archives_to_retain"@, on_usize(c.maximum_incremental_snapshot_archives_to_retain))));
    if c.min_snapshot_download_speed is Some {
        lemma_dec_digits_is_num_token(c.min_snapshot_download_speed.unwrap() as nat);
        lemma_wf_pairs_one((seg_nat("min_snapshot_download_speed"@, on_u64(c.min_snapshot_download_speed)))[0]);
    }
    assert(wf_pairs(seg_nat("min_snapshot_download_speed"@, on_u64(c.min_snapshot_download_speed))));
    if c.max_snapshot_download_abort is Some {
        lemma_dec_digits_is_num_token(c.max_snapshot_download_abort.unwrap() as nat);
        lemma_wf_pairs_one((seg_nat("max_snapshot_download_abort"@, on_u32(c.max_snapshot_download_abort)))[0]);
    }
    assert(wf_pairs(seg_nat("max_snapshot_download_abort"@, on_u32(c.max_snapshot_download_abort))));
    lemma_wf_pairs_append(seg_str("snapshot_version"@, c.snapshot_version), seg_str("snapshot_archive_format"@, c.snapshot_archive_format));
    lemma_wf_pairs_append(seg_str("snapshot_version"@, c.snapshot_version) + seg_str("snapshot_archive_format"@, c.snapshot_archive_format), seg_nat("full_snapshot_archive_interval_slots"@, on_u64(c.full_snapshot_archive_interval_slots)));
    lemma_wf_pairs_append(seg_str("snapshot_version"@, c.snapshot_version) + seg_str("snapshot_archive_format"@, c.snapshot_archive_format) + seg_nat("full_snapshot_archive_interval_slots"@, on_u64(c.full_snapshot_archive_interval_slots)), seg_nat("incremental_snapshot_archive_interval_slots"@, on_u64(c.incremental_snapshot_archive_interval_slots)));
    lemma_wf_pairs_append(seg_str("snapshot_version"@, c.snapshot_version) + seg_str("snapshot_archive_format"@, c.snapshot_archive_format) + seg_nat("full_snapshot_archive_interval_slots"@, on_u64(c.full_snapshot_archive_interval_slots)) + seg_nat("incremental_snapshot_archive_interval_slots"@, on_u64(c.incremental_snapshot_archive_interval_slots)), seg_nat("maximum_full_snapshot_archives_to_retain"@, on_usize(c.maximum_full_snapshot_archives_to_retain)));
    lemma_wf_pairs_append(seg_str("snapshot_version"@, c.snapshot_version) + seg_str("snapshot_archive_format"@, c.snapshot_archive_format) + seg_nat("full_snapshot_archive_interval_slots"@, on_u64(c.full_snapshot_archive_interval_slots)) + seg_nat("incremental_snapshot_archive_interval_slots"@, on_u64(c.incremental_snapshot_archive_interval_slots)) + seg_nat("maximum_full_snapshot_archives_to_retain"@, on_usize(c.maximum_full_snapshot_archives_to_retain)), seg_nat("maximum_incremental_snapshot_archives_to_retain"@, on_usize(c.maximum_incremental_snapshot_archives_to_retain)));
    lemma_wf_pairs_append(seg_str("snapshot_version"@, c.snapshot_version) + seg_str("snapshot_archive_format"@, c.snapshot_archive_format) + seg_nat("full_snapshot_archive_interval_slots"@, on_u64(c.full_snapshot_archive_interval_slots)) + seg_nat("incremental_snapshot_archive_interval_slots"@, on_u64(c.incremental_snapshot_archive_interval_slots)) + seg_nat("maximum_full_snapshot_archives_to_retain"@, on_usize(c.maximum_full_snapshot_archives_to_retain)) + seg_nat("maximum_incremental_snapshot_archives_to_retain"@, on_usize(c.maximum_incremental_snapshot_archives_to_retain)), seg_nat("min_snapshot_download_speed"@, on_u64(c.min_snapshot_download_speed)));
    lemma_wf_pairs_append(seg_str("snapshot_version"@, c.snapshot_version) + seg_str("snapshot_archive_format"@, c.snapshot_archive_format) + seg_nat("full_snapshot_archive_interval_slots"@, on_u64(c.full_snapshot_archive_interval_slots)) + seg_nat("incremental_snapshot_archive_interval_slots"@, on_u64(c.incremental_snapshot_archive_interval_slots)) + seg_nat("maximum_full_snapshot_archives_to_retain"@, on_usize(c.maximum_full_snapshot_archives_to_retain)) + seg_nat("maximum_incremental_snapshot_archives_to_retain"@, on_usize(c.maximum_incremental_snapshot_archives_to_retain)) + seg_nat("min_snapshot_download_speed"@, on_u64(c.min_snapshot_download_speed)), seg_nat("max_snapshot_download_abort"@, on_u32(c.max_snapshot_download_abort)));
}

pub proof fn lemma_wf_threads(c: ConfigV)
    requires
        wf_config(c),
    ensures
        wf_pairs(pairs_threads(c)),
{
    lemma_keys_threads();
    if c.replay_forks_threads is Some {
        lemma_dec_digits_is_num_token(c.replay_forks_threads.unwrap() as nat);
        lemma_wf_pairs_one((seg_nat("replay_forks_threads"@, on_usize(c.replay_forks_threads)))[0]);
    }
    assert(wf_pairs(seg_nat("replay_forks_threads"@, on_usize(c.replay_forks_threads))));
    if c.replay_transactions_threads is Some {
        lemma_dec_digits_is_num_token(c.replay_transactions_threads.unwrap() as nat);
        lemma_wf_pairs_one((seg_nat("replay_transactions_threads"@, on_usize(c.replay_transactions_threads)))[0]);
    }
    assert(wf_pairs(seg_nat("replay_transactions_threads"@, on_usize(c.replay_transactions_threads))));
    if c.tvu_shred_sigverify_threads is Some {
        lemma_dec_digits_is_num_token(c.tvu_shred_sigverify_threads.unwrap() as nat);
        lemma_wf_pairs_one((seg_nat("tvu_shred_sigverify_threads"@, on_usize(c.tvu_shred_sigverify_threads)))[0]);
    }
    assert(wf_pairs(seg_nat("tvu_shred_sigverify_threads"@, on_usize(c.tvu_shred_sigverify_threads))));
    lemma_wf_pairs_append(seg_nat("replay_forks_threads"@, on_usize(c.replay_forks_threads)), seg_nat("replay_transactions_threads"@, on_usize(c.replay_transactions_threads)));
    lemma_wf_pairs_append(seg_nat("replay_forks_threads"@, on_usize(c.replay_forks_threads)) + seg_nat("replay_transactions_threads"@, on_usize(c.replay_transactions_threads)), seg_nat("tvu_shred_sigverify_threads"@, on_usize(c.tvu_shred_sigverify_threads)));
}

pub proof fn lemma_wf_behavior(c: ConfigV)
    requires
        wf_config(c),
    ensures
        wf_pairs(pairs_behavior(c)),
{
    lemma_keys_behavior();
    if c.voting_disabled is Some {
        lemma_wf_pairs_one((seg_bool("voting_disabled"@, c.voting_disabled))[0]);
    }
    assert(wf_pairs(seg_bool("voting_disabled"@, c.voting_disabled)));
    if c.dev_halt_at_slot is Some {
        lemma_dec_digits_is_num_token(c.dev_halt_at_slot.unwrap() as nat);
        lemma_wf_pairs_one((seg_nat("dev_halt_at_slot"@, on_u64(c.dev_halt_at_slot)))[0]);
    }
    assert(wf_pairs(seg_nat("dev_halt_at_slot"@, on_u64(c.dev_halt_at_slot))));
    if c.wait_for_supermajority is Some {
        lemma_dec_digits_is_num_token(c.wait_for_supermajority.unwrap() as nat);
        lemma_wf_pairs_one((seg_nat("wait_for_supermajority"@, on_u64(c.wait_for_supermajority)))[0]);
    }
    assert(wf_pairs(seg_nat("wait_for_supermajority"@, on_u64(c.wait_for_supermajority))));
    if c.expected_genesis_hash is Some {
        lemma_wf_pairs_one((seg_str("expected_genesis_hash"@, c.expected_genesis_hash))[0]);
    }
    assert(wf_pairs(seg_str("expected_genesis_hash"@, c.expected_genesis_hash)));
    if c.expected_bank_hash is Some {
        lemma_wf_pairs_one((seg_str("expected_bank_hash"@, c.expected_bank_hash))[0]);
    }
    assert(wf_pairs(seg_str("expected_bank_hash"@, c.expected_bank_hash)));
    if c.expected_shred_version is Some {
        lemma_dec_digits_is_num_token(c.expected_shred_version.unwrap() as nat);
        lemma_wf_pairs_one((seg_nat("expected_shred_version"@, on_u16(c.expected_shred_version)))[0]);
    }
    assert(wf_pairs(seg_nat("expected_shred_version"@, on_u16(c.expected_shred_version))));
    if c.no_voting is Some {
        lemma_wf_pairs_one((seg_bool("no_voting"@, c.no_voting))[0]);
    }
    assert(wf_pairs(seg_bool("no_voting"@, c.no_voting)));
    if c.no_check_vote_account is Some {
        lemma_wf_pairs_one((seg_bool("no_check_vote_account"@, c.no_check_vote_account))[0]);
    }
    assert(wf_pairs(seg_bool("no_check_vote_account"@, c.no_check_vote_account)));
    lemma_wf_pairs_append(seg_bool("voting_disabled"@, c.voting_disabled), seg_nat("dev_halt_at_slot"@, on_u64(c.dev_halt_at_slot)));
    lemma_wf_pairs_append(seg_bool("voting_disabled"@, c.voting_disabled) + seg_nat("dev_halt_at_slot"@, on_u64(c.dev_halt_at_slot)), seg_nat("wait_for_supermajority"@, on_u64(c.wait_for_supermajority)));
    lemma_wf_pairs_append(seg_bool("voting_disabled"@, c.voting_disabled) + seg_nat("dev_halt_at_slot"@, on_u64(c.dev_halt_at_slot)) + seg_nat("wait_for_supermajority"@, on_u64(c.wait_for_supermajority)), seg_str("expected_genesis_hash"@, c.expected_genesis_hash));
    lemma_wf_pairs_append(seg_bool("voting_disabled"@, c.voting_disabled) + seg_nat("dev_halt_at_slot"@, on_u64(c.dev_halt_at_slot)) + seg_nat("wait_for_supermajority"@, on_u64(c.wait_for_supermajority)) + seg_str("expected_genesis_hash"@, c.expected_genesis_hash), seg_str("expected_bank_hash"@, c.expected_bank_hash));
    lemma_wf_pairs_append(seg_bool("voting_disabled"@, c.voting_disabled) + seg_nat("dev_halt_at_slot"@, on_u64(c.dev_halt_at_slot)) + seg_nat("wait_for_supermajority"@, on_u64(c.wait_for_supermajority)) + seg_str("expected_genesis_hash"@, c.expected_genesis_hash) + seg_str("expected_bank_hash"@, c.expected_bank_hash), seg_nat("expected_shred_version"@, on_u16(c.expected_shred_version)));
    lemma_wf_pairs_append(seg_bool("voting_disabled"@, c.voting_disabled) + seg_nat("dev_halt_at_slot"@, on_u64(c.dev_halt_at_slot)) + seg_nat("wait_for_supermajority"@, on_u64(c.wait_for_supermajority)) + seg_str("expected_genesis_hash"@, c.expected_genesis_hash) + seg_str("expected_bank_hash"@, c.expected_bank_hash) + seg_nat("expected_shred_version"@, on_u16(c.expected_shred_version)), seg_bool("no_voting"@, c.no_voting));
    lemma_wf_pairs_append(seg_bool("voting_disabled"@, c.voting_disabled) + seg_nat("dev_halt_at_slot"@, on_u64(c.dev_halt_at_slot)) + seg_nat("wait_for_supermajority"@, on_u64(c.wait_for_supermajority)) + seg_str("expected_genesis_hash"@, c.expected_genesis_hash) + seg_str("expected_bank_hash"@, c.expected_bank_hash) + seg_nat("expected_shred_version"@, on_u16(c.expected_shred_version)) + seg_bool("no_voting"@, c.no_voting), seg_bool("no_check_vote_account"@, c.no_check_vote_account));
}

pub proof fn lemma_wf_identity(c: ConfigV)
    requires
        wf_config(c),
    ensures
        wf_pairs(pairs_identity(c)),
{
    lemma_keys_identity();
    if c.identity is Some {
        lemma_wf_pairs_one((seg_str("identity"@, c.identity))[0]);
    }
    assert(wf_pairs(seg_str("identity"@, c.identity)));
    if c.vote_account is Some {
        lemma_wf_pairs_one((seg_str("vote_account"@, c.vote_account))[0]);
    }
    assert(wf_pairs(seg_str("vote_account"@, c.vote_account)));
    if c.authorized_voter_keypairs is Some {
        lemma_wf_pairs_one((seg_list("authorized_voter_keypairs"@, c.authorized_voter_keypairs))[0]);
    }
    assert(wf_pairs(seg_list("authorized_voter_keypairs"@, c.authorized_voter_keypairs)));
    if c.known_validators is Some {
        lemma_wf_pairs_one((seg_list("known_validators"@, c.known_validators))[0]);
    }
    assert(wf_pairs(seg_list("known_validators"@, c.known_validators)));
    if c.only_known_rpc is Some {
        lemma_wf_pairs_one((seg_bool("only_known_rpc"@, c.only_known_rpc))[0]);
    }
    assert(wf_pairs(seg_bool("only_known_rpc"@, c.only_known_rpc)));
    lemma_wf_pairs_append(seg_str("identity"@, c.identity), seg_str("vote_account"@, c.vote_account));
    lemma_wf_pairs_append(seg_str("identity"@, c.identity) + seg_str("vote_account"@, c.vote_account), seg_list("authorized_voter_keypairs"@, c.authorized_voter_keypairs));
    lemma_wf_pairs_append(seg_str("identity"@, c.identity) + seg_str("vote_account"@, c.vote_account) + seg_list("authorized_voter_keypairs"@, c.authorized_voter_keypairs), seg_list("known_validators"@, c.known_validators));
    lemma_wf_pairs_append(seg_str("identity"@, c.identity) + seg_str("vote_account"@, c.vote_account) + seg_list("authorized_voter_keypairs"@, c.authorized_voter_keypairs) + seg_list("known_validators"@, c.known_validators), seg_bool("only_known_rpc"@, c.only_known_rpc));
}

pub proof fn lemma_wf_debug(c: ConfigV)
    requires
        wf_config(c),
    ensures
        wf_pairs(pairs_debug(c)),
{
    lemma_keys_debug();
    if c.log_messages_bytes_limit is Some {
        lemma_dec_digits_is_num_token(c.log_messages_bytes_limit.unwrap() as nat);
        lemma_wf_pairs_one((seg_nat("log_messages_bytes_limit"@, on_usize(c.log_messages_bytes_limit)))[0]);
    }
    assert(wf_pairs(seg_nat("log_messages_bytes_limit"@, on_usize(c.log_messages_bytes_limit))));
    if c.skip_startup_ledger_verification is Some {
        lemma_wf_pairs_one((seg_bool("skip_startup_ledger_verification"@, c.skip_startup_ledger_verification))[0]);
    }
    assert(wf_pairs(seg_bool("skip_startup_ledger_verification"@, c.skip_startup_ledger_verification)));
    if c.skip_poh_verify is Some {
        lemma_wf_pairs_one((seg_bool("skip_poh_verify"@, c.skip_poh_verify))[0]);
    }
    assert(wf_pairs(seg_bool("skip_poh_verify"@, c.skip_poh_verify)));
    if c.debug_keys is Some {
        lemma_wf_pairs_one((seg_list("debug_keys"@, c.debug_keys))[0]);
    }
    assert(wf_pairs(seg_list("debug_keys"@, c.debug_keys)));
    lemma_wf_pairs_append(seg_nat("log_messages_bytes_limit"@, on_usize(c.log_messages_bytes_limit)), seg_bool("skip_startup_ledger_verification"@, c.skip_startup_ledger_verification));
    lemma_wf_pairs_append(seg_nat("log_messages_bytes_limit"@, on_usize(c.log_messages_bytes_limit)) + seg_bool("skip_startup_ledger_verification"@, c.skip_startup_ledger_verification), seg_bool("skip_poh_verify"@, c.skip_poh_verify));
    lemma_wf_pairs_append(seg_nat("log_messages_bytes_limit"@, on_usize(c.log_messages_bytes_limit)) + seg_bool("skip_startup_ledger_verification"@, c.skip_startup_ledger_verification) + seg_bool("skip_poh_verify"@, c.skip_poh_verify), seg_list("debug_keys"@, c.debug_keys));
}

pub proof fn lemma_wf_pairs_of(c: ConfigV)
    requires
        wf_config(c),
    ensures
        wf_pairs(pairs_of(c)),
{
    lemma_wf_network(c);
    lemma_wf_ledger(c);
    lemma_wf_rpc(c);
    lemma_wf_perf(c);
    lemma_wf_snapshot(c);
    lemma_wf_threads(c);
    lemma_wf_behavior(c);
    lemma_wf_identity(c);
    lemma_wf_debug(c);
    lemma_wf_pairs_append(pairs_network(c), pairs_ledger(c));
    lemma_wf_pairs_append(pairs_network(c) + pairs_ledger(c), pairs_rpc(c));
    lemma_wf_pairs_append(pairs_network(c) + pairs_ledger(c) + pairs_rpc(c), pairs_perf(c));
    lemma_wf_pairs_append(pairs_network(c) + pairs_ledger(c) + pairs_rpc(c) + pairs_perf(c), pairs_snapshot(c));
    lemma_wf_pairs_append(pairs_network(c) + pairs_ledger(c) + pairs_rpc(c) + pairs_perf(c) + pairs_snapshot(c), pairs_threads(c));
    lemma_wf_pairs_append(pairs_network(c) + pairs_ledger(c) + pairs_rpc(c) + pairs_perf(c) + pairs_snapshot(c) + pairs_threads(c), pairs_behavior(c));
    lemma_wf_pairs_append(pairs_network(c) + pairs_ledger(c) + pairs_rpc(c) + pairs_perf(c) + pairs_snapshot(c) + pairs_threads(c) + pairs_behavior(c), pairs_identity(c));
    lemma_wf_pairs_append(pairs_network(c) + pairs_ledger(c) + pairs_rpc(c) + pairs_perf(c) + pairs_snapshot(c) + pairs_threads(c) + pairs_behavior(c) + pairs_identity(c), pairs_debug(c));
}

/// Rendered configuration text always parses, and reads back as the fold
/// of the schema's own pairs over the all-absent schema.
pub proof fn lemma_render_parses(c: ConfigV)
    requires
        wf_config(c),
    ensures
        spec_parse(spec_render(c)) == fold_pairs(all_absent(), pairs_of(c)),
{
    lemma_wf_pairs_of(c);
    lemma_parse_render_lines(all_absent(), pairs_of(c));
}

} // verus!
