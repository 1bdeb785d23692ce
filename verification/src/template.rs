//! The hand-authored configuration template: every known field listed,
//! commented out, with a section header and a default-value hint.  Keeping
//! one template line per schema field is a maintenance invariant of this
//! crate; the contract pins the whole text, and a test holds the text and
//! the schema together.
use vstd::prelude::*;

use crate::reader::{
    lemma_find_nl_bounds, lemma_parse_skip, spec_apply_line, spec_find_nl, spec_parse,
    spec_parse_cfg,
};
use crate::schema::{all_absent, ConfigV};
use crate::value::{lemma_skip_sp_bounds, skip_sp};

verus! {

/// A line the reader passes over: blank, or a comment.
pub open spec fn skip_line(l: Seq<char>) -> bool {
    skip_sp(l, 0) >= l.len() || l[skip_sp(l, 0)] == '#'
}

pub open spec fn no_nl(l: Seq<char>) -> bool {
    forall|i: int| 0 <= i < l.len() ==> l[i] != '\n'
}

/// Lines joined into a text, a newline after each.
pub open spec fn join_nl(lines: Seq<Seq<char>>) -> Seq<char>
    decreases lines.len(),
{
    if lines.len() == 0 {
        Seq::empty()
    } else {
        lines[0] + seq!['\n'] + join_nl(lines.drop_first())
    }
}

pub proof fn lemma_join_nl_push(a: Seq<Seq<char>>, x: Seq<char>)
    ensures
        join_nl(a.push(x)) == join_nl(a) + x + seq!['\n'],
    decreases a.len(),
{
    if a.len() == 0 {
        assert(a.push(x)[0] == x);
        assert(a.push(x).drop_first() =~= Seq::<Seq<char>>::empty());
        assert(join_nl(Seq::<Seq<char>>::empty()) == Seq::<char>::empty());
        assert(join_nl(a.push(x)) =~= join_nl(a) + x + seq!['\n']);
    } else {
        assert(a.push(x)[0] == a[0]);
        assert(a.push(x).drop_first() =~= a.drop_first().push(x));
        lemma_join_nl_push(a.drop_first(), x);
        assert(join_nl(a.push(x)) =~= join_nl(a) + x + seq!['\n']);
    }
}

/// A text of blank and comment lines reads back as the schema it started
/// from: nothing in it sets a field.
pub proof fn lemma_skip_lines(c: ConfigV, lines: Seq<Seq<char>>)
    requires
        forall|i: int| 0 <= i < lines.len() ==> skip_line(#[trigger] lines[i]) && no_nl(lines[i]),
    ensures
        spec_parse_cfg(c, join_nl(lines), 0) == Some(c),
    decreases lines.len(),
{
    let s = join_nl(lines);
    if lines.len() == 0 {
        assert(s =~= Seq::<char>::empty());
        lemma_find_nl_bounds(s, 0);
        assert(s.subrange(0, 0) =~= Seq::<char>::empty());
        assert(spec_apply_line(c, s.subrange(0, 0)) == Some(c));
    } else {
        let l0 = lines[0];
        let rest = lines.drop_first();
        assert(skip_line(l0) && no_nl(l0));
        assert(forall|k: int| 0 <= k < l0.len() ==> s[k] == l0[k]);
        assert(s[l0.len() as int] == '\n');
        lemma_find_nl_bounds(s, 0);
        let j = spec_find_nl(s, 0);
        assert(j == l0.len());
        assert(s.subrange(0, j) =~= l0);
        lemma_skip_sp_bounds(l0, 0);
        assert(spec_apply_line(c, l0) == Some(c));
        assert(j < s.len());
        lemma_parse_skip(c, s, j + 1);
        assert(s.skip(j + 1) =~= join_nl(rest));
        assert(forall|i: int|
            0 <= i < rest.len() ==> skip_line(#[trigger] rest[i]) && no_nl(rest[i]));
        lemma_skip_lines(c, rest);
    }
}

/// Every line is a comment or blank.
pub open spec fn comment_lines(lines: Seq<Seq<char>>) -> bool {
    forall|i: int| 0 <= i < lines.len() ==> skip_line(#[trigger] lines[i]) && no_nl(lines[i])
}

pub proof fn lemma_join_nl_append(a: Seq<Seq<char>>, b: Seq<Seq<char>>)
    ensures
        join_nl(a + b) == join_nl(a) + join_nl(b),
    decreases a.len(),
{
    if a.len() == 0 {
        assert(a + b =~= b);
        assert(join_nl(a) + join_nl(b) =~= join_nl(b));
    } else {
        assert((a + b)[0] == a[0]);
        assert((a + b).drop_first() =~= a.drop_first() + b);
        lemma_join_nl_append(a.drop_first(), b);
        assert(join_nl(a + b) =~= join_nl(a) + join_nl(b));
    }
}

pub proof fn lemma_comment_lines_append(a: Seq<Seq<char>>, b: Seq<Seq<char>>)
    requires
        comment_lines(a),
        comment_lines(b),
    ensures
        comment_lines(a + b),
{
    assert forall|i: int|
        0 <= i < (a + b).len() implies skip_line(#[trigger] (a + b)[i]) && no_nl(
        (a + b)[i],
    ) by {
        if i < a.len() {
            assert((a + b)[i] == a[i]);
        } else {
            assert((a + b)[i] == b[i - a.len()]);
        }
    }
}

pub open spec fn template_chunk0() -> Seq<Seq<char>> {
    seq![
        "# Solana Validator Configuration File"@,
        "# CLI arguments take precedence over these settings"@,
        "# All fields are optional - remove or comment out fields to use CLI defaults"@,
        ""@,
        "# Network Configuration"@,
        "# bind_address = \"127.0.0.1\""@,
        "# entrypoint = ["@,
        "#     \"entrypoint.mainnet-beta.solana.com:8001\","@,
        "#     \"entrypoint2.mainnet-beta.solana.com:8001\""@,
        "# ]"@,
    ]
}

pub open spec fn template_chunk1() -> Seq<Seq<char>> {
    seq![
        "# gossip_port = 8001"@,
        "# gossip_host = \"127.0.0.1\""@,
        "# dynamic_port_range = \"8002-10000\""@,
        "# allow_private_addr = false"@,
        ""@,
        "# Ledger Configuration"@,
        "# ledger_path = \"./ledger\""@,
        "# accounts_path = [\"./accounts\"]"@,
        "# account_snapshot_paths = [\"./snapshots\"]"@,
        "# limit_ledger_size = 50000000"@,
    ]
}

pub open spec fn template_chunk2() -> Seq<Seq<char>> {
    seq![
        ""@,
        "# RPC Configuration"@,
        "# rpc_port = 8899"@,
        "# rpc_bind_address = \"127.0.0.1\""@,
        "# enable_rpc_transaction_history = false"@,
        "# enable_extended_tx_metadata_storage = false"@,
        "# rpc_threads = 4"@,
        "# rpc_blocking_threads = 1"@,
        "# rpc_max_request_body_size = 52428800"@,
        "# rpc_pubsub_max_active_subscriptions = 5000"@,
    ]
}

pub open spec fn template_chunk3() -> Seq<Seq<char>> {
    seq![
        "# rpc_pubsub_queue_capacity_items = 100000"@,
        "# rpc_pubsub_queue_capacity_bytes = 100000000"@,
        ""@,
        "# Performance Configuration"@,
        "# accounts_shrink_ratio = 0.8"@,
        "# accounts_shrink_optimize_total_space = true"@,
        "# banking_trace_dir_byte_limit = 1000000000"@,
        "# tpu_connection_pool_size = 4"@,
        "# tpu_max_connections_per_peer = 8"@,
        "# tpu_max_connections_per_ipaddr_per_minute = 10"@,
    ]
}

pub open spec fn template_chunk4() -> Seq<Seq<char>> {
    seq![
        "# tpu_max_staked_connections = 2000"@,
        "# tpu_max_unstaked_connections = 2000"@,
        "# tpu_max_streams_per_ms = 1000"@,
        ""@,
        "# Snapshot Configuration"@,
        "# snapshot_version = \"V1_7_0\""@,
        "# snapshot_archive_format = \"zstd\""@,
        "# full_snapshot_archive_interval_slots = 25000"@,
        "# incremental_snapshot_archive_interval_slots = 100"@,
        "# maximum_full_snapshot_archives_to_retain = 2"@,
    ]
}

pub open spec fn template_chunk5() -> Seq<Seq<char>> {
    seq![
        "# maximum_incremental_snapshot_archives_to_retain = 4"@,
        "# min_snapshot_download_speed = 10485760"@,
        "# max_snapshot_download_abort = 5"@,
        ""@,
        "# Thread Configuration"@,
        "# replay_forks_threads = 1"@,
        "# replay_transactions_threads = 1"@,
        "# tvu_shred_sigverify_threads = 1"@,
        ""@,
        "# Validator Behavior"@,
    ]
}

pub open spec fn template_chunk6() -> Seq<Seq<char>> {
    seq![
        "# voting_disabled = false"@,
        "# dev_halt_at_slot = 0"@,
        "# wait_for_supermajority = 0"@,
        "# expected_genesis_hash = \"\""@,
        "# expected_bank_hash = \"\""@,
        "# expected_shred_version = 0"@,
        "# no_voting = false"@,
        "# no_check_vote_account = false"@,
        ""@,
        "# Identity and Security"@,
    ]
}

pub open spec fn template_chunk7() -> Seq<Seq<char>> {
    seq![
        "# identity = \"./validator-keypair.json\""@,
        "# vote_account = \"./vote-account-keypair.json\""@,
        "# authorized_voter_keypairs = [\"./authorized-voter-keypair.json\"]"@,
        "# known_validators = []"@,
        "# only_known_rpc = false"@,
        ""@,
        "# Development and Debugging"@,
        "# log_messages_bytes_limit = 10000"@,
        "# skip_startup_ledger_verification = false"@,
        "# skip_poh_verify = false"@,
    ]
}

pub open spec fn template_chunk8() -> Seq<Seq<char>> {
    seq![
        "# debug_keys = []"@,
    ]
}

/// The template, line by line: a header, then one commented
/// `field = hint` line per schema field, grouped under section comments.
pub open spec fn template_lines() -> Seq<Seq<char>> {
    template_chunk0() + template_chunk1() + template_chunk2() + template_chunk3() + template_chunk4() + template_chunk5() + template_chunk6() + template_chunk7() + template_chunk8()
}

/// The whole template text.
pub open spec fn template_text() -> Seq<char> {
    join_nl(template_lines())
}

#[verifier::rlimit(100)]
pub proof fn lemma_chunk0_comments()
    ensures
        comment_lines(template_chunk0()),
{
    reveal_strlit("");
    reveal_strlit("# Solana Validator Configuration File");
    reveal_strlit("# CLI arguments take precedence over these settings");
    reveal_strlit("# All fields are optional - remove or comment out fields to use CLI defaults");
    reveal_strlit("# Network Configuration");
    reveal_strlit("# bind_address = \"127.0.0.1\"");
    reveal_strlit("# entrypoint = [");
    reveal_strlit("#     \"entrypoint.mainnet-beta.solana.com:8001\",");
    reveal_strlit("#     \"entrypoint2.mainnet-beta.solana.com:8001\"");
    reveal_strlit("# ]");
    assert(skip_line(template_chunk0()[0]) && no_nl(template_chunk0()[0]));
    assert(skip_line(template_chunk0()[1]) && no_nl(template_chunk0()[1]));
    assert(skip_line(template_chunk0()[2]) && no_nl(template_chunk0()[2]));
    assert(skip_line(template_chunk0()[3]) && no_nl(template_chunk0()[3]));
    assert(skip_line(template_chunk0()[4]) && no_nl(template_chunk0()[4]));
    assert(skip_line(template_chunk0()[5]) && no_nl(template_chunk0()[5]));
    assert(skip_line(template_chunk0()[6]) && no_nl(template_chunk0()[6]));
    assert(skip_line(template_chunk0()[7]) && no_nl(template_chunk0()[7]));
    assert(skip_line(template_chunk0()[8]) && no_nl(template_chunk0()[8]));
    assert(skip_line(template_chunk0()[9]) && no_nl(template_chunk0()[9]));
    assert forall|i: int|
        0 <= i < template_chunk0().len() implies skip_line(
        #[trigger] template_chunk0()[i],
    ) && no_nl(template_chunk0()[i]) by {
    }
}

#[verifier::rlimit(100)]
pub proof fn lemma_chunk1_comments()
    ensures
        comment_lines(template_chunk1()),
{
    reveal_strlit("");
    reveal_strlit("# gossip_port = 8001");
    reveal_strlit("# gossip_host = \"127.0.0.1\"");
    reveal_strlit("# dynamic_port_range = \"8002-10000\"");
    reveal_strlit("# allow_private_addr = false");
    reveal_strlit("# Ledger Configuration");
    reveal_strlit("# ledger_path = \"./ledger\"");
    reveal_strlit("# accounts_path = [\"./accounts\"]");
    reveal_strlit("# account_snapshot_paths = [\"./snapshots\"]");
    reveal_strlit("# limit_ledger_size = 50000000");
    assert(skip_line(template_chunk1()[0]) && no_nl(template_chunk1()[0]));
    assert(skip_line(template_chunk1()[1]) && no_nl(template_chunk1()[1]));
    assert(skip_line(template_chunk1()[2]) && no_nl(template_chunk1()[2]));
    assert(skip_line(template_chunk1()[3]) && no_nl(template_chunk1()[3]));
    assert(skip_line(template_chunk1()[4]) && no_nl(template_chunk1()[4]));
    assert(skip_line(template_chunk1()[5]) && no_nl(template_chunk1()[5]));
    assert(skip_line(template_chunk1()[6]) && no_nl(template_chunk1()[6]));
    assert(skip_line(template_chunk1()[7]) && no_nl(template_chunk1()[7]));
    assert(skip_line(template_chunk1()[8]) && no_nl(template_chunk1()[8]));
    assert(skip_line(template_chunk1()[9]) && no_nl(template_chunk1()[9]));
    assert forall|i: int|
        0 <= i < template_chunk1().len() implies skip_line(
        #[trigger] template_chunk1()[i],
    ) && no_nl(template_chunk1()[i]) by {
    }
}

#[verifier::rlimit(100)]
pub proof fn lemma_chunk2_comments()
    ensures
        comment_lines(template_chunk2()),
{
    reveal_strlit("");
    reveal_strlit("# RPC Configuration");
    reveal_strlit("# rpc_port = 8899");
    reveal_strlit("# rpc_bind_address = \"127.0.0.1\"");
    reveal_strlit("# enable_rpc_transaction_history = false");
    reveal_strlit("# enable_extended_tx_metadata_storage = false");
    reveal_strlit("# rpc_threads = 4");
    reveal_strlit("# rpc_blocking_threads = 1");
    reveal_strlit("# rpc_max_request_body_size = 52428800");
    reveal_strlit("# rpc_pubsub_max_active_subscriptions = 5000");
    assert(skip_line(template_chunk2()[0]) && no_nl(template_chunk2()[0]));
    assert(skip_line(template_chunk2()[1]) && no_nl(template_chunk2()[1]));
    assert(skip_line(template_chunk2()[2]) && no_nl(template_chunk2()[2]));
    assert(skip_line(template_chunk2()[3]) && no_nl(template_chunk2()[3]));
    assert(skip_line(template_chunk2()[4]) && no_nl(template_chunk2()[4]));
    assert(skip_line(template_chunk2()[5]) && no_nl(template_chunk2()[5]));
    assert(skip_line(template_chunk2()[6]) && no_nl(template_chunk2()[6]));
    assert(skip_line(template_chunk2()[7]) && no_nl(template_chunk2()[7]));
    assert(skip_line(template_chunk2()[8]) && no_nl(template_chunk2()[8]));
    assert(skip_line(template_chunk2()[9]) && no_nl(template_chunk2()[9]));
    assert forall|i: int|
        0 <= i < template_chunk2().len() implies skip_line(
        #[trigger] template_chunk2()[i],
    ) && no_nl(template_chunk2()[i]) by {
    }
}

#[verifier::rlimit(100)]
pub proof fn lemma_chunk3_comments()
    ensures
        comment_lines(template_chunk3()),
{
    reveal_strlit("");
    reveal_strlit("# rpc_pubsub_queue_capacity_items = 100000");
    reveal_strlit("# rpc_pubsub_queue_capacity_bytes = 100000000");
    reveal_strlit("# Performance Configuration");
    reveal_strlit("# accounts_shrink_ratio = 0.8");
    reveal_strlit("# accounts_shrink_optimize_total_space = true");
    reveal_strlit("# banking_trace_dir_byte_limit = 1000000000");
    reveal_strlit("# tpu_connection_pool_size = 4");
    reveal_strlit("# tpu_max_connections_per_peer = 8");
    reveal_strlit("# tpu_max_connections_per_ipaddr_per_minute = 10");
    assert(skip_line(template_chunk3()[0]) && no_nl(template_chunk3()[0]));
    assert(skip_line(template_chunk3()[1]) && no_nl(template_chunk3()[1]));
    assert(skip_line(template_chunk3()[2]) && no_nl(template_chunk3()[2]));
    assert(skip_line(template_chunk3()[3]) && no_nl(template_chunk3()[3]));
    assert(skip_line(template_chunk3()[4]) && no_nl(template_chunk3()[4]));
    assert(skip_line(template_chunk3()[5]) && no_nl(template_chunk3()[5]));
    assert(skip_line(template_chunk3()[6]) && no_nl(template_chunk3()[6]));
    assert(skip_line(template_chunk3()[7]) && no_nl(template_chunk3()[7]));
    assert(skip_line(template_chunk3()[8]) && no_nl(template_chunk3()[8]));
    assert(skip_line(template_chunk3()[9]) && no_nl(template_chunk3()[9]));
    assert forall|i: int|
        0 <= i < template_chunk3().len() implies skip_line(
        #[trigger] template_chunk3()[i],
    ) && no_nl(template_chunk3()[i]) by {
    }
}

#[verifier::rlimit(100)]
pub proof fn lemma_chunk4_comments()
    ensures
        comment_lines(template_chunk4()),
{
    reveal_strlit("");
    reveal_strlit("# tpu_max_staked_connections = 2000");
    reveal_strlit("# tpu_max_unstaked_connections = 2000");
    reveal_strlit("# tpu_max_streams_per_ms = 1000");
    reveal_strlit("# Snapshot Configuration");
    reveal_strlit("# snapshot_version = \"V1_7_0\"");
    reveal_strlit("# snapshot_archive_format = \"zstd\"");
    reveal_strlit("# full_snapshot_archive_interval_slots = 25000");
    reveal_strlit("# incremental_snapshot_archive_interval_slots = 100");
    reveal_strlit("# maximum_full_snapshot_archives_to_retain = 2");
    assert(skip_line(template_chunk4()[0]) && no_nl(template_chunk4()[0]));
    assert(skip_line(template_chunk4()[1]) && no_nl(template_chunk4()[1]));
    assert(skip_line(template_chunk4()[2]) && no_nl(template_chunk4()[2]));
    assert(skip_line(template_chunk4()[3]) && no_nl(template_chunk4()[3]));
    assert(skip_line(template_chunk4()[4]) && no_nl(template_chunk4()[4]));
    assert(skip_line(template_chunk4()[5]) && no_nl(template_chunk4()[5]));
    assert(skip_line(template_chunk4()[6]) && no_nl(template_chunk4()[6]));
    assert(skip_line(template_chunk4()[7]) && no_nl(template_chunk4()[7]));
    assert(skip_line(template_chunk4()[8]) && no_nl(template_chunk4()[8]));
    assert(skip_line(template_chunk4()[9]) && no_nl(template_chunk4()[9]));
    assert forall|i: int|
        0 <= i < template_chunk4().len() implies skip_line(
        #[trigger] template_chunk4()[i],
    ) && no_nl(template_chunk4()[i]) by {
    }
}

#[verifier::rlimit(100)]
pub proof fn lemma_chunk5_comments()
    ensures
        comment_lines(template_chunk5()),
{
    reveal_strlit("");
    reveal_strlit("# maximum_incremental_snapshot_archives_to_retain = 4");
    reveal_strlit("# min_snapshot_download_speed = 10485760");
    reveal_strlit("# max_snapshot_download_abort = 5");
    reveal_strlit("# Thread Configuration");
    reveal_strlit("# replay_forks_threads = 1");
    reveal_strlit("# replay_transactions_threads = 1");
    reveal_strlit("# tvu_shred_sigverify_threads = 1");
    reveal_strlit("# Validator Behavior");
    assert(skip_line(template_chunk5()[0]) && no_nl(template_chunk5()[0]));
    assert(skip_line(template_chunk5()[1]) && no_nl(template_chunk5()[1]));
    assert(skip_line(template_chunk5()[2]) && no_nl(template_chunk5()[2]));
    assert(skip_line(template_chunk5()[3]) && no_nl(template_chunk5()[3]));
    assert(skip_line(template_chunk5()[4]) && no_nl(template_chunk5()[4]));
    assert(skip_line(template_chunk5()[5]) && no_nl(template_chunk5()[5]));
    assert(skip_line(template_chunk5()[6]) && no_nl(template_chunk5()[6]));
    assert(skip_line(template_chunk5()[7]) && no_nl(template_chunk5()[7]));
    assert(skip_line(template_chunk5()[8]) && no_nl(template_chunk5()[8]));
    assert(skip_line(template_chunk5()[9]) && no_nl(template_chunk5()[9]));
    assert forall|i: int|
        0 <= i < template_chunk5().len() implies skip_line(
        #[trigger] template_chunk5()[i],
    ) && no_nl(template_chunk5()[i]) by {
    }
}

#[verifier::rlimit(100)]
pub proof fn lemma_chunk6_comments()
    ensures
        comment_lines(template_chunk6()),
{
    reveal_strlit("");
    reveal_strlit("# voting_disabled = false");
    reveal_strlit("# dev_halt_at_slot = 0");
    reveal_strlit("# wait_for_supermajority = 0");
    reveal_strlit("# expected_genesis_hash = \"\"");
    reveal_strlit("# expected_bank_hash = \"\"");
    reveal_strlit("# expected_shred_version = 0");
    reveal_strlit("# no_voting = false");
    reveal_strlit("# no_check_vote_account = false");
    reveal_strlit("# Identity and Security");
    assert(skip_line(template_chunk6()[0]) && no_nl(template_chunk6()[0]));
    assert(skip_line(template_chunk6()[1]) && no_nl(template_chunk6()[1]));
    assert(skip_line(template_chunk6()[2]) && no_nl(template_chunk6()[2]));
    assert(skip_line(template_chunk6()[3]) && no_nl(template_chunk6()[3]));
    assert(skip_line(template_chunk6()[4]) && no_nl(template_chunk6()[4]));
    assert(skip_line(template_chunk6()[5]) && no_nl(template_chunk6()[5]));
    assert(skip_line(template_chunk6()[6]) && no_nl(template_chunk6()[6]));
    assert(skip_line(template_chunk6()[7]) && no_nl(template_chunk6()[7]));
    assert(skip_line(template_chunk6()[8]) && no_nl(template_chunk6()[8]));
    assert(skip_line(template_chunk6()[9]) && no_nl(template_chunk6()[9]));
    assert forall|i: int|
        0 <= i < template_chunk6().len() implies skip_line(
        #[trigger] template_chunk6()[i],
    ) && no_nl(template_chunk6()[i]) by {
    }
}

#[verifier::rlimit(100)]
pub proof fn lemma_chunk7_comments()
    ensures
        comment_lines(template_chunk7()),
{
    reveal_strlit("");
    reveal_strlit("# identity = \"./validator-keypair.json\"");
    reveal_strlit("# vote_account = \"./vote-account-keypair.json\"");
    reveal_strlit("# authorized_voter_keypairs = [\"./authorized-voter-keypair.json\"]");
    reveal_strlit("# known_validators = []");
    reveal_strlit("# only_known_rpc = false");
    reveal_strlit("# Development and Debugging");
    reveal_strlit("# log_messages_bytes_limit = 10000");
    reveal_strlit("# skip_startup_ledger_verification = false");
    reveal_strlit("# skip_poh_verify = false");
    assert(skip_line(template_chunk7()[0]) && no_nl(template_chunk7()[0]));
    assert(skip_line(template_chunk7()[1]) && no_nl(template_chunk7()[1]));
    assert(skip_line(template_chunk7()[2]) && no_nl(template_chunk7()[2]));
    assert(skip_line(template_chunk7()[3]) && no_nl(template_chunk7()[3]));
    assert(skip_line(template_chunk7()[4]) && no_nl(template_chunk7()[4]));
    assert(skip_line(template_chunk7()[5]) && no_nl(template_chunk7()[5]));
    assert(skip_line(template_chunk7()[6]) && no_nl(template_chunk7()[6]));
    assert(skip_line(template_chunk7()[7]) && no_nl(template_chunk7()[7]));
    assert(skip_line(template_chunk7()[8]) && no_nl(template_chunk7()[8]));
    assert(skip_line(template_chunk7()[9]) && no_nl(template_chunk7()[9]));
    assert forall|i: int|
        0 <= i < template_chunk7().len() implies skip_line(
        #[trigger] template_chunk7()[i],
    ) && no_nl(template_chunk7()[i]) by {
    }
}

#[verifier::rlimit(100)]
pub proof fn lemma_chunk8_comments()
    ensures
        comment_lines(template_chunk8()),
{
    reveal_strlit("");
    reveal_strlit("# debug_keys = []");
    assert(skip_line(template_chunk8()[0]) && no_nl(template_chunk8()[0]));
    assert forall|i: int|
        0 <= i < template_chunk8().len() implies skip_line(
        #[trigger] template_chunk8()[i],
    ) && no_nl(template_chunk8()[i]) by {
    }
}

/// Every template line is a comment or blank.
pub proof fn lemma_template_lines_comments()
    ensures
        comment_lines(template_lines()),
{
    lemma_chunk0_comments();
    lemma_chunk1_comments();
    lemma_chunk2_comments();
    lemma_chunk3_comments();
    lemma_chunk4_comments();
    lemma_chunk5_comments();
    lemma_chunk6_comments();
    lemma_chunk7_comments();
    lemma_chunk8_comments();
    lemma_comment_lines_append(template_chunk0(), template_chunk1());
    lemma_comment_lines_append(template_chunk0() + template_chunk1(), template_chunk2());
    lemma_comment_lines_append(template_chunk0() + template_chunk1() + template_chunk2(), template_chunk3());
    lemma_comment_lines_append(template_chunk0() + template_chunk1() + template_chunk2() + template_chunk3(), template_chunk4());
    lemma_comment_lines_append(template_chunk0() + template_chunk1() + template_chunk2() + template_chunk3() + template_chunk4(), template_chunk5());
    lemma_comment_lines_append(template_chunk0() + template_chunk1() + template_chunk2() + template_chunk3() + template_chunk4() + template_chunk5(), template_chunk6());
    lemma_comment_lines_append(template_chunk0() + template_chunk1() + template_chunk2() + template_chunk3() + template_chunk4() + template_chunk5() + template_chunk6(), template_chunk7());
    lemma_comment_lines_append(template_chunk0() + template_chunk1() + template_chunk2() + template_chunk3() + template_chunk4() + template_chunk5() + template_chunk6() + template_chunk7(), template_chunk8());
}

fn push_tl(out: &mut String, l: &str)
    ensures
        final(out)@ == old(out)@ + l@ + seq!['\n'],
{
    out.append(l);
    out.append("\n");
    proof {
        reveal_strlit("\n");
        assert(out@ =~= old(out)@ + l@ + seq!['\n']);
    }
}

#[verifier::rlimit(100)]
fn push_chunk0(out: &mut String)
    ensures
        final(out)@ == old(out)@ + join_nl(template_chunk0()),
{
    let ghost mut acc: Seq<Seq<char>> = Seq::empty();
    proof {
        assert(out@ =~= old(out)@ + join_nl(acc));
    }
    push_tl(out, "# Solana Validator Configuration File");
    proof {
        lemma_join_nl_push(acc, "# Solana Validator Configuration File"@);
        acc = acc.push("# Solana Validator Configuration File"@);
        assert(out@ == old(out)@ + join_nl(acc));
    }
    push_tl(out, "# CLI arguments take precedence over these settings");
    proof {
        lemma_join_nl_push(acc, "# CLI arguments take precedence over these settings"@);
        acc = acc.push("# CLI arguments take precedence over these settings"@);
        assert(out@ == old(out)@ + join_nl(acc));
    }
    push_tl(out, "# All fields are optional - remove or comment out fields to use CLI defaults");
    proof {
        lemma_join_nl_push(acc, "# All fields are optional - remove or comment out fields to use CLI defaults"@);
        acc = acc.push("# All fields are optional - remove or comment out fields to use CLI defaults"@);
        assert(out@ == old(out)@ + join_nl(acc));
    }
    push_tl(out, "");
    proof {
        lemma_join_nl_push(acc, ""@);
        acc = acc.push(""@);
        assert(out@ == old(out)@ + join_nl(acc));
    }
    push_tl(out, "# Network Configuration");
    proof {
        lemma_join_nl_push(acc, "# Network Configuration"@);
        acc = acc.push("# Network Configuration"@);
        assert(out@ == old(out)@ + join_nl(acc));
    }
    push_tl(out, "# bind_address = \"127.0.0.1\"");
    proof {
        lemma_join_nl_push(acc, "# bind_address = \"127.0.0.1\""@);
        acc = acc.push("# bind_address = \"127.0.0.1\""@);
        assert(out@ == old(out)@ + join_nl(acc));
    }
    push_tl(out, "# entrypoint = [");
    proof {
        lemma_join_nl_push(acc, "# entrypoint = ["@);
        acc = acc.push("# entrypoint = ["@);
        assert(out@ == old(out)@ + join_nl(acc));
    }
    push_tl(out, "#     \"entrypoint.mainnet-beta.solana.com:8001\",");
    proof {
        lemma_join_nl_push(acc, "#     \"entrypoint.mainnet-beta.solana.com:8001\","@);
        acc = acc.push("#     \"entrypoint.mainnet-beta.solana.com:8001\","@);
        assert(out@ == old(out)@ + join_nl(acc));
    }
    push_tl(out, "#     \"entrypoint2.mainnet-beta.solana.com:8001\"");
    proof {
        lemma_join_nl_push(acc, "#     \"entrypoint2.mainnet-beta.solana.com:8001\""@);
        acc = acc.push("#     \"entrypoint2.mainnet-beta.solana.com:8001\""@);
        assert(out@ == old(out)@ + join_nl(acc));
    }
    push_tl(out, "# ]");
    proof {
        lemma_join_nl_push(acc, "# ]"@);
        acc = acc.push("# ]"@);
        assert(out@ == old(out)@ + join_nl(acc));
    }
    proof {
        assert(acc =~= template_chunk0());
    }
}

#[verifier::rlimit(100)]
fn push_chunk1(out: &mut String)
    ensures
        final(out)@ == old(out)@ + join_nl(template_chunk1()),
{
    let ghost mut acc: Seq<Seq<char>> = Seq::empty();
    proof {
        assert(out@ =~= old(out)@ + join_nl(acc));
    }
    push_tl(out, "# gossip_port = 8001");
    proof {
        lemma_join_nl_push(acc, "# gossip_port = 8001"@);
        acc = acc.push("# gossip_port = 8001"@);
        assert(out@ == old(out)@ + join_nl(acc));
    }
    push_tl(out, "# gossip_host = \"127.0.0.1\"");
    proof {
        lemma_join_nl_push(acc, "# gossip_host = \"127.0.0.1\""@);
        acc = acc.push("# gossip_host = \"127.0.0.1\""@);
        assert(out@ == old(out)@ + join_nl(acc));
    }
    push_tl(out, "# dynamic_port_range = \"8002-10000\"");
    proof {
        lemma_join_nl_push(acc, "# dynamic_port_range = \"8002-10000\""@);
        acc = acc.push("# dynamic_port_range = \"8002-10000\""@);
        assert(out@ == old(out)@ + join_nl(acc));
    }
    push_tl(out, "# allow_private_addr = false");
    proof {
        lemma_join_nl_push(acc, "# allow_private_addr = false"@);
        acc = acc.push("# allow_private_addr = false"@);
        assert(out@ == old(out)@ + join_nl(acc));
    }
    push_tl(out, "");
    proof {
        lemma_join_nl_push(acc, ""@);
        acc = acc.push(""@);
        assert(out@ == old(out)@ + join_nl(acc));
    }
    push_tl(out, "# Ledger Configuration");
    proof {
        lemma_join_nl_push(acc, "# Ledger Configuration"@);
        acc = acc.push("# Ledger Configuration"@);
        assert(out@ == old(out)@ + join_nl(acc));
    }
    push_tl(out, "# ledger_path = \"./ledger\"");
    proof {
        lemma_join_nl_push(acc, "# ledger_path = \"./ledger\""@);
        acc = acc.push("# ledger_path = \"./ledger\""@);
        assert(out@ == old(out)@ + join_nl(acc));
    }
    push_tl(out, "# accounts_path = [\"./accounts\"]");
    proof {
        lemma_join_nl_push(acc, "# accounts_path = [\"./accounts\"]"@);
        acc = acc.push("# accounts_path = [\"./accounts\"]"@);
        assert(out@ == old(out)@ + join_nl(acc));
    }
    push_tl(out, "# account_snapshot_paths = [\"./snapshots\"]");
    proof {
        lemma_join_nl_push(acc, "# account_snapshot_paths = [\"./snapshots\"]"@);
        acc = acc.push("# account_snapshot_paths = [\"./snapshots\"]"@);
        assert(out@ == old(out)@ + join_nl(acc));
    }
    push_tl(out, "# limit_ledger_size = 50000000");
    proof {
        lemma_join_nl_push(acc, "# limit_ledger_size = 50000000"@);
        acc = acc.push("# limit_ledger_size = 50000000"@);
        assert(out@ == old(out)@ + join_nl(acc));
    }
    proof {
        assert(acc =~= template_chunk1());
    }
}

#[verifier::rlimit(100)]
fn push_chunk2(out: &mut String)
    ensures
        final(out)@ == old(out)@ + join_nl(template_chunk2()),
{
    let ghost mut acc: Seq<Seq<char>> = Seq::empty();
    proof {
        assert(out@ =~= old(out)@ + join_nl(acc));
    }
    push_tl(out, "");
    proof {
        lemma_join_nl_push(acc, ""@);
        acc = acc.push(""@);
        assert(out@ == old(out)@ + join_nl(acc));
    }
    push_tl(out, "# RPC Configuration");
    proof {
        lemma_join_nl_push(acc, "# RPC Configuration"@);
        acc = acc.push("# RPC Configuration"@);
        assert(out@ == old(out)@ + join_nl(acc));
    }
    push_tl(out, "# rpc_port = 8899");
    proof {
        lemma_join_nl_push(acc, "# rpc_port = 8899"@);
        acc = acc.push("# rpc_port = 8899"@);
        assert(out@ == old(out)@ + join_nl(acc));
    }
    push_tl(out, "# rpc_bind_address = \"127.0.0.1\"");
    proof {
        lemma_join_nl_push(acc, "# rpc_bind_address = \"127.0.0.1\""@);
        acc = acc.push("# rpc_bind_address = \"127.0.0.1\""@);
        assert(out@ == old(out)@ + join_nl(acc));
    }
    push_tl(out, "# enable_rpc_transaction_history = false");
    proof {
        lemma_join_nl_push(acc, "# enable_rpc_transaction_history = false"@);
        acc = acc.push("# enable_rpc_transaction_history = false"@);
        assert(out@ == old(out)@ + join_nl(acc));
    }
    push_tl(out, "# enable_extended_tx_metadata_storage = false");
    proof {
        lemma_join_nl_push(acc, "# enable_extended_tx_metadata_storage = false"@);
        acc = acc.push("# enable_extended_tx_metadata_storage = false"@);
        assert(out@ == old(out)@ + join_nl(acc));
    }
    push_tl(out, "# rpc_threads = 4");
    proof {
        lemma_join_nl_push(acc, "# rpc_threads = 4"@);
        acc = acc.push("# rpc_threads = 4"@);
        assert(out@ == old(out)@ + join_nl(acc));
    }
    push_tl(out, "# rpc_blocking_threads = 1");
    proof {
        lemma_join_nl_push(acc, "# rpc_blocking_threads = 1"@);
        acc = acc.push("# rpc_blocking_threads = 1"@);
        assert(out@ == old(out)@ + join_nl(acc));
    }
    push_tl(out, "# rpc_max_request_body_size = 52428800");
    proof {
        lemma_join_nl_push(acc, "# rpc_max_request_body_size = 52428800"@);
        acc = acc.push("# rpc_max_request_body_size = 52428800"@);
        assert(out@ == old(out)@ + join_nl(acc));
    }
    push_tl(out, "# rpc_pubsub_max_active_subscriptions = 5000");
    proof {
        lemma_join_nl_push(acc, "# rpc_pubsub_max_active_subscriptions = 5000"@);
        acc = acc.push("# rpc_pubsub_max_active_subscriptions = 5000"@);
        assert(out@ == old(out)@ + join_nl(acc));
    }
    proof {
        assert(acc =~= template_chunk2());
    }
}

#[verifier::rlimit(100)]
fn push_chunk3(out: &mut String)
    ensures
        final(out)@ == old(out)@ + join_nl(template_chunk3()),
{
    let ghost mut acc: Seq<Seq<char>> = Seq::empty();
    proof {
        assert(out@ =~= old(out)@ + join_nl(acc));
    }
    push_tl(out, "# rpc_pubsub_queue_capacity_items = 100000");
    proof {
        lemma_join_nl_push(acc, "# rpc_pubsub_queue_capacity_items = 100000"@);
        acc = acc.push("# rpc_pubsub_queue_capacity_items = 100000"@);
        assert(out@ == old(out)@ + join_nl(acc));
    }
    push_tl(out, "# rpc_pubsub_queue_capacity_bytes = 100000000");
    proof {
        lemma_join_nl_push(acc, "# rpc_pubsub_queue_capacity_bytes = 100000000"@);
        acc = acc.push("# rpc_pubsub_queue_capacity_bytes = 100000000"@);
        assert(out@ == old(out)@ + join_nl(acc));
    }
    push_tl(out, "");
    proof {
        lemma_join_nl_push(acc, ""@);
        acc = acc.push(""@);
        assert(out@ == old(out)@ + join_nl(acc));
    }
    push_tl(out, "# Performance Configuration");
    proof {
        lemma_join_nl_push(acc, "# Performance Configuration"@);
        acc = acc.push("# Performance Configuration"@);
        assert(out@ == old(out)@ + join_nl(acc));
    }
    push_tl(out, "# accounts_shrink_ratio = 0.8");
    proof {
        lemma_join_nl_push(acc, "# accounts_shrink_ratio = 0.8"@);
        acc = acc.push("# accounts_shrink_ratio = 0.8"@);
        assert(out@ == old(out)@ + join_nl(acc));
    }
    push_tl(out, "# accounts_shrink_optimize_total_space = true");
    proof {
        lemma_join_nl_push(acc, "# accounts_shrink_optimize_total_space = true"@);
        acc = acc.push("# accounts_shrink_optimize_total_space = true"@);
        assert(out@ == old(out)@ + join_nl(acc));
    }
    push_tl(out, "# banking_trace_dir_byte_limit = 1000000000");
    proof {
        lemma_join_nl_push(acc, "# banking_trace_dir_byte_limit = 1000000000"@);
        acc = acc.push("# banking_trace_dir_byte_limit = 1000000000"@);
        assert(out@ == old(out)@ + join_nl(acc));
    }
    push_tl(out, "# tpu_connection_pool_size = 4");
    proof {
        lemma_join_nl_push(acc, "# tpu_connection_pool_size = 4"@);
        acc = acc.push("# tpu_connection_pool_size = 4"@);
        assert(out@ == old(out)@ + join_nl(acc));
    }
    push_tl(out, "# tpu_max_connections_per_peer = 8");
    proof {
        lemma_join_nl_push(acc, "# tpu_max_connections_per_peer = 8"@);
        acc = acc.push("# tpu_max_connections_per_peer = 8"@);
        assert(out@ == old(out)@ + join_nl(acc));
    }
    push_tl(out, "# tpu_max_connections_per_ipaddr_per_minute = 10");
    proof {
        lemma_join_nl_push(acc, "# tpu_max_connections_per_ipaddr_per_minute = 10"@);
        acc = acc.push("# tpu_max_connections_per_ipaddr_per_minute = 10"@);
        assert(out@ == old(out)@ + join_nl(acc));
    }
    proof {
        assert(acc =~= template_chunk3());
    }
}

#[verifier::rlimit(100)]
fn push_chunk4(out: &mut String)
    ensures
        final(out)@ == old(out)@ + join_nl(template_chunk4()),
{
    let ghost mut acc: Seq<Seq<char>> = Seq::empty();
    proof {
        assert(out@ =~= old(out)@ + join_nl(acc));
    }
    push_tl(out, "# tpu_max_staked_connections = 2000");
    proof {
        lemma_join_nl_push(acc, "# tpu_max_staked_connections = 2000"@);
        acc = acc.push("# tpu_max_staked_connections = 2000"@);
        assert(out@ == old(out)@ + join_nl(acc));
    }
    push_tl(out, "# tpu_max_unstaked_connections = 2000");
    proof {
        lemma_join_nl_push(acc, "# tpu_max_unstaked_connections = 2000"@);
        acc = acc.push("# tpu_max_unstaked_connections = 2000"@);
        assert(out@ == old(out)@ + join_nl(acc));
    }
    push_tl(out, "# tpu_max_streams_per_ms = 1000");
    proof {
        lemma_join_nl_push(acc, "# tpu_max_streams_per_ms = 1000"@);
        acc = acc.push("# tpu_max_streams_per_ms = 1000"@);
        assert(out@ == old(out)@ + join_nl(acc));
    }
    push_tl(out, "");
    proof {
        lemma_join_nl_push(acc, ""@);
        acc = acc.push(""@);
        assert(out@ == old(out)@ + join_nl(acc));
    }
    push_tl(out, "# Snapshot Configuration");
    proof {
        lemma_join_nl_push(acc, "# Snapshot Configuration"@);
        acc = acc.push("# Snapshot Configuration"@);
        assert(out@ == old(out)@ + join_nl(acc));
    }
    push_tl(out, "# snapshot_version = \"V1_7_0\"");
    proof {
        lemma_join_nl_push(acc, "# snapshot_version = \"V1_7_0\""@);
        acc = acc.push("# snapshot_version = \"V1_7_0\""@);
        assert(out@ == old(out)@ + join_nl(acc));
    }
    push_tl(out, "# snapshot_archive_format = \"zstd\"");
    proof {
        lemma_join_nl_push(acc, "# snapshot_archive_format = \"zstd\""@);
        acc = acc.push("# snapshot_archive_format = \"zstd\""@);
        assert(out@ == old(out)@ + join_nl(acc));
    }
    push_tl(out, "# full_snapshot_archive_interval_slots = 25000");
    proof {
        lemma_join_nl_push(acc, "# full_snapshot_archive_interval_slots = 25000"@);
        acc = acc.push("# full_snapshot_archive_interval_slots = 25000"@);
        assert(out@ == old(out)@ + join_nl(acc));
    }
    push_tl(out, "# incremental_snapshot_archive_interval_slots = 100");
    proof {
        lemma_join_nl_push(acc, "# incremental_snapshot_archive_interval_slots = 100"@);
        acc = acc.push("# incremental_snapshot_archive_interval_slots = 100"@);
        assert(out@ == old(out)@ + join_nl(acc));
    }
    push_tl(out, "# maximum_full_snapshot_archives_to_retain = 2");
    proof {
        lemma_join_nl_push(acc, "# maximum_full_snapshot_archives_to_retain = 2"@);
        acc = acc.push("# maximum_full_snapshot_archives_to_retain = 2"@);
        assert(out@ == old(out)@ + join_nl(acc));
    }
    proof {
        assert(acc =~= template_chunk4());
    }
}

#[verifier::rlimit(100)]
fn push_chunk5(out: &mut String)
    ensures
        final(out)@ == old(out)@ + join_nl(template_chunk5()),
{
    let ghost mut acc: Seq<Seq<char>> = Seq::empty();
    proof {
        assert(out@ =~= old(out)@ + join_nl(acc));
    }
    push_tl(out, "# maximum_incremental_snapshot_archives_to_retain = 4");
    proof {
        lemma_join_nl_push(acc, "# maximum_incremental_snapshot_archives_to_retain = 4"@);
        acc = acc.push("# maximum_incremental_snapshot_archives_to_retain = 4"@);
        assert(out@ == old(out)@ + join_nl(acc));
    }
    push_tl(out, "# min_snapshot_download_speed = 10485760");
    proof {
        lemma_join_nl_push(acc, "# min_snapshot_download_speed = 10485760"@);
        acc = acc.push("# min_snapshot_download_speed = 10485760"@);
        assert(out@ == old(out)@ + join_nl(acc));
    }
    push_tl(out, "# max_snapshot_download_abort = 5");
    proof {
        lemma_join_nl_push(acc, "# max_snapshot_download_abort = 5"@);
        acc = acc.push("# max_snapshot_download_abort = 5"@);
        assert(out@ == old(out)@ + join_nl(acc));
    }
    push_tl(out, "");
    proof {
        lemma_join_nl_push(acc, ""@);
        acc = acc.push(""@);
        assert(out@ == old(out)@ + join_nl(acc));
    }
    push_tl(out, "# Thread Configuration");
    proof {
        lemma_join_nl_push(acc, "# Thread Configuration"@);
        acc = acc.push("# Thread Configuration"@);
        assert(out@ == old(out)@ + join_nl(acc));
    }
    push_tl(out, "# replay_forks_threads = 1");
    proof {
        lemma_join_nl_push(acc, "# replay_forks_threads = 1"@);
        acc = acc.push("# replay_forks_threads = 1"@);
        assert(out@ == old(out)@ + join_nl(acc));
    }
    push_tl(out, "# replay_transactions_threads = 1");
    proof {
        lemma_join_nl_push(acc, "# replay_transactions_threads = 1"@);
        acc = acc.push("# replay_transactions_threads = 1"@);
        assert(out@ == old(out)@ + join_nl(acc));
    }
    push_tl(out, "# tvu_shred_sigverify_threads = 1");
    proof {
        lemma_join_nl_push(acc, "# tvu_shred_sigverify_threads = 1"@);
        acc = acc.push("# tvu_shred_sigverify_threads = 1"@);
        assert(out@ == old(out)@ + join_nl(acc));
    }
    push_tl(out, "");
    proof {
        lemma_join_nl_push(acc, ""@);
        acc = acc.push(""@);
        assert(out@ == old(out)@ + join_nl(acc));
    }
    push_tl(out, "# Validator Behavior");
    proof {
        lemma_join_nl_push(acc, "# Validator Behavior"@);
        acc = acc.push("# Validator Behavior"@);
        assert(out@ == old(out)@ + join_nl(acc));
    }
    proof {
        assert(acc =~= template_chunk5());
    }
}

#[verifier::rlimit(100)]
fn push_chunk6(out: &mut String)
    ensures
        final(out)@ == old(out)@ + join_nl(template_chunk6()),
{
    let ghost mut acc: Seq<Seq<char>> = Seq::empty();
    proof {
        assert(out@ =~= old(out)@ + join_nl(acc));
    }
    push_tl(out, "# voting_disabled = false");
    proof {
        lemma_join_nl_push(acc, "# voting_disabled = false"@);
        acc = acc.push("# voting_disabled = false"@);
        assert(out@ == old(out)@ + join_nl(acc));
    }
    push_tl(out, "# dev_halt_at_slot = 0");
    proof {
        lemma_join_nl_push(acc, "# dev_halt_at_slot = 0"@);
        acc = acc.push("# dev_halt_at_slot = 0"@);
        assert(out@ == old(out)@ + join_nl(acc));
    }
    push_tl(out, "# wait_for_supermajority = 0");
    proof {
        lemma_join_nl_push(acc, "# wait_for_supermajority = 0"@);
        acc = acc.push("# wait_for_supermajority = 0"@);
        assert(out@ == old(out)@ + join_nl(acc));
    }
    push_tl(out, "# expected_genesis_hash = \"\"");
    proof {
        lemma_join_nl_push(acc, "# expected_genesis_hash = \"\""@);
        acc = acc.push("# expected_genesis_hash = \"\""@);
        assert(out@ == old(out)@ + join_nl(acc));
    }
    push_tl(out, "# expected_bank_hash = \"\"");
    proof {
        lemma_join_nl_push(acc, "# expected_bank_hash = \"\""@);
        acc = acc.push("# expected_bank_hash = \"\""@);
        assert(out@ == old(out)@ + join_nl(acc));
    }
    push_tl(out, "# expected_shred_version = 0");
    proof {
        lemma_join_nl_push(acc, "# expected_shred_version = 0"@);
        acc = acc.push("# expected_shred_version = 0"@);
        assert(out@ == old(out)@ + join_nl(acc));
    }
    push_tl(out, "# no_voting = false");
    proof {
        lemma_join_nl_push(acc, "# no_voting = false"@);
        acc = acc.push("# no_voting = false"@);
        assert(out@ == old(out)@ + join_nl(acc));
    }
    push_tl(out, "# no_check_vote_account = false");
    proof {
        lemma_join_nl_push(acc, "# no_check_vote_account = false"@);
        acc = acc.push("# no_check_vote_account = false"@);
        assert(out@ == old(out)@ + join_nl(acc));
    }
    push_tl(out, "");
    proof {
        lemma_join_nl_push(acc, ""@);
        acc = acc.push(""@);
        assert(out@ == old(out)@ + join_nl(acc));
    }
    push_tl(out, "# Identity and Security");
    proof {
        lemma_join_nl_push(acc, "# Identity and Security"@);
        acc = acc.push("# Identity and Security"@);
        assert(out@ == old(out)@ + join_nl(acc));
    }
    proof {
        assert(acc =~= template_chunk6());
    }
}

#[verifier::rlimit(100)]
fn push_chunk7(out: &mut String)
    ensures
        final(out)@ == old(out)@ + join_nl(template_chunk7()),
{
    let ghost mut acc: Seq<Seq<char>> = Seq::empty();
    proof {
        assert(out@ =~= old(out)@ + join_nl(acc));
    }
    push_tl(out, "# identity = \"./validator-keypair.json\"");
    proof {
        lemma_join_nl_push(acc, "# identity = \"./validator-keypair.json\""@);
        acc = acc.push("# identity = \"./validator-keypair.json\""@);
        assert(out@ == old(out)@ + join_nl(acc));
    }
    push_tl(out, "# vote_account = \"./vote-account-keypair.json\"");
    proof {
        lemma_join_nl_push(acc, "# vote_account = \"./vote-account-keypair.json\""@);
        acc = acc.push("# vote_account = \"./vote-account-keypair.json\""@);
        assert(out@ == old(out)@ + join_nl(acc));
    }
    push_tl(out, "# authorized_voter_keypairs = [\"./authorized-voter-keypair.json\"]");
    proof {
        lemma_join_nl_push(acc, "# authorized_voter_keypairs = [\"./authorized-voter-keypair.json\"]"@);
        acc = acc.push("# authorized_voter_keypairs = [\"./authorized-voter-keypair.json\"]"@);
        assert(out@ == old(out)@ + join_nl(acc));
    }
    push_tl(out, "# known_validators = []");
    proof {
        lemma_join_nl_push(acc, "# known_validators = []"@);
        acc = acc.push("# known_validators = []"@);
        assert(out@ == old(out)@ + join_nl(acc));
    }
    push_tl(out, "# only_known_rpc = false");
    proof {
        lemma_join_nl_push(acc, "# only_known_rpc = false"@);
        acc = acc.push("# only_known_rpc = false"@);
        assert(out@ == old(out)@ + join_nl(acc));
    }
    push_tl(out, "");
    proof {
        lemma_join_nl_push(acc, ""@);
        acc = acc.push(""@);
        assert(out@ == old(out)@ + join_nl(acc));
    }
    push_tl(out, "# Development and Debugging");
    proof {
        lemma_join_nl_push(acc, "# Development and Debugging"@);
        acc = acc.push("# Development and Debugging"@);
        assert(out@ == old(out)@ + join_nl(acc));
    }
    push_tl(out, "# log_messages_bytes_limit = 10000");
    proof {
        lemma_join_nl_push(acc, "# log_messages_bytes_limit = 10000"@);
        acc = acc.push("# log_messages_bytes_limit = 10000"@);
        assert(out@ == old(out)@ + join_nl(acc));
    }
    push_tl(out, "# skip_startup_ledger_verification = false");
    proof {
        lemma_join_nl_push(acc, "# skip_startup_ledger_verification = false"@);
        acc = acc.push("# skip_startup_ledger_verification = false"@);
        assert(out@ == old(out)@ + join_nl(acc));
    }
    push_tl(out, "# skip_poh_verify = false");
    proof {
        lemma_join_nl_push(acc, "# skip_poh_verify = false"@);
        acc = acc.push("# skip_poh_verify = false"@);
        assert(out@ == old(out)@ + join_nl(acc));
    }
    proof {
        assert(acc =~= template_chunk7());
    }
}

#[verifier::rlimit(100)]
fn push_chunk8(out: &mut String)
    ensures
        final(out)@ == old(out)@ + join_nl(template_chunk8()),
{
    let ghost mut acc: Seq<Seq<char>> = Seq::empty();
    proof {
        assert(out@ =~= old(out)@ + join_nl(acc));
    }
    push_tl(out, "# debug_keys = []");
    proof {
        lemma_join_nl_push(acc, "# debug_keys = []"@);
        acc = acc.push("# debug_keys = []"@);
        assert(out@ == old(out)@ + join_nl(acc));
    }
    proof {
        assert(acc =~= template_chunk8());
    }
}

/// The fixed template text: the contract pins every byte of it, and
/// loading it yields the all-absent schema, since every line is a
/// comment or blank.
pub fn default_config_template() -> (r: String)
    ensures
        r@ == template_text(),
        spec_parse(r@) == Some(all_absent()),
{
    let mut out = String::new();
    push_chunk0(&mut out);
    push_chunk1(&mut out);
    push_chunk2(&mut out);
    push_chunk3(&mut out);
    push_chunk4(&mut out);
    push_chunk5(&mut out);
    push_chunk6(&mut out);
    push_chunk7(&mut out);
    push_chunk8(&mut out);
    proof {
        lemma_join_nl_append(template_chunk0(), template_chunk1());
        lemma_join_nl_append(template_chunk0() + template_chunk1(), template_chunk2());
        lemma_join_nl_append(template_chunk0() + template_chunk1() + template_chunk2(), template_chunk3());
        lemma_join_nl_append(template_chunk0() + template_chunk1() + template_chunk2() + template_chunk3(), template_chunk4());
        lemma_join_nl_append(template_chunk0() + template_chunk1() + template_chunk2() + template_chunk3() + template_chunk4(), template_chunk5());
        lemma_join_nl_append(template_chunk0() + template_chunk1() + template_chunk2() + template_chunk3() + template_chunk4() + template_chunk5(), template_chunk6());
        lemma_join_nl_append(template_chunk0() + template_chunk1() + template_chunk2() + template_chunk3() + template_chunk4() + template_chunk5() + template_chunk6(), template_chunk7());
        lemma_join_nl_append(template_chunk0() + template_chunk1() + template_chunk2() + template_chunk3() + template_chunk4() + template_chunk5() + template_chunk6() + template_chunk7(), template_chunk8());
        assert(out@ =~= template_text());
        lemma_template_lines_comments();
        lemma_skip_lines(all_absent(), template_lines());
    }
    out
}

} // verus!
