//! The bincode encoding of vote states, written out field by field, and what the readers
//! of `vote_state` give on such encodings and on data that extends them.
use vstd::prelude::*;

use vstd::seq_lib::lemma_concat_associative;

use crate::errors::InstructionError;
use crate::state::vote_state::{
    le_u32_at, le_u64_at, spec_count_from_votes, spec_after_authorized_voters, spec_after_root_slot,
    spec_collection_length, spec_commission, spec_epoch_credits_count, spec_epoch_credits_count_at,
};

verus! {

/// The 8 little-endian bytes of `v`.
pub open spec fn u64_le_bytes(v: u64) -> Seq<u8> {
    seq![
        (v % 256) as u8,
        ((v / 256) % 256) as u8,
        ((v / 65536) % 256) as u8,
        ((v / 16777216) % 256) as u8,
        ((v / 4294967296) % 256) as u8,
        ((v / 1099511627776) % 256) as u8,
        ((v / 281474976710656) % 256) as u8,
        ((v / 72057594037927936) % 256) as u8,
    ]
}

proof fn lemma_u64_le_bytes_value(v: u64)
    ensures
        ({
            let b = u64_le_bytes(v);
            b[0] + 256 * b[1] + 65536 * b[2] + 16777216 * b[3] + 4294967296 * (b[4] + 256 * b[5]
                + 65536 * b[6] + 16777216 * b[7]) == v
        }),
{
    assert((v % 256) + 256 * ((v / 256) % 256) + 65536 * ((v / 65536) % 256) + 16777216 * ((v
        / 16777216) % 256) + 4294967296 * ((v / 4294967296) % 256) + 1099511627776 * ((v
        / 1099511627776) % 256) + 281474976710656 * ((v / 281474976710656) % 256)
        + 72057594037927936 * ((v / 72057594037927936) % 256) == v) by (bit_vector);
}

/// Reading the little-endian `u64` right after a prefix `a` gives back `v`.
proof fn lemma_read_u64(a: Seq<u8>, v: u64, b: Seq<u8>)
    ensures
        le_u64_at((a + u64_le_bytes(v)) + b, a.len() as int) == v,
        spec_collection_length((a + u64_le_bytes(v)) + b, a.len() as int) == if (a.len() + 8
            + b.len()) <= usize::MAX {
            Ok::<usize, InstructionError>(v as usize)
        } else {
            spec_collection_length((a + u64_le_bytes(v)) + b, a.len() as int)
        },
{
    let s = (a + u64_le_bytes(v)) + b;
    let e = u64_le_bytes(v);
    let n = a.len() as int;
    assert(s[n] == e[0]);
    assert(s[n + 1] == e[1]);
    assert(s[n + 2] == e[2]);
    assert(s[n + 3] == e[3]);
    assert(s[n + 4] == e[4]);
    assert(s[n + 5] == e[5]);
    assert(s[n + 6] == e[6]);
    assert(s[n + 7] == e[7]);
    lemma_u64_le_bytes_value(v);
}

/// The bincode encoding of an `Option<u64>`: a tag byte, then the value if present.
pub open spec fn option_u64_bytes(o: Option<u64>) -> Seq<u8> {
    match o {
        None => seq![0u8],
        Some(v) => seq![1u8] + u64_le_bytes(v),
    }
}

/// The bincode encoding of an enum variant index below 256, as a little-endian `u32`.
pub open spec fn variant_bytes(tag: u8) -> Seq<u8> {
    seq![tag, 0u8, 0u8, 0u8]
}

/// Skipping a collection of `count` items of `item_bytes` bytes each, stored at the end of
/// `p`, and the optional root slot after it, leads to the first byte after the root slot.
proof fn lemma_skip_votes_and_root_slot(
    p: Seq<u8>,
    count: u64,
    items: Seq<u8>,
    root_slot: Option<u64>,
    after: Seq<u8>,
    item_bytes: int,
)
    requires
        item_bytes > 0,
        items.len() == count * item_bytes,
        p.len() + 8 + items.len() + option_u64_bytes(root_slot).len() + after.len() <= usize::MAX,
    ensures
        spec_after_root_slot(
            (((p + u64_le_bytes(count)) + items) + option_u64_bytes(root_slot)) + after,
            p.len() as int,
            item_bytes,
        ) == Ok::<int, InstructionError>(
            (p.len() + 8 + items.len() + option_u64_bytes(root_slot).len()) as int,
        ),
{
    let opt = option_u64_bytes(root_slot);
    let s = (((p + u64_le_bytes(count)) + items) + opt) + after;
    lemma_read_u64(p, count, (items + opt) + after);
    assert(s =~= (p + u64_le_bytes(count)) + ((items + opt) + after));
    assert(count <= usize::MAX) by (nonlinear_arith)
        requires
            items.len() == count * item_bytes,
            item_bytes > 0,
            items.len() <= usize::MAX,
    ;
    let root = (p.len() + 8 + items.len()) as int;
    assert(s[root] == opt[0]);
}

/// Skipping a collection of `count` items of 40 bytes stored at the end of `p`, and the
/// `extra` bytes after it.
proof fn lemma_skip_authorized_voters(
    p: Seq<u8>,
    count: u64,
    items: Seq<u8>,
    extra: Seq<u8>,
    after: Seq<u8>,
)
    requires
        items.len() == count * 40,
        p.len() + 8 + items.len() + extra.len() + after.len() <= usize::MAX,
    ensures
        spec_after_authorized_voters(
            (((p + u64_le_bytes(count)) + items) + extra) + after,
            p.len() as int,
            extra.len() as int,
        ) == Ok::<int, InstructionError>(
            (p.len() + 8 + items.len() + extra.len()) as int,
        ),
{
    let s = (((p + u64_le_bytes(count)) + items) + extra) + after;
    lemma_read_u64(p, count, (items + extra) + after);
    assert(s =~= (p + u64_le_bytes(count)) + ((items + extra) + after));
}

/// Reading an epoch credits collection of `count` entries stored at the end of `p`.
proof fn lemma_read_epoch_credits(p: Seq<u8>, count: u64, entries: Seq<u8>, after: Seq<u8>)
    requires
        entries.len() == count * 24,
        p.len() + 8 + entries.len() + after.len() <= usize::MAX,
    ensures
        spec_epoch_credits_count_at(
            ((p + u64_le_bytes(count)) + entries) + after,
            p.len() as int,
        ) == Ok::<usize, InstructionError>(count as usize),
{
    let s = ((p + u64_le_bytes(count)) + entries) + after;
    lemma_read_u64(p, count, entries + after);
    assert(s =~= (p + u64_le_bytes(count)) + (entries + after));
    assert(count <= usize::MAX);
}

/// The bincode encoding of a `V0_23_5` vote state: variant 0; the fields before the votes
/// (node pubkey, authorized voter and its epoch, prior voters, authorized withdrawer,
/// commission: 1906 bytes); the votes (12-byte lockouts); the root slot; the epoch credits
/// (24-byte entries); then whatever follows (last timestamp and any padding).
#[verifier::opaque]
pub open spec fn encode_v0_23_5(
    head: Seq<u8>,
    votes_count: u64,
    votes: Seq<u8>,
    root_slot: Option<u64>,
    credits_count: u64,
    credits: Seq<u8>,
    tail: Seq<u8>,
) -> Seq<u8> {
    variant_bytes(0) + head + u64_le_bytes(votes_count) + votes + option_u64_bytes(root_slot)
        + u64_le_bytes(credits_count) + credits + tail
}

/// The bincode encoding of a `V1_14_11` (variant 1, 12-byte lockouts) or `V1_16_0`
/// (variant 2, 13-byte landed votes) vote state: the fields before the votes (node pubkey,
/// authorized withdrawer, commission: 65 bytes); the votes; the root slot; the authorized
/// voters (40-byte entries); the prior voters (1545 bytes); the epoch credits; then
/// whatever follows.
#[verifier::opaque]
pub open spec fn encode_v1(
    variant: u8,
    head: Seq<u8>,
    votes_count: u64,
    votes: Seq<u8>,
    root_slot: Option<u64>,
    voters_count: u64,
    voters: Seq<u8>,
    prior_voters: Seq<u8>,
    credits_count: u64,
    credits: Seq<u8>,
    tail: Seq<u8>,
) -> Seq<u8> {
    variant_bytes(variant) + head + u64_le_bytes(votes_count) + votes + option_u64_bytes(
        root_slot,
    ) + u64_le_bytes(voters_count) + voters + prior_voters + u64_le_bytes(credits_count)
        + credits + tail
}

/// The bincode encoding of a `Current` vote state: variant 3; the fields before the BLS
/// key (four pubkeys, two commission rates, pending rewards: 140 bytes); the optional
/// 48-byte BLS key; the votes (13-byte landed votes); the root slot; the authorized voters;
/// the epoch credits; then whatever follows.
#[verifier::opaque]
pub open spec fn encode_current(
    head: Seq<u8>,
    bls_pubkey: Option<Seq<u8>>,
    votes_count: u64,
    votes: Seq<u8>,
    root_slot: Option<u64>,
    voters_count: u64,
    voters: Seq<u8>,
    credits_count: u64,
    credits: Seq<u8>,
    tail: Seq<u8>,
) -> Seq<u8> {
    variant_bytes(3) + head + match bls_pubkey {
        None => seq![0u8],
        Some(key) => seq![1u8] + key,
    } + u64_le_bytes(votes_count) + votes + option_u64_bytes(root_slot) + u64_le_bytes(
        voters_count,
    ) + voters + u64_le_bytes(credits_count) + credits + tail
}

/// Reading the variant index at the start of an encoding.
proof fn lemma_read_variant(variant: u8, rest: Seq<u8>)
    ensures
        (variant_bytes(variant) + rest).len() >= 4,
        le_u32_at(variant_bytes(variant) + rest, 0) == variant,
{
    let s = variant_bytes(variant) + rest;
    assert(s[0] == variant);
    assert(s[1] == 0);
    assert(s[2] == 0);
    assert(s[3] == 0);
}

proof fn lemma_v0_23_5_walk(s: Seq<u8>, ec: int, n: usize)
    requires
        s.len() >= 4,
        le_u32_at(s, 0) == 0,
        spec_after_root_slot(s, 1910, 12) == Ok::<int, InstructionError>(ec),
        spec_epoch_credits_count_at(s, ec) == Ok::<usize, InstructionError>(n),
    ensures
        spec_epoch_credits_count(s) == Ok::<usize, InstructionError>(n),
{
    reveal(spec_epoch_credits_count);
}

proof fn lemma_v1_walk(s: Seq<u8>, variant: int, vote_bytes: int, av: int, ec: int, n: usize)
    requires
        s.len() >= 4,
        le_u32_at(s, 0) == variant,
        variant == 1 && vote_bytes == 12 || variant == 2 && vote_bytes == 13,
        spec_after_root_slot(s, 69, vote_bytes) == Ok::<int, InstructionError>(av),
        spec_after_authorized_voters(s, av, 1545) == Ok::<int, InstructionError>(ec),
        spec_epoch_credits_count_at(s, ec) == Ok::<usize, InstructionError>(n),
    ensures
        spec_epoch_credits_count(s) == Ok::<usize, InstructionError>(n),
{
    reveal(spec_epoch_credits_count);
}

proof fn lemma_current_walk(s: Seq<u8>, votes_index: int, av: int, ec: int, n: usize)
    requires
        s.len() > 144,
        le_u32_at(s, 0) == 3,
        s[144] == 0 && votes_index == 145 || s[144] == 1 && votes_index == 193,
        spec_after_root_slot(s, votes_index, 13) == Ok::<int, InstructionError>(av),
        spec_after_authorized_voters(s, av, 0) == Ok::<int, InstructionError>(ec),
        spec_epoch_credits_count_at(s, ec) == Ok::<usize, InstructionError>(n),
    ensures
        spec_epoch_credits_count(s) == Ok::<usize, InstructionError>(n),
{
    reveal(spec_epoch_credits_count);
}

proof fn lemma_regroup_3(p: Seq<u8>, a: Seq<u8>, b: Seq<u8>, c: Seq<u8>)
    ensures
        p + ((a + b) + c) == ((p + a) + b) + c,
{
    assert(p + ((a + b) + c) =~= ((p + a) + b) + c);
}

proof fn lemma_regroup_5(p: Seq<u8>, a: Seq<u8>, b: Seq<u8>, c: Seq<u8>, d: Seq<u8>, e: Seq<u8>)
    ensures
        p + ((((a + b) + c) + d) + e) == ((((p + a) + b) + c) + d) + e,
{
    assert(p + ((((a + b) + c) + d) + e) =~= ((((p + a) + b) + c) + d) + e);
}

proof fn lemma_regroup_6(
    p: Seq<u8>,
    a: Seq<u8>,
    b: Seq<u8>,
    c: Seq<u8>,
    d: Seq<u8>,
    e: Seq<u8>,
    f: Seq<u8>,
)
    ensures
        p + (((((a + b) + c) + d) + e) + f) == (((((p + a) + b) + c) + d) + e) + f,
{
    assert(p + (((((a + b) + c) + d) + e) + f) =~= (((((p + a) + b) + c) + d) + e) + f);
}

/// Decoding a `V0_23_5` encoding: whatever its field values, number of votes, root slot
/// and trailing bytes, the count read is the number of epoch credit entries it holds.
pub proof fn lemma_v0_23_5_encoding_gives_credits_count(
    head: Seq<u8>,
    votes_count: u64,
    votes: Seq<u8>,
    root_slot: Option<u64>,
    credits_count: u64,
    credits: Seq<u8>,
    tail: Seq<u8>,
)
    requires
        head.len() == 1906,
        votes.len() == votes_count * 12,
        credits.len() == credits_count * 24,
        encode_v0_23_5(head, votes_count, votes, root_slot, credits_count, credits, tail).len()
            <= usize::MAX,
    ensures
        spec_epoch_credits_count(
            encode_v0_23_5(head, votes_count, votes, root_slot, credits_count, credits, tail),
        ) == Ok::<usize, InstructionError>(credits_count as usize),
{
    let s = encode_v0_23_5(head, votes_count, votes, root_slot, credits_count, credits, tail);
    let opt = option_u64_bytes(root_slot);
    let p0 = variant_bytes(0) + head;
    let p1 = ((p0 + u64_le_bytes(votes_count)) + votes) + opt;
    let count = u64_le_bytes(credits_count);
    assert(s == ((p1 + count) + credits) + tail) by {
        reveal(encode_v0_23_5);
    }
    lemma_concat_associative(p1, count + credits, tail);
    lemma_concat_associative(p1, count, credits);
    lemma_skip_votes_and_root_slot(p0, votes_count, votes, root_slot, (count + credits) + tail, 12);
    lemma_read_epoch_credits(p1, credits_count, credits, tail);
    lemma_read_variant(0, head);
    assert(s[0] == 0 && s[1] == 0 && s[2] == 0 && s[3] == 0);
    lemma_v0_23_5_walk(s, p1.len() as int, credits_count as usize);
}

/// Decoding a `V1_14_11` or `V1_16_0` encoding: whatever its field values, number of votes,
/// root slot, authorized voters and trailing bytes, the count read is the number of epoch
/// credit entries it holds.
#[verifier::rlimit(100)]
#[verifier::spinoff_prover]
pub proof fn lemma_v1_encoding_gives_credits_count(
    variant: u8,
    head: Seq<u8>,
    votes_count: u64,
    votes: Seq<u8>,
    root_slot: Option<u64>,
    voters_count: u64,
    voters: Seq<u8>,
    prior_voters: Seq<u8>,
    credits_count: u64,
    credits: Seq<u8>,
    tail: Seq<u8>,
)
    requires
        variant == 1 || variant == 2,
        head.len() == 65,
        votes.len() == votes_count * (if variant == 1 { 12int } else { 13int }),
        voters.len() == voters_count * 40,
        prior_voters.len() == 1545,
        credits.len() == credits_count * 24,
        encode_v1(
            variant,
            head,
            votes_count,
            votes,
            root_slot,
            voters_count,
            voters,
            prior_voters,
            credits_count,
            credits,
            tail,
        ).len() <= usize::MAX,
    ensures
        spec_epoch_credits_count(
            encode_v1(
                variant,
                head,
                votes_count,
                votes,
                root_slot,
                voters_count,
                voters,
                prior_voters,
                credits_count,
                credits,
                tail,
            ),
        ) == Ok::<usize, InstructionError>(credits_count as usize),
{
    let s = encode_v1(
        variant,
        head,
        votes_count,
        votes,
        root_slot,
        voters_count,
        voters,
        prior_voters,
        credits_count,
        credits,
        tail,
    );
    let vote_bytes: int = if variant == 1 {
        12
    } else {
        13
    };
    let opt = option_u64_bytes(root_slot);
    let p0 = variant_bytes(variant) + head;
    let p1 = ((p0 + u64_le_bytes(votes_count)) + votes) + opt;
    let p2 = ((p1 + u64_le_bytes(voters_count)) + voters) + prior_voters;
    let vc = u64_le_bytes(voters_count);
    let cc = u64_le_bytes(credits_count);
    assert(s == ((p2 + cc) + credits) + tail) by {
        reveal(encode_v1);
    }
    lemma_regroup_6(p1, vc, voters, prior_voters, cc, credits, tail);
    lemma_skip_votes_and_root_slot(
        p0,
        votes_count,
        votes,
        root_slot,
        ((((vc + voters) + prior_voters) + cc) + credits) + tail,
        vote_bytes,
    );
    lemma_regroup_3(p2, cc, credits, tail);
    lemma_skip_authorized_voters(p1, voters_count, voters, prior_voters, (cc + credits) + tail);
    lemma_read_epoch_credits(p2, credits_count, credits, tail);
    lemma_read_variant(variant, head);
    assert(p0[0] == variant && p0[1] == 0 && p0[2] == 0 && p0[3] == 0);
    assert(s[0] == variant && s[1] == 0 && s[2] == 0 && s[3] == 0);
    lemma_v1_walk(
        s,
        variant as int,
        vote_bytes,
        p1.len() as int,
        p2.len() as int,
        credits_count as usize,
    );
}

/// Decoding a `Current` encoding: whatever its field values, BLS key, number of votes,
/// root slot, authorized voters and trailing bytes, the count read is the number of epoch
/// credit entries it holds.
#[verifier::rlimit(100)]
#[verifier::spinoff_prover]
pub proof fn lemma_current_encoding_gives_credits_count(
    head: Seq<u8>,
    bls_pubkey: Option<Seq<u8>>,
    votes_count: u64,
    votes: Seq<u8>,
    root_slot: Option<u64>,
    voters_count: u64,
    voters: Seq<u8>,
    credits_count: u64,
    credits: Seq<u8>,
    tail: Seq<u8>,
)
    requires
        head.len() == 140,
        bls_pubkey matches Some(key) ==> key.len() == 48,
        votes.len() == votes_count * 13,
        voters.len() == voters_count * 40,
        credits.len() == credits_count * 24,
        encode_current(
            head,
            bls_pubkey,
            votes_count,
            votes,
            root_slot,
            voters_count,
            voters,
            credits_count,
            credits,
            tail,
        ).len() <= usize::MAX,
    ensures
        spec_epoch_credits_count(
            encode_current(
                head,
                bls_pubkey,
                votes_count,
                votes,
                root_slot,
                voters_count,
                voters,
                credits_count,
                credits,
                tail,
            ),
        ) == Ok::<usize, InstructionError>(credits_count as usize),
{
    let s = encode_current(
        head,
        bls_pubkey,
        votes_count,
        votes,
        root_slot,
        voters_count,
        voters,
        credits_count,
        credits,
        tail,
    );
    let bls = match bls_pubkey {
        None => seq![0u8],
        Some(key) => seq![1u8] + key,
    };
    let opt = option_u64_bytes(root_slot);
    let p0 = (variant_bytes(3) + head) + bls;
    let p1 = ((p0 + u64_le_bytes(votes_count)) + votes) + opt;
    let p2 = (p1 + u64_le_bytes(voters_count)) + voters;
    let vc = u64_le_bytes(voters_count);
    let cc = u64_le_bytes(credits_count);
    assert(s == ((p2 + cc) + credits) + tail) by {
        reveal(encode_current);
    }
    lemma_regroup_5(p1, vc, voters, cc, credits, tail);
    lemma_skip_votes_and_root_slot(
        p0,
        votes_count,
        votes,
        root_slot,
        (((vc + voters) + cc) + credits) + tail,
        13,
    );
    lemma_regroup_3(p2, cc, credits, tail);
    assert((p1 + vc) + voters == ((p1 + vc) + voters) + Seq::<u8>::empty()) by {
        assert((p1 + vc) + voters =~= ((p1 + vc) + voters) + Seq::<u8>::empty());
    }
    lemma_skip_authorized_voters(p1, voters_count, voters, Seq::<u8>::empty(), (cc + credits) + tail);
    lemma_read_epoch_credits(p2, credits_count, credits, tail);
    lemma_read_variant(3, head);
    assert(p0[0] == 3 && p0[1] == 0 && p0[2] == 0 && p0[3] == 0);
    assert(p0[144] == bls[0]);
    assert(s[0] == 3 && s[1] == 0 && s[2] == 0 && s[3] == 0);
    assert(s[144] == bls[0]);
    lemma_current_walk(s, p0.len() as int, p1.len() as int, p2.len() as int, credits_count as usize);
}

proof fn lemma_reads_ignore_trailing_bytes(s: Seq<u8>, t: Seq<u8>, p: int)
    requires
        0 <= p,
        p + 8 <= s.len(),
    ensures
        le_u64_at(s + t, p) == le_u64_at(s, p),
        le_u32_at(s + t, p) == le_u32_at(s, p),
{
    assert((s + t)[p] == s[p]);
    assert((s + t)[p + 1] == s[p + 1]);
    assert((s + t)[p + 2] == s[p + 2]);
    assert((s + t)[p + 3] == s[p + 3]);
    assert((s + t)[p + 4] == s[p + 4]);
    assert((s + t)[p + 5] == s[p + 5]);
    assert((s + t)[p + 6] == s[p + 6]);
    assert((s + t)[p + 7] == s[p + 7]);
}

proof fn lemma_collection_length_extends(s: Seq<u8>, t: Seq<u8>, p: int)
    requires
        0 <= p,
        spec_collection_length(s, p) is Ok,
    ensures
        spec_collection_length(s + t, p) == spec_collection_length(s, p),
{
    lemma_reads_ignore_trailing_bytes(s, t, p);
}

proof fn lemma_after_root_slot_extends(s: Seq<u8>, t: Seq<u8>, p: int, vote_bytes: int)
    requires
        0 <= p,
        0 <= vote_bytes,
        spec_after_root_slot(s, p, vote_bytes) is Ok,
    ensures
        spec_after_root_slot(s + t, p, vote_bytes) == spec_after_root_slot(s, p, vote_bytes),
        spec_after_root_slot(s, p, vote_bytes)->Ok_0 >= 0,
{
    lemma_collection_length_extends(s, t, p);
    let n = spec_collection_length(s, p)->Ok_0;
    let root = p + 8 + n * vote_bytes;
    assert(n * vote_bytes >= 0) by (nonlinear_arith)
        requires
            n >= 0,
            vote_bytes >= 0,
    ;
    assert((s + t)[root] == s[root]);
}

proof fn lemma_after_authorized_voters_extends(s: Seq<u8>, t: Seq<u8>, p: int, extra: int)
    requires
        0 <= p,
        0 <= extra,
        spec_after_authorized_voters(s, p, extra) is Ok,
    ensures
        spec_after_authorized_voters(s + t, p, extra) == spec_after_authorized_voters(
            s,
            p,
            extra,
        ),
        spec_after_authorized_voters(s, p, extra)->Ok_0 >= 0,
{
    lemma_collection_length_extends(s, t, p);
}

proof fn lemma_count_at_extends(s: Seq<u8>, t: Seq<u8>, p: int)
    requires
        0 <= p,
        spec_epoch_credits_count_at(s, p) is Ok,
    ensures
        spec_epoch_credits_count_at(s + t, p) == spec_epoch_credits_count_at(s, p),
{
    lemma_collection_length_extends(s, t, p);
}

proof fn lemma_count_from_votes_extends(
    s: Seq<u8>,
    t: Seq<u8>,
    p: int,
    vote_bytes: int,
    prior: int,
)
    requires
        0 <= p,
        0 <= vote_bytes,
        0 <= prior,
        spec_count_from_votes(s, p, vote_bytes, prior) is Ok,
    ensures
        spec_count_from_votes(s + t, p, vote_bytes, prior) == spec_count_from_votes(
            s,
            p,
            vote_bytes,
            prior,
        ),
{
    lemma_after_root_slot_extends(s, t, p, vote_bytes);
    let av = spec_after_root_slot(s, p, vote_bytes)->Ok_0;
    lemma_after_authorized_voters_extends(s, t, av, prior);
    let ec = spec_after_authorized_voters(s, av, prior)->Ok_0;
    lemma_count_at_extends(s, t, ec);
}

/// Bytes after a vote state do not change its epoch credits count: when the count of `s`
/// is `n`, the count of `s` followed by any bytes `t` is `n` too. Vote accounts are
/// stored with zero padding after the encoded state.
#[verifier::rlimit(100)]
#[verifier::spinoff_prover]
pub proof fn lemma_epoch_credits_count_ignores_trailing_bytes(s: Seq<u8>, t: Seq<u8>, n: usize)
    requires
        spec_epoch_credits_count(s) == Ok::<usize, InstructionError>(n),
    ensures
        spec_epoch_credits_count(s + t) == Ok::<usize, InstructionError>(n),
{
    reveal(spec_epoch_credits_count);
    assert(s.len() >= 4);
    assert((s + t)[0] == s[0] && (s + t)[1] == s[1] && (s + t)[2] == s[2] && (s + t)[3] == s[3]);
    let tag = le_u32_at(s, 0);
    if tag == 0 {
        lemma_after_root_slot_extends(s, t, 1910, 12);
        let ec = spec_after_root_slot(s, 1910, 12)->Ok_0;
        lemma_count_at_extends(s, t, ec);
    } else if tag == 1 {
        lemma_count_from_votes_extends(s, t, 69, 12, 1545);
    } else if tag == 2 {
        lemma_count_from_votes_extends(s, t, 69, 13, 1545);
    } else if tag == 3 {
        assert((s + t)[144] == s[144]);
        if s[144] == 0 {
            lemma_count_from_votes_extends(s, t, 145, 13, 0);
        } else {
            lemma_count_from_votes_extends(s, t, 193, 13, 0);
        }
    }
}

/// The commission is the byte at a fixed offset of each known version, whatever value it
/// holds: 1909 for `V0_23_5`, 68 for `V1_14_11` and `V1_16_0`, 132 for `Current`. Data that
/// ends before that offset has no commission.
pub proof fn lemma_commission_is_byte_at_version_offset(s: Seq<u8>, variant: u8)
    requires
        variant <= 3,
        s.len() >= 4,
        s[0] == variant,
        s[1] == 0,
        s[2] == 0,
        s[3] == 0,
    ensures
        ({
            let offset: int = if variant == 0 {
                1909
            } else if variant == 3 {
                132
            } else {
                68
            };
            &&& s.len() > offset ==> spec_commission(s) == Ok::<u8, InstructionError>(s[offset])
            &&& s.len() <= offset ==> spec_commission(s) == Err::<u8, InstructionError>(
                InstructionError::InvalidAccountData,
            )
        }),
{
}

} // verus!
