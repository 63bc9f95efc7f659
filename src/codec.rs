use vstd::prelude::*;

use crate::node_state::NodeState;

verus! {

/// Length of the fixed part of an encoded state: four flag bytes, the
/// preferred shard and the number of served shards.
pub const HEADER_LEN: usize = 12;

pub open spec fn bool_byte(b: bool) -> u8 {
    if b {
        1u8
    } else {
        0u8
    }
}

/// A 32-bit integer as four bytes, most significant first.
pub open spec fn be32(x: u32) -> Seq<u8> {
    seq![(x >> 24u32) as u8, (x >> 16u32) as u8, (x >> 8u32) as u8, x as u8]
}

/// The integer that four bytes, most significant first, stand for.
pub open spec fn from_be32(b0: u8, b1: u8, b2: u8, b3: u8) -> u32 {
    ((b0 as u32) << 24u32) | ((b1 as u32) << 16u32) | ((b2 as u32) << 8u32) | (b3 as u32)
}

/// The served shards, four bytes each, in order.
pub open spec fn shards_bytes(s: Seq<u32>) -> Seq<u8>
    decreases s.len(),
{
    if s.len() == 0 {
        Seq::empty()
    } else {
        shards_bytes(s.drop_last()) + be32(s.last())
    }
}

/// The wire form of a state record: the flags `ready_to_serve`,
/// `direct_connect_healthy`, `gateway_v4_healthy`, `gateway_v6_healthy` as
/// one byte each (0 or 1), then the preferred shard, the number of served
/// shards and each served shard, as 32-bit integers, most significant byte
/// first.
pub open spec fn encoding(st: NodeState) -> Seq<u8> {
    seq![
        bool_byte(st.ready_to_serve),
        bool_byte(st.direct_connect_healthy),
        bool_byte(st.gateway_v4_healthy),
        bool_byte(st.gateway_v6_healthy),
    ] + be32(st.preferred_serving_shard) + be32(st.serving_shards@.len() as u32) + shards_bytes(
        st.serving_shards@,
    )
}

/// Whether the state fits the wire form: at most `u32::MAX` served shards.
pub open spec fn encodable(st: NodeState) -> bool {
    st.serving_shards@.len() <= u32::MAX
}

pub proof fn lemma_be32_round_trip(x: u32)
    ensures
        from_be32((x >> 24u32) as u8, (x >> 16u32) as u8, (x >> 8u32) as u8, x as u8) == x,
{
    assert(((((x >> 24u32) as u8) as u32) << 24u32) | ((((x >> 16u32) as u8) as u32) << 16u32) | ((((x
        >> 8u32) as u8) as u32) << 8u32) | (((x as u8) as u32)) == x) by (bit_vector);
}

pub proof fn lemma_bytes_round_trip(b0: u8, b1: u8, b2: u8, b3: u8)
    ensures
        be32(from_be32(b0, b1, b2, b3)) == seq![b0, b1, b2, b3],
{
    let x = from_be32(b0, b1, b2, b3);
    assert((x >> 24u32) as u8 == b0 && (x >> 16u32) as u8 == b1 && (x >> 8u32) as u8 == b2 && x as u8 == b3)
        by (bit_vector)
        requires
            x == ((b0 as u32) << 24u32) | ((b1 as u32) << 16u32) | ((b2 as u32) << 8u32) | (b3 as u32),
    ;
    assert(be32(x) =~= seq![b0, b1, b2, b3]);
}

pub proof fn lemma_shards_bytes_len(s: Seq<u32>)
    ensures
        shards_bytes(s).len() == 4 * s.len(),
    decreases s.len(),
{
    if s.len() > 0 {
        lemma_shards_bytes_len(s.drop_last());
    }
}

/// The four bytes at position `4 * k` of the wire form of `s` are `s[k]`.
pub proof fn lemma_shards_bytes_at(s: Seq<u32>, k: int)
    requires
        0 <= k < s.len(),
    ensures
        shards_bytes(s).subrange(4 * k, 4 * k + 4) == be32(s[k]),
    decreases s.len(),
{
    lemma_shards_bytes_len(s.drop_last());
    if k < s.len() - 1 {
        lemma_shards_bytes_at(s.drop_last(), k);
        assert(shards_bytes(s).subrange(4 * k, 4 * k + 4) =~= shards_bytes(s.drop_last()).subrange(
            4 * k,
            4 * k + 4,
        ));
    } else {
        assert(shards_bytes(s).subrange(4 * k, 4 * k + 4) =~= be32(s.last()));
    }
}

/// Encodes a state record into its wire form.
pub fn encode_state(st: &NodeState) -> (r: Vec<u8>)
    requires
        encodable(*st),
    ensures
        r@ == encoding(*st),
{
    let mut out: Vec<u8> = Vec::new();
    out.push(if st.ready_to_serve { 1u8 } else { 0u8 });
    out.push(if st.direct_connect_healthy { 1u8 } else { 0u8 });
    out.push(if st.gateway_v4_healthy { 1u8 } else { 0u8 });
    out.push(if st.gateway_v6_healthy { 1u8 } else { 0u8 });
    push_be32(&mut out, st.preferred_serving_shard);
    push_be32(&mut out, st.serving_shards.len() as u32);
    let ghost head = out@;
    let mut i: usize = 0;
    while i < st.serving_shards.len()
        invariant
            i <= st.serving_shards.len(),
            out@ == head + shards_bytes(st.serving_shards@.take(i as int)),
        decreases st.serving_shards.len() - i,
    {
        push_be32(&mut out, st.serving_shards[i]);
        proof {
            let t = st.serving_shards@.take(i + 1);
            assert(t.drop_last() =~= st.serving_shards@.take(i as int));
        }
        i = i + 1;
    }
    proof {
        assert(st.serving_shards@.take(i as int) =~= st.serving_shards@);
        assert(out@ =~= encoding(*st));
    }
    out
}

fn push_be32(out: &mut Vec<u8>, x: u32)
    ensures
        final(out)@ == old(out)@ + be32(x),
{
    out.push((x >> 24u32) as u8);
    out.push((x >> 16u32) as u8);
    out.push((x >> 8u32) as u8);
    out.push(x as u8);
    assert(final(out)@ =~= old(out)@ + be32(x));
}

fn read_be32(b: &[u8], at: usize) -> (r: u32)
    requires
        at + 4 <= b@.len(),
    ensures
        r == from_be32(b@[at as int], b@[at + 1], b@[at + 2], b@[at + 3]),
        be32(r) == b@.subrange(at as int, at + 4),
{
    proof {
        lemma_bytes_round_trip(b@[at as int], b@[at + 1], b@[at + 2], b@[at + 3]);
        assert(b@.subrange(at as int, at + 4) =~= seq![b@[at as int], b@[at + 1], b@[at + 2], b@[at + 3]]);
    }
    ((b[at] as u32) << 24u32) | ((b[at + 1] as u32) << 16u32) | ((b[at + 2] as u32) << 8u32) | (b[at
        + 3] as u32)
}

fn read_flag(b: u8) -> (r: Option<bool>)
    ensures
        r is Some <==> (b == 0 || b == 1),
        r matches Some(f) ==> bool_byte(f) == b,
{
    if b == 0 {
        Some(false)
    } else if b == 1 {
        Some(true)
    } else {
        None
    }
}

/// Decodes the wire form of a state record. Succeeds exactly on the bytes
/// that encode some record, and then returns a record with that encoding.
pub fn decode_state(bytes: &[u8]) -> (r: Option<NodeState>)
    ensures
        r is Some <==> exists|st: NodeState| encodable(st) && encoding(st) == bytes@,
        r matches Some(st) ==> encodable(st) && encoding(st) == bytes@,
{
    if bytes.len() < HEADER_LEN {
        proof {
            assert forall|st: NodeState| encodable(st) implies encoding(st) != bytes@ by {
                if encoding(st) == bytes@ {
                    assert(encoding(st).len() >= 12);
                }
            }
        }
        return None;
    }
    let f0 = read_flag(bytes[0]);
    let f1 = read_flag(bytes[1]);
    let f2 = read_flag(bytes[2]);
    let f3 = read_flag(bytes[3]);
    let preferred = read_be32(bytes, 4);
    let count = read_be32(bytes, 8);
    let need: u64 = 12 + 4 * (count as u64);
    if f0.is_none() || f1.is_none() || f2.is_none() || f3.is_none() || bytes.len() as u64 != need {
        proof {
            assert forall|st: NodeState| encodable(st) implies encoding(st) != bytes@ by {
                if encoding(st) == bytes@ {
                    let e = encoding(st);
                    lemma_shards_bytes_len(st.serving_shards@);
                    assert(e[0] == bool_byte(st.ready_to_serve));
                    assert(e[1] == bool_byte(st.direct_connect_healthy));
                    assert(e[2] == bool_byte(st.gateway_v4_healthy));
                    assert(e[3] == bool_byte(st.gateway_v6_healthy));
                    assert(bytes@.subrange(8, 12) =~= be32(st.serving_shards@.len() as u32));
                    lemma_be32_round_trip(st.serving_shards@.len() as u32);
                }
            }
        }
        return None;
    }
    assert(bytes@.len() == bytes.len());
    let mut shards: Vec<u32> = Vec::new();
    let mut k: usize = 0;
    while k < count as usize
        invariant
            bytes@.len() == 12 + 4 * (count as int),
            bytes@.len() <= usize::MAX,
            k <= count,
            shards@.len() == k,
            shards_bytes(shards@) == bytes@.subrange(12, 12 + 4 * (k as int)),
        decreases count - k,
    {
        let x = read_be32(bytes, 12 + 4 * k);
        proof {
            assert(shards@.push(x).drop_last() =~= shards@);
            assert(bytes@.subrange(12, 12 + 4 * (k as int) + 4) =~= bytes@.subrange(12, 12 + 4 * (k as int))
                + bytes@.subrange(12 + 4 * (k as int), 12 + 4 * (k as int) + 4));
        }
        shards.push(x);
        k = k + 1;
    }
    let st = NodeState {
        ready_to_serve: f0.unwrap(),
        direct_connect_healthy: f1.unwrap(),
        gateway_v4_healthy: f2.unwrap(),
        gateway_v6_healthy: f3.unwrap(),
        preferred_serving_shard: preferred,
        serving_shards: shards,
    };
    proof {
        assert(bytes@.subrange(4, 8) =~= seq![bytes@[4], bytes@[5], bytes@[6], bytes@[7]]);
        assert(bytes@ =~= seq![bytes@[0], bytes@[1], bytes@[2], bytes@[3]] + bytes@.subrange(4, 8)
            + bytes@.subrange(8, 12) + bytes@.subrange(12, bytes@.len() as int));
        assert(encoding(st) =~= bytes@);
    }
    Some(st)
}

/// Two records with the same wire form agree field by field: what
/// `decode_state` returns for the output of `encode_state` is the record that
/// was encoded.
pub proof fn lemma_encoding_injective(a: NodeState, b: NodeState)
    requires
        encodable(a),
        encodable(b),
        encoding(a) == encoding(b),
    ensures
        a.ready_to_serve == b.ready_to_serve,
        a.direct_connect_healthy == b.direct_connect_healthy,
        a.gateway_v4_healthy == b.gateway_v4_healthy,
        a.gateway_v6_healthy == b.gateway_v6_healthy,
        a.preferred_serving_shard == b.preferred_serving_shard,
        a.serving_shards@ == b.serving_shards@,
{
    let ea = encoding(a);
    let eb = encoding(b);
    assert(ea[0] == eb[0] && ea[1] == eb[1] && ea[2] == eb[2] && ea[3] == eb[3]);
    assert(ea.subrange(4, 8) =~= be32(a.preferred_serving_shard));
    assert(eb.subrange(4, 8) =~= be32(b.preferred_serving_shard));
    lemma_be32_round_trip(a.preferred_serving_shard);
    lemma_be32_round_trip(b.preferred_serving_shard);
    assert(ea.subrange(8, 12) =~= be32(a.serving_shards@.len() as u32));
    assert(eb.subrange(8, 12) =~= be32(b.serving_shards@.len() as u32));
    lemma_be32_round_trip(a.serving_shards@.len() as u32);
    lemma_be32_round_trip(b.serving_shards@.len() as u32);
    let sa = a.serving_shards@;
    let sb = b.serving_shards@;
    assert(sa.len() == sb.len());
    assert(ea.subrange(12, ea.len() as int) =~= shards_bytes(sa));
    assert(eb.subrange(12, eb.len() as int) =~= shards_bytes(sb));
    lemma_shards_bytes_len(sa);
    assert forall|k: int| 0 <= k < sa.len() implies sa[k] == sb[k] by {
        lemma_shards_bytes_at(sa, k);
        lemma_shards_bytes_at(sb, k);
        let w = shards_bytes(sa).subrange(4 * k, 4 * k + 4);
        lemma_be32_round_trip(sa[k]);
        lemma_be32_round_trip(sb[k]);
        assert(w[0] == be32(sb[k])[0] && w[1] == be32(sb[k])[1] && w[2] == be32(sb[k])[2] && w[3] == be32(
            sb[k],
        )[3]);
    }
    assert(sa =~= sb);
}

} // verus!
