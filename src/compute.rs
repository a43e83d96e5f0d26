//! Whole computations over bytes held in memory, and the laws they obey.
use crate::stream::{checksum_of, Checksummer, Phase, Strategy, StreamConsumer};
use vstd::prelude::*;
use vstd::string::StringSliceAdditionalSpecFns;

verus! {

/// The bytes of a sequence of segments, one after the other.
pub open spec fn joined(segments: Seq<Vec<u8>>) -> Seq<u8> {
    segments.map_values(|v: Vec<u8>| v@).flatten()
}

/// The checksum of `bytes`, fed to one digest in a single update.
pub fn checksum_bytes(s: Strategy, bytes: &[u8]) -> (r: u64)
    ensures
        r == checksum_of(s, bytes@),
{
    let mut c = Checksummer::new(s);
    c.update(bytes);
    assert(Seq::<u8>::empty() + bytes@ =~= bytes@);
    c.finalize()
}

/// The checksum of the segments' bytes in order, read one segment at a time
/// through a stream consumer. Empty segments carry no bytes and are passed
/// over: to the consumer an empty read ends the source.
pub fn checksum_segments(s: Strategy, segments: &Vec<Vec<u8>>) -> (r: u64)
    ensures
        r == checksum_of(s, joined(segments@)),
{
    let mut consumer = StreamConsumer::new(s);
    let ghost parts = segments@.map_values(|v: Vec<u8>| v@);
    proof {
        assert(parts.take(0) =~= Seq::<Seq<u8>>::empty());
    }
    let mut i: usize = 0;
    while i < segments.len()
        invariant
            i <= segments@.len(),
            parts == segments@.map_values(|v: Vec<u8>| v@),
            consumer.wf(),
            consumer.strategy() == s,
            consumer.phase() != Phase::Finalized,
            consumer.fed() == parts.take(i as int).flatten(),
        decreases segments@.len() - i,
    {
        let segment = &segments[i];
        proof {
            assert(parts.take(i + 1) =~= parts.take(i as int).push(segment@));
            parts.take(i as int).lemma_flatten_push(segment@);
        }
        if segment.len() > 0 {
            consumer.on_read(segment.as_slice());
        } else {
            assert(parts.take(i as int).flatten() + segment@ =~= parts.take(i as int).flatten());
        }
        i = i + 1;
    }
    proof {
        assert(parts.take(i as int) =~= parts);
    }
    let empty: Vec<u8> = Vec::new();
    consumer.on_read(empty.as_slice()).unwrap()
}

/// The accelerated checksum of a string's UTF-8 bytes.
pub fn calculate_crc_64_simd_from_string(input: &str) -> (r: u64)
    ensures
        r == checksum_of(Strategy::Accelerated, input.spec_bytes()),
{
    checksum_bytes(Strategy::Accelerated, input.as_bytes())
}

/// The reference checksum of a string's UTF-8 bytes.
pub fn calculate_crc_64_validate_from_string(input: &str) -> (r: u64)
    ensures
        r == checksum_of(Strategy::Reference, input.spec_bytes()),
{
    checksum_bytes(Strategy::Reference, input.as_bytes())
}

/// `bytes` cut into segments of `n` bytes each, the last one shorter.
pub open spec fn segments_of(bytes: Seq<u8>, n: nat) -> Seq<Seq<u8>>
    decreases bytes.len(),
{
    if n == 0 || bytes.len() == 0 {
        Seq::empty()
    } else if bytes.len() <= n {
        seq![bytes]
    } else {
        seq![bytes.take(n as int)] + segments_of(bytes.skip(n as int), n)
    }
}

/// Cutting `bytes` into segments of any positive size loses and reorders
/// nothing: the segments joined again are `bytes`.
pub proof fn lemma_segments_join(bytes: Seq<u8>, n: nat)
    requires
        n > 0,
    ensures
        segments_of(bytes, n).flatten() == bytes,
    decreases bytes.len(),
{
    let parts = segments_of(bytes, n);
    if bytes.len() == 0 {
        assert(bytes =~= Seq::<u8>::empty());
        assert(parts.flatten() == bytes);
    } else if bytes.len() <= n {
        assert(parts == seq![bytes]);
        assert(parts.first() == bytes);
        assert(parts.drop_first() =~= Seq::<Seq<u8>>::empty());
        assert(parts.drop_first().flatten() == Seq::<u8>::empty());
        assert(bytes + Seq::<u8>::empty() =~= bytes);
        assert(parts.flatten() == bytes);
    } else {
        let rest = segments_of(bytes.skip(n as int), n);
        lemma_segments_join(bytes.skip(n as int), n);
        assert(parts == seq![bytes.take(n as int)] + rest);
        assert(parts.first() == bytes.take(n as int));
        assert(parts.drop_first() =~= rest);
        assert(bytes.take(n as int) + bytes.skip(n as int) =~= bytes);
        assert(parts.flatten() == bytes);
    }
}

/// The segment size is no parameter of the checksum: whatever positive size a
/// source is read in, the segments give the checksum of the whole.
pub proof fn lemma_segment_size_irrelevant(s: Strategy, bytes: Seq<u8>, n: nat)
    requires
        n > 0,
    ensures
        checksum_of(s, segments_of(bytes, n).flatten()) == checksum_of(s, bytes),
{
    lemma_segments_join(bytes, n);
}

/// Splitting a byte sequence into segments at any boundaries, empty segments
/// included, changes no checksum: the segments read one by one give what the
/// whole sequence gives in one update.
pub proof fn lemma_chunking_invariance(s: Strategy, segments: Seq<Vec<u8>>, bytes: Seq<u8>)
    requires
        joined(segments) == bytes,
    ensures
        checksum_of(s, joined(segments)) == checksum_of(s, bytes),
{
}

/// A checksum depends on the strategy and the bytes alone: computing it again
/// over the same bytes, whatever the segments, gives the same value.
pub proof fn lemma_deterministic(s: Strategy, first: Seq<Vec<u8>>, second: Seq<Vec<u8>>)
    requires
        joined(first) == joined(second),
    ensures
        checksum_of(s, joined(first)) == checksum_of(s, joined(second)),
{
}

} // verus!
