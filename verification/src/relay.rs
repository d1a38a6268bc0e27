use vstd::prelude::*;

verus! {

/// Size of the buffer each direction of a relay reads into.
pub const RELAY_BUFFER_SIZE: usize = 0x2000;

/// What a relay forwards after a read that returned the bytes `read`:
/// nothing, and the relay ends, at end of stream (no byte); otherwise those
/// bytes.
pub open spec fn forwarded(read: Seq<u8>) -> Option<Seq<u8>> {
    if read.len() == 0 {
        None
    } else {
        Some(read)
    }
}

/// What a relay forwards over a sequence of reads, in order: the forwarded
/// bytes of each read up to the first one that ends the stream.
pub open spec fn relayed(reads: Seq<Seq<u8>>) -> Seq<u8>
    decreases reads.len(),
{
    if reads.len() == 0 {
        Seq::empty()
    } else {
        match forwarded(reads[0]) {
            None => Seq::empty(),
            Some(bytes) => bytes + relayed(reads.drop_first()),
        }
    }
}

/// How many of `reads` come before the first one that returns no byte.
pub open spec fn reads_before_end(reads: Seq<Seq<u8>>) -> nat
    decreases reads.len(),
{
    if reads.len() == 0 || reads[0].len() == 0 {
        0
    } else {
        1 + reads_before_end(reads.drop_first())
    }
}

/// What a relay forwards after a read of `len` bytes into `buf`: nothing, and
/// the relay ends, when the read returned no byte (end of stream); otherwise
/// exactly the bytes read.
pub fn relay_chunk(buf: &[u8], len: usize) -> (chunk: Option<&[u8]>)
    requires
        len <= buf@.len(),
    ensures
        chunk is None <==> len == 0,
        chunk matches Some(bytes) ==> bytes@ == buf@.take(len as int),
        forwarded(buf@.take(len as int)) == match chunk {
            Some(bytes) => Some(bytes@),
            None => None::<Seq<u8>>,
        },
{
    if len == 0 {
        None
    } else {
        Some(&buf[0..len])
    }
}

/// A relay session forwards exactly the bytes read, in the order read, up to
/// the end of the stream, and nothing read after it.
pub proof fn lemma_relay_forwards_stream(reads: Seq<Seq<u8>>)
    ensures
        reads_before_end(reads) <= reads.len(),
        relayed(reads) == reads.take(reads_before_end(reads) as int).flatten(),
        forall|more: Seq<Seq<u8>>| reads_before_end(reads) < reads.len()
            ==> #[trigger] relayed(reads + more) == relayed(reads),
    decreases reads.len(),
{
    if reads.len() == 0 {
        assert(reads.take(0) =~= Seq::<Seq<u8>>::empty());
        assert forall|more: Seq<Seq<u8>>| reads_before_end(reads) < reads.len()
            implies #[trigger] relayed(reads + more) == relayed(reads) by {}
    } else if reads[0].len() == 0 {
        assert(reads.take(0) =~= Seq::<Seq<u8>>::empty());
        assert forall|more: Seq<Seq<u8>>| reads_before_end(reads) < reads.len()
            implies #[trigger] relayed(reads + more) == relayed(reads) by {
            assert((reads + more)[0] == reads[0]);
        }
    } else {
        let rest = reads.drop_first();
        lemma_relay_forwards_stream(rest);
        let n = reads_before_end(reads) as int;
        assert(reads.take(n).drop_first() =~= rest.take(n - 1));
        assert(reads.take(n).first() == reads[0]);
        assert forall|more: Seq<Seq<u8>>| reads_before_end(reads) < reads.len()
            implies #[trigger] relayed(reads + more) == relayed(reads) by {
            assert((reads + more)[0] == reads[0]);
            assert((reads + more).drop_first() =~= rest + more);
            assert(relayed(rest + more) == relayed(rest));
        }
    }
}

} // verus!
