//! Splitting a chunked byte stream into line-feed terminated records.
use vstd::prelude::*;

verus! {

/// The byte that ends each record.
pub const DELIMITER: u8 = 10;

/// What feeding `bytes` to a splitter whose pending buffer is `pending`
/// produces: the completed records, in order, and the new pending buffer.
pub open spec fn feed(pending: Seq<u8>, bytes: Seq<u8>) -> (Seq<Seq<u8>>, Seq<u8>)
    decreases bytes.len(),
{
    if bytes.len() == 0 {
        (Seq::empty(), pending)
    } else {
        let prev = feed(pending, bytes.drop_last());
        let b = bytes.last();
        if b == DELIMITER {
            (prev.0.push(prev.1), Seq::empty())
        } else {
            (prev.0, prev.1.push(b))
        }
    }
}

/// The records of a whole stream `s` that are complete.
pub open spec fn records_of(s: Seq<u8>) -> Seq<Seq<u8>> {
    feed(Seq::empty(), s).0
}

/// The bytes of `s` after its last delimiter.
pub open spec fn trailing_of(s: Seq<u8>) -> Seq<u8> {
    feed(Seq::empty(), s).1
}

/// The bytes of all `chunks`, one after the other.
pub open spec fn concat_all(chunks: Seq<Seq<u8>>) -> Seq<u8>
    decreases chunks.len(),
{
    if chunks.len() == 0 {
        Seq::empty()
    } else {
        concat_all(chunks.drop_last()) + chunks.last()
    }
}

/// The views of a sequence of byte vectors.
pub open spec fn views(v: Seq<Vec<u8>>) -> Seq<Seq<u8>> {
    v.map_values(|r: Vec<u8>| r@)
}

/// Feeding two pieces one after the other is feeding their concatenation.
pub proof fn lemma_feed_concat(pending: Seq<u8>, x: Seq<u8>, y: Seq<u8>)
    ensures
        feed(pending, x + y) == (
            feed(pending, x).0 + feed(feed(pending, x).1, y).0,
            feed(feed(pending, x).1, y).1,
        ),
    decreases y.len(),
{
    let mid = feed(pending, x).1;
    if y.len() == 0 {
        assert(x + y =~= x);
        assert(feed(pending, x).0 + Seq::<Seq<u8>>::empty() =~= feed(pending, x).0);
    } else {
        assert((x + y).drop_last() =~= x + y.drop_last());
        assert((x + y).last() == y.last());
        lemma_feed_concat(pending, x, y.drop_last());
        let prev = feed(mid, y.drop_last());
        if y.last() == DELIMITER {
            assert(feed(pending, x).0 + prev.0.push(prev.1) =~= (feed(pending, x).0
                + prev.0).push(prev.1));
        }
    }
}

/// Splitting does not depend on where the chunk boundaries fall: the records
/// of `x` followed by `y` are the records of `x`, then those that the bytes
/// left over from `x` form with `y`; and so is what stays pending.
pub proof fn lemma_chunk_boundary_invariant(x: Seq<u8>, y: Seq<u8>)
    ensures
        records_of(x + y) == records_of(x) + feed(trailing_of(x), y).0,
        trailing_of(x + y) == feed(trailing_of(x), y).1,
{
    lemma_feed_concat(Seq::empty(), x, y);
}

/// Why a stream could not be split into whole records.
#[derive(Debug, Clone, PartialEq, Eq)]
pub enum FrameError {
    /// The stream ended in the middle of a record; the bytes are those of
    /// the unfinished record.
    Truncated(Vec<u8>),
}

/// A buffering splitter: it takes chunks of a byte stream and hands back
/// the records that they complete.
#[derive(Debug, Clone)]
pub struct FrameSplitter {
    buffer: Vec<u8>,
}

impl FrameSplitter {
    /// The bytes received that do not yet form a whole record.
    pub closed spec fn pending(&self) -> Seq<u8> {
        self.buffer@
    }

    /// A splitter that has received nothing.
    pub fn new() -> (r: FrameSplitter)
        ensures
            r.pending() == Seq::<u8>::empty(),
    {
        FrameSplitter { buffer: Vec::new() }
    }

    /// Takes the next chunk of the stream and returns, in order, the records
    /// that it completes; the rest is kept for the next chunk.
    pub fn push_chunk(&mut self, chunk: &[u8]) -> (r: Vec<Vec<u8>>)
        ensures
            (views(r@), final(self).pending()) == feed(old(self).pending(), chunk@),
    {
        let ghost start = self.buffer@;
        let mut out: Vec<Vec<u8>> = Vec::new();
        let mut i: usize = 0;
        assert(chunk@.take(0) =~= Seq::<u8>::empty());
        assert(views(out@) =~= Seq::<Seq<u8>>::empty());
        while i < chunk.len()
            invariant
                i <= chunk@.len(),
                (views(out@), self.buffer@) == feed(start, chunk@.take(i as int)),
            decreases chunk@.len() - i,
        {
            let b = chunk[i];
            assert(chunk@.take(i + 1).drop_last() =~= chunk@.take(i as int));
            assert(chunk@.take(i + 1).last() == b);
            if b == DELIMITER {
                let mut rec: Vec<u8> = Vec::new();
                std::mem::swap(&mut rec, &mut self.buffer);
                let ghost before = out@;
                out.push(rec);
                assert(views(out@) =~= views(before).push(rec@));
            } else {
                self.buffer.push(b);
            }
            i = i + 1;
        }
        assert(chunk@.take(i as int) =~= chunk@);
        out
    }

    /// Ends the stream: fine where no partial record is left, an error
    /// holding the partial record otherwise.
    pub fn finish(&self) -> (r: Result<(), FrameError>)
        ensures
            r is Ok <==> self.pending().len() == 0,
            r matches Err(FrameError::Truncated(rest)) ==> rest@ == self.pending(),
    {
        if self.buffer.len() == 0 {
            Ok(())
        } else {
            Err(FrameError::Truncated(self.buffer.clone()))
        }
    }
}

/// Splits a stream delivered as `chunks` into its records; fails where the
/// stream does not end with a delimiter.
pub fn split_records(chunks: &Vec<Vec<u8>>) -> (r: Result<Vec<Vec<u8>>, FrameError>)
    ensures
        ({
            let whole = concat_all(views(chunks@));
            &&& r is Ok <==> trailing_of(whole).len() == 0
            &&& r matches Ok(recs) ==> views(recs@) == records_of(whole)
            &&& r matches Err(FrameError::Truncated(rest)) ==> rest@ == trailing_of(whole)
        }),
{
    let ghost parts = views(chunks@);
    let mut splitter = FrameSplitter::new();
    let mut all: Vec<Vec<u8>> = Vec::new();
    let mut k: usize = 0;
    assert(concat_all(parts.take(0)) =~= Seq::<u8>::empty());
    assert(views(all@) =~= records_of(Seq::<u8>::empty()));
    while k < chunks.len()
        invariant
            k <= chunks@.len(),
            parts == views(chunks@),
            views(all@) == records_of(concat_all(parts.take(k as int))),
            splitter.pending() == trailing_of(concat_all(parts.take(k as int))),
        decreases chunks@.len() - k,
    {
        let ghost prefix = concat_all(parts.take(k as int));
        let mut recs = splitter.push_chunk(chunks[k].as_slice());
        assert(parts.take(k + 1).drop_last() =~= parts.take(k as int));
        assert(parts.take(k + 1).last() == chunks@[k as int]@);
        assert(concat_all(parts.take(k + 1)) == prefix
            + chunks@[k as int]@);
        proof {
            lemma_chunk_boundary_invariant(prefix, chunks@[k as int]@);
        }
        let ghost before = all@;
        let ghost got = recs@;
        all.append(&mut recs);
        assert(views(all@) =~= views(before) + views(got));
        k = k + 1;
    }
    assert(parts.take(k as int) =~= parts);
    match splitter.finish() {
        Ok(()) => Ok(all),
        Err(e) => Err(e),
    }
}

} // verus!
