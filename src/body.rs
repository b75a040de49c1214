//! Bounded reading of a request body: chunks are taken in until the body
//! would exceed the configured maximum, at which point reading stops.
use vstd::prelude::*;
use crate::error::EchoError;

verus! {

/// What reading a body stream gives: `items` are the stream's events in
/// order, each a chunk of bytes or a transport failure. Reading stops at the
/// first failure, or at the first chunk that would take the body past `max`.
pub open spec fn read_outcome(max: nat, items: Seq<Result<Vec<u8>, String>>) -> Result<Seq<u8>, EchoError>
    decreases items.len(),
{
    if items.len() == 0 {
        Ok(Seq::empty())
    } else {
        match read_outcome(max, items.drop_last()) {
            Err(e) => Err(e),
            Ok(b) => match items.last() {
                Err(m) => Err(EchoError::BodyReadError(m)),
                Ok(c) => if b.len() + c@.len() > max {
                    Err(EchoError::BodyTooLarge)
                } else {
                    Ok(b + c@)
                },
            },
        }
    }
}

/// Number of bytes in the chunks of `items`.
pub open spec fn total_len(items: Seq<Result<Vec<u8>, String>>) -> nat
    decreases items.len(),
{
    if items.len() == 0 {
        0
    } else {
        total_len(items.drop_last()) + match items.last() {
            Ok(c) => c@.len(),
            Err(_) => 0,
        }
    }
}

/// Every event of `items` is a chunk: the stream did not fail.
pub open spec fn all_chunks(items: Seq<Result<Vec<u8>, String>>) -> bool {
    forall|i: int| 0 <= i < items.len() ==> (#[trigger] items[i]) is Ok
}

/// Accumulates a body chunk by chunk, never holding more than its limit.
pub struct BodyReader {
    max_body_size: usize,
    buf: Vec<u8>,
}

impl BodyReader {
    /// The configured maximum number of bytes.
    pub closed spec fn limit(&self) -> nat {
        self.max_body_size as nat
    }

    /// The bytes taken in so far.
    pub closed spec fn received(&self) -> Seq<u8> {
        self.buf@
    }

    pub closed spec fn wf(&self) -> bool {
        self.buf@.len() <= self.max_body_size
    }

    pub fn new(max_body_size: usize) -> (r: BodyReader)
        ensures
            r.wf(),
            r.limit() == max_body_size,
            r.received() == Seq::<u8>::empty(),
    {
        BodyReader { max_body_size, buf: Vec::new() }
    }

    /// Takes in one chunk. Fails with `BodyTooLarge`, keeping nothing of the
    /// chunk, exactly when the body would then exceed the limit.
    pub fn push_chunk(&mut self, chunk: &[u8]) -> (r: Result<(), EchoError>)
        requires
            old(self).wf(),
        ensures
            final(self).wf(),
            final(self).limit() == old(self).limit(),
            r is Err <==> old(self).received().len() + chunk@.len() > old(self).limit(),
            r is Err ==> r == Err::<(), EchoError>(EchoError::BodyTooLarge) && final(self).received()
                == old(self).received(),
            r is Ok ==> final(self).received() == old(self).received() + chunk@,
    {
        if chunk.len() > self.max_body_size - self.buf.len() {
            return Err(EchoError::BodyTooLarge);
        }
        let mut i: usize = 0;
        let ghost start = self.buf@;
        while i < chunk.len()
            invariant
                i <= chunk@.len(),
                self.max_body_size == old(self).max_body_size,
                start == old(self).buf@,
                start.len() + chunk@.len() <= self.max_body_size,
                self.buf@ == start + chunk@.subrange(0, i as int),
            decreases chunk@.len() - i,
        {
            self.buf.push(chunk[i]);
            assert(chunk@.subrange(0, i + 1) =~= chunk@.subrange(0, i as int).push(chunk@[i as int]));
            i = i + 1;
        }
        assert(chunk@.subrange(0, chunk@.len() as int) =~= chunk@);
        Ok(())
    }

    /// The whole body read so far.
    pub fn finish(self) -> (r: Vec<u8>)
        ensures
            r@ == self.received(),
    {
        self.buf
    }
}

/// Reads the events of a body stream into the body, within `max_body_size`.
pub fn read_body(items: &Vec<Result<Vec<u8>, String>>, max_body_size: usize) -> (r: Result<Vec<u8>, EchoError>)
    ensures
        match r {
            Ok(b) => read_outcome(max_body_size as nat, items@) == Ok::<Seq<u8>, EchoError>(b@),
            Err(e) => read_outcome(max_body_size as nat, items@) == Err::<Seq<u8>, EchoError>(e),
        },
{
    let mut reader = BodyReader::new(max_body_size);
    let mut i: usize = 0;
    while i < items.len()
        invariant
            i <= items@.len(),
            reader.wf(),
            reader.limit() == max_body_size,
            read_outcome(max_body_size as nat, items@.subrange(0, i as int)) == Ok::<Seq<u8>, EchoError>(reader.received()),
        decreases items@.len() - i,
    {
        assert(items@.subrange(0, i + 1).drop_last() =~= items@.subrange(0, i as int));
        match &items[i] {
            Ok(chunk) => {
                match reader.push_chunk(chunk.as_slice()) {
                    Ok(()) => {},
                    Err(e) => {
                        proof { lemma_outcome_err_sticks(max_body_size as nat, items@, i + 1); }
                        return Err(e);
                    },
                }
            },
            Err(m) => {
                proof { lemma_outcome_err_sticks(max_body_size as nat, items@, i + 1); }
                return Err(EchoError::BodyReadError(m.clone()));
            },
        }
        i = i + 1;
    }
    assert(items@.subrange(0, items@.len() as int) =~= items@);
    Ok(reader.finish())
}

/// Once reading a prefix of the stream has failed, reading the whole stream
/// fails in the same way.
proof fn lemma_outcome_err_sticks(max: nat, items: Seq<Result<Vec<u8>, String>>, n: int)
    requires
        0 <= n <= items.len(),
        read_outcome(max, items.subrange(0, n)) is Err,
    ensures
        read_outcome(max, items) == read_outcome(max, items.subrange(0, n)),
    decreases items.len() - n,
{
    if n < items.len() {
        assert(items.subrange(0, n + 1).drop_last() =~= items.subrange(0, n));
        lemma_outcome_err_sticks(max, items, n + 1);
    } else {
        assert(items.subrange(0, n) =~= items);
    }
}

/// A successful read holds every byte of the stream's chunks.
pub proof fn lemma_read_ok_len(max: nat, items: Seq<Result<Vec<u8>, String>>)
    ensures
        read_outcome(max, items) matches Ok(b) ==> b.len() == total_len(items),
    decreases items.len(),
{
    if items.len() > 0 {
        lemma_read_ok_len(max, items.drop_last());
    }
}

/// A body of at most `max` bytes is never refused as too large.
pub proof fn lemma_within_limit_never_too_large(max: nat, items: Seq<Result<Vec<u8>, String>>)
    requires
        total_len(items) <= max,
    ensures
        read_outcome(max, items) != Err::<Seq<u8>, EchoError>(EchoError::BodyTooLarge),
    decreases items.len(),
{
    if items.len() > 0 {
        lemma_within_limit_never_too_large(max, items.drop_last());
        lemma_read_ok_len(max, items.drop_last());
    }
}

/// A stream that does not fail and carries more than `max` bytes is refused
/// as too large, whatever the bytes are.
pub proof fn lemma_over_limit_too_large(max: nat, items: Seq<Result<Vec<u8>, String>>)
    requires
        all_chunks(items),
        total_len(items) > max,
    ensures
        read_outcome(max, items) == Err::<Seq<u8>, EchoError>(EchoError::BodyTooLarge),
    decreases items.len(),
{
    let prefix = items.drop_last();
    assert(all_chunks(prefix)) by {
        assert forall|i: int| 0 <= i < prefix.len() implies (#[trigger] prefix[i]) is Ok by {
            assert(prefix[i] == items[i]);
        }
    }
    assert(items[items.len() - 1] is Ok);
    lemma_read_ok_len(max, prefix);
    if total_len(prefix) > max {
        lemma_over_limit_too_large(max, prefix);
    } else {
        lemma_no_failure_only_too_large(max, prefix);
    }
}

/// Reading a stream that does not fail ends in its bytes or in `BodyTooLarge`.
proof fn lemma_no_failure_only_too_large(max: nat, items: Seq<Result<Vec<u8>, String>>)
    requires
        all_chunks(items),
    ensures
        read_outcome(max, items) is Ok || read_outcome(max, items) == Err::<Seq<u8>, EchoError>(
            EchoError::BodyTooLarge,
        ),
    decreases items.len(),
{
    if items.len() > 0 {
        let prefix = items.drop_last();
        assert(all_chunks(prefix)) by {
            assert forall|i: int| 0 <= i < prefix.len() implies (#[trigger] prefix[i]) is Ok by {
                assert(prefix[i] == items[i]);
            }
        }
        assert(items[items.len() - 1] is Ok);
        lemma_no_failure_only_too_large(max, prefix);
    }
}

} // verus!
