//! The line-buffering decode loop. Bytes arrive in chunks of whatever size
//! the stream hands out; the reader accumulates them into lines, attempts to
//! decode each completed line as a response envelope, and reports the first
//! line that decodes. Undecodable lines are skipped silently, and a line may
//! arrive split across any number of chunks.

use vstd::prelude::*;

use crate::models::PayloadKind;
use crate::wire::Response;
use crate::wire::line_decodes;
use crate::wire::response_matches;
use crate::wire::try_decode;

verus! {

/// The newline byte that terminates every wire line.
pub const LINE_FEED: u8 = 10;

/// The index of the first newline byte of `chunk` at or after `start`, or
/// `chunk.len()` where there is none.
pub open spec fn lf_index(chunk: Seq<u8>, start: int) -> int
    decreases chunk.len() - start
{
    if start < 0 || start >= chunk.len() {
        chunk.len() as int
    } else if chunk[start] == LINE_FEED {
        start
    } else {
        lf_index(chunk, start + 1)
    }
}

/// What `lf_index` finds: either there is no newline at or after `start`, or
/// the result is the position of the first one.
pub proof fn lemma_lf_index_characterizes(chunk: Seq<u8>, start: int)
    requires
        0 <= start <= chunk.len(),
    ensures
        start <= lf_index(chunk, start) <= chunk.len(),
        lf_index(chunk, start) < chunk.len() ==> chunk[lf_index(chunk, start)] == LINE_FEED,
        forall|i: int|
            start <= i < lf_index(chunk, start) ==> chunk[i] != LINE_FEED,
    decreases chunk.len() - start,
{
    if start < chunk.len() && chunk[start] != LINE_FEED {
        lemma_lf_index_characterizes(chunk, start + 1);
    }
}

/// Conversely, the position of the first newline determines `lf_index`.
pub proof fn lemma_lf_index_of_first(chunk: Seq<u8>, start: int, k: int)
    requires
        0 <= start <= k <= chunk.len(),
        forall|i: int| start <= i < k ==> chunk[i] != LINE_FEED,
        k < chunk.len() ==> chunk[k] == LINE_FEED,
    ensures
        k < chunk.len() ==> lf_index(chunk, start) == k,
        k == chunk.len() ==> lf_index(chunk, start) == chunk.len(),
    decreases k - start,
{
    if start < k {
        lemma_lf_index_of_first(chunk, start + 1, k);
    }
}

/// What one call of the reader does with one chunk.
pub ghost enum FeedStep {
    /// No line both completed and decoded; the reader now holds this partial
    /// line and the caller must read more bytes.
    Pending(Seq<u8>),
    /// This line completed and decoded; the reader returns its response and
    /// whatever follows it in the chunk is discarded.
    Done(Seq<u8>),
}

/// The decode loop over one chunk, as a function: scan from `start` for a
/// newline, close the pending line there, try to decode it, and on failure
/// skip past the newline and carry on with an empty pending line. A chunk
/// that ends mid-line leaves the accumulated bytes pending.
pub open spec fn feed_spec(pending: Seq<u8>, chunk: Seq<u8>, start: int, kind: PayloadKind) -> FeedStep
    decreases chunk.len() - start
        when 0 <= start <= chunk.len()
        via feed_spec_decreases
{
    let li = lf_index(chunk, start);
    let line = pending + chunk.subrange(start, li);
    if li == chunk.len() && chunk[chunk.len() - 1] != LINE_FEED {
        FeedStep::Pending(line)
    } else if line_decodes(kind, line) {
        FeedStep::Done(line)
    } else if li == chunk.len() {
        FeedStep::Pending(line)
    } else {
        feed_spec(Seq::empty(), chunk, li + 1, kind)
    }
}

#[via_fn]
proof fn feed_spec_decreases(pending: Seq<u8>, chunk: Seq<u8>, start: int, kind: PayloadKind) {
    lemma_lf_index_characterizes(chunk, start);
}

proof fn lemma_feed_shift(pending: Seq<u8>, lead: Seq<u8>, chunk: Seq<u8>, start: int, kind: PayloadKind)
    requires
        chunk.len() >= 1,
        0 <= start <= chunk.len(),
    ensures
        feed_spec(pending, lead + chunk, lead.len() + start, kind)
            == feed_spec(pending, chunk, start, kind),
    decreases chunk.len() - start,
{
    let whole = lead + chunk;
    let li = lf_index(chunk, start);
    lemma_lf_index_characterizes(chunk, start);
    assert forall|i: int| lead.len() + start <= i < lead.len() + li implies whole[i]
        != LINE_FEED by {
        assert(whole[i] == chunk[i - lead.len()]);
    }
    if li < chunk.len() {
        assert(whole[lead.len() + li] == LINE_FEED);
        lemma_lf_index_of_first(whole, lead.len() + start, lead.len() + li);
    } else {
        lemma_lf_index_of_first(whole, lead.len() + start, whole.len() as int);
    }
    assert(lf_index(whole, lead.len() + start) == lead.len() + li);
    assert(whole.subrange(lead.len() + start, lead.len() + li) =~= chunk.subrange(start, li));
    assert(whole[whole.len() - 1] == chunk[chunk.len() - 1]);
    let line = pending + chunk.subrange(start, li);
    if li == chunk.len() && chunk[chunk.len() - 1] != LINE_FEED {
        assert(feed_spec(pending, whole, lead.len() + start, kind) == FeedStep::Pending(line));
    } else if line_decodes(kind, line) {
        assert(feed_spec(pending, whole, lead.len() + start, kind) == FeedStep::Done(line));
    } else if li == chunk.len() {
        assert(feed_spec(pending, whole, lead.len() + start, kind) == FeedStep::Pending(line));
    } else {
        lemma_feed_shift(Seq::empty(), lead, chunk, li + 1, kind);
    }
}

/// A chunk without a newline only accumulates: nothing is decoded and the
/// pending line grows by exactly that chunk.
pub proof fn lemma_feed_accumulates(pending: Seq<u8>, chunk: Seq<u8>, kind: PayloadKind)
    requires
        chunk.len() >= 1,
        forall|i: int| 0 <= i < chunk.len() ==> chunk[i] != LINE_FEED,
    ensures
        feed_spec(pending, chunk, 0, kind) == FeedStep::Pending(pending + chunk),
{
    lemma_lf_index_of_first(chunk, 0, chunk.len() as int);
    assert(chunk.subrange(0, chunk.len() as int) =~= chunk);
}

/// Splitting a delivery changes nothing: feeding a newline-free chunk and then
/// the rest of the bytes reaches exactly the outcome of feeding their
/// concatenation in one read. Applied across each boundary in turn, this
/// covers a line split over any number of reads at any offsets.
pub proof fn lemma_feed_split(pending: Seq<u8>, first: Seq<u8>, rest: Seq<u8>, kind: PayloadKind)
    requires
        rest.len() >= 1,
        forall|i: int| 0 <= i < first.len() ==> first[i] != LINE_FEED,
    ensures
        feed_spec(pending, first + rest, 0, kind) == feed_spec(pending + first, rest, 0, kind),
{
    let whole = first + rest;
    let lj = lf_index(rest, 0);
    lemma_lf_index_characterizes(rest, 0);
    assert forall|i: int| 0 <= i < first.len() + lj implies whole[i] != LINE_FEED by {
        if i >= first.len() {
            assert(whole[i] == rest[i - first.len()]);
        }
    }
    if lj < rest.len() {
        assert(whole[first.len() + lj] == LINE_FEED);
        lemma_lf_index_of_first(whole, 0, first.len() + lj);
    } else {
        lemma_lf_index_of_first(whole, 0, whole.len() as int);
    }
    assert(lf_index(whole, 0) == first.len() + lj);
    assert(whole.subrange(0, first.len() + lj) =~= first + rest.subrange(0, lj));
    assert(pending + (first + rest.subrange(0, lj)) =~= (pending + first) + rest.subrange(0, lj));
    assert(whole[whole.len() - 1] == rest[rest.len() - 1]);
    let line = (pending + first) + rest.subrange(0, lj);
    if lj == rest.len() && rest[rest.len() - 1] != LINE_FEED {
        assert(feed_spec(pending, whole, 0, kind) == FeedStep::Pending(line));
        assert(feed_spec(pending + first, rest, 0, kind) == FeedStep::Pending(line));
    } else if line_decodes(kind, line) {
        assert(feed_spec(pending, whole, 0, kind) == FeedStep::Done(line));
        assert(feed_spec(pending + first, rest, 0, kind) == FeedStep::Done(line));
    } else if lj == rest.len() {
        assert(feed_spec(pending, whole, 0, kind) == FeedStep::Pending(line));
        assert(feed_spec(pending + first, rest, 0, kind) == FeedStep::Pending(line));
    } else {
        lemma_feed_shift(Seq::empty(), first, rest, lj + 1, kind);
        assert(feed_spec(pending, whole, 0, kind) == feed_spec(
            Seq::empty(),
            whole,
            first.len() + lj + 1,
            kind,
        ));
        assert(feed_spec(pending + first, rest, 0, kind) == feed_spec(
            Seq::empty(),
            rest,
            lj + 1,
            kind,
        ));
    }
}

/// Undecodable lines are skipped without another read: a chunk carrying a
/// completed line that fails to decode and then one that decodes yields the
/// second line's response from that single chunk.
pub proof fn lemma_feed_skips_undecodable(
    pending: Seq<u8>,
    bad: Seq<u8>,
    good: Seq<u8>,
    kind: PayloadKind,
)
    requires
        forall|i: int| 0 <= i < bad.len() ==> bad[i] != LINE_FEED,
        forall|i: int| 0 <= i < good.len() ==> good[i] != LINE_FEED,
        !line_decodes(kind, pending + bad),
        line_decodes(kind, good),
    ensures
        feed_spec(pending, bad + seq![LINE_FEED] + good + seq![LINE_FEED], 0, kind)
            == FeedStep::Done(good),
{
    let chunk = bad + seq![LINE_FEED] + good + seq![LINE_FEED];
    assert(chunk.len() == bad.len() + good.len() + 2);
    assert(chunk[bad.len() as int] == LINE_FEED);
    assert forall|i: int| 0 <= i < bad.len() implies chunk[i] != LINE_FEED by {
        assert(chunk[i] == bad[i]);
    }
    lemma_lf_index_of_first(chunk, 0, bad.len() as int);
    assert(chunk.subrange(0, bad.len() as int) =~= bad);
    assert forall|i: int| bad.len() + 1 <= i < chunk.len() - 1 implies chunk[i]
        != LINE_FEED by {
        assert(chunk[i] == good[i - bad.len() - 1]);
    }
    assert(chunk[chunk.len() - 1] == LINE_FEED);
    lemma_lf_index_of_first(chunk, bad.len() + 1 as int, chunk.len() - 1);
    assert(chunk.subrange(bad.len() + 1 as int, chunk.len() - 1) =~= good);
    assert(Seq::empty() + good =~= good);
    assert(feed_spec(pending, chunk, 0, kind) == feed_spec(
        Seq::empty(),
        chunk,
        bad.len() + 1 as int,
        kind,
    ));
    assert(feed_spec(Seq::empty(), chunk, bad.len() + 1 as int, kind) == FeedStep::Done(good));
}

/// The index of the first newline of `buffer` at or after `start_index` and
/// before `total_size`, if any.
pub fn get_lf_index(buffer: &[u8], start_index: usize, total_size: usize) -> (r: Option<usize>)
    requires
        total_size <= buffer@.len(),
    ensures
        (match r {
            Some(idx) => idx < total_size && idx
                == lf_index(buffer@.subrange(0, total_size as int), start_index as int),
            None => lf_index(buffer@.subrange(0, total_size as int), start_index as int)
                == total_size,
        }),
{
    let ghost chunk = buffer@.subrange(0, total_size as int);
    let mut index: usize = start_index;
    while index < total_size
        invariant
            start_index <= index,
            total_size <= buffer@.len(),
            chunk == buffer@.subrange(0, total_size as int),
            lf_index(chunk, start_index as int) == lf_index(chunk, index as int),
        decreases total_size - index,
    {
        if buffer[index] == LINE_FEED {
            proof {
                assert(chunk[index as int] == LINE_FEED);
                assert(lf_index(chunk, index as int) == index as int);
            }
            return Some(index);
        }
        proof {
            assert(chunk[index as int] != LINE_FEED);
            assert(lf_index(chunk, index as int) == lf_index(chunk, index + 1 as int));
        }
        index = index + 1;
    }
    proof {
        assert(lf_index(chunk, index as int) == chunk.len());
    }
    None
}

/// Accumulates the bytes of the line currently being received. One reader
/// serves one request-response exchange: it starts empty, and once a response
/// is returned the rest of the chunk it came from is discarded with it.
pub struct ResponseReader {
    line: Vec<u8>,
}

impl ResponseReader {
    /// The bytes of the partial line accumulated so far.
    pub closed spec fn pending(&self) -> Seq<u8> {
        self.line@
    }

    /// A fresh reader with nothing accumulated.
    pub fn new() -> (r: ResponseReader)
        ensures
            r.pending() == Seq::<u8>::empty(),
    {
        ResponseReader { line: Vec::new() }
    }

    /// Feeds the reader the `size` bytes just read into `chunk`. Returns the
    /// response of the first line that completes and decodes, or `None` when
    /// the chunk is exhausted first, in which case the reader keeps the
    /// partial line and the caller must read again.
    pub fn feed(&mut self, chunk: &[u8], size: usize, kind: PayloadKind) -> (r: Option<Response>)
        requires
            1 <= size <= chunk@.len(),
        ensures
            (match r {
                None => feed_spec(old(self).pending(), chunk@.subrange(0, size as int), 0, kind)
                    matches FeedStep::Pending(p) && final(self).pending() == p,
                Some(resp) => feed_spec(old(self).pending(), chunk@.subrange(0, size as int), 0, kind)
                    matches FeedStep::Done(l) && response_matches(kind, l, resp),
            }),
    {
        let ghost chunk_s = chunk@.subrange(0, size as int);
        let mut start: usize = 0;
        loop
            invariant
                1 <= size,
                start <= size <= chunk@.len(),
                chunk_s == chunk@.subrange(0, size as int),
                feed_spec(old(self).pending(), chunk_s, 0, kind) == feed_spec(
                    self.line@,
                    chunk_s,
                    start as int,
                    kind,
                ),
            decreases size - start,
        {
            let line_index = match get_lf_index(chunk, start, size) {
                Some(idx) => idx,
                None => size,
            };
            proof {
                lemma_lf_index_characterizes(chunk_s, start as int);
                assert(lf_index(chunk_s, start as int) == line_index as int);
            }
            let ghost line_before = self.line@;
            let mut i: usize = start;
            while i < line_index
                invariant
                    start <= i <= line_index,
                    line_index <= size <= chunk@.len(),
                    chunk_s == chunk@.subrange(0, size as int),
                    self.line@ == line_before + chunk_s.subrange(start as int, i as int),
                decreases line_index - i,
            {
                self.line.push(chunk[i]);
                i = i + 1;
                proof {
                    assert(self.line@ =~= line_before + chunk_s.subrange(start as int, i as int));
                }
            }
            let ghost line_now = line_before + chunk_s.subrange(start as int, line_index as int);
            assert(self.line@ == line_now);

            if line_index == size && chunk[size - 1] != LINE_FEED {
                proof {
                    assert(chunk_s[size - 1] == chunk@[size - 1]);
                    assert(feed_spec(line_before, chunk_s, start as int, kind)
                        == FeedStep::Pending(line_now));
                }
                return None;
            }

            let decoded = try_decode(kind, self.line.as_slice());
            match decoded {
                Some(resp) => {
                    proof {
                        assert(chunk_s[size - 1] == chunk@[size - 1]);
                        assert(feed_spec(line_before, chunk_s, start as int, kind)
                            == FeedStep::Done(line_now));
                    }
                    return Some(resp);
                },
                None => {
                    if line_index == size {
                        proof {
                            assert(chunk_s[size - 1] == chunk@[size - 1]);
                            assert(feed_spec(line_before, chunk_s, start as int, kind)
                                == FeedStep::Pending(line_now));
                        }
                        return None;
                    }
                    proof {
                        assert(feed_spec(line_before, chunk_s, start as int, kind)
                            == feed_spec(Seq::empty(), chunk_s, line_index + 1, kind));
                    }
                    start = line_index + 1;
                    self.line.clear();
                    proof {
                        assert(self.line@ =~= Seq::<u8>::empty());
                    }
                },
            }
        }
    }
}

} // verus!
