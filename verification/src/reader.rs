//! Bounded line framing of the backend's stdout: one JSON Lines frame at a
//! time, never more than a fixed number of bytes, without losing or
//! duplicating bytes between frames.

use vstd::prelude::*;

verus! {

/// The longest backend stdout line accepted: 2 MiB.
pub const MAX_LINE: usize = 2097152;

/// A read from the underlying byte stream failed.
#[derive(Debug)]
pub struct ReadError;

/// Why a line could not be framed.
#[derive(Debug)]
pub enum LineError {
    /// The line is longer than the limit.
    LimitExceeded,
    /// The underlying stream failed.
    Read,
}

/// A buffered byte stream: it exposes a chunk of what is left and lets the
/// reader consume a prefix of it.
pub trait ChunkSource {
    /// The bytes not yet consumed, up to the end of the stream.
    spec fn pending(&self) -> Seq<u8>;

    /// Whether reads from this source never fail.
    spec fn infallible(&self) -> bool;

    /// A non-empty prefix of the pending bytes, or an empty chunk at the end
    /// of the stream. Consumes nothing.
    fn fill_buf(&mut self) -> (r: Result<Vec<u8>, ReadError>)
        ensures
            final(self).pending() == old(self).pending(),
            final(self).infallible() == old(self).infallible(),
            old(self).infallible() ==> r is Ok,
            r matches Ok(chunk) ==> {
                &&& chunk@.len() <= old(self).pending().len()
                &&& chunk@ == old(self).pending().take(chunk@.len() as int)
                &&& (chunk@.len() == 0 <==> old(self).pending().len() == 0)
            },
    ;

    /// Marks the first `n` pending bytes as read.
    fn consume(&mut self, n: usize)
        requires
            n <= old(self).pending().len(),
        ensures
            final(self).pending() == old(self).pending().skip(n as int),
            final(self).infallible() == old(self).infallible(),
    ;
}

/// The length of the first line of `s`, its newline included; all of `s` when
/// it holds no newline.
pub open spec fn line_len(s: Seq<u8>) -> nat
    decreases s.len(),
{
    if s.len() == 0 {
        0
    } else if s[0] == 10u8 {
        1
    } else {
        1 + line_len(s.drop_first())
    }
}

/// Splitting off a newline-free prefix does not change where the line ends.
proof fn lemma_line_len_after_prefix(p: Seq<u8>, j: int)
    requires
        0 <= j <= p.len(),
        forall|i: int| 0 <= i < j ==> p[i] != 10u8,
    ensures
        line_len(p) == j + line_len(p.skip(j)),
    decreases j,
{
    if j > 0 {
        assert(p[0] != 10u8);
        let q = p.drop_first();
        assert forall|i: int| 0 <= i < j - 1 implies q[i] != 10u8 by {
            assert(q[i] == p[i + 1]);
        }
        lemma_line_len_after_prefix(q, j - 1);
        assert(q.skip(j - 1) =~= p.skip(j));
    } else {
        assert(p.skip(0) =~= p);
    }
}

/// A line ends right after its first newline.
proof fn lemma_line_len_at_newline(p: Seq<u8>, j: int)
    requires
        0 <= j < p.len(),
        p[j] == 10u8,
        forall|i: int| 0 <= i < j ==> p[i] != 10u8,
    ensures
        line_len(p) == j + 1,
{
    lemma_line_len_after_prefix(p, j);
    assert(p.skip(j)[0] == 10u8);
}

/// The line is at least as long as any newline-free prefix.
pub proof fn lemma_line_len_bounds(p: Seq<u8>)
    ensures
        line_len(p) <= p.len(),
        p.len() > 0 ==> line_len(p) >= 1,
    decreases p.len(),
{
    if p.len() > 0 && p[0] != 10u8 {
        lemma_line_len_bounds(p.drop_first());
    }
}

/// Reads the next line of `reader`, newline included, refusing lines longer
/// than `limit` bytes. At the end of the stream it returns the unterminated
/// remainder, or `None` when nothing is left.
pub fn read_line_bounded<R: ChunkSource>(reader: &mut R, limit: usize) -> (r: Result<Option<Vec<u8>>, LineError>)
    ensures
        final(reader).infallible() == old(reader).infallible(),
        old(reader).infallible() ==> !(r matches Err(LineError::Read)),
        !(r matches Err(LineError::Read)) ==> {
            &&& (r matches Ok(None) <==> old(reader).pending().len() == 0)
            &&& (r matches Err(LineError::LimitExceeded) <==> line_len(old(reader).pending()) > limit)
        },
        r matches Ok(None) ==> final(reader).pending() == old(reader).pending(),
        r matches Ok(Some(line)) ==> {
            let n = line_len(old(reader).pending());
            &&& line@ == old(reader).pending().take(n as int)
            &&& final(reader).pending() == old(reader).pending().skip(n as int)
            &&& line@.len() <= limit
            &&& line@.len() > 0
        },
        r is Err ==> {
            let rest = final(reader).pending();
            let consumed = old(reader).pending().len() - rest.len();
            &&& rest.len() <= old(reader).pending().len()
            &&& rest == old(reader).pending().skip(consumed)
            &&& consumed <= limit
            &&& forall|i: int| 0 <= i < consumed ==> old(reader).pending()[i] != 10u8
        },
{
    let ghost s = reader.pending();
    let mut output: Vec<u8> = Vec::new();
    proof {
        assert(s.skip(0) =~= s);
        lemma_line_len_bounds(s);
    }
    loop
        invariant
            reader.infallible() == old(reader).infallible(),
            s == old(reader).pending(),
            output@.len() <= limit,
            output@.len() <= s.len(),
            output@ == s.take(output@.len() as int),
            reader.pending() == s.skip(output@.len() as int),
            forall|i: int| 0 <= i < output@.len() ==> s[i] != 10u8,
        decreases reader.pending().len(),
    {
        let ghost k = output@.len() as int;
        let chunk = match reader.fill_buf() {
            Ok(chunk) => chunk,
            Err(_) => {
                return Err(LineError::Read);
            },
        };
        proof {
            lemma_line_len_after_prefix(s, k);
        }
        if chunk.len() == 0 {
            proof {
                assert(s.skip(k).len() == 0);
                assert(output@ =~= s.take(line_len(s) as int));
            }
            if output.len() == 0 {
                return Ok(None);
            } else {
                return Ok(Some(output));
            }
        }
        let mut take: usize = 0;
        let mut complete = false;
        while take < chunk.len() && !complete
            invariant
                take <= chunk@.len(),
                complete ==> take < chunk@.len() && chunk@[take as int] == 10u8,
                forall|i: int| 0 <= i < take ==> chunk@[i] != 10u8,
            decreases chunk@.len() - take + (if complete { 0int } else { 1int }),
        {
            if chunk[take] == 10u8 {
                complete = true;
            } else {
                take = take + 1;
            }
        }
        if complete {
            take = take + 1;
        }
        let ghost p = s.skip(k);
        proof {
            assert forall|i: int| 0 <= i < chunk@.len() implies chunk@[i] == p[i] by {
                assert(chunk@[i] == p.take(chunk@.len() as int)[i]);
            }
            if complete {
                lemma_line_len_at_newline(p, take - 1);
            } else {
                lemma_line_len_after_prefix(p, take as int);
            }
        }
        if take > limit - output.len() {
            return Err(LineError::LimitExceeded);
        }
        let mut i: usize = 0;
        while i < take
            invariant
                i <= take <= chunk@.len(),
                output@.len() == k + i,
                output@ == s.take(k) + chunk@.take(i as int),
            decreases take - i,
        {
            output.push(chunk[i]);
            proof {
                assert(chunk@.take(i + 1) =~= chunk@.take(i as int).push(chunk@[i as int]));
            }
            i = i + 1;
        }
        reader.consume(take);
        proof {
            assert(output@ =~= s.take(k + take)) by {
                assert forall|j: int| 0 <= j < k + take implies output@[j] == s[j] by {
                    if j >= k {
                        assert(chunk@[j - k] == p[j - k]);
                    }
                }
            }
            assert(reader.pending() =~= s.skip(k + take));
            if !complete {
                assert forall|j: int| 0 <= j < k + take implies s[j] != 10u8 by {
                    if j >= k {
                        assert(s[j] == p[j - k]);
                        assert(chunk@[j - k] == p[j - k]);
                    }
                }
            }
        }
        if complete {
            return Ok(Some(output));
        }
    }
}

/// An in-memory byte stream that hands out chunks of at most `capacity`
/// bytes, as a buffered reader over a byte slice does.
pub struct SliceReader {
    data: Vec<u8>,
    position: usize,
    capacity: usize,
}

impl SliceReader {
    #[verifier::type_invariant]
    spec fn well_formed(self) -> bool {
        &&& self.position <= self.data@.len()
        &&& self.capacity > 0
    }

    /// A reader over `data` with the usual 8 KiB buffer.
    pub fn new(data: Vec<u8>) -> (r: SliceReader)
        ensures
            r.pending() == data@,
    {
        SliceReader::with_capacity(8192, data)
    }

    /// A reader over `data` whose chunks hold at most `capacity` bytes
    /// (a capacity of zero behaves as one).
    pub fn with_capacity(capacity: usize, data: Vec<u8>) -> (r: SliceReader)
        ensures
            r.pending() == data@,
    {
        let capacity = if capacity == 0 { 1 } else { capacity };
        let r = SliceReader { data, position: 0, capacity };
        proof {
            assert(r.data@.skip(0) =~= r.data@);
        }
        r
    }
}

impl ChunkSource for SliceReader {
    closed spec fn pending(&self) -> Seq<u8> {
        self.data@.skip(self.position as int)
    }

    open spec fn infallible(&self) -> bool {
        true
    }

    fn fill_buf(&mut self) -> (r: Result<Vec<u8>, ReadError>) {
        proof {
            use_type_invariant(&*self);
        }
        let rest = self.data.len() - self.position;
        let n = if rest < self.capacity { rest } else { self.capacity };
        let mut chunk: Vec<u8> = Vec::new();
        let mut i: usize = 0;
        while i < n
            invariant
                self.data@.len() <= usize::MAX,
                self.position + n <= self.data@.len(),
                i <= n,
                chunk@ == self.data@.subrange(self.position as int, self.position + i),
            decreases n - i,
        {
            chunk.push(self.data[self.position + i]);
            proof {
                assert(self.data@.subrange(self.position as int, self.position + i + 1) =~= self.data@.subrange(self.position as int, self.position + i).push(self.data@[self.position + i]));
            }
            i = i + 1;
        }
        proof {
            assert(chunk@ =~= self.data@.skip(self.position as int).take(n as int));
        }
        Ok(chunk)
    }

    fn consume(&mut self, n: usize) {
        proof {
            use_type_invariant(&*self);
        }
        let len = self.data.len();
        assert(self.position + n <= len);
        self.position = self.position + n;
        proof {
            assert(self.data@.skip(self.position as int) =~= old(self).data@.skip(old(self).position as int).skip(n as int));
        }
    }
}

} // verus!
