//! Byte queues read through a caller's buffer: the feedable reader on the
//! receiving side, and the encoded-stream buffers filled by an encoder.
use std::collections::VecDeque;
use vstd::prelude::*;

verus! {

/// The smaller of two lengths.
pub open spec fn min_len(a: int, b: int) -> int {
    if a < b {
        a
    } else {
        b
    }
}

/// Reading into a buffer of `room` bytes from queue `q`: how many bytes move.
pub open spec fn read_count(q: Seq<u8>, room: int) -> int {
    min_len(room, q.len() as int)
}

/// `after` is `before` with its first `n` bytes replaced by the first `n`
/// bytes of `q`.
pub open spec fn filled(before: Seq<u8>, after: Seq<u8>, q: Seq<u8>, n: int) -> bool {
    &&& after.len() == before.len()
    &&& after.subrange(0, n) == q.subrange(0, n)
    &&& after.subrange(n, after.len() as int) == before.subrange(n, before.len() as int)
}

/// Moves as many bytes as fit from the front of `queue` into `buf`.
fn drain_into(queue: &mut VecDeque<u8>, buf: &mut [u8]) -> (n: usize)
    ensures
        n == read_count(old(queue)@, old(buf)@.len() as int),
        filled(old(buf)@, final(buf)@, old(queue)@, n as int),
        final(queue)@ == old(queue)@.subrange(n as int, old(queue)@.len() as int),
{
    let n = if buf.len() < queue.len() {
        buf.len()
    } else {
        queue.len()
    };
    let ghost q0 = queue@;
    let ghost b0 = buf@;
    let mut i: usize = 0;
    while i < n
        invariant
            n == read_count(q0, b0.len() as int),
            0 <= i <= n,
            queue@ == q0.subrange(i as int, q0.len() as int),
            buf@.len() == b0.len(),
            forall|j: int| 0 <= j < i ==> buf@[j] == q0[j],
            forall|j: int| i <= j < b0.len() ==> buf@[j] == b0[j],
        decreases n - i,
    {
        match queue.pop_front() {
            Some(byte) => {
                buf[i] = byte;
            },
            None => {},
        }
        i = i + 1;
    }
    assert(buf@.subrange(0, n as int) =~= q0.subrange(0, n as int));
    assert(buf@.subrange(n as int, buf@.len() as int) =~= b0.subrange(n as int, b0.len() as int));
    n
}

/// Appends `data` to the back of `queue`.
fn push_all(queue: &mut VecDeque<u8>, data: &[u8])
    ensures
        final(queue)@ == old(queue)@ + data@,
{
    let mut i: usize = 0;
    while i < data.len()
        invariant
            0 <= i <= data@.len(),
            queue@ == old(queue)@ + data@.subrange(0, i as int),
        decreases data@.len() - i,
    {
        queue.push_back(data[i]);
        i = i + 1;
        assert(queue@ =~= old(queue)@ + data@.subrange(0, i as int));
    }
    assert(data@.subrange(0, data@.len() as int) =~= data@);
}

/// A reader that hands out, in order, the bytes fed into it.
pub struct FeedableReader {
    buffer: VecDeque<u8>,
}

impl View for FeedableReader {
    type V = Seq<u8>;

    closed spec fn view(&self) -> Seq<u8> {
        self.buffer@
    }
}

impl FeedableReader {
    /// A reader holding no byte.
    pub fn new() -> (r: Self)
        ensures
            r@ == Seq::<u8>::empty(),
    {
        FeedableReader { buffer: VecDeque::new() }
    }

    /// Feeds `data` behind the bytes already held.
    pub fn feed(&mut self, data: &[u8])
        ensures
            final(self)@ == old(self)@ + data@,
    {
        push_all(&mut self.buffer, data);
    }

    /// Moves as many held bytes as fit into `buf`, oldest first, and returns
    /// how many moved.
    pub fn read(&mut self, buf: &mut [u8]) -> (n: usize)
        ensures
            n == read_count(old(self)@, old(buf)@.len() as int),
            filled(old(buf)@, final(buf)@, old(self)@, n as int),
            final(self)@ == old(self)@.subrange(n as int, old(self)@.len() as int),
    {
        drain_into(&mut self.buffer, buf)
    }
}

/// Law: a read moves as many bytes as both the caller's buffer and the queue
/// allow: it fills the buffer when the queue holds enough, and empties the
/// queue otherwise; the bytes moved are the queue's first ones, in order, and
/// the rest of the buffer is left as it was.
pub proof fn law_read_fills_what_fits(
    q: Seq<u8>,
    before: Seq<u8>,
    after: Seq<u8>,
    n: int,
    i: int,
)
    ensures
        before.len() <= q.len() ==> read_count(q, before.len() as int) == before.len(),
        q.len() <= before.len() ==> read_count(q, before.len() as int) == q.len(),
        (filled(before, after, q, n) && 0 <= n <= before.len() && n <= q.len() && 0 <= i < n)
            ==> after[i] == q[i],
        (filled(before, after, q, n) && 0 <= n <= before.len() && n <= i < before.len())
            ==> after[i] == before[i],
{
    if filled(before, after, q, n) && 0 <= n <= before.len() && n <= q.len() && 0 <= i < n {
        assert(after.subrange(0, n)[i] == after[i]);
        assert(q.subrange(0, n)[i] == q[i]);
    }
    if filled(before, after, q, n) && 0 <= n <= before.len() && n <= i < before.len() {
        assert(after.subrange(n, after.len() as int)[i - n] == after[i]);
        assert(before.subrange(n, before.len() as int)[i - n] == before[i]);
    }
}

/// Law: successive reads hand out the held bytes in order, none twice: two
/// reads of `k1` and then `k2` bytes give what one read of `k1 + k2` bytes
/// would give.
pub proof fn law_reads_hand_out_bytes_in_order(q: Seq<u8>, k1: nat, k2: nat)
    ensures
        ({
            let n1 = read_count(q, k1 as int);
            let q1 = q.subrange(n1, q.len() as int);
            let n2 = read_count(q1, k2 as int);
            &&& n1 + n2 == read_count(q, (k1 + k2) as int)
            &&& q.subrange(0, n1) + q1.subrange(0, n2) == q.subrange(0, n1 + n2)
            &&& q1.subrange(n2, q1.len() as int) == q.subrange(n1 + n2, q.len() as int)
        }),
{
    let n1 = read_count(q, k1 as int);
    let q1 = q.subrange(n1, q.len() as int);
    let n2 = read_count(q1, k2 as int);
    assert(q.subrange(0, n1) + q1.subrange(0, n2) =~= q.subrange(0, n1 + n2));
    assert(q1.subrange(n2, q1.len() as int) =~= q.subrange(n1 + n2, q.len() as int));
}

/// Law: a read into a buffer with room for everything fed gives back exactly
/// what was fed and leaves the reader empty.
pub proof fn law_read_gives_back_what_was_fed(held: Seq<u8>, fed: Seq<u8>, room: nat)
    requires
        held.len() + fed.len() <= room,
    ensures
        ({
            let q = held + fed;
            &&& read_count(q, room as int) == q.len()
            &&& q.subrange(0, q.len() as int) == held + fed
            &&& q.subrange(q.len() as int, q.len() as int) == Seq::<u8>::empty()
        }),
{
    let q = held + fed;
    assert(q.subrange(0, q.len() as int) =~= held + fed);
    assert(q.subrange(q.len() as int, q.len() as int) =~= Seq::<u8>::empty());
}

/// What a read of an encoded stream reports.
#[derive(Debug, PartialEq, Eq, Structural)]
pub enum StreamRead {
    /// This many bytes were copied into the caller's buffer.
    Data(usize),
    /// The encoder has finished and every byte has been read.
    EndOfStream,
    /// Nothing to read yet: the encoder is still running.
    Pending,
}

/// The output side of the H.264 encoding stream: encoded bytes waiting to be
/// read, and whether the encoder has finished.
pub struct H264Stream {
    buffer: VecDeque<u8>,
    done: bool,
}

impl H264Stream {
    /// The bytes waiting to be read.
    pub closed spec fn pending(&self) -> Seq<u8> {
        self.buffer@
    }

    /// Whether the encoder has finished.
    pub closed spec fn is_done(&self) -> bool {
        self.done
    }

    /// A stream with no byte, its encoder running.
    pub fn new() -> (s: Self)
        ensures
            s.pending() == Seq::<u8>::empty(),
            !s.is_done(),
    {
        H264Stream { buffer: VecDeque::new(), done: false }
    }

    /// Appends an encoded NAL unit.
    pub fn push_encoded(&mut self, data: &[u8])
        ensures
            final(self).pending() == old(self).pending() + data@,
            final(self).is_done() == old(self).is_done(),
    {
        push_all(&mut self.buffer, data);
    }

    /// Records that the encoder has finished.
    pub fn finish(&mut self)
        ensures
            final(self).pending() == old(self).pending(),
            final(self).is_done(),
    {
        self.done = true;
    }

    /// Copies waiting bytes into `buf`; with none waiting, reports the end of
    /// the stream once the encoder has finished, and otherwise that the
    /// caller should wait.
    pub fn read(&mut self, buf: &mut [u8]) -> (r: StreamRead)
        ensures
            final(self).is_done() == old(self).is_done(),
            old(self).pending().len() > 0 ==> {
                let n = read_count(old(self).pending(), old(buf)@.len() as int);
                &&& r == StreamRead::Data(n as usize)
                &&& filled(old(buf)@, final(buf)@, old(self).pending(), n)
                &&& final(self).pending() == old(self).pending().subrange(
                    n,
                    old(self).pending().len() as int,
                )
            },
            old(self).pending().len() == 0 ==> {
                &&& r == if old(self).is_done() {
                    StreamRead::EndOfStream
                } else {
                    StreamRead::Pending
                }
                &&& final(buf)@ == old(buf)@
                &&& final(self).pending() == old(self).pending()
            },
    {
        if self.buffer.len() > 0 {
            let n = drain_into(&mut self.buffer, buf);
            StreamRead::Data(n)
        } else if self.done {
            StreamRead::EndOfStream
        } else {
            StreamRead::Pending
        }
    }
}

/// The output side of the FFmpeg-based H.264 encoder: encoded bytes waiting
/// to be read, and whether the encoder has finished.
pub struct H264Encoder {
    buffer: VecDeque<u8>,
    done: bool,
}

impl H264Encoder {
    /// The bytes waiting to be read.
    pub closed spec fn pending(&self) -> Seq<u8> {
        self.buffer@
    }

    /// Whether the encoder has finished.
    pub closed spec fn is_done(&self) -> bool {
        self.done
    }

    /// An encoder output with no byte, the encoder running.
    pub fn new() -> (s: Self)
        ensures
            s.pending() == Seq::<u8>::empty(),
            !s.is_done(),
    {
        H264Encoder { buffer: VecDeque::new(), done: false }
    }

    /// Appends the data of an encoded packet.
    pub fn push_encoded(&mut self, data: &[u8])
        ensures
            final(self).pending() == old(self).pending() + data@,
            final(self).is_done() == old(self).is_done(),
    {
        push_all(&mut self.buffer, data);
    }

    /// Records that the encoder has finished.
    pub fn finish(&mut self)
        ensures
            final(self).pending() == old(self).pending(),
            final(self).is_done(),
    {
        self.done = true;
    }

    /// Whether the encoder has finished and every byte has been read.
    pub fn is_finished(&self) -> (b: bool)
        ensures
            b == (self.is_done() && self.pending().len() == 0),
    {
        self.done && self.buffer.len() == 0
    }

    /// Copies waiting bytes into `buf`; with none waiting, reports the end of
    /// the stream once the encoder has finished, and otherwise that the
    /// caller should wait for the encoder.
    pub fn read(&mut self, buf: &mut [u8]) -> (r: StreamRead)
        ensures
            final(self).is_done() == old(self).is_done(),
            old(self).pending().len() > 0 ==> {
                let n = read_count(old(self).pending(), old(buf)@.len() as int);
                &&& r == StreamRead::Data(n as usize)
                &&& filled(old(buf)@, final(buf)@, old(self).pending(), n)
                &&& final(self).pending() == old(self).pending().subrange(
                    n,
                    old(self).pending().len() as int,
                )
            },
            old(self).pending().len() == 0 ==> {
                &&& r == if old(self).is_done() {
                    StreamRead::EndOfStream
                } else {
                    StreamRead::Pending
                }
                &&& final(buf)@ == old(buf)@
                &&& final(self).pending() == old(self).pending()
            },
    {
        if self.buffer.len() > 0 {
            let n = drain_into(&mut self.buffer, buf);
            StreamRead::Data(n)
        } else if self.done {
            StreamRead::EndOfStream
        } else {
            StreamRead::Pending
        }
    }
}

} // verus!
