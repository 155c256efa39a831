//! Reassembly of protocol messages from a byte stream.
//!
//! A [`Connection`] holds the bytes that arrived from the peer and not yet
//! taken by a message. The stream itself is read by the caller: after
//! [`Connection::read`] answers [`ReadStep::NeedBytes`], the caller performs
//! exactly one read from the stream and hands what it returned (possibly
//! nothing, when the peer closed its side) to [`Connection::receive`].

use crate::message::{decode_partial, decode_partial_of, declared_frame_len, whole_message, Decoded, Frame, HEADER_SIZE};
use bytes::{Buf, BytesMut};
use vstd::prelude::*;

verus! {

#[verifier::external_type_specification]
#[verifier::external_body]
pub struct ExBytesMut(BytesMut);

/// The bytes that a `BytesMut` holds.
pub uninterp spec fn buffered_bytes(b: BytesMut) -> Seq<u8>;

/// Largest number of bytes that a connection buffers. Keeping twice this
/// below `isize::MAX` keeps every growth of the buffer clear of the
/// capacity overflow that makes `BytesMut` and `Vec` panic.
pub const MAX_BUFFERED: usize = usize::MAX / 8;

/// Relies on `BytesMut::with_capacity`: the new buffer is empty.
#[verifier::external_body]
fn buffer_with_capacity(capacity: usize) -> (r: BytesMut)
    ensures
        buffered_bytes(r) == Seq::<u8>::empty(),
{
    BytesMut::with_capacity(capacity)
}

/// Relies on `BytesMut::extend_from_slice`: the bytes of `s` are appended.
/// It panics only when the capacity it reserves overflows, which the bound
/// on the length rules out.
#[verifier::external_body]
fn buffer_extend(b: &mut BytesMut, s: &[u8])
    requires
        buffered_bytes(*old(b)).len() + s@.len() <= MAX_BUFFERED,
    ensures
        buffered_bytes(*final(b)) == buffered_bytes(*old(b)) + s@,
{
    b.extend_from_slice(s)
}

/// Relies on `Buf::advance` of `BytesMut`: the first `n` bytes are dropped;
/// it panics when `n` exceeds the length.
#[verifier::external_body]
fn buffer_advance(b: &mut BytesMut, n: usize)
    requires
        n <= buffered_bytes(*old(b)).len(),
    ensures
        buffered_bytes(*final(b)) == buffered_bytes(*old(b)).subrange(n as int, buffered_bytes(*old(b)).len() as int),
{
    b.advance(n)
}

/// Relies on `BytesMut`'s `Deref` to `[u8]`: the slice of the bytes held.
#[verifier::external_body]
fn buffer_as_slice(b: &BytesMut) -> (r: &[u8])
    ensures
        r@ == buffered_bytes(*b),
{
    &b[..]
}

/// Why reading a message failed.
#[derive(Clone, Copy, Debug, PartialEq, Eq, Structural)]
pub enum ReadError {
    /// The peer closed the stream in the middle of a message.
    ConnectionReset,
    /// The buffered bytes cannot start a message.
    Malformed,
}

/// What one step of reading a message came to.
#[derive(Clone, Copy, Debug, PartialEq, Eq, Structural)]
pub enum ReadStep {
    /// A whole message, taken from the front of the buffer.
    Message(Frame),
    /// The buffer holds no whole message: read once more from the stream.
    NeedBytes,
    /// The peer closed the stream between messages: there is no message.
    Closed,
    /// Reading failed for good.
    Failed(ReadError),
}

/// One decoding attempt on the buffered bytes `buf`: the bytes left
/// buffered afterwards, and the step. Running out of bytes asks for more
/// only while the announced frame has not fully arrived.
pub open spec fn read_step(buf: Seq<u8>) -> (Seq<u8>, ReadStep) {
    match decode_partial_of(buf) {
        Decoded::Complete(f) => (buf.subrange(f.consumed as int, buf.len() as int), ReadStep::Message(f)),
        Decoded::Incomplete => if frame_arrived(buf) {
            (buf, ReadStep::Failed(ReadError::Malformed))
        } else {
            (buf, ReadStep::NeedBytes)
        },
        Decoded::Malformed => (buf, ReadStep::Failed(ReadError::Malformed)),
    }
}

/// The whole frame that the header at the front of `buf` announces has
/// arrived. A decoder that still asks for more bytes then found the payload
/// too short for its command: more bytes cannot help.
pub open spec fn frame_arrived(buf: Seq<u8>) -> bool {
    buf.len() >= HEADER_SIZE && buf.len() >= declared_frame_len(buf)
}

/// The step after one read from the stream returned `chunk` while `buf`
/// was buffered: an empty read means the peer closed the stream.
pub open spec fn receive_step(buf: Seq<u8>, chunk: Seq<u8>) -> (Seq<u8>, ReadStep) {
    if chunk.len() == 0 {
        if buf.len() == 0 {
            (buf, ReadStep::Closed)
        } else {
            (buf, ReadStep::Failed(ReadError::ConnectionReset))
        }
    } else {
        read_step(buf + chunk)
    }
}

/// The reading side of a connection to a peer: the bytes received and not
/// yet taken by a message.
pub struct Connection {
    buffer: BytesMut,
}

/// Initial capacity of a connection's buffer.
pub const BUFFER_CAPACITY: usize = 2048;

impl View for Connection {
    type V = Seq<u8>;

    closed spec fn view(&self) -> Seq<u8> {
        buffered_bytes(self.buffer)
    }
}

impl Connection {
    /// A connection with nothing buffered.
    pub fn new() -> (r: Connection)
        ensures
            r@ == Seq::<u8>::empty(),
    {
        Connection { buffer: buffer_with_capacity(BUFFER_CAPACITY) }
    }

    /// Number of bytes buffered.
    pub fn buffered_len(&self) -> (r: usize)
        ensures
            r == self@.len(),
    {
        buffer_as_slice(&self.buffer).len()
    }

    fn whole_frame_buffered(bytes: &[u8]) -> (r: bool)
        ensures
            r == frame_arrived(bytes@),
    {
        if bytes.len() < HEADER_SIZE {
            return false;
        }
        let payload: u64 = bytes[16] as u64 + bytes[17] as u64 * 0x100 + bytes[18] as u64 * 0x10000
            + bytes[19] as u64 * 0x1000000;
        (bytes.len() - HEADER_SIZE) as u64 >= payload
    }

    /// Tries to take one message from the front of the buffer. On success the
    /// buffer is advanced by exactly the bytes the message took.
    pub fn read(&mut self) -> (r: ReadStep)
        ensures
            (final(self)@, r) == read_step(old(self)@),
            r matches ReadStep::Message(f) ==> f.consumed <= old(self)@.len(),
    {
        let bytes = buffer_as_slice(&self.buffer);
        let decoded = decode_partial(bytes);
        match decoded {
            Decoded::Complete(frame) => {
                buffer_advance(&mut self.buffer, frame.consumed);
                ReadStep::Message(frame)
            },
            Decoded::Incomplete => if Connection::whole_frame_buffered(bytes) {
                ReadStep::Failed(ReadError::Malformed)
            } else {
                ReadStep::NeedBytes
            },
            Decoded::Malformed => ReadStep::Failed(ReadError::Malformed),
        }
    }

    /// Takes in what one read from the stream returned, then tries to take
    /// one message from the buffer.
    pub fn receive(&mut self, chunk: &[u8]) -> (r: ReadStep)
        requires
            old(self)@.len() + chunk@.len() <= MAX_BUFFERED,
        ensures
            (final(self)@, r) == receive_step(old(self)@, chunk@),
            r matches ReadStep::Message(f) ==> f.consumed <= old(self)@.len() + chunk@.len(),
    {
        if chunk.len() == 0 {
            if self.buffered_len() == 0 {
                ReadStep::Closed
            } else {
                ReadStep::Failed(ReadError::ConnectionReset)
            }
        } else {
            buffer_extend(&mut self.buffer, chunk);
            self.read()
        }
    }
}


/// The steps of reading one message while the stream delivers `chunks` in
/// order, starting with `buf` buffered: each delivery is handed to
/// `receive_step` until a step other than `NeedBytes` comes. Returns the
/// bytes left buffered and the last step.
pub open spec fn deliver(buf: Seq<u8>, chunks: Seq<Seq<u8>>) -> (Seq<u8>, ReadStep)
    decreases chunks.len(),
{
    if chunks.len() == 0 {
        (buf, ReadStep::NeedBytes)
    } else {
        let (next, step) = receive_step(buf, chunks[0]);
        if step == ReadStep::NeedBytes {
            deliver(next, chunks.drop_first())
        } else {
            (next, step)
        }
    }
}

proof fn lemma_deliver_prefix(buf: Seq<u8>, chunks: Seq<Seq<u8>>, bytes: Seq<u8>)
    requires
        whole_message(bytes),
        chunks.len() > 0,
        forall|i: int| 0 <= i < chunks.len() ==> (#[trigger] chunks[i]).len() > 0,
        buf + chunks.flatten() == bytes,
    ensures
        deliver(buf, chunks) == read_step(bytes),
    decreases chunks.len(),
{
    let c0 = chunks[0];
    let rest = chunks.drop_first();
    assert(chunks.flatten() == c0 + rest.flatten());
    assert(buf + chunks.flatten() == (buf + c0) + rest.flatten());
    assert(c0.len() > 0);
    assert(receive_step(buf, c0) == read_step(buf + c0));
    if rest.len() == 0 {
        assert(rest.flatten() == Seq::<u8>::empty());
        assert(buf + c0 == bytes);
        let (next, step) = read_step(bytes);
        if step == ReadStep::NeedBytes {
            assert(deliver(next, rest) == (next, ReadStep::NeedBytes));
        }
    } else {
        assert(rest[0] == chunks[1]);
        assert(rest.flatten() == rest[0] + rest.drop_first().flatten());
        let prefix = buf + c0;
        assert(prefix.len() < bytes.len());
        assert(bytes.take(prefix.len() as int) == prefix);
        assert(decode_partial_of(bytes.take(prefix.len() as int)) == Decoded::Incomplete);
        assert forall|i: int| 0 <= i < rest.len() implies (#[trigger] rest[i]).len() > 0 by {
            assert(rest[i] == chunks[i + 1]);
        }
        lemma_deliver_prefix(prefix, rest, bytes);
        assert(read_step(prefix) == (prefix, ReadStep::NeedBytes));
    }
}

/// One call of the reading contract over a stream that has `chunks` to
/// deliver: a decoding attempt on `buf`, then, while more bytes are needed,
/// one delivery at a time.
pub open spec fn read_through(buf: Seq<u8>, chunks: Seq<Seq<u8>>) -> (Seq<u8>, ReadStep) {
    let (next, step) = read_step(buf);
    if step == ReadStep::NeedBytes {
        deliver(next, chunks)
    } else {
        (next, step)
    }
}

/// How many of `chunks` reading through them takes: deliveries are taken
/// while the step stays `NeedBytes`.
pub open spec fn deliveries_taken(buf: Seq<u8>, chunks: Seq<Seq<u8>>) -> nat
    decreases chunks.len(),
{
    if chunks.len() == 0 {
        0
    } else {
        let (next, step) = receive_step(buf, chunks[0]);
        if step == ReadStep::NeedBytes {
            1 + deliveries_taken(next, chunks.drop_first())
        } else {
            1
        }
    }
}

proof fn lemma_flatten_step(chunks: Seq<Seq<u8>>, i: int)
    requires
        0 <= i < chunks.len(),
    ensures
        chunks.subrange(i, chunks.len() as int).flatten() == chunks[i] + chunks.subrange(i + 1, chunks.len() as int).flatten(),
        chunks.subrange(i, chunks.len() as int).drop_first() == chunks.subrange(i + 1, chunks.len() as int),
{
    let rest = chunks.subrange(i, chunks.len() as int);
    assert(rest.drop_first() =~= chunks.subrange(i + 1, chunks.len() as int));
    assert(rest[0] == chunks[i]);
}

impl Connection {
    /// Reads one message from a stream whose successive reads return
    /// `deliveries` and then nothing more (an empty delivery is the peer
    /// closing the stream). Returns the step it came to and the number of
    /// deliveries it took; `NeedBytes` means the deliveries ran out first.
    pub fn read_from(&mut self, deliveries: &Vec<Vec<u8>>) -> (r: (ReadStep, usize))
        requires
            old(self)@.len() + deliveries@.map_values(|d: Vec<u8>| d@).flatten().len() <= MAX_BUFFERED,
        ensures
            (final(self)@, r.0) == read_through(old(self)@, deliveries@.map_values(|d: Vec<u8>| d@)),
            r.1 == if read_step(old(self)@).1 == ReadStep::NeedBytes {
                deliveries_taken(read_step(old(self)@).0, deliveries@.map_values(|d: Vec<u8>| d@))
            } else {
                0
            },
    {
        let ghost chunks = deliveries@.map_values(|d: Vec<u8>| d@);
        let ghost first = read_step(self@);
        let mut step = self.read();
        let mut i: usize = 0;
        if step != ReadStep::NeedBytes {
            return (step, 0);
        }
        assert(chunks.subrange(0, chunks.len() as int) == chunks);
        while i < deliveries.len() && step == ReadStep::NeedBytes
            invariant
                i <= deliveries@.len(),
                chunks == deliveries@.map_values(|d: Vec<u8>| d@),
                first.1 == ReadStep::NeedBytes,
                step == ReadStep::NeedBytes ==> deliver(first.0, chunks) == deliver(self@, chunks.subrange(i as int, chunks.len() as int)),
                step == ReadStep::NeedBytes ==> deliveries_taken(first.0, chunks) == i + deliveries_taken(self@, chunks.subrange(i as int, chunks.len() as int)),
                step != ReadStep::NeedBytes ==> (self@, step) == deliver(first.0, chunks),
                step != ReadStep::NeedBytes ==> deliveries_taken(first.0, chunks) == i,
                step == ReadStep::NeedBytes ==> self@.len() + chunks.subrange(i as int, chunks.len() as int).flatten().len() <= MAX_BUFFERED,
            decreases deliveries@.len() - i,
        {
            proof {
                lemma_flatten_step(chunks, i as int);
            }
            let ghost before = self@;
            step = self.receive(deliveries[i].as_slice());
            proof {
                let rest = chunks.subrange(i as int + 1, chunks.len() as int);
                assert(chunks.subrange(i as int, chunks.len() as int)[0] == chunks[i as int]);
                assert(chunks[i as int] == deliveries@[i as int]@);
                if step == ReadStep::NeedBytes {
                    assert(self@ == before + chunks[i as int]);
                }
            }
            i += 1;
        }
        proof {
            if step == ReadStep::NeedBytes {
                assert(chunks.subrange(i as int, chunks.len() as int) =~= Seq::<Seq<u8>>::empty());
            }
        }
        (step, i)
    }
}

/// Frame reassembly: when one whole message (as `decode_partial` reports
/// it, decoding all of `bytes`) arrives split into non-empty pieces in any
/// way, reading from an empty buffer (`read_through`, the contract of
/// `read_from`) yields the message that decoding `bytes` in one go yields,
/// with the same byte count, all of `bytes`, and leaves nothing buffered.
pub proof fn lemma_frame_reassembly(bytes: Seq<u8>, chunks: Seq<Seq<u8>>, frame: Frame)
    requires
        whole_message(bytes),
        decode_partial_of(bytes) == Decoded::Complete(frame),
        chunks.len() > 0,
        forall|i: int| 0 <= i < chunks.len() ==> (#[trigger] chunks[i]).len() > 0,
        chunks.flatten() == bytes,
    ensures
        deliver(Seq::empty(), chunks) == receive_step(Seq::empty(), bytes),
        deliver(Seq::empty(), chunks) == (Seq::<u8>::empty(), ReadStep::Message(frame)),
        read_through(Seq::empty(), chunks) == (Seq::<u8>::empty(), ReadStep::Message(frame)),
        frame.consumed == bytes.len(),
{
    assert(bytes.take(0) =~= Seq::<u8>::empty());
    assert(decode_partial_of(bytes.take(0)) == Decoded::Incomplete);
    assert(Seq::<u8>::empty() + chunks.flatten() == bytes);
    lemma_deliver_prefix(Seq::empty(), chunks, bytes);
    assert(chunks[0].len() > 0);
    assert(bytes.len() > 0) by {
        assert(chunks.flatten() == chunks[0] + chunks.drop_first().flatten());
    }
    assert(Seq::<u8>::empty() + bytes == bytes);
    assert(bytes.subrange(frame.consumed as int, bytes.len() as int) =~= Seq::<u8>::empty());
}

/// Consumed bytes are never read again: after a message took `consumed`
/// bytes, exactly the rest stays buffered, the next read starts from that
/// rest alone, and the next decoding attempt after a delivery sees that
/// rest followed by what arrived.
pub proof fn lemma_consumed_bytes_not_replayed(buf: Seq<u8>, chunk: Seq<u8>, frame: Frame)
    requires
        decode_partial_of(buf) == Decoded::Complete(frame),
        frame.consumed <= buf.len(),
        chunk.len() > 0,
    ensures
        read_step(buf).0 == buf.subrange(frame.consumed as int, buf.len() as int),
        read_step(buf).1 == ReadStep::Message(frame),
        receive_step(read_step(buf).0, chunk) == read_step(buf.subrange(frame.consumed as int, buf.len() as int) + chunk),
        forall|chunks: Seq<Seq<u8>>| #[trigger] read_through(read_step(buf).0, chunks)
            == read_through(buf.subrange(frame.consumed as int, buf.len() as int), chunks),
{
}

/// Clean closure: a stream that closes with nothing buffered yields no
/// message, and no error.
pub proof fn lemma_clean_closure()
    ensures
        receive_step(Seq::empty(), Seq::empty()) == (Seq::<u8>::empty(), ReadStep::Closed),
{
}

/// Truncated closure: a stream that closes while bytes of an unfinished
/// message are buffered yields a fatal error.
pub proof fn lemma_truncated_closure(buf: Seq<u8>)
    requires
        buf.len() > 0,
    ensures
        receive_step(buf, Seq::empty()).1 == ReadStep::Failed(ReadError::ConnectionReset),
{
}

} // verus!
