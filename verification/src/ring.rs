//! The byte ring buffers that a UART driver shares between its interrupt
//! handler and its async reader and writer (heapless SPSC queues).

use vstd::prelude::*;

use heapless::spsc::Queue;

verus! {

/// heapless's fixed-capacity single-producer single-consumer queue.
#[verifier::external_type_specification]
#[verifier::external_body]
#[verifier::reject_recursive_types(T)]
pub struct ExQueue<T, const N: usize>(Queue<T, N>);

/// Number of slots of a UART ring buffer.
pub const RINGBUFFER_SIZE: usize = 256;

/// A UART ring buffer: heapless holds at most `RINGBUFFER_SIZE - 1` bytes in it.
pub type RingBuffer = Queue<u8, 256>;

/// The bytes that a ring buffer holds, from the front (next to dequeue) to the back.
pub uninterp spec fn ring_contents(ring: Queue<u8, 256>) -> Seq<u8>;

/// How many bytes a ring buffer can hold at most.
pub open spec fn ring_capacity() -> nat {
    (RINGBUFFER_SIZE - 1) as nat
}

/// `Queue::len`: the number of bytes held; heapless computes it from its head
/// and tail indices modulo the slot count, so it never exceeds the capacity.
#[verifier::external_body]
fn ring_len(ring: &RingBuffer) -> (r: usize)
    ensures
        r == ring_contents(*ring).len(),
        r <= ring_capacity(),
{
    ring.len()
}

/// `Queue::enqueue`: appends the byte at the back when fewer than
/// `RINGBUFFER_SIZE - 1` bytes are held (true), else leaves the queue as it
/// was (false).
#[verifier::external_body]
fn ring_enqueue(ring: &mut RingBuffer, byte: u8) -> (r: bool)
    ensures
        r == (ring_contents(*old(ring)).len() < ring_capacity()),
        r ==> ring_contents(*final(ring)) == ring_contents(*old(ring)).push(byte),
        !r ==> ring_contents(*final(ring)) == ring_contents(*old(ring)),
{
    ring.enqueue(byte).is_ok()
}

/// `Queue::dequeue`: removes and returns the front byte, or `None` (and no
/// change) when the queue is empty.
#[verifier::external_body]
fn ring_dequeue(ring: &mut RingBuffer) -> (r: Option<u8>)
    ensures
        ring_contents(*old(ring)).len() == 0 ==> r is None && ring_contents(*final(ring))
            == ring_contents(*old(ring)),
        ring_contents(*old(ring)).len() > 0 ==> r == Some(ring_contents(*old(ring))[0])
            && ring_contents(*final(ring)) == ring_contents(*old(ring)).drop_first(),
{
    ring.dequeue()
}

/// `Queue::iter`, taken at position `index`: the iterator walks the queue from
/// front to back, so this is the byte at that position, or `None` past the end.
#[verifier::external_body]
fn ring_get(ring: &RingBuffer, index: usize) -> (r: Option<u8>)
    ensures
        index < ring_contents(*ring).len() ==> r == Some(ring_contents(*ring)[index as int]),
        index >= ring_contents(*ring).len() ==> r is None,
{
    ring.iter().nth(index).copied()
}


/// The bytes held after appending as many of `bytes` as fit, in order.
pub open spec fn spec_filled(contents: Seq<u8>, bytes: Seq<u8>) -> Seq<u8> {
    contents + bytes.take(spec_fill_count(contents, bytes))
}

/// How many of `bytes` fit behind `contents`.
pub open spec fn spec_fill_count(contents: Seq<u8>, bytes: Seq<u8>) -> int {
    let room = ring_capacity() - contents.len();
    if bytes.len() <= room { bytes.len() as int } else { room }
}

/// How many bytes a drain into a buffer of `buf_len` bytes takes out.
pub open spec fn spec_drain_count(contents: Seq<u8>, buf_len: int) -> int {
    if buf_len <= contents.len() { buf_len } else { contents.len() as int }
}

/// A UART ring buffer of 256 slots holds at most 255 bytes.
pub proof fn lemma_ring_capacity()
    ensures
        RINGBUFFER_SIZE == 256,
        ring_capacity() == 255,
{
}

/// Whether a ring buffer holds no byte.
pub fn is_drained(ring: &RingBuffer) -> (r: bool)
    ensures
        r == (ring_contents(*ring).len() == 0),
{
    ring_len(ring) == 0
}

/// Number of bytes a ring buffer holds.
pub fn held(ring: &RingBuffer) -> (r: usize)
    ensures
        r == ring_contents(*ring).len(),
        r <= ring_capacity(),
{
    ring_len(ring)
}

/// Stores a received byte at the back of the ring buffer; a full buffer drops
/// it (false) and stays as it was.
pub fn receive_byte(ring: &mut RingBuffer, byte: u8) -> (accepted: bool)
    ensures
        accepted == (ring_contents(*old(ring)).len() < ring_capacity()),
        accepted ==> ring_contents(*final(ring)) == ring_contents(*old(ring)).push(byte),
        !accepted ==> ring_contents(*final(ring)) == ring_contents(*old(ring)),
{
    ring_enqueue(ring, byte)
}

/// Moves bytes from the front of the ring buffer into `buf` until the ring is
/// empty or `buf` is full; returns how many were moved. The rest of `buf`
/// keeps its bytes.
pub fn drain_into(ring: &mut RingBuffer, buf: &mut [u8]) -> (n: usize)
    ensures
        n == spec_drain_count(ring_contents(*old(ring)), old(buf)@.len() as int),
        ring_contents(*final(ring)) == ring_contents(*old(ring)).skip(n as int),
        final(buf)@.len() == old(buf)@.len(),
        final(buf)@.take(n as int) == ring_contents(*old(ring)).take(n as int),
        final(buf)@.skip(n as int) == old(buf)@.skip(n as int),
{
    let ghost start = ring_contents(*ring);
    let ghost buf0 = buf@;
    let len = buf.len();
    let mut n: usize = 0;
    while n < len
        invariant
            len == buf@.len(),
            buf0.len() == len,
            n <= len,
            n <= start.len(),
            ring_contents(*ring) == start.skip(n as int),
            forall|i: int| 0 <= i < n ==> buf@[i] == start[i],
            forall|i: int| n <= i < len ==> buf@[i] == buf0[i],
        ensures
            n == spec_drain_count(start, len as int),
            ring_contents(*ring) == start.skip(n as int),
            buf@.len() == len,
            forall|i: int| 0 <= i < n ==> buf@[i] == start[i],
            forall|i: int| n <= i < len ==> buf@[i] == buf0[i],
        decreases len - n,
    {
        match ring_dequeue(ring) {
            Some(b) => {
                assert(start.skip(n as int)[0] == start[n as int]);
                assert(start.skip(n as int).drop_first() =~= start.skip(n + 1));
                buf[n] = b;
                n = n + 1;
            },
            None => {
                break;
            },
        }
    }
    assert(buf@.take(n as int) =~= start.take(n as int));
    assert(buf@.skip(n as int) =~= buf0.skip(n as int));
    n
}

/// Appends bytes from the front of `buf` to the ring buffer until all are
/// stored or the ring is full; returns how many were stored.
pub fn fill_from(ring: &mut RingBuffer, buf: &[u8]) -> (n: usize)
    ensures
        n == spec_fill_count(ring_contents(*old(ring)), buf@),
        ring_contents(*final(ring)) == spec_filled(ring_contents(*old(ring)), buf@),
{
    let ghost start = ring_contents(*ring);
    let _already_held = ring_len(ring);
    let len = buf.len();
    let mut n: usize = 0;
    while n < len
        invariant
            len == buf@.len(),
            n <= len,
            start.len() + n <= ring_capacity(),
            ring_contents(*ring) == start + buf@.take(n as int),
        ensures
            n == spec_fill_count(start, buf@),
            ring_contents(*ring) == start + buf@.take(n as int),
        decreases len - n,
    {
        if !ring_enqueue(ring, buf[n]) {
            break;
        }
        assert(buf@.take(n + 1) =~= buf@.take(n as int).push(buf@[n as int]));
        n = n + 1;
    }
    n
}

/// Copies the bytes at the front of the ring buffer into `chunk`, without
/// removing them, until the ring's bytes or the chunk run out; returns how
/// many were copied. The rest of `chunk` keeps its bytes.
pub fn stage_chunk(ring: &RingBuffer, chunk: &mut [u8]) -> (n: usize)
    ensures
        n == spec_drain_count(ring_contents(*ring), old(chunk)@.len() as int),
        final(chunk)@.len() == old(chunk)@.len(),
        final(chunk)@.take(n as int) == ring_contents(*ring).take(n as int),
        final(chunk)@.skip(n as int) == old(chunk)@.skip(n as int),
{
    let ghost contents = ring_contents(*ring);
    let ghost chunk0 = chunk@;
    let len = chunk.len();
    let mut n: usize = 0;
    while n < len
        invariant
            len == chunk@.len(),
            chunk0.len() == len,
            n <= len,
            n <= contents.len(),
            contents == ring_contents(*ring),
            forall|i: int| 0 <= i < n ==> chunk@[i] == contents[i],
            forall|i: int| n <= i < len ==> chunk@[i] == chunk0[i],
        ensures
            n == spec_drain_count(contents, len as int),
            chunk@.len() == len,
            forall|i: int| 0 <= i < n ==> chunk@[i] == contents[i],
            forall|i: int| n <= i < len ==> chunk@[i] == chunk0[i],
        decreases len - n,
    {
        match ring_get(ring, n) {
            Some(b) => {
                chunk[n] = b;
                n = n + 1;
            },
            None => {
                break;
            },
        }
    }
    assert(chunk@.take(n as int) =~= contents.take(n as int));
    assert(chunk@.skip(n as int) =~= chunk0.skip(n as int));
    n
}

/// Removes `count` bytes from the front of the ring buffer, or all of them
/// where it holds fewer; returns whether all `count` were there.
pub fn discard(ring: &mut RingBuffer, count: usize) -> (all: bool)
    ensures
        all == (count <= ring_contents(*old(ring)).len()),
        ring_contents(*final(ring)) == ring_contents(*old(ring)).skip(
            if all { count as int } else { ring_contents(*old(ring)).len() as int },
        ),
{
    let ghost start = ring_contents(*ring);
    let mut i: usize = 0;
    while i < count
        invariant
            i <= count,
            i <= start.len(),
            ring_contents(*ring) == start.skip(i as int),
        ensures
            i <= start.len(),
            ring_contents(*ring) == start.skip(i as int),
            i == count || i == start.len(),
        decreases count - i,
    {
        match ring_dequeue(ring) {
            Some(_) => {
                assert(start.skip(i as int).drop_first() =~= start.skip(i + 1));
                i = i + 1;
            },
            None => {
                break;
            },
        }
    }
    i == count
}


/// A ring buffer hands bytes out in the order they went in: after appending
/// to what it held, the old bytes come out first, then the appended ones.
pub proof fn lemma_fifo_order(contents: Seq<u8>, bytes: Seq<u8>)
    requires
        contents.len() <= ring_capacity(),
    ensures
        spec_filled(contents, bytes).take(contents.len() as int) == contents,
        spec_filled(contents, bytes).skip(contents.len() as int) == bytes.take(
            spec_fill_count(contents, bytes),
        ),
        spec_filled(contents, bytes).len() <= ring_capacity(),
{
    assert(spec_filled(contents, bytes).take(contents.len() as int) =~= contents);
    assert(spec_filled(contents, bytes).skip(contents.len() as int) =~= bytes.take(
        spec_fill_count(contents, bytes),
    ));
}

/// Bytes written to an empty ring buffer, as many as it can hold, are read
/// back unchanged by a drain into a buffer large enough for them.
pub proof fn lemma_write_then_read(bytes: Seq<u8>, buf_len: int)
    requires
        bytes.len() <= ring_capacity(),
        buf_len >= bytes.len(),
    ensures
        spec_fill_count(Seq::<u8>::empty(), bytes) == bytes.len(),
        spec_filled(Seq::<u8>::empty(), bytes) == bytes,
        spec_drain_count(spec_filled(Seq::<u8>::empty(), bytes), buf_len) == bytes.len(),
{
    assert(spec_filled(Seq::<u8>::empty(), bytes) =~= bytes);
}

/// Handing the staged front bytes to the FIFO and discarding the `sent` of
/// them that it took loses and repeats no byte: the sent bytes followed by
/// what the ring still holds are exactly what it held before.
pub proof fn lemma_transmit_conserves_bytes(contents: Seq<u8>, staged: Seq<u8>, sent: int)
    requires
        0 <= sent <= staged.len(),
        staged.len() <= contents.len(),
        staged == contents.take(staged.len() as int),
    ensures
        staged.take(sent) + contents.skip(sent) == contents,
{
    assert(staged.take(sent) + contents.skip(sent) =~= contents);
}

} // verus!
