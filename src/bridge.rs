//! The byte queue that carries console data from the host to the device under
//! test. It is bounded; bytes that do not fit are dropped without any signal
//! to the sender.
use vstd::prelude::*;

verus! {

#[verifier::external_type_specification]
#[verifier::external_body]
#[verifier::reject_recursive_types(T)]
pub struct ExQueue<T, const N: usize>(heapless::spsc::Queue<T, N>);

/// Slots of the queue's ring; one is always left free.
pub const DUT_QUEUE_SLOTS: usize = 1024;

/// Bytes the queue can hold at once.
pub const DUT_QUEUE_CAPACITY: usize = 1023;

/// Bytes waiting in the queue, oldest first.
pub uninterp spec fn queued(q: heapless::spsc::Queue<u8, 1024>) -> Seq<u8>;

/// Relies on heapless::spsc::Queue::new: an empty queue.
#[verifier::external_body]
fn queue_new() -> (q: heapless::spsc::Queue<u8, 1024>)
    ensures
        queued(q) == Seq::<u8>::empty(),
{
    heapless::spsc::Queue::new()
}

/// Relies on heapless::spsc::Queue::len: the number of bytes waiting, which
/// the ring keeps below its slot count.
#[verifier::external_body]
fn queue_len(q: &heapless::spsc::Queue<u8, 1024>) -> (n: usize)
    ensures
        n == queued(*q).len(),
        n <= DUT_QUEUE_CAPACITY,
{
    q.len()
}

/// Relies on heapless::spsc::Queue::enqueue: appends when fewer than
/// `N - 1` bytes wait, and otherwise hands the byte back unchanged.
#[verifier::external_body]
fn queue_enqueue(q: &mut heapless::spsc::Queue<u8, 1024>, b: u8) -> (r: Result<(), u8>)
    ensures
        r is Ok <==> queued(*old(q)).len() < DUT_QUEUE_CAPACITY,
        r is Ok ==> queued(*final(q)) == queued(*old(q)).push(b),
        r matches Err(x) ==> x == b && queued(*final(q)) == queued(*old(q)),
{
    q.enqueue(b)
}

/// Relies on heapless::spsc::Queue::dequeue: removes and returns the oldest
/// byte, or `None` when the queue is empty.
#[verifier::external_body]
fn queue_dequeue(q: &mut heapless::spsc::Queue<u8, 1024>) -> (r: Option<u8>)
    ensures
        r is None <==> queued(*old(q)).len() == 0,
        r is None ==> queued(*final(q)) == queued(*old(q)),
        r matches Some(b) ==> b == queued(*old(q))[0] && queued(*final(q)) == queued(
            *old(q),
        ).drop_first(),
{
    q.dequeue()
}

/// Console bytes bound for the device under test.
pub struct DutQueue {
    q: heapless::spsc::Queue<u8, 1024>,
}

impl DutQueue {
    /// Bytes waiting, oldest first.
    pub closed spec fn contents(&self) -> Seq<u8> {
        queued(self.q)
    }

    /// An empty queue.
    pub fn new() -> (r: DutQueue)
        ensures
            r.contents() == Seq::<u8>::empty(),
    {
        DutQueue { q: queue_new() }
    }

    /// Number of bytes waiting.
    pub fn len(&self) -> (n: usize)
        ensures
            n == self.contents().len(),
            n <= DUT_QUEUE_CAPACITY,
    {
        queue_len(&self.q)
    }

    /// Room left: how many more bytes the queue takes.
    pub fn room(&self) -> (n: usize)
        ensures
            n == DUT_QUEUE_CAPACITY - self.contents().len(),
    {
        DUT_QUEUE_CAPACITY - queue_len(&self.q)
    }

    /// Appends as much of `buf` as fits, in order, and drops the rest;
    /// returns how many bytes were queued.
    pub fn send(&mut self, buf: &[u8]) -> (sent: usize)
        ensures
            sent == if buf@.len() <= DUT_QUEUE_CAPACITY - old(self).contents().len() {
                buf@.len()
            } else {
                (DUT_QUEUE_CAPACITY - old(self).contents().len()) as nat
            },
            final(self).contents() == old(self).contents() + buf@.subrange(0, sent as int),
    {
        let ghost start = self.contents();
        let room = self.room();
        let sent: usize = if buf.len() <= room {
            buf.len()
        } else {
            room
        };
        let mut i: usize = 0;
        while i < sent
            invariant
                i <= sent <= buf@.len(),
                sent <= DUT_QUEUE_CAPACITY - start.len(),
                self.contents() == start + buf@.subrange(0, i as int),
            decreases sent - i,
        {
            let r = queue_enqueue(&mut self.q, buf[i]);
            assert(r is Ok);
            assert(buf@.subrange(0, i + 1) =~= buf@.subrange(0, i as int).push(buf@[i as int]));
            i = i + 1;
        }
        sent
    }

    /// Takes the oldest waiting byte, if any.
    pub fn next(&mut self) -> (r: Option<u8>)
        ensures
            r is None <==> old(self).contents().len() == 0,
            r is None ==> final(self).contents() == old(self).contents(),
            r matches Some(b) ==> b == old(self).contents()[0] && final(self).contents() == old(
                self,
            ).contents().drop_first(),
    {
        queue_dequeue(&mut self.q)
    }
}

} // verus!
