//! Single-producer / single-consumer ring buffer of audio samples.
//!
//! A fixed-capacity circular buffer with a write cursor and a read cursor.
//! The writer never waits: on overflow it keeps writing and overwrites the
//! oldest unread samples, so a sustained overrun loses data (a deliberate
//! lossy policy for a real-time path).  As long as the unread count plus the
//! pushed count stays below the capacity, every pushed sample is delivered
//! in order.
//!
//! This type is the sequential model of the transport: one cursor is
//! advanced by `push`, the other by `pop`, and nothing else touches them.
//! The process that runs the engine gives the producer and the consumer
//! exclusive access to their sides.

use vstd::prelude::*;

verus! {

/// Reduce a position `i` in `[0, 2*cap)` into `[0, cap)`.
pub open spec fn wrap_at(i: int, cap: int) -> int {
    if i < cap {
        i
    } else {
        i - cap
    }
}

/// Number of slots from cursor `r` forward to cursor `w`, going around the
/// end of a buffer of capacity `cap`.
pub open spec fn dist_around(r: int, w: int, cap: int) -> int {
    if w >= r {
        w - r
    } else {
        cap - r + w
    }
}

/// The write cursor after `n` single steps forward from `w`, wrapping at
/// `cap`.
pub open spec fn advance(w: int, n: int, cap: int) -> int
    decreases n,
{
    if n <= 0 {
        w
    } else {
        advance(wrap_at(w + 1, cap), n - 1, cap)
    }
}

/// The buffer contents after writing `samples` one at a time starting at
/// cursor `w`, wrapping at the buffer's length.
pub open spec fn ring_write(buf: Seq<i32>, w: int, samples: Seq<i32>) -> Seq<i32>
    decreases samples.len(),
{
    if samples.len() == 0 {
        buf
    } else {
        ring_write(
            buf.update(w, samples[0]),
            wrap_at(w + 1, buf.len() as int),
            samples.subrange(1, samples.len() as int),
        )
    }
}

/// The unread samples of a buffer `buf` between cursors `r` and `w`, oldest
/// first.
pub open spec fn contents_of(buf: Seq<i32>, r: int, w: int) -> Seq<i32> {
    Seq::new(
        dist_around(r, w, buf.len() as int) as nat,
        |k: int| buf[wrap_at(r + k, buf.len() as int)],
    )
}

pub proof fn lemma_ring_write_len(buf: Seq<i32>, w: int, samples: Seq<i32>)
    requires
        0 <= w < buf.len(),
    ensures
        ring_write(buf, w, samples).len() == buf.len(),
    decreases samples.len(),
{
    if samples.len() != 0 {
        assert(ring_write(buf, w, samples) == ring_write(
            buf.update(w, samples[0]),
            wrap_at(w + 1, buf.len() as int),
            samples.subrange(1, samples.len() as int),
        ));
        lemma_ring_write_len(
            buf.update(w, samples[0]),
            wrap_at(w + 1, buf.len() as int),
            samples.subrange(1, samples.len() as int),
        );
    } else {
        assert(ring_write(buf, w, samples) == buf);
    }
}

proof fn lemma_advance_snoc(w: int, n: int, cap: int)
    requires
        n >= 0,
    ensures
        advance(w, n + 1, cap) == wrap_at(advance(w, n, cap) + 1, cap),
    decreases n,
{
    if n == 0 {
        assert(advance(w, 1, cap) == advance(wrap_at(w + 1, cap), 0, cap));
        assert(advance(wrap_at(w + 1, cap), 0, cap) == wrap_at(w + 1, cap));
        assert(advance(w, 0, cap) == w);
    } else {
        lemma_advance_snoc(wrap_at(w + 1, cap), n - 1, cap);
        assert(advance(w, n + 1, cap) == advance(wrap_at(w + 1, cap), n, cap));
        assert(advance(w, n, cap) == advance(wrap_at(w + 1, cap), n - 1, cap));
    }
}

proof fn lemma_ring_write_snoc(buf: Seq<i32>, w: int, samples: Seq<i32>, x: i32)
    requires
        0 <= w < buf.len(),
    ensures
        ring_write(buf, w, samples.push(x)) == ring_write(buf, w, samples).update(
            advance(w, samples.len() as int, buf.len() as int),
            x,
        ),
    decreases samples.len(),
{
    if samples.len() == 0 {
        let e = samples.push(x).subrange(1, 1);
        assert(e =~= Seq::<i32>::empty());
        assert(samples.push(x)[0] == x);
        assert(ring_write(buf, w, samples.push(x)) == ring_write(
            buf.update(w, x),
            wrap_at(w + 1, buf.len() as int),
            e,
        ));
        assert(ring_write(buf.update(w, x), wrap_at(w + 1, buf.len() as int), e) == buf.update(
            w,
            x,
        ));
        assert(advance(w, 0, buf.len() as int) == w);
    } else {
        let buf1 = buf.update(w, samples[0]);
        let w1 = wrap_at(w + 1, buf.len() as int);
        assert(samples.push(x).subrange(1, samples.push(x).len() as int) =~= samples.subrange(
            1,
            samples.len() as int,
        ).push(x));
        lemma_ring_write_snoc(buf1, w1, samples.subrange(1, samples.len() as int), x);
    }
}

/// While the pushed samples fit beside the unread ones, writing appends:
/// the unread region afterward is the old unread region followed by the
/// pushed samples, in order.
pub proof fn lemma_ring_write_appends(buf: Seq<i32>, r: int, w: int, samples: Seq<i32>)
    requires
        buf.len() > 0,
        0 <= r < buf.len(),
        0 <= w < buf.len(),
        dist_around(r, w, buf.len() as int) + samples.len() < buf.len(),
    ensures
        contents_of(
            ring_write(buf, w, samples),
            r,
            advance(w, samples.len() as int, buf.len() as int),
        ) == contents_of(buf, r, w) + samples,
    decreases samples.len(),
{
    let cap = buf.len() as int;
    lemma_ring_write_len(buf, w, samples);
    if samples.len() == 0 {
        assert(contents_of(buf, r, w) + samples =~= contents_of(buf, r, w));
    } else {
        let s0 = samples[0];
        let rest = samples.subrange(1, samples.len() as int);
        let buf1 = buf.update(w, s0);
        let w1 = wrap_at(w + 1, cap);
        let d = dist_around(r, w, cap);
        assert(wrap_at(r + d, cap) == w);
        assert(contents_of(buf1, r, w1) =~= contents_of(buf, r, w).push(s0)) by {
            assert forall|k: int| 0 <= k < d implies buf1[#[trigger] wrap_at(r + k, cap)] == buf[wrap_at(
                r + k,
                cap,
            )] by {
                if wrap_at(r + k, cap) == w {
                    assert(false);
                }
            }
        }
        lemma_ring_write_appends(buf1, r, w1, rest);
        assert(contents_of(buf1, r, w1) + rest =~= contents_of(buf, r, w) + samples);
    }
}


/// In-order delivery: while the producer stays within capacity, the
/// unread contents are exactly the pushed samples (the append clause of
/// `push`), and a pop whose buffer length matches the unread count
/// receives, by `pop`'s contract, exactly those samples, oldest first.
pub proof fn lemma_in_order_delivery(s: Seq<i32>, out0: Seq<i32>)
    requires
        out0.len() == s.len(),
    ensures
        s.take(out0.len() as int) + out0.skip(out0.len() as int) == s,
{
    assert(s.take(out0.len() as int) + out0.skip(out0.len() as int) =~= s);
}

/// An empty channel yields nothing: with no unread samples, `pop`'s
/// contract returns a count of zero and hands the output buffer back
/// unchanged.
pub proof fn lemma_empty_pop_changes_nothing(s: Seq<i32>, out0: Seq<i32>)
    requires
        s.len() == 0,
    ensures
        s.take(0) + out0.skip(0) == out0,
{
    assert(s.take(0) + out0.skip(0) =~= out0);
}

/// Fixed-capacity circular sample transport between a producer and a
/// consumer.
pub struct RingBuffer {
    buf: Vec<i32>,
    /// Write cursor, advanced only by `push`.
    write: usize,
    /// Read cursor, advanced only by `pop`.
    read: usize,
}

impl RingBuffer {
    /// Capacity fixed at construction.
    pub closed spec fn cap(self) -> int {
        self.buf@.len() as int
    }

    /// Both cursors lie inside the buffer.
    pub closed spec fn wf(self) -> bool {
        &&& self.buf@.len() > 0
        &&& (self.read as int) < self.cap()
        &&& (self.write as int) < self.cap()
    }

    /// Count of unread samples, as the cursors tell it.
    pub closed spec fn avail_spec(self) -> int {
        dist_around(self.read as int, self.write as int, self.cap())
    }

    /// The unread samples, oldest first.
    pub closed spec fn contents(self) -> Seq<i32> {
        contents_of(self.buf@, self.read as int, self.write as int)
    }

    /// How `push` moves a buffer: `post` is `pre` with `samples` written one
    /// at a time at the write cursor, the read cursor untouched.
    pub closed spec fn push_rel(pre: RingBuffer, post: RingBuffer, samples: Seq<i32>) -> bool {
        &&& post.buf@ == ring_write(pre.buf@, pre.write as int, samples)
        &&& post.write as int == advance(pre.write as int, samples.len() as int, pre.cap())
        &&& post.read == pre.read
    }

    pub proof fn lemma_contents_len(self)
        requires
            self.wf(),
        ensures
            self.contents().len() == self.avail_spec(),
            0 <= self.avail_spec() < self.cap(),
    {
    }

    /// A new, empty ring buffer of the given capacity.
    pub fn new(capacity: usize) -> (r: RingBuffer)
        requires
            capacity > 0,
        ensures
            r.wf(),
            r.cap() == capacity,
            r.avail_spec() == 0,
            r.contents() == Seq::<i32>::empty(),
    {
        let mut buf: Vec<i32> = Vec::new();
        let mut i: usize = 0;
        while i < capacity
            invariant
                buf@.len() == i,
                i <= capacity,
            decreases capacity - i,
        {
            buf.push(0);
            i = i + 1;
        }
        let r = RingBuffer { buf, write: 0, read: 0 };
        assert(r.contents() =~= Seq::<i32>::empty());
        r
    }

    /// Number of samples available for reading.
    pub fn available(&self) -> (n: usize)
        requires
            self.wf(),
        ensures
            n as int == self.avail_spec(),
    {
        let w = self.write;
        let r = self.read;
        if w >= r {
            w - r
        } else {
            self.buf.len() - r + w
        }
    }

    /// Capacity fixed at construction.
    pub fn capacity(&self) -> (n: usize)
        ensures
            n as int == self.cap(),
    {
        self.buf.len()
    }

    /// Write `samples` at the write cursor, one at a time, wrapping at the
    /// capacity.  Never waits: on overflow the oldest unread samples are
    /// overwritten.  While the unread count plus `samples.len()` stays below
    /// the capacity, this appends `samples` to the unread contents.
    #[verifier::loop_isolation(false)]
    pub fn push(&mut self, samples: &Vec<i32>)
        requires
            old(self).wf(),
        ensures
            final(self).wf(),
            final(self).cap() == old(self).cap(),
            RingBuffer::push_rel(*old(self), *final(self), samples@),
            old(self).avail_spec() + samples@.len() < old(self).cap() ==> {
                &&& final(self).contents() == old(self).contents() + samples@
                &&& final(self).avail_spec() == old(self).avail_spec() + samples@.len()
            },
    {
        let cap = self.buf.len();
        let mut w = self.write;
        let mut i: usize = 0;
        while i < samples.len()
            invariant
                i <= samples.len(),
                w < cap,
                self.buf@.len() == cap,
                self.read == old(self).read,
                self.write == old(self).write,
                self.buf@ == ring_write(old(self).buf@, old(self).write as int, samples@.take(i as int)),
                w as int == advance(old(self).write as int, i as int, cap as int),
            decreases samples.len() - i,
        {
            proof {
                lemma_ring_write_snoc(
                    old(self).buf@,
                    old(self).write as int,
                    samples@.take(i as int),
                    samples@[i as int],
                );
                lemma_advance_snoc(old(self).write as int, i as int, cap as int);
                assert(samples@.take(i as int).push(samples@[i as int]) =~= samples@.take(
                    i as int + 1,
                ));
                lemma_ring_write_len(old(self).buf@, old(self).write as int, samples@.take(i as int));
            }
            let s = samples[i];
            self.buf.set(w, s);
            w = if w + 1 == cap {
                0
            } else {
                w + 1
            };
            i = i + 1;
        }
        self.write = w;
        proof {
            assert(samples@.take(samples@.len() as int) =~= samples@);
            lemma_ring_write_len(old(self).buf@, old(self).write as int, samples@);
            if old(self).avail_spec() + samples@.len() < old(self).cap() {
                lemma_ring_write_appends(
                    old(self).buf@,
                    old(self).read as int,
                    old(self).write as int,
                    samples@,
                );
            }
        }
    }

    /// Read up to `out.len()` of the oldest unread samples into the front of
    /// `out`, leaving the rest of `out` untouched.  Returns how many were
    /// written.  Never waits.
    #[verifier::loop_isolation(false)]
    pub fn pop(&mut self, out: &mut Vec<i32>) -> (n: usize)
        requires
            old(self).wf(),
        ensures
            final(self).wf(),
            final(self).cap() == old(self).cap(),
            n as int == if old(out)@.len() as int <= old(self).avail_spec() {
                old(out)@.len() as int
            } else {
                old(self).avail_spec()
            },
            final(out)@.len() == old(out)@.len(),
            final(out)@ == old(self).contents().take(n as int) + old(out)@.skip(n as int),
            final(self).contents() == old(self).contents().skip(n as int),
            final(self).avail_spec() == old(self).avail_spec() - n,
    {
        let avail = self.available();
        let n = if out.len() < avail {
            out.len()
        } else {
            avail
        };
        let cap = self.buf.len();
        let mut r = self.read;
        let mut i: usize = 0;
        while i < n
            invariant
                i <= n,
                n <= out@.len(),
                n as int <= self.avail_spec(),
                r < cap,
                r as int == wrap_at(self.read as int + i as int, cap as int),
                *self == *old(self),
                out@.len() == old(out)@.len(),
                forall|k: int| 0 <= k < i ==> out@[k] == self.contents()[k],
                forall|k: int| i <= k < out@.len() ==> out@[k] == old(out)@[k],
            decreases n - i,
        {
            let s = self.buf[r];
            out.set(i, s);
            r = if r + 1 == cap {
                0
            } else {
                r + 1
            };
            i = i + 1;
        }
        self.read = r;
        proof {
            assert(out@ =~= old(self).contents().take(n as int) + old(out)@.skip(n as int));
            assert(self.contents() =~= old(self).contents().skip(n as int));
        }
        n
    }
}

} // verus!
