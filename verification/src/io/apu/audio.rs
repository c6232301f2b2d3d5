//! The ring buffer of output samples between the sound unit and the audio
//! device.
use vstd::prelude::*;
use vstd::arithmetic::div_mod::{lemma_add_mod_noop, lemma_mod_twice};
use crate::gba::AUDIO_BUFFER_LEN;

verus! {

/// The samples waiting for the audio device, in a ring of
/// `AUDIO_BUFFER_LEN` entries read from `read_i` and written at `write_i`.
pub struct Audio {
    pub buffer: Vec<i16>,
    pub read_i: usize,
    pub write_i: usize,
    pub count: usize,
}

/// The loudness of the output relative to the mixed samples.
pub const VOLUME_FACTOR: i16 = 8;

/// The abstract state of the ring.
#[verifier::ext_equal]
pub struct AudioView {
    pub buffer: Seq<i16>,
    pub read_i: int,
    pub write_i: int,
    pub count: int,
}

/// `(a + b) % AUDIO_BUFFER_LEN`.
pub open spec fn ring_add(a: int, b: int) -> int {
    (a + b) % (AUDIO_BUFFER_LEN as int)
}

impl AudioView {
    pub open spec fn wf(self) -> bool {
        &&& self.buffer.len() == AUDIO_BUFFER_LEN
        &&& 0 <= self.read_i < AUDIO_BUFFER_LEN
        &&& 0 <= self.write_i < AUDIO_BUFFER_LEN
        &&& 0 <= self.count <= AUDIO_BUFFER_LEN
    }

    /// The ring has not overflowed: the samples waiting run from `read_i`
    /// up to `write_i`.
    pub open spec fn consistent(self) -> bool {
        self.write_i == ring_add(self.read_i, self.count)
    }

    /// The samples waiting, oldest first.
    pub open spec fn queued(self) -> Seq<i16> {
        Seq::new(self.count as nat, |k: int| self.buffer[ring_add(self.read_i, k)])
    }

    /// The ring after writing `sample` at `write_i`; the count stops at the
    /// size of the ring, where the oldest samples are overwritten.
    pub open spec fn pushed(self, sample: i16) -> AudioView {
        AudioView {
            buffer: self.buffer.update(self.write_i, sample),
            read_i: self.read_i,
            write_i: ring_add(self.write_i, 1),
            count: if self.count + 1 < AUDIO_BUFFER_LEN { self.count + 1 } else { AUDIO_BUFFER_LEN as int },
        }
    }

    /// The ring after taking the oldest sample.
    pub open spec fn popped(self) -> AudioView {
        AudioView { read_i: ring_add(self.read_i, 1), count: self.count - 1, ..self }
    }
}

impl View for Audio {
    type V = AudioView;

    open spec fn view(&self) -> AudioView {
        AudioView {
            buffer: self.buffer@,
            read_i: self.read_i as int,
            write_i: self.write_i as int,
            count: self.count as int,
        }
    }
}

impl Audio {
    pub fn is_wf(&self) -> (r: bool)
        ensures
            r == self@.wf(),
    {
        self.buffer.len() == AUDIO_BUFFER_LEN && self.read_i < AUDIO_BUFFER_LEN && self.write_i < AUDIO_BUFFER_LEN
            && self.count <= AUDIO_BUFFER_LEN
    }

    /// An empty ring.
    pub fn empty() -> (r: Audio)
        ensures
            r@.wf(),
            r@.consistent(),
            r@.count == 0,
            r@.read_i == 0,
            r@.buffer == Seq::new(AUDIO_BUFFER_LEN as nat, |i: int| 0i16),
    {
        let r = Audio { buffer: vec![0i16; AUDIO_BUFFER_LEN], read_i: 0, write_i: 0, count: 0 };
        assert(r.buffer@ =~= Seq::new(AUDIO_BUFFER_LEN as nat, |i: int| 0i16));
        r
    }

    /// Queues a stereo pair of samples, scaled by the volume factor.
    pub fn queue(&mut self, left_sample: i16, right_sample: i16)
        requires
            old(self)@.wf(),
            -0x1000 <= left_sample < 0x1000,
            -0x1000 <= right_sample < 0x1000,
        ensures
            final(self)@ == old(self)@.pushed((VOLUME_FACTOR * left_sample) as i16).pushed(
                (VOLUME_FACTOR * right_sample) as i16,
            ),
    {
        self.push(VOLUME_FACTOR * left_sample);
        self.push(VOLUME_FACTOR * right_sample);
    }

    pub fn push(&mut self, sample: i16)
        requires
            old(self)@.wf(),
        ensures
            final(self)@ == old(self)@.pushed(sample),
            final(self)@.wf(),
    {
        self.buffer.set(self.write_i, sample);
        self.write_i = (self.write_i + 1) % AUDIO_BUFFER_LEN;
        self.count = if self.count + 1 < self.buffer.len() { self.count + 1 } else { self.buffer.len() };
        assert(self@ =~= old(self)@.pushed(sample));
    }

    /// Takes the oldest sample.
    pub fn pop(&mut self) -> (r: i16)
        requires
            old(self)@.wf(),
            old(self)@.count > 0,
        ensures
            r == old(self)@.buffer[old(self)@.read_i],
            final(self)@ == old(self)@.popped(),
            final(self)@.wf(),
    {
        let value = self.buffer[self.read_i];
        self.count = self.count - 1;
        self.read_i = (self.read_i + 1) % AUDIO_BUFFER_LEN;
        assert(self@ =~= old(self)@.popped());
        value
    }

    /// The sample `i` places after the oldest, around the ring.
    pub fn peek(&self, i: usize) -> (r: i16)
        requires
            self@.wf(),
        ensures
            r == self@.buffer[ring_add(self@.read_i, i as int)],
    {
        let k = (self.read_i + i % AUDIO_BUFFER_LEN) % AUDIO_BUFFER_LEN;
        proof {
            lemma_add_mod_noop(self.read_i as int, i as int, AUDIO_BUFFER_LEN as int);
            lemma_mod_twice(i as int, AUDIO_BUFFER_LEN as int);
            vstd::arithmetic::div_mod::lemma_small_mod(self.read_i as nat, AUDIO_BUFFER_LEN as nat);
        }
        self.buffer[k]
    }

    /// Fills `out` for the audio device: with the samples waiting, taken
    /// from the ring, when there are enough; else with the samples from the
    /// oldest on, repeated around the ring, and nothing taken.
    pub fn callback(&mut self, out: &mut Vec<i16>)
        requires
            old(self)@.wf(),
        ensures
            final(self)@.wf(),
            final(out).len() == old(out).len(),
            forall|i: int|
                0 <= i < old(out).len() ==> #[trigger] final(out)@[i] == old(self)@.buffer[ring_add(
                    old(self)@.read_i,
                    i,
                )],
            old(self)@.count < old(out).len() ==> final(self)@ == old(self)@,
            old(self)@.count >= old(out).len() ==> final(self)@ == (AudioView {
                read_i: ring_add(old(self)@.read_i, old(out).len() as int),
                count: old(self)@.count - old(out).len(),
                ..old(self)@
            }),
    {
        let n = out.len();
        let ghost r0 = self.read_i as int;
        let ghost s0 = self@;
        if self.count < n {
            let mut i: usize = 0;
            while i < n
                invariant
                    self@ == s0,
                    s0.wf(),
                    r0 == s0.read_i,
                    i <= n,
                    out.len() == n,
                    forall|j: int| 0 <= j < i ==> #[trigger] out@[j] == s0.buffer[ring_add(r0, j)],
                decreases n - i,
            {
                let v = self.peek(i % AUDIO_BUFFER_LEN);
                proof {
                    lemma_add_mod_noop(r0, i as int, AUDIO_BUFFER_LEN as int);
                    lemma_add_mod_noop(r0, (i % AUDIO_BUFFER_LEN) as int, AUDIO_BUFFER_LEN as int);
                    lemma_mod_twice(i as int, AUDIO_BUFFER_LEN as int);
                }
                out.set(i, v);
                i = i + 1;
            }
        } else {
            let mut i: usize = 0;
            while i < n
                invariant
                    s0.wf(),
                    r0 == s0.read_i,
                    s0.count >= n,
                    i <= n,
                    out.len() == n,
                    self@ == (AudioView { read_i: ring_add(r0, i as int), count: s0.count - i, ..s0 }),
                    forall|j: int| 0 <= j < i ==> #[trigger] out@[j] == s0.buffer[ring_add(r0, j)],
                decreases n - i,
            {
                let v = self.pop();
                proof {
                    lemma_add_mod_noop(r0 + i, 1, AUDIO_BUFFER_LEN as int);
                    lemma_mod_twice(r0 + i, AUDIO_BUFFER_LEN as int);
                    lemma_mod_twice(1, AUDIO_BUFFER_LEN as int);
                    assert(self@ =~= AudioView { read_i: ring_add(r0, i + 1), count: s0.count - (i + 1), ..s0 });
                }
                out.set(i, v);
                i = i + 1;
            }
        }
    }
}

/// While the ring has not overflowed it is a queue: a push adds the sample
/// after the ones waiting.
pub proof fn lemma_audio_push(a: AudioView, sample: i16)
    requires
        a.wf(),
        a.consistent(),
        a.count < AUDIO_BUFFER_LEN,
    ensures
        a.pushed(sample).consistent(),
        a.pushed(sample).queued() == a.queued().push(sample),
{
    let n = AUDIO_BUFFER_LEN as int;
    lemma_add_mod_noop(a.read_i + a.count, 1, n);
    lemma_mod_twice(a.read_i + a.count, n);
    lemma_mod_twice(1, n);
    assert forall|k: int| 0 <= k < a.count implies ring_add(a.read_i, k) != a.write_i by {
        assert(0 <= a.read_i + k < a.read_i + a.count);
        if a.read_i + a.count < n {
        } else {
            assert(a.read_i + k < 2 * n);
        }
    }
    assert(a.pushed(sample).queued() =~= a.queued().push(sample));
}

/// A pop gives back the oldest sample waiting and removes it.
pub proof fn lemma_audio_pop(a: AudioView)
    requires
        a.wf(),
        a.consistent(),
        a.count > 0,
    ensures
        a.buffer[a.read_i] == a.queued()[0],
        a.popped().consistent(),
        a.popped().queued() == a.queued().drop_first(),
{
    let n = AUDIO_BUFFER_LEN as int;
    lemma_mod_twice(a.read_i, n);
    assert(a.read_i % n == a.read_i);
    lemma_add_mod_noop(a.read_i, 1, n);
    lemma_mod_twice(1, n);
    assert forall|k: int| 0 <= k < a.count - 1 implies ring_add(ring_add(a.read_i, 1), k) == ring_add(a.read_i, k + 1)
        by {
        lemma_add_mod_noop(a.read_i + 1, k, n);
        lemma_mod_twice(a.read_i + 1, n);
        lemma_add_mod_noop(a.read_i, 1, n);
        vstd::arithmetic::div_mod::lemma_add_mod_noop(ring_add(a.read_i, 1), k, n);
        vstd::arithmetic::div_mod::lemma_add_mod_noop(a.read_i + 1, k, n);
    }
    assert(ring_add(ring_add(a.read_i, 1), a.count - 1) == ring_add(a.read_i, a.count)) by {
        lemma_add_mod_noop(a.read_i + 1, a.count - 1, n);
        lemma_mod_twice(a.read_i + 1, n);
        vstd::arithmetic::div_mod::lemma_add_mod_noop(ring_add(a.read_i, 1), a.count - 1, n);
        vstd::arithmetic::div_mod::lemma_add_mod_noop(a.read_i + 1, a.count - 1, n);
    }
    assert(a.popped().queued() =~= a.queued().drop_first());
}

} // verus!
