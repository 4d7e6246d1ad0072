//! The edge sentinel's audio window: a FIFO that keeps only the most recent
//! `BUFFER_SECONDS` seconds of samples.

use vstd::prelude::*;
use std::collections::VecDeque;

verus! {

/// How many seconds of audio the window holds.
pub const BUFFER_SECONDS: usize = 5;

/// The window after one push: when it already holds `capacity` samples, the
/// oldest one leaves before the new one enters.
pub open spec fn pushed<T>(window: Seq<T>, capacity: nat, sample: T) -> Seq<T> {
    if window.len() == capacity && window.len() > 0 {
        window.drop_first().push(sample)
    } else {
        window.push(sample)
    }
}

/// The window after pushing each of `samples` in order.
pub open spec fn pushed_all<T>(window: Seq<T>, capacity: nat, samples: Seq<T>) -> Seq<T>
    decreases samples.len(),
{
    if samples.len() == 0 {
        window
    } else {
        pushed(pushed_all(window, capacity, samples.drop_last()), capacity, samples.last())
    }
}

/// The last `n` elements of `s` (all of `s` when it is shorter).
pub open spec fn most_recent<T>(s: Seq<T>, n: nat) -> Seq<T> {
    if s.len() <= n {
        s
    } else {
        s.subrange(s.len() - n, s.len() as int)
    }
}

/// A bounded window of audio samples for a microphone running at
/// `sample_rate` Hz.
pub struct SharedBuffer<T> {
    sample_rate: u32,
    samples: VecDeque<T>,
}

impl<T> View for SharedBuffer<T> {
    type V = Seq<T>;

    /// The samples held, oldest first.
    closed spec fn view(&self) -> Seq<T> {
        self.samples@
    }
}

impl<T> SharedBuffer<T> {
    /// The sample rate the window was made for.
    pub closed spec fn rate(&self) -> u32 {
        self.sample_rate
    }

    /// How many samples the window keeps: `BUFFER_SECONDS` seconds of audio.
    pub open spec fn capacity(&self) -> nat {
        self.rate() as nat * BUFFER_SECONDS as nat
    }

    /// The window's invariant: its capacity fits in a `usize`, and a window
    /// with room for at least one sample never holds more than it has room for.
    #[verifier::type_invariant]
    closed spec fn well_formed(self) -> bool {
        &&& self.sample_rate as nat * BUFFER_SECONDS as nat <= usize::MAX
        &&& self.sample_rate > 0 ==> self.samples@.len() <= self.sample_rate as nat
            * BUFFER_SECONDS as nat
    }

    /// An empty window for audio at `sample_rate` Hz.
    pub fn new(sample_rate: u32) -> (buffer: Self)
        requires
            sample_rate as nat * BUFFER_SECONDS as nat <= usize::MAX,
        ensures
            buffer@ == Seq::<T>::empty(),
            buffer.rate() == sample_rate,
    {
        let capacity: usize = sample_rate as usize * BUFFER_SECONDS;
        SharedBuffer { sample_rate, samples: VecDeque::with_capacity(capacity) }
    }

    /// Appends `sample`, first dropping the oldest sample when the window is
    /// full.
    pub fn push(&mut self, sample: T)
        ensures
            final(self)@ == pushed(old(self)@, old(self).capacity(), sample),
            final(self).rate() == old(self).rate(),
            old(self).capacity() > 0 ==> final(self)@.len() <= old(self).capacity(),
    {
        proof {
            use_type_invariant(&*self);
        }
        let max_samples: usize = self.sample_rate as usize * BUFFER_SECONDS;
        let mut samples: VecDeque<T> = VecDeque::new();
        std::mem::swap(&mut samples, &mut self.samples);
        if samples.len() == max_samples {
            samples.pop_front();
        }
        samples.push_back(sample);
        proof {
            let before = old(self)@;
            if before.len() == max_samples && before.len() > 0 {
                assert(before.subrange(1, before.len() as int) =~= before.drop_first());
            }
        }
        self.samples = samples;
    }

    /// A copy of the samples held, oldest first.
    pub fn snapshot(&self) -> (copy: Vec<T>)
        where
            T: Copy,
        ensures
            copy@ == self@,
    {
        let mut copy: Vec<T> = Vec::new();
        let n = self.samples.len();
        let mut i: usize = 0;
        while i < n
            invariant
                i <= n,
                n == self.samples@.len(),
                copy@ == self.samples@.subrange(0, i as int),
            decreases n - i,
        {
            copy.push(self.samples[i]);
            i = i + 1;
        }
        assert(copy@ =~= self.samples@);
        copy
    }
}

/// The window keeps exactly the most recent samples: starting from a window
/// that is not over capacity, pushing `samples` one by one leaves the last
/// `capacity` of everything pushed so far (all of it while it fits).
pub proof fn law_window_keeps_most_recent<T>(window: Seq<T>, capacity: nat, samples: Seq<T>)
    requires
        capacity > 0,
        window.len() <= capacity,
    ensures
        pushed_all(window, capacity, samples) == most_recent(window + samples, capacity),
    decreases samples.len(),
{
    if samples.len() == 0 {
        assert(window + samples =~= window);
    } else {
        let prefix = samples.drop_last();
        let x = samples.last();
        law_window_keeps_most_recent(window, capacity, prefix);
        let before = pushed_all(window, capacity, prefix);
        let all_before = window + prefix;
        let all = window + samples;
        assert(all =~= all_before.push(x));
        if all_before.len() < capacity {
            assert(before == all_before);
            assert(pushed(before, capacity, x) =~= most_recent(all, capacity));
        } else {
            assert(before == all_before.subrange(all_before.len() - capacity, all_before.len() as int));
            assert(before.len() == capacity);
            assert(pushed(before, capacity, x) =~= most_recent(all, capacity));
        }
    }
}

/// A window made by `new` and then fed `samples` holds the last
/// `sample_rate * BUFFER_SECONDS` of them, for any positive sample rate.
pub proof fn law_fresh_window_keeps_most_recent<T>(sample_rate: u32, samples: Seq<T>)
    requires
        sample_rate > 0,
    ensures
        pushed_all(Seq::<T>::empty(), sample_rate as nat * BUFFER_SECONDS as nat, samples)
            == most_recent(samples, sample_rate as nat * BUFFER_SECONDS as nat),
{
    law_window_keeps_most_recent(Seq::<T>::empty(), sample_rate as nat * BUFFER_SECONDS as nat, samples);
    assert(Seq::<T>::empty() + samples =~= samples);
}

} // verus!
