//! Small helpers shared by the dashboard's data sources: a bounded
//! sample buffer for chart history, the title/status string, and the
//! time-axis label values.

use std::collections::VecDeque;
use vstd::prelude::*;
use vstd::string::StringExecFns;

verus! {

/// A bounded buffer of the most recent samples: inserting beyond the
/// capacity `N` evicts the oldest sample.
pub struct SampleBuf<T, const N: usize> {
    samples: VecDeque<T>,
}

impl<T, const N: usize> View for SampleBuf<T, N> {
    type V = Seq<T>;

    closed spec fn view(&self) -> Seq<T> {
        self.samples@
    }
}

impl<T, const N: usize> SampleBuf<T, N> {
    /// An empty buffer.
    pub fn new() -> (r: Self)
        ensures
            r@ == Seq::<T>::empty(),
    {
        SampleBuf { samples: VecDeque::new() }
    }

    /// Insert a sample at the back and evict the oldest if the buffer
    /// would exceed its capacity.
    pub fn insert(&mut self, sample: T)
        ensures
            final(self)@ == (if old(self)@.len() + 1 > N {
                old(self)@.push(sample).drop_first()
            } else {
                old(self)@.push(sample)
            }),
            old(self)@.len() <= N ==> final(self)@.len() <= N,
    {
        self.samples.push_back(sample);
        if self.samples.len() > N {
            let _evicted = self.samples.pop_front();
            proof {
                assert(old(self)@.push(sample).subrange(
                    1,
                    old(self)@.push(sample).len() as int,
                ) =~= old(self)@.push(sample).drop_first());
            }
        }
    }

    /// How many samples the buffer currently holds.
    pub fn len(&self) -> (r: usize)
        ensures
            r == self@.len(),
    {
        self.samples.len()
    }
}

impl<T: Copy, const N: usize> SampleBuf<T, N> {
    /// The sample at position `i`, oldest first.
    pub fn sample(&self, i: usize) -> (r: T)
        requires
            i < self@.len(),
        ensures
            r == self@[i as int],
    {
        self.samples[i]
    }
}

impl<T, const N: usize> Default for SampleBuf<T, N> {
    fn default() -> (r: Self)
        ensures
            r@ == Seq::<T>::empty(),
    {
        SampleBuf { samples: VecDeque::new() }
    }
}

/// Combine a title string with a visual status indicator character.
pub fn title_str_with_status(title: &str, success: bool) -> (r: String)
    ensures
        r@ == title@ + (if success {
            " ✅"@
        } else {
            " ❌"@
        }),
{
    let mut s = String::from_str(title);
    if success {
        s.append(" ✅");
    } else {
        s.append(" ❌");
    }
    s
}

/// The first, middle and last time values a chart's x-axis shows: the
/// most recent `max_samples` ticks of a clock now at `t`.
pub fn time_label_values(t: usize, max_samples: usize) -> (r: (usize, usize, usize))
    ensures
        t <= max_samples ==> r == (0usize, max_samples / 2, max_samples),
        t > max_samples ==> r == ((t - max_samples) as usize, (t - max_samples / 2) as usize, t),
{
    if t <= max_samples {
        (0, max_samples / 2, max_samples)
    } else {
        (t - max_samples, t - max_samples / 2, t)
    }
}

} // verus!
