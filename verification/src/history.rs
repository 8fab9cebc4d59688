//! A bounded, newest-first history of samples.

use std::collections::VecDeque;
use vstd::math::min;
use vstd::prelude::*;

verus! {

/// What a history `s` holds after `v` is pushed under the limit `cap`:
/// `v` in front of `s`, cut at the back to at most `cap` samples.
pub open spec fn pushed<T>(s: Seq<T>, v: T, cap: nat) -> Seq<T> {
    let grown = seq![v] + s;
    if grown.len() <= cap {
        grown
    } else {
        grown.take(cap as int)
    }
}

/// What a history `s` holds after the samples of `values` are pushed one by
/// one, `values[0]` first, under the limit `cap`.
pub open spec fn pushed_all<T>(s: Seq<T>, values: Seq<T>, cap: nat) -> Seq<T>
    decreases values.len(),
{
    if values.len() == 0 {
        s
    } else {
        pushed(pushed_all(s, values.drop_last(), cap), values.last(), cap)
    }
}

/// One point of a chart: a sample and its place in time among the retained
/// samples, counted from the oldest.
#[derive(Clone, Copy, Debug, PartialEq)]
pub struct PlotPoint<T> {
    pub index: usize,
    pub value: T,
}

/// The points of a history `s` in the order of time: point `i` has the
/// index `i` and the `i`-th oldest sample of `s`.
pub open spec fn chronological<T>(s: Seq<T>) -> Seq<PlotPoint<T>> {
    Seq::new(s.len(), |i: int| PlotPoint { index: i as usize, value: s[s.len() - 1 - i] })
}

/// Pushing the `n` samples of `values` onto a history that keeps its limit
/// leaves as many samples as the limit allows, `min(s.len() + n, cap)`, and
/// leaves them newest first: the pushed samples in the reverse of the order
/// in which they came, then the samples of `s` as they stood. Pushed onto an
/// empty history, that is `min(n, cap)` samples.
pub proof fn lemma_pushes_keep_newest<T>(s: Seq<T>, values: Seq<T>, cap: nat)
    requires
        s.len() <= cap,
    ensures
        pushed_all(s, values, cap).len() == min((s.len() + values.len()) as int, cap as int),
        forall|i: int|
            0 <= i < pushed_all(s, values, cap).len() ==> #[trigger] pushed_all(s, values, cap)[i]
                == if i < values.len() {
                values[values.len() - 1 - i]
            } else {
                s[i - values.len()]
            },
    decreases values.len(),
{
    if values.len() > 0 {
        lemma_pushes_keep_newest(s, values.drop_last(), cap);
    }
}

/// The points of a history come in the order of time: there is one point for
/// each sample, point `i` has the index `i`, so the indices run from 0 and
/// increase strictly, and point 0 holds the oldest sample.
pub proof fn lemma_chronological_points<T>(s: Seq<T>)
    requires
        s.len() <= usize::MAX,
    ensures
        chronological(s).len() == s.len(),
        forall|i: int|
            0 <= i < s.len() ==> (#[trigger] chronological(s)[i]).index == i && chronological(
                s,
            )[i].value == s[s.len() - 1 - i],
        forall|i: int, j: int|
            0 <= i < j < s.len() ==> (#[trigger] chronological(s)[i]).index < (
            #[trigger] chronological(s)[j]).index,
        s.len() > 0 ==> chronological(s)[0].value == s.last(),
{
}

/// The samples that were retained, newest first, never more than `CAP` of
/// them.
///
/// The view is the sequence of samples from the newest (index 0) to the
/// oldest.
pub struct SampleHistory<T, const CAP: usize> {
    samples: VecDeque<T>,
}

impl<T, const CAP: usize> View for SampleHistory<T, CAP> {
    type V = Seq<T>;

    closed spec fn view(&self) -> Seq<T> {
        self.samples@
    }
}

impl<T, const CAP: usize> SampleHistory<T, CAP> {
    /// The invariant of every history: it holds no more than `CAP` samples.
    #[verifier::type_invariant]
    pub open spec fn bounded(self) -> bool {
        self@.len() <= CAP
    }

    /// An empty history.
    pub fn new() -> (history: Self)
        ensures
            history@ == Seq::<T>::empty(),
    {
        SampleHistory { samples: VecDeque::new() }
    }

    /// The number of samples retained.
    pub fn len(&self) -> (len: usize)
        ensures
            len == self@.len(),
            len <= CAP,
    {
        proof {
            use_type_invariant(self);
        }
        self.samples.len()
    }

    /// Puts `sample` in front and drops the oldest samples beyond the limit.
    pub fn push(&mut self, sample: T)
        ensures
            final(self)@ == pushed(old(self)@, sample, CAP as nat),
    {
        // The deque is taken out while it may be one over the limit, so that
        // the invariant holds of `self` at every point.
        let mut samples: VecDeque<T> = VecDeque::new();
        std::mem::swap(&mut samples, &mut self.samples);
        samples.push_front(sample);
        samples.truncate(CAP);
        self.samples = samples;
    }
}

impl<T: Copy, const CAP: usize> SampleHistory<T, CAP> {
    /// The sample at `index`, counted from the newest; `None` beyond the
    /// oldest.
    pub fn get(&self, index: usize) -> (sample: Option<T>)
        ensures
            sample == if index < self@.len() {
                Some(self@[index as int])
            } else {
                None
            },
    {
        if index < self.samples.len() {
            Some(self.samples[index])
        } else {
            None
        }
    }

    /// The retained samples as chart points, oldest first.
    pub fn plot_points(&self) -> (points: Vec<PlotPoint<T>>)
        ensures
            points@ == chronological(self@),
    {
        let len: usize = self.samples.len();
        let mut points: Vec<PlotPoint<T>> = Vec::with_capacity(len);
        let mut index: usize = 0;
        while index < len
            invariant
                len == self.samples@.len(),
                index <= len,
                points@ == chronological(self@).take(index as int),
            decreases len - index,
        {
            points.push(PlotPoint { index, value: self.samples[len - 1 - index] });
            index += 1;
        }
        points
    }
}

} // verus!
