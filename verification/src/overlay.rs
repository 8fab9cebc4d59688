//! The overlay's frame step: from the host's readings to what is drawn.

use crate::history::{chronological, pushed, PlotPoint, SampleHistory};
use vstd::prelude::*;

verus! {

/// The number of samples each of the overlay's histories retains.
pub const HISTORY_CAP: usize = 2000;

/// The height the window has when it first appears.
pub const WINDOW_DEFAULT_HEIGHT: u16 = 400;

/// The height of each chart.
pub const PLOT_HEIGHT: u16 = 200;

/// A snapshot of one of the host's metrics: the value measured last and a
/// smoothed average, each of which the host may not have yet.
#[derive(Clone, Copy, Debug, PartialEq)]
pub struct Reading<T> {
    pub value: Option<T>,
    pub average: Option<T>,
}

/// What one frame shows: the value in the window's title and, for each
/// metric that had a fresh value, the points of its chart, oldest first.
///
/// The frame-time chart carries a reference line at the mean of its points'
/// values; the frame-rate chart does not.
#[derive(Debug)]
pub struct Window<T> {
    pub title_value: T,
    pub fps_points: Option<Vec<PlotPoint<T>>>,
    pub frame_time_points: Option<Vec<PlotPoint<T>>>,
}

/// The sample that a metric contributes to its history in a frame, if any.
pub open spec fn fresh_value<T>(reading: Option<Reading<T>>) -> Option<T> {
    match reading {
        Some(r) => r.value,
        None => None,
    }
}

/// A history `s` after a frame in which `sample` was measured, or nothing
/// was: the sample is pushed, or `s` stays as it is.
pub open spec fn recorded<T>(s: Seq<T>, sample: Option<T>) -> Seq<T> {
    match sample {
        Some(v) => pushed(s, v, HISTORY_CAP as nat),
        None => s,
    }
}

/// The chart of a metric in a frame: none without a fresh sample, else the
/// points of the history as it stands `after` the frame.
pub open spec fn charted<T>(
    sample: Option<T>,
    after: Seq<T>,
    points: Option<Vec<PlotPoint<T>>>,
) -> bool {
    match points {
        Some(p) => sample is Some && p@ == chronological(after),
        None => sample is None,
    }
}

/// The value in the title: the average of the frame-rate reading, or `zero`
/// while there is none.
pub open spec fn title_value<T>(reading: Reading<T>, zero: T) -> T {
    match reading.average {
        Some(average) => average,
        None => zero,
    }
}

/// Records `sample`, if there is one, and charts the history.
fn record<T: Copy>(history: &mut SampleHistory<T, HISTORY_CAP>, sample: Option<T>) -> (points:
    Option<Vec<PlotPoint<T>>>)
    ensures
        final(history)@ == recorded(old(history)@, sample),
        charted(sample, final(history)@, points),
{
    match sample {
        Some(value) => {
            history.push(value);
            Some(history.plot_points())
        },
        None => None,
    }
}

/// The overlay's state between frames: the frame-rate samples, the
/// frame-time samples, and the value that stands in the title while the host
/// has no average.
pub struct Overlay<T> {
    fps: SampleHistory<T, HISTORY_CAP>,
    frame_times: SampleHistory<T, HISTORY_CAP>,
    zero: T,
}

impl<T: Copy> Overlay<T> {
    /// The retained frame-rate samples, newest first.
    pub closed spec fn fps_samples(&self) -> Seq<T> {
        self.fps@
    }

    /// The retained frame-time samples, newest first.
    pub closed spec fn frame_time_samples(&self) -> Seq<T> {
        self.frame_times@
    }

    /// The value the title shows while the host has no average.
    pub closed spec fn zero(&self) -> T {
        self.zero
    }

    /// An overlay with empty histories. `zero` is the sample type's zero.
    pub fn new(zero: T) -> (overlay: Self)
        ensures
            overlay.fps_samples() == Seq::<T>::empty(),
            overlay.frame_time_samples() == Seq::<T>::empty(),
            overlay.zero() == zero,
    {
        Overlay { fps: SampleHistory::new(), frame_times: SampleHistory::new(), zero }
    }

    /// The history of frame-rate samples.
    pub fn fps_history(&self) -> (history: &SampleHistory<T, HISTORY_CAP>)
        ensures
            history@ == self.fps_samples(),
    {
        &self.fps
    }

    /// The history of frame-time samples.
    pub fn frame_time_history(&self) -> (history: &SampleHistory<T, HISTORY_CAP>)
        ensures
            history@ == self.frame_time_samples(),
    {
        &self.frame_times
    }

    /// One frame. `fps` and `frame_time` are the host's readings of the two
    /// metrics, `None` where the host has no such metric.
    ///
    /// Without a frame-rate reading nothing is shown and nothing is
    /// recorded. With one, the window is shown, and each metric that has a
    /// fresh value records it and gets its chart, the one whether or not the
    /// other does.
    pub fn update(&mut self, fps: Option<Reading<T>>, frame_time: Option<Reading<T>>) -> (window:
        Option<Window<T>>)
        ensures
            final(self).zero() == old(self).zero(),
            final(self).fps_samples().len() <= HISTORY_CAP,
            final(self).frame_time_samples().len() <= HISTORY_CAP,
            match fps {
                None => {
                    &&& window is None
                    &&& final(self).fps_samples() == old(self).fps_samples()
                    &&& final(self).frame_time_samples() == old(self).frame_time_samples()
                },
                Some(reading) => {
                    &&& window matches Some(w)
                    &&& w.title_value == title_value(reading, old(self).zero())
                    &&& final(self).fps_samples() == recorded(old(self).fps_samples(), reading.value)
                    &&& final(self).frame_time_samples() == recorded(
                        old(self).frame_time_samples(),
                        fresh_value(frame_time),
                    )
                    &&& charted(reading.value, final(self).fps_samples(), w.fps_points)
                    &&& charted(
                        fresh_value(frame_time),
                        final(self).frame_time_samples(),
                        w.frame_time_points,
                    )
                },
            },
    {
        proof {
            use_type_invariant(&self.fps);
            use_type_invariant(&self.frame_times);
        }
        let reading = match fps {
            Some(reading) => reading,
            None => {
                return None;
            },
        };
        let title_value = match reading.average {
            Some(average) => average,
            None => self.zero,
        };
        let fps_points = record(&mut self.fps, reading.value);
        let frame_time_value = match frame_time {
            Some(frame_time) => frame_time.value,
            None => None,
        };
        let frame_time_points = record(&mut self.frame_times, frame_time_value);
        proof {
            use_type_invariant(&self.fps);
            use_type_invariant(&self.frame_times);
        }
        Some(Window { title_value, fps_points, frame_time_points })
    }
}

} // verus!
