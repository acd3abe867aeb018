//! The bounded history of price samples that the charts are drawn from.
//!
//! A window keeps the most recent samples, at most its capacity of them, and
//! stamps each sample it accepts with the next value of a counter that
//! starts at zero. When a sample does not fit, the oldest one leaves.

use crate::price::Price;
use vstd::prelude::*;

verus! {

/// The capacity of a window made by `SampleWindow::new`.
pub const DEFAULT_CAPACITY: usize = 200;

/// One observation: when it was taken and the two prices seen then.
#[derive(Clone, Copy, Debug, PartialEq, Eq, Structural)]
pub struct Sample {
    pub timestamp: u64,
    pub buy_price: Price,
    pub sell_price: Price,
}

/// What a window is, mathematically: its capacity, the samples it retains
/// from oldest to newest, the timestamp that the next sample will get, and
/// the timestamp at which the time axis starts.
pub struct WindowModel {
    pub capacity: nat,
    pub samples: Seq<Sample>,
    pub time: nat,
    pub time_min: nat,
}

impl WindowModel {
    /// A window of the given capacity that has accepted nothing yet.
    pub open spec fn empty(capacity: nat) -> WindowModel {
        WindowModel { capacity, samples: Seq::empty(), time: 0, time_min: 0 }
    }

    /// The window after it has accepted one more sample: the sample is
    /// stamped with the current time and appended, time advances by one, and
    /// if the window is then over capacity its oldest sample leaves and the
    /// time axis starts one later.
    pub open spec fn add(self, buy_price: Price, sell_price: Price) -> WindowModel {
        let appended = self.samples.push(
            Sample { timestamp: self.time as u64, buy_price, sell_price },
        );
        if appended.len() > self.capacity {
            WindowModel {
                capacity: self.capacity,
                samples: appended.drop_first(),
                time: self.time + 1,
                time_min: self.time_min + 1,
            }
        } else {
            WindowModel {
                capacity: self.capacity,
                samples: appended,
                time: self.time + 1,
                time_min: self.time_min,
            }
        }
    }

    /// The window after it has accepted every pair of `prices` in turn, each
    /// pair a buy price and a sell price.
    pub open spec fn add_all(self, prices: Seq<(Price, Price)>) -> WindowModel
        decreases prices.len(),
    {
        if prices.len() == 0 {
            self
        } else {
            self.add_all(prices.drop_last()).add(prices.last().0, prices.last().1)
        }
    }

    /// The invariant of a window: it is never over capacity, it is full once
    /// anything has left it, and its samples carry the consecutive
    /// timestamps from `time_min` up to, but not including, `time`.
    pub open spec fn wf(self) -> bool {
        &&& self.samples.len() <= self.capacity
        &&& self.time_min + self.samples.len() == self.time
        &&& self.time_min > 0 ==> self.samples.len() == self.capacity
        &&& forall|i: int|
            0 <= i < self.samples.len() ==> (#[trigger] self.samples[i]).timestamp == (
            self.time_min + i) as u64
    }

    /// The buy prices of the retained samples, each with its timestamp.
    pub open spec fn buy_series(self) -> Seq<(u64, Price)> {
        self.samples.map_values(|s: Sample| (s.timestamp, s.buy_price))
    }

    /// The sell prices of the retained samples, each with its timestamp.
    pub open spec fn sell_series(self) -> Seq<(u64, Price)> {
        self.samples.map_values(|s: Sample| (s.timestamp, s.sell_price))
    }
}

/// An empty window is well formed.
pub proof fn lemma_empty_wf(capacity: nat)
    ensures
        WindowModel::empty(capacity).wf(),
{
}

/// Accepting a sample keeps a window well formed and never takes it over
/// capacity. The new sample is stamped with the time before the call. While
/// the window has room its length grows by one and the time axis stays;
/// once it is full its length stays and the axis starts exactly one later.
pub proof fn lemma_add_step(w: WindowModel, buy_price: Price, sell_price: Price)
    requires
        w.wf(),
    ensures
        w.add(buy_price, sell_price).wf(),
        w.add(buy_price, sell_price).capacity == w.capacity,
        w.add(buy_price, sell_price).samples.len() <= w.capacity,
        w.add(buy_price, sell_price).time == w.time + 1,
        w.samples.len() < w.capacity ==> {
            &&& w.add(buy_price, sell_price).samples.len() == w.samples.len() + 1
            &&& w.add(buy_price, sell_price).time_min == w.time_min
        },
        w.samples.len() == w.capacity ==> {
            &&& w.add(buy_price, sell_price).samples.len() == w.samples.len()
            &&& w.add(buy_price, sell_price).time_min == w.time_min + 1
        },
        w.capacity > 0 ==> w.add(buy_price, sell_price).samples.last() == (Sample {
            timestamp: w.time as u64,
            buy_price,
            sell_price,
        }),
{
}

/// In a well-formed window whose time fits the type of a timestamp, the
/// timestamps start at `time_min` and rise by exactly one from each sample
/// to the next: they are strictly increasing and have no gaps, whatever has
/// left the window before.
pub proof fn lemma_timestamps_contiguous(w: WindowModel)
    requires
        w.wf(),
        w.time <= u64::MAX,
    ensures
        forall|i: int|
            0 <= i < w.samples.len() ==> (#[trigger] w.samples[i]).timestamp == w.time_min + i,
        forall|i: int|
            0 <= i < w.samples.len() - 1 ==> (#[trigger] w.samples[i]).timestamp + 1
                == w.samples[i + 1].timestamp,
        forall|i: int, j: int|
            0 <= i < j < w.samples.len() ==> (#[trigger] w.samples[i]).timestamp < (
            #[trigger] w.samples[j]).timestamp,
        w.samples.len() > 0 ==> w.samples.first().timestamp == w.time_min,
        w.samples.len() > 0 ==> w.samples.last().timestamp + 1 == w.time,
{
}

/// The number of samples that a window of the given capacity retains after
/// it has accepted `added` of them.
pub open spec fn retained(capacity: nat, added: nat) -> nat {
    if added <= capacity {
        added
    } else {
        capacity
    }
}

/// Whatever sequence of samples an empty window accepts, it never holds
/// more than its capacity: it ends up with the last `capacity` of them, or
/// with all of them if they are fewer. The time axis starts at the number of
/// samples accepted less the number retained: at zero until the window is
/// full, at `added - capacity` from then on. The k-th sample accepted,
/// counting from zero, carries the timestamp k.
pub proof fn lemma_window_after_adds(capacity: nat, prices: Seq<(Price, Price)>)
    ensures
        ({
            let w = WindowModel::empty(capacity).add_all(prices);
            &&& w.wf()
            &&& w.capacity == capacity
            &&& w.time == prices.len()
            &&& w.samples.len() == retained(capacity, prices.len())
            &&& w.samples.len() <= capacity
            &&& w.time_min == prices.len() - retained(capacity, prices.len())
            &&& forall|i: int|
                0 <= i < w.samples.len() ==> #[trigger] w.samples[i] == (Sample {
                    timestamp: (w.time_min + i) as u64,
                    buy_price: prices[w.time_min + i].0,
                    sell_price: prices[w.time_min + i].1,
                })
        }),
    decreases prices.len(),
{
    if prices.len() > 0 {
        let front = prices.drop_last();
        lemma_window_after_adds(capacity, front);
        let before = WindowModel::empty(capacity).add_all(front);
        let w = before.add(prices.last().0, prices.last().1);
        lemma_add_step(before, prices.last().0, prices.last().1);
        assert forall|i: int| 0 <= i < w.samples.len() implies #[trigger] w.samples[i] == (Sample {
            timestamp: (w.time_min + i) as u64,
            buy_price: prices[w.time_min + i].0,
            sell_price: prices[w.time_min + i].1,
        }) by {
            if w.time_min + i < front.len() {
                assert(front[w.time_min + i] == prices[w.time_min + i]);
                assert(w.samples[i] == before.samples[w.time_min + i - before.time_min]);
            }
        }
    }
}

/// A bounded, time-ordered store of samples with first-in, first-out
/// eviction.
#[derive(Debug)]
pub struct SampleWindow {
    samples: Vec<Sample>,
    capacity: usize,
    time: u64,
    time_min: u64,
}

impl View for SampleWindow {
    type V = WindowModel;

    closed spec fn view(&self) -> WindowModel {
        WindowModel {
            capacity: self.capacity as nat,
            samples: self.samples@,
            time: self.time as nat,
            time_min: self.time_min as nat,
        }
    }
}

impl SampleWindow {
    /// Whether the window satisfies its invariant, `WindowModel::wf`.
    pub closed spec fn wf(&self) -> bool {
        self@.wf()
    }

    /// A well-formed window satisfies the invariant of its model, its
    /// capacity fits a `usize`, and its time fits a timestamp.
    pub proof fn lemma_wf(&self)
        requires
            self.wf(),
        ensures
            self@.wf(),
            self@.capacity <= usize::MAX,
            self@.time <= u64::MAX,
    {
    }

    /// An empty window of the default capacity.
    pub fn new() -> (window: SampleWindow)
        ensures
            window.wf(),
            window@ == WindowModel::empty(DEFAULT_CAPACITY as nat),
    {
        SampleWindow { samples: Vec::new(), capacity: DEFAULT_CAPACITY, time: 0, time_min: 0 }
    }

    /// An empty window that retains at most `capacity` samples.
    pub fn with_capacity(capacity: usize) -> (window: SampleWindow)
        ensures
            window.wf(),
            window@ == WindowModel::empty(capacity as nat),
    {
        SampleWindow { samples: Vec::new(), capacity, time: 0, time_min: 0 }
    }

    /// Appends a sample stamped with the current time and advances the time
    /// by one. If the window is then over capacity, the oldest sample is
    /// evicted and `time_min` moves on by one.
    ///
    /// The time is a `u64`, so a window accepts at most `u64::MAX` samples
    /// between two resets.
    pub fn add(&mut self, buy_price: Price, sell_price: Price)
        requires
            old(self).wf(),
            old(self)@.time < u64::MAX,
        ensures
            final(self).wf(),
            final(self)@ == old(self)@.add(buy_price, sell_price),
            final(self)@.samples.len() <= final(self)@.capacity,
            final(self)@.time == old(self)@.time + 1,
            final(self)@.time_min == if old(self)@.samples.len() == old(self)@.capacity {
                old(self)@.time_min + 1
            } else {
                old(self)@.time_min
            },
    {
        self.samples.push(Sample { timestamp: self.time, buy_price, sell_price });
        self.time = self.time + 1;
        if self.samples.len() > self.capacity {
            self.samples.remove(0);
            self.time_min = self.time_min + 1;
        }
        proof {
            lemma_add_step(old(self)@, buy_price, sell_price);
            assert(self@.samples =~= old(self)@.add(buy_price, sell_price).samples);
        }
    }

    /// Forgets every sample and starts the time again at zero. The capacity
    /// stays.
    pub fn reset(&mut self)
        requires
            old(self).wf(),
        ensures
            final(self).wf(),
            final(self)@ == WindowModel::empty(old(self)@.capacity),
    {
        self.samples.clear();
        self.time = 0;
        self.time_min = 0;
    }

    /// The number of samples retained.
    pub fn len(&self) -> (n: usize)
        ensures
            n == self@.samples.len(),
    {
        self.samples.len()
    }

    /// Whether no sample is retained.
    pub fn is_empty(&self) -> (empty: bool)
        ensures
            empty == (self@.samples.len() == 0),
    {
        self.samples.len() == 0
    }

    /// The most samples that the window retains.
    pub fn capacity(&self) -> (capacity: usize)
        ensures
            capacity == self@.capacity,
    {
        self.capacity
    }

    /// The timestamp at which the time axis starts: that of the oldest
    /// retained sample, if there is one.
    pub fn time_min(&self) -> (time_min: u64)
        ensures
            time_min == self@.time_min,
    {
        self.time_min
    }

    /// The timestamp that the next sample will get, which is also the number
    /// of samples accepted since the window was made or last reset.
    pub fn current_time(&self) -> (time: u64)
        ensures
            time == self@.time,
    {
        self.time
    }

    /// The bounds `[time_min, current_time)` of the time axis.
    pub fn time_bounds(&self) -> (bounds: (u64, u64))
        ensures
            bounds.0 == self@.time_min,
            bounds.1 == self@.time,
    {
        (self.time_min, self.time)
    }

    /// The retained samples, oldest first.
    pub fn samples(&self) -> (samples: &Vec<Sample>)
        ensures
            samples@ == self@.samples,
    {
        &self.samples
    }

    /// The buy prices of the retained samples, oldest first, each with its
    /// timestamp.
    pub fn buy_series(&self) -> (series: Vec<(u64, Price)>)
        ensures
            series@ == self@.buy_series(),
    {
        let mut series: Vec<(u64, Price)> = Vec::new();
        let mut i: usize = 0;
        while i < self.samples.len()
            invariant
                i <= self.samples.len(),
                series@ == self@.buy_series().take(i as int),
            decreases self.samples.len() - i,
        {
            let sample = self.samples[i];
            series.push((sample.timestamp, sample.buy_price));
            i += 1;
        }
        series
    }

    /// The sell prices of the retained samples, oldest first, each with its
    /// timestamp.
    pub fn sell_series(&self) -> (series: Vec<(u64, Price)>)
        ensures
            series@ == self@.sell_series(),
    {
        let mut series: Vec<(u64, Price)> = Vec::new();
        let mut i: usize = 0;
        while i < self.samples.len()
            invariant
                i <= self.samples.len(),
                series@ == self@.sell_series().take(i as int),
            decreases self.samples.len() - i,
        {
            let sample = self.samples[i];
            series.push((sample.timestamp, sample.sell_price));
            i += 1;
        }
        series
    }
}

} // verus!
