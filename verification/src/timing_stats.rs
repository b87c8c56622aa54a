//! Timing statistics of one component: the time from frame to frame, the
//! time that named parts of the work take, and named values that are tracked
//! alongside. Every 120 frames the averages are handed out and the count
//! starts anew.
//!
//! Times are microseconds on a clock that the caller reads.
use vstd::prelude::*;

verus! {

/// How many frame periods make one summary.
pub const TIMING_ACCUMULATOR_SIZE: usize = 120;

/// The samples that were recorded under one label.
pub struct Series {
    pub label: String,
    pub samples: Vec<u64>,
    /// What the samples are counted in, for display.
    pub unit: String,
}

/// A timer that is running.
pub struct Tracker {
    pub label: String,
    /// When the timer was started.
    pub started: u64,
}

/// What one series comes to.
pub struct SeriesSummary {
    pub label: String,
    /// The sum of the samples.
    pub sum: u128,
    /// How many samples there were.
    pub count: usize,
    pub unit: String,
}

/// The averages of one round of frames.
pub struct TimingSummary {
    /// The component that the statistics are of.
    pub label: String,
    /// The average time from one frame to the next, rounded down.
    pub average_period: u64,
    /// The named timers, in the order in which they first ended.
    pub timers: Vec<SeriesSummary>,
    /// The tracked values, in the order in which they first came.
    pub values: Vec<SeriesSummary>,
}

/// A series as a value: its label, samples and unit.
pub struct SeriesView {
    pub label: Seq<char>,
    pub samples: Seq<u64>,
    pub unit: Seq<char>,
}

impl View for Series {
    type V = SeriesView;

    open spec fn view(&self) -> SeriesView {
        SeriesView { label: self.label@, samples: self.samples@, unit: self.unit@ }
    }
}

/// The series of a list, as values.
pub open spec fn series_of(list: Seq<Series>) -> Seq<SeriesView> {
    Seq::new(list.len(), |i: int| list[i]@)
}

/// The sum of `samples`.
pub open spec fn total(samples: Seq<u64>) -> int
    decreases samples.len(),
{
    if samples.len() == 0 {
        0
    } else {
        total(samples.drop_last()) + samples.last()
    }
}

/// Where the series labelled `label` stands in `list`: the first of that
/// label, if there is one.
pub open spec fn find_series(list: Seq<SeriesView>, label: Seq<char>) -> Option<int> {
    if exists|i: int| 0 <= i < list.len() && (#[trigger] list[i]).label == label {
        Some(
            choose|i: int|
                0 <= i < list.len() && (#[trigger] list[i]).label == label && forall|j: int|
                    0 <= j < i ==> (#[trigger] list[j]).label != label,
        )
    } else {
        None
    }
}

/// `list` with `sample` recorded under `label`: added to the series of that
/// label, which takes the unit `unit`, or as the first sample of a new series
/// at the end.
pub open spec fn with_sample(
    list: Seq<SeriesView>,
    label: Seq<char>,
    sample: u64,
    unit: Seq<char>,
) -> Seq<SeriesView> {
    match find_series(list, label) {
        Some(i) => list.update(
            i,
            SeriesView { label: list[i].label, samples: list[i].samples.push(sample), unit },
        ),
        None => list.push(SeriesView { label, samples: seq![sample], unit }),
    }
}

/// Where the timer labelled `label` stands among the running timers: the
/// first of that label, if there is one.
pub open spec fn find_tracker(running: Seq<(Seq<char>, u64)>, label: Seq<char>) -> Option<int> {
    if exists|i: int| 0 <= i < running.len() && (#[trigger] running[i]).0 == label {
        Some(
            choose|i: int|
                0 <= i < running.len() && (#[trigger] running[i]).0 == label && forall|j: int|
                    0 <= j < i ==> (#[trigger] running[j]).0 != label,
        )
    } else {
        None
    }
}

/// Time from `earlier` to `later`; zero where the clock has not advanced.
pub open spec fn elapsed(earlier: u64, later: u64) -> u64 {
    if later >= earlier {
        (later - earlier) as u64
    } else {
        0
    }
}

/// Whether `summary` is what `series` comes to.
pub open spec fn summarizes(summary: SeriesSummary, series: SeriesView) -> bool {
    &&& summary.label@ == series.label
    &&& summary.sum == total(series.samples)
    &&& summary.count == series.samples.len()
    &&& summary.unit@ == series.unit
}

/// Whether `summaries` are what the series of `list` come to, one for one.
pub open spec fn summarize_all(summaries: Seq<SeriesSummary>, list: Seq<SeriesView>) -> bool {
    &&& summaries.len() == list.len()
    &&& forall|i: int| 0 <= i < list.len() ==> summarizes(#[trigger] summaries[i], list[i])
}

proof fn lemma_total_bound(samples: Seq<u64>)
    ensures
        0 <= total(samples) <= samples.len() * u64::MAX,
    decreases samples.len(),
{
    if samples.len() > 0 {
        lemma_total_bound(samples.drop_last());
        assert(samples.len() * u64::MAX == (samples.len() - 1) * u64::MAX + u64::MAX)
            by (nonlinear_arith);
    } else {
        assert(samples.len() * u64::MAX == 0) by (nonlinear_arith)
            requires
                samples.len() == 0,
        ;
    }
}

/// The sum of `samples`.
pub fn sum_samples(samples: &Vec<u64>) -> (sum: u128)
    ensures
        sum == total(samples@),
{
    let mut sum: u128 = 0;
    let mut index: usize = 0;
    while index < samples.len()
        invariant
            index <= samples.len(),
            sum == total(samples@.take(index as int)),
        decreases samples.len() - index,
    {
        proof {
            let upto = samples@.take(index + 1);
            assert(upto.drop_last() =~= samples@.take(index as int));
            lemma_total_bound(samples@.take(index as int));
            assert(index * u64::MAX <= usize::MAX * u64::MAX) by (nonlinear_arith)
                requires
                    index <= usize::MAX,
            ;
            assert(usize::MAX * u64::MAX + u64::MAX <= u128::MAX) by (nonlinear_arith)
                requires
                    usize::MAX <= u64::MAX,
            ;
        }
        sum = sum + samples[index] as u128;
        index += 1;
    }
    assert(samples@.take(index as int) =~= samples@);
    sum
}

fn position_of(list: &Vec<Series>, label: &str) -> (found: Option<usize>)
    ensures
        match found {
            Some(i) => find_series(series_of(list@), label@) == Some(i as int) && i < list.len()
                && list[i as int].label@ == label@,
            None => find_series(series_of(list@), label@) is None,
        },
{
    let ghost views = series_of(list@);
    let wanted = label.to_owned();
    let mut index: usize = 0;
    while index < list.len()
        invariant
            index <= list.len(),
            wanted@ == label@,
            views == series_of(list@),
            forall|j: int| 0 <= j < index ==> (#[trigger] views[j]).label != label@,
        decreases list.len() - index,
    {
        if list[index].label == wanted {
            proof {
                let first = index as int;
                assert(views[first].label == label@);
                let chosen = choose|i: int|
                    0 <= i < views.len() && (#[trigger] views[i]).label == label@ && forall|j: int|
                        0 <= j < i ==> (#[trigger] views[j]).label != label@;
                assert(chosen == first);
            }
            return Some(index);
        }
        index += 1;
    }
    None
}

/// Records `sample` under `label` in `list`.
fn record(list: &mut Vec<Series>, label: &str, sample: u64, unit: &str)
    ensures
        series_of(final(list)@) == with_sample(series_of(old(list)@), label@, sample, unit@),
{
    let ghost start = list@;
    let ghost before = series_of(list@);
    let ghost wanted = with_sample(before, label@, sample, unit@);
    match position_of(list, label) {
        Some(index) => {
            let mut series = list.remove(index);
            series.samples.push(sample);
            series.unit = unit.to_owned();
            let ghost replaced = series@;
            list.insert(index, series);
            proof {
                let after = series_of(list@);
                assert(after.len() == wanted.len());
                assert forall|i: int| 0 <= i < after.len() implies after[i] == wanted[i] by {
                    if i == index {
                        assert(list@[i]@ == replaced);
                        assert(replaced.samples =~= before[i].samples.push(sample));
                    } else {
                        assert(list@[i] == start[i]);
                    }
                }
                assert(after =~= wanted);
            }
        },
        None => {
            let mut samples: Vec<u64> = Vec::new();
            samples.push(sample);
            let series = Series { label: label.to_owned(), samples, unit: unit.to_owned() };
            let ghost added = series@;
            list.push(series);
            proof {
                let after = series_of(list@);
                assert(added.samples =~= seq![sample]);
                assert(after.len() == wanted.len());
                assert forall|i: int| 0 <= i < after.len() implies after[i] == wanted[i] by {
                    if i < start.len() {
                        assert(list@[i] == start[i]);
                    } else {
                        assert(list@[i]@ == added);
                    }
                }
                assert(after =~= wanted);
            }
        },
    }
}

fn summarize(list: &Vec<Series>) -> (summaries: Vec<SeriesSummary>)
    ensures
        summarize_all(summaries@, series_of(list@)),
{
    let mut summaries: Vec<SeriesSummary> = Vec::new();
    let mut index: usize = 0;
    while index < list.len()
        invariant
            index <= list.len(),
            summaries@.len() == index,
            forall|i: int|
                0 <= i < index ==> summarizes(#[trigger] summaries@[i], series_of(list@)[i]),
        decreases list.len() - index,
    {
        let series = &list[index];
        summaries.push(
            SeriesSummary {
                label: series.label.clone(),
                sum: sum_samples(&series.samples),
                count: series.samples.len(),
                unit: series.unit.clone(),
            },
        );
        index += 1;
    }
    summaries
}

/// The statistics of one component.
pub struct TimingStats {
    last_frame: Option<u64>,
    label: String,
    accumulator: Vec<u64>,
    trackers: Vec<Tracker>,
    additional_accumulators: Vec<Series>,
    labelled_values: Vec<Series>,
}

impl TimingStats {
    /// The component that the statistics are of.
    pub closed spec fn component(&self) -> Seq<char> {
        self.label@
    }

    /// When the last frame was marked, if one was.
    pub closed spec fn last_tick(&self) -> Option<u64> {
        self.last_frame
    }

    /// The frame periods of this round.
    pub closed spec fn periods(&self) -> Seq<u64> {
        self.accumulator@
    }

    /// The timers that are running, each with the time when it was started.
    pub closed spec fn running(&self) -> Seq<(Seq<char>, u64)> {
        Seq::new(self.trackers@.len(), |i: int| (self.trackers@[i].label@, self.trackers@[i].started))
    }

    /// The times that the named timers took in this round.
    pub closed spec fn timers(&self) -> Seq<SeriesView> {
        series_of(self.additional_accumulators@)
    }

    /// The values that were tracked in this round.
    pub closed spec fn values(&self) -> Seq<SeriesView> {
        series_of(self.labelled_values@)
    }

    /// The frame periods once a frame is marked at `now`.
    pub open spec fn periods_at(&self, now: u64) -> Seq<u64> {
        match self.last_tick() {
            Some(last) => self.periods().push(elapsed(last, now)),
            None => self.periods(),
        }
    }

    /// Statistics of the component `label`, with nothing recorded.
    pub fn new(label: String) -> (stats: Self)
        ensures
            stats.component() == label@,
            stats.last_tick() is None,
            stats.periods() == Seq::<u64>::empty(),
            stats.running() == Seq::<(Seq<char>, u64)>::empty(),
            stats.timers() == Seq::<SeriesView>::empty(),
            stats.values() == Seq::<SeriesView>::empty(),
    {
        let stats = Self {
            label,
            last_frame: None,
            accumulator: Vec::new(),
            trackers: Vec::new(),
            additional_accumulators: Vec::new(),
            labelled_values: Vec::new(),
        };
        assert(stats.running() =~= Seq::<(Seq<char>, u64)>::empty());
        assert(stats.timers() =~= Seq::<SeriesView>::empty());
        assert(stats.values() =~= Seq::<SeriesView>::empty());
        stats
    }

    /// Marks a frame boundary at time `now`. The time since the last
    /// boundary is recorded. With the 120th period on record the averages of
    /// the round are handed out, and everything that was recorded or running
    /// is cleared.
    pub fn tick(&mut self, now: u64) -> (summary: Option<TimingSummary>)
        ensures
            final(self).component() == old(self).component(),
            final(self).last_tick() == Some(now),
            old(self).periods_at(now).len() != TIMING_ACCUMULATOR_SIZE ==> {
                &&& summary is None
                &&& final(self).periods() == old(self).periods_at(now)
                &&& final(self).running() == old(self).running()
                &&& final(self).timers() == old(self).timers()
                &&& final(self).values() == old(self).values()
            },
            old(self).periods_at(now).len() == TIMING_ACCUMULATOR_SIZE ==> {
                &&& summary matches Some(report)
                &&& report.label@ == old(self).component()
                &&& report.average_period == total(old(self).periods_at(now))
                    / TIMING_ACCUMULATOR_SIZE as int
                &&& summarize_all(report.timers@, old(self).timers())
                &&& summarize_all(report.values@, old(self).values())
                &&& final(self).periods() == Seq::<u64>::empty()
                &&& final(self).running() == Seq::<(Seq<char>, u64)>::empty()
                &&& final(self).timers() == Seq::<SeriesView>::empty()
                &&& final(self).values() == Seq::<SeriesView>::empty()
            },
    {
        if let Some(last_frame) = self.last_frame {
            let period = if now >= last_frame {
                now - last_frame
            } else {
                0
            };
            self.accumulator.push(period);
        }
        self.last_frame = Some(now);
        if self.accumulator.len() == TIMING_ACCUMULATOR_SIZE {
            let sum = sum_samples(&self.accumulator);
            proof {
                lemma_total_bound(self.accumulator@);
                assert(total(self.accumulator@) / 120 <= u64::MAX) by (nonlinear_arith)
                    requires
                        0 <= total(self.accumulator@) <= 120 * u64::MAX,
                ;
            }
            let average = (sum / (TIMING_ACCUMULATOR_SIZE as u128)) as u64;
            let report = TimingSummary {
                label: self.label.clone(),
                average_period: average,
                timers: summarize(&self.additional_accumulators),
                values: summarize(&self.labelled_values),
            };
            self.additional_accumulators.clear();
            self.trackers.clear();
            self.accumulator.clear();
            self.labelled_values.clear();
            assert(self.running() =~= Seq::<(Seq<char>, u64)>::empty());
            assert(self.timers() =~= Seq::<SeriesView>::empty());
            assert(self.values() =~= Seq::<SeriesView>::empty());
            Some(report)
        } else {
            None
        }
    }

    fn tracker_position(&self, label: &str) -> (found: Option<usize>)
        ensures
            match found {
                Some(i) => find_tracker(self.running(), label@) == Some(i as int) && i
                    < self.trackers@.len(),
                None => find_tracker(self.running(), label@) is None,
            },
    {
        let ghost running = self.running();
        let wanted = label.to_owned();
        let mut index: usize = 0;
        while index < self.trackers.len()
            invariant
                index <= self.trackers@.len(),
                wanted@ == label@,
                running == self.running(),
                running.len() == self.trackers@.len(),
                forall|j: int| 0 <= j < index ==> (#[trigger] running[j]).0 != label@,
            decreases self.trackers@.len() - index,
        {
            if self.trackers[index].label == wanted {
                proof {
                    let first = index as int;
                    assert(running[first].0 == label@);
                    let chosen = choose|i: int|
                        0 <= i < running.len() && (#[trigger] running[i]).0 == label@
                            && forall|j: int| 0 <= j < i ==> (#[trigger] running[j]).0 != label@;
                    assert(chosen == first);
                }
                return Some(index);
            }
            index += 1;
        }
        None
    }

    /// Starts the timer `label` at time `now`. A timer that is running
    /// already is left running; the answer is then `false`, and the caller
    /// may want to say so.
    pub fn start(&mut self, label: &str, now: u64) -> (started: bool)
        ensures
            final(self).component() == old(self).component(),
            final(self).last_tick() == old(self).last_tick(),
            final(self).periods() == old(self).periods(),
            final(self).timers() == old(self).timers(),
            final(self).values() == old(self).values(),
            started == (find_tracker(old(self).running(), label@) is None),
            final(self).running() == if started {
                old(self).running().push((label@, now))
            } else {
                old(self).running()
            },
    {
        match self.tracker_position(label) {
            Some(_) => false,
            None => {
                self.trackers.push(Tracker { label: label.to_owned(), started: now });
                assert(self.running() =~= old(self).running().push((label@, now)));
                true
            },
        }
    }

    /// Stops the timer `label` at time `now` and records the time it ran
    /// under its label. Where no such timer is running nothing happens; the
    /// answer is then `false`, and the caller may want to say so.
    pub fn end(&mut self, label: &str, now: u64) -> (ended: bool)
        ensures
            final(self).component() == old(self).component(),
            final(self).last_tick() == old(self).last_tick(),
            final(self).periods() == old(self).periods(),
            final(self).values() == old(self).values(),
            match find_tracker(old(self).running(), label@) {
                Some(i) => {
                    &&& ended
                    &&& final(self).running() == old(self).running().remove(i)
                    &&& final(self).timers() == with_sample(
                        old(self).timers(),
                        label@,
                        elapsed(old(self).running()[i].1, now),
                        Seq::<char>::empty(),
                    )
                },
                None => {
                    &&& !ended
                    &&& final(self).running() == old(self).running()
                    &&& final(self).timers() == old(self).timers()
                },
            },
    {
        match self.tracker_position(label) {
            None => false,
            Some(index) => {
                let tracker = self.trackers.remove(index);
                assert(self.running() =~= old(self).running().remove(index as int));
                let duration = if now >= tracker.started {
                    now - tracker.started
                } else {
                    0
                };
                record(&mut self.additional_accumulators, label, duration, "");
                proof {
                    reveal_strlit("");
                    assert(""@ =~= Seq::<char>::empty());
                }
                true
            },
        }
    }

    /// Records `value` under `label`, to be shown in `unit`.
    pub fn track(&mut self, label: &str, value: u32, unit: &str)
        ensures
            final(self).component() == old(self).component(),
            final(self).last_tick() == old(self).last_tick(),
            final(self).periods() == old(self).periods(),
            final(self).running() == old(self).running(),
            final(self).timers() == old(self).timers(),
            final(self).values() == with_sample(old(self).values(), label@, value as u64, unit@),
    {
        record(&mut self.labelled_values, label, value as u64, unit);
    }
}

} // verus!
