//! Time ranges, granularities, and the partition of a range into buckets.
//!
//! An instant is a number of seconds since the Unix epoch, in UTC.

use vstd::prelude::*;

verus! {

/// Width of the time buckets of a query.
#[derive(Clone, Copy, Debug, PartialEq, Eq, Structural, Hash)]
pub enum Granularity {
    OneMin,
    FiveMin,
    FifteenMin,
    ThirtyMin,
    OneHour,
    OneDay,
}

impl DeepView for Granularity {
    type V = Granularity;

    open spec fn deep_view(&self) -> Granularity {
        *self
    }
}

impl Granularity {
    /// Width of one bucket, in seconds.
    pub open spec fn width(self) -> int {
        match self {
            Granularity::OneMin => 60,
            Granularity::FiveMin => 300,
            Granularity::FifteenMin => 900,
            Granularity::ThirtyMin => 1800,
            Granularity::OneHour => 3600,
            Granularity::OneDay => 86400,
        }
    }

    /// Start of the bucket that holds the instant: the last multiple of the
    /// width that is not after it.
    pub open spec fn aligned_start(self, instant: int) -> int {
        instant - instant % self.width()
    }

    /// End of the bucket that holds the instant: the first multiple of the
    /// width that is after it.
    pub open spec fn aligned_end(self, instant: int) -> int {
        self.aligned_start(instant) + self.width()
    }

    /// An instant lies in its bucket, whose bounds are multiples of the width.
    pub proof fn lemma_bucket_bounds(self, instant: int)
        ensures
            self.aligned_start(instant) <= instant < self.aligned_end(instant),
            self.aligned_start(instant) % self.width() == 0,
            self.aligned_end(instant) % self.width() == 0,
    {
        match self {
            Granularity::OneMin => {},
            Granularity::FiveMin => {},
            Granularity::FifteenMin => {},
            Granularity::ThirtyMin => {},
            Granularity::OneHour => {},
            Granularity::OneDay => {},
        }
    }

    /// Every instant of a bucket has that bucket's start: for a multiple
    /// `start` of the width, the instants from `start` up to `start` plus the
    /// width are those whose bucket starts at `start`.
    pub proof fn lemma_bucket_of_member(self, start: int, instant: int)
        requires
            start % self.width() == 0,
        ensures
            start <= instant < start + self.width() <==> self.aligned_start(instant) == start,
    {
        match self {
            Granularity::OneMin => {},
            Granularity::FiveMin => {},
            Granularity::FifteenMin => {},
            Granularity::ThirtyMin => {},
            Granularity::OneHour => {},
            Granularity::OneDay => {},
        }
    }

    /// Width of one bucket, in seconds.
    pub fn width_seconds(self) -> (w: i64)
        ensures
            w == self.width(),
            w > 0,
    {
        match self {
            Granularity::OneMin => 60,
            Granularity::FiveMin => 300,
            Granularity::FifteenMin => 900,
            Granularity::ThirtyMin => 1800,
            Granularity::OneHour => 3600,
            Granularity::OneDay => 86400,
        }
    }

    /// Seconds from the start of the instant's bucket to the instant.
    pub fn offset_in_bucket(self, instant: i64) -> (offset: i64)
        ensures
            offset == (instant as int) % self.width(),
            0 <= offset < self.width(),
    {
        let w = self.width_seconds();
        match instant.checked_rem_euclid(w) {
            Some(offset) => offset,
            None => 0,
        }
    }

    /// Start of the bucket that holds the instant, or `None` when that start
    /// is before the first instant that can be represented.
    pub fn clip_to_start(self, instant: i64) -> (start: Option<i64>)
        ensures
            start == (if self.aligned_start(instant as int) >= i64::MIN {
                Some(self.aligned_start(instant as int) as i64)
            } else {
                None
            }),
    {
        let offset = self.offset_in_bucket(instant);
        instant.checked_sub(offset)
    }

    /// End of the bucket that holds the instant, or `None` when that end is
    /// after the last instant that can be represented.
    pub fn clip_to_end(self, instant: i64) -> (end: Option<i64>)
        ensures
            end == (if self.aligned_end(instant as int) <= i64::MAX {
                Some(self.aligned_end(instant as int) as i64)
            } else {
                None
            }),
    {
        let offset = self.offset_in_bucket(instant);
        let rest = self.width_seconds() - offset;
        instant.checked_add(rest)
    }
}

/// The instants from `start` up to, not including, `end`.
#[derive(Clone, Copy, Debug, PartialEq, Eq)]
pub struct TimeRange {
    start_time: i64,
    end_time: i64,
}

/// Mathematical model of a [`TimeRange`].
pub struct TimeRangeView {
    pub start: i64,
    pub end: i64,
}

impl View for TimeRange {
    type V = TimeRangeView;

    closed spec fn view(&self) -> TimeRangeView {
        TimeRangeView { start: self.start_time, end: self.end_time }
    }
}

impl DeepView for TimeRange {
    type V = TimeRangeView;

    open spec fn deep_view(&self) -> TimeRangeView {
        self@
    }
}

impl TimeRangeView {
    /// Whether the instant lies in the range.
    pub open spec fn contains(self, instant: int) -> bool {
        self.start <= instant < self.end
    }

    /// The window of the instant under a granularity: the part of its bucket
    /// that lies in the range.
    pub open spec fn window_of(self, granularity: Granularity, instant: int) -> (int, int) {
        let from = granularity.aligned_start(instant);
        let to = granularity.aligned_end(instant);
        (
            if from < self.start {
                self.start as int
            } else {
                from
            },
            if to > self.end {
                self.end as int
            } else {
                to
            },
        )
    }

    /// The windows that partition the instants from `cursor` to the end of the
    /// range, each one the part of one bucket.
    pub open spec fn windows_from(self, granularity: Granularity, cursor: int) -> Seq<(int, int)>
        decreases self.end - cursor,
        via Self::windows_from_decreases
    {
        if cursor >= self.end {
            Seq::empty()
        } else {
            let window = self.window_of(granularity, cursor);
            seq![window] + self.windows_from(granularity, window.1)
        }
    }

    #[via_fn]
    proof fn windows_from_decreases(self, granularity: Granularity, cursor: int) {
        if cursor < self.end {
            granularity.lemma_bucket_bounds(cursor);
        }
    }

    /// Whether a window can start or end at `cursor`: it is the start or the
    /// end of the range, or a multiple of the width between them.
    pub open spec fn is_boundary(self, granularity: Granularity, cursor: int) -> bool {
        self.start <= cursor <= self.end && (cursor == self.start || cursor == self.end || cursor
            % granularity.width() == 0)
    }

    /// The windows from a cursor on are not empty, follow each other without a
    /// gap from the cursor to the end of the range, and each is the part of one
    /// bucket; all but the first and the last are whole buckets.
    pub proof fn lemma_windows_from(self, granularity: Granularity, cursor: int)
        requires
            self.is_boundary(granularity, cursor),
        ensures
            ({
                let ws = self.windows_from(granularity, cursor);
                &&& cursor == self.end ==> ws.len() == 0
                &&& cursor < self.end ==> ws.len() > 0 && ws[0].0 == cursor && ws.last().1
                    == self.end
                &&& forall|i: int|
                    0 <= i < ws.len() ==> cursor <= (#[trigger] ws[i]).0 < ws[i].1 <= self.end
                &&& forall|i: int|
                    0 <= i < ws.len() ==> #[trigger] ws[i] == self.window_of(granularity, ws[i].0)
                &&& forall|i: int| 0 <= i < ws.len() - 1 ==> (#[trigger] ws[i]).1 == ws[i + 1].0
                &&& forall|i: int|
                    0 <= i < ws.len() - 1 ==> (#[trigger] ws[i]).1 % granularity.width() == 0
                &&& forall|i: int|
                    0 < i < ws.len() - 1 ==> (#[trigger] ws[i]).1 - ws[i].0 == granularity.width()
            }),
        decreases self.end - cursor,
    {
        let ws = self.windows_from(granularity, cursor);
        if cursor < self.end {
            granularity.lemma_bucket_bounds(cursor);
            let window = self.window_of(granularity, cursor);
            let rest = self.windows_from(granularity, window.1);
            assert(window.0 == cursor);
            assert(self.is_boundary(granularity, window.1));
            self.lemma_windows_from(granularity, window.1);
            assert(ws =~= seq![window] + rest);
            assert(ws[0] == window);
            assert forall|i: int| 1 <= i < ws.len() implies #[trigger] ws[i] == rest[i - 1] by {}
            if window.1 < self.end {
                assert(ws.last() == rest.last());
                assert(window.1 % granularity.width() == 0);
                assert(rest[0].0 == window.1);
            }
            assert forall|i: int| 0 <= i < ws.len() - 1 implies (#[trigger] ws[i]).1 == ws[i
                + 1].0 by {
                if i > 0 {
                    assert(ws[i] == rest[i - 1]);
                    assert(ws[i + 1] == rest[i]);
                }
            }
            assert forall|i: int| 0 <= i < ws.len() - 1 implies (#[trigger] ws[i]).1
                % granularity.width() == 0 by {
                if i > 0 {
                    assert(ws[i] == rest[i - 1]);
                }
            }
            assert forall|i: int| 0 < i < ws.len() - 1 implies (#[trigger] ws[i]).1 - ws[i].0
                == granularity.width() by {
                assert(ws[i] == rest[i - 1]);
                if i == 1 {
                    // The second window starts at a multiple of the width and is
                    // not the last, so it ends one width later.
                    assert(rest[0].0 == window.1);
                    assert(rest[0] == self.window_of(granularity, rest[0].0));
                    assert(rest[0].1 % granularity.width() == 0);
                    granularity.lemma_bucket_bounds(rest[0].0);
                    granularity.lemma_bucket_of_member(rest[0].0, rest[0].0);
                }
            }
        }
    }

    /// The windows of a range under a granularity partition it: they are not
    /// empty, lie in the range, follow each other without a gap from its start
    /// to its end, and each is the part of one bucket. Only the first and the
    /// last can be shorter than the granularity's width.
    pub proof fn lemma_windows_partition(self, granularity: Granularity)
        requires
            self.start <= self.end,
        ensures
            ({
                let ws = self.windows(Some(granularity));
                &&& self.start == self.end ==> ws.len() == 0
                &&& self.start < self.end ==> ws.len() > 0 && ws[0].0 == self.start && ws.last().1
                    == self.end
                &&& forall|i: int|
                    0 <= i < ws.len() ==> self.start <= (#[trigger] ws[i]).0 < ws[i].1 <= self.end
                &&& forall|i: int|
                    0 <= i < ws.len() ==> #[trigger] ws[i] == self.window_of(granularity, ws[i].0)
                &&& forall|i: int| 0 <= i < ws.len() - 1 ==> (#[trigger] ws[i]).1 == ws[i + 1].0
                &&& forall|i: int|
                    0 < i < ws.len() - 1 ==> (#[trigger] ws[i]).1 - ws[i].0 == granularity.width()
            }),
    {
        self.lemma_windows_from(granularity, self.start as int);
    }

    /// The window of every instant of the range is one of the range's windows.
    pub proof fn lemma_window_listed(self, granularity: Granularity, instant: int)
        requires
            self.contains(instant),
        ensures
            self.windows(Some(granularity)).contains(self.window_of(granularity, instant)),
    {
        self.lemma_window_listed_from(granularity, self.start as int, instant);
    }

    proof fn lemma_window_listed_from(self, granularity: Granularity, cursor: int, instant: int)
        requires
            self.is_boundary(granularity, cursor),
            cursor <= instant < self.end,
        ensures
            self.windows_from(granularity, cursor).contains(self.window_of(granularity, instant)),
        decreases self.end - cursor,
    {
        granularity.lemma_bucket_bounds(cursor);
        granularity.lemma_bucket_bounds(instant);
        let window = self.window_of(granularity, cursor);
        let rest = self.windows_from(granularity, window.1);
        let ws = self.windows_from(granularity, cursor);
        assert(ws =~= seq![window] + rest);
        if instant < window.1 {
            granularity.lemma_bucket_of_member(granularity.aligned_start(cursor), instant);
            assert(self.window_of(granularity, instant) == window);
            assert(ws[0] == window);
        } else {
            self.lemma_window_listed_from(granularity, window.1, instant);
            let target = self.window_of(granularity, instant);
            let k = choose|k: int| 0 <= k < rest.len() && rest[k] == target;
            assert(ws[k + 1] == target);
        }
    }

    /// The windows that the range is partitioned into: the whole range where
    /// there is no granularity, else one window for each bucket that the range
    /// meets, the first and the last possibly partial.
    pub open spec fn windows(self, granularity: Option<Granularity>) -> Seq<(int, int)> {
        match granularity {
            None => seq![(self.start as int, self.end as int)],
            Some(g) => self.windows_from(g, self.start as int),
        }
    }
}

/// The windows of a list as pairs of mathematical integers.
pub open spec fn windows_model(windows: Seq<(i64, i64)>) -> Seq<(int, int)> {
    windows.map_values(|w: (i64, i64)| (w.0 as int, w.1 as int))
}

impl TimeRange {
    /// A range never ends before it starts.
    #[verifier::type_invariant]
    pub open spec fn wf(self) -> bool {
        self@.start <= self@.end
    }

    /// The range from `start` up to `end`, or `None` when `end` is before
    /// `start`.
    pub fn new(start: i64, end: i64) -> (r: Option<TimeRange>)
        ensures
            start <= end ==> (r matches Some(range) && range@ == TimeRangeView { start, end }),
            start > end ==> r is None,
    {
        if start <= end {
            Some(TimeRange { start_time: start, end_time: end })
        } else {
            None
        }
    }

    /// Whether the instant lies in the range.
    pub fn contains(&self, instant: i64) -> (r: bool)
        ensures
            r == self@.contains(instant as int),
    {
        self.start_time <= instant && instant < self.end_time
    }

    /// The window of an instant of the range under a granularity: the part of
    /// the instant's bucket that lies in the range. `None` for an instant
    /// outside the range.
    pub fn window_of(&self, granularity: Granularity, instant: i64) -> (r: Option<(i64, i64)>)
        ensures
            self@.contains(instant as int) ==> (r matches Some(w) && (w.0 as int, w.1 as int)
                == self@.window_of(granularity, instant as int)),
            !self@.contains(instant as int) ==> r is None,
    {
        if !self.contains(instant) {
            return None;
        }
        proof {
            granularity.lemma_bucket_bounds(instant as int);
        }
        let from = match granularity.clip_to_start(instant) {
            Some(aligned) => if aligned < self.start_time {
                self.start_time
            } else {
                aligned
            },
            None => self.start_time,
        };
        let to = match granularity.clip_to_end(instant) {
            Some(aligned) => if aligned > self.end_time {
                self.end_time
            } else {
                aligned
            },
            None => self.end_time,
        };
        Some((from, to))
    }

    /// The windows that the range is partitioned into, in order of time: the
    /// whole range where there is no granularity, else one window for each
    /// bucket that the range meets.
    pub fn buckets(&self, granularity: Option<Granularity>) -> (r: Vec<(i64, i64)>)
        ensures
            windows_model(r@) == self@.windows(granularity),
    {
        let mut out: Vec<(i64, i64)> = Vec::new();
        match granularity {
            None => {
                out.push((self.start_time, self.end_time));
                proof {
                    assert(windows_model(out@) =~= self@.windows(granularity));
                }
            },
            Some(g) => {
                let mut cursor: i64 = self.start_time;
                proof {
                    assert(windows_model(out@) =~= Seq::<(int, int)>::empty());
                }
                while cursor < self.end_time
                    invariant
                        self@.start <= cursor,
                        cursor == self@.start || (cursor as int) % g.width() == 0 || cursor
                            >= self@.end,
                        self@.windows_from(g, self@.start as int) == windows_model(out@)
                            + self@.windows_from(g, cursor as int),
                    decreases self@.end - cursor,
                {
                    proof {
                        g.lemma_bucket_bounds(cursor as int);
                    }
                    let next = match self.window_of(g, cursor) {
                        Some(window) => window.1,
                        None => self.end_time,
                    };
                    let ghost before = out@;
                    out.push((cursor, next));
                    proof {
                        let window = self@.window_of(g, cursor as int);
                        assert(window == (cursor as int, next as int));
                        assert(windows_model(out@) =~= windows_model(before) + seq![window]);
                        assert(windows_model(before) + (seq![window] + self@.windows_from(
                            g,
                            next as int,
                        )) =~= windows_model(out@) + self@.windows_from(g, next as int));
                    }
                    cursor = next;
                }
                proof {
                    assert(self@.windows_from(g, cursor as int) =~= Seq::<(int, int)>::empty());
                    assert(windows_model(out@) + Seq::<(int, int)>::empty() =~= windows_model(
                        out@,
                    ));
                }
            },
        }
        out
    }

    /// First instant of the range.
    pub fn start(&self) -> (t: i64)
        ensures
            t == self@.start,
    {
        self.start_time
    }

    /// First instant after the range.
    pub fn end(&self) -> (t: i64)
        ensures
            t == self@.end,
    {
        self.end_time
    }
}

} // verus!
