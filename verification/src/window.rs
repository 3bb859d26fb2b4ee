//! The rolling candle window of the signal engine: how many rows it keeps,
//! when the warm-up is complete, which rows form the working window, and
//! whether an incoming kline opens a new candle or updates the current one.
//! The window tracks the candles' open times; the price columns that go
//! with them are kept row for row beside it.

use vstd::prelude::*;
use crate::text::str_eq;

verus! {

/// Default working window size (excluding warm-up)
pub const DEFAULT_WORKING_WINDOW: usize = 1000;

/// Default warm-up buffer size
pub const DEFAULT_WARMUP_SIZE: usize = 100;

/// Total default size (warmup + working)
pub const DEFAULT_TOTAL_SIZE: usize = DEFAULT_WARMUP_SIZE + DEFAULT_WORKING_WINDOW;

/// What `update_current_kline` did with a kline.
#[derive(Debug, Clone, Copy, PartialEq, Eq, Structural)]
pub enum KlineUpdate {
    /// The window is empty: nothing was done.
    Empty,
    /// The kline belongs to a new candle and was appended as a row.
    Appended,
    /// The kline updates the last candle, whose row is replaced in place.
    ReplacedLast,
}

/// What the live stream does with one kline.
#[derive(Debug, Clone, Copy, PartialEq, Eq, Structural)]
pub enum StreamStep {
    /// The kline is of another symbol: dropped.
    SymbolMismatch,
    /// Appended; the warm-up is not complete, so no signal yet.
    WarmingUp,
    /// Appended; a signal is computed and exported.
    Export,
}

/// The window after one appended row: the oldest row goes first when the
/// window is full.
pub open spec fn appended(rows: Seq<i64>, max_rows: nat, ts: i64) -> Seq<i64> {
    if rows.len() >= max_rows {
        rows.drop_first().push(ts)
    } else {
        rows.push(ts)
    }
}

/// Rolling window of candles, keyed by open time.
pub struct DataFrameManager {
    rows: Vec<i64>,
    max_rows: usize,
    warmup_rows: usize,
    working_rows: usize,
    is_warmed_up: bool,
}

impl DataFrameManager {
    /// The open times of the rows, oldest first.
    pub closed spec fn rows(&self) -> Seq<i64> {
        self.rows@
    }

    /// Maximum number of rows kept.
    pub closed spec fn capacity(&self) -> nat {
        self.max_rows as nat
    }

    /// Number of warm-up rows.
    pub closed spec fn warmup(&self) -> nat {
        self.warmup_rows as nat
    }

    /// Number of working rows.
    pub closed spec fn working(&self) -> nat {
        self.working_rows as nat
    }

    /// Whether the warm-up is complete.
    pub closed spec fn warmed(&self) -> bool {
        self.is_warmed_up
    }

    /// A completed warm-up means at least the warm-up rows are held.
    pub closed spec fn wf(&self) -> bool {
        self.is_warmed_up ==> self.rows@.len() >= self.warmup_rows
    }

    /// A window with the default sizes: 1100 rows, 100 of them warm-up.
    pub fn new() -> (m: Self)
        ensures
            m.rows() == Seq::<i64>::empty(),
            m.capacity() == 1100,
            m.warmup() == 100,
            m.working() == 1000,
            !m.warmed(),
            m.wf(),
    {
        DataFrameManager::with_size(DEFAULT_TOTAL_SIZE, DEFAULT_WARMUP_SIZE)
    }

    /// A window of `max_rows` rows, the first `warmup_rows` of them warm-up;
    /// the working rows are the rest (none when the warm-up is larger).
    pub fn with_size(max_rows: usize, warmup_rows: usize) -> (m: Self)
        ensures
            m.rows() == Seq::<i64>::empty(),
            m.capacity() == max_rows,
            m.warmup() == warmup_rows,
            m.working() == if max_rows >= warmup_rows {
                max_rows - warmup_rows
            } else {
                0
            },
            !m.warmed(),
            m.wf(),
    {
        let working_rows = if max_rows >= warmup_rows {
            max_rows - warmup_rows
        } else {
            0
        };
        DataFrameManager {
            rows: Vec::new(),
            max_rows,
            warmup_rows,
            working_rows,
            is_warmed_up: false,
        }
    }

    /// Loads the bootstrap candles, replacing the window's rows (all of
    /// them are kept, whatever the capacity); the warm-up is complete when
    /// there are at least as many as the warm-up needs. Returns the row count.
    pub fn init_from_klines(&mut self, open_times: Vec<i64>) -> (n: usize)
        ensures
            final(self).wf(),
            final(self).rows() == open_times@,
            n == open_times@.len(),
            final(self).warmed() == (open_times@.len() >= old(self).warmup()),
            final(self).capacity() == old(self).capacity(),
            final(self).warmup() == old(self).warmup(),
            final(self).working() == old(self).working(),
    {
        let n = open_times.len();
        self.rows = open_times;
        self.is_warmed_up = n >= self.warmup_rows;
        n
    }

    /// Appends a candle, dropping the oldest row first when the window is
    /// full, and completes the warm-up once enough rows are held. Returns
    /// the row count.
    pub fn add_kline(&mut self, open_time: i64) -> (n: usize)
        requires
            old(self).wf(),
            old(self).capacity() > 0 || old(self).rows().len() > 0,
        ensures
            final(self).wf(),
            final(self).rows() == appended(old(self).rows(), old(self).capacity(), open_time),
            n == final(self).rows().len(),
            final(self).warmed() == (old(self).warmed() || final(self).rows().len()
                >= old(self).warmup()),
            final(self).capacity() == old(self).capacity(),
            final(self).warmup() == old(self).warmup(),
            final(self).working() == old(self).working(),
    {
        if self.rows.len() >= self.max_rows {
            self.rows.remove(0);
        }
        self.rows.push(open_time);
        proof {
            assert(self.rows@ =~= appended(old(self).rows(), old(self).capacity(), open_time));
        }
        if !self.is_warmed_up && self.rows.len() >= self.warmup_rows {
            self.is_warmed_up = true;
        }
        self.rows.len()
    }

    /// Applies a live kline: nothing on an empty window; an update in place
    /// when it has the last row's open time; a new row otherwise.
    pub fn update_current_kline(&mut self, open_time: i64) -> (r: KlineUpdate)
        requires
            old(self).wf(),
        ensures
            final(self).wf(),
            old(self).rows().len() == 0 ==> r == KlineUpdate::Empty && *final(self) == *old(self),
            old(self).rows().len() > 0 && old(self).rows().last() == open_time ==> r
                == KlineUpdate::ReplacedLast && *final(self) == *old(self),
            old(self).rows().len() > 0 && old(self).rows().last() != open_time ==> r
                == KlineUpdate::Appended && final(self).rows() == appended(
                old(self).rows(),
                old(self).capacity(),
                open_time,
            ) && final(self).warmed() == (old(self).warmed() || final(self).rows().len()
                >= old(self).warmup()) && final(self).capacity() == old(self).capacity()
                && final(self).warmup() == old(self).warmup() && final(self).working() == old(
                self,
            ).working(),
    {
        let n = self.rows.len();
        if n == 0 {
            return KlineUpdate::Empty;
        }
        if self.rows[n - 1] != open_time {
            self.add_kline(open_time);
            return KlineUpdate::Appended;
        }
        KlineUpdate::ReplacedLast
    }

    /// One kline from the live stream of `expected`: a kline of another
    /// symbol is dropped and leaves the window unchanged; otherwise it is
    /// appended, and a signal is exported for it once the warm-up is complete.
    pub fn ingest(&mut self, expected: &str, received: &str, open_time: i64) -> (step: StreamStep)
        requires
            old(self).wf(),
            old(self).capacity() > 0 || old(self).rows().len() > 0,
        ensures
            final(self).wf(),
            expected@ != received@ ==> step == StreamStep::SymbolMismatch && *final(self) == *old(
                self,
            ),
            expected@ == received@ ==> final(self).rows() == appended(
                old(self).rows(),
                old(self).capacity(),
                open_time,
            ) && final(self).capacity() == old(self).capacity() && final(self).warmup() == old(
                self,
            ).warmup() && final(self).working() == old(self).working() && final(self).warmed() == (
            old(self).warmed() || final(self).rows().len() >= old(self).warmup()) && (step
                == StreamStep::Export) == final(self).warmed() && (step == StreamStep::WarmingUp)
                == !final(self).warmed(),
            step == StreamStep::Export ==> final(self).rows().len() >= final(self).warmup(),
    {
        if !str_eq(expected, received) {
            return StreamStep::SymbolMismatch;
        }
        self.add_kline(open_time);
        if self.is_warmed_up {
            StreamStep::Export
        } else {
            StreamStep::WarmingUp
        }
    }

    /// Number of rows.
    pub fn len(&self) -> (n: usize)
        ensures
            n == self.rows().len(),
    {
        self.rows.len()
    }

    /// Whether there are no rows.
    pub fn is_empty(&self) -> (r: bool)
        ensures
            r == (self.rows().len() == 0),
    {
        self.rows.len() == 0
    }

    /// Whether the warm-up is complete.
    pub fn is_warmed_up(&self) -> (r: bool)
        ensures
            r == self.warmed(),
    {
        self.is_warmed_up
    }

    /// Maximum number of rows kept.
    pub fn max_rows(&self) -> (n: usize)
        ensures
            n == self.capacity(),
    {
        self.max_rows
    }

    /// Number of warm-up rows.
    pub fn warmup_rows(&self) -> (n: usize)
        ensures
            n == self.warmup(),
    {
        self.warmup_rows
    }

    /// Number of working rows.
    pub fn working_rows(&self) -> (n: usize)
        ensures
            n == self.working(),
    {
        self.working_rows
    }

    /// The rows of the working window as (first row, row count): all rows
    /// before the warm-up completes or while no row lies past it; otherwise
    /// the rows after the warm-up rows, at most the working size.
    pub fn working_range(&self) -> (r: (usize, usize))
        ensures
            !self.warmed() || self.rows().len() <= self.warmup() ==> r == (
                0usize,
                self.rows().len() as usize,
            ),
            self.warmed() && self.rows().len() > self.warmup() ==> r.0 == self.warmup() && r.1
                == if self.rows().len() - self.warmup() < self.working() {
                self.rows().len() - self.warmup()
            } else {
                self.working() as int
            },
    {
        let n = self.rows.len();
        if !self.is_warmed_up || n <= self.warmup_rows {
            return (0, n);
        }
        let available = n - self.warmup_rows;
        let count = if available < self.working_rows {
            available
        } else {
            self.working_rows
        };
        (self.warmup_rows, count)
    }

    /// The last `n` rows as (first row, row count), all rows when there are fewer.
    pub fn last_n(&self, n: usize) -> (r: (usize, usize))
        ensures
            r.1 == if n < self.rows().len() {
                n as int
            } else {
                self.rows().len() as int
            },
            r.0 + r.1 == self.rows().len(),
    {
        let len = self.rows.len();
        let actual = if n < len {
            n
        } else {
            len
        };
        (len - actual, actual)
    }

    /// The open time of the newest row.
    pub fn latest_open_time(&self) -> (r: Option<i64>)
        ensures
            self.rows().len() == 0 ==> r is None,
            self.rows().len() > 0 ==> r == Some(self.rows().last()),
    {
        let n = self.rows.len();
        if n == 0 {
            None
        } else {
            Some(self.rows[n - 1])
        }
    }

    /// Removes every row; the warm-up starts over.
    pub fn clear(&mut self)
        ensures
            final(self).wf(),
            final(self).rows() == Seq::<i64>::empty(),
            !final(self).warmed(),
            final(self).capacity() == old(self).capacity(),
            final(self).warmup() == old(self).warmup(),
            final(self).working() == old(self).working(),
    {
        self.rows = Vec::new();
        self.is_warmed_up = false;
    }
}

/// A window that holds at most its capacity keeps doing so as candles are
/// appended, and the newest candle is always the last row.
pub proof fn lemma_append_within_capacity(rows: Seq<i64>, max_rows: nat, ts: i64)
    requires
        max_rows > 0,
        rows.len() <= max_rows,
    ensures
        appended(rows, max_rows, ts).len() <= max_rows,
        appended(rows, max_rows, ts).last() == ts,
        rows.len() < max_rows ==> appended(rows, max_rows, ts).len() == rows.len() + 1,
{
}

/// Appending keeps the rows in their order: the kept old rows are a suffix
/// of the old window, followed by the new candle.
pub proof fn lemma_append_keeps_order(rows: Seq<i64>, max_rows: nat, ts: i64)
    ensures
        appended(rows, max_rows, ts).drop_last() == if rows.len() >= max_rows {
            rows.drop_first()
        } else {
            rows
        },
{
    if rows.len() >= max_rows {
        assert(appended(rows, max_rows, ts).drop_last() =~= rows.drop_first());
    } else {
        assert(appended(rows, max_rows, ts).drop_last() =~= rows);
    }
}

} // verus!
