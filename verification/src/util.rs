//! Small utilities: movement directions, byte extraction, a pop trait for
//! queues, and a frame-time benchmarker keyed by phase name.

use vstd::prelude::*;

verus! {

use vstd::string::StringExecFns;

/// A horizontal movement direction requested by the player's keys.
#[derive(Clone, Copy, PartialEq, Eq, Structural, Debug)]
pub enum Direction {
    Forward,
    Backward,
    Left,
    Right,
}

impl Direction {
    /// Two directions are orthogonal unless both lie on the forward/backward axis.
    pub fn orthogonal(self, other: Self) -> (r: bool)
        ensures
            r == !((self == Direction::Forward || self == Direction::Backward)
                && (other == Direction::Forward || other == Direction::Backward)),
    {
        match (self, other) {
            (Direction::Forward, Direction::Forward)
            | (Direction::Forward, Direction::Backward)
            | (Direction::Backward, Direction::Forward)
            | (Direction::Backward, Direction::Backward) => false,
            _ => true,
        }
    }

    pub fn perpendicular(self, other: Self) -> (r: bool)
        ensures
            r == ((self == Direction::Forward || self == Direction::Backward)
                && (other == Direction::Forward || other == Direction::Backward)),
    {
        !self.orthogonal(other)
    }
}

/// The second byte of a word, shifted down.
pub fn high_byte(b: u32) -> (r: u32)
    ensures
        r == b >> 8u32,
{
    b >> 8u32
}

/// The low byte of a word.
pub fn low_byte(b: u32) -> (r: u32)
    ensures
        r == b & 0xff,
{
    let low = b as u8;
    assert(b as u8 == b & 0xff) by (bit_vector);
    low as u32
}

/// Removes and hands back one element, when any is left.
pub trait Pop {
    type Item;

    /// What the container holds, the element handed out next coming last.
    spec fn queue(&self) -> Seq<Self::Item>;

    /// Removes and returns the last element, or `None` when the container is
    /// empty.
    fn pop(&mut self) -> (r: Option<Self::Item>)
        ensures
            old(self).queue().len() == 0 ==> r is None
                && final(self).queue() == old(self).queue(),
            old(self).queue().len() > 0 ==> r == Some(old(self).queue().last())
                && final(self).queue() == old(self).queue().drop_last(),
    ;
}

impl Pop for crate::resource::MenuEvents {
    type Item = crate::event::Event;

    open spec fn queue(&self) -> Seq<crate::event::Event> {
        self.0@
    }

    fn pop(&mut self) -> (r: Option<crate::event::Event>) {
        self.0.pop()
    }
}

impl Pop for crate::resource::GameEvents {
    type Item = crate::event::Event;

    open spec fn queue(&self) -> Seq<crate::event::Event> {
        self.0@
    }

    fn pop(&mut self) -> (r: Option<crate::event::Event>) {
        self.0.pop()
    }
}

/// The sentinel a window's minimum starts from: a thousand seconds, in
/// nanoseconds.
pub const BENCH_MIN_SENTINEL: u64 = 1_000_000_000_000;

/// How many frames of samples each phase keeps.
pub const BENCHMARKER_WINDOW: usize = 60;

/// One phase's timing summary over the kept window, in nanoseconds.
pub struct Benchmark {
    pub name: String,
    pub min: u64,
    pub max: u64,
    pub mean: u64,
}

/// The smallest sample, starting from the sentinel.
pub open spec fn win_min(s: Seq<u64>) -> int
    decreases s.len(),
{
    if s.len() == 0 {
        BENCH_MIN_SENTINEL as int
    } else {
        let prev = win_min(s.drop_last());
        if s.last() < prev {
            s.last() as int
        } else {
            prev
        }
    }
}

/// The largest sample, starting from zero.
pub open spec fn win_max(s: Seq<u64>) -> int
    decreases s.len(),
{
    if s.len() == 0 {
        0
    } else {
        let prev = win_max(s.drop_last());
        if s.last() > prev {
            s.last() as int
        } else {
            prev
        }
    }
}

/// The sum of the samples.
pub open spec fn win_sum(s: Seq<u64>) -> int
    decreases s.len(),
{
    if s.len() == 0 {
        0
    } else {
        win_sum(s.drop_last()) + s.last()
    }
}

/// The first entry keyed by a name, or the length when none is.
pub open spec fn first_keyed<T>(s: Seq<(String, T)>, name: Seq<char>, from: int) -> int
    decreases s.len() - from,
{
    if from < 0 || from >= s.len() {
        s.len() as int
    } else if s[from].0@ == name {
        from
    } else {
        first_keyed(s, name, from + 1)
    }
}

/// A window with one fresh sample at the front, capped at
/// [`BENCHMARKER_WINDOW`] samples.
pub open spec fn pushed_window(w: Seq<u64>, elapsed: u64) -> Seq<u64> {
    let grown = seq![elapsed] + w;
    if grown.len() <= BENCHMARKER_WINDOW {
        grown
    } else {
        grown.subrange(0, BENCHMARKER_WINDOW as int)
    }
}

/// How recording one sample changes the duration table: the first entry
/// keyed by the name gets the sample pushed into its window; a name with no
/// entry gains one holding just the sample.
pub open spec fn recorded_durations(
    d: Seq<(String, Vec<u64>)>,
    name: Seq<char>,
    elapsed: u64,
    d2: Seq<(String, Vec<u64>)>,
) -> bool {
    let j = first_keyed(d, name, 0);
    if j < d.len() {
        &&& d2.len() == d.len()
        &&& forall|i: int| 0 <= i < d.len() && i != j ==> #[trigger] d2[i] == d[i]
        &&& d2[j].0 == d[j].0
        &&& d2[j].1@ == pushed_window(d[j].1@, elapsed)
    } else {
        &&& d2.len() == d.len() + 1
        &&& forall|i: int| 0 <= i < d.len() ==> #[trigger] d2[i] == d[i]
        &&& d2.last().0@ == name
        &&& d2.last().1@ == seq![elapsed]
    }
}

/// Measures named frame phases: a started phase is open until it ends, and
/// each ended phase keeps a sliding window of its last durations. The clock
/// is the caller's: phases are bracketed with timestamps in nanoseconds.
pub struct Benchmarker {
    pub instant: Vec<(String, u64)>,
    pub durations: Vec<(String, Vec<u64>)>,
}

impl Benchmarker {
    pub fn new() -> (r: Benchmarker)
        ensures
            r.instant@.len() == 0,
            r.durations@.len() == 0,
    {
        Benchmarker { instant: Vec::new(), durations: Vec::new() }
    }

    /// Opens a phase at the given clock reading; a phase may not be opened
    /// twice.
    pub fn start(&mut self, name: &str, now_ns: u64)
        requires
            first_keyed(old(self).instant@, name@, 0) == old(self).instant@.len(),
        ensures
            final(self).instant@.len() == old(self).instant@.len() + 1,
            forall|i: int|
                0 <= i < old(self).instant@.len() ==> #[trigger] final(self).instant@[i] == old(
                    self,
                ).instant@[i],
            final(self).instant@.last().0@ == name@,
            final(self).instant@.last().1 == now_ns,
            final(self).durations == old(self).durations,
    {
        let owned: String = String::from_str(name);
        self.instant.push((owned, now_ns));
    }

    /// Closes an open phase at the given clock reading and records the
    /// elapsed time at the front of the phase's window, which keeps at most
    /// [`BENCHMARKER_WINDOW`] samples. Closing a phase that is not open does
    /// nothing.
    pub fn end(&mut self, name: &str, now_ns: u64)
        ensures
            ({
                let idx = first_keyed(old(self).instant@, name@, 0);
                if idx < old(self).instant@.len() {
                    let started = old(self).instant@[idx].1;
                    let elapsed: u64 = if now_ns >= started {
                        (now_ns - started) as u64
                    } else {
                        0u64
                    };
                    &&& final(self).instant@ == old(self).instant@.remove(idx)
                    &&& recorded_durations(
                        old(self).durations@,
                        name@,
                        elapsed,
                        final(self).durations@,
                    )
                } else {
                    *final(self) == *old(self)
                }
            }),
    {
        let needle: String = String::from_str(name);
        let n = self.instant.len();
        let mut i: usize = 0;
        let mut found: Option<usize> = None;
        while i < n
            invariant
                needle@ == name@,
                n == self.instant@.len(),
                *self == *old(self),
                i <= n,
                found is None ==> first_keyed(self.instant@, name@, 0) == first_keyed(
                    self.instant@,
                    name@,
                    i as int,
                ),
                found matches Some(j) ==> j < n && first_keyed(self.instant@, name@, 0) == j,
            decreases n - i,
        {
            if found.is_none() && self.instant[i].0 == needle {
                found = Some(i);
            }
            i = i + 1;
        }
        match found {
            Some(j) => {
                let (_, started) = self.instant.remove(j);
                let elapsed = if now_ns >= started {
                    now_ns - started
                } else {
                    0
                };
                self.record(name, elapsed);
            },
            None => {
                proof {
                    assert(first_keyed(old(self).instant@, name@, n as int) == n);
                }
            },
        }
    }

    /// Pushes one sample to the front of a phase's window.
    fn record(&mut self, name: &str, elapsed: u64)
        ensures
            final(self).instant == old(self).instant,
            recorded_durations(old(self).durations@, name@, elapsed, final(self).durations@),
    {
        let needle: String = String::from_str(name);
        let n = self.durations.len();
        let mut i: usize = 0;
        while i < n
            invariant
                needle@ == name@,
                n == self.durations@.len(),
                i <= n,
                *self == *old(self),
                first_keyed(self.durations@, name@, 0) == first_keyed(
                    self.durations@,
                    name@,
                    i as int,
                ),
            decreases n - i,
        {
            let hit = self.durations[i].0 == needle;
            if hit {
                proof {
                    assert(first_keyed(old(self).durations@, name@, 0) == i);
                }
                let (key, mut window) = self.durations.remove(i);
                let ghost old_window = window@;
                window.insert(0, elapsed);
                proof {
                    assert(window@ =~= seq![elapsed] + old_window);
                }
                window.truncate(BENCHMARKER_WINDOW);
                proof {
                    assert(window@ =~= pushed_window(old_window, elapsed));
                }
                self.durations.insert(i, (key, window));
                proof {
                    let j = i as int;
                    assert(forall|x: int|
                        0 <= x < old(self).durations@.len() && x != j
                            ==> #[trigger] self.durations@[x] == old(self).durations@[x]);
                }
                return ;
            }
            i = i + 1;
        }
        proof {
            assert(first_keyed(old(self).durations@, name@, n as int) == n);
        }
        let mut window: Vec<u64> = Vec::new();
        window.push(elapsed);
        proof {
            assert(window@ =~= seq![elapsed]);
        }
        let owned: String = String::from_str(name);
        self.durations.push((owned, window));
    }

    /// Summarizes every phase's window: the smallest and largest kept sample
    /// and the window sum divided by the window size.
    pub fn get_all(&self) -> (r: Vec<Benchmark>)
        requires
            forall|j: int|
                0 <= j < self.durations@.len() ==> win_sum(
                    (#[trigger] self.durations@[j]).1@,
                ) <= u64::MAX,
        ensures
            r@.len() == self.durations@.len(),
            forall|j: int|
                0 <= j < r@.len() ==> {
                    &&& (#[trigger] r@[j]).name@ == self.durations@[j].0@
                    &&& r@[j].min == win_min(self.durations@[j].1@)
                    &&& r@[j].max == win_max(self.durations@[j].1@)
                    &&& r@[j].mean == win_sum(self.durations@[j].1@) / (
                    BENCHMARKER_WINDOW as u64 as int)
                },
    {
        let mut r: Vec<Benchmark> = Vec::new();
        let n = self.durations.len();
        let mut j: usize = 0;
        while j < n
            invariant
                n == self.durations@.len(),
                j <= n,
                forall|k: int|
                    0 <= k < self.durations@.len() ==> win_sum(
                        (#[trigger] self.durations@[k]).1@,
                    ) <= u64::MAX,
                r@.len() == j,
                forall|k: int|
                    0 <= k < j ==> {
                        &&& (#[trigger] r@[k]).name@ == self.durations@[k].0@
                        &&& r@[k].min == win_min(self.durations@[k].1@)
                        &&& r@[k].max == win_max(self.durations@[k].1@)
                        &&& r@[k].mean == win_sum(self.durations@[k].1@) / (
                        BENCHMARKER_WINDOW as u64 as int)
                    },
            decreases n - j,
        {
            let entry = &self.durations[j];
            let window = &entry.1;
            let mut min: u64 = BENCH_MIN_SENTINEL;
            let mut max: u64 = 0;
            let mut sum: u64 = 0;
            let m = window.len();
            let mut i: usize = 0;
            proof {
                assert(window@.subrange(0, 0) =~= Seq::<u64>::empty());
            }
            while i < m
                invariant
                    m == window@.len(),
                    i <= m,
                    win_sum(window@) <= u64::MAX,
                    min == win_min(window@.subrange(0, i as int)),
                    max == win_max(window@.subrange(0, i as int)),
                    sum == win_sum(window@.subrange(0, i as int)),
                decreases m - i,
            {
                proof {
                    assert(window@.subrange(0, i as int + 1).drop_last() =~= window@.subrange(
                        0,
                        i as int,
                    ));
                    assert(window@.subrange(0, i as int + 1).last() == window@[i as int]);
                    lemma_win_sum_prefix(window@, i as int + 1);
                }
                let d = window[i];
                sum = sum + d;
                if d < min {
                    min = d;
                }
                if d > max {
                    max = d;
                }
                i = i + 1;
            }
            proof {
                assert(window@.subrange(0, m as int) =~= window@);
            }
            let name_copy: String = entry.0.clone();
            r.push(Benchmark { name: name_copy, min, max, mean: sum / (BENCHMARKER_WINDOW as u64) });
            j = j + 1;
        }
        r
    }
}

/// A prefix's sum never exceeds the whole window's sum.
proof fn lemma_win_sum_prefix(s: Seq<u64>, upto: int)
    requires
        0 <= upto <= s.len(),
    ensures
        0 <= win_sum(s.subrange(0, upto)) <= win_sum(s),
    decreases s.len() - upto,
{
    lemma_win_sum_nonneg(s.subrange(0, upto));
    if upto == s.len() {
        assert(s.subrange(0, upto) =~= s);
    } else {
        lemma_win_sum_prefix(s, upto + 1);
        assert(s.subrange(0, upto + 1).drop_last() =~= s.subrange(0, upto));
        assert(s.subrange(0, upto + 1).last() == s[upto]);
    }
}

/// A window's sum is never negative.
proof fn lemma_win_sum_nonneg(s: Seq<u64>)
    ensures
        0 <= win_sum(s),
    decreases s.len(),
{
    if s.len() > 0 {
        lemma_win_sum_nonneg(s.drop_last());
    }
}

} // verus!
