//! Bounded multi-series history: a mapping from metric key to a
//! fixed-capacity ordered series of readings, oldest first. Each push evicts
//! exactly the oldest value of a full series before appending, so a series
//! always holds the last `min(pushes, capacity)` values pushed, in order.

use vstd::prelude::*;

use std::collections::VecDeque;

use crate::model::{SystemStats, TemperatureReading};

verus! {

/// One bounded push: when the series is full the oldest value is evicted,
/// then the new value is appended.
pub open spec fn series_push(s: Seq<u64>, v: u64, cap: nat) -> Seq<u64> {
    if s.len() < cap {
        s.push(v)
    } else {
        s.drop_first().push(v)
    }
}

/// The series that results from pushing `vals`, in order, into an initially
/// empty bounded series of capacity `cap`.
pub open spec fn pushed_series(cap: nat, vals: Seq<u64>) -> Seq<u64>
    decreases vals.len(),
{
    if vals.len() == 0 {
        Seq::empty()
    } else {
        series_push(pushed_series(cap, vals.drop_last()), vals.last(), cap)
    }
}

/// Law: after pushing any number of values into a bounded series, the series
/// length never exceeds the capacity, and the series holds exactly the last
/// `min(number pushed, capacity)` values pushed, in original order.
pub proof fn lemma_series_window(cap: nat, vals: Seq<u64>)
    requires
        cap >= 1,
    ensures
        pushed_series(cap, vals).len() == if vals.len() <= cap {
            vals.len() as int
        } else {
            cap as int
        },
        pushed_series(cap, vals) =~= vals.skip(
            if vals.len() <= cap {
                0
            } else {
                vals.len() - cap
            },
        ),
    decreases vals.len(),
{
    if vals.len() == 0 {
    } else {
        let init = vals.drop_last();
        lemma_series_window(cap, init);
        let p = pushed_series(cap, init);
        if p.len() < cap {
            assert(pushed_series(cap, vals) =~= vals.skip(0)) by {
                assert(p =~= init.skip(0));
            }
        } else {
            assert(pushed_series(cap, vals) =~= vals.skip(vals.len() - cap)) by {
                assert(p =~= init.skip(init.len() - cap));
            }
        }
    }
}

/// One labelled series of the history buffer.
pub struct TempSeries {
    /// The metric key: a canonical category or raw sensor label.
    pub label: String,
    /// The retained values, oldest first.
    pub values: VecDeque<u64>,
}

/// The series stored under key `k`: the first (and, when labels are unique,
/// only) entry with that label.
pub open spec fn find_series(s: Seq<TempSeries>, k: Seq<char>) -> Option<Seq<u64>>
    decreases s.len(),
{
    if s.len() == 0 {
        None
    } else if s[0].label@ == k {
        Some(s[0].values@)
    } else {
        find_series(s.drop_first(), k)
    }
}

/// No two entries share a label.
pub open spec fn labels_unique(s: Seq<TempSeries>) -> bool {
    forall|i: int, j: int| 0 <= i < j < s.len() ==> s[i].label@ != s[j].label@
}

/// The mapping from label to stored series.
pub open spec fn temps_map_of(s: Seq<TempSeries>) -> Map<Seq<char>, Seq<u64>> {
    Map::new(|k: Seq<char>| find_series(s, k) is Some, |k: Seq<char>| find_series(s, k)->Some_0)
}

/// The series under key `k`, or the empty series when the key is absent.
pub open spec fn series_or_empty(m: Map<Seq<char>, Seq<u64>>, k: Seq<char>) -> Seq<u64> {
    if m.dom().contains(k) {
        m[k]
    } else {
        Seq::empty()
    }
}

/// The effect of pushing one value under one key: a series that appears for
/// the first time starts empty and is not backfilled.
pub open spec fn temps_step(
    m: Map<Seq<char>, Seq<u64>>,
    label: Seq<char>,
    v: u64,
    cap: nat,
) -> Map<Seq<char>, Seq<u64>> {
    m.insert(label, series_push(series_or_empty(m, label), v, cap))
}

/// The effect of pushing every reading of one cycle, in order.
pub open spec fn push_temps(
    m: Map<Seq<char>, Seq<u64>>,
    rs: Seq<TemperatureReading>,
    cap: nat,
) -> Map<Seq<char>, Seq<u64>>
    decreases rs.len(),
{
    if rs.len() == 0 {
        m
    } else {
        push_temps(temps_step(m, rs[0].label@, rs[0].temp_milli_c, cap), rs.drop_first(), cap)
    }
}

proof fn lemma_push_temps_snoc(
    m: Map<Seq<char>, Seq<u64>>,
    rs: Seq<TemperatureReading>,
    r: TemperatureReading,
    cap: nat,
)
    ensures
        push_temps(m, rs.push(r), cap) == temps_step(
            push_temps(m, rs, cap),
            r.label@,
            r.temp_milli_c,
            cap,
        ),
    decreases rs.len(),
{
    if rs.len() == 0 {
        assert(rs.push(r)[0] == r);
        assert(rs.push(r).drop_first() =~= Seq::<TemperatureReading>::empty());
        let m2 = temps_step(m, r.label@, r.temp_milli_c, cap);
        assert(push_temps(m, rs.push(r), cap) == push_temps(
            m2,
            Seq::<TemperatureReading>::empty(),
            cap,
        ));
        assert(push_temps(m2, Seq::<TemperatureReading>::empty(), cap) == m2);
        assert(push_temps(m, rs, cap) == m);
    } else {
        let m2 = temps_step(m, rs[0].label@, rs[0].temp_milli_c, cap);
        assert(rs.push(r)[0] == rs[0]);
        assert(rs.push(r).drop_first() =~= rs.drop_first().push(r));
        assert(push_temps(m, rs.push(r), cap) == push_temps(m2, rs.drop_first().push(r), cap));
        lemma_push_temps_snoc(m2, rs.drop_first(), r, cap);
        assert(push_temps(m, rs, cap) == push_temps(m2, rs.drop_first(), cap));
    }
}

proof fn lemma_find_series_found(s: Seq<TempSeries>, idx: int)
    requires
        labels_unique(s),
        0 <= idx < s.len(),
    ensures
        find_series(s, s[idx].label@) == Some(s[idx].values@),
    decreases s.len(),
{
    if idx > 0 {
        assert(labels_unique(s.drop_first()));
        lemma_find_series_found(s.drop_first(), idx - 1);
    }
}

proof fn lemma_find_series_absent(s: Seq<TempSeries>, k: Seq<char>)
    requires
        forall|i: int| 0 <= i < s.len() ==> s[i].label@ != k,
    ensures
        find_series(s, k) is None,
    decreases s.len(),
{
    if s.len() > 0 {
        lemma_find_series_absent(s.drop_first(), k);
    }
}

proof fn lemma_find_series_update(s: Seq<TempSeries>, idx: int, t: TempSeries)
    requires
        labels_unique(s),
        0 <= idx < s.len(),
        t.label@ == s[idx].label@,
    ensures
        forall|k: Seq<char>| #[trigger]
            find_series(s.update(idx, t), k) == if k == t.label@ {
                Some(t.values@)
            } else {
                find_series(s, k)
            },
    decreases s.len(),
{
    let s2 = s.update(idx, t);
    assert(s2.len() == s.len());
    if idx == 0 {
        assert(s2[0] == t);
        assert(s2.drop_first() =~= s.drop_first());
        assert forall|k: Seq<char>|
            #[trigger] find_series(s2, k) == if k == t.label@ {
                Some(t.values@)
            } else {
                find_series(s, k)
            } by {
            if k != t.label@ {
                assert(find_series(s2, k) == find_series(s2.drop_first(), k));
                assert(find_series(s, k) == find_series(s.drop_first(), k));
            }
        }
    } else {
        let sd = s.drop_first();
        assert(labels_unique(sd));
        assert(s2.drop_first() =~= sd.update(idx - 1, t));
        lemma_find_series_update(sd, idx - 1, t);
        assert forall|k: Seq<char>|
            #[trigger] find_series(s2, k) == if k == t.label@ {
                Some(t.values@)
            } else {
                find_series(s, k)
            } by {
            assert(s2[0] == s[0]);
            if k == s[0].label@ {
                assert(s[0].label@ != s[idx].label@);
            } else {
                assert(find_series(s2, k) == find_series(sd.update(idx - 1, t), k));
                assert(find_series(sd.update(idx - 1, t), k) == if k == t.label@ {
                    Some(t.values@)
                } else {
                    find_series(sd, k)
                });
                assert(find_series(s, k) == find_series(sd, k));
            }
        }
    }
}

proof fn lemma_find_series_append(s: Seq<TempSeries>, t: TempSeries)
    ensures
        forall|k: Seq<char>| #[trigger]
            find_series(s.push(t), k) == if find_series(s, k) is Some {
                find_series(s, k)
            } else if t.label@ == k {
                Some(t.values@)
            } else {
                None::<Seq<u64>>
            },
    decreases s.len(),
{
    if s.len() == 0 {
        assert forall|k: Seq<char>|
            #[trigger] find_series(s.push(t), k) == if find_series(s, k) is Some {
                find_series(s, k)
            } else if t.label@ == k {
                Some(t.values@)
            } else {
                None::<Seq<u64>>
            } by {
            assert(s.push(t)[0] == t);
            if t.label@ != k {
                assert(s.push(t).drop_first() =~= Seq::<TempSeries>::empty());
                assert(find_series(s.push(t), k) == find_series(
                    Seq::<TempSeries>::empty(),
                    k,
                ));
            }
        }
    } else {
        let sd = s.drop_first();
        assert(s.push(t).drop_first() =~= sd.push(t));
        lemma_find_series_append(sd, t);
        assert forall|k: Seq<char>|
            #[trigger] find_series(s.push(t), k) == if find_series(s, k) is Some {
                find_series(s, k)
            } else if t.label@ == k {
                Some(t.values@)
            } else {
                None::<Seq<u64>>
            } by {
            assert(s.push(t)[0] == s[0]);
            if k != s[0].label@ {
                assert(find_series(s.push(t), k) == find_series(sd.push(t), k));
                assert(find_series(sd.push(t), k) == if find_series(sd, k) is Some {
                    find_series(sd, k)
                } else if t.label@ == k {
                    Some(t.values@)
                } else {
                    None::<Seq<u64>>
                });
                assert(find_series(s, k) == find_series(sd, k));
            }
        }
    }
}

/// Pushes one value into a bounded `VecDeque` series, evicting the oldest
/// value when the series is already at capacity.
fn push_bounded(buf: &mut VecDeque<u64>, v: u64, max: usize)
    requires
        max >= 1,
        old(buf)@.len() <= max,
    ensures
        final(buf)@ == series_push(old(buf)@, v, max as nat),
        final(buf)@.len() <= max,
{
    if buf.len() >= max {
        buf.pop_front();
    }
    buf.push_back(v);
}

/// Pushes one reading into the series vector, creating the series if its
/// label appears for the first time.
fn push_temp_value(temps: &mut Vec<TempSeries>, label: &String, v: u64, max: usize)
    requires
        max >= 1,
        labels_unique(old(temps)@),
        forall|i: int|
            0 <= i < old(temps)@.len() ==> #[trigger] old(temps)@[i].values@.len() <= max,
    ensures
        labels_unique(final(temps)@),
        forall|i: int|
            0 <= i < final(temps)@.len() ==> #[trigger] final(temps)@[i].values@.len() <= max,
        temps_map_of(final(temps)@) == temps_step(
            temps_map_of(old(temps)@),
            label@,
            v,
            max as nat,
        ),
{
    let ghost m0 = temps_map_of(old(temps)@);
    let n = temps.len();
    let mut i: usize = 0;
    while i < n
        invariant
            max >= 1,
            n == temps@.len(),
            i <= n,
            temps@ == old(temps)@,
            labels_unique(temps@),
            forall|j: int| 0 <= j < temps@.len() ==> #[trigger] temps@[j].values@.len() <= max,
            forall|j: int| 0 <= j < i ==> temps@[j].label@ != label@,
        decreases n - i,
    {
        if temps[i].label == *label {
            let ghost s1 = temps@;
            let series = &mut temps[i];
            if series.values.len() >= max {
                series.values.pop_front();
            }
            series.values.push_back(v);
            proof {
                let m0 = temps_map_of(old(temps)@);
                let s2 = temps@;
                let t = s2[i as int];
                assert(s2 =~= s1.update(i as int, t));
                lemma_find_series_found(s1, i as int);
                lemma_find_series_update(s1, i as int, t);
                assert(s1[i as int].label@ == label@);
                assert(find_series(s1, label@) == Some(s1[i as int].values@));
                assert(m0.dom().contains(label@));
                assert(m0[label@] == s1[i as int].values@);
                assert(series_or_empty(m0, label@) == s1[i as int].values@);
                assert(t.values@ == series_push(s1[i as int].values@, v, max as nat));
                assert(temps_map_of(s2) =~= temps_step(m0, label@, v, max as nat));
                assert(labels_unique(s2));
            }
            return ;
        }
        i = i + 1;
    }
    let mut values: VecDeque<u64> = VecDeque::new();
    values.push_back(v);
    let entry = TempSeries { label: label.clone(), values };
    temps.push(entry);
    proof {
        let s1 = old(temps)@;
        let s2 = temps@;
        let t = s2.last();
        lemma_find_series_absent(s1, label@);
        lemma_find_series_append(s1, t);
        assert(s2 =~= s1.push(t));
        assert(labels_unique(s2)) by {
            assert(forall|j: int| 0 <= j < s1.len() ==> s1[j].label@ != label@);
        }
        assert(t.values@ =~= Seq::empty().push(v));
        assert(temps_map_of(s2) =~= temps_step(m0, label@, v, max as nat));
    }
}

/// Bounded rolling history of every metric: per-label temperature series plus
/// fixed series for overall processor usage, memory usage and the two network
/// rates. Rates are retained in bytes per second.
pub struct HistoryBuffer {
    /// One series per distinct temperature label seen so far.
    pub temps: Vec<TempSeries>,
    /// Overall processor usage, in hundredths of a percent.
    pub cpu_usage: VecDeque<u64>,
    /// Memory usage, in hundredths of a percent.
    pub mem_usage: VecDeque<u64>,
    /// Download rate, in bytes per second.
    pub net_down: VecDeque<u64>,
    /// Upload rate, in bytes per second.
    pub net_up: VecDeque<u64>,
    /// The fixed capacity of every series.
    pub max_points: usize,
}

impl HistoryBuffer {
    /// Every series is within capacity, labels are unique, and the capacity
    /// is positive.
    pub open spec fn wf(&self) -> bool {
        &&& self.max_points >= 1
        &&& labels_unique(self.temps@)
        &&& forall|i: int|
            0 <= i < self.temps@.len() ==> #[trigger] self.temps@[i].values@.len()
                <= self.max_points
        &&& self.cpu_usage@.len() <= self.max_points
        &&& self.mem_usage@.len() <= self.max_points
        &&& self.net_down@.len() <= self.max_points
        &&& self.net_up@.len() <= self.max_points
    }

    /// The mapping from temperature label to stored series.
    pub open spec fn temps_map(&self) -> Map<Seq<char>, Seq<u64>> {
        temps_map_of(self.temps@)
    }

    /// Creates an empty history whose series hold at most `max_points`
    /// values each. A capacity of zero is invalid configuration and is
    /// rejected.
    pub fn new(max_points: usize) -> (r: Option<HistoryBuffer>)
        ensures
            r is Some <==> max_points >= 1,
            match r {
                Some(h) => {
                    &&& h.wf()
                    &&& h.max_points == max_points
                    &&& h.temps@.len() == 0
                    &&& h.cpu_usage@.len() == 0
                    &&& h.mem_usage@.len() == 0
                    &&& h.net_down@.len() == 0
                    &&& h.net_up@.len() == 0
                },
                None => true,
            },
    {
        if max_points == 0 {
            return None;
        }
        Some(
            HistoryBuffer {
                temps: Vec::new(),
                cpu_usage: VecDeque::new(),
                mem_usage: VecDeque::new(),
                net_down: VecDeque::new(),
                net_up: VecDeque::new(),
                max_points,
            },
        )
    }

    /// Appends one snapshot: every temperature reading goes to the series of
    /// its label (a new label starts a fresh series), and the fixed series
    /// receive the overall processor usage, the memory usage and the two
    /// network rates. Full series evict their oldest value first.
    pub fn push(&mut self, stats: &SystemStats)
        requires
            old(self).wf(),
        ensures
            final(self).wf(),
            final(self).max_points == old(self).max_points,
            final(self).temps_map() == push_temps(
                old(self).temps_map(),
                stats.temperature.readings@,
                old(self).max_points as nat,
            ),
            final(self).cpu_usage@ == series_push(
                old(self).cpu_usage@,
                stats.cpu.global_usage,
                old(self).max_points as nat,
            ),
            final(self).mem_usage@ == series_push(
                old(self).mem_usage@,
                stats.memory.usage_percent,
                old(self).max_points as nat,
            ),
            final(self).net_down@ == series_push(
                old(self).net_down@,
                stats.network.received_per_sec,
                old(self).max_points as nat,
            ),
            final(self).net_up@ == series_push(
                old(self).net_up@,
                stats.network.transmitted_per_sec,
                old(self).max_points as nat,
            ),
    {
        let max = self.max_points;
        let ghost m0 = temps_map_of(self.temps@);
        let ghost readings = stats.temperature.readings@;
        let n = stats.temperature.readings.len();
        let mut r_i: usize = 0;
        while r_i < n
            invariant
                max == self.max_points,
                max >= 1,
                n == readings.len(),
                readings == stats.temperature.readings@,
                r_i <= n,
                labels_unique(self.temps@),
                forall|i: int|
                    0 <= i < self.temps@.len() ==> #[trigger] self.temps@[i].values@.len() <= max,
                temps_map_of(self.temps@) == push_temps(
                    m0,
                    readings.take(r_i as int),
                    max as nat,
                ),
                self.cpu_usage == old(self).cpu_usage,
                self.mem_usage == old(self).mem_usage,
                self.net_down == old(self).net_down,
                self.net_up == old(self).net_up,
            decreases n - r_i,
        {
            let reading = &stats.temperature.readings[r_i];
            push_temp_value(&mut self.temps, &reading.label, reading.temp_milli_c, max);
            proof {
                let prefix = readings.take(r_i as int);
                assert(readings.take(r_i + 1) =~= prefix.push(readings[r_i as int]));
                lemma_push_temps_snoc(m0, prefix, readings[r_i as int], max as nat);
            }
            r_i = r_i + 1;
        }
        proof {
            assert(readings.take(n as int) =~= readings);
        }
        push_bounded(&mut self.cpu_usage, stats.cpu.global_usage, max);
        push_bounded(&mut self.mem_usage, stats.memory.usage_percent, max);
        push_bounded(&mut self.net_down, stats.network.received_per_sec, max);
        push_bounded(&mut self.net_up, stats.network.transmitted_per_sec, max);
    }

    /// The temperature series stored under exactly this label, oldest value
    /// first, or `None` when no reading with this label was ever pushed.
    pub fn temp_series(&self, label: &str) -> (r: Option<&VecDeque<u64>>)
        requires
            self.wf(),
        ensures
            match r {
                Some(values) => find_series(self.temps@, label@) == Some(values@),
                None => find_series(self.temps@, label@) is None,
            },
    {
        let n = self.temps.len();
        let mut i: usize = 0;
        while i < n
            invariant
                self.wf(),
                n == self.temps@.len(),
                i <= n,
                forall|j: int| 0 <= j < i ==> self.temps@[j].label@ != label@,
            decreases n - i,
        {
            if crate::text::str_eq(self.temps[i].label.as_str(), label) {
                proof {
                    lemma_find_series_found(self.temps@, i as int);
                }
                return Some(&self.temps[i].values);
            }
            i = i + 1;
        }
        proof {
            lemma_find_series_absent(self.temps@, label@);
        }
        None
    }
}

} // verus!
