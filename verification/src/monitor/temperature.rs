//! Sensor classifier: maps raw, vendor-specific sensor labels to canonical
//! categories and produces the cycle's canonical readings.
//!
//! A reading outside the validity window (0, 150] °C is sensor noise and is
//! discarded. Remaining labels are classified case-insensitively, in this
//! precedence order: storage keywords ("nand", "ssd", "disk") make an SSD
//! reading where the last matching reading wins; the platform's performance
//! die prefix makes a CPU reading; its secondary die prefix a GPU reading;
//! its device prefix a CPU reading; a generic "cpu" substring CPU; a generic
//! "gpu" substring GPU; anything else that is not a generic "pmu" noise label
//! is kept verbatim. CPU and GPU emit one averaged reading each. An empty
//! result is a legitimate "no sensors" state, not an error.

use vstd::prelude::*;
use vstd::string::StringExecFns;

use crate::model::{TemperatureReading, TemperatureReadingV, TemperatureStats};
use crate::monitor::RawSensor;
use crate::text::{
    chars_contains,
    chars_starts_with,
    has_substring,
    lower_seq,
    str_to_chars,
    str_to_lower_chars,
};

verus! {

/// The canonical bucket a sensor label falls into.
#[derive(Clone, Copy, Debug, PartialEq, Eq, Structural)]
pub enum Category {
    Cpu,
    Gpu,
    Ssd,
    Other,
    Skip,
}

/// A reading inside the validity window (0, 150] °C, in thousandths.
pub open spec fn valid_temp(t: int) -> bool {
    0 < t <= 150000
}

/// Classifies an already-lowercased label, in precedence order.
pub open spec fn category_of(l: Seq<char>) -> Category {
    if has_substring(l, "nand"@) || has_substring(l, "ssd"@) || has_substring(l, "disk"@) {
        Category::Ssd
    } else if "pmu tdie"@.is_prefix_of(l) {
        Category::Cpu
    } else if "pmu2 tdie"@.is_prefix_of(l) {
        Category::Gpu
    } else if "pmu tdev"@.is_prefix_of(l) {
        Category::Cpu
    } else if has_substring(l, "cpu"@) {
        Category::Cpu
    } else if has_substring(l, "gpu"@) {
        Category::Gpu
    } else if !has_substring(l, "pmu"@) {
        Category::Other
    } else {
        Category::Skip
    }
}

/// The sensor answered and its reading is inside the validity window.
pub open spec fn sensor_valid(r: RawSensor) -> bool {
    match r.temp_milli_c {
        Some(t) => valid_temp(t as int),
        None => false,
    }
}

/// The sensor's reading, for a sensor that answered.
pub open spec fn sensor_temp(r: RawSensor) -> int {
    match r.temp_milli_c {
        Some(t) => t as int,
        None => 0,
    }
}

/// The sensor contributes to category `c`.
pub open spec fn counted_as(r: RawSensor, c: Category) -> bool {
    sensor_valid(r) && category_of(lower_seq(r.label@)) == c
}

/// The readings contributed to category `c`, in encounter order.
pub open spec fn temps_in(s: Seq<RawSensor>, c: Category) -> Seq<int>
    decreases s.len(),
{
    if s.len() == 0 {
        Seq::empty()
    } else {
        temps_in(s.drop_last(), c) + (if counted_as(s.last(), c) {
            seq![sensor_temp(s.last())]
        } else {
            Seq::empty()
        })
    }
}

/// Sum of a sequence of readings.
pub open spec fn sum_of(s: Seq<int>) -> int
    decreases s.len(),
{
    if s.len() == 0 {
        0
    } else {
        sum_of(s.drop_last()) + s.last()
    }
}

/// Arithmetic mean (truncated) of a non-empty sequence of readings.
pub open spec fn mean_of(s: Seq<int>) -> int
    recommends
        s.len() > 0,
{
    sum_of(s) / (s.len() as int)
}

/// The storage reading: last write wins, not an average.
pub open spec fn last_ssd(s: Seq<RawSensor>) -> Option<int>
    decreases s.len(),
{
    if s.len() == 0 {
        None
    } else if counted_as(s.last(), Category::Ssd) {
        Some(sensor_temp(s.last()))
    } else {
        last_ssd(s.drop_last())
    }
}

/// The readings kept verbatim, in encounter order.
pub open spec fn other_readings(s: Seq<RawSensor>) -> Seq<TemperatureReadingV>
    decreases s.len(),
{
    if s.len() == 0 {
        Seq::empty()
    } else {
        other_readings(s.drop_last()) + (if counted_as(s.last(), Category::Other) {
            seq![
                TemperatureReadingV {
                    label: s.last().label@,
                    temp_milli_c: sensor_temp(s.last()) as u64,
                },
            ]
        } else {
            Seq::empty()
        })
    }
}

/// The canonical reading set of one cycle: an averaged CPU reading when any
/// sensor contributed to CPU, then an averaged GPU reading, then the
/// last-written SSD reading, then the verbatim readings in encounter order.
pub open spec fn classified(s: Seq<RawSensor>) -> Seq<TemperatureReadingV> {
    let cpu = temps_in(s, Category::Cpu);
    let gpu = temps_in(s, Category::Gpu);
    (if cpu.len() > 0 {
        seq![TemperatureReadingV { label: "CPU"@, temp_milli_c: mean_of(cpu) as u64 }]
    } else {
        Seq::empty()
    }) + (if gpu.len() > 0 {
        seq![TemperatureReadingV { label: "GPU"@, temp_milli_c: mean_of(gpu) as u64 }]
    } else {
        Seq::empty()
    }) + (match last_ssd(s) {
        Some(t) => seq![TemperatureReadingV { label: "SSD"@, temp_milli_c: t as u64 }],
        None => Seq::empty(),
    }) + other_readings(s)
}

/// Classifies one lowercased label.
fn classify_label(lower: &Vec<char>) -> (c: Category)
    ensures
        c == category_of(lower@),
{
    let nand = str_to_chars("nand");
    let ssd = str_to_chars("ssd");
    let disk = str_to_chars("disk");
    let pmu_tdie = str_to_chars("pmu tdie");
    let pmu2_tdie = str_to_chars("pmu2 tdie");
    let pmu_tdev = str_to_chars("pmu tdev");
    let cpu = str_to_chars("cpu");
    let gpu = str_to_chars("gpu");
    let pmu = str_to_chars("pmu");
    if chars_contains(lower, &nand) || chars_contains(lower, &ssd) || chars_contains(
        lower,
        &disk,
    ) {
        Category::Ssd
    } else if chars_starts_with(lower, &pmu_tdie) {
        Category::Cpu
    } else if chars_starts_with(lower, &pmu2_tdie) {
        Category::Gpu
    } else if chars_starts_with(lower, &pmu_tdev) {
        Category::Cpu
    } else if chars_contains(lower, &cpu) {
        Category::Cpu
    } else if chars_contains(lower, &gpu) {
        Category::Gpu
    } else if !chars_contains(lower, &pmu) {
        Category::Other
    } else {
        Category::Skip
    }
}

/// Produces the canonical reading set for one cycle from the raw sensor
/// readings. Invalid or missing readings silently reduce the output; when
/// nothing remains the result is empty rather than an error.
pub fn collect_from(sensors: &Vec<RawSensor>) -> (r: TemperatureStats)
    ensures
        r.readings@.map_values(|x: TemperatureReading| x@) == classified(sensors@),
{
    let n = sensors.len();
    let mut cpu_sum: u128 = 0;
    let mut cpu_cnt: usize = 0;
    let mut gpu_sum: u128 = 0;
    let mut gpu_cnt: usize = 0;
    let mut ssd_temp: Option<u64> = None;
    let mut other: Vec<TemperatureReading> = Vec::new();
    let mut i: usize = 0;
    while i < n
        invariant
            n == sensors@.len(),
            i <= n,
            cpu_cnt <= i,
            gpu_cnt <= i,
            cpu_cnt == temps_in(sensors@.take(i as int), Category::Cpu).len(),
            cpu_sum == sum_of(temps_in(sensors@.take(i as int), Category::Cpu)),
            cpu_sum <= 150000 * (cpu_cnt as int),
            gpu_cnt == temps_in(sensors@.take(i as int), Category::Gpu).len(),
            gpu_sum == sum_of(temps_in(sensors@.take(i as int), Category::Gpu)),
            gpu_sum <= 150000 * (gpu_cnt as int),
            match ssd_temp {
                Some(v) => last_ssd(sensors@.take(i as int)) == Some(v as int),
                None => last_ssd(sensors@.take(i as int)) is None,
            },
            other@.map_values(|x: TemperatureReading| x@) == other_readings(
                sensors@.take(i as int),
            ),
        decreases n - i,
    {
        let ghost prefix = sensors@.take(i as int);
        let ghost prefix1 = sensors@.take(i + 1);
        proof {
            assert(prefix1.drop_last() =~= prefix);
            assert(prefix1.last() == sensors@[i as int]);
            assert(forall|c: Category|
                #[trigger] temps_in(prefix1, c) == temps_in(prefix, c) + (if counted_as(
                    sensors@[i as int],
                    c,
                ) {
                    seq![sensor_temp(sensors@[i as int])]
                } else {
                    Seq::<int>::empty()
                }));
        }
        let sensor = &sensors[i];
        let mut skip = true;
        match sensor.temp_milli_c {
            Some(t) => {
                if 0 < t && t <= 150000 {
                    skip = false;
                    let tv: u64 = t as u64;
                    let lower = str_to_lower_chars(sensor.label.as_str());
                    let category = classify_label(&lower);
                    match category {
                        Category::Cpu => {
                            cpu_sum = cpu_sum + tv as u128;
                            cpu_cnt = cpu_cnt + 1;
                            proof {
                                lemma_sum_append(
                                    temps_in(prefix, Category::Cpu),
                                    sensor_temp(sensors@[i as int]),
                                );
                            }
                        },
                        Category::Gpu => {
                            gpu_sum = gpu_sum + tv as u128;
                            gpu_cnt = gpu_cnt + 1;
                            proof {
                                lemma_sum_append(
                                    temps_in(prefix, Category::Gpu),
                                    sensor_temp(sensors@[i as int]),
                                );
                            }
                        },
                        Category::Ssd => {
                            ssd_temp = Some(tv);
                        },
                        Category::Other => {
                            other.push(
                                TemperatureReading {
                                    label: sensor.label.clone(),
                                    temp_milli_c: tv,
                                },
                            );
                            proof {
                                assert(other@.map_values(|x: TemperatureReading| x@)
                                    =~= other_readings(prefix1));
                            }
                        },
                        Category::Skip => {
                        },
                    }
                }
            },
            None => {},
        }
        proof {
            if skip {
                assert(!sensor_valid(sensors@[i as int]));
            }
            assert(temps_in(prefix1, Category::Cpu) == temps_in(prefix, Category::Cpu)
                + (if counted_as(sensors@[i as int], Category::Cpu) {
                seq![sensor_temp(sensors@[i as int])]
            } else {
                Seq::<int>::empty()
            }));
        }
        i = i + 1;
    }
    proof {
        assert(sensors@.take(n as int) =~= sensors@);
    }

    let mut readings: Vec<TemperatureReading> = Vec::new();
    if cpu_cnt > 0 {
        let avg: u64 = (cpu_sum / (cpu_cnt as u128)) as u64;
        proof {
            lemma_mean_bounded(temps_in(sensors@, Category::Cpu));
        }
        readings.push(
            TemperatureReading { label: String::from_str("CPU"), temp_milli_c: avg },
        );
    }
    if gpu_cnt > 0 {
        let avg: u64 = (gpu_sum / (gpu_cnt as u128)) as u64;
        proof {
            lemma_mean_bounded(temps_in(sensors@, Category::Gpu));
        }
        readings.push(
            TemperatureReading { label: String::from_str("GPU"), temp_milli_c: avg },
        );
    }
    match ssd_temp {
        Some(t) => {
            readings.push(
                TemperatureReading { label: String::from_str("SSD"), temp_milli_c: t },
            );
        },
        None => {},
    }
    readings.append(&mut other);
    proof {
        assert(readings@.map_values(|x: TemperatureReading| x@) =~= classified(sensors@));
    }
    TemperatureStats { readings }
}

/// Appending one reading adds it to the sum.
proof fn lemma_sum_append(s: Seq<int>, x: int)
    ensures
        sum_of(s + seq![x]) == sum_of(s) + x,
{
    assert((s + seq![x]).drop_last() =~= s);
    assert((s + seq![x]).last() == x);
}

/// A mean of readings inside the validity window stays inside it.
proof fn lemma_mean_bounded(s: Seq<int>)
    requires
        s.len() > 0,
        sum_of(s) <= 150000 * s.len(),
        sum_of(s) >= 0,
    ensures
        0 <= mean_of(s) <= 150000,
{
    let len = s.len() as int;
    vstd::arithmetic::div_mod::lemma_div_is_ordered(sum_of(s), 150000 * len, len);
    vstd::arithmetic::div_mod::lemma_div_by_multiple(150000, len);
    vstd::arithmetic::div_mod::lemma_div_pos_is_pos(sum_of(s), len);
}

} // verus!
