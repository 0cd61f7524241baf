//! First-match temperature discovery over sensor and thermal-zone readings.
//!
//! Temperatures are carried in tenths of a degree Celsius, so that the
//! plausibility windows and the thermal-zone conversion (fixed-point tenths
//! of a Kelvin) are exact integer arithmetic. The scan is layered: a labelled
//! sensor in range wins, then (for the CPU path only) any sensor in a
//! narrower range, then a thermal-zone reading; an empty outcome is reported
//! as "not available", not as an error.

use vstd::prelude::*;
use crate::text::{contains_sub_ci, has_sub_ci};

verus! {

/// One hardware temperature sensor: its label and its reading in tenths of a
/// degree Celsius.
#[derive(Debug)]
pub struct SensorReading {
    pub label: String,
    pub temp_tenths: i32,
}

/// Which keyword set a scan matches sensor labels against.
#[derive(Debug, Clone, Copy)]
pub enum SensorFilter {
    Cpu,
    Gpu,
}

/// The label keywords of each filter, matched case-insensitively.
pub open spec fn filter_matches(f: SensorFilter, label: Seq<char>) -> bool {
    match f {
        SensorFilter::Cpu => has_sub_ci(label, "package"@) || has_sub_ci(label, "cpu"@),
        SensorFilter::Gpu => has_sub_ci(label, "gpu"@) || has_sub_ci(label, "graphics"@)
            || has_sub_ci(label, "video"@),
    }
}

/// A labelled hit: the label matches and the reading is plausible
/// (strictly between 0 and 150 degrees).
pub open spec fn labeled_hit(f: SensorFilter, s: SensorReading) -> bool {
    filter_matches(f, s.label@) && 0 < s.temp_tenths && s.temp_tenths < 1500
}

/// An unlabelled best-guess hit: any reading strictly between 20 and 100
/// degrees.
pub open spec fn any_hit(s: SensorReading) -> bool {
    200 < s.temp_tenths && s.temp_tenths < 1000
}

/// A thermal-zone hit: the raw tenths-of-Kelvin value converts to a reading
/// strictly between 20 and 100 degrees.
pub open spec fn zone_hit(z: u64) -> bool {
    2932 < z && z < 3732
}

/// The first labelled hit, scanning in order.
pub open spec fn scan_labeled_rec(f: SensorFilter, s: Seq<SensorReading>) -> Option<i32>
    decreases s.len(),
{
    if s.len() <= 0 {
        None
    } else if labeled_hit(f, s[0]) {
        Some(s[0].temp_tenths)
    } else {
        scan_labeled_rec(f, s.drop_first())
    }
}

/// The first unlabelled best-guess hit, scanning in order.
pub open spec fn scan_any_rec(s: Seq<SensorReading>) -> Option<i32>
    decreases s.len(),
{
    if s.len() <= 0 {
        None
    } else if any_hit(s[0]) {
        Some(s[0].temp_tenths)
    } else {
        scan_any_rec(s.drop_first())
    }
}

/// The first thermal-zone hit, converted to tenths of a degree Celsius.
pub open spec fn scan_zones_rec(zs: Seq<u64>) -> Option<i32>
    decreases zs.len(),
{
    if zs.len() <= 0 {
        None
    } else if zone_hit(zs[0]) {
        Some((zs[0] - 2732) as i32)
    } else {
        scan_zones_rec(zs.drop_first())
    }
}

/// The CPU temperature outcome: labelled scan, then best-guess scan, then
/// thermal zones, then the (0, unavailable) sentinel.
pub open spec fn cpu_temp_spec(sensors: Seq<SensorReading>, zones: Seq<u64>) -> (i32, bool) {
    match scan_labeled_rec(SensorFilter::Cpu, sensors) {
        Some(t) => (t, true),
        None => match scan_any_rec(sensors) {
            Some(t) => (t, true),
            None => match scan_zones_rec(zones) {
                Some(t) => (t, true),
                None => (0i32, false),
            },
        },
    }
}

/// The GPU temperature outcome: labelled scan only, else the sentinel.
pub open spec fn gpu_temp_spec(sensors: Seq<SensorReading>) -> (i32, bool) {
    match scan_labeled_rec(SensorFilter::Gpu, sensors) {
        Some(t) => (t, true),
        None => (0i32, false),
    }
}

/// Whether a sensor label matches the keyword set of the given filter.
pub fn label_matches(f: SensorFilter, label: &str) -> (r: bool)
    ensures
        r == filter_matches(f, label@),
{
    match f {
        SensorFilter::Cpu => contains_sub_ci(label, "package") || contains_sub_ci(
            label,
            "cpu",
        ),
        SensorFilter::Gpu => contains_sub_ci(label, "gpu") || contains_sub_ci(label, "graphics")
            || contains_sub_ci(label, "video"),
    }
}

/// First sensor whose label matches the filter and whose reading is plausible.
pub fn scan_labeled(f: SensorFilter, sensors: &Vec<SensorReading>) -> (r: Option<i32>)
    ensures
        r == scan_labeled_rec(f, sensors@),
{
    let mut i: usize = 0;
    proof {
        assert(sensors@.skip(0) =~= sensors@);
    }
    while i < sensors.len()
        invariant
            i <= sensors@.len(),
            scan_labeled_rec(f, sensors@) == scan_labeled_rec(f, sensors@.skip(i as int)),
        decreases sensors@.len() - i,
    {
        let t = sensors[i].temp_tenths;
        if label_matches(f, sensors[i].label.as_str()) && 0 < t && t < 1500 {
            proof {
                assert(sensors@.skip(i as int)[0] == sensors@[i as int]);
            }
            return Some(t);
        }
        proof {
            assert(sensors@.skip(i as int)[0] == sensors@[i as int]);
            assert(sensors@.skip(i as int).drop_first() =~= sensors@.skip(i as int + 1));
        }
        i += 1;
    }
    proof {
        assert(sensors@.skip(i as int).len() == 0);
    }
    None
}

/// First sensor whose reading lies in the best-guess range.
pub fn scan_any(sensors: &Vec<SensorReading>) -> (r: Option<i32>)
    ensures
        r == scan_any_rec(sensors@),
{
    let mut i: usize = 0;
    proof {
        assert(sensors@.skip(0) =~= sensors@);
    }
    while i < sensors.len()
        invariant
            i <= sensors@.len(),
            scan_any_rec(sensors@) == scan_any_rec(sensors@.skip(i as int)),
        decreases sensors@.len() - i,
    {
        let t = sensors[i].temp_tenths;
        if 200 < t && t < 1000 {
            proof {
                assert(sensors@.skip(i as int)[0] == sensors@[i as int]);
            }
            return Some(t);
        }
        proof {
            assert(sensors@.skip(i as int)[0] == sensors@[i as int]);
            assert(sensors@.skip(i as int).drop_first() =~= sensors@.skip(i as int + 1));
        }
        i += 1;
    }
    proof {
        assert(sensors@.skip(i as int).len() == 0);
    }
    None
}

/// First thermal-zone reading that converts into the plausible range.
pub fn scan_zones(zones: &Vec<u64>) -> (r: Option<i32>)
    ensures
        r == scan_zones_rec(zones@),
{
    let mut i: usize = 0;
    proof {
        assert(zones@.skip(0) =~= zones@);
    }
    while i < zones.len()
        invariant
            i <= zones@.len(),
            scan_zones_rec(zones@) == scan_zones_rec(zones@.skip(i as int)),
        decreases zones@.len() - i,
    {
        let z = zones[i];
        if 2932 < z && z < 3732 {
            proof {
                assert(zones@.skip(i as int)[0] == zones@[i as int]);
            }
            return Some((z - 2732) as i32);
        }
        proof {
            assert(zones@.skip(i as int)[0] == zones@[i as int]);
            assert(zones@.skip(i as int).drop_first() =~= zones@.skip(i as int + 1));
        }
        i += 1;
    }
    proof {
        assert(zones@.skip(i as int).len() == 0);
    }
    None
}

/// CPU temperature: labelled sensors first, any plausible sensor second,
/// thermal zones third, the unavailable sentinel last.
pub fn get_cpu_temp(sensors: &Vec<SensorReading>, zones: &Vec<u64>) -> (r: (i32, bool))
    ensures
        r == cpu_temp_spec(sensors@, zones@),
{
    if let Some(t) = scan_labeled(SensorFilter::Cpu, sensors) {
        return (t, true);
    }
    if let Some(t) = scan_any(sensors) {
        return (t, true);
    }
    if let Some(t) = scan_zones(zones) {
        return (t, true);
    }
    (0, false)
}

/// GPU temperature: labelled sensors only, else the unavailable sentinel.
pub fn get_gpu_temp(sensors: &Vec<SensorReading>) -> (r: (i32, bool))
    ensures
        r == gpu_temp_spec(sensors@),
{
    if let Some(t) = scan_labeled(SensorFilter::Gpu, sensors) {
        return (t, true);
    }
    (0, false)
}

} // verus!
