use vstd::prelude::*;

verus! {

/// One reading of the cumulative idle and total CPU-time counters.
#[derive(Clone, Copy, Debug, PartialEq, Eq, Structural)]
pub struct CpuSample {
    pub idle: u32,
    pub total: u32,
}

/// Sum of the first `k` counters of `f`.
pub open spec fn sum_first(f: Seq<u64>, k: int) -> int
    decreases k,
{
    if k <= 0 {
        0
    } else {
        sum_first(f, k - 1) + f[k - 1]
    }
}

/// How many of the leading time counters of an aggregate CPU line count
/// towards the total: user, nice, system, idle, iowait, irq, softirq, steal.
/// The guest counters after them are already part of user and nice.
pub const TIME_FIELDS: usize = 8;

/// The sample that the counters of an aggregate CPU line give, in the order
/// user, nice, system, idle, iowait, irq, softirq, steal: idle time is idle
/// plus iowait, total time the sum of the counters present among those eight.
/// Each is kept modulo 2^32, as a counter that wraps. `None` when fewer than
/// the first four counters are present.
pub open spec fn sample_spec(f: Seq<u64>) -> Option<CpuSample> {
    if f.len() < 4 {
        None
    } else {
        let k = if f.len() < TIME_FIELDS { f.len() as int } else { TIME_FIELDS as int };
        let idle = if f.len() > 4 { f[3] + f[4] } else { f[3] as int };
        Some(CpuSample { idle: (idle % 0x1_0000_0000) as u32, total: (sum_first(f, k) % 0x1_0000_0000) as u32 })
    }
}

/// Builds a CPU sample from the counters of an aggregate CPU line.
pub fn sample_from_fields(fields: &Vec<u64>) -> (r: Option<CpuSample>)
    ensures
        r == sample_spec(fields@),
{
    if fields.len() < 4 {
        return None;
    }
    let k: usize = if fields.len() < TIME_FIELDS { fields.len() } else { TIME_FIELDS };
    let mut total: u128 = 0;
    let mut i: usize = 0;
    while i < k
        invariant
            i <= k <= TIME_FIELDS,
            k <= fields.len(),
            total == sum_first(fields@, i as int),
            total <= i * 0xFFFF_FFFF_FFFF_FFFFu128,
        decreases k - i,
    {
        total = total + fields[i] as u128;
        i += 1;
    }
    let idle: u128 = if fields.len() > 4 {
        fields[3] as u128 + fields[4] as u128
    } else {
        fields[3] as u128
    };
    let idle: u32 = (idle % 0x1_0000_0000) as u32;
    let total: u32 = (total % 0x1_0000_0000) as u32;
    Some(CpuSample { idle, total })
}

/// A byte that separates counters on a CPU line.
pub open spec fn is_separator(b: u8) -> bool {
    b == 0x20u8 || b == 0x09u8 || b == 0x0Au8 || b == 0x0Du8
}

/// A decimal digit.
pub open spec fn is_digit(b: u8) -> bool {
    0x30u8 <= b <= 0x39u8
}

/// The counters in `s` from position `i` on, given the counters `acc` read
/// before it and, when `in_number`, the value `cur` of the number being read:
/// runs of decimal digits separated by whitespace. `None` when another byte
/// occurs or a counter exceeds the range of `u64`.
pub open spec fn counters_from(s: Seq<u8>, i: int, in_number: bool, cur: int, acc: Seq<u64>) -> Option<Seq<u64>>
    decreases s.len() - i,
{
    if i >= s.len() || i < 0 {
        if in_number {
            Some(acc.push(cur as u64))
        } else {
            Some(acc)
        }
    } else if is_separator(s[i]) {
        counters_from(s, i + 1, false, 0, if in_number { acc.push(cur as u64) } else { acc })
    } else if is_digit(s[i]) {
        let v = cur * 10 + (s[i] - 0x30u8);
        if v > u64::MAX {
            None
        } else {
            counters_from(s, i + 1, true, v, acc)
        }
    } else {
        None
    }
}

/// The sample that an aggregate CPU line of the kernel's statistics gives:
/// the word `cpu`, a separator, then the counters.
pub open spec fn cpu_line_spec(s: Seq<u8>) -> Option<CpuSample> {
    if s.len() >= 4 && s[0] == 0x63u8 && s[1] == 0x70u8 && s[2] == 0x75u8 && is_separator(s[3]) {
        match counters_from(s, 4, false, 0, Seq::empty()) {
            Some(f) => sample_spec(f),
            None => None,
        }
    } else {
        None
    }
}

/// Reads the CPU sample from an aggregate CPU line of the kernel's
/// statistics (`cpu  user nice system idle iowait irq softirq steal ...`).
pub fn parse_cpu_line(line: &[u8]) -> (r: Option<CpuSample>)
    ensures
        r == cpu_line_spec(line@),
{
    if line.len() < 4 || line[0] != 0x63u8 || line[1] != 0x70u8 || line[2] != 0x75u8 {
        return None;
    }
    let b3: u8 = line[3];
    if !(b3 == 0x20u8 || b3 == 0x09u8 || b3 == 0x0Au8 || b3 == 0x0Du8) {
        return None;
    }
    let mut acc: Vec<u64> = Vec::new();
    let mut cur: u64 = 0;
    let mut in_number: bool = false;
    let mut i: usize = 4;
    while i < line.len()
        invariant
            4 <= i <= line.len(),
            !in_number ==> cur == 0,
            counters_from(line@, 4, false, 0, Seq::empty()) == counters_from(
                line@,
                i as int,
                in_number,
                cur as int,
                acc@,
            ),
        decreases line.len() - i,
    {
        let b: u8 = line[i];
        if b == 0x20u8 || b == 0x09u8 || b == 0x0Au8 || b == 0x0Du8 {
            if in_number {
                acc.push(cur);
            }
            in_number = false;
            cur = 0;
        } else if 0x30u8 <= b && b <= 0x39u8 {
            let d: u64 = (b - 0x30u8) as u64;
            if cur > (u64::MAX - d) / 10 {
                return None;
            }
            cur = cur * 10 + d;
            in_number = true;
        } else {
            return None;
        }
        i += 1;
    }
    if in_number {
        acc.push(cur);
    }
    sample_from_fields(&acc)
}

/// How far a cumulative counter moved between two samples; a counter that
/// went down (it was reset or wrapped) counts as not having moved.
pub open spec fn counter_delta(prev: int, cur: int) -> int {
    if cur >= prev {
        cur - prev
    } else {
        0
    }
}

/// CPU load in percent, rounded to the nearest integer: the busy share of the
/// CPU time that passed between two samples of the idle and total counters.
/// Zero when no CPU time passed. Idle time beyond the total counts as no busy time.
pub open spec fn load_spec(prev_idle: int, prev_total: int, cur_idle: int, cur_total: int) -> int {
    let total = counter_delta(prev_total, cur_total);
    let idle = counter_delta(prev_idle, cur_idle);
    if total == 0 {
        0
    } else {
        let busy = if idle <= total {
            total - idle
        } else {
            0
        };
        (1000 * busy / total + 5) / 10
    }
}

/// Computes the CPU load between two samples of the cumulative idle and total
/// CPU-time counters.
pub fn compute_load(prev_idle: u32, prev_total: u32, cur_idle: u32, cur_total: u32) -> (r: u32)
    ensures
        r == load_spec(prev_idle as int, prev_total as int, cur_idle as int, cur_total as int),
        r <= 100,
        counter_delta(prev_total as int, cur_total as int) == 0 ==> r == 0,
{
    let total: u64 = if cur_total >= prev_total {
        (cur_total - prev_total) as u64
    } else {
        0
    };
    let idle: u64 = if cur_idle >= prev_idle {
        (cur_idle - prev_idle) as u64
    } else {
        0
    };
    if total == 0 {
        return 0;
    }
    let busy: u64 = if idle <= total {
        total - idle
    } else {
        0
    };
    proof {
        assert(1000 * (busy as int) / (total as int) <= 1000) by (nonlinear_arith)
            requires
                busy <= total,
                total > 0,
        ;
    }
    ((1000 * busy / total + 5) / 10) as u32
}

} // verus!
