use vstd::prelude::*;

use crate::average::{lemma_window_fold_is_mean, last_samples, sum, window_fold, window_len, Mean};
use crate::cpu::{compute_load, load_spec, CpuSample};

verus! {

/// Whether CPU load is sampled and reported unless configured otherwise.
pub const PRINT_CPU_LOAD: bool = false;

/// Window size of the bitrate mean unless configured otherwise (zero: all samples).
pub const BITRATE_WINDOW_SIZE: u32 = 0;

/// Milliseconds between two computations unless configured otherwise.
pub const BITRATE_INTERVAL: u32 = 100;

#[derive(Clone, Copy, Debug, PartialEq, Eq, Structural)]
pub enum PerfError {
    /// `start` on an engine that runs.
    AlreadyRunning,
    /// An operation that needs a running engine, on a stopped one.
    NotRunning,
    /// CPU load cannot be sampled on this platform.
    Unsupported,
}

/// The metrics reported at the end of a tick.
#[derive(Clone, Copy, Debug, PartialEq, Eq, Structural)]
pub struct Snapshot {
    /// Frames per second over the tick, rounded down.
    pub fps: u64,
    /// Bits per second over the tick, rounded down.
    pub bps: u64,
    /// Exact mean of the bitrate samples in the window.
    pub mean_bps: Mean,
    /// CPU load in percent, when it is sampled.
    pub cpu_load: Option<u32>,
    pub frame_count_total: u64,
    pub byte_count_total: u64,
}

/// What a `Perf` engine holds, as mathematical values.
pub struct PerfView {
    pub running: bool,
    /// Timestamp in milliseconds of the last tick that computed the metrics.
    pub prev_time: int,
    pub fps: int,
    pub frame_count: int,
    pub frame_count_total: int,
    pub bps: int,
    pub mean_bps: Mean,
    /// Bitrate samples since the averaging last restarted, oldest first.
    pub samples: Seq<u64>,
    pub byte_count: int,
    pub byte_count_total: int,
    pub bps_interval: int,
    pub bps_window_size: int,
    pub prev_cpu_idle: int,
    pub prev_cpu_total: int,
    pub print_cpu_load: bool,
    /// This session found no CPU sample: CPU load is not sampled until the
    /// next `start` or `clear`.
    pub cpu_unsupported: bool,
}

/// `a + b`, held at `max`.
pub open spec fn capped_add(a: int, b: int, max: int) -> int {
    if a + b > max {
        max
    } else {
        a + b
    }
}

/// Frames per second from `frames` frames in `elapsed_ms` milliseconds.
pub open spec fn fps_spec(frames: int, elapsed_ms: int) -> int {
    frames * 1000 / elapsed_ms
}

/// Bits per second from `bytes` bytes in `elapsed_ms` milliseconds, held to
/// the range of `u64`.
pub open spec fn bps_spec(bytes: int, elapsed_ms: int) -> int {
    let b = bytes * 8000 / elapsed_ms;
    if b > u64::MAX {
        u64::MAX as int
    } else {
        b
    }
}

/// Milliseconds from `prev` to `now`; zero when the clock went back.
pub open spec fn elapsed_spec(prev: int, now: int) -> int {
    if now >= prev {
        now - prev
    } else {
        0
    }
}

/// A tick at `now` computes the metrics: time has passed, and at least the
/// configured interval.
pub open spec fn tick_due(v: PerfView, now: int) -> bool {
    let e = elapsed_spec(v.prev_time, now);
    e > 0 && e >= v.bps_interval
}

/// The bitrate mean stands for the samples as the window fold over them.
pub open spec fn mean_consistent(v: PerfView) -> bool {
    &&& v.mean_bps == window_fold(v.bps_window_size, v.samples)
    &&& v.samples.len() < u64::MAX
}

/// The metric state of a freshly cleared engine, at time `now`.
pub open spec fn cleared(v: PerfView, now: int) -> bool {
    &&& v.prev_time == now
    &&& v.fps == 0
    &&& v.frame_count == 0
    &&& v.frame_count_total == 0
    &&& v.bps == 0
    &&& v.mean_bps == Mean::zero_spec()
    &&& v.samples.len() == 0
    &&& v.byte_count == 0
    &&& v.byte_count_total == 0
    &&& v.prev_cpu_idle == 0
    &&& v.prev_cpu_total == 0
    &&& !v.cpu_unsupported
}

/// `a` and `b` hold the same configuration and running state.
pub open spec fn same_config(a: PerfView, b: PerfView) -> bool {
    &&& a.running == b.running
    &&& a.bps_interval == b.bps_interval
    &&& a.bps_window_size == b.bps_window_size
    &&& a.print_cpu_load == b.print_cpu_load
}

/// The result of `start` on an engine in state `v`.
pub open spec fn start_result(v: PerfView) -> Result<(), PerfError> {
    if v.running {
        Err(PerfError::AlreadyRunning)
    } else {
        Ok(())
    }
}

/// The result of `stop` or `on_buffer` on an engine in state `v`: only a
/// running engine accepts them.
pub open spec fn running_result(v: PerfView) -> Result<(), PerfError> {
    if v.running {
        Ok(())
    } else {
        Err(PerfError::NotRunning)
    }
}

/// The state after a successful `stop`.
pub open spec fn stopped(v: PerfView) -> PerfView {
    PerfView { running: false, ..v }
}

/// The state after a successful `start` at `now`.
pub open spec fn started(v: PerfView, now: int) -> PerfView {
    PerfView {
        running: true,
        prev_time: now,
        fps: 0,
        frame_count: 0,
        frame_count_total: 0,
        bps: 0,
        mean_bps: Mean::zero_spec(),
        samples: Seq::empty(),
        byte_count: 0,
        byte_count_total: 0,
        prev_cpu_idle: 0,
        prev_cpu_total: 0,
        cpu_unsupported: false,
        ..v
    }
}

/// The bitrate sample that a due tick at `now` takes.
pub open spec fn tick_bps(v: PerfView, now: int) -> int {
    bps_spec(v.byte_count, elapsed_spec(v.prev_time, now))
}

/// The samples after a due tick at `now`.
pub open spec fn tick_samples(v: PerfView, now: int) -> Seq<u64> {
    v.samples.push(tick_bps(v, now) as u64)
}

/// Whether CPU load is sampled: it is asked for and this session has not
/// found sampling unavailable.
pub open spec fn cpu_wanted(v: PerfView) -> bool {
    v.print_cpu_load && !v.cpu_unsupported
}

/// Whether a due tick reads the CPU load: it is wanted and a sample came.
pub open spec fn reads_cpu(v: PerfView, cpu: Option<CpuSample>) -> bool {
    cpu_wanted(v) && cpu is Some
}

/// The state after a due tick at `now`, with `cpu` the CPU sample that the
/// host could take (`None` where the platform offers none).
pub open spec fn after_tick(v: PerfView, now: int, cpu: Option<CpuSample>) -> PerfView {
    let e = elapsed_spec(v.prev_time, now);
    PerfView {
        prev_time: now,
        fps: fps_spec(v.frame_count, e),
        frame_count: 0,
        bps: tick_bps(v, now),
        mean_bps: window_fold(v.bps_window_size, tick_samples(v, now)),
        samples: tick_samples(v, now),
        byte_count: 0,
        prev_cpu_idle: if reads_cpu(v, cpu) {
            cpu.unwrap().idle as int
        } else {
            v.prev_cpu_idle
        },
        prev_cpu_total: if reads_cpu(v, cpu) {
            cpu.unwrap().total as int
        } else {
            v.prev_cpu_total
        },
        cpu_unsupported: v.cpu_unsupported || (cpu_wanted(v) && cpu is None),
        ..v
    }
}

/// The snapshot that a due tick at `now` reports.
pub open spec fn tick_snapshot(v: PerfView, now: int, cpu: Option<CpuSample>) -> Snapshot {
    let a = after_tick(v, now, cpu);
    Snapshot {
        fps: a.fps as u64,
        bps: a.bps as u64,
        mean_bps: a.mean_bps,
        cpu_load: if reads_cpu(v, cpu) {
            Some(
                load_spec(
                    v.prev_cpu_idle,
                    v.prev_cpu_total,
                    cpu.unwrap().idle as int,
                    cpu.unwrap().total as int,
                ) as u32,
            )
        } else {
            None
        },
        frame_count_total: v.frame_count_total as u64,
        byte_count_total: v.byte_count_total as u64,
    }
}

/// The performance-metrics engine: counts frames and bytes as buffers pass,
/// and on each due tick computes frame rate, bitrate, the mean bitrate and,
/// when asked, the CPU load.
pub struct Perf {
    running: bool,
    prev_time: u64,
    fps: u64,
    frame_count: u32,
    frame_count_total: u64,
    bps: u64,
    mean_bps: Mean,
    bps_window: Vec<u64>,
    bps_count: u64,
    byte_count: u64,
    byte_count_total: u64,
    bps_interval: u32,
    bps_window_size: u32,
    prev_cpu_idle: u32,
    prev_cpu_total: u32,
    print_cpu_load: bool,
    cpu_unsupported: bool,
    samples: Ghost<Seq<u64>>,
}

impl Default for Perf {
    /// A stopped engine with the default configuration, as `Perf::new`.
    fn default() -> (r: Perf)
        ensures
            r.wf(),
            !r@.running,
            cleared(r@, 0),
            r@.bps_interval == BITRATE_INTERVAL,
            r@.bps_window_size == BITRATE_WINDOW_SIZE,
            r@.print_cpu_load == PRINT_CPU_LOAD,
    {
        Perf::new()
    }
}

impl View for Perf {
    type V = PerfView;

    closed spec fn view(&self) -> PerfView {
        PerfView {
            running: self.running,
            prev_time: self.prev_time as int,
            fps: self.fps as int,
            frame_count: self.frame_count as int,
            frame_count_total: self.frame_count_total as int,
            bps: self.bps as int,
            mean_bps: self.mean_bps,
            samples: self.samples@,
            byte_count: self.byte_count as int,
            byte_count_total: self.byte_count_total as int,
            bps_interval: self.bps_interval as int,
            bps_window_size: self.bps_window_size as int,
            prev_cpu_idle: self.prev_cpu_idle as int,
            prev_cpu_total: self.prev_cpu_total as int,
            print_cpu_load: self.print_cpu_load,
            cpu_unsupported: self.cpu_unsupported,
        }
    }
}

impl Perf {
    /// The engine's own bookkeeping agrees with its samples: the window holds
    /// the samples that the mean covers, and the count is their number.
    pub closed spec fn wf(&self) -> bool {
        &&& self.bps_count == self.samples@.len()
        &&& mean_consistent(self@)
        &&& self.mean_bps.valid_for(
            window_len(self.bps_window_size as int, self.samples@.len() as int),
        )
        &&& self.bps_window_size > 0 ==> self.bps_window@ == last_samples(
            self.samples@,
            window_len(self.bps_window_size as int, self.samples@.len() as int),
        )
    }

    /// The engine's bitrate mean is at every step exactly the mean of the
    /// last `bitrate_window_size` samples (of all samples since the averaging
    /// restarted, while fewer have come or for a window size of zero).
    pub proof fn lemma_mean_is_window_mean(&self)
        requires
            self.wf(),
            self@.samples.len() > 0,
        ensures
            self@.mean_bps.is_mean(
                window_len(self@.bps_window_size, self@.samples.len() as int),
                sum(last_samples(
                    self@.samples,
                    window_len(self@.bps_window_size, self@.samples.len() as int),
                )),
            ),
    {
        lemma_window_fold_is_mean(self@.bps_window_size, self@.samples);
    }

    /// A stopped engine with the default configuration.
    pub fn new() -> (r: Perf)
        ensures
            r.wf(),
            !r@.running,
            cleared(r@, 0),
            r@.bps_interval == BITRATE_INTERVAL,
            r@.bps_window_size == BITRATE_WINDOW_SIZE,
            r@.print_cpu_load == PRINT_CPU_LOAD,
    {
        let r = Perf {
            running: false,
            prev_time: 0,
            fps: 0,
            frame_count: 0,
            frame_count_total: 0,
            bps: 0,
            mean_bps: Mean::zero(),
            bps_window: Vec::new(),
            bps_count: 0,
            byte_count: 0,
            byte_count_total: 0,
            bps_interval: BITRATE_INTERVAL,
            bps_window_size: BITRATE_WINDOW_SIZE,
            prev_cpu_idle: 0,
            prev_cpu_total: 0,
            print_cpu_load: PRINT_CPU_LOAD,
            cpu_unsupported: false,
            samples: Ghost(Seq::empty()),
        };
        proof {
            assert(r.bps_window@ =~= last_samples(r.samples@, 0));
        }
        r
    }

    /// Zeroes all counters, derived metrics, bitrate samples and CPU sample
    /// history, and takes `now` as the time of the last computation.
    pub fn clear(&mut self, now: u64)
        ensures
            final(self).wf(),
            cleared(final(self)@, now as int),
            same_config(final(self)@, old(self)@),
    {
        self.fps = 0;
        self.frame_count = 0;
        self.frame_count_total = 0;
        self.bps = 0;
        self.mean_bps = Mean::zero();
        self.bps_window = Vec::new();
        self.bps_count = 0;
        self.samples = Ghost(Seq::empty());
        self.byte_count = 0;
        self.byte_count_total = 0;
        self.prev_time = now;
        self.prev_cpu_total = 0;
        self.prev_cpu_idle = 0;
        self.cpu_unsupported = false;
        proof {
            assert(self.bps_window@ =~= last_samples(self.samples@, 0));
        }
    }

    /// Starts the engine at time `now` from cleared metrics; fails on an
    /// engine that runs already, leaving it as it was.
    pub fn start(&mut self, now: u64) -> (r: Result<(), PerfError>)
        requires
            old(self).wf(),
        ensures
            final(self).wf(),
            r == start_result(old(self)@),
            old(self)@.running ==> final(self)@ == old(self)@,
            !old(self)@.running ==> final(self)@ == started(old(self)@, now as int),
    {
        if self.running {
            return Err(PerfError::AlreadyRunning);
        }
        self.clear(now);
        self.running = true;
        proof {
            assert(self.samples@ =~= Seq::<u64>::empty());
        }
        Ok(())
    }

    /// Stops the engine; fails on a stopped one. Nothing else changes.
    pub fn stop(&mut self) -> (r: Result<(), PerfError>)
        requires
            old(self).wf(),
        ensures
            final(self).wf(),
            r == running_result(old(self)@),
            !old(self)@.running ==> final(self)@ == old(self)@,
            old(self)@.running ==> final(self)@ == stopped(old(self)@),
    {
        if !self.running {
            return Err(PerfError::NotRunning);
        }
        self.running = false;
        Ok(())
    }

    /// Counts one buffer of `byte_len` bytes that arrived at `timestamp`.
    /// Counters stop at their largest value instead of wrapping. Fails on a
    /// stopped engine, leaving it as it was.
    pub fn on_buffer(&mut self, byte_len: u64, timestamp: u64) -> (r: Result<(), PerfError>)
        requires
            old(self).wf(),
        ensures
            final(self).wf(),
            r == running_result(old(self)@),
            !old(self)@.running ==> final(self)@ == old(self)@,
            old(self)@.running ==> final(self)@ == (PerfView {
                frame_count: capped_add(old(self)@.frame_count, 1, u32::MAX as int),
                frame_count_total: capped_add(old(self)@.frame_count_total, 1, u64::MAX as int),
                byte_count: capped_add(old(self)@.byte_count, byte_len as int, u64::MAX as int),
                byte_count_total: capped_add(old(self)@.byte_count_total, byte_len as int, u64::MAX as int),
                ..old(self)@
            }),
    {
        if !self.running {
            return Err(PerfError::NotRunning);
        }
        self.frame_count = self.frame_count.saturating_add(1);
        self.frame_count_total = self.frame_count_total.saturating_add(1);
        self.byte_count = self.byte_count.saturating_add(byte_len);
        self.byte_count_total = self.byte_count_total.saturating_add(byte_len);
        Ok(())
    }

    /// Takes the bitrate over the last `elapsed_ms` milliseconds from the
    /// byte count, zeroes that count, and brings the bitrate mean up to date
    /// with the new sample. Returns the bitrate.
    fn take_bps_sample(&mut self, elapsed_ms: u64) -> (r: u64)
        requires
            old(self).wf(),
            elapsed_ms > 0,
            old(self)@.samples.len() + 1 < u64::MAX,
        ensures
            final(self).wf(),
            r == bps_spec(old(self)@.byte_count, elapsed_ms as int),
            final(self)@ == (PerfView {
                bps: r as int,
                byte_count: 0,
                samples: old(self)@.samples.push(r),
                mean_bps: window_fold(old(self)@.bps_window_size, old(self)@.samples.push(r)),
                ..old(self)@
            }),
    {
        let b: u128 = self.byte_count as u128 * 8000 / elapsed_ms as u128;
        let bps: u64 = if b > u64::MAX as u128 {
            u64::MAX
        } else {
            b as u64
        };
        self.byte_count = 0;
        self.bps = bps;
        let ghost old_samples = self.samples@;
        let ghost new_samples = old_samples.push(bps);
        let count: u64 = self.bps_count + 1;
        let w: u32 = self.bps_window_size;
        proof {
            assert(new_samples.drop_last() =~= old_samples);
        }
        if w == 0 || count <= w as u64 {
            self.mean_bps = Perf::update_average(count, bps, self.mean_bps);
            if w > 0 {
                self.bps_window.push(bps);
                proof {
                    assert(last_samples(old_samples, old_samples.len() as int) =~= old_samples);
                    assert(self.bps_window@ =~= last_samples(new_samples, count as int));
                }
            }
        } else {
            let evicted: u64 = self.bps_window[0];
            self.bps_window.remove(0);
            self.bps_window.push(bps);
            self.mean_bps = Perf::update_moving_average(w, self.mean_bps, bps, evicted);
            proof {
                assert(self.bps_window@ =~= last_samples(new_samples, w as int));
            }
        }
        self.samples = Ghost(new_samples);
        self.bps_count = count;
        bps
    }

    /// The CPU load between the engine's last CPU sample and the counters
    /// `current_idle` and `current_total`. Recording a new sample is the
    /// tick's work.
    pub fn compute_cpu(&self, current_idle: u32, current_total: u32) -> (r: u32)
        ensures
            r == load_spec(
                self@.prev_cpu_idle,
                self@.prev_cpu_total,
                current_idle as int,
                current_total as int,
            ),
            r <= 100,
    {
        compute_load(self.prev_cpu_idle, self.prev_cpu_total, current_idle, current_total)
    }

    /// The periodic timer's entry point, at time `now` (milliseconds). When at
    /// least the configured interval has passed since the last computation,
    /// computes frame rate, bitrate, the bitrate mean and, when asked for, the
    /// CPU load from `cpu`, records `cpu` as the last CPU sample, and reports
    /// them; a computation that finds no CPU sample stops CPU sampling for the
    /// rest of the session, leaving the configuration as it was.
    /// Otherwise changes nothing and reports nothing. Fails on a stopped
    /// engine, leaving it as it was.
    pub fn update_bps(&mut self, now: u64, cpu: Option<CpuSample>) -> (r: Result<Option<Snapshot>, PerfError>)
        requires
            old(self).wf(),
            old(self)@.samples.len() + 1 < u64::MAX,
        ensures
            final(self).wf(),
            !old(self)@.running ==> r == Err::<Option<Snapshot>, PerfError>(PerfError::NotRunning)
                && final(self)@ == old(self)@,
            old(self)@.running && !tick_due(old(self)@, now as int) ==> r == Ok::<Option<Snapshot>, PerfError>(None)
                && final(self)@ == old(self)@,
            old(self)@.running && tick_due(old(self)@, now as int) ==> r == Ok::<Option<Snapshot>, PerfError>(
                Some(tick_snapshot(old(self)@, now as int, cpu)),
            ) && final(self)@ == after_tick(old(self)@, now as int, cpu),
    {
        if !self.running {
            return Err(PerfError::NotRunning);
        }
        let elapsed: u64 = if now >= self.prev_time {
            now - self.prev_time
        } else {
            0
        };
        if elapsed == 0 || elapsed < self.bps_interval as u64 {
            return Ok(None);
        }
        let fps: u64 = self.frame_count as u64 * 1000 / elapsed;
        self.fps = fps;
        self.frame_count = 0;
        let bps: u64 = self.take_bps_sample(elapsed);
        let mut cpu_load: Option<u32> = None;
        if self.print_cpu_load && !self.cpu_unsupported {
            match cpu {
                Some(sample) => {
                    cpu_load = Some(self.compute_cpu(sample.idle, sample.total));
                    self.prev_cpu_idle = sample.idle;
                    self.prev_cpu_total = sample.total;
                },
                None => {
                    self.cpu_unsupported = true;
                },
            }
        }
        self.prev_time = now;
        Ok(
            Some(
                Snapshot {
                    fps,
                    bps,
                    mean_bps: self.mean_bps,
                    cpu_load,
                    frame_count_total: self.frame_count_total,
                    byte_count_total: self.byte_count_total,
                },
            ),
        )
    }

    /// One tick of the periodic timer at `now`: the same as `update_bps`.
    pub fn tick(&mut self, now: u64, cpu: Option<CpuSample>) -> (r: Result<Option<Snapshot>, PerfError>)
        requires
            old(self).wf(),
            old(self)@.samples.len() + 1 < u64::MAX,
        ensures
            final(self).wf(),
            !old(self)@.running ==> r == Err::<Option<Snapshot>, PerfError>(PerfError::NotRunning)
                && final(self)@ == old(self)@,
            old(self)@.running && !tick_due(old(self)@, now as int) ==> r == Ok::<Option<Snapshot>, PerfError>(None)
                && final(self)@ == old(self)@,
            old(self)@.running && tick_due(old(self)@, now as int) ==> r == Ok::<Option<Snapshot>, PerfError>(
                Some(tick_snapshot(old(self)@, now as int, cpu)),
            ) && final(self)@ == after_tick(old(self)@, now as int, cpu),
    {
        self.update_bps(now, cpu)
    }

    /// Zeroes the frame count since the last computation.
    pub fn reset(&mut self)
        ensures
            final(self)@ == (PerfView { frame_count: 0, ..old(self)@ }),
            old(self).wf() ==> final(self).wf(),
    {
        self.frame_count = 0;
    }

    /// Turns CPU-load sampling and reporting on or off.
    pub fn set_print_cpu_load(&mut self, print_cpu_load: bool)
        ensures
            final(self)@ == (PerfView { print_cpu_load, ..old(self)@ }),
            old(self).wf() ==> final(self).wf(),
    {
        self.print_cpu_load = print_cpu_load;
    }

    /// Sets the interval in milliseconds between two computations.
    pub fn set_bitrate_interval(&mut self, bitrate_interval: u32)
        ensures
            final(self)@ == (PerfView { bps_interval: bitrate_interval as int, ..old(self)@ }),
            old(self).wf() ==> final(self).wf(),
    {
        self.bps_interval = bitrate_interval;
    }

    /// Sets the window size of the bitrate mean (zero: all samples). The
    /// averaging restarts: the samples and their mean are dropped.
    pub fn set_bitrate_window_size(&mut self, bitrate_window_size: u32)
        ensures
            final(self).wf(),
            final(self)@ == (PerfView {
                bps_window_size: bitrate_window_size as int,
                samples: Seq::empty(),
                mean_bps: Mean::zero_spec(),
                ..old(self)@
            }),
    {
        self.bps_window_size = bitrate_window_size;
        self.bps_window = Vec::new();
        self.bps_count = 0;
        self.mean_bps = Mean::zero();
        self.samples = Ghost(Seq::empty());
        proof {
            assert(self.bps_window@ =~= last_samples(self.samples@, 0));
        }
    }

    /// Whether CPU load is sampled now: it is asked for and this session
    /// has not found sampling unavailable.
    pub fn cpu_load_enabled(&self) -> (r: bool)
        ensures
            r == cpu_wanted(self@),
    {
        self.print_cpu_load && !self.cpu_unsupported
    }

    pub fn print_cpu_load(&self) -> (r: bool)
        ensures
            r == self@.print_cpu_load,
    {
        self.print_cpu_load
    }

    pub fn bitrate_interval(&self) -> (r: u32)
        ensures
            r == self@.bps_interval,
    {
        self.bps_interval
    }

    pub fn bitrate_window_size(&self) -> (r: u32)
        ensures
            r == self@.bps_window_size,
    {
        self.bps_window_size
    }

    pub fn is_running(&self) -> (r: bool)
        ensures
            r == self@.running,
    {
        self.running
    }

    /// Frames per second as of the last computation.
    pub fn fps(&self) -> (r: u64)
        ensures
            r == self@.fps,
    {
        self.fps
    }

    /// Bits per second as of the last computation.
    pub fn bps(&self) -> (r: u64)
        ensures
            r == self@.bps,
    {
        self.bps
    }

    /// The mean bitrate as of the last computation.
    pub fn mean_bps(&self) -> (r: Mean)
        ensures
            r == self@.mean_bps,
    {
        self.mean_bps
    }

    /// Frames since the last computation.
    pub fn frame_count(&self) -> (r: u32)
        ensures
            r == self@.frame_count,
    {
        self.frame_count
    }

    /// Bytes since the last computation.
    pub fn byte_count(&self) -> (r: u64)
        ensures
            r == self@.byte_count,
    {
        self.byte_count
    }

    /// Number of bitrate samples since the averaging last restarted.
    pub fn sample_count(&self) -> (r: u64)
        ensures
            self.wf() ==> r == self@.samples.len(),
    {
        self.bps_count
    }

    pub fn frame_count_total(&self) -> (r: u64)
        ensures
            r == self@.frame_count_total,
    {
        self.frame_count_total
    }

    pub fn byte_count_total(&self) -> (r: u64)
        ensures
            r == self@.byte_count_total,
    {
        self.byte_count_total
    }
}

/// Once a due tick (`update_bps` or `tick`) has computed the metrics and no
/// buffer has arrived since, the next due tick reports a frame rate of zero
/// (and divides by no zero: a due tick has time elapsed).
pub proof fn lemma_no_traffic_zero_fps(
    v: PerfView,
    now1: int,
    cpu1: Option<CpuSample>,
    now2: int,
    cpu2: Option<CpuSample>,
)
    requires
        tick_due(v, now1),
        tick_due(after_tick(v, now1, cpu1), now2),
    ensures
        elapsed_spec(after_tick(v, now1, cpu1).prev_time, now2) > 0,
        after_tick(after_tick(v, now1, cpu1), now2, cpu2).fps == 0,
        tick_snapshot(after_tick(v, now1, cpu1), now2, cpu2).fps == 0,
{
}

/// A due tick leaves the configuration and the running state as they were,
/// whatever CPU sample it gets.
pub proof fn lemma_tick_keeps_config(v: PerfView, now: int, cpu: Option<CpuSample>)
    ensures
        same_config(after_tick(v, now, cpu), v),
{
}

/// Starting a started engine fails with `AlreadyRunning`; feeding a buffer
/// to (or stopping) a stopped engine fails with `NotRunning`.
pub proof fn lemma_lifecycle(v: PerfView, now: int)
    ensures
        start_result(started(v, now)) == Err::<(), PerfError>(PerfError::AlreadyRunning),
        running_result(stopped(v)) == Err::<(), PerfError>(PerfError::NotRunning),
{
}

} // verus!
