//! Frame and event timing statistics. Durations are plain microseconds
//! supplied by the caller; a bounded window of recent samples feeds the
//! averages and the degradation check.

use std::collections::VecDeque;
use vstd::prelude::*;

verus! {

/// One second in microseconds.
pub const MICROS_PER_SECOND: u64 = 1000000;

/// The sum of a sample window.
pub open spec fn sum_of(s: Seq<u64>) -> nat
    decreases s.len(),
{
    if s.len() == 0 {
        0nat
    } else {
        sum_of(s.drop_last()) + s.last() as nat
    }
}

/// A sum of 64-bit samples is bounded by their count times the maximum.
pub proof fn lemma_sum_bound(s: Seq<u64>)
    ensures
        sum_of(s) <= s.len() * (u64::MAX as nat),
    decreases s.len(),
{
    if s.len() > 0 {
        lemma_sum_bound(s.drop_last());
        assert(s.len() * (u64::MAX as nat) == (s.len() - 1) * (u64::MAX as nat) + (
        u64::MAX as nat)) by (nonlinear_arith);
    }
}

/// The truncating average of a non-empty window.
pub open spec fn avg_of(s: Seq<u64>) -> nat
    recommends
        s.len() > 0,
{
    sum_of(s) / s.len()
}

/// Tracks recent frame and event handling times.
#[derive(Debug)]
pub struct PerformanceMonitor {
    pub frame_times: VecDeque<u64>,
    pub event_times: VecDeque<u64>,
    pub max_samples: usize,
    pub last_frame_start: Option<u64>,
}

impl PerformanceMonitor {
    /// An empty monitor keeping at most `max_samples` samples per series.
    pub fn new(max_samples: usize) -> (r: PerformanceMonitor)
        ensures
            r.frame_times@ == Seq::<u64>::empty(),
            r.event_times@ == Seq::<u64>::empty(),
            r.max_samples == max_samples,
            r.last_frame_start is None,
    {
        PerformanceMonitor {
            frame_times: VecDeque::new(),
            event_times: VecDeque::new(),
            max_samples,
            last_frame_start: None,
        }
    }

    /// Note that a frame begins now.
    pub fn frame_start(&mut self, now_us: u64)
        ensures
            *final(self) == (PerformanceMonitor {
                last_frame_start: Some(now_us),
                ..*old(self)
            }),
    {
        self.last_frame_start = Some(now_us);
    }

    /// Note that the frame begun last ends now, recording its duration;
    /// without a recorded start nothing happens.
    pub fn frame_end(&mut self, now_us: u64)
        ensures
            old(self).last_frame_start is None ==> *final(self) == *old(self),
            old(self).last_frame_start matches Some(start) ==> {
                &&& final(self).last_frame_start is None
                &&& final(self).event_times@ == old(self).event_times@
                &&& final(self).max_samples == old(self).max_samples
                &&& ({
                    let d = if now_us >= start {
                        (now_us - start) as u64
                    } else {
                        0u64
                    };
                    let appended = old(self).frame_times@.push(d);
                    let over = if appended.len() > old(self).max_samples {
                        appended.len() - old(self).max_samples
                    } else {
                        0int
                    };
                    final(self).frame_times@ == appended.skip(over)
                })
            },
    {
        match self.last_frame_start {
            None => (),
            Some(start) => {
                let duration = if now_us >= start {
                    now_us - start
                } else {
                    0
                };
                self.last_frame_start = None;
                self.add_frame_time(duration);
            },
        }
    }

    /// Record one frame duration, dropping the oldest samples once the
    /// window is full.
    pub fn add_frame_time(&mut self, duration_us: u64)
        ensures
            final(self).event_times@ == old(self).event_times@,
            final(self).max_samples == old(self).max_samples,
            final(self).last_frame_start == old(self).last_frame_start,
            ({
                let appended = old(self).frame_times@.push(duration_us);
                let over = if appended.len() > old(self).max_samples {
                    appended.len() - old(self).max_samples
                } else {
                    0int
                };
                final(self).frame_times@ == appended.skip(over)
            }),
    {
        self.frame_times.push_back(duration_us);
        let ghost appended = self.frame_times@;
        let ghost dropped: int = 0;
        while self.frame_times.len() > self.max_samples
            invariant
                0 <= dropped <= appended.len(),
                self.frame_times@ == appended.skip(dropped),
                self.frame_times@.len() < appended.len() ==> appended.len() - dropped
                    >= self.max_samples,
                self.event_times@ == old(self).event_times@,
                self.max_samples == old(self).max_samples,
                self.last_frame_start == old(self).last_frame_start,
            decreases self.frame_times@.len(),
        {
            self.frame_times.pop_front();
            proof {
                assert(self.frame_times@ =~= appended.skip(dropped + 1));
                dropped = dropped + 1;
            }
        }
        proof {
            let over = if appended.len() > old(self).max_samples {
                appended.len() - old(self).max_samples
            } else {
                0int
            };
            assert(self.frame_times@ =~= appended.skip(over));
        }
    }

    /// Record one event handling duration, dropping the oldest samples
    /// once the window is full.
    pub fn add_event_time(&mut self, duration_us: u64)
        ensures
            final(self).frame_times@ == old(self).frame_times@,
            final(self).max_samples == old(self).max_samples,
            final(self).last_frame_start == old(self).last_frame_start,
            ({
                let appended = old(self).event_times@.push(duration_us);
                let over = if appended.len() > old(self).max_samples {
                    appended.len() - old(self).max_samples
                } else {
                    0int
                };
                final(self).event_times@ == appended.skip(over)
            }),
    {
        self.event_times.push_back(duration_us);
        let ghost appended = self.event_times@;
        let ghost dropped: int = 0;
        while self.event_times.len() > self.max_samples
            invariant
                0 <= dropped <= appended.len(),
                self.event_times@ == appended.skip(dropped),
                self.event_times@.len() < appended.len() ==> appended.len() - dropped
                    >= self.max_samples,
                self.frame_times@ == old(self).frame_times@,
                self.max_samples == old(self).max_samples,
                self.last_frame_start == old(self).last_frame_start,
            decreases self.event_times@.len(),
        {
            self.event_times.pop_front();
            proof {
                assert(self.event_times@ =~= appended.skip(dropped + 1));
                dropped = dropped + 1;
            }
        }
        proof {
            let over = if appended.len() > old(self).max_samples {
                appended.len() - old(self).max_samples
            } else {
                0int
            };
            assert(self.event_times@ =~= appended.skip(over));
        }
    }

    /// The truncating average over a window, as microseconds.
    fn average_of(samples: &VecDeque<u64>) -> (r: Option<u64>)
        ensures
            samples@.len() == 0 ==> r is None,
            samples@.len() > 0 ==> r == Some(avg_of(samples@) as u64),
    {
        let n = samples.len();
        if n == 0 {
            return None;
        }
        proof {
            lemma_sum_bound(samples@);
        }
        let mut total: u128 = 0;
        let mut i: usize = 0;
        while i < n
            invariant
                i <= n,
                n == samples@.len(),
                total == sum_of(samples@.take(i as int)),
                total <= (i as int) * (u64::MAX as int),
            decreases n - i,
        {
            proof {
                assert(samples@.take(i as int + 1).drop_last() =~= samples@.take(i as int));
                assert((i as int + 1) * (u64::MAX as int) == (i as int) * (u64::MAX as int) + (
                u64::MAX as int)) by (nonlinear_arith);
                assert((i as int) * (u64::MAX as int) < u128::MAX - u64::MAX) by (nonlinear_arith)
                    requires
                        0 <= i < 0x1_0000_0000_0000_0000,
                ;
            }
            total = total + samples[i] as u128;
            i += 1;
        }
        proof {
            assert(samples@.take(n as int) =~= samples@);
            assert(sum_of(samples@) / (n as nat) <= u64::MAX) by (nonlinear_arith)
                requires
                    n >= 1,
                    sum_of(samples@) <= (n as nat) * (u64::MAX as nat),
            ;
        }
        Some((total / (n as u128)) as u64)
    }

    /// The average frame time in microseconds, if any frames were
    /// recorded.
    pub fn average_frame_time(&self) -> (r: Option<u64>)
        ensures
            self.frame_times@.len() == 0 ==> r is None,
            self.frame_times@.len() > 0 ==> r == Some(avg_of(self.frame_times@) as u64),
    {
        Self::average_of(&self.frame_times)
    }

    /// The average event handling time in microseconds, if any events were
    /// recorded.
    pub fn average_event_time(&self) -> (r: Option<u64>)
        ensures
            self.event_times@.len() == 0 ==> r is None,
            self.event_times@.len() > 0 ==> r == Some(avg_of(self.event_times@) as u64),
    {
        Self::average_of(&self.event_times)
    }

    /// Whether the recent frame rate has fallen below thirty frames per
    /// second: the average frame takes more than a thirtieth of a second.
    pub fn is_performance_degraded(&self) -> (r: bool)
        ensures
            self.frame_times@.len() == 0 ==> r == false,
            self.frame_times@.len() > 0 ==> r == (avg_of(self.frame_times@) * 30
                > MICROS_PER_SECOND),
    {
        match self.average_frame_time() {
            None => false,
            Some(avg) => {
                proof {
                    lemma_sum_bound(self.frame_times@);
                    assert(sum_of(self.frame_times@) / (self.frame_times@.len() as nat)
                        <= u64::MAX) by (nonlinear_arith)
                        requires
                            self.frame_times@.len() >= 1,
                            sum_of(self.frame_times@) <= (self.frame_times@.len() as nat) * (
                            u64::MAX as nat),
                    ;
                }
                (avg as u128) * 30 > MICROS_PER_SECOND as u128
            },
        }
    }

    /// The statistics as one line: average frame time and average event
    /// time in whole milliseconds, and the frame rate in whole frames per
    /// second, each shown as a number or as absent.
    pub fn stats_string(&self) -> (r: String)
        ensures
            r@ == "Frame: "@ + spec_ms_part(self.frame_times@) + " | Events: "@ + spec_ms_part(
                self.event_times@,
            ) + " | FPS: "@ + spec_fps_part(self.frame_times@),
    {
        let mut out = String::from_str("Frame: ");
        match self.average_frame_time() {
            None => out.append("N/A"),
            Some(avg) => {
                let ms = avg / 1000;
                let s = crate::text::u64_to_string(ms);
                out.append(s.as_str());
                out.append("ms");
            },
        }
        out.append(" | Events: ");
        match self.average_event_time() {
            None => out.append("N/A"),
            Some(avg) => {
                let ms = avg / 1000;
                let s = crate::text::u64_to_string(ms);
                out.append(s.as_str());
                out.append("ms");
            },
        }
        out.append(" | FPS: ");
        match self.average_frame_time() {
            None => out.append("N/A"),
            Some(avg) => {
                if avg == 0 {
                    out.append("N/A");
                } else {
                    let fps = MICROS_PER_SECOND / avg;
                    let s = crate::text::u64_to_string(fps);
                    out.append(s.as_str());
                }
            },
        }
        out
    }
}

/// A millisecond average rendered for the statistics line.
pub open spec fn spec_ms_part(samples: Seq<u64>) -> Seq<char> {
    if samples.len() == 0 {
        "N/A"@
    } else {
        crate::text::spec_decimal((avg_of(samples) as u64 / 1000) as nat) + "ms"@
    }
}

/// A frame rate rendered for the statistics line.
pub open spec fn spec_fps_part(samples: Seq<u64>) -> Seq<char> {
    if samples.len() == 0 {
        "N/A"@
    } else if avg_of(samples) as u64 == 0 {
        "N/A"@
    } else {
        crate::text::spec_decimal((MICROS_PER_SECOND / (avg_of(samples) as u64)) as nat)
    }
}

impl Default for PerformanceMonitor {
    /// A monitor that keeps one second of samples at sixty frames per
    /// second.
    fn default() -> (r: PerformanceMonitor)
        ensures
            r.frame_times@ == Seq::<u64>::empty(),
            r.event_times@ == Seq::<u64>::empty(),
            r.max_samples == 60,
            r.last_frame_start is None,
    {
        PerformanceMonitor::new(60)
    }
}

} // verus!
