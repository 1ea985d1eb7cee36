//! The probe counters of one host and its two availability tiers.

use vstd::prelude::*;

use crate::uptime::{Uptime, tier_of};

verus! {

/// The largest counter value; a window closes when `total` reaches it.
pub const MAX_COUNTER: u16 = 65535;

/// What a metric holds: its three counters and its two tiers.
pub struct MetricView {
    pub total: int,
    pub success: int,
    pub failure: int,
    pub by_avg: Uptime,
    pub by_loss: Uptime,
}

/// The tier "by average": of `success / total`, unknown while nothing was
/// probed.
pub open spec fn avg_tier(success: int, total: int) -> Uptime {
    if total == 0 {
        Uptime::UpUnknown
    } else {
        tier_of(success, total)
    }
}

/// The tier "by loss": of `(MAX_COUNTER - failure) / MAX_COUNTER`.
pub open spec fn loss_tier(failure: int) -> Uptime {
    tier_of(MAX_COUNTER - failure, MAX_COUNTER as int)
}

impl MetricView {
    /// A metric with nothing recorded.
    pub open spec fn fresh() -> MetricView {
        MetricView {
            total: 0,
            success: 0,
            failure: 0,
            by_avg: Uptime::UpUnknown,
            by_loss: Uptime::UpMax,
        }
    }

    /// The counters are in range, `total` is their sum, and each tier is the
    /// classification of the counters.
    pub open spec fn wf(self) -> bool {
        &&& 0 <= self.success
        &&& 0 <= self.failure
        &&& self.total == self.success + self.failure
        &&& self.total <= MAX_COUNTER
        &&& self.by_avg == avg_tier(self.success, self.total)
        &&& self.by_loss == loss_tier(self.failure)
    }

    /// The metric after one successful probe: a fresh one when `total` is at
    /// its maximum, else one more success with the average recomputed.
    pub open spec fn after_success(self) -> MetricView {
        if self.total == MAX_COUNTER {
            MetricView::fresh()
        } else {
            MetricView {
                total: self.total + 1,
                success: self.success + 1,
                failure: self.failure,
                by_avg: tier_of(self.success + 1, self.total + 1),
                by_loss: self.by_loss,
            }
        }
    }

    /// The metric after one failed probe: a fresh one when `total` is at its
    /// maximum, else one more failure with both tiers recomputed.
    pub open spec fn after_failure(self) -> MetricView {
        if self.total == MAX_COUNTER {
            MetricView::fresh()
        } else {
            MetricView {
                total: self.total + 1,
                success: self.success,
                failure: self.failure + 1,
                by_avg: tier_of(self.success, self.total + 1),
                by_loss: loss_tier(self.failure + 1),
            }
        }
    }
}

/// The probe statistics of one host.
#[derive(Clone, Copy, Debug)]
pub struct Metric {
    availability_by_avg: Uptime,
    availability_by_loss: Uptime,
    t_pings: u16,
    s_pings: u16,
    f_pings: u16,
}

impl View for Metric {
    type V = MetricView;

    closed spec fn view(&self) -> MetricView {
        MetricView {
            total: self.t_pings as int,
            success: self.s_pings as int,
            failure: self.f_pings as int,
            by_avg: self.availability_by_avg,
            by_loss: self.availability_by_loss,
        }
    }
}

impl Metric {
    pub open spec fn wf(&self) -> bool {
        self@.wf()
    }

    /// A metric with nothing recorded: "unknown" by average, the best tier by
    /// loss.
    pub fn new() -> (r: Metric)
        ensures
            r@ == MetricView::fresh(),
            r.wf(),
    {
        Metric {
            availability_by_avg: Uptime::UpUnknown,
            availability_by_loss: Uptime::UpMax,
            t_pings: 0,
            s_pings: 0,
            f_pings: 0,
        }
    }

    /// Records a successful probe, or closes the window when `total` is at its
    /// maximum.
    pub fn record_success(&mut self)
        requires
            old(self).wf(),
        ensures
            final(self).wf(),
            final(self)@ == old(self)@.after_success(),
    {
        if self.t_pings == MAX_COUNTER {
            *self = Metric::new();
        } else {
            self.t_pings = self.t_pings + 1;
            self.s_pings = self.s_pings + 1;
            self.availability_by_avg = Uptime::from_ratio(self.s_pings as u32, self.t_pings as u32);
        }
    }

    /// Records a failed probe, or closes the window when `total` is at its
    /// maximum.
    pub fn record_failure(&mut self)
        requires
            old(self).wf(),
        ensures
            final(self).wf(),
            final(self)@ == old(self)@.after_failure(),
    {
        if self.t_pings == MAX_COUNTER {
            *self = Metric::new();
        } else {
            self.t_pings = self.t_pings + 1;
            self.f_pings = self.f_pings + 1;
            self.availability_by_avg = Uptime::from_ratio(self.s_pings as u32, self.t_pings as u32);
            self.availability_by_loss = Uptime::from_ratio(
                (MAX_COUNTER - self.f_pings) as u32,
                MAX_COUNTER as u32,
            );
        }
    }

    /// The tier by average.
    pub fn by_avg(&self) -> (r: Uptime)
        ensures
            r == self@.by_avg,
    {
        self.availability_by_avg
    }

    /// The tier by loss.
    pub fn by_loss(&self) -> (r: Uptime)
        ensures
            r == self@.by_loss,
    {
        self.availability_by_loss
    }

    /// The number of probes in the current window.
    pub fn total(&self) -> (r: u16)
        ensures
            r as int == self@.total,
    {
        self.t_pings
    }

    /// The number of successful probes in the current window.
    pub fn success(&self) -> (r: u16)
        ensures
            r as int == self@.success,
    {
        self.s_pings
    }

    /// The number of failed probes in the current window.
    pub fn failure(&self) -> (r: u16)
        ensures
            r as int == self@.failure,
    {
        self.f_pings
    }
}

/// Closing a window: from `total` at its maximum, one more success or failure
/// leaves every counter at zero and both tiers at their defaults, in one step.
pub proof fn lemma_rollover(m: MetricView)
    requires
        m.wf(),
        m.total == MAX_COUNTER,
    ensures
        m.after_success() == MetricView::fresh(),
        m.after_failure() == MetricView::fresh(),
        MetricView::fresh().wf(),
{
}

/// Recording a probe keeps every counter within its range and `total` equal
/// to `success + failure`.
pub proof fn lemma_counters_consistent(m: MetricView)
    requires
        m.wf(),
    ensures
        m.after_success().wf(),
        m.after_failure().wf(),
        m.after_success().total == m.after_success().success + m.after_success().failure,
        m.after_failure().total == m.after_failure().success + m.after_failure().failure,
{
}

} // verus!
