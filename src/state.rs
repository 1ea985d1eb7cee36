//! The host registry: one metric per tracked address, and the number of
//! addresses that were ever registered.

use std::collections::HashMap;

use vstd::prelude::*;

use crate::color::color_name;
use crate::metric::{Metric, MetricView};
use crate::uptime::{tier_color, tier_label};

verus! {

broadcast use vstd::std_specs::hash::group_hash_axioms;

/// A resolved IP address: four or sixteen bytes, as one big-endian integer.
#[derive(Clone, Copy, Debug, PartialEq, Eq, Structural)]
pub enum Address {
    V4(u32),
    V6(u128),
}

/// What the registry holds: the tracked-host counter and the metric of each
/// tracked address.
pub struct SharedView {
    pub host_count: int,
    pub hosts: Map<Address, MetricView>,
}

impl SharedView {
    /// The registry after registering `a`: unchanged when `a` is tracked,
    /// else with a fresh metric for `a` and the counter one higher.
    pub open spec fn register(self, a: Address) -> SharedView {
        if self.hosts.contains_key(a) {
            self
        } else {
            SharedView { host_count: self.host_count + 1, hosts: self.hosts.insert(a, MetricView::fresh()) }
        }
    }

    /// The registry after a probe of `a` with the given outcome: the metric
    /// of `a` records it when `a` is tracked; nothing changes otherwise.
    pub open spec fn record(self, a: Address, success: bool) -> SharedView {
        if self.hosts.contains_key(a) {
            let m = self.hosts[a];
            SharedView {
                host_count: self.host_count,
                hosts: self.hosts.insert(
                    a,
                    if success {
                        m.after_success()
                    } else {
                        m.after_failure()
                    },
                ),
            }
        } else {
            self
        }
    }

    /// What a lookup of `a` finds: its metric, or nothing when untracked.
    pub open spec fn lookup(self, a: Address) -> Option<MetricView> {
        if self.hosts.contains_key(a) {
            Some(self.hosts[a])
        } else {
            None
        }
    }
}

/// The registry of tracked hosts.
pub struct SharedState {
    host_count: u64,
    v4: HashMap<u32, Metric>,
    v6: HashMap<u128, Metric>,
}

impl View for SharedState {
    type V = SharedView;

    closed spec fn view(&self) -> SharedView {
        SharedView {
            host_count: self.host_count as int,
            hosts: Map::new(
                |a: Address|
                    match a {
                        Address::V4(k) => self.v4@.contains_key(k),
                        Address::V6(k) => self.v6@.contains_key(k),
                    },
                |a: Address|
                    match a {
                        Address::V4(k) => self.v4@[k]@,
                        Address::V6(k) => self.v6@[k]@,
                    },
            ),
        }
    }
}

impl SharedState {
    /// Every metric of the registry is well formed.
    pub closed spec fn wf(&self) -> bool {
        &&& forall|k: u32| #[trigger] self.v4@.contains_key(k) ==> self.v4@[k].wf()
        &&& forall|k: u128| #[trigger] self.v6@.contains_key(k) ==> self.v6@[k].wf()
    }

    /// The metrics of a well-formed registry are well formed.
    pub proof fn lemma_hosts_wf(&self)
        requires
            self.wf(),
        ensures
            forall|a: Address| #[trigger] self@.hosts.contains_key(a) ==> self@.hosts[a].wf(),
    {
        assert forall|a: Address| #[trigger] self@.hosts.contains_key(a) implies self@.hosts[a].wf() by {
            match a {
                Address::V4(k) => assert(self.v4@.contains_key(k)),
                Address::V6(k) => assert(self.v6@.contains_key(k)),
            }
        }
    }

    /// An empty registry.
    pub fn new() -> (r: SharedState)
        ensures
            r.wf(),
            r@.host_count == 0,
            r@.hosts == Map::<Address, MetricView>::empty(),
    {
        let r = SharedState { host_count: 0, v4: HashMap::new(), v6: HashMap::new() };
        assert(r@.hosts =~= Map::<Address, MetricView>::empty());
        r
    }

    /// The number of addresses ever registered.
    pub fn get_num_tracked(&self) -> (r: u64)
        ensures
            r as int == self@.host_count,
    {
        self.host_count
    }

    /// Registers `ip` if it is not tracked yet, as one step: checks and
    /// inserts together. Returns whether this call created the metric; the
    /// caller that gets `true` is the one that starts probing `ip`.
    pub fn insert(&mut self, ip: Address) -> (created: bool)
        requires
            old(self).wf(),
            old(self)@.host_count < u64::MAX,
        ensures
            final(self).wf(),
            created == !old(self)@.hosts.contains_key(ip),
            final(self)@ == old(self)@.register(ip),
    {
        let ghost before = self@;
        match ip {
            Address::V4(k) => {
                if self.v4.contains_key(&k) {
                    return false;
                }
                self.v4.insert(k, Metric::new());
            },
            Address::V6(k) => {
                if self.v6.contains_key(&k) {
                    return false;
                }
                self.v6.insert(k, Metric::new());
            },
        }
        self.host_count = self.host_count + 1;
        assert(self@.hosts =~= before.hosts.insert(ip, MetricView::fresh()));
        true
    }

    /// A copy of the metric of `ip`, or `None` when `ip` is not tracked.
    pub fn lookup(&self, ip: &Address) -> (r: Option<Metric>)
        ensures
            r matches Some(m) ==> self@.lookup(*ip) == Some(m@),
            r is None ==> self@.lookup(*ip) is None,
    {
        match ip {
            Address::V4(k) => match self.v4.get(k) {
                Some(m) => Some(*m),
                None => None,
            },
            Address::V6(k) => match self.v6.get(k) {
                Some(m) => Some(*m),
                None => None,
            },
        }
    }

    /// The badge label and color of the tier by average of `ip`, or `None`
    /// when `ip` is not tracked.
    pub fn get_availability_by_avg(&self, ip: &Address) -> (r: Option<(&'static str, &'static str)>)
        ensures
            r is Some <==> self@.hosts.contains_key(*ip),
            r matches Some(p) ==> p.0@ == tier_label(self@.hosts[*ip].by_avg) && p.1@
                == color_name(tier_color(self@.hosts[*ip].by_avg)),
    {
        match self.lookup(ip) {
            Some(m) => Some(m.by_avg().as_str()),
            None => None,
        }
    }

    /// The badge label and color of the tier by loss of `ip`, or `None` when
    /// `ip` is not tracked.
    pub fn get_availability_by_loss(&self, ip: &Address) -> (r: Option<(&'static str, &'static str)>)
        ensures
            r is Some <==> self@.hosts.contains_key(*ip),
            r matches Some(p) ==> p.0@ == tier_label(self@.hosts[*ip].by_loss) && p.1@
                == color_name(tier_color(self@.hosts[*ip].by_loss)),
    {
        match self.lookup(ip) {
            Some(m) => Some(m.by_loss().as_str()),
            None => None,
        }
    }

    /// Records a successful probe of `ip`. Returns whether `ip` is tracked;
    /// nothing changes when it is not.
    pub fn succ_ping(&mut self, ip: &Address) -> (r: bool)
        requires
            old(self).wf(),
        ensures
            final(self).wf(),
            r == old(self)@.hosts.contains_key(*ip),
            final(self)@ == old(self)@.record(*ip, true),
    {
        self.record(ip, true)
    }

    /// Records a failed probe of `ip`. Returns whether `ip` is tracked;
    /// nothing changes when it is not.
    pub fn fail_ping(&mut self, ip: &Address) -> (r: bool)
        requires
            old(self).wf(),
        ensures
            final(self).wf(),
            r == old(self)@.hosts.contains_key(*ip),
            final(self)@ == old(self)@.record(*ip, false),
    {
        self.record(ip, false)
    }

    fn record(&mut self, ip: &Address, success: bool) -> (r: bool)
        requires
            old(self).wf(),
        ensures
            final(self).wf(),
            r == old(self)@.hosts.contains_key(*ip),
            final(self)@ == old(self)@.record(*ip, success),
    {
        let ghost before = self@;
        let found = self.lookup(ip);
        match found {
            Some(m) => {
                let mut m = m;
                proof {
                    self.lemma_hosts_wf();
                }
                if success {
                    m.record_success();
                } else {
                    m.record_failure();
                }
                match ip {
                    Address::V4(k) => {
                        self.v4.insert(*k, m);
                    },
                    Address::V6(k) => {
                        self.v6.insert(*k, m);
                    },
                }
                assert(self@.hosts =~= before.record(*ip, success).hosts);
                true
            },
            None => false,
        }
    }
}

/// The registry after `n` registrations of `a`, one after another.
pub open spec fn register_times(s: SharedView, a: Address, n: nat) -> SharedView
    decreases n,
{
    if n == 0 {
        s
    } else {
        register_times(s, a, (n - 1) as nat).register(a)
    }
}

/// How many of `n` registrations of `a`, one after another, create its
/// metric.
pub open spec fn creations(s: SharedView, a: Address, n: nat) -> nat
    decreases n,
{
    if n == 0 {
        0
    } else {
        creations(s, a, (n - 1) as nat) + if register_times(s, a, (n - 1) as nat).hosts.contains_key(a) {
            0nat
        } else {
            1nat
        }
    }
}

/// Single flight: of any number `n >= 1` of registrations of an address that
/// is not tracked, exactly one creates its metric (and so starts one prober);
/// afterwards the address has one fresh metric and the counter is one higher,
/// not `n` higher.
pub proof fn lemma_single_flight(s: SharedView, a: Address, n: nat)
    requires
        !s.hosts.contains_key(a),
        1 <= n,
    ensures
        creations(s, a, n) == 1,
        register_times(s, a, n).hosts == s.hosts.insert(a, MetricView::fresh()),
        register_times(s, a, n).host_count == s.host_count + 1,
    decreases n,
{
    let prev = register_times(s, a, (n - 1) as nat);
    if n > 1 {
        lemma_single_flight(s, a, (n - 1) as nat);
        assert(prev.hosts.contains_key(a));
    } else {
        assert(prev == s);
        assert(creations(s, a, 0) == 0);
    }
    assert(register_times(s, a, n) == prev.register(a));
}

/// Looking an address up is not disturbed by registrations: registering an
/// address that is tracked changes nothing, and registering another address
/// leaves what a lookup of `a` finds as it was.
pub proof fn lemma_lookup_stable(s: SharedView, a: Address, b: Address)
    requires
        s.hosts.contains_key(b) || a != b,
    ensures
        s.register(b).lookup(a) == s.lookup(a),
{
}

} // verus!
