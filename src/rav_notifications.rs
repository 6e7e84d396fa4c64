//! Decisions of the task that listens for voucher-table change notifications:
//! refresh the cache on each one, and resubscribe with exponential backoff
//! whenever the channel fails.
use vstd::prelude::*;

verus! {

/// How the listener paces its reconnection attempts.
#[derive(Clone, Copy, Debug, PartialEq, Eq, Structural)]
pub struct BackoffPolicy {
    /// Wait before the first retry, in milliseconds.
    pub base_delay_ms: u64,
    /// Upper limit on any wait, in milliseconds.
    pub max_delay_ms: u64,
    /// Failed attempts allowed before the channel has ever been established.
    pub max_startup_attempts: u32,
}

/// The wait before retry number `n` (from zero): the base delay, doubled at
/// each retry, never above the maximum.
pub open spec fn backoff_delay(policy: BackoffPolicy, n: nat) -> u64
    decreases n,
{
    if n == 0 {
        if policy.base_delay_ms <= policy.max_delay_ms {
            policy.base_delay_ms
        } else {
            policy.max_delay_ms
        }
    } else {
        doubled_capped(backoff_delay(policy, (n - 1) as nat), policy.max_delay_ms)
    }
}

/// `2 * d`, or `max` where that is larger.
pub open spec fn doubled_capped(d: u64, max: u64) -> u64 {
    if d as int * 2 <= max as int {
        (d * 2) as u64
    } else {
        max
    }
}

proof fn lemma_delay_fixed_point(policy: BackoffPolicy, k: nat, n: nat)
    requires
        k <= n,
        doubled_capped(backoff_delay(policy, k), policy.max_delay_ms) == backoff_delay(policy, k),
    ensures
        backoff_delay(policy, n) == backoff_delay(policy, k),
    decreases n - k,
{
    if k < n {
        lemma_delay_fixed_point(policy, k, (n - 1) as nat);
    }
}

/// What the listener reports to its decision function.
#[derive(Clone, Copy, Debug, PartialEq, Eq, Structural)]
pub enum ListenerEvent {
    /// The subscription to the change channel is established.
    Subscribed,
    /// Establishing the subscription failed.
    SubscribeFailed,
    /// A change notification arrived.
    Notified,
    /// The channel dropped.
    ConnectionLost,
}

/// What the listener must do next.
#[derive(Clone, Copy, Debug, PartialEq, Eq, Structural)]
pub enum ListenerAction {
    /// Re-read this allocation's voucher row and refresh the cache.
    RefreshRav,
    /// Wait `delay_ms` milliseconds, then subscribe again.
    Reconnect { delay_ms: u64 },
    /// The channel could never be established: report a fatal startup error.
    GiveUp,
}

/// The listener's state: consecutive failures, and whether a subscription
/// ever succeeded.
pub struct RavNotificationsWatcher {
    policy: BackoffPolicy,
    failures: u32,
    ever_subscribed: bool,
}

impl RavNotificationsWatcher {
    pub closed spec fn spec_policy(&self) -> BackoffPolicy {
        self.policy
    }

    pub closed spec fn spec_failures(&self) -> u32 {
        self.failures
    }

    pub closed spec fn spec_ever_subscribed(&self) -> bool {
        self.ever_subscribed
    }

    pub fn new(policy: BackoffPolicy) -> (r: RavNotificationsWatcher)
        ensures
            r.spec_policy() == policy,
            r.spec_failures() == 0,
            !r.spec_ever_subscribed(),
    {
        RavNotificationsWatcher { policy, failures: 0, ever_subscribed: false }
    }

    pub fn failures(&self) -> (r: u32)
        ensures
            r == self.spec_failures(),
    {
        self.failures
    }

    /// The wait before retry number `n`, counted from zero.
    pub fn delay_for_retry(policy: BackoffPolicy, n: u32) -> (r: u64)
        ensures
            r == backoff_delay(policy, n as nat),
    {
        let mut d: u64 = if policy.base_delay_ms <= policy.max_delay_ms {
            policy.base_delay_ms
        } else {
            policy.max_delay_ms
        };
        let mut k: u32 = 0;
        while k < n
            invariant
                k <= n,
                d == backoff_delay(policy, k as nat),
            decreases n - k,
        {
            let next: u64 = if d <= policy.max_delay_ms / 2 {
                d * 2
            } else {
                policy.max_delay_ms
            };
            proof {
                assert(next == doubled_capped(d, policy.max_delay_ms));
                assert(backoff_delay(policy, (k + 1) as nat) == doubled_capped(
                    backoff_delay(policy, k as nat),
                    policy.max_delay_ms,
                ));
            }
            if next == d {
                proof {
                    lemma_delay_fixed_point(policy, k as nat, n as nat);
                }
                return d;
            }
            d = next;
            k = k + 1;
        }
        d
    }

    /// The action after one more failure, given the failures before it.
    pub open spec fn after_failure(&self) -> ListenerAction {
        let failures = if self.spec_failures() < u32::MAX {
            self.spec_failures() + 1
        } else {
            self.spec_failures() as int
        };
        if !self.spec_ever_subscribed() && failures >= self.spec_policy().max_startup_attempts {
            ListenerAction::GiveUp
        } else {
            ListenerAction::Reconnect {
                delay_ms: backoff_delay(self.spec_policy(), (failures - 1) as nat),
            }
        }
    }

    /// Decides what to do on `event` and moves to the next state.
    pub fn step(&mut self, event: ListenerEvent) -> (r: ListenerAction)
        ensures
            final(self).spec_policy() == old(self).spec_policy(),
            match event {
                ListenerEvent::Subscribed => {
                    &&& r == ListenerAction::RefreshRav
                    &&& final(self).spec_failures() == 0
                    &&& final(self).spec_ever_subscribed()
                },
                ListenerEvent::Notified => {
                    &&& r == ListenerAction::RefreshRav
                    &&& final(self).spec_failures() == old(self).spec_failures()
                    &&& final(self).spec_ever_subscribed() == old(self).spec_ever_subscribed()
                },
                _ => {
                    &&& r == old(self).after_failure()
                    &&& final(self).spec_failures() == if old(self).spec_failures() < u32::MAX {
                        old(self).spec_failures() + 1
                    } else {
                        old(self).spec_failures() as int
                    }
                    &&& final(self).spec_ever_subscribed() == old(self).spec_ever_subscribed()
                },
            },
    {
        match event {
            ListenerEvent::Subscribed => {
                self.failures = 0;
                self.ever_subscribed = true;
                ListenerAction::RefreshRav
            },
            ListenerEvent::Notified => ListenerAction::RefreshRav,
            _ => {
                if self.failures < u32::MAX {
                    self.failures = self.failures + 1;
                }
                if !self.ever_subscribed && self.failures >= self.policy.max_startup_attempts {
                    ListenerAction::GiveUp
                } else {
                    let delay_ms = Self::delay_for_retry(self.policy, self.failures - 1);
                    ListenerAction::Reconnect { delay_ms }
                }
            },
        }
    }
}

} // verus!
