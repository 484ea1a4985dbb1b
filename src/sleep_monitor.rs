use vstd::prelude::*;

verus! {

/// Failures of the sleep-notification channel.
#[derive(Debug, Clone, Copy, PartialEq, Eq, Structural)]
pub enum SleepGateError {
    /// The notification bus could not be reached.
    ConnectionError,
    /// Interest in the sleep signal could not be registered.
    SubscriptionError,
    /// The channel broke while pending notifications were pumped.
    TransportError,
}

/// The two states of the host as far as the monitor knows.
#[derive(Debug, Clone, Copy, PartialEq, Eq, Structural)]
pub enum SleepState {
    Awake,
    Asleep,
}

/// Turns delivered "prepare for sleep" notifications into a pollable state.
///
/// Each notification carries one boolean: `true` when the host is about to
/// sleep, `false` when it resumes. The state is that of the most recently
/// delivered notification, and awake before any.
#[derive(Debug, Clone, Copy)]
pub struct SleepMonitor {
    pub sleeping: bool,
    pub monitoring: bool,
}

/// The sleeping flag after delivering `notes` in order, starting from `sleeping`.
pub open spec fn state_after(sleeping: bool, notes: Seq<bool>) -> bool {
    if notes.len() == 0 {
        sleeping
    } else {
        notes.last()
    }
}

impl SleepMonitor {
    /// A monitor that has not yet subscribed, in the awake state.
    pub fn new() -> (r: SleepMonitor)
        ensures
            !r.sleeping,
            !r.monitoring,
    {
        SleepMonitor { sleeping: false, monitoring: false }
    }

    /// Records the outcome of registering for the sleep signal: `registered`
    /// is whether the subscription was accepted.
    pub fn start_monitoring(&mut self, registered: bool) -> (r: Result<(), SleepGateError>)
        ensures
            registered ==> r is Ok && final(self).monitoring,
            !registered ==> r == Err::<(), SleepGateError>(SleepGateError::SubscriptionError)
                && final(self).monitoring == old(self).monitoring,
            final(self).sleeping == old(self).sleeping,
    {
        if registered {
            self.monitoring = true;
            Ok(())
        } else {
            Err(SleepGateError::SubscriptionError)
        }
    }

    /// The last-known state: true between a `true` notification and the next `false`.
    pub fn is_sleeping(&self) -> (r: bool)
        ensures
            r == self.sleeping,
    {
        self.sleeping
    }

    /// The last-known state as a `SleepState`.
    pub fn get_sleep_state(&self) -> (r: SleepState)
        ensures
            r == (if self.sleeping {
                SleepState::Asleep
            } else {
                SleepState::Awake
            }),
    {
        if self.sleeping {
            SleepState::Asleep
        } else {
            SleepState::Awake
        }
    }

    /// Delivers what one pump of the channel produced: `Some` with the
    /// notifications received, in order, or `None` when the channel broke.
    /// Notifications reach the state only once the monitor is subscribed.
    pub fn process_events(&mut self, delivered: Option<Vec<bool>>) -> (r: Result<
        (),
        SleepGateError,
    >)
        ensures
            final(self).monitoring == old(self).monitoring,
            match delivered {
                None => r == Err::<(), SleepGateError>(SleepGateError::TransportError)
                    && final(self).sleeping == old(self).sleeping,
                Some(notes) => r is Ok && final(self).sleeping == (if old(self).monitoring {
                    state_after(old(self).sleeping, notes@)
                } else {
                    old(self).sleeping
                }),
            },
    {
        match delivered {
            None => Err(SleepGateError::TransportError),
            Some(notes) => {
                if self.monitoring {
                    let mut k: usize = 0;
                    while k < notes.len()
                        invariant
                            k <= notes@.len(),
                            self.monitoring == old(self).monitoring,
                            self.sleeping == state_after(
                                old(self).sleeping,
                                notes@.subrange(0, k as int),
                            ),
                        decreases notes@.len() - k,
                    {
                        self.sleeping = notes[k];
                        k = k + 1;
                        assert(notes@.subrange(0, k as int).last() == notes@[k - 1]);
                    }
                    assert(notes@.subrange(0, notes@.len() as int) == notes@);
                }
                Ok(())
            },
        }
    }
}

/// Once a `true` notification has been delivered, the monitor reports sleeping
/// for as long as no `false` notification follows it.
pub proof fn lemma_asleep_until_resume(sleeping: bool, notes: Seq<bool>, k: int)
    requires
        0 <= k < notes.len(),
        notes[k],
        forall|j: int| k < j < notes.len() ==> #[trigger] notes[j],
    ensures
        state_after(sleeping, notes),
{
    assert(notes[notes.len() - 1]);
}

/// Delivering a batch and then another gives the state of delivering both in order.
pub proof fn lemma_deliveries_compose(sleeping: bool, first: Seq<bool>, then: Seq<bool>)
    ensures
        state_after(state_after(sleeping, first), then) == state_after(sleeping, first + then),
{
    if then.len() > 0 {
        assert((first + then).last() == then.last());
    } else {
        assert(first + then == first);
    }
}

} // verus!
