//! The decisions of a checkout that may wait: which lock attempt to make,
//! when to take an object, when to wait and when to give up. The caller
//! performs each action (locking, waiting, reading the clock) and reports
//! what came of it; the budget is fixed once, when the checkout begins.
use crate::duration::{duration_as_nanos, nanos_of};
use std::time::Duration;
use vstd::prelude::*;

verus! {

/// How long a checkout may wait, fixed when it begins.
#[derive(Clone, Copy, Debug, PartialEq, Eq, Structural)]
pub enum Budget {
    /// A zero wait: one immediate attempt.
    Immediate,
    /// A finite wait: up to a deadline on the platform's clock.
    UntilDeadline,
    /// A wait whose deadline the platform's clock cannot hold: no deadline.
    Unlimited,
}

/// The budget of a wait of `wait_nanos` nanoseconds, where `deadline_fits`
/// tells whether the start time plus the wait is a point on the clock.
pub open spec fn budget_for(wait_nanos: u128, deadline_fits: bool) -> Budget {
    if wait_nanos == 0 {
        Budget::Immediate
    } else if deadline_fits {
        Budget::UntilDeadline
    } else {
        Budget::Unlimited
    }
}

/// Classify a checkout's wait. `deadline_fits` is whether the start time
/// plus `wait` is representable, as `Instant::checked_add` reports it.
pub fn budget(wait: &Duration, deadline_fits: bool) -> (b: Budget)
    ensures
        b == budget_for(duration_as_nanos(*wait), deadline_fits),
{
    if nanos_of(wait) == 0 {
        Budget::Immediate
    } else if deadline_fits {
        Budget::UntilDeadline
    } else {
        Budget::Unlimited
    }
}

/// What a blocking checkout reports back.
#[derive(Clone, Copy, Debug, PartialEq, Eq, Structural)]
pub enum SyncEvent {
    /// The checkout begins.
    Started,
    /// A lock attempt returned. When it acquired the lock, `empty` tells
    /// whether no object was available and `deadline_passed` whether the
    /// clock had reached the deadline.
    LockAttempted { acquired: bool, empty: bool, deadline_passed: bool },
    /// A wait on the pool's condition variable returned, with the lock held
    /// again; `timed_out` tells whether it ended at the deadline.
    Woken { timed_out: bool, empty: bool, deadline_passed: bool },
}

/// What a blocking checkout does next.
#[derive(Clone, Copy, Debug, PartialEq, Eq, Structural)]
pub enum SyncAction {
    /// Try the lock once, without blocking.
    TryLock,
    /// Try the lock, blocking until the deadline at most.
    TryLockUntilDeadline,
    /// Block until the lock is acquired.
    Lock,
    /// Take an object from storage, under the held lock.
    Extract,
    /// Wait for a returned object, until the deadline at most.
    WaitUntilDeadline,
    /// Wait for a returned object, with no deadline.
    Wait,
    /// End the checkout without an object.
    GiveUp,
}

/// The next step of a blocking checkout with `budget` after `event`.
pub open spec fn sync_decision(budget: Budget, event: SyncEvent) -> SyncAction {
    match event {
        SyncEvent::Started => match budget {
            Budget::Immediate => SyncAction::TryLock,
            Budget::UntilDeadline => SyncAction::TryLockUntilDeadline,
            Budget::Unlimited => SyncAction::Lock,
        },
        SyncEvent::LockAttempted { acquired, empty, deadline_passed } => if !acquired {
            SyncAction::GiveUp
        } else {
            after_lock(budget, empty, deadline_passed)
        },
        SyncEvent::Woken { timed_out, empty, deadline_passed } => if timed_out {
            SyncAction::GiveUp
        } else {
            after_lock(budget, empty, deadline_passed)
        },
    }
}

/// With the lock held: take an object if one is available, else wait while
/// the budget allows. A zero budget's deadline is the moment the checkout
/// began, which has always passed.
pub open spec fn after_lock(budget: Budget, empty: bool, deadline_passed: bool) -> SyncAction {
    if !empty {
        SyncAction::Extract
    } else {
        match budget {
            Budget::Immediate => SyncAction::GiveUp,
            Budget::UntilDeadline => if deadline_passed {
                SyncAction::GiveUp
            } else {
                SyncAction::WaitUntilDeadline
            },
            Budget::Unlimited => SyncAction::Wait,
        }
    }
}

/// Decide the next step of a blocking checkout.
pub fn sync_step(budget: Budget, event: SyncEvent) -> (action: SyncAction)
    ensures
        action == sync_decision(budget, event),
{
    let (empty, deadline_passed) = match event {
        SyncEvent::Started => {
            return match budget {
                Budget::Immediate => SyncAction::TryLock,
                Budget::UntilDeadline => SyncAction::TryLockUntilDeadline,
                Budget::Unlimited => SyncAction::Lock,
            };
        },
        SyncEvent::LockAttempted { acquired, empty, deadline_passed } => {
            if !acquired {
                return SyncAction::GiveUp;
            }
            (empty, deadline_passed)
        },
        SyncEvent::Woken { timed_out, empty, deadline_passed } => {
            if timed_out {
                return SyncAction::GiveUp;
            }
            (empty, deadline_passed)
        },
    };
    if !empty {
        SyncAction::Extract
    } else {
        match budget {
            Budget::Immediate => SyncAction::GiveUp,
            Budget::UntilDeadline => if deadline_passed {
                SyncAction::GiveUp
            } else {
                SyncAction::WaitUntilDeadline
            },
            Budget::Unlimited => SyncAction::Wait,
        }
    }
}

/// What an asynchronous checkout reports back.
#[derive(Clone, Copy, Debug, PartialEq, Eq, Structural)]
pub enum AsyncEvent {
    /// The checkout begins.
    Started,
    /// An attempt to take an object returned; `deadline_passed` tells
    /// whether the clock had reached the deadline after it.
    Attempted { extracted: bool, deadline_passed: bool },
    /// An attempt made after registering for notifications returned.
    AttemptedListening { extracted: bool },
    /// The suspended checkout resumed; `notified` is false when the
    /// deadline's timer won the race.
    Woken { notified: bool },
}

/// What an asynchronous checkout does next.
#[derive(Clone, Copy, Debug, PartialEq, Eq, Structural)]
pub enum AsyncAction {
    /// Make one immediate blocking checkout and end with its result.
    CheckoutNow,
    /// Lock the storage briefly and try to take an object.
    Attempt,
    /// Register for notifications of returned objects, then attempt again,
    /// so that a return in between cannot be missed.
    ListenAndAttempt,
    /// Suspend until notified.
    AwaitNotification,
    /// Suspend until notified or until the deadline, whichever comes first.
    AwaitNotificationOrDeadline,
    /// End the checkout with the object taken.
    Deliver,
    /// End the checkout without an object.
    GiveUp,
}

/// The next step of an asynchronous checkout with `budget` after `event`.
pub open spec fn async_decision(budget: Budget, event: AsyncEvent) -> AsyncAction {
    match event {
        AsyncEvent::Started => if budget == Budget::Immediate {
            AsyncAction::CheckoutNow
        } else {
            AsyncAction::Attempt
        },
        AsyncEvent::Attempted { extracted, deadline_passed } => if extracted {
            AsyncAction::Deliver
        } else if budget != Budget::Unlimited && deadline_passed {
            AsyncAction::GiveUp
        } else {
            AsyncAction::ListenAndAttempt
        },
        AsyncEvent::AttemptedListening { extracted } => if extracted {
            AsyncAction::Deliver
        } else if budget == Budget::Unlimited {
            AsyncAction::AwaitNotification
        } else {
            AsyncAction::AwaitNotificationOrDeadline
        },
        AsyncEvent::Woken { notified } => if notified {
            AsyncAction::Attempt
        } else {
            AsyncAction::GiveUp
        },
    }
}

/// Decide the next step of an asynchronous checkout.
pub fn async_step(budget: Budget, event: AsyncEvent) -> (action: AsyncAction)
    ensures
        action == async_decision(budget, event),
{
    let unlimited = match budget {
        Budget::Unlimited => true,
        _ => false,
    };
    match event {
        AsyncEvent::Started => match budget {
            Budget::Immediate => AsyncAction::CheckoutNow,
            _ => AsyncAction::Attempt,
        },
        AsyncEvent::Attempted { extracted, deadline_passed } => {
            if extracted {
                AsyncAction::Deliver
            } else if !unlimited && deadline_passed {
                AsyncAction::GiveUp
            } else {
                AsyncAction::ListenAndAttempt
            }
        },
        AsyncEvent::AttemptedListening { extracted } => {
            if extracted {
                AsyncAction::Deliver
            } else if unlimited {
                AsyncAction::AwaitNotification
            } else {
                AsyncAction::AwaitNotificationOrDeadline
            }
        },
        AsyncEvent::Woken { notified } => {
            if notified {
                AsyncAction::Attempt
            } else {
                AsyncAction::GiveUp
            }
        },
    }
}

/// A checkout with no deadline gives up only when a lock attempt or a wait
/// reports failure, which neither blocking locking nor waiting without a
/// deadline does; an asynchronous one only when a deadline timer wins.
pub proof fn lemma_unlimited_budget_never_gives_up(sync_event: SyncEvent, async_event: AsyncEvent)
    ensures
        sync_decision(Budget::Unlimited, sync_event) == SyncAction::GiveUp ==> {
            ||| sync_event matches SyncEvent::LockAttempted { acquired, .. } && !acquired
            ||| sync_event matches SyncEvent::Woken { timed_out, .. } && timed_out
        },
        sync_decision(Budget::Unlimited, sync_event) != SyncAction::TryLock,
        sync_decision(Budget::Unlimited, sync_event) != SyncAction::TryLockUntilDeadline,
        sync_decision(Budget::Unlimited, sync_event) != SyncAction::WaitUntilDeadline,
        async_decision(Budget::Unlimited, async_event) == AsyncAction::GiveUp ==> async_event
            == (AsyncEvent::Woken { notified: false }),
        async_decision(Budget::Unlimited, async_event) != AsyncAction::AwaitNotificationOrDeadline,
{
}

/// A zero budget makes one immediate attempt: it never blocks on the lock
/// and never waits, and an asynchronous checkout hands it to a blocking one.
pub proof fn lemma_zero_budget_never_waits(event: SyncEvent)
    ensures
        sync_decision(Budget::Immediate, event) != SyncAction::Lock,
        sync_decision(Budget::Immediate, event) != SyncAction::TryLockUntilDeadline,
        sync_decision(Budget::Immediate, event) != SyncAction::Wait,
        sync_decision(Budget::Immediate, event) != SyncAction::WaitUntilDeadline,
        async_decision(Budget::Immediate, AsyncEvent::Started) == AsyncAction::CheckoutNow,
{
}

/// Whenever the lock is held and an object is available, the checkout takes
/// it, whatever the budget, even if the deadline has passed; an object is
/// taken only then.
pub proof fn lemma_available_object_is_taken(budget: Budget, event: SyncEvent)
    ensures
        event matches SyncEvent::LockAttempted { acquired, empty, .. } && acquired && !empty
            ==> sync_decision(budget, event) == SyncAction::Extract,
        event matches SyncEvent::Woken { timed_out, empty, .. } && !timed_out && !empty
            ==> sync_decision(budget, event) == SyncAction::Extract,
        sync_decision(budget, event) == SyncAction::Extract ==> {
            ||| event matches SyncEvent::LockAttempted { acquired, empty, .. } && acquired && !empty
            ||| event matches SyncEvent::Woken { timed_out, empty, .. } && !timed_out && !empty
        },
{
}

/// An asynchronous checkout suspends only right after an attempt that it
/// made while registered for notifications, and found nothing: a return
/// between the first attempt and the suspension cannot be missed.
pub proof fn lemma_suspends_only_after_registered_recheck(budget: Budget, event: AsyncEvent)
    ensures
        async_decision(budget, event) == AsyncAction::AwaitNotification || async_decision(budget, event)
            == AsyncAction::AwaitNotificationOrDeadline ==> event == (AsyncEvent::AttemptedListening {
            extracted: false,
        }),
        event matches AsyncEvent::Attempted { extracted, .. } && !extracted ==> async_decision(budget, event)
            != AsyncAction::AwaitNotification && async_decision(budget, event)
            != AsyncAction::AwaitNotificationOrDeadline,
        async_decision(budget, event) == AsyncAction::Deliver ==> {
            ||| event matches AsyncEvent::Attempted { extracted, .. } && extracted
            ||| event == (AsyncEvent::AttemptedListening { extracted: true })
        },
{
}

/// A finite budget gives up only when the deadline ends a lock attempt or a
/// wait, or the clock shows it has passed while nothing is available.
pub proof fn lemma_finite_budget_gives_up_only_at_deadline(sync_event: SyncEvent, async_event: AsyncEvent)
    ensures
        sync_decision(Budget::UntilDeadline, sync_event) == SyncAction::GiveUp ==> {
            ||| sync_event matches SyncEvent::LockAttempted { acquired, .. } && !acquired
            ||| sync_event matches SyncEvent::Woken { timed_out, .. } && timed_out
            ||| sync_event matches SyncEvent::LockAttempted { empty, deadline_passed, .. } && empty
                && deadline_passed
            ||| sync_event matches SyncEvent::Woken { empty, deadline_passed, .. } && empty
                && deadline_passed
        },
        async_decision(Budget::UntilDeadline, async_event) == AsyncAction::GiveUp ==> {
            ||| async_event == (AsyncEvent::Woken { notified: false })
            ||| async_event == (AsyncEvent::Attempted { extracted: false, deadline_passed: true })
        },
{
}

/// The budget reads only whether the wait is zero and whether its deadline
/// fits on the clock: a zero wait is one immediate try, every nonzero wait
/// whose deadline fits is bounded by that deadline, however long, and only a
/// wait whose deadline cannot be represented is unlimited.
pub proof fn lemma_budget_classifies_waits(wait_nanos: u128, deadline_fits: bool)
    ensures
        budget_for(wait_nanos, deadline_fits) == Budget::Immediate <==> wait_nanos == 0,
        budget_for(wait_nanos, deadline_fits) == Budget::UntilDeadline <==> wait_nanos > 0
            && deadline_fits,
        budget_for(wait_nanos, deadline_fits) == Budget::Unlimited <==> wait_nanos > 0
            && !deadline_fits,
{
}

/// A blocking checkout ends without an object as soon as a lock attempt
/// fails or a wait ends at the deadline, whatever the budget and whatever
/// storage and the clock show.
pub proof fn lemma_failed_lock_or_timed_out_wait_ends_checkout(
    budget: Budget,
    empty: bool,
    deadline_passed: bool,
)
    ensures
        sync_decision(budget, SyncEvent::LockAttempted { acquired: false, empty, deadline_passed })
            == SyncAction::GiveUp,
        sync_decision(budget, SyncEvent::Woken { timed_out: true, empty, deadline_passed })
            == SyncAction::GiveUp,
{
}

/// With the lock held (acquired, or regained after a wait that did not time
/// out), a blocking checkout takes an object when one is available; on an
/// empty pool a zero budget gives up, a finite budget waits until the same
/// deadline while it has not passed and gives up once it has, and an
/// unlimited budget waits without a deadline.
pub proof fn lemma_held_lock_decision(budget: Budget, empty: bool, deadline_passed: bool)
    ensures
        ({
            let locked = sync_decision(
                budget,
                SyncEvent::LockAttempted { acquired: true, empty, deadline_passed },
            );
            let woken = sync_decision(
                budget,
                SyncEvent::Woken { timed_out: false, empty, deadline_passed },
            );
            &&& locked == woken
            &&& !empty ==> locked == SyncAction::Extract
            &&& empty && budget == Budget::Immediate ==> locked == SyncAction::GiveUp
            &&& empty && budget == Budget::UntilDeadline && !deadline_passed ==> locked
                == SyncAction::WaitUntilDeadline
            &&& empty && budget == Budget::UntilDeadline && deadline_passed ==> locked
                == SyncAction::GiveUp
            &&& empty && budget == Budget::Unlimited ==> locked == SyncAction::Wait
        }),
{
}

/// A blocking checkout with a finite budget never blocks without the
/// deadline: it neither locks nor waits without a limit, and its first step
/// is a lock attempt bounded by the deadline.
pub proof fn lemma_finite_budget_always_bounded(event: SyncEvent)
    ensures
        sync_decision(Budget::UntilDeadline, event) != SyncAction::Wait,
        sync_decision(Budget::UntilDeadline, event) != SyncAction::Lock,
        sync_decision(Budget::UntilDeadline, event) != SyncAction::TryLock,
        sync_decision(Budget::UntilDeadline, SyncEvent::Started) == SyncAction::TryLockUntilDeadline,
        sync_decision(Budget::Immediate, SyncEvent::Started) == SyncAction::TryLock,
        sync_decision(Budget::Unlimited, SyncEvent::Started) == SyncAction::Lock,
{
}

/// An asynchronous attempt that took an object always delivers it, whatever
/// the budget and the clock; an attempt that took nothing never delivers.
pub proof fn lemma_taken_object_is_delivered(budget: Budget, deadline_passed: bool)
    ensures
        async_decision(budget, AsyncEvent::Attempted { extracted: true, deadline_passed })
            == AsyncAction::Deliver,
        async_decision(budget, AsyncEvent::AttemptedListening { extracted: true })
            == AsyncAction::Deliver,
        async_decision(budget, AsyncEvent::Attempted { extracted: false, deadline_passed })
            != AsyncAction::Deliver,
        async_decision(budget, AsyncEvent::AttemptedListening { extracted: false })
            != AsyncAction::Deliver,
{
}

/// After a first attempt that took nothing, an asynchronous checkout gives
/// up only when its finite deadline has passed, and otherwise registers and
/// attempts again; after that second attempt also takes nothing, it suspends,
/// with the deadline exactly when the budget is finite. A notification
/// brings it back to an attempt; a deadline ends it.
pub proof fn lemma_async_empty_attempt_decision(budget: Budget, deadline_passed: bool)
    requires
        budget != Budget::Immediate,
    ensures
        async_decision(budget, AsyncEvent::Attempted { extracted: false, deadline_passed })
            == (if budget == Budget::UntilDeadline && deadline_passed {
            AsyncAction::GiveUp
        } else {
            AsyncAction::ListenAndAttempt
        }),
        async_decision(budget, AsyncEvent::AttemptedListening { extracted: false }) == (if budget
            == Budget::UntilDeadline {
            AsyncAction::AwaitNotificationOrDeadline
        } else {
            AsyncAction::AwaitNotification
        }),
        async_decision(budget, AsyncEvent::Woken { notified: true }) == AsyncAction::Attempt,
        async_decision(budget, AsyncEvent::Woken { notified: false }) == AsyncAction::GiveUp,
        async_decision(budget, AsyncEvent::Started) == AsyncAction::Attempt,
{
}

} // verus!
