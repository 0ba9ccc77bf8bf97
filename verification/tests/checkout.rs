use auto_pool::checkout::{async_step, budget, sync_step, AsyncAction, AsyncEvent, Budget, SyncAction, SyncEvent};
use std::time::Duration;

#[test]
fn budget_classifies_zero_finite_and_unrepresentable_waits() {
    assert_eq!(budget(&Duration::ZERO, true), Budget::Immediate);
    assert_eq!(budget(&Duration::ZERO, false), Budget::Immediate);
    assert_eq!(budget(&Duration::from_millis(20), true), Budget::UntilDeadline);
    assert_eq!(budget(&Duration::MAX, false), Budget::Unlimited);
}

#[test]
fn sync_checkout_starts_with_the_lock_attempt_that_fits_the_budget() {
    assert_eq!(sync_step(Budget::Immediate, SyncEvent::Started), SyncAction::TryLock);
    assert_eq!(sync_step(Budget::UntilDeadline, SyncEvent::Started), SyncAction::TryLockUntilDeadline);
    assert_eq!(sync_step(Budget::Unlimited, SyncEvent::Started), SyncAction::Lock);
}

#[test]
fn sync_checkout_gives_up_when_the_lock_is_not_acquired() {
    let failed = SyncEvent::LockAttempted { acquired: false, empty: true, deadline_passed: true };
    assert_eq!(sync_step(Budget::Immediate, failed), SyncAction::GiveUp);
    assert_eq!(sync_step(Budget::UntilDeadline, failed), SyncAction::GiveUp);
}

#[test]
fn sync_checkout_takes_an_available_object_even_past_the_deadline() {
    for budget in [Budget::Immediate, Budget::UntilDeadline, Budget::Unlimited] {
        let locked = SyncEvent::LockAttempted { acquired: true, empty: false, deadline_passed: true };
        assert_eq!(sync_step(budget, locked), SyncAction::Extract);
        let woken = SyncEvent::Woken { timed_out: false, empty: false, deadline_passed: true };
        assert_eq!(sync_step(budget, woken), SyncAction::Extract);
    }
}

#[test]
fn sync_checkout_on_an_empty_pool_waits_as_the_budget_allows() {
    let empty = SyncEvent::LockAttempted { acquired: true, empty: true, deadline_passed: false };
    assert_eq!(sync_step(Budget::Immediate, empty), SyncAction::GiveUp);
    assert_eq!(sync_step(Budget::UntilDeadline, empty), SyncAction::WaitUntilDeadline);
    assert_eq!(sync_step(Budget::Unlimited, empty), SyncAction::Wait);
    let late = SyncEvent::Woken { timed_out: false, empty: true, deadline_passed: true };
    assert_eq!(sync_step(Budget::UntilDeadline, late), SyncAction::GiveUp);
    assert_eq!(sync_step(Budget::Unlimited, late), SyncAction::Wait);
    let timed_out = SyncEvent::Woken { timed_out: true, empty: false, deadline_passed: true };
    assert_eq!(sync_step(Budget::UntilDeadline, timed_out), SyncAction::GiveUp);
}

#[test]
fn async_checkout_with_zero_budget_checks_out_immediately() {
    assert_eq!(async_step(Budget::Immediate, AsyncEvent::Started), AsyncAction::CheckoutNow);
    assert_eq!(async_step(Budget::UntilDeadline, AsyncEvent::Started), AsyncAction::Attempt);
    assert_eq!(async_step(Budget::Unlimited, AsyncEvent::Started), AsyncAction::Attempt);
}

#[test]
fn async_checkout_registers_then_rechecks_before_suspending() {
    let missed = AsyncEvent::Attempted { extracted: false, deadline_passed: false };
    assert_eq!(async_step(Budget::UntilDeadline, missed), AsyncAction::ListenAndAttempt);
    let late = AsyncEvent::Attempted { extracted: false, deadline_passed: true };
    assert_eq!(async_step(Budget::UntilDeadline, late), AsyncAction::GiveUp);
    assert_eq!(async_step(Budget::Unlimited, late), AsyncAction::ListenAndAttempt);
    let listening = AsyncEvent::AttemptedListening { extracted: false };
    assert_eq!(async_step(Budget::UntilDeadline, listening), AsyncAction::AwaitNotificationOrDeadline);
    assert_eq!(async_step(Budget::Unlimited, listening), AsyncAction::AwaitNotification);
}

#[test]
fn async_checkout_delivers_or_retries_or_times_out() {
    let got = AsyncEvent::Attempted { extracted: true, deadline_passed: true };
    assert_eq!(async_step(Budget::UntilDeadline, got), AsyncAction::Deliver);
    let got_listening = AsyncEvent::AttemptedListening { extracted: true };
    assert_eq!(async_step(Budget::Unlimited, got_listening), AsyncAction::Deliver);
    assert_eq!(async_step(Budget::UntilDeadline, AsyncEvent::Woken { notified: true }), AsyncAction::Attempt);
    assert_eq!(async_step(Budget::UntilDeadline, AsyncEvent::Woken { notified: false }), AsyncAction::GiveUp);
}
