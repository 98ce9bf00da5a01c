use alex_crm::policies::retry::{ExponentialBackoff, NoRetry, RetryPolicy, SpinRetry};
use std::cell::RefCell;
use std::sync::atomic::{AtomicUsize, Ordering};

#[test]
fn no_retry_calls_once() {
    let retry = NoRetry;
    let calls = AtomicUsize::new(0);
    let result = retry.attempt(
        |_run: usize, _wait: u64| {
            calls.fetch_add(1, Ordering::Relaxed);
            Ok::<_, String>(42)
        },
    );
    assert_eq!(result.unwrap_or_default(), 42);
    assert_eq!(calls.load(Ordering::Relaxed), 1);
}

#[test]
fn spin_retry_retries() {
    let retry = SpinRetry::new(3);
    let calls = AtomicUsize::new(0);
    let result = retry.attempt(
        |_run: usize, _wait: u64| {
            let attempt = calls.fetch_add(1, Ordering::Relaxed) + 1;
            if attempt < 3 {
                Err("busy".to_string())
            } else {
                Ok(7)
            }
        },
    );
    assert_eq!(result.unwrap_or_default(), 7);
    assert_eq!(calls.load(Ordering::Relaxed), 3);
}

#[test]
fn exponential_backoff_stops_after_limit() {
    let retry = ExponentialBackoff::with_attempts(1, 2, 2);
    let result = retry.attempt::<(), _>(|_run: usize, _wait: u64| Err("fail".to_string()));
    assert!(result.is_err());
}

#[test]
fn no_retry_returns_the_single_failure() {
    let calls = AtomicUsize::new(0);
    let result = NoRetry.attempt::<u8, _>(
        |_run: usize, _wait: u64| {
            calls.fetch_add(1, Ordering::Relaxed);
            Err("down".to_string())
        },
    );
    assert_eq!(result, Err("down".to_string()));
    assert_eq!(calls.load(Ordering::Relaxed), 1);
}

#[test]
fn spin_retry_gives_last_error_after_all_attempts() {
    let calls = AtomicUsize::new(0);
    let result = SpinRetry::new(4).attempt::<u8, _>(
        |_run: usize, _wait: u64| {
            let n = calls.fetch_add(1, Ordering::Relaxed) + 1;
            Err(format!("error {n}"))
        },
    );
    assert_eq!(result, Err("error 4".to_string()));
    assert_eq!(calls.load(Ordering::Relaxed), 4);
}

#[test]
fn spin_retry_with_zero_attempts_runs_once() {
    let calls = AtomicUsize::new(0);
    let result = SpinRetry::new(0).attempt::<u8, _>(
        |_run: usize, _wait: u64| {
            calls.fetch_add(1, Ordering::Relaxed);
            Err("x".to_string())
        },
    );
    assert_eq!(result, Err("x".to_string()));
    assert_eq!(calls.load(Ordering::Relaxed), 1);
}

#[test]
fn exponential_backoff_waits_double_up_to_the_cap() {
    let waits = RefCell::new(Vec::new());
    let runs = RefCell::new(Vec::new());
    let retry = ExponentialBackoff::with_attempts(3, 20, 6);
    let result = retry.attempt::<(), _>(|run: usize, wait: u64| {
        runs.borrow_mut().push(run);
        waits.borrow_mut().push(wait);
        Err("fail".to_string())
    });
    assert_eq!(result, Err("fail".to_string()));
    assert_eq!(*runs.borrow(), vec![0, 1, 2, 3, 4, 5]);
    assert_eq!(*waits.borrow(), vec![0, 3, 6, 12, 20, 20]);
}

#[test]
fn exponential_backoff_stops_at_first_success() {
    let waits = RefCell::new(Vec::new());
    let calls = AtomicUsize::new(0);
    let retry = ExponentialBackoff::new(2, 128);
    let result = retry.attempt(|_run: usize, wait: u64| {
        waits.borrow_mut().push(wait);
        let n = calls.fetch_add(1, Ordering::Relaxed) + 1;
        if n < 3 {
            Err("busy".to_string())
        } else {
            Ok(n)
        }
    });
    assert_eq!(result, Ok(3));
    assert_eq!(*waits.borrow(), vec![0, 2, 4]);
}

#[test]
fn exponential_backoff_returns_last_run_after_one_wait() {
    let waits = RefCell::new(Vec::new());
    let calls = AtomicUsize::new(0);
    let retry = ExponentialBackoff::with_attempts(1, 2, 2);
    let result = retry.attempt(|_run: usize, wait: u64| {
        waits.borrow_mut().push(wait);
        match calls.fetch_add(1, Ordering::Relaxed) {
            0 => Err("e1".to_string()),
            1 => Err("e2".to_string()),
            _ => Ok(5),
        }
    });
    assert_eq!(result, Err("e2".to_string()));
    assert_eq!(calls.load(Ordering::Relaxed), 2);
    assert_eq!(*waits.borrow(), vec![0, 1]);
}

#[test]
fn exponential_backoff_new_runs_eight_times() {
    let waits = RefCell::new(Vec::new());
    let calls = AtomicUsize::new(0);
    let retry = ExponentialBackoff::new(2, 128);
    let result = retry.attempt::<(), _>(|_run: usize, wait: u64| {
        waits.borrow_mut().push(wait);
        calls.fetch_add(1, Ordering::Relaxed);
        Err("fail".to_string())
    });
    assert!(result.is_err());
    assert_eq!(calls.load(Ordering::Relaxed), 8);
    assert_eq!(*waits.borrow(), vec![0, 2, 4, 8, 16, 32, 64, 128]);
}

#[test]
fn exponential_backoff_clamps_its_bounds() {
    // a zero minimum becomes 1, and a maximum below the minimum becomes the minimum
    let waits = RefCell::new(Vec::new());
    let retry = ExponentialBackoff::with_attempts(0, 0, 3);
    let _ = retry.attempt::<(), _>(|_run: usize, wait: u64| {
        waits.borrow_mut().push(wait);
        Err("fail".to_string())
    });
    assert_eq!(*waits.borrow(), vec![0, 1, 1]);

    let waits = RefCell::new(Vec::new());
    let retry = ExponentialBackoff::with_attempts(50, 10, 3);
    let _ = retry.attempt::<(), _>(|_run: usize, wait: u64| {
        waits.borrow_mut().push(wait);
        Err("fail".to_string())
    });
    assert_eq!(*waits.borrow(), vec![0, 50, 50]);

    let calls = AtomicUsize::new(0);
    let retry = ExponentialBackoff::with_attempts(1, 2, 0);
    let _ = retry.attempt::<(), _>(|_run: usize, _wait: u64| {
        calls.fetch_add(1, Ordering::Relaxed);
        Err("fail".to_string())
    });
    assert_eq!(calls.load(Ordering::Relaxed), 1);
}

#[test]
fn spin_retry_never_waits() {
    let waits = RefCell::new(Vec::new());
    let _ = SpinRetry::new(3).attempt::<(), _>(|_run: usize, wait: u64| {
        waits.borrow_mut().push(wait);
        Err("x".to_string())
    });
    assert_eq!(*waits.borrow(), vec![0, 0, 0]);
}
