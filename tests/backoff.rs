use nimbu_core::{compute_backoff, BackoffStrategy, Delay};

fn exponential(base_secs: u64, factor: u32, max_secs: u64) -> BackoffStrategy {
    BackoffStrategy::Exponential {
        base: Delay::from_secs(base_secs),
        factor,
        max_delay: Delay::from_secs(max_secs),
    }
}

#[test]
fn exponential_doubles_then_clamps() {
    let s = exponential(1, 2, 5);
    assert_eq!(compute_backoff(0, &s), Delay::from_secs(1));
    assert_eq!(compute_backoff(1, &s), Delay::from_secs(2));
    assert_eq!(compute_backoff(2, &s), Delay::from_secs(4));
    assert_eq!(compute_backoff(3, &s), Delay::from_secs(5));
}

#[test]
fn exponential_saturates_at_large_attempts() {
    let s = exponential(1, 2, 5);
    assert_eq!(compute_backoff(64, &s), Delay::from_secs(5));
    assert_eq!(compute_backoff(u32::MAX, &s), Delay::from_secs(5));
    let wide = BackoffStrategy::Exponential {
        base: Delay { millis: 3 },
        factor: u32::MAX,
        max_delay: Delay { millis: u64::MAX },
    };
    assert_eq!(compute_backoff(u32::MAX, &wide), Delay { millis: u64::MAX });
}

#[test]
fn exponential_unclamped_value() {
    let s = BackoffStrategy::Exponential {
        base: Delay { millis: 100 },
        factor: 3,
        max_delay: Delay { millis: 1_000_000 },
    };
    assert_eq!(compute_backoff(4, &s), Delay { millis: 8100 });
}

#[test]
fn exponential_factor_zero_and_one() {
    let zero = BackoffStrategy::Exponential {
        base: Delay { millis: 700 },
        factor: 0,
        max_delay: Delay { millis: 500 },
    };
    assert_eq!(compute_backoff(0, &zero), Delay { millis: 500 });
    assert_eq!(compute_backoff(1, &zero), Delay { millis: 0 });
    let one = BackoffStrategy::Exponential {
        base: Delay { millis: 250 },
        factor: 1,
        max_delay: Delay { millis: 500 },
    };
    assert_eq!(compute_backoff(1000, &one), Delay { millis: 250 });
}

#[test]
fn fixed_ignores_attempt() {
    let s = BackoffStrategy::Fixed(Delay { millis: 100 });
    assert_eq!(compute_backoff(0, &s), Delay { millis: 100 });
    assert_eq!(compute_backoff(7, &s), Delay { millis: 100 });
}

#[test]
fn delay_from_secs_saturates() {
    assert_eq!(Delay::from_secs(3), Delay { millis: 3000 });
    assert_eq!(Delay::from_secs(u64::MAX), Delay { millis: u64::MAX });
}
