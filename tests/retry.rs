use access_control::error::AccessError;
use access_control::retry::{
    jitter_ms, next_delay_ms, pause_ms, RetryConfig, RetryState, RetryStep,
};

#[test]
fn default_config() {
    let c = RetryConfig::default();
    assert_eq!(c.initial_delay_ms, 10);
    assert_eq!(c.max_delay_ms, 1000);
    assert_eq!(c.max_retries, 10);
    assert_eq!(c.timeout_ms, 5000);
}

#[test]
fn jitter_and_backoff() {
    assert_eq!(jitter_ms(10, 0), 0);
    assert_eq!(jitter_ms(10, 1), 1);
    assert_eq!(jitter_ms(100, 3), 11);
    assert_eq!(jitter_ms(5, 3), 1);
    assert_eq!(pause_ms(100, 3), 111);
    assert_eq!(pause_ms(u64::MAX, 1), u64::MAX);
    assert_eq!(next_delay_ms(10, 1000), 20);
    assert_eq!(next_delay_ms(640, 1000), 1000);
    assert_eq!(next_delay_ms(u64::MAX, u64::MAX), u64::MAX);
}

fn retry_later_text(step: &RetryStep) -> String {
    match step {
        RetryStep::GiveUp(AccessError::RetryLater(m)) => m.clone(),
        other => panic!("expected a retry-later error, got {:?}", other),
    }
}

#[test]
fn timeout_gives_retry_later() {
    let config = RetryConfig::default();
    let st = RetryState::start(&config);
    assert!(matches!(st.before_attempt(&config, 0), RetryStep::TryAcquire));
    let step = st.before_attempt(&config, 5000);
    assert_eq!(
        retry_later_text(&step),
        "Timeout while acquiring write lock after 0 attempts"
    );
    let (_, st) = st.after_failure(&config);
    let (_, st) = st.after_failure(&config);
    let step = st.before_attempt(&config, 9000);
    assert_eq!(
        retry_later_text(&step),
        "Timeout while acquiring write lock after 2 attempts"
    );
}

#[test]
fn held_lock_exhausts_attempts() {
    let config = RetryConfig::default();
    let mut st = RetryState::start(&config);
    let mut pauses = Vec::new();
    let mut attempts = 0;
    loop {
        match st.before_attempt(&config, 0) {
            RetryStep::TryAcquire => {
                attempts += 1;
                let (pause, next) = st.after_failure(&config);
                if let Some(p) = pause {
                    pauses.push(p);
                }
                st = next;
            },
            step => {
                assert_eq!(retry_later_text(&step), "Please try again later");
                break;
            },
        }
    }
    assert_eq!(attempts, 10);
    assert_eq!(pauses, vec![10, 21, 42, 83, 164, 341, 742, 1119, 1136]);
}

#[test]
fn zero_attempts_give_up_at_once() {
    let config = RetryConfig { initial_delay_ms: 1, max_delay_ms: 1, max_retries: 0, timeout_ms: 10 };
    let st = RetryState::start(&config);
    assert_eq!(retry_later_text(&st.before_attempt(&config, 0)), "Please try again later");
}
