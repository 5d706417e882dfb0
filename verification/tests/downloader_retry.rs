use nueces::downloader::attempt_outcome;
use nueces::downloader::backoff_secs;
use nueces::downloader::run_job;
use nueces::downloader::start_job;
use nueces::downloader::JobQueue;
use nueces::downloader::JobState;

#[test]
fn queue_is_first_in_first_out() {
    let mut q = JobQueue::new();
    q.enqueue("first".to_string());
    q.enqueue("second".to_string());
    q.enqueue("third".to_string());
    assert_eq!(q.len(), 3);
    assert_eq!(q.dequeue().as_deref(), Some("first"));
    assert_eq!(q.dequeue().as_deref(), Some("second"));
    assert_eq!(q.dequeue().as_deref(), Some("third"));
    assert_eq!(q.dequeue(), None);
}

#[test]
fn queue_holds_its_capacity() {
    let mut q = JobQueue::new();
    let mut i = 0;
    while i < 8 {
        q.enqueue(format!("job-{}", i));
        i += 1;
    }
    assert_eq!(q.len(), 8);
}

#[test]
fn backoff_doubles_from_two() {
    assert_eq!(backoff_secs(1), 2);
    assert_eq!(backoff_secs(2), 4);
    assert_eq!(backoff_secs(3), 8);
    assert_eq!(backoff_secs(8), 256);
    assert_eq!(backoff_secs(9), 512);
}

#[test]
fn machine_moves_as_the_policy_says() {
    assert_eq!(start_job(JobState::Pending), JobState::Attempting(1));
    assert_eq!(
        attempt_outcome(JobState::Attempting(1), false),
        (JobState::Attempting(2), Some(2))
    );
    assert_eq!(
        attempt_outcome(JobState::Attempting(8), false),
        (JobState::Attempting(9), Some(256))
    );
    assert_eq!(
        attempt_outcome(JobState::Attempting(9), false),
        (JobState::Exhausted, None)
    );
    assert_eq!(
        attempt_outcome(JobState::Attempting(3), true),
        (JobState::Succeeded, None)
    );
}

#[test]
fn late_success_completes_once_after_full_backoff() {
    let outcomes = vec![false, false, false, false, false, false, false, false, true];
    let report = run_job(&outcomes);
    assert!(report.succeeded);
    assert_eq!(report.attempts_made, 9);
    assert_eq!(report.total_sleep_secs, 510);
    assert!(report.total_sleep_secs >= 2 + 4 + 8 + 16 + 32 + 64 + 128 + 256);
}

#[test]
fn persistent_failure_drops_the_job() {
    let outcomes = vec![false; 9];
    let report = run_job(&outcomes);
    assert!(!report.succeeded);
    assert_eq!(report.attempts_made, 9);
    assert_eq!(report.total_sleep_secs, 510);
}

#[test]
fn immediate_success_sleeps_not_at_all() {
    let mut outcomes = vec![false; 9];
    outcomes[0] = true;
    let report = run_job(&outcomes);
    assert!(report.succeeded);
    assert_eq!(report.attempts_made, 1);
    assert_eq!(report.total_sleep_secs, 0);
}

#[test]
fn third_attempt_success_sleeps_twice() {
    let mut outcomes = vec![false; 9];
    outcomes[2] = true;
    let report = run_job(&outcomes);
    assert!(report.succeeded);
    assert_eq!(report.attempts_made, 3);
    assert_eq!(report.total_sleep_secs, 2 + 4);
}
