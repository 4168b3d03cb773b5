use pang_streaming::upload::{
    after_attempt, InFlightWindow, RetryDecision, S3UploadConfig, UploadError, UploadResult,
    UploadStatus, UploadStatusTable, MAX_CONCURRENT_UPLOADS,
};

fn delay_of(d: RetryDecision) -> Option<u64> {
    match d {
        RetryDecision::RetryAfter(ms) => Some(ms),
        _ => None,
    }
}

#[test]
fn status_counts_stay_consistent() {
    let mut s = UploadStatus::new("alice/t".to_string());
    assert!(s.is_complete);
    s.record_queued();
    s.record_queued();
    assert!(!s.is_complete);
    s.record_result(&UploadResult::succeeded("u1".to_string()));
    assert!(!s.is_complete);
    s.record_result(&UploadResult::failed("e".to_string()));
    assert_eq!((s.total_files, s.uploaded_files, s.failed_files), (2, 1, 1));
    assert_eq!(s.last_url.as_deref(), Some("u1"));
    assert!(s.uploaded_files + s.failed_files <= s.total_files);
    assert!(s.is_complete);
}

#[test]
fn retry_backoff_is_linear_then_gives_up() {
    let c = S3UploadConfig::standard();
    assert_eq!(c.max_retries, 3);
    assert_eq!(c.retry_delay_ms, 1000);
    assert_eq!(c.chunk_size, 1024 * 1024);
    assert_eq!(delay_of(after_attempt(&c, 1, Err(UploadError::Transient))), Some(1000));
    assert_eq!(delay_of(after_attempt(&c, 2, Err(UploadError::Transient))), Some(2000));
    assert!(matches!(after_attempt(&c, 3, Err(UploadError::Transient)), RetryDecision::GiveUp));
    assert!(matches!(after_attempt(&c, 1, Ok(())), RetryDecision::Uploaded));
    assert!(matches!(after_attempt(&c, 1, Err(UploadError::Terminal)), RetryDecision::GiveUp));
}

#[test]
fn retry_delay_saturates() {
    let c = S3UploadConfig { max_retries: 10, retry_delay_ms: u64::MAX / 2, chunk_size: 1 };
    assert_eq!(delay_of(after_attempt(&c, 3, Err(UploadError::Transient))), Some(u64::MAX));
}

#[test]
fn retry_exhaustion_counts_one_failure() {
    let c = S3UploadConfig::standard();
    let key = "alice/2024-01-01T00:00:00Z".to_string();
    let mut table = UploadStatusTable::new();
    table.record_queued(&key);
    table.record_queued(&key);
    let mut attempt = 1u32;
    loop {
        match after_attempt(&c, attempt, Err(UploadError::Transient)) {
            RetryDecision::RetryAfter(_) => attempt += 1,
            RetryDecision::GiveUp => break,
            RetryDecision::Uploaded => unreachable!(),
        }
    }
    assert_eq!(attempt, 3);
    table.record_result(&key, &UploadResult::failed("gave up".to_string()));
    let s = table.get(&key).unwrap();
    assert_eq!((s.uploaded_files, s.failed_files), (0, 1));
    assert!(s.last_url.is_none());
    assert!(!s.is_complete);
    table.record_result(&key, &UploadResult::succeeded("https://b.s3.r.amazonaws.com/k".to_string()));
    let s = table.get(&key).unwrap();
    assert_eq!((s.total_files, s.uploaded_files, s.failed_files), (2, 1, 1));
    assert_eq!(s.last_url.as_deref(), Some("https://b.s3.r.amazonaws.com/k"));
    assert!(s.is_complete);
}

#[test]
fn status_table_ignores_unknown_and_finished_streams() {
    let mut table = UploadStatusTable::new();
    let a = "a".to_string();
    table.record_result(&a, &UploadResult::succeeded("u".to_string()));
    assert!(table.get(&a).is_none());
    table.record_queued(&a);
    table.record_result(&a, &UploadResult::succeeded("u".to_string()));
    table.record_result(&a, &UploadResult::succeeded("u".to_string()));
    let s = table.get(&a).unwrap();
    assert_eq!((s.total_files, s.uploaded_files), (1, 1));
}

#[test]
fn in_flight_uploads_never_exceed_ten() {
    let mut w = InFlightWindow::new();
    for t in 0..9u64 {
        assert_eq!(w.start(t), None);
    }
    assert_eq!(w.start(9), Some(0));
    assert_eq!(w.tickets.len(), MAX_CONCURRENT_UPLOADS - 1);
    for t in 10..100u64 {
        let awaited = w.start(t);
        assert_eq!(awaited, Some(t - 9));
        assert!(w.tickets.len() < MAX_CONCURRENT_UPLOADS);
    }
    let rest = w.drain();
    assert_eq!(rest, (91..100u64).collect::<Vec<_>>());
    assert!(w.tickets.is_empty());
}

#[test]
fn upload_results_carry_url_or_message() {
    let ok = UploadResult::succeeded("https://b.s3.r.amazonaws.com/k".to_string());
    assert!(ok.success);
    assert_eq!(ok.s3_url.as_deref(), Some("https://b.s3.r.amazonaws.com/k"));
    let bad = UploadResult::failed("missing".to_string());
    assert!(!bad.success);
    assert_eq!(bad.error_message.as_deref(), Some("missing"));
}
