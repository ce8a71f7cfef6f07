use bankai::routes::{
    job_status_reply, job_uuid, latest_verified_value, merkle_paths_reply, parse_felt_u64,
    status_details, RouteError,
};
use bankai::text::u64_to_decimal;

#[test]
fn felt_text_hex() {
    assert_eq!(parse_felt_u64("0x1a"), Some(26));
    assert_eq!(parse_felt_u64("ff"), Some(255));
    assert_eq!(parse_felt_u64("0xFF"), Some(255));
    assert_eq!(parse_felt_u64("0x0x10"), Some(16));
    assert_eq!(parse_felt_u64("+ff"), Some(255));
    assert_eq!(parse_felt_u64("0x+ff"), Some(255));
    assert_eq!(parse_felt_u64("0xffffffffffffffff"), Some(u64::MAX));
    assert_eq!(parse_felt_u64("0x0000000000000000001"), Some(1));
}

#[test]
fn felt_text_rejected() {
    assert_eq!(parse_felt_u64(""), None);
    assert_eq!(parse_felt_u64("0x"), None);
    assert_eq!(parse_felt_u64("0x+"), None);
    assert_eq!(parse_felt_u64("-1"), None);
    assert_eq!(parse_felt_u64("0XFF"), None);
    assert_eq!(parse_felt_u64("0xg1"), None);
    assert_eq!(parse_felt_u64("0x10000000000000000"), None);
    assert_eq!(parse_felt_u64("0x1ffffffffffffffffz"), None);
    assert_eq!(parse_felt_u64("é1"), None);
}

#[test]
fn latest_verified() {
    assert_eq!(latest_verified_value(Ok("0x2a".to_string())), Ok(42));
    assert_eq!(latest_verified_value(Ok("xyz".to_string())), Err(RouteError::InvalidEpochFormat));
    assert_eq!(latest_verified_value(Err(())), Err(RouteError::FailedToFetchLatestEpoch));
}

#[test]
fn decimal_text() {
    assert_eq!(u64_to_decimal(0), "0");
    assert_eq!(u64_to_decimal(7), "7");
    assert_eq!(u64_to_decimal(12345), "12345");
    assert_eq!(u64_to_decimal(u64::MAX), "18446744073709551615");
    assert_eq!(u64_to_decimal(1000), 1000u64.to_string());
}

#[test]
fn numeric_job_ids_name_no_uuid() {
    assert_eq!(job_uuid(0), None);
    assert_eq!(job_uuid(123), None);
    assert_eq!(job_uuid(u64::MAX), None);
}

#[test]
fn status_report() {
    let d = status_details(Ok(Some(7)), 2, 3);
    assert_eq!(d.last_epoch_in_progress, 7);
    assert_eq!(d.last_sync_committee_in_progress, 2);
    assert_eq!(d.jobs_in_progress_count, 3);
    assert_eq!(status_details(Ok(None), 2, 3).last_epoch_in_progress, 0);
    assert_eq!(status_details(Err(()), 2, 3).last_epoch_in_progress, 0);
}

#[test]
fn merkle_paths() {
    let paths = vec!["0xab".to_string(), "0xcd".to_string()];
    assert_eq!(merkle_paths_reply(Ok(paths.clone())), Ok(paths));
    assert_eq!(merkle_paths_reply(Ok(vec![])), Err(RouteError::EpochNotAvailable));
    assert_eq!(merkle_paths_reply(Err(())), Err(RouteError::FailedToFetchLatestEpoch));
}

#[test]
fn job_status() {
    assert_eq!(job_status_reply(Ok(Some("DONE".to_string()))), Ok("DONE".to_string()));
    assert_eq!(job_status_reply(Ok(None)), Err(RouteError::JobNotFound));
    assert_eq!(job_status_reply(Err(())), Err(RouteError::FailedToFetchJobStatus));
}

#[test]
fn route_error_messages() {
    assert_eq!(RouteError::InternalServerError.message(), "Internal server error");
    assert_eq!(RouteError::FailedToFetchProof.message(), "Failed to fetch proof");
    assert_eq!(RouteError::InvalidEpochFormat.message(), "Invalid epoch format");
    assert_eq!(RouteError::FailedToFetchLatestEpoch.message(), "Failed to fetch latest epoch");
    assert_eq!(RouteError::JobNotFound.message(), "Job not found");
    assert_eq!(RouteError::FailedToFetchJobStatus.message(), "Failed to fetch job status");
    assert_eq!(RouteError::EpochNotAvailable.message(), "Epoch not available now");
}

#[test]
fn hex_rendering_reads_back() {
    for v in [0u64, 1, 15, 16, 255, 0x2000, 123_456_789, u64::MAX - 1, u64::MAX] {
        assert_eq!(parse_felt_u64(&format!("0x{:x}", v)), Some(v));
    }
}
