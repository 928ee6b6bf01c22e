use filmtrack::http::is_success;
use filmtrack::services::{
    DownloadProgress, TransferAction, TransferError, TransferEvent, TransferJob, TransferState,
    UpdateService, DEFAULT_INSTALLER_NAME,
};
use filmtrack::{FileInfo, StorageService};

#[test]
fn a_new_job_is_idle() {
    let job = TransferJob::new();
    assert_eq!(job.state, TransferState::Idle);
    assert_eq!(job.downloaded, 0);
    assert_eq!(job.total, 0);
    assert!(!job.cancelled);
    assert_eq!(job.url, "");
    assert_eq!(job.filename, "");
}

#[test]
fn a_file_in_place_completes_the_job_without_a_request() {
    let mut job = TransferJob::new();
    let action = job.request("https://example.com/releases/FilmTrack-1.2.0.exe", true);
    assert_eq!(action, TransferAction::UseExisting);
    assert_eq!(job.state, TransferState::Completed);
    assert_eq!(job.downloaded, 0);
    assert_eq!(job.total, 0);
    assert_eq!(job.url, "https://example.com/releases/FilmTrack-1.2.0.exe");
    assert_eq!(job.filename, "FilmTrack-1.2.0.exe");
}

#[test]
fn a_missing_file_starts_the_transfer() {
    let mut job = TransferJob::new();
    let action = job.request("https://example.com/releases/FilmTrack-1.2.0.exe", false);
    assert_eq!(action, TransferAction::SendRequest);
    assert_eq!(job.state, TransferState::Running);
    assert_eq!(job.filename, "FilmTrack-1.2.0.exe");
}

#[test]
fn a_whole_transfer_runs_from_request_to_finish() {
    let mut job = TransferJob::new();
    assert_eq!(job.request("https://example.com/a/setup.exe", false), TransferAction::SendRequest);
    assert_eq!(job.on_response(200, Some(4096)), TransferAction::CreateFile);
    assert_eq!(job.total, 4096);
    let first = job.on_chunk(Some(1024), 500_000_000);
    assert_eq!(
        first,
        TransferAction::WriteChunk(DownloadProgress {
            downloaded: 1024,
            total: 4096,
            percentage: 25,
            speed: "2.0 KB/s".to_string(),
        })
    );
    let second = job.on_chunk(Some(3072), 1_000_000_000);
    assert_eq!(
        second,
        TransferAction::WriteChunk(DownloadProgress {
            downloaded: 4096,
            total: 4096,
            percentage: 100,
            speed: "4.0 KB/s".to_string(),
        })
    );
    assert_eq!(job.state, TransferState::Running);
    assert_eq!(job.on_end(), TransferAction::Finish);
    assert_eq!(job.state, TransferState::Completed);
    assert_eq!(job.downloaded, 4096);
}

#[test]
fn cancelling_in_the_middle_removes_the_partial_file() {
    let mut job = TransferJob::new();
    job.request("https://example.com/a/setup.exe", false);
    job.on_response(200, Some(4096));
    job.on_chunk(Some(1024), 1_000);
    assert!(UpdateService::cancel_download(&mut job).is_ok());
    assert!(job.cancelled);
    assert_eq!(job.state, TransferState::Running);
    let action = job.on_chunk(Some(1024), 2_000);
    assert_eq!(action, TransferAction::RemovePartial);
    assert_eq!(job.state, TransferState::Cancelled);
    assert_eq!(job.downloaded, 1024);
    assert_eq!(job.on_chunk(Some(1024), 3_000), TransferAction::Ignore);
    assert_eq!(job.on_end(), TransferAction::Ignore);
    assert_eq!(job.state, TransferState::Cancelled);
}

#[test]
fn the_flag_is_looked_at_before_a_failed_chunk() {
    let mut job = TransferJob::new();
    job.request("https://example.com/a/setup.exe", false);
    job.on_response(200, None);
    UpdateService::cancel_download(&mut job).unwrap();
    assert_eq!(job.on_chunk(None, 5), TransferAction::RemovePartial);
    assert_eq!(job.state, TransferState::Cancelled);
}

#[test]
fn cancelling_with_nothing_running_is_no_error_and_is_forgotten_by_the_next_request() {
    let mut job = TransferJob::new();
    assert_eq!(UpdateService::cancel_download(&mut job), Ok(()));
    assert_eq!(job.state, TransferState::Idle);
    assert!(job.cancelled);
    assert_eq!(job.request("https://example.com/a/setup.exe", false), TransferAction::SendRequest);
    assert!(!job.cancelled);
    job.on_response(200, Some(10));
    assert_eq!(
        job.on_chunk(Some(10), 0),
        TransferAction::WriteChunk(DownloadProgress {
            downloaded: 10,
            total: 10,
            percentage: 100,
            speed: "0 B/s".to_string(),
        })
    );
}

#[test]
fn a_stale_cancellation_does_not_touch_the_next_job() {
    let mut job = TransferJob::new();
    job.request("https://example.com/a/one.exe", false);
    job.on_response(200, Some(10));
    UpdateService::cancel_download(&mut job).unwrap();
    assert_eq!(job.on_chunk(Some(5), 1), TransferAction::RemovePartial);
    assert_eq!(job.request("https://example.com/a/two.exe", false), TransferAction::SendRequest);
    assert_eq!(job.state, TransferState::Running);
    assert!(!job.cancelled);
    assert_eq!(job.downloaded, 0);
    assert_eq!(job.filename, "two.exe");
    job.on_response(200, Some(10));
    assert!(matches!(job.on_chunk(Some(5), 1), TransferAction::WriteChunk(_)));
}

#[test]
fn a_status_that_is_no_success_fails_the_job() {
    for status in [199u16, 300, 301, 404, 500, 0, 65535] {
        let mut job = TransferJob::new();
        job.request("https://example.com/a/setup.exe", false);
        assert_eq!(
            job.on_response(status, Some(1)),
            TransferAction::Fail(TransferError::Status(status))
        );
        assert_eq!(job.state, TransferState::Failed);
        assert_eq!(job.on_chunk(Some(1), 1), TransferAction::Ignore);
    }
    for status in [200u16, 204, 206, 299] {
        let mut job = TransferJob::new();
        job.request("https://example.com/a/setup.exe", false);
        assert_eq!(job.on_response(status, None), TransferAction::CreateFile);
        assert_eq!(job.state, TransferState::Running);
        assert_eq!(job.total, 0);
    }
}

#[test]
fn a_failed_chunk_fails_the_job_and_leaves_the_file() {
    let mut job = TransferJob::new();
    job.request("https://example.com/a/setup.exe", false);
    job.on_response(200, Some(100));
    job.on_chunk(Some(40), 10);
    assert_eq!(job.on_chunk(None, 20), TransferAction::Fail(TransferError::Transport));
    assert_eq!(job.state, TransferState::Failed);
    assert_eq!(job.downloaded, 40);
}

#[test]
fn a_failure_of_the_callers_work_fails_a_running_job_only() {
    let mut job = TransferJob::new();
    job.on_failure();
    assert_eq!(job.state, TransferState::Idle);
    job.request("https://example.com/a/setup.exe", false);
    job.on_failure();
    assert_eq!(job.state, TransferState::Failed);
    job.request("https://example.com/a/setup.exe", true);
    job.on_failure();
    assert_eq!(job.state, TransferState::Completed);
}

#[test]
fn events_out_of_place_are_ignored() {
    let mut job = TransferJob::new();
    assert_eq!(job.on_response(200, Some(5)), TransferAction::Ignore);
    assert_eq!(job.on_chunk(Some(5), 1), TransferAction::Ignore);
    assert_eq!(job.on_end(), TransferAction::Ignore);
    assert_eq!(job, TransferJob::new());
}

#[test]
fn progress_with_unknown_total_shows_zero_percent() {
    let progress = DownloadProgress::new(5000, 0, 1_000_000_000);
    assert_eq!(progress.percentage, 0);
    assert_eq!(progress.total, 0);
    assert_eq!(progress.downloaded, 5000);
    assert_eq!(progress.speed, "4.9 KB/s");
}

#[test]
fn progress_rate_is_the_average_since_the_start() {
    assert_eq!(DownloadProgress::new(1258291, 10_000_000, 1_000_000_000).speed, "1.2 MB/s");
    assert_eq!(DownloadProgress::new(1258291, 10_000_000, 2_000_000_000).speed, "614.4 KB/s");
    assert_eq!(DownloadProgress::new(100, 1000, 1_000_000_000).speed, "100 B/s");
    assert_eq!(DownloadProgress::new(100, 1000, 3_000_000_000).speed, "33 B/s");
    assert_eq!(DownloadProgress::new(0, 1000, 1_000_000_000).speed, "0 B/s");
    assert_eq!(DownloadProgress::new(100, 1000, 0).speed, "0 B/s");
    assert_eq!(DownloadProgress::new(u64::MAX, 0, 1).speed, "16777216.0 TB/s");
}

#[test]
fn percentage_is_rounded_down() {
    assert_eq!(DownloadProgress::new(1, 3, 1).percentage, 33);
    assert_eq!(DownloadProgress::new(2, 3, 1).percentage, 66);
    assert_eq!(DownloadProgress::new(999, 1000, 1).percentage, 99);
    assert_eq!(DownloadProgress::new(1000, 1000, 1).percentage, 100);
    assert_eq!(DownloadProgress::new(1500, 1000, 1).percentage, 150);
    assert_eq!(DownloadProgress::new(u64::MAX, u64::MAX, 1).percentage, 100);
    assert_eq!(DownloadProgress::new(u64::MAX, 1, 1).percentage, u64::MAX);
}

#[test]
fn installer_name_is_what_follows_the_last_slash() {
    assert_eq!(
        UpdateService::get_installer_filename("https://example.com/dl/FilmTrack_1.2.0_x64-setup.exe"),
        "FilmTrack_1.2.0_x64-setup.exe"
    );
    assert_eq!(UpdateService::get_installer_filename("setup.exe"), "setup.exe");
    assert_eq!(UpdateService::get_installer_filename("a/b?c=d"), "b?c=d");
    for url in ["https://x/y/z.msi", "x", "a/安装包.exe", "//a", "a//b"] {
        assert_eq!(UpdateService::get_installer_filename(url), url.split('/').last().unwrap());
    }
}

#[test]
fn an_address_that_names_no_file_gets_the_stand_in_name() {
    assert_eq!(DEFAULT_INSTALLER_NAME, "FilmTrack-Setup.exe");
    assert_eq!(UpdateService::get_installer_filename("https://example.com/dl/"), "FilmTrack-Setup.exe");
    assert_eq!(UpdateService::get_installer_filename(""), "FilmTrack-Setup.exe");
    assert_eq!(UpdateService::get_installer_filename("/"), "FilmTrack-Setup.exe");
    assert_eq!(UpdateService::get_installer_filename("a//"), "FilmTrack-Setup.exe");
    let mut job = TransferJob::new();
    job.request("https://example.com/dl/", false);
    assert_eq!(job.filename, "FilmTrack-Setup.exe");
    assert_eq!(job.url, "https://example.com/dl/");
}

#[test]
fn file_info_takes_the_length_or_zero() {
    assert_eq!(UpdateService::get_file_info(200, Some(123)), Ok(FileInfo { size: 123 }));
    assert_eq!(UpdateService::get_file_info(200, None), Ok(FileInfo { size: 0 }));
    assert_eq!(UpdateService::get_file_info(404, Some(123)), Err(TransferError::Status(404)));
}

#[test]
fn success_is_200_to_299() {
    assert!(!is_success(199));
    assert!(is_success(200));
    assert!(is_success(299));
    assert!(!is_success(300));
    assert!(!is_success(0));
    assert!(!is_success(u16::MAX));
}

#[test]
fn storage_report_carries_both_forms_of_each_size() {
    let info = StorageService::get_storage_info(5 * 1024 * 1024, 0);
    assert_eq!(info.cache_size, "5.0 MB");
    assert_eq!(info.cache_size_bytes, 5 * 1024 * 1024);
    assert_eq!(info.database_size, "0 B");
    assert_eq!(info.database_size_bytes, 0);
}

#[test]
fn events_drive_the_job_as_the_single_calls_do() {
    let url = "https://example.com/a/setup.exe";
    let events = vec![
        TransferEvent::Chunk { len: Some(1), elapsed_nanos: 1 },
        TransferEvent::Requested { url: url.to_string(), already_present: false },
        TransferEvent::Responded { status: 200, content_length: Some(30) },
        TransferEvent::Chunk { len: Some(10), elapsed_nanos: 1_000_000_000 },
        TransferEvent::Chunk { len: Some(20), elapsed_nanos: 2_000_000_000 },
        TransferEvent::Ended,
        TransferEvent::Broken,
        TransferEvent::Ended,
    ];
    let mut by_event = TransferJob::new();
    let actions: Vec<TransferAction> =
        events.iter().map(|e| by_event.advance(e.clone())).collect();
    assert_eq!(
        actions,
        vec![
            TransferAction::Ignore,
            TransferAction::SendRequest,
            TransferAction::CreateFile,
            TransferAction::WriteChunk(DownloadProgress {
                downloaded: 10,
                total: 30,
                percentage: 33,
                speed: "10 B/s".to_string(),
            }),
            TransferAction::WriteChunk(DownloadProgress {
                downloaded: 30,
                total: 30,
                percentage: 100,
                speed: "15 B/s".to_string(),
            }),
            TransferAction::Finish,
            TransferAction::Ignore,
            TransferAction::Ignore,
        ]
    );
    assert_eq!(by_event.state, TransferState::Completed);

    let mut by_call = TransferJob::new();
    by_call.on_chunk(Some(1), 1);
    by_call.request(url, false);
    by_call.on_response(200, Some(30));
    by_call.on_chunk(Some(10), 1_000_000_000);
    by_call.on_chunk(Some(20), 2_000_000_000);
    by_call.on_end();
    by_call.on_failure();
    by_call.on_end();
    assert_eq!(by_call, by_event);
}

#[test]
fn a_broken_step_fails_a_running_job_and_asks_for_nothing() {
    let mut job = TransferJob::new();
    job.advance(TransferEvent::Requested { url: "u/f".to_string(), already_present: false });
    assert_eq!(job.advance(TransferEvent::Broken), TransferAction::Ignore);
    assert_eq!(job.state, TransferState::Failed);
    assert_eq!(
        job.advance(TransferEvent::Requested { url: "u/f".to_string(), already_present: true }),
        TransferAction::UseExisting
    );
    assert_eq!(job.state, TransferState::Completed);
}
