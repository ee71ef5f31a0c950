use blockless_drivers::download::{
    model_file_path, part_file_path, plan_download, probe_status_error, total_size_from_headers,
    transfer_status_error, verify_final_size, DownloadPlan, DownloadProgress,
};

#[test]
fn resumed_download_asks_for_the_rest() {
    match plan_download(1000, 400) {
        DownloadPlan::Fetch { resume_from, append, range_header } => {
            assert_eq!(resume_from, 400);
            assert!(append);
            assert_eq!(range_header.as_deref(), Some("bytes=400-"));
        },
        other => panic!("unexpected {:?}", other),
    }
    let mut p = DownloadProgress::new(400, 1000);
    assert_eq!(p.last_percentage, 40);
    assert_eq!(p.record_chunk(50), None);
    assert_eq!(p.record_chunk(50), Some(50));
    assert_eq!(p.record_chunk(500), Some(100));
    assert_eq!(p.downloaded, 1000);
    assert!(verify_final_size(1000, p.downloaded));
}

#[test]
fn plans_for_fresh_complete_and_unknown() {
    assert_eq!(plan_download(1000, 1000), DownloadPlan::Finalize);
    assert_eq!(
        plan_download(1000, 0),
        DownloadPlan::Fetch { resume_from: 0, append: false, range_header: None }
    );
    assert_eq!(
        plan_download(0, 7),
        DownloadPlan::Fetch { resume_from: 7, append: true, range_header: Some("bytes=7-".to_string()) }
    );
    assert_eq!(plan_download(0, 0), DownloadPlan::Fetch { resume_from: 0, append: false, range_header: None });
}

#[test]
fn progress_without_known_size_is_silent() {
    let mut p = DownloadProgress::new(0, 0);
    assert_eq!(p.record_chunk(u64::MAX), None);
    assert_eq!(p.downloaded, u64::MAX);
    assert!(verify_final_size(0, 12));
    assert!(!verify_final_size(10, 12));
}

#[test]
fn total_size_prefers_linked_size() {
    assert_eq!(total_size_from_headers(Some("123"), Some("9")), 123);
    assert_eq!(total_size_from_headers(Some("x"), Some("+9")), 9);
    assert_eq!(total_size_from_headers(None, Some("18446744073709551615")), u64::MAX);
    assert_eq!(total_size_from_headers(None, Some("18446744073709551616")), 0);
    assert_eq!(total_size_from_headers(Some(" 5"), None), 0);
    assert_eq!(total_size_from_headers(None, None), 0);
}

#[test]
fn status_checks() {
    assert!(probe_status_error(200).is_none());
    assert!(probe_status_error(399).is_none());
    match probe_status_error(404) {
        Some(e) => assert_eq!(e.message(), "Server response error: Failed to download model; status code: 404"),
        None => panic!("404 accepted"),
    }
    assert!(transfer_status_error(206).is_none());
    assert!(transfer_status_error(302).is_some());
    assert!(transfer_status_error(199).is_some());
}

#[test]
fn part_and_model_paths() {
    assert_eq!(part_file_path("/h/.blessnet/models/a.Q6_K.llamafile"), "/h/.blessnet/models/a.Q6_K.part");
    assert_eq!(part_file_path("/h/models/plain"), "/h/models/plain.part");
    assert_eq!(part_file_path("/h/m.v1/.hidden"), "/h/m.v1/.hidden.part");
    assert_eq!(model_file_path("/root", "m.llamafile"), "/root/.blessnet/models/m.llamafile");
    assert_eq!(model_file_path("/root/", "m.llamafile"), "/root/.blessnet/models/m.llamafile");
}
