use doc_anonymisation::progress::{progress_percent, Notification, STEP_MILLIS, TOTAL_MILLIS};

#[test]
fn percent_is_the_share_of_the_window() {
    assert_eq!(progress_percent(0, 100), 0);
    assert_eq!(progress_percent(10, 100), 10);
    assert_eq!(progress_percent(100, 100), 100);
    assert_eq!(progress_percent(1, 3), 33);
    assert_eq!(progress_percent(2, 3), 66);
    assert_eq!(progress_percent(3, 3), 100);
}

#[test]
fn window_is_ten_steps_of_ten_milliseconds() {
    assert_eq!(STEP_MILLIS, 10);
    assert_eq!(TOTAL_MILLIS, 100);
}

#[test]
fn notifications_carry_their_event_names() {
    let s = Notification::Started { file_path: "a.txt".to_string(), download_id: 0 };
    let p = Notification::Progress { download_id: 0, progress: 50 };
    let c = Notification::Completed { download_id: 0, file_path: "a.txt".to_string() };
    assert_eq!(s.event_name(), "file-processing-started");
    assert_eq!(p.event_name(), "file-processing-progress");
    assert_eq!(c.event_name(), "file-processing-completed");
}
