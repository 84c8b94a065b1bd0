use thumbnail_preloader::error::{PreloadError, Severity};
use thumbnail_preloader::text::{
    decimal_string, fatal_failure_line, local_failure_line, report_line, summary_line,
};

#[test]
fn summary_line_groups_digits_by_three() {
    assert_eq!(summary_line(0), "Preloading 0 files");
    assert_eq!(summary_line(7), "Preloading 7 files");
    assert_eq!(summary_line(999), "Preloading 999 files");
    assert_eq!(summary_line(1000), "Preloading 1,000 files");
    assert_eq!(summary_line(12345), "Preloading 12,345 files");
    assert_eq!(summary_line(1002003), "Preloading 1,002,003 files");
    assert_eq!(summary_line(1234567), "Preloading 1,234,567 files");
    assert_eq!(summary_line(4294967295), "Preloading 4,294,967,295 files");
}

#[test]
fn decimal_string_has_no_leading_zeros() {
    assert_eq!(decimal_string(0), "0");
    assert_eq!(decimal_string(9), "9");
    assert_eq!(decimal_string(10), "10");
    assert_eq!(decimal_string(1234567890), "1234567890");
    assert_eq!(decimal_string(usize::MAX), usize::MAX.to_string());
}

#[test]
fn report_line_names_processed_and_total() {
    assert_eq!(report_line(3, 3), "processed 3 of 3");
    assert_eq!(report_line(1, 3), "processed 1 of 3");
    assert_eq!(report_line(0, 0), "processed 0 of 0");
    assert_eq!(report_line(1500, 20000), "processed 1500 of 20000");
}

fn each(cause: &str) -> Vec<(PreloadError, &'static str, Severity)> {
    let c = cause.to_string();
    vec![
        (PreloadError::InvalidDirectory(c.clone()), "invalid directory", Severity::Fatal),
        (PreloadError::FailedToReadDirectory(c.clone()), "failed to read directory", Severity::Fatal),
        (PreloadError::FailedToInitialiseCOM(c.clone()), "failed to initialise COM", Severity::Fatal),
        (
            PreloadError::FailedToCreateProgressDialog(c.clone()),
            "failed to create progress dialog",
            Severity::Fatal,
        ),
        (
            PreloadError::FailedToCreateBindContext(c.clone()),
            "failed to create bind context",
            Severity::Fatal,
        ),
        (
            PreloadError::FailedToCreateThumbnailCache(c.clone()),
            "failed to create thumbnail cache",
            Severity::Fatal,
        ),
        (
            PreloadError::FailedToCreateShellItem(c.clone()),
            "failed to create shell item",
            Severity::Local,
        ),
        (
            PreloadError::FailedToShowProgressDialog(c.clone()),
            "failed to show progress dialog",
            Severity::Fatal,
        ),
        (
            PreloadError::FailedToUpdateProgressDialog(c.clone()),
            "failed to update progress dialog",
            Severity::Fatal,
        ),
        (
            PreloadError::FailedToGenerateThumbnail(c.clone()),
            "failed to generate thumbnail",
            Severity::Local,
        ),
        (
            PreloadError::FailedToHideProgressDialog(c),
            "failed to hide progress dialog",
            Severity::Reported,
        ),
    ]
}

#[test]
fn message_names_the_stage_and_the_cause() {
    for (error, stage, _) in each("Access is denied. (0x80070005)") {
        assert_eq!(error.message(), format!("{} [Access is denied. (0x80070005)]", stage));
    }
    assert_eq!(
        PreloadError::InvalidDirectory(String::new()).message(),
        "invalid directory []"
    );
}

#[test]
fn severity_splits_fatal_local_and_reported() {
    for (error, _, severity) in each("x") {
        assert_eq!(error.severity(), severity);
    }
}

#[test]
fn failure_lines_embed_the_message() {
    let local = PreloadError::FailedToCreateShellItem("not found".to_string());
    assert_eq!(
        local_failure_line(&local),
        "Failed to preload file: failed to create shell item [not found]."
    );
    let fatal = PreloadError::FailedToInitialiseCOM("busy".to_string());
    assert_eq!(
        fatal_failure_line(&fatal),
        "Failed to preload directory: failed to initialise COM [busy]."
    );
}
