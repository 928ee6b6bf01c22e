use filmtrack::config::APP_VERSION;
use filmtrack::models::ApiResponse;
use filmtrack::{AppConfig, UpdateCheckResult, UpdateInfo, UpdateService};

fn info(version: &str) -> UpdateInfo {
    UpdateInfo {
        version: version.to_string(),
        download_url: "https://example.com/dl/setup.exe".to_string(),
        release_notes: "notes".to_string(),
        publish_date: "2024-03-01".to_string(),
    }
}

fn config(version: &str, ignored: Option<&str>) -> AppConfig {
    let mut config = AppConfig::default();
    config.app.version = version.to_string();
    config.update.ignored_version = ignored.map(|s| s.to_string());
    config
}

fn nothing() -> UpdateCheckResult {
    UpdateCheckResult {
        has_update: false,
        version: None,
        download_url: None,
        release_notes: None,
        publish_date: None,
    }
}

fn offer(version: &str) -> UpdateCheckResult {
    UpdateCheckResult {
        has_update: true,
        version: Some(version.to_string()),
        download_url: Some("https://example.com/dl/setup.exe".to_string()),
        release_notes: Some("notes".to_string()),
        publish_date: Some("2024-03-01".to_string()),
    }
}

#[test]
fn a_later_release_is_offered() {
    assert_eq!(UpdateService::check_for_update(&config("1.0.0", None), info("1.0.1")), offer("1.0.1"));
    assert_eq!(UpdateService::check_for_update(&config("1.9.9", None), info("2.0")), offer("2.0"));
}

#[test]
fn the_same_or_an_earlier_release_is_not_offered() {
    assert_eq!(UpdateService::check_for_update(&config("1.0.0", None), info("1.0.0")), nothing());
    assert_eq!(UpdateService::check_for_update(&config("1.0.0", None), info("1.0")), nothing());
    assert_eq!(UpdateService::check_for_update(&config("1.0.0", None), info("0.9.9")), nothing());
    assert_eq!(UpdateService::check_for_update(&config("1.0.0", None), info("")), nothing());
    assert_eq!(UpdateService::check_for_update(&config("1.0.0", None), info("latest")), nothing());
}

#[test]
fn the_ignored_version_is_not_offered_though_it_is_later() {
    assert_eq!(
        UpdateService::check_for_update(&config("1.0.0", Some("1.2.3")), info("1.2.3")),
        nothing()
    );
}

#[test]
fn a_release_other_than_the_ignored_one_is_offered() {
    assert_eq!(
        UpdateService::check_for_update(&config("1.0.0", Some("1.2.3")), info("1.2.4")),
        offer("1.2.4")
    );
    assert_eq!(
        UpdateService::check_for_update(&config("1.0.0", Some("1.2.3")), info("1.2.2")),
        offer("1.2.2")
    );
}

#[test]
fn ignoring_goes_by_the_letter_not_by_the_number() {
    assert_eq!(
        UpdateService::check_for_update(&config("1.0.0", Some("1.2.3")), info("1.2.3.0")),
        offer("1.2.3.0")
    );
    assert_eq!(
        UpdateService::check_for_update(&config("1.0.0", Some("1.2")), info("1.2.0")),
        offer("1.2.0")
    );
    assert_eq!(
        UpdateService::check_for_update(&config("1.0.0", Some("1.2.0")), info("1.2")),
        offer("1.2")
    );
    assert_eq!(
        UpdateService::check_for_update(&config("1.0.0", Some("")), info("1.2")),
        offer("1.2")
    );
}

#[test]
fn with_no_ignored_version_nothing_is_set_aside() {
    assert_eq!(UpdateService::check_for_update(&config("", None), info("0.0.1")), offer("0.0.1"));
    assert_eq!(UpdateService::check_for_update(&config("1.0.0", None), info("")), nothing());
    assert_eq!(UpdateService::check_for_update(&config("", Some("")), info("")), nothing());
}

#[test]
fn the_running_version_of_the_default_configuration_is_the_build_version() {
    let config = AppConfig::default();
    assert_eq!(config.app.version, APP_VERSION);
    assert_eq!(UpdateService::check_for_update(&config, info(APP_VERSION)), nothing());
    assert_eq!(UpdateService::check_for_update(&config, info("999.0.0")), offer("999.0.0"));
}

#[test]
fn a_successful_answer_carries_data_and_no_error() {
    let response = ApiResponse::success(5u32);
    assert!(response.success);
    assert_eq!(response.data, Some(5));
    assert_eq!(response.error, None);
}

#[test]
fn a_failed_answer_carries_the_message_and_no_data() {
    let response: ApiResponse<u32> = ApiResponse::error("broken".to_string());
    assert!(!response.success);
    assert_eq!(response.data, None);
    assert_eq!(response.error, Some("broken".to_string()));
}
