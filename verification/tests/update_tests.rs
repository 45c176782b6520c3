use fadb_desktop::domain::{BridgeError, ErrorCode, UpdateCheckOutcome, UpdateInfo};
use fadb_desktop::i18n::Language;
use fadb_desktop::update::{
    evaluate_update, release_outcome, update_toast_text, version_text, UpdatePrefs, UpdateState,
    UpdateStatus,
};

fn available(version: &str) -> UpdateCheckOutcome {
    UpdateCheckOutcome::Available(UpdateInfo {
        version: version.to_owned(),
        url: "https://github.com/yeqing17/fadb/releases/tag/v0.9.0".to_owned(),
    })
}

#[test]
fn newer_release_is_available_with_or_without_v_prefix() {
    assert_eq!(
        evaluate_update(
            "v0.9.0",
            "https://github.com/yeqing17/fadb/releases/tag/v0.9.0",
            "0.8.8"
        ),
        available("0.9.0")
    );
    assert_eq!(
        evaluate_update("0.9.0", "", "0.8.8"),
        UpdateCheckOutcome::Available(UpdateInfo {
            version: "0.9.0".to_owned(),
            url: String::new(),
        })
    );
}

#[test]
fn equal_or_older_releases_stay_quiet() {
    assert_eq!(
        evaluate_update("v0.8.8", "", "0.8.8"),
        UpdateCheckOutcome::UpToDate
    );
    assert_eq!(
        evaluate_update("v0.8.7", "", "0.8.8"),
        UpdateCheckOutcome::UpToDate
    );
}

#[test]
fn unparseable_tags_stay_quiet() {
    assert_eq!(
        evaluate_update("", "", "0.8.8"),
        UpdateCheckOutcome::UpToDate
    );
    assert_eq!(
        evaluate_update("not-a-version", "", "0.8.8"),
        UpdateCheckOutcome::UpToDate
    );
    assert_eq!(
        evaluate_update("0.8", "", "0.8.8"),
        UpdateCheckOutcome::UpToDate
    );
}

#[test]
fn tags_are_trimmed_and_lose_every_leading_v() {
    assert_eq!(version_text("  vV1.2.3 \n"), "1.2.3");
    assert_eq!(version_text("1.2.3"), "1.2.3");
    assert_eq!(version_text("release"), "release");
    assert_eq!(
        evaluate_update(" V1.0.0-rc.1 ", "u", "0.9.9"),
        UpdateCheckOutcome::Available(UpdateInfo {
            version: "1.0.0-rc.1".to_owned(),
            url: "u".to_owned(),
        })
    );
    // A pre-release orders before its release.
    assert_eq!(
        evaluate_update("1.0.0-rc.1", "u", "1.0.0"),
        UpdateCheckOutcome::UpToDate
    );
    // An unparseable running version keeps quiet too.
    assert_eq!(evaluate_update("9.9.9", "u", "dev"), UpdateCheckOutcome::UpToDate);
}

#[test]
fn compared_releases_become_outcomes() {
    assert_eq!(
        release_outcome(true, "2.0.0".to_owned(), "page"),
        UpdateCheckOutcome::Available(UpdateInfo {
            version: "2.0.0".to_owned(),
            url: "page".to_owned(),
        })
    );
    assert_eq!(
        release_outcome(false, "2.0.0".to_owned(), "page"),
        UpdateCheckOutcome::UpToDate
    );
}

#[test]
fn automatic_check_fires_once_after_the_startup_delay_when_stale() {
    let mut state = UpdateState::from_prefs(None);
    assert!(state.auto_check);
    assert!(!state.start_auto_check(1_000_000, 4_999));
    assert!(state.start_auto_check(1_000_000, 5_000));
    assert!(matches!(state.status, UpdateStatus::Checking));
    assert!(!state.start_auto_check(1_000_000, 60_000));

    let recent = UpdatePrefs {
        auto_check: true,
        last_check_epoch: Some(1_000_000 - 86_399),
    };
    let mut state = UpdateState::from_prefs(Some(recent));
    assert!(!state.start_auto_check(1_000_000, 60_000));
    let day_old = UpdatePrefs {
        auto_check: true,
        last_check_epoch: Some(1_000_000 - 86_400),
    };
    assert!(UpdateState::from_prefs(Some(day_old)).start_auto_check(1_000_000, 60_000));
    let disabled = UpdatePrefs {
        auto_check: false,
        last_check_epoch: None,
    };
    assert!(!UpdateState::from_prefs(Some(disabled)).start_auto_check(1_000_000, 60_000));
    // Far-apart timestamps do not overflow.
    let ancient = UpdatePrefs {
        auto_check: true,
        last_check_epoch: Some(i64::MIN),
    };
    assert!(UpdateState::from_prefs(Some(ancient)).is_stale(i64::MAX));
}

#[test]
fn only_successful_checks_stamp_the_time() {
    let mut state = UpdateState::from_prefs(None);
    state.start_manual_check();
    let found = state.record_result(Ok(available("0.9.0")), 42);
    assert_eq!(found.as_deref(), Some("0.9.0"));
    assert_eq!(state.last_check_epoch, Some(42));
    assert!(matches!(state.status, UpdateStatus::Available(ref info) if info.version == "0.9.0"));
    let failed = state.record_result(
        Err(BridgeError::new(ErrorCode::Internal, "update.check_failed", "offline")),
        99,
    );
    assert!(failed.is_none());
    assert_eq!(state.last_check_epoch, Some(42));
    assert!(matches!(state.status, UpdateStatus::Failed(ref detail) if detail == "offline"));
    assert_eq!(
        state.prefs(),
        UpdatePrefs {
            auto_check: true,
            last_check_epoch: Some(42)
        }
    );
    assert!(state.record_result(Ok(UpdateCheckOutcome::UpToDate), 100).is_none());
    assert!(matches!(state.status, UpdateStatus::UpToDate));
}

#[test]
fn update_toast_names_the_version() {
    assert_eq!(
        update_toast_text(Language::English, "0.9.0"),
        "New version available v0.9.0"
    );
    assert_eq!(update_toast_text(Language::Chinese, "1.0.0"), "发现新版本 v1.0.0");
}
