use uwais::http::{ReleaseAsset, ReleaseInfo};
use uwais::os::{Kind as OsKind, OS};
use uwais::source::{GitRetry, Kind, ProvideStep, RetryStep, Source, MAX_RETRIES};
use uwais::sys::path_exists;

fn linux_os() -> OS {
    OS::new(OsKind::Linux, "/opt/bin/uwais")
}

fn os_of(kind: OsKind) -> OS {
    OS::new(kind, "/opt/bin/uwais")
}

#[test]
fn classification_of_locators() {
    let os = linux_os();
    assert_eq!(Source::new(os.clone(), "https://github.com/u/r.git").kind, Kind::GitUrl);
    assert_eq!(Source::new(os.clone(), "http://example.com/r.git").kind, Kind::GitUrl);
    assert_eq!(Source::new(os.clone(), "git@github.com:u/r.git").kind, Kind::GitSSH);
    assert_eq!(Source::new(os.clone(), "/abs/path").kind, Kind::LocalPath);
    assert_eq!(Source::new(os.clone(), "./rel/path").kind, Kind::LocalPath);
    assert_eq!(Source::new(os.clone(), "~/home/path").kind, Kind::LocalPath);
    assert_eq!(Source::new(os.clone(), "example.com/r").kind, Kind::Unknown);
    assert_eq!(Source::new(os.clone(), "https://example.com/r").kind, Kind::Unknown);
    assert_eq!(Source::new(os, "").kind, Kind::Unknown);
}

#[test]
fn unknown_source_is_never_valid() {
    let s = Source::new(linux_os(), "plainword");
    assert_eq!(s.kind, Kind::Unknown);
    assert!(!s.is_valid());
}

#[test]
fn locator_is_trimmed_before_classification() {
    let s = Source::new(linux_os(), "  /some/dir  ");
    assert_eq!(s.kind, Kind::LocalPath);
    assert_eq!(s.url, "/some/dir");
}

#[test]
fn kind_names_and_network_need() {
    assert_eq!(Kind::GitUrl.name(), "git-url");
    assert_eq!(Kind::GitSSH.name(), "git-ssh");
    assert_eq!(Kind::LocalPath.name(), "local-path");
    assert_eq!(Kind::LatestAppRelease.name(), "latest-release");
    assert_eq!(Kind::Unknown.name(), "unknown");
    assert!(Kind::GitUrl.requires_network());
    assert!(Kind::GitSSH.requires_network());
    assert!(Kind::LatestAppRelease.requires_network());
    assert!(!Kind::LocalPath.requires_network());
    assert!(!Kind::Unknown.requires_network());
}

#[test]
fn latest_release_source_points_at_the_fixed_endpoint() {
    let s = Source::new_latest_app_release(linux_os());
    assert_eq!(s.kind, Kind::LatestAppRelease);
    assert_eq!(s.url, "https://api.github.com/repos/dalikewara/uwais/releases/latest");
    assert!(s.is_valid());
}

#[test]
fn clear_never_deletes_twice() {
    let mut s = Source::new(linux_os(), "https://github.com/u/r.git");
    s.source_dir = ".".to_string();
    let first = s.clear();
    assert_eq!(first, Some(".".to_string()));
    let second = s.clear();
    assert_eq!(second, None);
    let third = s.clear();
    assert_eq!(third, None);
}

#[test]
fn clear_never_deletes_a_local_source() {
    let mut s = Source::new(linux_os(), ".");
    assert_eq!(s.kind, Kind::LocalPath);
    let provided = s.provide_dir();
    assert!(matches!(provided, ProvideStep::Ready(_)));
    assert_eq!(s.source_dir, ".");
    assert_eq!(s.clear(), None);
    assert_eq!(s.clear(), None);
}

#[test]
fn clear_skips_a_directory_that_is_gone() {
    let mut s = Source::new(linux_os(), "https://github.com/u/r.git");
    s.source_dir = "/no-such-dir-for-uwais-tests".to_string();
    assert_eq!(s.clear(), None);
    assert!(!s.cleaned_up);
}

#[test]
fn retry_schedule_is_three_attempts_and_three_seconds() {
    assert_eq!(MAX_RETRIES, 3);
    let total = uwais::source::retry_delay_ms(1) + uwais::source::retry_delay_ms(2);
    assert_eq!(total, 3000);
    assert!(total >= 3000);
    assert_eq!(
        uwais::source::retry_exhausted_message("boom"),
        "Failed after 3 attempts: boom"
    );
}

#[test]
fn each_platform_selects_exactly_its_own_asset() {
    let names = ["app-windows.zip", "app-linux.zip", "app-macos.zip"];
    let expect = [
        (OsKind::Windows, "app-windows.zip"),
        (OsKind::Linux, "app-linux.zip"),
        (OsKind::MacOS, "app-macos.zip"),
    ];
    for (kind, own) in expect {
        let s = Source::new_latest_app_release(os_of(kind));
        for name in names {
            assert_eq!(s.matches_current_os(name), name == own);
        }
    }
    let unsupported = Source::new_latest_app_release(os_of(OsKind::Unknown));
    for name in names {
        assert!(!unsupported.matches_current_os(name));
    }
}

#[test]
fn provide_dir_on_missing_local_directory_fails_and_records_nothing() {
    let mut s = Source::new(linux_os(), "/no-such-dir-for-uwais-tests");
    match s.provide_dir() {
        ProvideStep::Refused(m) => {
            assert_eq!(m, "Local source does not exist: /no-such-dir-for-uwais-tests");
        }
        _ => panic!("a missing local directory must be refused"),
    }
    assert_eq!(s.source_dir, "");
}

#[test]
fn provide_dir_on_unknown_kind_is_refused() {
    let mut s = Source::new(linux_os(), "not-a-source");
    match s.provide_dir() {
        ProvideStep::Refused(m) => assert_eq!(m, "Invalid source type: unknown"),
        _ => panic!("an unknown source must be refused"),
    }
}

#[test]
fn provide_dir_on_git_kind_hands_out_a_download() {
    let mut s = Source::new(linux_os(), "https://github.com/u/r.git");
    match s.provide_dir() {
        ProvideStep::GitDownload { url, tmp_dir } => {
            assert_eq!(url, "https://github.com/u/r.git");
            assert!(tmp_dir.starts_with(".uwais-tmp-source-git-"));
        }
        _ => panic!("a git source must ask for a download"),
    }
    assert_eq!(s.source_dir, "");
}

#[test]
fn release_with_only_linux_asset_fails_on_macos_and_leaves_no_directory() {
    let s = Source::new_latest_app_release(os_of(OsKind::MacOS));
    let release = ReleaseInfo {
        assets: vec![ReleaseAsset {
            name: "app-linux.zip".to_string(),
            browser_download_url: "https://example.com/app-linux.zip".to_string(),
        }],
    };
    match s.provide_latest_release_plan(&release, 77) {
        ProvideStep::Refused(m) => {
            assert_eq!(m, "No matching asset found for the current OS");
        }
        _ => panic!("a release without a matching asset must be refused"),
    }
    assert!(!path_exists(".uwais-tmp-source-latest-app-release-77"));
    assert_eq!(s.source_dir, "");
}

#[test]
fn release_without_assets_is_refused() {
    let s = Source::new_latest_app_release(linux_os());
    let release = ReleaseInfo { assets: vec![] };
    match s.provide_latest_release_plan(&release, 1) {
        ProvideStep::Refused(m) => assert_eq!(m, "No release assets were found"),
        _ => panic!("an empty release must be refused"),
    }
}

#[test]
fn release_plan_picks_the_first_matching_asset() {
    let s = Source::new_latest_app_release(linux_os());
    let release = ReleaseInfo {
        assets: vec![
            ReleaseAsset {
                name: "app-windows.zip".to_string(),
                browser_download_url: "https://example.com/w.zip".to_string(),
            },
            ReleaseAsset {
                name: "app-linux.zip".to_string(),
                browser_download_url: "https://example.com/l.zip".to_string(),
            },
            ReleaseAsset {
                name: "other-linux.zip".to_string(),
                browser_download_url: "https://example.com/l2.zip".to_string(),
            },
        ],
    };
    match s.provide_latest_release_plan(&release, 5) {
        ProvideStep::ReleaseDownload { tmp_dir, asset_name, asset_url } => {
            assert_eq!(tmp_dir, ".uwais-tmp-source-latest-app-release-5");
            assert_eq!(asset_name, "app-linux.zip");
            assert_eq!(asset_url, "https://example.com/l.zip");
        }
        _ => panic!("a matching asset must be scheduled for download"),
    }
}

#[test]
fn temp_dir_names_carry_prefix_purpose_and_moment() {
    let s = Source::new_latest_app_release(linux_os());
    assert_eq!(s.create_temp_dir("source-git", 12345), ".uwais-tmp-source-git-12345");
    assert_eq!(s.create_temp_dir("x", 0), ".uwais-tmp-x-0");
}

#[test]
fn failed_git_download_is_wrapped_and_tmp_dir_returned_for_removal() {
    let mut s = Source::new(linux_os(), "https://github.com/u/r.git");
    let (result, remove) = s.complete_git_download("tmp-git", Err("network down".to_string()));
    assert_eq!(result, Err("Failed to download Git source: network down".to_string()));
    assert_eq!(remove, Some("tmp-git".to_string()));
    assert_eq!(s.source_dir, "");
}

#[test]
fn git_download_into_a_missing_directory_still_counts_as_failure() {
    let mut s = Source::new(linux_os(), "https://github.com/u/r.git");
    let (result, remove) = s.complete_git_download("/no-such-dir-for-uwais-tests", Ok(()));
    assert_eq!(result, Err("Git source was not downloaded successfully".to_string()));
    assert_eq!(remove, Some("/no-such-dir-for-uwais-tests".to_string()));
}

#[test]
fn successful_git_download_records_the_directory() {
    let mut s = Source::new(linux_os(), "https://github.com/u/r.git");
    let (result, remove) = s.complete_git_download(".", Ok(()));
    assert_eq!(result, Ok(".".to_string()));
    assert_eq!(remove, None);
    assert_eq!(s.source_dir, ".");
    assert!(!s.cleaned_up);
}

#[test]
fn failed_release_download_is_wrapped() {
    let mut s = Source::new_latest_app_release(linux_os());
    let (result, remove) =
        s.complete_release_download("tmp-rel", "app-linux.zip", Err("timeout".to_string()));
    assert_eq!(result, Err("Failed to download release asset: timeout".to_string()));
    assert_eq!(remove, Some("tmp-rel".to_string()));
}

#[test]
fn release_download_without_the_file_on_disk_fails() {
    let mut s = Source::new_latest_app_release(linux_os());
    let (result, remove) =
        s.complete_release_download("/no-such-dir-for-uwais-tests", "app-linux.zip", Ok(()));
    assert_eq!(
        result,
        Err("Downloaded asset not found: /no-such-dir-for-uwais-tests/app-linux.zip".to_string())
    );
    assert_eq!(remove, Some("/no-such-dir-for-uwais-tests".to_string()));
}

#[test]
fn cleanup_marks_only_the_recorded_directory() {
    let mut s = Source::new(linux_os(), "https://github.com/u/r.git");
    s.source_dir = "kept".to_string();
    let removed = s.cleanup_temp_dir("other");
    assert_eq!(removed, "other");
    assert!(!s.cleaned_up);
    let removed = s.cleanup_temp_dir("kept");
    assert_eq!(removed, "kept");
    assert!(s.cleaned_up);
}

#[test]
fn latest_release_guard_refuses_other_kinds() {
    let s = Source::new(linux_os(), "https://github.com/u/r.git");
    assert_eq!(
        s.latest_release_guard(),
        Err("Invalid source type for latest app release".to_string())
    );
    let ok = Source::new_latest_app_release(linux_os());
    assert_eq!(ok.latest_release_guard(), Ok(()));
}

#[test]
fn missing_binary_after_extraction_is_reported() {
    let s = Source::new_latest_app_release(linux_os());
    assert_eq!(
        s.locate_binary_after_extract("/no-such-dir-for-uwais-tests"),
        Err("Binary not found after extraction: /no-such-dir-for-uwais-tests/uwais".to_string())
    );
}

#[test]
fn no_archive_in_an_empty_directory() {
    let s = Source::new_latest_app_release(linux_os());
    assert_eq!(
        s.find_matching_archive("/no-such-dir-for-uwais-tests"),
        Err("No matching archive found for the current OS".to_string())
    );
}

#[test]
fn retry_machine_orders_two_sleeps_then_gives_up() {
    let mut schedule = GitRetry::new();
    assert_eq!(schedule.attempt, 1);
    let mut slept: u64 = 0;
    match schedule.record_failure("first") {
        RetryStep::SleepThenRetry(ms) => {
            assert_eq!(ms, 1000);
            slept += ms;
        }
        _ => panic!("the first failure must order a retry"),
    }
    match schedule.record_failure("second") {
        RetryStep::SleepThenRetry(ms) => {
            assert_eq!(ms, 2000);
            slept += ms;
        }
        _ => panic!("the second failure must order a retry"),
    }
    match schedule.record_failure("third") {
        RetryStep::GiveUp(m) => assert_eq!(m, "Failed after 3 attempts: third"),
        _ => panic!("the third failure must give up"),
    }
    assert_eq!(slept, 3000);
    match schedule.record_failure("again") {
        RetryStep::GiveUp(_) => {}
        _ => panic!("a spent schedule never orders another attempt"),
    }
}

#[test]
fn archive_selection_skips_non_files_and_non_matches() {
    let s = Source::new_latest_app_release(linux_os());
    let names = vec![
        "app-linux.zip".to_string(),
        "readme-linux.txt".to_string(),
        "b-linux.zip".to_string(),
        "c-linux.zip".to_string(),
    ];
    let is_file = vec![false, true, true, true];
    assert_eq!(s.select_matching_archive(&names, &is_file), Some(2));

    let none_names = vec!["app-windows.zip".to_string(), "notes.txt".to_string()];
    let none_files = vec![true, true];
    assert_eq!(s.select_matching_archive(&none_names, &none_files), None);
}
