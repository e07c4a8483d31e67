use uwais::os::{Kind as OsKind, OS};
use uwais::update::{
    clearance_command, clearance_plan, handoff_command, is_permission_error, updater_task_plan,
    updater_task_retry_delay_ms, ClearanceStep, StagingDecision, UpdaterTaskStep,
};

#[test]
fn detect_maps_target_names_to_families() {
    assert_eq!(OsKind::detect("windows"), OsKind::Windows);
    assert_eq!(OsKind::detect("linux"), OsKind::Linux);
    assert_eq!(OsKind::detect("macos"), OsKind::MacOS);
    assert_eq!(OsKind::detect("freebsd"), OsKind::Unknown);
    assert!(!OsKind::Unknown.is_supported());
    assert!(OsKind::Linux.is_supported());
}

#[test]
fn staged_path_prepends_the_prefix_inside_the_directory() {
    let os = OS::new(OsKind::Linux, "/opt/bin/tool");
    assert_eq!(os.app_name, "tool");
    assert_eq!(os.app_dir, "/opt/bin");
    assert_eq!(
        os.get_app_updater_task_filepath_from_main_process(),
        "/opt/bin/latest-tool"
    );
}

#[test]
fn original_path_strips_the_prefix_from_a_staged_name() {
    let staged = OS::new(OsKind::Linux, "/opt/bin/latest-tool");
    assert_eq!(
        staged.get_app_filepath_from_updater_task_child_process(),
        "/opt/bin/tool"
    );
    let plain = OS::new(OsKind::Linux, "/opt/bin/tool");
    assert_eq!(
        plain.get_app_filepath_from_updater_task_child_process(),
        "/opt/bin/tool"
    );
}

#[test]
fn descriptor_without_a_family_or_name_is_invalid() {
    assert!(!OS::new(OsKind::Unknown, "/bin/sh").is_valid());
    assert!(!OS::new(OsKind::Linux, "").is_valid());
}

#[test]
fn permission_codes_per_platform() {
    assert!(is_permission_error(OsKind::Windows, Some(5)));
    assert!(!is_permission_error(OsKind::Windows, Some(13)));
    assert!(is_permission_error(OsKind::Linux, Some(13)));
    assert!(is_permission_error(OsKind::MacOS, Some(13)));
    assert!(!is_permission_error(OsKind::Linux, Some(5)));
    assert!(!is_permission_error(OsKind::Linux, None));
    assert!(!is_permission_error(OsKind::Unknown, Some(13)));
}

#[test]
fn staging_classifies_the_copy_outcome() {
    let os = OS::new(OsKind::Linux, "/opt/bin/tool");
    match os.decide_staging(Err((Some(13), "denied".to_string()))) {
        StagingDecision::ElevationRequired => {}
        _ => panic!("a permission code must ask for elevation"),
    }
    match os.decide_staging(Err((None, "disk full".to_string()))) {
        StagingDecision::Failed(m) => assert_eq!(m, "disk full"),
        _ => panic!("another error must be carried verbatim"),
    }
    match os.decide_staging(Ok(())) {
        StagingDecision::NoUpdate => {}
        _ => panic!("with no staged file on disk there is no update"),
    }
}

#[test]
fn handoff_and_clearance_command_lines() {
    assert_eq!(
        handoff_command("/opt/bin/latest-tool"),
        vec!["/opt/bin/latest-tool".to_string(), "--updater-task".to_string()]
    );
    assert_eq!(
        clearance_command("/opt/bin/tool"),
        vec!["/opt/bin/tool".to_string(), "--updater-task-clearance".to_string()]
    );
}

#[test]
fn updater_task_acts_only_as_the_staged_copy() {
    let plain = OS::new(OsKind::Linux, "/opt/bin/tool");
    assert!(matches!(updater_task_plan(&plain), UpdaterTaskStep::NotStaged));

    let staged = OS::new(OsKind::Linux, "/opt/bin/latest-tool");
    match updater_task_plan(&staged) {
        UpdaterTaskStep::Copy { from, to } => {
            assert_eq!(from, "/opt/bin/latest-tool");
            assert_eq!(to, "/opt/bin/tool");
        }
        _ => panic!("the staged copy must overwrite the original"),
    }

    let unsupported = OS::new(OsKind::Unknown, "/opt/bin/latest-tool");
    assert!(matches!(updater_task_plan(&unsupported), UpdaterTaskStep::Unsupported));
    assert_eq!(updater_task_retry_delay_ms(), 100);
}

#[test]
fn clearance_acts_only_as_the_unprefixed_original() {
    let staged = OS::new(OsKind::Linux, "/opt/bin/latest-tool");
    assert!(matches!(clearance_plan(&staged), ClearanceStep::NotOwner));

    let plain = OS::new(OsKind::Linux, "/opt/bin/tool");
    assert!(matches!(clearance_plan(&plain), ClearanceStep::Done));

    let unsupported = OS::new(OsKind::Unknown, "/opt/bin/tool");
    assert!(matches!(clearance_plan(&unsupported), ClearanceStep::Unsupported));
}
