use uwais::exec::{
    extract_base_command, get_command_check_args, prepare_command, resolve_command_path,
};
use uwais::lang::Kind as LangKind;
use uwais::structure::{Part, Partial, Version};

#[test]
fn base_command_drops_path_and_launcher_suffix() {
    assert_eq!(extract_base_command("python"), "python");
    assert_eq!(extract_base_command("C:\\tools\\python.exe"), "python");
    assert_eq!(extract_base_command("/usr/bin/node"), "node");
    assert_eq!(extract_base_command("npm.cmd"), "npm");
    assert_eq!(extract_base_command("helper.ps1"), "helper");
}

#[test]
fn check_args_per_tool() {
    assert_eq!(
        get_command_check_args("git"),
        Some(vec!["git".to_string(), "--version".to_string()])
    );
    assert_eq!(
        get_command_check_args("npm"),
        Some(vec!["npm".to_string(), "-v".to_string()])
    );
    assert_eq!(
        get_command_check_args("go"),
        Some(vec!["go".to_string(), "version".to_string()])
    );
    assert_eq!(
        get_command_check_args("/usr/local/bin/cargo"),
        Some(vec!["/usr/local/bin/cargo".to_string(), "--version".to_string()])
    );
    assert_eq!(get_command_check_args("made-up-tool"), None);
}

#[test]
fn absolute_programs_resolve_verbatim() {
    assert_eq!(resolve_command_path("/work", "/usr/bin/git"), "/usr/bin/git");
    assert_eq!(resolve_command_path("/work", "C:\\git.exe"), "C:\\git.exe");
    assert_eq!(resolve_command_path("/work", "git"), "git");
    assert_eq!(
        resolve_command_path("/no-such-dir-for-uwais-tests", "sub/never-there"),
        "sub/never-there"
    );
}

#[test]
fn prepare_command_refuses_empty_input() {
    let empty: Vec<String> = vec![];
    assert!(matches!(
        prepare_command(".", ".", &empty),
        Err(m) if m == "The command array is empty"
    ));
    let blank = vec!["   ".to_string(), "x".to_string()];
    assert!(matches!(
        prepare_command(".", ".", &blank),
        Err(m) if m == "The command name is empty"
    ));
}

#[test]
fn prepare_command_passes_arguments_through() {
    let cmd = vec!["echo".to_string(), "one".to_string(), "two".to_string()];
    let plan = prepare_command(".", ".", &cmd).unwrap();
    assert_eq!(plan.args, vec!["one".to_string(), "two".to_string()]);
    assert_eq!(plan.program, "echo");
    assert!(!plan.dir.is_empty());
}

#[test]
fn structure_versions_and_parts() {
    assert!(Version::V4.is_valid());
    assert_eq!(Version::V4.as_str(), "v4");
    assert_eq!(Version::V4.name(), "v4");
    assert_eq!(Version::V4.dir_name(), "v4");

    assert!(Part::Common.is_valid());
    assert!(!Part::Unknown.is_valid());
    assert_eq!(Part::Common.dir_name(), "common");
    assert_eq!(Part::Domain.dir_name(), "domain");
    assert_eq!(Part::Feature.dir_name(), "features");
    assert_eq!(Part::Common.json_key(), "commons");
    assert_eq!(Part::Domain.json_key(), "domains");
    assert_eq!(Part::Feature.json_key(), "features");
    assert_eq!(Part::Unknown.json_key(), "");
}

#[test]
fn partial_paths_and_validity() {
    let p = Partial::new(Version::V4, Part::Feature);
    assert!(p.is_valid());
    assert_eq!(p.get_dir(), "features");
    assert!(!Partial::new(Version::V4, Part::Unknown).is_valid());
    assert_eq!(
        p.feature_dependency_file("/src-root", "auth"),
        Ok("/src-root/features/auth/dependency.json".to_string())
    );
    assert_eq!(
        p.feature_dependency_file("/src-root", "  "),
        Err("Feature name cannot be empty".to_string())
    );
}

#[test]
fn language_kinds() {
    assert!(LangKind::Go.is_valid());
    assert!(LangKind::Rust.is_valid());
    assert!(!LangKind::Unknown.is_valid());
    assert_eq!(LangKind::default(), LangKind::Unknown);
}
