use uwais::git::{
    archive_temp_filename, default_branches, format_github_archive_url, git_availability,
    git_clone_outcome, git_clone_plan, github_archive_urls, is_git_common_url, is_git_ssh_url,
    is_valid_git_url,
};
use uwais::http::{download_plan, fetch_release_info, HttpError};

#[test]
fn web_vcs_locators_are_recognised() {
    assert!(is_git_common_url("https://github.com/u/r.git"));
    assert!(is_git_common_url("http://example.org/r.git"));
    assert!(!is_git_common_url("https://github.com/u/r"));
    assert!(!is_git_common_url("git@github.com:u/r.git"));
    assert!(!is_git_common_url("ftp://example.org/r.git"));
}

#[test]
fn ssh_vcs_locators_are_recognised() {
    assert!(is_git_ssh_url("git@github.com:u/r.git"));
    assert!(!is_git_ssh_url("git@github.com:u/r"));
    assert!(!is_git_ssh_url("https://github.com/u/r.git"));
}

#[test]
fn either_vcs_form_is_valid() {
    assert!(is_valid_git_url("https://github.com/u/r.git"));
    assert!(is_valid_git_url("git@github.com:u/r.git"));
    assert!(!is_valid_git_url("/local/path"));
}

#[test]
fn archive_url_for_a_hosted_repository() {
    assert_eq!(
        format_github_archive_url("https://github.com/u/r.git", "master"),
        "https://github.com/u/r/archive/refs/heads/master.zip"
    );
    assert_eq!(
        format_github_archive_url("https://github.com/u/r.git/", "main"),
        "https://github.com/u/r/archive/refs/heads/main.zip"
    );
    assert_eq!(format_github_archive_url("https://gitlab.com/u/r.git", "main"), "");
}

#[test]
fn archive_candidates_try_master_then_main() {
    let urls = github_archive_urls("https://github.com/u/r.git");
    assert_eq!(
        urls,
        vec![
            "https://github.com/u/r/archive/refs/heads/master.zip".to_string(),
            "https://github.com/u/r/archive/refs/heads/main.zip".to_string(),
        ]
    );
    assert!(github_archive_urls("https://gitlab.com/u/r.git").is_empty());
    assert_eq!(default_branches(), vec!["master".to_string(), "main".to_string()]);
    assert_eq!(archive_temp_filename(), ".uwais-tmp-downloaded-repo.zip");
}

#[test]
fn clone_plan_gives_the_client_its_arguments() {
    let args = git_clone_plan("https://github.com/u/r.git", "/tmp/out-dir").unwrap();
    assert_eq!(
        args,
        vec![
            "git".to_string(),
            "clone".to_string(),
            "https://github.com/u/r.git".to_string(),
            "out-dir".to_string(),
        ]
    );
}

#[test]
fn clone_plan_refuses_bad_inputs() {
    assert_eq!(
        git_clone_plan("not-a-url", "/tmp/out"),
        Err("Invalid Git URL: not-a-url".to_string())
    );
    assert_eq!(
        git_clone_plan("https://github.com/u/r.git", "/"),
        Err("Git repository output path cannot be empty".to_string())
    );
}

#[test]
fn clone_plan_ignores_a_trailing_separator() {
    let args = git_clone_plan("https://github.com/u/r.git", "/tmp/out-dir/").unwrap();
    assert_eq!(args[3], "out-dir");
}

#[test]
fn clone_counts_as_success_exactly_when_the_directory_appeared() {
    assert_eq!(git_clone_outcome("out", true), Ok(()));
    assert_eq!(
        git_clone_outcome("out", false),
        Err("Git repository was not cloned successfully to out".to_string())
    );
}

#[test]
fn an_absent_client_is_its_own_error() {
    assert_eq!(git_availability(true), Ok(()));
    assert_eq!(
        git_availability(false),
        Err("Git is not installed or is not available in PATH".to_string())
    );
}

#[test]
fn http_error_descriptions() {
    assert_eq!(
        HttpError::Network("down".to_string()).to_string(),
        "Network error: down"
    );
    assert_eq!(
        HttpError::FileSystem("full".to_string()).to_string(),
        "File system error: full"
    );
    assert_eq!(
        HttpError::InvalidResponse("junk".to_string()).to_string(),
        "Invalid response: junk"
    );
    assert_eq!(
        HttpError::RequestFailed(404, "missing".to_string()).to_string(),
        "HTTP request failed with status code 404: missing"
    );
    assert_eq!(
        HttpError::RequestFailed(0, "odd".to_string()).to_string(),
        "HTTP request failed with status code 0: odd"
    );
}

#[test]
fn fetch_refuses_a_blank_address() {
    match fetch_release_info("   ") {
        Err(HttpError::InvalidResponse(m)) => assert_eq!(m, "URL cannot be empty"),
        _ => panic!("a blank address must be refused before any request"),
    }
}

#[test]
fn fetch_from_an_unreachable_service_is_a_network_error() {
    match fetch_release_info("http://127.0.0.1:1/release") {
        Err(HttpError::Network(_)) => {}
        other => panic!("an unreachable service must give a network error, got {:?}", other.err().map(|e| e.to_string())),
    }
}

#[test]
fn download_plan_refuses_bad_inputs() {
    match download_plan("  ", "out.bin") {
        Err(HttpError::InvalidResponse(m)) => assert_eq!(m, "URL cannot be empty"),
        _ => panic!("a blank address must be refused"),
    }
    match download_plan("https://example.com/f", "") {
        Err(HttpError::FileSystem(m)) => assert_eq!(m, "Output file path cannot be empty"),
        _ => panic!("an empty output path must be refused"),
    }
    match download_plan("https://example.com/f", ".") {
        Err(HttpError::FileSystem(m)) => {
            assert_eq!(m, "File or directory already exists: .");
        }
        _ => panic!("an existing output path must be refused"),
    }
}

#[test]
fn download_plan_names_the_parent_to_create() {
    let step = download_plan(
        "https://example.com/f",
        "/no-such-dir-for-uwais-tests/inner/out.bin",
    )
    .unwrap();
    assert_eq!(step.url, "https://example.com/f");
    assert_eq!(step.path, "/no-such-dir-for-uwais-tests/inner/out.bin");
    assert_eq!(step.create_parent, Some("/no-such-dir-for-uwais-tests/inner".to_string()));

    let flat = download_plan("https://example.com/f", "fresh-file-for-uwais-tests.bin").unwrap();
    assert_eq!(flat.create_parent, None);
}
