use nvmd_shim::error::{Error, ExitReport, IntoResult};
use nvmd_shim::layout::{get_binary_bin_path, get_bin_path};
use nvmd_shim::paths::{bin_dir, join_path, Platform};
use nvmd_shim::prefix::{get_npm_prefix, PrefixLine};
use nvmd_shim::search_path::{get_env_path, has_char, join_search_path};
use nvmd_shim::settings::{
    default_home_dir, get_default_installtion_path, get_installtion_path, get_nvmd_path,
    installation_root_from_document, JsonDocument, JsonField,
};
use nvmd_shim::version::get_version;

const HOME: &str = "/home/u/.nvmd";
const DEFAULT_ROOT: &str = "/home/u/.nvmd/versions";

fn root_of(content: Option<&str>) -> String {
    get_installtion_path(HOME, content.map(String::from), Platform::Posix)
}

fn strings(v: &[&str]) -> Vec<String> {
    v.iter().map(|s| s.to_string()).collect()
}

#[test]
fn settings_directory_is_used_unmodified() {
    assert_eq!(root_of(Some(r#"{"directory": "/opt/node versions/"}"#)), "/opt/node versions/");
    assert_eq!(root_of(Some(r#"{"theme": 1, "directory": "D:\\nvmd"}"#)), "D:\\nvmd");
}

#[test]
fn missing_settings_give_default_root() {
    assert_eq!(root_of(None), DEFAULT_ROOT);
}

#[test]
fn empty_settings_give_default_root() {
    assert_eq!(root_of(Some("")), DEFAULT_ROOT);
}

#[test]
fn invalid_json_gives_default_root() {
    assert_eq!(root_of(Some("{directory: ")), DEFAULT_ROOT);
}

#[test]
fn non_object_json_gives_default_root() {
    assert_eq!(root_of(Some(r#"["/opt/node"]"#)), DEFAULT_ROOT);
    assert_eq!(root_of(Some(r#""/opt/node""#)), DEFAULT_ROOT);
    assert_eq!(root_of(Some("null")), DEFAULT_ROOT);
}

#[test]
fn object_without_directory_gives_default_root() {
    assert_eq!(root_of(Some(r#"{"dir": "/opt/node"}"#)), DEFAULT_ROOT);
}

#[test]
fn non_string_directory_gives_default_root() {
    assert_eq!(root_of(Some(r#"{"directory": 5}"#)), DEFAULT_ROOT);
    assert_eq!(root_of(Some(r#"{"directory": null}"#)), DEFAULT_ROOT);
    assert_eq!(root_of(Some(r#"{"directory": {"path": "/x"}}"#)), DEFAULT_ROOT);
}

#[test]
fn document_directory_is_read_from_members() {
    let doc = JsonDocument::Object(vec![
        JsonField { key: "other".to_string(), text: Some("/no".to_string()) },
        JsonField { key: "directory".to_string(), text: Some("/yes".to_string()) },
    ]);
    assert_eq!(installation_root_from_document(&doc, "/def"), "/yes");
    let doc = JsonDocument::Object(vec![JsonField { key: "directory".to_string(), text: None }]);
    assert_eq!(installation_root_from_document(&doc, "/def"), "/def");
    assert_eq!(installation_root_from_document(&JsonDocument::NotObject, "/def"), "/def");
    assert_eq!(installation_root_from_document(&JsonDocument::Malformed, "/def"), "/def");
}

#[test]
fn default_root_is_versions_under_home() {
    assert_eq!(get_default_installtion_path(HOME, Platform::Posix), DEFAULT_ROOT);
    assert_eq!(get_default_installtion_path("C:\\Users\\u\\.nvmd", Platform::Windows), "C:\\Users\\u\\.nvmd\\versions");
    assert_eq!(get_default_installtion_path("", Platform::Posix), "versions");
}

#[test]
fn tool_home_is_under_user_home() {
    assert_eq!(default_home_dir(Some("/home/u".to_string()), Platform::Posix), Some(HOME.to_string()));
    assert_eq!(default_home_dir(Some("/".to_string()), Platform::Posix), Some("/.nvmd".to_string()));
    assert_eq!(default_home_dir(None, Platform::Posix), None);
    let p = get_nvmd_path(Platform::Posix);
    assert!(p.is_empty() || p.ends_with("/.nvmd"));
}

#[test]
fn project_version_file_wins() {
    let v = get_version(Some("18.16.0".to_string()), Some("20.0.0".to_string()));
    assert_eq!(v, "18.16.0");
    let v = get_version(Some("18.16.0".to_string()), None);
    assert_eq!(v, "18.16.0");
}

#[test]
fn global_default_used_without_project_file() {
    assert_eq!(get_version(None, Some("20.0.0".to_string())), "20.0.0");
    assert_eq!(get_version(Some(String::new()), Some("20.0.0".to_string())), "20.0.0");
}

#[test]
fn no_version_files_give_empty_version() {
    assert_eq!(get_version(None, None), "");
}

#[test]
fn version_text_is_not_trimmed() {
    assert_eq!(get_version(Some("18.16.0\n".to_string()), None), "18.16.0\n");
}

#[test]
fn bin_paths_follow_platform_layout() {
    assert_eq!(get_bin_path(DEFAULT_ROOT, "18.16.0", Platform::Posix), "/home/u/.nvmd/versions/18.16.0/bin");
    assert_eq!(get_bin_path("C:\\nvmd\\", "18.16.0", Platform::Windows), "C:\\nvmd\\18.16.0");
    assert_eq!(get_bin_path(DEFAULT_ROOT, "", Platform::Posix), "");
    assert_eq!(get_binary_bin_path("/usr/local", Platform::Posix), "/usr/local/bin");
    assert_eq!(get_binary_bin_path("C:\\npm", Platform::Windows), "C:\\npm");
    assert_eq!(bin_dir("/a/", Platform::Posix), "/a/bin");
    assert_eq!(join_path("a", "b", Platform::Windows), "a\\b");
    assert_eq!(join_path("a/", "b", Platform::Windows), "a/b");
}

#[test]
fn empty_version_gives_no_override() {
    let inherited = Some(strings(&["/usr/bin", "/bin"]));
    let toolchain = get_bin_path(DEFAULT_ROOT, "", Platform::Posix);
    let binary = get_binary_bin_path("/usr/local", Platform::Posix);
    assert_eq!(get_env_path("", &toolchain, true, inherited.clone(), Platform::Posix), "");
    assert_eq!(get_env_path("", &binary, true, inherited, Platform::Posix), "");
}

#[test]
fn existing_bin_dir_is_prepended() {
    let dir = get_bin_path(DEFAULT_ROOT, "18.16.0", Platform::Posix);
    assert_eq!(dir, "/home/u/.nvmd/versions/18.16.0/bin");
    let inherited = Some(strings(&["/usr/bin", "/bin", "/usr/bin"]));
    assert_eq!(
        get_env_path("18.16.0", &dir, true, inherited, Platform::Posix),
        "/home/u/.nvmd/versions/18.16.0/bin:/usr/bin:/bin:/usr/bin"
    );
}

#[test]
fn missing_bin_dir_gives_no_override() {
    let dir = get_bin_path(DEFAULT_ROOT, "18.16.0", Platform::Posix);
    let inherited = Some(strings(&["/usr/bin", "/bin"]));
    assert_eq!(get_env_path("18.16.0", &dir, false, inherited, Platform::Posix), "");
}

#[test]
fn absent_path_variable_gives_dir_alone() {
    assert_eq!(get_env_path("18.16.0", "/v/bin", true, None, Platform::Posix), "/v/bin");
}

#[test]
fn unjoinable_entry_gives_no_override() {
    let inherited = Some(strings(&["/usr/bin"]));
    assert_eq!(get_env_path("1", "/a:b", true, inherited, Platform::Posix), "");
    let inherited = Some(strings(&["C:\\x\"y"]));
    assert_eq!(get_env_path("1", "C:\\v", true, inherited, Platform::Windows), "");
}

#[test]
fn windows_list_quotes_entries_with_separator() {
    let r = join_search_path(&strings(&["C:\\v", "C:\\a;b", "D:\\"]), Platform::Windows);
    assert_eq!(r, Some("C:\\v;\"C:\\a;b\";D:\\".to_string()));
    assert_eq!(join_search_path(&Vec::new(), Platform::Posix), Some(String::new()));
    assert_eq!(join_search_path(&strings(&["", ""]), Platform::Posix), Some(":".to_string()));
    assert!(has_char("a;b", ';'));
    assert!(!has_char("ab", ';'));
}

#[test]
fn prefix_probe_skips_notice_lines() {
    let lines = vec![
        PrefixLine { text: "npm notice ...".to_string(), is_dir: false },
        PrefixLine { text: "/usr/local".to_string(), is_dir: true },
    ];
    assert_eq!(get_npm_prefix(&lines), "/usr/local");
    let lines = vec![
        PrefixLine { text: "npm notice ...".to_string(), is_dir: false },
        PrefixLine { text: "/usr/local".to_string(), is_dir: false },
    ];
    assert_eq!(get_npm_prefix(&lines), "");
}

#[test]
fn prefix_probe_keeps_last_directory_line() {
    let lines = vec![
        PrefixLine { text: "/first".to_string(), is_dir: true },
        PrefixLine { text: "/second".to_string(), is_dir: true },
        PrefixLine { text: "npm warn later".to_string(), is_dir: false },
    ];
    assert_eq!(get_npm_prefix(&lines), "/second");
    assert_eq!(get_npm_prefix(&Vec::new()), "");
}

#[test]
fn prefix_probe_checks_real_directories() {
    let output = "npm notice ...\n/\n";
    let lines: Vec<PrefixLine> = output
        .lines()
        .map(|l| PrefixLine { text: l.to_string(), is_dir: std::path::Path::new(l).is_dir() })
        .collect();
    assert_eq!(get_npm_prefix(&lines), "/");
}

#[test]
fn resolving_twice_gives_identical_results() {
    let settings = Some(r#"{"directory": "/opt/n"}"#);
    let first = (
        root_of(settings),
        get_version(Some("18.16.0".to_string()), None),
        get_env_path("18.16.0", "/opt/n/18.16.0/bin", true, Some(strings(&["/bin"])), Platform::Posix),
    );
    let second = (
        root_of(settings),
        get_version(Some("18.16.0".to_string()), None),
        get_env_path("18.16.0", "/opt/n/18.16.0/bin", true, Some(strings(&["/bin"])), Platform::Posix),
    );
    assert_eq!(first, second);
    assert_eq!(first.0, "/opt/n");
    assert_eq!(first.2, "/opt/n/18.16.0/bin:/bin");
}

#[test]
fn exit_outcomes_map_to_errors() {
    let ok: Result<ExitReport, String> = Ok(ExitReport { success: true, code: Some(0) });
    assert!(matches!(ok.into_result(), Ok(())));
    let failed: Result<ExitReport, String> = Ok(ExitReport { success: false, code: Some(3) });
    assert!(matches!(failed.into_result(), Err(Error::Code(3))));
    let killed: Result<ExitReport, String> = Ok(ExitReport { success: false, code: None });
    assert!(matches!(killed.into_result(), Err(Error::Code(1))));
    let unspawned: Result<ExitReport, String> = Err("npm not found".to_string());
    match unspawned.into_result() {
        Err(Error::Message(m)) => assert_eq!(m, "npm not found"),
        _ => panic!("expected a message"),
    }
}
