use windowautolayout::launcher::{
    app_path_names, clean_registry_path, dedupe_candidates, has_path_separator,
    installed_name_matches, is_shell_item, known_install_candidates, normalize_name,
    newest_first, path_search_candidates, replace_env_token, shortcut_matches,
    version_folder_executable, CandidateSource, FoundVersion, LaunchEnvironment, LaunchTarget,
};
use windowautolayout::models::{AppConfig, LayoutRect, WindowStatePreference};

fn app(display_name: &str, process_name: &str) -> AppConfig {
    AppConfig {
        id: "app".into(),
        display_name: display_name.into(),
        executable_path: None,
        arguments: vec![],
        working_directory: None,
        process_name: Some(process_name.into()),
        title_rule: None,
        class_name: None,
        target_monitor_id: None,
        captured_display: None,
        layout: LayoutRect::default(),
        window_state: WindowStatePreference::Normal,
        launch_delay_seconds: 0,
        detection_timeout_seconds: 1,
        retry_interval_ms: 100,
        move_if_running: true,
        force_resize: true,
        apply_to_all_matching_windows: false,
        restore_if_minimized: true,
        pull_hidden_windows: true,
        wake_running_process: true,
        allow_empty_title: false,
        notes: None,
    }
}

fn env() -> LaunchEnvironment {
    LaunchEnvironment {
        vars: vec![
            ("LOCALAPPDATA".into(), r"C:\Users\me\AppData\Local".into()),
            ("APPDATA".into(), r"C:\Users\me\AppData\Roaming".into()),
            ("ProgramFiles".into(), r"C:\Program Files".into()),
        ],
    }
}

fn paths(candidates: &[CandidateSource]) -> Vec<String> {
    candidates
        .iter()
        .map(|candidate| match candidate {
            CandidateSource::Target(target) => target.path.clone(),
            CandidateSource::SquirrelScan { root, .. } => root.clone(),
        })
        .collect()
}

#[test]
fn app_path_names_adds_exe_extension() {
    assert_eq!(app_path_names("GitHubDesktop"), vec!["GitHubDesktop", "GitHubDesktop.exe"]);
    assert_eq!(app_path_names("GitHubDesktop.exe"), vec!["GitHubDesktop.exe"]);
}

#[test]
fn known_candidates_include_github_desktop_squirrel_folder() {
    let candidates =
        known_install_candidates(&app("GitHub Desktop", "GitHubDesktop.exe"), "GitHubDesktop.exe", &env());
    assert!(paths(&candidates)
        .iter()
        .any(|path| path.to_ascii_lowercase().contains("githubdesktop")));
}

#[test]
fn start_menu_match_accepts_display_name_or_process_stem() {
    assert!(installed_name_matches("GitHub Desktop", &app("GitHub", "GitHubDesktop.exe"), "GitHubDesktop.exe"));
    assert!(!installed_name_matches("GitHub CLI", &app("GitHub", "GitHubDesktop.exe"), "GitHubDesktop.exe"));
}

#[test]
fn github_aliases_use_desktop_install_candidates() {
    let candidates = known_install_candidates(&app("GitHub", "GitHub.exe"), "GitHub.exe", &env());
    assert!(paths(&candidates)
        .iter()
        .any(|path| path.to_ascii_lowercase().contains("githubdesktop")));
}

#[test]
fn known_candidates_list_install_folders_in_order() {
    let candidates = known_install_candidates(&app("OBS", "obs64.exe"), "obs64.exe", &env());
    let found = paths(&candidates);
    assert_eq!(found[0], r"C:\Users\me\AppData\Local\OBS\obs64.exe");
    assert_eq!(found[1], r"C:\Users\me\AppData\Local\Programs\OBS\obs64.exe");
    assert_eq!(found[2], r"C:\Users\me\AppData\Local\OBS");
    assert_eq!(found.last().map(String::as_str), Some(r"C:\Program Files\obs-studio\bin\64bit\obs64.exe"));
}

#[test]
fn environment_tokens_expand_ignoring_case() {
    assert_eq!(
        replace_env_token(r"%localappdata%\App\%LOCALAPPDATA%", "LOCALAPPDATA", "L"),
        r"L\App\L"
    );
    assert_eq!(replace_env_token("no tokens", "X", "Y"), "no tokens");
}

#[test]
fn registry_paths_lose_icon_indexes_and_quotes() {
    assert_eq!(clean_registry_path(r#""C:\Apps\Tool.exe",0"#), r"C:\Apps\Tool.exe");
    assert_eq!(clean_registry_path(r"  C:\Apps\Tool.exe  "), r"C:\Apps\Tool.exe");
}

#[test]
fn shortcuts_match_by_normalized_stem() {
    let targets = vec![normalize_name("GitHub Desktop"), normalize_name("GitHubDesktop")];
    assert!(shortcut_matches(r"C:\Start\GitHub Desktop.lnk", &targets));
    assert!(!shortcut_matches(r"C:\Start\GitHub Desktop.exe", &targets));
    assert!(is_shell_item(r"C:\Start\Site.URL"));
}

#[test]
fn duplicate_targets_are_dropped_ignoring_path_case() {
    let a = LaunchTarget { path: r"C:\A.exe".into(), arguments: Vec::new(), use_shell: false };
    let b = LaunchTarget { path: r"c:\a.EXE".into(), arguments: Vec::new(), use_shell: false };
    let c = LaunchTarget { path: r"C:\A.exe".into(), arguments: Vec::new(), use_shell: true };
    let unique = dedupe_candidates(vec![a.clone(), b, c.clone()]);
    assert_eq!(unique, vec![a, c]);
}

#[test]
fn bare_names_are_searched_on_path() {
    assert!(!has_path_separator("tool.exe"));
    assert!(has_path_separator(r"C:\bin\tool.exe"));
    assert_eq!(
        path_search_candidates(r"C:\bin; ;D:\tools\", "tool.exe"),
        vec![r"C:\bin\tool.exe".to_string(), r"D:\tools\tool.exe".to_string()]
    );
}

#[test]
fn finds_executables_only_in_version_folders() {
    assert_eq!(
        version_folder_executable("C:\\Users\\A\\AppData\\Local\\Discord", "app-1.0.9", "Discord.exe"),
        Some("C:\\Users\\A\\AppData\\Local\\Discord\\app-1.0.9\\Discord.exe".to_string())
    );
    assert_eq!(
        version_folder_executable("C:\\Apps\\Discord", "App-2.0", "Discord.exe"),
        Some("C:\\Apps\\Discord\\App-2.0\\Discord.exe".to_string())
    );
    assert_eq!(version_folder_executable("C:\\Apps\\Discord", "packages", "Discord.exe"), None);
}

#[test]
fn orders_found_versions_newest_first() {
    let found = vec![
        FoundVersion { modified: Some(10), path: "old".into() },
        FoundVersion { modified: None, path: "unknown".into() },
        FoundVersion { modified: Some(30), path: "newest".into() },
        FoundVersion { modified: Some(20), path: "middle".into() },
    ];
    let ordered: Vec<String> = newest_first(found).into_iter().map(|v| v.path).collect();
    assert_eq!(ordered, vec!["newest", "middle", "old", "unknown"]);
}

#[test]
fn versions_of_the_same_age_keep_their_order() {
    let found = vec![
        FoundVersion { modified: None, path: "first-unknown".into() },
        FoundVersion { modified: Some(5), path: "first".into() },
        FoundVersion { modified: None, path: "second-unknown".into() },
        FoundVersion { modified: Some(5), path: "second".into() },
    ];
    let ordered: Vec<String> = newest_first(found).into_iter().map(|v| v.path).collect();
    assert_eq!(ordered, vec!["first", "second", "first-unknown", "second-unknown"]);
}
