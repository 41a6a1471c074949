use hank::configs::{
    all_potential_paths, config_files, configs_from_paths, existing, present_at, select_present, Base, ConfigFile,
    XdgVars,
};
use hank::text::join_path;
use hank::utils::{parent_to_create, path_exists};

fn no_xdg() -> XdgVars {
    XdgVars { config_home: None, data_home: None }
}

#[test]
fn base_labels() {
    assert_eq!(Base::Home.label(), "~");
    assert_eq!(Base::XdgConfig.label(), "~/.config");
    assert_eq!(Base::XdgData.to_string(), "~/.local/share");
    assert_eq!(Base::Etc.to_string(), "/etc");
}

#[test]
fn catalog_contents() {
    let files = config_files();
    assert_eq!(files.len(), 84);
    assert_eq!(files[0], ConfigFile { tool: "bash", base: Base::Home, path: ".bashrc" });
    assert_eq!(files[83], ConfigFile { tool: "os-release", base: Base::Etc, path: "os-release" });
    // The catalogue answers "contains" questions about paths.
    assert!(files.iter().any(|c| c.path == "fish/config.fish"));
    let git_home = files.iter().find(|c| c.tool == "git" && c.base == Base::Home).unwrap();
    assert_eq!(git_home.path, ".gitconfig");
}

#[test]
fn potential_paths_follow_catalog() {
    let paths = all_potential_paths();
    let files = config_files();
    assert_eq!(paths.len(), files.len());
    for (p, c) in paths.iter().zip(files.iter()) {
        assert_eq!(*p, c.path);
    }
    assert!(paths.contains(&".gitconfig"));
}

#[test]
fn configs_from_paths_keeps_order_and_skips_unknown() {
    let chosen = configs_from_paths(vec![
        "nvim/init.lua".to_string(),
        "not/a/config".to_string(),
        ".bashrc".to_string(),
    ]);
    assert_eq!(
        chosen,
        vec![
            ConfigFile { tool: "nvim", base: Base::XdgConfig, path: "nvim/init.lua" },
            ConfigFile { tool: "bash", base: Base::Home, path: ".bashrc" },
        ]
    );
    assert!(configs_from_paths(vec![]).is_empty());
}

#[test]
fn all_paths_round_trip() {
    let paths: Vec<String> = all_potential_paths().iter().map(|p| p.to_string()).collect();
    assert_eq!(configs_from_paths(paths), config_files());
}

#[test]
fn concatenated_lookups_agree() {
    let a = vec!["hosts".to_string(), "zzz".to_string()];
    let b = vec![".zshrc".to_string()];
    let mut ab = a.clone();
    ab.extend(b.clone());
    let mut separate = configs_from_paths(a);
    separate.extend(configs_from_paths(b));
    assert_eq!(configs_from_paths(ab), separate);
}

#[test]
fn join_path_cases() {
    assert_eq!(join_path("/home/u", ".bashrc"), "/home/u/.bashrc");
    assert_eq!(join_path("/home/u/", ".bashrc"), "/home/u/.bashrc");
    assert_eq!(join_path("", "x"), "x");
    assert_eq!(join_path("/a", "/b"), "/b");
    assert_eq!(join_path("/a", ""), "/a/");
}

#[test]
fn resolve_with_each_base() {
    let home = Some("/home/u".to_string());
    let bashrc = ConfigFile { tool: "bash", base: Base::Home, path: ".bashrc" };
    let nvim = ConfigFile { tool: "nvim", base: Base::XdgConfig, path: "nvim/init.lua" };
    let data = ConfigFile { tool: "t", base: Base::XdgData, path: "t/db" };
    let hosts = ConfigFile { tool: "hosts", base: Base::Etc, path: "hosts" };

    assert_eq!(bashrc.resolve_with(&home, &no_xdg()), Some("/home/u/.bashrc".to_string()));
    assert_eq!(bashrc.resolve_with(&None, &no_xdg()), None);
    assert_eq!(hosts.resolve_with(&None, &no_xdg()), Some("/etc/hosts".to_string()));
    assert_eq!(nvim.resolve_with(&home, &no_xdg()), Some("/home/u/.config/nvim/init.lua".to_string()));
    assert_eq!(data.resolve_with(&home, &no_xdg()), Some("/home/u/.local/share/t/db".to_string()));

    let set = XdgVars { config_home: Some("/xdg/cfg".to_string()), data_home: Some("/xdg/data/".to_string()) };
    assert_eq!(nvim.resolve_with(&None, &set), Some("/xdg/cfg/nvim/init.lua".to_string()));
    assert_eq!(data.resolve_with(&None, &set), Some("/xdg/data/t/db".to_string()));

    // Empty or relative values are ignored.
    let bad = XdgVars { config_home: Some("relative/cfg".to_string()), data_home: Some(String::new()) };
    assert_eq!(nvim.resolve_with(&home, &bad), Some("/home/u/.config/nvim/init.lua".to_string()));
    assert_eq!(data.resolve_with(&home, &bad), Some("/home/u/.local/share/t/db".to_string()));
    assert_eq!(nvim.resolve_with(&None, &bad), None);
}

#[test]
fn resolve_without_home_lookup() {
    let hosts = ConfigFile { tool: "hosts", base: Base::Etc, path: "hosts" };
    assert_eq!(hosts.resolve(&no_xdg()), Some("/etc/hosts".to_string()));
    let nvim = ConfigFile { tool: "nvim", base: Base::XdgConfig, path: "nvim/init.lua" };
    let set = XdgVars { config_home: Some("/cfg".to_string()), data_home: None };
    assert_eq!(nvim.resolve(&set), Some("/cfg/nvim/init.lua".to_string()));
}

#[test]
fn resolve_home_entry_ends_with_path() {
    let bashrc = ConfigFile { tool: "bash", base: Base::Home, path: ".bashrc" };
    if let Some(p) = bashrc.resolve(&no_xdg()) {
        assert!(p.ends_with("/.bashrc"));
    }
}

#[test]
fn disk_checks() {
    assert!(path_exists("/"));
    assert!(!path_exists("/definitely/not/a/real/path/for/hank"));
    let missing = ConfigFile { tool: "x", base: Base::Etc, path: "definitely-not-here-hank" };
    assert!(!missing.exists_on_disk(&no_xdg()));
    let unresolvable = ConfigFile { tool: "x", base: Base::XdgConfig, path: "x" };
    let _ = unresolvable.exists_on_disk(&no_xdg());
}

#[test]
fn existing_is_part_of_catalog_in_order() {
    let found = existing(&no_xdg());
    let files = config_files();
    let mut next = 0;
    for c in &found {
        let at = files[next..].iter().position(|f| f == c).expect("entry from the catalogue");
        next += at + 1;
    }
}

#[test]
fn parent_directory_to_create() {
    assert_eq!(parent_to_create("/a/b/c.json"), Some("/a/b".to_string()));
    assert_eq!(parent_to_create("dir/meta.json"), Some("dir".to_string()));
    assert_eq!(parent_to_create("meta.json"), None);
    assert_eq!(parent_to_create("/"), None);
    assert_eq!(parent_to_create(""), None);
}

#[test]
fn select_present_keeps_flagged_entries() {
    let files = config_files();
    let mut present = vec![false; files.len()];
    present[3] = true;
    present[0] = true;
    present[83] = true;
    assert_eq!(select_present(&files, &present), vec![files[0], files[3], files[83]]);
    assert!(select_present(&files, &vec![false; files.len()]).is_empty());
    assert_eq!(select_present(&files, &vec![true; files.len()]), files);
}

#[test]
fn found_paths_round_trip() {
    let found = existing(&no_xdg());
    let paths: Vec<String> = found.iter().map(|c| c.path.to_string()).collect();
    assert_eq!(configs_from_paths(paths), found);
}

#[test]
fn etc_entries_found_exactly_when_on_disk() {
    let found = existing(&no_xdg());
    for c in config_files().iter().filter(|c| c.base == Base::Etc) {
        let on_disk = path_exists(&format!("/etc/{}", c.path));
        assert_eq!(found.contains(c), on_disk, "{}", c.path);
    }
}

#[test]
fn presence_of_resolved_paths() {
    assert!(!present_at(&None));
    assert!(present_at(&Some("/".to_string())));
    assert!(!present_at(&Some("/definitely/not/a/real/path/for/hank".to_string())));
}
