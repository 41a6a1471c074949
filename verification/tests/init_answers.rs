use hank::init::{
    existing_meta_path, repo_name_or_default, validate_path_input, validate_username_input,
    InitResponses,
};

#[test]
fn username_input_check() {
    assert_eq!(
        validate_username_input(&String::new()),
        Err("Please specify a valid GitHub username.")
    );
    assert_eq!(validate_username_input(&"@john".to_string()), Err("Do not include the @ symbol."));
    assert_eq!(validate_username_input(&"john".to_string()), Ok(()));
    assert_eq!(validate_username_input(&"john-smith".to_string()), Ok(()));
    // Anything that is not a valid GitHub username is refused while typing.
    assert_eq!(
        validate_username_input(&"john_doe".to_string()),
        Err("Please specify a valid GitHub username.")
    );
    assert_eq!(
        validate_username_input(&"john--doe".to_string()),
        Err("Please specify a valid GitHub username.")
    );
    assert_eq!(
        validate_username_input(&"a".repeat(40)),
        Err("Please specify a valid GitHub username.")
    );
}

#[test]
fn path_input_check() {
    assert_eq!(validate_path_input(&String::new()), Err("Please enter a path."));
    assert_eq!(validate_path_input(&"foo bar".to_string()), Err("Please enter a valid path"));
    assert_eq!(validate_path_input(&"~/local/pending/changes".to_string()), Ok(()));
}

#[test]
fn repo_name_default() {
    assert_eq!(repo_name_or_default(String::new()), "dotfiles");
    assert_eq!(repo_name_or_default("configs".to_string()), "configs");
}

#[test]
fn meta_paths() {
    assert_eq!(existing_meta_path("/tmp/p"), "/tmp/p/meta.json");
    assert_eq!(existing_meta_path("/tmp/p/"), "/tmp/p//meta.json");
    let r = InitResponses {
        gh_username: "u".to_string(),
        gh_repo_name: "dotfiles".to_string(),
        local_path: "/tmp/p/".to_string(),
        configs: vec![],
    };
    assert_eq!(r.meta_path(), "/tmp/p/meta.json");
}

#[test]
fn unicode_word_characters_in_paths() {
    assert!(InitResponses::regex_unix_path(&"/home/émile/notes".to_string()));
    assert!(InitResponses::regex_unix_path(&"~/données".to_string()));
    assert!(!InitResponses::regex_unix_path(&"/tmp/☃".to_string()));
    assert!(!InitResponses::regex_unix_path(&"/tmp/a b".to_string()));
}

#[test]
fn path_laws_on_examples() {
    // a trailing slash may be added
    assert!(InitResponses::regex_unix_path(&"~/x".to_string()));
    assert!(InitResponses::regex_unix_path(&"~/x/".to_string()));
    assert!(!InitResponses::regex_unix_path(&"~/x//".to_string()));
    // `//` is the one accepted path with two slashes in a row
    assert!(InitResponses::regex_unix_path(&"//".to_string()));
    assert!(!InitResponses::regex_unix_path(&"///".to_string()));
    // `~` only at the start
    assert!(InitResponses::regex_unix_path(&"~".to_string()));
    assert!(InitResponses::regex_unix_path(&"~/".to_string()));
    assert!(!InitResponses::regex_unix_path(&"a~".to_string()));
}

#[test]
fn github_rules_on_examples() {
    let ok = |s: &str| InitResponses::regex_gh_username(&s.to_string());
    assert!(ok(&"a".repeat(39)));
    assert!(!ok(&"a".repeat(40)));
    assert!(ok("a-b-c"));
    assert!(!ok("a--b"));
    assert!(!ok("-a"));
    assert!(!ok("a-"));
    assert!(!ok("émile"));
    assert!(!ok(""));
}
