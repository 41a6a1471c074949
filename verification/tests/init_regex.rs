use hank::init::InitResponses;

// Unix-only path validation
#[test]
fn test_validate_unix_path_regex() {
    // (input, should_match)
    let cases: &[(&str, bool)] = &[
        // valid — home / absolute / relative
        ("/", true),
        ("/usr/local/bin", true),
        ("/etc/", true),
        ("~/.config", true),
        ("~/Documents/projects/", true),
        ("~alice/work", true), // ~user form
        ("./src", true),
        ("../tests/fixtures", true),
        ("node_modules/.bin", true),
        ("home/user/.ssh/", true),
        // invalid
        ("", false),          // empty
        ("//etc", false),     // leading double slash
        ("/foo//bar", false), // double slash mid-path
        ("foo bar/", false),  // space not in [\w.-]
        ("~~/x", false),      // ~ not allowed mid-name
    ];

    for &(input, expected) in cases {
        let got = InitResponses::regex_unix_path(&input.to_string());
        assert_eq!(got, expected, "{input:?}: expected {expected}, got {got}");
    }
}

// GitHub username validation
#[test]
fn test_validate_github_username_regex() {
    // (input, should_match)
    let cases: &[(&str, bool)] = &[
        ("john", true),
        ("john-smith", true),
        ("a", true),
        ("user123", true),
        ("user-name", true),
        ("something-like-a-really-long-username-1", true),
        ("", false),
        ("-starts", false),
        ("ends-", false),
        ("@john", false),
        ("john--doe", false),
        ("john_doe", false),
        ("john.doe", false),
        ("john_doe!", false),
    ];

    for &(input, expected) in cases {
        let got = !input.is_empty()
            && input.len() <= 39
            && InitResponses::regex_gh_username(&input.to_string());
        assert_eq!(
            got, expected,
            "{:?}: expected {}, got {}",
            input, expected, got
        );
    }

    // Too long (>39 chars) should be invalid
    let long = "a".repeat(40);
    assert!(
        !InitResponses::regex_gh_username(&long.to_string()),
        "40 'a's should be invalid"
    );
}
