use hank::configs::{Base, ConfigFile};
use hank::selection::{prompt_items, stable_order};
use hank::text::{chars_lt, chars_of};

#[test]
fn chars_order() {
    assert!(chars_lt(&chars_of("abc"), &chars_of("abd")));
    assert!(chars_lt(&chars_of("ab"), &chars_of("abc")));
    assert!(!chars_lt(&chars_of("abc"), &chars_of("abc")));
    assert!(!chars_lt(&chars_of("b"), &chars_of("abc")));
    assert!(chars_lt(&chars_of(""), &chars_of("a")));
    assert!(chars_lt(&chars_of("Z"), &chars_of("a")));
}

#[test]
fn stable_order_keeps_ties() {
    let keys = vec![chars_of("b"), chars_of("a"), chars_of("b"), chars_of("a"), chars_of("c")];
    assert_eq!(stable_order(&keys), vec![1, 3, 0, 2, 4]);
    assert_eq!(stable_order(&vec![]), Vec::<usize>::new());
}

#[test]
fn items_sorted_by_lowercase_tool() {
    let found = vec![
        ConfigFile { tool: "zsh", base: Base::Home, path: ".zshrc" },
        ConfigFile { tool: "Bash", base: Base::Home, path: ".bashrc" },
        ConfigFile { tool: "bash", base: Base::Etc, path: "bash.bashrc" },
        ConfigFile { tool: "awk", base: Base::XdgConfig, path: "awk/rc" },
    ];
    let items = prompt_items(&found);
    assert_eq!(
        items,
        vec![
            ("awk/rc".to_string(), "awk".to_string(), "~/.config/awk/rc".to_string()),
            (".bashrc".to_string(), "Bash".to_string(), "~/.bashrc".to_string()),
            ("bash.bashrc".to_string(), "bash".to_string(), "/etc/bash.bashrc".to_string()),
            (".zshrc".to_string(), "zsh".to_string(), "~/.zshrc".to_string()),
        ]
    );
}

#[test]
fn items_for_nothing_found() {
    assert!(prompt_items(&vec![]).is_empty());
}
