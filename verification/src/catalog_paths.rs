//! The relative paths of the catalogue are pairwise distinct.
//!
//! The proof lists the paths in ascending order, checks that neighbours in
//! that list ascend strictly, and maps every catalogue entry to its place in
//! the list and back.

use vstd::prelude::*;

use crate::configs::{ConfigFile, spec_config_files};
use crate::text::{lemma_chars_lt_irreflexive, lemma_chars_lt_transitive, spec_chars_lt};

verus! {

/// The catalogue's relative paths in ascending order.
spec fn spec_sorted_paths() -> Seq<Seq<char>> {
    seq![
        ".Xresources"@,
        ".ackrc"@,
        ".aws/config"@,
        ".aws/credentials"@,
        ".bash_logout"@,
        ".bash_profile"@,
        ".bashrc"@,
        ".cargo/config.toml"@,
        ".condarc"@,
        ".ctags"@,
        ".curlrc"@,
        ".dir_colors"@,
        ".docker/config.json"@,
        ".editorconfig"@,
        ".gemrc"@,
        ".gitconfig"@,
        ".gitignore_global"@,
        ".gnupg/gpg-agent.conf"@,
        ".gnupg/gpg.conf"@,
        ".gvimrc"@,
        ".inputrc"@,
        ".irbrc"@,
        ".kube/config"@,
        ".my.cnf"@,
        ".nanorc"@,
        ".netrc"@,
        ".npmrc"@,
        ".profile"@,
        ".psqlrc"@,
        ".screenrc"@,
        ".ssh/authorized_keys"@,
        ".ssh/config"@,
        ".ssh/known_hosts"@,
        ".terraformrc"@,
        ".tmux.conf"@,
        ".vimrc"@,
        ".wgetrc"@,
        ".xinitrc"@,
        ".xprofile"@,
        ".yarnrc"@,
        ".zlogin"@,
        ".zprofile"@,
        ".zshenv"@,
        ".zshrc"@,
        "alacritty/alacritty.toml"@,
        "atuin/config.toml"@,
        "bash.bashrc"@,
        "bat/config"@,
        "btop/btop.conf"@,
        "crontab"@,
        "environment"@,
        "fish/config.fish"@,
        "fstab"@,
        "gh/config.yml"@,
        "gh/hosts.yml"@,
        "git/config"@,
        "git/ignore"@,
        "group"@,
        "helix/config.toml"@,
        "hosts"@,
        "htop/htoprc"@,
        "i3/config"@,
        "k9s/config.yaml"@,
        "kitty/kitty.conf"@,
        "lazygit/config.yml"@,
        "nginx/nginx.conf"@,
        "nushell/config.nu"@,
        "nvim/init.lua"@,
        "nvim/init.vim"@,
        "os-release"@,
        "passwd"@,
        "pip/pip.conf"@,
        "profile"@,
        "ranger/rc.conf"@,
        "resolv.conf"@,
        "ssh/ssh_config"@,
        "ssh/sshd_config"@,
        "starship.toml"@,
        "sudoers"@,
        "sway/config"@,
        "tmux/tmux.conf"@,
        "wezterm/wezterm.lua"@,
        "yazi/yazi.toml"@,
        "zellij/config.kdl"@
    ]
}

/// For each catalogue entry, the place of its path in [`spec_sorted_paths`].
spec fn spec_path_rank() -> Seq<int> {
    seq![6, 5, 4, 27, 43, 42, 41, 40, 20, 35, 19, 15, 16, 34, 29, 31, 32, 30, 18, 17, 10, 36, 25, 2, 3, 12, 22, 26, 39, 7, 14, 8, 33, 23, 28, 21, 24, 1, 9, 13, 11, 0, 37, 38, 67, 68, 55, 56, 51, 66, 77, 44, 63, 81, 80, 60, 48, 47, 53, 54, 58, 83, 64, 62, 71, 73, 82, 45, 61, 79, 59, 74, 52, 70, 57, 78, 49, 46, 72, 50, 76, 75, 65, 69]
}

/// For each place in [`spec_sorted_paths`], the catalogue entry with that path.
spec fn spec_path_unrank() -> Seq<int> {
    seq![41, 37, 23, 24, 2, 1, 0, 29, 31, 38, 20, 40, 25, 39, 30, 11, 12, 19, 18, 10, 8, 35, 26, 33, 36, 22, 27, 3, 34, 14, 17, 15, 16, 32, 13, 9, 21, 42, 43, 28, 7, 6, 5, 4, 51, 67, 77, 57, 56, 76, 79, 48, 72, 58, 59, 46, 47, 74, 60, 70, 55, 68, 63, 52, 62, 82, 49, 44, 45, 83, 73, 64, 78, 65, 71, 81, 80, 50, 75, 69, 54, 53, 66, 61]
}

/// The first `n` strings of `s` ascend strictly from one to the next.
spec fn sorted_upto(s: Seq<Seq<char>>, n: int) -> bool
    decreases n,
{
    n <= 1 || (spec_chars_lt(s[n - 2], s[n - 1]) && sorted_upto(s, n - 1))
}

/// Entry `k` has its path at its place in `s`, and that place leads back to it.
spec fn matched(cat: Seq<ConfigFile>, s: Seq<Seq<char>>, rank: Seq<int>, unrank: Seq<int>, k: int) -> bool {
    &&& 0 <= rank[k] < s.len()
    &&& cat[k].path@ == s[rank[k]]
    &&& unrank[rank[k]] == k
}

/// The first `n` entries are matched.
spec fn matched_upto(cat: Seq<ConfigFile>, s: Seq<Seq<char>>, rank: Seq<int>, unrank: Seq<int>, n: int) -> bool
    decreases n,
{
    n <= 0 || (matched(cat, s, rank, unrank, n - 1) && matched_upto(cat, s, rank, unrank, n - 1))
}

proof fn lemma_sorted_upto(s: Seq<Seq<char>>, n: int)
    requires
        sorted_upto(s, n),
        n <= s.len(),
    ensures
        forall|a: int, b: int| 0 <= a < b < n ==> spec_chars_lt(s[a], s[b]),
    decreases n,
{
    if n > 1 {
        lemma_sorted_upto(s, n - 1);
        assert forall|a: int, b: int| 0 <= a < b < n implies spec_chars_lt(s[a], s[b]) by {
            if b == n - 1 && a < n - 2 {
                lemma_chars_lt_transitive(s[a], s[n - 2], s[n - 1]);
            }
        }
    }
}

proof fn lemma_matched_upto(cat: Seq<ConfigFile>, s: Seq<Seq<char>>, rank: Seq<int>, unrank: Seq<int>, n: int)
    requires
        matched_upto(cat, s, rank, unrank, n),
    ensures
        forall|k: int| 0 <= k < n ==> #[trigger] matched(cat, s, rank, unrank, k),
    decreases n,
{
    if n > 0 {
        lemma_matched_upto(cat, s, rank, unrank, n - 1);
    }
}

#[verifier::rlimit(100)]
proof fn lemma_sorted_paths_ascend()
    ensures
        sorted_upto(spec_sorted_paths(), 84),
        spec_sorted_paths().len() == 84,
{
    broadcast use vstd::string::group_string_axioms;

    let s = spec_sorted_paths();
    assert(sorted_upto(s, 1));
    assert(spec_chars_lt(s[0], s[1])) by {
        reveal_strlit(".Xresources");
        reveal_strlit(".ackrc");
        reveal_with_fuel(spec_chars_lt, 3);
    }
    assert(sorted_upto(s, 2));
    assert(spec_chars_lt(s[1], s[2])) by {
        reveal_strlit(".ackrc");
        reveal_strlit(".aws/config");
        reveal_with_fuel(spec_chars_lt, 4);
    }
    assert(sorted_upto(s, 3));
    assert(spec_chars_lt(s[2], s[3])) by {
        reveal_strlit(".aws/config");
        reveal_strlit(".aws/credentials");
        reveal_with_fuel(spec_chars_lt, 8);
    }
    assert(sorted_upto(s, 4));
    assert(spec_chars_lt(s[3], s[4])) by {
        reveal_strlit(".aws/credentials");
        reveal_strlit(".bash_logout");
        reveal_with_fuel(spec_chars_lt, 3);
    }
    assert(sorted_upto(s, 5));
    assert(spec_chars_lt(s[4], s[5])) by {
        reveal_strlit(".bash_logout");
        reveal_strlit(".bash_profile");
        reveal_with_fuel(spec_chars_lt, 8);
    }
    assert(sorted_upto(s, 6));
    assert(spec_chars_lt(s[5], s[6])) by {
        reveal_strlit(".bash_profile");
        reveal_strlit(".bashrc");
        reveal_with_fuel(spec_chars_lt, 7);
    }
    assert(sorted_upto(s, 7));
    assert(spec_chars_lt(s[6], s[7])) by {
        reveal_strlit(".bashrc");
        reveal_strlit(".cargo/config.toml");
        reveal_with_fuel(spec_chars_lt, 3);
    }
    assert(sorted_upto(s, 8));
    assert(spec_chars_lt(s[7], s[8])) by {
        reveal_strlit(".cargo/config.toml");
        reveal_strlit(".condarc");
        reveal_with_fuel(spec_chars_lt, 4);
    }
    assert(sorted_upto(s, 9));
    assert(spec_chars_lt(s[8], s[9])) by {
        reveal_strlit(".condarc");
        reveal_strlit(".ctags");
        reveal_with_fuel(spec_chars_lt, 4);
    }
    assert(sorted_upto(s, 10));
    assert(spec_chars_lt(s[9], s[10])) by {
        reveal_strlit(".ctags");
        reveal_strlit(".curlrc");
        reveal_with_fuel(spec_chars_lt, 4);
    }
    assert(sorted_upto(s, 11));
    assert(spec_chars_lt(s[10], s[11])) by {
        reveal_strlit(".curlrc");
        reveal_strlit(".dir_colors");
        reveal_with_fuel(spec_chars_lt, 3);
    }
    assert(sorted_upto(s, 12));
    assert(spec_chars_lt(s[11], s[12])) by {
        reveal_strlit(".dir_colors");
        reveal_strlit(".docker/config.json");
        reveal_with_fuel(spec_chars_lt, 4);
    }
    assert(sorted_upto(s, 13));
    assert(spec_chars_lt(s[12], s[13])) by {
        reveal_strlit(".docker/config.json");
        reveal_strlit(".editorconfig");
        reveal_with_fuel(spec_chars_lt, 3);
    }
    assert(sorted_upto(s, 14));
    assert(spec_chars_lt(s[13], s[14])) by {
        reveal_strlit(".editorconfig");
        reveal_strlit(".gemrc");
        reveal_with_fuel(spec_chars_lt, 3);
    }
    assert(sorted_upto(s, 15));
    assert(spec_chars_lt(s[14], s[15])) by {
        reveal_strlit(".gemrc");
        reveal_strlit(".gitconfig");
        reveal_with_fuel(spec_chars_lt, 4);
    }
    assert(sorted_upto(s, 16));
    assert(spec_chars_lt(s[15], s[16])) by {
        reveal_strlit(".gitconfig");
        reveal_strlit(".gitignore_global");
        reveal_with_fuel(spec_chars_lt, 6);
    }
    assert(sorted_upto(s, 17));
    assert(spec_chars_lt(s[16], s[17])) by {
        reveal_strlit(".gitignore_global");
        reveal_strlit(".gnupg/gpg-agent.conf");
        reveal_with_fuel(spec_chars_lt, 4);
    }
    assert(sorted_upto(s, 18));
    assert(spec_chars_lt(s[17], s[18])) by {
        reveal_strlit(".gnupg/gpg-agent.conf");
        reveal_strlit(".gnupg/gpg.conf");
        reveal_with_fuel(spec_chars_lt, 12);
    }
    assert(sorted_upto(s, 19));
    assert(spec_chars_lt(s[18], s[19])) by {
        reveal_strlit(".gnupg/gpg.conf");
        reveal_strlit(".gvimrc");
        reveal_with_fuel(spec_chars_lt, 4);
    }
    assert(sorted_upto(s, 20));
    assert(spec_chars_lt(s[19], s[20])) by {
        reveal_strlit(".gvimrc");
        reveal_strlit(".inputrc");
        reveal_with_fuel(spec_chars_lt, 3);
    }
    assert(sorted_upto(s, 21));
    assert(spec_chars_lt(s[20], s[21])) by {
        reveal_strlit(".inputrc");
        reveal_strlit(".irbrc");
        reveal_with_fuel(spec_chars_lt, 4);
    }
    assert(sorted_upto(s, 22));
    assert(spec_chars_lt(s[21], s[22])) by {
        reveal_strlit(".irbrc");
        reveal_strlit(".kube/config");
        reveal_with_fuel(spec_chars_lt, 3);
    }
    assert(sorted_upto(s, 23));
    assert(spec_chars_lt(s[22], s[23])) by {
        reveal_strlit(".kube/config");
        reveal_strlit(".my.cnf");
        reveal_with_fuel(spec_chars_lt, 3);
    }
    assert(sorted_upto(s, 24));
    assert(spec_chars_lt(s[23], s[24])) by {
        reveal_strlit(".my.cnf");
        reveal_strlit(".nanorc");
        reveal_with_fuel(spec_chars_lt, 3);
    }
    assert(sorted_upto(s, 25));
    assert(spec_chars_lt(s[24], s[25])) by {
        reveal_strlit(".nanorc");
        reveal_strlit(".netrc");
        reveal_with_fuel(spec_chars_lt, 4);
    }
    assert(sorted_upto(s, 26));
    assert(spec_chars_lt(s[25], s[26])) by {
        reveal_strlit(".netrc");
        reveal_strlit(".npmrc");
        reveal_with_fuel(spec_chars_lt, 4);
    }
    assert(sorted_upto(s, 27));
    assert(spec_chars_lt(s[26], s[27])) by {
        reveal_strlit(".npmrc");
        reveal_strlit(".profile");
        reveal_with_fuel(spec_chars_lt, 3);
    }
    assert(sorted_upto(s, 28));
    assert(spec_chars_lt(s[27], s[28])) by {
        reveal_strlit(".profile");
        reveal_strlit(".psqlrc");
        reveal_with_fuel(spec_chars_lt, 4);
    }
    assert(sorted_upto(s, 29));
    assert(spec_chars_lt(s[28], s[29])) by {
        reveal_strlit(".psqlrc");
        reveal_strlit(".screenrc");
        reveal_with_fuel(spec_chars_lt, 3);
    }
    assert(sorted_upto(s, 30));
    assert(spec_chars_lt(s[29], s[30])) by {
        reveal_strlit(".screenrc");
        reveal_strlit(".ssh/authorized_keys");
        reveal_with_fuel(spec_chars_lt, 4);
    }
    assert(sorted_upto(s, 31));
    assert(spec_chars_lt(s[30], s[31])) by {
        reveal_strlit(".ssh/authorized_keys");
        reveal_strlit(".ssh/config");
        reveal_with_fuel(spec_chars_lt, 7);
    }
    assert(sorted_upto(s, 32));
    assert(spec_chars_lt(s[31], s[32])) by {
        reveal_strlit(".ssh/config");
        reveal_strlit(".ssh/known_hosts");
        reveal_with_fuel(spec_chars_lt, 7);
    }
    assert(sorted_upto(s, 33));
    assert(spec_chars_lt(s[32], s[33])) by {
        reveal_strlit(".ssh/known_hosts");
        reveal_strlit(".terraformrc");
        reveal_with_fuel(spec_chars_lt, 3);
    }
    assert(sorted_upto(s, 34));
    assert(spec_chars_lt(s[33], s[34])) by {
        reveal_strlit(".terraformrc");
        reveal_strlit(".tmux.conf");
        reveal_with_fuel(spec_chars_lt, 4);
    }
    assert(sorted_upto(s, 35));
    assert(spec_chars_lt(s[34], s[35])) by {
        reveal_strlit(".tmux.conf");
        reveal_strlit(".vimrc");
        reveal_with_fuel(spec_chars_lt, 3);
    }
    assert(sorted_upto(s, 36));
    assert(spec_chars_lt(s[35], s[36])) by {
        reveal_strlit(".vimrc");
        reveal_strlit(".wgetrc");
        reveal_with_fuel(spec_chars_lt, 3);
    }
    assert(sorted_upto(s, 37));
    assert(spec_chars_lt(s[36], s[37])) by {
        reveal_strlit(".wgetrc");
        reveal_strlit(".xinitrc");
        reveal_with_fuel(spec_chars_lt, 3);
    }
    assert(sorted_upto(s, 38));
    assert(spec_chars_lt(s[37], s[38])) by {
        reveal_strlit(".xinitrc");
        reveal_strlit(".xprofile");
        reveal_with_fuel(spec_chars_lt, 4);
    }
    assert(sorted_upto(s, 39));
    assert(spec_chars_lt(s[38], s[39])) by {
        reveal_strlit(".xprofile");
        reveal_strlit(".yarnrc");
        reveal_with_fuel(spec_chars_lt, 3);
    }
    assert(sorted_upto(s, 40));
    assert(spec_chars_lt(s[39], s[40])) by {
        reveal_strlit(".yarnrc");
        reveal_strlit(".zlogin");
        reveal_with_fuel(spec_chars_lt, 3);
    }
    assert(sorted_upto(s, 41));
    assert(spec_chars_lt(s[40], s[41])) by {
        reveal_strlit(".zlogin");
        reveal_strlit(".zprofile");
        reveal_with_fuel(spec_chars_lt, 4);
    }
    assert(sorted_upto(s, 42));
    assert(spec_chars_lt(s[41], s[42])) by {
        reveal_strlit(".zprofile");
        reveal_strlit(".zshenv");
        reveal_with_fuel(spec_chars_lt, 4);
    }
    assert(sorted_upto(s, 43));
    assert(spec_chars_lt(s[42], s[43])) by {
        reveal_strlit(".zshenv");
        reveal_strlit(".zshrc");
        reveal_with_fuel(spec_chars_lt, 6);
    }
    assert(sorted_upto(s, 44));
    assert(spec_chars_lt(s[43], s[44])) by {
        reveal_strlit(".zshrc");
        reveal_strlit("alacritty/alacritty.toml");
        reveal_with_fuel(spec_chars_lt, 2);
    }
    assert(sorted_upto(s, 45));
    assert(spec_chars_lt(s[44], s[45])) by {
        reveal_strlit("alacritty/alacritty.toml");
        reveal_strlit("atuin/config.toml");
        reveal_with_fuel(spec_chars_lt, 3);
    }
    assert(sorted_upto(s, 46));
    assert(spec_chars_lt(s[45], s[46])) by {
        reveal_strlit("atuin/config.toml");
        reveal_strlit("bash.bashrc");
        reveal_with_fuel(spec_chars_lt, 2);
    }
    assert(sorted_upto(s, 47));
    assert(spec_chars_lt(s[46], s[47])) by {
        reveal_strlit("bash.bashrc");
        reveal_strlit("bat/config");
        reveal_with_fuel(spec_chars_lt, 4);
    }
    assert(sorted_upto(s, 48));
    assert(spec_chars_lt(s[47], s[48])) by {
        reveal_strlit("bat/config");
        reveal_strlit("btop/btop.conf");
        reveal_with_fuel(spec_chars_lt, 3);
    }
    assert(sorted_upto(s, 49));
    assert(spec_chars_lt(s[48], s[49])) by {
        reveal_strlit("btop/btop.conf");
        reveal_strlit("crontab");
        reveal_with_fuel(spec_chars_lt, 2);
    }
    assert(sorted_upto(s, 50));
    assert(spec_chars_lt(s[49], s[50])) by {
        reveal_strlit("crontab");
        reveal_strlit("environment");
        reveal_with_fuel(spec_chars_lt, 2);
    }
    assert(sorted_upto(s, 51));
    assert(spec_chars_lt(s[50], s[51])) by {
        reveal_strlit("environment");
        reveal_strlit("fish/config.fish");
        reveal_with_fuel(spec_chars_lt, 2);
    }
    assert(sorted_upto(s, 52));
    assert(spec_chars_lt(s[51], s[52])) by {
        reveal_strlit("fish/config.fish");
        reveal_strlit("fstab");
        reveal_with_fuel(spec_chars_lt, 3);
    }
    assert(sorted_upto(s, 53));
    assert(spec_chars_lt(s[52], s[53])) by {
        reveal_strlit("fstab");
        reveal_strlit("gh/config.yml");
        reveal_with_fuel(spec_chars_lt, 2);
    }
    assert(sorted_upto(s, 54));
    assert(spec_chars_lt(s[53], s[54])) by {
        reveal_strlit("gh/config.yml");
        reveal_strlit("gh/hosts.yml");
        reveal_with_fuel(spec_chars_lt, 5);
    }
    assert(sorted_upto(s, 55));
    assert(spec_chars_lt(s[54], s[55])) by {
        reveal_strlit("gh/hosts.yml");
        reveal_strlit("git/config");
        reveal_with_fuel(spec_chars_lt, 3);
    }
    assert(sorted_upto(s, 56));
    assert(spec_chars_lt(s[55], s[56])) by {
        reveal_strlit("git/config");
        reveal_strlit("git/ignore");
        reveal_with_fuel(spec_chars_lt, 6);
    }
    assert(sorted_upto(s, 57));
    assert(spec_chars_lt(s[56], s[57])) by {
        reveal_strlit("git/ignore");
        reveal_strlit("group");
        reveal_with_fuel(spec_chars_lt, 3);
    }
    assert(sorted_upto(s, 58));
    assert(spec_chars_lt(s[57], s[58])) by {
        reveal_strlit("group");
        reveal_strlit("helix/config.toml");
        reveal_with_fuel(spec_chars_lt, 2);
    }
    assert(sorted_upto(s, 59));
    assert(spec_chars_lt(s[58], s[59])) by {
        reveal_strlit("helix/config.toml");
        reveal_strlit("hosts");
        reveal_with_fuel(spec_chars_lt, 3);
    }
    assert(sorted_upto(s, 60));
    assert(spec_chars_lt(s[59], s[60])) by {
        reveal_strlit("hosts");
        reveal_strlit("htop/htoprc");
        reveal_with_fuel(spec_chars_lt, 3);
    }
    assert(sorted_upto(s, 61));
    assert(spec_chars_lt(s[60], s[61])) by {
        reveal_strlit("htop/htoprc");
        reveal_strlit("i3/config");
        reveal_with_fuel(spec_chars_lt, 2);
    }
    assert(sorted_upto(s, 62));
    assert(spec_chars_lt(s[61], s[62])) by {
        reveal_strlit("i3/config");
        reveal_strlit("k9s/config.yaml");
        reveal_with_fuel(spec_chars_lt, 2);
    }
    assert(sorted_upto(s, 63));
    assert(spec_chars_lt(s[62], s[63])) by {
        reveal_strlit("k9s/config.yaml");
        reveal_strlit("kitty/kitty.conf");
        reveal_with_fuel(spec_chars_lt, 3);
    }
    assert(sorted_upto(s, 64));
    assert(spec_chars_lt(s[63], s[64])) by {
        reveal_strlit("kitty/kitty.conf");
        reveal_strlit("lazygit/config.yml");
        reveal_with_fuel(spec_chars_lt, 2);
    }
    assert(sorted_upto(s, 65));
    assert(spec_chars_lt(s[64], s[65])) by {
        reveal_strlit("lazygit/config.yml");
        reveal_strlit("nginx/nginx.conf");
        reveal_with_fuel(spec_chars_lt, 2);
    }
    assert(sorted_upto(s, 66));
    assert(spec_chars_lt(s[65], s[66])) by {
        reveal_strlit("nginx/nginx.conf");
        reveal_strlit("nushell/config.nu");
        reveal_with_fuel(spec_chars_lt, 3);
    }
    assert(sorted_upto(s, 67));
    assert(spec_chars_lt(s[66], s[67])) by {
        reveal_strlit("nushell/config.nu");
        reveal_strlit("nvim/init.lua");
        reveal_with_fuel(spec_chars_lt, 3);
    }
    assert(sorted_upto(s, 68));
    assert(spec_chars_lt(s[67], s[68])) by {
        reveal_strlit("nvim/init.lua");
        reveal_strlit("nvim/init.vim");
        reveal_with_fuel(spec_chars_lt, 12);
    }
    assert(sorted_upto(s, 69));
    assert(spec_chars_lt(s[68], s[69])) by {
        reveal_strlit("nvim/init.vim");
        reveal_strlit("os-release");
        reveal_with_fuel(spec_chars_lt, 2);
    }
    assert(sorted_upto(s, 70));
    assert(spec_chars_lt(s[69], s[70])) by {
        reveal_strlit("os-release");
        reveal_strlit("passwd");
        reveal_with_fuel(spec_chars_lt, 2);
    }
    assert(sorted_upto(s, 71));
    assert(spec_chars_lt(s[70], s[71])) by {
        reveal_strlit("passwd");
        reveal_strlit("pip/pip.conf");
        reveal_with_fuel(spec_chars_lt, 3);
    }
    assert(sorted_upto(s, 72));
    assert(spec_chars_lt(s[71], s[72])) by {
        reveal_strlit("pip/pip.conf");
        reveal_strlit("profile");
        reveal_with_fuel(spec_chars_lt, 3);
    }
    assert(sorted_upto(s, 73));
    assert(spec_chars_lt(s[72], s[73])) by {
        reveal_strlit("profile");
        reveal_strlit("ranger/rc.conf");
        reveal_with_fuel(spec_chars_lt, 2);
    }
    assert(sorted_upto(s, 74));
    assert(spec_chars_lt(s[73], s[74])) by {
        reveal_strlit("ranger/rc.conf");
        reveal_strlit("resolv.conf");
        reveal_with_fuel(spec_chars_lt, 3);
    }
    assert(sorted_upto(s, 75));
    assert(spec_chars_lt(s[74], s[75])) by {
        reveal_strlit("resolv.conf");
        reveal_strlit("ssh/ssh_config");
        reveal_with_fuel(spec_chars_lt, 2);
    }
    assert(sorted_upto(s, 76));
    assert(spec_chars_lt(s[75], s[76])) by {
        reveal_strlit("ssh/ssh_config");
        reveal_strlit("ssh/sshd_config");
        reveal_with_fuel(spec_chars_lt, 9);
    }
    assert(sorted_upto(s, 77));
    assert(spec_chars_lt(s[76], s[77])) by {
        reveal_strlit("ssh/sshd_config");
        reveal_strlit("starship.toml");
        reveal_with_fuel(spec_chars_lt, 3);
    }
    assert(sorted_upto(s, 78));
    assert(spec_chars_lt(s[77], s[78])) by {
        reveal_strlit("starship.toml");
        reveal_strlit("sudoers");
        reveal_with_fuel(spec_chars_lt, 3);
    }
    assert(sorted_upto(s, 79));
    assert(spec_chars_lt(s[78], s[79])) by {
        reveal_strlit("sudoers");
        reveal_strlit("sway/config");
        reveal_with_fuel(spec_chars_lt, 3);
    }
    assert(sorted_upto(s, 80));
    assert(spec_chars_lt(s[79], s[80])) by {
        reveal_strlit("sway/config");
        reveal_strlit("tmux/tmux.conf");
        reveal_with_fuel(spec_chars_lt, 2);
    }
    assert(sorted_upto(s, 81));
    assert(spec_chars_lt(s[80], s[81])) by {
        reveal_strlit("tmux/tmux.conf");
        reveal_strlit("wezterm/wezterm.lua");
        reveal_with_fuel(spec_chars_lt, 2);
    }
    assert(sorted_upto(s, 82));
    assert(spec_chars_lt(s[81], s[82])) by {
        reveal_strlit("wezterm/wezterm.lua");
        reveal_strlit("yazi/yazi.toml");
        reveal_with_fuel(spec_chars_lt, 2);
    }
    assert(sorted_upto(s, 83));
    assert(spec_chars_lt(s[82], s[83])) by {
        reveal_strlit("yazi/yazi.toml");
        reveal_strlit("zellij/config.kdl");
        reveal_with_fuel(spec_chars_lt, 2);
    }
    assert(sorted_upto(s, 84));
}

#[verifier::rlimit(100)]
proof fn lemma_paths_matched()
    ensures
        matched_upto(spec_config_files(), spec_sorted_paths(), spec_path_rank(), spec_path_unrank(), 84),
{
    let cat = spec_config_files();
    let s = spec_sorted_paths();
    let rank = spec_path_rank();
    let unrank = spec_path_unrank();
    assert(matched_upto(cat, s, rank, unrank, 0));
    assert(matched(cat, s, rank, unrank, 0));
    assert(matched_upto(cat, s, rank, unrank, 1));
    assert(matched(cat, s, rank, unrank, 1));
    assert(matched_upto(cat, s, rank, unrank, 2));
    assert(matched(cat, s, rank, unrank, 2));
    assert(matched_upto(cat, s, rank, unrank, 3));
    assert(matched(cat, s, rank, unrank, 3));
    assert(matched_upto(cat, s, rank, unrank, 4));
    assert(matched(cat, s, rank, unrank, 4));
    assert(matched_upto(cat, s, rank, unrank, 5));
    assert(matched(cat, s, rank, unrank, 5));
    assert(matched_upto(cat, s, rank, unrank, 6));
    assert(matched(cat, s, rank, unrank, 6));
    assert(matched_upto(cat, s, rank, unrank, 7));
    assert(matched(cat, s, rank, unrank, 7));
    assert(matched_upto(cat, s, rank, unrank, 8));
    assert(matched(cat, s, rank, unrank, 8));
    assert(matched_upto(cat, s, rank, unrank, 9));
    assert(matched(cat, s, rank, unrank, 9));
    assert(matched_upto(cat, s, rank, unrank, 10));
    assert(matched(cat, s, rank, unrank, 10));
    assert(matched_upto(cat, s, rank, unrank, 11));
    assert(matched(cat, s, rank, unrank, 11));
    assert(matched_upto(cat, s, rank, unrank, 12));
    assert(matched(cat, s, rank, unrank, 12));
    assert(matched_upto(cat, s, rank, unrank, 13));
    assert(matched(cat, s, rank, unrank, 13));
    assert(matched_upto(cat, s, rank, unrank, 14));
    assert(matched(cat, s, rank, unrank, 14));
    assert(matched_upto(cat, s, rank, unrank, 15));
    assert(matched(cat, s, rank, unrank, 15));
    assert(matched_upto(cat, s, rank, unrank, 16));
    assert(matched(cat, s, rank, unrank, 16));
    assert(matched_upto(cat, s, rank, unrank, 17));
    assert(matched(cat, s, rank, unrank, 17));
    assert(matched_upto(cat, s, rank, unrank, 18));
    assert(matched(cat, s, rank, unrank, 18));
    assert(matched_upto(cat, s, rank, unrank, 19));
    assert(matched(cat, s, rank, unrank, 19));
    assert(matched_upto(cat, s, rank, unrank, 20));
    assert(matched(cat, s, rank, unrank, 20));
    assert(matched_upto(cat, s, rank, unrank, 21));
    assert(matched(cat, s, rank, unrank, 21));
    assert(matched_upto(cat, s, rank, unrank, 22));
    assert(matched(cat, s, rank, unrank, 22));
    assert(matched_upto(cat, s, rank, unrank, 23));
    assert(matched(cat, s, rank, unrank, 23));
    assert(matched_upto(cat, s, rank, unrank, 24));
    assert(matched(cat, s, rank, unrank, 24));
    assert(matched_upto(cat, s, rank, unrank, 25));
    assert(matched(cat, s, rank, unrank, 25));
    assert(matched_upto(cat, s, rank, unrank, 26));
    assert(matched(cat, s, rank, unrank, 26));
    assert(matched_upto(cat, s, rank, unrank, 27));
    assert(matched(cat, s, rank, unrank, 27));
    assert(matched_upto(cat, s, rank, unrank, 28));
    assert(matched(cat, s, rank, unrank, 28));
    assert(matched_upto(cat, s, rank, unrank, 29));
    assert(matched(cat, s, rank, unrank, 29));
    assert(matched_upto(cat, s, rank, unrank, 30));
    assert(matched(cat, s, rank, unrank, 30));
    assert(matched_upto(cat, s, rank, unrank, 31));
    assert(matched(cat, s, rank, unrank, 31));
    assert(matched_upto(cat, s, rank, unrank, 32));
    assert(matched(cat, s, rank, unrank, 32));
    assert(matched_upto(cat, s, rank, unrank, 33));
    assert(matched(cat, s, rank, unrank, 33));
    assert(matched_upto(cat, s, rank, unrank, 34));
    assert(matched(cat, s, rank, unrank, 34));
    assert(matched_upto(cat, s, rank, unrank, 35));
    assert(matched(cat, s, rank, unrank, 35));
    assert(matched_upto(cat, s, rank, unrank, 36));
    assert(matched(cat, s, rank, unrank, 36));
    assert(matched_upto(cat, s, rank, unrank, 37));
    assert(matched(cat, s, rank, unrank, 37));
    assert(matched_upto(cat, s, rank, unrank, 38));
    assert(matched(cat, s, rank, unrank, 38));
    assert(matched_upto(cat, s, rank, unrank, 39));
    assert(matched(cat, s, rank, unrank, 39));
    assert(matched_upto(cat, s, rank, unrank, 40));
    assert(matched(cat, s, rank, unrank, 40));
    assert(matched_upto(cat, s, rank, unrank, 41));
    assert(matched(cat, s, rank, unrank, 41));
    assert(matched_upto(cat, s, rank, unrank, 42));
    assert(matched(cat, s, rank, unrank, 42));
    assert(matched_upto(cat, s, rank, unrank, 43));
    assert(matched(cat, s, rank, unrank, 43));
    assert(matched_upto(cat, s, rank, unrank, 44));
    assert(matched(cat, s, rank, unrank, 44));
    assert(matched_upto(cat, s, rank, unrank, 45));
    assert(matched(cat, s, rank, unrank, 45));
    assert(matched_upto(cat, s, rank, unrank, 46));
    assert(matched(cat, s, rank, unrank, 46));
    assert(matched_upto(cat, s, rank, unrank, 47));
    assert(matched(cat, s, rank, unrank, 47));
    assert(matched_upto(cat, s, rank, unrank, 48));
    assert(matched(cat, s, rank, unrank, 48));
    assert(matched_upto(cat, s, rank, unrank, 49));
    assert(matched(cat, s, rank, unrank, 49));
    assert(matched_upto(cat, s, rank, unrank, 50));
    assert(matched(cat, s, rank, unrank, 50));
    assert(matched_upto(cat, s, rank, unrank, 51));
    assert(matched(cat, s, rank, unrank, 51));
    assert(matched_upto(cat, s, rank, unrank, 52));
    assert(matched(cat, s, rank, unrank, 52));
    assert(matched_upto(cat, s, rank, unrank, 53));
    assert(matched(cat, s, rank, unrank, 53));
    assert(matched_upto(cat, s, rank, unrank, 54));
    assert(matched(cat, s, rank, unrank, 54));
    assert(matched_upto(cat, s, rank, unrank, 55));
    assert(matched(cat, s, rank, unrank, 55));
    assert(matched_upto(cat, s, rank, unrank, 56));
    assert(matched(cat, s, rank, unrank, 56));
    assert(matched_upto(cat, s, rank, unrank, 57));
    assert(matched(cat, s, rank, unrank, 57));
    assert(matched_upto(cat, s, rank, unrank, 58));
    assert(matched(cat, s, rank, unrank, 58));
    assert(matched_upto(cat, s, rank, unrank, 59));
    assert(matched(cat, s, rank, unrank, 59));
    assert(matched_upto(cat, s, rank, unrank, 60));
    assert(matched(cat, s, rank, unrank, 60));
    assert(matched_upto(cat, s, rank, unrank, 61));
    assert(matched(cat, s, rank, unrank, 61));
    assert(matched_upto(cat, s, rank, unrank, 62));
    assert(matched(cat, s, rank, unrank, 62));
    assert(matched_upto(cat, s, rank, unrank, 63));
    assert(matched(cat, s, rank, unrank, 63));
    assert(matched_upto(cat, s, rank, unrank, 64));
    assert(matched(cat, s, rank, unrank, 64));
    assert(matched_upto(cat, s, rank, unrank, 65));
    assert(matched(cat, s, rank, unrank, 65));
    assert(matched_upto(cat, s, rank, unrank, 66));
    assert(matched(cat, s, rank, unrank, 66));
    assert(matched_upto(cat, s, rank, unrank, 67));
    assert(matched(cat, s, rank, unrank, 67));
    assert(matched_upto(cat, s, rank, unrank, 68));
    assert(matched(cat, s, rank, unrank, 68));
    assert(matched_upto(cat, s, rank, unrank, 69));
    assert(matched(cat, s, rank, unrank, 69));
    assert(matched_upto(cat, s, rank, unrank, 70));
    assert(matched(cat, s, rank, unrank, 70));
    assert(matched_upto(cat, s, rank, unrank, 71));
    assert(matched(cat, s, rank, unrank, 71));
    assert(matched_upto(cat, s, rank, unrank, 72));
    assert(matched(cat, s, rank, unrank, 72));
    assert(matched_upto(cat, s, rank, unrank, 73));
    assert(matched(cat, s, rank, unrank, 73));
    assert(matched_upto(cat, s, rank, unrank, 74));
    assert(matched(cat, s, rank, unrank, 74));
    assert(matched_upto(cat, s, rank, unrank, 75));
    assert(matched(cat, s, rank, unrank, 75));
    assert(matched_upto(cat, s, rank, unrank, 76));
    assert(matched(cat, s, rank, unrank, 76));
    assert(matched_upto(cat, s, rank, unrank, 77));
    assert(matched(cat, s, rank, unrank, 77));
    assert(matched_upto(cat, s, rank, unrank, 78));
    assert(matched(cat, s, rank, unrank, 78));
    assert(matched_upto(cat, s, rank, unrank, 79));
    assert(matched(cat, s, rank, unrank, 79));
    assert(matched_upto(cat, s, rank, unrank, 80));
    assert(matched(cat, s, rank, unrank, 80));
    assert(matched_upto(cat, s, rank, unrank, 81));
    assert(matched(cat, s, rank, unrank, 81));
    assert(matched_upto(cat, s, rank, unrank, 82));
    assert(matched(cat, s, rank, unrank, 82));
    assert(matched_upto(cat, s, rank, unrank, 83));
    assert(matched(cat, s, rank, unrank, 83));
    assert(matched_upto(cat, s, rank, unrank, 84));
}

/// No two catalogue entries have the same relative path.
pub proof fn lemma_catalog_paths_distinct()
    ensures
        forall|i: int, j: int|
            0 <= i < spec_config_files().len() && 0 <= j < spec_config_files().len() && i != j
                ==> (#[trigger] spec_config_files()[i]).path@ != (#[trigger] spec_config_files()[j]).path@,
{
    let cat = spec_config_files();
    let s = spec_sorted_paths();
    let rank = spec_path_rank();
    let unrank = spec_path_unrank();
    lemma_sorted_paths_ascend();
    lemma_sorted_upto(s, 84);
    lemma_paths_matched();
    lemma_matched_upto(cat, s, rank, unrank, 84);
    assert forall|i: int, j: int|
        0 <= i < cat.len() && 0 <= j < cat.len() && i != j implies (#[trigger] cat[i]).path@ != (#[trigger] cat[j]).path@ by {
        assert(matched(cat, s, rank, unrank, i));
        assert(matched(cat, s, rank, unrank, j));
        if cat[i].path@ == cat[j].path@ {
            let (ri, rj) = (rank[i], rank[j]);
            if ri < rj {
                assert(spec_chars_lt(s[ri], s[rj]));
                lemma_chars_lt_irreflexive(s[ri]);
            } else if rj < ri {
                assert(spec_chars_lt(s[rj], s[ri]));
                lemma_chars_lt_irreflexive(s[rj]);
            }
        }
    }
}

} // verus!
