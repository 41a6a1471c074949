//! The catalogue of configuration files that Hank knows, and how an entry is
//! resolved to a path on this machine.

use vstd::prelude::*;

use crate::text::{join_path, spec_join_path};
use crate::utils;
use crate::catalog_paths::lemma_catalog_paths_distinct;

verus! {

/// Where a configuration file's relative path is anchored.
#[derive(Debug, Clone, Copy, PartialEq, Eq, Structural, Hash)]
pub enum Base {
    /// Relative to the user's home directory.
    Home,
    /// Relative to `$XDG_CONFIG_HOME` (by default `~/.config`).
    XdgConfig,
    /// Relative to `$XDG_DATA_HOME` (by default `~/.local/share`).
    XdgData,
    /// Relative to the system configuration directory `/etc`.
    Etc,
}

/// The text by which a base is shown to the user.
pub open spec fn spec_base_label(b: Base) -> Seq<char> {
    match b {
        Base::Home => "~"@,
        Base::XdgConfig => "~/.config"@,
        Base::XdgData => "~/.local/share"@,
        Base::Etc => "/etc"@,
    }
}

impl Base {
    /// The text by which this base is shown to the user.
    pub fn label(&self) -> (r: &'static str)
        ensures
            r@ == spec_base_label(*self),
    {
        match self {
            Base::Home => "~",
            Base::XdgConfig => "~/.config",
            Base::XdgData => "~/.local/share",
            Base::Etc => "/etc",
        }
    }

    /// The label as an owned string.
    pub fn to_string(&self) -> (r: String)
        ensures
            r@ == spec_base_label(*self),
    {
        self.label().to_owned()
    }
}

/// A single known configuration file of a command line tool.
#[derive(Debug, Clone, Copy, PartialEq, Eq, Hash)]
pub struct ConfigFile {
    /// The tool this file belongs to (e.g. "git", "nvim").
    pub tool: &'static str,
    /// The root the path is relative to.
    pub base: Base,
    /// Path relative to `base` (e.g. ".gitconfig", "nvim/init.lua").
    pub path: &'static str,
}

/// The XDG base-directory variables of the environment, as the caller read
/// them (`None` where a variable is not set).
pub struct XdgVars {
    /// `$XDG_CONFIG_HOME`.
    pub config_home: Option<String>,
    /// `$XDG_DATA_HOME`.
    pub data_home: Option<String>,
}

/// An XDG variable is honoured only when it holds an absolute path.
pub open spec fn spec_xdg_usable(v: Seq<char>) -> bool {
    v.len() > 0 && v[0] == '/'
}

/// The directory an XDG variable designates: its value when usable, otherwise
/// `default_suffix` below the home directory (if that is known).
pub open spec fn spec_xdg_dir(
    var: Option<Seq<char>>,
    home: Option<Seq<char>>,
    default_suffix: Seq<char>,
) -> Option<Seq<char>> {
    if var is Some && spec_xdg_usable(var->0) {
        var
    } else {
        match home {
            Some(h) => Some(spec_join_path(h, default_suffix)),
            None => None,
        }
    }
}

/// The directory a base designates, given the home directory and the XDG
/// variables.
pub open spec fn spec_base_root(
    base: Base,
    home: Option<Seq<char>>,
    xdg_config: Option<Seq<char>>,
    xdg_data: Option<Seq<char>>,
) -> Option<Seq<char>> {
    match base {
        Base::Home => home,
        Base::XdgConfig => spec_xdg_dir(xdg_config, home, ".config"@),
        Base::XdgData => spec_xdg_dir(xdg_data, home, ".local/share"@),
        Base::Etc => Some("/etc"@),
    }
}

/// The absolute path of a catalogue entry, given the home directory and the
/// XDG variables; `None` when the home directory is needed and unknown.
pub open spec fn spec_resolve(
    cfg: ConfigFile,
    home: Option<Seq<char>>,
    xdg_config: Option<Seq<char>>,
    xdg_data: Option<Seq<char>>,
) -> Option<Seq<char>> {
    match spec_base_root(cfg.base, home, xdg_config, xdg_data) {
        Some(root) => Some(spec_join_path(root, cfg.path@)),
        None => None,
    }
}

/// Whether resolving a base needs the home directory.
pub open spec fn spec_needs_home(base: Base, xdg_config: Option<Seq<char>>, xdg_data: Option<Seq<char>>) -> bool {
    match base {
        Base::Home => true,
        Base::XdgConfig => !(xdg_config is Some && spec_xdg_usable(xdg_config->0)),
        Base::XdgData => !(xdg_data is Some && spec_xdg_usable(xdg_data->0)),
        Base::Etc => false,
    }
}

/// Calls `dirs::home_dir` and hands its path back as a string (lossily, where
/// it is not valid UTF-8). Which directory comes back depends on the
/// environment and the user database, so only this is promised: a home
/// directory that is found is not empty (`dirs` answers `None` when `$HOME`
/// and the user database both give an empty one, on Linux and macOS).
#[verifier::external_body]
fn home_dir() -> (r: Option<String>)
    ensures
        r matches Some(h) ==> h@.len() > 0,
{
    dirs::home_dir().map(|p| p.to_string_lossy().into_owned())
}

/// Whether an XDG variable holds a usable (absolute) path.
fn xdg_usable(var: &Option<String>) -> (r: bool)
    ensures
        r == (var is Some && spec_xdg_usable(var->0@)),
{
    match var {
        Some(v) => v.as_str().unicode_len() > 0 && v.as_str().get_char(0) == '/',
        None => false,
    }
}

/// The directory an XDG variable designates (see [`spec_xdg_dir`]).
fn xdg_dir(var: &Option<String>, home: &Option<String>, default_suffix: &str) -> (r: Option<String>)
    ensures
        r.deep_view() == spec_xdg_dir(var.deep_view(), home.deep_view(), default_suffix@),
{
    if xdg_usable(var) {
        match var {
            Some(v) => Some(v.clone()),
            None => None,
        }
    } else {
        match home {
            Some(h) => Some(join_path(h.as_str(), default_suffix)),
            None => None,
        }
    }
}

impl ConfigFile {
    /// Resolves this entry to an absolute path, given the home directory and
    /// the XDG variables. Returns `None` only when the home directory is
    /// needed and unknown.
    pub fn resolve_with(&self, home: &Option<String>, xdg: &XdgVars) -> (r: Option<String>)
        ensures
            r.deep_view() == spec_resolve(
                *self,
                home.deep_view(),
                xdg.config_home.deep_view(),
                xdg.data_home.deep_view(),
            ),
    {
        let root: Option<String> = match self.base {
            Base::Home => match home {
                Some(h) => Some(h.clone()),
                None => None,
            },
            Base::XdgConfig => xdg_dir(&xdg.config_home, home, ".config"),
            Base::XdgData => xdg_dir(&xdg.data_home, home, ".local/share"),
            Base::Etc => Some("/etc".to_owned()),
        };
        match root {
            Some(root) => Some(join_path(root.as_str(), self.path)),
            None => None,
        }
    }

    /// Whether resolving this entry needs the home directory: always for a
    /// home entry, for an XDG entry whose variable is not usable, never for
    /// an `/etc` entry.
    fn needs_home_dir(&self, xdg: &XdgVars) -> (r: bool)
        ensures
            r == spec_needs_home(self.base, xdg.config_home.deep_view(), xdg.data_home.deep_view()),
    {
        match self.base {
            Base::Home => true,
            Base::XdgConfig => !xdg_usable(&xdg.config_home),
            Base::XdgData => !xdg_usable(&xdg.data_home),
            Base::Etc => false,
        }
    }

    /// Resolves this entry to an absolute path, looking up the home directory
    /// with the `dirs` crate where the base needs it. `/etc` entries and XDG
    /// entries whose variable holds an absolute path never consult it.
    ///
    /// A resolved path ends with a slash and the entry's relative path, when
    /// that path is relative.
    pub fn resolve(&self, xdg: &XdgVars) -> (r: Option<String>)
        ensures
            exists|home: Option<Seq<char>>|
                (home matches Some(h) ==> h.len() > 0) && r.deep_view() == #[trigger] spec_resolve(
                    *self,
                    home,
                    xdg.config_home.deep_view(),
                    xdg.data_home.deep_view(),
                ),
            self.path@.len() > 0 && self.path@[0] != '/' ==> (r matches Some(p) ==> {
                let rel = self.path@;
                &&& p@.len() > rel.len()
                &&& p@.subrange(p@.len() - rel.len(), p@.len() as int) == rel
                &&& p@[p@.len() - rel.len() - 1] == '/'
            }),
            !spec_needs_home(self.base, xdg.config_home.deep_view(), xdg.data_home.deep_view())
                ==> r.deep_view() == spec_resolve(
                    *self,
                    None,
                    xdg.config_home.deep_view(),
                    xdg.data_home.deep_view(),
                ),
    {
        let home = if self.needs_home_dir(xdg) { home_dir() } else { None };
        let r = self.resolve_with(&home, xdg);
        assert(r.deep_view() == spec_resolve(
            *self,
            home.deep_view(),
            xdg.config_home.deep_view(),
            xdg.data_home.deep_view(),
        ));
        proof {
            if self.path@.len() > 0 && self.path@[0] != '/' {
                lemma_resolved_ends_with_relative_path(
                    *self,
                    home.deep_view(),
                    xdg.config_home.deep_view(),
                    xdg.data_home.deep_view(),
                );
            }
        }
        r
    }

    /// Resolves this entry (see [`ConfigFile::resolve`]) and asks
    /// [`present_at`] whether something is on disk at the resolved path.
    /// The answer comes from the file system at the moment of the call.
    pub fn exists_on_disk(&self, xdg: &XdgVars) -> bool {
        let resolved = self.resolve(xdg);
        present_at(&resolved)
    }
}

/// Whether something is on disk at a resolved path: `false` when there is no
/// path, otherwise what `path_exists` answers for it (decided by the file
/// system at the moment of the call).
pub fn present_at(resolved: &Option<String>) -> (r: bool)
    ensures
        resolved is None ==> !r,
{
    match resolved {
        Some(p) => utils::path_exists(p.as_str()),
        None => false,
    }
}

/// A list of configuration files.
pub type ConfigList = Vec<ConfigFile>;

/// Every known configuration file, grouped by base.
pub open spec fn spec_config_files() -> Seq<ConfigFile> {
    seq![
        ConfigFile { tool: "bash", base: Base::Home, path: ".bashrc" },
        ConfigFile { tool: "bash", base: Base::Home, path: ".bash_profile" },
        ConfigFile { tool: "bash", base: Base::Home, path: ".bash_logout" },
        ConfigFile { tool: "sh", base: Base::Home, path: ".profile" },
        ConfigFile { tool: "zsh", base: Base::Home, path: ".zshrc" },
        ConfigFile { tool: "zsh", base: Base::Home, path: ".zshenv" },
        ConfigFile { tool: "zsh", base: Base::Home, path: ".zprofile" },
        ConfigFile { tool: "zsh", base: Base::Home, path: ".zlogin" },
        ConfigFile { tool: "readline", base: Base::Home, path: ".inputrc" },
        ConfigFile { tool: "vim", base: Base::Home, path: ".vimrc" },
        ConfigFile { tool: "vim", base: Base::Home, path: ".gvimrc" },
        ConfigFile { tool: "git", base: Base::Home, path: ".gitconfig" },
        ConfigFile { tool: "git", base: Base::Home, path: ".gitignore_global" },
        ConfigFile { tool: "tmux", base: Base::Home, path: ".tmux.conf" },
        ConfigFile { tool: "screen", base: Base::Home, path: ".screenrc" },
        ConfigFile { tool: "ssh", base: Base::Home, path: ".ssh/config" },
        ConfigFile { tool: "ssh", base: Base::Home, path: ".ssh/known_hosts" },
        ConfigFile { tool: "ssh", base: Base::Home, path: ".ssh/authorized_keys" },
        ConfigFile { tool: "gnupg", base: Base::Home, path: ".gnupg/gpg.conf" },
        ConfigFile { tool: "gnupg", base: Base::Home, path: ".gnupg/gpg-agent.conf" },
        ConfigFile { tool: "curl", base: Base::Home, path: ".curlrc" },
        ConfigFile { tool: "wget", base: Base::Home, path: ".wgetrc" },
        ConfigFile { tool: "netrc", base: Base::Home, path: ".netrc" },
        ConfigFile { tool: "aws", base: Base::Home, path: ".aws/config" },
        ConfigFile { tool: "aws", base: Base::Home, path: ".aws/credentials" },
        ConfigFile { tool: "docker", base: Base::Home, path: ".docker/config.json" },
        ConfigFile { tool: "kubectl", base: Base::Home, path: ".kube/config" },
        ConfigFile { tool: "npm", base: Base::Home, path: ".npmrc" },
        ConfigFile { tool: "yarn", base: Base::Home, path: ".yarnrc" },
        ConfigFile { tool: "cargo", base: Base::Home, path: ".cargo/config.toml" },
        ConfigFile { tool: "gem", base: Base::Home, path: ".gemrc" },
        ConfigFile { tool: "conda", base: Base::Home, path: ".condarc" },
        ConfigFile { tool: "terraform", base: Base::Home, path: ".terraformrc" },
        ConfigFile { tool: "mysql", base: Base::Home, path: ".my.cnf" },
        ConfigFile { tool: "psql", base: Base::Home, path: ".psqlrc" },
        ConfigFile { tool: "irb", base: Base::Home, path: ".irbrc" },
        ConfigFile { tool: "nano", base: Base::Home, path: ".nanorc" },
        ConfigFile { tool: "ack", base: Base::Home, path: ".ackrc" },
        ConfigFile { tool: "ctags", base: Base::Home, path: ".ctags" },
        ConfigFile { tool: "editorconfig", base: Base::Home, path: ".editorconfig" },
        ConfigFile { tool: "dircolors", base: Base::Home, path: ".dir_colors" },
        ConfigFile { tool: "x11", base: Base::Home, path: ".Xresources" },
        ConfigFile { tool: "x11", base: Base::Home, path: ".xinitrc" },
        ConfigFile { tool: "x11", base: Base::Home, path: ".xprofile" },
        ConfigFile { tool: "nvim", base: Base::XdgConfig, path: "nvim/init.lua" },
        ConfigFile { tool: "nvim", base: Base::XdgConfig, path: "nvim/init.vim" },
        ConfigFile { tool: "git", base: Base::XdgConfig, path: "git/config" },
        ConfigFile { tool: "git", base: Base::XdgConfig, path: "git/ignore" },
        ConfigFile { tool: "fish", base: Base::XdgConfig, path: "fish/config.fish" },
        ConfigFile { tool: "nushell", base: Base::XdgConfig, path: "nushell/config.nu" },
        ConfigFile { tool: "starship", base: Base::XdgConfig, path: "starship.toml" },
        ConfigFile { tool: "alacritty", base: Base::XdgConfig, path: "alacritty/alacritty.toml" },
        ConfigFile { tool: "kitty", base: Base::XdgConfig, path: "kitty/kitty.conf" },
        ConfigFile { tool: "wezterm", base: Base::XdgConfig, path: "wezterm/wezterm.lua" },
        ConfigFile { tool: "tmux", base: Base::XdgConfig, path: "tmux/tmux.conf" },
        ConfigFile { tool: "htop", base: Base::XdgConfig, path: "htop/htoprc" },
        ConfigFile { tool: "btop", base: Base::XdgConfig, path: "btop/btop.conf" },
        ConfigFile { tool: "bat", base: Base::XdgConfig, path: "bat/config" },
        ConfigFile { tool: "gh", base: Base::XdgConfig, path: "gh/config.yml" },
        ConfigFile { tool: "gh", base: Base::XdgConfig, path: "gh/hosts.yml" },
        ConfigFile { tool: "helix", base: Base::XdgConfig, path: "helix/config.toml" },
        ConfigFile { tool: "zellij", base: Base::XdgConfig, path: "zellij/config.kdl" },
        ConfigFile { tool: "lazygit", base: Base::XdgConfig, path: "lazygit/config.yml" },
        ConfigFile { tool: "k9s", base: Base::XdgConfig, path: "k9s/config.yaml" },
        ConfigFile { tool: "pip", base: Base::XdgConfig, path: "pip/pip.conf" },
        ConfigFile { tool: "ranger", base: Base::XdgConfig, path: "ranger/rc.conf" },
        ConfigFile { tool: "yazi", base: Base::XdgConfig, path: "yazi/yazi.toml" },
        ConfigFile { tool: "atuin", base: Base::XdgConfig, path: "atuin/config.toml" },
        ConfigFile { tool: "i3", base: Base::XdgConfig, path: "i3/config" },
        ConfigFile { tool: "sway", base: Base::XdgConfig, path: "sway/config" },
        ConfigFile { tool: "hosts", base: Base::Etc, path: "hosts" },
        ConfigFile { tool: "dns", base: Base::Etc, path: "resolv.conf" },
        ConfigFile { tool: "fstab", base: Base::Etc, path: "fstab" },
        ConfigFile { tool: "passwd", base: Base::Etc, path: "passwd" },
        ConfigFile { tool: "group", base: Base::Etc, path: "group" },
        ConfigFile { tool: "sudo", base: Base::Etc, path: "sudoers" },
        ConfigFile { tool: "cron", base: Base::Etc, path: "crontab" },
        ConfigFile { tool: "bash", base: Base::Etc, path: "bash.bashrc" },
        ConfigFile { tool: "sh", base: Base::Etc, path: "profile" },
        ConfigFile { tool: "environment", base: Base::Etc, path: "environment" },
        ConfigFile { tool: "sshd", base: Base::Etc, path: "ssh/sshd_config" },
        ConfigFile { tool: "ssh", base: Base::Etc, path: "ssh/ssh_config" },
        ConfigFile { tool: "nginx", base: Base::Etc, path: "nginx/nginx.conf" },
        ConfigFile { tool: "os-release", base: Base::Etc, path: "os-release" },
    ]
}

/// Every known configuration file, in catalogue order.
pub fn config_files() -> (r: Vec<ConfigFile>)
    ensures
        r@ == spec_config_files(),
{
    vec![
        ConfigFile { tool: "bash", base: Base::Home, path: ".bashrc" },
        ConfigFile { tool: "bash", base: Base::Home, path: ".bash_profile" },
        ConfigFile { tool: "bash", base: Base::Home, path: ".bash_logout" },
        ConfigFile { tool: "sh", base: Base::Home, path: ".profile" },
        ConfigFile { tool: "zsh", base: Base::Home, path: ".zshrc" },
        ConfigFile { tool: "zsh", base: Base::Home, path: ".zshenv" },
        ConfigFile { tool: "zsh", base: Base::Home, path: ".zprofile" },
        ConfigFile { tool: "zsh", base: Base::Home, path: ".zlogin" },
        ConfigFile { tool: "readline", base: Base::Home, path: ".inputrc" },
        ConfigFile { tool: "vim", base: Base::Home, path: ".vimrc" },
        ConfigFile { tool: "vim", base: Base::Home, path: ".gvimrc" },
        ConfigFile { tool: "git", base: Base::Home, path: ".gitconfig" },
        ConfigFile { tool: "git", base: Base::Home, path: ".gitignore_global" },
        ConfigFile { tool: "tmux", base: Base::Home, path: ".tmux.conf" },
        ConfigFile { tool: "screen", base: Base::Home, path: ".screenrc" },
        ConfigFile { tool: "ssh", base: Base::Home, path: ".ssh/config" },
        ConfigFile { tool: "ssh", base: Base::Home, path: ".ssh/known_hosts" },
        ConfigFile { tool: "ssh", base: Base::Home, path: ".ssh/authorized_keys" },
        ConfigFile { tool: "gnupg", base: Base::Home, path: ".gnupg/gpg.conf" },
        ConfigFile { tool: "gnupg", base: Base::Home, path: ".gnupg/gpg-agent.conf" },
        ConfigFile { tool: "curl", base: Base::Home, path: ".curlrc" },
        ConfigFile { tool: "wget", base: Base::Home, path: ".wgetrc" },
        ConfigFile { tool: "netrc", base: Base::Home, path: ".netrc" },
        ConfigFile { tool: "aws", base: Base::Home, path: ".aws/config" },
        ConfigFile { tool: "aws", base: Base::Home, path: ".aws/credentials" },
        ConfigFile { tool: "docker", base: Base::Home, path: ".docker/config.json" },
        ConfigFile { tool: "kubectl", base: Base::Home, path: ".kube/config" },
        ConfigFile { tool: "npm", base: Base::Home, path: ".npmrc" },
        ConfigFile { tool: "yarn", base: Base::Home, path: ".yarnrc" },
        ConfigFile { tool: "cargo", base: Base::Home, path: ".cargo/config.toml" },
        ConfigFile { tool: "gem", base: Base::Home, path: ".gemrc" },
        ConfigFile { tool: "conda", base: Base::Home, path: ".condarc" },
        ConfigFile { tool: "terraform", base: Base::Home, path: ".terraformrc" },
        ConfigFile { tool: "mysql", base: Base::Home, path: ".my.cnf" },
        ConfigFile { tool: "psql", base: Base::Home, path: ".psqlrc" },
        ConfigFile { tool: "irb", base: Base::Home, path: ".irbrc" },
        ConfigFile { tool: "nano", base: Base::Home, path: ".nanorc" },
        ConfigFile { tool: "ack", base: Base::Home, path: ".ackrc" },
        ConfigFile { tool: "ctags", base: Base::Home, path: ".ctags" },
        ConfigFile { tool: "editorconfig", base: Base::Home, path: ".editorconfig" },
        ConfigFile { tool: "dircolors", base: Base::Home, path: ".dir_colors" },
        ConfigFile { tool: "x11", base: Base::Home, path: ".Xresources" },
        ConfigFile { tool: "x11", base: Base::Home, path: ".xinitrc" },
        ConfigFile { tool: "x11", base: Base::Home, path: ".xprofile" },
        ConfigFile { tool: "nvim", base: Base::XdgConfig, path: "nvim/init.lua" },
        ConfigFile { tool: "nvim", base: Base::XdgConfig, path: "nvim/init.vim" },
        ConfigFile { tool: "git", base: Base::XdgConfig, path: "git/config" },
        ConfigFile { tool: "git", base: Base::XdgConfig, path: "git/ignore" },
        ConfigFile { tool: "fish", base: Base::XdgConfig, path: "fish/config.fish" },
        ConfigFile { tool: "nushell", base: Base::XdgConfig, path: "nushell/config.nu" },
        ConfigFile { tool: "starship", base: Base::XdgConfig, path: "starship.toml" },
        ConfigFile { tool: "alacritty", base: Base::XdgConfig, path: "alacritty/alacritty.toml" },
        ConfigFile { tool: "kitty", base: Base::XdgConfig, path: "kitty/kitty.conf" },
        ConfigFile { tool: "wezterm", base: Base::XdgConfig, path: "wezterm/wezterm.lua" },
        ConfigFile { tool: "tmux", base: Base::XdgConfig, path: "tmux/tmux.conf" },
        ConfigFile { tool: "htop", base: Base::XdgConfig, path: "htop/htoprc" },
        ConfigFile { tool: "btop", base: Base::XdgConfig, path: "btop/btop.conf" },
        ConfigFile { tool: "bat", base: Base::XdgConfig, path: "bat/config" },
        ConfigFile { tool: "gh", base: Base::XdgConfig, path: "gh/config.yml" },
        ConfigFile { tool: "gh", base: Base::XdgConfig, path: "gh/hosts.yml" },
        ConfigFile { tool: "helix", base: Base::XdgConfig, path: "helix/config.toml" },
        ConfigFile { tool: "zellij", base: Base::XdgConfig, path: "zellij/config.kdl" },
        ConfigFile { tool: "lazygit", base: Base::XdgConfig, path: "lazygit/config.yml" },
        ConfigFile { tool: "k9s", base: Base::XdgConfig, path: "k9s/config.yaml" },
        ConfigFile { tool: "pip", base: Base::XdgConfig, path: "pip/pip.conf" },
        ConfigFile { tool: "ranger", base: Base::XdgConfig, path: "ranger/rc.conf" },
        ConfigFile { tool: "yazi", base: Base::XdgConfig, path: "yazi/yazi.toml" },
        ConfigFile { tool: "atuin", base: Base::XdgConfig, path: "atuin/config.toml" },
        ConfigFile { tool: "i3", base: Base::XdgConfig, path: "i3/config" },
        ConfigFile { tool: "sway", base: Base::XdgConfig, path: "sway/config" },
        ConfigFile { tool: "hosts", base: Base::Etc, path: "hosts" },
        ConfigFile { tool: "dns", base: Base::Etc, path: "resolv.conf" },
        ConfigFile { tool: "fstab", base: Base::Etc, path: "fstab" },
        ConfigFile { tool: "passwd", base: Base::Etc, path: "passwd" },
        ConfigFile { tool: "group", base: Base::Etc, path: "group" },
        ConfigFile { tool: "sudo", base: Base::Etc, path: "sudoers" },
        ConfigFile { tool: "cron", base: Base::Etc, path: "crontab" },
        ConfigFile { tool: "bash", base: Base::Etc, path: "bash.bashrc" },
        ConfigFile { tool: "sh", base: Base::Etc, path: "profile" },
        ConfigFile { tool: "environment", base: Base::Etc, path: "environment" },
        ConfigFile { tool: "sshd", base: Base::Etc, path: "ssh/sshd_config" },
        ConfigFile { tool: "ssh", base: Base::Etc, path: "ssh/ssh_config" },
        ConfigFile { tool: "nginx", base: Base::Etc, path: "nginx/nginx.conf" },
        ConfigFile { tool: "os-release", base: Base::Etc, path: "os-release" },
    ]
}

/// The relative path of every catalogue entry, in catalogue order.
pub fn all_potential_paths() -> (r: Vec<&'static str>)
    ensures
        r@.len() == spec_config_files().len(),
        forall|i: int| 0 <= i < r@.len() ==> r@[i] == #[trigger] spec_config_files()[i].path,
{
    let files = config_files();
    let mut out: Vec<&'static str> = Vec::new();
    let mut i: usize = 0;
    while i < files.len()
        invariant
            files@ == spec_config_files(),
            i <= files@.len(),
            out@.len() == i,
            forall|j: int| 0 <= j < i ==> out@[j] == #[trigger] files@[j].path,
        decreases files@.len() - i,
    {
        out.push(files[i].path);
        i = i + 1;
    }
    out
}

/// The entries of `items` whose flag in `keep` is set, in their order.
pub open spec fn spec_select(items: Seq<ConfigFile>, keep: Seq<bool>) -> Seq<ConfigFile>
    decreases items.len(),
{
    if items.len() == 0 {
        Seq::empty()
    } else {
        let rest = spec_select(items.drop_last(), keep.drop_last());
        if keep.last() {
            rest.push(items.last())
        } else {
            rest
        }
    }
}

/// The entries of `files` whose flag in `present` is set, in their order.
pub fn select_present(files: &Vec<ConfigFile>, present: &Vec<bool>) -> (r: Vec<ConfigFile>)
    requires
        files@.len() == present@.len(),
    ensures
        r@ == spec_select(files@, present@),
{
    let mut out: Vec<ConfigFile> = Vec::new();
    let mut i: usize = 0;
    while i < files.len()
        invariant
            files@.len() == present@.len(),
            i <= files@.len(),
            out@ == spec_select(files@.take(i as int), present@.take(i as int)),
        decreases files@.len() - i,
    {
        proof {
            assert(files@.take(i + 1).drop_last() =~= files@.take(i as int));
            assert(present@.take(i + 1).drop_last() =~= present@.take(i as int));
        }
        if present[i] {
            out.push(files[i]);
        }
        i = i + 1;
    }
    assert(files@.take(files@.len() as int) =~= files@);
    assert(present@.take(present@.len() as int) =~= present@);
    out
}

/// Every catalogue entry that is on disk on this machine, in catalogue order.
///
/// Each entry is checked with [`ConfigFile::exists_on_disk`] under `xdg`;
/// the entries whose check answered `true` are kept by [`select_present`].
/// Which answers the file system gives is decided at the moment of the call:
/// the result is the catalogue filtered by those answers.
pub fn existing(xdg: &XdgVars) -> (r: Vec<ConfigFile>)
    ensures
        exists|present: Seq<bool>|
            #![trigger spec_select(spec_config_files(), present)]
            present.len() == spec_config_files().len() && r@ == spec_select(spec_config_files(), present),
{
    let files = config_files();
    let mut present: Vec<bool> = Vec::new();
    let mut i: usize = 0;
    while i < files.len()
        invariant
            i <= files@.len(),
            present@.len() == i,
        decreases files@.len() - i,
    {
        present.push(files[i].exists_on_disk(xdg));
        i = i + 1;
    }
    let r = select_present(&files, &present);
    assert(r@ == spec_select(spec_config_files(), present@));
    r
}

/// The first catalogue entry of `cat` whose relative path is `p`.
pub open spec fn spec_find_by_path(cat: Seq<ConfigFile>, p: Seq<char>) -> Option<ConfigFile>
    decreases cat.len(),
{
    if cat.len() == 0 {
        None
    } else if cat[0].path@ == p {
        Some(cat[0])
    } else {
        spec_find_by_path(cat.drop_first(), p)
    }
}

/// For each path of `paths` in turn, the first entry of `cat` with that
/// relative path; paths that match no entry are skipped.
pub open spec fn spec_from_paths(cat: Seq<ConfigFile>, paths: Seq<Seq<char>>) -> Seq<ConfigFile>
    decreases paths.len(),
{
    if paths.len() == 0 {
        Seq::empty()
    } else {
        let rest = spec_from_paths(cat, paths.drop_last());
        match spec_find_by_path(cat, paths.last()) {
            Some(c) => rest.push(c),
            None => rest,
        }
    }
}

/// The first catalogue entry whose relative path is `p`.
fn find_by_path(files: &Vec<ConfigFile>, p: &String) -> (r: Option<ConfigFile>)
    ensures
        r == spec_find_by_path(files@, p@),
{
    let mut i: usize = 0;
    assert(files@.skip(0) =~= files@);
    while i < files.len()
        invariant
            i <= files@.len(),
            spec_find_by_path(files@, p@) == spec_find_by_path(files@.skip(i as int), p@),
        decreases files@.len() - i,
    {
        let candidate = files[i].path.to_owned();
        assert(files@.skip(i as int).drop_first() =~= files@.skip(i + 1));
        if candidate == *p {
            return Some(files[i]);
        }
        i = i + 1;
    }
    assert(files@.skip(i as int) =~= Seq::<ConfigFile>::empty());
    None
}

/// Given relative configuration paths, the matching catalogue entries: for
/// each path in turn the first entry with that path; unknown paths are
/// skipped.
pub fn configs_from_paths(paths: Vec<String>) -> (r: Vec<ConfigFile>)
    ensures
        r@ == spec_from_paths(spec_config_files(), paths.deep_view()),
{
    let files = config_files();
    let mut out: Vec<ConfigFile> = Vec::new();
    let mut i: usize = 0;
    while i < paths.len()
        invariant
            files@ == spec_config_files(),
            i <= paths@.len(),
            out@ == spec_from_paths(files@, paths.deep_view().take(i as int)),
        decreases paths@.len() - i,
    {
        let found = find_by_path(&files, &paths[i]);
        proof {
            assert(paths.deep_view().take(i + 1).drop_last() =~= paths.deep_view().take(i as int));
            assert(paths.deep_view().take(i + 1).last() == paths[i as int]@);
        }
        match found {
            Some(c) => out.push(c),
            None => {},
        }
        i = i + 1;
    }
    assert(paths.deep_view().take(paths@.len() as int) =~= paths.deep_view());
    out
}

/// Looking paths up one list after another gives the same entries as looking
/// up the joined list.
pub proof fn lemma_from_paths_concat(cat: Seq<ConfigFile>, a: Seq<Seq<char>>, b: Seq<Seq<char>>)
    ensures
        spec_from_paths(cat, a + b) == spec_from_paths(cat, a) + spec_from_paths(cat, b),
    decreases b.len(),
{
    if b.len() == 0 {
        assert(a + b =~= a);
        assert(spec_from_paths(cat, a) + spec_from_paths(cat, b) =~= spec_from_paths(cat, a));
    } else {
        assert((a + b).drop_last() =~= a + b.drop_last());
        assert((a + b).last() == b.last());
        lemma_from_paths_concat(cat, a, b.drop_last());
        match spec_find_by_path(cat, b.last()) {
            Some(c) => {
                assert(spec_from_paths(cat, a) + spec_from_paths(cat, b) =~= (spec_from_paths(cat, a)
                    + spec_from_paths(cat, b.drop_last())).push(c));
            },
            None => {},
        }
    }
}

/// What a lookup by path finds is an entry of the catalogue with that path.
pub proof fn lemma_find_by_path_found(cat: Seq<ConfigFile>, p: Seq<char>)
    ensures
        spec_find_by_path(cat, p) matches Some(c) ==> cat.contains(c) && c.path@ == p,
        (exists|i: int| 0 <= i < cat.len() && (#[trigger] cat[i]).path@ == p) ==> spec_find_by_path(cat, p) is Some,
    decreases cat.len(),
{
    if cat.len() > 0 {
        lemma_find_by_path_found(cat.drop_first(), p);
        match spec_find_by_path(cat, p) {
            Some(c) => {
                if cat[0].path@ != p {
                    let j = choose|j: int| 0 <= j < cat.drop_first().len() && cat.drop_first()[j] == c;
                    assert(cat[j + 1] == c);
                } else {
                    assert(cat[0] == c);
                }
            },
            None => {},
        }
        if exists|i: int| 0 <= i < cat.len() && (#[trigger] cat[i]).path@ == p {
            let i = choose|i: int| 0 <= i < cat.len() && (#[trigger] cat[i]).path@ == p;
            if i > 0 {
                assert(cat.drop_first()[i - 1] == cat[i]);
            }
        }
    }
}

/// Choosing paths of the catalogue is lossless: each chosen path comes back,
/// in order, as a catalogue entry with that path.
pub proof fn lemma_from_paths_keeps_known_paths(cat: Seq<ConfigFile>, ps: Seq<Seq<char>>)
    requires
        forall|k: int| 0 <= k < ps.len() ==> exists|i: int| 0 <= i < cat.len() && (#[trigger] cat[i]).path@ == #[trigger] ps[k],
    ensures
        spec_from_paths(cat, ps).len() == ps.len(),
        forall|k: int| 0 <= k < ps.len() ==> (#[trigger] spec_from_paths(cat, ps)[k]).path@ == ps[k]
            && cat.contains(spec_from_paths(cat, ps)[k]),
    decreases ps.len(),
{
    if ps.len() > 0 {
        lemma_from_paths_keeps_known_paths(cat, ps.drop_last());
        assert(ps.drop_last().len() == ps.len() - 1);
        let last = ps[ps.len() - 1];
        assert(exists|i: int| 0 <= i < cat.len() && (#[trigger] cat[i]).path@ == last);
        lemma_find_by_path_found(cat, last);
        assert forall|k: int| 0 <= k < ps.len() implies (#[trigger] spec_from_paths(cat, ps)[k]).path@
            == ps[k] && cat.contains(spec_from_paths(cat, ps)[k]) by {
            if k < ps.len() - 1 {
                assert(ps.drop_last()[k] == ps[k]);
            }
        }
    }
}

/// Every entry that a lookup returns belongs to the catalogue, and there are
/// never more entries than paths.
pub proof fn lemma_from_paths_within_catalog(cat: Seq<ConfigFile>, ps: Seq<Seq<char>>)
    ensures
        spec_from_paths(cat, ps).len() <= ps.len(),
        forall|k: int| 0 <= k < spec_from_paths(cat, ps).len() ==> cat.contains(#[trigger] spec_from_paths(cat, ps)[k]),
    decreases ps.len(),
{
    if ps.len() > 0 {
        lemma_from_paths_within_catalog(cat, ps.drop_last());
        lemma_find_by_path_found(cat, ps.last());
        let rest = spec_from_paths(cat, ps.drop_last());
        assert forall|k: int| 0 <= k < spec_from_paths(cat, ps).len() implies cat.contains(#[trigger] spec_from_paths(cat, ps)[k]) by {
            if k < rest.len() {
                assert(spec_from_paths(cat, ps)[k] == rest[k]);
            }
        }
    }
}

/// The relative paths of a list of entries, in order.
pub open spec fn spec_paths_of(s: Seq<ConfigFile>) -> Seq<Seq<char>> {
    s.map_values(|c: ConfigFile| c.path@)
}

/// In a list whose paths are pairwise distinct, looking up the path of an
/// entry finds that entry.
pub proof fn lemma_find_by_path_distinct(cat: Seq<ConfigFile>, k: int)
    requires
        0 <= k < cat.len(),
        forall|i: int, j: int|
            0 <= i < cat.len() && 0 <= j < cat.len() && i != j ==> (#[trigger] cat[i]).path@ != (#[trigger] cat[j]).path@,
    ensures
        spec_find_by_path(cat, cat[k].path@) == Some(cat[k]),
    decreases k,
{
    if k > 0 {
        let rest = cat.drop_first();
        assert(cat[0].path@ != cat[k].path@);
        assert(rest[k - 1] == cat[k]);
        assert forall|i: int, j: int|
            0 <= i < rest.len() && 0 <= j < rest.len() && i != j implies (#[trigger] rest[i]).path@
                != (#[trigger] rest[j]).path@ by {
            assert(rest[i] == cat[i + 1]);
            assert(rest[j] == cat[j + 1]);
        }
        lemma_find_by_path_distinct(rest, k - 1);
    }
}

/// In a catalogue whose paths are pairwise distinct, looking up the paths
/// of any list of its entries gives back exactly that list.
pub proof fn lemma_from_paths_of_entries(cat: Seq<ConfigFile>, s: Seq<ConfigFile>)
    requires
        forall|i: int, j: int|
            0 <= i < cat.len() && 0 <= j < cat.len() && i != j ==> (#[trigger] cat[i]).path@ != (#[trigger] cat[j]).path@,
        forall|m: int| 0 <= m < s.len() ==> cat.contains(#[trigger] s[m]),
    ensures
        spec_from_paths(cat, spec_paths_of(s)) == s,
    decreases s.len(),
{
    if s.len() == 0 {
        assert(spec_paths_of(s) =~= Seq::<Seq<char>>::empty());
    } else {
        let init = s.drop_last();
        assert(spec_paths_of(s).drop_last() =~= spec_paths_of(init));
        assert forall|m: int| 0 <= m < init.len() implies cat.contains(#[trigger] init[m]) by {
            assert(init[m] == s[m]);
        }
        lemma_from_paths_of_entries(cat, init);
        assert(cat.contains(s[s.len() - 1]));
        let k = choose|k: int| 0 <= k < cat.len() && cat[k] == s[s.len() - 1];
        lemma_find_by_path_distinct(cat, k);
        assert(spec_paths_of(s).last() == s.last().path@);
        assert(init.push(s.last()) =~= s);
    }
}

/// The entries kept by a selection all belong to the list selected from.
pub proof fn lemma_select_within(items: Seq<ConfigFile>, keep: Seq<bool>)
    requires
        keep.len() == items.len(),
    ensures
        forall|m: int| 0 <= m < spec_select(items, keep).len() ==> items.contains(#[trigger] spec_select(items, keep)[m]),
    decreases items.len(),
{
    if items.len() > 0 {
        let rest = spec_select(items.drop_last(), keep.drop_last());
        lemma_select_within(items.drop_last(), keep.drop_last());
        assert forall|m: int| 0 <= m < spec_select(items, keep).len() implies items.contains(#[trigger] spec_select(items, keep)[m]) by {
            if m < rest.len() {
                assert(spec_select(items, keep)[m] == rest[m]);
                let k = choose|k: int| 0 <= k < items.drop_last().len() && items.drop_last()[k] == rest[m];
                assert(items[k] == rest[m]);
            } else {
                assert(items[items.len() - 1] == spec_select(items, keep)[m]);
            }
        }
    }
}

/// Looking up every path the catalogue lists gives back the catalogue itself.
pub proof fn lemma_all_paths_round_trip()
    ensures
        spec_from_paths(spec_config_files(), spec_paths_of(spec_config_files())) == spec_config_files(),
{
    let cat = spec_config_files();
    lemma_catalog_paths_distinct();
    assert forall|m: int| 0 <= m < cat.len() implies cat.contains(#[trigger] cat[m]) by {}
    lemma_from_paths_of_entries(cat, cat);
}

/// Looking up the paths of the files found on disk gives back exactly those
/// files, whichever of them the disk holds.
pub proof fn lemma_found_paths_round_trip(present: Seq<bool>)
    requires
        present.len() == spec_config_files().len(),
    ensures
        spec_from_paths(spec_config_files(), spec_paths_of(spec_select(spec_config_files(), present)))
            == spec_select(spec_config_files(), present),
{
    let cat = spec_config_files();
    lemma_catalog_paths_distinct();
    lemma_select_within(cat, present);
    lemma_from_paths_of_entries(cat, spec_select(cat, present));
}

/// An `/etc` entry resolves to the same path whatever the environment holds.
pub proof fn lemma_etc_ignores_environment(
    cfg: ConfigFile,
    home1: Option<Seq<char>>,
    config1: Option<Seq<char>>,
    data1: Option<Seq<char>>,
    home2: Option<Seq<char>>,
    config2: Option<Seq<char>>,
    data2: Option<Seq<char>>,
)
    requires
        cfg.base == Base::Etc,
    ensures
        spec_resolve(cfg, home1, config1, data1) == spec_resolve(cfg, home2, config2, data2),
        spec_resolve(cfg, home1, config1, data1) == Some(spec_join_path("/etc"@, cfg.path@)),
{
}

/// An XDG variable that holds an absolute path is used as the directory, and
/// the home directory is then not consulted.
pub proof fn lemma_usable_xdg_overrides_home(
    cfg: ConfigFile,
    home1: Option<Seq<char>>,
    home2: Option<Seq<char>>,
    config: Option<Seq<char>>,
    data: Option<Seq<char>>,
)
    requires
        cfg.base == Base::XdgConfig ==> config is Some && spec_xdg_usable(config->0),
        cfg.base == Base::XdgData ==> data is Some && spec_xdg_usable(data->0),
        cfg.base == Base::XdgConfig || cfg.base == Base::XdgData,
    ensures
        spec_resolve(cfg, home1, config, data) == spec_resolve(cfg, home2, config, data),
        cfg.base == Base::XdgConfig ==> spec_resolve(cfg, home1, config, data) == Some(
            spec_join_path(config->0, cfg.path@),
        ),
        cfg.base == Base::XdgData ==> spec_resolve(cfg, home1, config, data) == Some(
            spec_join_path(data->0, cfg.path@),
        ),
{
}

/// A resolved path ends with a slash and the entry's relative path, when that
/// path is relative and the home directory (if known) is not empty.
pub proof fn lemma_resolved_ends_with_relative_path(
    cfg: ConfigFile,
    home: Option<Seq<char>>,
    config: Option<Seq<char>>,
    data: Option<Seq<char>>,
)
    requires
        cfg.path@.len() > 0,
        cfg.path@[0] != '/',
        home matches Some(h) ==> h.len() > 0,
    ensures
        spec_resolve(cfg, home, config, data) matches Some(p) ==> {
            let rel = cfg.path@;
            &&& p.len() > rel.len()
            &&& p.subrange(p.len() - rel.len(), p.len() as int) == rel
            &&& p[p.len() - rel.len() - 1] == '/'
        },
{
    reveal_strlit("/etc");
    reveal_strlit(".config");
    reveal_strlit(".local/share");
    let rel = cfg.path@;
    if let Some(root) = spec_base_root(cfg.base, home, config, data) {
        assert(root.len() > 0);
        let p = spec_join_path(root, rel);
        if root.last() == '/' {
            assert(p =~= root + rel);
            assert(p.subrange(p.len() - rel.len(), p.len() as int) =~= rel);
            assert(p[p.len() - rel.len() - 1] == root[root.len() - 1]);
        } else {
            assert(p =~= root + seq!['/'] + rel);
            assert(p.subrange(p.len() - rel.len(), p.len() as int) =~= rel);
        }
    }
}

} // verus!
