//! The answers gathered by the setup dialogue and the checks applied to them.

use vstd::prelude::*;

use crate::configs::ConfigList;
use crate::text::{chars_of, join_path, spec_join_path};

verus! {

/// Why the setup dialogue stopped without answers.
#[derive(Debug, Clone, Copy, PartialEq, Eq, Structural)]
pub enum PromptError {
    /// The greeting could not be shown.
    CoreInitFailure,
    /// A prompt was cancelled, or the dialogue was not wanted.
    CanceledPrompt,
    /// An answer had an unusable length.
    ResponseLength,
    /// The overwrite question or the goodbye failed.
    SaveFailure,
    /// The selection of configuration files failed.
    UnableToFindTool,
}

/// The answers of the setup dialogue.
#[derive(Clone, Debug)]
pub struct InitResponses {
    /// The user's GitHub username.
    pub gh_username: String,
    /// The repository that hosts the configuration files.
    pub gh_repo_name: String,
    /// The local directory where pending changes are kept.
    pub local_path: String,
    /// The configuration files chosen for tracking.
    pub configs: ConfigList,
}

/// What the metadata file records between runs.
#[derive(Clone, Debug)]
pub struct Metadata {
    /// The configuration files being tracked.
    pub tracked_files: ConfigList,
}

/// An ASCII letter or digit.
pub open spec fn spec_ascii_alnum(c: char) -> bool {
    ('a' <= c && c <= 'z') || ('A' <= c && c <= 'Z') || ('0' <= c && c <= '9')
}

/// The shape `[a-zA-Z0-9](?:[a-zA-Z0-9]|-[a-zA-Z0-9])*`: letters and digits,
/// where every hyphen stands between two of them.
pub open spec fn spec_gh_username_shape(s: Seq<char>) -> bool {
    &&& s.len() > 0
    &&& spec_ascii_alnum(s[0])
    &&& forall|i: int|
        0 <= i < s.len() ==> spec_ascii_alnum(#[trigger] s[i]) || (s[i] == '-' && i + 1 < s.len()
            && spec_ascii_alnum(s[i + 1]))
}

/// A GitHub username: of the shape above and at most 39 characters long.
pub open spec fn spec_valid_gh_username(s: Seq<char>) -> bool {
    s.len() <= 39 && spec_gh_username_shape(s)
}

/// Names what the `regex` crate counts as a word character (`\w`) beyond
/// ASCII.
pub uninterp spec fn spec_word_char(c: char) -> bool;

/// Calls `regex::Regex::is_match` with the pattern `^\w$` on the one-character
/// string `c`: whether the regex crate's Unicode word class holds `c`.
#[verifier::external_body]
fn is_word_char(c: char) -> (r: bool)
    ensures
        r == spec_word_char(c),
{
    let mut buf = [0u8; 4];
    regex::Regex::new(r"^\w$").unwrap().is_match(c.encode_utf8(&mut buf))
}

/// A character that may stand in a path segment (`[\w.-]`): a word character,
/// `.` or `-`. Among ASCII characters the word characters are the letters, the
/// digits and `_`; beyond ASCII, those of the regex crate's Unicode class.
pub open spec fn spec_segment_char(c: char) -> bool {
    if c <= '\x7f' {
        spec_ascii_alnum(c) || c == '_' || c == '.' || c == '-'
    } else {
        spec_word_char(c)
    }
}

/// Segment characters and slashes, where every slash is followed by a segment
/// character (`[\w.-]*(?:/[\w.-]+)*`).
pub open spec fn spec_slashed_segments(t: Seq<char>) -> bool {
    forall|i: int|
        0 <= i < t.len() ==> spec_segment_char(#[trigger] t[i]) || (t[i] == '/' && i + 1 < t.len()
            && spec_segment_char(t[i + 1]))
}

/// A path without its optional trailing slash: `~` followed by slashed
/// segments, the root `/`, or slashed segments (absolute or relative).
pub open spec fn spec_path_body(x: Seq<char>) -> bool {
    &&& x.len() > 0
    &&& if x[0] == '~' {
        spec_slashed_segments(x.skip(1))
    } else {
        x == seq!['/'] || spec_slashed_segments(x)
    }
}

/// A Unix-style path as the setup dialogue accepts it: a path body, possibly
/// followed by one slash.
pub open spec fn spec_valid_unix_path(s: Seq<char>) -> bool {
    spec_path_body(s) || (s.len() > 0 && s.last() == '/' && spec_path_body(s.drop_last()))
}

fn is_segment_char(c: char) -> (r: bool)
    ensures
        r == spec_segment_char(c),
{
    if c <= '\x7f' {
        is_ascii_alnum(c) || c == '_' || c == '.' || c == '-'
    } else {
        is_word_char(c)
    }
}

/// Whether `v[start..end]` is made of slashed segments.
fn slashed_segments(v: &Vec<char>, start: usize, end: usize) -> (r: bool)
    requires
        start <= end <= v@.len(),
    ensures
        r == spec_slashed_segments(v@.subrange(start as int, end as int)),
{
    let ghost t = v@.subrange(start as int, end as int);
    let mut i: usize = start;
    while i < end
        invariant
            start <= i <= end <= v@.len(),
            t == v@.subrange(start as int, end as int),
            forall|j: int|
                0 <= j < i - start ==> spec_segment_char(#[trigger] t[j]) || (t[j] == '/' && j + 1
                    < t.len() && spec_segment_char(t[j + 1])),
        decreases end - i,
    {
        let c = v[i];
        let ok = if is_segment_char(c) {
            true
        } else if c == '/' && i + 1 < end {
            is_segment_char(v[i + 1])
        } else {
            false
        };
        assert(t[i - start] == c);
        if !ok {
            assert(!(spec_segment_char(t[i - start]) || (t[i - start] == '/' && i - start + 1
                < t.len() && spec_segment_char(t[i - start + 1]))));
            return false;
        }
        i = i + 1;
    }
    true
}

/// Whether `v[..end]` is a path body.
fn path_body(v: &Vec<char>, end: usize) -> (r: bool)
    requires
        end <= v@.len(),
    ensures
        r == spec_path_body(v@.subrange(0, end as int)),
{
    let ghost x = v@.subrange(0, end as int);
    if end == 0 {
        return false;
    }
    if v[0] == '~' {
        assert(x.skip(1) =~= v@.subrange(1, end as int));
        slashed_segments(v, 1, end)
    } else if end == 1 && v[0] == '/' {
        assert(x =~= seq!['/']);
        true
    } else {
        let r = slashed_segments(v, 0, end);
        assert(x != seq!['/']) by {
            if x == seq!['/'] {
                assert(x.len() == 1);
                assert(x[0] == '/');
            }
        }
        r
    }
}

impl InitResponses {
    /// Checks a GitHub username: letters, digits and single inner hyphens, 1 to
    /// 39 characters.
    pub fn regex_gh_username(user: &String) -> (r: bool)
        ensures
            r == spec_valid_gh_username(user@),
    {
        let v = chars_of(user.as_str());
        let n = v.len();
        if n == 0 || n > 39 {
            return false;
        }
        if !is_ascii_alnum(v[0]) {
            return false;
        }
        let mut i: usize = 0;
        while i < n
            invariant
                n == v@.len(),
                v@ == user@,
                i <= n,
                forall|j: int|
                    0 <= j < i ==> spec_ascii_alnum(#[trigger] v@[j]) || (v@[j] == '-' && j + 1 < n
                        && spec_ascii_alnum(v@[j + 1])),
            decreases n - i,
        {
            let c = v[i];
            let ok = if is_ascii_alnum(c) {
                true
            } else {
                c == '-' && i + 1 < n && is_ascii_alnum(v[i + 1])
            };
            if !ok {
                assert(!(spec_ascii_alnum(v@[i as int]) || (v@[i as int] == '-' && i + 1 < n
                    && spec_ascii_alnum(v@[i + 1]))));
                return false;
            }
            i = i + 1;
        }
        true
    }

    /// Checks a Unix-style path: `~`-relative, absolute or relative, with
    /// non-empty segments of word characters, `.` and `-`, and at most one
    /// trailing slash.
    pub fn regex_unix_path(path: &String) -> (r: bool)
        ensures
            r == spec_valid_unix_path(path@),
    {
        let v = chars_of(path.as_str());
        let n = v.len();
        assert(v@.subrange(0, n as int) =~= v@);
        if path_body(&v, n) {
            return true;
        }
        if n > 0 && v[n - 1] == '/' {
            assert(v@.subrange(0, n - 1) =~= v@.drop_last());
            path_body(&v, n - 1)
        } else {
            false
        }
    }
}

fn is_ascii_alnum(c: char) -> (r: bool)
    ensures
        r == spec_ascii_alnum(c),
{
    ('a' <= c && c <= 'z') || ('A' <= c && c <= 'Z') || ('0' <= c && c <= '9')
}

/// The repository name used when the user leaves the answer empty.
pub open spec fn spec_repo_name_or_default(name: Seq<char>) -> Seq<char> {
    if name.len() == 0 {
        "dotfiles"@
    } else {
        name
    }
}

/// The check applied to the GitHub username while the user types it: an
/// answer that starts with `@` is told to drop it, any other answer that is
/// not a valid GitHub username is refused.
pub fn validate_username_input(input: &String) -> (r: Result<(), &'static str>)
    ensures
        r is Ok <==> spec_valid_gh_username(input@),
        input@.len() > 0 && input@[0] == '@' ==> r == Err::<(), &'static str>("Do not include the @ symbol."),
        !(input@.len() > 0 && input@[0] == '@') && !spec_valid_gh_username(input@) ==> r == Err::<
            (),
            &'static str,
        >("Please specify a valid GitHub username."),
{
    let starts_with_at = input.as_str().unicode_len() > 0 && input.as_str().get_char(0) == '@';
    if starts_with_at {
        Err("Do not include the @ symbol.")
    } else if !InitResponses::regex_gh_username(input) {
        Err("Please specify a valid GitHub username.")
    } else {
        Ok(())
    }
}

/// The check applied to the local path while the user types it.
pub fn validate_path_input(input: &String) -> (r: Result<(), &'static str>)
    ensures
        input@.len() == 0 ==> r == Err::<(), &'static str>("Please enter a path."),
        input@.len() > 0 && !spec_valid_unix_path(input@) ==> r == Err::<(), &'static str>("Please enter a valid path"),
        input@.len() > 0 && spec_valid_unix_path(input@) ==> r == Ok::<(), &'static str>(()),
{
    if input.as_str().unicode_len() == 0 {
        Err("Please enter a path.")
    } else if !InitResponses::regex_unix_path(input) {
        Err("Please enter a valid path")
    } else {
        Ok(())
    }
}

/// The repository name, or `dotfiles` when the answer was left empty.
pub fn repo_name_or_default(name: String) -> (r: String)
    ensures
        r@ == spec_repo_name_or_default(name@),
{
    if name.as_str().unicode_len() == 0 {
        "dotfiles".to_owned()
    } else {
        name
    }
}

/// Where the dialogue looks for an earlier `meta.json`: the local path with
/// `/meta.json` appended.
pub fn existing_meta_path(local_path: &str) -> (r: String)
    ensures
        r@ == local_path@ + "/meta.json"@,
{
    let mut out = local_path.to_owned();
    out.append("/meta.json");
    out
}

impl InitResponses {
    /// The file the answers are saved to: `meta.json` inside the local path.
    pub fn meta_path(&self) -> (r: String)
        ensures
            r@ == spec_join_path(self.local_path@, "meta.json"@),
    {
        join_path(self.local_path.as_str(), "meta.json")
    }
}

/// A GitHub username is accepted exactly when it follows GitHub's rules: 1 to
/// 39 characters, only ASCII letters, digits and hyphens, no hyphen at the
/// start or the end, and no two hyphens in a row.
pub proof fn lemma_gh_username_rules(s: Seq<char>)
    ensures
        spec_valid_gh_username(s) <==> {
            &&& 1 <= s.len() <= 39
            &&& forall|i: int| 0 <= i < s.len() ==> spec_ascii_alnum(#[trigger] s[i]) || s[i] == '-'
            &&& s[0] != '-'
            &&& s.last() != '-'
            &&& forall|i: int| 0 <= i < s.len() - 1 ==> !(#[trigger] s[i] == '-' && s[i + 1] == '-')
        },
{
    if spec_valid_gh_username(s) {
        assert(spec_ascii_alnum(s[s.len() - 1]) || s[s.len() - 1] == '-');
        assert forall|i: int| 0 <= i < s.len() - 1 implies !(#[trigger] s[i] == '-' && s[i + 1] == '-') by {
            assert(spec_ascii_alnum(s[i]) || (s[i] == '-' && spec_ascii_alnum(s[i + 1])));
        }
    }
    if 1 <= s.len() <= 39
        && (forall|i: int| 0 <= i < s.len() ==> spec_ascii_alnum(#[trigger] s[i]) || s[i] == '-')
        && s[0] != '-' && s.last() != '-'
        && (forall|i: int| 0 <= i < s.len() - 1 ==> !(#[trigger] s[i] == '-' && s[i + 1] == '-')) {
        assert forall|i: int| 0 <= i < s.len() implies spec_ascii_alnum(#[trigger] s[i]) || (s[i]
            == '-' && i + 1 < s.len() && spec_ascii_alnum(s[i + 1])) by {
            if !spec_ascii_alnum(s[i]) {
                assert(s[i] == '-');
                assert(i != s.len() - 1);
                assert(spec_ascii_alnum(s[i + 1]) || s[i + 1] == '-');
            }
        }
        assert(spec_ascii_alnum(s[0]) || s[0] == '-');
    }
}

/// A valid GitHub username is non-empty and never starts with `@`.
pub proof fn lemma_valid_username_passes_input_check(s: Seq<char>)
    requires
        spec_valid_gh_username(s),
    ensures
        s.len() > 0 && s[0] != '@',
{
}

/// Appending a slash to an accepted path without one keeps it accepted.
pub proof fn lemma_trailing_slash_allowed(s: Seq<char>)
    requires
        spec_valid_unix_path(s),
        s.len() > 0,
        s.last() != '/',
    ensures
        spec_valid_unix_path(s.push('/')),
{
    assert(s.push('/').drop_last() =~= s);
}

/// An accepted path never holds two slashes in a row, except the path `//`
/// itself (the root followed by the optional trailing slash).
pub proof fn lemma_no_double_slash(s: Seq<char>)
    requires
        spec_valid_unix_path(s),
        s != seq!['/', '/'],
    ensures
        forall|i: int| 0 <= i < s.len() - 1 ==> !(#[trigger] s[i] == '/' && s[i + 1] == '/'),
{
    assert forall|i: int| 0 <= i < s.len() - 1 implies !(#[trigger] s[i] == '/' && s[i + 1] == '/') by {
        if s[i] == '/' && s[i + 1] == '/' {
            let x = if spec_path_body(s) { s } else { s.drop_last() };
            assert(spec_path_body(x));
            if x[0] == '~' {
                let t = x.skip(1);
                if i + 1 < x.len() {
                    assert(t[i - 1] == '/');
                    assert(spec_segment_char(t[i]));
                } else {
                    // the pair ends at the trailing slash
                    assert(x.len() == s.len() - 1);
                    if t.len() > 0 {
                        assert(t[t.len() - 1] == '/');
                        assert(spec_segment_char(t[t.len() - 1]) || (t[t.len() - 1] == '/' && t.len() < t.len()));
                    }
                }
            } else if x == seq!['/'] {
                if x.len() == s.len() {
                    assert(s.len() == 1);
                } else {
                    assert(s =~= seq!['/', '/']);
                }
            } else {
                if i + 1 < x.len() {
                    assert(x[i] == '/');
                    assert(spec_segment_char(x[i + 1]));
                } else {
                    assert(x[x.len() - 1] == '/');
                    assert(spec_segment_char(x[x.len() - 1]) || (x[x.len() - 1] == '/' && x.len() < x.len()));
                }
            }
        }
    }
}

/// In an accepted path a `~` can only be the first character.
pub proof fn lemma_tilde_only_first(s: Seq<char>)
    requires
        spec_valid_unix_path(s),
    ensures
        forall|i: int| 0 < i < s.len() ==> #[trigger] s[i] != '~',
{
    assert forall|i: int| 0 < i < s.len() implies #[trigger] s[i] != '~' by {
        let x = if spec_path_body(s) { s } else { s.drop_last() };
        if i < x.len() {
            assert(x[i] == s[i]);
            if x[0] == '~' {
                assert(x.skip(1)[i - 1] == x[i]);
                assert(spec_segment_char(x.skip(1)[i - 1]) || x.skip(1)[i - 1] == '/');
            } else if x != seq!['/'] {
                assert(spec_segment_char(x[i]) || x[i] == '/');
            }
        }
    }
}

/// A character of the portable file-name set: ASCII letters of either case,
/// digits, `_`, `.` and `-`.
pub open spec fn spec_portable_char(c: char) -> bool {
    ('a' <= c && c <= 'z') || ('A' <= c && c <= 'Z') || ('0' <= c && c <= '9') || c == '_' || c == '.'
        || c == '-'
}

proof fn lemma_portable_is_segment_char(c: char)
    requires
        spec_portable_char(c),
    ensures
        spec_segment_char(c),
{
}

/// Slashed segments stay slashed segments when a slash and a non-empty run of
/// portable characters are appended.
proof fn lemma_slashed_segments_extend(x: Seq<char>, t: Seq<char>)
    requires
        spec_slashed_segments(x),
        t.len() > 0,
        forall|i: int| 0 <= i < t.len() ==> spec_portable_char(#[trigger] t[i]),
    ensures
        spec_slashed_segments(x + seq!['/'] + t),
{
    let y = x + seq!['/'] + t;
    assert forall|i: int| 0 <= i < y.len() implies spec_segment_char(#[trigger] y[i]) || (y[i] == '/'
        && i + 1 < y.len() && spec_segment_char(y[i + 1])) by {
        if i < x.len() {
            assert(y[i] == x[i]);
            if !spec_segment_char(x[i]) {
                assert(x[i] == '/' && i + 1 < x.len() && spec_segment_char(x[i + 1]));
                assert(y[i + 1] == x[i + 1]);
            }
        } else if i == x.len() {
            assert(y[i + 1] == t[0]);
            lemma_portable_is_segment_char(t[0]);
        } else {
            assert(y[i] == t[i - x.len() - 1]);
            lemma_portable_is_segment_char(t[i - x.len() - 1]);
        }
    }
}

/// A non-empty run of portable characters (such as `my-dotfiles` or
/// `x86-64`) is an accepted relative path, also with a trailing slash, below
/// the root (`/my-dotfiles`) and below the home directory (`~/my-dotfiles`).
pub proof fn lemma_portable_names_accepted(t: Seq<char>)
    requires
        t.len() > 0,
        forall|i: int| 0 <= i < t.len() ==> spec_portable_char(#[trigger] t[i]),
    ensures
        spec_valid_unix_path(t),
        spec_valid_unix_path(t.push('/')),
        spec_valid_unix_path(seq!['/'] + t),
        spec_valid_unix_path(seq!['~', '/'] + t),
{
    assert forall|i: int| 0 <= i < t.len() implies spec_segment_char(#[trigger] t[i]) by {
        lemma_portable_is_segment_char(t[i]);
    }
    assert(spec_slashed_segments(t));
    assert(t[0] != '~');
    assert(spec_path_body(t));
    lemma_slashed_segments_extend(Seq::empty(), t);
    assert(Seq::<char>::empty() + seq!['/'] + t =~= seq!['/'] + t);
    let root = seq!['/'] + t;
    assert(root[0] == '/');
    assert(root != seq!['/']);
    assert(spec_path_body(root));
    let home = seq!['~', '/'] + t;
    assert(home.skip(1) =~= root);
    assert(spec_path_body(home));
    lemma_trailing_slash_allowed(t);
}

/// Appending a slash and a non-empty run of portable characters to an
/// accepted path without a trailing slash gives an accepted path: every
/// further segment such as `local`, `x86-64` or `.config` is allowed.
pub proof fn lemma_accepted_path_extends(p: Seq<char>, t: Seq<char>)
    requires
        spec_valid_unix_path(p),
        p.len() > 0,
        p.last() != '/',
        t.len() > 0,
        forall|i: int| 0 <= i < t.len() ==> spec_portable_char(#[trigger] t[i]),
    ensures
        spec_valid_unix_path(p + seq!['/'] + t),
{
    let q = p + seq!['/'] + t;
    assert(spec_path_body(p));
    assert(q[0] == p[0]);
    if p[0] == '~' {
        lemma_slashed_segments_extend(p.skip(1), t);
        assert(q.skip(1) =~= p.skip(1) + seq!['/'] + t);
    } else {
        assert(p != seq!['/']);
        lemma_slashed_segments_extend(p, t);
        assert(q.len() > 1);
        assert(q != seq!['/']);
    }
    assert(spec_path_body(q));
}

/// Every name of 1 to 39 ASCII letters (of either case) and digits is a
/// valid GitHub username, such as `JohnSmith` or `user123`.
pub proof fn lemma_letters_and_digits_username(s: Seq<char>)
    requires
        1 <= s.len() <= 39,
        forall|i: int|
            0 <= i < s.len() ==> ('a' <= #[trigger] s[i] && s[i] <= 'z') || ('A' <= s[i] && s[i] <= 'Z')
                || ('0' <= s[i] && s[i] <= '9'),
    ensures
        spec_valid_gh_username(s),
{
    assert(spec_ascii_alnum(s[0]));
}

/// Two valid GitHub usernames joined by one hyphen form a valid username
/// when the whole fits in 39 characters (`john` and `Smith` give
/// `john-Smith`).
pub proof fn lemma_hyphen_joined_username(a: Seq<char>, b: Seq<char>)
    requires
        spec_valid_gh_username(a),
        spec_valid_gh_username(b),
        a.len() + 1 + b.len() <= 39,
    ensures
        spec_valid_gh_username(a + seq!['-'] + b),
{
    let s = a + seq!['-'] + b;
    assert(s[0] == a[0]);
    assert forall|i: int| 0 <= i < s.len() implies spec_ascii_alnum(#[trigger] s[i]) || (s[i] == '-' && i
        + 1 < s.len() && spec_ascii_alnum(s[i + 1])) by {
        if i < a.len() {
            assert(s[i] == a[i]);
            if !spec_ascii_alnum(a[i]) {
                assert(a[i] == '-' && i + 1 < a.len() && spec_ascii_alnum(a[i + 1]));
                assert(s[i + 1] == a[i + 1]);
            }
        } else if i == a.len() {
            assert(s[i + 1] == b[0]);
        } else {
            let k = i - a.len() - 1;
            assert(s[i] == b[k]);
            if !spec_ascii_alnum(b[k]) {
                assert(b[k] == '-' && k + 1 < b.len() && spec_ascii_alnum(b[k + 1]));
                assert(s[i + 1] == b[k + 1]);
            }
        }
    }
}

} // verus!
