//! The decisions of the setup dialogue, as a state machine.
//!
//! The caller performs the action that [`InitFlow::action`] names (shows a
//! prompt, checks the disk, scans for configuration files), hands what
//! happened back to [`InitFlow::step`], and repeats until the action is to
//! finish or to abort.

use vstd::prelude::*;

use crate::configs::{ConfigFile, ConfigList, configs_from_paths, spec_config_files, spec_from_paths};
use crate::init::{
    InitResponses, PromptError, existing_meta_path, repo_name_or_default,
    spec_repo_name_or_default, spec_valid_gh_username, spec_valid_unix_path, validate_path_input, validate_username_input,
};
use crate::selection::{prompt_items, spec_offered};

verus! {

/// The step the setup dialogue is at.
#[derive(Debug, Clone, Copy, PartialEq, Eq, Structural)]
pub enum InitStage {
    /// Greeting the user.
    Intro,
    /// Asking for the GitHub username.
    Username,
    /// Asking for the repository name.
    RepoName,
    /// Asking for the local path of pending changes.
    LocalPath,
    /// Checking whether a `meta.json` already exists there.
    MetaCheck,
    /// Asking whether to overwrite the existing `meta.json`.
    Overwrite,
    /// Telling the user that the machine is about to be scanned.
    ScanNotice,
    /// Scanning the machine for configuration files.
    Scan,
    /// Asking which of the found files to track.
    Select,
    /// Saying goodbye.
    Outro,
    /// Ended, with answers or with an error.
    Finished,
    /// Ended because the user declined to overwrite `meta.json`.
    Aborted,
}

/// The state of the setup dialogue: the stage and the answers so far.
pub struct InitFlow {
    pub stage: InitStage,
    pub username: String,
    pub repo_name: String,
    pub local_path: String,
    /// The configuration files found on this machine.
    pub found: ConfigList,
    /// The configuration files chosen for tracking.
    pub configs: ConfigList,
    /// Why the dialogue ended, when it ended with an error.
    pub error: Option<PromptError>,
}

/// The mathematical state of the dialogue.
pub struct InitFlowView {
    pub stage: InitStage,
    pub username: Seq<char>,
    pub repo_name: Seq<char>,
    pub local_path: Seq<char>,
    pub found: Seq<ConfigFile>,
    pub configs: Seq<ConfigFile>,
    pub error: Option<PromptError>,
}

impl View for InitFlow {
    type V = InitFlowView;

    open spec fn view(&self) -> InitFlowView {
        InitFlowView {
            stage: self.stage,
            username: self.username@,
            repo_name: self.repo_name@,
            local_path: self.local_path@,
            found: self.found@,
            configs: self.configs@,
            error: self.error,
        }
    }
}

/// What the caller observed after carrying out the last action.
pub enum InitEvent {
    /// The message was shown.
    Shown,
    /// The prompt was cancelled by the user or could not be shown.
    Cancelled,
    /// The user's answer to a text prompt.
    Answered(String),
    /// The answer to a yes/no question: whether `meta.json` exists, or
    /// whether the user agrees to overwrite it.
    Decided(bool),
    /// The configuration files found on this machine.
    Found(ConfigList),
    /// The relative paths of the files the user chose.
    Chosen(Vec<String>),
}

/// The mathematical form of an event.
pub enum InitEventView {
    Shown,
    Cancelled,
    Answered(Seq<char>),
    Decided(bool),
    Found(Seq<ConfigFile>),
    Chosen(Seq<Seq<char>>),
}

impl View for InitEvent {
    type V = InitEventView;

    open spec fn view(&self) -> InitEventView {
        match self {
            InitEvent::Shown => InitEventView::Shown,
            InitEvent::Cancelled => InitEventView::Cancelled,
            InitEvent::Answered(s) => InitEventView::Answered(s@),
            InitEvent::Decided(b) => InitEventView::Decided(*b),
            InitEvent::Found(l) => InitEventView::Found(l@),
            InitEvent::Chosen(ps) => InitEventView::Chosen(ps.deep_view()),
        }
    }
}

/// What the caller must do next.
pub enum InitAction {
    /// Greet the user and explain what the dialogue is for.
    ShowIntro,
    /// Ask for the GitHub username (checked with `validate_username_input`).
    AskUsername,
    /// Ask for the repository name (may be left empty).
    AskRepoName,
    /// Ask for the local path (checked with `validate_path_input`).
    AskLocalPath,
    /// Report whether a file exists at this path.
    CheckMeta(String),
    /// Ask whether the `meta.json` in this directory may be overwritten.
    AskOverwrite(String),
    /// Tell the user that the machine is being scanned.
    ShowScanNotice,
    /// Scan the machine for configuration files.
    Scan,
    /// Offer these items (value, label, hint) for selection.
    AskSelect(Vec<(String, String, String)>),
    /// Say goodbye.
    ShowOutro,
    /// Save the answers (when there are any) and return this result.
    Finish(Result<InitResponses, PromptError>),
    /// Tell the user that the answers are discarded and exit with status 1.
    Abort,
}

/// A GitHub username answer that the dialogue accepts: a valid GitHub
/// username.
pub open spec fn spec_username_accepted(u: Seq<char>) -> bool {
    spec_valid_gh_username(u)
}

/// A local path answer that the dialogue accepts.
pub open spec fn spec_path_accepted(p: Seq<char>) -> bool {
    p.len() > 0 && spec_valid_unix_path(p)
}

/// `f` moved to stage `s`, answers unchanged.
pub open spec fn spec_at(f: InitFlowView, s: InitStage) -> InitFlowView {
    InitFlowView { stage: s, ..f }
}

/// `f` ended with error `e`.
pub open spec fn spec_failed(f: InitFlowView, e: PromptError) -> InitFlowView {
    InitFlowView { stage: InitStage::Finished, error: Some(e), ..f }
}

/// The state after event `e` in state `f`. A cancelled prompt ends the
/// dialogue with the error that belongs to it; an answer that its check
/// refuses, or an event that does not fit the stage, leaves the state as it
/// is, so the same action is asked for again.
pub open spec fn spec_step(f: InitFlowView, e: InitEventView) -> InitFlowView {
    match f.stage {
        InitStage::Intro => match e {
            InitEventView::Shown => spec_at(f, InitStage::Username),
            InitEventView::Cancelled => spec_failed(f, PromptError::CoreInitFailure),
            _ => f,
        },
        InitStage::Username => match e {
            InitEventView::Answered(u) => if spec_username_accepted(u) {
                InitFlowView { stage: InitStage::RepoName, username: u, ..f }
            } else {
                f
            },
            InitEventView::Cancelled => spec_failed(f, PromptError::CanceledPrompt),
            _ => f,
        },
        InitStage::RepoName => match e {
            InitEventView::Answered(r) => InitFlowView {
                stage: InitStage::LocalPath,
                repo_name: spec_repo_name_or_default(r),
                ..f
            },
            InitEventView::Cancelled => spec_failed(f, PromptError::CanceledPrompt),
            _ => f,
        },
        InitStage::LocalPath => match e {
            InitEventView::Answered(p) => if spec_path_accepted(p) {
                InitFlowView { stage: InitStage::MetaCheck, local_path: p, ..f }
            } else {
                f
            },
            InitEventView::Cancelled => spec_failed(f, PromptError::CanceledPrompt),
            _ => f,
        },
        InitStage::MetaCheck => match e {
            InitEventView::Decided(true) => spec_at(f, InitStage::Overwrite),
            InitEventView::Decided(false) => spec_at(f, InitStage::ScanNotice),
            _ => f,
        },
        InitStage::Overwrite => match e {
            InitEventView::Decided(true) => spec_at(f, InitStage::ScanNotice),
            InitEventView::Decided(false) => spec_at(f, InitStage::Aborted),
            InitEventView::Cancelled => spec_failed(f, PromptError::SaveFailure),
            _ => f,
        },
        InitStage::ScanNotice => match e {
            InitEventView::Shown => spec_at(f, InitStage::Scan),
            InitEventView::Cancelled => spec_failed(f, PromptError::CanceledPrompt),
            _ => f,
        },
        InitStage::Scan => match e {
            InitEventView::Found(l) => InitFlowView { stage: InitStage::Select, found: l, ..f },
            _ => f,
        },
        InitStage::Select => match e {
            InitEventView::Chosen(ps) => InitFlowView {
                stage: InitStage::Outro,
                configs: spec_from_paths(spec_config_files(), ps),
                ..f
            },
            InitEventView::Cancelled => spec_failed(f, PromptError::UnableToFindTool),
            _ => f,
        },
        InitStage::Outro => match e {
            InitEventView::Shown => spec_at(f, InitStage::Finished),
            InitEventView::Cancelled => spec_failed(f, PromptError::SaveFailure),
            _ => f,
        },
        InitStage::Finished => f,
        InitStage::Aborted => f,
    }
}

/// The state the dialogue starts in: at the greeting, or, when the caller
/// does not want the dialogue, already ended with `CanceledPrompt`.
pub open spec fn spec_start(run: bool) -> InitFlowView {
    InitFlowView {
        stage: if run { InitStage::Intro } else { InitStage::Finished },
        username: Seq::empty(),
        repo_name: Seq::empty(),
        local_path: Seq::empty(),
        found: Seq::empty(),
        configs: Seq::empty(),
        error: if run { None } else { Some(PromptError::CanceledPrompt) },
    }
}

/// The answers held by a state, as the dialogue returns them.
pub open spec fn spec_responses_of(r: InitResponses, f: InitFlowView) -> bool {
    &&& r.gh_username@ == f.username
    &&& r.gh_repo_name@ == f.repo_name
    &&& r.local_path@ == f.local_path
    &&& r.configs@ == f.configs
}

/// The action that a state asks for.
pub open spec fn spec_action_for(f: InitFlowView, a: InitAction) -> bool {
    match f.stage {
        InitStage::Intro => a is ShowIntro,
        InitStage::Username => a is AskUsername,
        InitStage::RepoName => a is AskRepoName,
        InitStage::LocalPath => a is AskLocalPath,
        InitStage::MetaCheck => a matches InitAction::CheckMeta(p) && p@ == f.local_path
            + "/meta.json"@,
        InitStage::Overwrite => a matches InitAction::AskOverwrite(p) && p@ == f.local_path,
        InitStage::ScanNotice => a is ShowScanNotice,
        InitStage::Scan => a is Scan,
        InitStage::Select => a matches InitAction::AskSelect(items) && spec_offered(
            f.found,
            items@,
        ),
        InitStage::Outro => a is ShowOutro,
        InitStage::Finished => a matches InitAction::Finish(res) && match f.error {
            Some(e) => res == Err::<InitResponses, PromptError>(e),
            None => res matches Ok(r) && spec_responses_of(r, f),
        },
        InitStage::Aborted => a is Abort,
    }
}

/// A copy of a list of configuration files.
fn copy_configs(l: &ConfigList) -> (r: ConfigList)
    ensures
        r@ == l@,
{
    let mut out: ConfigList = Vec::new();
    let mut i: usize = 0;
    while i < l.len()
        invariant
            i <= l@.len(),
            out@ == l@.take(i as int),
        decreases l@.len() - i,
    {
        out.push(l[i]);
        assert(out@ =~= l@.take(i + 1));
        i = i + 1;
    }
    assert(l@.take(l@.len() as int) =~= l@);
    out
}

impl InitFlow {
    /// Starts the dialogue; `run` is false when the caller does not want it.
    pub fn start(run: bool) -> (r: InitFlow)
        ensures
            r@ == spec_start(run),
    {
        InitFlow {
            stage: if run { InitStage::Intro } else { InitStage::Finished },
            username: String::new(),
            repo_name: String::new(),
            local_path: String::new(),
            found: Vec::new(),
            configs: Vec::new(),
            error: if run { None } else { Some(PromptError::CanceledPrompt) },
        }
    }

    fn fail(self, e: PromptError) -> (r: InitFlow)
        ensures
            r@ == spec_failed(self@, e),
    {
        InitFlow { stage: InitStage::Finished, error: Some(e), ..self }
    }

    fn at(self, s: InitStage) -> (r: InitFlow)
        ensures
            r@ == spec_at(self@, s),
    {
        InitFlow { stage: s, ..self }
    }

    /// The state after the caller reports `event`.
    pub fn step(self, event: InitEvent) -> (r: InitFlow)
        ensures
            r@ == spec_step(self@, event@),
    {
        match self.stage {
            InitStage::Intro => match event {
                InitEvent::Shown => self.at(InitStage::Username),
                InitEvent::Cancelled => self.fail(PromptError::CoreInitFailure),
                _ => self,
            },
            InitStage::Username => match event {
                InitEvent::Answered(u) => {
                    if validate_username_input(&u).is_ok() {
                        InitFlow { stage: InitStage::RepoName, username: u, ..self }
                    } else {
                        self
                    }
                },
                InitEvent::Cancelled => self.fail(PromptError::CanceledPrompt),
                _ => self,
            },
            InitStage::RepoName => match event {
                InitEvent::Answered(r) => InitFlow {
                    stage: InitStage::LocalPath,
                    repo_name: repo_name_or_default(r),
                    ..self
                },
                InitEvent::Cancelled => self.fail(PromptError::CanceledPrompt),
                _ => self,
            },
            InitStage::LocalPath => match event {
                InitEvent::Answered(p) => {
                    if validate_path_input(&p).is_ok() {
                        InitFlow { stage: InitStage::MetaCheck, local_path: p, ..self }
                    } else {
                        self
                    }
                },
                InitEvent::Cancelled => self.fail(PromptError::CanceledPrompt),
                _ => self,
            },
            InitStage::MetaCheck => match event {
                InitEvent::Decided(exists) => {
                    if exists {
                        self.at(InitStage::Overwrite)
                    } else {
                        self.at(InitStage::ScanNotice)
                    }
                },
                _ => self,
            },
            InitStage::Overwrite => match event {
                InitEvent::Decided(overwrite) => {
                    if overwrite {
                        self.at(InitStage::ScanNotice)
                    } else {
                        self.at(InitStage::Aborted)
                    }
                },
                InitEvent::Cancelled => self.fail(PromptError::SaveFailure),
                _ => self,
            },
            InitStage::ScanNotice => match event {
                InitEvent::Shown => self.at(InitStage::Scan),
                InitEvent::Cancelled => self.fail(PromptError::CanceledPrompt),
                _ => self,
            },
            InitStage::Scan => match event {
                InitEvent::Found(l) => InitFlow { stage: InitStage::Select, found: l, ..self },
                _ => self,
            },
            InitStage::Select => match event {
                InitEvent::Chosen(ps) => InitFlow {
                    stage: InitStage::Outro,
                    configs: configs_from_paths(ps),
                    ..self
                },
                InitEvent::Cancelled => self.fail(PromptError::UnableToFindTool),
                _ => self,
            },
            InitStage::Outro => match event {
                InitEvent::Shown => self.at(InitStage::Finished),
                InitEvent::Cancelled => self.fail(PromptError::SaveFailure),
                _ => self,
            },
            InitStage::Finished => self,
            InitStage::Aborted => self,
        }
    }

    /// The action the current state asks the caller to carry out.
    pub fn action(&self) -> (a: InitAction)
        ensures
            spec_action_for(self@, a),
    {
        match self.stage {
            InitStage::Intro => InitAction::ShowIntro,
            InitStage::Username => InitAction::AskUsername,
            InitStage::RepoName => InitAction::AskRepoName,
            InitStage::LocalPath => InitAction::AskLocalPath,
            InitStage::MetaCheck => InitAction::CheckMeta(existing_meta_path(self.local_path.as_str())),
            InitStage::Overwrite => InitAction::AskOverwrite(self.local_path.clone()),
            InitStage::ScanNotice => InitAction::ShowScanNotice,
            InitStage::Scan => InitAction::Scan,
            InitStage::Select => InitAction::AskSelect(prompt_items(&self.found)),
            InitStage::Outro => InitAction::ShowOutro,
            InitStage::Finished => match self.error {
                Some(e) => InitAction::Finish(Err(e)),
                None => InitAction::Finish(
                    Ok(
                        InitResponses {
                            gh_username: self.username.clone(),
                            gh_repo_name: self.repo_name.clone(),
                            local_path: self.local_path.clone(),
                            configs: copy_configs(&self.configs),
                        },
                    ),
                ),
            },
            InitStage::Aborted => InitAction::Abort,
        }
    }
}

/// How far the dialogue has come; the two ends share the last rank.
pub open spec fn spec_stage_rank(s: InitStage) -> int {
    match s {
        InitStage::Intro => 0,
        InitStage::Username => 1,
        InitStage::RepoName => 2,
        InitStage::LocalPath => 3,
        InitStage::MetaCheck => 4,
        InitStage::Overwrite => 5,
        InitStage::ScanNotice => 6,
        InitStage::Scan => 7,
        InitStage::Select => 8,
        InitStage::Outro => 9,
        InitStage::Finished => 10,
        InitStage::Aborted => 10,
    }
}

/// The answers held by a state have passed their checks: once past the
/// username prompt the username is accepted, once past the repository prompt
/// the repository name is not empty, once past the path prompt the path is
/// accepted, and the chosen files are catalogue entries. A dialogue that
/// ended with an error is exempt.
pub open spec fn spec_answers_checked(f: InitFlowView) -> bool {
    (f.stage == InitStage::Finished && f.error is Some) || {
        &&& f.stage != InitStage::Finished ==> f.error is None
        &&& spec_stage_rank(f.stage) >= 2 ==> spec_username_accepted(f.username)
        &&& spec_stage_rank(f.stage) >= 3 ==> f.repo_name.len() > 0
        &&& spec_stage_rank(f.stage) >= 4 ==> spec_path_accepted(f.local_path)
        &&& forall|k: int| 0 <= k < f.configs.len() ==> spec_config_files().contains(#[trigger] f.configs[k])
    }
}

/// The dialogue starts with its answers checked.
pub proof fn lemma_start_checked(run: bool)
    ensures
        spec_answers_checked(spec_start(run)),
{
}

/// Every step keeps the answers checked, so answers that the dialogue hands
/// back (an ended dialogue without error) have passed every check.
pub proof fn lemma_step_keeps_answers_checked(f: InitFlowView, e: InitEventView)
    requires
        spec_answers_checked(f),
    ensures
        spec_answers_checked(spec_step(f, e)),
{
    reveal_strlit("dotfiles");
    if f.stage == InitStage::Select {
        if let InitEventView::Chosen(ps) = e {
            crate::configs::lemma_from_paths_within_catalog(spec_config_files(), ps);
        }
    }
}

/// Answers handed back by an ended dialogue have passed their checks.
pub proof fn lemma_finished_answers_checked(f: InitFlowView, a: InitAction)
    requires
        spec_answers_checked(f),
        spec_action_for(f, a),
        a matches InitAction::Finish(Ok(_)),
    ensures
        a matches InitAction::Finish(Ok(r)) && {
            &&& spec_username_accepted(r.gh_username@)
            &&& r.gh_repo_name@.len() > 0
            &&& spec_path_accepted(r.local_path@)
            &&& forall|k: int| 0 <= k < r.configs@.len() ==> spec_config_files().contains(#[trigger] r.configs@[k])
        },
{
}

/// Once the dialogue has ended, events change nothing.
pub proof fn lemma_ended_is_final(f: InitFlowView, e: InitEventView)
    requires
        f.stage == InitStage::Finished || f.stage == InitStage::Aborted,
    ensures
        spec_step(f, e) == f,
{
}

/// A dialogue that the caller does not want ends at once with
/// `CanceledPrompt`.
pub proof fn lemma_unwanted_dialogue_is_cancelled(a: InitAction)
    requires
        spec_action_for(spec_start(false), a),
    ensures
        a matches InitAction::Finish(Err(e)) && e == PromptError::CanceledPrompt,
{
}

} // verus!
