use hank::configs::{Base, ConfigFile};
use hank::flow::{InitAction, InitEvent, InitFlow, InitStage};
use hank::init::{Metadata, PromptError};
use hank::sync::generate_local_sync;

fn finish_error(flow: &InitFlow) -> Option<PromptError> {
    match flow.action() {
        InitAction::Finish(Err(e)) => Some(e),
        _ => None,
    }
}

#[test]
fn unwanted_dialogue_is_cancelled() {
    let flow = InitFlow::start(false);
    assert_eq!(flow.stage, InitStage::Finished);
    assert_eq!(finish_error(&flow), Some(PromptError::CanceledPrompt));
}

#[test]
fn full_run() {
    let mut flow = InitFlow::start(true);
    assert!(matches!(flow.action(), InitAction::ShowIntro));
    flow = flow.step(InitEvent::Shown);
    assert!(matches!(flow.action(), InitAction::AskUsername));
    // a refused answer asks again
    flow = flow.step(InitEvent::Answered("@john".to_string()));
    assert_eq!(flow.stage, InitStage::Username);
    flow = flow.step(InitEvent::Answered("john--doe".to_string()));
    assert_eq!(flow.stage, InitStage::Username);
    flow = flow.step(InitEvent::Answered("john".to_string()));
    assert!(matches!(flow.action(), InitAction::AskRepoName));
    flow = flow.step(InitEvent::Answered(String::new()));
    assert_eq!(flow.repo_name, "dotfiles");
    assert!(matches!(flow.action(), InitAction::AskLocalPath));
    flow = flow.step(InitEvent::Answered("not a path".to_string()));
    assert_eq!(flow.stage, InitStage::LocalPath);
    flow = flow.step(InitEvent::Answered("/tmp/pending".to_string()));
    match flow.action() {
        InitAction::CheckMeta(p) => assert_eq!(p, "/tmp/pending/meta.json"),
        _ => panic!("expected a meta check"),
    }
    flow = flow.step(InitEvent::Decided(true));
    match flow.action() {
        InitAction::AskOverwrite(p) => assert_eq!(p, "/tmp/pending"),
        _ => panic!("expected the overwrite question"),
    }
    flow = flow.step(InitEvent::Decided(true));
    assert!(matches!(flow.action(), InitAction::ShowScanNotice));
    flow = flow.step(InitEvent::Shown);
    assert!(matches!(flow.action(), InitAction::Scan));
    flow = flow.step(InitEvent::Found(vec![
        ConfigFile { tool: "zsh", base: Base::Home, path: ".zshrc" },
        ConfigFile { tool: "git", base: Base::Home, path: ".gitconfig" },
    ]));
    match flow.action() {
        InitAction::AskSelect(items) => {
            assert_eq!(items.len(), 2);
            assert_eq!(items[0].0, ".gitconfig");
            assert_eq!(items[1].0, ".zshrc");
        }
        _ => panic!("expected the selection"),
    }
    flow = flow.step(InitEvent::Chosen(vec![".zshrc".to_string()]));
    assert!(matches!(flow.action(), InitAction::ShowOutro));
    flow = flow.step(InitEvent::Shown);
    match flow.action() {
        InitAction::Finish(Ok(r)) => {
            assert_eq!(r.gh_username, "john");
            assert_eq!(r.gh_repo_name, "dotfiles");
            assert_eq!(r.local_path, "/tmp/pending");
            assert_eq!(r.configs, vec![ConfigFile { tool: "zsh", base: Base::Home, path: ".zshrc" }]);
        }
        _ => panic!("expected answers"),
    }
    // ended dialogues stay ended
    flow = flow.step(InitEvent::Cancelled);
    assert_eq!(flow.stage, InitStage::Finished);
}

#[test]
fn cancellations_give_their_errors() {
    let flow = InitFlow::start(true).step(InitEvent::Cancelled);
    assert_eq!(finish_error(&flow), Some(PromptError::CoreInitFailure));

    let at_username = InitFlow::start(true).step(InitEvent::Shown);
    assert_eq!(finish_error(&at_username.step(InitEvent::Cancelled)), Some(PromptError::CanceledPrompt));

    let at_overwrite = InitFlow::start(true)
        .step(InitEvent::Shown)
        .step(InitEvent::Answered("john".to_string()))
        .step(InitEvent::Answered("dots".to_string()))
        .step(InitEvent::Answered("~/p".to_string()))
        .step(InitEvent::Decided(true));
    assert_eq!(at_overwrite.stage, InitStage::Overwrite);
    let declined = InitFlow {
        stage: at_overwrite.stage,
        username: at_overwrite.username.clone(),
        repo_name: at_overwrite.repo_name.clone(),
        local_path: at_overwrite.local_path.clone(),
        found: vec![],
        configs: vec![],
        error: None,
    };
    assert!(matches!(declined.step(InitEvent::Decided(false)).action(), InitAction::Abort));
    assert_eq!(finish_error(&at_overwrite.step(InitEvent::Cancelled)), Some(PromptError::SaveFailure));

    let at_select = InitFlow::start(true)
        .step(InitEvent::Shown)
        .step(InitEvent::Answered("john".to_string()))
        .step(InitEvent::Answered("dots".to_string()))
        .step(InitEvent::Answered("~/p".to_string()))
        .step(InitEvent::Decided(false))
        .step(InitEvent::Shown)
        .step(InitEvent::Found(vec![]));
    assert_eq!(at_select.stage, InitStage::Select);
    assert_eq!(finish_error(&at_select.step(InitEvent::Cancelled)), Some(PromptError::UnableToFindTool));
}

#[test]
fn local_sync_takes_tracked_files() {
    let recorded = vec![ConfigFile { tool: "git", base: Base::Home, path: ".gitconfig" }];
    let current = vec![ConfigFile { tool: "zsh", base: Base::Home, path: ".zshrc" }];
    let out = generate_local_sync(current, Ok(Metadata { tracked_files: recorded.clone() }));
    assert_eq!(out, recorded);
}
