use prompting_client::model::{
    ActionedPrompt, HomeConstraints, PatternType, Prompt, PromptId, PromptNotice, SnapMeta,
};
use prompting_client::patterns::pattern_options;
use prompting_client::server::get_current_prompt;
use prompting_client::worker::{to_ui_input, Worker};

fn prompt(id: &str, path: &str) -> Prompt {
    Prompt {
        id: PromptId(id.to_string()),
        timestamp: "2024-08-15T13:28:17.077016791Z".to_string(),
        snap: format!("snap-{id}"),
        constraints: HomeConstraints {
            path: path.to_string(),
            requested_permissions: vec!["write".to_string()],
            available_permissions: vec!["read".to_string(), "write".to_string()],
        },
    }
}

fn ids(w: &Worker) -> Vec<String> {
    w.queue.iter().map(|p| p.id.0.clone()).collect()
}

fn home() -> String {
    "/home/ubuntu".to_string()
}

#[test]
fn empty_worker_has_no_active_prompt() {
    let mut w = Worker::new(home(), Vec::new());
    w.republish(None);
    assert!(w.active.is_none());
    assert_eq!(get_current_prompt(w.active.clone()), None);
}

#[test]
fn active_prompt_is_the_projected_head() {
    let mut w = Worker::new(
        home(),
        vec![prompt("1", "/home/ubuntu/a.txt"), prompt("2", "/home/ubuntu/b.txt")],
    );
    assert_eq!(w.head_snap(), Some("snap-1".to_string()));
    let meta = SnapMeta {
        name: "snap-1".to_string(),
        updated_at: "2024-08-15".to_string(),
        store_url: "snap://snap-1".to_string(),
        publisher: "me".to_string(),
    };
    w.republish(Some(meta.clone()));
    let active = w.active.clone().unwrap();
    assert_eq!(active, to_ui_input(&w.queue[0], Some(meta), &home()));
    assert_eq!(active.id, PromptId("1".to_string()));
    assert_eq!(active.data.suggested_permissions, vec!["write".to_string()]);
    assert_eq!(active.data.home_dir, "/home/ubuntu");

    w.apply_notice(PromptNotice::Resolved(PromptId("1".to_string())), None);
    w.republish(None);
    let active = w.active.clone().unwrap();
    assert_eq!(active.id, PromptId("2".to_string()));
    assert_eq!(active.meta, SnapMeta::default());

    w.apply_notice(PromptNotice::Resolved(PromptId("2".to_string())), None);
    w.republish(None);
    assert!(w.active.is_none());
}

#[test]
fn queue_never_holds_an_id_twice() {
    let mut w = Worker::new(
        home(),
        vec![
            prompt("1", "/home/ubuntu/a"),
            prompt("2", "/home/ubuntu/b"),
            prompt("1", "/home/ubuntu/c"),
        ],
    );
    assert_eq!(ids(&w), vec!["1", "2"]);
    assert_eq!(w.queue[0].constraints.path, "/home/ubuntu/a");
    let n = PromptNotice::Update(PromptId("2".to_string()));
    assert_eq!(w.needs_details(&n), None);
    w.apply_notice(n, Some(prompt("2", "/home/ubuntu/d")));
    assert_eq!(ids(&w), vec!["1", "2"]);
    let n = PromptNotice::Update(PromptId("3".to_string()));
    assert_eq!(w.needs_details(&n), Some(PromptId("3".to_string())));
    w.apply_notice(n, Some(prompt("3", "/home/ubuntu/e")));
    assert_eq!(ids(&w), vec!["1", "2", "3"]);
}

#[test]
fn update_without_details_changes_nothing() {
    let mut w = Worker::new(home(), vec![prompt("1", "/home/ubuntu/a")]);
    w.apply_notice(PromptNotice::Update(PromptId("2".to_string())), None);
    assert_eq!(ids(&w), vec!["1"]);
    // details of another prompt than the notice's are not queued
    w.apply_notice(
        PromptNotice::Update(PromptId("2".to_string())),
        Some(prompt("9", "/home/ubuntu/z")),
    );
    assert_eq!(ids(&w), vec!["1"]);
}

#[test]
fn actioned_prompt_and_others_leave_the_queue() {
    let mut w = Worker::new(
        home(),
        vec![
            prompt("1", "/home/ubuntu/a"),
            prompt("2", "/home/ubuntu/b"),
            prompt("3", "/home/ubuntu/c"),
            prompt("4", "/home/ubuntu/d"),
        ],
    );
    w.apply_actioned(ActionedPrompt::Actioned {
        id: PromptId("3".to_string()),
        others: vec![PromptId("1".to_string()), PromptId("4".to_string())],
    });
    assert_eq!(ids(&w), vec!["2"]);
    w.apply_actioned(ActionedPrompt::NotFound {
        id: PromptId("2".to_string()),
    });
    assert!(w.queue.is_empty());
}

#[test]
fn removal_of_absent_ids_changes_nothing() {
    let mut w = Worker::new(home(), vec![prompt("1", "/home/ubuntu/a"), prompt("2", "/home/ubuntu/b")]);
    w.apply_actioned(ActionedPrompt::Actioned {
        id: PromptId("7".to_string()),
        others: vec![PromptId("8".to_string())],
    });
    assert_eq!(ids(&w), vec!["1", "2"]);
    w.apply_actioned(ActionedPrompt::Actioned {
        id: PromptId("1".to_string()),
        others: vec![PromptId("8".to_string())],
    });
    assert_eq!(ids(&w), vec!["2"]);
    w.apply_actioned(ActionedPrompt::Actioned {
        id: PromptId("1".to_string()),
        others: vec![PromptId("8".to_string())],
    });
    assert_eq!(ids(&w), vec!["2"]);
}

#[test]
fn one_reply_resolves_several_prompts() {
    let mut w = Worker::new(
        home(),
        vec![
            prompt("1", "/home/ubuntu/a.txt"),
            prompt("2", "/home/ubuntu/b.txt"),
            prompt("3", "/home/ubuntu/docs/c.txt"),
        ],
    );
    w.republish(None);
    w.apply_actioned(ActionedPrompt::Actioned {
        id: PromptId("1".to_string()),
        others: vec![PromptId("2".to_string())],
    });
    w.republish(None);
    assert_eq!(ids(&w), vec!["3"]);
    let active = w.active.clone().unwrap();
    assert_eq!(active, to_ui_input(&prompt("3", "/home/ubuntu/docs/c.txt"), None, &home()));
    let (options, initial) = pattern_options("/home/ubuntu/docs/c.txt", "/home/ubuntu");
    assert_eq!(active.data.pattern_options, options);
    assert_eq!(active.data.initial_pattern_option, initial);
    assert_eq!(active.data.pattern_options[3].pattern_type, PatternType::TopLevelDirectory);
}
