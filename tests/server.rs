use prompting_client::model::{
    Action, ActionedPrompt, Error, HomeReplyConstraints, HomeUiInputData, Lifespan, PatternType,
    PromptId, SnapMeta, TypedPathPattern, TypedPromptReply, UiInput,
};
use prompting_client::server::{
    get_current_prompt, logging_filter_response, map_home_response, map_pattern_option,
    map_prompt_reply, prepare_reply, reply_outcome, reply_to_prompt, ReplyAction, ReplyEvent, resolve_home_pattern_type, set_logging_filter, Code,
    HomePrompt, HomePromptReply, MetaData, PatternOption, PromptReply, PromptReplyType,
    SetLogFilter,
};

fn ui_input() -> UiInput {
    UiInput {
        id: PromptId("1".to_string()),
        meta: SnapMeta {
            name: "2".to_string(),
            updated_at: "3".to_string(),
            store_url: "4".to_string(),
            publisher: "5".to_string(),
        },
        data: HomeUiInputData {
            requested_path: "6".to_string(),
            home_dir: "7".to_string(),
            requested_permissions: Vec::new(),
            available_permissions: Vec::new(),
            suggested_permissions: Vec::new(),
            pattern_options: Vec::new(),
            initial_pattern_option: 0,
        },
    }
}

fn prompt() -> HomePrompt {
    HomePrompt {
        meta_data: Some(MetaData {
            prompt_id: "1".to_string(),
            snap_name: "2".to_string(),
            store_url: "4".to_string(),
            publisher: "5".to_string(),
            updated_at: "3".to_string(),
        }),
        requested_path: "6".to_string(),
        home_dir: "7".to_string(),
        requested_permissions: Vec::new(),
        available_permissions: Vec::new(),
        suggested_permissions: Vec::new(),
        pattern_options: Vec::new(),
        initial_pattern_option: 0,
    }
}

fn prompt_reply(inner: Option<HomePromptReply>) -> PromptReply {
    PromptReply {
        prompt_id: "1".to_string(),
        action: Action::Allow,
        lifespan: Lifespan::Single,
        prompt_reply: inner,
    }
}

fn prompt_reply_inner() -> Option<HomePromptReply> {
    Some(HomePromptReply {
        path_pattern: "6".to_string(),
        permissions: Vec::new(),
    })
}

fn typed_prompt_reply() -> TypedPromptReply {
    TypedPromptReply {
        action: Action::Allow,
        lifespan: Lifespan::Single,
        duration: None,
        constraints: HomeReplyConstraints {
            path_pattern: "6".to_string(),
            permissions: Vec::new(),
            available_permissions: Vec::new(),
        },
    }
}

#[test]
fn test_get_current_prompt() {
    assert_eq!(get_current_prompt(None), None);
    assert_eq!(get_current_prompt(Some(ui_input())), Some(prompt()));
}

#[test]
fn test_reply_to_prompt() {
    // a reply without its home part is refused before snapd is asked
    let res = reply_to_prompt(ReplyEvent::Received(prompt_reply(None)));
    match res {
        ReplyAction::Respond { response, actioned } => {
            assert!(response.is_err());
            assert!(actioned.is_none());
        }
        res => panic!("expected a response, got {res:?}"),
    }

    // a well-formed reply is sent to snapd as the typed reply
    let res = reply_to_prompt(ReplyEvent::Received(prompt_reply(prompt_reply_inner())));
    assert_eq!(
        res,
        ReplyAction::AskSnapd {
            id: PromptId("1".to_string()),
            reply: typed_prompt_reply()
        }
    );

    // an error from snapd other than not-found gives Unknown and nothing for the worker
    let err = Error::Io {
        message: "error requested of mock snapd client".to_string(),
    };
    match reply_to_prompt(ReplyEvent::SnapdAnswered {
        id: PromptId("1".to_string()),
        res: Err(err),
    }) {
        ReplyAction::Respond { response, actioned } => {
            assert_eq!(
                response.unwrap().prompt_reply_type.ordinal(),
                PromptReplyType::Unknown.ordinal()
            );
            assert!(actioned.is_none());
        }
        res => panic!("expected a response, got {res:?}"),
    }

    // success
    match reply_to_prompt(ReplyEvent::SnapdAnswered {
        id: PromptId("1".to_string()),
        res: Ok(Vec::new()),
    }) {
        ReplyAction::Respond { response, actioned } => {
            assert_eq!(
                response.unwrap().prompt_reply_type.ordinal(),
                PromptReplyType::Success.ordinal()
            );
            match actioned {
                Some(ActionedPrompt::Actioned { id, .. }) => assert_eq!(id.0, "1".to_string()),
                res => panic!("expected actioned prompt, got {res:?}"),
            }
        }
        res => panic!("expected a response, got {res:?}"),
    }
}

#[test]
fn malformed_reply_is_refused_by_the_service() {
    assert_eq!(
        reply_to_prompt(ReplyEvent::Received(prompt_reply(None))),
        ReplyAction::Respond {
            response: Err(prompting_client::server::RpcStatus {
                code: Code::InvalidArgument,
                message: "received empty prompt_reply".to_string(),
            }),
            actioned: None,
        }
    );
}

#[test]
fn not_found_answer_through_the_service() {
    let err = Error::SnapdError {
        status: 404,
        message: "no prompt".to_string(),
    };
    match reply_to_prompt(ReplyEvent::SnapdAnswered {
        id: PromptId("1".to_string()),
        res: Err(err),
    }) {
        ReplyAction::Respond { response, actioned } => {
            let resp = response.unwrap();
            assert_eq!(resp.prompt_reply_type, PromptReplyType::PromptNotFound);
            assert_eq!(resp.message, "prompt not found");
            assert_eq!(
                actioned,
                Some(ActionedPrompt::NotFound {
                    id: PromptId("1".to_string())
                })
            );
        }
        res => panic!("expected a response, got {res:?}"),
    }
}

#[test]
fn empty_state_has_no_current_prompt() {
    assert_eq!(get_current_prompt(None), None);
}

#[test]
fn single_home_prompt_is_served_with_its_fields() {
    let p = map_home_response(ui_input());
    assert_eq!(p, prompt());
}

#[test]
fn successful_reply_actions_the_prompt() {
    let typed = map_prompt_reply(prompt_reply(prompt_reply_inner())).unwrap();
    assert_eq!(typed, typed_prompt_reply());
    let (resp, ev) = reply_outcome(PromptId("1".to_string()), Ok(Vec::new()));
    assert_eq!(resp.prompt_reply_type, PromptReplyType::Success);
    assert_eq!(resp.message, "success");
    assert_eq!(
        ev,
        Some(ActionedPrompt::Actioned {
            id: PromptId("1".to_string()),
            others: Vec::new()
        })
    );
}

#[test]
fn not_found_reply_removes_the_prompt() {
    let err = Error::SnapdError {
        status: 404,
        message: "no prompt".to_string(),
    };
    let (resp, ev) = reply_outcome(PromptId("1".to_string()), Err(err));
    assert_eq!(resp.prompt_reply_type, PromptReplyType::PromptNotFound);
    assert_eq!(resp.message, "prompt not found");
    assert_eq!(
        ev,
        Some(ActionedPrompt::NotFound {
            id: PromptId("1".to_string())
        })
    );
}

#[test]
fn other_snapd_status_is_unknown() {
    let err = Error::SnapdError {
        status: 500,
        message: "boom".to_string(),
    };
    let (resp, ev) = reply_outcome(PromptId("1".to_string()), Err(err));
    assert_eq!(resp.prompt_reply_type, PromptReplyType::Unknown);
    assert_eq!(resp.message, "error from snapd: boom");
    assert_eq!(ev, None);
}

#[test]
fn malformed_reply_is_a_client_error() {
    let status = map_prompt_reply(prompt_reply(None)).unwrap_err();
    assert_eq!(status.code, Code::InvalidArgument);
    assert_eq!(status.message, "received empty prompt_reply");
}

#[test]
fn service_refuses_an_empty_reply_before_snapd() {
    let status = prepare_reply(prompt_reply(None)).unwrap_err();
    assert_eq!(status.code, Code::InvalidArgument);
    assert_eq!(status.message, "received empty prompt_reply");
    let (id, typed) = prepare_reply(prompt_reply(prompt_reply_inner())).unwrap();
    assert_eq!(id, PromptId("1".to_string()));
    assert_eq!(typed, typed_prompt_reply());
}

#[test]
fn reply_keeps_action_and_lifespan_and_drops_available_permissions() {
    let mut reply = prompt_reply(Some(HomePromptReply {
        path_pattern: "/home/u/**".to_string(),
        permissions: vec!["read".to_string(), "write".to_string()],
    }));
    reply.action = Action::Deny;
    reply.lifespan = Lifespan::Forever;
    let typed = map_prompt_reply(reply).unwrap();
    assert_eq!(typed.action, Action::Deny);
    assert_eq!(typed.lifespan, Lifespan::Forever);
    assert_eq!(typed.duration, None);
    assert_eq!(typed.constraints.path_pattern, "/home/u/**");
    assert_eq!(typed.constraints.permissions, vec!["read".to_string(), "write".to_string()]);
    assert!(typed.constraints.available_permissions.is_empty());
}

#[test]
fn pattern_option_ordinals_follow_the_fixed_order() {
    let kinds = [
        PatternType::RequestedDirectory,
        PatternType::RequestedFile,
        PatternType::RequestedDirectoryContents,
        PatternType::TopLevelDirectory,
        PatternType::HomeDirectory,
        PatternType::MatchingFileExtension,
        PatternType::ContainingDirectory,
    ];
    for (i, kind) in kinds.iter().enumerate() {
        let opt = map_pattern_option(TypedPathPattern {
            pattern_type: *kind,
            path_pattern: "p".to_string(),
            show_initially: i % 2 == 0,
        });
        assert_eq!(
            opt,
            PatternOption {
                home_pattern_type: i as i32,
                path_pattern: "p".to_string(),
                show_initially: i % 2 == 0,
            }
        );
    }
}

#[test]
fn home_response_maps_each_pattern() {
    let mut input = ui_input();
    input.data.pattern_options = vec![
        TypedPathPattern {
            pattern_type: PatternType::HomeDirectory,
            path_pattern: "7/**".to_string(),
            show_initially: true,
        },
        TypedPathPattern {
            pattern_type: PatternType::ContainingDirectory,
            path_pattern: "7/*".to_string(),
            show_initially: false,
        },
    ];
    input.data.initial_pattern_option = 1;
    let p = map_home_response(input);
    assert_eq!(p.initial_pattern_option, 1);
    assert_eq!(
        p.pattern_options,
        vec![
            PatternOption {
                home_pattern_type: 4,
                path_pattern: "7/**".to_string(),
                show_initially: true,
            },
            PatternOption {
                home_pattern_type: 6,
                path_pattern: "7/*".to_string(),
                show_initially: false,
            },
        ]
    );
}

#[test]
fn resolve_home_pattern_type_is_unimplemented() {
    let status = resolve_home_pattern_type("/home/u/**".to_string()).unwrap_err();
    assert_eq!(status.code, Code::Unimplemented);
    assert_eq!(status.message, "this endpoint is not yet implemented");
}

struct RefusingHandle;

impl SetLogFilter for RefusingHandle {
    fn set_filter(&self, filter: &str) -> Result<(), Error> {
        Err(Error::UnableToUpdateLogFilter {
            reason: format!("{filter:?} is not a valid logging filter"),
        })
    }
}

struct AcceptingHandle;

impl SetLogFilter for AcceptingHandle {
    fn set_filter(&self, _filter: &str) -> Result<(), Error> {
        Ok(())
    }
}

#[test]
fn logging_filter_is_echoed_or_refused() {
    let ok = set_logging_filter(&AcceptingHandle, "debug".to_string()).unwrap();
    assert_eq!(ok.current, "debug");
    let err = set_logging_filter(&RefusingHandle, "???".to_string()).unwrap_err();
    assert_eq!(err.code, Code::InvalidArgument);
    assert_eq!(
        err.message,
        "unable to set logging level: unable to update log filter: \"???\" is not a valid logging filter"
    );
    let direct = logging_filter_response("info".to_string(), Ok(())).unwrap();
    assert_eq!(direct.current, "info");
}

#[test]
fn reply_type_ordinals() {
    assert_eq!(PromptReplyType::Unknown.ordinal(), 0);
    assert_eq!(PromptReplyType::Success.ordinal(), 1);
    assert_eq!(PromptReplyType::PromptNotFound.ordinal(), 2);
}
