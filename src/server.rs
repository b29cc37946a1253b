//! The messages exchanged with the UI and the decisions of the RPC service:
//! how the active prompt is shown, how a reply is checked and typed, and what
//! the UI and the worker are told once snapd has answered.
use vstd::prelude::*;
use vstd::string::*;
use crate::model::{
    pattern_rank, Action, ActionedPrompt, Error, HomeReplyConstraints, Lifespan, PatternType,
    PromptId, TypedPathPattern, TypedPromptReply, UiInput,
};
use crate::snapd::{error_text, is_not_found};

verus! {

/// The snap details of a prompt, as the UI receives them.
#[derive(Debug, Clone, PartialEq, Eq)]
pub struct MetaData {
    pub prompt_id: String,
    pub snap_name: String,
    pub store_url: String,
    pub publisher: String,
    pub updated_at: String,
}

/// One suggested pattern, as the UI receives it.
#[derive(Debug, Clone, PartialEq, Eq)]
pub struct PatternOption {
    pub home_pattern_type: i32,
    pub path_pattern: String,
    pub show_initially: bool,
}

/// A home prompt, as the UI receives it.
#[derive(Debug, Clone, PartialEq, Eq)]
pub struct HomePrompt {
    pub meta_data: Option<MetaData>,
    pub requested_path: String,
    pub home_dir: String,
    pub requested_permissions: Vec<String>,
    pub suggested_permissions: Vec<String>,
    pub available_permissions: Vec<String>,
    pub initial_pattern_option: i32,
    pub pattern_options: Vec<PatternOption>,
}

/// The home part of a reply sent by the UI.
#[derive(Debug, Clone, PartialEq, Eq)]
pub struct HomePromptReply {
    pub path_pattern: String,
    pub permissions: Vec<String>,
}

/// A reply sent by the UI.
#[derive(Debug, Clone, PartialEq, Eq)]
pub struct PromptReply {
    pub prompt_id: String,
    pub action: Action,
    pub lifespan: Lifespan,
    pub prompt_reply: Option<HomePromptReply>,
}

#[derive(Debug, Clone, Copy, PartialEq, Eq, Structural)]
pub enum PromptReplyType {
    Unknown,
    Success,
    PromptNotFound,
}

impl PromptReplyType {
    pub open spec fn spec_ordinal(self) -> i32 {
        match self {
            PromptReplyType::Unknown => 0,
            PromptReplyType::Success => 1,
            PromptReplyType::PromptNotFound => 2,
        }
    }

    /// The value of this reply type on the wire.
    pub fn ordinal(self) -> (r: i32)
        ensures
            r == self.spec_ordinal(),
    {
        match self {
            PromptReplyType::Unknown => 0,
            PromptReplyType::Success => 1,
            PromptReplyType::PromptNotFound => 2,
        }
    }
}

/// The answer to a reply sent by the UI.
#[derive(Debug, Clone, PartialEq, Eq)]
pub struct PromptReplyResponse {
    pub prompt_reply_type: PromptReplyType,
    pub message: String,
}

#[derive(Debug, Clone, Copy, PartialEq, Eq, Structural)]
pub enum Code {
    InvalidArgument,
    Unimplemented,
}

/// A failed RPC call: a status code and a message for the client.
#[derive(Debug, Clone, PartialEq, Eq)]
pub struct RpcStatus {
    pub code: Code,
    pub message: String,
}

#[derive(Debug, Clone, PartialEq, Eq)]
pub struct SetLoggingFilterResponse {
    pub current: String,
}

/// Somewhere a new logging filter can be installed.
pub trait SetLogFilter {
    fn set_filter(&self, filter: &str) -> Result<(), Error>;
}

pub open spec fn pattern_option_of(p: TypedPathPattern) -> PatternOption {
    PatternOption {
        home_pattern_type: pattern_rank(p.pattern_type) as i32,
        path_pattern: p.path_pattern,
        show_initially: p.show_initially,
    }
}

/// The UI's form of a suggested pattern.
pub fn map_pattern_option(p: TypedPathPattern) -> (r: PatternOption)
    ensures
        r == pattern_option_of(p),
{
    let home_pattern_type: i32 = match p.pattern_type {
        PatternType::RequestedDirectory => 0,
        PatternType::RequestedFile => 1,
        PatternType::RequestedDirectoryContents => 2,
        PatternType::TopLevelDirectory => 3,
        PatternType::HomeDirectory => 4,
        PatternType::MatchingFileExtension => 5,
        PatternType::ContainingDirectory => 6,
    };
    PatternOption { home_pattern_type, path_pattern: p.path_pattern, show_initially: p.show_initially }
}

/// `p` is the UI's form of `input`: every field is carried over unchanged and
/// each pattern is mapped by `pattern_option_of`.
pub open spec fn is_home_prompt_of(p: HomePrompt, input: UiInput) -> bool {
    &&& p.meta_data == Some(
        MetaData {
            prompt_id: input.id.0,
            snap_name: input.meta.name,
            store_url: input.meta.store_url,
            publisher: input.meta.publisher,
            updated_at: input.meta.updated_at,
        },
    )
    &&& p.requested_path == input.data.requested_path
    &&& p.home_dir == input.data.home_dir
    &&& p.requested_permissions == input.data.requested_permissions
    &&& p.suggested_permissions == input.data.suggested_permissions
    &&& p.available_permissions == input.data.available_permissions
    &&& p.initial_pattern_option == input.data.initial_pattern_option as i32
    &&& p.pattern_options@.len() == input.data.pattern_options@.len()
    &&& forall|i: int|
        0 <= i < p.pattern_options@.len() ==> p.pattern_options@[i] == pattern_option_of(
            input.data.pattern_options@[i],
        )
}

/// The UI's form of the given prompt.
pub fn map_home_response(input: UiInput) -> (r: HomePrompt)
    requires
        input.data.initial_pattern_option <= i32::MAX,
    ensures
        is_home_prompt_of(r, input),
{
    let UiInput { id, meta, data } = input;
    let mut pattern_options: Vec<PatternOption> = Vec::new();
    let mut i: usize = 0;
    while i < data.pattern_options.len()
        invariant
            i <= data.pattern_options@.len(),
            pattern_options@.len() == i,
            forall|j: int|
                0 <= j < i ==> pattern_options@[j] == pattern_option_of(data.pattern_options@[j]),
        decreases data.pattern_options@.len() - i,
    {
        let p = &data.pattern_options[i];
        let copy = TypedPathPattern {
            pattern_type: p.pattern_type,
            path_pattern: p.path_pattern.clone(),
            show_initially: p.show_initially,
        };
        pattern_options.push(map_pattern_option(copy));
        i = i + 1;
    }
    HomePrompt {
        meta_data: Some(
            MetaData {
                prompt_id: id.0,
                snap_name: meta.name,
                store_url: meta.store_url,
                publisher: meta.publisher,
                updated_at: meta.updated_at,
            },
        ),
        requested_path: data.requested_path,
        home_dir: data.home_dir,
        requested_permissions: data.requested_permissions,
        suggested_permissions: data.suggested_permissions,
        available_permissions: data.available_permissions,
        initial_pattern_option: data.initial_pattern_option as i32,
        pattern_options,
    }
}

/// The answer to a request for the current prompt: the UI's form of the
/// active prompt, or nothing when there is none.
pub fn get_current_prompt(active: Option<UiInput>) -> (r: Option<HomePrompt>)
    requires
        active matches Some(input) ==> input.data.initial_pattern_option <= i32::MAX,
    ensures
        r is Some <==> active is Some,
        r matches Some(p) ==> is_home_prompt_of(p, active.unwrap()),
{
    match active {
        Some(input) => Some(map_home_response(input)),
        None => None,
    }
}

pub open spec fn empty_reply_text() -> Seq<char> {
    "received empty prompt_reply"@
}

/// `t` is the typed reply for snapd that a reply from the UI stands for:
/// action and lifespan carried over, no duration, the pattern and permissions
/// copied and no available permissions.
pub open spec fn is_typed_reply_of(t: TypedPromptReply, reply: PromptReply, home: HomePromptReply) -> bool {
    &&& t.action == reply.action
    &&& t.lifespan == reply.lifespan
    &&& t.duration is None
    &&& t.constraints.path_pattern == home.path_pattern
    &&& t.constraints.permissions == home.permissions
    &&& t.constraints.available_permissions@.len() == 0
}

/// Checks a reply from the UI and types it; a reply without its home part is
/// refused as an invalid argument.
pub fn map_prompt_reply(reply: PromptReply) -> (r: Result<TypedPromptReply, RpcStatus>)
    ensures
        reply.prompt_reply is None ==> (r matches Err(s) && s.code == Code::InvalidArgument
            && s.message@ == empty_reply_text()),
        reply.prompt_reply matches Some(home) ==> (r matches Ok(t) && is_typed_reply_of(
            t,
            reply,
            home,
        )),
{
    let PromptReply { prompt_id: _, action, lifespan, prompt_reply } = reply;
    match prompt_reply {
        None => {
            let message = String::from_str("received empty prompt_reply");
            proof {
                reveal_strlit("received empty prompt_reply");
            }
            Err(RpcStatus { code: Code::InvalidArgument, message })
        },
        Some(home) => Ok(
            TypedPromptReply {
                action,
                lifespan,
                duration: None,
                constraints: HomeReplyConstraints {
                    path_pattern: home.path_pattern,
                    permissions: home.permissions,
                    available_permissions: Vec::new(),
                },
            },
        ),
    }
}

/// The first step of answering a reply from the UI: the prompt's id and the
/// typed reply to send to snapd, or the refusal to return to the UI at once.
/// A refused reply is never sent to snapd and tells the worker nothing, as
/// only an `Ok` here leads on to asking snapd.
pub fn prepare_reply(reply: PromptReply) -> (r: Result<(PromptId, TypedPromptReply), RpcStatus>)
    ensures
        reply.prompt_reply is None ==> (r matches Err(s) && s.code == Code::InvalidArgument
            && s.message@ == empty_reply_text()),
        reply.prompt_reply matches Some(home) ==> (r matches Ok(p) && p.0@ == reply.prompt_id@
            && is_typed_reply_of(p.1, reply, home)),
{
    let id = PromptId(reply.prompt_id.clone());
    match map_prompt_reply(reply) {
        Ok(typed) => Ok((id, typed)),
        Err(status) => Err(status),
    }
}

pub open spec fn success_text() -> Seq<char> {
    "success"@
}

pub open spec fn not_found_text() -> Seq<char> {
    "prompt not found"@
}

/// Whether snapd's answer to a reply says that the prompt was not found.
pub open spec fn is_not_found_error(res: Result<Vec<PromptId>, Error>) -> bool {
    res matches Err(Error::SnapdError { status, .. }) && status == 404
}

/// What the UI and the worker are told once snapd has answered a reply to
/// the prompt `id`: on success, `Success` and the ids that the reply
/// resolved; when snapd did not find the prompt, `PromptNotFound` and that
/// it is gone; on any other error, `Unknown` with the error's text and
/// nothing for the worker, so that the UI may try again.
pub open spec fn is_reply_outcome(
    resp: PromptReplyResponse,
    actioned: Option<ActionedPrompt>,
    id: PromptId,
    res: Result<Vec<PromptId>, Error>,
) -> bool {
    match res {
        Ok(others) => {
            &&& resp.prompt_reply_type == PromptReplyType::Success
            &&& resp.message@ == success_text()
            &&& actioned == Some(ActionedPrompt::Actioned { id, others })
        },
        Err(e) => if is_not_found_error(res) {
            &&& resp.prompt_reply_type == PromptReplyType::PromptNotFound
            &&& resp.message@ == not_found_text()
            &&& actioned == Some(ActionedPrompt::NotFound { id })
        } else {
            &&& resp.prompt_reply_type == PromptReplyType::Unknown
            &&& resp.message@ == error_text(e)
            &&& actioned is None
        },
    }
}

/// The answer to the UI and the event for the worker once snapd has
/// answered a reply to the prompt `id`.
pub fn reply_outcome(id: PromptId, res: Result<Vec<PromptId>, Error>) -> (r: (
    PromptReplyResponse,
    Option<ActionedPrompt>,
))
    ensures
        is_reply_outcome(r.0, r.1, id, res),
{
    match res {
        Ok(others) => (
            PromptReplyResponse {
                prompt_reply_type: PromptReplyType::Success,
                message: String::from_str("success"),
            },
            Some(ActionedPrompt::Actioned { id, others }),
        ),
        Err(e) => {
            let not_found = match &e {
                Error::SnapdError { status, .. } => is_not_found(*status),
                _ => false,
            };
            if not_found {
                (
                    PromptReplyResponse {
                        prompt_reply_type: PromptReplyType::PromptNotFound,
                        message: String::from_str("prompt not found"),
                    },
                    Some(ActionedPrompt::NotFound { id }),
                )
            } else {
                (
                    PromptReplyResponse {
                        prompt_reply_type: PromptReplyType::Unknown,
                        message: e.text(),
                    },
                    None,
                )
            }
        },
    }
}

#[derive(Debug, Clone, PartialEq, Eq)]
pub struct ResolveHomePatternTypeResponse {
    pub home_pattern_type: i32,
}

pub open spec fn unimplemented_text() -> Seq<char> {
    "this endpoint is not yet implemented"@
}

/// Resolving the type of a home pattern is not offered: the call always
/// fails as unimplemented.
pub fn resolve_home_pattern_type(path_pattern: String) -> (r: Result<
    ResolveHomePatternTypeResponse,
    RpcStatus,
>)
    ensures
        r matches Err(s) && s.code == Code::Unimplemented && s.message@ == unimplemented_text(),
{
    Err(
        RpcStatus {
            code: Code::Unimplemented,
            message: String::from_str("this endpoint is not yet implemented"),
        },
    )
}

pub open spec fn log_filter_failure_prefix() -> Seq<char> {
    "unable to set logging level: "@
}

/// The answer to a request for a new logging filter, given whether it could
/// be installed: the filter itself, or an invalid argument that says why.
pub fn logging_filter_response(filter: String, outcome: Result<(), Error>) -> (r: Result<
    SetLoggingFilterResponse,
    RpcStatus,
>)
    ensures
        outcome is Ok ==> (r matches Ok(resp) && resp.current == filter),
        outcome matches Err(e) ==> (r matches Err(s) && s.code == Code::InvalidArgument
            && s.message@ == log_filter_failure_prefix() + error_text(e)),
{
    match outcome {
        Ok(()) => Ok(SetLoggingFilterResponse { current: filter }),
        Err(e) => Err(
            RpcStatus {
                code: Code::InvalidArgument,
                message: String::from_str("unable to set logging level: ").concat(
                    e.text().as_str(),
                ),
            },
        ),
    }
}

/// Installs a new logging filter through the handle and answers the
/// request: the filter when the handle took it, an invalid argument when it
/// refused it.
pub fn set_logging_filter<S: SetLogFilter>(handle: &S, filter: String) -> (r: Result<
    SetLoggingFilterResponse,
    RpcStatus,
>)
    ensures
        r matches Ok(resp) ==> resp.current == filter,
        r matches Err(s) ==> s.code == Code::InvalidArgument && log_filter_failure_prefix().is_prefix_of(
            s.message@,
        ),
{
    let outcome = handle.set_filter(filter.as_str());
    let ghost o = outcome;
    let r = logging_filter_response(filter, outcome);
    proof {
        if o is Err {
            let t = log_filter_failure_prefix() + error_text(o->Err_0);
            assert(log_filter_failure_prefix() =~= t.subrange(0, log_filter_failure_prefix().len() as int));
        }
    }
    r
}

/// What the service has in hand while answering a reply from the UI.
#[derive(Debug, PartialEq, Eq)]
pub enum ReplyEvent {
    /// The UI's request has just come in.
    Received(PromptReply),
    /// snapd has answered the reply sent for the prompt `id`.
    SnapdAnswered { id: PromptId, res: Result<Vec<PromptId>, Error> },
}

/// What the service does next while answering a reply from the UI.
#[derive(Debug, PartialEq, Eq)]
pub enum ReplyAction {
    /// Send the typed reply for the prompt `id` to snapd.
    AskSnapd { id: PromptId, reply: TypedPromptReply },
    /// Answer the UI, and tell the worker of the actioned prompt, if any.
    Respond { response: Result<PromptReplyResponse, RpcStatus>, actioned: Option<ActionedPrompt> },
}

/// The service's decisions in answering a reply from the UI. A request
/// without its home part is refused at once: snapd is not asked and the
/// worker is told nothing. A well-formed one is typed and sent to snapd.
/// Once snapd has answered, the UI and the worker are told the outcome.
pub fn reply_to_prompt(ev: ReplyEvent) -> (r: ReplyAction)
    ensures
        match ev {
            ReplyEvent::Received(req) => match req.prompt_reply {
                None => r matches ReplyAction::Respond { response: Err(s), actioned: None } && s.code
                    == Code::InvalidArgument && s.message@ == empty_reply_text(),
                Some(home) => r matches ReplyAction::AskSnapd { id, reply } && id@ == req.prompt_id@
                    && is_typed_reply_of(reply, req, home),
            },
            ReplyEvent::SnapdAnswered { id, res } => r matches ReplyAction::Respond {
                response: Ok(resp),
                actioned,
            } && is_reply_outcome(resp, actioned, id, res),
        },
{
    match ev {
        ReplyEvent::Received(req) => match prepare_reply(req) {
            Ok((id, reply)) => ReplyAction::AskSnapd { id, reply },
            Err(status) => ReplyAction::Respond { response: Err(status), actioned: None },
        },
        ReplyEvent::SnapdAnswered { id, res } => {
            let (resp, actioned) = reply_outcome(id, res);
            ReplyAction::Respond { response: Ok(resp), actioned }
        },
    }
}

} // verus!
