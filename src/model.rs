//! The typed prompt model shared by the snapd client, the worker and the
//! RPC service.
use vstd::prelude::*;

verus! {

/// An opaque prompt identifier issued by snapd.
#[derive(Debug, Clone, PartialEq, Eq)]
pub struct PromptId(pub String);

impl PromptId {
    pub open spec fn view(&self) -> Seq<char> {
        self.0@
    }
}

/// Metadata about the snap that triggered a prompt.
#[derive(Debug, Clone, Default, PartialEq, Eq)]
pub struct SnapMeta {
    pub name: String,
    pub updated_at: String,
    pub store_url: String,
    pub publisher: String,
}

#[derive(Debug, Clone, Copy, PartialEq, Eq, Structural)]
pub enum Action {
    Allow,
    Deny,
}

#[derive(Debug, Clone, Copy, PartialEq, Eq, Structural)]
pub enum Lifespan {
    Single,
    Session,
    Forever,
}

/// The kinds of path pattern suggested for a home prompt, in the order in
/// which they are offered.
#[derive(Debug, Clone, Copy, PartialEq, Eq, Structural)]
pub enum PatternType {
    RequestedDirectory,
    RequestedFile,
    RequestedDirectoryContents,
    TopLevelDirectory,
    HomeDirectory,
    MatchingFileExtension,
    ContainingDirectory,
}

/// The position of a pattern kind in the fixed order of suggestions; also its
/// ordinal on the wire.
pub open spec fn pattern_rank(t: PatternType) -> int {
    match t {
        PatternType::RequestedDirectory => 0,
        PatternType::RequestedFile => 1,
        PatternType::RequestedDirectoryContents => 2,
        PatternType::TopLevelDirectory => 3,
        PatternType::HomeDirectory => 4,
        PatternType::MatchingFileExtension => 5,
        PatternType::ContainingDirectory => 6,
    }
}

#[derive(Debug, Clone, PartialEq, Eq)]
pub struct TypedPathPattern {
    pub pattern_type: PatternType,
    pub path_pattern: String,
    pub show_initially: bool,
}

/// What the UI is shown of a home prompt.
#[derive(Debug, Clone, PartialEq, Eq)]
pub struct HomeUiInputData {
    pub requested_path: String,
    pub home_dir: String,
    pub requested_permissions: Vec<String>,
    pub available_permissions: Vec<String>,
    pub suggested_permissions: Vec<String>,
    pub initial_pattern_option: usize,
    pub pattern_options: Vec<TypedPathPattern>,
}

/// A prompt enriched with snap metadata and pattern suggestions.
#[derive(Debug, Clone, PartialEq, Eq)]
pub struct UiInput {
    pub id: PromptId,
    pub meta: SnapMeta,
    pub data: HomeUiInputData,
}

/// The constraints of a home prompt as snapd sends them.
#[derive(Debug, Clone, PartialEq, Eq)]
pub struct HomeConstraints {
    pub path: String,
    pub requested_permissions: Vec<String>,
    pub available_permissions: Vec<String>,
}

/// A prompt of the home interface, the only interface supported.
#[derive(Debug, Clone, PartialEq, Eq)]
pub struct Prompt {
    pub id: PromptId,
    pub timestamp: String,
    pub snap: String,
    pub constraints: HomeConstraints,
}

/// A prompt as snapd describes it, before its interface is checked.
#[derive(Debug, Clone, PartialEq, Eq)]
pub struct RawPrompt {
    pub id: PromptId,
    pub timestamp: String,
    pub snap: String,
    pub interface: String,
}

/// The constraints of a reply to a home prompt.
#[derive(Debug, Clone, PartialEq, Eq)]
pub struct HomeReplyConstraints {
    pub path_pattern: String,
    pub permissions: Vec<String>,
    pub available_permissions: Vec<String>,
}

/// A reply to a home prompt, as it is sent to snapd.
#[derive(Debug, Clone, PartialEq, Eq)]
pub struct TypedPromptReply {
    pub action: Action,
    pub lifespan: Lifespan,
    pub duration: Option<String>,
    pub constraints: HomeReplyConstraints,
}

/// What a notice from snapd says of a prompt.
#[derive(Debug, Clone, PartialEq, Eq)]
pub enum PromptNotice {
    Update(PromptId),
    Resolved(PromptId),
}

/// What the RPC service tells the worker after replying to a prompt.
#[derive(Debug, Clone, PartialEq, Eq)]
pub enum ActionedPrompt {
    Actioned { id: PromptId, others: Vec<PromptId> },
    NotFound { id: PromptId },
}

/// The errors of the library.
#[derive(Debug, Clone, PartialEq, Eq)]
pub enum Error {
    NotAvailable,
    NotSupported { reason: String },
    NotEnabled,
    SnapdError { status: u16, message: String },
    UnsupportedInterface { interface: String },
    InvalidResponse { reason: String },
    UnableToUpdateLogFilter { reason: String },
    Io { message: String },
}

} // verus!
