//! The decisions of the snapd client: whether prompting is enabled, how a
//! batch of notices moves the cursor and what it announces, how a response
//! envelope is told apart from an error, how raw prompts are typed and how
//! snap metadata is derived.
use vstd::prelude::*;
use vstd::string::*;
use crate::model::{
    Error, HomeConstraints, Prompt, PromptId, PromptNotice, RawPrompt, SnapMeta,
};

verus! {

/// The text of an error, as it is shown to the UI.
pub open spec fn error_text(e: Error) -> Seq<char> {
    match e {
        Error::NotAvailable => "the prompting feature is not available"@,
        Error::NotSupported { reason } => "the prompting feature is not supported: "@ + reason@,
        Error::NotEnabled => "the prompting feature is not enabled"@,
        Error::SnapdError { status, message } => "error from snapd: "@ + message@,
        Error::UnsupportedInterface { interface } => "unsupported interface: "@ + interface@,
        Error::InvalidResponse { reason } => "invalid response from snapd: "@ + reason@,
        Error::UnableToUpdateLogFilter { reason } => "unable to update log filter: "@ + reason@,
        Error::Io { message } => "io error: "@ + message@,
    }
}

impl Error {
    pub fn text(&self) -> (r: String)
        ensures
            r@ == error_text(*self),
    {
        match self {
            Error::NotAvailable => String::from_str("the prompting feature is not available"),
            Error::NotSupported { reason } => String::from_str(
                "the prompting feature is not supported: ",
            ).concat(reason.as_str()),
            Error::NotEnabled => String::from_str("the prompting feature is not enabled"),
            Error::SnapdError { status: _, message } => String::from_str(
                "error from snapd: ",
            ).concat(message.as_str()),
            Error::UnsupportedInterface { interface } => String::from_str(
                "unsupported interface: ",
            ).concat(interface.as_str()),
            Error::InvalidResponse { reason } => String::from_str(
                "invalid response from snapd: ",
            ).concat(reason.as_str()),
            Error::UnableToUpdateLogFilter { reason } => String::from_str(
                "unable to update log filter: ",
            ).concat(reason.as_str()),
            Error::Io { message } => String::from_str("io error: ").concat(message.as_str()),
        }
    }
}

/// Relies on hyper's `StatusCode::NOT_FOUND`, whose `as_u16` is 404.
#[verifier::external_body]
fn not_found_status() -> (r: u16)
    ensures
        r == 404,
{
    hyper::StatusCode::NOT_FOUND.as_u16()
}

/// Whether an HTTP status says that what was asked for was not found.
pub(crate) fn is_not_found(status: u16) -> (r: bool)
    ensures
        r == (status == 404),
{
    status == not_found_status()
}

/// The status of one feature in snapd's system information.
#[derive(Debug, Clone, Default, PartialEq, Eq)]
pub struct Feature {
    pub enabled: bool,
    pub supported: bool,
    pub unsupported_reason: Option<String>,
}

/// snapd's system information: its features by name, each name once.
#[derive(Debug, Clone, Default, PartialEq, Eq)]
pub struct SysInfo {
    pub features: Vec<(String, Feature)>,
}

pub open spec fn prompting_feature_name() -> Seq<char> {
    "apparmor-prompting"@
}

/// The first feature of the given name.
pub open spec fn find_feature(fs: Seq<(String, Feature)>, name: Seq<char>) -> Option<Feature>
    decreases fs.len(),
{
    if fs.len() == 0 {
        None
    } else if fs[0].0@ == name {
        Some(fs[0].1)
    } else {
        find_feature(fs.drop_first(), name)
    }
}

proof fn lemma_find_feature_step(fs: Seq<(String, Feature)>, name: Seq<char>, i: int)
    requires
        0 <= i < fs.len(),
        forall|j: int| 0 <= j < i ==> fs[j].0@ != name,
    ensures
        find_feature(fs, name) == find_feature(fs.subrange(i, fs.len() as int), name),
    decreases i,
{
    if i > 0 {
        lemma_find_feature_step(fs.drop_first(), name, i - 1);
        assert(fs.drop_first().subrange(i - 1, fs.len() - 1) =~= fs.subrange(i, fs.len() as int));
    } else {
        assert(fs.subrange(0, fs.len() as int) =~= fs);
    }
}

proof fn lemma_find_feature_none(fs: Seq<(String, Feature)>, name: Seq<char>)
    requires
        forall|j: int| 0 <= j < fs.len() ==> fs[j].0@ != name,
    ensures
        find_feature(fs, name) is None,
    decreases fs.len(),
{
    if fs.len() > 0 {
        lemma_find_feature_none(fs.drop_first(), name);
    }
}

impl SysInfo {
    /// Each feature name appears once, as in the JSON object snapd sends.
    pub open spec fn wf(&self) -> bool {
        forall|i: int, j: int|
            0 <= i < j < self.features@.len() ==> (#[trigger] self.features@[i]).0@
                != (#[trigger] self.features@[j]).0@
    }

    /// Whether prompting is enabled: an error when snapd does not list the
    /// feature, or lists it with a reason why it is unsupported; otherwise
    /// whether it is both supported and enabled.
    pub fn prompting_enabled(self) -> (r: Result<bool, Error>)
        requires
            self.wf(),
        ensures
            match find_feature(self.features@, prompting_feature_name()) {
                None => r == Err::<bool, Error>(Error::NotAvailable),
                Some(f) => match f.unsupported_reason {
                    Some(reason) if reason@.len() > 0 => r == Err::<bool, Error>(
                        Error::NotSupported { reason },
                    ),
                    _ => r == Ok::<bool, Error>(f.supported && f.enabled),
                },
            },
    {
        let name = String::from_str("apparmor-prompting");
        let mut features = self.features;
        let mut i: usize = 0;
        while i < features.len()
            invariant
                features@ == self.features@,
                name@ == prompting_feature_name(),
                i <= features@.len(),
                forall|j: int| 0 <= j < i ==> features@[j].0@ != name@,
            decreases features@.len() - i,
        {
            if features[i].0 == name {
                proof {
                    lemma_find_feature_step(features@, name@, i as int);
                }
                let (_, f) = features.remove(i);
                return match f.unsupported_reason {
                    Some(reason) => {
                        if reason.as_str().is_empty() {
                            Ok(f.supported && f.enabled)
                        } else {
                            Err(Error::NotSupported { reason })
                        }
                    },
                    None => Ok(f.supported && f.enabled),
                };
            }
            i = i + 1;
        }
        proof {
            lemma_find_feature_none(features@, name@);
        }
        Err(Error::NotAvailable)
    }
}

/// What snapd attached to a notice.
#[derive(Debug, Clone, Default, PartialEq, Eq)]
pub struct LastData {
    pub resolved: Option<String>,
}

/// A notice from snapd about one prompt.
#[derive(Debug, Clone, PartialEq, Eq)]
pub struct Notice {
    pub key: PromptId,
    pub last_occurred: String,
    pub last_data: Option<LastData>,
}

/// Whether snapd says that the prompt of this notice has been replied to.
pub open spec fn is_replied(n: Notice) -> bool {
    &&& n.last_data matches Some(d)
    &&& d.resolved matches Some(s)
    &&& s@ == "replied"@
}

/// What a notice announces: a resolved prompt when it has been replied to,
/// otherwise a new or updated one.
pub open spec fn notice_of(n: Notice) -> PromptNotice {
    if is_replied(n) {
        PromptNotice::Resolved(n.key)
    } else {
        PromptNotice::Update(n.key)
    }
}

/// The cursor after a batch of notices: the time of the batch's last notice,
/// or the old cursor when the batch is empty.
pub open spec fn cursor_after(cursor: Seq<char>, batch: Seq<Notice>) -> Seq<char> {
    if batch.len() == 0 {
        cursor
    } else {
        batch.last().last_occurred@
    }
}

pub open spec fn notices_path_prefix() -> Seq<char> {
    "notices?types=interfaces-requests-prompt&timeout=1h&after="@
}

pub open spec fn prompts_path() -> Seq<char> {
    "interfaces/requests/prompts"@
}

/// A name for the RFC 3339 form, with nanoseconds and a `Z` zone, of the UTC
/// time that many seconds and nanoseconds after the Unix epoch.
pub uninterp spec fn rfc3339_nanos(secs: int, nanos: int) -> Seq<char>;

/// Whether a time, in seconds and nanoseconds since the Unix epoch, lies
/// between the epoch and the end of the year 9999, with a nanosecond part
/// under one second.
pub open spec fn in_cursor_range(secs: int, nanos: int) -> bool {
    0 <= secs <= 253_402_300_799 && 0 <= nanos < 1_000_000_000
}

/// Relies on chrono's `DateTime::from_timestamp`, which gives `None` only on
/// an out-of-range day or an invalid nanosecond (every day of the years
/// 1970 to 9999 is in range, and every nanosecond under one second is
/// valid), and `DateTime::to_rfc3339_opts`, which writes the time in RFC 3339
/// form.
#[verifier::external_body]
fn format_rfc3339_nanos(secs: i64, nanos: u32) -> (r: Option<String>)
    ensures
        in_cursor_range(secs as int, nanos as int) ==> r is Some,
        r matches Some(s) ==> s@ == rfc3339_nanos(secs as int, nanos as int),
{
    match chrono::DateTime::from_timestamp(secs, nanos) {
        Some(dt) => Some(dt.to_rfc3339_opts(chrono::SecondsFormat::Nanos, true)),
        None => None,
    }
}

/// The client's own state: the time after which it asks snapd for notices.
#[derive(Debug, Clone, PartialEq, Eq)]
pub struct SnapdClient {
    pub notices_after: String,
}

impl SnapdClient {
    /// A client that asks for the notices after the given time, in seconds
    /// and nanoseconds since the Unix epoch: always one for a time between
    /// the epoch and the end of 9999; `None` when the time cannot be
    /// represented.
    pub fn new_with_notices_after(secs: i64, nanos: u32) -> (r: Option<SnapdClient>)
        ensures
            in_cursor_range(secs as int, nanos as int) ==> r is Some,
            r matches Some(c) ==> c.notices_after@ == rfc3339_nanos(secs as int, nanos as int),
    {
        match format_rfc3339_nanos(secs, nanos) {
            Some(notices_after) => Some(SnapdClient { notices_after }),
            None => None,
        }
    }

    /// The path of the long poll for notices after the cursor.
    pub fn notices_path(&self) -> (r: String)
        ensures
            r@ == notices_path_prefix() + self.notices_after@,
    {
        String::from_str("notices?types=interfaces-requests-prompt&timeout=1h&after=").concat(
            self.notices_after.as_str(),
        )
    }

    /// Takes in a batch of notices as snapd delivered it: the cursor moves to
    /// the time of its last notice, and each notice becomes what it announces,
    /// in order.
    pub fn pending_prompt_notices(&mut self, raw_notices: Vec<Notice>) -> (r: Vec<PromptNotice>)
        ensures
            final(self).notices_after@ == cursor_after(old(self).notices_after@, raw_notices@),
            r@.len() == raw_notices@.len(),
            forall|i: int| 0 <= i < r@.len() ==> r@[i] == notice_of(raw_notices@[i]),
    {
        let n = raw_notices.len();
        if n > 0 {
            self.notices_after = raw_notices[n - 1].last_occurred.clone();
        }
        let replied = String::from_str("replied");
        let mut notices: Vec<PromptNotice> = Vec::new();
        let mut i: usize = 0;
        while i < n
            invariant
                n == raw_notices@.len(),
                replied@ == "replied"@,
                i <= n,
                notices@.len() == i,
                forall|j: int| 0 <= j < i ==> notices@[j] == notice_of(raw_notices@[j]),
            decreases n - i,
        {
            let raw = &raw_notices[i];
            let key = PromptId(raw.key.0.clone());
            let resolved = match &raw.last_data {
                Some(d) => match &d.resolved {
                    Some(s) => *s == replied,
                    None => false,
                },
                None => false,
            };
            if resolved {
                notices.push(PromptNotice::Resolved(key));
            } else {
                notices.push(PromptNotice::Update(key));
            }
            i = i + 1;
        }
        notices
    }

    /// The path of the details of one prompt, which is also where a reply to
    /// it is posted.
    pub fn prompt_path(&self, id: &PromptId) -> (r: String)
        ensures
            r@ == prompts_path() + "/"@ + id.0@,
    {
        String::from_str("interfaces/requests/prompts").concat("/").concat(id.0.as_str())
    }

    /// The ids that snapd says a reply also resolved: none when it sent none.
    pub fn reply_to_prompt(&self, resp: Option<Vec<PromptId>>) -> (r: Vec<PromptId>)
        ensures
            resp matches Some(v) ==> r == v,
            resp is None ==> r@.len() == 0,
    {
        match resp {
            Some(v) => v,
            None => Vec::new(),
        }
    }
}

/// Whether `a` comes at or after `b` in the order of characters, comparing
/// character by character, with a string at or after each of its prefixes.
pub open spec fn not_before(a: Seq<char>, b: Seq<char>) -> bool
    decreases a.len(),
{
    if b.len() == 0 {
        true
    } else if a.len() == 0 {
        false
    } else if a[0] != b[0] {
        (a[0] as u32) > (b[0] as u32)
    } else {
        not_before(a.drop_first(), b.drop_first())
    }
}

proof fn lemma_not_before_refl(a: Seq<char>)
    ensures
        not_before(a, a),
    decreases a.len(),
{
    if a.len() > 0 {
        lemma_not_before_refl(a.drop_first());
    }
}

/// The notice cursor never goes back: the cursor after a batch is the time
/// of the batch's last notice, or the old cursor for an empty batch, so when
/// every notice of the batch is at or after the cursor in the order of
/// `not_before`, so is the new cursor.
pub proof fn lemma_cursor_monotone(cursor: Seq<char>, batch: Seq<Notice>)
    requires
        forall|i: int| 0 <= i < batch.len() ==> not_before(#[trigger] batch[i].last_occurred@, cursor),
    ensures
        not_before(cursor_after(cursor, batch), cursor),
{
    if batch.len() == 0 {
        lemma_not_before_refl(cursor);
    } else {
        assert(not_before(batch[batch.len() - 1].last_occurred@, cursor));
    }
}

/// The part of a string before its first `T`, or all of it when it has none.
pub open spec fn date_part(s: Seq<char>) -> Seq<char>
    decreases s.len(),
{
    if s.len() == 0 {
        s
    } else if s[0] == 'T' {
        Seq::empty()
    } else {
        seq![s[0]] + date_part(s.drop_first())
    }
}

proof fn lemma_date_part_split(a: Seq<char>, b: Seq<char>)
    requires
        !a.contains('T'),
    ensures
        date_part(a + seq!['T'] + b) == a,
    decreases a.len(),
{
    let s = a + seq!['T'] + b;
    if a.len() > 0 {
        assert(!a.drop_first().contains('T')) by {
            if a.drop_first().contains('T') {
                let k = choose|k: int| 0 <= k < a.drop_first().len() && a.drop_first()[k] == 'T';
                assert(a[k + 1] == 'T');
            }
        }
        lemma_date_part_split(a.drop_first(), b);
        assert(s.drop_first() =~= a.drop_first() + seq!['T'] + b);
        assert(a[0] != 'T') by {
            if a[0] == 'T' {
                assert(a.contains('T'));
            }
        }
        assert(seq![a[0]] + a.drop_first() =~= a);
    } else {
        assert(s[0] == 'T');
    }
}

proof fn lemma_date_part_whole(s: Seq<char>)
    requires
        !s.contains('T'),
    ensures
        date_part(s) == s,
    decreases s.len(),
{
    if s.len() > 0 {
        assert(!s.drop_first().contains('T')) by {
            if s.drop_first().contains('T') {
                let k = choose|k: int| 0 <= k < s.drop_first().len() && s.drop_first()[k] == 'T';
                assert(s[k + 1] == 'T');
            }
        }
        lemma_date_part_whole(s.drop_first());
        assert(s[0] != 'T') by {
            if s[0] == 'T' {
                assert(s.contains('T'));
            }
        }
        assert(seq![s[0]] + s.drop_first() =~= s);
    }
}

/// Relies on `str::split_once`, which splits a string at the first
/// occurrence of the character and gives `None` when there is none.
#[verifier::external_body]
fn split_once_at(s: &str, c: char) -> (r: Option<(String, String)>)
    ensures
        r is None <==> !s@.contains(c),
        r matches Some(p) ==> p.0@ + seq![c] + p.1@ == s@ && !p.0@.contains(c),
{
    match s.split_once(c) {
        Some((a, b)) => Some((a.to_owned(), b.to_owned())),
        None => None,
    }
}

/// The publisher of a snap, as snapd describes it.
#[derive(Debug, Clone, Default, PartialEq, Eq)]
pub struct Publisher {
    pub display_name: String,
}

/// The details of a snap, as snapd describes them.
#[derive(Debug, Clone, Default, PartialEq, Eq)]
pub struct SnapDetails {
    pub install_date: String,
    pub publisher: Publisher,
}

pub open spec fn store_url_prefix() -> Seq<char> {
    "snap://"@
}

/// `m` is the metadata that the details of the snap `name` give.
pub open spec fn is_snap_meta_of(m: SnapMeta, name: Seq<char>, d: SnapDetails) -> bool {
    &&& m.name@ == name
    &&& m.updated_at@ == date_part(d.install_date@)
    &&& m.store_url@ == store_url_prefix() + name
    &&& m.publisher == d.publisher.display_name
}

impl SnapdClient {
    /// The metadata of a snap, from the details that snapd gave for it:
    /// none when they could not be had, which is never fatal.
    pub fn snap_metadata(&self, name: &str, details: Result<SnapDetails, Error>) -> (r: Option<SnapMeta>)
        ensures
            details is Err ==> r is None,
            details matches Ok(d) ==> (r matches Some(m) && is_snap_meta_of(m, name@, d)),
    {
        match details {
            Ok(d) => {
                let SnapDetails { install_date, publisher } = d;
                let updated_at = match split_once_at(install_date.as_str(), 'T') {
                    Some(parts) => {
                        proof {
                            lemma_date_part_split(parts.0@, parts.1@);
                        }
                        parts.0
                    },
                    None => {
                        proof {
                            lemma_date_part_whole(install_date@);
                        }
                        install_date
                    },
                };
                Some(
                    SnapMeta {
                        name: String::from_str(name),
                        updated_at,
                        store_url: String::from_str("snap://").concat(name),
                        publisher: publisher.display_name,
                    },
                )
            },
            Err(_) => None,
        }
    }
}

/// The `result` of a snapd response: an error with its message, or a payload.
#[derive(Debug, Clone, PartialEq, Eq)]
pub enum ResOrErr<T> {
    Failure { message: String },
    Res(T),
}

/// Tells the `result` of a response apart, given the string under its
/// `message` key, if it has one, and its decoding as a payload, if that
/// succeeded: a `message` makes it an error, whatever else it holds; without
/// one, the payload is the result, and a result that is neither is refused.
pub fn decode_result<T>(message: Option<String>, payload: Option<T>) -> (r: Result<
    ResOrErr<T>,
    Error,
>)
    ensures
        (r matches Ok(ResOrErr::Failure { .. })) <==> message is Some,
        message matches Some(m) ==> (r matches Ok(ResOrErr::Failure { message }) && message == m),
        message is None && payload is Some ==> (r matches Ok(ResOrErr::Res(t)) && t
            == payload.unwrap()),
        r is Err <==> message is None && payload is None,
        r matches Err(e) ==> e is InvalidResponse,
{
    match message {
        Some(message) => Ok(ResOrErr::Failure { message }),
        None => match payload {
            Some(t) => Ok(ResOrErr::Res(t)),
            None => Err(
                Error::InvalidResponse {
                    reason: String::from_str("the result is neither a payload nor an error"),
                },
            ),
        },
    }
}

/// The payload of a response, or snapd's error with the response's HTTP
/// status.
pub fn parse_response<T>(status: u16, result: ResOrErr<T>) -> (r: Result<T, Error>)
    ensures
        result matches ResOrErr::Res(t) ==> r matches Ok(u) && u == t,
        result matches ResOrErr::Failure { message } ==> r matches Err(Error::SnapdError {
            status: s,
            message: m,
        }) && s == status && m == message,
{
    match result {
        ResOrErr::Res(t) => Ok(t),
        ResOrErr::Failure { message } => Err(Error::SnapdError { status, message }),
    }
}

pub open spec fn home_interface() -> Seq<char> {
    "home"@
}

/// `p` is the home prompt that a raw prompt and its decoded constraints make.
pub open spec fn is_prompt_of(p: Prompt, raw: RawPrompt, c: HomeConstraints) -> bool {
    &&& p.id == raw.id
    &&& p.timestamp == raw.timestamp
    &&& p.snap == raw.snap
    &&& p.constraints == c
}

/// The prompts that a list of raw prompts with their decoded constraints
/// gives: those of the home interface whose constraints are of its shape, in
/// order.
pub open spec fn typed_prompts(raw: Seq<(RawPrompt, Option<HomeConstraints>)>) -> Seq<Prompt>
    decreases raw.len(),
{
    if raw.len() == 0 {
        Seq::empty()
    } else {
        let last = raw.last();
        if last.0.interface@ == home_interface() && last.1 is Some {
            typed_prompts(raw.drop_last()).push(
                Prompt {
                    id: last.0.id,
                    timestamp: last.0.timestamp,
                    snap: last.0.snap,
                    constraints: last.1.unwrap(),
                },
            )
        } else {
            typed_prompts(raw.drop_last())
        }
    }
}

impl SnapdClient {
    /// The typed prompt of a raw prompt from snapd, given its constraints
    /// decoded in the home shape, if they could be: an interface other than
    /// home is unsupported, and constraints that are not of that shape are an
    /// invalid response.
    pub fn prompt_details(&self, raw: RawPrompt, home: Option<HomeConstraints>) -> (r: Result<Prompt, Error>)
        ensures
            raw.interface@ != home_interface() ==> r == Err::<Prompt, Error>(
                Error::UnsupportedInterface { interface: raw.interface },
            ),
            raw.interface@ == home_interface() && home is None ==> (r matches Err(e) && e is InvalidResponse),
            raw.interface@ == home_interface() && home is Some ==> (r matches Ok(p) && is_prompt_of(
                p,
                raw,
                home.unwrap(),
            )),
    {
        let RawPrompt { id, timestamp, snap, interface } = raw;
        let expected = String::from_str("home");
        if interface != expected {
            return Err(Error::UnsupportedInterface { interface });
        }
        match home {
            Some(constraints) => Ok(Prompt { id, timestamp, snap, constraints }),
            None => Err(
                Error::InvalidResponse {
                    reason: String::from_str("the constraints are not those of a home prompt"),
                },
            ),
        }
    }

    /// The typed prompts of all the raw prompts pending at startup, each
    /// with its decoded constraints: those that can be typed, in order; a
    /// prompt that cannot is dropped and the others are kept.
    pub fn all_pending_prompt_details(&self, raw: Vec<(RawPrompt, Option<HomeConstraints>)>) -> (r: Vec<Prompt>)
        ensures
            r@ == typed_prompts(raw@),
    {
        let ghost all = raw@;
        let mut prompts: Vec<Prompt> = Vec::new();
        let mut rest = raw;
        let mut i: usize = 0;
        let n = rest.len();
        assert(all.subrange(0, 0) =~= Seq::<(RawPrompt, Option<HomeConstraints>)>::empty());
        while i < n
            invariant
                n == all.len(),
                all == raw@,
                i <= n,
                rest@ == all.subrange(i as int, n as int),
                prompts@ == typed_prompts(all.subrange(0, i as int)),
            decreases n - i,
        {
            let (raw_prompt, home) = rest.remove(0);
            assert(all[i as int] == (raw_prompt, home));
            assert(all.subrange(0, i + 1).drop_last() =~= all.subrange(0, i as int));
            match self.prompt_details(raw_prompt, home) {
                Ok(p) => prompts.push(p),
                Err(_) => {},
            }
            i = i + 1;
            assert(rest@ =~= all.subrange(i as int, n as int));
        }
        assert(all.subrange(0, n as int) =~= all);
        prompts
    }

    /// Whether to carry on at startup: only when snapd says that prompting is
    /// enabled; a disabled feature is `NotEnabled`, and an error is passed on.
    pub fn exit_if_prompting_not_enabled(&self, enabled: Result<bool, Error>) -> (r: Result<(), Error>)
        ensures
            enabled matches Ok(b) ==> (b ==> r is Ok) && (!b ==> (r matches Err(e) && e is NotEnabled)),
            enabled matches Err(e) ==> r == Err::<(), Error>(e),
    {
        match enabled {
            Ok(true) => Ok(()),
            Ok(false) => Err(Error::NotEnabled),
            Err(e) => Err(e),
        }
    }
}

pub open spec fn snapd_socket_path(in_snap: bool) -> Seq<char> {
    if in_snap {
        "/run/snapd-snap.socket"@
    } else {
        "/run/snapd.socket"@
    }
}

/// The socket of snapd: the one for snaps when running inside a snap, the
/// system one otherwise.
pub fn snapd_socket(in_snap: bool) -> (r: String)
    ensures
        r@ == snapd_socket_path(in_snap),
{
    if in_snap {
        String::from_str("/run/snapd-snap.socket")
    } else {
        String::from_str("/run/snapd.socket")
    }
}

} // verus!
