//! The fetch state machine.
//!
//! One cycle asks the daemon for its session statistics, then for its
//! torrents, then, where the policy wants torrents changed, for one change
//! after the other. The machine forms one request at a time and decides on
//! the answer what comes next; sending the request and waiting for the answer
//! is the driver's work. A call needs a session token: without one the
//! machine asks for a login first, and when the daemon refuses a token as
//! outdated, the machine forgets it, logs in again and repeats the call that
//! was refused.

use crate::api::enums::Status;
use crate::api::fields::TorrentField;
use crate::api::ids::{TorrentId, TorrentIdView};
use crate::api::method::{Method, MethodView};
use crate::api::params::{TorrentSetParams, TorrentSetParamsView};
use crate::api::response::{
    decoded_response, Response, ResponseView, SessionStats, SessionStatsView,
};
use crate::json::rendered_json;
use crate::scalar::TimePoint;
use crate::settings::{
    chosen, collect_statuses, fields_read, select, statuses_of, TorrentSettings,
    TorrentSettingsView, Verdict,
};
use crate::wire::ToJson;
use vstd::prelude::*;

verus! {

/// The status of an answer that carries what was asked for.
pub const STATUS_OK: u16 = 200;

/// The status of an answer that refuses the session token.
pub const STATUS_CONFLICT: u16 = 409;

/// Where a cycle stands.
#[derive(Debug)]
pub enum TorrentFetchState {
    /// The session statistics are asked for next.
    SessionStats,
    /// The torrents are asked for next.
    TorrentGet,
    /// These changes are still to be made, the first of them next.
    TorrentMut(Vec<Method>),
    /// Nothing is left to ask.
    End,
}

/// The mathematical value of a [`TorrentFetchState`].
pub enum TorrentFetchStateView {
    SessionStats,
    TorrentGet,
    TorrentMut(Seq<MethodView>),
    End,
}

impl DeepView for TorrentFetchState {
    type V = TorrentFetchStateView;

    open spec fn deep_view(&self) -> TorrentFetchStateView {
        match self {
            TorrentFetchState::SessionStats => TorrentFetchStateView::SessionStats,
            TorrentFetchState::TorrentGet => TorrentFetchStateView::TorrentGet,
            TorrentFetchState::TorrentMut(pending) => TorrentFetchStateView::TorrentMut(
                pending.deep_view(),
            ),
            TorrentFetchState::End => TorrentFetchStateView::End,
        }
    }
}

impl Default for TorrentFetchState {
    fn default() -> (r: Self)
        ensures
            r.deep_view() == TorrentFetchStateView::SessionStats,
    {
        TorrentFetchState::SessionStats
    }
}

/// The step of a cycle, without what the step holds.
#[derive(Debug, Clone, Copy, PartialEq, Eq, Structural)]
pub enum FetchStep {
    SessionStats,
    TorrentGet,
    TorrentMut,
    End,
}

/// The fields of a torrent that a cycle asks for.
pub open spec fn listed_fields() -> Seq<TorrentField> {
    seq![
        TorrentField::Id,
        TorrentField::Name,
        TorrentField::Status,
        TorrentField::TrackerList,
        TorrentField::AddedDate,
        TorrentField::UploadLimited,
    ]
}

impl TorrentFetchStateView {
    /// The call that a state asks for next, if it asks for one.
    pub open spec fn next_call(self) -> Option<MethodView> {
        match self {
            TorrentFetchStateView::SessionStats => Some(MethodView::SessionStats),
            TorrentFetchStateView::TorrentGet => Some(
                MethodView::TorrentGet(listed_fields(), None),
            ),
            TorrentFetchStateView::TorrentMut(pending) => if pending.len() > 0 {
                Some(pending[0])
            } else {
                None
            },
            TorrentFetchStateView::End => None,
        }
    }

    /// The step that a state belongs to.
    pub open spec fn step(self) -> FetchStep {
        match self {
            TorrentFetchStateView::SessionStats => FetchStep::SessionStats,
            TorrentFetchStateView::TorrentGet => FetchStep::TorrentGet,
            TorrentFetchStateView::TorrentMut(_) => FetchStep::TorrentMut,
            TorrentFetchStateView::End => FetchStep::End,
        }
    }

    /// Whether a state may come after this one within a cycle: the steps are
    /// taken in their order, the pending changes are made from the first on,
    /// and no step is gone back to.
    pub open spec fn precedes(self, after: TorrentFetchStateView) -> bool {
        match self {
            TorrentFetchStateView::SessionStats => after is SessionStats || after is TorrentGet,
            TorrentFetchStateView::TorrentGet => after is TorrentGet || after is End || (
            after matches TorrentFetchStateView::TorrentMut(pending) && pending.len() > 0),
            TorrentFetchStateView::TorrentMut(pending) => after == self || (pending.len() > 0
                && after == TorrentFetchStateView::TorrentMut(pending.drop_first())),
            TorrentFetchStateView::End => after is End,
        }
    }
}

impl TorrentFetchState {
    /// Getter of the method to send
    pub fn get_method(&self) -> (r: Option<Method>)
        ensures
            r.deep_view() == self.deep_view().next_call(),
    {
        match self {
            TorrentFetchState::SessionStats => Some(Method::SessionStats),
            TorrentFetchState::TorrentGet => {
                let fields = vec![
                    TorrentField::Id,
                    TorrentField::Name,
                    TorrentField::Status,
                    TorrentField::TrackerList,
                    TorrentField::AddedDate,
                    TorrentField::UploadLimited,
                ];
                assert(fields.deep_view() =~= listed_fields());
                Some(Method::TorrentGet(fields, None))
            },
            TorrentFetchState::TorrentMut(pending) => if pending.len() > 0 {
                Some(pending[0].clone())
            } else {
                None
            },
            TorrentFetchState::End => None,
        }
    }

    /// The step that the state belongs to.
    pub fn step(&self) -> (r: FetchStep)
        ensures
            r == self.deep_view().step(),
    {
        match self {
            TorrentFetchState::SessionStats => FetchStep::SessionStats,
            TorrentFetchState::TorrentGet => FetchStep::TorrentGet,
            TorrentFetchState::TorrentMut(_) => FetchStep::TorrentMut,
            TorrentFetchState::End => FetchStep::End,
        }
    }
}

/// What the driver does next.
#[derive(Debug, Clone, Copy, PartialEq, Eq, Structural)]
pub enum FetchAction {
    /// The cycle is over: nothing is sent until the next one starts.
    Stop,
    /// The request that the machine forms now is sent.
    Http,
}

/// What breaks the protocol.
#[derive(Debug, Clone, Copy, PartialEq, Eq, Structural)]
pub enum ProtocolError {
    /// The body of an answer is no answer of the daemon.
    UnparsableBody,
    /// The answer to a login carries no session token.
    MissingSessionHeader,
    /// The state asks for no call, so that no request can be formed.
    NoCall,
    /// The call cannot be written as JSON text.
    Unserializable,
}

/// What ends a cycle early.
#[derive(Debug, PartialEq, Eq)]
pub enum FetchError<E> {
    /// The daemon and the machine do not understand each other.
    Protocol(ProtocolError),
    /// The daemon answered a call with a status that is neither success nor
    /// the refusal of the token.
    UnexpectedStatus { status: u16, step: FetchStep },
    /// The transport failed; its error is handed on as it came.
    Transport(E),
}

/// How a request is sent.
#[derive(Debug, Clone, Copy, PartialEq, Eq, Structural)]
pub enum HttpMethod {
    Get,
    Post,
}

/// A request, as the driver sends it.
#[derive(Debug, PartialEq, Eq)]
pub struct HttpRequest {
    pub method: HttpMethod,
    pub path: String,
    pub headers: Vec<(String, String)>,
    pub body: Option<String>,
}

/// The mathematical value of an [`HttpRequest`].
pub struct HttpRequestView {
    pub method: HttpMethod,
    pub path: Seq<char>,
    pub headers: Seq<(Seq<char>, Seq<char>)>,
    pub body: Option<Seq<char>>,
}

impl DeepView for HttpRequest {
    type V = HttpRequestView;

    open spec fn deep_view(&self) -> HttpRequestView {
        HttpRequestView {
            method: self.method,
            path: self.path.deep_view(),
            headers: self.headers.deep_view(),
            body: self.body.deep_view(),
        }
    }
}

/// What came back for a request.
#[derive(Debug)]
pub enum HttpEvent<E> {
    /// An answer: its status, the session token of its headers where it
    /// carries one, and its body. The body is looked at only where
    /// [`TorrentAdaptor::wants_body`] says so.
    Response { status: u16, session_id: Option<String>, body: Vec<u8> },
    /// The request was canceled while it was under way.
    Canceled,
    /// The transport failed.
    Failed(E),
}

/// The mathematical value of an [`HttpEvent`].
pub enum HttpEventView<E> {
    Response { status: u16, session_id: Option<Seq<char>>, body: Seq<u8> },
    Canceled,
    Failed(E),
}

impl<E> DeepView for HttpEvent<E> {
    type V = HttpEventView<E>;

    open spec fn deep_view(&self) -> HttpEventView<E> {
        match self {
            HttpEvent::Response { status, session_id, body } => HttpEventView::Response {
                status: *status,
                session_id: session_id.deep_view(),
                body: body@,
            },
            HttpEvent::Canceled => HttpEventView::Canceled,
            HttpEvent::Failed(error) => HttpEventView::Failed(*error),
        }
    }
}

/// A change that the daemon has answered, with the result that it gave.
#[derive(Debug)]
pub struct Completed {
    pub method: Method,
    pub result: String,
}

/// The mathematical value of [`Completed`].
pub struct CompletedView {
    pub method: MethodView,
    pub result: Seq<char>,
}

impl DeepView for Completed {
    type V = CompletedView;

    open spec fn deep_view(&self) -> CompletedView {
        CompletedView { method: self.method.deep_view(), result: self.result.deep_view() }
    }
}

/// What the last answer to a call has given the driver to hand on.
#[derive(Debug, Clone, Copy, PartialEq, Eq, Structural)]
pub enum Report {
    /// Nothing new.
    Nothing,
    /// New cumulative statistics, in `torrent_stats`.
    SessionStats,
    /// The statuses of a new list of torrents, in `torrent_count`.
    TorrentCount,
    /// The answer to a change, in `completed`.
    Completed,
}

/// The state machine of the fetcher, with what it has last published.
#[derive(Debug)]
pub struct TorrentAdaptor {
    /// The policy, where one is configured.
    pub settings: Option<TorrentSettings>,
    /// Where the cycle stands.
    pub state: TorrentFetchState,
    /// The session token, once the daemon has given one.
    pub session_id: Option<String>,
    /// The statuses of the torrents of the last list: what the status count
    /// is made from.
    pub torrent_count: Vec<Status>,
    /// The cumulative statistics that the daemon gave last.
    pub torrent_stats: SessionStats,
    /// The change that the daemon answered last in this cycle.
    pub completed: Option<Completed>,
    /// Which of these the last answer to a call has renewed.
    pub report: Report,
}

/// The mathematical value of a [`TorrentAdaptor`].
pub struct TorrentAdaptorView {
    pub settings: Option<TorrentSettingsView>,
    pub state: TorrentFetchStateView,
    pub session_id: Option<Seq<char>>,
    pub torrent_count: Seq<Status>,
    pub torrent_stats: SessionStatsView,
    pub completed: Option<CompletedView>,
    pub report: Report,
}

impl DeepView for TorrentAdaptor {
    type V = TorrentAdaptorView;

    open spec fn deep_view(&self) -> TorrentAdaptorView {
        TorrentAdaptorView {
            settings: self.settings.deep_view(),
            state: self.state.deep_view(),
            session_id: self.session_id.deep_view(),
            torrent_count: self.torrent_count@,
            torrent_stats: self.torrent_stats.deep_view(),
            completed: self.completed.deep_view(),
            report: self.report,
        }
    }
}

/// The path of every request.
pub open spec fn rpc_path() -> Seq<char> {
    "/transmission/rpc"@
}

/// The request that asks for a login: it carries neither token nor body.
pub open spec fn probe() -> HttpRequestView {
    HttpRequestView {
        method: HttpMethod::Get,
        path: rpc_path(),
        headers: seq![("connection"@, "keep-alive"@), ("accept"@, "application/json"@)],
        body: None,
    }
}

/// The request that makes a call: it carries the token and the JSON text of
/// the call.
pub open spec fn call(token: Seq<char>, body: Seq<char>) -> HttpRequestView {
    HttpRequestView {
        method: HttpMethod::Post,
        path: rpc_path(),
        headers: seq![
            ("connection"@, "keep-alive"@),
            ("content-type"@, "application/json"@),
            ("accept"@, "application/json"@),
            ("x-transmission-session-id"@, token),
        ],
        body: Some(body),
    }
}

/// The call that takes upload and peers away from torrents.
pub open spec fn throttle_call(ids: Seq<TorrentIdView>) -> MethodView {
    MethodView::TorrentSet(
        TorrentSetParamsView {
            ids: Some(ids),
            peer_limit: Some(0),
            upload_limit: Some(0),
            upload_limited: Some(true),
            ..TorrentSetParamsView::unset()
        },
    )
}

/// The call that removes torrents and leaves their data on disk.
pub open spec fn removal_call(ids: Seq<TorrentIdView>) -> MethodView {
    MethodView::TorrentRemove(ids, false)
}

/// The changes that a cycle makes: the throttling first, then the removal,
/// each only where it names a torrent.
pub open spec fn mutations(
    throttle: Seq<TorrentIdView>,
    removal: Seq<TorrentIdView>,
) -> Seq<MethodView> {
    let first = if throttle.len() > 0 {
        seq![throttle_call(throttle)]
    } else {
        Seq::empty()
    };
    let second = if removal.len() > 0 {
        seq![removal_call(removal)]
    } else {
        Seq::empty()
    };
    first + second
}

impl TorrentAdaptorView {
    /// The machine before its first cycle.
    pub open spec fn fresh(settings: Option<TorrentSettingsView>) -> TorrentAdaptorView {
        TorrentAdaptorView {
            settings,
            state: TorrentFetchStateView::SessionStats,
            session_id: None,
            torrent_count: Seq::empty(),
            torrent_stats: SessionStatsView::zero(),
            completed: None,
            report: Report::Nothing,
        }
    }

    /// The machine at the start of a cycle: the token and what was published
    /// stay, the steps start over.
    pub open spec fn restarted(self) -> TorrentAdaptorView {
        TorrentAdaptorView {
            state: TorrentFetchStateView::SessionStats,
            completed: None,
            report: Report::Nothing,
            ..self
        }
    }

    /// The request that the machine forms: a login while it has no token,
    /// else the call that its state asks for.
    pub open spec fn request(self) -> Result<HttpRequestView, ProtocolError> {
        match self.session_id {
            None => Ok(probe()),
            Some(token) => match self.state.next_call() {
                None => Err(ProtocolError::NoCall),
                Some(method) => match rendered_json(Method::encoded(method)) {
                    Some(body) => Ok(call(token, body)),
                    None => Err(ProtocolError::Unserializable),
                },
            },
        }
    }

    /// Whether the body of an answer with this status is read: that of a
    /// successful answer to a call.
    pub open spec fn reads_body(self, status: u16) -> bool {
        self.session_id is Some && status == STATUS_OK
    }

    /// What a successful answer to the call of the state makes of the
    /// machine, and what the driver does next.
    pub open spec fn consumed(self, response: ResponseView, now: TimePoint) -> (
        TorrentAdaptorView,
        FetchAction,
    ) {
        match self.state {
            TorrentFetchStateView::SessionStats => (
                TorrentAdaptorView {
                    state: TorrentFetchStateView::TorrentGet,
                    torrent_stats: match response.arguments.cumulative_stats {
                        Some(stats) => stats,
                        None => self.torrent_stats,
                    },
                    report: if response.arguments.cumulative_stats is Some {
                        Report::SessionStats
                    } else {
                        Report::Nothing
                    },
                    ..self
                },
                FetchAction::Http,
            ),
            TorrentFetchStateView::TorrentGet => {
                let torrents = response.arguments.torrents;
                let throttle = chosen(self.settings, torrents, now, Verdict::Throttle);
                let removal = chosen(self.settings, torrents, now, Verdict::Remove);
                if throttle.len() > 0 || removal.len() > 0 {
                    (
                        TorrentAdaptorView {
                            state: TorrentFetchStateView::TorrentMut(mutations(throttle, removal)),
                            torrent_count: statuses_of(torrents),
                            report: Report::TorrentCount,
                            ..self
                        },
                        FetchAction::Http,
                    )
                } else {
                    (
                        TorrentAdaptorView {
                            state: TorrentFetchStateView::End,
                            torrent_count: statuses_of(torrents),
                            report: Report::TorrentCount,
                            ..self
                        },
                        FetchAction::Stop,
                    )
                }
            },
            TorrentFetchStateView::TorrentMut(pending) => if pending.len() > 0 {
                (
                    TorrentAdaptorView {
                        state: TorrentFetchStateView::TorrentMut(pending.drop_first()),
                        completed: Some(
                            CompletedView { method: pending[0], result: response.result },
                        ),
                        report: Report::Completed,
                        ..self
                    },
                    if pending.len() > 1 {
                        FetchAction::Http
                    } else {
                        FetchAction::Stop
                    },
                )
            } else {
                (TorrentAdaptorView { report: Report::Nothing, ..self }, FetchAction::Stop)
            },
            TorrentFetchStateView::End => (
                TorrentAdaptorView { report: Report::Nothing, ..self },
                FetchAction::Stop,
            ),
        }
    }

    /// What an event makes of the machine, and what the driver does next or
    /// which error ends the cycle.
    pub open spec fn step<E>(self, event: HttpEventView<E>, now: TimePoint) -> (
        TorrentAdaptorView,
        Result<FetchAction, FetchError<E>>,
    ) {
        match event {
            HttpEventView::Canceled => (self, Ok(FetchAction::Stop)),
            HttpEventView::Failed(error) => (self, Err(FetchError::Transport(error))),
            HttpEventView::Response { status, session_id, body } => if self.session_id is None {
                match session_id {
                    Some(token) => (
                        TorrentAdaptorView { session_id: Some(token), ..self },
                        Ok(FetchAction::Http),
                    ),
                    None => (self, Err(FetchError::Protocol(ProtocolError::MissingSessionHeader))),
                }
            } else if status == STATUS_OK {
                match decoded_response(body) {
                    Some(response) => {
                        let (next, action) = self.consumed(response, now);
                        (next, Ok(action))
                    },
                    None => (self, Err(FetchError::Protocol(ProtocolError::UnparsableBody))),
                }
            } else if status == STATUS_CONFLICT {
                (TorrentAdaptorView { session_id: None, ..self }, Ok(FetchAction::Http))
            } else {
                (self, Err(FetchError::UnexpectedStatus { status, step: self.state.step() }))
            },
        }
    }
}

/// The pair of a header's name and value.
fn header(name: &str, value: &str) -> (r: (String, String))
    ensures
        r.deep_view() == (name@, value@),
{
    (name.to_owned(), value.to_owned())
}

/// The changes that a cycle makes for two lists of ids.
fn mutation_queue(throttle: Vec<TorrentId>, removal: Vec<TorrentId>) -> (r: Vec<Method>)
    ensures
        r.deep_view() == mutations(throttle.deep_view(), removal.deep_view()),
{
    let mut queue: Vec<Method> = Vec::new();
    if throttle.len() > 0 {
        let ghost ids = throttle.deep_view();
        let params = TorrentSetParams {
            ids: Some(throttle),
            peer_limit: Some(0),
            upload_limit: Some(0),
            upload_limited: Some(true),
            ..Default::default()
        };
        assert(params.deep_view() == throttle_call(ids)->TorrentSet_0);
        queue.push(Method::TorrentSet(Box::new(params)));
    }
    if removal.len() > 0 {
        queue.push(Method::TorrentRemove(removal, false));
    }
    assert(queue.deep_view() =~= mutations(throttle.deep_view(), removal.deep_view()));
    queue
}

impl TorrentAdaptor {
    /// The machine before its first cycle.
    pub fn new(settings: Option<TorrentSettings>) -> (r: Self)
        ensures
            r.deep_view() == TorrentAdaptorView::fresh(settings.deep_view()),
    {
        TorrentAdaptor {
            settings,
            state: TorrentFetchState::default(),
            session_id: None,
            torrent_count: Vec::new(),
            torrent_stats: SessionStats::default(),
            completed: None,
            report: Report::Nothing,
        }
    }

    /// Starts a cycle at its first step. Changes that an earlier cycle has
    /// left unmade are dropped.
    pub fn fetch(&mut self) -> (r: FetchAction)
        ensures
            final(self).deep_view() == old(self).deep_view().restarted(),
            r == FetchAction::Http,
    {
        self.state = TorrentFetchState::default();
        self.completed = None;
        self.report = Report::Nothing;
        FetchAction::Http
    }

    /// Forms the next request: a login while there is no session token, else
    /// the call that the state asks for.
    pub fn create_http_request(&self) -> (r: Result<HttpRequest, ProtocolError>)
        ensures
            match r {
                Ok(request) => self.deep_view().request() == Ok::<
                    HttpRequestView,
                    ProtocolError,
                >(request.deep_view()),
                Err(error) => self.deep_view().request() == Err::<HttpRequestView, ProtocolError>(
                    error,
                ),
            },
    {
        match &self.session_id {
            Some(token) => match self.state.get_method() {
                Some(method) => match method.encode() {
                    Some(body) => {
                        let headers = vec![
                            header("connection", "keep-alive"),
                            header("content-type", "application/json"),
                            header("accept", "application/json"),
                            header("x-transmission-session-id", token.as_str()),
                        ];
                        assert(headers.deep_view() =~= call(token@, body@).headers);
                        Ok(
                            HttpRequest {
                                method: HttpMethod::Post,
                                path: "/transmission/rpc".to_owned(),
                                headers,
                                body: Some(body),
                            },
                        )
                    },
                    None => Err(ProtocolError::Unserializable),
                },
                None => Err(ProtocolError::NoCall),
            },
            None => {
                let headers = vec![
                    header("connection", "keep-alive"),
                    header("accept", "application/json"),
                ];
                assert(headers.deep_view() =~= probe().headers);
                Ok(
                    HttpRequest {
                        method: HttpMethod::Get,
                        path: "/transmission/rpc".to_owned(),
                        headers,
                        body: None,
                    },
                )
            },
        }
    }

    /// Whether the driver reads the body of an answer with this status.
    pub fn wants_body(&self, status: u16) -> (r: bool)
        ensures
            r == self.deep_view().reads_body(status),
    {
        self.session_id.is_some() && status == STATUS_OK
    }

    /// Takes a successful answer to the call of the state and says what the
    /// driver does next.
    pub fn consume_response(&mut self, response: Response, now: TimePoint) -> (r: FetchAction)
        ensures
            (final(self).deep_view(), r) == old(self).deep_view().consumed(
                response.deep_view(),
                now,
            ),
    {
        let mut state = TorrentFetchState::End;
        std::mem::swap(&mut self.state, &mut state);
        match state {
            TorrentFetchState::SessionStats => {
                match response.arguments.cumulative_stats {
                    Some(stats) => {
                        self.torrent_stats = stats;
                        self.report = Report::SessionStats;
                    },
                    None => {
                        self.report = Report::Nothing;
                    },
                }
                self.state = TorrentFetchState::TorrentGet;
                FetchAction::Http
            },
            TorrentFetchState::TorrentGet => {
                let torrents = &response.arguments.torrents;
                let throttle = select(&self.settings, torrents, now, Verdict::Throttle);
                let removal = select(&self.settings, torrents, now, Verdict::Remove);
                self.torrent_count = collect_statuses(torrents);
                self.report = Report::TorrentCount;
                if throttle.len() > 0 || removal.len() > 0 {
                    self.state = TorrentFetchState::TorrentMut(mutation_queue(throttle, removal));
                    FetchAction::Http
                } else {
                    self.state = TorrentFetchState::End;
                    FetchAction::Stop
                }
            },
            TorrentFetchState::TorrentMut(pending) => {
                let mut pending = pending;
                if pending.len() > 0 {
                    let ghost before = pending.deep_view();
                    let method = pending.remove(0);
                    assert(pending.deep_view() =~= before.drop_first());
                    assert(method.deep_view() == before[0]);
                    self.completed = Some(Completed { method, result: response.result });
                    self.report = Report::Completed;
                    let more = pending.len() > 0;
                    self.state = TorrentFetchState::TorrentMut(pending);
                    if more {
                        FetchAction::Http
                    } else {
                        FetchAction::Stop
                    }
                } else {
                    self.state = TorrentFetchState::TorrentMut(pending);
                    self.report = Report::Nothing;
                    FetchAction::Stop
                }
            },
            TorrentFetchState::End => {
                self.state = TorrentFetchState::End;
                self.report = Report::Nothing;
                FetchAction::Stop
            },
        }
    }

    /// Takes what came back for the last request and says what the driver
    /// does next, or with which error the cycle ends.
    pub fn process_http_response<E>(&mut self, event: HttpEvent<E>, now: TimePoint) -> (r: Result<
        FetchAction,
        FetchError<E>,
    >)
        ensures
            (final(self).deep_view(), r) == old(self).deep_view().step(event.deep_view(), now),
    {
        match event {
            HttpEvent::Canceled => Ok(FetchAction::Stop),
            HttpEvent::Failed(error) => Err(FetchError::Transport(error)),
            HttpEvent::Response { status, session_id, body } => {
                if self.session_id.is_none() {
                    match session_id {
                        Some(token) => {
                            self.session_id = Some(token);
                            Ok(FetchAction::Http)
                        },
                        None => Err(FetchError::Protocol(ProtocolError::MissingSessionHeader)),
                    }
                } else if status == STATUS_OK {
                    match Response::decode(body.as_slice()) {
                        Some(response) => Ok(self.consume_response(response, now)),
                        None => Err(FetchError::Protocol(ProtocolError::UnparsableBody)),
                    }
                } else if status == STATUS_CONFLICT {
                    self.session_id = None;
                    Ok(FetchAction::Http)
                } else {
                    Err(FetchError::UnexpectedStatus { status, step: self.state.step() })
                }
            },
        }
    }
}

/// A cycle in which no torrent is to be changed asks for one login and makes
/// two calls: after the login the session statistics, then the torrents, and
/// with the answer to that the cycle is over and nothing is pending.
pub proof fn cycle_without_changes<E>(
    settings: Option<TorrentSettingsView>,
    login: HttpEventView<E>,
    stats: ResponseView,
    list: ResponseView,
    now: TimePoint,
)
    requires
        login matches HttpEventView::Response { session_id, .. } && session_id is Some,
        chosen(settings, list.arguments.torrents, now, Verdict::Throttle).len() == 0,
        chosen(settings, list.arguments.torrents, now, Verdict::Remove).len() == 0,
    ensures
        ({
            let start = TorrentAdaptorView::fresh(settings).restarted();
            let logged_in = start.step(login, now);
            let counted = logged_in.0.consumed(stats, now);
            let listed = counted.0.consumed(list, now);
            &&& start.request() == Ok::<HttpRequestView, ProtocolError>(probe())
            &&& logged_in.1 == Ok::<FetchAction, FetchError<E>>(FetchAction::Http)
            &&& logged_in.0.session_id == login->session_id
            &&& logged_in.0.state.next_call() == Some(MethodView::SessionStats)
            &&& counted.1 == FetchAction::Http
            &&& counted.0.session_id == login->session_id
            &&& counted.0.state.next_call() == Some(MethodView::TorrentGet(listed_fields(), None))
            &&& listed.1 == FetchAction::Stop
            &&& listed.0.state is End
            &&& listed.0.state.next_call() is None
        }),
{
}

/// When the daemon refuses the token, the machine forgets it and stays at
/// its step; the next request is a login, and once that has brought a new
/// token the machine forms the call that was refused, with the new token.
pub proof fn conflict_is_recovered<E>(
    machine: TorrentAdaptorView,
    refusal: HttpEventView<E>,
    login: HttpEventView<E>,
    now: TimePoint,
    later: TimePoint,
)
    requires
        machine.session_id is Some,
        refusal matches HttpEventView::Response { status, .. } && status == STATUS_CONFLICT,
        login matches HttpEventView::Response { session_id, .. } && session_id is Some,
    ensures
        ({
            let refused = machine.step(refusal, now);
            let renewed = refused.0.step(login, later);
            &&& refused.1 == Ok::<FetchAction, FetchError<E>>(FetchAction::Http)
            &&& refused.0 == TorrentAdaptorView { session_id: None, ..machine }
            &&& refused.0.request() == Ok::<HttpRequestView, ProtocolError>(probe())
            &&& renewed.1 == Ok::<FetchAction, FetchError<E>>(FetchAction::Http)
            &&& renewed.0 == TorrentAdaptorView { session_id: login->session_id, ..machine }
            &&& renewed.0.state.next_call() == machine.state.next_call()
        }),
{
}

/// No event takes the machine back: the state after an event is the state
/// before it or one that comes later in the cycle.
pub proof fn steps_keep_their_order<E>(
    machine: TorrentAdaptorView,
    event: HttpEventView<E>,
    now: TimePoint,
)
    ensures
        machine.state.precedes(machine.step(event, now).0.state),
{
    let torrents = match event {
        HttpEventView::Response { body, .. } => match decoded_response(body) {
            Some(response) => response.arguments.torrents,
            None => Seq::empty(),
        },
        _ => Seq::empty(),
    };
    let throttle = chosen(machine.settings, torrents, now, Verdict::Throttle);
    let removal = chosen(machine.settings, torrents, now, Verdict::Remove);
    assert(throttle.len() > 0 || removal.len() > 0 ==> mutations(throttle, removal).len() > 0);
}

/// An event that ends the cycle with an error leaves the machine as it was:
/// what was published before stays published.
pub proof fn failure_changes_nothing<E>(
    machine: TorrentAdaptorView,
    event: HttpEventView<E>,
    now: TimePoint,
)
    requires
        machine.step(event, now).1 is Err,
    ensures
        machine.step(event, now).0 == machine,
{
}

/// A request that makes a call carries the session token: without a token
/// the machine forms a login and nothing else.
pub proof fn call_carries_token(machine: TorrentAdaptorView)
    ensures
        machine.session_id is None ==> machine.request() == Ok::<HttpRequestView, ProtocolError>(
            probe(),
        ),
        machine.request() is Ok && machine.request()->Ok_0.method == HttpMethod::Post
            ==> machine.session_id is Some && machine.request()->Ok_0.headers[3] == (
            "x-transmission-session-id"@,
            machine.session_id->0,
        ),
{
}

/// The policy and the status count read no field of a torrent that the cycle
/// has not asked for.
pub proof fn policy_reads_listed_fields()
    ensures
        forall|i: int|
            0 <= i < fields_read().len() ==> listed_fields().contains(#[trigger] fields_read()[i]),
{
    assert(listed_fields()[0] == TorrentField::Id);
    assert(listed_fields()[2] == TorrentField::Status);
    assert(listed_fields()[3] == TorrentField::TrackerList);
    assert(listed_fields()[4] == TorrentField::AddedDate);
    assert(listed_fields()[5] == TorrentField::UploadLimited);
}

} // verus!
