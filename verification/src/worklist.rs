//! Answering the host's worklist queries.
//!
//! A query is answered in steps. The responder says what is due next (a
//! request to the worklist source, a read or a write of the cache, a call of
//! the host on the current candidate) and is told what came of it. For each
//! source it fetches the candidates, from the source or, failing that, from
//! the cache; the candidates are then processed one by one.

use vstd::prelude::*;
use crate::host::{
    error, info, lemma_log_add, lemma_log_empty, lemma_log_push, line, log_view, warning, LogEntry,
    LogEntryView, LogLevel, STATUS_FAILURE, STATUS_SUCCESS,
};
use crate::http::{
    accepted_body, describe, description, is_success, ClientError, HttpBody, HttpBodyView,
    HttpMethod, HttpReply, HttpReplyView, HttpRequest, HttpRequestView,
};
use crate::items::{
    answers, item_next, items_started, lemma_item_move, HostCall, HostCallView, ItemAction,
    ItemActionView, ItemEvent, ItemLoop, ItemLoopView, ItemStep, ItemStepView,
};
use crate::json::{
    json_tree, json_trees, parse_value, parsed_json, print_value, printed_json, value_as_array,
    JsonTree,
};
use crate::text::glue;

verus! {

/// The worklist source that is asked where none is configured.
pub open spec fn default_endpoint() -> Seq<char> {
    "http://localhost:9042/modalities/orthanc/find-worklist"@
}

/// The query that is sent to a worklist source: every accession number, in
/// short form.
pub open spec fn query_body() -> Seq<char> {
    "{\"Short\": true, \"Query\": {\"AccessionNumber\": \"*\", \"RequestedProcedureID\": null, \"ScheduledProcedureStepSequence\": [], \"PatientName\": null, \"StudyID\": null, \"StudyInstanceUID\": null}}"@
}

/// What the environment may set for the worklist source: its endpoint and the
/// credentials to present there.
#[derive(Clone, Debug, PartialEq, Eq)]
pub struct WorklistSettings {
    pub endpoint: Option<String>,
    pub user: Option<String>,
    pub password: Option<String>,
}

/// The view of a text that may be absent.
pub open spec fn text_view(text: Option<String>) -> Option<Seq<char>> {
    match text {
        Some(t) => Some(t@),
        None => None,
    }
}

/// The endpoints to ask: the configured one, or the default.
pub open spec fn endpoints_of(configured: Option<Seq<char>>) -> Seq<Seq<char>> {
    match configured {
        Some(endpoint) => seq![endpoint],
        None => seq![default_endpoint()],
    }
}

/// What resolving the endpoints logs: a warning where the default is taken.
pub open spec fn endpoints_log(configured: Option<Seq<char>>) -> Seq<LogEntryView> {
    match configured {
        Some(_) => Seq::empty(),
        None => seq![line(LogLevel::Warning, "VARA_ORTHANC_MODALITY_ENDPOINT not defined"@)],
    }
}

/// The user to present: the configured one, or `admin`.
pub open spec fn user_of(configured: Option<Seq<char>>) -> Seq<char> {
    match configured {
        Some(user) => user,
        None => "admin"@,
    }
}

/// The password to present: the configured one, or `password`.
pub open spec fn password_of(configured: Option<Seq<char>>) -> Seq<char> {
    match configured {
        Some(password) => password,
        None => "password"@,
    }
}

/// The endpoints of the worklist sources, with the lines to log.
#[derive(Clone, Debug, PartialEq, Eq)]
pub struct ModalityEndpoints {
    pub endpoints: Vec<String>,
    pub log: Vec<LogEntry>,
}

/// Resolves the worklist sources to ask.
pub fn orthanc_modality_endpoints(configured: &Option<String>) -> (resolved: ModalityEndpoints)
    ensures
        resolved.endpoints.deep_view() == endpoints_of(text_view(*configured)),
        log_view(resolved.log@) == endpoints_log(text_view(*configured)),
{
    let mut endpoints: Vec<String> = Vec::new();
    let mut log: Vec<LogEntry> = Vec::new();
    match configured {
        Some(endpoint) => {
            endpoints.push(endpoint.clone());
        },
        None => {
            log.push(warning("VARA_ORTHANC_MODALITY_ENDPOINT not defined"));
            endpoints.push(String::from_str("http://localhost:9042/modalities/orthanc/find-worklist"));
        },
    }
    assert(endpoints.deep_view() =~= endpoints_of(text_view(*configured)));
    assert(log_view(log@) =~= endpoints_log(text_view(*configured)));
    ModalityEndpoints { endpoints, log }
}

/// The request that asks the worklist source at `endpoint` for its items.
pub open spec fn worklist_request(endpoint: Seq<char>, username: Seq<char>, password: Seq<char>) -> HttpRequestView {
    HttpRequestView {
        method: HttpMethod::Post,
        url: endpoint,
        username,
        password,
        body: HttpBodyView::Text(query_body()),
    }
}

/// The request that asks the worklist source at `endpoint` for its items.
pub fn orthanc_modality_worklist(endpoint: &str, username: &str, password: &str) -> (request: HttpRequest)
    ensures
        request@ == worklist_request(endpoint@, username@, password@),
{
    HttpRequest {
        method: HttpMethod::Post,
        url: String::from_str(endpoint),
        username: String::from_str(username),
        password: String::from_str(password),
        body: HttpBody::Text(
            String::from_str(
                "{\"Short\": true, \"Query\": {\"AccessionNumber\": \"*\", \"RequestedProcedureID\": null, \"ScheduledProcedureStepSequence\": [], \"PatientName\": null, \"StudyID\": null, \"StudyInstanceUID\": null}}",
            ),
        ),
    }
}

/// The texts of the items that a worklist response holds: the response is a
/// JSON array, and each of its elements is printed on its own.
pub open spec fn items_in(body: Seq<char>) -> Option<Seq<Seq<char>>> {
    match parsed_json(body) {
        Some(JsonTree::Array(trees)) => Some(Seq::new(trees.len(), |i: int| printed_json(trees[i]))),
        _ => None,
    }
}

/// Splits a worklist response into the texts of its items, in order.
pub fn worklist_items(body: &str) -> (items: Option<Vec<String>>)
    ensures
        match items {
            Some(found) => items_in(body@) == Some(found.deep_view()),
            None => items_in(body@) is None,
        },
{
    let document = match parse_value(body) {
        Ok(document) => document,
        Err(_) => {
            return None;
        },
    };
    let elements = match value_as_array(&document) {
        Some(elements) => elements,
        None => {
            return None;
        },
    };
    let ghost trees = json_trees(elements@);
    let mut items: Vec<String> = Vec::new();
    let mut i: usize = 0;
    while i < elements.len()
        invariant
            i <= elements.len(),
            trees == json_trees(elements@),
            items.len() == i,
            forall|k: int| 0 <= k < i ==> #[trigger] items[k]@ == printed_json(trees[k]),
        decreases elements.len() - i,
    {
        assert(trees[i as int] == json_tree(elements[i as int]));
        items.push(print_value(&elements[i]));
        i += 1;
    }
    assert(items.deep_view() =~= Seq::new(trees.len(), |i: int| printed_json(trees[i])));
    Some(items)
}

/// What the responder is told.
#[derive(Clone, Debug, PartialEq, Eq)]
pub enum WorklistEvent {
    /// What came of the request to the worklist source.
    Replied(HttpReply),
    /// The content of the cache, or `None` where it cannot be read.
    CacheRead(Option<String>),
    /// Whether the cache was written.
    CacheWritten(bool),
    /// What came of the call of the host.
    Host(ItemEvent),
}

/// What the contracts see of a [`WorklistEvent`]: its texts as sequences of characters.
pub enum WorklistEventView {
    Replied(HttpReplyView),
    CacheRead(Option<Seq<char>>),
    CacheWritten(bool),
    Host(ItemEvent),
}

impl View for WorklistEvent {
    type V = WorklistEventView;

    open spec fn view(&self) -> WorklistEventView {
        match self {
            WorklistEvent::Replied(reply) => WorklistEventView::Replied(reply@),
            WorklistEvent::CacheRead(content) => WorklistEventView::CacheRead(text_view(*content)),
            WorklistEvent::CacheWritten(done) => WorklistEventView::CacheWritten(*done),
            WorklistEvent::Host(event) => WorklistEventView::Host(*event),
        }
    }
}

/// What the responder asks for.
#[derive(Clone, Debug, PartialEq, Eq)]
pub enum WorklistAction {
    /// Send the request to the worklist source.
    Send(HttpRequest),
    /// Read the cache.
    ReadCache,
    /// Overwrite the cache with this text.
    WriteCache(String),
    /// Call the host on the current candidate.
    Call(HostCall),
    /// Hand this status back to the host: the query is answered.
    Finish(i32),
}

/// What the contracts see of a [`WorklistAction`]: its texts as sequences of characters.
pub enum WorklistActionView {
    Send(HttpRequestView),
    ReadCache,
    WriteCache(Seq<char>),
    Call(HostCallView),
    Finish(i32),
}

impl View for WorklistAction {
    type V = WorklistActionView;

    open spec fn view(&self) -> WorklistActionView {
        match self {
            WorklistAction::Send(request) => WorklistActionView::Send(request@),
            WorklistAction::ReadCache => WorklistActionView::ReadCache,
            WorklistAction::WriteCache(text) => WorklistActionView::WriteCache(text@),
            WorklistAction::Call(call) => WorklistActionView::Call(call@),
            WorklistAction::Finish(status) => WorklistActionView::Finish(*status),
        }
    }
}

/// One move of the responder: the lines to log, then what is due.
#[derive(Clone, Debug, PartialEq, Eq)]
pub struct WorklistStep {
    pub log: Vec<LogEntry>,
    pub action: WorklistAction,
}

/// What the contracts see of a [`WorklistStep`]: its texts as sequences of characters.
pub struct WorklistStepView {
    pub log: Seq<LogEntryView>,
    pub action: WorklistActionView,
}

impl View for WorklistStep {
    type V = WorklistStepView;

    open spec fn view(&self) -> WorklistStepView {
        WorklistStepView { log: log_view(self.log@), action: self.action@ }
    }
}

/// Where the answering of a query stands: what the responder waits for.
pub enum StageView {
    /// The reply of the worklist source.
    Fetching,
    /// The content of the cache.
    ReadingCache,
    /// The cache to be written with this response.
    WritingCache(Seq<char>),
    /// The host, on a candidate of the current source.
    Processing(ItemLoopView),
    /// Nothing: the query is answered.
    Finished,
}

/// The state of the responder, as the contracts see it.
pub struct ResponderView {
    pub stage: StageView,
    /// The worklist sources to ask, in order.
    pub endpoints: Seq<Seq<char>>,
    /// The index of the source that is being asked.
    pub endpoint: int,
    pub username: Seq<char>,
    pub password: Seq<char>,
}

impl ResponderView {
    /// Whether a buffer of the host is held.
    pub open spec fn holds_buffer(self) -> bool {
        self.stage matches StageView::Processing(candidates) && candidates.holds_buffer()
    }

    /// The index points at the source that the stage speaks of, and the
    /// candidates in process are not yet done with.
    pub open spec fn wf(self) -> bool {
        &&& 0 <= self.endpoint <= self.endpoints.len()
        &&& !(self.stage is Finished) ==> self.endpoint < self.endpoints.len()
        &&& self.stage matches StageView::Processing(candidates) ==> candidates.wf() && !(candidates.phase
            is Done)
    }
}

/// The line that says why the cache is read in place of the response.
pub open spec fn fallback_line(error: ClientError) -> LogEntryView {
    line(LogLevel::Info, "Reading the cache file for MWL entries. Failure: "@ + description(error))
}

/// The query fails: an error is logged and the failure status handed back.
pub open spec fn failed(s: ResponderView, log: Seq<LogEntryView>) -> (ResponderView, WorklistStepView) {
    (
        ResponderView { stage: StageView::Finished, ..s },
        WorklistStepView {
            log: log.push(line(LogLevel::Error, "Failed to fetch modality worklist from peer Orthanc"@)),
            action: WorklistActionView::Finish(STATUS_FAILURE),
        },
    )
}

/// Turns to the source at `s.endpoint`: it is asked, or, past the last source,
/// the query is answered.
pub open spec fn begin_endpoint(s: ResponderView, log: Seq<LogEntryView>) -> (ResponderView, WorklistStepView) {
    if 0 <= s.endpoint < s.endpoints.len() {
        (
            ResponderView { stage: StageView::Fetching, ..s },
            WorklistStepView {
                log,
                action: WorklistActionView::Send(
                    worklist_request(s.endpoints[s.endpoint], s.username, s.password),
                ),
            },
        )
    } else {
        (
            ResponderView { stage: StageView::Finished, ..s },
            WorklistStepView { log, action: WorklistActionView::Finish(STATUS_SUCCESS) },
        )
    }
}

/// Takes a move of the candidates' loop for the responder's own: a call of
/// the host is passed on; when the loop is done, the next source is turned to.
pub open spec fn carried(
    s: ResponderView,
    candidates: ItemLoopView,
    step: ItemStepView,
    log: Seq<LogEntryView>,
) -> (ResponderView, WorklistStepView) {
    match step.action {
        ItemActionView::Call(call) => (
            ResponderView { stage: StageView::Processing(candidates), ..s },
            WorklistStepView { log: log + step.log, action: WorklistActionView::Call(call) },
        ),
        ItemActionView::Done => begin_endpoint(ResponderView { endpoint: s.endpoint + 1, ..s }, log + step.log),
    }
}

/// Takes `body` for the response of the current source: its items are
/// processed from the first, or the query fails where it holds no array.
pub open spec fn loaded(s: ResponderView, body: Seq<char>, log: Seq<LogEntryView>) -> (
    ResponderView,
    WorklistStepView,
) {
    match items_in(body) {
        Some(items) => carried(s, items_started(items).0, items_started(items).1, log),
        None => failed(s, log),
    }
}

/// The move that an event brings about: the next state and what is due. An
/// event that the stage does not wait for brings about nothing.
///
/// A source that does not answer with success is replaced by the cache; a
/// response that does is written to the cache before it is read. Without
/// either, or with a response that is no JSON array, the query fails.
pub open spec fn next(s: ResponderView, event: WorklistEventView) -> Option<(ResponderView, WorklistStepView)> {
    match (s.stage, event) {
        (StageView::Fetching, WorklistEventView::Replied(reply)) => match accepted_body(reply) {
            Ok(body) => Some(
                (
                    ResponderView { stage: StageView::WritingCache(body), ..s },
                    WorklistStepView { log: Seq::empty(), action: WorklistActionView::WriteCache(body) },
                ),
            ),
            Err(error) => Some(
                (
                    ResponderView { stage: StageView::ReadingCache, ..s },
                    WorklistStepView { log: seq![fallback_line(error)], action: WorklistActionView::ReadCache },
                ),
            ),
        },
        (StageView::WritingCache(fetched), WorklistEventView::CacheWritten(done)) => if done {
            Some(loaded(s, fetched, Seq::empty()))
        } else {
            Some(failed(s, Seq::empty()))
        },
        (StageView::ReadingCache, WorklistEventView::CacheRead(content)) => match content {
            Some(body) => Some(loaded(s, body, Seq::empty())),
            None => Some(failed(s, seq![line(LogLevel::Warning, "Failed to read cache file"@)])),
        },
        (StageView::Processing(candidates), WorklistEventView::Host(told)) => match item_next(candidates, told) {
            Some((after, step)) => Some(carried(s, after, step, Seq::empty())),
            None => None,
        },
        _ => None,
    }
}

/// The responder at the start of a query, with its first move.
pub open spec fn started(settings: WorklistSettings) -> (ResponderView, WorklistStepView) {
    begin_endpoint(
        ResponderView {
            stage: StageView::Finished,
            endpoints: endpoints_of(text_view(settings.endpoint)),
            endpoint: 0,
            username: user_of(text_view(settings.user)),
            password: password_of(text_view(settings.password)),
        },
        endpoints_log(text_view(settings.endpoint)),
    )
}

/// Where the responder stands after a series of events, and what it has asked
/// for on the way, in order.
pub open spec fn run(s: ResponderView, events: Seq<WorklistEventView>) -> (ResponderView, Seq<WorklistActionView>)
    decreases events.len(),
{
    if events.len() == 0 {
        (s, Seq::empty())
    } else {
        let (before, actions) = run(s, events.drop_last());
        match next(before, events.last()) {
            Some((after, step)) => (after, actions.push(step.action)),
            None => (before, actions),
        }
    }
}

/// How many buffers the actions have the host create.
pub open spec fn created(actions: Seq<WorklistActionView>) -> nat
    decreases actions.len(),
{
    if actions.len() == 0 {
        0
    } else {
        created(actions.drop_last()) + if actions.last() matches WorklistActionView::Call(
            HostCallView::CreateNativeObject(_),
        ) {
            1nat
        } else {
            0nat
        }
    }
}

/// How many times the actions have the host release a buffer.
pub open spec fn released(actions: Seq<WorklistActionView>) -> nat
    decreases actions.len(),
{
    if actions.len() == 0 {
        0
    } else {
        released(actions.drop_last()) + if actions.last() == WorklistActionView::Call(HostCallView::FreeBuffer) {
            1nat
        } else {
            0nat
        }
    }
}

/// One for a held buffer, zero for none.
pub open spec fn held(s: ResponderView) -> nat {
    if s.holds_buffer() {
        1
    } else {
        0
    }
}

/// Whether `event` tells what came of `action`.
pub open spec fn tells(action: WorklistActionView, event: WorklistEventView) -> bool {
    match action {
        WorklistActionView::Send(_) => event is Replied,
        WorklistActionView::ReadCache => event is CacheRead,
        WorklistActionView::WriteCache(_) => event is CacheWritten,
        WorklistActionView::Call(call) => event matches WorklistEventView::Host(told) && answers(call, told),
        WorklistActionView::Finish(_) => false,
    }
}

/// A move keeps the state well formed and takes the answer to what it asks
/// for. It has a buffer created only when none is held and released only when
/// one is held, and never finishes the query with a buffer in hand.
pub proof fn lemma_move(s: ResponderView, event: WorklistEventView, answer: WorklistEventView)
    requires
        s.wf(),
        next(s, event) is Some,
    ensures
        ({
            let (after, step) = next(s, event)->Some_0;
            &&& after.wf()
            &&& tells(step.action, answer) ==> next(after, answer) is Some
            &&& step.action matches WorklistActionView::Call(HostCallView::CreateNativeObject(_))
                ==> !s.holds_buffer() && after.holds_buffer()
            &&& step.action == WorklistActionView::Call(HostCallView::FreeBuffer) ==> s.holds_buffer()
                && !after.holds_buffer()
            &&& step.action == WorklistActionView::Call(HostCallView::MatchQuery) || step.action
                == WorklistActionView::Call(HostCallView::AddAnswer) ==> s.holds_buffer()
                && after.holds_buffer()
            &&& !(step.action is Call) ==> !s.holds_buffer() && !after.holds_buffer()
            &&& step.action is Finish <==> after.stage is Finished
        }),
{
    match (s.stage, event) {
        (StageView::Processing(candidates), WorklistEventView::Host(told)) => {
            match answer {
                WorklistEventView::Host(reply) => lemma_item_move(candidates, told, reply),
                _ => lemma_item_move(candidates, told, told),
            }
        },
        _ => {},
    }
}

/// The responder starts well formed, with no buffer in hand, and takes the
/// answer to its first action.
pub proof fn lemma_start(settings: WorklistSettings, answer: WorklistEventView)
    ensures
        started(settings).0.wf(),
        !started(settings).0.holds_buffer(),
        tells(started(settings).1.action, answer) ==> next(started(settings).0, answer) is Some,
{
}

/// A fetch that fails is the end of the query: where the source does not
/// answer with success and the cache cannot be read, the responder reads the
/// cache, hands back the status of failure, and calls the host for nothing.
pub proof fn lemma_failed_fetch_ends_the_query(s: ResponderView, reply: HttpReplyView)
    requires
        s.stage is Fetching,
        accepted_body(reply) is Err,
    ensures
        run(s, seq![WorklistEventView::Replied(reply), WorklistEventView::CacheRead(None)]).1 == seq![
            WorklistActionView::ReadCache,
            WorklistActionView::Finish(STATUS_FAILURE),
        ],
        run(s, seq![WorklistEventView::Replied(reply), WorklistEventView::CacheRead(None)]).0.stage
            is Finished,
{
    let events = seq![WorklistEventView::Replied(reply), WorklistEventView::CacheRead(None)];
    let one = seq![WorklistEventView::Replied(reply)];
    assert(events.drop_last() =~= one);
    assert(one.drop_last() =~= Seq::<WorklistEventView>::empty());
    assert(run(s, one.drop_last()) == (s, Seq::<WorklistActionView>::empty()));
    assert(one.last() == WorklistEventView::Replied(reply));
    let first = run(s, one);
    assert(first.1 =~= seq![WorklistActionView::ReadCache]);
    assert(first.0.stage is ReadingCache);
    assert(events.last() == WorklistEventView::CacheRead(None));
    assert(run(s, events).1 =~= seq![
        WorklistActionView::ReadCache,
        WorklistActionView::Finish(STATUS_FAILURE),
    ]);
}

/// Over a whole query every buffer is released exactly once, whatever the
/// sources, the cache and the host answer.
///
/// After any series of events, starting with no buffer in hand, the releases
/// asked for are as many as the buffers created, less the one that is held at
/// that moment; and once the query is answered, with success or not, none is
/// held.
pub proof fn lemma_buffers_released_once(s: ResponderView, events: Seq<WorklistEventView>)
    requires
        s.wf(),
        !s.holds_buffer(),
    ensures
        run(s, events).0.wf(),
        created(run(s, events).1) == released(run(s, events).1) + held(run(s, events).0),
        run(s, events).0.stage is Finished ==> created(run(s, events).1) == released(run(s, events).1),
    decreases events.len(),
{
    if events.len() > 0 {
        lemma_buffers_released_once(s, events.drop_last());
        let (before, actions) = run(s, events.drop_last());
        if next(before, events.last()) is Some {
            lemma_move(before, events.last(), events.last());
            let (after, step) = next(before, events.last())->Some_0;
            assert(actions.push(step.action).drop_last() =~= actions);
        }
    }
}

/// From the start of any query on, whatever the settings and whatever is
/// answered, every buffer is released exactly once.
pub proof fn lemma_query_releases_every_buffer(settings: WorklistSettings, events: Seq<WorklistEventView>)
    ensures
        created(run(started(settings).0, events).1) == released(run(started(settings).0, events).1) + held(
            run(started(settings).0, events).0,
        ),
        run(started(settings).0, events).0.stage is Finished ==> created(
            run(started(settings).0, events).1,
        ) == released(run(started(settings).0, events).1),
{
    lemma_start(settings, WorklistEventView::CacheWritten(true));
    lemma_buffers_released_once(started(settings).0, events);
}

enum Stage {
    Fetching,
    ReadingCache,
    WritingCache(String),
    Processing(ItemLoop),
    Finished,
}

/// The responder of one query.
pub struct Responder {
    stage: Stage,
    endpoints: Vec<String>,
    endpoint: usize,
    username: String,
    password: String,
}

impl View for Responder {
    type V = ResponderView;

    closed spec fn view(&self) -> ResponderView {
        ResponderView {
            stage: match self.stage {
                Stage::Fetching => StageView::Fetching,
                Stage::ReadingCache => StageView::ReadingCache,
                Stage::WritingCache(fetched) => StageView::WritingCache(fetched@),
                Stage::Processing(candidates) => StageView::Processing(candidates@),
                Stage::Finished => StageView::Finished,
            },
            endpoints: self.endpoints.deep_view(),
            endpoint: self.endpoint as int,
            username: self.username@,
            password: self.password@,
        }
    }
}

fn fallback(error: ClientError) -> (entry: LogEntry)
    ensures
        entry@ == fallback_line(error),
{
    let reason = describe(error);
    let message = glue("Reading the cache file for MWL entries. Failure: ", reason.as_str());
    info(message.as_str())
}

fn append_log(log: &mut Vec<LogEntry>, more: Vec<LogEntry>)
    ensures
        log_view(final(log)@) == log_view(old(log)@) + log_view(more@),
{
    let mut more = more;
    let ghost added = more@;
    log.append(&mut more);
    proof {
        lemma_log_add(old(log)@, added);
    }
}

impl Responder {
    #[verifier::type_invariant]
    closed spec fn well_formed(&self) -> bool {
        self@.wf()
    }

    /// Whether the query is answered.
    pub fn is_finished(&self) -> (finished: bool)
        ensures
            finished == (self@.stage is Finished),
    {
        match self.stage {
            Stage::Finished => true,
            _ => false,
        }
    }

    /// Whether a buffer of the host is held.
    pub fn holds_buffer(&self) -> (held: bool)
        ensures
            held == self@.holds_buffer(),
    {
        match &self.stage {
            Stage::Processing(candidates) => candidates.holds_buffer(),
            _ => false,
        }
    }

    fn to_endpoint(
        endpoints: Vec<String>,
        endpoint: usize,
        username: String,
        password: String,
        log: Vec<LogEntry>,
    ) -> (out: (Responder, WorklistStep))
        requires
            endpoint <= endpoints.len(),
        ensures
            (out.0@, out.1@) == begin_endpoint(
                ResponderView {
                    stage: StageView::Finished,
                    endpoints: endpoints.deep_view(),
                    endpoint: endpoint as int,
                    username: username@,
                    password: password@,
                },
                log_view(log@),
            ),
    {
        if endpoint < endpoints.len() {
            let request = orthanc_modality_worklist(
                endpoints[endpoint].as_str(),
                username.as_str(),
                password.as_str(),
            );
            assert(endpoints.deep_view()[endpoint as int] == endpoints[endpoint as int]@);
            (
                Responder { stage: Stage::Fetching, endpoints, endpoint, username, password },
                WorklistStep { log, action: WorklistAction::Send(request) },
            )
        } else {
            (
                Responder { stage: Stage::Finished, endpoints, endpoint, username, password },
                WorklistStep { log, action: WorklistAction::Finish(STATUS_SUCCESS) },
            )
        }
    }

    fn carry(
        endpoints: Vec<String>,
        endpoint: usize,
        username: String,
        password: String,
        candidates: ItemLoop,
        step: ItemStep,
        log: Vec<LogEntry>,
    ) -> (out: (Responder, WorklistStep))
        requires
            endpoint < endpoints.len(),
            candidates@.wf(),
            step@.action is Done <==> candidates@.phase is Done,
        ensures
            (out.0@, out.1@) == carried(
                ResponderView {
                    stage: StageView::Finished,
                    endpoints: endpoints.deep_view(),
                    endpoint: endpoint as int,
                    username: username@,
                    password: password@,
                },
                candidates@,
                step@,
                log_view(log@),
            ),
    {
        let mut log = log;
        append_log(&mut log, step.log);
        match step.action {
            ItemAction::Call(call) => (
                Responder { stage: Stage::Processing(candidates), endpoints, endpoint, username, password },
                WorklistStep { log, action: WorklistAction::Call(call) },
            ),
            ItemAction::Done => Responder::to_endpoint(endpoints, endpoint + 1, username, password, log),
        }
    }

    fn fail(self, log: Vec<LogEntry>) -> (out: (Responder, WorklistStep))
        ensures
            (out.0@, out.1@) == failed(self@, log_view(log@)),
    {
        proof {
            use_type_invariant(&self);
        }
        let mut log = log;
        let entry = error("Failed to fetch modality worklist from peer Orthanc");
        proof {
            lemma_log_push(log@, entry);
        }
        log.push(entry);
        (
            Responder {
                stage: Stage::Finished,
                endpoints: self.endpoints,
                endpoint: self.endpoint,
                username: self.username,
                password: self.password,
            },
            WorklistStep { log, action: WorklistAction::Finish(STATUS_FAILURE) },
        )
    }

    fn load(self, body: &str, log: Vec<LogEntry>) -> (out: (Responder, WorklistStep))
        requires
            !(self@.stage is Finished),
        ensures
            (out.0@, out.1@) == loaded(self@, body@, log_view(log@)),
    {
        proof {
            use_type_invariant(&self);
        }
        match worklist_items(body) {
            Some(items) => {
                let (candidates, step) = ItemLoop::start(items);
                Responder::carry(
                    self.endpoints,
                    self.endpoint,
                    self.username,
                    self.password,
                    candidates,
                    step,
                    log,
                )
            },
            None => self.fail(log),
        }
    }

    /// Starts answering a query: resolves the sources and the credentials,
    /// and turns to the first source.
    pub fn start(settings: WorklistSettings) -> (out: (Responder, WorklistStep))
        ensures
            (out.0@, out.1@) == started(settings),
    {
        let resolved = orthanc_modality_endpoints(&settings.endpoint);
        let username = match settings.user {
            Some(user) => user,
            None => String::from_str("admin"),
        };
        let password = match settings.password {
            Some(password) => password,
            None => String::from_str("password"),
        };
        Responder::to_endpoint(resolved.endpoints, 0, username, password, resolved.log)
    }

    /// Makes the move that `event` brings about.
    ///
    /// An event that the responder does not wait for leaves it as it is and
    /// gives no step.
    pub fn step(self, event: WorklistEvent) -> (out: (Responder, Option<WorklistStep>))
        ensures
            match next(self@, event@) {
                Some((after, step)) => {
                    &&& out.0@ == after
                    &&& out.1 matches Some(made) && made@ == step
                },
                None => out.0@ == self@ && out.1 is None,
            },
    {
        proof {
            use_type_invariant(&self);
            lemma_log_empty();
        }
        let mut log: Vec<LogEntry> = Vec::new();
        let Responder { stage, endpoints, endpoint, username, password } = self;
        match (stage, event) {
            (Stage::Fetching, WorklistEvent::Replied(reply)) => {
                let (stage, action) = match reply {
                    HttpReply::Answered { status, body } => {
                        if is_success(status) {
                            let copy = body.clone();
                            (Stage::WritingCache(body), WorklistAction::WriteCache(copy))
                        } else {
                            let entry = fallback(ClientError::Status(status));
                            proof {
                                lemma_log_push(log@, entry);
                            }
                            log.push(entry);
                            (Stage::ReadingCache, WorklistAction::ReadCache)
                        }
                    },
                    HttpReply::Failed { .. } => {
                        let entry = fallback(ClientError::Transport);
                        proof {
                            lemma_log_push(log@, entry);
                        }
                        log.push(entry);
                        (Stage::ReadingCache, WorklistAction::ReadCache)
                    },
                };
                (Responder { stage, endpoints, endpoint, username, password }, Some(WorklistStep { log, action }))
            },
            (Stage::WritingCache(fetched), WorklistEvent::CacheWritten(done)) => {
                let body = fetched.clone();
                let state = Responder { stage: Stage::WritingCache(fetched), endpoints, endpoint, username, password };
                let out = if done {
                    state.load(body.as_str(), log)
                } else {
                    state.fail(log)
                };
                (out.0, Some(out.1))
            },
            (Stage::ReadingCache, WorklistEvent::CacheRead(content)) => {
                let state = Responder { stage: Stage::ReadingCache, endpoints, endpoint, username, password };
                let out = match content {
                    Some(body) => state.load(body.as_str(), log),
                    None => {
                        let entry = warning("Failed to read cache file");
                        proof {
                            lemma_log_push(log@, entry);
                        }
                        log.push(entry);
                        state.fail(log)
                    },
                };
                (out.0, Some(out.1))
            },
            (Stage::Processing(candidates), WorklistEvent::Host(told)) => {
                proof {
                    if item_next(candidates@, told) is Some {
                        lemma_item_move(candidates@, told, told);
                    }
                }
                let (after, made) = candidates.step(told);
                match made {
                    Some(step) => {
                        let out = Responder::carry(endpoints, endpoint, username, password, after, step, log);
                        (out.0, Some(out.1))
                    },
                    None => (
                        Responder { stage: Stage::Processing(after), endpoints, endpoint, username, password },
                        None,
                    ),
                }
            },
            (stage, _) => (Responder { stage, endpoints, endpoint, username, password }, None),
        }
    }
}

} // verus!
