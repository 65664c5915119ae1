//! The REST client of an archive server, without the wire.
//!
//! A client says which request is due and reads what came back. Sending the
//! request and receiving the reply is left to the caller, who owns the
//! connection.

use vstd::prelude::*;
use crate::config::{Endpoint, EndpointView};
use crate::json::{json_tree, json_trees, parse_value, parsed_json, read_text, value_as_array, JsonTree};
use crate::state::{get_http_client, PluginState};
use crate::text::{decimal, glue, render_u64};

verus! {

#[derive(Clone, Copy, Debug, PartialEq, Eq, Structural)]
pub enum HttpMethod {
    Get,
    Post,
}

/// The body of a request to a peer-store endpoint: the resources to send, and
/// whether the server may answer before they have arrived.
#[derive(Clone, Debug, PartialEq, Eq)]
pub struct PeerStoreRequest {
    pub asynchronous: bool,
    pub resources: Vec<String>,
}

#[derive(Clone, Debug, PartialEq, Eq)]
pub enum HttpBody {
    Empty,
    Text(String),
    PeerStore(PeerStoreRequest),
}

/// What the contracts see of an [`HttpBody`]: its texts as sequences of characters.
pub enum HttpBodyView {
    Empty,
    Text(Seq<char>),
    PeerStore { asynchronous: bool, resources: Seq<Seq<char>> },
}

impl View for HttpBody {
    type V = HttpBodyView;

    open spec fn view(&self) -> HttpBodyView {
        match self {
            HttpBody::Empty => HttpBodyView::Empty,
            HttpBody::Text(text) => HttpBodyView::Text(text@),
            HttpBody::PeerStore(store) => HttpBodyView::PeerStore {
                asynchronous: store.asynchronous,
                resources: store.resources.deep_view(),
            },
        }
    }
}

/// A request under basic authentication.
#[derive(Clone, Debug, PartialEq, Eq)]
pub struct HttpRequest {
    pub method: HttpMethod,
    pub url: String,
    pub username: String,
    pub password: String,
    pub body: HttpBody,
}

/// What the contracts see of an [`HttpRequest`]: its texts as sequences of characters.
pub struct HttpRequestView {
    pub method: HttpMethod,
    pub url: Seq<char>,
    pub username: Seq<char>,
    pub password: Seq<char>,
    pub body: HttpBodyView,
}

impl View for HttpRequest {
    type V = HttpRequestView;

    open spec fn view(&self) -> HttpRequestView {
        HttpRequestView {
            method: self.method,
            url: self.url@,
            username: self.username@,
            password: self.password@,
            body: self.body@,
        }
    }
}

/// What came of a request: no response at all, or a response with its status
/// and body.
#[derive(Clone, Debug, PartialEq, Eq)]
pub enum HttpReply {
    Failed { reason: String },
    Answered { status: u16, body: String },
}

/// What the contracts see of an [`HttpReply`]: its texts as sequences of characters.
pub enum HttpReplyView {
    Failed { reason: Seq<char> },
    Answered { status: u16, body: Seq<char> },
}

impl View for HttpReply {
    type V = HttpReplyView;

    open spec fn view(&self) -> HttpReplyView {
        match self {
            HttpReply::Failed { reason } => HttpReplyView::Failed { reason: reason@ },
            HttpReply::Answered { status, body } => HttpReplyView::Answered {
                status: *status,
                body: body@,
            },
        }
    }
}

/// Why a call to an archive server came to nothing.
#[derive(Clone, Copy, Debug, PartialEq, Eq, Structural)]
pub enum ClientError {
    /// No response came back.
    Transport,
    /// The response's status is outside 200..=299.
    Status(u16),
    /// The response's body is not a JSON array of strings.
    MalformedBody,
}

/// The error in words.
pub open spec fn description(error: ClientError) -> Seq<char> {
    match error {
        ClientError::Transport => "no response"@,
        ClientError::Status(status) => "status "@ + decimal(status as nat),
        ClientError::MalformedBody => "the body is not a JSON array of strings"@,
    }
}

/// The error in words.
pub fn describe(error: ClientError) -> (text: String)
    ensures
        text@ == description(error),
{
    match error {
        ClientError::Transport => String::from_str("no response"),
        ClientError::Status(status) => {
            let number = render_u64(status as u64);
            glue("status ", number.as_str())
        },
        ClientError::MalformedBody => String::from_str("the body is not a JSON array of strings"),
    }
}

/// Whether a status says that the request succeeded.
pub open spec fn status_is_success(status: u16) -> bool {
    200 <= status < 300
}

/// Whether a status says that the request succeeded.
pub fn is_success(status: u16) -> (success: bool)
    ensures
        success == status_is_success(status),
{
    200 <= status && status < 300
}

/// The body of the reply, where a response came with a status of success.
pub open spec fn accepted_body(reply: HttpReplyView) -> Result<Seq<char>, ClientError> {
    match reply {
        HttpReplyView::Failed { .. } => Err(ClientError::Transport),
        HttpReplyView::Answered { status, body } => if status_is_success(status) {
            Ok(body)
        } else {
            Err(ClientError::Status(status))
        },
    }
}

/// The texts of `items`, where each of them is a string.
pub open spec fn texts_in(items: Seq<JsonTree>) -> Option<Seq<Seq<char>>> {
    if forall|i: int| 0 <= i < items.len() ==> items[i] is Text {
        Some(Seq::new(items.len(), |i: int| items[i]->Text_0))
    } else {
        None
    }
}

/// The identifiers that a listing's body holds: a JSON array of strings.
pub open spec fn identifiers_in(body: Seq<char>) -> Option<Seq<Seq<char>>> {
    match parsed_json(body) {
        Some(JsonTree::Array(items)) => texts_in(items),
        _ => None,
    }
}

/// The identifiers that the reply to a listing holds.
pub open spec fn entities_of(reply: HttpReplyView) -> Result<Seq<Seq<char>>, ClientError> {
    match accepted_body(reply) {
        Ok(body) => match identifiers_in(body) {
            Some(ids) => Ok(ids),
            None => Err(ClientError::MalformedBody),
        },
        Err(e) => Err(e),
    }
}

/// What the reply to a transfer says: done, or why not.
pub open spec fn transfer_result_of(reply: HttpReplyView) -> Result<(), ClientError> {
    match accepted_body(reply) {
        Ok(_) => Ok(()),
        Err(e) => Err(e),
    }
}

/// The request that lists what the server at `base` holds under `collection`.
pub open spec fn listing(base: EndpointView, collection: Seq<char>) -> HttpRequestView {
    HttpRequestView {
        method: HttpMethod::Get,
        url: base.url + collection,
        username: base.username,
        password: base.password,
        body: HttpBodyView::Empty,
    }
}

/// The request that has the server at `base` store `resources` on its peer
/// `peer`, and answer once that is done.
pub open spec fn peer_store(base: EndpointView, peer: Seq<char>, resources: Seq<Seq<char>>) -> HttpRequestView {
    HttpRequestView {
        method: HttpMethod::Post,
        url: base.url + "/peers/"@ + peer + "/store"@,
        username: base.username,
        password: base.password,
        body: HttpBodyView::PeerStore { asynchronous: false, resources },
    }
}

fn accepted<'a>(reply: &'a HttpReply) -> (body: Result<&'a String, ClientError>)
    ensures
        match body {
            Ok(text) => accepted_body(reply@) == Ok::<Seq<char>, ClientError>(text@),
            Err(e) => accepted_body(reply@) == Err::<Seq<char>, ClientError>(e),
        },
{
    match reply {
        HttpReply::Failed { .. } => Err(ClientError::Transport),
        HttpReply::Answered { status, body } => {
            if is_success(*status) {
                Ok(body)
            } else {
                Err(ClientError::Status(*status))
            }
        },
    }
}

fn read_identifiers(body: &str) -> (ids: Option<Vec<String>>)
    ensures
        match ids {
            Some(found) => identifiers_in(body@) == Some(found.deep_view()),
            None => identifiers_in(body@) is None,
        },
{
    let document = match parse_value(body) {
        Ok(document) => document,
        Err(_) => {
            return None;
        },
    };
    let items = match value_as_array(&document) {
        Some(items) => items,
        None => {
            return None;
        },
    };
    let ghost trees = json_trees(items@);
    let mut ids: Vec<String> = Vec::new();
    let mut i: usize = 0;
    while i < items.len()
        invariant
            i <= items.len(),
            trees == json_trees(items@),
            parsed_json(body@) == Some(JsonTree::Array(trees)),
            ids.len() == i,
            forall|k: int| 0 <= k < i ==> #[trigger] trees[k] == JsonTree::Text(ids[k]@),
        decreases items.len() - i,
    {
        assert(trees[i as int] == json_tree(items[i as int]));
        match read_text(Some(&items[i])) {
            Some(id) => {
                ids.push(id);
            },
            None => {
                assert(!(trees[i as int] is Text));
                return None;
            },
        }
        i += 1;
    }
    assert(texts_in(trees) is Some);
    assert(ids.deep_view() =~= texts_in(trees)->Some_0);
    Some(ids)
}

/// Reads the reply to a listing: the identifiers that the server holds.
pub fn get_entities(reply: &HttpReply) -> (ids: Result<Vec<String>, ClientError>)
    ensures
        match ids {
            Ok(found) => entities_of(reply@) == Ok::<Seq<Seq<char>>, ClientError>(found.deep_view()),
            Err(e) => entities_of(reply@) == Err::<Seq<Seq<char>>, ClientError>(e),
        },
{
    match accepted(reply) {
        Ok(body) => match read_identifiers(body.as_str()) {
            Some(ids) => Ok(ids),
            None => Err(ClientError::MalformedBody),
        },
        Err(e) => Err(e),
    }
}

/// Reads the reply to a transfer.
pub fn transfer_result(reply: &HttpReply) -> (outcome: Result<(), ClientError>)
    ensures
        outcome == transfer_result_of(reply@),
{
    match accepted(reply) {
        Ok(_) => Ok(()),
        Err(e) => Err(e),
    }
}

/// The request that lists what the server at `base` holds under `collection`.
pub fn listing_request(base: &Endpoint, collection: &str) -> (request: HttpRequest)
    ensures
        request@ == listing(base@, collection@),
{
    HttpRequest {
        method: HttpMethod::Get,
        url: glue(base.url.as_str(), collection),
        username: base.username.clone(),
        password: base.password.clone(),
        body: HttpBody::Empty,
    }
}

/// The request that has the server at `base` store `resources` on `peer`.
pub fn peer_store_request(base: &Endpoint, peer: &str, resources: Vec<String>) -> (request: HttpRequest)
    ensures
        request@ == peer_store(base@, peer@, resources.deep_view()),
{
    let mut url = glue(base.url.as_str(), "/peers/");
    url.append(peer);
    url.append("/store");
    HttpRequest {
        method: HttpMethod::Post,
        url,
        username: base.username.clone(),
        password: base.password.clone(),
        body: HttpBody::PeerStore(PeerStoreRequest { asynchronous: false, resources }),
    }
}

/// A client of one archive server: where it is, who asks, and the handle to
/// the shared HTTP client that carries its requests.
pub struct OrthancClient {
    pub url: String,
    pub username: String,
    pub password: String,
    pub http_client: reqwest::blocking::Client,
}

impl View for OrthancClient {
    type V = EndpointView;

    open spec fn view(&self) -> EndpointView {
        EndpointView { url: self.url@, username: self.username@, password: self.password@ }
    }
}

impl OrthancClient {
    /// A client of the server at `url`, on the shared HTTP client.
    pub fn new(state: &PluginState, url: &str, username: &str, password: &str) -> (client: OrthancClient)
        requires
            state.is_initialized(),
        ensures
            client@ == (EndpointView { url: url@, username: username@, password: password@ }),
            client.http_client == state.http_client(),
    {
        OrthancClient {
            url: String::from_str(url),
            username: String::from_str(username),
            password: String::from_str(password),
            http_client: get_http_client(state),
        }
    }

    fn base(&self) -> (base: Endpoint)
        ensures
            base@ == self@,
    {
        Endpoint {
            url: self.url.clone(),
            username: self.username.clone(),
            password: self.password.clone(),
        }
    }

    /// The request that lists the studies; [`get_entities`] reads its reply.
    pub fn get_study_ids(&self) -> (request: HttpRequest)
        ensures
            request@ == listing(self@, "/studies"@),
    {
        listing_request(&self.base(), "/studies")
    }

    /// The request that lists the instances; [`get_entities`] reads its reply.
    pub fn get_instance_ids(&self) -> (request: HttpRequest)
        ensures
            request@ == listing(self@, "/instances"@),
    {
        listing_request(&self.base(), "/instances")
    }

    /// The request that pushes `entity_ids` to the peer `peer_identifier`;
    /// [`transfer_result`] reads its reply.
    pub fn transfer_entities(&self, peer_identifier: &str, entity_ids: Vec<String>) -> (request: HttpRequest)
        ensures
            request@ == peer_store(self@, peer_identifier@, entity_ids.deep_view()),
    {
        peer_store_request(&self.base(), peer_identifier, entity_ids)
    }

    /// The request that pushes instances: instances and studies travel alike.
    pub fn transfer_instances(&self, peer_identifier: &str, instance_ids: Vec<String>) -> (request: HttpRequest)
        ensures
            request@ == peer_store(self@, peer_identifier@, instance_ids.deep_view()),
    {
        self.transfer_entities(peer_identifier, instance_ids)
    }

    /// The request that pushes studies: instances and studies travel alike.
    pub fn transfer_studies(&self, peer_identifier: &str, study_ids: Vec<String>) -> (request: HttpRequest)
        ensures
            request@ == peer_store(self@, peer_identifier@, study_ids.deep_view()),
    {
        self.transfer_entities(peer_identifier, study_ids)
    }
}

} // verus!
