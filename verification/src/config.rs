//! The plugin's configuration, and what is resolved from it.

use vstd::prelude::*;
use crate::host::{error, line, log_view, LogEntry, LogEntryView, LogLevel};
use crate::json::{
    is_null, member, member_tree, parse_value, parsed_json, read_bool, read_text, read_u64,
    text_in, tree_of, unsigned_in, value_as_array, json_tree, json_trees, JsonTree,
};
use crate::text::{decimal, decode, decoded, glue, render_u64};

verus! {

/// Seconds between two synchronisation rounds where the configuration names none.
pub const DEFAULT_SYNC_INTERVAL_SECONDS: u64 = 600;

/// Coordinates of an archive server's REST interface.
#[derive(Clone, Debug, PartialEq, Eq)]
pub struct Endpoint {
    pub url: String,
    pub username: String,
    pub password: String,
}

/// What the contracts see of an [`Endpoint`]: its texts as sequences of characters.
pub struct EndpointView {
    pub url: Seq<char>,
    pub username: Seq<char>,
    pub password: Seq<char>,
}

impl View for Endpoint {
    type V = EndpointView;

    open spec fn view(&self) -> EndpointView {
        EndpointView { url: self.url@, username: self.username@, password: self.password@ }
    }
}

/// How an endpoint is written in the log: where it is and who asks, not the
/// password.
pub open spec fn endpoint_text(endpoint: EndpointView) -> Seq<char> {
    "Url: "@ + endpoint.url + " Username: "@ + endpoint.username
}

impl Endpoint {
    /// A copy of the endpoint.
    pub fn clone_endpoint(&self) -> (copy: Endpoint)
        ensures
            copy@ == self@,
    {
        Endpoint {
            url: self.url.clone(),
            username: self.username.clone(),
            password: self.password.clone(),
        }
    }

    /// The endpoint as it is written in the log.
    pub fn to_text(&self) -> (text: String)
        ensures
            text@ == endpoint_text(self@),
    {
        let mut text = glue("Url: ", self.url.as_str());
        text.append(" Username: ");
        text.append(self.username.as_str());
        text
    }
}

/// The view of an endpoint that may be absent.
pub open spec fn endpoint_view(endpoint: Option<Endpoint>) -> Option<EndpointView> {
    match endpoint {
        Some(e) => Some(e@),
        None => None,
    }
}

/// One row of the peer table: where the peer named `identifier` is reached.
#[derive(Debug, PartialEq, Eq)]
pub struct PeerEntry {
    pub identifier: String,
    pub url: String,
    pub username: String,
    pub password: String,
}

/// What the contracts see of a [`PeerEntry`]: its texts as sequences of characters.
pub struct PeerEntryView {
    pub identifier: Seq<char>,
    pub url: Seq<char>,
    pub username: Seq<char>,
    pub password: Seq<char>,
}

impl View for PeerEntry {
    type V = PeerEntryView;

    open spec fn view(&self) -> PeerEntryView {
        PeerEntryView {
            identifier: self.identifier@,
            url: self.url@,
            username: self.username@,
            password: self.password@,
        }
    }
}

impl Clone for PeerEntry {
    fn clone(&self) -> (copy: Self)
        ensures
            copy@ == self@,
    {
        PeerEntry {
            identifier: self.identifier.clone(),
            url: self.url.clone(),
            username: self.username.clone(),
            password: self.password.clone(),
        }
    }
}

/// What the plugin reads of the host's configuration.
#[derive(Debug, PartialEq, Eq)]
pub struct Configuration {
    /// `VaraProxy.Enable`; off where it is not given.
    pub enable: bool,
    /// `VaraProxy.Peer`: the identifier of the peer that receives the studies.
    pub peer: Option<String>,
    /// `VaraProxy.PeriodicSyncIntervalSeconds`.
    pub sync_interval: Option<u64>,
    /// `RegisteredUsers.admin`: the password of the local user `admin`.
    pub admin_password: String,
    /// `HttpPort`: where the local REST interface listens.
    pub http_port: u64,
    /// `OrthancPeers`: the rows of the peer table, as far as they are known.
    /// Of two rows with one identifier the first counts. A configuration
    /// read from a document knows the row of its own peer, where that row
    /// is well formed, and no other.
    pub peers: Vec<PeerEntry>,
}

/// What the contracts see of a [`Configuration`]: its texts as sequences of characters.
pub struct ConfigurationView {
    pub enable: bool,
    pub peer: Option<Seq<char>>,
    pub sync_interval: Option<u64>,
    pub admin_password: Seq<char>,
    pub http_port: u64,
    pub peers: Seq<PeerEntryView>,
}

impl View for Configuration {
    type V = ConfigurationView;

    open spec fn view(&self) -> ConfigurationView {
        ConfigurationView {
            enable: self.enable,
            peer: match self.peer {
                Some(p) => Some(p@),
                None => None,
            },
            sync_interval: self.sync_interval,
            admin_password: self.admin_password@,
            http_port: self.http_port,
            peers: self.peers@.map_values(|row: PeerEntry| row@),
        }
    }
}

impl Clone for Configuration {
    fn clone(&self) -> (copy: Self)
        ensures
            copy@ == self@,
    {
        let mut peers: Vec<PeerEntry> = Vec::new();
        let mut i: usize = 0;
        while i < self.peers.len()
            invariant
                i <= self.peers.len(),
                peers.len() == i,
                forall|k: int| 0 <= k < i ==> peers[k]@ == self.peers[k]@,
            decreases self.peers.len() - i,
        {
            peers.push(self.peers[i].clone());
            i += 1;
        }
        let copy = Configuration {
            enable: self.enable,
            peer: match &self.peer {
                Some(p) => Some(p.clone()),
                None => None,
            },
            sync_interval: self.sync_interval,
            admin_password: self.admin_password.clone(),
            http_port: self.http_port,
            peers,
        };
        assert(copy@.peers =~= self@.peers);
        copy
    }
}

/// Why a configuration text is turned down.
#[derive(Clone, Copy, Debug, PartialEq, Eq, Structural)]
pub enum ConfigError {
    /// The bytes are not UTF-8 text.
    NotText,
    /// The text is not a JSON document.
    NotJson,
    /// `VaraProxy.Enable` is there and is no boolean.
    EnableNotBoolean,
    /// `VaraProxy.Peer` is there and is no string.
    PeerNotText,
    /// `RegisteredUsers.admin` is not a string.
    MissingAdminCredential,
    /// `HttpPort` is not a non-negative integer.
    MissingHttpPort,
}

/// A member of the configuration as the document gives it: not there (or
/// `null`), there with a value of the expected type, or there with another.
#[derive(Debug, PartialEq, Eq)]
pub enum Member<T> {
    Absent,
    Given(T),
    Mistyped,
}

/// The members of the configuration as the document gives them, before
/// anything is decided about them.
#[derive(Debug, PartialEq, Eq)]
pub struct Draft {
    /// `VaraProxy.Enable`.
    pub enable: Member<bool>,
    /// `VaraProxy.Peer`.
    pub peer: Member<String>,
    /// `VaraProxy.PeriodicSyncIntervalSeconds`, where it is a non-negative integer.
    pub sync_interval: Option<u64>,
    /// `RegisteredUsers.admin`, where it is a string.
    pub admin_password: Option<String>,
    /// `HttpPort`, where it is a non-negative integer.
    pub http_port: Option<u64>,
    /// The row of `OrthancPeers` under the peer's identifier, where it is
    /// well formed.
    pub peer_row: Option<PeerEntry>,
}

/// What the contracts see of a [`Draft`]: its texts as sequences of characters.
pub struct DraftView {
    pub enable: Member<bool>,
    pub peer: Member<Seq<char>>,
    pub sync_interval: Option<u64>,
    pub admin_password: Option<Seq<char>>,
    pub http_port: Option<u64>,
    pub peer_row: Option<PeerEntryView>,
}

impl View for Draft {
    type V = DraftView;

    open spec fn view(&self) -> DraftView {
        DraftView {
            enable: self.enable,
            peer: match self.peer {
                Member::Absent => Member::Absent,
                Member::Given(p) => Member::Given(p@),
                Member::Mistyped => Member::Mistyped,
            },
            sync_interval: self.sync_interval,
            admin_password: match self.admin_password {
                Some(p) => Some(p@),
                None => None,
            },
            http_port: self.http_port,
            peer_row: match self.peer_row {
                Some(row) => Some(row@),
                None => None,
            },
        }
    }
}

/// The configuration that a draft settles into.
///
/// A member of the wrong type is turned down, and so is a draft without the
/// admin's password or without the port. The plugin is off where the draft
/// does not say, and the peer table holds the peer's row, where there is one.
pub open spec fn settled(draft: DraftView) -> Result<ConfigurationView, ConfigError> {
    if draft.enable is Mistyped {
        Err(ConfigError::EnableNotBoolean)
    } else if draft.peer is Mistyped {
        Err(ConfigError::PeerNotText)
    } else if draft.admin_password is None {
        Err(ConfigError::MissingAdminCredential)
    } else if draft.http_port is None {
        Err(ConfigError::MissingHttpPort)
    } else {
        Ok(
            ConfigurationView {
                enable: draft.enable == Member::Given(true),
                peer: match draft.peer {
                    Member::Given(identifier) => Some(identifier),
                    _ => None,
                },
                sync_interval: draft.sync_interval,
                admin_password: draft.admin_password->Some_0,
                http_port: draft.http_port->Some_0,
                peers: match draft.peer_row {
                    Some(row) => seq![row],
                    None => Seq::empty(),
                },
            },
        )
    }
}

/// The row that the peer table holds for `identifier`, read from its entry:
/// an array that starts with the url, the user name and the password.
pub open spec fn row_in(identifier: Seq<char>, entry: JsonTree) -> Option<PeerEntryView> {
    match entry {
        JsonTree::Array(items) if items.len() >= 3 && items[0] is Text && items[1] is Text
            && items[2] is Text => Some(
            PeerEntryView {
                identifier,
                url: items[0]->Text_0,
                username: items[1]->Text_0,
                password: items[2]->Text_0,
            },
        ),
        _ => None,
    }
}

/// The draft that the document `root` holds.
pub open spec fn draft_in(root: JsonTree) -> DraftView {
    let proxy = member_tree(root, "VaraProxy"@);
    let enable = member_tree(proxy, "Enable"@);
    let peer = member_tree(proxy, "Peer"@);
    DraftView {
        enable: match enable {
            JsonTree::Null => Member::Absent,
            JsonTree::Bool(flag) => Member::Given(flag),
            _ => Member::Mistyped,
        },
        peer: match peer {
            JsonTree::Null => Member::Absent,
            JsonTree::Text(identifier) => Member::Given(identifier),
            _ => Member::Mistyped,
        },
        sync_interval: unsigned_in(member_tree(proxy, "PeriodicSyncIntervalSeconds"@)),
        admin_password: text_in(member_tree(member_tree(root, "RegisteredUsers"@), "admin"@)),
        http_port: unsigned_in(member_tree(root, "HttpPort"@)),
        peer_row: match peer {
            JsonTree::Text(identifier) => row_in(
                identifier,
                member_tree(member_tree(root, "OrthancPeers"@), identifier),
            ),
            _ => None,
        },
    }
}

/// The configuration that the document `root` holds.
pub open spec fn configuration_in(root: JsonTree) -> Result<ConfigurationView, ConfigError> {
    settled(draft_in(root))
}

/// The configuration that the text holds.
pub open spec fn configuration_of(text: Seq<char>) -> Result<ConfigurationView, ConfigError> {
    match parsed_json(text) {
        Some(root) => configuration_in(root),
        None => Err(ConfigError::NotJson),
    }
}

/// The configuration that the bytes hold, read as UTF-8 text.
pub open spec fn configuration_from(bytes: Seq<u8>) -> Result<ConfigurationView, ConfigError> {
    match decoded(bytes) {
        Some(text) => configuration_of(text),
        None => Err(ConfigError::NotText),
    }
}

/// The first row of `peers` named `identifier`.
pub open spec fn find_peer(peers: Seq<PeerEntryView>, identifier: Seq<char>) -> Option<PeerEntryView>
    decreases peers.len(),
{
    if peers.len() == 0 {
        None
    } else if peers[0].identifier == identifier {
        Some(peers[0])
    } else {
        find_peer(peers.drop_first(), identifier)
    }
}

/// The local archive's endpoint: `http://localhost:` and the port, as user `admin`.
pub open spec fn local_endpoint_of(config: ConfigurationView) -> EndpointView {
    EndpointView {
        url: "http://localhost:"@ + decimal(config.http_port as nat),
        username: "admin"@,
        password: config.admin_password,
    }
}

/// The peer's endpoint: the row of the peer table under the configured
/// identifier, where both are there.
pub open spec fn peer_endpoint_of(config: ConfigurationView) -> Option<EndpointView> {
    match config.peer {
        Some(identifier) => match find_peer(config.peers, identifier) {
            Some(row) => Some(EndpointView { url: row.url, username: row.username, password: row.password }),
            None => None,
        },
        None => None,
    }
}

/// What is logged when the peer's endpoint is asked for: nothing where it is
/// resolved, else one error that says what to configure.
pub open spec fn peer_endpoint_log(config: ConfigurationView) -> Seq<LogEntryView> {
    match config.peer {
        Some(identifier) => match find_peer(config.peers, identifier) {
            Some(_) => Seq::empty(),
            None => seq![line(LogLevel::Error, "Please configure peer identifier: "@ + identifier)],
        },
        None => seq![
            line(
                LogLevel::Error,
                "Please configure \"VaraProxy\" -> \"Peer\" in orthanc configuration."@,
            ),
        ],
    }
}

/// The configured interval between two rounds, or the default.
pub open spec fn sync_interval_of(config: ConfigurationView) -> u64 {
    match config.sync_interval {
        Some(seconds) => seconds,
        None => DEFAULT_SYNC_INTERVAL_SECONDS,
    }
}

fn read_row(identifier: &String, entry: Option<&serde_json::Value>) -> (row: Option<PeerEntry>)
    ensures
        match row {
            Some(r) => row_in(identifier@, tree_of(entry)) == Some(r@),
            None => row_in(identifier@, tree_of(entry)) is None,
        },
{
    let items = match entry {
        Some(value) => match value_as_array(value) {
            Some(items) => items,
            None => {
                return None;
            },
        },
        None => {
            return None;
        },
    };
    let ghost trees = json_trees(items@);
    assert(tree_of(entry) == JsonTree::Array(trees));
    if items.len() < 3 {
        return None;
    }
    assert(trees[0] == json_tree(items[0]));
    assert(trees[1] == json_tree(items[1]));
    assert(trees[2] == json_tree(items[2]));
    let url = read_text(Some(&items[0]));
    let username = read_text(Some(&items[1]));
    let password = read_text(Some(&items[2]));
    match (url, username, password) {
        (Some(url), Some(username), Some(password)) => Some(
            PeerEntry { identifier: identifier.clone(), url, username, password },
        ),
        _ => None,
    }
}

impl Configuration {
    /// Reads the configuration from the bytes that the host hands out.
    pub fn from_bytes(bytes: &[u8]) -> (parsed: Result<Configuration, ConfigError>)
        ensures
            match parsed {
                Ok(config) => configuration_from(bytes@) == Ok::<ConfigurationView, ConfigError>(config@),
                Err(e) => configuration_from(bytes@) == Err::<ConfigurationView, ConfigError>(e),
            },
    {
        match decode(bytes) {
            Some(text) => Configuration::parse(text.as_str()),
            None => Err(ConfigError::NotText),
        }
    }

    /// Reads the configuration from JSON text.
    pub fn parse(text: &str) -> (parsed: Result<Configuration, ConfigError>)
        ensures
            match parsed {
                Ok(config) => configuration_of(text@) == Ok::<ConfigurationView, ConfigError>(config@),
                Err(e) => configuration_of(text@) == Err::<ConfigurationView, ConfigError>(e),
            },
    {
        match parse_value(text) {
            Ok(document) => Configuration::from_draft(Draft::read(&document)),
            Err(_) => Err(ConfigError::NotJson),
        }
    }

    /// Settles a draft into a configuration, or says what is wrong with it.
    pub fn from_draft(draft: Draft) -> (settling: Result<Configuration, ConfigError>)
        ensures
            match settling {
                Ok(config) => settled(draft@) == Ok::<ConfigurationView, ConfigError>(config@),
                Err(e) => settled(draft@) == Err::<ConfigurationView, ConfigError>(e),
            },
    {
        let enable = match draft.enable {
            Member::Absent => false,
            Member::Given(flag) => flag,
            Member::Mistyped => {
                return Err(ConfigError::EnableNotBoolean);
            },
        };
        let peer = match draft.peer {
            Member::Absent => None,
            Member::Given(identifier) => Some(identifier),
            Member::Mistyped => {
                return Err(ConfigError::PeerNotText);
            },
        };
        let admin_password = match draft.admin_password {
            Some(password) => password,
            None => {
                return Err(ConfigError::MissingAdminCredential);
            },
        };
        let http_port = match draft.http_port {
            Some(port) => port,
            None => {
                return Err(ConfigError::MissingHttpPort);
            },
        };
        let mut peers: Vec<PeerEntry> = Vec::new();
        match draft.peer_row {
            Some(row) => {
                peers.push(row);
            },
            None => {},
        }
        let config = Configuration {
            enable,
            peer,
            sync_interval: draft.sync_interval,
            admin_password,
            http_port,
            peers,
        };
        assert(config@.peers =~= settled(draft@)->Ok_0.peers);
        Ok(config)
    }
}

impl Draft {
    /// Reads the members of the configuration out of a JSON document.
    pub fn read(document: &serde_json::Value) -> (draft: Draft)
        ensures
            draft@ == draft_in(json_tree(*document)),
    {
        let root = Some(document);
        let proxy = member(root, "VaraProxy");
        let enable_member = member(proxy, "Enable");
        let peer_member = member(proxy, "Peer");
        let enable = match read_bool(enable_member) {
            Some(flag) => Member::Given(flag),
            None => if is_null(enable_member) {
                Member::Absent
            } else {
                Member::Mistyped
            },
        };
        let peer_row = match read_text(peer_member) {
            Some(identifier) => {
                let entry = member(member(root, "OrthancPeers"), identifier.as_str());
                read_row(&identifier, entry)
            },
            None => None,
        };
        let peer = match read_text(peer_member) {
            Some(identifier) => Member::Given(identifier),
            None => if is_null(peer_member) {
                Member::Absent
            } else {
                Member::Mistyped
            },
        };
        Draft {
            enable,
            peer,
            sync_interval: read_u64(member(proxy, "PeriodicSyncIntervalSeconds")),
            admin_password: read_text(member(member(root, "RegisteredUsers"), "admin")),
            http_port: read_u64(member(root, "HttpPort")),
            peer_row,
        }
    }
}

/// Whether the plugin is switched on.
pub fn get_plugin_enabled(config: &Configuration) -> (enabled: bool)
    ensures
        enabled == config@.enable,
{
    config.enable
}

/// The endpoint of the local archive.
pub fn get_local_endpoint(config: &Configuration) -> (endpoint: Endpoint)
    ensures
        endpoint@ == local_endpoint_of(config@),
{
    let port = render_u64(config.http_port);
    Endpoint {
        url: glue("http://localhost:", port.as_str()),
        username: String::from_str("admin"),
        password: config.admin_password.clone(),
    }
}

/// The identifier of the configured peer.
pub fn get_peer_identifier(config: &Configuration) -> (identifier: String)
    requires
        config.peer is Some,
    ensures
        Some(identifier@) == config@.peer,
{
    match &config.peer {
        Some(identifier) => identifier.clone(),
        None => unreached(),
    }
}

/// The peer's endpoint, with the lines to log.
#[derive(Clone, Debug, PartialEq, Eq)]
pub struct PeerLookup {
    /// The endpoint; `None` where the peer is not configured.
    pub endpoint: Option<Endpoint>,
    /// What the lookup logs.
    pub log: Vec<LogEntry>,
}

fn find_row(peers: &Vec<PeerEntry>, identifier: &String) -> (found: Option<usize>)
    ensures
        match found {
            Some(i) => i < peers.len() && find_peer(
                peers@.map_values(|row: PeerEntry| row@),
                identifier@,
            ) == Some(peers[i as int]@),
            None => find_peer(peers@.map_values(|row: PeerEntry| row@), identifier@) is None,
        },
{
    let ghost rows = peers@.map_values(|row: PeerEntry| row@);
    let mut i: usize = 0;
    assert(rows.skip(0) =~= rows);
    while i < peers.len()
        invariant
            i <= peers.len(),
            rows == peers@.map_values(|row: PeerEntry| row@),
            find_peer(rows, identifier@) == find_peer(rows.skip(i as int), identifier@),
        decreases peers.len() - i,
    {
        let ghost rest = rows.skip(i as int);
        assert(rest[0] == peers[i as int]@);
        assert(rest.drop_first() =~= rows.skip(i as int + 1));
        if peers[i].identifier == *identifier {
            return Some(i);
        }
        i += 1;
    }
    None
}

/// Resolves the configured peer against the peer table.
///
/// Where the configuration names no peer, or the table has no row for it, no
/// endpoint is returned and exactly one error is logged.
pub fn get_peer_endpoint(config: &Configuration) -> (lookup: PeerLookup)
    ensures
        endpoint_view(lookup.endpoint) == peer_endpoint_of(config@),
        log_view(lookup.log@) == peer_endpoint_log(config@),
        config.peer is None ==> lookup.endpoint is None && lookup.log.len() == 1
            && lookup.log[0].level == LogLevel::Error,
{
    let mut log: Vec<LogEntry> = Vec::new();
    match &config.peer {
        Some(identifier) => match find_row(&config.peers, identifier) {
            Some(i) => {
                let row = &config.peers[i];
                let endpoint = Endpoint {
                    url: row.url.clone(),
                    username: row.username.clone(),
                    password: row.password.clone(),
                };
                assert(log_view(log@) =~= peer_endpoint_log(config@));
                PeerLookup { endpoint: Some(endpoint), log }
            },
            None => {
                let message = glue("Please configure peer identifier: ", identifier.as_str());
                log.push(error(message.as_str()));
                assert(log_view(log@) =~= peer_endpoint_log(config@));
                PeerLookup { endpoint: None, log }
            },
        },
        None => {
            log.push(error("Please configure \"VaraProxy\" -> \"Peer\" in orthanc configuration."));
            assert(log_view(log@) =~= peer_endpoint_log(config@));
            PeerLookup { endpoint: None, log }
        },
    }
}

/// Seconds between two synchronisation rounds.
pub fn get_sync_interval(config: &Configuration) -> (seconds: u64)
    ensures
        seconds == sync_interval_of(config@),
{
    match config.sync_interval {
        Some(seconds) => seconds,
        None => DEFAULT_SYNC_INTERVAL_SECONDS,
    }
}

} // verus!
