//! Reacting to the host's change events.
//!
//! The host calls back on every change of a resource, on one of its own
//! threads, and must not be kept waiting: the reaction only says what to log
//! and which task to hand to the worker pool. The task itself is planned and
//! reported here too, and carried out by a worker.

use vstd::prelude::*;
use crate::config::{get_local_endpoint, local_endpoint_of, Configuration, ConfigurationView};
use crate::host::{error, info, line, log_view, LogEntry, LogEntryView, LogLevel, STATUS_SUCCESS};
use crate::http::{
    peer_store, peer_store_request, transfer_result, transfer_result_of, HttpReply, HttpReplyView,
    HttpRequest, HttpRequestView,
};
use crate::text::{decode, decoded, glue};

verus! {

/// What happened to a resource.
#[derive(Clone, Copy, Debug, PartialEq, Eq, Structural)]
pub enum ChangeKind {
    CompletedSeries,
    Deleted,
    NewChildInstance,
    NewInstance,
    NewPatient,
    NewSeries,
    NewStudy,
    StablePatient,
    StableSeries,
    StableStudy,
    OrthancStarted,
    OrthancStopped,
    UpdatedAttachment,
    UpdatedMetadata,
    UpdatedPeers,
    UpdatedModalities,
    JobSubmitted,
    JobSuccess,
    JobFailure,
    /// A change that has no name here.
    Other,
}

/// The level of a resource in the archive.
#[derive(Clone, Copy, Debug, PartialEq, Eq, Structural)]
pub enum ResourceKind {
    Patient,
    Study,
    Series,
    Instance,
    Unavailable,
}

/// The transfer of one study to the peer, to be run by a worker.
#[derive(Clone, Debug, PartialEq, Eq)]
pub struct TransferTask {
    pub study_id: String,
}

/// What a change event leads to.
#[derive(Clone, Debug, PartialEq, Eq)]
pub struct ChangeReaction {
    /// The lines to log, in order.
    pub log: Vec<LogEntry>,
    /// The task to hand to the worker pool, if any.
    pub task: Option<TransferTask>,
    /// The status to hand back to the host.
    pub status: i32,
}

/// The bytes of an identifier that may be absent.
pub open spec fn id_bytes(resource_id: Option<&[u8]>) -> Option<Seq<u8>> {
    match resource_id {
        Some(bytes) => Some(bytes@),
        None => None,
    }
}

/// The identifier as text: there is none where the host gave none, or gave
/// bytes that are not UTF-8.
pub open spec fn id_text(resource_id: Option<Seq<u8>>) -> Option<Seq<char>> {
    match resource_id {
        Some(bytes) => decoded(bytes),
        None => None,
    }
}

/// The study to transfer after a change: the one that has become stable.
pub open spec fn study_to_transfer(
    change: ChangeKind,
    resource: ResourceKind,
    resource_id: Option<Seq<u8>>,
) -> Option<Seq<char>> {
    if change == ChangeKind::StableStudy && resource == ResourceKind::Study {
        id_text(resource_id)
    } else {
        None
    }
}

/// The lines that a change event logs: an error where the identifier cannot
/// be read, then the event itself.
pub open spec fn change_log(resource_id: Option<Seq<u8>>) -> Seq<LogEntryView> {
    let unreadable = if resource_id is Some && id_text(resource_id) is None {
        seq![line(LogLevel::Error, "unable to parse resource_id to Utf8-String"@)]
    } else {
        Seq::empty()
    };
    let received = match id_text(resource_id) {
        Some(id) => line(LogLevel::Info, "received on_change - id: "@ + id),
        None => line(LogLevel::Info, "received on_change - no id"@),
    };
    unreadable.push(received)
}

/// The view of a task that may be absent: the study it transfers.
pub open spec fn task_view(task: Option<TransferTask>) -> Option<Seq<char>> {
    match task {
        Some(t) => Some(t.study_id@),
        None => None,
    }
}

/// Decides what a change event leads to.
///
/// A task is handed out exactly for a study that has become stable and whose
/// identifier can be read; it transfers that one study.
pub fn on_change(change_type: ChangeKind, resource_type: ResourceKind, resource_id: Option<&[u8]>) -> (reaction:
    ChangeReaction)
    ensures
        log_view(reaction.log@) == change_log(id_bytes(resource_id)),
        task_view(reaction.task) == study_to_transfer(change_type, resource_type, id_bytes(resource_id)),
        reaction.status == STATUS_SUCCESS,
{
    let mut log: Vec<LogEntry> = Vec::new();
    let id: Option<String> = match resource_id {
        Some(bytes) => {
            let text = decode(bytes);
            if text.is_none() {
                log.push(error("unable to parse resource_id to Utf8-String"));
            }
            text
        },
        None => None,
    };
    match &id {
        Some(text) => {
            let message = glue("received on_change - id: ", text.as_str());
            log.push(info(message.as_str()));
        },
        None => {
            log.push(info("received on_change - no id"));
        },
    }
    assert(log_view(log@) =~= change_log(id_bytes(resource_id)));
    let stable_study = match (change_type, resource_type) {
        (ChangeKind::StableStudy, ResourceKind::Study) => true,
        _ => false,
    };
    let task = match id {
        Some(text) => if stable_study {
            Some(TransferTask { study_id: text })
        } else {
            None
        },
        None => None,
    };
    ChangeReaction { log, task, status: STATUS_SUCCESS }
}

/// How a transfer task starts: the lines to log and the request to send.
#[derive(Clone, Debug, PartialEq, Eq)]
pub struct TaskStart {
    pub log: Vec<LogEntry>,
    /// The request; `None` where the configuration names no peer.
    pub request: Option<HttpRequest>,
}

/// The view of a request that may be absent.
pub open spec fn request_view(request: Option<HttpRequest>) -> Option<HttpRequestView> {
    match request {
        Some(r) => Some(r@),
        None => None,
    }
}

/// The request of a transfer task: the local archive is asked to store the
/// study on the configured peer.
pub open spec fn task_request(config: ConfigurationView, study: Seq<char>) -> Option<HttpRequestView> {
    match config.peer {
        Some(peer) => Some(peer_store(local_endpoint_of(config), peer, seq![study])),
        None => None,
    }
}

/// What a transfer task logs before it sends anything.
pub open spec fn task_start_log(config: ConfigurationView) -> Seq<LogEntryView> {
    match config.peer {
        Some(_) => Seq::empty(),
        None => seq![
            line(
                LogLevel::Error,
                "Please configure \"VaraProxy\" -> \"Peer\" in orthanc configuration."@,
            ),
        ],
    }
}

/// What a transfer task logs once the reply is in.
pub open spec fn task_report(study: Seq<char>, reply: HttpReplyView) -> LogEntryView {
    match transfer_result_of(reply) {
        Ok(_) => line(LogLevel::Info, "Successfully transferred study: "@ + study),
        Err(_) => line(LogLevel::Info, "Encountered error while transferring a study: "@ + study),
    }
}

impl TransferTask {
    /// Plans the task: one request that carries the task's study and nothing
    /// else, or, without a configured peer, an error to log.
    pub fn start(&self, config: &Configuration) -> (start: TaskStart)
        ensures
            request_view(start.request) == task_request(config@, self.study_id@),
            log_view(start.log@) == task_start_log(config@),
    {
        let mut log: Vec<LogEntry> = Vec::new();
        match &config.peer {
            Some(peer) => {
                let local = get_local_endpoint(config);
                let mut studies: Vec<String> = Vec::new();
                studies.push(self.study_id.clone());
                assert(studies.deep_view() =~= seq![self.study_id@]);
                let request = peer_store_request(&local, peer.as_str(), studies);
                assert(log_view(log@) =~= task_start_log(config@));
                TaskStart { log, request: Some(request) }
            },
            None => {
                log.push(error("Please configure \"VaraProxy\" -> \"Peer\" in orthanc configuration."));
                assert(log_view(log@) =~= task_start_log(config@));
                TaskStart { log, request: None }
            },
        }
    }

    /// Reads the reply to the task's request into the line to log.
    pub fn report(&self, reply: &HttpReply) -> (entry: LogEntry)
        ensures
            entry@ == task_report(self.study_id@, reply@),
    {
        match transfer_result(reply) {
            Ok(_) => {
                let message = glue("Successfully transferred study: ", self.study_id.as_str());
                info(message.as_str())
            },
            Err(_) => {
                let message = glue(
                    "Encountered error while transferring a study: ",
                    self.study_id.as_str(),
                );
                info(message.as_str())
            },
        }
    }
}

} // verus!
