//! Keeping the peer's inventory up with the local one.
//!
//! A round lists what the local archive holds and what the peer holds, and
//! has the local archive push what the peer lacks. Nothing is ever removed
//! from the peer.

use vstd::prelude::*;
use crate::config::{
    endpoint_text, get_local_endpoint, get_peer_endpoint, local_endpoint_of, peer_endpoint_log,
    peer_endpoint_of, Configuration, ConfigurationView, Endpoint, EndpointView,
};
use crate::host::{
    info, lemma_log_empty, lemma_log_push, line, log_view, LogEntry, LogEntryView, LogLevel,
};
use crate::http::{
    describe, description, entities_of, get_entities, listing, listing_request, peer_store,
    peer_store_request, transfer_result, transfer_result_of, ClientError, HttpReply, HttpReplyView,
    HttpRequest, HttpRequestView,
};
use crate::text::{glue, join, joined};

verus! {

/// The identifiers of `local` that `peer` lacks, each once, in the order in
/// which `local` first names them.
pub open spec fn missing_on_peer(local: Seq<Seq<char>>, peer: Seq<Seq<char>>) -> Seq<Seq<char>>
    decreases local.len(),
{
    if local.len() == 0 {
        Seq::empty()
    } else {
        let earlier = missing_on_peer(local.drop_last(), peer);
        let id = local.last();
        if peer.contains(id) || earlier.contains(id) {
            earlier
        } else {
            earlier.push(id)
        }
    }
}

/// Whether `ids` holds an identifier with the text of `id`.
pub fn holds_id(ids: &Vec<String>, id: &String) -> (found: bool)
    ensures
        found == ids.deep_view().contains(id@),
{
    let mut i: usize = 0;
    while i < ids.len()
        invariant
            i <= ids.len(),
            forall|k: int| 0 <= k < i ==> ids.deep_view()[k] != id@,
        decreases ids.len() - i,
    {
        if ids[i] == *id {
            assert(ids.deep_view()[i as int] == id@);
            return true;
        }
        i += 1;
    }
    false
}

/// What one synchronisation round has to push.
pub enum SyncPlan {
    /// The peer already holds every local identifier.
    NothingToSync,
    /// The peer lacks these identifiers; one batch transfer carries them.
    Transfer(Vec<String>),
}

impl SyncPlan {
    /// The identifiers that the plan transfers.
    pub open spec fn carried(&self) -> Seq<Seq<char>> {
        match self {
            SyncPlan::NothingToSync => Seq::empty(),
            SyncPlan::Transfer(ids) => ids.deep_view(),
        }
    }
}

/// A transfer is planned exactly when the peer lacks something, and then it
/// carries all that it lacks.
pub open spec fn plan_matches(plan: SyncPlan, local: Seq<Seq<char>>, peer: Seq<Seq<char>>) -> bool {
    &&& plan.carried() == missing_on_peer(local, peer)
    &&& plan is Transfer <==> missing_on_peer(local, peer).len() > 0
}

/// Lists what `peer` lacks of `local`.
pub fn missing_ids(local: &Vec<String>, peer: &Vec<String>) -> (missing: Vec<String>)
    ensures
        missing.deep_view() == missing_on_peer(local.deep_view(), peer.deep_view()),
        forall|id: Seq<char>|
            missing.deep_view().contains(id) <==> local.deep_view().contains(id)
                && !peer.deep_view().contains(id),
        missing.deep_view().no_duplicates(),
{
    let mut missing: Vec<String> = Vec::new();
    let mut i: usize = 0;
    assert(local.deep_view().take(0) =~= Seq::empty());
    assert(missing.deep_view() =~= Seq::empty());
    while i < local.len()
        invariant
            i <= local.len(),
            missing.deep_view() == missing_on_peer(local.deep_view().take(i as int), peer.deep_view()),
        decreases local.len() - i,
    {
        let ghost before = missing.deep_view();
        let ghost prefix = local.deep_view().take(i as int + 1);
        assert(prefix.drop_last() =~= local.deep_view().take(i as int));
        assert(prefix.last() == local[i as int]@);
        if !holds_id(peer, &local[i]) && !holds_id(&missing, &local[i]) {
            missing.push(local[i].clone());
            assert(missing.deep_view() =~= before.push(local[i as int]@));
        }
        i += 1;
    }
    assert(local.deep_view().take(i as int) =~= local.deep_view());
    proof {
        lemma_missing_is_difference(local.deep_view(), peer.deep_view());
    }
    missing
}

/// Decides whether a round transfers anything, and what.
pub fn plan_sync(local: &Vec<String>, peer: &Vec<String>) -> (plan: SyncPlan)
    ensures
        plan_matches(plan, local.deep_view(), peer.deep_view()),
{
    let missing = missing_ids(local, peer);
    assert(missing.deep_view().len() == missing.len());
    if missing.len() == 0 {
        assert(missing.deep_view() =~= Seq::empty());
        SyncPlan::NothingToSync
    } else {
        SyncPlan::Transfer(missing)
    }
}

/// What is computed as missing is exactly the local identifiers that the peer
/// does not hold, and none of them is listed twice.
pub proof fn lemma_missing_is_difference(local: Seq<Seq<char>>, peer: Seq<Seq<char>>)
    ensures
        forall|id: Seq<char>|
            missing_on_peer(local, peer).contains(id) <==> local.contains(id) && !peer.contains(id),
        missing_on_peer(local, peer).no_duplicates(),
    decreases local.len(),
{
    let missing = missing_on_peer(local, peer);
    if local.len() > 0 {
        let earlier = missing_on_peer(local.drop_last(), peer);
        let last = local.last();
        lemma_missing_is_difference(local.drop_last(), peer);
        assert forall|id: Seq<char>|
            missing.contains(id) <==> local.contains(id) && !peer.contains(id) by {
            if local.contains(id) {
                let k = choose|k: int| 0 <= k < local.len() && local[k] == id;
                if k < local.len() - 1 {
                    assert(local.drop_last()[k] == id);
                }
            }
            if local.drop_last().contains(id) {
                let k = choose|k: int| 0 <= k < local.drop_last().len() && local.drop_last()[k] == id;
                assert(local[k] == id);
            }
            if earlier.contains(id) && missing == earlier.push(last) {
                let k = choose|k: int| 0 <= k < earlier.len() && earlier[k] == id;
                assert(missing[k] == id);
            }
            if missing == earlier.push(last) {
                assert(missing[earlier.len() as int] == last);
            }
        }
    }
}

/// Once the peer holds what one round found missing, the next round over the
/// same local identifiers finds nothing to transfer.
pub proof fn lemma_second_round_transfers_nothing(
    local: Seq<Seq<char>>,
    peer: Seq<Seq<char>>,
    peer_after: Seq<Seq<char>>,
)
    requires
        forall|id: Seq<char>|
            peer.contains(id) || missing_on_peer(local, peer).contains(id) ==> peer_after.contains(id),
    ensures
        missing_on_peer(local, peer_after).len() == 0,
        forall|plan: SyncPlan| plan_matches(plan, local, peer_after) ==> plan is NothingToSync,
{
    lemma_missing_is_difference(local, peer);
    lemma_missing_is_difference(local, peer_after);
    let again = missing_on_peer(local, peer_after);
    if again.len() > 0 {
        let id = again[0];
        assert(again.contains(id));
        assert(local.contains(id) && !peer_after.contains(id));
        assert(peer.contains(id) || missing_on_peer(local, peer).contains(id));
    }
}

/// What a round compares: studies or instances.
#[derive(Clone, Copy, Debug, PartialEq, Eq, Structural)]
pub enum SyncScope {
    Studies,
    Instances,
}

impl Default for SyncScope {
    /// Studies, unless told otherwise.
    fn default() -> (scope: SyncScope)
        ensures
            scope == SyncScope::Studies,
    {
        SyncScope::Studies
    }
}

/// The path under which an archive lists what the scope speaks of.
pub open spec fn collection(scope: SyncScope) -> Seq<char> {
    match scope {
        SyncScope::Studies => "/studies"@,
        SyncScope::Instances => "/instances"@,
    }
}

/// Why a round came to nothing.
#[derive(Clone, Copy, Debug, PartialEq, Eq, Structural)]
pub enum SyncError {
    /// The configuration names no peer, or the peer table has no row for it.
    PeerUnconfigured,
    /// The local archive's listing failed.
    LocalListing(ClientError),
    /// The peer's listing failed.
    PeerListing(ClientError),
    /// The transfer failed.
    Transfer(ClientError),
}

/// The error in words.
pub open spec fn sync_error_text(error: SyncError) -> Seq<char> {
    match error {
        SyncError::PeerUnconfigured => "the peer is not configured"@,
        SyncError::LocalListing(e) => "listing the local archive: "@ + description(e),
        SyncError::PeerListing(e) => "listing the peer: "@ + description(e),
        SyncError::Transfer(e) => "transfer: "@ + description(e),
    }
}

/// The error in words.
pub fn describe_sync_error(error: SyncError) -> (text: String)
    ensures
        text@ == sync_error_text(error),
{
    match error {
        SyncError::PeerUnconfigured => String::from_str("the peer is not configured"),
        SyncError::LocalListing(e) => {
            let reason = describe(e);
            glue("listing the local archive: ", reason.as_str())
        },
        SyncError::PeerListing(e) => {
            let reason = describe(e);
            glue("listing the peer: ", reason.as_str())
        },
        SyncError::Transfer(e) => {
            let reason = describe(e);
            glue("transfer: ", reason.as_str())
        },
    }
}

/// Where a round stands: what it waits for.
#[derive(Clone, Copy, Debug, PartialEq, Eq, Structural)]
pub enum RoundPhase {
    /// The local archive's listing.
    ListingLocal,
    /// The peer's listing.
    ListingPeer,
    /// The reply to the transfer.
    Transferring,
    /// Nothing: the round is over.
    Done,
}

/// What a round asks for.
#[derive(Debug, PartialEq, Eq)]
pub enum RoundAction {
    /// Send the request and hand back what came of it.
    Send(HttpRequest),
    /// The round is over, with this result.
    Done(Result<(), SyncError>),
}

/// What the contracts see of a [`RoundAction`]: its texts as sequences of characters.
pub enum RoundActionView {
    Send(HttpRequestView),
    Done(Result<(), SyncError>),
}

impl View for RoundAction {
    type V = RoundActionView;

    open spec fn view(&self) -> RoundActionView {
        match self {
            RoundAction::Send(request) => RoundActionView::Send(request@),
            RoundAction::Done(result) => RoundActionView::Done(*result),
        }
    }
}

impl RoundActionView {
    /// Whether the action is a transfer call.
    pub open spec fn is_transfer(self) -> bool {
        self matches RoundActionView::Send(request) && request.body is PeerStore
    }
}

/// One move of a round: the lines to log, then what is due.
#[derive(Debug, PartialEq, Eq)]
pub struct RoundStep {
    pub log: Vec<LogEntry>,
    pub action: RoundAction,
}

/// What the contracts see of a [`RoundStep`]: its texts as sequences of characters.
pub struct RoundStepView {
    pub log: Seq<LogEntryView>,
    pub action: RoundActionView,
}

impl View for RoundStep {
    type V = RoundStepView;

    open spec fn view(&self) -> RoundStepView {
        RoundStepView { log: log_view(self.log@), action: self.action@ }
    }
}

/// The state of a round, as the contracts see it.
pub struct SyncRoundView {
    pub phase: RoundPhase,
    pub scope: SyncScope,
    /// The local archive.
    pub local: EndpointView,
    /// The peer.
    pub peer: EndpointView,
    /// The name under which the local archive knows the peer.
    pub peer_identifier: Seq<char>,
    /// What the local archive holds, once it is listed.
    pub local_ids: Seq<Seq<char>>,
}

/// The round is over with `result`, after `log`.
pub open spec fn round_over(s: SyncRoundView, log: Seq<LogEntryView>, result: Result<(), SyncError>) -> (
    SyncRoundView,
    RoundStepView,
) {
    (SyncRoundView { phase: RoundPhase::Done, ..s }, RoundStepView { log, action: RoundActionView::Done(result) })
}

/// The round at its start, with its first move: the local archive is asked
/// for its listing, or, without a peer to reach, the round is over at once.
pub open spec fn round_started(config: ConfigurationView, scope: SyncScope) -> (SyncRoundView, RoundStepView) {
    let local = local_endpoint_of(config);
    match peer_endpoint_of(config) {
        Some(peer) => (
            SyncRoundView {
                phase: RoundPhase::ListingLocal,
                scope,
                local,
                peer,
                peer_identifier: config.peer->Some_0,
                local_ids: Seq::empty(),
            },
            RoundStepView {
                log: seq![
                    line(
                        LogLevel::Info,
                        "Synchronizing studies between: "@ + endpoint_text(local) + " -> "@ + endpoint_text(
                            peer,
                        ),
                    ),
                ],
                action: RoundActionView::Send(listing(local, collection(scope))),
            },
        ),
        None => round_over(
            SyncRoundView {
                phase: RoundPhase::Done,
                scope,
                local,
                peer: local,
                peer_identifier: Seq::empty(),
                local_ids: Seq::empty(),
            },
            peer_endpoint_log(config),
            Err(SyncError::PeerUnconfigured),
        ),
    }
}

/// The move that a reply brings about. A round that is over makes none.
pub open spec fn round_next(s: SyncRoundView, reply: HttpReplyView) -> Option<(SyncRoundView, RoundStepView)> {
    match s.phase {
        RoundPhase::ListingLocal => match entities_of(reply) {
            Ok(ids) => Some(
                (
                    SyncRoundView { phase: RoundPhase::ListingPeer, local_ids: ids, ..s },
                    RoundStepView {
                        log: Seq::empty(),
                        action: RoundActionView::Send(listing(s.peer, collection(s.scope))),
                    },
                ),
            ),
            Err(e) => Some(round_over(s, Seq::empty(), Err(SyncError::LocalListing(e)))),
        },
        RoundPhase::ListingPeer => match entities_of(reply) {
            Ok(peer_ids) => {
                let missing = missing_on_peer(s.local_ids, peer_ids);
                if missing.len() == 0 {
                    Some(round_over(s, seq![line(LogLevel::Info, "No new studies to sync."@)], Ok(())))
                } else {
                    Some(
                        (
                            SyncRoundView { phase: RoundPhase::Transferring, ..s },
                            RoundStepView {
                                log: seq![
                                    line(LogLevel::Info, "Transferring instances: "@ + joined(missing, ", "@)),
                                ],
                                action: RoundActionView::Send(peer_store(s.local, s.peer_identifier, missing)),
                            },
                        ),
                    )
                }
            },
            Err(e) => Some(round_over(s, Seq::empty(), Err(SyncError::PeerListing(e)))),
        },
        RoundPhase::Transferring => match transfer_result_of(reply) {
            Ok(_) => Some(round_over(s, seq![line(LogLevel::Info, "Successfully transferred instances"@)], Ok(()))),
            Err(e) => Some(
                round_over(
                    s,
                    seq![line(LogLevel::Info, "Failed to transfer studies: "@ + description(e))],
                    Err(SyncError::Transfer(e)),
                ),
            ),
        },
        RoundPhase::Done => None,
    }
}

/// A round that has asked for something waits for the reply: told what came
/// of its request, it makes its next move.
pub proof fn lemma_reply_is_awaited(s: SyncRoundView, reply: HttpReplyView, answer: HttpReplyView)
    requires
        round_next(s, reply) is Some,
        round_next(s, reply)->Some_0.1.action is Send,
    ensures
        round_next(round_next(s, reply)->Some_0.0, answer) is Some,
{
}

/// A round transfers exactly what the peer lacks: with the listings of the
/// local archive and of the peer in, one transfer call is made where the peer
/// lacks something, and it carries all that it lacks; where it lacks nothing,
/// the round is over without a call.
pub proof fn lemma_round_transfers_the_difference(s: SyncRoundView, reply: HttpReplyView, peer_ids: Seq<Seq<char>>)
    requires
        s.phase is ListingPeer,
        entities_of(reply) == Ok::<Seq<Seq<char>>, ClientError>(peer_ids),
    ensures
        ({
            let step = round_next(s, reply)->Some_0.1;
            let missing = missing_on_peer(s.local_ids, peer_ids);
            &&& round_next(s, reply) is Some
            &&& forall|id: Seq<char>| missing.contains(id) <==> s.local_ids.contains(id) && !peer_ids.contains(id)
            &&& missing.len() > 0 ==> step.action == RoundActionView::Send(
                peer_store(s.local, s.peer_identifier, missing),
            )
            &&& missing.len() == 0 ==> step.action == RoundActionView::Done(Ok(()))
            &&& step.action.is_transfer() <==> missing.len() > 0
        }),
{
    lemma_missing_is_difference(s.local_ids, peer_ids);
}

/// A round right after one that went through makes no transfer call: where
/// the peer now holds what it held before and what the earlier round found
/// missing, and the local archive holds what it held, the round is over once
/// the listings are in.
pub proof fn lemma_settled_round_transfers_nothing(
    s: SyncRoundView,
    before: Seq<Seq<char>>,
    reply: HttpReplyView,
    after: Seq<Seq<char>>,
)
    requires
        s.phase is ListingPeer,
        entities_of(reply) == Ok::<Seq<Seq<char>>, ClientError>(after),
        forall|id: Seq<char>|
            before.contains(id) || missing_on_peer(s.local_ids, before).contains(id) ==> after.contains(id),
    ensures
        round_next(s, reply) is Some,
        !round_next(s, reply)->Some_0.1.action.is_transfer(),
        round_next(s, reply)->Some_0.1.action == RoundActionView::Done(Ok(())),
{
    lemma_second_round_transfers_nothing(s.local_ids, before, after);
}

/// One round of synchronisation.
pub struct SyncRound {
    phase: RoundPhase,
    scope: SyncScope,
    local: Endpoint,
    peer: Endpoint,
    peer_identifier: String,
    local_ids: Vec<String>,
}

impl View for SyncRound {
    type V = SyncRoundView;

    closed spec fn view(&self) -> SyncRoundView {
        SyncRoundView {
            phase: self.phase,
            scope: self.scope,
            local: self.local@,
            peer: self.peer@,
            peer_identifier: self.peer_identifier@,
            local_ids: self.local_ids.deep_view(),
        }
    }
}

fn collection_path(scope: SyncScope) -> (path: &'static str)
    ensures
        path@ == collection(scope),
{
    match scope {
        SyncScope::Studies => "/studies",
        SyncScope::Instances => "/instances",
    }
}

impl SyncRound {
    /// Whether the round is over.
    pub fn is_done(&self) -> (done: bool)
        ensures
            done == (self@.phase is Done),
    {
        match self.phase {
            RoundPhase::Done => true,
            _ => false,
        }
    }

    /// Starts a round over `scope`.
    pub fn start(config: &Configuration, scope: SyncScope) -> (out: (SyncRound, RoundStep))
        ensures
            (out.0@, out.1@) == round_started(config@, scope),
    {
        let local = get_local_endpoint(config);
        let lookup = get_peer_endpoint(config);
        match lookup.endpoint {
            Some(peer) => {
                let peer_identifier = match &config.peer {
                    Some(identifier) => identifier.clone(),
                    None => String::new(),
                };
                let local_text = local.to_text();
                let peer_text = peer.to_text();
                let mut message = glue("Synchronizing studies between: ", local_text.as_str());
                message.append(" -> ");
                message.append(peer_text.as_str());
                let mut log: Vec<LogEntry> = Vec::new();
                let entry = info(message.as_str());
                proof {
                    lemma_log_empty();
                    lemma_log_push(log@, entry);
                }
                log.push(entry);
                let request = listing_request(&local, collection_path(scope));
                let local_ids: Vec<String> = Vec::new();
                assert(local_ids.deep_view() =~= Seq::<Seq<char>>::empty());
                (
                    SyncRound { phase: RoundPhase::ListingLocal, scope, local, peer, peer_identifier, local_ids },
                    RoundStep { log, action: RoundAction::Send(request) },
                )
            },
            None => {
                let peer = local.clone_endpoint();
                let local_ids: Vec<String> = Vec::new();
                assert(local_ids.deep_view() =~= Seq::<Seq<char>>::empty());
                (
                    SyncRound {
                        phase: RoundPhase::Done,
                        scope,
                        local,
                        peer,
                        peer_identifier: String::new(),
                        local_ids,
                    },
                    RoundStep { log: lookup.log, action: RoundAction::Done(Err(SyncError::PeerUnconfigured)) },
                )
            },
        }
    }

    fn over(self, log: Vec<LogEntry>, result: Result<(), SyncError>) -> (out: (SyncRound, RoundStep))
        ensures
            (out.0@, out.1@) == round_over(self@, log_view(log@), result),
    {
        (
            SyncRound {
                phase: RoundPhase::Done,
                scope: self.scope,
                local: self.local,
                peer: self.peer,
                peer_identifier: self.peer_identifier,
                local_ids: self.local_ids,
            },
            RoundStep { log, action: RoundAction::Done(result) },
        )
    }

    /// Makes the move that `reply` brings about. A round that is over stays
    /// as it is and gives no step.
    pub fn step(self, reply: &HttpReply) -> (out: (SyncRound, Option<RoundStep>))
        ensures
            match round_next(self@, reply@) {
                Some((after, step)) => {
                    &&& out.0@ == after
                    &&& out.1 matches Some(made) && made@ == step
                },
                None => out.0@ == self@ && out.1 is None,
            },
    {
        let mut log: Vec<LogEntry> = Vec::new();
        proof {
            lemma_log_empty();
        }
        match self.phase {
            RoundPhase::ListingLocal => match get_entities(reply) {
                Ok(ids) => {
                    let request = listing_request(&self.peer, collection_path(self.scope));
                    (
                        SyncRound {
                            phase: RoundPhase::ListingPeer,
                            scope: self.scope,
                            local: self.local,
                            peer: self.peer,
                            peer_identifier: self.peer_identifier,
                            local_ids: ids,
                        },
                        Some(RoundStep { log, action: RoundAction::Send(request) }),
                    )
                },
                Err(e) => {
                    let out = self.over(log, Err(SyncError::LocalListing(e)));
                    (out.0, Some(out.1))
                },
            },
            RoundPhase::ListingPeer => match get_entities(reply) {
                Ok(peer_ids) => match plan_sync(&self.local_ids, &peer_ids) {
                    SyncPlan::NothingToSync => {
                        let entry = info("No new studies to sync.");
                        proof {
                            lemma_log_push(log@, entry);
                        }
                        log.push(entry);
                        let out = self.over(log, Ok(()));
                        (out.0, Some(out.1))
                    },
                    SyncPlan::Transfer(missing) => {
                        let list = join(&missing, ", ");
                        let message = glue("Transferring instances: ", list.as_str());
                        let entry = info(message.as_str());
                        proof {
                            lemma_log_push(log@, entry);
                        }
                        log.push(entry);
                        let request = peer_store_request(&self.local, self.peer_identifier.as_str(), missing);
                        (
                            SyncRound {
                                phase: RoundPhase::Transferring,
                                scope: self.scope,
                                local: self.local,
                                peer: self.peer,
                                peer_identifier: self.peer_identifier,
                                local_ids: self.local_ids,
                            },
                            Some(RoundStep { log, action: RoundAction::Send(request) }),
                        )
                    },
                },
                Err(e) => {
                    let out = self.over(log, Err(SyncError::PeerListing(e)));
                    (out.0, Some(out.1))
                },
            },
            RoundPhase::Transferring => match transfer_result(reply) {
                Ok(_) => {
                    let entry = info("Successfully transferred instances");
                    proof {
                        lemma_log_push(log@, entry);
                    }
                    log.push(entry);
                    let out = self.over(log, Ok(()));
                    (out.0, Some(out.1))
                },
                Err(e) => {
                    let reason = describe(e);
                    let message = glue("Failed to transfer studies: ", reason.as_str());
                    let entry = info(message.as_str());
                    proof {
                        lemma_log_push(log@, entry);
                    }
                    log.push(entry);
                    let out = self.over(log, Err(SyncError::Transfer(e)));
                    (out.0, Some(out.1))
                },
            },
            RoundPhase::Done => (self, None),
        }
    }
}

/// Starts a round that brings the peer's instances up with the local ones.
pub fn sync_instances(config: &Configuration) -> (out: (SyncRound, RoundStep))
    ensures
        (out.0@, out.1@) == round_started(config@, SyncScope::Instances),
{
    SyncRound::start(config, SyncScope::Instances)
}

/// Starts a round that brings the peer's studies up with the local ones.
pub fn sync_studies(config: &Configuration) -> (out: (SyncRound, RoundStep))
    ensures
        (out.0@, out.1@) == round_started(config@, SyncScope::Studies),
{
    SyncRound::start(config, SyncScope::Studies)
}

} // verus!
