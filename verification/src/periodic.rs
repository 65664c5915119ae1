//! The periodic synchronizer: a grace period, then one round of
//! synchronisation after another, asleep in between.

use vstd::prelude::*;
use crate::config::{get_sync_interval, sync_interval_of, Configuration, ConfigurationView};
use crate::host::{
    error, info, lemma_log_add, lemma_log_empty, lemma_log_push, line, log_view, LogEntry,
    LogEntryView, LogLevel,
};
use crate::http::{entities_of, ClientError, HttpReply, HttpReplyView, HttpRequest, HttpRequestView};
use crate::sync::{
    describe_sync_error, lemma_settled_round_transfers_nothing, missing_on_peer, round_next,
    round_started, sync_error_text, RoundAction, RoundActionView, RoundStep, RoundStepView,
    SyncError, SyncRound, SyncRoundView, SyncScope,
};
use crate::text::glue;

verus! {

/// Seconds that the periodic synchronizer waits before its first round, so
/// that the host has finished loading.
pub const GRACE_SECONDS: u64 = 60;

/// What the periodic synchronizer is told.
#[derive(Clone, Debug, PartialEq, Eq)]
pub enum PeriodicEvent {
    /// The synchronizer has been set going.
    Started,
    /// The sleep is over.
    Woke,
    /// What came of the request.
    Replied(HttpReply),
}

/// What the contracts see of a [`PeriodicEvent`]: its texts as sequences of characters.
pub enum PeriodicEventView {
    Started,
    Woke,
    Replied(HttpReplyView),
}

impl View for PeriodicEvent {
    type V = PeriodicEventView;

    open spec fn view(&self) -> PeriodicEventView {
        match self {
            PeriodicEvent::Started => PeriodicEventView::Started,
            PeriodicEvent::Woke => PeriodicEventView::Woke,
            PeriodicEvent::Replied(reply) => PeriodicEventView::Replied(reply@),
        }
    }
}

/// What the periodic synchronizer asks for.
#[derive(Clone, Debug, PartialEq, Eq)]
pub enum PeriodicAction {
    /// Sleep for so many seconds.
    Sleep(u64),
    /// Send the request and hand back what came of it.
    Send(HttpRequest),
}

/// What the contracts see of a [`PeriodicAction`]: its texts as sequences of characters.
pub enum PeriodicActionView {
    Sleep(u64),
    Send(HttpRequestView),
}

impl View for PeriodicAction {
    type V = PeriodicActionView;

    open spec fn view(&self) -> PeriodicActionView {
        match self {
            PeriodicAction::Sleep(seconds) => PeriodicActionView::Sleep(*seconds),
            PeriodicAction::Send(request) => PeriodicActionView::Send(request@),
        }
    }
}

/// One move of the periodic synchronizer: the lines to log, then what is due.
#[derive(Clone, Debug, PartialEq, Eq)]
pub struct PeriodicStep {
    pub log: Vec<LogEntry>,
    pub action: PeriodicAction,
}

/// What the contracts see of a [`PeriodicStep`]: its texts as sequences of characters.
pub struct PeriodicStepView {
    pub log: Seq<LogEntryView>,
    pub action: PeriodicActionView,
}

impl View for PeriodicStep {
    type V = PeriodicStepView;

    open spec fn view(&self) -> PeriodicStepView {
        PeriodicStepView { log: log_view(self.log@), action: self.action@ }
    }
}

/// Where the periodic synchronizer stands.
pub enum StageView {
    /// Not yet set going.
    Starting,
    /// Asleep between two rounds.
    Sleeping,
    /// In a round.
    Syncing(SyncRoundView),
}

/// The state of the periodic synchronizer, as the contracts see it.
pub struct PeriodicView {
    pub scope: SyncScope,
    pub stage: StageView,
}

/// What is logged when a round is over: its failure, if it failed, and its end.
pub open spec fn closing(result: Result<(), SyncError>) -> Seq<LogEntryView> {
    match result {
        Ok(_) => seq![line(LogLevel::Info, "[Periodic Sync] End."@)],
        Err(e) => seq![
            line(LogLevel::Error, "Periodic sync failed. "@ + sync_error_text(e)),
            line(LogLevel::Info, "[Periodic Sync] End."@),
        ],
    }
}

/// Takes a move of the round for the synchronizer's own: the round's request
/// is passed on; when the round is over, the synchronizer goes to sleep for
/// the configured interval, whether the round failed or not.
pub open spec fn carried_on(
    scope: SyncScope,
    config: ConfigurationView,
    round: SyncRoundView,
    step: RoundStepView,
    prefix: Seq<LogEntryView>,
) -> (PeriodicView, PeriodicStepView) {
    match step.action {
        RoundActionView::Send(request) => (
            PeriodicView { scope, stage: StageView::Syncing(round) },
            PeriodicStepView { log: prefix + step.log, action: PeriodicActionView::Send(request) },
        ),
        RoundActionView::Done(result) => (
            PeriodicView { scope, stage: StageView::Sleeping },
            PeriodicStepView {
                log: prefix + step.log + closing(result),
                action: PeriodicActionView::Sleep(sync_interval_of(config)),
            },
        ),
    }
}

/// The move that an event brings about. An event that the synchronizer does
/// not wait for brings about nothing.
pub open spec fn periodic_next(s: PeriodicView, config: ConfigurationView, event: PeriodicEventView) -> Option<
    (PeriodicView, PeriodicStepView),
> {
    match (s.stage, event) {
        (StageView::Starting, PeriodicEventView::Started) => Some(
            (
                PeriodicView { scope: s.scope, stage: StageView::Sleeping },
                PeriodicStepView { log: Seq::empty(), action: PeriodicActionView::Sleep(GRACE_SECONDS) },
            ),
        ),
        (StageView::Sleeping, PeriodicEventView::Woke) => {
            let (round, step) = round_started(config, s.scope);
            Some(carried_on(s.scope, config, round, step, seq![line(LogLevel::Info, "[Periodic Sync] Begin."@)]))
        },
        (StageView::Syncing(round), PeriodicEventView::Replied(reply)) => match round_next(round, reply) {
            Some((after, step)) => Some(carried_on(s.scope, config, after, step, Seq::empty())),
            None => None,
        },
        _ => None,
    }
}

/// Whether `event` tells what came of `action`.
pub open spec fn periodic_answers(action: PeriodicActionView, event: PeriodicEventView) -> bool {
    match action {
        PeriodicActionView::Sleep(_) => event is Woke,
        PeriodicActionView::Send(_) => event is Replied,
    }
}

/// The periodic synchronizer never ends and never stalls: set going, it makes
/// a move on every answer to what it asked for, whatever the configuration
/// and whatever came back.
pub proof fn lemma_periodic_goes_on(
    s: PeriodicView,
    config: ConfigurationView,
    event: PeriodicEventView,
    later: ConfigurationView,
    answer: PeriodicEventView,
)
    requires
        periodic_next(s, config, event) is Some,
        periodic_answers(periodic_next(s, config, event)->Some_0.1.action, answer),
    ensures
        periodic_next(periodic_next(s, config, event)->Some_0.0, later, answer) is Some,
{
}

/// A round that finds the peer settled sends nothing and goes to sleep: where
/// the peer holds what it held at an earlier round and what that round found
/// missing, and the local archive holds what it held, the synchronizer's move
/// on the peer's listing is to sleep for the configured interval.
pub proof fn lemma_settled_round_sleeps(
    s: PeriodicView,
    config: ConfigurationView,
    before: Seq<Seq<char>>,
    reply: HttpReplyView,
    after: Seq<Seq<char>>,
)
    requires
        s.stage matches StageView::Syncing(round) && round.phase is ListingPeer && (forall|id: Seq<char>|
            before.contains(id) || missing_on_peer(round.local_ids, before).contains(id) ==> after.contains(
                id,
            )),
        entities_of(reply) == Ok::<Seq<Seq<char>>, ClientError>(after),
    ensures
        periodic_next(s, config, PeriodicEventView::Replied(reply)) is Some,
        periodic_next(s, config, PeriodicEventView::Replied(reply))->Some_0.1.action
            == PeriodicActionView::Sleep(sync_interval_of(config)),
        periodic_next(s, config, PeriodicEventView::Replied(reply))->Some_0.0.stage is Sleeping,
{
    match s.stage {
        StageView::Syncing(round) => {
            lemma_settled_round_transfers_nothing(round, before, reply, after);
        },
        _ => {},
    }
}

enum Stage {
    Starting,
    Sleeping,
    Syncing(SyncRound),
}

/// The periodic synchronizer: a grace period, then round after round, asleep
/// in between. It never ends.
pub struct PeriodicSync {
    scope: SyncScope,
    stage: Stage,
}

impl View for PeriodicSync {
    type V = PeriodicView;

    closed spec fn view(&self) -> PeriodicView {
        PeriodicView {
            scope: self.scope,
            stage: match self.stage {
                Stage::Starting => StageView::Starting,
                Stage::Sleeping => StageView::Sleeping,
                Stage::Syncing(round) => StageView::Syncing(round@),
            },
        }
    }
}

fn close(result: Result<(), SyncError>, log: &mut Vec<LogEntry>)
    ensures
        log_view(final(log)@) == log_view(old(log)@) + closing(result),
{
    match result {
        Ok(_) => {},
        Err(e) => {
            let reason = describe_sync_error(e);
            let message = glue("Periodic sync failed. ", reason.as_str());
            let entry = error(message.as_str());
            proof {
                lemma_log_push(log@, entry);
            }
            log.push(entry);
        },
    }
    let entry = info("[Periodic Sync] End.");
    proof {
        lemma_log_push(log@, entry);
    }
    log.push(entry);
    assert(log_view(log@) =~= log_view(old(log)@) + closing(result));
}

fn append_log(log: &mut Vec<LogEntry>, more: Vec<LogEntry>)
    ensures
        log_view(final(log)@) == log_view(old(log)@) + log_view(more@),
{
    let mut more = more;
    let ghost added = more@;
    log.append(&mut more);
    proof {
        lemma_log_add(old(log)@, added);
    }
}

impl PeriodicSync {
    /// A synchronizer over `scope` that has not been set going.
    pub fn new(scope: SyncScope) -> (synchronizer: PeriodicSync)
        ensures
            synchronizer@ == (PeriodicView { scope, stage: StageView::Starting }),
    {
        PeriodicSync { scope, stage: Stage::Starting }
    }

    fn carry_on(
        scope: SyncScope,
        config: &Configuration,
        round: SyncRound,
        step: RoundStep,
        prefix: Vec<LogEntry>,
    ) -> (out: (PeriodicSync, PeriodicStep))
        ensures
            (out.0@, out.1@) == carried_on(scope, config@, round@, step@, log_view(prefix@)),
    {
        let mut log = prefix;
        append_log(&mut log, step.log);
        match step.action {
            RoundAction::Send(request) => (
                PeriodicSync { scope, stage: Stage::Syncing(round) },
                PeriodicStep { log, action: PeriodicAction::Send(request) },
            ),
            RoundAction::Done(result) => {
                close(result, &mut log);
                (
                    PeriodicSync { scope, stage: Stage::Sleeping },
                    PeriodicStep { log, action: PeriodicAction::Sleep(get_sync_interval(config)) },
                )
            },
        }
    }

    /// Makes the move that `event` brings about.
    ///
    /// An event that the synchronizer does not wait for leaves it as it is
    /// and gives no step.
    pub fn step(self, config: &Configuration, event: PeriodicEvent) -> (out: (PeriodicSync, Option<PeriodicStep>))
        ensures
            match periodic_next(self@, config@, event@) {
                Some((after, step)) => {
                    &&& out.0@ == after
                    &&& out.1 matches Some(made) && made@ == step
                },
                None => out.0@ == self@ && out.1 is None,
            },
    {
        let scope = self.scope;
        let mut log: Vec<LogEntry> = Vec::new();
        proof {
            lemma_log_empty();
        }
        match (self.stage, event) {
            (Stage::Starting, PeriodicEvent::Started) => (
                PeriodicSync { scope, stage: Stage::Sleeping },
                Some(PeriodicStep { log, action: PeriodicAction::Sleep(GRACE_SECONDS) }),
            ),
            (Stage::Sleeping, PeriodicEvent::Woke) => {
                let entry = info("[Periodic Sync] Begin.");
                proof {
                    lemma_log_push(log@, entry);
                }
                log.push(entry);
                let (round, step) = SyncRound::start(config, scope);
                let out = PeriodicSync::carry_on(scope, config, round, step, log);
                (out.0, Some(out.1))
            },
            (Stage::Syncing(round), PeriodicEvent::Replied(reply)) => {
                let (after, step) = round.step(&reply);
                match step {
                    Some(step) => {
                        let out = PeriodicSync::carry_on(scope, config, after, step, log);
                        (out.0, Some(out.1))
                    },
                    None => (PeriodicSync { scope, stage: Stage::Syncing(after) }, None),
                }
            },
            (stage, _) => (PeriodicSync { scope, stage }, None),
        }
    }
}

} // verus!
