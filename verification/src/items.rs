//! Processing the candidates of a worklist query, one after another.
//!
//! For each candidate the host builds the native object in a fresh buffer,
//! matches it against the query, adds it to the answers where it matches, and
//! releases the buffer. The loop says which of the host's services is due and
//! is told what came of it.

use vstd::prelude::*;
use crate::host::{
    error, lemma_log_empty, lemma_log_push, line, log_view, HostService, LogEntry, LogEntryView,
    LogLevel, STATUS_SUCCESS,
};

verus! {

/// Where the loop stands: what it waits for.
#[derive(Clone, Copy, Debug, PartialEq, Eq, Structural)]
pub enum ItemPhase {
    /// The host to build the native object of the current item.
    Converting,
    /// The host to match the current item against the query.
    Matching,
    /// The host to add the current item to the answers.
    Emitting,
    /// The host to release the buffer of the current item.
    Releasing,
    /// Nothing: every item is processed.
    Done,
}

/// What the loop is told.
#[derive(Clone, Copy, Debug, PartialEq, Eq, Structural)]
pub enum ItemEvent {
    /// Whether the host built the native object.
    Created(bool),
    /// Whether the native object matches the query.
    Matched(bool),
    /// The host has added the native object to the answers.
    Added,
    /// The host has released the buffer.
    Released,
}

impl ItemEvent {
    /// What the status of the host's object-building service says: the
    /// object is built where the status is that of success.
    pub fn created(status: i32) -> (event: ItemEvent)
        ensures
            event == ItemEvent::Created(status == STATUS_SUCCESS),
    {
        ItemEvent::Created(status == STATUS_SUCCESS)
    }

    /// What the flag of the host's matching service says: the object matches
    /// where the flag is not zero.
    pub fn matched(flag: i32) -> (event: ItemEvent)
        ensures
            event == ItemEvent::Matched(flag != 0),
    {
        ItemEvent::Matched(flag != 0)
    }
}

/// The private creator under which the host files the tags of a native
/// object that its dictionary does not hold.
pub fn private_creator() -> (creator: &'static str)
    ensures
        creator@ == "vara"@,
{
    "vara"
}

/// A call of the host on the current item.
#[derive(Clone, Debug, PartialEq, Eq)]
pub enum HostCall {
    /// Build the native object of this text, in a fresh buffer.
    CreateNativeObject(String),
    /// Match the native object against the query.
    MatchQuery,
    /// Add the native object to the answers.
    AddAnswer,
    /// Release the buffer.
    FreeBuffer,
}

/// What the contracts see of a [`HostCall`]: its texts as sequences of characters.
pub enum HostCallView {
    CreateNativeObject(Seq<char>),
    MatchQuery,
    AddAnswer,
    FreeBuffer,
}

impl View for HostCall {
    type V = HostCallView;

    open spec fn view(&self) -> HostCallView {
        match self {
            HostCall::CreateNativeObject(text) => HostCallView::CreateNativeObject(text@),
            HostCall::MatchQuery => HostCallView::MatchQuery,
            HostCall::AddAnswer => HostCallView::AddAnswer,
            HostCall::FreeBuffer => HostCallView::FreeBuffer,
        }
    }
}

/// The host service that carries a call out, where it is one: a buffer is
/// released by the host's own release function.
pub open spec fn service_for(call: HostCallView) -> Option<HostService> {
    match call {
        HostCallView::CreateNativeObject(_) => Some(HostService::CreateDicom2),
        HostCallView::MatchQuery => Some(HostService::WorklistIsMatch),
        HostCallView::AddAnswer => Some(HostService::WorklistAddAnswer),
        HostCallView::FreeBuffer => None,
    }
}

/// Whether `event` tells what came of `call`.
pub open spec fn answers(call: HostCallView, event: ItemEvent) -> bool {
    match call {
        HostCallView::CreateNativeObject(_) => event is Created,
        HostCallView::MatchQuery => event is Matched,
        HostCallView::AddAnswer => event is Added,
        HostCallView::FreeBuffer => event is Released,
    }
}

impl HostCall {
    /// The host service that carries the call out, where it is one.
    pub fn service(&self) -> (service: Option<HostService>)
        ensures
            service == service_for(self@),
    {
        match self {
            HostCall::CreateNativeObject(_) => Some(HostService::CreateDicom2),
            HostCall::MatchQuery => Some(HostService::WorklistIsMatch),
            HostCall::AddAnswer => Some(HostService::WorklistAddAnswer),
            HostCall::FreeBuffer => None,
        }
    }
}

/// What the loop asks for.
#[derive(Clone, Debug, PartialEq, Eq)]
pub enum ItemAction {
    /// Call the host.
    Call(HostCall),
    /// Nothing more: every item is processed.
    Done,
}

/// What the contracts see of an [`ItemAction`]: its texts as sequences of characters.
pub enum ItemActionView {
    Call(HostCallView),
    Done,
}

impl View for ItemAction {
    type V = ItemActionView;

    open spec fn view(&self) -> ItemActionView {
        match self {
            ItemAction::Call(call) => ItemActionView::Call(call@),
            ItemAction::Done => ItemActionView::Done,
        }
    }
}

/// One move of the loop: the lines to log, then what is due.
#[derive(Clone, Debug, PartialEq, Eq)]
pub struct ItemStep {
    pub log: Vec<LogEntry>,
    pub action: ItemAction,
}

/// What the contracts see of an [`ItemStep`]: its texts as sequences of characters.
pub struct ItemStepView {
    pub log: Seq<LogEntryView>,
    pub action: ItemActionView,
}

impl View for ItemStep {
    type V = ItemStepView;

    open spec fn view(&self) -> ItemStepView {
        ItemStepView { log: log_view(self.log@), action: self.action@ }
    }
}

/// The state of the loop, as the contracts see it.
pub struct ItemLoopView {
    pub phase: ItemPhase,
    /// The texts of the items, in the order of the response.
    pub items: Seq<Seq<char>>,
    /// The index of the item that is being processed.
    pub item: int,
}

impl ItemLoopView {
    /// A buffer is held from the moment the host is asked to build the native
    /// object until it is asked to release it.
    pub open spec fn holds_buffer(self) -> bool {
        self.phase is Converting || self.phase is Matching || self.phase is Emitting
    }

    /// The index points at the item that the phase speaks of, and past the
    /// last one when all are processed.
    pub open spec fn wf(self) -> bool {
        if self.phase is Done {
            self.item == self.items.len()
        } else {
            0 <= self.item < self.items.len()
        }
    }

    /// How many items the host has been asked to build so far.
    pub open spec fn begun(self) -> int {
        if self.phase is Done {
            self.item
        } else {
            self.item + 1
        }
    }
}

/// Turns to the item at `item`: the host is asked to build its native object,
/// or, past the last item, the loop is done.
pub open spec fn turned_to(items: Seq<Seq<char>>, item: int) -> (ItemLoopView, ItemStepView) {
    if 0 <= item < items.len() {
        (
            ItemLoopView { phase: ItemPhase::Converting, items, item },
            ItemStepView {
                log: Seq::empty(),
                action: ItemActionView::Call(HostCallView::CreateNativeObject(items[item])),
            },
        )
    } else {
        (
            ItemLoopView { phase: ItemPhase::Done, items, item: items.len() as int },
            ItemStepView { log: Seq::empty(), action: ItemActionView::Done },
        )
    }
}

/// The loop at its start, with its first move.
pub open spec fn items_started(items: Seq<Seq<char>>) -> (ItemLoopView, ItemStepView) {
    turned_to(items, 0)
}

/// The loop in another phase, asking for `call` after `log`.
pub open spec fn moved(s: ItemLoopView, phase: ItemPhase, log: Seq<LogEntryView>, call: HostCallView) -> (
    ItemLoopView,
    ItemStepView,
) {
    (ItemLoopView { phase, ..s }, ItemStepView { log, action: ItemActionView::Call(call) })
}

/// The move that an event brings about. An event that the phase does not wait
/// for brings about nothing.
///
/// An object that cannot be built is logged and skipped; one that does not
/// match is passed over. Either way its buffer is released before the next
/// item is turned to.
pub open spec fn item_next(s: ItemLoopView, event: ItemEvent) -> Option<(ItemLoopView, ItemStepView)> {
    match (s.phase, event) {
        (ItemPhase::Converting, ItemEvent::Created(done)) => if done {
            Some(moved(s, ItemPhase::Matching, Seq::empty(), HostCallView::MatchQuery))
        } else {
            Some(
                moved(
                    s,
                    ItemPhase::Releasing,
                    seq![line(LogLevel::Error, "Failed to convert a worklist item; it is skipped"@)],
                    HostCallView::FreeBuffer,
                ),
            )
        },
        (ItemPhase::Matching, ItemEvent::Matched(matches)) => if matches {
            Some(moved(s, ItemPhase::Emitting, Seq::empty(), HostCallView::AddAnswer))
        } else {
            Some(moved(s, ItemPhase::Releasing, Seq::empty(), HostCallView::FreeBuffer))
        },
        (ItemPhase::Emitting, ItemEvent::Added) => Some(
            moved(s, ItemPhase::Releasing, Seq::empty(), HostCallView::FreeBuffer),
        ),
        (ItemPhase::Releasing, ItemEvent::Released) => Some(turned_to(s.items, s.item + 1)),
        _ => None,
    }
}

/// Where the loop over `items` stands after a series of events, and what it
/// has asked for from its start, in order.
pub open spec fn item_run(items: Seq<Seq<char>>, events: Seq<ItemEvent>) -> (ItemLoopView, Seq<ItemActionView>)
    decreases events.len(),
{
    if events.len() == 0 {
        (items_started(items).0, seq![items_started(items).1.action])
    } else {
        let (before, actions) = item_run(items, events.drop_last());
        match item_next(before, events.last()) {
            Some((after, step)) => (after, actions.push(step.action)),
            None => (before, actions),
        }
    }
}

/// The texts of the objects that the actions have the host build, in order.
pub open spec fn built(actions: Seq<ItemActionView>) -> Seq<Seq<char>>
    decreases actions.len(),
{
    if actions.len() == 0 {
        Seq::empty()
    } else {
        match actions.last() {
            ItemActionView::Call(HostCallView::CreateNativeObject(text)) => built(actions.drop_last()).push(text),
            _ => built(actions.drop_last()),
        }
    }
}

/// How many times the actions have the host release a buffer.
pub open spec fn released(actions: Seq<ItemActionView>) -> nat
    decreases actions.len(),
{
    if actions.len() == 0 {
        0
    } else {
        released(actions.drop_last()) + if actions.last() == ItemActionView::Call(HostCallView::FreeBuffer) {
            1nat
        } else {
            0nat
        }
    }
}

/// How many answers the actions have the host add.
pub open spec fn answered(actions: Seq<ItemActionView>) -> nat
    decreases actions.len(),
{
    if actions.len() == 0 {
        0
    } else {
        answered(actions.drop_last()) + if actions.last() == ItemActionView::Call(HostCallView::AddAnswer) {
            1nat
        } else {
            0nat
        }
    }
}

/// One for a held buffer, zero for none.
pub open spec fn held(s: ItemLoopView) -> nat {
    if s.holds_buffer() {
        1
    } else {
        0
    }
}

/// One for an item whose match is still open, zero once it is decided.
pub open spec fn undecided(s: ItemLoopView) -> nat {
    if s.phase is Converting || s.phase is Matching {
        1
    } else {
        0
    }
}

/// A move keeps the state well formed and takes the answer to what it asks
/// for. It has a buffer created only when none is held, released only when
/// one is held, used only while it is held; and the loop is never done with a
/// buffer in hand.
pub proof fn lemma_item_move(s: ItemLoopView, event: ItemEvent, answer: ItemEvent)
    requires
        s.wf(),
        item_next(s, event) is Some,
    ensures
        ({
            let (after, step) = item_next(s, event)->Some_0;
            &&& after.wf()
            &&& after.items == s.items
            &&& step.action is Done <==> after.phase is Done
            &&& step.action matches ItemActionView::Call(call) ==> {
                &&& answers(call, answer) ==> item_next(after, answer) is Some
                &&& call is CreateNativeObject ==> !s.holds_buffer() && after.holds_buffer()
                &&& call is FreeBuffer ==> s.holds_buffer() && !after.holds_buffer()
                &&& call is MatchQuery || call is AddAnswer ==> s.holds_buffer() && after.holds_buffer()
            }
            &&& step.action is Done ==> !s.holds_buffer() && !after.holds_buffer()
        }),
{
}

/// Every item is built once, in the order of the response, and every buffer
/// is released once, whatever the host answers.
///
/// After any series of events the host has been asked to build the items up
/// to the current one, each once and in order; the releases asked for are as
/// many as the buffers built, less the one that is held at that moment; and
/// at most one answer is added for each item, and none before its match is
/// decided. When the loop is done, every item has been built and every buffer
/// released.
pub proof fn lemma_items_built_and_released_once(items: Seq<Seq<char>>, events: Seq<ItemEvent>)
    ensures
        item_run(items, events).0.wf(),
        item_run(items, events).0.items == items,
        built(item_run(items, events).1) == items.take(item_run(items, events).0.begun()),
        built(item_run(items, events).1).len() == released(item_run(items, events).1) + held(
            item_run(items, events).0,
        ),
        answered(item_run(items, events).1) + undecided(item_run(items, events).0) <= built(
            item_run(items, events).1,
        ).len(),
        item_run(items, events).0.phase is Done ==> built(item_run(items, events).1) == items && released(
            item_run(items, events).1,
        ) == items.len(),
    decreases events.len(),
{
    let (s, actions) = item_run(items, events);
    if events.len() == 0 {
        let first = items_started(items).1.action;
        assert(actions.drop_last() =~= Seq::empty());
        assert(built(actions.drop_last()) =~= Seq::empty());
        assert(built(actions) =~= items.take(s.begun()));
        assert(released(actions.drop_last()) == 0);
        assert(answered(actions.drop_last()) == 0);
    } else {
        lemma_items_built_and_released_once(items, events.drop_last());
        let (before, earlier) = item_run(items, events.drop_last());
        if item_next(before, events.last()) is Some {
            lemma_item_move(before, events.last(), events.last());
            let (after, step) = item_next(before, events.last())->Some_0;
            assert(actions.drop_last() =~= earlier);
            assert(built(actions) =~= items.take(after.begun()));
        }
    }
    if s.phase is Done {
        assert(items.take(s.begun()) =~= items);
    }
}

/// The loop over the candidates of one response.
pub struct ItemLoop {
    phase: ItemPhase,
    items: Vec<String>,
    item: usize,
}

impl View for ItemLoop {
    type V = ItemLoopView;

    closed spec fn view(&self) -> ItemLoopView {
        ItemLoopView { phase: self.phase, items: self.items.deep_view(), item: self.item as int }
    }
}

impl ItemLoop {
    #[verifier::type_invariant]
    closed spec fn well_formed(&self) -> bool {
        self@.wf()
    }

    /// Whether every item is processed.
    pub fn is_done(&self) -> (done: bool)
        ensures
            done == (self@.phase is Done),
    {
        match self.phase {
            ItemPhase::Done => true,
            _ => false,
        }
    }

    /// Whether a buffer of the host is held.
    pub fn holds_buffer(&self) -> (held: bool)
        ensures
            held == self@.holds_buffer(),
    {
        match self.phase {
            ItemPhase::Converting => true,
            ItemPhase::Matching => true,
            ItemPhase::Emitting => true,
            _ => false,
        }
    }

    fn turn_to(items: Vec<String>, item: usize) -> (out: (ItemLoop, ItemStep))
        requires
            item <= items.len(),
        ensures
            (out.0@, out.1@) == turned_to(items.deep_view(), item as int),
    {
        let log: Vec<LogEntry> = Vec::new();
        proof {
            lemma_log_empty();
        }
        if item < items.len() {
            let text = items[item].clone();
            assert(items.deep_view()[item as int] == items[item as int]@);
            (
                ItemLoop { phase: ItemPhase::Converting, items, item },
                ItemStep { log, action: ItemAction::Call(HostCall::CreateNativeObject(text)) },
            )
        } else {
            (ItemLoop { phase: ItemPhase::Done, items, item }, ItemStep { log, action: ItemAction::Done })
        }
    }

    /// Starts the loop over `items`.
    pub fn start(items: Vec<String>) -> (out: (ItemLoop, ItemStep))
        ensures
            (out.0@, out.1@) == items_started(items.deep_view()),
    {
        ItemLoop::turn_to(items, 0)
    }

    fn go(self, phase: ItemPhase, log: Vec<LogEntry>, call: HostCall) -> (out: (ItemLoop, Option<ItemStep>))
        requires
            !(self@.phase is Done),
            !(phase is Done),
        ensures
            out.0@ == moved(self@, phase, log_view(log@), call@).0,
            out.1 matches Some(step) && step@ == moved(self@, phase, log_view(log@), call@).1,
    {
        proof {
            use_type_invariant(&self);
        }
        (
            ItemLoop { phase, items: self.items, item: self.item },
            Some(ItemStep { log, action: ItemAction::Call(call) }),
        )
    }

    /// Makes the move that `event` brings about.
    ///
    /// An event that the loop does not wait for leaves it as it is and gives
    /// no step.
    pub fn step(self, event: ItemEvent) -> (out: (ItemLoop, Option<ItemStep>))
        ensures
            match item_next(self@, event) {
                Some((after, step)) => {
                    &&& out.0@ == after
                    &&& out.1 matches Some(made) && made@ == step
                },
                None => out.0@ == self@ && out.1 is None,
            },
    {
        proof {
            use_type_invariant(&self);
            lemma_log_empty();
        }
        let mut log: Vec<LogEntry> = Vec::new();
        match (self.phase, event) {
            (ItemPhase::Converting, ItemEvent::Created(done)) => {
                if done {
                    self.go(ItemPhase::Matching, log, HostCall::MatchQuery)
                } else {
                    let entry = error("Failed to convert a worklist item; it is skipped");
                    proof {
                        lemma_log_push(log@, entry);
                    }
                    log.push(entry);
                    self.go(ItemPhase::Releasing, log, HostCall::FreeBuffer)
                }
            },
            (ItemPhase::Matching, ItemEvent::Matched(matches)) => {
                if matches {
                    self.go(ItemPhase::Emitting, log, HostCall::AddAnswer)
                } else {
                    self.go(ItemPhase::Releasing, log, HostCall::FreeBuffer)
                }
            },
            (ItemPhase::Emitting, ItemEvent::Added) => self.go(ItemPhase::Releasing, log, HostCall::FreeBuffer),
            (ItemPhase::Releasing, ItemEvent::Released) => {
                assert(self.item < self.items.len()) by {
                    assert(self@.item < self@.items.len());
                    assert(self.items.deep_view().len() == self.items.len());
                }
                let out = ItemLoop::turn_to(self.items, self.item + 1);
                (out.0, Some(out.1))
            },
            _ => (self, None),
        }
    }
}

} // verus!
