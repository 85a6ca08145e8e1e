//! One poll of one game, step by step.
//!
//! A poll fetches the status document, loads the snapshot of the previous
//! poll, sends a message where the change calls for one, and stores the
//! document as the new snapshot. The library decides; the caller acts. A poll
//! starts with [`Poll::start`], which hands out the first [`Action`]. The
//! caller performs each action and reports its outcome as an [`Event`] to
//! [`Poll::step`], until the action is [`Action::Finish`].
//!
//! A message that could not be delivered does not keep the snapshot from being
//! stored: the poll stores it and then ends with the failure. A change is
//! thus announced at most once, and a lost message is not sent again at every
//! later poll.

use crate::decode::{is_game_changed, parse_game_state, parsed_state, snapshot_changed};
use crate::error::NotifyError;
use crate::message::{message, notification_message};
use crate::state::{GameState, GameStateView};
use vstd::prelude::*;

verus! {

/// What the caller has to do next.
#[derive(Debug)]
pub enum Action {
    /// Fetch the status document of the game.
    FetchState,
    /// Load the snapshot that the previous poll stored.
    LoadSnapshot,
    /// Send this message.
    Dispatch(String),
    /// Store these bytes as the snapshot, in place of the previous one.
    StoreSnapshot(Vec<u8>),
    /// The poll is over, with this outcome.
    Finish(Result<(), NotifyError>),
}

/// What the caller reports of the action that it has performed.
#[derive(Debug)]
pub enum Event {
    /// The bytes of the status document.
    Fetched(Vec<u8>),
    /// The bytes of the stored snapshot, or nothing where none is stored.
    SnapshotLoaded(Option<Vec<u8>>),
    /// The status code with which the webhook answered.
    Dispatched(u16),
    /// The snapshot is stored.
    Stored,
}

/// How far a poll has come.
#[derive(Debug)]
pub enum Stage {
    /// Waiting for the status document.
    AwaitingState,
    /// Waiting for the stored snapshot, with the document and its state.
    AwaitingSnapshot { raw: Vec<u8>, game: GameState },
    /// Waiting for the webhook's answer, with the document to store after it.
    AwaitingDispatch { raw: Vec<u8> },
    /// Waiting for the store, with the status of a dispatch that failed.
    AwaitingStore { failed: Option<u16> },
    /// Over.
    Finished,
}

/// A poll of one game.
#[derive(Debug)]
pub struct Poll {
    /// Whether messages are sent. Without a webhook they are only derived.
    pub notify: bool,
    pub stage: Stage,
}

/// An [`Action`] as a mathematical value.
pub ghost enum ActionView {
    FetchState,
    LoadSnapshot,
    Dispatch(Seq<char>),
    StoreSnapshot(Seq<u8>),
    Finish(Result<(), NotifyError>),
}

/// An [`Event`] as a mathematical value.
pub ghost enum EventView {
    Fetched(Seq<u8>),
    SnapshotLoaded(Option<Seq<u8>>),
    Dispatched(u16),
    Stored,
}

/// A [`Stage`] as a mathematical value.
pub ghost enum StageView {
    AwaitingState,
    AwaitingSnapshot { raw: Seq<u8>, game: GameStateView },
    AwaitingDispatch { raw: Seq<u8> },
    AwaitingStore { failed: Option<u16> },
    Finished,
}

/// A [`Poll`] as a mathematical value.
pub ghost struct PollView {
    pub notify: bool,
    pub stage: StageView,
}

impl View for Action {
    type V = ActionView;

    open spec fn view(&self) -> ActionView {
        match *self {
            Action::FetchState => ActionView::FetchState,
            Action::LoadSnapshot => ActionView::LoadSnapshot,
            Action::Dispatch(text) => ActionView::Dispatch(text@),
            Action::StoreSnapshot(raw) => ActionView::StoreSnapshot(raw@),
            Action::Finish(outcome) => ActionView::Finish(outcome),
        }
    }
}

impl View for Event {
    type V = EventView;

    open spec fn view(&self) -> EventView {
        match *self {
            Event::Fetched(raw) => EventView::Fetched(raw@),
            Event::SnapshotLoaded(Some(raw)) => EventView::SnapshotLoaded(Some(raw@)),
            Event::SnapshotLoaded(None) => EventView::SnapshotLoaded(None),
            Event::Dispatched(status) => EventView::Dispatched(status),
            Event::Stored => EventView::Stored,
        }
    }
}

impl View for Stage {
    type V = StageView;

    open spec fn view(&self) -> StageView {
        match *self {
            Stage::AwaitingState => StageView::AwaitingState,
            Stage::AwaitingSnapshot { raw, game } => StageView::AwaitingSnapshot {
                raw: raw@,
                game: game@,
            },
            Stage::AwaitingDispatch { raw } => StageView::AwaitingDispatch { raw: raw@ },
            Stage::AwaitingStore { failed } => StageView::AwaitingStore { failed },
            Stage::Finished => StageView::Finished,
        }
    }
}

impl View for Poll {
    type V = PollView;

    open spec fn view(&self) -> PollView {
        PollView { notify: self.notify, stage: self.stage@ }
    }
}

/// Whether a status code says that the webhook took the message: the codes
/// from 200 to 299.
pub open spec fn delivered(status: u16) -> bool {
    200 <= status < 300
}

/// The end of a poll, with its outcome.
pub open spec fn finish(poll: PollView, outcome: Result<(), NotifyError>) -> (PollView, ActionView) {
    (PollView { stage: StageView::Finished, ..poll }, ActionView::Finish(outcome))
}

/// What follows the snapshot: the end where nothing has changed or the state
/// is contradictory; a dispatch where the change calls for a message and
/// messages are sent; and else the store of the new snapshot.
pub open spec fn after_snapshot(
    poll: PollView,
    raw: Seq<u8>,
    game: GameStateView,
    snapshot: Option<Seq<u8>>,
) -> (PollView, ActionView) {
    match snapshot_changed(snapshot, game) {
        Err(e) => finish(poll, Err(e)),
        Ok(false) => finish(poll, Ok(())),
        Ok(true) => match message(game) {
            Err(e) => finish(poll, Err(e)),
            Ok(Some(text)) if poll.notify => (
                PollView { stage: StageView::AwaitingDispatch { raw }, ..poll },
                ActionView::Dispatch(text),
            ),
            Ok(_) => (
                PollView { stage: StageView::AwaitingStore { failed: None }, ..poll },
                ActionView::StoreSnapshot(raw),
            ),
        },
    }
}

/// The stage and the action that follow an event.
///
/// An event that the stage was not waiting for ends the poll with
/// [`NotifyError::UnexpectedEvent`].
pub open spec fn next(poll: PollView, event: EventView) -> (PollView, ActionView) {
    match (poll.stage, event) {
        (StageView::AwaitingState, EventView::Fetched(raw)) => match parsed_state(raw) {
            Ok(game) => (
                PollView { stage: StageView::AwaitingSnapshot { raw, game }, ..poll },
                ActionView::LoadSnapshot,
            ),
            Err(e) => finish(poll, Err(e)),
        },
        (
            StageView::AwaitingSnapshot { raw, game },
            EventView::SnapshotLoaded(snapshot),
        ) => after_snapshot(poll, raw, game, snapshot),
        (StageView::AwaitingDispatch { raw }, EventView::Dispatched(status)) => (
            PollView {
                stage: StageView::AwaitingStore {
                    failed: if delivered(status) {
                        None
                    } else {
                        Some(status)
                    },
                },
                ..poll
            },
            ActionView::StoreSnapshot(raw),
        ),
        (StageView::AwaitingStore { failed }, EventView::Stored) => finish(
            poll,
            match failed {
                None => Ok(()),
                Some(status) => Err(NotifyError::DispatchFailure { status }),
            },
        ),
        _ => finish(poll, Err(NotifyError::UnexpectedEvent)),
    }
}

/// Whether a poll is consistent: the state that it holds while it waits for
/// the snapshot is the state of the document that it holds.
pub open spec fn well_formed(poll: PollView) -> bool {
    match poll.stage {
        StageView::AwaitingSnapshot { raw, game } => parsed_state(raw) == Ok::<
            GameStateView,
            NotifyError,
        >(game),
        _ => true,
    }
}

/// Whether a status code says that the webhook took the message.
pub fn is_delivered(status: u16) -> (r: bool)
    ensures
        r == delivered(status),
{
    200 <= status && status < 300
}

impl Poll {
    /// Whether the poll is one that [`Poll::start`] and [`Poll::step`] lead
    /// to.
    pub open spec fn wf(&self) -> bool {
        well_formed(self@)
    }

    /// Starts a poll. `notify` says whether messages are to be sent.
    pub fn start(notify: bool) -> (r: (Poll, Action))
        ensures
            r.0@ == (PollView { notify, stage: StageView::AwaitingState }),
            r.1@ == ActionView::FetchState,
            r.0.wf(),
    {
        (Poll { notify, stage: Stage::AwaitingState }, Action::FetchState)
    }

    /// A poll that is over, with its outcome.
    fn end(notify: bool, outcome: Result<(), NotifyError>) -> (r: (Poll, Action))
        ensures
            r.0@ == (PollView { notify, stage: StageView::Finished }),
            r.1@ == ActionView::Finish(outcome),
    {
        (Poll { notify, stage: Stage::Finished }, Action::Finish(outcome))
    }

    /// A poll that waits for the store of `raw`.
    fn store(notify: bool, raw: Vec<u8>, failed: Option<u16>) -> (r: (Poll, Action))
        ensures
            r.0@ == (PollView { notify, stage: StageView::AwaitingStore { failed } }),
            r.1@ == ActionView::StoreSnapshot(raw@),
    {
        (Poll { notify, stage: Stage::AwaitingStore { failed } }, Action::StoreSnapshot(raw))
    }

    /// Takes the outcome of the last action and says what to do next.
    ///
    /// The result is the poll to continue with and the action to perform. An
    /// event that the poll was not waiting for ends it with
    /// [`NotifyError::UnexpectedEvent`].
    pub fn step(self, event: Event) -> (r: (Poll, Action))
        ensures
            (r.0@, r.1@) == next(self@, event@),
            r.0.wf(),
    {
        let notify = self.notify;
        match (self.stage, event) {
            (Stage::AwaitingState, Event::Fetched(raw)) => {
                match parse_game_state(raw.as_slice()) {
                    Ok(game) => (
                        Poll { notify, stage: Stage::AwaitingSnapshot { raw, game } },
                        Action::LoadSnapshot,
                    ),
                    Err(e) => Poll::end(notify, Err(e)),
                }
            },
            (Stage::AwaitingSnapshot { raw, game }, Event::SnapshotLoaded(snapshot)) => {
                let seen = match &snapshot {
                    Some(bytes) => is_game_changed(Some(bytes.as_slice()), &game),
                    None => is_game_changed(None, &game),
                };
                match seen {
                    Err(e) => Poll::end(notify, Err(e)),
                    Ok(false) => Poll::end(notify, Ok(())),
                    Ok(true) => match notification_message(&game) {
                        Err(e) => Poll::end(notify, Err(e)),
                        Ok(Some(text)) => {
                            if notify {
                                (
                                    Poll { notify, stage: Stage::AwaitingDispatch { raw } },
                                    Action::Dispatch(text),
                                )
                            } else {
                                Poll::store(notify, raw, None)
                            }
                        },
                        Ok(None) => Poll::store(notify, raw, None),
                    },
                }
            },
            (Stage::AwaitingDispatch { raw }, Event::Dispatched(status)) => {
                if is_delivered(status) {
                    Poll::store(notify, raw, None)
                } else {
                    Poll::store(notify, raw, Some(status))
                }
            },
            (Stage::AwaitingStore { failed }, Event::Stored) => {
                match failed {
                    None => Poll::end(notify, Ok(())),
                    Some(status) => Poll::end(notify, Err(NotifyError::DispatchFailure { status })),
                }
            },
            _ => Poll::end(notify, Err(NotifyError::UnexpectedEvent)),
        }
    }
}

/// Every step leads from a consistent poll to a consistent poll.
pub proof fn lemma_step_keeps_well_formed(poll: PollView, event: EventView)
    requires
        well_formed(poll),
    ensures
        well_formed(next(poll, event).0),
{
}

/// A poll that finds its own document as the snapshot ends there, with
/// nothing sent and nothing stored.
pub proof fn lemma_same_snapshot_ends_the_poll(poll: PollView, raw: Seq<u8>, game: GameStateView)
    requires
        well_formed(poll),
        poll.stage == (StageView::AwaitingSnapshot { raw, game }),
    ensures
        next(poll, EventView::SnapshotLoaded(Some(raw))) == finish(poll, Ok(())),
{
}

/// A message is sent only where messages are to be sent, and it is the
/// message that the fetched state calls for.
pub proof fn lemma_dispatch_sends_the_message(poll: PollView, event: EventView, text: Seq<char>)
    requires
        next(poll, event).1 == ActionView::Dispatch(text),
    ensures
        poll.notify,
        poll.stage is AwaitingSnapshot,
        message(poll.stage->AwaitingSnapshot_game) == Ok::<Option<Seq<char>>, NotifyError>(
            Some(text),
        ),
{
}

/// A failed dispatch is reported when the snapshot is stored, and not
/// before.
pub proof fn lemma_failed_dispatch_is_stored_then_reported(
    poll: PollView,
    raw: Seq<u8>,
    status: u16,
)
    requires
        poll.stage == (StageView::AwaitingDispatch { raw }),
        !delivered(status),
    ensures
        next(poll, EventView::Dispatched(status)).1 == ActionView::StoreSnapshot(raw),
        next(next(poll, EventView::Dispatched(status)).0, EventView::Stored).1
            == ActionView::Finish(Err(NotifyError::DispatchFailure { status })),
{
}

} // verus!
