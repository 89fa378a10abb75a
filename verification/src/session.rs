//! One edit session: which operation may run when, the steps of loading
//! and saving on either side of the save-tree codec, and what the editor
//! is told.

use crate::container::{finish_decode, spec_finish_decode, DecodedDocument};
use crate::error::{
    outcome, spec_decode_failure, spec_encode_failure, spec_raw, FormatError, FormatFailure,
};
use crate::header::SaveType;
use crate::tree::{document_to_tree, json_tree, tree_json, tree_to_document};
use vstd::prelude::*;
use vstd::string::*;

verus! {

/// Where a session stands.
#[derive(Clone, Copy, Debug, PartialEq, Eq, Structural)]
pub enum SessionState {
    /// No file was loaded yet.
    Unloaded,
    /// A load is running.
    Loading,
    /// A document is there to be edited and saved.
    Loaded,
    /// The last load failed. Another load may follow.
    LoadFailed,
    /// A save is running.
    Saving,
    /// The last save failed. The document is still there, and the save may
    /// be tried again.
    SaveFailed,
}

/// What happens to a session.
#[derive(Clone, Copy, Debug, PartialEq, Eq, Structural)]
pub enum SessionEvent {
    LoadRequested,
    LoadSucceeded,
    LoadFailed,
    SaveRequested,
    SaveSucceeded,
    SaveFailed,
}

impl SessionState {
    /// An operation is in flight.
    pub open spec fn busy(self) -> bool {
        self == SessionState::Loading || self == SessionState::Saving
    }

    /// The session holds a document.
    pub open spec fn has_document(self) -> bool {
        self == SessionState::Loaded || self == SessionState::Saving || self
            == SessionState::SaveFailed
    }

    /// The state after an event, or `None` where the event has no place in
    /// the state.
    ///
    /// A load may be asked for whenever nothing is in flight, a save
    /// whenever a document is there and nothing is in flight. An operation
    /// in flight ends in its success or its failure, and in nothing else.
    pub open spec fn spec_next(self, event: SessionEvent) -> Option<SessionState> {
        match event {
            SessionEvent::LoadRequested => if self.busy() {
                None
            } else {
                Some(SessionState::Loading)
            },
            SessionEvent::SaveRequested => if self.has_document() && !self.busy() {
                Some(SessionState::Saving)
            } else {
                None
            },
            SessionEvent::LoadSucceeded => if self == SessionState::Loading {
                Some(SessionState::Loaded)
            } else {
                None
            },
            SessionEvent::LoadFailed => if self == SessionState::Loading {
                Some(SessionState::LoadFailed)
            } else {
                None
            },
            SessionEvent::SaveSucceeded => if self == SessionState::Saving {
                Some(SessionState::Loaded)
            } else {
                None
            },
            SessionEvent::SaveFailed => if self == SessionState::Saving {
                Some(SessionState::SaveFailed)
            } else {
                None
            },
        }
    }

    pub fn is_busy(self) -> (b: bool)
        ensures
            b == self.busy(),
    {
        match self {
            SessionState::Loading => true,
            SessionState::Saving => true,
            _ => false,
        }
    }

    pub fn holds_document(self) -> (b: bool)
        ensures
            b == self.has_document(),
    {
        match self {
            SessionState::Loaded => true,
            SessionState::Saving => true,
            SessionState::SaveFailed => true,
            _ => false,
        }
    }

    /// Takes an event: the next state, or `None` where the event is
    /// refused and the state stays.
    pub fn next(self, event: SessionEvent) -> (r: Option<SessionState>)
        ensures
            r == self.spec_next(event),
    {
        match event {
            SessionEvent::LoadRequested => if self.is_busy() {
                None
            } else {
                Some(SessionState::Loading)
            },
            SessionEvent::SaveRequested => if self.holds_document() && !self.is_busy() {
                Some(SessionState::Saving)
            } else {
                None
            },
            SessionEvent::LoadSucceeded => match self {
                SessionState::Loading => Some(SessionState::Loaded),
                _ => None,
            },
            SessionEvent::LoadFailed => match self {
                SessionState::Loading => Some(SessionState::LoadFailed),
                _ => None,
            },
            SessionEvent::SaveSucceeded => match self {
                SessionState::Saving => Some(SessionState::Loaded),
                _ => None,
            },
            SessionEvent::SaveFailed => match self {
                SessionState::Saving => Some(SessionState::SaveFailed),
                _ => None,
            },
        }
    }
}

/// The state that a run of events leads to from a state, or `None` if one
/// of them was refused.
pub open spec fn spec_run(state: SessionState, events: Seq<SessionEvent>) -> Option<SessionState>
    decreases events.len(),
{
    if events.len() == 0 {
        Some(state)
    } else {
        match spec_run(state, events.drop_last()) {
            None => None,
            Some(before) => before.spec_next(events.last()),
        }
    }
}

/// While an operation is in flight no other can start: the session takes
/// only that operation's outcome.
pub proof fn lemma_one_operation_in_flight(state: SessionState, event: SessionEvent)
    requires
        state.busy(),
    ensures
        event == SessionEvent::LoadRequested || event == SessionEvent::SaveRequested
            ==> state.spec_next(event) is None,
        state.spec_next(event) is Some ==> !state.spec_next(event)->Some_0.busy(),
{
}

/// A failure ends the operation, not the session: after a failed load a
/// load can start, after a failed save the save can start again.
pub proof fn lemma_retry_after_failure()
    ensures
        SessionState::LoadFailed.spec_next(SessionEvent::LoadRequested) == Some(
            SessionState::Loading,
        ),
        SessionState::SaveFailed.spec_next(SessionEvent::SaveRequested) == Some(
            SessionState::Saving,
        ),
        SessionState::SaveFailed.spec_next(SessionEvent::LoadRequested) == Some(
            SessionState::Loading,
        ),
{
}

/// A session that starts unloaded holds a document in the states `Loaded`,
/// `Saving` and `SaveFailed` only after a load has succeeded: whatever the
/// events, a save never runs on a session that never loaded.
pub proof fn lemma_no_save_before_load(events: Seq<SessionEvent>)
    requires
        spec_run(SessionState::Unloaded, events) is Some,
        spec_run(SessionState::Unloaded, events)->Some_0.has_document(),
    ensures
        events.contains(SessionEvent::LoadSucceeded),
    decreases events.len(),
{
    if events.len() > 0 {
        let front = events.drop_last();
        let before = spec_run(SessionState::Unloaded, front)->Some_0;
        if events.last() == SessionEvent::LoadSucceeded {
            assert(events[events.len() - 1] == SessionEvent::LoadSucceeded);
        } else {
            assert(before.has_document());
            lemma_no_save_before_load(front);
            let i = choose|i: int| 0 <= i < front.len() && front[i] == SessionEvent::LoadSucceeded;
            assert(events[i] == SessionEvent::LoadSucceeded);
        }
    }
}

/// What the editor is told while and after an operation runs.
#[derive(Debug, PartialEq, Eq)]
pub enum Notification {
    /// Progress: an operation has started.
    Status(String),
    /// A load succeeded: the document in JSON and the save type's byte.
    Loaded(String, u8),
    /// An operation failed: the message to show.
    Failed(String),
}

/// The mathematical value of a [`Notification`].
pub ghost enum NotificationView {
    Status(Seq<char>),
    Loaded(Seq<char>, u8),
    Failed(Seq<char>),
}

impl View for Notification {
    type V = NotificationView;

    open spec fn view(&self) -> NotificationView {
        match *self {
            Notification::Status(text) => NotificationView::Status(text@),
            Notification::Loaded(document, save_type) => NotificationView::Loaded(
                document@,
                save_type,
            ),
            Notification::Failed(text) => NotificationView::Failed(text@),
        }
    }
}

/// A result of document and save type with the text and the error taken
/// by their views.
pub open spec fn load_outcome(r: Result<(String, u8), FormatError>) -> Result<
    (Seq<char>, u8),
    FormatFailure,
> {
    match r {
        Ok((document, save_type)) => Ok((document@, save_type)),
        Err(e) => Err(e@),
    }
}

/// The JSON text of a decoded document, with the byte of its save type.
pub open spec fn spec_document_text(document: DecodedDocument) -> Result<
    (Seq<char>, u8),
    FormatFailure,
> {
    match spec_decode_failure(tree_json(document.tree)) {
        Err(e) => Err(e),
        Ok(text) => Ok((text, document.save_type.spec_to_byte())),
    }
}

/// What a load ends in, once the codec has read the data of a container
/// of the given save type: the document as JSON text and the byte of the
/// save type.
pub open spec fn spec_finish_load(save_type: SaveType, read: Result<uesave::Save, Seq<char>>)
    -> Result<(Seq<char>, u8), FormatFailure> {
    match spec_finish_decode(save_type, read) {
        Err(e) => Err(e),
        Ok(document) => spec_document_text(document),
    }
}

/// What a save begins with: the tree of the document. Without a path the
/// document is not looked at.
pub open spec fn spec_begin_save(document: Seq<char>, path: Seq<char>) -> Result<
    uesave::Save,
    FormatFailure,
> {
    if path.len() == 0 {
        Err(FormatFailure::Io("No file path provided!"@))
    } else {
        spec_encode_failure(json_tree(document))
    }
}

/// Hands a decoded document to the editor as JSON text.
pub fn document_text(document: &DecodedDocument) -> (r: Result<(String, u8), FormatError>)
    ensures
        load_outcome(r) == spec_document_text(*document),
{
    let text = tree_to_document(&document.tree)?;
    Ok((text, document.save_type.to_byte()))
}

/// Ends a load: makes the document of what the save-tree codec read from
/// the data of a container of the given save type, and hands it to the
/// editor as JSON text.
pub fn finish_load(save_type: SaveType, read: Result<uesave::Save, String>) -> (r: Result<
    (String, u8),
    FormatError,
>)
    ensures
        load_outcome(r) == spec_finish_load(save_type, spec_raw(read)),
{
    let document = finish_decode(save_type, read)?;
    document_text(&document)
}

/// Begins a save at `path`: reads the tree from the document that the
/// editor hands back.
pub fn begin_save(document: &str, path: &str) -> (r: Result<uesave::Save, FormatError>)
    ensures
        outcome(r) == spec_begin_save(document@, path@),
{
    if path.is_empty() {
        return Err(FormatError::Io(String::from_str("No file path provided!")));
    }
    document_to_tree(document)
}

/// The failure that a file that could not be written is, from the message
/// of the file system.
pub fn write_failure(cause: &str) -> (e: FormatError)
    ensures
        e@ == FormatFailure::Io("Failed to write file: "@ + cause@),
{
    FormatError::Io(String::from_str("Failed to write file: ").concat(cause))
}

/// What the editor is told when a load starts.
pub fn loading() -> (note: Notification)
    ensures
        note@ == NotificationView::Status("Loading file..."@),
{
    Notification::Status(String::from_str("Loading file..."))
}

/// What the editor is told when a load has ended.
pub open spec fn spec_load_notification(r: Result<(Seq<char>, u8), FormatFailure>)
    -> NotificationView {
    match r {
        Ok((document, save_type)) => NotificationView::Loaded(document, save_type),
        Err(e) => NotificationView::Failed("Failed to open file: "@ + e.message()),
    }
}

/// Tells the editor how a load has ended.
pub fn load_notification(r: Result<(String, u8), FormatError>) -> (note: Notification)
    ensures
        note@ == spec_load_notification(load_outcome(r)),
{
    match r {
        Ok((document, save_type)) => Notification::Loaded(document, save_type),
        Err(e) => {
            let cause = e.message();
            Notification::Failed(String::from_str("Failed to open file: ").concat(cause.as_str()))
        },
    }
}

/// What the user is shown when a save has ended.
pub open spec fn spec_save_report(r: Result<(), FormatFailure>) -> Seq<char> {
    match r {
        Ok(_) => "Saved file successfully!"@,
        Err(e) => e.message(),
    }
}

/// Tells the user how a save has ended.
pub fn save_report(r: &Result<(), FormatError>) -> (text: String)
    ensures
        text@ == spec_save_report(
            match *r {
                Ok(_) => Ok(()),
                Err(e) => Err(e@),
            },
        ),
{
    match r {
        Ok(_) => String::from_str("Saved file successfully!"),
        Err(e) => e.message(),
    }
}

/// The event that the outcome of a load is to the session.
pub fn load_event<T>(r: &Result<T, FormatError>) -> (event: SessionEvent)
    ensures
        event == (if r is Ok {
            SessionEvent::LoadSucceeded
        } else {
            SessionEvent::LoadFailed
        }),
{
    match r {
        Ok(_) => SessionEvent::LoadSucceeded,
        Err(_) => SessionEvent::LoadFailed,
    }
}

/// The event that the outcome of a save is to the session.
pub fn save_event<T>(r: &Result<T, FormatError>) -> (event: SessionEvent)
    ensures
        event == (if r is Ok {
            SessionEvent::SaveSucceeded
        } else {
            SessionEvent::SaveFailed
        }),
{
    match r {
        Ok(_) => SessionEvent::SaveSucceeded,
        Err(_) => SessionEvent::SaveFailed,
    }
}

} // verus!
