//! One interactive picking session over a loaded list of recent items.
//!
//! The session owns the list for the lifetime of one invocation and reacts
//! to picker events. Every reaction is a pure step: from the session's state
//! and the event to the next state and an outcome the host performs —
//! launch the editor, write the re-encoded history back to the store and
//! reload, update the input buffer, or just terminate. The session itself
//! does no input/output.
//!
//! Deletion mutates the in-memory list first and hands the host the payload
//! to persist; if the write then fails, the removal is not rolled back, and
//! session and store stay inconsistent for the rest of the run — a known
//! property of this design, inherited from the store's non-transactional
//! interface.

use vstd::prelude::*;

use crate::errors::RecentError;
use crate::json::json_dump;
use crate::location::url_to_path;
use crate::paths::{untildify, untildify_spec};
use crate::store::{dump_history, encode_history_spec};
use crate::strutil::{contains_sub, is_substring};
use crate::workspaces::{label_spec, Recent, RecentModel};

verus! {

/// A request to open the editor on a target.
#[derive(Debug, PartialEq, Eq)]
pub enum LaunchRequest {
    /// Open a local filesystem path.
    Local { path: String },
    /// Open a remote item: its authority (when recorded) and its URL.
    Remote { authority: Option<String>, url: String },
}

/// The mathematical value of a [`LaunchRequest`].
#[verifier::ext_equal]
pub enum LaunchModel {
    Local { path: Seq<char> },
    Remote { authority: Option<Seq<char>>, url: Seq<char> },
}

impl View for LaunchRequest {
    type V = LaunchModel;

    open spec fn view(&self) -> LaunchModel {
        match self {
            LaunchRequest::Local { path } => LaunchModel::Local { path: path@ },
            LaunchRequest::Remote { authority, url } => LaunchModel::Remote {
                authority: authority.deep_view(),
                url: url@,
            },
        }
    }
}

/// How the input buffer changes after an autocomplete event.
#[derive(Debug, PartialEq, Eq)]
pub enum BufferUpdate {
    /// Replace the buffer with this text.
    Replace(String),
    /// Clear the buffer.
    Clear,
}

/// The mathematical value of a [`BufferUpdate`].
#[verifier::ext_equal]
pub enum BufferModel {
    Replace(Seq<char>),
    Clear,
}

impl View for BufferUpdate {
    type V = BufferModel;

    open spec fn view(&self) -> BufferModel {
        match self {
            BufferUpdate::Replace(s) => BufferModel::Replace(s@),
            BufferUpdate::Clear => BufferModel::Clear,
        }
    }
}

/// A picker event delivered to the session.
#[derive(Debug)]
pub enum SessionEvent {
    /// The user dismissed the picker.
    Cancel,
    /// The user chose the item at `index`.
    Select { index: usize },
    /// The user submitted free text that matches no item.
    CustomInput { text: String },
    /// The user asked to autocomplete from the item at `index`, if any.
    Complete { index: Option<usize> },
    /// The user asked to delete the item at `index`.
    Delete { index: usize },
    /// The user ran a custom command; the session supports none.
    CustomCommand,
}

/// The mathematical value of a [`SessionEvent`].
#[verifier::ext_equal]
pub enum EventModel {
    Cancel,
    Select { index: int },
    CustomInput { text: Seq<char> },
    Complete { index: Option<int> },
    Delete { index: int },
    CustomCommand,
}

impl View for SessionEvent {
    type V = EventModel;

    open spec fn view(&self) -> EventModel {
        match self {
            SessionEvent::Cancel => EventModel::Cancel,
            SessionEvent::Select { index } => EventModel::Select { index: *index as int },
            SessionEvent::CustomInput { text } => EventModel::CustomInput { text: text@ },
            SessionEvent::Complete { index } => EventModel::Complete {
                index: match index {
                    Some(i) => Some(*i as int),
                    None => None,
                },
            },
            SessionEvent::Delete { index } => EventModel::Delete { index: *index as int },
            SessionEvent::CustomCommand => EventModel::CustomCommand,
        }
    }
}

/// What the host does after a reaction.
#[derive(Debug, PartialEq, Eq)]
pub enum SessionOutcome {
    /// Terminate the session; no side effect.
    Exit,
    /// Launch the editor on the request's target, then terminate.
    Launch(LaunchRequest),
    /// Write this history text to the store, then reload the view from the
    /// session's (now shorter) list.
    Persist { payload: String },
    /// Apply the buffer update and return to browsing.
    Buffer(BufferUpdate),
}

/// The mathematical value of a [`SessionOutcome`].
#[verifier::ext_equal]
pub enum OutcomeModel {
    Exit,
    Launch(LaunchModel),
    Persist { payload: Seq<char> },
    Buffer(BufferModel),
}

impl View for SessionOutcome {
    type V = OutcomeModel;

    open spec fn view(&self) -> OutcomeModel {
        match self {
            SessionOutcome::Exit => OutcomeModel::Exit,
            SessionOutcome::Launch(l) => OutcomeModel::Launch(l@),
            SessionOutcome::Persist { payload } => OutcomeModel::Persist { payload: payload@ },
            SessionOutcome::Buffer(b) => OutcomeModel::Buffer(b@),
        }
    }
}

/// The mathematical state of a [`Session`].
#[verifier::ext_equal]
pub struct SessionModel {
    /// The loaded list, in store order.
    pub entries: Seq<RecentModel>,
    /// The home directory labels are contracted against (empty when it
    /// could not be resolved).
    pub home: Seq<char>,
}

/// What selecting an item requests: a local open with the resolved path for
/// a local item, a remote-aware open with authority and URL otherwise;
/// `MalformedUrl` when a local item's URL has no filesystem form.
pub open spec fn select_spec(r: RecentModel) -> Result<LaunchModel, RecentError> {
    if r.is_local() {
        match url_to_path(r.locator().text) {
            Some(p) => Ok(LaunchModel::Local { path: p }),
            None => Err(RecentError::MalformedUrl),
        }
    } else {
        Ok(
            LaunchModel::Remote {
                authority: r.remote_opt(),
                url: r.locator().text,
            },
        )
    }
}

/// What autocompletion does to the buffer: the chosen item's label when an
/// item is chosen and its label resolves; a cleared buffer otherwise.
pub open spec fn autocomplete_spec(m: SessionModel, sel: Option<int>) -> BufferModel {
    match sel {
        Some(i) => match label_spec(m.entries[i], m.home) {
            Ok(l) => BufferModel::Replace(l),
            Err(_) => BufferModel::Clear,
        },
        None => BufferModel::Clear,
    }
}

/// The session's reaction to one event: the next state and the outcome the
/// host performs. Only deletion changes the state; an unsupported event
/// fails with `Unsupported`.
pub open spec fn react_spec(m: SessionModel, e: EventModel) -> (SessionModel, Result<
    OutcomeModel,
    RecentError,
>) {
    match e {
        EventModel::Cancel => (m, Ok(OutcomeModel::Exit)),
        EventModel::Select { index } => (
            m,
            match select_spec(m.entries[index]) {
                Ok(l) => Ok(OutcomeModel::Launch(l)),
                Err(err) => Err(err),
            },
        ),
        EventModel::CustomInput { text } => (
            m,
            Ok(
                OutcomeModel::Launch(
                    LaunchModel::Local { path: untildify_spec(text, m.home) },
                ),
            ),
        ),
        EventModel::Complete { index } => (
            m,
            Ok(OutcomeModel::Buffer(autocomplete_spec(m, index))),
        ),
        EventModel::Delete { index } => {
            let m2 = SessionModel { entries: m.entries.remove(index), home: m.home };
            (
                m2,
                Ok(
                    OutcomeModel::Persist {
                        payload: json_dump(encode_history_spec(m2.entries)),
                    },
                ),
            )
        },
        EventModel::CustomCommand => (m, Err(RecentError::Unsupported)),
    }
}

/// Whether an event's index lies inside a list of length `len`.
pub open spec fn event_in_range(e: EventModel, len: nat) -> bool {
    match e {
        EventModel::Select { index } => 0 <= index < len,
        EventModel::Complete { index } => match index {
            Some(i) => 0 <= i < len,
            None => true,
        },
        EventModel::Delete { index } => 0 <= index < len,
        _ => true,
    }
}

/// One interactive picking session: the loaded list of recent items and the
/// home directory used to derive labels.
#[derive(Debug)]
pub struct Session {
    entries: Vec<Recent>,
    home: String,
}

impl View for Session {
    type V = SessionModel;

    closed spec fn view(&self) -> SessionModel {
        SessionModel { entries: self.entries.deep_view(), home: self.home@ }
    }
}

impl Session {
    /// Starts a session over an already decoded list.
    pub fn new(entries: Vec<Recent>, home: String) -> (s: Session)
        ensures
            s@ == (SessionModel { entries: entries.deep_view(), home: home@ }),
    {
        Session { entries, home }
    }

    /// The number of entries offered.
    pub fn len(&self) -> (r: usize)
        ensures
            r == self@.entries.len(),
    {
        self.entries.len()
    }

    /// A reference to one entry.
    pub fn entry(&self, index: usize) -> (r: &Recent)
        requires
            index < self@.entries.len(),
        ensures
            r.deep_view() == self@.entries[index as int],
    {
        &self.entries[index]
    }

    /// The display text of one entry: its label, or the empty string when
    /// the label cannot be derived — one broken entry must not abort
    /// rendering of the rest.
    pub fn display(&self, index: usize) -> (r: String)
        requires
            index < self@.entries.len(),
        ensures
            match label_spec(self@.entries[index as int], self@.home) {
                Ok(l) => r@ == l,
                Err(_) => r@ == Seq::<char>::empty(),
            },
    {
        match self.entries[index].label(self.home.as_str()) {
            Ok(l) => l,
            Err(_) => {
                let r = String::new();
                proof {
                    assert(r@ =~= Seq::<char>::empty());
                }
                r
            },
        }
    }

    /// Whether `query` occurs in the entry's display text; an entry whose
    /// label cannot be derived matches nothing.
    pub fn matches(&self, index: usize, query: &str) -> (r: bool)
        requires
            index < self@.entries.len(),
        ensures
            r == match label_spec(self@.entries[index as int], self@.home) {
                Ok(l) => is_substring(query@, l),
                Err(_) => false,
            },
    {
        match self.entries[index].label(self.home.as_str()) {
            Ok(l) => contains_sub(l.as_str(), query),
            Err(_) => false,
        }
    }

    /// Resolves a selection to a launch request; terminates the session.
    pub fn on_select(&self, index: usize) -> (r: Result<LaunchRequest, RecentError>)
        requires
            index < self@.entries.len(),
        ensures
            match select_spec(self@.entries[index as int]) {
                Ok(l) => r is Ok && r->Ok_0@ == l,
                Err(e) => r == Err::<LaunchRequest, RecentError>(e),
            },
    {
        let entry = &self.entries[index];
        if entry.is_local() {
            match entry.file_path() {
                Ok(p) => Ok(LaunchRequest::Local { path: p }),
                Err(_) => Err(RecentError::MalformedUrl),
            }
        } else {
            let authority = match entry.remote() {
                Some(a) => Some(a.to_owned()),
                None => None,
            };
            Ok(LaunchRequest::Remote { authority, url: entry.url().as_str().to_owned() })
        }
    }

    /// Treats free text as a local path (after expanding a leading `~`) and
    /// requests a local open; free text is never URL-parsed.
    pub fn on_custom_input(&self, text: &str) -> (r: LaunchRequest)
        ensures
            r@ == (LaunchModel::Local { path: untildify_spec(text@, self@.home) }),
    {
        LaunchRequest::Local { path: untildify(text, self.home.as_str()) }
    }

    /// Autocompletes the input buffer from the chosen entry's label, or
    /// clears it when no entry is chosen or its label cannot be derived.
    pub fn on_autocomplete(&self, index: Option<usize>) -> (r: BufferUpdate)
        requires
            match index {
                Some(i) => i < self@.entries.len(),
                None => true,
            },
        ensures
            r@ == autocomplete_spec(
                self@,
                match index {
                    Some(i) => Some(i as int),
                    None => None,
                },
            ),
    {
        match index {
            Some(i) => match self.entries[i].label(self.home.as_str()) {
                Ok(l) => BufferUpdate::Replace(l),
                Err(_) => BufferUpdate::Clear,
            },
            None => BufferUpdate::Clear,
        }
    }

    /// Dismisses the picker: the session terminates with no side effect.
    pub fn on_cancel(&self) -> (r: SessionOutcome)
        ensures
            r@ == OutcomeModel::Exit,
    {
        SessionOutcome::Exit
    }

    /// Removes the entry at `index` from the in-memory list, preserving the
    /// order of the remainder, and returns the re-encoded history text for
    /// the host to persist.
    pub fn on_delete(&mut self, index: usize) -> (payload: String)
        requires
            index < old(self)@.entries.len(),
        ensures
            final(self)@.entries == old(self)@.entries.remove(index as int),
            final(self)@.home == old(self)@.home,
            payload@ == json_dump(encode_history_spec(final(self)@.entries)),
    {
        let ghost pre = self.entries.deep_view();
        self.entries.remove(index);
        proof {
            assert(self.entries.deep_view() =~= pre.remove(index as int));
        }
        dump_history(&self.entries)
    }

    /// Reacts to one picker event: steps the session as [`react_spec`] says
    /// and returns the outcome for the host to perform.
    pub fn react(&mut self, event: &SessionEvent) -> (r: Result<SessionOutcome, RecentError>)
        requires
            event_in_range(event@, old(self)@.entries.len()),
        ensures
            final(self)@ == react_spec(old(self)@, event@).0,
            match react_spec(old(self)@, event@).1 {
                Ok(om) => r is Ok && r->Ok_0@ == om,
                Err(e) => r == Err::<SessionOutcome, RecentError>(e),
            },
    {
        match event {
            SessionEvent::Cancel => Ok(self.on_cancel()),
            SessionEvent::Select { index } => match self.on_select(*index) {
                Ok(l) => Ok(SessionOutcome::Launch(l)),
                Err(e) => Err(e),
            },
            SessionEvent::CustomInput { text } => Ok(
                SessionOutcome::Launch(self.on_custom_input(text.as_str())),
            ),
            SessionEvent::Complete { index } => Ok(
                SessionOutcome::Buffer(self.on_autocomplete(*index)),
            ),
            SessionEvent::Delete { index } => {
                let payload = self.on_delete(*index);
                Ok(SessionOutcome::Persist { payload })
            },
            SessionEvent::CustomCommand => Err(RecentError::Unsupported),
        }
    }
}

} // verus!
