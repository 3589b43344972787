//! The session registry: the single owner of every session's state.
//!
//! The registry maps session codes to sessions. All reads and writes of a
//! session go through its operations, and each mutating operation takes the
//! registry by exclusive borrow, so the operations on it are totally ordered:
//! an append and the completion check that follows it can never interleave
//! with another contribution.
//!
//! Lifecycle policy: a finished session stays resident and can be read any
//! number of times; it leaves the registry only through
//! [`SessionRegistry::remove_session`].
//!
//! The sessions stand in a vector, in the order of their creation, and are
//! found by their code. The contracts speak of the registry through its
//! view, the map from codes to session models.

use vstd::prelude::*;
use vstd::string::*;
use crate::codes::{generate_code, is_code};
use crate::detector::is_complete;
use crate::error::ErrorKind;
use crate::hub::{finished_text, Channel, Subscription};
use crate::session::{Contribution, Finish, SessionModel, SessionState};
use crate::text::same_text;

verus! {

/// What a read of a session found.
pub enum Snapshot<'a> {
    /// The session is still active; none of its data is handed out.
    NotReady,
    /// The session has finished; these are its contributions in arrival
    /// order.
    Ready(&'a Vec<Vec<u8>>),
}

/// What a request to observe a session gives.
pub enum Observation {
    /// The session is active: the subscription is owed the events published
    /// from now on.
    Live(Subscription),
    /// The session has already finished. Its one `finished` event is
    /// replayed by the caller; no receiver is handed out, since nothing will
    /// be published again.
    Finished,
}

/// The byte sequences that a list of buffers holds, in order.
pub open spec fn payloads(buffers: Seq<Vec<u8>>) -> Seq<Seq<u8>> {
    Seq::new(buffers.len(), |i: int| buffers[i]@)
}

/// What the registry holds of one session, besides its code and channel.
struct AudioData {
    metadata: String,
    expected: usize,
    state: SessionState,
    audio_buffer: Vec<Vec<u8>>,
}

/// One slot of the registry.
struct Entry {
    code: String,
    data: AudioData,
    channel: Channel,
}

impl Entry {
    /// The session that this slot holds.
    spec fn model(&self) -> SessionModel {
        SessionModel {
            metadata: self.data.metadata@,
            expected: self.data.expected as nat,
            contributions: payloads(self.data.audio_buffer@),
            state: self.data.state,
            published: self.channel.published(),
        }
    }
}

/// Whether one of `entries` has the code `code`.
spec fn holds(entries: Seq<Entry>, code: Seq<char>) -> bool {
    exists|i: int| 0 <= i < entries.len() && #[trigger] entries[i].code@ == code
}

/// The place in `entries` of an entry with the code `code`.
spec fn index_of(entries: Seq<Entry>, code: Seq<char>) -> int {
    choose|i: int| 0 <= i < entries.len() && #[trigger] entries[i].code@ == code
}

/// Whether no two of `entries` have the same code.
spec fn distinct(entries: Seq<Entry>) -> bool {
    forall|i: int, j: int|
        0 <= i < j < entries.len() ==> #[trigger] entries[i].code@ != #[trigger] entries[j].code@
}

/// The sessions that `entries` hold, by code.
spec fn model_of(entries: Seq<Entry>) -> Map<Seq<char>, SessionModel> {
    Map::new(
        |code: Seq<char>| holds(entries, code),
        |code: Seq<char>| entries[index_of(entries, code)].model(),
    )
}

/// Among distinct codes, the code of entry `i` leads back to entry `i`.
proof fn lemma_model_at(entries: Seq<Entry>, i: int)
    requires
        distinct(entries),
        0 <= i < entries.len(),
    ensures
        model_of(entries).contains_key(entries[i].code@),
        model_of(entries)[entries[i].code@] == entries[i].model(),
        index_of(entries, entries[i].code@) == i,
{
}

/// Appending an entry with a free code inserts its session under that code
/// and changes no other.
proof fn lemma_push(entries: Seq<Entry>, entry: Entry)
    requires
        distinct(entries),
        !holds(entries, entry.code@),
    ensures
        distinct(entries.push(entry)),
        model_of(entries.push(entry)) == model_of(entries).insert(entry.code@, entry.model()),
{
    let after = entries.push(entry);
    assert forall|i: int, j: int| 0 <= i < j < after.len() implies #[trigger] after[i].code@
        != #[trigger] after[j].code@ by {}
    let grown = model_of(entries).insert(entry.code@, entry.model());
    assert forall|code: Seq<char>| model_of(after).contains_key(code) == grown.contains_key(
        code,
    ) by {
        if holds(entries, code) {
            let i = index_of(entries, code);
            assert(after[i].code@ == code);
        }
        if code == entry.code@ {
            assert(after[entries.len() as int].code@ == code);
        }
    }
    assert forall|code: Seq<char>| model_of(after).contains_key(code) implies model_of(
        after,
    )[code] == grown[code] by {
        let i = index_of(after, code);
        lemma_model_at(after, i);
        if i < entries.len() {
            lemma_model_at(entries, i);
        }
    }
}

/// Changing entry `i` while keeping its code replaces the session under
/// that code and changes no other.
proof fn lemma_update(before: Seq<Entry>, after: Seq<Entry>, i: int)
    requires
        distinct(before),
        0 <= i < before.len(),
        after.len() == before.len(),
        after[i].code@ == before[i].code@,
        forall|j: int| 0 <= j < before.len() && j != i ==> after[j] == before[j],
    ensures
        distinct(after),
        model_of(after) == model_of(before).insert(before[i].code@, after[i].model()),
{
    assert forall|j: int| 0 <= j < before.len() implies #[trigger] after[j].code@
        == before[j].code@ by {}
    assert forall|j: int, k: int| 0 <= j < k < after.len() implies #[trigger] after[j].code@
        != #[trigger] after[k].code@ by {}
    let updated = model_of(before).insert(before[i].code@, after[i].model());
    assert forall|code: Seq<char>| model_of(after).contains_key(code) == updated.contains_key(
        code,
    ) by {}
    assert forall|code: Seq<char>| model_of(after).contains_key(code) implies model_of(
        after,
    )[code] == updated[code] by {
        let j = index_of(after, code);
        lemma_model_at(after, j);
        lemma_model_at(before, j);
    }
}

/// Taking entry `i` out removes the session under its code and changes no
/// other.
proof fn lemma_remove(entries: Seq<Entry>, i: int)
    requires
        distinct(entries),
        0 <= i < entries.len(),
    ensures
        distinct(entries.remove(i)),
        model_of(entries.remove(i)) == model_of(entries).remove(entries[i].code@),
{
    let after = entries.remove(i);
    assert forall|j: int| 0 <= j < after.len() implies #[trigger] after[j] == entries[if j < i {
        j
    } else {
        j + 1
    }] by {}
    assert forall|j: int, k: int| 0 <= j < k < after.len() implies #[trigger] after[j].code@
        != #[trigger] after[k].code@ by {}
    let shrunk = model_of(entries).remove(entries[i].code@);
    assert forall|code: Seq<char>| model_of(after).contains_key(code) == shrunk.contains_key(
        code,
    ) by {
        if holds(after, code) {
            let j = index_of(after, code);
            let j0 = if j < i { j } else { j + 1 };
            lemma_model_at(entries, j0);
            lemma_model_at(entries, i);
        }
        if holds(entries, code) && code != entries[i].code@ {
            let j0 = index_of(entries, code);
            let j = if j0 < i { j0 } else { j0 - 1 };
            assert(after[j].code@ == code);
        }
    }
    assert forall|code: Seq<char>| model_of(after).contains_key(code) implies model_of(
        after,
    )[code] == shrunk[code] by {
        let j = index_of(after, code);
        let j0 = if j < i { j } else { j + 1 };
        lemma_model_at(after, j);
        lemma_model_at(entries, j0);
    }
}

/// The registry of all live sessions.
pub struct SessionRegistry {
    entries: Vec<Entry>,
}

impl View for SessionRegistry {
    type V = Map<Seq<char>, SessionModel>;

    /// The sessions by code.
    closed spec fn view(&self) -> Map<Seq<char>, SessionModel> {
        model_of(self.entries@)
    }
}

impl SessionRegistry {
    /// No two slots hold the same code.
    pub closed spec fn codes_unique(&self) -> bool {
        distinct(self.entries@)
    }

    /// The registry's invariant: a code names at most one session, and each
    /// session is consistent with what was published for it.
    pub open spec fn wf(&self) -> bool {
        &&& self.codes_unique()
        &&& forall|code: Seq<char>| self@.contains_key(code) ==> (#[trigger] self@[code]).wf()
    }

    /// A registry without sessions.
    pub fn new() -> (registry: SessionRegistry)
        ensures
            registry.wf(),
            registry@ == Map::<Seq<char>, SessionModel>::empty(),
    {
        SessionRegistry { entries: Vec::new() }
    }

    /// Creates a session under `code`, active and without contributions,
    /// and opens its channel.
    ///
    /// A code names one session at a time: where `code` is taken, nothing
    /// changes and the request fails with `ResourceExhaustion`.
    pub fn insert_session(
        &mut self,
        code: String,
        metadata: String,
        expected: usize,
    ) -> (outcome: Result<(), ErrorKind>)
        requires
            old(self).wf(),
        ensures
            final(self).wf(),
            old(self)@.contains_key(code@) ==> outcome == Err::<(), ErrorKind>(
                ErrorKind::ResourceExhaustion,
            ) && final(self)@ == old(self)@,
            !old(self)@.contains_key(code@) ==> outcome == Ok::<(), ErrorKind>(()) && final(self)@
                == old(self)@.insert(code@, SessionModel::fresh(metadata@, expected as nat)),
    {
        if self.find(code.as_str()).is_some() {
            return Err(ErrorKind::ResourceExhaustion);
        }
        let entry = Entry {
            code,
            data: AudioData {
                metadata,
                expected,
                state: SessionState::Active,
                audio_buffer: Vec::new(),
            },
            channel: Channel::new(),
        };
        proof {
            assert(entry.model().contributions =~= Seq::<Seq<u8>>::empty());
            lemma_push(self.entries@, entry);
        }
        self.entries.push(entry);
        Ok(())
    }

    /// Creates a session under a code drawn at random, and returns the
    /// code.
    ///
    /// Whatever code is drawn, either it was free and names from now on one
    /// active session without contributions, or it was taken, nothing has
    /// changed and the request fails with `ResourceExhaustion`; there is no
    /// second draw. While no code is taken, the request succeeds. What
    /// happens for each code is the contract of
    /// [`SessionRegistry::insert_session`].
    pub fn create_session(
        &mut self,
        metadata: String,
        expected: usize,
    ) -> (outcome: Result<String, ErrorKind>)
        requires
            old(self).wf(),
        ensures
            final(self).wf(),
            match outcome {
                Ok(code) => {
                    &&& is_code(code@)
                    &&& !old(self)@.contains_key(code@)
                    &&& final(self)@ == old(self)@.insert(
                        code@,
                        SessionModel::fresh(metadata@, expected as nat),
                    )
                },
                Err(kind) => kind == ErrorKind::ResourceExhaustion && final(self)@ == old(self)@,
            },
            (forall|code: Seq<char>| is_code(code) ==> !old(self)@.contains_key(code))
                ==> outcome is Ok,
    {
        let code = generate_code();
        match self.insert_session(code.clone(), metadata, expected) {
            Ok(()) => Ok(code),
            Err(kind) => Err(kind),
        }
    }

    /// Appends `payload` to the session named `code` while it is active,
    /// and finishes the session if that was the last contribution expected.
    ///
    /// The append, the completion check and the notification of the
    /// observers happen under one exclusive borrow of the registry: of all
    /// the contributions to a session at most one is answered with
    /// `Completed`, the one that reaches the expected count, and it is then
    /// that the `finished` event is published. A contribution to a session
    /// that has finished is dropped.
    pub fn contribute(
        &mut self,
        code: &str,
        payload: Vec<u8>,
    ) -> (outcome: Result<Contribution, ErrorKind>)
        requires
            old(self).wf(),
        ensures
            final(self).wf(),
            !old(self)@.contains_key(code@) ==> outcome == Err::<Contribution, ErrorKind>(
                ErrorKind::SessionNotFound,
            ) && final(self)@ == old(self)@,
            old(self)@.contains_key(code@) ==> outcome == Ok::<Contribution, ErrorKind>(
                old(self)@[code@].contribution(payload@),
            ) && final(self)@ == old(self)@.insert(
                code@,
                old(self)@[code@].contributed(payload@),
            ),
    {
        let i = match self.find(code) {
            Some(i) => i,
            None => {
                return Err(ErrorKind::SessionNotFound);
            },
        };
        let ghost before = self.entries@;
        let ghost bytes = payload@;
        let entry = &mut self.entries[i];
        let outcome = match entry.data.state {
            SessionState::Finished => Contribution::Discarded,
            SessionState::Active => {
                entry.data.audio_buffer.push(payload);
                assert(payloads(entry.data.audio_buffer@) =~= payloads(
                    before[i as int].data.audio_buffer@,
                ).push(bytes));
                if is_complete(entry.data.audio_buffer.len(), entry.data.expected) {
                    entry.data.state = SessionState::Finished;
                    entry.channel.publish(finished_text());
                    Contribution::Completed
                } else {
                    Contribution::Recorded
                }
            },
        };
        proof {
            lemma_update(before, self.entries@, i as int);
        }
        Ok(outcome)
    }

    /// Finishes the session named `code`, however many contributions it
    /// has, and notifies its observers.
    ///
    /// Finishing is idempotent: on a session that has already finished
    /// nothing changes and nothing is published.
    pub fn finish(&mut self, code: &str) -> (outcome: Result<Finish, ErrorKind>)
        requires
            old(self).wf(),
        ensures
            final(self).wf(),
            !old(self)@.contains_key(code@) ==> outcome == Err::<Finish, ErrorKind>(
                ErrorKind::SessionNotFound,
            ) && final(self)@ == old(self)@,
            old(self)@.contains_key(code@) ==> outcome == Ok::<Finish, ErrorKind>(
                old(self)@[code@].finish(),
            ) && final(self)@ == old(self)@.insert(code@, old(self)@[code@].finished()),
    {
        let i = match self.find(code) {
            Some(i) => i,
            None => {
                return Err(ErrorKind::SessionNotFound);
            },
        };
        let ghost before = self.entries@;
        let entry = &mut self.entries[i];
        let outcome = match entry.data.state {
            SessionState::Finished => Finish::AlreadyFinished,
            SessionState::Active => {
                entry.data.state = SessionState::Finished;
                entry.channel.publish(finished_text());
                Finish::Notified
            },
        };
        proof {
            lemma_update(before, self.entries@, i as int);
        }
        Ok(outcome)
    }

    /// Reads the session named `code`.
    ///
    /// An active session gives `NotReady` and none of its data. A finished
    /// session gives all its contributions, each once, in arrival order. The
    /// read changes nothing, so it can be repeated.
    pub fn get_session(&self, code: &str) -> (outcome: Result<Snapshot<'_>, ErrorKind>)
        requires
            self.wf(),
        ensures
            !self@.contains_key(code@) ==> outcome == Err::<Snapshot<'_>, ErrorKind>(
                ErrorKind::SessionNotFound,
            ),
            self@.contains_key(code@) && self@[code@].state == SessionState::Active ==> outcome
                == Ok::<Snapshot<'_>, ErrorKind>(Snapshot::NotReady),
            self@.contains_key(code@) && self@[code@].state == SessionState::Finished ==> (
            outcome matches Ok(Snapshot::Ready(buffers)) && payloads(buffers@)
                == self@[code@].contributions),
    {
        match self.find(code) {
            None => Err(ErrorKind::SessionNotFound),
            Some(i) => match self.entries[i].data.state {
                SessionState::Active => Ok(Snapshot::NotReady),
                SessionState::Finished => Ok(Snapshot::Ready(&self.entries[i].data.audio_buffer)),
            },
        }
    }

    /// Subscribes to the events of the session named `code`.
    ///
    /// On an active session the caller gets a subscription of its own, made
    /// at the end of what the session has published so far: it is owed the
    /// events published from now on. On a finished session it gets
    /// `Finished` at once, since the one event that a receiver could wait
    /// for has already been published.
    pub fn observe(&self, code: &str) -> (outcome: Result<Observation, ErrorKind>)
        requires
            self.wf(),
        ensures
            !self@.contains_key(code@) ==> outcome matches Err(ErrorKind::SessionNotFound),
            self@.contains_key(code@) && self@[code@].state == SessionState::Active ==> (
            outcome matches Ok(Observation::Live(subscription)) && subscription.starts_at()
                == self@[code@].published.len()),
            self@.contains_key(code@) && self@[code@].state == SessionState::Finished
                ==> outcome matches Ok(Observation::Finished),
    {
        match self.find(code) {
            None => Err(ErrorKind::SessionNotFound),
            Some(i) => match self.entries[i].data.state {
                SessionState::Active => Ok(Observation::Live(self.entries[i].channel.subscribe())),
                SessionState::Finished => Ok(Observation::Finished),
            },
        }
    }

    /// Evicts the session named `code` once it has finished, and closes its
    /// channel. An active session is left alone.
    ///
    /// Returns whether the session was evicted.
    pub fn remove_session(&mut self, code: &str) -> (outcome: Result<bool, ErrorKind>)
        requires
            old(self).wf(),
        ensures
            final(self).wf(),
            !old(self)@.contains_key(code@) ==> outcome == Err::<bool, ErrorKind>(
                ErrorKind::SessionNotFound,
            ) && final(self)@ == old(self)@,
            old(self)@.contains_key(code@) && old(self)@[code@].state == SessionState::Active
                ==> outcome == Ok::<bool, ErrorKind>(false) && final(self)@ == old(self)@,
            old(self)@.contains_key(code@) && old(self)@[code@].state == SessionState::Finished
                ==> outcome == Ok::<bool, ErrorKind>(true) && final(self)@ == old(self)@.remove(
                code@,
            ),
    {
        match self.find(code) {
            None => Err(ErrorKind::SessionNotFound),
            Some(i) => match self.entries[i].data.state {
                SessionState::Active => Ok(false),
                SessionState::Finished => {
                    proof {
                        lemma_remove(self.entries@, i as int);
                    }
                    let _ = self.entries.remove(i);
                    Ok(true)
                },
            },
        }
    }

    /// Whether the session named `code` still accepts contributions.
    pub fn state(&self, code: &str) -> (outcome: Result<SessionState, ErrorKind>)
        requires
            self.wf(),
        ensures
            outcome == if self@.contains_key(code@) {
                Ok::<SessionState, ErrorKind>(self@[code@].state)
            } else {
                Err::<SessionState, ErrorKind>(ErrorKind::SessionNotFound)
            },
    {
        match self.find(code) {
            Some(i) => Ok(self.entries[i].data.state),
            None => Err(ErrorKind::SessionNotFound),
        }
    }

    /// The metadata that the session named `code` was created with.
    pub fn metadata(&self, code: &str) -> (outcome: Result<&str, ErrorKind>)
        requires
            self.wf(),
        ensures
            match outcome {
                Ok(text) => self@.contains_key(code@) && text@ == self@[code@].metadata,
                Err(kind) => !self@.contains_key(code@) && kind == ErrorKind::SessionNotFound,
            },
    {
        match self.find(code) {
            Some(i) => Ok(self.entries[i].data.metadata.as_str()),
            None => Err(ErrorKind::SessionNotFound),
        }
    }

    /// The number of contributions that complete the session named `code`.
    pub fn expected_contributors(&self, code: &str) -> (outcome: Result<usize, ErrorKind>)
        requires
            self.wf(),
        ensures
            match outcome {
                Ok(count) => self@.contains_key(code@) && count == self@[code@].expected,
                Err(kind) => !self@.contains_key(code@) && kind == ErrorKind::SessionNotFound,
            },
    {
        match self.find(code) {
            Some(i) => Ok(self.entries[i].data.expected),
            None => Err(ErrorKind::SessionNotFound),
        }
    }

    /// Whether a session is registered under `code`.
    pub fn contains(&self, code: &str) -> (present: bool)
        requires
            self.wf(),
        ensures
            present == self@.contains_key(code@),
    {
        self.find(code).is_some()
    }

    /// Finds the slot that holds `code`.
    fn find(&self, code: &str) -> (found: Option<usize>)
        requires
            self.codes_unique(),
        ensures
            match found {
                Some(i) => i < self.entries.len() && self.entries[i as int].code@ == code@
                    && self@.contains_key(code@) && self@[code@] == self.entries[i as int].model(),
                None => !self@.contains_key(code@),
            },
    {
        let mut i: usize = 0;
        while i < self.entries.len()
            invariant
                i <= self.entries.len(),
                self.codes_unique(),
                forall|k: int| 0 <= k < i ==> self.entries[k].code@ != code@,
            decreases self.entries.len() - i,
        {
            if same_text(self.entries[i].code.as_str(), code) {
                proof {
                    lemma_model_at(self.entries@, i as int);
                }
                return Some(i);
            }
            i += 1;
        }
        None
    }
}

} // verus!
