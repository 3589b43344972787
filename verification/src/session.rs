//! One session: its model, the steps it can take, and the laws that every
//! run of those steps obeys.
//!
//! A session is created active and without contributions. Contributions
//! are appended in arrival order while it is active. It finishes when the
//! number of contributions reaches the number of contributors expected, or
//! when it is asked to; from then on it never changes. At the moment it
//! finishes, and only then, one `finished` event is published to its
//! observers.

use vstd::prelude::*;
use crate::detector::completes;
use crate::hub::finished_event;

verus! {

/// Whether a session still accepts contributions.
#[derive(Clone, Copy, Debug, PartialEq, Eq, Structural)]
pub enum SessionState {
    Active,
    Finished,
}

/// What became of one contribution.
#[derive(Clone, Copy, Debug, PartialEq, Eq, Structural)]
pub enum Contribution {
    /// The payload was appended and the session still waits for more.
    Recorded,
    /// The payload was appended and was the last one expected: the session
    /// finished and its observers were notified.
    Completed,
    /// The session had already finished; the payload was dropped.
    Discarded,
}

/// What a request to finish a session did.
#[derive(Clone, Copy, Debug, PartialEq, Eq, Structural)]
pub enum Finish {
    /// The session was active: it finished and its observers were notified.
    Notified,
    /// The session had already finished; nothing was done.
    AlreadyFinished,
}

/// The mathematical model of one session.
pub struct SessionModel {
    /// Caller-supplied text, fixed at creation.
    pub metadata: Seq<char>,
    /// How many contributions complete the session, fixed at creation.
    pub expected: nat,
    /// The payloads received, in arrival order.
    pub contributions: Seq<Seq<u8>>,
    /// Whether the session still accepts contributions.
    pub state: SessionState,
    /// The events published on the session's channel, oldest first.
    pub published: Seq<Seq<char>>,
}

impl SessionModel {
    /// A session as it is right after creation.
    pub open spec fn fresh(metadata: Seq<char>, expected: nat) -> SessionModel {
        SessionModel {
            metadata,
            expected,
            contributions: Seq::empty(),
            state: SessionState::Active,
            published: Seq::empty(),
        }
    }

    /// A session has published its one `finished` event exactly if it has
    /// finished, and has published nothing else.
    pub open spec fn wf(self) -> bool {
        self.published == if self.state == SessionState::Finished {
            seq![finished_event()]
        } else {
            Seq::<Seq<char>>::empty()
        }
    }

    /// What a contribution of `payload` is answered with.
    pub open spec fn contribution(self, payload: Seq<u8>) -> Contribution {
        if self.state == SessionState::Finished {
            Contribution::Discarded
        } else if completes(self.contributions.len() + 1, self.expected) {
            Contribution::Completed
        } else {
            Contribution::Recorded
        }
    }

    /// The session after a contribution of `payload`.
    pub open spec fn contributed(self, payload: Seq<u8>) -> SessionModel {
        match self.contribution(payload) {
            Contribution::Discarded => self,
            Contribution::Recorded => SessionModel {
                contributions: self.contributions.push(payload),
                ..self
            },
            Contribution::Completed => SessionModel {
                contributions: self.contributions.push(payload),
                state: SessionState::Finished,
                published: self.published.push(finished_event()),
                ..self
            },
        }
    }

    /// The session after the contributions of `batch`, taken in their
    /// order.
    pub open spec fn after_all(self, batch: Seq<Seq<u8>>) -> SessionModel
        decreases batch.len(),
    {
        if batch.len() == 0 {
            self
        } else {
            self.after_all(batch.drop_last()).contributed(batch.last())
        }
    }

    /// How many of the contributions of `batch`, taken in their order, are
    /// answered with `Completed`.
    pub open spec fn completions(self, batch: Seq<Seq<u8>>) -> nat
        decreases batch.len(),
    {
        if batch.len() == 0 {
            0
        } else {
            let earlier = self.completions(batch.drop_last());
            if self.after_all(batch.drop_last()).contribution(batch.last())
                == Contribution::Completed {
                earlier + 1
            } else {
                earlier
            }
        }
    }

    /// What a request to finish is answered with.
    pub open spec fn finish(self) -> Finish {
        if self.state == SessionState::Finished {
            Finish::AlreadyFinished
        } else {
            Finish::Notified
        }
    }

    /// The session after a request to finish it.
    pub open spec fn finished(self) -> SessionModel {
        match self.finish() {
            Finish::AlreadyFinished => self,
            Finish::Notified => SessionModel {
                state: SessionState::Finished,
                published: self.published.push(finished_event()),
                ..self
            },
        }
    }
}

/// Every step of a session keeps it consistent with what was published
/// for it: a session never has more than its one `finished` event.
pub proof fn lemma_steps_keep_consistency(session: SessionModel, payload: Seq<u8>)
    requires
        session.wf(),
    ensures
        session.contributed(payload).wf(),
        session.finished().wf(),
{
}

/// A finished session never reverts and never changes: contributions to it
/// are dropped, and finishing it again does nothing and publishes nothing.
pub proof fn lemma_finished_is_final(session: SessionModel, payload: Seq<u8>)
    requires
        session.state == SessionState::Finished,
    ensures
        session.contributed(payload) == session,
        session.contribution(payload) == Contribution::Discarded,
        session.finished() == session,
        session.finish() == Finish::AlreadyFinished,
{
}

/// While a session is active its contributions only grow, at the end: no
/// step removes or reorders what was recorded.
pub proof fn lemma_contributions_are_append_only(session: SessionModel, payload: Seq<u8>)
    ensures
        session.contributions.is_prefix_of(session.contributed(payload).contributions),
        session.finished().contributions == session.contributions,
{
}

/// What was fixed when a session was created stays as it was: no step
/// changes the metadata or the number of contributors expected.
pub proof fn lemma_creation_parameters_are_fixed(session: SessionModel, payload: Seq<u8>)
    ensures
        session.contributed(payload).metadata == session.metadata,
        session.contributed(payload).expected == session.expected,
        session.finished().metadata == session.metadata,
        session.finished().expected == session.expected,
{
}

/// Contributions that stay short of the expected count leave the session
/// active: all of them are recorded, none completes it, nothing is
/// published.
pub proof fn lemma_no_early_completion(session: SessionModel, batch: Seq<Seq<u8>>)
    requires
        session.wf(),
        session.state == SessionState::Active,
        session.contributions.len() + batch.len() < session.expected,
    ensures
        session.after_all(batch).state == SessionState::Active,
        session.after_all(batch).contributions == session.contributions + batch,
        session.after_all(batch).published == session.published,
        session.after_all(batch).expected == session.expected,
        session.completions(batch) == 0,
    decreases batch.len(),
{
    if batch.len() > 0 {
        lemma_no_early_completion(session, batch.drop_last());
    }
}

/// Contributions that reach the expected count finish the session exactly
/// once, in whatever order they arrive: exactly one of them is answered
/// with `Completed`, the `finished` event is published once and never
/// again, and the session holds the contributions up to the one that
/// reached the count, in arrival order; those that came later were dropped.
pub proof fn lemma_completes_exactly_once(session: SessionModel, batch: Seq<Seq<u8>>)
    requires
        session.wf(),
        session.state == SessionState::Active,
        session.contributions.len() < session.expected <= session.contributions.len()
            + batch.len(),
    ensures
        session.after_all(batch).state == SessionState::Finished,
        session.after_all(batch).published == seq![finished_event()],
        session.after_all(batch).contributions == session.contributions + batch.take(
            session.expected - session.contributions.len(),
        ),
        session.completions(batch) == 1,
    decreases batch.len(),
{
    let missing = session.expected - session.contributions.len();
    let earlier = batch.drop_last();
    if earlier.len() >= missing {
        lemma_completes_exactly_once(session, earlier);
    } else {
        lemma_no_early_completion(session, earlier);
    }
}

} // verus!
