//! The event stream of one observer.
//!
//! An observer's connection is fed by a loop that waits for the next event
//! on the session's channel and writes it out as a frame. The waiting and
//! the writing are the caller's; what to do with each thing that happens is
//! decided here, by [`stream_step`].
//!
//! Slow-consumer policy: an observer that falls behind by more events than
//! the channel retains is disconnected. Its stream ends with
//! `CapacityExceeded`; the publisher and the other observers are not
//! affected.

use vstd::prelude::*;
use vstd::string::*;
use crate::error::ErrorKind;
use crate::hub::{finished_event, finished_text, Subscription};
use crate::session::{SessionModel, SessionState};
use crate::text::same_text;

verus! {

/// Why a stream ended.
#[derive(Clone, Copy, Debug, PartialEq, Eq, Structural)]
pub enum StreamEnd {
    /// The session finished and the `finished` frame was emitted.
    Finished,
    /// The observer fell behind by more events than the channel retains.
    CapacityExceeded,
    /// The session's channel was closed without a `finished` event.
    ChannelClosed,
    /// The observer's connection no longer takes frames.
    Disconnected,
}

/// The failure that `end` stands for, if it is one: an observer that fell
/// behind is cut off with `CapacityExceeded`. The other ends are no
/// failures: the session finished, was evicted, or the observer left.
pub open spec fn failure_of(end: StreamEnd) -> Option<ErrorKind> {
    match end {
        StreamEnd::CapacityExceeded => Some(ErrorKind::CapacityExceeded),
        _ => None,
    }
}

impl StreamEnd {
    /// The failure that this end of a stream stands for, if it is one.
    pub fn failure(self) -> (kind: Option<ErrorKind>)
        ensures
            kind == failure_of(self),
    {
        match self {
            StreamEnd::CapacityExceeded => Some(ErrorKind::CapacityExceeded),
            _ => None,
        }
    }
}

/// Where a stream stands.
#[derive(Clone, Copy, Debug, PartialEq, Eq, Structural)]
pub enum StreamState {
    /// The stream waits for the next event.
    Open,
    /// The stream has ended and emits nothing more.
    Closed(StreamEnd),
}

/// One thing that happens to a stream.
pub enum StreamEvent {
    /// An event arrived on the session's channel.
    Message(String),
    /// The channel dropped events that this observer had not read yet.
    Lagged,
    /// The channel was closed.
    SenderGone,
    /// The frame emitted last could not be written to the observer.
    Undeliverable,
}

/// What a stream does in answer to one event.
pub struct StreamStep {
    /// The state after the event.
    pub state: StreamState,
    /// The frame to write to the observer, if any.
    pub frame: Option<String>,
}

/// The frame that carries `message`.
pub open spec fn frame_of(message: Seq<char>) -> Seq<char> {
    "data: "@ + message + "\n\n"@
}

/// The state of a stream in `state` after `event`.
pub open spec fn next_state(state: StreamState, event: StreamEvent) -> StreamState {
    match state {
        StreamState::Closed(end) => StreamState::Closed(end),
        StreamState::Open => match event {
            StreamEvent::Message(message) => if message@ == finished_event() {
                StreamState::Closed(StreamEnd::Finished)
            } else {
                StreamState::Open
            },
            StreamEvent::Lagged => StreamState::Closed(StreamEnd::CapacityExceeded),
            StreamEvent::SenderGone => StreamState::Closed(StreamEnd::ChannelClosed),
            StreamEvent::Undeliverable => StreamState::Closed(StreamEnd::Disconnected),
        },
    }
}

/// The frame that a stream in `state` emits on `event`, if any.
pub open spec fn emitted(state: StreamState, event: StreamEvent) -> Option<Seq<char>> {
    match (state, event) {
        (StreamState::Open, StreamEvent::Message(message)) => Some(frame_of(message@)),
        _ => None,
    }
}

/// The state of a stream in `state` after all of `events`, in their order.
pub open spec fn state_after(state: StreamState, events: Seq<StreamEvent>) -> StreamState
    decreases events.len(),
{
    if events.len() == 0 {
        state
    } else {
        next_state(state_after(state, events.drop_last()), events.last())
    }
}

/// The frames that a stream in `state` emits over all of `events`, in their
/// order.
pub open spec fn frames(state: StreamState, events: Seq<StreamEvent>) -> Seq<Seq<char>>
    decreases events.len(),
{
    if events.len() == 0 {
        Seq::empty()
    } else {
        let earlier = frames(state, events.drop_last());
        match emitted(state_after(state, events.drop_last()), events.last()) {
            Some(frame) => earlier.push(frame),
            None => earlier,
        }
    }
}

/// Builds the frame that carries `message`.
pub fn frame(message: &str) -> (text: String)
    ensures
        text@ == frame_of(message@),
{
    let mut text = String::from_str("data: ");
    text.append(message);
    text.append("\n\n");
    text
}

/// Decides what a stream in `state` does on `event`.
///
/// An open stream turns every message into a frame. The `finished` message
/// is the last one it takes: after its frame the stream is closed. A
/// lagging receiver, a closed channel and a failed write close the stream
/// without a frame. A closed stream stays closed and emits nothing.
pub fn stream_step(state: StreamState, event: StreamEvent) -> (step: StreamStep)
    ensures
        step.state == next_state(state, event),
        match emitted(state, event) {
            Some(text) => step.frame matches Some(frame) && frame@ == text,
            None => step.frame is None,
        },
{
    match state {
        StreamState::Closed(end) => StreamStep { state: StreamState::Closed(end), frame: None },
        StreamState::Open => match event {
            StreamEvent::Message(message) => {
                let last = same_text(message.as_str(), finished_text());
                let state = if last {
                    StreamState::Closed(StreamEnd::Finished)
                } else {
                    StreamState::Open
                };
                StreamStep { state, frame: Some(frame(message.as_str())) }
            },
            StreamEvent::Lagged => StreamStep {
                state: StreamState::Closed(StreamEnd::CapacityExceeded),
                frame: None,
            },
            StreamEvent::SenderGone => StreamStep {
                state: StreamState::Closed(StreamEnd::ChannelClosed),
                frame: None,
            },
            StreamEvent::Undeliverable => StreamStep {
                state: StreamState::Closed(StreamEnd::Disconnected),
                frame: None,
            },
        },
    }
}

/// A closed stream stays as it is and emits nothing, whatever happens.
pub proof fn lemma_closed_stream_is_silent(state: StreamState, events: Seq<StreamEvent>)
    requires
        state is Closed,
    ensures
        state_after(state, events) == state,
        frames(state, events) == Seq::<Seq<char>>::empty(),
    decreases events.len(),
{
    if events.len() > 0 {
        lemma_closed_stream_is_silent(state, events.drop_last());
    }
}

/// The text that `event` carries, where it is a message.
pub open spec fn message_of(event: StreamEvent) -> Seq<char> {
    match event {
        StreamEvent::Message(message) => message@,
        _ => Seq::empty(),
    }
}

/// Whether `event` is a message other than `finished`.
pub open spec fn is_progress(event: StreamEvent) -> bool {
    event is Message && message_of(event) != finished_event()
}

/// An observer sees the events in the order in which they arrived: while
/// nothing but progress messages arrives, the stream stays open and its
/// frames are those of the messages, one for one and in the same order.
pub proof fn lemma_frames_keep_order(events: Seq<StreamEvent>)
    requires
        forall|i: int| 0 <= i < events.len() ==> is_progress(#[trigger] events[i]),
    ensures
        state_after(StreamState::Open, events) == StreamState::Open,
        frames(StreamState::Open, events) == Seq::new(
            events.len(),
            |i: int| frame_of(message_of(events[i])),
        ),
    decreases events.len(),
{
    if events.len() > 0 {
        lemma_frames_keep_order(events.drop_last());
    }
}

/// Whether `out` can be all the frames of a stream that stands in `end`:
/// as long as the stream has not ended with `Finished`, none of its frames
/// is the `finished` frame; once it has, the `finished` frame is its last
/// frame and occurs nowhere else.
pub open spec fn ends_with_finished_only(out: Seq<Seq<char>>, end: StreamState) -> bool {
    &&& forall|i: int|
        0 <= i < out.len() && #[trigger] out[i] == frame_of(finished_event()) ==> i == out.len()
            - 1 && end == StreamState::Closed(StreamEnd::Finished)
    &&& end == StreamState::Closed(StreamEnd::Finished) ==> out.len() > 0 && out.last()
        == frame_of(finished_event())
}

/// An observer sees the `finished` frame at most once, and nothing after
/// it: whatever happens to a stream, and in whatever order, the `finished`
/// frame can only be the last of its frames, and it is the last one exactly
/// if the stream ended with `Finished`.
pub proof fn lemma_finished_frame_is_last(events: Seq<StreamEvent>)
    ensures
        ends_with_finished_only(
            frames(StreamState::Open, events),
            state_after(StreamState::Open, events),
        ),
    decreases events.len(),
{
    if events.len() > 0 {
        lemma_finished_frame_is_last(events.drop_last());
        match events.last() {
            StreamEvent::Message(message) => {
                if frame_of(message@) == frame_of(finished_event()) {
                    lemma_frame_is_injective(message@, finished_event());
                }
            },
            _ => {},
        }
    }
}

/// Whether `events` are what a receiver yields for the texts `published`:
/// one message for each text, in the order of publication.
pub open spec fn delivered(published: Seq<Seq<char>>, events: Seq<StreamEvent>) -> bool {
    &&& events.len() == published.len()
    &&& forall|i: int|
        0 <= i < events.len() ==> (#[trigger] events[i]) is Message && message_of(events[i])
            == published[i]
}

/// An observer that subscribed while a session was active, and to whom all
/// that was published since is delivered, sees exactly one frame once the
/// session has finished: the `finished` frame, after which its stream is
/// closed.
pub proof fn lemma_observer_sees_one_finished_frame(
    session: SessionModel,
    events: Seq<StreamEvent>,
)
    requires
        session.wf(),
        session.state == SessionState::Finished,
        delivered(session.published, events),
    ensures
        frames(StreamState::Open, events) == seq![frame_of(finished_event())],
        state_after(StreamState::Open, events) == StreamState::Closed(StreamEnd::Finished),
{
    reveal_with_fuel(frames, 2);
    reveal_with_fuel(state_after, 2);
}

/// A subscription made while a session was active is owed, once the
/// session has finished, exactly one event: `finished`.
pub proof fn lemma_early_subscription_is_owed_finished(
    before: SessionModel,
    after: SessionModel,
    subscription: Subscription,
)
    requires
        before.wf(),
        before.state == SessionState::Active,
        subscription.starts_at() == before.published.len(),
        after.wf(),
        after.state == SessionState::Finished,
    ensures
        subscription.owed(after.published) == seq![finished_event()],
{
}

/// Different messages have different frames.
pub proof fn lemma_frame_is_injective(a: Seq<char>, b: Seq<char>)
    requires
        frame_of(a) == frame_of(b),
    ensures
        a == b,
{
    let head = "data: "@;
    let tail = "\n\n"@;
    assert(frame_of(a).len() == head.len() + a.len() + tail.len());
    assert(frame_of(b).len() == head.len() + b.len() + tail.len());
    assert forall|i: int| 0 <= i < a.len() implies a[i] == b[i] by {
        assert(frame_of(a)[head.len() + i] == a[i]);
        assert(frame_of(b)[head.len() + i] == b[i]);
    }
}

} // verus!
