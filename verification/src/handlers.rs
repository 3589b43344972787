//! The operations that the transport boundary calls, one per route.
//!
//! Each handler takes what the boundary read from a request as plain
//! values, works on the registry, and answers with a [`Reply`] that names
//! the outcome by kind. Turning a reply into bytes on a connection is the
//! boundary's business.

use vstd::prelude::*;
use vstd::string::*;
use crate::codes::{is_code, lemma_code_characters};
use crate::error::ErrorKind;
use crate::hub::Subscription;
use crate::registry::{payloads, Observation, SessionRegistry, Snapshot};
use crate::request::{count_of, parse_count};
use crate::session::{Contribution, Finish, SessionModel, SessionState};

verus! {

/// The answer to one request.
pub enum Reply {
    /// A session was created. `document` is the JSON object that tells the
    /// caller its code: `{"session_code":"..."}`.
    Created { code: String, document: String },
    /// The contribution was taken, with what became of it.
    BufferAdded(Contribution),
    /// The session is still active; none of its data is handed out.
    NotReady,
    /// The session has finished; these are its contributions, assembled.
    Audio(Vec<u8>),
    /// The session is active; the subscription is owed its events from now
    /// on.
    Stream(Subscription),
    /// The session has already finished: the stream consists of the
    /// `finished` frame alone.
    StreamFinished,
    /// The request to finish was taken, with what it did.
    Finished(Finish),
    /// The request failed, for this reason.
    Failed(ErrorKind),
}

impl Reply {
    /// The HTTP status that goes with this reply: a status below 300 for
    /// every reply but `Failed`, whose status is that of its kind.
    pub open spec fn status_of(self) -> u16 {
        match self {
            Reply::Created { .. } => 201,
            Reply::NotReady => 202,
            Reply::Failed(kind) => kind.status_of(),
            _ => 200,
        }
    }

    /// The words that go with this reply, where it carries no data of its
    /// own. A contribution that was dropped because its session had
    /// finished is told so, in words of its own.
    pub open spec fn message_of(self) -> Option<Seq<char>> {
        match self {
            Reply::BufferAdded(Contribution::Discarded) => Some(
                "Session already finished, audio buffer discarded"@,
            ),
            Reply::BufferAdded(_) => Some("Audio buffer added successfully to the session"@),
            Reply::NotReady => Some("Session not finished yet"@),
            Reply::Finished(_) => Some("Session finished"@),
            Reply::Failed(kind) => Some(kind.message_of()),
            _ => None,
        }
    }

    /// The response headers that go with this reply: an event stream is
    /// announced as one and is not to be cached or cut short; the other
    /// replies need no header of their own.
    pub open spec fn headers_of(self) -> Seq<(Seq<char>, Seq<char>)> {
        match self {
            Reply::Stream(_) | Reply::StreamFinished => seq![
                ("Content-Type"@, "text/event-stream"@),
                ("Cache-Control"@, "no-cache"@),
                ("Connection"@, "keep-alive"@),
            ],
            _ => Seq::empty(),
        }
    }

    /// The HTTP status that goes with this reply.
    pub fn status(&self) -> (status: u16)
        ensures
            status == self.status_of(),
    {
        match self {
            Reply::Created { .. } => 201,
            Reply::NotReady => 202,
            Reply::Failed(kind) => kind.status(),
            _ => 200,
        }
    }

    /// The response headers that go with this reply.
    pub fn headers(&self) -> (headers: Vec<(&'static str, &'static str)>)
        ensures
            header_texts(headers@) == self.headers_of(),
    {
        let mut headers: Vec<(&'static str, &'static str)> = Vec::new();
        match self {
            Reply::Stream(_) | Reply::StreamFinished => {
                headers.push(("Content-Type", "text/event-stream"));
                headers.push(("Cache-Control", "no-cache"));
                headers.push(("Connection", "keep-alive"));
            },
            _ => {},
        }
        headers
    }

    /// The words that go with this reply, where it carries no data of its
    /// own.
    pub fn message(&self) -> (text: Option<&'static str>)
        ensures
            match self.message_of() {
                Some(words) => text matches Some(t) && t@ == words,
                None => text is None,
            },
    {
        match self {
            Reply::BufferAdded(Contribution::Discarded) => Some(
                "Session already finished, audio buffer discarded",
            ),
            Reply::BufferAdded(_) => Some("Audio buffer added successfully to the session"),
            Reply::NotReady => Some("Session not finished yet"),
            Reply::Finished(_) => Some("Session finished"),
            Reply::Failed(kind) => Some(kind.message()),
            _ => None,
        }
    }
}

/// The names and values that a list of headers holds, in order.
pub open spec fn header_texts(headers: Seq<(&'static str, &'static str)>) -> Seq<
    (Seq<char>, Seq<char>),
> {
    Seq::new(headers.len(), |i: int| (headers[i].0@, headers[i].1@))
}

/// No failure passes for a success: a reply has a status of 400 or above
/// exactly if it is `Failed`.
pub proof fn lemma_failure_is_never_masked(reply: Reply)
    ensures
        reply.status_of() >= 400 <==> reply is Failed,
{
}

/// The text of the JSON object that has the one member `key`, a string of
/// value `value`, as `serde_json` writes it in its compact form.
pub uninterp spec fn json_member_text(key: Seq<char>, value: Seq<char>) -> Seq<char>;

/// Whether `text` stands between quotes in JSON just as it is: it holds no
/// quote, no backslash and no control character.
pub open spec fn is_plain(text: Seq<char>) -> bool {
    forall|i: int|
        0 <= i < text.len() ==> (#[trigger] text[i]) != '"' && text[i] != '\\' && text[i] >= ' '
}

/// The JSON object with the one member `key`, a string of value `value`,
/// written in compact form, for texts that need no escaping.
pub open spec fn plain_member_text(key: Seq<char>, value: Seq<char>) -> Seq<char> {
    "{\""@ + key + "\":\""@ + value + "\"}"@
}

/// The document that tells a caller the code of its new session.
pub open spec fn session_document(code: Seq<char>) -> Seq<char> {
    plain_member_text("session_code"@, code)
}

/// Builds a `serde_json::Value` object with the one member `key`, whose
/// value is the string `value`, and calls `to_string` on it. The result
/// depends on the two texts alone, and the contract gives it a name. Of
/// texts that hold no quote, no backslash and no character below the
/// space, which are the only ones that `serde_json` escapes, the contract
/// also claims the text itself: brace, quoted key, colon, quoted value,
/// brace, with nothing between them.
#[verifier::external_body]
fn json_member(key: &str, value: &str) -> (text: String)
    ensures
        text@ == json_member_text(key@, value@),
        is_plain(key@) && is_plain(value@) ==> text@ == plain_member_text(key@, value@),
{
    let mut object = serde_json::Map::new();
    object.insert(key.to_owned(), serde_json::Value::String(value.to_owned()));
    serde_json::Value::Object(object).to_string()
}

/// The bytes that follow each contribution in an assembled session: five
/// equals signs.
pub open spec fn marker() -> Seq<u8> {
    seq![0x3du8, 0x3du8, 0x3du8, 0x3du8, 0x3du8]
}

/// The contributions of a session as one byte sequence: each contribution
/// in arrival order, each followed by the marker.
pub open spec fn assembled(contributions: Seq<Seq<u8>>) -> Seq<u8>
    decreases contributions.len(),
{
    if contributions.len() == 0 {
        Seq::empty()
    } else {
        assembled(contributions.drop_last()) + contributions.last() + marker()
    }
}

/// Concatenates `buffers`, each followed by the marker.
pub fn assemble(buffers: &Vec<Vec<u8>>) -> (bytes: Vec<u8>)
    ensures
        bytes@ == assembled(payloads(buffers@)),
{
    let mut bytes: Vec<u8> = Vec::new();
    let mut i: usize = 0;
    while i < buffers.len()
        invariant
            i <= buffers.len(),
            bytes@ == assembled(payloads(buffers@).take(i as int)),
        decreases buffers.len() - i,
    {
        let ghost done = payloads(buffers@).take(i as int);
        let ghost longer = payloads(buffers@).take(i + 1);
        assert(longer.drop_last() =~= done);
        let buffer = &buffers[i];
        let mut j: usize = 0;
        while j < buffer.len()
            invariant
                j <= buffer.len(),
                bytes@ == assembled(done) + buffer@.take(j as int),
            decreases buffer.len() - j,
        {
            bytes.push(buffer[j]);
            j += 1;
        }
        let mut k: usize = 0;
        while k < 5
            invariant
                k <= 5,
                bytes@ == assembled(done) + buffer@ + marker().take(k as int),
            decreases 5 - k,
        {
            bytes.push(0x3d);
            k += 1;
        }
        i += 1;
    }
    assert(payloads(buffers@).take(i as int) =~= payloads(buffers@));
    bytes
}

/// Creates a session.
///
/// `expected` is the number of contributors, written in decimal digits; it
/// is fixed here, once and for all. `metadata` is kept as it is; where the
/// request carries none, the session's metadata is empty.
///
/// The code is drawn at random. Whatever is drawn, either the reply is
/// `Created` and the registry has gained, under a code that was free, one
/// active session without contributions, or the code was taken, the reply
/// is `ResourceExhaustion` and nothing has changed. While no code is taken,
/// the reply is `Created`.
pub fn create_session(
    state: &mut SessionRegistry,
    metadata: Option<&str>,
    expected: Option<&str>,
) -> (reply: Reply)
    requires
        old(state).wf(),
    ensures
        final(state).wf(),
        expected matches Some(text) && count_of(text@) is Some && (forall|code: Seq<char>|
            is_code(code) ==> !old(state)@.contains_key(code)) ==> reply is Created,
        match expected {
            Some(text) if count_of(text@) is Some => match reply {
                Reply::Created { code, document } => {
                    &&& is_code(code@)
                    &&& !old(state)@.contains_key(code@)
                    &&& final(state)@ == old(state)@.insert(
                        code@,
                        SessionModel::fresh(
                            match metadata {
                                Some(m) => m@,
                                None => Seq::empty(),
                            },
                            count_of(text@)->0 as nat,
                        ),
                    )
                    &&& document@ == session_document(code@)
                },
                Reply::Failed(ErrorKind::ResourceExhaustion) => final(state)@ == old(state)@,
                _ => false,
            },
            _ => reply == Reply::Failed(ErrorKind::MalformedRequest) && final(state)@ == old(
                state,
            )@,
        },
{
    let expected = match expected {
        Some(text) => match parse_count(text) {
            Some(count) => count,
            None => {
                return Reply::Failed(ErrorKind::MalformedRequest);
            },
        },
        None => {
            return Reply::Failed(ErrorKind::MalformedRequest);
        },
    };
    let metadata = match metadata {
        Some(m) => m.to_owned(),
        None => String::new(),
    };
    match state.create_session(metadata, expected) {
        Ok(code) => {
            proof {
                reveal_strlit("session_code");
                lemma_code_characters(code@);
            }
            let document = json_member("session_code", code.as_str());
            Reply::Created { code, document }
        },
        Err(kind) => Reply::Failed(kind),
    }
}

/// Adds `payload` to the session that `session_code` names.
pub fn add_buffer(
    state: &mut SessionRegistry,
    session_code: Option<&str>,
    payload: Vec<u8>,
) -> (reply: Reply)
    requires
        old(state).wf(),
    ensures
        final(state).wf(),
        match session_code {
            None => reply == Reply::Failed(ErrorKind::MalformedRequest) && final(state)@ == old(
                state,
            )@,
            Some(code) => if old(state)@.contains_key(code@) {
                &&& reply == Reply::BufferAdded(old(state)@[code@].contribution(payload@))
                &&& final(state)@ == old(state)@.insert(
                    code@,
                    old(state)@[code@].contributed(payload@),
                )
            } else {
                reply == Reply::Failed(ErrorKind::SessionNotFound) && final(state)@ == old(state)@
            },
        },
{
    match session_code {
        None => Reply::Failed(ErrorKind::MalformedRequest),
        Some(code) => match state.contribute(code, payload) {
            Ok(contribution) => Reply::BufferAdded(contribution),
            Err(kind) => Reply::Failed(kind),
        },
    }
}

/// Reads the session that `session_code` names.
///
/// An active session gives `NotReady`, never a part of its data. A finished
/// session gives all its contributions in arrival order, each followed by
/// the marker. The session stays in the registry.
pub fn get_session(state: &SessionRegistry, session_code: Option<&str>) -> (reply: Reply)
    requires
        state.wf(),
    ensures
        match session_code {
            None => reply == Reply::Failed(ErrorKind::MalformedRequest),
            Some(code) => if !state@.contains_key(code@) {
                reply == Reply::Failed(ErrorKind::SessionNotFound)
            } else if state@[code@].state == SessionState::Active {
                reply == Reply::NotReady
            } else {
                reply matches Reply::Audio(bytes) && bytes@ == assembled(
                    state@[code@].contributions,
                )
            },
        },
{
    match session_code {
        None => Reply::Failed(ErrorKind::MalformedRequest),
        Some(code) => match state.get_session(code) {
            Ok(Snapshot::Ready(buffers)) => Reply::Audio(assemble(buffers)),
            Ok(Snapshot::NotReady) => Reply::NotReady,
            Err(kind) => Reply::Failed(kind),
        },
    }
}

/// Opens the event stream of the session that `session_code` names.
///
/// On an active session the reply carries a subscription made at the end
/// of what the session has published so far. Observing changes nothing in
/// the registry: how many contributors a session expects was fixed when it
/// was created.
pub fn sse_handler(state: &SessionRegistry, session_code: Option<&str>) -> (reply: Reply)
    requires
        state.wf(),
    ensures
        match session_code {
            None => reply == Reply::Failed(ErrorKind::MalformedRequest),
            Some(code) => if !state@.contains_key(code@) {
                reply == Reply::Failed(ErrorKind::SessionNotFound)
            } else if state@[code@].state == SessionState::Active {
                reply matches Reply::Stream(subscription) && subscription.starts_at()
                    == state@[code@].published.len()
            } else {
                reply == Reply::StreamFinished
            },
        },
{
    match session_code {
        None => Reply::Failed(ErrorKind::MalformedRequest),
        Some(code) => match state.observe(code) {
            Ok(Observation::Live(subscription)) => Reply::Stream(subscription),
            Ok(Observation::Finished) => Reply::StreamFinished,
            Err(kind) => Reply::Failed(kind),
        },
    }
}

/// Finishes the session that `session_code` names, however many
/// contributions it has.
pub fn set_finished(state: &mut SessionRegistry, session_code: Option<&str>) -> (reply: Reply)
    requires
        old(state).wf(),
    ensures
        final(state).wf(),
        match session_code {
            None => reply == Reply::Failed(ErrorKind::MalformedRequest) && final(state)@ == old(
                state,
            )@,
            Some(code) => if old(state)@.contains_key(code@) {
                &&& reply == Reply::Finished(old(state)@[code@].finish())
                &&& final(state)@ == old(state)@.insert(code@, old(state)@[code@].finished())
            } else {
                reply == Reply::Failed(ErrorKind::SessionNotFound) && final(state)@ == old(state)@
            },
        },
{
    match session_code {
        None => Reply::Failed(ErrorKind::MalformedRequest),
        Some(code) => match state.finish(code) {
            Ok(finish) => Reply::Finished(finish),
            Err(kind) => Reply::Failed(kind),
        },
    }
}

} // verus!
