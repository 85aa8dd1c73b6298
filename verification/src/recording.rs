//! The state of the microphone recorder, and the names of the files it
//! records to.
use vstd::prelude::*;
use crate::text::{concat_str, owned};

verus! {

pub const RECORDING_PREFIX: &'static str = "whispr-";

pub const RECORDING_SUFFIX: &'static str = ".wav";

/// A lower-case hexadecimal digit.
pub open spec fn is_lower_hex(c: char) -> bool {
    ('0' <= c && c <= '9') || ('a' <= c && c <= 'f')
}

/// The hyphenated lower-case text of a random (version 4, RFC 4122 variant)
/// UUID: 36 characters, hyphens at 8, 13, 18 and 23, hexadecimal digits
/// elsewhere, `4` at 14 and one of `8`, `9`, `a`, `b` at 19.
pub open spec fn is_uuid_v4_text(s: Seq<char>) -> bool {
    &&& s.len() == 36
    &&& forall|i: int| 0 <= i < 36 ==> (if i == 8 || i == 13 || i == 18 || i == 23 {
        #[trigger] s[i] == '-'
    } else {
        is_lower_hex(s[i])
    })
    &&& s[14] == '4'
    &&& (s[19] == '8' || s[19] == '9' || s[19] == 'a' || s[19] == 'b')
}

/// `Uuid::new_v4().to_string()`: a fresh random UUID in its hyphenated text.
/// Which UUID comes out is chance; the contract states only its shape.
#[verifier::external_body]
fn new_uuid_text() -> (s: String)
    ensures
        is_uuid_v4_text(s@),
{
    uuid::Uuid::new_v4().to_string()
}

/// The name of the recording with id `id`: `whispr-`, the id, `.wav`.
pub fn recording_file_name_for(id: &str) -> (name: String)
    ensures
        name@ == RECORDING_PREFIX@ + id@ + RECORDING_SUFFIX@,
{
    let head = concat_str(RECORDING_PREFIX, id);
    concat_str(head.as_str(), RECORDING_SUFFIX)
}

/// A name for a new recording: `whispr-`, a fresh random UUID, `.wav`.
pub fn recording_file_name() -> (name: String)
    ensures
        exists|id: Seq<char>| is_uuid_v4_text(id) && name@ == RECORDING_PREFIX@ + id + RECORDING_SUFFIX@,
{
    let id = new_uuid_text();
    recording_file_name_for(id.as_str())
}

/// Whether the recorder is recording, and to which file; `P` is the type of
/// the file's path.
#[derive(Debug)]
pub enum RecordingSession<P> {
    Idle,
    Recording(P),
}

/// A `RecordingSession`, as the contracts see it: the file being recorded to,
/// if any.
pub open spec fn session_file<P>(s: RecordingSession<P>) -> Option<P> {
    match s {
        RecordingSession::Idle => None,
        RecordingSession::Recording(path) => Some(path),
    }
}

/// The file being recorded to after a start request, when a new recording
/// would go to `opened`: a start while recording keeps the running one.
pub open spec fn after_start<P>(current: Option<P>, opened: P) -> Option<P> {
    match current {
        None => Some(opened),
        Some(p) => Some(p),
    }
}

/// A stop request gives back the file being recorded to, if any, and leaves
/// the recorder idle.
pub open spec fn stop_result<P>(current: Option<P>) -> Option<P> {
    current
}

impl<P> RecordingSession<P> {
    /// A recorder that is not recording.
    pub fn new() -> (s: RecordingSession<P>)
        ensures
            session_file(s) == None::<P>,
    {
        RecordingSession::Idle
    }

    /// Whether a start request has to open a new recording: only when none is
    /// running.
    pub fn start_needed(&self) -> (b: bool)
        ensures
            b == (session_file(*self) is None),
    {
        match self {
            RecordingSession::Idle => true,
            RecordingSession::Recording(_) => false,
        }
    }

    /// Notes that a recording to `path` has started; a recording already
    /// running is kept.
    pub fn started(&mut self, path: P)
        ensures
            session_file(*final(self)) == after_start(session_file(*old(self)), path),
    {
        if self.start_needed() {
            *self = RecordingSession::Recording(path);
        }
    }

    /// Stops: gives back the file that was being recorded to, if any, and the
    /// recorder is idle.
    pub fn stop(&mut self) -> (path: Option<P>)
        ensures
            session_file(*final(self)) == None::<P>,
            path == stop_result(session_file(*old(self))),
    {
        let mut previous = RecordingSession::Idle;
        std::mem::swap(self, &mut previous);
        match previous {
            RecordingSession::Idle => None,
            RecordingSession::Recording(path) => Some(path),
        }
    }
}

/// Starting and stopping: a stop after a start on an idle recorder gives back
/// the file that the start opened; a second start while recording keeps the
/// first file; a stop on an idle recorder gives nothing.
pub proof fn law_start_then_stop<P>(first: P, second: P)
    ensures
        stop_result(after_start(None, first)) == Some(first),
        stop_result(after_start(after_start(None, first), second)) == Some(first),
        stop_result(None::<P>) == None::<P>,
{
}


/// The parts of a recording's file name, word for word.
pub proof fn law_recording_texts()
    ensures
        RECORDING_PREFIX@ == "whispr-"@,
        RECORDING_SUFFIX@ == ".wav"@,
{
}

} // verus!
