//! The terminal result of a task and the taxonomy of its failures.
use vstd::prelude::*;
use crate::artifact::ImageArtifact;

verus! {

/// Which side of the pipeline an error text came from, for consumers that
/// run both a raw data task and an image task.
#[derive(Clone, Debug)]
pub enum ErrCause {
    Data(String),
    Image(String),
}

/// Why a task ended without a success payload.
///
/// `CancellationRequested` is a controlled abort, not a true error: it flows
/// through the same failure channel but stays distinguishable, so a consumer
/// can offer a retry instead of an error banner. `ProtocolViolation` marks a
/// programming error (a second terminal result), never a runtime condition.
#[derive(Clone, Debug)]
pub enum FailureReason {
    /// The consumer asked for cancellation and the worker honored it.
    CancellationRequested,
    /// The source declared no content kind at all.
    MissingMetadata,
    /// The source declared a content kind outside the accepted set; the
    /// unexpected kind's bytes are carried along.
    UnexpectedContentKind(Vec<u8>),
    /// Opening the connection or reading a chunk failed.
    TransportError(String),
    /// The streamed bytes did not decode into an image.
    DecodeError(String),
    /// A terminal result was delivered twice.
    ProtocolViolation,
}

impl FailureReason {
    /// Whether this failure is the controlled abort a consumer asked for.
    pub open spec fn is_cancellation(self) -> bool {
        self matches FailureReason::CancellationRequested
    }

    /// The status text `message` returns for this failure.
    pub open spec fn message_spec(self) -> Seq<char> {
        match self {
            FailureReason::CancellationRequested => "Fetching image canceled."@,
            FailureReason::MissingMetadata => "unable to get content type"@,
            FailureReason::UnexpectedContentKind(_) => "unexpected content kind"@,
            FailureReason::TransportError(detail) => "transport error: "@ + detail@,
            FailureReason::DecodeError(detail) => "decode error: "@ + detail@,
            FailureReason::ProtocolViolation => "terminal result delivered twice"@,
        }
    }

    /// Status text for the consumer to show; the reason's own variant, not
    /// this text, is what a consumer should branch on.
    pub fn message(&self) -> (s: String)
        ensures
            s@ == self.message_spec(),
    {
        match self {
            FailureReason::CancellationRequested => "Fetching image canceled.".to_owned(),
            FailureReason::MissingMetadata => "unable to get content type".to_owned(),
            FailureReason::UnexpectedContentKind(_) => "unexpected content kind".to_owned(),
            FailureReason::TransportError(detail) => {
                let mut s = "transport error: ".to_owned();
                s.append(detail.as_str());
                s
            },
            FailureReason::DecodeError(detail) => {
                let mut s = "decode error: ".to_owned();
                s.append(detail.as_str());
                s
            },
            FailureReason::ProtocolViolation => "terminal result delivered twice".to_owned(),
        }
    }

    /// Whether this failure is the controlled abort a consumer asked for.
    pub fn is_canceled(&self) -> (b: bool)
        ensures
            b == self.is_cancellation(),
    {
        match self {
            FailureReason::CancellationRequested => true,
            _ => false,
        }
    }
}

/// The payload a finished task hands over: raw bytes for a data task, a
/// decoded image for an image task.
pub enum Container {
    Data(Vec<u8>),
    Image(ImageArtifact),
}

/// The single success-or-failure outcome of a task, delivered exactly once
/// per task lifetime.
pub enum TerminalResult {
    Success(Container),
    Failure(FailureReason),
}

} // verus!
