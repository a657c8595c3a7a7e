//! Submitting a request to the download daemon: how the daemon's answer,
//! or the lack of one, becomes the submission's outcome.
use vstd::prelude::*;

verus! {

/// Seconds that one submission may take before it counts as failed.
pub const SUBMIT_TIMEOUT_SECS: u64 = 5;

/// Why a submission failed.
#[derive(Debug, Clone)]
pub enum Error {
    /// The RPC transport failed, with its message.
    Connection(String),
    /// The daemon declined the request, with the reason.
    TransmissionRpc(String),
    /// No answer came within the time bound.
    Timeout,
}

/// The text that describes `e`.
pub open spec fn error_text(e: Error) -> Seq<char> {
    match e {
        Error::Connection(m) => "error connecting to Transmission: "@ + m@,
        Error::TransmissionRpc(m) => "Transmission RPC error: "@ + m@,
        Error::Timeout => "connection timed out"@,
    }
}

impl Error {
    /// A description of the failure, for the log.
    pub fn message(&self) -> (r: String)
        ensures
            r@ == error_text(*self),
    {
        match self {
            Error::Connection(m) => String::from_str("error connecting to Transmission: ").concat(
                m.as_str(),
            ),
            Error::TransmissionRpc(m) => String::from_str("Transmission RPC error: ").concat(
                m.as_str(),
            ),
            Error::Timeout => String::from_str("connection timed out"),
        }
    }
}

/// What came back from one add call to the daemon.
#[derive(Debug, Clone)]
pub enum RpcOutcome {
    /// The time bound passed first.
    TimedOut,
    /// The transport failed, with its message.
    Failed(String),
    /// The daemon answered; `accepted` tells whether it added the torrent,
    /// `result` is the answer's result field.
    Answered { accepted: bool, result: String },
}

/// The reason given when the daemon declines the torrent titled `title`.
pub open spec fn rejection_reason(title: Seq<char>, result: Seq<char>) -> Seq<char> {
    "Failed to add torrent `"@ + title + "`: "@ + result
}

/// The outcome of submitting the torrent titled `title`, given what the
/// add call returned.
pub fn add_result(outcome: RpcOutcome, title: &str) -> (r: Result<(), Error>)
    ensures
        match outcome {
            RpcOutcome::TimedOut => r matches Err(Error::Timeout),
            RpcOutcome::Failed(m) => r matches Err(Error::Connection(x)) && x@ == m@,
            RpcOutcome::Answered { accepted, result } => if accepted {
                r is Ok
            } else {
                r matches Err(Error::TransmissionRpc(x)) && x@ == rejection_reason(title@, result@)
            },
        },
{
    match outcome {
        RpcOutcome::TimedOut => Err(Error::Timeout),
        RpcOutcome::Failed(m) => Err(Error::Connection(m)),
        RpcOutcome::Answered { accepted, result } => {
            if accepted {
                Ok(())
            } else {
                let reason = String::from_str("Failed to add torrent `").concat(title).concat(
                    "`: ",
                ).concat(result.as_str());
                Err(Error::TransmissionRpc(reason))
            }
        },
    }
}

} // verus!
