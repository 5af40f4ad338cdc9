//! The messages exchanged with the browser extension, and what the daemon
//! does with each outcome of reading one.
use vstd::prelude::*;

verus! {

/// A link that the extension followed through a redirecting wrapper.
#[derive(Debug, Clone)]
pub struct ResolvedUrlData {
    pub original_url: String,
    pub resolved_url: String,
    pub timestamp_ms: u64,
}

/// A message from the extension.
#[derive(Debug, Clone)]
pub enum ExtensionMessage {
    ResolvedUrl(ResolvedUrlData),
}

/// The body of an acknowledgement.
#[derive(Debug, Clone)]
pub struct AckData {
    pub status: String,
    pub message: String,
}

/// The body of an error report.
#[derive(Debug, Clone)]
pub struct ErrorData {
    pub status: String,
    pub message: String,
}

/// A message to the extension.
#[derive(Debug, Clone)]
pub enum NativeMessage {
    Ack(AckData),
    Error(ErrorData),
}

/// How reading a message from the extension turned out.
#[derive(Debug, Clone)]
pub enum ReadOutcome {
    /// A whole message arrived.
    Received(ExtensionMessage),
    /// The extension closed the channel.
    Disconnected,
    /// The channel or the message was unreadable.
    Failed,
}

/// What the daemon does after reading from the extension.
#[derive(Debug, Clone, PartialEq, Eq)]
pub enum DaemonAction {
    /// Route the resolved link, then read the next message.
    Route(String),
    /// End the process with the exit code.
    Exit(i32),
    /// Stop reading messages, leaving the process running.
    Stop,
}

/// The length of the payload announced by a length prefix; a zero length
/// means that the extension has disconnected.
pub fn payload_length(prefix: u32) -> (r: Option<usize>)
    ensures
        r == (if prefix == 0 {
            None
        } else {
            Some(prefix as usize)
        }),
{
    if prefix == 0 {
        None
    } else {
        Some(prefix as usize)
    }
}

/// The daemon's response to a read: a resolved link is routed; a
/// disconnection ends the process with code 0 and a failure with code 1 when
/// the daemon is to exit on disconnect, and otherwise stops the reading loop.
pub fn daemon_step(outcome: ReadOutcome, exit_on_disconnect: bool) -> (r: DaemonAction)
    ensures
        match outcome {
            ReadOutcome::Received(ExtensionMessage::ResolvedUrl(data)) => r matches DaemonAction::Route(u)
                && u@ == data.resolved_url@,
            ReadOutcome::Disconnected => r == if exit_on_disconnect {
                DaemonAction::Exit(0)
            } else {
                DaemonAction::Stop
            },
            ReadOutcome::Failed => r == if exit_on_disconnect {
                DaemonAction::Exit(1)
            } else {
                DaemonAction::Stop
            },
        },
{
    match outcome {
        ReadOutcome::Received(ExtensionMessage::ResolvedUrl(data)) => DaemonAction::Route(data.resolved_url),
        ReadOutcome::Disconnected => if exit_on_disconnect {
            DaemonAction::Exit(0)
        } else {
            DaemonAction::Stop
        },
        ReadOutcome::Failed => if exit_on_disconnect {
            DaemonAction::Exit(1)
        } else {
            DaemonAction::Stop
        },
    }
}

/// The reply to the extension after routing a resolved link: an
/// acknowledgement when routing succeeded, nothing when it failed.
pub fn routing_reply(routed: bool) -> (r: Option<NativeMessage>)
    ensures
        routed ==> (r matches Some(NativeMessage::Ack(ack)) && ack.status@ == "success"@ && ack.message@
            == "URL routed successfully"@),
        !routed ==> r is None,
{
    if routed {
        Some(
            NativeMessage::Ack(
                AckData { status: "success".to_owned(), message: "URL routed successfully".to_owned() },
            ),
        )
    } else {
        None
    }
}

} // verus!
