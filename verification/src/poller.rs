//! The background refresh poller's decisions.
//!
//! A poller task calls a connector's listing operation on a fixed interval
//! and publishes the names it got over the bounded update channel. Waiting,
//! the backend call itself, and the channel sends happen outside the library;
//! each iteration hands what happened to `poll_step`, which decides whether
//! to publish, to stop cleanly, or to end with the error that surfaces at the
//! join point.

use vstd::prelude::*;

verus! {

/// A connector transport or authorization failure, as the backend reported
/// it.
pub struct BackendError {
    /// The backend's message.
    pub message: String,
}

/// Why a poller task ended before shutdown was observed.
pub enum PollerError {
    /// The listing call failed; fatal to this poller.
    Backend(BackendError),
    /// The update channel's peer was gone when publishing.
    ChannelClosed,
}

/// One happening a poller iteration turns on.
pub enum PollEvent {
    /// The shutdown broadcast was observed.
    Shutdown,
    /// The interval elapsed and the listing call returned.
    Listed(Result<Vec<String>, BackendError>),
    /// The previous publish failed because the channel's peer exited.
    PublishFailed,
}

/// What the poller does next.
pub enum PollControl {
    /// Terminate cleanly, publishing nothing further.
    Stop,
    /// Terminate with the error, to surface at the join point.
    Fail(PollerError),
    /// Publish the freshly listed names, then keep polling.
    Publish(Vec<String>),
}

/// Decides one poller iteration: observed shutdown stops the task cleanly
/// without publishing, a successful listing is published exactly as it came,
/// a failed listing is fatal to the task, and a failed publish reports the
/// closed channel.
pub fn poll_step(event: PollEvent) -> (control: PollControl)
    ensures
        (match event {
            PollEvent::Shutdown => control == PollControl::Stop,
            PollEvent::Listed(listing) => (match listing {
                Ok(names) => control == PollControl::Publish(names),
                Err(e) => control == PollControl::Fail(PollerError::Backend(e)),
            }),
            PollEvent::PublishFailed => control == PollControl::Fail(PollerError::ChannelClosed),
        }),
{
    match event {
        PollEvent::Shutdown => PollControl::Stop,
        PollEvent::Listed(listing) => match listing {
            Ok(names) => PollControl::Publish(names),
            Err(e) => PollControl::Fail(PollerError::Backend(e)),
        },
        PollEvent::PublishFailed => PollControl::Fail(PollerError::ChannelClosed),
    }
}

} // verus!
