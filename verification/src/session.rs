use vstd::prelude::*;
use crate::error::AudioError;

verus! {

/// Where a capture session stands, from device lookup to the extracted
/// clip.  The negotiated rate and channel count travel with the states
/// that know them.
#[derive(Clone, Copy, Debug, PartialEq, Eq, Structural)]
pub enum SessionState {
    /// Nothing resolved yet.
    Starting,
    /// The default input device exists.
    DeviceReady,
    /// The device's default input configuration was accepted.
    Configured { sample_rate: u32, channels: u16 },
    /// The input stream was built and started.
    Streaming { sample_rate: u32, channels: u16 },
    /// The stream runs and the one-shot interrupt handler is registered;
    /// the controller blocks on the notification.
    Armed { sample_rate: u32, channels: u16 },
    /// The interrupt arrived: the stream is to be stopped and the clip
    /// extracted.
    Done { sample_rate: u32, channels: u16 },
    /// A setup step failed; every such failure is fatal, with no retry.
    Failed { error: AudioError },
}

/// What the outside collaborators report back to the session, one step at
/// a time.
#[derive(Clone, Copy, Debug, PartialEq, Eq, Structural)]
pub enum SessionEvent {
    /// The default input device was found.
    DeviceFound,
    /// No default input device exists.
    DeviceMissing,
    /// The device reported its default input configuration.
    ConfigAccepted { sample_rate: u32, channels: u16 },
    /// The device rejected the configuration query.
    ConfigRejected,
    /// The input stream was built and activated.
    StreamRunning,
    /// The device rejected stream construction or activation.
    StreamRejected,
    /// The one-shot interrupt handler was registered.
    HandlerRegistered,
    /// Interrupt-handler registration failed.
    HandlerRejected,
    /// The interrupt notification arrived.
    Interrupted,
}

/// The transition relation of a capture session.
///
/// Each setup step either advances the session or fails it with the error
/// of that step; a reported configuration is accepted only when its rate
/// and channel count are usable.  `Done` and `Failed` absorb every event,
/// and an event that does not belong to the current step leaves the
/// session where it stands.
pub open spec fn spec_step(state: SessionState, event: SessionEvent) -> SessionState {
    match (state, event) {
        (SessionState::Starting, SessionEvent::DeviceFound) => SessionState::DeviceReady,
        (SessionState::Starting, SessionEvent::DeviceMissing) => (SessionState::Failed {
            error: AudioError::DeviceUnavailable,
        }),
        (SessionState::DeviceReady, SessionEvent::ConfigAccepted { sample_rate, channels }) => {
            if sample_rate > 0 && channels > 0 {
                SessionState::Configured { sample_rate, channels }
            } else {
                SessionState::Failed { error: AudioError::ConfigurationError }
            }
        },
        (SessionState::DeviceReady, SessionEvent::ConfigRejected) => (SessionState::Failed {
            error: AudioError::ConfigurationError,
        }),
        (
            SessionState::Configured { sample_rate, channels },
            SessionEvent::StreamRunning,
        ) => SessionState::Streaming { sample_rate, channels },
        (SessionState::Configured { .. }, SessionEvent::StreamRejected) => (SessionState::Failed {
            error: AudioError::StreamError,
        }),
        (
            SessionState::Streaming { sample_rate, channels },
            SessionEvent::HandlerRegistered,
        ) => SessionState::Armed { sample_rate, channels },
        (SessionState::Streaming { .. }, SessionEvent::HandlerRejected) => (SessionState::Failed {
            error: AudioError::SignalError,
        }),
        (
            SessionState::Armed { sample_rate, channels },
            SessionEvent::Interrupted,
        ) => SessionState::Done { sample_rate, channels },
        _ => state,
    }
}

/// Advances the session by one observed event.
pub fn step(state: SessionState, event: SessionEvent) -> (next: SessionState)
    ensures
        next == spec_step(state, event),
{
    match (state, event) {
        (SessionState::Starting, SessionEvent::DeviceFound) => SessionState::DeviceReady,
        (SessionState::Starting, SessionEvent::DeviceMissing) => SessionState::Failed {
            error: AudioError::DeviceUnavailable,
        },
        (SessionState::DeviceReady, SessionEvent::ConfigAccepted { sample_rate, channels }) => {
            if sample_rate > 0 && channels > 0 {
                SessionState::Configured { sample_rate, channels }
            } else {
                SessionState::Failed { error: AudioError::ConfigurationError }
            }
        },
        (SessionState::DeviceReady, SessionEvent::ConfigRejected) => SessionState::Failed {
            error: AudioError::ConfigurationError,
        },
        (
            SessionState::Configured { sample_rate, channels },
            SessionEvent::StreamRunning,
        ) => SessionState::Streaming { sample_rate, channels },
        (SessionState::Configured { .. }, SessionEvent::StreamRejected) => SessionState::Failed {
            error: AudioError::StreamError,
        },
        (
            SessionState::Streaming { sample_rate, channels },
            SessionEvent::HandlerRegistered,
        ) => SessionState::Armed { sample_rate, channels },
        (SessionState::Streaming { .. }, SessionEvent::HandlerRejected) => SessionState::Failed {
            error: AudioError::SignalError,
        },
        (
            SessionState::Armed { sample_rate, channels },
            SessionEvent::Interrupted,
        ) => SessionState::Done { sample_rate, channels },
        (other, _) => other,
    }
}

/// A session state is well formed when every rate and channel count it
/// carries is usable: a positive rate and at least one channel.
pub open spec fn state_wf(state: SessionState) -> bool {
    match state {
        SessionState::Configured { sample_rate, channels } => sample_rate > 0 && channels > 0,
        SessionState::Streaming { sample_rate, channels } => sample_rate > 0 && channels > 0,
        SessionState::Armed { sample_rate, channels } => sample_rate > 0 && channels > 0,
        SessionState::Done { sample_rate, channels } => sample_rate > 0 && channels > 0,
        _ => true,
    }
}

/// Every step preserves well-formedness: a session never reaches a
/// configured, streaming, armed or done state carrying an unusable rate or
/// channel count.
pub proof fn lemma_step_preserves_wf(state: SessionState, event: SessionEvent)
    requires
        state_wf(state),
    ensures
        state_wf(spec_step(state, event)),
{
}

/// `Done` and `Failed` are terminal: no event moves the session out of
/// them.  In particular only the first interrupt matters; a repeated one
/// changes nothing.
pub proof fn lemma_terminal_states(state: SessionState, event: SessionEvent)
    ensures
        state matches SessionState::Done { .. } ==> spec_step(state, event) == state,
        state matches SessionState::Failed { .. } ==> spec_step(state, event) == state,
{
}

} // verus!
