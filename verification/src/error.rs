use vstd::prelude::*;

verus! {

/// The failure modes of capture, resampling and export.
///
/// Every setup failure is fatal and surfaced immediately; there is no retry
/// policy anywhere in this library.
#[derive(Clone, Copy, Debug, PartialEq, Eq, Structural)]
pub enum AudioError {
    /// No default input device exists.
    DeviceUnavailable,
    /// The device rejected the default-configuration query, or the
    /// configuration it reported is unusable (zero rate or zero channels).
    ConfigurationError,
    /// The device rejected stream construction or activation.
    StreamError,
    /// An export path that does not name a `.wav` file.
    InvalidArgument,
    /// A filesystem failure while writing an exported clip.
    IoError,
    /// Interrupt-handler registration or delivery failed.
    SignalError,
}

} // verus!
