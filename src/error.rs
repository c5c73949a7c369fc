use vstd::prelude::*;

verus! {

/// Why a report could not be decoded or encoded.
///
/// Every decode error is terminal for that call: no partial value is returned.
#[derive(Debug, Clone, Copy, PartialEq, Eq, Structural)]
pub enum CodecError {
    /// The input is shorter than the layout being decoded needs.
    Truncated,
    /// The polling-rate nibble holds no known rate code.
    UnknownPollingRate,
    /// The effect selector holds no known effect code.
    UnknownEffect,
    /// A button slot or macro event carries an undefined discriminant or bitmask.
    UnknownActionTag,
    /// A media-button slot holds bits outside the defined media keys.
    UnknownMediaBitmask,
    /// A color list holds more colors than its fixed slot count on the wire.
    CapacityExceeded,
}

} // verus!
