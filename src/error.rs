use vstd::prelude::*;

verus! {

/// Every failure this library reports.
#[derive(Clone, Copy, Debug, PartialEq, Eq, Structural)]
pub enum GpuError {
    /// The command encoder has already been finished.
    EncoderFinished,
    /// The command encoder has a pass open and takes nothing else until it ends.
    PassOpen,
    /// The pass has ended; it records nothing more.
    SessionEnded,
    /// The pass was not begun on this encoder, or the encoder has moved on.
    ForeignEncoder,
    /// An index format other than `uint16` or `uint32`.
    InvalidIndexFormat,
    /// A blend constant with fewer than four components.
    BlendConstantTooShort,
    /// A start and a count whose end does not fit the integer type.
    RangeOverflow,
    /// A query type other than `timestamp` or `occlusion`.
    InvalidQueryType,
    /// A map mode other than `READ` or `WRITE`.
    InvalidMapMode,
    /// The buffer is not mapped.
    NotMapped,
    /// A mapped-range offset that is not a multiple of 8.
    MisalignedOffset,
    /// A mapped-range size that is not a multiple of 4.
    MisalignedSize,
    /// A range that reaches past the end of the buffer.
    OutOfBounds,
    /// A mapped range that overlaps one handed out earlier.
    OverlappingRange,
    /// The device could not map the buffer.
    MapFailed,
    /// The targets given do not match the attachments described: one view
    /// per colour attachment, and a depth view exactly when a depth
    /// attachment is described.
    AttachmentMismatch,
}

} // verus!
