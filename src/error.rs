use vstd::prelude::*;

verus! {

/// A construct that the decoder recognises but the translator does not handle yet.
#[derive(Debug, Clone, Copy, PartialEq, Eq, Structural)]
pub enum Feature {
    /// A container that declares one or more fields.
    FieldDeclarations,
    /// The `aload_0` instruction.
    Aload0,
    /// The `invokespecial` instruction.
    InvokeSpecial,
    /// A call to a method for which no runtime routine exists.
    RuntimeRoutine,
}

/// Every way in which decoding or generation can fail.
#[derive(Debug, Clone, Copy, PartialEq, Eq, Structural)]
pub enum DecodeError {
    /// A read that would go past the end of its buffer, at the given offset.
    OffsetOutOfBounds { offset: usize },
    /// The container does not start with `0xCAFEBABE`.
    InvalidMagicNumber { found: u32 },
    /// A text constant whose payload, starting at the given offset, is not UTF-8.
    InvalidUtf8Payload { offset: usize },
    /// A constant index that is 0 or past the end of the table.
    ConstantIndexOutOfRange { index: u16 },
    /// A constant index whose entry is not of the kind asked for.
    ConstantKindMismatch { index: u16 },
    /// A constant-table tag that is not decoded, and where it was found.
    UnsupportedTag { tag: u8, offset: usize },
    /// An opcode that is not decoded, and where it was found.
    UnsupportedOpcode { opcode: u8, offset: usize },
    /// A construct that is recognised but not handled.
    UnimplementedFeature { feature: Feature },
    /// A branch whose target, its origin plus its offset, lies before the start of the code.
    InvalidBranchTarget { origin: usize },
}

} // verus!
