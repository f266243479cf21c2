use vstd::prelude::*;

verus! {

#[verifier::external_type_specification]
#[verifier::external_body]
pub struct ExIoError(std::io::Error);

/// The reason the device gives for an incomplete framebuffer.
#[derive(Debug, Clone, Copy, PartialEq, Eq, Structural)]
pub enum FrameBufferStatus {
    Undefined,
    IncompleteAttachment,
    IncompleteMissingAttachment,
    IncompleteDrawBuffer,
    IncompleteReadBuffer,
    AttachmentObjectType,
    Unsupported,
    IncompleteMultisample,
    IncompleteLayerTargets,
}

/// Every failure of the binding layer.
#[derive(Debug)]
pub enum GLError {
    CouldNotCreateBuffer,
    CouldNotCreateTexture,
    CouldNotCreateVAO,
    IsntUniformBuffer,
    ImageTypeNotImplemented,
    LinkProgram(String),
    CompileError(String),
    FileError(std::io::Error),
    InexistentOrUndeclaredAttribute(String),
    InexistentUniform(String),
    InexistentUniformBuffer(String),
    UnregisteredVAO,
    NoBufferAttached,
    CannotGetAttributeCountOnProgram,
    AttributeNameTooLong,
    AttributeNameEncodingError,
    BufferTooSmallForConversion,
    TooManyTextures,
    CannotGetMaxTexUnits,
    CouldNotCreateFrameBuffer,
    IncompleteFrameBuffer(FrameBufferStatus),
}

} // verus!
