use vstd::prelude::*;

verus! {

/// The scalar kind of the components of a value handed to the device.
#[derive(Debug, Clone, Copy, PartialEq, Eq, Structural)]
pub enum GLType {
    Int,
    Uint,
    Byte,
    Ubyte,
    Short,
    Ushort,
    Float,
}

impl GLType {
    pub open spec fn spec_is_integer(self) -> bool {
        !(self is Float)
    }

    /// Whether the device reads this kind as an integer attribute (every kind
    /// but `Float`).
    pub fn is_integer(&self) -> (r: bool)
        ensures
            r == self.spec_is_integer(),
    {
        match self {
            GLType::Float => false,
            GLType::Int => true,
            GLType::Uint => true,
            GLType::Byte => true,
            GLType::Ubyte => true,
            GLType::Short => true,
            GLType::Ushort => true,
        }
    }
}

/// Layout descriptor: a value is `n_components` scalars of kind `gl_type`.
#[derive(Debug, Clone, Copy, PartialEq, Eq, Structural)]
pub struct GPUInfo {
    pub n_components: usize,
    pub gl_type: GLType,
}

/// A type whose values the device can read, with their layout.
pub trait GPUData {
    spec fn spec_info() -> GPUInfo;

    fn info() -> (r: GPUInfo)
        ensures
            r == Self::spec_info(),
    ;
}

/// A type usable as an index into vertex data.
pub trait GPUIndex: GPUData {

}

impl GPUData for i32 {
    open spec fn spec_info() -> GPUInfo {
        GPUInfo { n_components: 1, gl_type: GLType::Int }
    }

    fn info() -> (r: GPUInfo) {
        GPUInfo { n_components: 1, gl_type: GLType::Int }
    }
}

impl GPUData for u32 {
    open spec fn spec_info() -> GPUInfo {
        GPUInfo { n_components: 1, gl_type: GLType::Uint }
    }

    fn info() -> (r: GPUInfo) {
        GPUInfo { n_components: 1, gl_type: GLType::Uint }
    }
}

impl GPUIndex for u32 {

}

impl GPUData for u16 {
    open spec fn spec_info() -> GPUInfo {
        GPUInfo { n_components: 1, gl_type: GLType::Ushort }
    }

    fn info() -> (r: GPUInfo) {
        GPUInfo { n_components: 1, gl_type: GLType::Ushort }
    }
}

impl GPUIndex for u16 {

}

impl GPUData for u8 {
    open spec fn spec_info() -> GPUInfo {
        GPUInfo { n_components: 1, gl_type: GLType::Ubyte }
    }

    fn info() -> (r: GPUInfo) {
        GPUInfo { n_components: 1, gl_type: GLType::Ubyte }
    }
}

impl GPUIndex for u8 {

}

} // verus!
