use vstd::prelude::*;

verus! {

/// Why an invocation of the harness stopped.
#[derive(Clone, Copy, Debug, PartialEq, Eq, Structural)]
pub enum HarnessError {
    /// No compute-capable adapter was found.
    AdapterUnavailable,
    /// The selected adapter could not produce a logical device.
    DeviceCreationFailed,
    /// The output buffer would exceed the device's largest buffer.
    BufferSizeExceedsLimit,
    /// The kernel does not provide the agreed entry point.
    ShaderCompileError,
    /// The binding layout and the kernel's resource slots disagree.
    BindGroupMismatch,
    /// The device rejected the mapping of the staging buffer.
    MapFailed,
}

/// The name of each error kind.
pub open spec fn error_name_spec(e: HarnessError) -> Seq<char> {
    match e {
        HarnessError::AdapterUnavailable => "AdapterUnavailable"@,
        HarnessError::DeviceCreationFailed => "DeviceCreationFailed"@,
        HarnessError::BufferSizeExceedsLimit => "BufferSizeExceedsLimit"@,
        HarnessError::ShaderCompileError => "ShaderCompileError"@,
        HarnessError::BindGroupMismatch => "BindGroupMismatch"@,
        HarnessError::MapFailed => "MapFailed"@,
    }
}

impl HarnessError {
    /// The name of the error kind.
    pub fn name(&self) -> (r: &'static str)
        ensures
            r@ == error_name_spec(*self),
    {
        match self {
            HarnessError::AdapterUnavailable => "AdapterUnavailable",
            HarnessError::DeviceCreationFailed => "DeviceCreationFailed",
            HarnessError::BufferSizeExceedsLimit => "BufferSizeExceedsLimit",
            HarnessError::ShaderCompileError => "ShaderCompileError",
            HarnessError::BindGroupMismatch => "BindGroupMismatch",
            HarnessError::MapFailed => "MapFailed",
        }
    }
}

} // verus!
