use crate::error::HarnessError;
use crate::grid::{size_for, size_for_spec, ElementLayout, GridConfig};
use vstd::prelude::*;

verus! {

/// The ways a buffer may be used by the device and the host.
#[derive(Clone, Copy, Debug, PartialEq, Eq, Structural)]
pub struct BufferUsage {
    pub storage: bool,
    pub uniform: bool,
    pub copy_src: bool,
    pub copy_dst: bool,
    pub map_read: bool,
}

/// How a buffer's bytes are set when it is created.
#[derive(Clone, Copy, Debug, PartialEq, Eq, Structural)]
pub enum BufferInit {
    /// Filled from the caller's input bytes.
    FromContents,
    /// All zero.
    Zeroed,
}

/// One buffer to create: its size in bytes, usage and initial contents.
#[derive(Clone, Copy, Debug, PartialEq, Eq, Structural)]
pub struct BufferSpec {
    pub size: u64,
    pub usage: BufferUsage,
    pub init: BufferInit,
}

/// The three buffers of one invocation.
#[derive(Clone, Copy, Debug, PartialEq, Eq, Structural)]
pub struct BufferPlan {
    pub input: BufferSpec,
    pub output: BufferSpec,
    pub staging: BufferSpec,
}

/// Readable as storage or as a uniform block.
pub open spec fn input_usage() -> BufferUsage {
    BufferUsage { storage: true, uniform: true, copy_src: false, copy_dst: false, map_read: false }
}

/// Written by the kernel and copied from.
pub open spec fn output_usage() -> BufferUsage {
    BufferUsage { storage: true, uniform: false, copy_src: true, copy_dst: false, map_read: false }
}

/// Copied into and mapped by the host.
pub open spec fn staging_usage() -> BufferUsage {
    BufferUsage { storage: false, uniform: false, copy_src: false, copy_dst: true, map_read: true }
}

/// The plan for `input_len` input bytes and an output of `out_size` bytes.
pub open spec fn buffer_plan_spec(input_len: u64, out_size: u64) -> BufferPlan {
    BufferPlan {
        input: BufferSpec { size: input_len, usage: input_usage(), init: BufferInit::FromContents },
        output: BufferSpec { size: out_size, usage: output_usage(), init: BufferInit::Zeroed },
        staging: BufferSpec { size: out_size, usage: staging_usage(), init: BufferInit::Zeroed },
    }
}

impl BufferPlan {
    /// Output and staging buffers have the same size.
    pub open spec fn wf(self) -> bool {
        self.output.size == self.staging.size
    }
}

/// The buffers for one invocation. The output size is checked against
/// `max_buffer_size` before anything is allocated: where it is larger, or does
/// not fit in `u64`, the plan is refused with `BufferSizeExceedsLimit`.
pub fn plan_buffers(
    input_len: u64,
    out_layout: &ElementLayout,
    grid: &GridConfig,
    max_buffer_size: u64,
) -> (r: Result<BufferPlan, HarnessError>)
    requires
        grid.wf(),
    ensures
        r is Err <==> size_for_spec(*out_layout, *grid) > max_buffer_size,
        r matches Err(e) ==> e == HarnessError::BufferSizeExceedsLimit,
        r matches Ok(p) ==> p.wf() && p == buffer_plan_spec(
            input_len,
            size_for_spec(*out_layout, *grid) as u64,
        ) && p.output.size == size_for_spec(*out_layout, *grid),
{
    match size_for(out_layout, grid) {
        Some(size) => {
            if size > max_buffer_size {
                Err(HarnessError::BufferSizeExceedsLimit)
            } else {
                Ok(BufferPlan {
                    input: BufferSpec {
                        size: input_len,
                        usage: BufferUsage {
                            storage: true,
                            uniform: true,
                            copy_src: false,
                            copy_dst: false,
                            map_read: false,
                        },
                        init: BufferInit::FromContents,
                    },
                    output: BufferSpec {
                        size,
                        usage: BufferUsage {
                            storage: true,
                            uniform: false,
                            copy_src: true,
                            copy_dst: false,
                            map_read: false,
                        },
                        init: BufferInit::Zeroed,
                    },
                    staging: BufferSpec {
                        size,
                        usage: BufferUsage {
                            storage: false,
                            uniform: false,
                            copy_src: false,
                            copy_dst: true,
                            map_read: true,
                        },
                        init: BufferInit::Zeroed,
                    },
                })
            }
        },
        None => Err(HarnessError::BufferSizeExceedsLimit),
    }
}

/// Where the output fits the device, the planned output buffer holds exactly
/// one element of the output layout per invocation, and so does the staging
/// buffer.
pub proof fn lemma_output_buffer_exact(
    input_len: u64,
    out_layout: ElementLayout,
    grid: GridConfig,
    max_buffer_size: u64,
)
    requires
        grid.wf(),
        size_for_spec(out_layout, grid) <= max_buffer_size,
    ensures
        ({
            let p = buffer_plan_spec(input_len, size_for_spec(out_layout, grid) as u64);
            &&& p.output.size == out_layout.min_size * grid.total_invocations()
            &&& p.staging.size == p.output.size
        }),
{
    crate::grid::lemma_size_nonneg(out_layout, grid);
}

} // verus!
