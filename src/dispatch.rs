use crate::buffers::BufferPlan;
use crate::grid::GridConfig;
use vstd::prelude::*;

verus! {

/// One entry of the recorded command sequence.
#[derive(Clone, Copy, Debug, PartialEq, Eq, Structural)]
pub enum Command {
    /// Bind the compute pipeline.
    SetPipeline,
    /// Bind the two-resource set at the given group index.
    SetBindGroup { index: u32 },
    /// Launch this many workgroups per axis.
    Dispatch { x: u32, y: u32, z: u32 },
    /// Copy `size` bytes from the start of the output buffer to the start of
    /// the staging buffer.
    CopyOutputToStaging { size: u64 },
}

/// Bind, dispatch the whole grid, then copy the entire output buffer: the
/// copy stands after the dispatch in the same sequence, so it sees its writes.
pub open spec fn commands_spec(grid: GridConfig, plan: BufferPlan) -> Seq<Command> {
    seq![
        Command::SetPipeline,
        Command::SetBindGroup { index: 0 },
        Command::Dispatch {
            x: grid.dispatch_count.x as u32,
            y: grid.dispatch_count.y as u32,
            z: grid.dispatch_count.z as u32,
        },
        Command::CopyOutputToStaging { size: plan.output.size },
    ]
}

/// The command sequence of one invocation.
pub fn record_commands(grid: &GridConfig, plan: &BufferPlan) -> (r: Vec<Command>)
    requires
        grid.wf(),
    ensures
        r@ == commands_spec(*grid, *plan),
        r@[2] matches Command::Dispatch { x, y, z } && x == grid.dispatch_count.x && y
            == grid.dispatch_count.y && z == grid.dispatch_count.z,
{
    let r = vec![
        Command::SetPipeline,
        Command::SetBindGroup { index: 0 },
        Command::Dispatch {
            x: grid.dispatch_count.x as u32,
            y: grid.dispatch_count.y as u32,
            z: grid.dispatch_count.z as u32,
        },
        Command::CopyOutputToStaging { size: plan.output.size },
    ];
    assert(r@ =~= commands_spec(*grid, *plan));
    r
}

} // verus!
