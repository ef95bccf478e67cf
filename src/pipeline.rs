use crate::error::HarnessError;
use crate::grid::GridConfig;
use vstd::prelude::*;

verus! {

/// The compile-time constants through which the kernel learns the grid.
#[derive(Clone, Copy, Debug, PartialEq, Eq, Structural)]
pub enum OverrideName {
    WorkgroupSizeX,
    WorkgroupSizeY,
    WorkgroupSizeZ,
    DispatchCountX,
    DispatchCountY,
    DispatchCountZ,
}

pub open spec fn override_name_spec(n: OverrideName) -> Seq<char> {
    match n {
        OverrideName::WorkgroupSizeX => "workgroup_size_x"@,
        OverrideName::WorkgroupSizeY => "workgroup_size_y"@,
        OverrideName::WorkgroupSizeZ => "workgroup_size_z"@,
        OverrideName::DispatchCountX => "dispatch_count_x"@,
        OverrideName::DispatchCountY => "dispatch_count_y"@,
        OverrideName::DispatchCountZ => "dispatch_count_z"@,
    }
}

impl OverrideName {
    /// The identifier of the constant in the kernel source.
    pub fn name(&self) -> (r: &'static str)
        ensures
            r@ == override_name_spec(*self),
    {
        match self {
            OverrideName::WorkgroupSizeX => "workgroup_size_x",
            OverrideName::WorkgroupSizeY => "workgroup_size_y",
            OverrideName::WorkgroupSizeZ => "workgroup_size_z",
            OverrideName::DispatchCountX => "dispatch_count_x",
            OverrideName::DispatchCountY => "dispatch_count_y",
            OverrideName::DispatchCountZ => "dispatch_count_z",
        }
    }
}

/// The six overrides, each with its grid component.
pub open spec fn overrides_spec(g: GridConfig) -> Seq<(OverrideName, u64)> {
    seq![
        (OverrideName::WorkgroupSizeX, g.workgroup_size.x),
        (OverrideName::WorkgroupSizeY, g.workgroup_size.y),
        (OverrideName::WorkgroupSizeZ, g.workgroup_size.z),
        (OverrideName::DispatchCountX, g.dispatch_count.x),
        (OverrideName::DispatchCountY, g.dispatch_count.y),
        (OverrideName::DispatchCountZ, g.dispatch_count.z),
    ]
}

/// The values fed to the kernel compiler for `grid`.
pub fn overrides(grid: &GridConfig) -> (r: Vec<(OverrideName, u64)>)
    ensures
        r@ == overrides_spec(*grid),
{
    let r = vec![
        (OverrideName::WorkgroupSizeX, grid.workgroup_size.x),
        (OverrideName::WorkgroupSizeY, grid.workgroup_size.y),
        (OverrideName::WorkgroupSizeZ, grid.workgroup_size.z),
        (OverrideName::DispatchCountX, grid.dispatch_count.x),
        (OverrideName::DispatchCountY, grid.dispatch_count.y),
        (OverrideName::DispatchCountZ, grid.dispatch_count.z),
    ];
    assert(r@ =~= overrides_spec(*grid));
    r
}

/// The product of the overrides handed to the kernel is the invocation count
/// used to size the buffers, so the kernel indexes exactly the grid the host
/// allocated for.
pub proof fn lemma_overrides_match_grid(grid: GridConfig)
    ensures
        ({
            let o = overrides_spec(grid);
            o[0].1 * o[1].1 * o[2].1 * o[3].1 * o[4].1 * o[5].1 == grid.total_invocations()
        }),
{
    let w = grid.workgroup_size;
    let d = grid.dispatch_count;
    assert(w.x * w.y * w.z * d.x * d.y * d.z == (w.x * w.y * w.z) as int * (d.x * d.y
        * d.z)) by (nonlinear_arith);
}

/// The entry point the kernel must declare.
pub open spec fn entry_point_spec() -> Seq<char> {
    "main"@
}

/// The name of the kernel's entry point.
pub fn entry_point() -> (r: &'static str)
    ensures
        r@ == entry_point_spec(),
{
    "main"
}

/// Checks that the kernel declares the agreed entry point among
/// `entry_points`; where it does not, compilation fails with
/// `ShaderCompileError`.
pub fn check_entry_point(entry_points: &Vec<String>) -> (r: Result<(), HarnessError>)
    ensures
        r is Ok <==> exists|i: int| 0 <= i < entry_points@.len() && (#[trigger] entry_points@[i])@
            == entry_point_spec(),
        r matches Err(e) ==> e == HarnessError::ShaderCompileError,
{
    let expected: String = entry_point().to_owned();
    let mut i: usize = 0;
    while i < entry_points.len()
        invariant
            0 <= i <= entry_points.len(),
            expected@ == entry_point_spec(),
            forall|k: int| 0 <= k < i ==> (#[trigger] entry_points@[k])@ != entry_point_spec(),
        decreases entry_points.len() - i,
    {
        if entry_points[i] == expected {
            return Ok(());
        }
        i = i + 1;
    }
    Err(HarnessError::ShaderCompileError)
}

} // verus!
