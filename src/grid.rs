use vstd::prelude::*;

verus! {

/// Three per-axis extents.
#[derive(Clone, Copy, Debug, PartialEq, Eq, Structural)]
pub struct Dims {
    pub x: u64,
    pub y: u64,
    pub z: u64,
}

impl Dims {
    pub open spec fn product(self) -> int {
        self.x as int * self.y as int * self.z as int
    }

    /// Every axis is at least one and fits the device's 32-bit counts.
    pub open spec fn wf(self) -> bool {
        &&& 1 <= self.x <= u32::MAX
        &&& 1 <= self.y <= u32::MAX
        &&& 1 <= self.z <= u32::MAX
    }
}

/// Threads per workgroup and workgroups launched, per axis.
#[derive(Clone, Copy, Debug, PartialEq, Eq, Structural)]
pub struct GridConfig {
    pub workgroup_size: Dims,
    pub dispatch_count: Dims,
}

/// Size and alignment that a type needs when bound to the kernel.
#[derive(Clone, Copy, Debug, PartialEq, Eq, Structural)]
pub struct ElementLayout {
    pub min_size: u64,
    pub align: u64,
}

impl GridConfig {
    pub open spec fn wf(self) -> bool {
        self.workgroup_size.wf() && self.dispatch_count.wf()
    }

    /// Product of all six components.
    pub open spec fn total_invocations(self) -> int {
        self.workgroup_size.product() * self.dispatch_count.product()
    }

    /// Builds a grid; `None` where a component is zero or exceeds `u32::MAX`.
    pub fn new(
        workgroup_x: u64,
        workgroup_y: u64,
        workgroup_z: u64,
        dispatch_x: u64,
        dispatch_y: u64,
        dispatch_z: u64,
    ) -> (r: Option<GridConfig>)
        ensures
            r matches Some(g) ==> g.wf() && g.workgroup_size == (Dims {
                x: workgroup_x,
                y: workgroup_y,
                z: workgroup_z,
            }) && g.dispatch_count == (Dims { x: dispatch_x, y: dispatch_y, z: dispatch_z }),
            r is Some <==> (Dims { x: workgroup_x, y: workgroup_y, z: workgroup_z }).wf() && (
            Dims { x: dispatch_x, y: dispatch_y, z: dispatch_z }).wf(),
    {
        let w = Dims { x: workgroup_x, y: workgroup_y, z: workgroup_z };
        let d = Dims { x: dispatch_x, y: dispatch_y, z: dispatch_z };
        if dims_ok(&w) && dims_ok(&d) {
            Some(GridConfig { workgroup_size: w, dispatch_count: d })
        } else {
            None
        }
    }

    /// Total invocation count, or `None` where it does not fit in `u64`.
    pub fn total_invocation_count(&self) -> (r: Option<u64>)
        requires
            self.wf(),
        ensures
            r matches Some(n) ==> n == self.total_invocations(),
            r is None <==> self.total_invocations() > u64::MAX,
    {
        checked_product(1, self)
    }
}

fn dims_ok(d: &Dims) -> (r: bool)
    ensures
        r == d.wf(),
{
    1 <= d.x && d.x <= 0xffff_ffff && 1 <= d.y && d.y <= 0xffff_ffff && 1 <= d.z && d.z
        <= 0xffff_ffff
}

/// Bytes for one element of `layout` per invocation of `grid`, `None` where
/// that does not fit in `u64`.
pub fn size_for(layout: &ElementLayout, grid: &GridConfig) -> (r: Option<u64>)
    requires
        grid.wf(),
    ensures
        r matches Some(n) ==> n == size_for_spec(*layout, *grid),
        r is None <==> size_for_spec(*layout, *grid) > u64::MAX,
{
    checked_product(layout.min_size, grid)
}

/// Bytes a buffer needs to hold one element of `layout` per invocation.
pub open spec fn size_for_spec(layout: ElementLayout, grid: GridConfig) -> int {
    layout.min_size as int * grid.total_invocations()
}

/// A size for a well-formed grid is never negative.
pub proof fn lemma_size_nonneg(layout: ElementLayout, grid: GridConfig)
    requires
        grid.wf(),
    ensures
        0 <= size_for_spec(layout, grid),
        0 < grid.total_invocations(),
{
    let w = grid.workgroup_size;
    let d = grid.dispatch_count;
    assert(0 < w.product()) by (nonlinear_arith)
        requires
            w.wf(),
    ;
    assert(0 < d.product()) by (nonlinear_arith)
        requires
            d.wf(),
    ;
    lemma_nonneg_mul(w.product(), d.product());
    assert(0 < grid.total_invocations()) by (nonlinear_arith)
        requires
            0 < w.product(),
            0 < d.product(),
            grid.total_invocations() == w.product() * d.product(),
    ;
    lemma_nonneg_mul(layout.min_size as int, grid.total_invocations());
}

proof fn lemma_nonneg_mul(a: int, b: int)
    requires
        0 <= a,
        0 <= b,
    ensures
        0 <= a * b,
        b >= 1 ==> a <= a * b,
        a >= 1 ==> b <= a * b,
{
    assert(0 <= a * b) by (nonlinear_arith)
        requires
            0 <= a,
            0 <= b,
    ;
    assert(b >= 1 ==> a <= a * b) by (nonlinear_arith)
        requires
            0 <= a,
            0 <= b,
    ;
    assert(a >= 1 ==> b <= a * b) by (nonlinear_arith)
        requires
            0 <= a,
            0 <= b,
    ;
}

proof fn lemma_grid_product(first: int, g: GridConfig)
    requires
        0 <= first,
    ensures
        first * g.total_invocations() == (((((first * g.workgroup_size.x) * g.workgroup_size.y)
            * g.workgroup_size.z) * g.dispatch_count.x) * g.dispatch_count.y)
            * g.dispatch_count.z,
{
    let w = g.workgroup_size;
    let d = g.dispatch_count;
    assert(first * ((w.x * w.y * w.z) as int * (d.x * d.y * d.z)) == (((((first * w.x) * w.y)
        * w.z) * d.x) * d.y) * d.z) by (nonlinear_arith);
}

proof fn lemma_partials_grow(partial: Seq<int>, factors: Seq<u64>, j: int)
    requires
        1 <= j <= 6,
        partial.len() == 7,
        factors.len() == 6,
        partial[j] > u64::MAX,
        forall|k: int| 0 <= k < 6 ==> #[trigger] partial[k + 1] == partial[k] * factors[k],
        forall|k: int| 0 <= k < 6 ==> #[trigger] factors[k] >= 1,
    ensures
        partial[6] > u64::MAX,
    decreases 6 - j,
{
    if j < 6 {
        assert(partial[j + 1] == partial[j] * factors[j]);
        assert(factors[j] >= 1);
        lemma_nonneg_mul(partial[j], factors[j] as int);
        lemma_partials_grow(partial, factors, j + 1);
    }
}

/// `first` times the six grid components, `None` on overflow of `u64`.
fn checked_product(first: u64, g: &GridConfig) -> (r: Option<u64>)
    requires
        g.wf(),
    ensures
        r matches Some(n) ==> n == first * g.total_invocations(),
        r is None <==> first * g.total_invocations() > u64::MAX,
{
    let factors: [u64; 6] = [
        g.workgroup_size.x,
        g.workgroup_size.y,
        g.workgroup_size.z,
        g.dispatch_count.x,
        g.dispatch_count.y,
        g.dispatch_count.z,
    ];
    proof {
        lemma_grid_product(first as int, *g);
    }
    let ghost partial = seq![
        first as int,
        first * g.workgroup_size.x,
        first * g.workgroup_size.x * g.workgroup_size.y,
        first * g.workgroup_size.x * g.workgroup_size.y * g.workgroup_size.z,
        first * g.workgroup_size.x * g.workgroup_size.y * g.workgroup_size.z * g.dispatch_count.x,
        first * g.workgroup_size.x * g.workgroup_size.y * g.workgroup_size.z * g.dispatch_count.x
            * g.dispatch_count.y,
        first * g.workgroup_size.x * g.workgroup_size.y * g.workgroup_size.z * g.dispatch_count.x
            * g.dispatch_count.y * g.dispatch_count.z,
    ];
    let mut acc: u64 = first;
    let mut i: usize = 0;
    while i < 6
        invariant
            0 <= i <= 6,
            partial.len() == 7,
            acc == partial[i as int],
            forall|k: int| 0 <= k < 6 ==> #[trigger] partial[k + 1] == partial[k] * factors@[k],
            forall|k: int| 0 <= k < 6 ==> #[trigger] factors@[k] >= 1,
            partial[6] == first * g.total_invocations(),
            forall|k: int| 0 <= k < 7 ==> #[trigger] partial[k] >= 0,
        decreases 6 - i,
    {
        match acc.checked_mul(factors[i]) {
            Some(next) => {
                acc = next;
            },
            None => {
                proof {
                    lemma_partials_grow(partial, factors@, i + 1);
                }
                return None;
            },
        }
        i = i + 1;
    }
    Some(acc)
}

} // verus!
